use hub75::pins::{channel_bit, row_bit};

#[test]
fn channel_bit_is_msb_aligned() {
    // At depth `bits`, plane `mask` reads bit `mask + 8 - bits`.
    // value 0b1010_0000 at depth 4 exposes its top nibble 1010.
    let value = 0b1010_0000u8;
    assert!(channel_bit(value, 3, 4)); // bit 7
    assert!(!channel_bit(value, 2, 4)); // bit 6
    assert!(channel_bit(value, 1, 4)); // bit 5
    assert!(!channel_bit(value, 0, 4)); // bit 4

    // At full depth every bit of the value is scanned.
    assert!(channel_bit(0b0000_0001, 0, 8));
    assert!(!channel_bit(0b0000_0001, 1, 8));
    assert!(channel_bit(0b1000_0000, 7, 8));

    // At depth 1 only the most significant bit matters.
    assert!(channel_bit(0x80, 0, 1));
    assert!(!channel_bit(0x7f, 0, 1));
}

#[test]
fn row_bits_encode_the_address() {
    // Row 10 = 0b1010 on the four select lines.
    assert!(!row_bit(10, 0));
    assert!(row_bit(10, 1));
    assert!(!row_bit(10, 2));
    assert!(row_bit(10, 3));
    for row in 0..16u8 {
        let decoded = (row_bit(row, 0) as u8)
            | ((row_bit(row, 1) as u8) << 1)
            | ((row_bit(row, 2) as u8) << 2)
            | ((row_bit(row, 3) as u8) << 3);
        assert_eq!(decoded, row);
    }
}
