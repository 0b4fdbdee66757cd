use hub75::compensation::ConfigError;
use hub75::gamma::gamma_lookup;
use hub75::pins::{DelayProvider, IsColorPins, IsDataPins, IsRowPins};
use hub75::Hub75_64_32_2;

struct NullColorPins;

impl IsColorPins for NullColorPins {
    type Error = u8;

    fn set_color(&mut self, _color: &(u8, u8, u8), _mask: u8, _bits: u8) -> Result<(), u8> {
        Ok(())
    }
}

struct NullRowPins;

impl IsRowPins for NullRowPins {
    type Error = u8;

    fn set_row(&mut self, _row: u8) -> Result<(), u8> {
        Ok(())
    }
}

struct NullDataPins;

impl IsDataPins for NullDataPins {
    type Error = u8;

    fn shift<D: DelayProvider>(&mut self, _delay: &mut D) -> Result<(), u8> {
        Ok(())
    }

    fn latch<D: DelayProvider>(&mut self, _delay: &mut D) -> Result<(), u8> {
        Ok(())
    }

    fn show<D: DelayProvider>(&mut self, _delay: &mut D, _duration: u32) -> Result<(), u8> {
        Ok(())
    }
}

type Display = Hub75_64_32_2<NullColorPins, NullColorPins, NullRowPins, NullDataPins>;

fn display(bits: u8) -> Display {
    Hub75_64_32_2::new(NullColorPins, NullColorPins, NullRowPins, NullDataPins, bits, 1, 2)
        .unwrap()
}

fn snapshot(d: &Display) -> Vec<(u8, u8, u8)> {
    let mut cells = Vec::new();
    for row in 0..32 {
        for col in 0..64 {
            cells.push(d.get_cell(row, col));
        }
    }
    cells
}

#[test]
fn gamma_lookup_is_idempotent_and_monotonic() {
    let mut prev = gamma_lookup(0);
    for i in 0..=255u8 {
        let v = gamma_lookup(i);
        // A pure lookup: asking twice gives the same answer.
        assert_eq!(v, gamma_lookup(i));
        assert!(v >= prev, "gamma table must be nondecreasing");
        prev = v;
    }
    assert_eq!(gamma_lookup(0), 0);
    assert_eq!(gamma_lookup(255), 255);
}

#[test]
fn pixel_zero_at_origin_uses_offset_gamma_entries() {
    // Color value 0 at depth 8: channel 0 maps to table index
    // (0 + 1) * 8 - 1 = 7 for red/blue and (0 + 1) * 4 - 1 = 3 for green.
    let mut d = display(8);
    d.set_pixel(0, 0, 0);
    assert_eq!(
        d.get_cell(0, 0),
        (gamma_lookup(7), gamma_lookup(3), gamma_lookup(7))
    );
    assert_eq!(d.get_cell(0, 0), (0, 0, 0));
}

#[test]
fn pixel_quantization_is_gamma_corrected() {
    // r5 = 10, g6 = 20, b5 = 5 packed as a 565 word.
    let word: u16 = (10 << 11) | (20 << 5) | 5;
    let mut d = display(8);
    d.set_pixel(12, 7, word);
    assert_eq!(
        d.get_cell(7, 12),
        (gamma_lookup(87), gamma_lookup(83), gamma_lookup(47))
    );
    assert_eq!(d.get_cell(7, 12), (13, 11, 2));
}

#[test]
fn corner_pixel_lands_in_lower_half() {
    let mut d = display(8);
    d.set_pixel(63, 31, 0xffff);
    // Row 31 is local row 15 of the lower half; full white maps to
    // gamma[255] = 255 on every channel.
    assert_eq!(d.get_cell(31, 63), (255, 255, 255));
    // No other cell was touched.
    for row in 0..32 {
        for col in 0..64 {
            if (row, col) != (31, 63) {
                assert_eq!(d.get_cell(row, col), (0, 0, 0));
            }
        }
    }
}

#[test]
fn upper_lower_split_at_row_16() {
    let mut d = display(8);
    d.set_pixel(5, 15, 0xffff);
    d.set_pixel(5, 16, 0xffff);
    assert_eq!(d.get_cell(15, 5), (255, 255, 255));
    assert_eq!(d.get_cell(16, 5), (255, 255, 255));
}

#[test]
fn out_of_bounds_writes_are_no_ops() {
    let mut d = display(8);
    d.set_pixel(3, 9, 0x5285);
    let before = snapshot(&d);
    d.set_pixel(64, 0, 0xffff);
    d.set_pixel(0, 32, 0xffff);
    d.set_pixel(-1, 0, 0xffff);
    d.set_pixel(0, -1, 0xffff);
    d.set_pixel(i32::MIN, i32::MIN, 0xffff);
    assert_eq!(snapshot(&d), before);
}

#[test]
fn draw_iter_applies_batch_in_order() {
    let mut d = display(8);
    let word: u16 = (10 << 11) | (20 << 5) | 5;
    // Unordered coordinates, a duplicate where the last write wins, and
    // out-of-bounds entries that are dropped.
    let batch = vec![
        (63, 31, 0xffffu16),
        (0, 0, 0x5285),
        (64, 0, 0xffff),
        (0, 0, word),
        (-7, 12, 0xffff),
    ];
    d.draw_iter(&batch);
    assert_eq!(d.get_cell(31, 63), (255, 255, 255));
    assert_eq!(d.get_cell(0, 0), (13, 11, 2));
    assert_eq!(d.get_cell(12, 0), (0, 0, 0));
}

#[test]
fn wipe_resets_every_cell() {
    let mut d = display(8);
    for row in 0..32 {
        for col in 0..64 {
            d.set_pixel(col, row, 0xffff);
        }
    }
    assert_eq!(d.get_cell(17, 40), (255, 255, 255));
    d.wipe();
    for row in 0..32 {
        for col in 0..64 {
            assert_eq!(d.get_cell(row, col), (0, 0, 0));
        }
    }
}

#[test]
fn new_rejects_bad_configuration() {
    let r = Hub75_64_32_2::new(NullColorPins, NullColorPins, NullRowPins, NullDataPins, 8, 2, 2);
    assert!(matches!(r, Err(ConfigError::RatioOutOfRange)));
    let r = Hub75_64_32_2::new(NullColorPins, NullColorPins, NullRowPins, NullDataPins, 0, 1, 2);
    assert!(matches!(r, Err(ConfigError::BitsOutOfRange)));
}
