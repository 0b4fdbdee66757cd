//! Capability traits for the electrical interface of the panel, and the
//! bit-selection rules their implementations follow.
//!
//! A board support layer implements these traits by toggling GPIO lines;
//! the scan engine only calls through them. The verified helpers below
//! compute which bit of a channel or of a row address a pin must present,
//! so an implementation can stay a bare pin toggle.

use vstd::prelude::*;
use crate::compensation::bits_ok;

verus! {

/// A blocking wait supplied by the host environment, in the delay units
/// (micro- or nanoseconds) that the board's timing is calibrated for.
pub trait DelayProvider {
    /// Block for `units` delay units.
    fn delay_units(&mut self, units: u32);
}

/// Pins that present one bit of each color channel of a cell to the shift
/// register. Two independent instances exist: one per display half.
pub trait IsColorPins {
    type Error;

    /// Set the pin states to the channel bits of `color` selected by
    /// bit-plane `mask` at depth `bits`.
    fn set_color(&mut self, color: &(u8, u8, u8), mask: u8, bits: u8) -> Result<(), Self::Error>
        requires
            bits_ok(bits),
            mask < bits,
    ;
}

/// Pins that assert the 4-bit row-select lines shared by both halves.
pub trait IsRowPins {
    type Error;

    /// Set the pin states to the binary encoding of `row`.
    fn set_row(&mut self, row: u8) -> Result<(), Self::Error>
        requires
            row < 16,
    ;
}

/// Pins that move data into the panel: clock, latch, and output enable.
pub trait IsDataPins {
    type Error;

    /// Pulse the clock line to shift one column's bits into the register.
    fn shift<Delay: DelayProvider>(&mut self, delay: &mut Delay) -> Result<(), Self::Error>;

    /// Pulse the latch line to commit the shifted bits to the outputs.
    fn latch<Delay: DelayProvider>(&mut self, delay: &mut Delay) -> Result<(), Self::Error>;

    /// Drive output enable low, wait `duration` delay units, and drive it
    /// high again: the row is lit exactly during the low phase.
    fn show<Delay: DelayProvider>(&mut self, delay: &mut Delay, duration: u32) -> Result<
        (),
        Self::Error,
    >;
}

/// The bit of an 8-bit channel value that bit-plane `mask` presents at
/// depth `bits`: bit position `mask + 8 - bits`, so the `bits` planes
/// together cover exactly the most significant `bits` bits of the channel.
pub open spec fn spec_channel_bit(value: u8, mask: u8, bits: u8) -> bool
    recommends
        bits_ok(bits),
        mask < bits,
{
    (value >> ((mask + 8 - bits) as u8)) & 1 == 1
}

/// Whether the color pin of one channel must be high for bit-plane `mask`
/// at depth `bits`.
pub fn channel_bit(value: u8, mask: u8, bits: u8) -> (r: bool)
    requires
        bits_ok(bits),
        mask < bits,
    ensures
        r == spec_channel_bit(value, mask, bits),
{
    let shift: u8 = mask + 8 - bits;
    (value >> shift) & 1 == 1
}

/// The state of row-select line `line` (0..4) when row `row` is addressed:
/// bit `line` of the row's binary encoding.
pub open spec fn spec_row_bit(row: u8, line: u8) -> bool
    recommends
        row < 16,
        line < 4,
{
    (row >> line) & 1 == 1
}

/// Whether row-select line `line` must be high to address `row`.
pub fn row_bit(row: u8, line: u8) -> (r: bool)
    requires
        row < 16,
        line < 4,
    ensures
        r == spec_row_bit(row, line),
{
    (row >> line) & 1 == 1
}

} // verus!
