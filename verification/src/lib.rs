//! Driver core for a 64x32 HUB75-style RGB LED matrix scanned as two
//! 16-row halves. The crate keeps a gamma-corrected framebuffer, computes
//! the binary-coded-modulation hold times that keep perceived brightness
//! constant across bit depths, and walks rows and bit-planes over small
//! pin-control traits that a board support layer implements.

use vstd::prelude::*;

pub mod compensation;
pub mod gamma;
pub mod pins;

use crate::compensation::{bits_ok, h_stored, ratio_ok, ConfigError, FrameTimeCompensation};
use crate::gamma::{gamma_lookup, gamma_value};
use crate::pins::{DelayProvider, IsColorPins, IsDataPins, IsRowPins};

verus! {

/// A pixel write is visible only inside the 64x32 bounding box; everything
/// else is silently discarded.
pub open spec fn in_bounds(x: i32, y: i32) -> bool {
    0 <= x < 64 && 0 <= y < 32
}

/// The 5-bit red field of a packed 565 color word.
pub open spec fn red5(color: u16) -> u16 {
    (color >> 11) & 0x1f
}

/// The 6-bit green field of a packed 565 color word.
pub open spec fn green6(color: u16) -> u16 {
    (color >> 5) & 0x3f
}

/// The 5-bit blue field of a packed 565 color word.
pub open spec fn blue5(color: u16) -> u16 {
    color & 0x1f
}

/// The gamma-corrected cell stored for a 565 color: each channel value is
/// expanded to an 8-bit gamma-table index by the `(value + 1) * scale - 1`
/// rule, with scale 8 for the 5-bit channels and 4 for the 6-bit channel.
pub open spec fn quantized(color: u16) -> (u8, u8, u8) {
    (
        gamma_value(8 * (red5(color) + 1) - 1),
        gamma_value(4 * (green6(color) + 1) - 1),
        gamma_value(8 * (blue5(color) + 1) - 1),
    )
}

/// One half-frame (16 rows by 64 columns) after a single pixel write:
/// an in-bounds write replaces the addressed cell of the proper half with
/// the quantized color, an out-of-bounds write changes nothing.
pub open spec fn frame_after_write(
    up: Seq<(u8, u8, u8)>,
    lo: Seq<(u8, u8, u8)>,
    x: i32,
    y: i32,
    color: u16,
) -> (Seq<(u8, u8, u8)>, Seq<(u8, u8, u8)>) {
    if in_bounds(x, y) {
        if y < 16 {
            (up.update(y * 64 + x, quantized(color)), lo)
        } else {
            (up, lo.update((y - 16) * 64 + x, quantized(color)))
        }
    } else {
        (up, lo)
    }
}

/// Both halves after a batch of pixel writes applied first to last, so a
/// later write to the same coordinate wins.
pub open spec fn frame_after_writes(
    up: Seq<(u8, u8, u8)>,
    lo: Seq<(u8, u8, u8)>,
    pixels: Seq<(i32, i32, u16)>,
) -> (Seq<(u8, u8, u8)>, Seq<(u8, u8, u8)>)
    decreases pixels.len(),
{
    if pixels.len() == 0 {
        (up, lo)
    } else {
        let head = frame_after_write(up, lo, pixels[0].0, pixels[0].1, pixels[0].2);
        frame_after_writes(head.0, head.1, pixels.drop_first())
    }
}

/// A batch is one write longer: the frame after it is the frame after the
/// shorter batch with the extra write applied last.
proof fn lemma_frame_after_writes_push(
    up: Seq<(u8, u8, u8)>,
    lo: Seq<(u8, u8, u8)>,
    pixels: Seq<(i32, i32, u16)>,
    p: (i32, i32, u16),
)
    ensures
        frame_after_writes(up, lo, pixels.push(p)) == ({
            let prior = frame_after_writes(up, lo, pixels);
            frame_after_write(prior.0, prior.1, p.0, p.1, p.2)
        }),
    decreases pixels.len(),
{
    reveal_with_fuel(frame_after_writes, 3);
    if pixels.len() == 0 {
        assert(pixels.push(p).drop_first() =~= pixels);
    } else {
        let head = frame_after_write(up, lo, pixels[0].0, pixels[0].1, pixels[0].2);
        assert(pixels.push(p).drop_first() =~= pixels.drop_first().push(p));
        lemma_frame_after_writes_push(head.0, head.1, pixels.drop_first(), p);
    }
}

/// Duplicate coordinates in a batch are tolerated: writing the same
/// coordinate twice leaves exactly what the later write leaves.
pub proof fn lemma_last_write_wins(
    up: Seq<(u8, u8, u8)>,
    lo: Seq<(u8, u8, u8)>,
    x: i32,
    y: i32,
    first: u16,
    second: u16,
)
    requires
        up.len() == 1024,
        lo.len() == 1024,
    ensures
        ({
            let mid = frame_after_write(up, lo, x, y, first);
            frame_after_write(mid.0, mid.1, x, y, second)
        }) == frame_after_write(up, lo, x, y, second),
{
    if in_bounds(x, y) {
        let mid = frame_after_write(up, lo, x, y, first);
        let twice = frame_after_write(mid.0, mid.1, x, y, second);
        let once = frame_after_write(up, lo, x, y, second);
        assert(twice.0 =~= once.0);
        assert(twice.1 =~= once.1);
    }
}

/// Writes to two different coordinates are independent: applying them in
/// either order leaves the same frame, so a batch may arrive unordered.
pub proof fn lemma_distinct_writes_commute(
    up: Seq<(u8, u8, u8)>,
    lo: Seq<(u8, u8, u8)>,
    x1: i32,
    y1: i32,
    color1: u16,
    x2: i32,
    y2: i32,
    color2: u16,
)
    requires
        up.len() == 1024,
        lo.len() == 1024,
        !(x1 == x2 && y1 == y2),
    ensures
        ({
            let mid = frame_after_write(up, lo, x1, y1, color1);
            frame_after_write(mid.0, mid.1, x2, y2, color2)
        }) == ({
            let mid = frame_after_write(up, lo, x2, y2, color2);
            frame_after_write(mid.0, mid.1, x1, y1, color1)
        }),
{
    let mid12 = frame_after_write(up, lo, x1, y1, color1);
    let end12 = frame_after_write(mid12.0, mid12.1, x2, y2, color2);
    let mid21 = frame_after_write(up, lo, x2, y2, color2);
    let end21 = frame_after_write(mid21.0, mid21.1, x1, y1, color1);
    if in_bounds(x1, y1) && in_bounds(x2, y2) {
        // Distinct coordinates of one half land on distinct cell indices.
        if y1 < 16 && y2 < 16 {
            assert(y1 * 64 + x1 != y2 * 64 + x2);
        } else if y1 >= 16 && y2 >= 16 {
            assert((y1 - 16) * 64 + x1 != (y2 - 16) * 64 + x2);
        }
    }
    assert(end12.0 =~= end21.0);
    assert(end12.1 =~= end21.1);
}

/// A fresh all-black half-frame.
fn black_half() -> (v: Vec<(u8, u8, u8)>)
    ensures
        v@.len() == 1024,
        forall|i: int| 0 <= i < 1024 ==> v@[i] == (0u8, 0u8, 0u8),
{
    let mut v: Vec<(u8, u8, u8)> = Vec::new();
    let mut i: usize = 0;
    while i < 1024
        invariant
            i <= 1024,
            v@.len() == i,
            forall|j: int| 0 <= j < i ==> v@[j] == (0u8, 0u8, 0u8),
        decreases 1024 - i,
    {
        v.push((0u8, 0u8, 0u8));
        i = i + 1;
    }
    v
}

/// A 64x32 display with 2 colors written at a time: the upper and lower
/// 16-row halves share a row strobe and are shifted out in parallel.
#[allow(non_camel_case_types)]
pub struct Hub75_64_32_2<UpperColorPins, LowerColorPins, RowPins, DataPins> where
    UpperColorPins: IsColorPins,
    LowerColorPins: IsColorPins,
    RowPins: IsRowPins,
    DataPins: IsDataPins,
 {
    top_data: Vec<(u8, u8, u8)>,
    bottom_data: Vec<(u8, u8, u8)>,
    ftc: FrameTimeCompensation,
    upper_color_pins: UpperColorPins,
    lower_color_pins: LowerColorPins,
    row_pins: RowPins,
    data_pins: DataPins,
}

impl<UpperColorPins, LowerColorPins, RowPins, DataPins> Hub75_64_32_2<
    UpperColorPins,
    LowerColorPins,
    RowPins,
    DataPins,
> where
    UpperColorPins: IsColorPins,
    LowerColorPins: IsColorPins,
    RowPins: IsRowPins,
    DataPins: IsDataPins,
 {
    /// The cells of the upper half in row-major order.
    pub closed spec fn upper(self) -> Seq<(u8, u8, u8)> {
        self.top_data@
    }

    /// The cells of the lower half in row-major order.
    pub closed spec fn lower(self) -> Seq<(u8, u8, u8)> {
        self.bottom_data@
    }

    /// The configured bit depth.
    pub closed spec fn bits(self) -> u8 {
        self.ftc.bits()
    }

    /// The brightness compensation constant `H`.
    pub closed spec fn h(self) -> u32 {
        self.ftc.h()
    }

    pub open spec fn wf(self) -> bool {
        &&& self.upper().len() == 1024
        &&& self.lower().len() == 1024
        &&& bits_ok(self.bits())
    }

    /// The cell at logical row `row` and column `col`: rows 0..16 live in
    /// the upper half, rows 16..32 in the lower half at `row - 16`.
    pub open spec fn cell(self, row: int, col: int) -> (u8, u8, u8)
        recommends
            0 <= row < 32,
            0 <= col < 64,
    {
        if row < 16 {
            self.upper()[row * 64 + col]
        } else {
            self.lower()[(row - 16) * 64 + col]
        }
    }

    /// Construct a new display instance over the given pin interfaces.
    ///
    /// `bits` selects how many of the most significant bits of each channel
    /// are scanned (1..=8). The on-ratio `ratio_num / ratio_den` must lie
    /// strictly between 0 and 1; it trades observed brightness against
    /// refresh rate. The framebuffer starts all black.
    pub fn new(
        upper_color_pins: UpperColorPins,
        lower_color_pins: LowerColorPins,
        row_pins: RowPins,
        data_pins: DataPins,
        bits: u8,
        ratio_num: i64,
        ratio_den: i64,
    ) -> (r: Result<Self, ConfigError>)
        ensures
            r is Ok <==> bits_ok(bits) && ratio_ok(ratio_num, ratio_den),
            r matches Ok(d) ==> {
                &&& d.wf()
                &&& d.bits() == bits
                &&& d.h() == h_stored(bits, ratio_num, ratio_den)
                &&& forall|row: int, col: int|
                    0 <= row < 32 && 0 <= col < 64 ==> d.cell(row, col) == (0u8, 0u8, 0u8)
            },
            !bits_ok(bits) ==> (r matches Err(e) && e == ConfigError::BitsOutOfRange),
            bits_ok(bits) && !ratio_ok(ratio_num, ratio_den) ==> (r matches Err(e) && e
                == ConfigError::RatioOutOfRange),
    {
        let ftc = match FrameTimeCompensation::new(bits, ratio_num, ratio_den) {
            Ok(ftc) => ftc,
            Err(e) => {
                return Err(e);
            },
        };
        Ok(
            Hub75_64_32_2 {
                top_data: black_half(),
                bottom_data: black_half(),
                ftc,
                upper_color_pins,
                lower_color_pins,
                row_pins,
                data_pins,
            },
        )
    }

    /// Write one pixel given as a packed 565 color word.
    ///
    /// An in-bounds coordinate replaces exactly the addressed cell with the
    /// gamma-corrected quantization of the color; anything outside the
    /// bounding box is a no-op, not an error.
    pub fn set_pixel(&mut self, x: i32, y: i32, color: u16)
        requires
            old(self).wf(),
        ensures
            final(self).wf(),
            final(self).bits() == old(self).bits(),
            final(self).h() == old(self).h(),
            (final(self).upper(), final(self).lower()) == frame_after_write(
                old(self).upper(),
                old(self).lower(),
                x,
                y,
                color,
            ),
            in_bounds(x, y) ==> final(self).cell(y as int, x as int) == quantized(color),
            forall|row: int, col: int|
                0 <= row < 32 && 0 <= col < 64 && !(in_bounds(x, y) && row == y && col == x)
                    ==> final(self).cell(row, col) == old(self).cell(row, col),
    {
        if x >= 0 && x < 64 && y >= 0 && y < 32 {
            proof {
                assert((color >> 11) & 0x1f < 32 && (color >> 5) & 0x3f < 64 && color & 0x1f < 32)
                    by (bit_vector);
            }
            let r5: u16 = (color >> 11) & 0x1f;
            let g6: u16 = (color >> 5) & 0x3f;
            let b5: u16 = color & 0x1f;
            let cell = (
                gamma_lookup(((r5 as usize + 1) * 8 - 1) as u8),
                gamma_lookup(((g6 as usize + 1) * 4 - 1) as u8),
                gamma_lookup(((b5 as usize + 1) * 8 - 1) as u8),
            );
            let col: usize = x as usize;
            if y < 16 {
                let idx: usize = (y as usize) * 64 + col;
                self.top_data[idx] = cell;
            } else {
                let idx: usize = (y as usize - 16) * 64 + col;
                self.bottom_data[idx] = cell;
            }
        }
    }

    /// Apply a batch of pixel writes, one `(x, y, color)` triple at a time,
    /// in order: duplicate coordinates are allowed and the last write wins.
    pub fn draw_iter(&mut self, pixels: &Vec<(i32, i32, u16)>)
        requires
            old(self).wf(),
        ensures
            final(self).wf(),
            final(self).bits() == old(self).bits(),
            final(self).h() == old(self).h(),
            (final(self).upper(), final(self).lower()) == frame_after_writes(
                old(self).upper(),
                old(self).lower(),
                pixels@,
            ),
    {
        let mut i: usize = 0;
        while i < pixels.len()
            invariant
                old(self).wf(),
                self.wf(),
                self.bits() == old(self).bits(),
                self.h() == old(self).h(),
                i <= pixels@.len(),
                (self.upper(), self.lower()) == frame_after_writes(
                    old(self).upper(),
                    old(self).lower(),
                    pixels@.take(i as int),
                ),
            decreases pixels@.len() - i,
        {
            let p = pixels[i];
            self.set_pixel(p.0, p.1, p.2);
            proof {
                assert(pixels@.take(i + 1) =~= pixels@.take(i as int).push(pixels@[i as int]));
                lemma_frame_after_writes_push(
                    old(self).upper(),
                    old(self).lower(),
                    pixels@.take(i as int),
                    pixels@[i as int],
                );
            }
            i = i + 1;
        }
        proof {
            assert(pixels@.take(pixels@.len() as int) =~= pixels@);
        }
    }

    /// Reset the framebuffer to all black. The panel itself changes only
    /// once the next refresh pass runs.
    pub fn wipe(&mut self)
        requires
            old(self).wf(),
        ensures
            final(self).wf(),
            final(self).bits() == old(self).bits(),
            final(self).h() == old(self).h(),
            forall|row: int, col: int|
                0 <= row < 32 && 0 <= col < 64 ==> final(self).cell(row, col) == (0u8, 0u8, 0u8),
    {
        self.top_data = black_half();
        self.bottom_data = black_half();
    }

    /// Read back the cell at logical row `row` and column `col`.
    pub fn get_cell(&self, row: usize, col: usize) -> (r: (u8, u8, u8))
        requires
            self.wf(),
            row < 32,
            col < 64,
        ensures
            r == self.cell(row as int, col as int),
    {
        if row < 16 {
            self.top_data[row * 64 + col]
        } else {
            self.bottom_data[(row - 16) * 64 + col]
        }
    }
}

impl<E, UpperColorPins, LowerColorPins, RowPins, DataPins> Hub75_64_32_2<
    UpperColorPins,
    LowerColorPins,
    RowPins,
    DataPins,
> where
    UpperColorPins: IsColorPins<Error = E>,
    LowerColorPins: IsColorPins<Error = E>,
    RowPins: IsRowPins<Error = E>,
    DataPins: IsDataPins<Error = E>,
 {
    /// Output the framebuffer to the display: one full refresh pass.
    ///
    /// For each of the 16 row pairs in ascending order the row address is
    /// asserted, then for each bit-plane from least to most significant all
    /// 64 columns are shifted, the register is latched, and the row is
    /// shown for the plane's compensated hold time. The first error from a
    /// pin or delay interface aborts the pass and is returned unchanged;
    /// the framebuffer and the configuration are never modified.
    ///
    /// This call is time-sensitive and should be repeated as often as
    /// possible to sustain a flicker-free image.
    pub fn output<Delay: DelayProvider>(&mut self, delay: &mut Delay) -> (r: Result<(), E>)
        requires
            old(self).wf(),
        ensures
            final(self).wf(),
            final(self).upper() == old(self).upper(),
            final(self).lower() == old(self).lower(),
            final(self).bits() == old(self).bits(),
            final(self).h() == old(self).h(),
    {
        let bits: u8 = self.ftc.depth();
        let mut row: u8 = 0;
        while row < 16
            invariant
                self.wf(),
                self.upper() == old(self).upper(),
                self.lower() == old(self).lower(),
                self.bits() == old(self).bits(),
                self.h() == old(self).h(),
                bits == self.bits(),
                row <= 16,
            decreases 16 - row,
        {
            if let Err(e) = self.row_pins.set_row(row) {
                return Err(e);
            }
            let mut mask: u8 = 0;
            while mask < bits
                invariant
                    self.wf(),
                    self.upper() == old(self).upper(),
                    self.lower() == old(self).lower(),
                    self.bits() == old(self).bits(),
                    self.h() == old(self).h(),
                    bits == self.bits(),
                    row < 16,
                    mask <= bits,
                decreases bits - mask,
            {
                let mut col: usize = 0;
                while col < 64
                    invariant
                        self.wf(),
                        self.upper() == old(self).upper(),
                        self.lower() == old(self).lower(),
                        self.bits() == old(self).bits(),
                        self.h() == old(self).h(),
                        bits == self.bits(),
                        row < 16,
                        mask < bits,
                        col <= 64,
                    decreases 64 - col,
                {
                    let idx: usize = (row as usize) * 64 + col;
                    let upper_cell = self.top_data[idx];
                    let lower_cell = self.bottom_data[idx];
                    if let Err(e) = self.upper_color_pins.set_color(&upper_cell, mask, bits) {
                        return Err(e);
                    }
                    if let Err(e) = self.lower_color_pins.set_color(&lower_cell, mask, bits) {
                        return Err(e);
                    }
                    if let Err(e) = self.data_pins.shift(delay) {
                        return Err(e);
                    }
                    col = col + 1;
                }
                if let Err(e) = self.data_pins.latch(delay) {
                    return Err(e);
                }
                let hold: u32 = self.ftc.duration(mask);
                if let Err(e) = self.data_pins.show(delay, hold) {
                    return Err(e);
                }
                mask = mask + 1;
            }
            row = row + 1;
        }
        Ok(())
    }
}

} // verus!
