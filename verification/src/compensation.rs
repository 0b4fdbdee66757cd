//! Brightness compensation for binary-coded modulation.
//!
//! Each refresh pass shows every bit-plane of a row for a time proportional
//! to the bit's binary weight. Because the fixed shift/latch overhead per
//! plane grows with the bit depth, a naive scheme dims as the depth rises.
//! The compensation constant `H`, derived from the configured on-ratio,
//! absorbs that overhead so perceived brightness stays constant.

use vstd::prelude::*;
use vstd::arithmetic::div_mod::{lemma_div_is_ordered, lemma_multiply_divide_le};
use vstd::arithmetic::mul::lemma_mul_inequality;
use vstd::arithmetic::power2::{lemma2_to64, lemma_pow2_pos, lemma_pow2_strictly_increases, pow2};
use vstd::bits::lemma_u64_shl_is_mul;

verus! {

/// Rejection reasons for [`FrameTimeCompensation::new`].
#[derive(Clone, Copy, Debug, PartialEq, Eq, Structural)]
pub enum ConfigError {
    /// The bit depth was not in `1..=8`.
    BitsOutOfRange,
    /// The on-ratio was not strictly between 0 and 1.
    RatioOutOfRange,
}

/// A bit depth is valid when it selects between 1 and 8 of the most
/// significant bits of each 8-bit channel.
pub open spec fn bits_ok(bits: u8) -> bool {
    1 <= bits <= 8
}

/// The on-ratio `ratio_num / ratio_den` lies strictly between 0 and 1.
pub open spec fn ratio_ok(ratio_num: i64, ratio_den: i64) -> bool {
    0 < ratio_num < ratio_den
}

/// The compensation constant before saturation:
/// `H = floor((2 * bits + 1) * on_ratio / (1 - on_ratio))`
/// with `on_ratio = ratio_num / ratio_den`, which simplifies to
/// `floor((2 * bits + 1) * ratio_num / (ratio_den - ratio_num))`.
pub open spec fn h_value(bits: u8, ratio_num: i64, ratio_den: i64) -> int
    recommends
        ratio_ok(ratio_num, ratio_den),
{
    (2 * bits + 1) * ratio_num / (ratio_den - ratio_num)
}

/// `h_value`, clamped into `u32` range.
pub open spec fn h_stored(bits: u8, ratio_num: i64, ratio_den: i64) -> int
    recommends
        ratio_ok(ratio_num, ratio_den),
{
    if h_value(bits, ratio_num, ratio_den) > u32::MAX {
        u32::MAX as int
    } else {
        h_value(bits, ratio_num, ratio_den)
    }
}

/// Hold time of bit-plane `mask`:
/// `duration(mask) = floor(2^mask * H / (2^bits - 1))`.
pub open spec fn duration_value(bits: u8, h: u32, mask: u8) -> int
    recommends
        bits_ok(bits),
        mask < bits,
{
    pow2(mask as nat) * h / (pow2(bits as nat) - 1)
}

/// Holds the compensation constant `H` for a fixed bit depth and turns a
/// bit-plane index into the time its plane stays lit.
#[derive(Clone, Copy, Debug, PartialEq, Eq, Structural)]
pub struct FrameTimeCompensation {
    bits: u8,
    h: u32,
}

impl FrameTimeCompensation {
    /// The configured bit depth.
    pub closed spec fn bits(self) -> u8 {
        self.bits
    }

    /// The compensation constant `H`.
    pub closed spec fn h(self) -> u32 {
        self.h
    }

    pub open spec fn wf(self) -> bool {
        bits_ok(self.bits())
    }

    /// Derives `H` from the bit depth and the on-ratio `ratio_num / ratio_den`.
    ///
    /// Construction fails unless the bit depth is in `1..=8` and the
    /// on-ratio is strictly between 0 and 1.
    pub fn new(bits: u8, ratio_num: i64, ratio_den: i64) -> (r: Result<Self, ConfigError>)
        ensures
            r is Ok <==> bits_ok(bits) && ratio_ok(ratio_num, ratio_den),
            r matches Ok(ftc) ==> ftc.wf() && ftc.bits() == bits && ftc.h() == h_stored(
                bits,
                ratio_num,
                ratio_den,
            ),
            !bits_ok(bits) ==> r == Result::<Self, ConfigError>::Err(ConfigError::BitsOutOfRange),
            bits_ok(bits) && !ratio_ok(ratio_num, ratio_den) ==> r == Result::<
                Self,
                ConfigError,
            >::Err(ConfigError::RatioOutOfRange),
    {
        if bits < 1 || bits > 8 {
            return Err(ConfigError::BitsOutOfRange);
        }
        if ratio_num <= 0 || ratio_num >= ratio_den {
            return Err(ConfigError::RatioOutOfRange);
        }
        let p: u128 = 2 * (bits as u128) + 1;
        let num: u128 = ratio_num as u128;
        let rest: u128 = (ratio_den - ratio_num) as u128;
        proof {
            lemma_mul_inequality(p as int, 17, num as int);
        }
        let q: u128 = p * num / rest;
        let h: u32 = if q > u32::MAX as u128 {
            u32::MAX
        } else {
            q as u32
        };
        Ok(FrameTimeCompensation { bits, h })
    }

    /// The configured bit depth.
    pub fn depth(&self) -> (r: u8)
        ensures
            r == self.bits(),
    {
        self.bits
    }

    /// The compensation constant `H`.
    pub fn constant(&self) -> (r: u32)
        ensures
            r == self.h(),
    {
        self.h
    }

    /// Hold time of bit-plane `mask`, doubling with each successive plane.
    pub fn duration(&self, mask: u8) -> (r: u32)
        requires
            self.wf(),
            mask < self.bits(),
        ensures
            r == duration_value(self.bits(), self.h(), mask),
    {
        proof {
            lemma2_to64();
            lemma_pow2_pos(mask as nat);
            if (mask as nat) < 7 {
                lemma_pow2_strictly_increases(mask as nat, 7);
            }
            if (self.bits as nat) < 8 {
                lemma_pow2_strictly_increases(self.bits as nat, 8);
            }
            lemma_pow2_strictly_increases(0, self.bits as nat);
            lemma_pow2_strictly_increases(mask as nat, self.bits as nat);
            lemma_u64_shl_is_mul(1u64, mask as u64);
            lemma_u64_shl_is_mul(1u64, self.bits as u64);
            lemma_mul_inequality(pow2(mask as nat) as int, 128, self.h as int);
        }
        let weight: u64 = 1u64 << mask;
        let numer: u64 = weight * (self.h as u64);
        let denom: u64 = (1u64 << self.bits) - 1;
        let q: u64 = numer / denom;
        proof {
            // numer <= denom * h, so the quotient is at most h and fits u32.
            lemma_mul_inequality(
                pow2(mask as nat) as int,
                pow2(self.bits as nat) - 1,
                self.h as int,
            );
            lemma_multiply_divide_le(numer as int, denom as int, self.h as int);
        }
        q as u32
    }
}

/// Hold times never shrink as the bit-plane index grows: for any valid bit
/// depth and any compensation constant, a higher plane is held at least as
/// long as a lower one, so in particular the most significant plane is held
/// at least as long as the least significant one.
pub proof fn lemma_duration_monotonic(bits: u8, h: u32, lo: u8, hi: u8)
    requires
        bits_ok(bits),
        lo <= hi < bits,
    ensures
        duration_value(bits, h, lo) <= duration_value(bits, h, hi),
        duration_value(bits, h, (bits - 1) as u8) >= duration_value(bits, h, 0),
{
    lemma_duration_le(bits, h, lo, hi);
    lemma_duration_le(bits, h, 0, (bits - 1) as u8);
}

proof fn lemma_duration_le(bits: u8, h: u32, lo: u8, hi: u8)
    requires
        bits_ok(bits),
        lo <= hi < bits,
    ensures
        duration_value(bits, h, lo) <= duration_value(bits, h, hi),
{
    lemma2_to64();
    lemma_pow2_pos(lo as nat);
    if lo < hi {
        lemma_pow2_strictly_increases(lo as nat, hi as nat);
    }
    lemma_pow2_strictly_increases(0, bits as nat);
    lemma_mul_inequality(pow2(lo as nat) as int, pow2(hi as nat) as int, h as int);
    lemma_div_is_ordered(
        pow2(lo as nat) * h as int,
        pow2(hi as nat) * h as int,
        pow2(bits as nat) - 1,
    );
}

} // verus!
