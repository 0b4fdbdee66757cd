//! The fixed gamma lookup table.
//!
//! The table remaps linear 8-bit intensities to the nonlinear values that
//! produce the intended perceived brightness on the LEDs (for example, half
//! brightness is requested as 127 but driven as 36). The entries are part of
//! the display's visual calibration and must be reproduced exactly.

use vstd::prelude::*;

verus! {

/// Gamma remap table: monotonic nondecreasing, 0 at index 0, 255 at index 255.
pub const GAMMA8: [u8; 256] = [
    0, 0, 0, 0, 0, 0, 0, 0, 0, 0, 0, 0, 0, 0, 0, 0,
    0, 0, 0, 0, 0, 0, 0, 0, 0, 0, 0, 0, 1, 1, 1, 1,
    1, 1, 1, 1, 1, 1, 1, 1, 1, 2, 2, 2, 2, 2, 2, 2,
    2, 3, 3, 3, 3, 3, 3, 3, 4, 4, 4, 4, 4, 5, 5, 5,
    5, 6, 6, 6, 6, 7, 7, 7, 7, 8, 8, 8, 9, 9, 9, 10,
    10, 10, 11, 11, 11, 12, 12, 13, 13, 13, 14, 14, 15, 15, 16, 16,
    17, 17, 18, 18, 19, 19, 20, 20, 21, 21, 22, 22, 23, 24, 24, 25,
    25, 26, 27, 27, 28, 29, 29, 30, 31, 32, 32, 33, 34, 35, 35, 36,
    37, 38, 39, 39, 40, 41, 42, 43, 44, 45, 46, 47, 48, 49, 50, 50,
    51, 52, 54, 55, 56, 57, 58, 59, 60, 61, 62, 63, 64, 66, 67, 68,
    69, 70, 72, 73, 74, 75, 77, 78, 79, 81, 82, 83, 85, 86, 87, 89,
    90, 92, 93, 95, 96, 98, 99, 101, 102, 104, 105, 107, 109, 110, 112, 114,
    115, 117, 119, 120, 122, 124, 126, 127, 129, 131, 133, 135, 137, 138, 140, 142,
    144, 146, 148, 150, 152, 154, 156, 158, 160, 162, 164, 167, 169, 171, 173, 175,
    177, 180, 182, 184, 186, 189, 191, 193, 196, 198, 200, 203, 205, 208, 210, 213,
    215, 218, 220, 223, 225, 228, 231, 233, 236, 239, 241, 244, 247, 249, 252, 255,
];

/// The gamma-corrected value for table index `i`. Kept opaque so that
/// contracts built on it stay symbolic; reveal it to read the table.
#[verifier::opaque]
pub open spec fn gamma_value(i: int) -> u8
    recommends
        0 <= i < 256,
{
    GAMMA8[i]
}

/// Looks up one entry of the gamma table.
pub fn gamma_lookup(i: u8) -> (r: u8)
    ensures
        r == gamma_value(i as int),
{
    proof {
        reveal(gamma_value);
    }
    GAMMA8[i as usize]
}

/// The gamma table is monotonic nondecreasing over its 256 entries, and its
/// ends are fixed: index 0 maps to 0 and index 255 maps to 255.
pub proof fn lemma_gamma_monotonic(i: int, j: int)
    requires
        0 <= i <= j < 256,
    ensures
        gamma_value(i) <= gamma_value(j),
        gamma_value(0) == 0,
        gamma_value(255) == 255,
{
    reveal(gamma_value);
    assert(forall|k: int| 0 <= k < 256 ==> GAMMA8[k] == GAMMA8@[k]);
    assert(forall|k: int| 0 <= k < 255 ==> #[trigger] GAMMA8@[k] <= GAMMA8@[k + 1]);
    lemma_gamma_sorted_between(i, j);
}

proof fn lemma_gamma_sorted_between(i: int, j: int)
    requires
        0 <= i <= j < 256,
        forall|k: int| 0 <= k < 255 ==> #[trigger] GAMMA8@[k] <= GAMMA8@[k + 1],
    ensures
        GAMMA8@[i] <= GAMMA8@[j],
    decreases j - i,
{
    if i < j {
        lemma_gamma_sorted_between(i, j - 1);
    }
}

} // verus!
