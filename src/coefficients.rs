use vstd::prelude::*;
use vstd::arithmetic::power2::{lemma2_to64, lemma2_to64_rest, lemma_pow2_adds, pow2};

verus! {

/// Bit pattern of `w1 = 1 / (2 - 2^(1/3))` as an IEEE 754 double.
pub const W1_BITS: u64 = 0x3ff5_9e8b_6eb9_6339;

/// Bit pattern of `w0 = -2^(1/3) / (2 - 2^(1/3))`, chosen so that
/// `w0 + 2 * w1` is exactly one.
pub const W0_BITS: u64 = 0xbffb_3d16_dd72_c672;

/// Bit pattern of `w1 / 2`.
pub const HALF_W1_BITS: u64 = 0x3fe5_9e8b_6eb9_6339;

/// Bit pattern of `(w0 + w1) / 2`.
pub const HALF_W0_W1_BITS: u64 = 0xbfc6_7a2d_bae5_8ce4;

/// Coefficients of the fourth-order Yoshida composition, as bit patterns of
/// doubles: drifts `c[0..4]` and kicks `d[0..3]`.
#[derive(Clone, Copy, Debug)]
pub struct Yoshida4Coefficients {
    pub c: [u64; 4],
    pub d: [u64; 3],
}

pub open spec fn sign_bit(b: u64) -> u64 {
    b >> 63u64
}

pub open spec fn exponent_field(b: u64) -> u64 {
    (b >> 52u64) & 0x7ffu64
}

pub open spec fn mantissa_field(b: u64) -> u64 {
    b & 0xf_ffff_ffff_ffffu64
}

/// The doubles that [`fixed`] states exactly: normal numbers of magnitude
/// at least `2^-3`, and below `2^53`.
pub open spec fn is_coefficient(b: u64) -> bool {
    1020 <= exponent_field(b) < 1076
}

/// The value of the double `b` times `2^55`: an integer for every double
/// with [`is_coefficient`].
pub open spec fn fixed(b: u64) -> int {
    let magnitude = (pow2(52) + mantissa_field(b)) * pow2((exponent_field(b) + 55 - 1075) as nat);
    if sign_bit(b) == 1 {
        -magnitude
    } else {
        magnitude
    }
}

/// `x = w * 2^55` is a root of `(2w - 1)^3 = 2w^3`, scaled by `2^165`:
/// the equation that `w1 = 1 / (2 - 2^(1/3))` satisfies.
pub open spec fn cube_root_defect(x: int) -> int {
    let y = 2 * x - pow2(55);
    y * y * y - 2 * (x * x * x)
}

/// The coefficients the Yoshida kernels use. They satisfy
/// `c1 = c4 = w1/2`, `c2 = c3 = (w0 + w1)/2`, `d1 = d3 = w1`, `d2 = w0`
/// exactly, the drifts and the kicks each sum to exactly one, and `w1`
/// solves its defining equation to within `2^-49`.
pub fn yoshida4_coefficients() -> (r: Yoshida4Coefficients)
    ensures
        r.c[0] == r.c[3],
        r.c[1] == r.c[2],
        r.d[0] == r.d[2],
        r.d[0] == W1_BITS,
        r.d[1] == W0_BITS,
        forall|i: int| 0 <= i < 4 ==> is_coefficient(#[trigger] r.c[i]),
        forall|i: int| 0 <= i < 3 ==> is_coefficient(#[trigger] r.d[i]),
        2 * fixed(r.c[0]) == fixed(r.d[0]),
        2 * fixed(r.c[1]) == fixed(r.d[0]) + fixed(r.d[1]),
        fixed(r.c[0]) + fixed(r.c[1]) + fixed(r.c[2]) + fixed(r.c[3]) == pow2(55),
        fixed(r.d[0]) + fixed(r.d[1]) + fixed(r.d[2]) == pow2(55),
        -pow2(116) < cube_root_defect(fixed(W1_BITS)) < pow2(116),
{
    let r = Yoshida4Coefficients {
        c: [HALF_W1_BITS, HALF_W0_W1_BITS, HALF_W0_W1_BITS, HALF_W1_BITS],
        d: [W1_BITS, W0_BITS, W1_BITS],
    };
    proof {
        lemma2_to64();
        assert(sign_bit(W1_BITS) == 0 && exponent_field(W1_BITS) == 0x3ff && mantissa_field(
            W1_BITS,
        ) == 0x5_9e8b_6eb9_6339) by (bit_vector);
        assert(sign_bit(W0_BITS) == 1 && exponent_field(W0_BITS) == 0x3ff && mantissa_field(
            W0_BITS,
        ) == 0xb_3d16_dd72_c672) by (bit_vector);
        assert(sign_bit(HALF_W1_BITS) == 0 && exponent_field(HALF_W1_BITS) == 0x3fe
            && mantissa_field(HALF_W1_BITS) == 0x5_9e8b_6eb9_6339) by (bit_vector);
        assert(sign_bit(HALF_W0_W1_BITS) == 1 && exponent_field(HALF_W0_W1_BITS) == 0x3fc
            && mantissa_field(HALF_W0_W1_BITS) == 0x6_7a2d_bae5_8ce4) by (bit_vector);
        assert(r.c[0] == HALF_W1_BITS && r.c[1] == HALF_W0_W1_BITS);
        assert(r.c[2] == HALF_W0_W1_BITS && r.c[3] == HALF_W1_BITS);
        assert(r.d[0] == W1_BITS && r.d[1] == W0_BITS && r.d[2] == W1_BITS);
        lemma2_to64_rest();
        lemma_pow2_adds(64, 52);
        let x = fixed(W1_BITS);
        assert(x == 48682369649678792);
        let y = 2 * x - pow2(55);
        assert(y == 61335942280393616);
        assert(y * y == 3762097815423777214913123893555456) by (nonlinear_arith)
            requires
                y == 61335942280393616,
        ;
        assert(x * x == 2369973114707966789319028774579264) by (nonlinear_arith)
            requires
                x == 48682369649678792,
        ;
        assert(cube_root_defect(x) == 41460559339868650224012940316830720) by (nonlinear_arith)
            requires
                x == 48682369649678792,
                y == 61335942280393616,
                y * y == 3762097815423777214913123893555456,
                x * x == 2369973114707966789319028774579264,
                cube_root_defect(x) == y * y * y - 2 * (x * x * x),
        ;
    }
    r
}

} // verus!
