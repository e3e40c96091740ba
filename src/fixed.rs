//! Fixed-point quantities with saturating arithmetic.
use vstd::prelude::*;

verus! {

/// Sub-units in one world unit: every length, speed and acceleration is held
/// in thousandths of a world unit.
pub const SUBUNITS: i64 = 1000;

/// `v` held to the range of `i64`.
pub open spec fn clamp_i64(v: int) -> int {
    if v < i64::MIN {
        i64::MIN as int
    } else if v > i64::MAX {
        i64::MAX as int
    } else {
        v
    }
}

/// `v` held to the range of `i32`.
pub open spec fn clamp_i32(v: int) -> int {
    if v < i32::MIN {
        i32::MIN as int
    } else if v > i32::MAX {
        i32::MAX as int
    } else {
        v
    }
}

/// A non-negative count of sub-units rounded to whole units, halves upward.
pub open spec fn round_magnitude(m: int) -> int {
    m / SUBUNITS as int + if m % SUBUNITS as int >= SUBUNITS as int / 2 {
        1int
    } else {
        0int
    }
}

/// A count of sub-units rounded to the nearest whole unit, halves away from zero.
pub open spec fn round_to_units(v: int) -> int {
    if v >= 0 {
        round_magnitude(v)
    } else {
        -round_magnitude(-v)
    }
}

/// The largest magnitude of a product of two `i64` values.
pub const PRODUCT_BOUND: i128 = 0x4000_0000_0000_0000_0000_0000_0000_0000;

/// The exact product of two `i64` values.
pub fn wide_mul(a: i64, b: i64) -> (r: i128)
    ensures
        r == a as int * b as int,
        -PRODUCT_BOUND <= r <= PRODUCT_BOUND,
{
    assert(-0x4000_0000_0000_0000_0000_0000_0000_0000 <= a as int * b as int
        <= 0x4000_0000_0000_0000_0000_0000_0000_0000) by (nonlinear_arith)
        requires
            -0x8000_0000_0000_0000 <= a <= 0x7fff_ffff_ffff_ffff,
            -0x8000_0000_0000_0000 <= b <= 0x7fff_ffff_ffff_ffff,
    {
        vstd::arithmetic::mul::lemma_mul_upper_bound(
            if a < 0 { -a } else { a as int },
            0x8000_0000_0000_0000,
            if b < 0 { -b } else { b as int },
            0x8000_0000_0000_0000,
        );
    }
    (a as i128) * (b as i128)
}

/// `v` held to the range of `i64`.
pub fn saturate(v: i128) -> (r: i64)
    ensures
        r == clamp_i64(v as int),
{
    if v < i64::MIN as i128 {
        i64::MIN
    } else if v > i64::MAX as i128 {
        i64::MAX
    } else {
        v as i64
    }
}

/// `v` held to the range of `i32`.
pub fn saturate_i32(v: i64) -> (r: i32)
    ensures
        r == clamp_i32(v as int),
{
    if v < i32::MIN as i64 {
        i32::MIN
    } else if v > i32::MAX as i64 {
        i32::MAX
    } else {
        v as i32
    }
}

/// A count of sub-units rounded to the nearest whole unit, halves away from
/// zero, held to the range of `i32`.
pub fn to_units(v: i64) -> (r: i32)
    ensures
        r == clamp_i32(round_to_units(v as int)),
{
    let m: u64 = if v >= 0 {
        v as u64
    } else {
        (-(v as i128)) as u64
    };
    let sub: u64 = SUBUNITS as u64;
    let whole: u64 = m / sub;
    let rounded: u64 = if m % sub >= sub / 2 {
        whole + 1
    } else {
        whole
    };
    let signed: i64 = if v >= 0 {
        rounded as i64
    } else {
        -(rounded as i64)
    };
    saturate_i32(signed)
}

} // verus!
