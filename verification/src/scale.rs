//! Logical lengths and the dots per inch of a display.

use vstd::prelude::*;

verus! {

/// The dots per inch at which a logical length and a physical one are equal.
pub const BASE_DPI: u32 = 96;

/// `logical * dpi / 96`, rounded to the nearest integer; a half is rounded away
/// from zero.
pub open spec fn scaled(logical: int, dpi: int) -> int {
    if logical >= 0 {
        (logical * dpi + 48) / 96
    } else {
        -((-logical * dpi + 48) / 96)
    }
}

/// The `i32` nearest to `value`.
pub open spec fn clamp_i32(value: int) -> int {
    if value < i32::MIN {
        i32::MIN as int
    } else if value > i32::MAX {
        i32::MAX as int
    } else {
        value
    }
}

/// The physical length of `logical` on a display of `dpi` dots per inch. A
/// length beyond what an `i32` holds becomes the nearest `i32`.
pub fn scale_length(logical: i32, dpi: u32) -> (physical: i32)
    ensures
        physical == clamp_i32(scaled(logical as int, dpi as int)),
{
    let negative = logical < 0;
    let magnitude: u64 = if negative {
        (-(logical as i64)) as u64
    } else {
        logical as u64
    };
    assert(magnitude * dpi <= 0x8000_0000 * 0xffff_ffff) by (nonlinear_arith)
        requires
            magnitude <= 0x8000_0000,
            dpi <= 0xffff_ffff,
    ;
    let product: u64 = magnitude * (dpi as u64);
    let quotient: u64 = (product + 48) / 96;
    assert(magnitude as int * dpi as int == if negative { -logical * dpi } else { logical * dpi })
        by (nonlinear_arith)
        requires
            magnitude as int == if negative { -logical } else { logical as int },
    ;
    if negative {
        if quotient > 0x8000_0000 {
            i32::MIN
        } else {
            (-(quotient as i64)) as i32
        }
    } else {
        if quotient > 0x7fff_ffff {
            i32::MAX
        } else {
            quotient as i32
        }
    }
}

/// Scaling rounds to the nearest integer: the physical length differs from the
/// exact quotient by at most one half.
pub proof fn lemma_scaled_is_nearest(logical: int, dpi: int)
    requires
        dpi >= 0,
    ensures
        -48 <= 96 * scaled(logical, dpi) - logical * dpi <= 48,
        logical >= 0 ==> 96 * scaled(logical, dpi) - logical * dpi > -48,
        logical < 0 ==> 96 * scaled(logical, dpi) - logical * dpi < 48,
{
    if logical >= 0 {
        let n = logical * dpi + 48;
        assert(logical * dpi >= 0) by (nonlinear_arith)
            requires
                logical >= 0,
                dpi >= 0,
        ;
        assert(n == 96 * (n / 96) + n % 96 && 0 <= n % 96 < 96);
    } else {
        let n = -logical * dpi + 48;
        assert(-logical * dpi >= 0) by (nonlinear_arith)
            requires
                logical < 0,
                dpi >= 0,
        ;
        assert(n == 96 * (n / 96) + n % 96 && 0 <= n % 96 < 96);
        assert(-logical * dpi == -(logical * dpi)) by (nonlinear_arith);
    }
}

/// At the base resolution a length keeps its value.
pub proof fn lemma_scaled_at_base(logical: int)
    ensures
        scaled(logical, BASE_DPI as int) == logical,
{
    if logical >= 0 {
        assert((logical * 96 + 48) / 96 == logical);
    } else {
        assert((-logical * 96 + 48) / 96 == -logical);
    }
}

} // verus!
