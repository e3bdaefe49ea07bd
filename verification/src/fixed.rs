//! Fixed-point numbers: coordinates in million-millionths of a cell,
//! heading components and speeds in ten-thousandths.

use vstd::prelude::*;

verus! {

/// Number of coordinate units in one grid cell.
pub const UNIT: i64 = 1_000_000_000_000;

/// Largest magnitude a continuous coordinate can take. Arithmetic on
/// coordinates saturates at this bound, which is a whole number of cells.
pub const COORD_LIMIT: i64 = 4_000_000_000_000_000_000;

/// One, in ten-thousandths: the scale of heading components and speeds.
pub const SCALE: i32 = 10_000;

/// A coordinate brought back into the representable range.
pub open spec fn clamp_coord(v: int) -> int {
    if v < -4_000_000_000_000_000_000 {
        -4_000_000_000_000_000_000
    } else if v > 4_000_000_000_000_000_000 {
        4_000_000_000_000_000_000
    } else {
        v
    }
}

/// The nearest whole cell to `v`, halves going away from zero, as a
/// coordinate.
pub open spec fn round_coord(v: int) -> int {
    if v >= 0 {
        clamp_coord(((v + 500_000_000_000) / 1_000_000_000_000) * 1_000_000_000_000)
    } else {
        clamp_coord(-(((-v) + 500_000_000_000) / 1_000_000_000_000) * 1_000_000_000_000)
    }
}

/// The grid index of the cell that holds `v`: the whole part of `v`, kept
/// within `0..=65535`.
pub open spec fn cell_index(v: int) -> int {
    if v < 0 {
        0
    } else if v / 1_000_000_000_000 > 65_535 {
        65_535
    } else {
        v / 1_000_000_000_000
    }
}

/// The quotient of `a` by a positive `b`, rounded toward zero.
pub open spec fn trunc_div(a: int, b: int) -> int {
    if a >= 0 {
        a / b
    } else {
        -((-a) / b)
    }
}

/// The largest number whose square does not exceed `n`.
pub open spec fn floor_sqrt(n: nat) -> nat
    decreases n,
{
    if n == 0 {
        0
    } else {
        let r = floor_sqrt((n - 1) as nat);
        if (r + 1) * (r + 1) <= n {
            r + 1
        } else {
            r
        }
    }
}

/// `floor_sqrt(n)` squared does not exceed `n`, and the next square does.
pub proof fn lemma_floor_sqrt_bounds(n: nat)
    ensures
        floor_sqrt(n) * floor_sqrt(n) <= n < (floor_sqrt(n) + 1) * (floor_sqrt(n) + 1),
    decreases n,
{
    let s = floor_sqrt(n);
    if n == 0 {
        assert(s * s == 0 && (s + 1) * (s + 1) == 1) by (nonlinear_arith)
            requires
                s == 0,
        ;
    } else {
        let r = floor_sqrt((n - 1) as nat);
        lemma_floor_sqrt_bounds((n - 1) as nat);
        if (r + 1) * (r + 1) <= n {
            assert((s + 1) * (s + 1) > s * s) by (nonlinear_arith);
        } else {
        }
    }
}

/// Only one number has its square at or below `n` and the next square above.
pub proof fn lemma_floor_sqrt_unique(n: nat, r: nat)
    requires
        r * r <= n < (r + 1) * (r + 1),
    ensures
        r == floor_sqrt(n),
{
    let s = floor_sqrt(n);
    lemma_floor_sqrt_bounds(n);
    if r < s {
        assert((r + 1) * (r + 1) <= s * s) by (nonlinear_arith)
            requires
                r + 1 <= s,
        ;
    }
    if s < r {
        assert((s + 1) * (s + 1) <= r * r) by (nonlinear_arith)
            requires
                s + 1 <= r,
        ;
    }
}

/// A number brought into the range of the coordinates.
pub fn clamp(v: i128) -> (r: i64)
    ensures
        r == clamp_coord(v as int),
        -COORD_LIMIT <= r <= COORD_LIMIT,
{
    if v < -(COORD_LIMIT as i128) {
        -COORD_LIMIT
    } else if v > COORD_LIMIT as i128 {
        COORD_LIMIT
    } else {
        v as i64
    }
}

/// The whole cell nearest to a coordinate, halves going away from zero.
pub fn round(v: i64) -> (r: i64)
    ensures
        r == round_coord(v as int),
        -COORD_LIMIT <= r <= COORD_LIMIT,
{
    let half: u128 = 500_000_000_000;
    let unit: u128 = 1_000_000_000_000;
    if v >= 0 {
        let cells: u128 = (v as u128 + half) / unit;
        clamp((cells * unit) as i128)
    } else {
        let size: u128 = (-(v as i128)) as u128;
        let cells: u128 = (size + half) / unit;
        clamp(-((cells * unit) as i128))
    }
}

/// The grid index of the cell that holds a coordinate.
pub fn cell(v: i64) -> (r: u16)
    ensures
        r == cell_index(v as int),
{
    if v < 0 {
        0
    } else if v / UNIT > 65_535 {
        65_535
    } else {
        (v / UNIT) as u16
    }
}

/// A product of two bounded numbers is bounded by the product of the
/// bounds.
proof fn lemma_product_bound(a: int, b: int, bound_a: int, bound_b: int)
    requires
        -bound_a <= a <= bound_a,
        -bound_b <= b <= bound_b,
    ensures
        -(bound_a * bound_b) <= a * b <= bound_a * bound_b,
{
    assert(-(bound_a * bound_b) <= a * b <= bound_a * bound_b) by (nonlinear_arith)
        requires
            -bound_a <= a <= bound_a,
            -bound_b <= b <= bound_b,
    ;
}

/// The displacement along one axis, in coordinate units, of a step of
/// length `speed` in the direction whose component on that axis is
/// `component`: the product of the two, which counts hundred-millionths of
/// a cell, brought to the unit of the coordinates.
pub open spec fn displacement(component: int, speed: int) -> int {
    component * speed * 10_000
}

/// The displacement along one axis of a step of length `speed` in the
/// direction whose component on that axis is `component`.
pub fn step(component: i32, speed: i32) -> (r: i128)
    ensures
        r == displacement(component as int, speed as int),
        -46_116_860_184_273_879_040_000 <= r <= 46_116_860_184_273_879_040_000,
{
    proof {
        lemma_product_bound(component as int, speed as int, 0x8000_0000, 0x8000_0000);
    }
    let product: i128 = (component as i128) * (speed as i128);
    product * 10_000
}

/// The whole part of the square root of `n`.
pub fn isqrt(n: u128) -> (r: u64)
    ensures
        r == floor_sqrt(n as nat),
{
    let mut low: u128 = 0;
    let mut high: u128 = 0x1_0000_0000_0000_0000;
    assert(0x1_0000_0000_0000_0000 * 0x1_0000_0000_0000_0000 > u128::MAX) by (nonlinear_arith);
    while high - low > 1
        invariant
            low < high <= 0x1_0000_0000_0000_0000,
            low * low <= n < high * high,
        decreases high - low,
    {
        let mid: u128 = low + (high - low) / 2;
        assert(mid * mid <= 0xffff_ffff_ffff_ffff * 0xffff_ffff_ffff_ffff) by (nonlinear_arith)
            requires
                0 <= mid <= 0xffff_ffff_ffff_ffff,
        ;
        assert(0xffff_ffff_ffff_ffff * 0xffff_ffff_ffff_ffff <= u128::MAX) by (nonlinear_arith);
        if mid * mid <= n {
            low = mid;
        } else {
            high = mid;
        }
    }
    proof {
        lemma_floor_sqrt_unique(n as nat, low as nat);
    }
    low as u64
}

} // verus!
