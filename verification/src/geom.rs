//! Fixed-point points and the integer square root used by the
//! signed-distance primitives.

use vstd::prelude::*;

verus! {

/// Number of fixed-point units per real unit: a real value `v` is stored as
/// the integer `v * SCALE`.
pub const SCALE: i64 = 65536;

/// Largest coordinate magnitude (in fixed-point units) the library accepts;
/// keeps every intermediate product of the distance formulas inside `i64`.
pub const COORD_MAX: i64 = 268435456;

/// Largest field-value magnitude (in fixed-point units) a well-formed field
/// can produce at an in-bounds point.
pub const VAL_MAX: i64 = 2147483648;

/// A point of the sampled volume, coordinates in fixed-point units.
#[derive(Clone, Copy, PartialEq, Eq, Structural, Debug)]
pub struct Point {
    pub x: i64,
    pub y: i64,
    pub z: i64,
}

/// A coordinate a field primitive may be placed at.
pub open spec fn coord_ok(c: int) -> bool {
    -COORD_MAX <= c <= COORD_MAX
}

/// A point whose coordinates all satisfy [`coord_ok`].
pub open spec fn point_ok(p: Point) -> bool {
    coord_ok(p.x as int) && coord_ok(p.y as int) && coord_ok(p.z as int)
}

/// A point of the grid volume itself: coordinates are non-negative.
pub open spec fn grid_point_ok(p: Point) -> bool {
    0 <= p.x <= COORD_MAX && 0 <= p.y <= COORD_MAX && 0 <= p.z <= COORD_MAX
}

/// The floor of the non-negative square root of `x`.
pub open spec fn sqrt_floor(x: int) -> int {
    choose|r: int| 0 <= r && #[trigger] (r * r) <= x && x < (r + 1) * (r + 1)
}

proof fn lemma_sqrt_exists(x: int) -> (r: int)
    requires
        0 <= x,
    ensures
        0 <= r && r * r <= x && x < (r + 1) * (r + 1),
    decreases x,
{
    if x == 0 {
        0
    } else {
        let p = lemma_sqrt_exists(x - 1);
        if x < (p + 1) * (p + 1) {
            p
        } else {
            assert(x == (p + 1) * (p + 1)) by (nonlinear_arith)
                requires
                    0 <= p && p * p <= x - 1 && x - 1 < (p + 1) * (p + 1) && x >= (p + 1) * (p
                        + 1),
            ;
            assert(x < (p + 2) * (p + 2)) by (nonlinear_arith)
                requires
                    0 <= p && x == (p + 1) * (p + 1),
            ;
            p + 1
        }
    }
}

/// `sqrt_floor` is the unique integer whose square brackets `x`.
pub proof fn lemma_sqrt_floor(x: int)
    requires
        0 <= x,
    ensures
        0 <= sqrt_floor(x),
        sqrt_floor(x) * sqrt_floor(x) <= x,
        x < (sqrt_floor(x) + 1) * (sqrt_floor(x) + 1),
{
    let w = lemma_sqrt_exists(x);
    assert(0 <= w && w * w <= x && x < (w + 1) * (w + 1));
}

/// Any integer whose square brackets `x` is `sqrt_floor(x)`.
pub proof fn lemma_sqrt_floor_unique(x: int, r: int)
    requires
        0 <= x,
        0 <= r,
        r * r <= x,
        x < (r + 1) * (r + 1),
    ensures
        r == sqrt_floor(x),
{
    lemma_sqrt_floor(x);
    let s = sqrt_floor(x);
    assert(r == s) by (nonlinear_arith)
        requires
            0 <= r && r * r <= x && x < (r + 1) * (r + 1),
            0 <= s && s * s <= x && x < (s + 1) * (s + 1),
    ;
}

/// `sqrt_floor` does not exceed its argument's magnitude scale: if
/// `x < b * b` then `sqrt_floor(x) < b`.
pub proof fn lemma_sqrt_floor_bound(x: int, b: int)
    requires
        0 <= x,
        0 < b,
        x < b * b,
    ensures
        sqrt_floor(x) < b,
{
    lemma_sqrt_floor(x);
    let s = sqrt_floor(x);
    assert(s < b) by (nonlinear_arith)
        requires
            0 <= s && s * s <= x && 0 < b && x < b * b,
    ;
}

/// Integer square root: the floor of the square root of `x`.
pub fn isqrt(x: i64) -> (r: i64)
    requires
        0 <= x < 0x4000000000000000,
    ensures
        r == sqrt_floor(x as int),
        0 <= r < 0x80000000,
{
    let mut lo: i64 = 0;
    let mut hi: i64 = 0x80000000;
    assert(x < hi * hi);
    while lo + 1 < hi
        invariant
            0 <= lo < hi <= 0x80000000,
            lo * lo <= x,
            x < hi * hi,
        decreases hi - lo,
    {
        let mid = lo + (hi - lo) / 2;
        assert(lo < mid < hi);
        assert(mid * mid <= 0x4000000000000000) by (nonlinear_arith)
            requires
                0 < mid <= 0x80000000,
        ;
        if mid * mid <= x {
            lo = mid;
        } else {
            hi = mid;
        }
    }
    proof {
        lemma_sqrt_floor_unique(x as int, lo as int);
    }
    lo
}

} // verus!
