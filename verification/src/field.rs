//! The scalar field: signed-distance primitives composed by minimum.
//!
//! A field is a non-empty list of primitives; its value at a point is the
//! least of the primitives' values, the usual CSG union of signed-distance
//! solids.  All values are fixed-point (see [`crate::geom::SCALE`]); the
//! square roots in the distance formulas are the integer square root, so
//! every value is exact with respect to [`crate::geom::sqrt_floor`].

use vstd::prelude::*;
use crate::geom::{Point, point_ok, sqrt_floor, lemma_sqrt_floor, lemma_sqrt_floor_bound, isqrt, COORD_MAX, VAL_MAX};

verus! {

/// One signed-distance primitive.
#[derive(Clone, Copy, PartialEq, Eq, Structural, Debug)]
pub enum Primitive {
    /// The same value everywhere.
    Constant { value: i64 },
    /// `|p - center| - radius`: negative inside the ball, zero on it,
    /// positive outside.
    Sphere { center: Point, radius: i64 },
    /// The signed distance of an axis-aligned box:
    /// `|max(d, 0)| + min(max(d.x, d.y, d.z), 0)` where
    /// `d = |p - center| - half_extents` componentwise.
    RoundedBox { center: Point, half_extents: Point },
}

/// A scalar field: the pointwise minimum of its primitives.
#[derive(PartialEq, Eq, Debug)]
pub struct Field {
    pub primitives: Vec<Primitive>,
}

pub open spec fn abs_int(a: int) -> int {
    if a >= 0 {
        a
    } else {
        -a
    }
}

pub open spec fn max0(a: int) -> int {
    if a > 0 {
        a
    } else {
        0
    }
}

pub open spec fn min0(a: int) -> int {
    if a < 0 {
        a
    } else {
        0
    }
}

pub open spec fn max3(a: int, b: int, c: int) -> int {
    if a >= b && a >= c {
        a
    } else if b >= c {
        b
    } else {
        c
    }
}

pub open spec fn min_int(a: int, b: int) -> int {
    if a <= b {
        a
    } else {
        b
    }
}

/// Value of the sphere primitive at `p`.
pub open spec fn spec_sphere_value(p: Point, center: Point, radius: int) -> int {
    let dx = p.x - center.x;
    let dy = p.y - center.y;
    let dz = p.z - center.z;
    sqrt_floor(dx * dx + dy * dy + dz * dz) - radius
}

/// Value of the rounded-box primitive at `p`.
pub open spec fn spec_box_value(p: Point, center: Point, half: Point) -> int {
    let dx = abs_int(p.x - center.x) - half.x;
    let dy = abs_int(p.y - center.y) - half.y;
    let dz = abs_int(p.z - center.z) - half.z;
    let ox = max0(dx);
    let oy = max0(dy);
    let oz = max0(dz);
    sqrt_floor(ox * ox + oy * oy + oz * oz) + min0(max3(dx, dy, dz))
}

/// Value of one primitive at `p`.
pub open spec fn spec_primitive_value(prim: Primitive, p: Point) -> int {
    match prim {
        Primitive::Constant { value } => value as int,
        Primitive::Sphere { center, radius } => spec_sphere_value(p, center, radius as int),
        Primitive::RoundedBox { center, half_extents } => spec_box_value(p, center, half_extents),
    }
}

/// Minimum of the first `n` primitives' values at `p` (`n >= 1`).
pub open spec fn spec_min_upto(prims: Seq<Primitive>, p: Point, n: int) -> int
    decreases n,
{
    if n <= 1 {
        spec_primitive_value(prims[0], p)
    } else {
        min_int(spec_min_upto(prims, p, n - 1), spec_primitive_value(prims[n - 1], p))
    }
}

/// Value of the whole field at `p`: the minimum over its primitives.
pub open spec fn spec_field_value(prims: Seq<Primitive>, p: Point) -> int {
    spec_min_upto(prims, p, prims.len() as int)
}

/// Bounds under which a primitive's value is defined and within range.
pub open spec fn primitive_wf(prim: Primitive) -> bool {
    match prim {
        Primitive::Constant { value } => -VAL_MAX <= value <= VAL_MAX,
        Primitive::Sphere { center, radius } => point_ok(center) && 0 <= radius <= COORD_MAX,
        Primitive::RoundedBox { center, half_extents } => point_ok(center) && 0
            <= half_extents.x <= COORD_MAX && 0 <= half_extents.y <= COORD_MAX && 0
            <= half_extents.z <= COORD_MAX,
    }
}

/// A field is well-formed when it has at least one primitive and each
/// primitive's parameters are in range.
pub open spec fn field_wf(f: Field) -> bool {
    f.primitives.len() >= 1 && forall|i: int|
        0 <= i < f.primitives.len() ==> primitive_wf(#[trigger] f.primitives[i])
}

/// A well-formed primitive's value at an in-bounds point stays within
/// `VAL_MAX`.
pub proof fn lemma_primitive_value_bounded(prim: Primitive, p: Point)
    requires
        primitive_wf(prim),
        point_ok(p),
    ensures
        -VAL_MAX <= spec_primitive_value(prim, p) <= VAL_MAX,
{
    match prim {
        Primitive::Constant { value } => {},
        Primitive::Sphere { center, radius } => {
            let dx = p.x - center.x;
            let dy = p.y - center.y;
            let dz = p.z - center.z;
            let s = dx * dx + dy * dy + dz * dz;
            assert(0 <= s < 0x40000000 * 0x40000000) by (nonlinear_arith)
                requires
                    -0x20000000 <= dx <= 0x20000000,
                    -0x20000000 <= dy <= 0x20000000,
                    -0x20000000 <= dz <= 0x20000000,
                    s == dx * dx + dy * dy + dz * dz,
            ;
            lemma_sqrt_floor(s);
            lemma_sqrt_floor_bound(s, 0x40000000);
        },
        Primitive::RoundedBox { center, half_extents } => {
            let dx = abs_int(p.x - center.x) - half_extents.x;
            let dy = abs_int(p.y - center.y) - half_extents.y;
            let dz = abs_int(p.z - center.z) - half_extents.z;
            let ox = max0(dx);
            let oy = max0(dy);
            let oz = max0(dz);
            let s = ox * ox + oy * oy + oz * oz;
            assert(0 <= s < 0x40000000 * 0x40000000) by (nonlinear_arith)
                requires
                    0 <= ox <= 0x20000000,
                    0 <= oy <= 0x20000000,
                    0 <= oz <= 0x20000000,
                    s == ox * ox + oy * oy + oz * oz,
            ;
            lemma_sqrt_floor(s);
            lemma_sqrt_floor_bound(s, 0x40000000);
        },
    }
}

/// The field's value is bounded at any in-bounds point.
pub proof fn lemma_field_value_bounded(f: Field, p: Point)
    requires
        field_wf(f),
        point_ok(p),
    ensures
        -VAL_MAX <= spec_field_value(f.primitives@, p) <= VAL_MAX,
{
    lemma_min_upto_bounded(f.primitives@, p, f.primitives@.len() as int);
}

proof fn lemma_min_upto_bounded(prims: Seq<Primitive>, p: Point, n: int)
    requires
        1 <= n <= prims.len(),
        point_ok(p),
        forall|i: int| 0 <= i < prims.len() ==> primitive_wf(#[trigger] prims[i]),
    ensures
        -VAL_MAX <= spec_min_upto(prims, p, n) <= VAL_MAX,
    decreases n,
{
    if n <= 1 {
        lemma_primitive_value_bounded(prims[0], p);
    } else {
        lemma_min_upto_bounded(prims, p, n - 1);
        lemma_primitive_value_bounded(prims[n - 1], p);
    }
}

/// The field value never exceeds any single primitive's value.
pub proof fn lemma_field_value_le_primitive(prims: Seq<Primitive>, p: Point, i: int)
    requires
        0 <= i < prims.len(),
    ensures
        spec_field_value(prims, p) <= spec_primitive_value(prims[i], p),
{
    lemma_min_upto_le(prims, p, i, prims.len() as int);
}

#[verifier::rlimit(50)]
proof fn lemma_min_upto_le(prims: Seq<Primitive>, p: Point, i: int, n: int)
    requires
        0 <= i < n <= prims.len(),
    ensures
        spec_min_upto(prims, p, n) <= spec_primitive_value(prims[i], p),
    decreases n,
{
    if n <= 1 {
        assert(spec_min_upto(prims, p, n) == spec_primitive_value(prims[0], p));
    } else {
        let rest = spec_min_upto(prims, p, n - 1);
        let last = spec_primitive_value(prims[n - 1], p);
        assert(spec_min_upto(prims, p, n) == min_int(rest, last));
        if i < n - 1 {
            lemma_min_upto_le(prims, p, i, n - 1);
            assert(min_int(rest, last) <= rest);
        } else {
            assert(min_int(rest, last) <= last);
        }
    }
}

fn evaluate_sphere(p: Point, center: Point, radius: i64) -> (r: i64)
    requires
        point_ok(p),
        point_ok(center),
        0 <= radius <= COORD_MAX,
    ensures
        r == spec_sphere_value(p, center, radius as int),
{
    let dx = p.x - center.x;
    let dy = p.y - center.y;
    let dz = p.z - center.z;
    assert(0 <= dx * dx <= 0x400000000000000 && 0 <= dy * dy <= 0x400000000000000 && 0 <= dz * dz
        <= 0x400000000000000) by (nonlinear_arith)
        requires
            -0x20000000 <= dx <= 0x20000000,
            -0x20000000 <= dy <= 0x20000000,
            -0x20000000 <= dz <= 0x20000000,
    ;
    let s = dx * dx + dy * dy + dz * dz;
    let root = isqrt(s);
    proof {
        lemma_sqrt_floor_bound(s as int, 0x40000000);
    }
    root - radius
}

fn evaluate_box(p: Point, center: Point, half: Point) -> (r: i64)
    requires
        point_ok(p),
        point_ok(center),
        0 <= half.x <= COORD_MAX,
        0 <= half.y <= COORD_MAX,
        0 <= half.z <= COORD_MAX,
    ensures
        r == spec_box_value(p, center, half),
{
    let rx = p.x - center.x;
    let ry = p.y - center.y;
    let rz = p.z - center.z;
    let dx = (if rx >= 0 { rx } else { -rx }) - half.x;
    let dy = (if ry >= 0 { ry } else { -ry }) - half.y;
    let dz = (if rz >= 0 { rz } else { -rz }) - half.z;
    let ox = if dx > 0 { dx } else { 0 };
    let oy = if dy > 0 { dy } else { 0 };
    let oz = if dz > 0 { dz } else { 0 };
    assert(0 <= ox * ox <= 0x400000000000000 && 0 <= oy * oy <= 0x400000000000000 && 0 <= oz * oz
        <= 0x400000000000000) by (nonlinear_arith)
        requires
            0 <= ox <= 0x20000000,
            0 <= oy <= 0x20000000,
            0 <= oz <= 0x20000000,
    ;
    let s = ox * ox + oy * oy + oz * oz;
    let root = isqrt(s);
    let mx = if dx >= dy && dx >= dz {
        dx
    } else if dy >= dz {
        dy
    } else {
        dz
    };
    let inner = if mx < 0 {
        mx
    } else {
        0
    };
    proof {
        lemma_sqrt_floor(s as int);
        lemma_sqrt_floor_bound(s as int, 0x40000000);
    }
    root + inner
}

fn evaluate_primitive(prim: &Primitive, p: Point) -> (r: i64)
    requires
        primitive_wf(*prim),
        point_ok(p),
    ensures
        r == spec_primitive_value(*prim, p),
{
    match prim {
        Primitive::Constant { value } => *value,
        Primitive::Sphere { center, radius } => evaluate_sphere(p, *center, *radius),
        Primitive::RoundedBox { center, half_extents } => evaluate_box(p, *center, *half_extents),
    }
}

impl Field {
    /// A field made of the given primitives; `primitives` must be non-empty.
    pub fn new(primitives: Vec<Primitive>) -> (r: Field)
        requires
            primitives.len() >= 1,
            forall|i: int| 0 <= i < primitives.len() ==> primitive_wf(#[trigger] primitives[i]),
        ensures
            field_wf(r),
            r.primitives == primitives,
    {
        Field { primitives }
    }

    /// Evaluates the field at `p`: the least of the primitives' values.
    pub fn evaluate(&self, p: Point) -> (r: i64)
        requires
            field_wf(*self),
            point_ok(p),
        ensures
            r == spec_field_value(self.primitives@, p),
            -VAL_MAX <= r <= VAL_MAX,
    {
        let first = evaluate_primitive(&self.primitives[0], p);
        let mut acc: i64 = first;
        let mut i: usize = 1;
        while i < self.primitives.len()
            invariant
                1 <= i <= self.primitives@.len(),
                field_wf(*self),
                point_ok(p),
                acc == spec_min_upto(self.primitives@, p, i as int),
            decreases self.primitives@.len() - i,
        {
            let v = evaluate_primitive(&self.primitives[i], p);
            if v < acc {
                acc = v;
            }
            i = i + 1;
        }
        proof {
            lemma_field_value_bounded(*self, p);
        }
        acc
    }
}

} // verus!
