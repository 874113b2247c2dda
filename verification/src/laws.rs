//! Laws of the extractor, proved once and for all inputs: determinism,
//! containment of emitted vertices on their cube edges, the empty scan of
//! a fully-outside field, the policy-independence of the vertex count,
//! and the degenerate-edge fallback.

use vstd::prelude::*;
use vstd::arithmetic::div_mod::{
    lemma_div_is_ordered,
    lemma_div_multiples_vanish,
    lemma_div_pos_is_pos,
};
use crate::geom::{Point, grid_point_ok, COORD_MAX};
use crate::field::{Primitive, spec_field_value};
use crate::table::{spec_row, spec_corner_a, spec_corner_b, lemma_row_valid};
use crate::extract::{
    ExtractConfig,
    OutputVertex,
    config_wf,
    spec_corner_point,
    spec_mid_coord,
    spec_midpoint,
    spec_interp_coord,
    spec_edge_point,
    spec_cell_config,
    spec_cell_vertex,
    spec_cell_verts,
    spec_cells_z,
    spec_cells_yz,
    spec_cells_xyz,
    spec_extract,
};

verus! {

/// Determinism: the scan is a function of the configuration and the
/// field alone, so any two runs over the same inputs return the same
/// vertex sequence.
pub proof fn lemma_extract_deterministic(
    cfg: ExtractConfig,
    prims: Seq<Primitive>,
    r1: Seq<OutputVertex>,
    r2: Seq<OutputVertex>,
)
    requires
        r1 == spec_extract(cfg, prims),
        r2 == spec_extract(cfg, prims),
    ensures
        r1 == r2,
{
}

/// Degenerate edge: when both endpoints evaluate exactly to the
/// threshold, the interpolated policy returns the first endpoint — a
/// finite, well-defined point.
pub proof fn lemma_degenerate_edge(a: Point, b: Point, th: int)
    ensures
        spec_edge_point(a, b, th, th, th) == a,
{
}

/// Whether `c` lies between `lo` and `hi` in either order.
pub open spec fn coord_between(c: int, lo: int, hi: int) -> bool {
    (lo <= c <= hi) || (hi <= c <= lo)
}

/// Whether `p` lies in the axis-aligned box spanned by `a` and `b`
/// (for points of one cube edge: on the segment between them).
pub open spec fn point_between(p: Point, a: Point, b: Point) -> bool {
    coord_between(p.x as int, a.x as int, b.x as int) && coord_between(
        p.y as int,
        a.y as int,
        b.y as int,
    ) && coord_between(p.z as int, a.z as int, b.z as int)
}

proof fn lemma_mid_coord_between(a: int, b: int)
    requires
        0 <= a,
        0 <= b,
    ensures
        coord_between(spec_mid_coord(a, b), a, b),
{
    if a <= b {
        lemma_div_is_ordered(2 * a, a + b, 2);
        lemma_div_is_ordered(a + b, 2 * b, 2);
        lemma_div_multiples_vanish(a, 2);
        lemma_div_multiples_vanish(b, 2);
    } else {
        lemma_div_is_ordered(2 * b, a + b, 2);
        lemma_div_is_ordered(a + b, 2 * a, 2);
        lemma_div_multiples_vanish(a, 2);
        lemma_div_multiples_vanish(b, 2);
    }
}

/// Midpoint containment: each coordinate of the midpoint lies between
/// the corresponding coordinates of the two endpoints.
pub proof fn lemma_midpoint_between(a: Point, b: Point)
    requires
        grid_point_ok(a),
        grid_point_ok(b),
    ensures
        point_between(spec_midpoint(a, b), a, b),
{
    lemma_mid_coord_between(a.x as int, b.x as int);
    lemma_mid_coord_between(a.y as int, b.y as int);
    lemma_mid_coord_between(a.z as int, b.z as int);
}

proof fn lemma_interp_coord_between(a: int, b: int, t: int, d: int)
    requires
        0 <= a <= COORD_MAX,
        0 <= b <= COORD_MAX,
        0 < t <= d,
    ensures
        coord_between(spec_interp_coord(a, b, t, d), a, b),
{
    if b >= a {
        let diff = b - a;
        assert(0 <= t * diff <= d * diff) by (nonlinear_arith)
            requires
                0 <= diff,
                0 < t <= d,
        ;
        lemma_div_pos_is_pos(t * diff, d);
        lemma_div_is_ordered(t * diff, d * diff, d);
        lemma_div_multiples_vanish(diff, d);
    } else {
        let diff = a - b;
        assert(0 <= t * diff <= d * diff) by (nonlinear_arith)
            requires
                0 <= diff,
                0 < t <= d,
        ;
        lemma_div_pos_is_pos(t * diff, d);
        lemma_div_is_ordered(t * diff, d * diff, d);
        lemma_div_multiples_vanish(diff, d);
    }
}

/// Interpolation exactness: the interpolated coordinate is the exact
/// linear crossing up to integer rounding — scaled by the value span
/// `d`, the coordinate misses the true crossing `a + t * (b - a) / d`
/// by less than one part in `d`.
pub proof fn lemma_interp_coord_crossing(a: int, b: int, t: int, d: int)
    requires
        0 < t < d,
    ensures
        crate::field::abs_int(
            t * (b - a) - d * (spec_interp_coord(a, b, t, d) - a),
        ) < d,
{
    if b >= a {
        let num = t * (b - a);
        let q = num / d;
        vstd::arithmetic::div_mod::lemma_fundamental_div_mod(num, d);
        vstd::arithmetic::div_mod::lemma_mod_bound(num, d);
        assert(num - d * q == num % d);
    } else {
        let num = t * (a - b);
        let q = num / d;
        vstd::arithmetic::div_mod::lemma_fundamental_div_mod(num, d);
        vstd::arithmetic::div_mod::lemma_mod_bound(num, d);
        assert(num - d * q == num % d);
        assert(t * (b - a) == -num) by (nonlinear_arith)
            requires
                num == t * (a - b),
        ;
        assert(d * (-q) == -(d * q)) by (nonlinear_arith);
        assert(t * (b - a) - d * (spec_interp_coord(a, b, t, d) - a) == d * q - num);
    }
}

/// Interpolation containment: whatever the field values, the output
/// point of an edge lies on the segment between the two corner points —
/// in the fallback cases because it is one of them.
pub proof fn lemma_edge_point_between(a: Point, b: Point, va: int, vb: int, th: int)
    requires
        grid_point_ok(a),
        grid_point_ok(b),
    ensures
        point_between(spec_edge_point(a, b, va, vb, th), a, b),
{
    let r = spec_edge_point(a, b, va, vb, th);
    if r == a || r == b {
    } else {
        let tn = if vb - va < 0 {
            -(th - va)
        } else {
            th - va
        };
        let dn = if vb - va < 0 {
            -(vb - va)
        } else {
            vb - va
        };
        lemma_interp_coord_between(a.x as int, b.x as int, tn, dn);
        lemma_interp_coord_between(a.y as int, b.y as int, tn, dn);
        lemma_interp_coord_between(a.z as int, b.z as int, tn, dn);
    }
}

/// Every corner point of an in-range cell is a grid point.
pub proof fn lemma_corner_point_ok(cfg: ExtractConfig, i: int, j: int, k: int, n: int)
    requires
        config_wf(cfg),
        0 <= i < cfg.mx,
        0 <= j < cfg.my,
        0 <= k < cfg.mz,
    ensures
        grid_point_ok(spec_corner_point(i, j, k, n, cfg.cell_size as int)),
{
    let cell = cfg.cell_size as int;
    let ox = crate::extract::spec_offset_x(n);
    let oy = crate::extract::spec_offset_y(n);
    let oz = crate::extract::spec_offset_z(n);
    assert(0 <= ox <= 1 && 0 <= oy <= 1 && 0 <= oz <= 1);
    assert(0 <= (i + ox) * cell && (i + ox) * cell <= cfg.mx * cell && 0 <= (j + oy) * cell && (j
        + oy) * cell <= cfg.my * cell && 0 <= (k + oz) * cell && (k + oz) * cell <= cfg.mz
        * cell) by (nonlinear_arith)
        requires
            0 <= i < cfg.mx,
            0 <= j < cfg.my,
            0 <= k < cfg.mz,
            0 <= ox <= 1 && 0 <= oy <= 1 && 0 <= oz <= 1,
            1 <= cell,
    ;
}

/// Containment: vertex `t` of a cell's contribution lies on the segment
/// between the two corner points of its table edge; under the midpoint
/// policy it is exactly their midpoint, under the interpolated policy
/// exactly the interpolated edge point.
pub proof fn lemma_cell_vertex_on_edge(
    prims: Seq<Primitive>,
    cfg: ExtractConfig,
    i: int,
    j: int,
    k: int,
    t: int,
)
    requires
        config_wf(cfg),
        0 <= i < cfg.mx,
        0 <= j < cfg.my,
        0 <= k < cfg.mz,
        0 <= t < spec_cell_verts(prims, cfg, i, j, k).len(),
    ensures
        ({
            let e = spec_row(spec_cell_config(prims, cfg, i, j, k))[t];
            let cell = cfg.cell_size as int;
            let pa = spec_corner_point(i, j, k, spec_corner_a(e as int), cell);
            let pb = spec_corner_point(i, j, k, spec_corner_b(e as int), cell);
            let v = spec_cell_verts(prims, cfg, i, j, k)[t];
            &&& e < 12
            &&& v == spec_cell_vertex(prims, cfg, i, j, k, e)
            &&& point_between(v.position, pa, pb)
            &&& !cfg.interpolate ==> v.position == spec_midpoint(pa, pb)
            &&& cfg.interpolate ==> v.position == spec_edge_point(
                pa,
                pb,
                spec_field_value(prims, pa),
                spec_field_value(prims, pb),
                cfg.threshold as int,
            )
        }),
{
    let c = spec_cell_config(prims, cfg, i, j, k);
    lemma_row_valid(c);
    let e = spec_row(c)[t];
    let cell = cfg.cell_size as int;
    let pa = spec_corner_point(i, j, k, spec_corner_a(e as int), cell);
    let pb = spec_corner_point(i, j, k, spec_corner_b(e as int), cell);
    lemma_corner_point_ok(cfg, i, j, k, spec_corner_a(e as int));
    lemma_corner_point_ok(cfg, i, j, k, spec_corner_b(e as int));
    if cfg.interpolate {
        lemma_edge_point_between(
            pa,
            pb,
            spec_field_value(prims, pa),
            spec_field_value(prims, pb),
            cfg.threshold as int,
        );
    } else {
        lemma_midpoint_between(pa, pb);
    }
}

/// A single-constant field evaluates to that constant everywhere.
pub proof fn lemma_constant_field_value(value: i64, p: Point)
    ensures
        spec_field_value(seq![Primitive::Constant { value }], p) == value as int,
{
}

proof fn lemma_outside_cell_empty(
    prims: Seq<Primitive>,
    cfg: ExtractConfig,
    value: i64,
    i: int,
    j: int,
    k: int,
)
    requires
        prims == seq![Primitive::Constant { value }],
        value >= cfg.threshold,
    ensures
        spec_cell_verts(prims, cfg, i, j, k).len() == 0,
{
    reveal(crate::extract::spec_corner_inside);
    assert(spec_cell_config(prims, cfg, i, j, k) == 0);
    lemma_row_valid(0);
}

proof fn lemma_outside_z_empty(
    prims: Seq<Primitive>,
    cfg: ExtractConfig,
    value: i64,
    i: int,
    j: int,
    z: int,
)
    requires
        prims == seq![Primitive::Constant { value }],
        value >= cfg.threshold,
    ensures
        spec_cells_z(prims, cfg, i, j, z).len() == 0,
    decreases z,
{
    if z <= 0 {
    } else {
        lemma_outside_z_empty(prims, cfg, value, i, j, z - 1);
        lemma_outside_cell_empty(prims, cfg, value, i, j, z - 1);
    }
}

proof fn lemma_outside_yz_empty(
    prims: Seq<Primitive>,
    cfg: ExtractConfig,
    value: i64,
    i: int,
    y: int,
)
    requires
        prims == seq![Primitive::Constant { value }],
        value >= cfg.threshold,
    ensures
        spec_cells_yz(prims, cfg, i, y).len() == 0,
    decreases y,
{
    if y <= 0 {
    } else {
        lemma_outside_yz_empty(prims, cfg, value, i, y - 1);
        lemma_outside_z_empty(prims, cfg, value, i, y - 1, cfg.mz as int);
    }
}

/// A field that is a constant at or above the threshold everywhere — the
/// whole volume outside the solid — produces no vertices, over any grid.
pub proof fn lemma_outside_field_empty(cfg: ExtractConfig, value: i64)
    requires
        value >= cfg.threshold,
    ensures
        spec_extract(cfg, seq![Primitive::Constant { value }]).len() == 0,
{
    lemma_outside_xyz_empty(seq![Primitive::Constant { value }], cfg, value, cfg.mx as int);
}

proof fn lemma_outside_xyz_empty(
    prims: Seq<Primitive>,
    cfg: ExtractConfig,
    value: i64,
    x: int,
)
    requires
        prims == seq![Primitive::Constant { value }],
        value >= cfg.threshold,
    ensures
        spec_cells_xyz(prims, cfg, x).len() == 0,
    decreases x,
{
    if x <= 0 {
    } else {
        lemma_outside_xyz_empty(prims, cfg, value, x - 1);
        lemma_outside_yz_empty(prims, cfg, value, x - 1, cfg.my as int);
    }
}

/// Two configurations that differ only in the vertex-placement policy.
pub open spec fn same_but_policy(c1: ExtractConfig, c2: ExtractConfig) -> bool {
    c1.mx == c2.mx && c1.my == c2.my && c1.mz == c2.mz && c1.cell_size == c2.cell_size
        && c1.threshold == c2.threshold
}

proof fn lemma_policy_cell_len(
    prims: Seq<Primitive>,
    c1: ExtractConfig,
    c2: ExtractConfig,
    i: int,
    j: int,
    k: int,
)
    requires
        same_but_policy(c1, c2),
    ensures
        spec_cell_verts(prims, c1, i, j, k).len() == spec_cell_verts(prims, c2, i, j, k).len(),
{
    reveal(crate::extract::spec_corner_inside);
    assert(spec_cell_config(prims, c1, i, j, k) == spec_cell_config(prims, c2, i, j, k));
    lemma_row_valid(spec_cell_config(prims, c1, i, j, k));
}

proof fn lemma_policy_z_len(
    prims: Seq<Primitive>,
    c1: ExtractConfig,
    c2: ExtractConfig,
    i: int,
    j: int,
    z: int,
)
    requires
        same_but_policy(c1, c2),
    ensures
        spec_cells_z(prims, c1, i, j, z).len() == spec_cells_z(prims, c2, i, j, z).len(),
    decreases z,
{
    if z <= 0 {
    } else {
        lemma_policy_z_len(prims, c1, c2, i, j, z - 1);
        lemma_policy_cell_len(prims, c1, c2, i, j, z - 1);
    }
}

proof fn lemma_policy_yz_len(
    prims: Seq<Primitive>,
    c1: ExtractConfig,
    c2: ExtractConfig,
    i: int,
    y: int,
)
    requires
        same_but_policy(c1, c2),
    ensures
        spec_cells_yz(prims, c1, i, y).len() == spec_cells_yz(prims, c2, i, y).len(),
    decreases y,
{
    if y <= 0 {
    } else {
        lemma_policy_yz_len(prims, c1, c2, i, y - 1);
        lemma_policy_z_len(prims, c1, c2, i, y - 1, c1.mz as int);
    }
}

proof fn lemma_policy_xyz_len(prims: Seq<Primitive>, c1: ExtractConfig, c2: ExtractConfig, x: int)
    requires
        same_but_policy(c1, c2),
    ensures
        spec_cells_xyz(prims, c1, x).len() == spec_cells_xyz(prims, c2, x).len(),
    decreases x,
{
    if x <= 0 {
    } else {
        lemma_policy_xyz_len(prims, c1, c2, x - 1);
        lemma_policy_yz_len(prims, c1, c2, x - 1, c1.my as int);
    }
}

/// The placement policy moves vertices but never adds or removes any:
/// two configurations that differ only in `interpolate` yield vertex
/// sequences of the same length over any field.
pub proof fn lemma_policy_same_count(prims: Seq<Primitive>, c1: ExtractConfig, c2: ExtractConfig)
    requires
        same_but_policy(c1, c2),
    ensures
        spec_extract(c1, prims).len() == spec_extract(c2, prims).len(),
{
    lemma_policy_xyz_len(prims, c1, c2, c1.mx as int);
}

/// Whether `v` is one of the vertices cell `(i, j, k)` emits.
pub open spec fn vertex_emitted_by(
    prims: Seq<Primitive>,
    cfg: ExtractConfig,
    v: OutputVertex,
    i: int,
    j: int,
    k: int,
) -> bool {
    exists|t: int|
        0 <= t < spec_cell_verts(prims, cfg, i, j, k).len() && v == spec_cell_verts(
            prims,
            cfg,
            i,
            j,
            k,
        )[t]
}

proof fn lemma_cells_z_member(
    prims: Seq<Primitive>,
    cfg: ExtractConfig,
    i: int,
    j: int,
    z: int,
    idx: int,
)
    requires
        0 <= idx < spec_cells_z(prims, cfg, i, j, z).len(),
    ensures
        exists|k: int|
            0 <= k < z && #[trigger] vertex_emitted_by(
                prims,
                cfg,
                spec_cells_z(prims, cfg, i, j, z)[idx],
                i,
                j,
                k,
            ),
    decreases z,
{
    let whole = spec_cells_z(prims, cfg, i, j, z);
    let pre = spec_cells_z(prims, cfg, i, j, z - 1);
    let cell = spec_cell_verts(prims, cfg, i, j, z - 1);
    if idx < pre.len() {
        lemma_cells_z_member(prims, cfg, i, j, z - 1, idx);
        let k = choose|k: int|
            0 <= k < z - 1 && #[trigger] vertex_emitted_by(prims, cfg, pre[idx], i, j, k);
        assert(whole[idx] == pre[idx]);
        assert(vertex_emitted_by(prims, cfg, whole[idx], i, j, k));
    } else {
        let t = idx - pre.len();
        assert(whole[idx] == cell[t]);
        assert(vertex_emitted_by(prims, cfg, whole[idx], i, j, z - 1));
    }
}

proof fn lemma_cells_yz_member(
    prims: Seq<Primitive>,
    cfg: ExtractConfig,
    i: int,
    y: int,
    idx: int,
)
    requires
        0 <= idx < spec_cells_yz(prims, cfg, i, y).len(),
    ensures
        exists|j: int, k: int|
            0 <= j < y && 0 <= k < cfg.mz && #[trigger] vertex_emitted_by(
                prims,
                cfg,
                spec_cells_yz(prims, cfg, i, y)[idx],
                i,
                j,
                k,
            ),
    decreases y,
{
    let whole = spec_cells_yz(prims, cfg, i, y);
    let pre = spec_cells_yz(prims, cfg, i, y - 1);
    let run = spec_cells_z(prims, cfg, i, y - 1, cfg.mz as int);
    if idx < pre.len() {
        lemma_cells_yz_member(prims, cfg, i, y - 1, idx);
        let (j, k) = choose|j: int, k: int|
            0 <= j < y - 1 && 0 <= k < cfg.mz && #[trigger] vertex_emitted_by(
                prims,
                cfg,
                pre[idx],
                i,
                j,
                k,
            );
        assert(whole[idx] == pre[idx]);
        assert(vertex_emitted_by(prims, cfg, whole[idx], i, j, k));
    } else {
        lemma_cells_z_member(prims, cfg, i, y - 1, cfg.mz as int, idx - pre.len());
        let k = choose|k: int|
            0 <= k < cfg.mz && #[trigger] vertex_emitted_by(
                prims,
                cfg,
                run[idx - pre.len()],
                i,
                y - 1,
                k,
            );
        assert(whole[idx] == run[idx - pre.len()]);
        assert(vertex_emitted_by(prims, cfg, whole[idx], i, y - 1, k));
    }
}

proof fn lemma_cells_xyz_member(prims: Seq<Primitive>, cfg: ExtractConfig, x: int, idx: int)
    requires
        0 <= idx < spec_cells_xyz(prims, cfg, x).len(),
    ensures
        exists|i: int, j: int, k: int|
            0 <= i < x && 0 <= j < cfg.my && 0 <= k < cfg.mz && #[trigger] vertex_emitted_by(
                prims,
                cfg,
                spec_cells_xyz(prims, cfg, x)[idx],
                i,
                j,
                k,
            ),
    decreases x,
{
    let whole = spec_cells_xyz(prims, cfg, x);
    let pre = spec_cells_xyz(prims, cfg, x - 1);
    let run = spec_cells_yz(prims, cfg, x - 1, cfg.my as int);
    if idx < pre.len() {
        lemma_cells_xyz_member(prims, cfg, x - 1, idx);
        let (i, j, k) = choose|i: int, j: int, k: int|
            0 <= i < x - 1 && 0 <= j < cfg.my && 0 <= k < cfg.mz && #[trigger] vertex_emitted_by(
                prims,
                cfg,
                pre[idx],
                i,
                j,
                k,
            );
        assert(whole[idx] == pre[idx]);
        assert(vertex_emitted_by(prims, cfg, whole[idx], i, j, k));
    } else {
        lemma_cells_yz_member(prims, cfg, x - 1, cfg.my as int, idx - pre.len());
        let (j, k) = choose|j: int, k: int|
            0 <= j < cfg.my && 0 <= k < cfg.mz && #[trigger] vertex_emitted_by(
                prims,
                cfg,
                run[idx - pre.len()],
                x - 1,
                j,
                k,
            );
        assert(whole[idx] == run[idx - pre.len()]);
        assert(vertex_emitted_by(prims, cfg, whole[idx], x - 1, j, k));
    }
}

/// Whether `v` lies on a segment between the two endpoint corners of
/// some cube edge of cell `(i, j, k)`.
pub open spec fn lies_on_cell_edge(cfg: ExtractConfig, v: OutputVertex, i: int, j: int, k: int) -> bool {
    exists|e: int|
        0 <= e < 12 && #[trigger] point_between(
            v.position,
            spec_corner_point(i, j, k, spec_corner_a(e), cfg.cell_size as int),
            spec_corner_point(i, j, k, spec_corner_b(e), cfg.cell_size as int),
        )
}

/// Containment, globally: every vertex the scan emits comes from some
/// in-range cell and lies on the segment between the two grid corners of
/// one of that cell's cube edges.
pub proof fn lemma_extract_containment(cfg: ExtractConfig, prims: Seq<Primitive>, idx: int)
    requires
        config_wf(cfg),
        0 <= idx < spec_extract(cfg, prims).len(),
    ensures
        exists|i: int, j: int, k: int|
            0 <= i < cfg.mx && 0 <= j < cfg.my && 0 <= k < cfg.mz && #[trigger] lies_on_cell_edge(
                cfg,
                spec_extract(cfg, prims)[idx],
                i,
                j,
                k,
            ),
{
    let v = spec_extract(cfg, prims)[idx];
    lemma_cells_xyz_member(prims, cfg, cfg.mx as int, idx);
    let (i, j, k) = choose|i: int, j: int, k: int|
        0 <= i < cfg.mx && 0 <= j < cfg.my && 0 <= k < cfg.mz && #[trigger] vertex_emitted_by(
            prims,
            cfg,
            v,
            i,
            j,
            k,
        );
    let t = choose|t: int|
        0 <= t < spec_cell_verts(prims, cfg, i, j, k).len() && v == spec_cell_verts(
            prims,
            cfg,
            i,
            j,
            k,
        )[t];
    lemma_cell_vertex_on_edge(prims, cfg, i, j, k, t);
    let e = spec_row(spec_cell_config(prims, cfg, i, j, k))[t] as int;
    assert(0 <= e < 12 && point_between(
        v.position,
        spec_corner_point(i, j, k, spec_corner_a(e), cfg.cell_size as int),
        spec_corner_point(i, j, k, spec_corner_b(e), cfg.cell_size as int),
    ));
    assert(lies_on_cell_edge(cfg, v, i, j, k));
}

} // verus!
