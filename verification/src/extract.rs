//! The extractor: scans every cell of the voxel grid, classifies it by
//! which corners lie below the threshold, looks its triangulation up in
//! the table, and emits one vertex per listed edge — at the edge midpoint,
//! or linearly interpolated toward the isosurface crossing.
//!
//! `extract` returns exactly the vertex sequence [`spec_extract`] describes,
//! so the whole scan is functionally determined by its inputs.

use vstd::prelude::*;
use vstd::arithmetic::div_mod::{
    lemma_div_is_ordered,
    lemma_div_multiples_vanish,
    lemma_div_pos_is_pos,
};
use crate::geom::{Point, grid_point_ok, COORD_MAX, VAL_MAX, SCALE};
use crate::field::{Field, Primitive, field_wf, spec_field_value};
use crate::table::{spec_row, spec_corner_a, spec_corner_b, tri_row, corner_index_a, corner_index_b, lemma_row_valid};

verus! {

/// The extractor's immutable parameters: grid dimensions, cell size and
/// isosurface threshold (both fixed-point), and the vertex-placement
/// policy.
#[derive(Clone, Copy, PartialEq, Eq, Structural, Debug)]
pub struct ExtractConfig {
    pub mx: usize,
    pub my: usize,
    pub mz: usize,
    pub cell_size: i64,
    pub threshold: i64,
    pub interpolate: bool,
}

/// An RGBA color, one byte per channel.
#[derive(Clone, Copy, PartialEq, Eq, Structural, Debug)]
pub struct Color {
    pub r: u8,
    pub g: u8,
    pub b: u8,
    pub a: u8,
}

/// One emitted vertex: a position plus the fixed shading attributes every
/// vertex of the mesh shares (texture coordinate `(1, 1)` and white).
#[derive(Clone, Copy, PartialEq, Eq, Structural, Debug)]
pub struct OutputVertex {
    pub position: Point,
    pub tex_u: i64,
    pub tex_v: i64,
    pub color: Color,
}

/// Grid dimensions are positive, every grid coordinate stays within
/// `COORD_MAX`, and the threshold is a representable field value.
pub open spec fn config_wf(cfg: ExtractConfig) -> bool {
    &&& 1 <= cfg.mx
    &&& 1 <= cfg.my
    &&& 1 <= cfg.mz
    &&& 1 <= cfg.cell_size
    &&& cfg.mx * cfg.cell_size <= COORD_MAX
    &&& cfg.my * cfg.cell_size <= COORD_MAX
    &&& cfg.mz * cfg.cell_size <= COORD_MAX
    &&& -VAL_MAX <= cfg.threshold <= VAL_MAX
}

/// Unit-cube x offset of corner `n` (corners 1, 2, 5, 6 lie at `x + 1`).
pub open spec fn spec_offset_x(n: int) -> int {
    if n == 1 || n == 2 || n == 5 || n == 6 {
        1
    } else {
        0
    }
}

/// Unit-cube y offset of corner `n` (corners 2, 3, 6, 7 lie at `y + 1`).
pub open spec fn spec_offset_y(n: int) -> int {
    if n == 2 || n == 3 || n == 6 || n == 7 {
        1
    } else {
        0
    }
}

/// Unit-cube z offset of corner `n` (corners 4, 5, 6, 7 lie at `z + 1`).
pub open spec fn spec_offset_z(n: int) -> int {
    if n == 4 || n == 5 || n == 6 || n == 7 {
        1
    } else {
        0
    }
}

/// Corner `n` of cell `(i, j, k)`: the cell coordinate plus the unit-cube
/// offset, scaled by the cell size.
pub open spec fn spec_corner_point(i: int, j: int, k: int, n: int, cell: int) -> Point {
    Point {
        x: ((i + spec_offset_x(n)) * cell) as i64,
        y: ((j + spec_offset_y(n)) * cell) as i64,
        z: ((k + spec_offset_z(n)) * cell) as i64,
    }
}

/// The midpoint of two coordinates, rounded down.
pub open spec fn spec_mid_coord(a: int, b: int) -> int {
    (a + b) / 2
}

/// The midpoint of two points, each coordinate rounded down.
pub open spec fn spec_midpoint(a: Point, b: Point) -> Point {
    Point {
        x: spec_mid_coord(a.x as int, b.x as int) as i64,
        y: spec_mid_coord(a.y as int, b.y as int) as i64,
        z: spec_mid_coord(a.z as int, b.z as int) as i64,
    }
}

/// One coordinate of the interpolated point: `a` moved the fraction
/// `t / d` of the way toward `b`, in integer arithmetic (`0 < t < d`).
pub open spec fn spec_interp_coord(a: int, b: int, t: int, d: int) -> int {
    if b >= a {
        a + (t * (b - a)) / d
    } else {
        a - (t * (a - b)) / d
    }
}

/// The interpolated point between `a` and `b` at fraction `t / d`.
pub open spec fn spec_interp_point(a: Point, b: Point, t: int, d: int) -> Point {
    Point {
        x: spec_interp_coord(a.x as int, b.x as int, t, d) as i64,
        y: spec_interp_coord(a.y as int, b.y as int, t, d) as i64,
        z: spec_interp_coord(a.z as int, b.z as int, t, d) as i64,
    }
}

/// The output point of an edge under the interpolated policy: the point
/// along the segment where the linearly interpolated field meets the
/// threshold.  Degenerate cases — an endpoint already at the threshold, a
/// flat field along the edge, or a crossing fraction outside `[0, 1]` —
/// fall back to an endpoint instead of dividing by a vanishing or
/// sign-crossed denominator.
pub open spec fn spec_edge_point(a: Point, b: Point, va: int, vb: int, th: int) -> Point {
    if va == th {
        a
    } else if vb == th {
        b
    } else if va == vb {
        a
    } else {
        let tn = if vb - va < 0 {
            -(th - va)
        } else {
            th - va
        };
        let dn = if vb - va < 0 {
            -(vb - va)
        } else {
            vb - va
        };
        if tn < 0 {
            a
        } else if tn > dn {
            b
        } else {
            spec_interp_point(a, b, tn, dn)
        }
    }
}

/// The fixed shading attributes attached to every position.
pub open spec fn spec_make_vertex(p: Point) -> OutputVertex {
    OutputVertex {
        position: p,
        tex_u: SCALE,
        tex_v: SCALE,
        color: Color { r: 255, g: 255, b: 255, a: 255 },
    }
}

/// Whether corner `n` of cell `(i, j, k)` lies strictly below the
/// threshold ("inside" the solid).
#[verifier::opaque]
pub open spec fn spec_corner_inside(
    prims: Seq<Primitive>,
    cfg: ExtractConfig,
    i: int,
    j: int,
    k: int,
    n: int,
) -> bool {
    spec_field_value(prims, spec_corner_point(i, j, k, n, cfg.cell_size as int))
        < cfg.threshold
}

/// The 8-bit configuration of cell `(i, j, k)`: bit `n` is set when
/// corner `n` is inside.
pub open spec fn spec_cell_config(
    prims: Seq<Primitive>,
    cfg: ExtractConfig,
    i: int,
    j: int,
    k: int,
) -> int {
    (if spec_corner_inside(prims, cfg, i, j, k, 0) {
        1int
    } else {
        0
    }) + (if spec_corner_inside(prims, cfg, i, j, k, 1) {
        2int
    } else {
        0
    }) + (if spec_corner_inside(prims, cfg, i, j, k, 2) {
        4int
    } else {
        0
    }) + (if spec_corner_inside(prims, cfg, i, j, k, 3) {
        8int
    } else {
        0
    }) + (if spec_corner_inside(prims, cfg, i, j, k, 4) {
        16int
    } else {
        0
    }) + (if spec_corner_inside(prims, cfg, i, j, k, 5) {
        32int
    } else {
        0
    }) + (if spec_corner_inside(prims, cfg, i, j, k, 6) {
        64int
    } else {
        0
    }) + (if spec_corner_inside(prims, cfg, i, j, k, 7) {
        128int
    } else {
        0
    })
}

/// The vertex cell `(i, j, k)` emits for listed edge `e`.
pub open spec fn spec_cell_vertex(
    prims: Seq<Primitive>,
    cfg: ExtractConfig,
    i: int,
    j: int,
    k: int,
    e: u8,
) -> OutputVertex {
    let pa = spec_corner_point(i, j, k, spec_corner_a(e as int), cfg.cell_size as int);
    let pb = spec_corner_point(i, j, k, spec_corner_b(e as int), cfg.cell_size as int);
    let va = spec_field_value(prims, pa);
    let vb = spec_field_value(prims, pb);
    let pos = if cfg.interpolate {
        spec_edge_point(pa, pb, va, vb, cfg.threshold as int)
    } else {
        spec_midpoint(pa, pb)
    };
    spec_make_vertex(pos)
}

/// All vertices cell `(i, j, k)` emits, in table order.
pub open spec fn spec_cell_verts(
    prims: Seq<Primitive>,
    cfg: ExtractConfig,
    i: int,
    j: int,
    k: int,
) -> Seq<OutputVertex> {
    spec_row(spec_cell_config(prims, cfg, i, j, k)).map(
        |t: int, e: u8| spec_cell_vertex(prims, cfg, i, j, k, e),
    )
}

/// Vertices of cells `(i, j, 0)` through `(i, j, z - 1)`, concatenated.
pub open spec fn spec_cells_z(
    prims: Seq<Primitive>,
    cfg: ExtractConfig,
    i: int,
    j: int,
    z: int,
) -> Seq<OutputVertex>
    decreases z,
{
    if z <= 0 {
        Seq::empty()
    } else {
        spec_cells_z(prims, cfg, i, j, z - 1) + spec_cell_verts(prims, cfg, i, j, z - 1)
    }
}

/// Vertices of all cells `(i, j', _)` with `j' < y`, concatenated in scan
/// order.
pub open spec fn spec_cells_yz(
    prims: Seq<Primitive>,
    cfg: ExtractConfig,
    i: int,
    y: int,
) -> Seq<OutputVertex>
    decreases y,
{
    if y <= 0 {
        Seq::empty()
    } else {
        spec_cells_yz(prims, cfg, i, y - 1) + spec_cells_z(
            prims,
            cfg,
            i,
            y - 1,
            cfg.mz as int,
        )
    }
}

/// Vertices of all cells `(i', _, _)` with `i' < x`, concatenated in scan
/// order.
pub open spec fn spec_cells_xyz(
    prims: Seq<Primitive>,
    cfg: ExtractConfig,
    x: int,
) -> Seq<OutputVertex>
    decreases x,
{
    if x <= 0 {
        Seq::empty()
    } else {
        spec_cells_xyz(prims, cfg, x - 1) + spec_cells_yz(
            prims,
            cfg,
            x - 1,
            cfg.my as int,
        )
    }
}

/// The whole scan: every cell in x-outer, y-middle, z-inner order.
pub open spec fn spec_extract(cfg: ExtractConfig, prims: Seq<Primitive>) -> Seq<OutputVertex> {
    spec_cells_xyz(prims, cfg, cfg.mx as int)
}

fn corner_offset(n: u8) -> (r: (u8, u8, u8))
    requires
        n < 8,
    ensures
        r.0 as int == spec_offset_x(n as int),
        r.1 as int == spec_offset_y(n as int),
        r.2 as int == spec_offset_z(n as int),
{
    match n {
        0 => (0, 0, 0),
        1 => (1, 0, 0),
        2 => (1, 1, 0),
        3 => (0, 1, 0),
        4 => (0, 0, 1),
        5 => (1, 0, 1),
        6 => (1, 1, 1),
        _ => (0, 1, 1),
    }
}

fn corner_point(i: usize, j: usize, k: usize, n: u8, cell: i64) -> (r: Point)
    requires
        n < 8,
        1 <= cell,
        (i + 1) * cell <= COORD_MAX,
        (j + 1) * cell <= COORD_MAX,
        (k + 1) * cell <= COORD_MAX,
    ensures
        r == spec_corner_point(i as int, j as int, k as int, n as int, cell as int),
        grid_point_ok(r),
{
    let (ox, oy, oz) = corner_offset(n);
    assert(0 <= (i + ox as int) * cell <= (i + 1) * cell && 0 <= (j + oy as int) * cell <= (j
        + 1) * cell && 0 <= (k + oz as int) * cell <= (k + 1) * cell && i + 1 <= (i + 1) * cell
        && j + 1 <= (j + 1) * cell && k + 1 <= (k + 1) * cell) by (nonlinear_arith)
        requires
            0 <= i && 0 <= j && 0 <= k,
            0 <= ox as int <= 1 && 0 <= oy as int <= 1 && 0 <= oz as int <= 1,
            1 <= cell,
    ;
    let x = (i as i64 + ox as i64) * cell;
    let y = (j as i64 + oy as i64) * cell;
    let z = (k as i64 + oz as i64) * cell;
    Point { x, y, z }
}

/// The midpoint policy: the arithmetic mean of the two corner points,
/// each coordinate rounded down.
pub fn midpoint(a: Point, b: Point) -> (r: Point)
    requires
        grid_point_ok(a),
        grid_point_ok(b),
    ensures
        r == spec_midpoint(a, b),
        grid_point_ok(r),
{
    Point { x: (a.x + b.x) / 2, y: (a.y + b.y) / 2, z: (a.z + b.z) / 2 }
}

fn interp_coord(a: i64, b: i64, t: i64, d: i64) -> (r: i64)
    requires
        0 <= a <= COORD_MAX,
        0 <= b <= COORD_MAX,
        0 < t < d,
        d <= 0x100000000,
    ensures
        r == spec_interp_coord(a as int, b as int, t as int, d as int),
        0 <= r <= COORD_MAX,
{
    if b >= a {
        let diff = b - a;
        assert(0 <= t * diff <= d * diff <= 0x100000000 * 0x10000000) by (nonlinear_arith)
            requires
                0 <= diff <= 0x10000000,
                0 < t < d <= 0x100000000,
        ;
        let q = (t * diff) / d;
        proof {
            lemma_div_pos_is_pos(t * diff, d as int);
            lemma_div_is_ordered(t * diff, d * diff, d as int);
            lemma_div_multiples_vanish(diff as int, d as int);
            assert(0 <= q <= diff);
        }
        a + q
    } else {
        let diff = a - b;
        assert(0 <= t * diff <= d * diff <= 0x100000000 * 0x10000000) by (nonlinear_arith)
            requires
                0 <= diff <= 0x10000000,
                0 < t < d <= 0x100000000,
        ;
        let q = (t * diff) / d;
        proof {
            lemma_div_pos_is_pos(t * diff, d as int);
            lemma_div_is_ordered(t * diff, d * diff, d as int);
            lemma_div_multiples_vanish(diff as int, d as int);
            assert(0 <= q <= diff);
        }
        a - q
    }
}

/// The interpolated policy: the point along the edge where the linearly
/// interpolated field value meets the threshold, falling back to an
/// endpoint in the degenerate cases.  `va` and `vb` are the field values
/// already computed at `a` and `b`; the field is not re-evaluated.
pub fn interpolate_edges(a: Point, b: Point, va: i64, vb: i64, th: i64) -> (r: Point)
    requires
        grid_point_ok(a),
        grid_point_ok(b),
        -VAL_MAX <= va <= VAL_MAX,
        -VAL_MAX <= vb <= VAL_MAX,
        -VAL_MAX <= th <= VAL_MAX,
    ensures
        r == spec_edge_point(a, b, va as int, vb as int, th as int),
        grid_point_ok(r),
{
    let t0 = th - va;
    let d0 = vb - va;
    if t0 == 0 {
        return a;
    }
    if d0 == t0 {
        return b;
    }
    if d0 == 0 {
        return a;
    }
    let tn = if d0 < 0 {
        -t0
    } else {
        t0
    };
    let dn = if d0 < 0 {
        -d0
    } else {
        d0
    };
    if tn < 0 {
        return a;
    }
    if tn > dn {
        return b;
    }
    let x = interp_coord(a.x, b.x, tn, dn);
    let y = interp_coord(a.y, b.y, tn, dn);
    let z = interp_coord(a.z, b.z, tn, dn);
    Point { x, y, z }
}

fn new_vertex(p: Point) -> (r: OutputVertex)
    ensures
        r == spec_make_vertex(p),
{
    OutputVertex {
        position: p,
        tex_u: SCALE,
        tex_v: SCALE,
        color: Color { r: 255, g: 255, b: 255, a: 255 },
    }
}

fn emit_cell(
    cfg: &ExtractConfig,
    field: &Field,
    i: usize,
    j: usize,
    k: usize,
    out: &mut Vec<OutputVertex>,
)
    requires
        config_wf(*cfg),
        field_wf(*field),
        i < cfg.mx,
        j < cfg.my,
        k < cfg.mz,
    ensures
        final (out)@ == old(out)@ + spec_cell_verts(
            field.primitives@,
            *cfg,
            i as int,
            j as int,
            k as int,
        ),
{
    let ghost prims = field.primitives@;
    let cell = cfg.cell_size;
    assert((i + 1) * cell <= cfg.mx * cell && (j + 1) * cell <= cfg.my * cell && (k + 1) * cell
        <= cfg.mz * cell) by (nonlinear_arith)
        requires
            i < cfg.mx && j < cfg.my && k < cfg.mz,
            1 <= cell,
    ;
    let mut pts: Vec<Point> = Vec::new();
    let mut n: usize = 0;
    while n < 8
        invariant
            n <= 8,
            pts@.len() == n,
            config_wf(*cfg),
            i < cfg.mx && j < cfg.my && k < cfg.mz,
            cell == cfg.cell_size,
            (i + 1) * cell <= COORD_MAX && (j + 1) * cell <= COORD_MAX && (k + 1) * cell
                <= COORD_MAX,
            forall|m: int|
                0 <= m < n ==> #[trigger] pts@[m] == spec_corner_point(
                    i as int,
                    j as int,
                    k as int,
                    m,
                    cell as int,
                ) && grid_point_ok(pts@[m]),
        decreases 8 - n,
    {
        let p = corner_point(i, j, k, n as u8, cell);
        pts.push(p);
        n = n + 1;
    }
    let mut vals: Vec<i64> = Vec::new();
    let mut n: usize = 0;
    while n < 8
        invariant
            n <= 8,
            vals@.len() == n,
            pts@.len() == 8,
            config_wf(*cfg),
            field_wf(*field),
            prims == field.primitives@,
            cell == cfg.cell_size,
            forall|m: int|
                0 <= m < 8 ==> #[trigger] pts@[m] == spec_corner_point(
                    i as int,
                    j as int,
                    k as int,
                    m,
                    cell as int,
                ) && grid_point_ok(pts@[m]),
            forall|m: int|
                0 <= m < n ==> #[trigger] vals@[m] == spec_field_value(prims, pts@[m]) && -VAL_MAX
                    <= vals@[m] <= VAL_MAX,
        decreases 8 - n,
    {
        let v = field.evaluate(pts[n]);
        vals.push(v);
        n = n + 1;
    }
    let th = cfg.threshold;
    let mut bits: u8 = 0;
    if vals[0] < th {
        bits = bits + 1;
    }
    if vals[1] < th {
        bits = bits + 2;
    }
    if vals[2] < th {
        bits = bits + 4;
    }
    if vals[3] < th {
        bits = bits + 8;
    }
    if vals[4] < th {
        bits = bits + 16;
    }
    if vals[5] < th {
        bits = bits + 32;
    }
    if vals[6] < th {
        bits = bits + 64;
    }
    if vals[7] < th {
        bits = bits + 128;
    }
    proof {
        reveal(spec_corner_inside);
        assert(bits as int == spec_cell_config(prims, *cfg, i as int, j as int, k as int));
    }
    let row = tri_row(bits);
    let ghost verts = spec_cell_verts(prims, *cfg, i as int, j as int, k as int);
    proof {
        assert(verts.len() == row@.len());
    }
    let mut t: usize = 0;
    while t < row.len()
        invariant
            t <= row@.len(),
            row@ == spec_row(spec_cell_config(prims, *cfg, i as int, j as int, k as int)),
            forall|u: int| 0 <= u < row@.len() ==> row@[u] < 12,
            verts == spec_cell_verts(prims, *cfg, i as int, j as int, k as int),
            verts.len() == row@.len(),
            config_wf(*cfg),
            field_wf(*field),
            prims == field.primitives@,
            cell == cfg.cell_size,
            th == cfg.threshold,
            pts@.len() == 8,
            vals@.len() == 8,
            forall|m: int|
                0 <= m < 8 ==> #[trigger] pts@[m] == spec_corner_point(
                    i as int,
                    j as int,
                    k as int,
                    m,
                    cell as int,
                ) && grid_point_ok(pts@[m]),
            forall|m: int|
                0 <= m < 8 ==> #[trigger] vals@[m] == spec_field_value(prims, pts@[m]) && -VAL_MAX
                    <= vals@[m] <= VAL_MAX,
            out@ == old(out)@ + verts.take(t as int),
        decreases row@.len() - t,
    {
        let e = row[t];
        let ia = corner_index_a(e);
        let ib = corner_index_b(e);
        let pa = pts[ia as usize];
        let pb = pts[ib as usize];
        let va = vals[ia as usize];
        let vb = vals[ib as usize];
        let pos = if cfg.interpolate {
            interpolate_edges(pa, pb, va, vb, th)
        } else {
            midpoint(pa, pb)
        };
        let v = new_vertex(pos);
        proof {
            assert(verts[t as int] == spec_cell_vertex(
                prims,
                *cfg,
                i as int,
                j as int,
                k as int,
                row@[t as int],
            ));
            assert(v == verts[t as int]);
            assert(verts.take(t as int + 1) =~= verts.take(t as int).push(verts[t as int]));
        }
        out.push(v);
        t = t + 1;
    }
    proof {
        assert(verts.take(verts.len() as int) =~= verts);
    }
}

proof fn lemma_cell_config_range(prims: Seq<Primitive>, cfg: ExtractConfig, i: int, j: int, k: int)
    ensures
        0 <= spec_cell_config(prims, cfg, i, j, k) < 256,
{
}

/// Each cell contributes a whole number of triangles: as many vertices as
/// its configuration's row lists, and that count is a multiple of three.
pub proof fn lemma_cell_verts_triple(
    prims: Seq<Primitive>,
    cfg: ExtractConfig,
    i: int,
    j: int,
    k: int,
)
    ensures
        spec_cell_verts(prims, cfg, i, j, k).len() == spec_row(
            spec_cell_config(prims, cfg, i, j, k),
        ).len(),
        spec_cell_verts(prims, cfg, i, j, k).len() % 3 == 0,
        spec_cell_verts(prims, cfg, i, j, k).len() <= 15,
{
    lemma_cell_config_range(prims, cfg, i, j, k);
    lemma_row_valid(spec_cell_config(prims, cfg, i, j, k));
}

#[verifier::rlimit(50)]
proof fn lemma_cells_z_triple(prims: Seq<Primitive>, cfg: ExtractConfig, i: int, j: int, z: int)
    ensures
        spec_cells_z(prims, cfg, i, j, z).len() % 3 == 0,
    decreases z,
{
    if z <= 0 {
    } else {
        lemma_cells_z_triple(prims, cfg, i, j, z - 1);
        lemma_cell_verts_triple(prims, cfg, i, j, z - 1);
    }
}

#[verifier::rlimit(50)]
proof fn lemma_cells_yz_triple(prims: Seq<Primitive>, cfg: ExtractConfig, i: int, y: int)
    ensures
        spec_cells_yz(prims, cfg, i, y).len() % 3 == 0,
    decreases y,
{
    if y <= 0 {
    } else {
        lemma_cells_yz_triple(prims, cfg, i, y - 1);
        lemma_cells_z_triple(prims, cfg, i, y - 1, cfg.mz as int);
    }
}

#[verifier::rlimit(50)]
proof fn lemma_cells_xyz_triple(prims: Seq<Primitive>, cfg: ExtractConfig, x: int)
    ensures
        spec_cells_xyz(prims, cfg, x).len() % 3 == 0,
    decreases x,
{
    if x <= 0 {
    } else {
        lemma_cells_xyz_triple(prims, cfg, x - 1);
        lemma_cells_yz_triple(prims, cfg, x - 1, cfg.my as int);
    }
}

/// Triple invariant: the scan emits whole triangles, so the vertex count
/// is always a multiple of three.
pub proof fn lemma_extract_triples(cfg: ExtractConfig, prims: Seq<Primitive>)
    ensures
        spec_extract(cfg, prims).len() % 3 == 0,
{
    lemma_cells_xyz_triple(prims, cfg, cfg.mx as int);
}

/// Runs the Marching Cubes scan over the whole grid and returns the flat
/// vertex list, three consecutive vertices per triangle, cells visited in
/// x-outer, y-middle, z-inner order.
pub fn extract(cfg: &ExtractConfig, field: &Field) -> (r: Vec<OutputVertex>)
    requires
        config_wf(*cfg),
        field_wf(*field),
    ensures
        r@ == spec_extract(*cfg, field.primitives@),
        r@.len() % 3 == 0,
{
    let ghost prims = field.primitives@;
    let mut out: Vec<OutputVertex> = Vec::new();
    assert(out@ =~= spec_cells_xyz(prims, *cfg, 0));
    let mut x: usize = 0;
    while x < cfg.mx
        invariant
            x <= cfg.mx,
            config_wf(*cfg),
            field_wf(*field),
            prims == field.primitives@,
            out@ == spec_cells_xyz(prims, *cfg, x as int),
        decreases cfg.mx - x,
    {
        let mut y: usize = 0;
        assert(spec_cells_yz(prims, *cfg, x as int, 0) =~= Seq::<OutputVertex>::empty());
        assert(out@ =~= spec_cells_xyz(prims, *cfg, x as int) + spec_cells_yz(
            prims,
            *cfg,
            x as int,
            0,
        ));
        while y < cfg.my
            invariant
                y <= cfg.my,
                x < cfg.mx,
                config_wf(*cfg),
                field_wf(*field),
                prims == field.primitives@,
                out@ == spec_cells_xyz(prims, *cfg, x as int) + spec_cells_yz(
                    prims,
                    *cfg,
                    x as int,
                    y as int,
                ),
            decreases cfg.my - y,
        {
            let mut z: usize = 0;
            assert(spec_cells_z(prims, *cfg, x as int, y as int, 0)
                =~= Seq::<OutputVertex>::empty());
            assert(out@ =~= spec_cells_xyz(prims, *cfg, x as int) + spec_cells_yz(
                prims,
                *cfg,
                x as int,
                y as int,
            ) + spec_cells_z(prims, *cfg, x as int, y as int, 0));
            while z < cfg.mz
                invariant
                    z <= cfg.mz,
                    x < cfg.mx,
                    y < cfg.my,
                    config_wf(*cfg),
                    field_wf(*field),
                    prims == field.primitives@,
                    out@ == spec_cells_xyz(prims, *cfg, x as int) + spec_cells_yz(
                        prims,
                        *cfg,
                        x as int,
                        y as int,
                    ) + spec_cells_z(prims, *cfg, x as int, y as int, z as int),
                decreases cfg.mz - z,
            {
                emit_cell(cfg, field, x, y, z, &mut out);
                proof {
                    assert(spec_cells_z(prims, *cfg, x as int, y as int, z as int + 1)
                        == spec_cells_z(prims, *cfg, x as int, y as int, z as int)
                        + spec_cell_verts(prims, *cfg, x as int, y as int, z as int));
                    assert(out@ =~= spec_cells_xyz(prims, *cfg, x as int) + spec_cells_yz(
                        prims,
                        *cfg,
                        x as int,
                        y as int,
                    ) + spec_cells_z(prims, *cfg, x as int, y as int, z as int + 1));
                }
                z = z + 1;
            }
            proof {
                assert(spec_cells_yz(prims, *cfg, x as int, y as int + 1) == spec_cells_yz(
                    prims,
                    *cfg,
                    x as int,
                    y as int,
                ) + spec_cells_z(prims, *cfg, x as int, y as int, cfg.mz as int));
                assert(out@ =~= spec_cells_xyz(prims, *cfg, x as int) + spec_cells_yz(
                    prims,
                    *cfg,
                    x as int,
                    y as int + 1,
                ));
            }
            y = y + 1;
        }
        proof {
            assert(spec_cells_xyz(prims, *cfg, x as int + 1) == spec_cells_xyz(
                prims,
                *cfg,
                x as int,
            ) + spec_cells_yz(prims, *cfg, x as int, cfg.my as int));
        }
        x = x + 1;
    }
    proof {
        lemma_extract_triples(*cfg, prims);
    }
    out
}

} // verus!
