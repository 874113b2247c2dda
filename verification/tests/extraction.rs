//! End-to-end tests of the extractor over small grids.

use marching_cubes::extract::{extract, ExtractConfig};
use marching_cubes::field::{Field, Primitive};
use marching_cubes::geom::{Point, SCALE};

fn demo_field() -> Field {
    // A small sphere and a rounded box, as a CSG union.
    Field::new(vec![
        Primitive::Sphere {
            center: Point { x: 3 * SCALE, y: 3 * SCALE, z: 3 * SCALE },
            radius: SCALE / 2,
        },
        Primitive::RoundedBox {
            center: Point { x: 3 * SCALE, y: SCALE, z: 3 * SCALE },
            half_extents: Point { x: SCALE / 5, y: SCALE / 5, z: SCALE / 5 },
        },
    ])
}

fn demo_config(interpolate: bool) -> ExtractConfig {
    ExtractConfig {
        mx: 8,
        my: 8,
        mz: 8,
        cell_size: SCALE,
        threshold: SCALE / 4,
        interpolate,
    }
}

#[test]
fn determinism_two_runs() {
    let field = demo_field();
    let cfg = demo_config(true);
    let first = extract(&cfg, &field);
    let second = extract(&cfg, &field);
    assert_eq!(first, second);
}

#[test]
fn triple_invariant() {
    let field = demo_field();
    for interpolate in [false, true] {
        let cfg = demo_config(interpolate);
        let verts = extract(&cfg, &field);
        assert_eq!(verts.len() % 3, 0);
    }
}

#[test]
fn fully_outside_field_is_empty() {
    // A constant field one unit above the threshold: no corner is ever
    // inside, so no cell emits anything.
    let threshold = SCALE / 4;
    let field = Field::new(vec![Primitive::Constant { value: threshold + 1 }]);
    let cfg = ExtractConfig {
        mx: 5,
        my: 3,
        mz: 4,
        cell_size: SCALE / 4,
        threshold,
        interpolate: true,
    };
    let verts = extract(&cfg, &field);
    assert!(verts.is_empty());
}

#[test]
fn fully_inside_field_is_empty() {
    // Every corner inside (configuration 255) also emits nothing.
    let threshold = SCALE / 4;
    let field = Field::new(vec![Primitive::Constant { value: threshold - 1 }]);
    let cfg = ExtractConfig {
        mx: 2,
        my: 2,
        mz: 2,
        cell_size: SCALE,
        threshold,
        interpolate: false,
    };
    let verts = extract(&cfg, &field);
    assert!(verts.is_empty());
}

#[test]
fn single_cell_corner_sphere() {
    // One cell, a sphere of radius 0.5 around the cell's first corner:
    // only corner 0 is inside, so the cell has configuration 1 and emits
    // one triangle, crossing the three edges incident to corner 0 at
    // their midpoints (the field is exactly linear along those edges).
    let field = Field::new(vec![Primitive::Sphere {
        center: Point { x: 0, y: 0, z: 0 },
        radius: SCALE / 2,
    }]);
    let cfg = ExtractConfig {
        mx: 1,
        my: 1,
        mz: 1,
        cell_size: SCALE,
        threshold: 0,
        interpolate: true,
    };
    let verts = extract(&cfg, &field);
    assert_eq!(verts.len(), 3);
    let h = SCALE / 2;
    // Table row of configuration 1 lists edges 0, 8, 3 in that order.
    assert_eq!(verts[0].position, Point { x: h, y: 0, z: 0 });
    assert_eq!(verts[1].position, Point { x: 0, y: 0, z: h });
    assert_eq!(verts[2].position, Point { x: 0, y: h, z: 0 });
    // Every vertex lies inside the cell's bounding box.
    for v in &verts {
        assert!(0 <= v.position.x && v.position.x <= SCALE);
        assert!(0 <= v.position.y && v.position.y <= SCALE);
        assert!(0 <= v.position.z && v.position.z <= SCALE);
    }
    // The interpolated vertices sit exactly on the isosurface.
    for v in &verts {
        assert_eq!(field.evaluate(v.position), 0);
    }
}

#[test]
fn policy_changes_positions_not_count() {
    let field = demo_field();
    let blocky = extract(&demo_config(false), &field);
    let smooth = extract(&demo_config(true), &field);
    assert_eq!(blocky.len(), smooth.len());
    assert!(!blocky.is_empty());
    assert!(blocky.iter().zip(smooth.iter()).any(|(a, b)| a.position != b.position));
}

#[test]
fn midpoint_vertices_lie_on_half_grid() {
    // Midpoints of two cube corners always have coordinates that are
    // multiples of half the cell size.
    let field = demo_field();
    let cfg = demo_config(false);
    let verts = extract(&cfg, &field);
    assert!(!verts.is_empty());
    let half = cfg.cell_size / 2;
    for v in &verts {
        assert_eq!(v.position.x % half, 0);
        assert_eq!(v.position.y % half, 0);
        assert_eq!(v.position.z % half, 0);
    }
}

#[test]
fn interpolated_vertices_near_threshold() {
    // With the interpolated policy every emitted vertex either sits on an
    // edge endpoint (fallback) or its field value is close to the
    // threshold — within the linearization error of one cell.
    let field = demo_field();
    let cfg = demo_config(true);
    let verts = extract(&cfg, &field);
    assert!(!verts.is_empty());
    let th = cfg.threshold as f64 / SCALE as f64;
    for v in &verts {
        let on_corner = v.position.x % cfg.cell_size == 0 && v.position.y % cfg.cell_size == 0
            && v.position.z % cfg.cell_size == 0;
        let value = field.evaluate(v.position) as f64 / SCALE as f64;
        assert!(on_corner || (value - th).abs() < 0.3, "value {value} too far from {th}");
    }
}

#[test]
fn vertices_carry_fixed_attributes() {
    let field = demo_field();
    let verts = extract(&demo_config(true), &field);
    assert!(!verts.is_empty());
    for v in &verts {
        assert_eq!(v.tex_u, SCALE);
        assert_eq!(v.tex_v, SCALE);
        assert_eq!((v.color.r, v.color.g, v.color.b, v.color.a), (255, 255, 255, 255));
    }
}
