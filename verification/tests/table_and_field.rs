//! Tests of the triangulation table, the corner tables, the
//! signed-distance primitives and the edge-point policies.

use marching_cubes::extract::{interpolate_edges, midpoint};
use marching_cubes::field::{Field, Primitive};
use marching_cubes::geom::{isqrt, Point, SCALE};
use marching_cubes::table::{corner_index_a, corner_index_b, tri_row};

#[test]
fn table_rows_are_whole_triangles() {
    for c in 0u16..256 {
        let row = tri_row(c as u8);
        assert_eq!(row.len() % 3, 0, "configuration {c}");
        assert!(row.len() <= 15, "configuration {c}");
        for e in &row {
            assert!(*e < 12, "configuration {c}");
        }
    }
}

#[test]
fn empty_configurations_emit_nothing() {
    assert!(tri_row(0).is_empty());
    assert!(tri_row(255).is_empty());
}

#[test]
fn single_corner_configurations_emit_one_triangle() {
    for n in 0u8..8 {
        let row = tri_row(1u8 << n);
        assert_eq!(row.len(), 3, "corner {n}");
        // The three listed edges are exactly those incident to corner n.
        for e in &row {
            assert!(corner_index_a(*e) == n || corner_index_b(*e) == n, "corner {n} edge {e}");
        }
    }
}

#[test]
fn complement_configurations_use_same_edges() {
    for c in 0u16..256 {
        let mut used = [false; 12];
        let mut used_complement = [false; 12];
        for e in tri_row(c as u8) {
            used[e as usize] = true;
        }
        for e in tri_row(255 - c as u8) {
            used_complement[e as usize] = true;
        }
        assert_eq!(used, used_complement, "configuration {c}");
    }
}

#[test]
fn listed_edges_straddle_the_surface() {
    // Every edge a configuration lists joins one inside corner to one
    // outside corner: the table and the corner tables are consistent.
    for c in 0u16..256 {
        for e in tri_row(c as u8) {
            let a = corner_index_a(e);
            let b = corner_index_b(e);
            let bit_a = (c >> a) & 1;
            let bit_b = (c >> b) & 1;
            assert_ne!(bit_a, bit_b, "configuration {c} edge {e}");
        }
    }
}

#[test]
fn corner_tables_describe_the_cube() {
    // The four bottom edges, the four top edges, the four risers.
    let a: Vec<u8> = (0u8..12).map(corner_index_a).collect();
    let b: Vec<u8> = (0u8..12).map(corner_index_b).collect();
    assert_eq!(a, vec![0, 1, 2, 3, 4, 5, 6, 7, 0, 1, 2, 3]);
    assert_eq!(b, vec![1, 2, 3, 0, 5, 6, 7, 4, 4, 5, 6, 7]);
}

#[test]
fn integer_square_root_is_exact() {
    assert_eq!(isqrt(0), 0);
    assert_eq!(isqrt(1), 1);
    assert_eq!(isqrt(2), 1);
    assert_eq!(isqrt(3), 1);
    assert_eq!(isqrt(4), 2);
    assert_eq!(isqrt(65535), 255);
    assert_eq!(isqrt(65536), 256);
    assert_eq!(isqrt((SCALE * SCALE) as i64), SCALE);
    assert_eq!(isqrt(0x3FFFFFFFFFFFFFFF), 2147483647);
}

#[test]
fn sphere_distance_is_signed() {
    let field = Field::new(vec![Primitive::Sphere {
        center: Point { x: 0, y: 0, z: 0 },
        radius: SCALE,
    }]);
    // On the surface along an axis.
    assert_eq!(field.evaluate(Point { x: SCALE, y: 0, z: 0 }), 0);
    // At the center: minus the radius.
    assert_eq!(field.evaluate(Point { x: 0, y: 0, z: 0 }), -SCALE);
    // Outside along an axis: distance past the surface.
    assert_eq!(field.evaluate(Point { x: 3 * SCALE, y: 0, z: 0 }), 2 * SCALE);
}

#[test]
fn rounded_box_distance_along_a_face() {
    let half = SCALE / 5;
    let field = Field::new(vec![Primitive::RoundedBox {
        center: Point { x: 0, y: 0, z: 0 },
        half_extents: Point { x: half, y: half, z: half },
    }]);
    // Half a unit out along x: the distance to the nearest face.
    let p = Point { x: SCALE / 2, y: 0, z: 0 };
    assert_eq!(field.evaluate(p), SCALE / 2 - half);
    // Inside, at the center: the most negative the formula reaches.
    assert_eq!(field.evaluate(Point { x: 0, y: 0, z: 0 }), -half);
}

#[test]
fn union_takes_the_lesser_value() {
    let near = Primitive::Sphere { center: Point { x: 0, y: 0, z: 0 }, radius: SCALE };
    let far = Primitive::Sphere {
        center: Point { x: 10 * SCALE, y: 0, z: 0 },
        radius: SCALE,
    };
    let union = Field::new(vec![near, far]);
    let alone = Field::new(vec![near]);
    let p = Point { x: SCALE, y: 0, z: 0 };
    assert_eq!(union.evaluate(p), alone.evaluate(p).min(8 * SCALE));
    assert_eq!(union.evaluate(p), 0);
}

#[test]
fn midpoint_is_exact() {
    let a = Point { x: 0, y: 0, z: 0 };
    let b = Point { x: SCALE, y: SCALE, z: 0 };
    assert_eq!(midpoint(a, b), Point { x: SCALE / 2, y: SCALE / 2, z: 0 });
}

#[test]
fn interpolation_splits_the_edge_by_the_field() {
    let a = Point { x: 0, y: 0, z: 0 };
    let b = Point { x: 4 * SCALE, y: 0, z: 0 };
    // Threshold one quarter of the way from va to vb.
    let r = interpolate_edges(a, b, -SCALE, 3 * SCALE, 0);
    assert_eq!(r, Point { x: SCALE, y: 0, z: 0 });
}

#[test]
fn interpolation_falls_back_to_endpoints() {
    let a = Point { x: 0, y: 0, z: 0 };
    let b = Point { x: SCALE, y: 2 * SCALE, z: 3 * SCALE };
    let th = SCALE / 4;
    // First endpoint at the threshold.
    assert_eq!(interpolate_edges(a, b, th, SCALE, th), a);
    // Second endpoint at the threshold.
    assert_eq!(interpolate_edges(a, b, -SCALE, th, th), b);
    // Flat field along the edge.
    assert_eq!(interpolate_edges(a, b, SCALE, SCALE, th), a);
    // Crossing fraction below zero or above one: clamped to an endpoint.
    assert_eq!(interpolate_edges(a, b, th + SCALE, th + 2 * SCALE, th), a);
    assert_eq!(interpolate_edges(a, b, th - 2 * SCALE, th - SCALE, th), b);
}

#[test]
fn degenerate_edge_returns_an_endpoint() {
    // Both endpoints exactly at the threshold: a finite point, one of
    // the two endpoints, never a division by zero.
    let a = Point { x: SCALE, y: 2 * SCALE, z: 3 * SCALE };
    let b = Point { x: 4 * SCALE, y: 5 * SCALE, z: 6 * SCALE };
    let th = SCALE / 4;
    assert_eq!(interpolate_edges(a, b, th, th, th), a);
}
