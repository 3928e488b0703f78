use std::collections::VecDeque;

use trail_ribbon::{
    Axis3, Point3, RibbonVertex, TrailSample, create_trail_mesh, side_axis, tangent_between,
};

fn samples(points: &[(i32, i32, i32)]) -> VecDeque<TrailSample> {
    points
        .iter()
        .enumerate()
        .map(|(i, &(x, y, z))| TrailSample { position: Point3 { x, y, z }, timestamp: i as u64 })
        .collect()
}

/// The vertex position in world units that a renderer would place.
fn place(v: &RibbonVertex) -> [f64; 3] {
    let len = ((v.side.x * v.side.x + v.side.y * v.side.y + v.side.z * v.side.z) as f64).sqrt();
    let reach = if len == 0.0 { 0.0 } else { v.reach_num as f64 / v.reach_den as f64 / len };
    let sign = if v.outward { 1.0 } else { -1.0 };
    [
        v.anchor.x as f64 + sign * reach * v.side.x as f64,
        v.anchor.y as f64 + sign * reach * v.side.y as f64,
        v.anchor.z as f64 + sign * reach * v.side.z as f64,
    ]
}

#[test]
fn two_samples_width_two() {
    let mesh = create_trail_mesh(&samples(&[(0, 0, 0), (1, 0, 0)]), 2);
    assert_eq!(mesh.vertices.len(), 4);
    assert_eq!(mesh.indices, vec![0, 1, 2, 1, 3, 2]);
    let v = &mesh.vertices;
    assert_eq!((v[0].reach_num, v[0].reach_den), (0, 2));
    assert_eq!((v[2].reach_num, v[2].reach_den), (2, 2));
    assert_eq!(v[2].side, Axis3 { x: 0, y: 0, z: 1 });
    assert_eq!(place(&v[0]), [0.0, 0.0, 0.0]);
    assert_eq!(place(&v[1]), [0.0, 0.0, 0.0]);
    assert_eq!(place(&v[2]), [1.0, 0.0, -1.0]);
    assert_eq!(place(&v[3]), [1.0, 0.0, 1.0]);
}

#[test]
fn vertex_and_index_counts() {
    for n in 2..12 {
        let pts: Vec<(i32, i32, i32)> = (0..n).map(|i| (i, i % 3, -i)).collect();
        let mesh = create_trail_mesh(&samples(&pts), 3);
        assert_eq!(mesh.vertices.len(), 2 * n as usize);
        assert_eq!(mesh.indices.len(), 6 * (n as usize - 1));
    }
}

#[test]
fn fewer_than_two_samples_give_empty_mesh() {
    let mesh = create_trail_mesh(&samples(&[]), 3);
    assert!(mesh.vertices.is_empty() && mesh.indices.is_empty());
    let mesh = create_trail_mesh(&samples(&[(4, 5, 6)]), 3);
    assert!(mesh.vertices.is_empty() && mesh.indices.is_empty());
}

#[test]
fn winding_of_every_quad() {
    let mesh = create_trail_mesh(&samples(&[(0, 0, 0), (1, 0, 0), (2, 0, 0), (3, 0, 0)]), 4);
    assert_eq!(mesh.indices, vec![0, 1, 2, 1, 3, 2, 2, 3, 4, 3, 5, 4, 4, 5, 6, 5, 7, 6]);
}

#[test]
fn progress_and_taper() {
    let mesh = create_trail_mesh(&samples(&[(0, 0, 0), (2, 0, 0), (4, 0, 0), (6, 0, 0), (8, 0, 0)]), 6);
    let v = &mesh.vertices;
    assert_eq!((v[0].v_num, v[0].v_den, v[1].v_num), (0, 4, 0));
    assert_eq!((v[8].v_num, v[8].v_den, v[9].v_num), (4, 4, 4));
    for (k, vertex) in v.iter().enumerate() {
        let i = (k / 2) as u64;
        assert_eq!(vertex.reach_num, 6 * i);
        assert_eq!(vertex.reach_den, 8);
        assert_eq!(vertex.u, (k % 2) as u32);
        assert_eq!(vertex.outward, k % 2 == 1);
        assert_eq!(vertex.normal, Point3 { x: 0, y: 1, z: 0 });
    }
    // Half-width at progress 1/2 is 3 * 1/2.
    assert_eq!(place(&v[5]), [4.0, 0.0, 1.5]);
}

#[test]
fn rebuild_is_identical() {
    let buffer = samples(&[(0, 0, 0), (3, 1, 0), (5, 4, 2)]);
    let first = create_trail_mesh(&buffer, 7);
    let second = create_trail_mesh(&buffer, 7);
    assert_eq!(first.vertices, second.vertices);
    assert_eq!(first.indices, second.indices);
}

#[test]
fn interior_tangent_is_centred_difference() {
    let mesh = create_trail_mesh(&samples(&[(0, 0, 0), (1, 0, 0), (1, 0, 1)]), 2);
    assert_eq!(mesh.vertices[0].side, Axis3 { x: 0, y: 0, z: 1 });
    assert_eq!(mesh.vertices[2].side, Axis3 { x: -1, y: 0, z: 1 });
    assert_eq!(mesh.vertices[4].side, Axis3 { x: -1, y: 0, z: 0 });
}

#[test]
fn vertical_tangent_uses_fallback_axis() {
    let side = side_axis(Axis3 { x: 0, y: 1, z: 0 });
    assert_eq!(side, Axis3 { x: 0, y: 0, z: -1 });
    let mesh = create_trail_mesh(&samples(&[(0, 0, 0), (0, 3, 0)]), 2);
    assert_eq!(mesh.vertices[2].side, Axis3 { x: 0, y: 0, z: -3 });
    assert_eq!(place(&mesh.vertices[2]), [0.0, 3.0, 1.0]);
}

#[test]
fn side_axis_threshold() {
    // d = (0, 3, 1): |y| / |d| is about 0.949, so the fallback axis is used.
    assert_eq!(side_axis(Axis3 { x: 0, y: 3, z: 1 }), Axis3 { x: 0, y: 1, z: -3 });
    // d = (0, 2, 1): |y| / |d| is about 0.894, so up is used.
    assert_eq!(side_axis(Axis3 { x: 0, y: 2, z: 1 }), Axis3 { x: -1, y: 0, z: 0 });
}

#[test]
fn coincident_samples_collapse_to_zero_width() {
    let mesh = create_trail_mesh(&samples(&[(2, 2, 2), (2, 2, 2)]), 4);
    assert_eq!(mesh.vertices[2].side, Axis3 { x: 0, y: 0, z: 0 });
    assert_eq!(place(&mesh.vertices[2]), [2.0, 2.0, 2.0]);
    assert_eq!(place(&mesh.vertices[3]), [2.0, 2.0, 2.0]);
}

#[test]
fn tangent_between_extreme_coordinates() {
    let d = tangent_between(Point3 { x: i32::MIN, y: 0, z: i32::MAX }, Point3 { x: i32::MAX, y: 0, z: i32::MIN });
    assert_eq!(d, Axis3 { x: u32::MAX as i64, y: 0, z: -(u32::MAX as i64) });
    assert_eq!(side_axis(d), Axis3 { x: u32::MAX as i64, y: 0, z: u32::MAX as i64 });
}
