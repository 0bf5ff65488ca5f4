use pcvisualizer::pointcloud::{normalization_divisor, DrawCall, LoadError, Point, PointCloud};
use pcvisualizer::scalar::MIN_FINITE;

fn p(x: f32, y: f32, z: f32, i: f32) -> Point {
    Point { x: x.to_bits(), y: y.to_bits(), z: z.to_bits(), intensity: i.to_bits() }
}

fn normalized(pc: &PointCloud) -> Vec<[f32; 3]> {
    let d = f32::from_bits(pc.divisor());
    pc.points()
        .iter()
        .map(|q| [f32::from_bits(q.x) / d, f32::from_bits(q.y) / d, f32::from_bits(q.z) / d])
        .collect()
}

#[test]
fn load_two_points_normalizes_by_eight() {
    let mut pc = PointCloud::new();
    let r = pc.load_pcd(Ok(vec![p(0.0, 0.0, 0.0, 5.0), p(2.0, 4.0, 8.0, 99.0)]));
    assert_eq!(r, Ok(()));
    assert_eq!(pc.divisor(), 8.0f32.to_bits());
    assert_eq!(normalized(&pc), vec![[0.0, 0.0, 0.0], [0.25, 0.5, 1.0]]);
}

#[test]
fn intensity_does_not_affect_divisor() {
    let pts = vec![p(1.0, 2.0, 3.0, 1000.0)];
    assert_eq!(normalization_divisor(&pts), 3.0f32.to_bits());
}

#[test]
fn divisor_of_nothing_is_smallest_finite() {
    assert_eq!(normalization_divisor(&Vec::new()), MIN_FINITE);
}

#[test]
fn divisor_ignores_nan_and_takes_greatest_axis() {
    let pts = vec![p(f32::NAN, -3.0, -7.0, 0.0), p(-1.0, f32::NAN, -2.0, 0.0)];
    assert_eq!(normalization_divisor(&pts), (-1.0f32).to_bits());
    let pts = vec![p(5.0, -9.0, 1.0, 0.0), p(0.5, 6.5, -1.0, 0.0)];
    assert_eq!(normalization_divisor(&pts), 6.5f32.to_bits());
}

#[test]
fn normalized_coordinates_within_unit_range() {
    let mut pc = PointCloud::new();
    let pts = vec![p(0.5, 1.0, 2.0, 0.0), p(3.0, 4.0, 0.25, 0.0), p(0.0, 1.5, 2.5, 0.0)];
    pc.load_pcd(Ok(pts)).unwrap();
    let inst = normalized(&pc);
    for q in inst.iter() {
        for c in q.iter() {
            assert!(*c >= -1.0 && *c <= 1.0);
        }
    }
    assert!(inst.iter().any(|q| q.iter().any(|c| *c == 1.0)));
}

#[test]
fn loading_twice_gives_identical_instances() {
    let pts = vec![p(0.3, -0.7, 1.9, 0.0), p(11.0, 2.0, 0.001, 1.0)];
    let mut pc = PointCloud::new();
    pc.load_pcd(Ok(pts.clone())).unwrap();
    let first = normalized(&pc);
    let first_bits: Vec<[u32; 3]> = first.iter().map(|q| [q[0].to_bits(), q[1].to_bits(), q[2].to_bits()]).collect();
    pc.load_pcd(Ok(pts)).unwrap();
    let second_bits: Vec<[u32; 3]> =
        normalized(&pc).iter().map(|q| [q[0].to_bits(), q[1].to_bits(), q[2].to_bits()]).collect();
    assert_eq!(first_bits, second_bits);
}

#[test]
fn empty_cloud_issues_no_draw() {
    let pc = PointCloud::new();
    assert_eq!(pc.draw(), None);
}

#[test]
fn loaded_cloud_draws_one_quad_per_point() {
    let mut pc = PointCloud::new();
    pc.load_pcd(Ok(vec![p(1.0, 1.0, 1.0, 0.0), p(2.0, 2.0, 2.0, 0.0), p(3.0, 3.0, 3.0, 0.0)])).unwrap();
    assert_eq!(pc.draw(), Some(DrawCall { vertex_count: 6, instance_count: 3 }));
}

#[test]
fn failed_load_keeps_previous_instances() {
    let mut pc = PointCloud::new();
    pc.load_pcd(Ok(vec![p(0.0, 0.0, 0.0, 0.0), p(2.0, 4.0, 8.0, 0.0)])).unwrap();
    let before = pc.points().clone();
    let err = LoadError::Parse("unexpected end of header".to_string());
    assert_eq!(pc.load_pcd(Err(err.clone())), Err(err));
    assert_eq!(*pc.points(), before);
    assert_eq!(pc.divisor(), 8.0f32.to_bits());
    assert_eq!(normalized(&pc), vec![[0.0, 0.0, 0.0], [0.25, 0.5, 1.0]]);
}

#[test]
fn point_size_has_no_bounds() {
    let mut pc = PointCloud::new();
    assert_eq!(pc.point_size(), 1.5f32.to_bits());
    pc.set_point_size((-0.5f32).to_bits());
    assert_eq!(pc.point_size(), (-0.5f32).to_bits());
}
