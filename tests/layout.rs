use hero_sim::{fibonacci_sphere_with, step_rotate_y_with};

fn rotation(angle: f32) -> impl Fn(f32, f32) -> (f32, f32) {
    let (s, c) = angle.sin_cos();
    move |x, z| (x * c + z * s, -x * s + z * c)
}

fn close(a: &[f32], b: &[f32], tol: f32) -> bool {
    a.len() == b.len() && a.iter().zip(b).all(|(x, y)| (x - y).abs() <= tol)
}

fn sample() -> Vec<f32> {
    vec![1.0, 2.0, 3.0, -4.0, 0.5, 2.5, 0.0, -1.0, 0.0, 7.0, 7.0, -7.0]
}

#[test]
fn rotation_applies_map_to_x_and_z_only() {
    let r = step_rotate_y_with(vec![1u32, 2, 3, 4, 5, 6], |x, z| (z, x));
    assert_eq!(r, vec![3, 2, 1, 6, 5, 4]);
}

#[test]
fn rotation_keeps_trailing_values() {
    let r = step_rotate_y_with(vec![1u32, 2, 3, 4, 5], |x, z| (x + 10, z + 20));
    assert_eq!(r, vec![11, 2, 23, 4, 5]);
    let r = step_rotate_y_with(vec![1u32, 2, 3, 4], |x, z| (x + 10, z + 20));
    assert_eq!(r, vec![11, 2, 23, 4]);
    let r = step_rotate_y_with(vec![8u32, 9], |x, z| (x + 10, z + 20));
    assert_eq!(r, vec![8, 9]);
}

#[test]
fn rotation_of_empty_buffer() {
    let r = step_rotate_y_with(Vec::<f32>::new(), rotation(1.0));
    assert!(r.is_empty());
}

#[test]
fn rotation_quarter_turn() {
    let r = step_rotate_y_with(vec![1.0f32, 0.0, 0.0], rotation(std::f32::consts::FRAC_PI_2));
    assert!(close(&r, &[0.0, 0.0, -1.0], 1e-6), "{:?}", r);
}

#[test]
fn rotation_preserves_norms() {
    let p = sample();
    let r = step_rotate_y_with(p.clone(), rotation(0.73));
    for (a, b) in p.chunks(3).zip(r.chunks(3)) {
        let na = (a[0] * a[0] + a[1] * a[1] + a[2] * a[2]).sqrt();
        let nb = (b[0] * b[0] + b[1] * b[1] + b[2] * b[2]).sqrt();
        assert!((na - nb).abs() <= 1e-5);
        assert_eq!(a[1], b[1]);
    }
}

#[test]
fn rotations_compose() {
    let (a, b) = (0.4f32, 1.1f32);
    let twice = step_rotate_y_with(step_rotate_y_with(sample(), rotation(a)), rotation(b));
    let once = step_rotate_y_with(sample(), rotation(a + b));
    assert!(close(&twice, &once, 1e-5));
}

#[test]
fn full_turn_is_identity() {
    let r = step_rotate_y_with(sample(), rotation(2.0 * std::f32::consts::PI));
    assert!(close(&r, &sample(), 1e-5));
}

fn lattice_point(radius: f32) -> impl Fn(u32, u32) -> (f32, f32, f32) {
    let golden_angle = std::f32::consts::PI * (3.0 - (5.0f32).sqrt());
    move |i, n| {
        let y = 1.0 - (2.0 * (i as f32 + 0.5) / n as f32);
        let r = (1.0 - y * y).sqrt();
        let (s, c) = (golden_angle * i as f32).sin_cos();
        (radius * c * r, radius * y, radius * s * r)
    }
}

#[test]
fn lattice_passes_index_and_count() {
    let r = fibonacci_sphere_with(3, |i, n| (i, n, i * 10));
    assert_eq!(r, vec![0, 3, 0, 1, 3, 10, 2, 3, 20]);
}

#[test]
fn lattice_zero_count_is_empty() {
    let r: Vec<f32> = fibonacci_sphere_with(0, |_, _| panic!("no point to place"));
    assert!(r.is_empty());
}

#[test]
fn lattice_single_point() {
    let r = fibonacci_sphere_with(1, lattice_point(2.0));
    assert!(close(&r, &[2.0, 0.0, 0.0], 1e-6), "{:?}", r);
}

#[test]
fn lattice_covers_unit_sphere() {
    let r = fibonacci_sphere_with(1000, lattice_point(1.0));
    assert_eq!(r.len(), 3000);
    let mut last_y = f32::INFINITY;
    for p in r.chunks(3) {
        let n = (p[0] * p[0] + p[1] * p[1] + p[2] * p[2]).sqrt();
        assert!((n - 1.0).abs() <= 1e-5);
        assert!(p[1] < last_y);
        last_y = p[1];
    }
}
