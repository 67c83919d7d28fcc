use pathtracer::ray::Ray;
use pathtracer::scalar::Scalar;
use pathtracer::vec3::{accepts_sample, refracts, Vec3};

fn s(x: f32) -> Scalar {
    Scalar::from_bits(x.to_bits())
}

fn v(x: f32, y: f32, z: f32) -> Vec3 {
    Vec3::new(s(x), s(y), s(z))
}

fn f(x: Scalar) -> f32 {
    f32::from_bits(x.to_bits())
}

#[test]
fn new_keeps_the_components() {
    let a = v(1.0, -2.0, 3.5);
    assert_eq!(f(a.x()), 1.0);
    assert_eq!(f(a.y()), -2.0);
    assert_eq!(f(a.z()), 3.5);
    assert_eq!(f(a.r()), 1.0);
    assert_eq!(f(a.g()), -2.0);
    assert_eq!(f(a.b()), 3.5);
}

#[test]
fn zero_is_three_positive_zeros() {
    let z = Vec3::zero();
    assert_eq!(z.x().to_bits(), 0);
    assert_eq!(z.y().to_bits(), 0);
    assert_eq!(z.z().to_bits(), 0);
}

#[test]
fn index_reads_each_component() {
    let a = v(0.25, 0.5, 0.75);
    assert_eq!(f(a.index(0)), 0.25);
    assert_eq!(f(a.index(1)), 0.5);
    assert_eq!(f(a.index(2)), 0.75);
}

#[test]
fn set_replaces_one_component() {
    let mut a = v(0.25, 0.5, 0.75);
    a.set(1, s(9.0));
    assert_eq!(f(a.index(0)), 0.25);
    assert_eq!(f(a.index(1)), 9.0);
    assert_eq!(f(a.index(2)), 0.75);
    a.set(0, s(-1.0));
    a.set(2, s(4.0));
    assert_eq!(f(a.x()), -1.0);
    assert_eq!(f(a.y()), 9.0);
    assert_eq!(f(a.z()), 4.0);
}

#[test]
fn neg_turns_each_component() {
    let a = v(1.0, -2.0, 0.0).neg();
    assert_eq!(a.x().to_bits(), (-1.0f32).to_bits());
    assert_eq!(a.y().to_bits(), 2.0f32.to_bits());
    assert_eq!(a.z().to_bits(), (-0.0f32).to_bits());
}

#[test]
fn ray_keeps_origin_and_direction() {
    let r = Ray::new(v(1.0, 2.0, 3.0), v(0.0, 0.0, -1.0));
    assert_eq!(f(r.origin().x()), 1.0);
    assert_eq!(f(r.origin().y()), 2.0);
    assert_eq!(f(r.origin().z()), 3.0);
    assert_eq!(f(r.direction().z()), -1.0);
    assert_eq!(r.direction().x().to_bits(), 0);
}

#[test]
fn sample_inside_the_ball_is_kept() {
    assert!(accepts_sample(s(0.0)));
    assert!(accepts_sample(s(0.75)));
    assert!(accepts_sample(s(f32::from_bits(0x3f7f_ffff))));
}

#[test]
fn sample_on_or_beyond_the_sphere_is_drawn_again() {
    assert!(!accepts_sample(s(1.0)));
    assert!(!accepts_sample(s(1.5)));
    assert!(!accepts_sample(s(3.0)));
    assert!(!accepts_sample(s(f32::NAN)));
}

#[test]
fn rejection_sampling_ends_on_the_first_point_inside() {
    // A fixed source: the candidates that three draws each give in the cube.
    let draws: [[f32; 3]; 4] = [[1.0, 1.0, 1.0], [0.0, 0.0, 0.0], [0.5, 0.75, 0.25], [0.5, 0.5, 0.5]];
    let mut kept = None;
    for (tries, d) in draws.iter().enumerate() {
        let p = [2.0 * d[0] - 1.0, 2.0 * d[1] - 1.0, 2.0 * d[2] - 1.0];
        let length_squared = p[0] * p[0] + p[1] * p[1] + p[2] * p[2];
        if accepts_sample(s(length_squared)) {
            kept = Some((tries, p));
            break;
        }
    }
    assert_eq!(kept, Some((2, [0.0, 0.5, -0.5])));
}

#[test]
fn refraction_needs_a_positive_discriminant() {
    assert!(refracts(s(0.25)));
    assert!(refracts(s(1.0e-45)));
    assert!(!refracts(s(0.0)));
    assert!(!refracts(s(-0.0)));
    assert!(!refracts(s(-0.5)));
    assert!(!refracts(s(f32::NAN)));
}

#[test]
fn refraction_is_total_reflection_beyond_the_critical_angle() {
    // Leaving glass at 60 degrees from the normal: 1.5^2 * (1 - 0.5^2) > 1.
    let ni_over_nt = 1.5f32;
    let dt = 0.5f32;
    let discriminant = 1.0 - ni_over_nt * ni_over_nt * (1.0 - dt * dt);
    assert!(ni_over_nt * ni_over_nt * (1.0 - dt * dt) > 1.0);
    assert!(!refracts(s(discriminant)));
    // Entering glass at the same angle: (1/1.5)^2 * (1 - 0.5^2) < 1.
    let ni_over_nt = 1.0f32 / 1.5;
    let discriminant = 1.0 - ni_over_nt * ni_over_nt * (1.0 - dt * dt);
    assert!(refracts(s(discriminant)));
}
