//! The orbital camera together with a host's arithmetic.
//!
//! The library keeps the camera's state and decides; sums, products and
//! rotations are the host's. The functions below are such a host, written
//! with `nalgebra`, so that the camera can be driven the way a viewer drives
//! it.

use moleucle_3dview_rs::camera::OrbitalCamera;
use moleucle_3dview_rs::scalar::Scalar;
use moleucle_3dview_rs::vector::{Quat, Vec3};
use nalgebra::{
    Isometry3, Matrix4, Perspective3, Point3, Quaternion, Unit, UnitQuaternion, Vector2, Vector3,
};

fn s(x: f32) -> Scalar {
    Scalar::from_bits(x.to_bits())
}

fn f(x: Scalar) -> f32 {
    f32::from_bits(x.to_bits())
}

fn point(v: Vec3) -> Point3<f32> {
    Point3::new(f(v.x), f(v.y), f(v.z))
}

fn vec3(p: &Point3<f32>) -> Vec3 {
    Vec3::new(s(p.x), s(p.y), s(p.z))
}

fn rotation(q: Quat) -> UnitQuaternion<f32> {
    Unit::new_unchecked(Quaternion::new(f(q.w), f(q.i), f(q.j), f(q.k)))
}

fn quat(q: &UnitQuaternion<f32>) -> Quat {
    Quat::new(s(q.w), s(q.i), s(q.j), s(q.k))
}

fn position(cam: &OrbitalCamera) -> Point3<f32> {
    point(cam.center) + rotation(cam.rotation) * Vector3::new(0.0, 0.0, f(cam.radius))
}

fn up(cam: &OrbitalCamera) -> Vector3<f32> {
    rotation(cam.rotation) * Vector3::y()
}

fn look_at(cam: &mut OrbitalCamera, eye: Point3<f32>, target: Point3<f32>, up: Vector3<f32>) {
    let radius = (eye - target).magnitude();
    let frame = Isometry3::look_at_rh(&eye, &target, &up).rotation.inverse();
    cam.aim(vec3(&target), quat(&frame), s(radius));
}

fn orbit(cam: &mut OrbitalCamera, delta_x: f32, delta_y: f32) {
    let yaw = UnitQuaternion::from_axis_angle(&Vector3::y_axis(), delta_x);
    let pitch = UnitQuaternion::from_axis_angle(&Vector3::x_axis(), -delta_y);
    cam.orbit_to(quat(&(yaw * rotation(cam.rotation) * pitch)));
}

fn pan(cam: &mut OrbitalCamera, delta: Vector2<f32>) {
    let frame = rotation(cam.rotation);
    let factor = f(cam.radius) * f(OrbitalCamera::pan_scale());
    let center = point(cam.center)
        + frame * Vector3::x() * (delta.x * factor)
        + frame * Vector3::y() * (delta.y * factor);
    cam.pan_to(vec3(&center));
}

fn dolly(cam: &mut OrbitalCamera, delta: f32) {
    cam.dolly_to(s(f(cam.radius) - delta));
}

fn ray_from_screen(
    cam: &OrbitalCamera,
    u: f32,
    v: f32,
    width: f32,
    height: f32,
) -> (Point3<f32>, Vector3<f32>) {
    let ndc_x = 2.0 * u / width - 1.0;
    let ndc_y = 1.0 - 2.0 * v / height;
    let view = Isometry3::look_at_rh(&position(cam), &point(cam.center), &up(cam)).to_homogeneous();
    let projection =
        Perspective3::new(f(cam.aspect), f(cam.fov), f(cam.near), f(cam.far)).to_homogeneous();
    let inverse = (projection * view).try_inverse().unwrap_or_else(Matrix4::identity);
    let near = inverse * Point3::new(ndc_x, ndc_y, -1.0).to_homogeneous();
    let far = inverse * Point3::new(ndc_x, ndc_y, 1.0).to_homogeneous();
    let direction = (far.xyz() / far.w - near.xyz() / near.w).normalize();
    (position(cam), direction)
}

#[test]
fn test_orbital_camera_look_at() {
    let mut cam = OrbitalCamera::default();

    let eye = Point3::new(0.0, 0.0, -10.0);
    let target = Point3::origin();
    let up_dir = Vector3::y();

    look_at(&mut cam, eye, target, up_dir);

    assert_eq!(point(cam.center), target);
    assert!((f(cam.radius) - 10.0).abs() < 1e-5);

    let pos = position(&cam);
    println!("Pos: {:?}", pos);
    assert!((pos - eye).norm() < 1e-5, "Position should match eye");

    let cam_up = up(&cam);
    assert!((cam_up - up_dir).norm() < 1e-5, "Up vector should match");
}

#[test]
fn test_orbital_camera_pan() {
    let mut cam = OrbitalCamera::default();

    pan(&mut cam, Vector2::new(1.0, 0.0));

    assert!((point(cam.center) - Point3::new(1.0, 0.0, 0.0)).norm() < 1e-5);

    let pos = position(&cam);
    assert!((pos - Point3::new(1.0, 0.0, 10.0)).norm() < 1e-5);
    assert_eq!(f(cam.radius), 10.0);
}

#[test]
fn test_ray_cast_default() {
    let mut cam = OrbitalCamera::default();

    let w = 800.0;
    let h = 600.0;
    cam.set_aspect(s(w / h)).unwrap();

    let (origin, dir) = ray_from_screen(&cam, w / 2.0, h / 2.0, w, h);

    assert!((origin.x - 0.0).abs() < 1e-5);
    assert!((origin.y - 0.0).abs() < 1e-5);
    assert!((origin.z - 10.0).abs() < 1e-5);

    assert!((dir.x - 0.0).abs() < 1e-5);
    assert!((dir.y - 0.0).abs() < 1e-5);
    assert!((dir.z + 1.0).abs() < 1e-5);
}

#[test]
fn looking_from_an_eye_puts_the_camera_there() {
    let cases = [
        ((0.0, 0.0, -10.0), (0.0, 0.0, 0.0), (0.0, 1.0, 0.0)),
        ((3.0, 4.0, 5.0), (0.0, 0.0, 0.0), (0.0, 1.0, 0.0)),
        ((1.0, 2.0, 3.0), (-4.0, 0.5, 2.0), (0.0, 0.0, 1.0)),
        ((-7.0, 1.0, 0.5), (2.0, 2.0, 2.0), (1.0, 0.0, 0.0)),
    ];
    for (eye, target, up_dir) in cases {
        let eye = Point3::new(eye.0, eye.1, eye.2);
        let target = Point3::new(target.0, target.1, target.2);
        let up_dir = Vector3::new(up_dir.0, up_dir.1, up_dir.2);
        let mut cam = OrbitalCamera::default();
        look_at(&mut cam, eye, target, up_dir);
        assert!((position(&cam) - eye).norm() < 1e-4, "eye {eye:?}");
        assert_eq!(point(cam.center), target);
        // The up direction comes back made square to the line of sight.
        let sight = (target - eye).normalize();
        let square = (up_dir - sight * up_dir.dot(&sight)).normalize();
        assert!((up(&cam) - square).norm() < 1e-4, "up {:?} for eye {eye:?}", up(&cam));
        assert_eq!(cam.validate(), Ok(()));
    }
}

#[test]
fn an_orbit_by_nothing_leaves_the_camera_where_it_is() {
    let mut cam = OrbitalCamera::default();
    look_at(&mut cam, Point3::new(3.0, 4.0, 5.0), Point3::origin(), Vector3::y());
    let eye = position(&cam);
    let up_dir = up(&cam);
    for _ in 0..100 {
        orbit(&mut cam, 0.0, 0.0);
    }
    assert!((position(&cam) - eye).norm() < 1e-5);
    assert!((up(&cam) - up_dir).norm() < 1e-5);
}

#[test]
fn an_orbit_keeps_the_distance_to_the_centre() {
    let mut cam = OrbitalCamera::default();
    pan(&mut cam, Vector2::new(2.0, -1.0));
    for step in 0..50 {
        orbit(&mut cam, 0.03 * step as f32, -0.02);
        assert_eq!(f(cam.radius), 10.0);
        assert!(((position(&cam) - point(cam.center)).norm() - 10.0).abs() < 1e-4);
    }
}

#[test]
fn two_pans_move_the_centre_as_far_as_their_sum() {
    let a = Vector2::new(0.3, -0.2);
    let b = Vector2::new(-0.1, 0.45);

    let mut stepwise = OrbitalCamera::default();
    orbit(&mut stepwise, 0.4, 0.2);
    let mut at_once = stepwise;

    pan(&mut stepwise, a);
    pan(&mut stepwise, b);
    pan(&mut at_once, a + b);

    assert!((point(stepwise.center) - point(at_once.center)).norm() < 1e-5);
    assert_eq!(stepwise.radius, at_once.radius);
    assert_eq!(stepwise.rotation, at_once.rotation);
}

#[test]
fn dollies_towards_the_centre_stop_at_the_least_radius() {
    let mut cam = OrbitalCamera::default();
    for _ in 0..20 {
        dolly(&mut cam, 1.0e6);
        assert!(f(cam.radius) >= 0.1);
        assert!((position(&cam) - point(cam.center)).norm() >= 0.1 - 1e-6);
    }
    assert_eq!(f(cam.radius), 0.1);
    dolly(&mut cam, -4.9);
    assert!((f(cam.radius) - 5.0).abs() < 1e-6);
}
