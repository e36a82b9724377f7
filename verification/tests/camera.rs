use wavefront::arith::{Fun, Op, Request};
use wavefront::camera::{to_camera_space, Camera, CameraProjection};
use wavefront::geometry::{Point, Point2, Scalar, Vector};

fn scalar(value: f64) -> Scalar {
    Scalar::from_bits(value.to_bits())
}

fn value(s: Scalar) -> f64 {
    f64::from_bits(s.to_bits())
}

/// Double-precision arithmetic.
fn float_arith(request: Request) -> Scalar {
    scalar(match request {
        Request::Lift(n) => n as f64,
        Request::Unary(Fun::Neg, a) => -value(a),
        Request::Unary(Fun::Sin, a) => value(a).sin(),
        Request::Unary(Fun::Cos, a) => value(a).cos(),
        Request::Binary(Op::Add, a, b) => value(a) + value(b),
        Request::Binary(Op::Sub, a, b) => value(a) - value(b),
        Request::Binary(Op::Mul, a, b) => value(a) * value(b),
        Request::Binary(Op::Div, a, b) => value(a) / value(b),
    })
}

fn no_arith(_request: Request) -> Scalar {
    panic!("nothing should be computed")
}

fn point(x: f64, y: f64, z: f64) -> Point {
    Point::new(scalar(x), scalar(y), scalar(z))
}

fn no_view(_eye: &Point, _p: &Point) -> Point2 {
    panic!("the orthographic projection needs no view")
}

/// Stands in for a view transform: records where the eye is.
fn eye_and_depth(eye: &Point, p: &Point) -> Point2 {
    Point2 { x: eye.x, y: p.z }
}

#[test]
fn new_camera_values() {
    let c = Camera::new();
    assert_eq!((value(c.pos.x), value(c.pos.y), value(c.pos.z)), (0.0, 0.0, -10.0));
    assert_eq!((value(c.dir.x), value(c.dir.y), value(c.dir.z)), (0.0, 0.0, 1.0));
    assert_eq!(value(c.scale), 50.0);
    assert_eq!(c.proj, CameraProjection::Orthographic);
}

#[test]
fn projection_toggles_between_the_two() {
    assert_eq!(CameraProjection::Orthographic.toggled(), CameraProjection::Perspective);
    assert_eq!(CameraProjection::Perspective.toggled(), CameraProjection::Orthographic);
}

#[test]
fn toggle_hint_names_the_other_projection() {
    assert_eq!(CameraProjection::Orthographic.toggle_hint(), "Tab: Perspective View");
    assert_eq!(CameraProjection::Perspective.toggle_hint(), "Tab: Orthographic View");
}

#[test]
fn toggle_projection_keeps_the_rest() {
    let mut c = Camera::new();
    let start = c;
    c.toggle_projection();
    assert_eq!(c.proj, CameraProjection::Perspective);
    assert_eq!((c.pos, c.dir, c.scale), (start.pos, start.dir, start.scale));
    c.toggle_projection();
    assert_eq!(c, start);
}

#[test]
fn orthographic_camera_does_not_move() {
    let mut c = Camera::new();
    let start = c;
    c.update(250, &no_arith);
    assert_eq!(c, start);
}

#[test]
fn perspective_camera_orbits() {
    let mut c = Camera::new();
    c.toggle_projection();
    c.update(0, &float_arith);
    assert_eq!((value(c.pos.x), value(c.pos.y), value(c.pos.z)), (10.0, 0.5, 0.0));
    c.update(250, &float_arith);
    let angle = 0.004 * 250.0;
    assert_eq!(value(c.pos.x).to_bits(), (10.0 * f64::cos(angle)).to_bits());
    assert_eq!(value(c.pos.y), 0.5);
    assert_eq!(value(c.pos.z).to_bits(), (10.0 * f64::sin(angle)).to_bits());
    // One radian along the orbit.
    assert!((value(c.pos.x) - 5.403_023_058_681_398).abs() < 1e-12);
    assert!((value(c.pos.z) - 8.414_709_848_078_965).abs() < 1e-12);
    assert_eq!(c.proj, CameraProjection::Perspective);
    assert_eq!(value(c.scale), 50.0);
    assert_eq!(c.dir, Camera::new().dir);
}

#[test]
fn orbit_stays_on_its_circle() {
    let mut c = Camera::new();
    c.toggle_projection();
    for elapsed in [1u64, 10, 392, 785, 1571, 100_000] {
        c.update(elapsed, &float_arith);
        let (x, y, z) = (value(c.pos.x), value(c.pos.y), value(c.pos.z));
        assert!(((x * x + z * z).sqrt() - 10.0).abs() < 1e-12);
        assert_eq!(y, 0.5);
    }
}

#[test]
fn orthographic_projection_is_x_and_y_for_every_depth() {
    let c = Camera::new();
    for &z in &[0.0, 1.0, -1.0, 1e300, f64::INFINITY, f64::NAN] {
        let image = to_camera_space(&point(1.5, -2.5, z), &c, &no_view);
        assert_eq!((value(image.x), value(image.y)), (1.5, -2.5));
    }
}

#[test]
fn orthographic_projection_ignores_where_the_camera_stands() {
    let mut c = Camera::new();
    c.pos = point(4.0, 5.0, 6.0);
    c.dir = Vector { x: scalar(1.0), y: scalar(0.0), z: scalar(0.0) };
    let image = to_camera_space(&point(0.25, 0.75, 9.0), &c, &no_view);
    assert_eq!(image, Point2 { x: scalar(0.25), y: scalar(0.75) });
}

#[test]
fn perspective_projection_goes_through_the_view() {
    let mut c = Camera::new();
    c.toggle_projection();
    c.pos = point(4.0, 5.0, 6.0);
    let image = to_camera_space(&point(1.0, 2.0, 3.0), &c, &eye_and_depth);
    assert_eq!((value(image.x), value(image.y)), (4.0, 3.0));
}
