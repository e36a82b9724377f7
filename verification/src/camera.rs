//! The camera: where it stands, and how it maps points to the plotting plane.

use crate::arith::{evaluates_point, total, Num, Request, Term, Term3};
use crate::geometry::{Point, Point2, Scalar, Vector, ONE_BITS, ZERO_BITS};
use vstd::prelude::*;

verus! {

/// Bit pattern of `-10.0`, the depth a new camera stands at.
pub const START_DEPTH_BITS: u64 = 0xC024_0000_0000_0000;

/// Bit pattern of `50.0`, the scale of a new camera.
pub const START_SCALE_BITS: u64 = 0x4049_0000_0000_0000;

/// Bit pattern of `10.0`, the radius of the orbit.
pub const ORBIT_RADIUS_BITS: u64 = 0x4024_0000_0000_0000;

/// Bit pattern of `0.5`, the height of the orbit above the origin.
pub const ORBIT_HEIGHT_BITS: u64 = 0x3FE0_0000_0000_0000;

/// Bit pattern of `0.004`, the angle of the orbit per tick.
pub const ORBIT_RATE_BITS: u64 = 0x3F70_624D_D2F1_A9FC;

/// How points are mapped to the plotting plane.
#[derive(Clone, Copy, Debug, PartialEq, Eq, Structural)]
pub enum CameraProjection {
    /// The depth of a point is dropped.
    Orthographic,
    /// Points are seen from the camera's position, which orbits the origin.
    Perspective,
}

impl CameraProjection {
    /// The other projection.
    pub open spec fn spec_toggled(self) -> CameraProjection {
        match self {
            CameraProjection::Orthographic => CameraProjection::Perspective,
            CameraProjection::Perspective => CameraProjection::Orthographic,
        }
    }

    /// The other projection.
    #[verifier::when_used_as_spec(spec_toggled)]
    pub fn toggled(self) -> (other: CameraProjection)
        ensures
            other == self.spec_toggled(),
    {
        match self {
            CameraProjection::Orthographic => CameraProjection::Perspective,
            CameraProjection::Perspective => CameraProjection::Orthographic,
        }
    }

    /// The on-screen hint for the key that switches the projection: it names
    /// the projection that the key switches to.
    pub open spec fn hint(self) -> Seq<char> {
        match self {
            CameraProjection::Orthographic => "Tab: Perspective View"@,
            CameraProjection::Perspective => "Tab: Orthographic View"@,
        }
    }

    /// The on-screen hint for the key that switches the projection.
    pub fn toggle_hint(self) -> (hint: &'static str)
        ensures
            hint@ == self.hint(),
    {
        match self {
            CameraProjection::Orthographic => "Tab: Perspective View",
            CameraProjection::Perspective => "Tab: Orthographic View",
        }
    }
}

/// The viewpoint. Only `update` moves it, and only under the perspective
/// projection; only `toggle_projection` changes the projection.
#[derive(Clone, Copy, Debug, PartialEq, Eq, Structural)]
pub struct Camera {
    pub pos: Point,
    pub dir: Vector,
    pub scale: Scalar,
    pub proj: CameraProjection,
}

/// The camera a session starts with: at depth `-10.0` on the z axis, looking
/// along the z axis, scale `50.0`, orthographic.
pub open spec fn start_camera() -> Camera {
    Camera {
        pos: Point {
            x: Scalar { bits: ZERO_BITS },
            y: Scalar { bits: ZERO_BITS },
            z: Scalar { bits: START_DEPTH_BITS },
        },
        dir: Vector {
            x: Scalar { bits: ZERO_BITS },
            y: Scalar { bits: ZERO_BITS },
            z: Scalar { bits: ONE_BITS },
        },
        scale: Scalar { bits: START_SCALE_BITS },
        proj: CameraProjection::Orthographic,
    }
}

/// The orthographic image of a point: its x and y, whatever its z.
pub open spec fn orthographic(p: Point) -> Point2 {
    Point2 { x: p.x, y: p.y }
}

/// The place on the orbit at tick `elapsed`: on the circle of the orbit's
/// radius around the vertical axis, at the orbit's height, at the angle
/// `rate * elapsed`.
pub open spec fn orbit(elapsed: u64) -> Term3 {
    let angle = Term::constant(ORBIT_RATE_BITS).times(Term::Lift(elapsed));
    let r = Term::constant(ORBIT_RADIUS_BITS);
    Term3 {
        x: r.times(angle.cos()),
        y: Term::constant(ORBIT_HEIGHT_BITS),
        z: r.times(angle.sin()),
    }
}

/// Whether `after` is `before` updated at tick `elapsed`. An orthographic
/// camera stays as it is. A perspective camera stands at its place on the
/// orbit and keeps everything else.
pub open spec fn is_camera_update<A: Fn(Request) -> Scalar>(
    arith: A,
    elapsed: u64,
    before: Camera,
    after: Camera,
) -> bool {
    match before.proj {
        CameraProjection::Orthographic => after == before,
        CameraProjection::Perspective => {
            &&& evaluates_point(arith, orbit(elapsed), after.pos)
            &&& after == (Camera { pos: after.pos, ..before })
        },
    }
}

/// Whether `image` is what `camera` shows of `p`. Under the orthographic
/// projection it is the orthographic image. Under the perspective projection
/// it is what `view` returned for the camera's position and the point.
pub open spec fn projects<V: Fn(&Point, &Point) -> Point2>(
    view: V,
    camera: Camera,
    p: Point,
    image: Point2,
) -> bool {
    match camera.proj {
        CameraProjection::Orthographic => image == orthographic(p),
        CameraProjection::Perspective => call_ensures(view, (&camera.pos, &p), image),
    }
}

/// Whether `view` accepts every point as seen from where `camera` stands.
/// Under the orthographic projection `view` is never called.
pub open spec fn can_view<V: Fn(&Point, &Point) -> Point2>(view: V, camera: Camera) -> bool {
    camera.proj is Perspective ==> forall|p: Point| call_requires(view, (&camera.pos, &p))
}

impl Camera {
    /// The camera a session starts with.
    pub fn new() -> (camera: Camera)
        ensures
            camera == start_camera(),
    {
        Camera {
            pos: Point::new(
                Scalar::from_bits(ZERO_BITS),
                Scalar::from_bits(ZERO_BITS),
                Scalar::from_bits(START_DEPTH_BITS),
            ),
            dir: Vector {
                x: Scalar::from_bits(ZERO_BITS),
                y: Scalar::from_bits(ZERO_BITS),
                z: Scalar::from_bits(ONE_BITS),
            },
            scale: Scalar::from_bits(START_SCALE_BITS),
            proj: CameraProjection::Orthographic,
        }
    }

    /// Moves a perspective camera to its place on the orbit at tick
    /// `elapsed`. An orthographic camera is left alone.
    pub fn update<A: Fn(Request) -> Scalar>(&mut self, elapsed: u64, arith: &A)
        requires
            total(*arith),
        ensures
            is_camera_update(*arith, elapsed, *old(self), *final(self)),
    {
        match self.proj {
            CameraProjection::Orthographic => {},
            CameraProjection::Perspective => {
                let r = Num::of(Scalar::from_bits(ORBIT_RADIUS_BITS));
                let rate = Num::of(Scalar::from_bits(ORBIT_RATE_BITS));
                let angle = rate.times(Num::lift(elapsed, arith), arith);
                let x = r.times(angle.cos(arith), arith);
                let z = r.times(angle.sin(arith), arith);
                let y = Scalar::from_bits(ORBIT_HEIGHT_BITS);
                self.pos = Point { x: x.value, y, z: z.value };
            },
        }
    }

    /// Switches to the other projection and keeps everything else.
    pub fn toggle_projection(&mut self)
        ensures
            *final(self) == (Camera { proj: old(self).proj.spec_toggled(), ..*old(self) }),
    {
        self.proj = self.proj.toggled();
    }
}

/// Maps a point to the plotting plane as `camera` shows it. Under the
/// orthographic projection the image is the point's x and y; under the
/// perspective projection `view(position, point)` is called once.
pub fn to_camera_space<V: Fn(&Point, &Point) -> Point2>(
    p: &Point,
    camera: &Camera,
    view: &V,
) -> (image: Point2)
    requires
        can_view(*view, *camera),
    ensures
        projects(*view, *camera, *p, image),
        camera.proj is Orthographic ==> image == orthographic(*p),
{
    match camera.proj {
        CameraProjection::Orthographic => Point2 { x: p.x, y: p.y },
        CameraProjection::Perspective => view(&camera.pos, p),
    }
}

/// The orthographic image does not depend on depth: two points with the same
/// x and y have the same image.
pub proof fn lemma_orthographic_drops_depth(x: Scalar, y: Scalar, z1: Scalar, z2: Scalar)
    ensures
        orthographic(Point { x, y, z: z1 }) == (Point2 { x, y }),
        orthographic(Point { x, y, z: z1 }) == orthographic(Point { x, y, z: z2 }),
{
}

} // verus!
