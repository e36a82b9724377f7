//! The segments a frame is drawn with.

use crate::arith::{evaluates, total, Num, Request, Term};
use crate::camera::{can_view, projects, to_camera_space, Camera};
use crate::geometry::{origin, Point, Point2, Scalar, PI_BITS, TWO_BITS};
use crate::wavefront::WavefrontState;
use vstd::prelude::*;

verus! {

/// What each point of the wavefront is joined to.
#[derive(Clone, Copy, Debug, PartialEq, Eq, Structural)]
pub enum PlotStyle {
    /// To its own place one frame earlier.
    Point,
    /// To the point before it in the same frame; the first point is joined to
    /// nothing.
    Line,
    /// To the world origin.
    Radial,
}

/// The size of the drawing surface in pixels.
#[derive(Clone, Copy, Debug, PartialEq, Eq, Structural)]
pub struct Viewport {
    pub width: u32,
    pub height: u32,
}

/// One line segment in pixel coordinates, with the hue angle of its colour
/// and its width.
#[derive(Clone, Copy, Debug, PartialEq, Eq, Structural)]
pub struct Segment {
    pub start: Point2,
    pub end: Point2,
    pub hue: Scalar,
    pub width: Scalar,
}

impl PlotStyle {
    /// Position of the first point that has a segment.
    pub open spec fn first_index(self) -> int {
        match self {
            PlotStyle::Line => 1,
            _ => 0,
        }
    }

    /// Number of segments for a wavefront of `n` points.
    pub open spec fn segment_count(self, n: int) -> int {
        if n <= self.first_index() {
            0
        } else {
            n - self.first_index()
        }
    }

    /// The point that the point at position `i` is joined to.
    pub open spec fn partner(self, current: Seq<Point>, previous: Seq<Point>, i: int) -> Point {
        match self {
            PlotStyle::Point => previous[i],
            PlotStyle::Line => current[i - 1],
            PlotStyle::Radial => origin(),
        }
    }
}

/// The hue angle of the point at position `i` of `count`: the fraction
/// `i / count` of the full circle, `i / count * 2 * pi`. The hues of a
/// wavefront run once around the colour circle.
pub open spec fn hue(i: usize, count: usize) -> Term {
    Term::Lift(i as u64).over(Term::Lift(count as u64)).times(Term::constant(TWO_BITS)).times(
        Term::constant(PI_BITS),
    )
}

/// The pixel column of a place in the plotting plane: the middle column of
/// the viewport plus `x * scale`.
pub open spec fn pixel_x(viewport: Viewport, scale: Scalar, image: Point2) -> Term {
    Term::Lift((viewport.width / 2) as u64).plus(Term::Value(image.x).times(Term::Value(scale)))
}

/// The pixel row of a place in the plotting plane: the middle row of the
/// viewport plus `y * scale`.
pub open spec fn pixel_y(viewport: Viewport, scale: Scalar, image: Point2) -> Term {
    Term::Lift((viewport.height / 2) as u64).plus(Term::Value(image.y).times(Term::Value(scale)))
}

/// Whether `pixel` is where `camera` shows `p` on the viewport: there is an
/// image of `p` under the camera's projection whose pixel column and row
/// `pixel` holds.
pub open spec fn shows<A: Fn(Request) -> Scalar, V: Fn(&Point, &Point) -> Point2>(
    arith: A,
    view: V,
    camera: Camera,
    viewport: Viewport,
    p: Point,
    pixel: Point2,
) -> bool {
    exists|image: Point2|
        {
            &&& #[trigger] projects(view, camera, p, image)
            &&& evaluates(arith, pixel_x(viewport, camera.scale, image), pixel.x)
            &&& evaluates(arith, pixel_y(viewport, camera.scale, image), pixel.y)
        }
}

/// Whether `segments` is the plot of a frame: one segment for each point from
/// the style's first index on, in the order of the points; each starts where
/// the camera shows its point, ends where the camera shows the point's
/// partner, has the hue of its point's position and the given width.
pub open spec fn is_plot<A: Fn(Request) -> Scalar, V: Fn(&Point, &Point) -> Point2>(
    arith: A,
    view: V,
    camera: Camera,
    viewport: Viewport,
    style: PlotStyle,
    width: Scalar,
    current: Seq<Point>,
    previous: Seq<Point>,
    segments: Seq<Segment>,
) -> bool {
    &&& segments.len() == style.segment_count(current.len() as int)
    &&& forall|k: int|
        0 <= k < segments.len() ==> {
            let i = k + style.first_index();
            &&& (#[trigger] segments[k]).width == width
            &&& evaluates(arith, hue(i as usize, current.len() as usize), segments[k].hue)
            &&& shows(arith, view, camera, viewport, current[i], segments[k].start)
            &&& shows(
                arith,
                view,
                camera,
                viewport,
                style.partner(current, previous, i),
                segments[k].end,
            )
        }
}

/// The hue angle of the colour of the point at position `i` of `count`.
pub fn gen_color<A: Fn(Request) -> Scalar>(i: usize, count: usize, arith: &A) -> (angle: Scalar)
    requires
        total(*arith),
    ensures
        evaluates(*arith, hue(i, count), angle),
{
    let fraction = Num::lift(i as u64, arith).over(Num::lift(count as u64, arith), arith);
    let two = Num::of(Scalar::from_bits(TWO_BITS));
    let pi = Num::of(Scalar::from_bits(PI_BITS));
    fraction.times(two, arith).times(pi, arith).value
}

fn to_pixel<A: Fn(Request) -> Scalar, V: Fn(&Point, &Point) -> Point2>(
    camera: &Camera,
    viewport: &Viewport,
    p: &Point,
    arith: &A,
    view: &V,
) -> (pixel: Point2)
    requires
        total(*arith),
        can_view(*view, *camera),
    ensures
        shows(*arith, *view, *camera, *viewport, *p, pixel),
{
    let image = to_camera_space(p, camera, view);
    let scale = Num::of(camera.scale);
    let x_mid = Num::lift((viewport.width / 2) as u64, arith);
    let y_mid = Num::lift((viewport.height / 2) as u64, arith);
    let x = x_mid.plus(Num::of(image.x).times(scale, arith), arith);
    let y = y_mid.plus(Num::of(image.y).times(scale, arith), arith);
    Point2 { x: x.value, y: y.value }
}

/// The two ends, in pixels, of the segment from `p1` to `p2` as `camera`
/// shows them on the viewport.
pub fn line_points<A: Fn(Request) -> Scalar, V: Fn(&Point, &Point) -> Point2>(
    camera: &Camera,
    viewport: &Viewport,
    p1: &Point,
    p2: &Point,
    arith: &A,
    view: &V,
) -> (ends: (Point2, Point2))
    requires
        total(*arith),
        can_view(*view, *camera),
    ensures
        shows(*arith, *view, *camera, *viewport, *p1, ends.0),
        shows(*arith, *view, *camera, *viewport, *p2, ends.1),
{
    let start = to_pixel(camera, viewport, p1, arith, view);
    let end = to_pixel(camera, viewport, p2, arith, view);
    (start, end)
}

/// Plots a frame as `camera` shows it on the viewport: picks each point's
/// partner by `plot_style`, and returns the segments in the order of the
/// points.
pub fn plot_points<A: Fn(Request) -> Scalar, V: Fn(&Point, &Point) -> Point2>(
    camera: &Camera,
    viewport: &Viewport,
    plot_style: &PlotStyle,
    width: Scalar,
    wavefront: &WavefrontState,
    arith: &A,
    view: &V,
) -> (segments: Vec<Segment>)
    requires
        total(*arith),
        can_view(*view, *camera),
    ensures
        is_plot(
            *arith,
            *view,
            *camera,
            *viewport,
            *plot_style,
            width,
            wavefront@.current,
            wavefront@.previous,
            segments@,
        ),
{
    let current = wavefront.current();
    let previous = wavefront.previous();
    let count = current.len();
    let first: usize = match plot_style {
        PlotStyle::Line => 1,
        _ => 0,
    };
    let mut segments: Vec<Segment> = Vec::new();
    let mut i: usize = first;
    while i < count
        invariant
            first == plot_style.first_index(),
            count == current@.len(),
            count == previous@.len(),
            first <= i,
            i <= count || i == first,
            segments@.len() == i - first,
            total(*arith),
            can_view(*view, *camera),
            forall|k: int|
                0 <= k < segments@.len() ==> {
                    let j = k + first;
                    &&& (#[trigger] segments@[k]).width == width
                    &&& evaluates(*arith, hue(j as usize, count), segments@[k].hue)
                    &&& shows(*arith, *view, *camera, *viewport, current@[j], segments@[k].start)
                    &&& shows(
                        *arith,
                        *view,
                        *camera,
                        *viewport,
                        plot_style.partner(current@, previous@, j),
                        segments@[k].end,
                    )
                },
        decreases count - i,
    {
        let angle = gen_color(i, count, arith);
        let origin = Point::origin();
        let partner = match plot_style {
            PlotStyle::Point => &previous[i],
            PlotStyle::Line => &current[i - 1],
            PlotStyle::Radial => &origin,
        };
        let ends = line_points(camera, viewport, &current[i], partner, arith, view);
        segments.push(Segment { start: ends.0, end: ends.1, hue: angle, width });
        i = i + 1;
    }
    segments
}

} // verus!
