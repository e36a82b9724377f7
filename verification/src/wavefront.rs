//! The wavefront: the points of the current frame and of the frame before it.

use crate::arith::{evaluates_point, total, Num, Request, Term, Term3};
use crate::field::{euler, mutate_point};
use crate::geometry::{Point, Scalar, PI_BITS, TWO_BITS};
use crate::params::VFParams;
use vstd::prelude::*;

verus! {

/// Number of points a ring of `n` steps per half turn is seeded with: one for
/// each index from 1 up to, and without, `2 * n`.
pub open spec fn seed_len(n: int) -> int {
    if n <= 0 {
        0
    } else {
        2 * n - 1
    }
}

/// The ring that a wavefront is seeded on: the angle at which it starts, its
/// radius, and the number of steps per half turn. The number of steps is
/// always small enough for the indices of the seed points to fit a `usize`.
#[derive(Clone, Copy, Debug, PartialEq, Eq, Structural)]
pub struct Ring {
    offset: Scalar,
    radius: Scalar,
    count: usize,
}

impl Ring {
    #[verifier::type_invariant]
    spec fn indices_fit(self) -> bool {
        2 * self.count <= usize::MAX
    }

    /// The angle at which the ring starts.
    pub closed spec fn spec_offset(&self) -> Scalar {
        self.offset
    }

    /// The radius of the ring.
    pub closed spec fn spec_radius(&self) -> Scalar {
        self.radius
    }

    /// Steps per half turn.
    pub closed spec fn spec_count(&self) -> usize {
        self.count
    }

    /// A ring, unless `count` is so large that twice `count` does not fit a
    /// `usize`.
    pub fn new(offset: Scalar, radius: Scalar, count: usize) -> (made: Option<Ring>)
        ensures
            made is Some <==> 2 * count <= usize::MAX,
            made matches Some(ring) ==> {
                &&& ring.spec_offset() == offset
                &&& ring.spec_radius() == radius
                &&& ring.spec_count() == count
            },
    {
        if count <= usize::MAX / 2 {
            Some(Ring { offset, radius, count })
        } else {
            None
        }
    }

    /// The angle at which the ring starts.
    #[verifier::when_used_as_spec(spec_offset)]
    pub fn offset(&self) -> (offset: Scalar)
        ensures
            offset == self.spec_offset(),
    {
        self.offset
    }

    /// The radius of the ring.
    #[verifier::when_used_as_spec(spec_radius)]
    pub fn radius(&self) -> (radius: Scalar)
        ensures
            radius == self.spec_radius(),
    {
        self.radius
    }

    /// Steps per half turn.
    #[verifier::when_used_as_spec(spec_count)]
    pub fn count(&self) -> (count: usize)
        ensures
            count == self.spec_count(),
            2 * count <= usize::MAX,
    {
        proof {
            use_type_invariant(self);
        }
        self.count
    }
}

/// The seed point of index `i` on a ring of `n` steps per half turn: at the
/// angle `offset + i / n * pi` on the circle of the given radius in the xy
/// plane, and at the depth `2 * i / n * radius - radius`. Over the indices of
/// a seed the angle runs through almost a full turn, and the depth rises
/// evenly from just above `-radius` to just below three times `radius`.
pub open spec fn seed_point(offset: Scalar, radius: Scalar, n: usize, i: usize) -> Term3 {
    let steps = Term::Lift(i as u64).over(Term::Lift(n as u64));
    let angle = Term::Value(offset).plus(steps.times(Term::constant(PI_BITS)));
    let r = Term::Value(radius);
    Term3 {
        x: r.times(angle.cos()),
        y: r.times(angle.sin()),
        z: Term::constant(TWO_BITS).times(Term::Lift(i as u64)).over(Term::Lift(n as u64)).times(
            r,
        ).minus(r),
    }
}

/// Whether `points` is the seed of a ring: the point at position `k` is the
/// seed point of index `k + 1`.
pub open spec fn is_seed<A: Fn(Request) -> Scalar>(
    arith: A,
    offset: Scalar,
    radius: Scalar,
    n: usize,
    points: Seq<Point>,
) -> bool {
    &&& points.len() == seed_len(n as int)
    &&& forall|k: int|
        0 <= k < points.len() ==> evaluates_point(
            arith,
            seed_point(offset, radius, n, (k + 1) as usize),
            #[trigger] points[k],
        )
}

fn ring_point<A: Fn(Request) -> Scalar>(
    offset: Scalar,
    radius: Scalar,
    n: usize,
    i: usize,
    arith: &A,
) -> (p: Point)
    requires
        total(*arith),
    ensures
        evaluates_point(*arith, seed_point(offset, radius, n, i), p),
{
    let pi = Num::of(Scalar::from_bits(PI_BITS));
    let two = Num::of(Scalar::from_bits(TWO_BITS));
    let r = Num::of(radius);
    let i_f = Num::lift(i as u64, arith);
    let n_f = Num::lift(n as u64, arith);
    let angle = Num::of(offset).plus(i_f.over(n_f, arith).times(pi, arith), arith);
    let x = r.times(angle.cos(arith), arith);
    let y = r.times(angle.sin(arith), arith);
    let z = two.times(i_f, arith).over(n_f, arith).times(r, arith).minus(r, arith);
    Point { x: x.value, y: y.value, z: z.value }
}

/// Lays out the initial points on a ring: the seed points of the indices from
/// 1 up to, and without, `2 * n`, in that order. Twice `n` has to fit a
/// `usize`; a [`Ring`] holds a count that does.
pub fn generate_init_points<A: Fn(Request) -> Scalar>(
    offset: Scalar,
    radius: Scalar,
    n: usize,
    arith: &A,
) -> (points: Vec<Point>)
    requires
        2 * n <= usize::MAX,
        total(*arith),
    ensures
        is_seed(*arith, offset, radius, n, points@),
        n >= 1 ==> points@.len() == 2 * n - 1,
{
    let mut points: Vec<Point> = Vec::new();
    let end: usize = 2 * n;
    let mut i: usize = 1;
    while i < end
        invariant
            end == 2 * n,
            1 <= i,
            i <= end || i == 1,
            points@.len() == i - 1,
            total(*arith),
            forall|k: int|
                0 <= k < points@.len() ==> evaluates_point(
                    *arith,
                    seed_point(offset, radius, n, (k + 1) as usize),
                    #[trigger] points@[k],
                ),
        decreases end - i,
    {
        let p = ring_point(offset, radius, n, i, arith);
        points.push(p);
        i = i + 1;
    }
    points
}

/// Whether `after` is `before` moved by one step: the same number of points,
/// and the point at each position is one Euler step from the point that stood
/// at that position.
pub open spec fn is_step<A: Fn(Request) -> Scalar>(
    arith: A,
    dt: Scalar,
    params: VFParams,
    before: Seq<Point>,
    after: Seq<Point>,
) -> bool {
    &&& after.len() == before.len()
    &&& forall|i: int|
        0 <= i < before.len() ==> evaluates_point(
            arith,
            euler(dt, before[i], params),
            #[trigger] after[i],
        )
}

/// Moves every point by one explicit Euler step of size `dt`, each on its
/// own, first to last. No point is added, dropped or moved to another
/// position.
pub fn step<A: Fn(Request) -> Scalar>(
    points: &Vec<Point>,
    dt: Scalar,
    params: &VFParams,
    arith: &A,
) -> (moved: Vec<Point>)
    requires
        total(*arith),
    ensures
        is_step(*arith, dt, *params, points@, moved@),
        moved@.len() == points@.len(),
{
    let mut moved: Vec<Point> = Vec::new();
    let mut i: usize = 0;
    while i < points.len()
        invariant
            i <= points@.len(),
            moved@.len() == i,
            total(*arith),
            forall|k: int|
                0 <= k < i ==> evaluates_point(
                    *arith,
                    euler(dt, points@[k], *params),
                    #[trigger] moved@[k],
                ),
        decreases points@.len() - i,
    {
        let next = mutate_point(dt, &points[i], params, arith);
        moved.push(next);
        i = i + 1;
    }
    moved
}

/// What a wavefront holds: the points of the current frame and, position by
/// position, the points of the frame before it.
pub struct WavefrontModel {
    pub current: Seq<Point>,
    pub previous: Seq<Point>,
}

impl WavefrontModel {
    /// Whether the wavefront is on the initial layout of `ring`, with the
    /// frame before equal to the current one.
    pub open spec fn seeded<A: Fn(Request) -> Scalar>(self, arith: A, ring: Ring) -> bool {
        &&& is_seed(arith, ring.spec_offset(), ring.spec_radius(), ring.spec_count(), self.current)
        &&& self.previous == self.current
    }
}

/// The simulated points, with a trailing copy one frame behind. The two
/// sequences always have the same length, and position `i` of one belongs to
/// position `i` of the other.
pub struct WavefrontState {
    current: Vec<Point>,
    previous: Vec<Point>,
}

impl View for WavefrontState {
    type V = WavefrontModel;

    closed spec fn view(&self) -> WavefrontModel {
        WavefrontModel { current: self.current@, previous: self.previous@ }
    }
}

impl WavefrontState {
    #[verifier::type_invariant]
    spec fn frames_match(self) -> bool {
        self.current@.len() == self.previous@.len()
    }

    /// A wavefront on the initial layout of `ring`, with the frame before it
    /// equal to the current one.
    pub fn seed<A: Fn(Request) -> Scalar>(ring: &Ring, arith: &A) -> (wavefront: WavefrontState)
        requires
            total(*arith),
        ensures
            wavefront@.seeded(*arith, *ring),
    {
        let current = generate_init_points(ring.offset(), ring.radius(), ring.count(), arith);
        let previous = current.clone();
        WavefrontState { current, previous }
    }

    /// The points of the current frame.
    pub fn current(&self) -> (points: &Vec<Point>)
        ensures
            points@ == self@.current,
            points@.len() == self@.previous.len(),
    {
        proof {
            use_type_invariant(self);
        }
        &self.current
    }

    /// The points of the frame before the current one.
    pub fn previous(&self) -> (points: &Vec<Point>)
        ensures
            points@ == self@.previous,
            points@.len() == self@.current.len(),
    {
        proof {
            use_type_invariant(self);
        }
        &self.previous
    }

    /// Number of points.
    pub fn len(&self) -> (count: usize)
        ensures
            count == self@.current.len(),
            count == self@.previous.len(),
    {
        proof {
            use_type_invariant(self);
        }
        self.current.len()
    }

    /// Moves the current frame by one step of size `dt` and leaves the frame
    /// before it alone.
    pub fn advance<A: Fn(Request) -> Scalar>(&mut self, dt: Scalar, params: &VFParams, arith: &A)
        requires
            total(*arith),
        ensures
            is_step(*arith, dt, *params, old(self)@.current, final(self)@.current),
            final(self)@.previous == old(self)@.previous,
    {
        proof {
            use_type_invariant(&*self);
        }
        let moved = step(&self.current, dt, params, arith);
        self.current = moved;
    }

    /// Lets the trailing frame catch up: the frame before becomes a copy of
    /// the current frame.
    pub fn commit(&mut self)
        ensures
            final(self)@.current == old(self)@.current,
            final(self)@.previous == old(self)@.current,
    {
        let copy = self.current.clone();
        self.previous = copy;
    }
}

} // verus!
