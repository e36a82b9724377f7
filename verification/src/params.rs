//! Parameter sets of the vector field.

use crate::geometry::{Point, Scalar};
use crate::status::can_show;
use rand::distributions::{IndependentSample, Range};
use rand::StdRng;
use vstd::prelude::*;
use vstd::string::StringExecFns;

verus! {

/// Number of coordinate axes an axis selector can name.
pub const AXIS_COUNT: usize = 3;

/// Number of decimals a coefficient is shown with.
pub const COEFFICIENT_DECIMALS: usize = 3;

/// The seven scalar coefficients of a parameter set.
#[derive(Clone, Copy, Debug, PartialEq, Eq, Structural)]
pub struct Coefficients {
    pub p: Scalar,
    pub q: Scalar,
    pub r: Scalar,
    pub s: Scalar,
    pub v: Scalar,
    pub w: Scalar,
    pub u: Scalar,
}

/// One instance of the vector field: three axis selectors and seven
/// coefficients. A value never changes after it was made, and its selectors
/// always name one of the three axes.
#[derive(Clone, Copy, Debug, PartialEq, Eq, Structural)]
pub struct VFParams {
    a1: usize,
    a2: usize,
    a3: usize,
    coefficients: Coefficients,
}

/// `rand::StdRng`, the standard generator of `rand`. Nothing inside it is
/// known here: it is handed on to `rand` as it came.
#[verifier::external_type_specification]
#[verifier::external_body]
pub struct ExStdRng(rand::StdRng);

/// Draws one value with `rand::distributions::Range::new(0, bound)` and
/// `IndependentSample::ind_sample`.
///
/// Believed of `rand`, not proved: the value drawn is below `bound`. For
/// integers the range takes a draw of the generator modulo its width and adds
/// the lower end, here zero; it redraws while a draw falls outside the part of
/// the integers that the width divides evenly. `Range::new` panics on an empty
/// range, which `bound > 0` rules out. Which value comes is not said.
#[verifier::external_body]
fn sample_below(rng: &mut StdRng, bound: usize) -> (drawn: usize)
    requires
        bound > 0,
    ensures
        drawn < bound,
{
    Range::new(0, bound).ind_sample(rng)
}

/// The coordinate of `p` that `axis` selects: 0 is x, 1 is y, 2 is z.
pub open spec fn coordinate(p: Point, axis: int) -> Scalar {
    if axis == 0 {
        p.x
    } else if axis == 1 {
        p.y
    } else {
        p.z
    }
}

/// Whether the three selectors all name an axis.
pub open spec fn axes_valid(a1: int, a2: int, a3: int) -> bool {
    0 <= a1 < AXIS_COUNT && 0 <= a2 < AXIS_COUNT && 0 <= a3 < AXIS_COUNT
}

/// The digit that stands for an axis selector.
pub open spec fn axis_digit(axis: int) -> Seq<char> {
    if axis == 0 {
        "0"@
    } else if axis == 1 {
        "1"@
    } else {
        "2"@
    }
}

/// The one-line dump of a parameter set whose selectors are `a1`, `a2`, `a3`
/// and whose coefficients are shown as `p` to `u`: every field with its name,
/// in the order selectors first, then `p q r s v w u`.
pub open spec fn dump(
    a1: int,
    a2: int,
    a3: int,
    p: Seq<char>,
    q: Seq<char>,
    r: Seq<char>,
    s: Seq<char>,
    v: Seq<char>,
    w: Seq<char>,
    u: Seq<char>,
) -> Seq<char> {
    "a1: "@ + axis_digit(a1) + ", a2: "@ + axis_digit(a2) + ", a3: "@ + axis_digit(a3) + ", p: "@
        + p + ", q: "@ + q + ", r: "@ + r + ", s: "@ + s + ", v: "@ + v + ", w: "@ + w + ", u: "@
        + u
}

/// Whether `text` is the dump of `params` with each coefficient as `show`
/// returned it for three decimals.
pub open spec fn is_dump<S: Fn(Scalar, usize) -> String>(
    show: S,
    params: VFParams,
    text: Seq<char>,
) -> bool {
    let c = params.spec_coefficients();
    let d = COEFFICIENT_DECIMALS;
    exists|p: String, q: String, r: String, s: String, v: String, w: String, u: String|
        {
            &&& call_ensures(show, (c.p, d), p)
            &&& call_ensures(show, (c.q, d), q)
            &&& call_ensures(show, (c.r, d), r)
            &&& call_ensures(show, (c.s, d), s)
            &&& call_ensures(show, (c.v, d), v)
            &&& call_ensures(show, (c.w, d), w)
            &&& call_ensures(show, (c.u, d), u)
            &&& text == #[trigger] dump(
                params.spec_a1() as int,
                params.spec_a2() as int,
                params.spec_a3() as int,
                p@,
                q@,
                r@,
                s@,
                v@,
                w@,
                u@,
            )
        }
}

fn digit(axis: usize) -> (text: &'static str)
    requires
        axis < AXIS_COUNT,
    ensures
        text@ == axis_digit(axis as int),
{
    if axis == 0 {
        "0"
    } else if axis == 1 {
        "1"
    } else {
        "2"
    }
}

fn select(p: &Point, axis: usize) -> (c: Scalar)
    requires
        axis < AXIS_COUNT,
    ensures
        c == coordinate(*p, axis as int),
{
    if axis == 0 {
        p.x
    } else if axis == 1 {
        p.y
    } else {
        p.z
    }
}

impl VFParams {
    #[verifier::type_invariant]
    spec fn selectors_in_range(self) -> bool {
        axes_valid(self.a1 as int, self.a2 as int, self.a3 as int)
    }

    /// The first axis selector.
    pub closed spec fn spec_a1(&self) -> usize {
        self.a1
    }

    /// The second axis selector.
    pub closed spec fn spec_a2(&self) -> usize {
        self.a2
    }

    /// The third axis selector.
    pub closed spec fn spec_a3(&self) -> usize {
        self.a3
    }

    /// The coefficients.
    pub closed spec fn spec_coefficients(&self) -> Coefficients {
        self.coefficients
    }

    /// Builds a parameter set, or refuses it when a selector names no axis.
    pub fn new(
        a1: usize,
        a2: usize,
        a3: usize,
        coefficients: Coefficients,
    ) -> (made: Option<VFParams>)
        ensures
            made is Some <==> axes_valid(a1 as int, a2 as int, a3 as int),
            made matches Some(params) ==> {
                &&& params.spec_a1() == a1
                &&& params.spec_a2() == a2
                &&& params.spec_a3() == a3
                &&& params.spec_coefficients() == coefficients
            },
    {
        if a1 < AXIS_COUNT && a2 < AXIS_COUNT && a3 < AXIS_COUNT {
            Some(VFParams { a1, a2, a3, coefficients })
        } else {
            None
        }
    }

    /// Builds a parameter set with the given coefficients and with each of
    /// the three selectors drawn from `rng` over all three axes, one draw for
    /// each. Which axes come is up to `rng`; whatever comes, the set is one
    /// that [`VFParams::new`] accepts.
    pub fn gen_rand(rng: &mut StdRng, coefficients: Coefficients) -> (made: VFParams)
        ensures
            axes_valid(made.spec_a1() as int, made.spec_a2() as int, made.spec_a3() as int),
            made.spec_coefficients() == coefficients,
    {
        let a1 = sample_below(rng, AXIS_COUNT);
        let a2 = sample_below(rng, AXIS_COUNT);
        let a3 = sample_below(rng, AXIS_COUNT);
        VFParams::new(a1, a2, a3, coefficients).unwrap()
    }

    /// The first axis selector.
    #[verifier::when_used_as_spec(spec_a1)]
    pub fn a1(&self) -> (axis: usize)
        ensures
            axis == self.spec_a1(),
            axis < AXIS_COUNT,
    {
        proof {
            use_type_invariant(self);
        }
        self.a1
    }

    /// The second axis selector.
    #[verifier::when_used_as_spec(spec_a2)]
    pub fn a2(&self) -> (axis: usize)
        ensures
            axis == self.spec_a2(),
            axis < AXIS_COUNT,
    {
        proof {
            use_type_invariant(self);
        }
        self.a2
    }

    /// The third axis selector.
    #[verifier::when_used_as_spec(spec_a3)]
    pub fn a3(&self) -> (axis: usize)
        ensures
            axis == self.spec_a3(),
            axis < AXIS_COUNT,
    {
        proof {
            use_type_invariant(self);
        }
        self.a3
    }

    /// The coefficients.
    #[verifier::when_used_as_spec(spec_coefficients)]
    pub fn coefficients(&self) -> (coefficients: Coefficients)
        ensures
            coefficients == self.spec_coefficients(),
    {
        self.coefficients
    }

    /// The fields of the parameter set on one line, for an overlay. The
    /// selectors are written as digits; each coefficient is written as `show`
    /// returns it for three decimals.
    pub fn to_string<S: Fn(Scalar, usize) -> String>(&self, show: &S) -> (text: String)
        requires
            can_show(*show),
        ensures
            is_dump(*show, *self, text@),
    {
        proof {
            use_type_invariant(self);
        }
        let c = self.coefficients;
        let p = show(c.p, COEFFICIENT_DECIMALS);
        let q = show(c.q, COEFFICIENT_DECIMALS);
        let r = show(c.r, COEFFICIENT_DECIMALS);
        let s = show(c.s, COEFFICIENT_DECIMALS);
        let v = show(c.v, COEFFICIENT_DECIMALS);
        let w = show(c.w, COEFFICIENT_DECIMALS);
        let u = show(c.u, COEFFICIENT_DECIMALS);
        let mut text = "a1: ".to_owned();
        text.append(digit(self.a1));
        text.append(", a2: ");
        text.append(digit(self.a2));
        text.append(", a3: ");
        text.append(digit(self.a3));
        text.append(", p: ");
        text.append(p.as_str());
        text.append(", q: ");
        text.append(q.as_str());
        text.append(", r: ");
        text.append(r.as_str());
        text.append(", s: ");
        text.append(s.as_str());
        text.append(", v: ");
        text.append(v.as_str());
        text.append(", w: ");
        text.append(w.as_str());
        text.append(", u: ");
        text.append(u.as_str());
        // The seven strings just shown are the witnesses.
        assert(text@ == dump(
            self.spec_a1() as int,
            self.spec_a2() as int,
            self.spec_a3() as int,
            p@,
            q@,
            r@,
            s@,
            v@,
            w@,
            u@,
        ));
        text
    }

    /// The coordinates of `p` picked by the three selectors, in the order
    /// first, second, third.
    pub fn shuffle(&self, p: &Point) -> (picked: (Scalar, Scalar, Scalar))
        ensures
            picked.0 == coordinate(*p, self.spec_a1() as int),
            picked.1 == coordinate(*p, self.spec_a2() as int),
            picked.2 == coordinate(*p, self.spec_a3() as int),
    {
        proof {
            use_type_invariant(self);
        }
        (select(p, self.a1), select(p, self.a2), select(p, self.a3))
    }
}

} // verus!
