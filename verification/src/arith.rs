//! Arithmetic on scalars, asked of the caller one operation at a time.
//!
//! An arithmetic is a function value from a [`Request`] to a [`Scalar`]. A
//! function of this crate that computes with scalars calls it for the
//! operations of its formula, innermost first, and hands each answer on as it
//! came; a part that occurs more than once may be asked for once and used
//! again. What such a function returns is stated against a [`Term`], the
//! formula written down as a value: [`evaluates`] holds of a term and a result
//! when the result can come about by asking the arithmetic for each operation
//! of the term on results of its parts. Nothing is assumed of what the
//! arithmetic answers; where it gives each request one answer, a term has one
//! value ([`lemma_value_is_unique`]).

use crate::geometry::{Point, Scalar, Vector};
use vstd::prelude::*;

verus! {

/// An operation on two scalars.
#[derive(Clone, Copy, Debug, PartialEq, Eq, Structural)]
pub enum Op {
    /// Left plus right.
    Add,
    /// Left minus right.
    Sub,
    /// Left times right.
    Mul,
    /// Left divided by right.
    Div,
}

/// A function of one scalar.
#[derive(Clone, Copy, Debug, PartialEq, Eq, Structural)]
pub enum Fun {
    /// The negative.
    Neg,
    /// The sine of an angle in radians.
    Sin,
    /// The cosine of an angle in radians.
    Cos,
}

/// One question to the arithmetic.
#[derive(Clone, Copy, Debug, PartialEq, Eq, Structural)]
pub enum Request {
    /// The scalar that stands for a count.
    Lift(u64),
    /// A function applied to a scalar.
    Unary(Fun, Scalar),
    /// An operation applied to a left and a right scalar.
    Binary(Op, Scalar, Scalar),
}

/// A formula over scalars: what is to be computed, apart from any arithmetic
/// that computes it.
pub enum Term {
    /// A given scalar.
    Value(Scalar),
    /// The scalar that stands for a count.
    Lift(u64),
    /// A function of a formula.
    Unary(Fun, Box<Term>),
    /// An operation on a left and a right formula.
    Binary(Op, Box<Term>, Box<Term>),
}

/// Three formulas, one for each coordinate.
pub struct Term3 {
    pub x: Term,
    pub y: Term,
    pub z: Term,
}

impl Term {
    /// The scalar with the given bit pattern.
    pub open spec fn constant(bits: u64) -> Term {
        Term::Value(Scalar { bits })
    }

    /// `self + right`.
    pub open spec fn plus(self, right: Term) -> Term {
        Term::Binary(Op::Add, Box::new(self), Box::new(right))
    }

    /// `self - right`.
    pub open spec fn minus(self, right: Term) -> Term {
        Term::Binary(Op::Sub, Box::new(self), Box::new(right))
    }

    /// `self * right`.
    pub open spec fn times(self, right: Term) -> Term {
        Term::Binary(Op::Mul, Box::new(self), Box::new(right))
    }

    /// `self / right`.
    pub open spec fn over(self, right: Term) -> Term {
        Term::Binary(Op::Div, Box::new(self), Box::new(right))
    }

    /// `-self`.
    pub open spec fn negated(self) -> Term {
        Term::Unary(Fun::Neg, Box::new(self))
    }

    /// The sine of `self`.
    pub open spec fn sin(self) -> Term {
        Term::Unary(Fun::Sin, Box::new(self))
    }

    /// The cosine of `self`.
    pub open spec fn cos(self) -> Term {
        Term::Unary(Fun::Cos, Box::new(self))
    }
}

/// Whether the arithmetic answers every request.
pub open spec fn total<A: Fn(Request) -> Scalar>(arith: A) -> bool {
    forall|request: Request| call_requires(arith, (request,))
}

/// What an arithmetic may answer: `answers(arith)(request, result)` says that
/// `result` is an answer of `arith` to `request`.
pub open spec fn answers<A: Fn(Request) -> Scalar>(arith: A) -> spec_fn(Request, Scalar) -> bool {
    |request: Request, result: Scalar| call_ensures(arith, (request,), result)
}

/// Whether `result` is a value of `term` where `answer` says what each
/// operation may give: a value stands for itself, and every other term is an
/// answer for its operation on values of its parts.
pub open spec fn evaluates_by(
    answer: spec_fn(Request, Scalar) -> bool,
    term: Term,
    result: Scalar,
) -> bool
    decreases term,
{
    match term {
        Term::Value(s) => result == s,
        Term::Lift(n) => answer(Request::Lift(n), result),
        Term::Unary(f, a) => exists|x: Scalar|
            evaluates_by(answer, *a, x) && #[trigger] answer(Request::Unary(f, x), result),
        Term::Binary(op, a, b) => exists|x: Scalar, y: Scalar|
            evaluates_by(answer, *a, x) && evaluates_by(answer, *b, y) && #[trigger] answer(
                Request::Binary(op, x, y),
                result,
            ),
    }
}

/// Whether `result` is a value of `term` under `arith`.
pub open spec fn evaluates<A: Fn(Request) -> Scalar>(arith: A, term: Term, result: Scalar) -> bool {
    evaluates_by(answers(arith), term, result)
}

/// Whether `p` has, coordinate by coordinate, values of `terms` under `arith`.
pub open spec fn evaluates_point<A: Fn(Request) -> Scalar>(
    arith: A,
    terms: Term3,
    p: Point,
) -> bool {
    &&& evaluates(arith, terms.x, p.x)
    &&& evaluates(arith, terms.y, p.y)
    &&& evaluates(arith, terms.z, p.z)
}

/// Whether `v` has, coordinate by coordinate, values of `terms` under `arith`.
pub open spec fn evaluates_vector<A: Fn(Request) -> Scalar>(
    arith: A,
    terms: Term3,
    v: Vector,
) -> bool {
    &&& evaluates(arith, terms.x, v.x)
    &&& evaluates(arith, terms.y, v.y)
    &&& evaluates(arith, terms.z, v.z)
}

/// Whether each request has at most one answer.
pub open spec fn single_valued(answer: spec_fn(Request, Scalar) -> bool) -> bool {
    forall|request: Request, a: Scalar, b: Scalar|
        #![trigger answer(request, a), answer(request, b)]
        answer(request, a) && answer(request, b) ==> a == b
}

/// Where each request has at most one answer, a formula has at most one
/// value: to say that a result is a value of a formula then says which
/// result it is.
pub proof fn lemma_value_is_unique(
    answer: spec_fn(Request, Scalar) -> bool,
    term: Term,
    r1: Scalar,
    r2: Scalar,
)
    requires
        single_valued(answer),
        evaluates_by(answer, term, r1),
        evaluates_by(answer, term, r2),
    ensures
        r1 == r2,
    decreases term,
{
    match term {
        Term::Value(_) => {},
        Term::Lift(_) => {},
        Term::Unary(f, a) => {
            let x1 = choose|x: Scalar|
                evaluates_by(answer, *a, x) && #[trigger] answer(Request::Unary(f, x), r1);
            let x2 = choose|x: Scalar|
                evaluates_by(answer, *a, x) && #[trigger] answer(Request::Unary(f, x), r2);
            lemma_value_is_unique(answer, *a, x1, x2);
        },
        Term::Binary(op, a, b) => {
            let (x1, y1) = choose|x: Scalar, y: Scalar|
                evaluates_by(answer, *a, x) && evaluates_by(answer, *b, y) && #[trigger] answer(
                    Request::Binary(op, x, y),
                    r1,
                );
            let (x2, y2) = choose|x: Scalar, y: Scalar|
                evaluates_by(answer, *a, x) && evaluates_by(answer, *b, y) && #[trigger] answer(
                    Request::Binary(op, x, y),
                    r2,
                );
            lemma_value_is_unique(answer, *a, x1, x2);
            lemma_value_is_unique(answer, *b, y1, y2);
        },
    }
}

/// A scalar together with the formula it was computed by.
#[derive(Clone, Copy)]
pub(crate) struct Num {
    pub value: Scalar,
    pub term: Ghost<Term>,
}

impl Num {
    /// Whether the scalar is a value of the formula under `arith`.
    pub(crate) open spec fn holds<A: Fn(Request) -> Scalar>(self, arith: A) -> bool {
        evaluates(arith, self.term@, self.value)
    }

    /// A given scalar, which is its own formula.
    pub(crate) fn of(value: Scalar) -> (n: Num)
        ensures
            n.value == value,
            n.term@ == Term::Value(value),
    {
        Num { value, term: Ghost(Term::Value(value)) }
    }

    /// The scalar that stands for `count`.
    pub(crate) fn lift<A: Fn(Request) -> Scalar>(count: u64, arith: &A) -> (n: Num)
        requires
            total(*arith),
        ensures
            n.holds(*arith),
            n.term@ == Term::Lift(count),
    {
        let value = arith(Request::Lift(count));
        Num { value, term: Ghost(Term::Lift(count)) }
    }

    /// Asks for `f` of this number.
    fn unary<A: Fn(Request) -> Scalar>(self, f: Fun, arith: &A) -> (n: Num)
        requires
            total(*arith),
            self.holds(*arith),
        ensures
            n.holds(*arith),
            n.term@ == Term::Unary(f, Box::new(self.term@)),
    {
        let value = arith(Request::Unary(f, self.value));
        let ghost term = Term::Unary(f, Box::new(self.term@));
        // The answer just given, on the value at hand, is the witness.
        assert(answers(*arith)(Request::Unary(f, self.value), value));
        Num { value, term: Ghost(term) }
    }

    /// Asks for `op` on this number and `right`.
    fn binary<A: Fn(Request) -> Scalar>(self, op: Op, right: Num, arith: &A) -> (n: Num)
        requires
            total(*arith),
            self.holds(*arith),
            right.holds(*arith),
        ensures
            n.holds(*arith),
            n.term@ == Term::Binary(op, Box::new(self.term@), Box::new(right.term@)),
    {
        let value = arith(Request::Binary(op, self.value, right.value));
        let ghost term = Term::Binary(op, Box::new(self.term@), Box::new(right.term@));
        // The answer just given, on the two values at hand, is the witness.
        assert(answers(*arith)(Request::Binary(op, self.value, right.value), value));
        Num { value, term: Ghost(term) }
    }

    /// `self + right`.
    pub(crate) fn plus<A: Fn(Request) -> Scalar>(self, right: Num, arith: &A) -> (n: Num)
        requires
            total(*arith),
            self.holds(*arith),
            right.holds(*arith),
        ensures
            n.holds(*arith),
            n.term@ == self.term@.plus(right.term@),
    {
        self.binary(Op::Add, right, arith)
    }

    /// `self - right`.
    pub(crate) fn minus<A: Fn(Request) -> Scalar>(self, right: Num, arith: &A) -> (n: Num)
        requires
            total(*arith),
            self.holds(*arith),
            right.holds(*arith),
        ensures
            n.holds(*arith),
            n.term@ == self.term@.minus(right.term@),
    {
        self.binary(Op::Sub, right, arith)
    }

    /// `self * right`.
    pub(crate) fn times<A: Fn(Request) -> Scalar>(self, right: Num, arith: &A) -> (n: Num)
        requires
            total(*arith),
            self.holds(*arith),
            right.holds(*arith),
        ensures
            n.holds(*arith),
            n.term@ == self.term@.times(right.term@),
    {
        self.binary(Op::Mul, right, arith)
    }

    /// `self / right`.
    pub(crate) fn over<A: Fn(Request) -> Scalar>(self, right: Num, arith: &A) -> (n: Num)
        requires
            total(*arith),
            self.holds(*arith),
            right.holds(*arith),
        ensures
            n.holds(*arith),
            n.term@ == self.term@.over(right.term@),
    {
        self.binary(Op::Div, right, arith)
    }

    /// `-self`.
    pub(crate) fn negated<A: Fn(Request) -> Scalar>(self, arith: &A) -> (n: Num)
        requires
            total(*arith),
            self.holds(*arith),
        ensures
            n.holds(*arith),
            n.term@ == self.term@.negated(),
    {
        self.unary(Fun::Neg, arith)
    }

    /// The sine of `self`.
    pub(crate) fn sin<A: Fn(Request) -> Scalar>(self, arith: &A) -> (n: Num)
        requires
            total(*arith),
            self.holds(*arith),
        ensures
            n.holds(*arith),
            n.term@ == self.term@.sin(),
    {
        self.unary(Fun::Sin, arith)
    }

    /// The cosine of `self`.
    pub(crate) fn cos<A: Fn(Request) -> Scalar>(self, arith: &A) -> (n: Num)
        requires
            total(*arith),
            self.holds(*arith),
        ensures
            n.holds(*arith),
            n.term@ == self.term@.cos(),
    {
        self.unary(Fun::Cos, arith)
    }
}

} // verus!
