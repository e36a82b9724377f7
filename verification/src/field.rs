//! The vector field and one integration step of a point.

use crate::arith::{evaluates_point, evaluates_vector, total, Num, Request, Term, Term3};
use crate::geometry::{Point, Scalar, Vector, PI_BITS};
use crate::params::{coordinate, VFParams};
use vstd::prelude::*;

verus! {

/// The first component of the field at `p`:
/// `q * cos(s3 / (s2 + p * (s1 + q) * pi + z) * pi)`,
/// where `s1`, `s2`, `s3` are the coordinates of the point that the first,
/// second and third selector pick, `z` is the point's own z, and the letters
/// are the coefficients.
pub open spec fn field_i(p: Point, params: VFParams) -> Term {
    let c = params.spec_coefficients();
    let s1 = Term::Value(coordinate(p, params.spec_a1() as int));
    let s2 = Term::Value(coordinate(p, params.spec_a2() as int));
    let s3 = Term::Value(coordinate(p, params.spec_a3() as int));
    let pi = Term::constant(PI_BITS);
    let below = s2.plus(Term::Value(c.p).times(s1.plus(Term::Value(c.q))).times(pi)).plus(
        Term::Value(p.z),
    );
    Term::Value(c.q).times(s3.over(below).times(pi).cos())
}

/// The second component of the field at `p`:
/// `r * sin(s2 * cos(pi * x) / (s2 + r * -(x + s)) * pi + x)`,
/// where `x` is the point's own x.
pub open spec fn field_j(p: Point, params: VFParams) -> Term {
    let c = params.spec_coefficients();
    let s2 = Term::Value(coordinate(p, params.spec_a2() as int));
    let pi = Term::constant(PI_BITS);
    let x = Term::Value(p.x);
    let above = s2.times(pi.times(x).cos());
    let below = s2.plus(Term::Value(c.r).times(x.plus(Term::Value(c.s)).negated()));
    Term::Value(c.r).times(above.over(below).times(pi).plus(x).sin())
}

/// The third component of the field at `p`:
/// `w * sin(s1 / (s2 + v / (s3 - s2 + w)) * pi + s1)`.
pub open spec fn field_k(p: Point, params: VFParams) -> Term {
    let c = params.spec_coefficients();
    let s1 = Term::Value(coordinate(p, params.spec_a1() as int));
    let s2 = Term::Value(coordinate(p, params.spec_a2() as int));
    let s3 = Term::Value(coordinate(p, params.spec_a3() as int));
    let pi = Term::constant(PI_BITS);
    let below = s2.plus(Term::Value(c.v).over(s3.minus(s2).plus(Term::Value(c.w))));
    Term::Value(c.w).times(s1.over(below).times(pi).plus(s1).sin())
}

/// The field at `p`.
pub open spec fn field(p: Point, params: VFParams) -> Term3 {
    Term3 { x: field_i(p, params), y: field_j(p, params), z: field_k(p, params) }
}

/// One explicit Euler step from `p`: each coordinate plus `dt` times the
/// field's component.
pub open spec fn euler(dt: Scalar, p: Point, params: VFParams) -> Term3 {
    Term3 {
        x: Term::Value(p.x).plus(Term::Value(dt).times(field_i(p, params))),
        y: Term::Value(p.y).plus(Term::Value(dt).times(field_j(p, params))),
        z: Term::Value(p.z).plus(Term::Value(dt).times(field_k(p, params))),
    }
}

fn field_nums<A: Fn(Request) -> Scalar>(
    p: &Point,
    params: &VFParams,
    arith: &A,
) -> (v: (Num, Num, Num))
    requires
        total(*arith),
    ensures
        v.0.holds(*arith),
        v.1.holds(*arith),
        v.2.holds(*arith),
        v.0.term@ == field_i(*p, *params),
        v.1.term@ == field_j(*p, *params),
        v.2.term@ == field_k(*p, *params),
{
    let picked = params.shuffle(p);
    let s1 = Num::of(picked.0);
    let s2 = Num::of(picked.1);
    let s3 = Num::of(picked.2);
    let c = params.coefficients();
    let pi = Num::of(Scalar::from_bits(PI_BITS));
    let x = Num::of(p.x);
    let z = Num::of(p.z);
    let cp = Num::of(c.p);
    let cq = Num::of(c.q);
    let cr = Num::of(c.r);
    let cs = Num::of(c.s);
    let cv = Num::of(c.v);
    let cw = Num::of(c.w);

    let below = s2.plus(cp.times(s1.plus(cq, arith), arith).times(pi, arith), arith).plus(z, arith);
    let i = cq.times(s3.over(below, arith).times(pi, arith).cos(arith), arith);

    let above = s2.times(pi.times(x, arith).cos(arith), arith);
    let below = s2.plus(cr.times(x.plus(cs, arith).negated(arith), arith), arith);
    let j = cr.times(above.over(below, arith).times(pi, arith).plus(x, arith).sin(arith), arith);

    let below = s2.plus(cv.over(s3.minus(s2, arith).plus(cw, arith), arith), arith);
    let k = cw.times(s1.over(below, arith).times(pi, arith).plus(s1, arith).sin(arith), arith);

    (i, j, k)
}

/// Evaluates the field at `p`. Nothing is clamped: whatever the arithmetic
/// answers, also for a division by zero, is carried into the result.
pub fn vector_field<A: Fn(Request) -> Scalar>(
    p: &Point,
    params: &VFParams,
    arith: &A,
) -> (v: Vector)
    requires
        total(*arith),
    ensures
        evaluates_vector(*arith, field(*p, *params), v),
{
    let (i, j, k) = field_nums(p, params, arith);
    Vector { x: i.value, y: j.value, z: k.value }
}

/// Moves `p` by one explicit Euler step of size `dt`.
pub fn mutate_point<A: Fn(Request) -> Scalar>(
    dt: Scalar,
    p: &Point,
    params: &VFParams,
    arith: &A,
) -> (next: Point)
    requires
        total(*arith),
    ensures
        evaluates_point(*arith, euler(dt, *p, *params), next),
{
    let (i, j, k) = field_nums(p, params, arith);
    let dt = Num::of(dt);
    let x = Num::of(p.x).plus(dt.times(i, arith), arith);
    let y = Num::of(p.y).plus(dt.times(j, arith), arith);
    let z = Num::of(p.z).plus(dt.times(k, arith), arith);
    Point { x: x.value, y: y.value, z: z.value }
}

} // verus!
