//! 2-component vectors over a generic numeric element type.
//!
//! Every operation is specified against the pair of mathematical component
//! values, so callers know the exact result of each construction, sum,
//! difference, scalar operation, dot product and 2D cross product.

use crate::element::{lemma_trunc_div_cancel, trunc_div, Element};
use vstd::prelude::*;
use vstd::string::StringExecFns;

verus! {

/// A generic 2D vector: two components of one numeric element type.
#[derive(Clone, Copy, PartialEq, Eq, Debug)]
pub struct Vec2<T: Element> {
    pub x: T,
    pub y: T,
}

/// Componentwise sum of two value pairs.
pub open spec fn add2(a: (int, int), b: (int, int)) -> (int, int) {
    (a.0 + b.0, a.1 + b.1)
}

/// Componentwise difference of two value pairs.
pub open spec fn sub2(a: (int, int), b: (int, int)) -> (int, int) {
    (a.0 - b.0, a.1 - b.1)
}

/// A scalar added to each component.
pub open spec fn add2s(a: (int, int), s: int) -> (int, int) {
    (a.0 + s, a.1 + s)
}

/// A scalar subtracted from each component.
pub open spec fn sub2s(a: (int, int), s: int) -> (int, int) {
    (a.0 - s, a.1 - s)
}

/// Each component multiplied by a scalar.
pub open spec fn mul2s(a: (int, int), s: int) -> (int, int) {
    (a.0 * s, a.1 * s)
}

/// Each component divided (truncating) by a scalar.
pub open spec fn div2s(a: (int, int), s: int) -> (int, int) {
    (trunc_div(a.0, s), trunc_div(a.1, s))
}

/// Dot product of two value pairs.
pub open spec fn dot2(a: (int, int), b: (int, int)) -> int {
    a.0 * b.0 + a.1 * b.1
}

/// 2D cross product of two value pairs: the signed-area scalar.
pub open spec fn cross2(a: (int, int), b: (int, int)) -> int {
    a.0 * b.1 - a.1 * b.0
}

/// The rendering of a 2D vector: each field with its name, in declared order.
pub open spec fn shown2<T: Element>(v: Vec2<T>) -> Seq<char> {
    "x: "@ + v.x.shown() + "\ny: "@ + v.y.shown()
}

impl<T: Element> Vec2<T> {
    /// The pair of mathematical component values.
    pub open spec fn lift2(self) -> (int, int) {
        (self.x.lift(), self.y.lift())
    }

    /// Create a 2D vector with the given XY values.
    pub fn new(x: T, y: T) -> (r: Self)
        ensures
            r.x == x,
            r.y == y,
    {
        Vec2 { x, y }
    }

    /// A 2D vector with every component the additive identity.
    pub fn zero() -> (r: Self)
        ensures
            r.lift2() == (0int, 0int),
    {
        Vec2 { x: T::zero_el(), y: T::zero_el() }
    }

    /// Return the dot product of two 2D vectors: `x*x' + y*y'`.
    pub fn dot(&self, rhs: &Vec2<T>) -> (r: T)
        requires
            T::fits(self.x.lift() * rhs.x.lift()),
            T::fits(self.y.lift() * rhs.y.lift()),
            T::fits(dot2(self.lift2(), rhs.lift2())),
        ensures
            r.lift() == dot2(self.lift2(), rhs.lift2()),
    {
        self.x.mul_el(rhs.x).add_el(self.y.mul_el(rhs.y))
    }

    /// Return the 2D cross product, a scalar: `x*y' - y*x'`.
    pub fn cross(&self, rhs: &Vec2<T>) -> (r: T)
        requires
            T::fits(self.x.lift() * rhs.y.lift()),
            T::fits(self.y.lift() * rhs.x.lift()),
            T::fits(cross2(self.lift2(), rhs.lift2())),
        ensures
            r.lift() == cross2(self.lift2(), rhs.lift2()),
    {
        self.x.mul_el(rhs.y).sub_el(self.y.mul_el(rhs.x))
    }

    /// The product of two 2D vectors, defined as their cross product.
    pub fn mul(self, other: Vec2<T>) -> (r: T)
        requires
            T::fits(self.x.lift() * other.y.lift()),
            T::fits(self.y.lift() * other.x.lift()),
            T::fits(cross2(self.lift2(), other.lift2())),
        ensures
            r.lift() == cross2(self.lift2(), other.lift2()),
    {
        self.cross(&other)
    }

    /// Componentwise sum of two 2D vectors.
    pub fn add(self, other: Vec2<T>) -> (r: Self)
        requires
            T::fits(self.x.lift() + other.x.lift()),
            T::fits(self.y.lift() + other.y.lift()),
        ensures
            r.lift2() == add2(self.lift2(), other.lift2()),
    {
        Vec2 { x: self.x.add_el(other.x), y: self.y.add_el(other.y) }
    }

    /// Componentwise difference of two 2D vectors.
    pub fn sub(self, other: Vec2<T>) -> (r: Self)
        requires
            T::fits(self.x.lift() - other.x.lift()),
            T::fits(self.y.lift() - other.y.lift()),
        ensures
            r.lift2() == sub2(self.lift2(), other.lift2()),
    {
        Vec2 { x: self.x.sub_el(other.x), y: self.y.sub_el(other.y) }
    }

    /// The scalar added to each component.
    pub fn add_scalar(self, s: T) -> (r: Self)
        requires
            T::fits(self.x.lift() + s.lift()),
            T::fits(self.y.lift() + s.lift()),
        ensures
            r.lift2() == add2s(self.lift2(), s.lift()),
    {
        Vec2 { x: self.x.add_el(s), y: self.y.add_el(s) }
    }

    /// The scalar subtracted from each component.
    pub fn sub_scalar(self, s: T) -> (r: Self)
        requires
            T::fits(self.x.lift() - s.lift()),
            T::fits(self.y.lift() - s.lift()),
        ensures
            r.lift2() == sub2s(self.lift2(), s.lift()),
    {
        Vec2 { x: self.x.sub_el(s), y: self.y.sub_el(s) }
    }

    /// Each component multiplied by the scalar.
    pub fn mul_scalar(self, s: T) -> (r: Self)
        requires
            T::fits(self.x.lift() * s.lift()),
            T::fits(self.y.lift() * s.lift()),
        ensures
            r.lift2() == mul2s(self.lift2(), s.lift()),
    {
        Vec2 { x: self.x.mul_el(s), y: self.y.mul_el(s) }
    }

    /// Each component divided (truncating) by the non-zero scalar.
    pub fn div_scalar(self, s: T) -> (r: Self)
        requires
            s.lift() != 0,
            T::fits(trunc_div(self.x.lift(), s.lift())),
            T::fits(trunc_div(self.y.lift(), s.lift())),
        ensures
            r.lift2() == div2s(self.lift2(), s.lift()),
    {
        Vec2 { x: self.x.div_el(s), y: self.y.div_el(s) }
    }

    /// Each field with its name, one per line, in declared order.
    pub fn to_display_string(&self) -> (r: String)
        ensures
            r@ == shown2(*self),
    {
        let mut s = String::from_str("x: ");
        let xs = self.x.show();
        s.append(xs.as_str());
        s.append("\ny: ");
        let ys = self.y.show();
        s.append(ys.as_str());
        s
    }
}

/// A 2D vector is determined by its pair of component values.
pub proof fn lemma_vec2_lift_determines<T: Element>(a: Vec2<T>, b: Vec2<T>)
    requires
        a.lift2() == b.lift2(),
    ensures
        a == b,
{
    T::lift_inj(a.x, b.x);
    T::lift_inj(a.y, b.y);
}

/// Addition of 2D vectors is commutative: a sum of `a` and `b` equals a sum
/// of `b` and `a`.
pub proof fn lemma_vec2_add_comm<T: Element>(a: Vec2<T>, b: Vec2<T>, ab: Vec2<T>, ba: Vec2<T>)
    requires
        ab.lift2() == add2(a.lift2(), b.lift2()),
        ba.lift2() == add2(b.lift2(), a.lift2()),
    ensures
        ab == ba,
{
    lemma_vec2_lift_determines(ab, ba);
}

/// Addition of 2D vectors is associative: `(a + b) + c` equals `a + (b + c)`.
pub proof fn lemma_vec2_add_assoc<T: Element>(
    a: Vec2<T>,
    b: Vec2<T>,
    c: Vec2<T>,
    ab: Vec2<T>,
    ab_c: Vec2<T>,
    bc: Vec2<T>,
    a_bc: Vec2<T>,
)
    requires
        ab.lift2() == add2(a.lift2(), b.lift2()),
        ab_c.lift2() == add2(ab.lift2(), c.lift2()),
        bc.lift2() == add2(b.lift2(), c.lift2()),
        a_bc.lift2() == add2(a.lift2(), bc.lift2()),
    ensures
        ab_c == a_bc,
{
    lemma_vec2_lift_determines(ab_c, a_bc);
}

/// Adding the zero vector changes nothing: `a + zero() == a`.
pub proof fn lemma_vec2_add_zero<T: Element>(a: Vec2<T>, z: Vec2<T>, az: Vec2<T>)
    requires
        z.lift2() == (0int, 0int),
        az.lift2() == add2(a.lift2(), z.lift2()),
    ensures
        az == a,
{
    lemma_vec2_lift_determines(az, a);
}

/// Subtracting a vector from itself gives the zero vector: `a - a == zero()`.
pub proof fn lemma_vec2_sub_self<T: Element>(a: Vec2<T>, d: Vec2<T>, z: Vec2<T>)
    requires
        d.lift2() == sub2(a.lift2(), a.lift2()),
        z.lift2() == (0int, 0int),
    ensures
        d == z,
{
    lemma_vec2_lift_determines(d, z);
}

/// The dot product is commutative: `a.dot(b) == b.dot(a)`.
pub proof fn lemma_vec2_dot_comm<T: Element>(a: Vec2<T>, b: Vec2<T>, r1: T, r2: T)
    requires
        r1.lift() == dot2(a.lift2(), b.lift2()),
        r2.lift() == dot2(b.lift2(), a.lift2()),
    ensures
        r1 == r2,
{
    T::lift_inj(r1, r2);
}

/// Multiplying by a non-zero scalar and then dividing by it returns the
/// original vector: `(a * s) / s == a`.
pub proof fn lemma_vec2_scale_div_roundtrip<T: Element>(a: Vec2<T>, s: T, m: Vec2<T>, q: Vec2<T>)
    requires
        s.lift() != 0,
        m.lift2() == mul2s(a.lift2(), s.lift()),
        q.lift2() == div2s(m.lift2(), s.lift()),
    ensures
        q == a,
{
    lemma_trunc_div_cancel(a.lift2().0, s.lift());
    lemma_trunc_div_cancel(a.lift2().1, s.lift());
    lemma_vec2_lift_determines(q, a);
}

} // verus!
