//! 4-component vectors over a generic numeric element type.
//!
//! 4D vectors have the elementwise and scalar operations and the dot
//! product, but no cross product: no binary cross product exists in four
//! dimensions.

use crate::element::{lemma_trunc_div_cancel, trunc_div, Element};
use vstd::prelude::*;
use vstd::string::StringExecFns;

verus! {

/// A generic 4D vector: four components of one numeric element type.
#[derive(Clone, Copy, PartialEq, Eq, Debug)]
pub struct Vec4<T: Element> {
    pub x: T,
    pub y: T,
    pub z: T,
    pub w: T,
}

/// Componentwise sum of two value quadruples.
pub open spec fn add4(a: (int, int, int, int), b: (int, int, int, int)) -> (int, int, int, int) {
    (a.0 + b.0, a.1 + b.1, a.2 + b.2, a.3 + b.3)
}

/// Componentwise difference of two value quadruples.
pub open spec fn sub4(a: (int, int, int, int), b: (int, int, int, int)) -> (int, int, int, int) {
    (a.0 - b.0, a.1 - b.1, a.2 - b.2, a.3 - b.3)
}

/// A scalar added to each component.
pub open spec fn add4s(a: (int, int, int, int), s: int) -> (int, int, int, int) {
    (a.0 + s, a.1 + s, a.2 + s, a.3 + s)
}

/// A scalar subtracted from each component.
pub open spec fn sub4s(a: (int, int, int, int), s: int) -> (int, int, int, int) {
    (a.0 - s, a.1 - s, a.2 - s, a.3 - s)
}

/// Each component multiplied by a scalar.
pub open spec fn mul4s(a: (int, int, int, int), s: int) -> (int, int, int, int) {
    (a.0 * s, a.1 * s, a.2 * s, a.3 * s)
}

/// Each component divided (truncating) by a scalar.
pub open spec fn div4s(a: (int, int, int, int), s: int) -> (int, int, int, int) {
    (trunc_div(a.0, s), trunc_div(a.1, s), trunc_div(a.2, s), trunc_div(a.3, s))
}

/// Dot product of two value quadruples.
pub open spec fn dot4(a: (int, int, int, int), b: (int, int, int, int)) -> int {
    a.0 * b.0 + a.1 * b.1 + a.2 * b.2 + a.3 * b.3
}

/// The rendering of a 4D vector: each field with its name, in declared order.
pub open spec fn shown4<T: Element>(v: Vec4<T>) -> Seq<char> {
    "x: "@ + v.x.shown() + "\ny: "@ + v.y.shown() + "\nz: "@ + v.z.shown() + "\nw: "@
        + v.w.shown()
}

impl<T: Element> Vec4<T> {
    /// The quadruple of mathematical component values.
    pub open spec fn lift4(self) -> (int, int, int, int) {
        (self.x.lift(), self.y.lift(), self.z.lift(), self.w.lift())
    }

    /// Create a 4D vector with the given XYZW values.
    pub fn new(x: T, y: T, z: T, w: T) -> (r: Self)
        ensures
            r.x == x,
            r.y == y,
            r.z == z,
            r.w == w,
    {
        Vec4 { x, y, z, w }
    }

    /// A 4D vector with every component the additive identity.
    pub fn zero() -> (r: Self)
        ensures
            r.lift4() == (0int, 0int, 0int, 0int),
    {
        Vec4 { x: T::zero_el(), y: T::zero_el(), z: T::zero_el(), w: T::zero_el() }
    }

    /// Return the dot product of two 4D vectors:
    /// `x*x' + y*y' + z*z' + w*w'`.
    pub fn dot(&self, rhs: &Vec4<T>) -> (r: T)
        requires
            T::fits(self.x.lift() * rhs.x.lift()),
            T::fits(self.y.lift() * rhs.y.lift()),
            T::fits(self.z.lift() * rhs.z.lift()),
            T::fits(self.w.lift() * rhs.w.lift()),
            T::fits(self.x.lift() * rhs.x.lift() + self.y.lift() * rhs.y.lift()),
            T::fits(
                self.x.lift() * rhs.x.lift() + self.y.lift() * rhs.y.lift() + self.z.lift()
                    * rhs.z.lift(),
            ),
            T::fits(dot4(self.lift4(), rhs.lift4())),
        ensures
            r.lift() == dot4(self.lift4(), rhs.lift4()),
    {
        self.x.mul_el(rhs.x).add_el(self.y.mul_el(rhs.y)).add_el(self.z.mul_el(rhs.z)).add_el(
            self.w.mul_el(rhs.w),
        )
    }

    /// Componentwise sum of two 4D vectors.
    pub fn add(self, other: Vec4<T>) -> (r: Self)
        requires
            T::fits(self.x.lift() + other.x.lift()),
            T::fits(self.y.lift() + other.y.lift()),
            T::fits(self.z.lift() + other.z.lift()),
            T::fits(self.w.lift() + other.w.lift()),
        ensures
            r.lift4() == add4(self.lift4(), other.lift4()),
    {
        Vec4 {
            x: self.x.add_el(other.x),
            y: self.y.add_el(other.y),
            z: self.z.add_el(other.z),
            w: self.w.add_el(other.w),
        }
    }

    /// Componentwise difference of two 4D vectors.
    pub fn sub(self, other: Vec4<T>) -> (r: Self)
        requires
            T::fits(self.x.lift() - other.x.lift()),
            T::fits(self.y.lift() - other.y.lift()),
            T::fits(self.z.lift() - other.z.lift()),
            T::fits(self.w.lift() - other.w.lift()),
        ensures
            r.lift4() == sub4(self.lift4(), other.lift4()),
    {
        Vec4 {
            x: self.x.sub_el(other.x),
            y: self.y.sub_el(other.y),
            z: self.z.sub_el(other.z),
            w: self.w.sub_el(other.w),
        }
    }

    /// The scalar added to each component.
    pub fn add_scalar(self, s: T) -> (r: Self)
        requires
            T::fits(self.x.lift() + s.lift()),
            T::fits(self.y.lift() + s.lift()),
            T::fits(self.z.lift() + s.lift()),
            T::fits(self.w.lift() + s.lift()),
        ensures
            r.lift4() == add4s(self.lift4(), s.lift()),
    {
        Vec4 {
            x: self.x.add_el(s),
            y: self.y.add_el(s),
            z: self.z.add_el(s),
            w: self.w.add_el(s),
        }
    }

    /// The scalar subtracted from each component.
    pub fn sub_scalar(self, s: T) -> (r: Self)
        requires
            T::fits(self.x.lift() - s.lift()),
            T::fits(self.y.lift() - s.lift()),
            T::fits(self.z.lift() - s.lift()),
            T::fits(self.w.lift() - s.lift()),
        ensures
            r.lift4() == sub4s(self.lift4(), s.lift()),
    {
        Vec4 {
            x: self.x.sub_el(s),
            y: self.y.sub_el(s),
            z: self.z.sub_el(s),
            w: self.w.sub_el(s),
        }
    }

    /// Each component multiplied by the scalar.
    pub fn mul_scalar(self, s: T) -> (r: Self)
        requires
            T::fits(self.x.lift() * s.lift()),
            T::fits(self.y.lift() * s.lift()),
            T::fits(self.z.lift() * s.lift()),
            T::fits(self.w.lift() * s.lift()),
        ensures
            r.lift4() == mul4s(self.lift4(), s.lift()),
    {
        Vec4 {
            x: self.x.mul_el(s),
            y: self.y.mul_el(s),
            z: self.z.mul_el(s),
            w: self.w.mul_el(s),
        }
    }

    /// Each component divided (truncating) by the non-zero scalar.
    pub fn div_scalar(self, s: T) -> (r: Self)
        requires
            s.lift() != 0,
            T::fits(trunc_div(self.x.lift(), s.lift())),
            T::fits(trunc_div(self.y.lift(), s.lift())),
            T::fits(trunc_div(self.z.lift(), s.lift())),
            T::fits(trunc_div(self.w.lift(), s.lift())),
        ensures
            r.lift4() == div4s(self.lift4(), s.lift()),
    {
        Vec4 {
            x: self.x.div_el(s),
            y: self.y.div_el(s),
            z: self.z.div_el(s),
            w: self.w.div_el(s),
        }
    }

    /// Each field with its name, one per line, in declared order.
    pub fn to_display_string(&self) -> (r: String)
        ensures
            r@ == shown4(*self),
    {
        let mut s = String::from_str("x: ");
        let xs = self.x.show();
        s.append(xs.as_str());
        s.append("\ny: ");
        let ys = self.y.show();
        s.append(ys.as_str());
        s.append("\nz: ");
        let zs = self.z.show();
        s.append(zs.as_str());
        s.append("\nw: ");
        let ws = self.w.show();
        s.append(ws.as_str());
        s
    }
}

/// A 4D vector is determined by its quadruple of component values.
pub proof fn lemma_vec4_lift_determines<T: Element>(a: Vec4<T>, b: Vec4<T>)
    requires
        a.lift4() == b.lift4(),
    ensures
        a == b,
{
    T::lift_inj(a.x, b.x);
    T::lift_inj(a.y, b.y);
    T::lift_inj(a.z, b.z);
    T::lift_inj(a.w, b.w);
}

/// Addition of 4D vectors is commutative: a sum of `a` and `b` equals a sum
/// of `b` and `a`.
pub proof fn lemma_vec4_add_comm<T: Element>(a: Vec4<T>, b: Vec4<T>, ab: Vec4<T>, ba: Vec4<T>)
    requires
        ab.lift4() == add4(a.lift4(), b.lift4()),
        ba.lift4() == add4(b.lift4(), a.lift4()),
    ensures
        ab == ba,
{
    lemma_vec4_lift_determines(ab, ba);
}

/// Addition of 4D vectors is associative: `(a + b) + c` equals `a + (b + c)`.
pub proof fn lemma_vec4_add_assoc<T: Element>(
    a: Vec4<T>,
    b: Vec4<T>,
    c: Vec4<T>,
    ab: Vec4<T>,
    ab_c: Vec4<T>,
    bc: Vec4<T>,
    a_bc: Vec4<T>,
)
    requires
        ab.lift4() == add4(a.lift4(), b.lift4()),
        ab_c.lift4() == add4(ab.lift4(), c.lift4()),
        bc.lift4() == add4(b.lift4(), c.lift4()),
        a_bc.lift4() == add4(a.lift4(), bc.lift4()),
    ensures
        ab_c == a_bc,
{
    lemma_vec4_lift_determines(ab_c, a_bc);
}

/// Adding the zero vector changes nothing: `a + zero() == a`.
pub proof fn lemma_vec4_add_zero<T: Element>(a: Vec4<T>, z: Vec4<T>, az: Vec4<T>)
    requires
        z.lift4() == (0int, 0int, 0int, 0int),
        az.lift4() == add4(a.lift4(), z.lift4()),
    ensures
        az == a,
{
    lemma_vec4_lift_determines(az, a);
}

/// Subtracting a vector from itself gives the zero vector: `a - a == zero()`.
pub proof fn lemma_vec4_sub_self<T: Element>(a: Vec4<T>, d: Vec4<T>, z: Vec4<T>)
    requires
        d.lift4() == sub4(a.lift4(), a.lift4()),
        z.lift4() == (0int, 0int, 0int, 0int),
    ensures
        d == z,
{
    lemma_vec4_lift_determines(d, z);
}

/// The dot product is commutative: `a.dot(b) == b.dot(a)`.
pub proof fn lemma_vec4_dot_comm<T: Element>(a: Vec4<T>, b: Vec4<T>, r1: T, r2: T)
    requires
        r1.lift() == dot4(a.lift4(), b.lift4()),
        r2.lift() == dot4(b.lift4(), a.lift4()),
    ensures
        r1 == r2,
{
    T::lift_inj(r1, r2);
}

/// Multiplying by a non-zero scalar and then dividing by it returns the
/// original vector: `(a * s) / s == a`.
pub proof fn lemma_vec4_scale_div_roundtrip<T: Element>(a: Vec4<T>, s: T, m: Vec4<T>, q: Vec4<T>)
    requires
        s.lift() != 0,
        m.lift4() == mul4s(a.lift4(), s.lift()),
        q.lift4() == div4s(m.lift4(), s.lift()),
    ensures
        q == a,
{
    lemma_trunc_div_cancel(a.lift4().0, s.lift());
    lemma_trunc_div_cancel(a.lift4().1, s.lift());
    lemma_trunc_div_cancel(a.lift4().2, s.lift());
    lemma_trunc_div_cancel(a.lift4().3, s.lift());
    lemma_vec4_lift_determines(q, a);
}

} // verus!
