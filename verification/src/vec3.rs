//! 3-component vectors over a generic numeric element type.
//!
//! Beside the elementwise and scalar operations shared with the other
//! arities, 3D vectors have the standard right-handed cross product, which
//! returns a vector.

use crate::element::{lemma_trunc_div_cancel, trunc_div, Element};
use vstd::prelude::*;
use vstd::string::StringExecFns;

verus! {

/// A generic 3D vector: three components of one numeric element type.
#[derive(Clone, Copy, PartialEq, Eq, Debug)]
pub struct Vec3<T: Element> {
    pub x: T,
    pub y: T,
    pub z: T,
}

/// Componentwise sum of two value triples.
pub open spec fn add3(a: (int, int, int), b: (int, int, int)) -> (int, int, int) {
    (a.0 + b.0, a.1 + b.1, a.2 + b.2)
}

/// Componentwise difference of two value triples.
pub open spec fn sub3(a: (int, int, int), b: (int, int, int)) -> (int, int, int) {
    (a.0 - b.0, a.1 - b.1, a.2 - b.2)
}

/// A scalar added to each component.
pub open spec fn add3s(a: (int, int, int), s: int) -> (int, int, int) {
    (a.0 + s, a.1 + s, a.2 + s)
}

/// A scalar subtracted from each component.
pub open spec fn sub3s(a: (int, int, int), s: int) -> (int, int, int) {
    (a.0 - s, a.1 - s, a.2 - s)
}

/// Each component multiplied by a scalar.
pub open spec fn mul3s(a: (int, int, int), s: int) -> (int, int, int) {
    (a.0 * s, a.1 * s, a.2 * s)
}

/// Each component divided (truncating) by a scalar.
pub open spec fn div3s(a: (int, int, int), s: int) -> (int, int, int) {
    (trunc_div(a.0, s), trunc_div(a.1, s), trunc_div(a.2, s))
}

/// Dot product of two value triples.
pub open spec fn dot3(a: (int, int, int), b: (int, int, int)) -> int {
    a.0 * b.0 + a.1 * b.1 + a.2 * b.2
}

/// Right-handed cross product of two value triples.
pub open spec fn cross3(a: (int, int, int), b: (int, int, int)) -> (int, int, int) {
    (a.1 * b.2 - a.2 * b.1, a.2 * b.0 - a.0 * b.2, a.0 * b.1 - a.1 * b.0)
}

/// Componentwise negation of a value triple.
pub open spec fn neg3(a: (int, int, int)) -> (int, int, int) {
    (-a.0, -a.1, -a.2)
}

/// The rendering of a 3D vector: each field with its name, in declared order.
pub open spec fn shown3<T: Element>(v: Vec3<T>) -> Seq<char> {
    "x: "@ + v.x.shown() + "\ny: "@ + v.y.shown() + "\nz: "@ + v.z.shown()
}

impl<T: Element> Vec3<T> {
    /// The triple of mathematical component values.
    pub open spec fn lift3(self) -> (int, int, int) {
        (self.x.lift(), self.y.lift(), self.z.lift())
    }

    /// Create a 3D vector with the given XYZ values.
    pub fn new(x: T, y: T, z: T) -> (r: Self)
        ensures
            r.x == x,
            r.y == y,
            r.z == z,
    {
        Vec3 { x, y, z }
    }

    /// Return the dot product of two 3D vectors: `x*x' + y*y' + z*z'`.
    pub fn dot(&self, rhs: &Vec3<T>) -> (r: T)
        requires
            T::fits(self.x.lift() * rhs.x.lift()),
            T::fits(self.y.lift() * rhs.y.lift()),
            T::fits(self.z.lift() * rhs.z.lift()),
            T::fits(self.x.lift() * rhs.x.lift() + self.y.lift() * rhs.y.lift()),
            T::fits(dot3(self.lift3(), rhs.lift3())),
        ensures
            r.lift() == dot3(self.lift3(), rhs.lift3()),
    {
        self.x.mul_el(rhs.x).add_el(self.y.mul_el(rhs.y)).add_el(self.z.mul_el(rhs.z))
    }

    /// Return the right-handed cross product of two 3D vectors:
    /// `(y*z' - z*y', z*x' - x*z', x*y' - y*x')`.
    pub fn cross(&self, rhs: &Vec3<T>) -> (r: Vec3<T>)
        requires
            T::fits(self.y.lift() * rhs.z.lift()),
            T::fits(self.z.lift() * rhs.y.lift()),
            T::fits(self.z.lift() * rhs.x.lift()),
            T::fits(self.x.lift() * rhs.z.lift()),
            T::fits(self.x.lift() * rhs.y.lift()),
            T::fits(self.y.lift() * rhs.x.lift()),
            T::fits(self.y.lift() * rhs.z.lift() - self.z.lift() * rhs.y.lift()),
            T::fits(self.z.lift() * rhs.x.lift() - self.x.lift() * rhs.z.lift()),
            T::fits(self.x.lift() * rhs.y.lift() - self.y.lift() * rhs.x.lift()),
        ensures
            r.lift3() == cross3(self.lift3(), rhs.lift3()),
    {
        Vec3 {
            x: self.y.mul_el(rhs.z).sub_el(self.z.mul_el(rhs.y)),
            y: self.z.mul_el(rhs.x).sub_el(self.x.mul_el(rhs.z)),
            z: self.x.mul_el(rhs.y).sub_el(self.y.mul_el(rhs.x)),
        }
    }

    /// The product of two 3D vectors, defined as their cross product.
    pub fn mul(self, other: Vec3<T>) -> (r: Vec3<T>)
        requires
            T::fits(self.y.lift() * other.z.lift()),
            T::fits(self.z.lift() * other.y.lift()),
            T::fits(self.z.lift() * other.x.lift()),
            T::fits(self.x.lift() * other.z.lift()),
            T::fits(self.x.lift() * other.y.lift()),
            T::fits(self.y.lift() * other.x.lift()),
            T::fits(self.y.lift() * other.z.lift() - self.z.lift() * other.y.lift()),
            T::fits(self.z.lift() * other.x.lift() - self.x.lift() * other.z.lift()),
            T::fits(self.x.lift() * other.y.lift() - self.y.lift() * other.x.lift()),
        ensures
            r.lift3() == cross3(self.lift3(), other.lift3()),
    {
        self.cross(&other)
    }

    /// Componentwise sum of two 3D vectors.
    pub fn add(self, other: Vec3<T>) -> (r: Self)
        requires
            T::fits(self.x.lift() + other.x.lift()),
            T::fits(self.y.lift() + other.y.lift()),
            T::fits(self.z.lift() + other.z.lift()),
        ensures
            r.lift3() == add3(self.lift3(), other.lift3()),
    {
        Vec3 {
            x: self.x.add_el(other.x),
            y: self.y.add_el(other.y),
            z: self.z.add_el(other.z),
        }
    }

    /// Componentwise difference of two 3D vectors.
    pub fn sub(self, other: Vec3<T>) -> (r: Self)
        requires
            T::fits(self.x.lift() - other.x.lift()),
            T::fits(self.y.lift() - other.y.lift()),
            T::fits(self.z.lift() - other.z.lift()),
        ensures
            r.lift3() == sub3(self.lift3(), other.lift3()),
    {
        Vec3 {
            x: self.x.sub_el(other.x),
            y: self.y.sub_el(other.y),
            z: self.z.sub_el(other.z),
        }
    }

    /// The scalar added to each component.
    pub fn add_scalar(self, s: T) -> (r: Self)
        requires
            T::fits(self.x.lift() + s.lift()),
            T::fits(self.y.lift() + s.lift()),
            T::fits(self.z.lift() + s.lift()),
        ensures
            r.lift3() == add3s(self.lift3(), s.lift()),
    {
        Vec3 { x: self.x.add_el(s), y: self.y.add_el(s), z: self.z.add_el(s) }
    }

    /// The scalar subtracted from each component.
    pub fn sub_scalar(self, s: T) -> (r: Self)
        requires
            T::fits(self.x.lift() - s.lift()),
            T::fits(self.y.lift() - s.lift()),
            T::fits(self.z.lift() - s.lift()),
        ensures
            r.lift3() == sub3s(self.lift3(), s.lift()),
    {
        Vec3 { x: self.x.sub_el(s), y: self.y.sub_el(s), z: self.z.sub_el(s) }
    }

    /// Each component multiplied by the scalar.
    pub fn mul_scalar(self, s: T) -> (r: Self)
        requires
            T::fits(self.x.lift() * s.lift()),
            T::fits(self.y.lift() * s.lift()),
            T::fits(self.z.lift() * s.lift()),
        ensures
            r.lift3() == mul3s(self.lift3(), s.lift()),
    {
        Vec3 { x: self.x.mul_el(s), y: self.y.mul_el(s), z: self.z.mul_el(s) }
    }

    /// Each component divided (truncating) by the non-zero scalar.
    pub fn div_scalar(self, s: T) -> (r: Self)
        requires
            s.lift() != 0,
            T::fits(trunc_div(self.x.lift(), s.lift())),
            T::fits(trunc_div(self.y.lift(), s.lift())),
            T::fits(trunc_div(self.z.lift(), s.lift())),
        ensures
            r.lift3() == div3s(self.lift3(), s.lift()),
    {
        Vec3 { x: self.x.div_el(s), y: self.y.div_el(s), z: self.z.div_el(s) }
    }

    /// Each field with its name, one per line, in declared order.
    pub fn to_display_string(&self) -> (r: String)
        ensures
            r@ == shown3(*self),
    {
        let mut s = String::from_str("x: ");
        let xs = self.x.show();
        s.append(xs.as_str());
        s.append("\ny: ");
        let ys = self.y.show();
        s.append(ys.as_str());
        s.append("\nz: ");
        let zs = self.z.show();
        s.append(zs.as_str());
        s
    }
}

/// A 3D vector is determined by its triple of component values.
pub proof fn lemma_vec3_lift_determines<T: Element>(a: Vec3<T>, b: Vec3<T>)
    requires
        a.lift3() == b.lift3(),
    ensures
        a == b,
{
    T::lift_inj(a.x, b.x);
    T::lift_inj(a.y, b.y);
    T::lift_inj(a.z, b.z);
}

/// Addition of 3D vectors is commutative: a sum of `a` and `b` equals a sum
/// of `b` and `a`.
pub proof fn lemma_vec3_add_comm<T: Element>(a: Vec3<T>, b: Vec3<T>, ab: Vec3<T>, ba: Vec3<T>)
    requires
        ab.lift3() == add3(a.lift3(), b.lift3()),
        ba.lift3() == add3(b.lift3(), a.lift3()),
    ensures
        ab == ba,
{
    lemma_vec3_lift_determines(ab, ba);
}

/// Addition of 3D vectors is associative: `(a + b) + c` equals `a + (b + c)`.
pub proof fn lemma_vec3_add_assoc<T: Element>(
    a: Vec3<T>,
    b: Vec3<T>,
    c: Vec3<T>,
    ab: Vec3<T>,
    ab_c: Vec3<T>,
    bc: Vec3<T>,
    a_bc: Vec3<T>,
)
    requires
        ab.lift3() == add3(a.lift3(), b.lift3()),
        ab_c.lift3() == add3(ab.lift3(), c.lift3()),
        bc.lift3() == add3(b.lift3(), c.lift3()),
        a_bc.lift3() == add3(a.lift3(), bc.lift3()),
    ensures
        ab_c == a_bc,
{
    lemma_vec3_lift_determines(ab_c, a_bc);
}

/// The dot product is commutative: `a.dot(b) == b.dot(a)`.
pub proof fn lemma_vec3_dot_comm<T: Element>(a: Vec3<T>, b: Vec3<T>, r1: T, r2: T)
    requires
        r1.lift() == dot3(a.lift3(), b.lift3()),
        r2.lift() == dot3(b.lift3(), a.lift3()),
    ensures
        r1 == r2,
{
    T::lift_inj(r1, r2);
}

/// The cross product is anti-commutative: `a.cross(b)` is the componentwise
/// negation of `b.cross(a)`.
pub proof fn lemma_vec3_cross_anticomm<T: Element>(a: Vec3<T>, b: Vec3<T>, ab: Vec3<T>, ba: Vec3<T>)
    requires
        ab.lift3() == cross3(a.lift3(), b.lift3()),
        ba.lift3() == cross3(b.lift3(), a.lift3()),
    ensures
        ab.lift3() == neg3(ba.lift3()),
{
}

/// The cross product of a vector with itself has every component zero.
pub proof fn lemma_vec3_cross_self<T: Element>(a: Vec3<T>, aa: Vec3<T>)
    requires
        aa.lift3() == cross3(a.lift3(), a.lift3()),
    ensures
        aa.lift3() == (0int, 0int, 0int),
{
}

/// Multiplying by a non-zero scalar and then dividing by it returns the
/// original vector: `(a * s) / s == a`.
pub proof fn lemma_vec3_scale_div_roundtrip<T: Element>(a: Vec3<T>, s: T, m: Vec3<T>, q: Vec3<T>)
    requires
        s.lift() != 0,
        m.lift3() == mul3s(a.lift3(), s.lift()),
        q.lift3() == div3s(m.lift3(), s.lift()),
    ensures
        q == a,
{
    lemma_trunc_div_cancel(a.lift3().0, s.lift());
    lemma_trunc_div_cancel(a.lift3().1, s.lift());
    lemma_trunc_div_cancel(a.lift3().2, s.lift());
    lemma_vec3_lift_determines(q, a);
}

} // verus!
