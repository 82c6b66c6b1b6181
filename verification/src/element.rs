//! The numeric element abstraction: any type usable as a vector component.
//!
//! An element type supplies the four arithmetic operators, the additive
//! identity, cheap duplication (`Copy`), and a decimal rendering. Each
//! operation is specified against the element's mathematical value, so the
//! vector operations built on top can state their results exactly.

use vstd::prelude::*;
use vstd::string::StringExecFns;

verus! {

/// Truncating integer division, the semantics of `/` on machine integers:
/// the quotient is rounded toward zero.
pub open spec fn trunc_div(x: int, d: int) -> int
    recommends
        d != 0,
{
    if x == 0 {
        0
    } else if x > 0 && d > 0 {
        x / d
    } else if x < 0 && d < 0 {
        (-x) / (-d)
    } else if x < 0 {
        -((-x) / d)
    } else {
        -(x / (-d))
    }
}

/// Multiplying by a non-zero factor and then dividing by it (truncating)
/// gives back the original value, for every integer and every non-zero
/// factor: the product is always exactly divisible.
pub proof fn lemma_trunc_div_cancel(x: int, s: int)
    requires
        s != 0,
    ensures
        trunc_div(x * s, s) == x,
{
    if x == 0 {
        assert(x * s == 0);
    } else if x > 0 && s > 0 {
        assert(x * s > 0) by (nonlinear_arith)
            requires
                x > 0 && s > 0,
        ;
        assert(x * s == s * x) by (nonlinear_arith);
        vstd::arithmetic::div_mod::lemma_div_multiples_vanish(x, s);
    } else if x < 0 && s < 0 {
        assert(x * s > 0) by (nonlinear_arith)
            requires
                x < 0 && s < 0,
        ;
        assert(x * s == (-s) * (-x)) by (nonlinear_arith);
        vstd::arithmetic::div_mod::lemma_div_multiples_vanish(-x, -s);
    } else if x < 0 {
        assert(x * s < 0) by (nonlinear_arith)
            requires
                x < 0 && s > 0,
        ;
        assert(-(x * s) == s * (-x)) by (nonlinear_arith);
        vstd::arithmetic::div_mod::lemma_div_multiples_vanish(-x, s);
    } else {
        assert(x * s < 0) by (nonlinear_arith)
            requires
                x > 0 && s < 0,
        ;
        assert(-(x * s) == (-s) * x) by (nonlinear_arith);
        vstd::arithmetic::div_mod::lemma_div_multiples_vanish(x, -s);
    }
}

/// The character for a single decimal digit.
pub open spec fn digit_char(d: int) -> char
    recommends
        0 <= d < 10,
{
    if d == 0 {
        '0'
    } else if d == 1 {
        '1'
    } else if d == 2 {
        '2'
    } else if d == 3 {
        '3'
    } else if d == 4 {
        '4'
    } else if d == 5 {
        '5'
    } else if d == 6 {
        '6'
    } else if d == 7 {
        '7'
    } else if d == 8 {
        '8'
    } else {
        '9'
    }
}

/// The decimal digits of a natural number, most significant first, with no
/// leading zero except for the number zero itself.
pub open spec fn dec_digits(n: nat) -> Seq<char>
    decreases n,
{
    if n < 10 {
        seq![digit_char(n as int)]
    } else {
        dec_digits(n / 10).push(digit_char((n % 10) as int))
    }
}

/// The one-character string for a single decimal digit.
fn digit_str(d: u64) -> (s: &'static str)
    requires
        d < 10,
    ensures
        s@ == seq![digit_char(d as int)],
{
    let s: &'static str = if d == 0 {
        "0"
    } else if d == 1 {
        "1"
    } else if d == 2 {
        "2"
    } else if d == 3 {
        "3"
    } else if d == 4 {
        "4"
    } else if d == 5 {
        "5"
    } else if d == 6 {
        "6"
    } else if d == 7 {
        "7"
    } else if d == 8 {
        "8"
    } else {
        "9"
    };
    proof {
        reveal_strlit("0");
        reveal_strlit("1");
        reveal_strlit("2");
        reveal_strlit("3");
        reveal_strlit("4");
        reveal_strlit("5");
        reveal_strlit("6");
        reveal_strlit("7");
        reveal_strlit("8");
        reveal_strlit("9");
        assert(s@ =~= seq![digit_char(d as int)]);
    }
    s
}

/// The decimal text of an unsigned machine integer.
fn u64_dec(n: u64) -> (s: String)
    ensures
        s@ == dec_digits(n as nat),
    decreases n,
{
    if n < 10 {
        String::from_str(digit_str(n))
    } else {
        let mut s = u64_dec(n / 10);
        s.append(digit_str(n % 10));
        s
    }
}

/// A numeric type that can serve as a vector component.
///
/// `lift` maps an element to the mathematical integer it stands for, and
/// `fits` says which mathematical values the type can represent. The
/// arithmetic methods are exact on representable results; behaviour outside
/// that range (overflow, division by zero) is excluded by their
/// preconditions rather than silently redefined.
pub trait Element: Copy + Sized {
    /// The mathematical value of this element.
    spec fn lift(self) -> int;

    /// Whether the mathematical value `v` is representable by this type.
    spec fn fits(v: int) -> bool;

    /// The decimal text of this element.
    spec fn shown(self) -> Seq<char>;

    /// Two elements with the same mathematical value are the same element.
    proof fn lift_inj(a: Self, b: Self)
        requires
            a.lift() == b.lift(),
        ensures
            a == b,
    ;

    /// Exact addition; the sum must be representable.
    fn add_el(self, other: Self) -> (r: Self)
        requires
            Self::fits(self.lift() + other.lift()),
        ensures
            r.lift() == self.lift() + other.lift(),
    ;

    /// Exact subtraction; the difference must be representable.
    fn sub_el(self, other: Self) -> (r: Self)
        requires
            Self::fits(self.lift() - other.lift()),
        ensures
            r.lift() == self.lift() - other.lift(),
    ;

    /// Exact multiplication; the product must be representable.
    fn mul_el(self, other: Self) -> (r: Self)
        requires
            Self::fits(self.lift() * other.lift()),
        ensures
            r.lift() == self.lift() * other.lift(),
    ;

    /// Truncating division; the divisor must be non-zero and the quotient
    /// representable.
    fn div_el(self, other: Self) -> (r: Self)
        requires
            other.lift() != 0,
            Self::fits(trunc_div(self.lift(), other.lift())),
        ensures
            r.lift() == trunc_div(self.lift(), other.lift()),
    ;

    /// The additive identity.
    fn zero_el() -> (r: Self)
        ensures
            r.lift() == 0,
    ;

    /// The decimal rendering of this element.
    fn show(self) -> (r: String)
        ensures
            r@ == self.shown(),
    ;
}

impl Element for u64 {
    open spec fn lift(self) -> int {
        self as int
    }

    open spec fn fits(v: int) -> bool {
        0 <= v <= u64::MAX
    }

    open spec fn shown(self) -> Seq<char> {
        dec_digits(self as nat)
    }

    proof fn lift_inj(a: u64, b: u64) {
    }

    fn add_el(self, other: u64) -> (r: u64) {
        self + other
    }

    fn sub_el(self, other: u64) -> (r: u64) {
        self - other
    }

    fn mul_el(self, other: u64) -> (r: u64) {
        self * other
    }

    fn div_el(self, other: u64) -> (r: u64) {
        self / other
    }

    fn zero_el() -> (r: u64) {
        0
    }

    fn show(self) -> (r: String) {
        u64_dec(self)
    }
}

impl Element for i64 {
    open spec fn lift(self) -> int {
        self as int
    }

    open spec fn fits(v: int) -> bool {
        i64::MIN <= v <= i64::MAX
    }

    open spec fn shown(self) -> Seq<char> {
        if self >= 0 {
            dec_digits(self as nat)
        } else {
            "-"@ + dec_digits((-(self as int)) as nat)
        }
    }

    proof fn lift_inj(a: i64, b: i64) {
    }

    fn add_el(self, other: i64) -> (r: i64) {
        self + other
    }

    fn sub_el(self, other: i64) -> (r: i64) {
        self - other
    }

    fn mul_el(self, other: i64) -> (r: i64) {
        self * other
    }

    fn div_el(self, other: i64) -> (r: i64) {
        let q = self.checked_div(other);
        proof {
            assert(q == Some(trunc_div(self as int, other as int) as i64));
        }
        q.unwrap()
    }

    fn zero_el() -> (r: i64) {
        0
    }

    fn show(self) -> (r: String) {
        if self >= 0 {
            u64_dec(self as u64)
        } else {
            let m: u64 = (-(self as i128)) as u64;
            let mut s = String::from_str("-");
            let tail = u64_dec(m);
            s.append(tail.as_str());
            s
        }
    }
}

} // verus!
