//! Integer scalars: their mathematical model, the laws that tie their
//! operators to it, and their numeric capabilities.

use vstd::prelude::*;
use core::cmp::Ordering;
use core::num::ParseIntError;
use core::ops::Add;
use core::ops::Div;
use core::ops::Mul;
use core::ops::Neg;
use core::ops::Rem;
use core::ops::Sub;
use vstd::std_specs::cmp::PartialEqSpec;
use vstd::std_specs::cmp::PartialOrdSpec;
use vstd::std_specs::ops::AddSpec;
use vstd::std_specs::ops::DivSpec;
use vstd::std_specs::ops::MulSpec;
use vstd::std_specs::ops::NegSpec;
use vstd::std_specs::ops::RemSpec;
use vstd::std_specs::ops::SubSpec;
use crate::text::parsed;
use crate::text::decimal;

verus! {

/// How the integer `a` stands to the integer `b`.
pub open spec fn order_of(a: int, b: int) -> Ordering {
    if a < b {
        Ordering::Less
    } else if a == b {
        Ordering::Equal
    } else {
        Ordering::Greater
    }
}

/// `a` divided by `b`, rounded toward zero.
pub open spec fn quotient(a: int, b: int) -> int {
    if a >= 0 {
        a / b
    } else {
        -((-a) / b)
    }
}

/// What is left of `a` after `quotient(a, b)` times `b`; it has the sign of `a`.
pub open spec fn remainder(a: int, b: int) -> int {
    if a >= 0 {
        a % b
    } else {
        -((-a) % b)
    }
}

/// The quotient is no farther from zero than the dividend, and nearer where
/// the divisor is neither 1 nor -1; its sign is that of the exact ratio.
pub proof fn lemma_quotient_bounds(a: int, b: int)
    requires
        b != 0,
    ensures
        a >= 0 && b > 0 ==> 0 <= quotient(a, b) <= a,
        a >= 0 && b < 0 ==> -a <= quotient(a, b) <= 0,
        a <= 0 && b > 0 ==> a <= quotient(a, b) <= 0,
        a <= 0 && b < 0 ==> 0 <= quotient(a, b) <= -a,
        a < 0 && b < -1 ==> quotient(a, b) < -a,
{
    let x = if a >= 0 {
        a
    } else {
        -a
    };
    assert(b > 0 ==> 0 <= x / b <= x) by (nonlinear_arith)
        requires
            x >= 0,
    ;
    assert(b < 0 ==> -x <= x / b <= 0) by (nonlinear_arith)
        requires
            x >= 0,
    ;
    assert(b < -1 && x > 0 ==> -x < x / b) by (nonlinear_arith)
        requires
            x >= 0,
    ;
}

/// The mathematical model of an integer scalar type.
pub trait Model: Sized {
    /// The integer that the scalar stands for.
    spec fn value(self) -> int;

    /// The least integer that the type can hold.
    spec fn lowest() -> int;

    /// The greatest integer that the type can hold.
    spec fn highest() -> int;
}

/// Whether the scalar type `S` has a value that stands for `v`.
pub open spec fn in_range<S: Model>(v: int) -> bool {
    S::lowest() <= v <= S::highest()
}

/// A scalar that stands for a mathematical integer of a bounded range.
///
/// The proof functions tie the scalar's operators to its model, and the
/// executable functions are the numeric capabilities of the scalar, each
/// stated over the model.
pub trait Integer: Model + Copy + PartialEq + PartialOrd + Add<Output = Self> + Sub<
    Output = Self,
> + Mul<Output = Self> + Div<Output = Self> + Rem<Output = Self> {
    /// Every scalar stands for an integer of the range, and for one only.
    proof fn lemma_value(a: Self, b: Self)
        ensures
            in_range::<Self>(a.value()),
            a.value() == b.value() ==> a == b,
    ;

    /// `+`, `-` and `*` are defined where the exact result is in range, and
    /// give it.
    proof fn lemma_ring(a: Self, b: Self)
        ensures
            Self::obeys_add_spec(),
            a.add_req(b) <==> in_range::<Self>(a.value() + b.value()),
            a.add_req(b) ==> a.add_spec(b).value() == a.value() + b.value(),
            Self::obeys_sub_spec(),
            a.sub_req(b) <==> in_range::<Self>(a.value() - b.value()),
            a.sub_req(b) ==> a.sub_spec(b).value() == a.value() - b.value(),
            Self::obeys_mul_spec(),
            a.mul_req(b) <==> in_range::<Self>(a.value() * b.value()),
            a.mul_req(b) ==> a.mul_spec(b).value() == a.value() * b.value(),
    ;

    /// `/` and `%` are defined where the divisor is not zero and the quotient
    /// is in range, and round toward zero.
    proof fn lemma_division(a: Self, b: Self)
        ensures
            Self::obeys_div_spec(),
            a.div_req(b) <==> b.value() != 0 && in_range::<Self>(quotient(a.value(), b.value())),
            a.div_req(b) ==> a.div_spec(b).value() == quotient(a.value(), b.value()),
            Self::obeys_rem_spec(),
            a.rem_req(b) <==> a.div_req(b),
            a.rem_req(b) ==> a.rem_spec(b).value() == remainder(a.value(), b.value()),
    ;

    /// `==` and the ordering are those of the integers.
    proof fn lemma_order(a: Self, b: Self)
        ensures
            Self::obeys_eq_spec(),
            a.eq_spec(&b) <==> a.value() == b.value(),
            Self::obeys_partial_cmp_spec(),
            a.partial_cmp_spec(&b) == Some(order_of(a.value(), b.value())),
    ;

    /// The scalar that stands for 0.
    fn zero() -> (r: Self)
        ensures
            r.value() == 0,
    ;

    /// Whether the scalar stands for 0.
    fn is_zero(&self) -> (r: bool)
        ensures
            r == (self.value() == 0),
    ;

    /// The scalar that stands for 1.
    fn one() -> (r: Self)
        ensures
            r.value() == 1,
    ;

    /// The least value of the type.
    fn min_value() -> (r: Self)
        ensures
            r.value() == Self::lowest(),
    ;

    /// The greatest value of the type.
    fn max_value() -> (r: Self)
        ensures
            r.value() == Self::highest(),
    ;

    /// The value as an `i8`, if an `i8` can hold it.
    fn to_i8(&self) -> (r: Option<i8>)
        ensures
            r == (if i8::MIN <= self.value() <= i8::MAX {
                Some(self.value() as i8)
            } else {
                None
            }),
    ;

    /// The value as an `i16`, if an `i16` can hold it.
    fn to_i16(&self) -> (r: Option<i16>)
        ensures
            r == (if i16::MIN <= self.value() <= i16::MAX {
                Some(self.value() as i16)
            } else {
                None
            }),
    ;

    /// The value as an `i32`, if an `i32` can hold it.
    fn to_i32(&self) -> (r: Option<i32>)
        ensures
            r == (if i32::MIN <= self.value() <= i32::MAX {
                Some(self.value() as i32)
            } else {
                None
            }),
    ;

    /// The value as an `i64`, if an `i64` can hold it.
    fn to_i64(&self) -> (r: Option<i64>)
        ensures
            r == (if i64::MIN <= self.value() <= i64::MAX {
                Some(self.value() as i64)
            } else {
                None
            }),
    ;

    /// The value as an `i128`, if an `i128` can hold it.
    fn to_i128(&self) -> (r: Option<i128>)
        ensures
            r == (if i128::MIN <= self.value() <= i128::MAX {
                Some(self.value() as i128)
            } else {
                None
            }),
    ;

    /// The value as an `isize`, if an `isize` can hold it.
    fn to_isize(&self) -> (r: Option<isize>)
        ensures
            r == (if isize::MIN <= self.value() <= isize::MAX {
                Some(self.value() as isize)
            } else {
                None
            }),
    ;

    /// The value as a `u8`, if a `u8` can hold it.
    fn to_u8(&self) -> (r: Option<u8>)
        ensures
            r == (if 0 <= self.value() <= u8::MAX {
                Some(self.value() as u8)
            } else {
                None
            }),
    ;

    /// The value as a `u16`, if a `u16` can hold it.
    fn to_u16(&self) -> (r: Option<u16>)
        ensures
            r == (if 0 <= self.value() <= u16::MAX {
                Some(self.value() as u16)
            } else {
                None
            }),
    ;

    /// The value as a `u32`, if a `u32` can hold it.
    fn to_u32(&self) -> (r: Option<u32>)
        ensures
            r == (if 0 <= self.value() <= u32::MAX {
                Some(self.value() as u32)
            } else {
                None
            }),
    ;

    /// The value as a `u64`, if a `u64` can hold it.
    fn to_u64(&self) -> (r: Option<u64>)
        ensures
            r == (if 0 <= self.value() <= u64::MAX {
                Some(self.value() as u64)
            } else {
                None
            }),
    ;

    /// The value as a `u128`, if a `u128` can hold it.
    fn to_u128(&self) -> (r: Option<u128>)
        ensures
            r == (if 0 <= self.value() <= u128::MAX {
                Some(self.value() as u128)
            } else {
                None
            }),
    ;

    /// The value as a `usize`, if a `usize` can hold it.
    fn to_usize(&self) -> (r: Option<usize>)
        ensures
            r == (if 0 <= self.value() <= usize::MAX {
                Some(self.value() as usize)
            } else {
                None
            }),
    ;

    /// The scalar that stands for `n`, if there is one.
    fn from_i64(n: i64) -> (r: Option<Self>)
        ensures
            in_range::<Self>(n as int) <==> r is Some,
            r matches Some(v) ==> v.value() == n,
    ;

    /// The scalar that stands for `n`, if there is one.
    fn from_u64(n: u64) -> (r: Option<Self>)
        ensures
            in_range::<Self>(n as int) <==> r is Some,
            r matches Some(v) ==> v.value() == n,
    ;

    /// Reads `text` as digits of the base `radix` behind an optional sign.
    fn from_str_radix(text: &str, radix: u32) -> (r: Result<Self, ParseIntError>)
        requires
            2 <= radix <= 36,
        ensures
            match r {
                Ok(v) => parsed(text@, radix, Self::lowest(), Self::highest()) == Some(v.value()),
                Err(_) => parsed(text@, radix, Self::lowest(), Self::highest()) is None,
            },
    ;

    /// Reads `text` as decimal digits behind an optional sign.
    fn parse(text: &str) -> (r: Result<Self, ParseIntError>)
        ensures
            match r {
                Ok(v) => parsed(text@, 10, Self::lowest(), Self::highest()) == Some(v.value()),
                Err(_) => parsed(text@, 10, Self::lowest(), Self::highest()) is None,
            },
    ;

    /// The value in decimal digits, behind `-` where it is negative.
    fn to_text(&self) -> (r: String)
        ensures
            r@ == decimal(self.value()),
    ;
}

/// An integer scalar that the value of any other can be cast to.
pub trait NumCast: Integer {
    /// The scalar that stands for the value of `n`, whatever integer type
    /// `n` has, if there is one.
    fn from<N: Integer>(n: N) -> (r: Option<Self>)
        ensures
            in_range::<Self>(n.value()) <==> r is Some,
            r matches Some(v) ==> v.value() == n.value(),
    ;
}

/// An integer scalar of a type that holds negative values too.
pub trait Signed: Integer + Neg<Output = Self> {
    /// Negation is defined where the exact result is in range, and gives it;
    /// the type holds -1.
    proof fn lemma_negation(a: Self)
        ensures
            Self::lowest() < 0,
            Self::obeys_neg_spec(),
            a.neg_req() <==> in_range::<Self>(-a.value()),
            a.neg_req() ==> a.neg_spec().value() == -a.value(),
    ;

    /// The absolute value.
    fn abs(&self) -> (r: Self)
        requires
            in_range::<Self>(-self.value()),
        ensures
            r.value() == (if self.value() < 0 {
                -self.value()
            } else {
                self.value()
            }),
    ;

    /// By how much `self` exceeds `other`; 0 where it does not.
    fn abs_sub(&self, other: &Self) -> (r: Self)
        requires
            self.value() > other.value() ==> in_range::<Self>(self.value() - other.value()),
        ensures
            r.value() == (if self.value() <= other.value() {
                0
            } else {
                self.value() - other.value()
            }),
    ;

    /// 1, 0 or -1, as the value is above, at or below 0.
    fn signum(&self) -> (r: Self)
        ensures
            r.value() == (if self.value() > 0 {
                1int
            } else if self.value() == 0 {
                0int
            } else {
                -1int
            }),
    ;

    /// Whether the value is above 0.
    fn is_positive(&self) -> (r: bool)
        ensures
            r == (self.value() > 0),
    ;

    /// Whether the value is below 0.
    fn is_negative(&self) -> (r: bool)
        ensures
            r == (self.value() < 0),
    ;
}

/// An integer scalar with the total order that geometric predicates use.
pub trait TotalOrder: Integer {
    /// How `self` stands to `other`.
    fn total_cmp(&self, other: &Self) -> (r: Ordering)
        ensures
            r == order_of(self.value(), other.value()),
    ;
}

} // verus!
