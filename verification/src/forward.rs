//! A labelled integer scalar is an integer scalar: it has the model and
//! every capability of the scalar it holds.

use vstd::prelude::*;
use core::cmp::Ordering;
use core::num::ParseIntError;
use core::str::FromStr;
use crate::integer::Integer;
use crate::integer::Model;
use crate::integer::NumCast;
use crate::integer::Signed;
use crate::integer::TotalOrder;
use crate::num::Num;
use crate::text::decimal;
use crate::text::parsed;

verus! {

impl<Scalar: Model, Type> Model for Num<Scalar, Type> {
    open spec fn value(self) -> int {
        self.0.value()
    }

    open spec fn lowest() -> int {
        Scalar::lowest()
    }

    open spec fn highest() -> int {
        Scalar::highest()
    }
}

impl<Scalar: Integer, Type> Integer for Num<Scalar, Type> {
    proof fn lemma_value(a: Self, b: Self) {
        Scalar::lemma_value(a.0, b.0);
    }

    proof fn lemma_ring(a: Self, b: Self) {
        Scalar::lemma_ring(a.0, b.0);
    }

    proof fn lemma_division(a: Self, b: Self) {
        Scalar::lemma_division(a.0, b.0);
    }

    proof fn lemma_order(a: Self, b: Self) {
        Scalar::lemma_order(a.0, b.0);
    }

    fn zero() -> Self {
        Num::new(Scalar::zero())
    }

    fn is_zero(&self) -> bool {
        self.0.is_zero()
    }

    fn one() -> Self {
        Num::new(Scalar::one())
    }

    fn min_value() -> Self {
        Num::new(Scalar::min_value())
    }

    fn max_value() -> Self {
        Num::new(Scalar::max_value())
    }

    fn to_i8(&self) -> Option<i8> {
        self.0.to_i8()
    }

    fn to_i16(&self) -> Option<i16> {
        self.0.to_i16()
    }

    fn to_i32(&self) -> Option<i32> {
        self.0.to_i32()
    }

    fn to_i64(&self) -> Option<i64> {
        self.0.to_i64()
    }

    fn to_i128(&self) -> Option<i128> {
        self.0.to_i128()
    }

    fn to_isize(&self) -> Option<isize> {
        self.0.to_isize()
    }

    fn to_u8(&self) -> Option<u8> {
        self.0.to_u8()
    }

    fn to_u16(&self) -> Option<u16> {
        self.0.to_u16()
    }

    fn to_u32(&self) -> Option<u32> {
        self.0.to_u32()
    }

    fn to_u64(&self) -> Option<u64> {
        self.0.to_u64()
    }

    fn to_u128(&self) -> Option<u128> {
        self.0.to_u128()
    }

    fn to_usize(&self) -> Option<usize> {
        self.0.to_usize()
    }

    fn from_i64(n: i64) -> Option<Self> {
        match Scalar::from_i64(n) {
            Some(v) => Some(Num::new(v)),
            None => None,
        }
    }

    fn from_u64(n: u64) -> Option<Self> {
        match Scalar::from_u64(n) {
            Some(v) => Some(Num::new(v)),
            None => None,
        }
    }

    fn from_str_radix(text: &str, radix: u32) -> Result<Self, ParseIntError> {
        match Scalar::from_str_radix(text, radix) {
            Ok(v) => Ok(Num::new(v)),
            Err(e) => Err(e),
        }
    }

    fn parse(text: &str) -> Result<Self, ParseIntError> {
        match Scalar::parse(text) {
            Ok(v) => Ok(Num::new(v)),
            Err(e) => Err(e),
        }
    }

    fn to_text(&self) -> String {
        self.0.to_text()
    }
}

impl<Scalar: Integer, Type> FromStr for Num<Scalar, Type> {
    type Err = ParseIntError;

    /// Reads `text` as the scalar's own parser does, and wraps what it gives.
    fn from_str(text: &str) -> (r: Result<Self, ParseIntError>)
        ensures
            match r {
                Ok(n) => parsed(text@, 10, Scalar::lowest(), Scalar::highest()) == Some(
                    n.0.value(),
                ),
                Err(_) => parsed(text@, 10, Scalar::lowest(), Scalar::highest()) is None,
            },
    {
        match Scalar::parse(text) {
            Ok(v) => Ok(Num::new(v)),
            Err(e) => Err(e),
        }
    }
}

impl<Scalar: Integer, Type> Num<Scalar, Type> {
    /// The text that the scalar's own formatter gives; the label leaves no
    /// trace in it.
    pub fn to_string(&self) -> (r: String)
        ensures
            r@ == decimal(self.0.value()),
    {
        self.0.to_text()
    }
}

impl<Scalar: NumCast, Type> NumCast for Num<Scalar, Type> {
    fn from<N: Integer>(n: N) -> Option<Self> {
        match <Scalar as NumCast>::from(n) {
            Some(v) => Some(Num::new(v)),
            None => None,
        }
    }
}

impl<Scalar: Signed, Type> Signed for Num<Scalar, Type> {
    proof fn lemma_negation(a: Self) {
        Scalar::lemma_negation(a.0);
    }

    fn abs(&self) -> Self {
        Num::new(self.0.abs())
    }

    fn abs_sub(&self, other: &Self) -> Self {
        Num::new(self.0.abs_sub(&other.0))
    }

    fn signum(&self) -> Self {
        Num::new(self.0.signum())
    }

    fn is_positive(&self) -> bool {
        self.0.is_positive()
    }

    fn is_negative(&self) -> bool {
        self.0.is_negative()
    }
}

impl<Scalar: TotalOrder, Type> TotalOrder for Num<Scalar, Type> {
    fn total_cmp(&self, other: &Self) -> Ordering {
        self.0.total_cmp(&other.0)
    }
}

} // verus!
