//! The numeric capabilities of the primitive integer types, as `num_traits`,
//! `geo` and std provide them. Nothing here is proved: each function calls
//! the other crate, and its contract says what that crate's code does.

use vstd::prelude::*;
use core::cmp::Ordering;
use core::num::ParseIntError;
use crate::integer::in_range;
use crate::integer::order_of;
use crate::integer::Model;
use crate::text::decimal;
use crate::text::parsed;

verus! {

/// The primitive integer types, `i8` to `i128`, `isize`, `u8` to `u128` and
/// `usize`, and no other type: what this file states of `num_traits`, `geo`
/// and std, it states of their impls for these.
pub(crate) trait Primitive: Model {

}

/// The error of std's integer parsers, carried through unread.
#[verifier::external_type_specification]
#[verifier::external_body]
pub struct ExParseIntError(ParseIntError);

/// `num_traits::Zero::zero` of a primitive integer type: the literal 0.
#[verifier::external_body]
pub(crate) fn zero<S: Primitive + num_traits::Zero>() -> (r: S)
    ensures
        r.value() == 0,
{
    <S as num_traits::Zero>::zero()
}

/// `num_traits::Zero::is_zero` of a primitive integer: a comparison with 0.
#[verifier::external_body]
pub(crate) fn is_zero<S: Primitive + num_traits::Zero>(s: &S) -> (r: bool)
    ensures
        r == (s.value() == 0),
{
    num_traits::Zero::is_zero(s)
}

/// `num_traits::One::one` of a primitive integer type: the literal 1.
#[verifier::external_body]
pub(crate) fn one<S: Primitive + num_traits::One>() -> (r: S)
    ensures
        r.value() == 1,
{
    <S as num_traits::One>::one()
}

/// `num_traits::Bounded::min_value` of a primitive integer type: its `MIN`.
#[verifier::external_body]
pub(crate) fn min_value<S: Primitive + num_traits::Bounded>() -> (r: S)
    ensures
        r.value() == S::lowest(),
{
    <S as num_traits::Bounded>::min_value()
}

/// `num_traits::Bounded::max_value` of a primitive integer type: its `MAX`.
#[verifier::external_body]
pub(crate) fn max_value<S: Primitive + num_traits::Bounded>() -> (r: S)
    ensures
        r.value() == S::highest(),
{
    <S as num_traits::Bounded>::max_value()
}

/// `num_traits::ToPrimitive::to_i8` of a primitive integer: the same number
/// where it lies between `i8::MIN` and `i8::MAX`, else `None`.
#[verifier::external_body]
pub(crate) fn to_i8<S: Primitive + num_traits::ToPrimitive>(s: &S) -> (r: Option<i8>)
    ensures
        r == (if i8::MIN <= s.value() <= i8::MAX {
            Some(s.value() as i8)
        } else {
            None
        }),
{
    num_traits::ToPrimitive::to_i8(s)
}

/// `num_traits::ToPrimitive::to_i16` of a primitive integer: the same number
/// where it lies between `i16::MIN` and `i16::MAX`, else `None`.
#[verifier::external_body]
pub(crate) fn to_i16<S: Primitive + num_traits::ToPrimitive>(s: &S) -> (r: Option<i16>)
    ensures
        r == (if i16::MIN <= s.value() <= i16::MAX {
            Some(s.value() as i16)
        } else {
            None
        }),
{
    num_traits::ToPrimitive::to_i16(s)
}

/// `num_traits::ToPrimitive::to_i32` of a primitive integer: the same number
/// where it lies between `i32::MIN` and `i32::MAX`, else `None`.
#[verifier::external_body]
pub(crate) fn to_i32<S: Primitive + num_traits::ToPrimitive>(s: &S) -> (r: Option<i32>)
    ensures
        r == (if i32::MIN <= s.value() <= i32::MAX {
            Some(s.value() as i32)
        } else {
            None
        }),
{
    num_traits::ToPrimitive::to_i32(s)
}

/// `num_traits::ToPrimitive::to_i64` of a primitive integer: the same number
/// where it lies between `i64::MIN` and `i64::MAX`, else `None`.
#[verifier::external_body]
pub(crate) fn to_i64<S: Primitive + num_traits::ToPrimitive>(s: &S) -> (r: Option<i64>)
    ensures
        r == (if i64::MIN <= s.value() <= i64::MAX {
            Some(s.value() as i64)
        } else {
            None
        }),
{
    num_traits::ToPrimitive::to_i64(s)
}

/// `num_traits::ToPrimitive::to_i128` of a primitive integer: the same number
/// where it lies between `i128::MIN` and `i128::MAX`, else `None`.
#[verifier::external_body]
pub(crate) fn to_i128<S: Primitive + num_traits::ToPrimitive>(s: &S) -> (r: Option<i128>)
    ensures
        r == (if i128::MIN <= s.value() <= i128::MAX {
            Some(s.value() as i128)
        } else {
            None
        }),
{
    num_traits::ToPrimitive::to_i128(s)
}

/// `num_traits::ToPrimitive::to_isize` of a primitive integer: the same
/// number where it lies between `isize::MIN` and `isize::MAX`, else `None`.
#[verifier::external_body]
pub(crate) fn to_isize<S: Primitive + num_traits::ToPrimitive>(s: &S) -> (r: Option<isize>)
    ensures
        r == (if isize::MIN <= s.value() <= isize::MAX {
            Some(s.value() as isize)
        } else {
            None
        }),
{
    num_traits::ToPrimitive::to_isize(s)
}

/// `num_traits::ToPrimitive::to_u8` of a primitive integer: the same number
/// where it lies between 0 and `u8::MAX`, else `None`.
#[verifier::external_body]
pub(crate) fn to_u8<S: Primitive + num_traits::ToPrimitive>(s: &S) -> (r: Option<u8>)
    ensures
        r == (if 0 <= s.value() <= u8::MAX {
            Some(s.value() as u8)
        } else {
            None
        }),
{
    num_traits::ToPrimitive::to_u8(s)
}

/// `num_traits::ToPrimitive::to_u16` of a primitive integer: the same number
/// where it lies between 0 and `u16::MAX`, else `None`.
#[verifier::external_body]
pub(crate) fn to_u16<S: Primitive + num_traits::ToPrimitive>(s: &S) -> (r: Option<u16>)
    ensures
        r == (if 0 <= s.value() <= u16::MAX {
            Some(s.value() as u16)
        } else {
            None
        }),
{
    num_traits::ToPrimitive::to_u16(s)
}

/// `num_traits::ToPrimitive::to_u32` of a primitive integer: the same number
/// where it lies between 0 and `u32::MAX`, else `None`.
#[verifier::external_body]
pub(crate) fn to_u32<S: Primitive + num_traits::ToPrimitive>(s: &S) -> (r: Option<u32>)
    ensures
        r == (if 0 <= s.value() <= u32::MAX {
            Some(s.value() as u32)
        } else {
            None
        }),
{
    num_traits::ToPrimitive::to_u32(s)
}

/// `num_traits::ToPrimitive::to_u64` of a primitive integer: the same number
/// where it lies between 0 and `u64::MAX`, else `None`.
#[verifier::external_body]
pub(crate) fn to_u64<S: Primitive + num_traits::ToPrimitive>(s: &S) -> (r: Option<u64>)
    ensures
        r == (if 0 <= s.value() <= u64::MAX {
            Some(s.value() as u64)
        } else {
            None
        }),
{
    num_traits::ToPrimitive::to_u64(s)
}

/// `num_traits::ToPrimitive::to_u128` of a primitive integer: the same number
/// where it lies between 0 and `u128::MAX`, else `None`.
#[verifier::external_body]
pub(crate) fn to_u128<S: Primitive + num_traits::ToPrimitive>(s: &S) -> (r: Option<u128>)
    ensures
        r == (if 0 <= s.value() <= u128::MAX {
            Some(s.value() as u128)
        } else {
            None
        }),
{
    num_traits::ToPrimitive::to_u128(s)
}

/// `num_traits::ToPrimitive::to_usize` of a primitive integer: the same
/// number where it lies between 0 and `usize::MAX`, else `None`.
#[verifier::external_body]
pub(crate) fn to_usize<S: Primitive + num_traits::ToPrimitive>(s: &S) -> (r: Option<usize>)
    ensures
        r == (if 0 <= s.value() <= usize::MAX {
            Some(s.value() as usize)
        } else {
            None
        }),
{
    num_traits::ToPrimitive::to_usize(s)
}

/// `num_traits::FromPrimitive::from_i64` of a primitive integer type: `n`
/// in that type where the type can hold it, else `None`.
#[verifier::external_body]
pub(crate) fn from_i64<S: Primitive + num_traits::FromPrimitive>(n: i64) -> (r: Option<S>)
    ensures
        in_range::<S>(n as int) <==> r is Some,
        r matches Some(v) ==> v.value() == n,
{
    <S as num_traits::FromPrimitive>::from_i64(n)
}

/// `num_traits::FromPrimitive::from_u64` of a primitive integer type: `n`
/// in that type where the type can hold it, else `None`.
#[verifier::external_body]
pub(crate) fn from_u64<S: Primitive + num_traits::FromPrimitive>(n: u64) -> (r: Option<S>)
    ensures
        in_range::<S>(n as int) <==> r is Some,
        r matches Some(v) ==> v.value() == n,
{
    <S as num_traits::FromPrimitive>::from_u64(n)
}

/// `num_traits::Num::from_str_radix` of a primitive integer type, which is
/// std's `from_str_radix` of that type: an optional sign and digits of the
/// base, read to a number of the type's range. std panics on a base outside
/// 2 to 36.
#[verifier::external_body]
pub(crate) fn from_str_radix<S: Primitive + num_traits::Num<FromStrRadixErr = ParseIntError>>(
    text: &str,
    radix: u32,
) -> (r: Result<S, ParseIntError>)
    requires
        2 <= radix <= 36,
    ensures
        match r {
            Ok(v) => parsed(text@, radix, S::lowest(), S::highest()) == Some(v.value()),
            Err(_) => parsed(text@, radix, S::lowest(), S::highest()) is None,
        },
{
    <S as num_traits::Num>::from_str_radix(text, radix)
}

/// std's `FromStr::from_str` of a primitive integer type: `from_str_radix`
/// in base 10.
#[verifier::external_body]
pub(crate) fn parse<S: Primitive + core::str::FromStr<Err = ParseIntError>>(text: &str) -> (r: Result<
    S,
    ParseIntError,
>)
    ensures
        match r {
            Ok(v) => parsed(text@, 10, S::lowest(), S::highest()) == Some(v.value()),
            Err(_) => parsed(text@, 10, S::lowest(), S::highest()) is None,
        },
{
    <S as core::str::FromStr>::from_str(text)
}

/// std's `Display` of a primitive integer: its decimal digits, behind `-`
/// where it is negative.
#[verifier::external_body]
pub(crate) fn to_text<S: Primitive + core::fmt::Display>(s: &S) -> (r: String)
    ensures
        r@ == decimal(s.value()),
{
    format!("{}", s)
}

/// `num_traits::Signed::abs` of a primitive signed integer. It negates a
/// negative value, which overflows on the type's least value.
#[verifier::external_body]
pub(crate) fn abs<S: Primitive + num_traits::Signed>(s: &S) -> (r: S)
    requires
        in_range::<S>(-s.value()),
    ensures
        r.value() == (if s.value() < 0 {
            -s.value()
        } else {
            s.value()
        }),
{
    num_traits::Signed::abs(s)
}

/// `num_traits::Signed::abs_sub` of a primitive signed integer: 0 where `s`
/// is not above `other`, else the difference, which must not overflow.
#[verifier::external_body]
pub(crate) fn abs_sub<S: Primitive + num_traits::Signed>(s: &S, other: &S) -> (r: S)
    requires
        s.value() > other.value() ==> in_range::<S>(s.value() - other.value()),
    ensures
        r.value() == (if s.value() <= other.value() {
            0
        } else {
            s.value() - other.value()
        }),
{
    num_traits::Signed::abs_sub(s, other)
}

/// `num_traits::Signed::signum` of a primitive signed integer: 1, 0 or -1.
#[verifier::external_body]
pub(crate) fn signum<S: Primitive + num_traits::Signed>(s: &S) -> (r: S)
    ensures
        r.value() == (if s.value() > 0 {
            1int
        } else if s.value() == 0 {
            0int
        } else {
            -1int
        }),
{
    num_traits::Signed::signum(s)
}

/// `num_traits::Signed::is_positive` of a primitive signed integer.
#[verifier::external_body]
pub(crate) fn is_positive<S: Primitive + num_traits::Signed>(s: &S) -> (r: bool)
    ensures
        r == (s.value() > 0),
{
    num_traits::Signed::is_positive(s)
}

/// `num_traits::Signed::is_negative` of a primitive signed integer.
#[verifier::external_body]
pub(crate) fn is_negative<S: Primitive + num_traits::Signed>(s: &S) -> (r: bool)
    ensures
        r == (s.value() < 0),
{
    num_traits::Signed::is_negative(s)
}

/// `geo::GeoNum::total_cmp` of a primitive integer, which is its `Ord::cmp`.
#[verifier::external_body]
pub(crate) fn total_cmp<S: Primitive + geo::GeoNum>(a: &S, b: &S) -> (r: Ordering)
    ensures
        r == order_of(a.value(), b.value()),
{
    geo::GeoNum::total_cmp(a, b)
}

} // verus!
