//! The primitive unsigned integer types as integer scalars.

use vstd::prelude::*;
use core::num::ParseIntError;
use crate::integer::lemma_quotient_bounds;
use crate::integer::Integer;
use crate::integer::Model;
use crate::integer::NumCast;
use crate::primitive;
use crate::primitive::Primitive;

verus! {

impl Model for u8 {
    open spec fn value(self) -> int {
        self as int
    }

    open spec fn lowest() -> int {
        u8::MIN as int
    }

    open spec fn highest() -> int {
        u8::MAX as int
    }
}

impl Primitive for u8 {

}

impl Integer for u8 {
    proof fn lemma_value(a: Self, b: Self) {
    }

    proof fn lemma_ring(a: Self, b: Self) {
    }

    proof fn lemma_division(a: Self, b: Self) {
        if b != 0 {
            lemma_quotient_bounds(a as int, b as int);
        }
    }

    proof fn lemma_order(a: Self, b: Self) {
    }

    fn zero() -> Self {
        primitive::zero()
    }

    fn is_zero(&self) -> bool {
        primitive::is_zero(self)
    }

    fn one() -> Self {
        primitive::one()
    }

    fn min_value() -> Self {
        primitive::min_value()
    }

    fn max_value() -> Self {
        primitive::max_value()
    }

    fn to_i8(&self) -> Option<i8> {
        primitive::to_i8(self)
    }

    fn to_i16(&self) -> Option<i16> {
        primitive::to_i16(self)
    }

    fn to_i32(&self) -> Option<i32> {
        primitive::to_i32(self)
    }

    fn to_i64(&self) -> Option<i64> {
        primitive::to_i64(self)
    }

    fn to_i128(&self) -> Option<i128> {
        primitive::to_i128(self)
    }

    fn to_isize(&self) -> Option<isize> {
        primitive::to_isize(self)
    }

    fn to_u8(&self) -> Option<u8> {
        primitive::to_u8(self)
    }

    fn to_u16(&self) -> Option<u16> {
        primitive::to_u16(self)
    }

    fn to_u32(&self) -> Option<u32> {
        primitive::to_u32(self)
    }

    fn to_u64(&self) -> Option<u64> {
        primitive::to_u64(self)
    }

    fn to_u128(&self) -> Option<u128> {
        primitive::to_u128(self)
    }

    fn to_usize(&self) -> Option<usize> {
        primitive::to_usize(self)
    }

    fn from_i64(n: i64) -> Option<Self> {
        primitive::from_i64(n)
    }

    fn from_u64(n: u64) -> Option<Self> {
        primitive::from_u64(n)
    }

    fn from_str_radix(text: &str, radix: u32) -> Result<Self, ParseIntError> {
        primitive::from_str_radix(text, radix)
    }

    fn parse(text: &str) -> Result<Self, ParseIntError> {
        primitive::parse(text)
    }

    fn to_text(&self) -> String {
        primitive::to_text(self)
    }
}

impl NumCast for u8 {
    fn from<N: Integer>(n: N) -> Option<Self> {
        n.to_u8()
    }
}

impl Model for u16 {
    open spec fn value(self) -> int {
        self as int
    }

    open spec fn lowest() -> int {
        u16::MIN as int
    }

    open spec fn highest() -> int {
        u16::MAX as int
    }
}

impl Primitive for u16 {

}

impl Integer for u16 {
    proof fn lemma_value(a: Self, b: Self) {
    }

    proof fn lemma_ring(a: Self, b: Self) {
    }

    proof fn lemma_division(a: Self, b: Self) {
        if b != 0 {
            lemma_quotient_bounds(a as int, b as int);
        }
    }

    proof fn lemma_order(a: Self, b: Self) {
    }

    fn zero() -> Self {
        primitive::zero()
    }

    fn is_zero(&self) -> bool {
        primitive::is_zero(self)
    }

    fn one() -> Self {
        primitive::one()
    }

    fn min_value() -> Self {
        primitive::min_value()
    }

    fn max_value() -> Self {
        primitive::max_value()
    }

    fn to_i8(&self) -> Option<i8> {
        primitive::to_i8(self)
    }

    fn to_i16(&self) -> Option<i16> {
        primitive::to_i16(self)
    }

    fn to_i32(&self) -> Option<i32> {
        primitive::to_i32(self)
    }

    fn to_i64(&self) -> Option<i64> {
        primitive::to_i64(self)
    }

    fn to_i128(&self) -> Option<i128> {
        primitive::to_i128(self)
    }

    fn to_isize(&self) -> Option<isize> {
        primitive::to_isize(self)
    }

    fn to_u8(&self) -> Option<u8> {
        primitive::to_u8(self)
    }

    fn to_u16(&self) -> Option<u16> {
        primitive::to_u16(self)
    }

    fn to_u32(&self) -> Option<u32> {
        primitive::to_u32(self)
    }

    fn to_u64(&self) -> Option<u64> {
        primitive::to_u64(self)
    }

    fn to_u128(&self) -> Option<u128> {
        primitive::to_u128(self)
    }

    fn to_usize(&self) -> Option<usize> {
        primitive::to_usize(self)
    }

    fn from_i64(n: i64) -> Option<Self> {
        primitive::from_i64(n)
    }

    fn from_u64(n: u64) -> Option<Self> {
        primitive::from_u64(n)
    }

    fn from_str_radix(text: &str, radix: u32) -> Result<Self, ParseIntError> {
        primitive::from_str_radix(text, radix)
    }

    fn parse(text: &str) -> Result<Self, ParseIntError> {
        primitive::parse(text)
    }

    fn to_text(&self) -> String {
        primitive::to_text(self)
    }
}

impl NumCast for u16 {
    fn from<N: Integer>(n: N) -> Option<Self> {
        n.to_u16()
    }
}

impl Model for u32 {
    open spec fn value(self) -> int {
        self as int
    }

    open spec fn lowest() -> int {
        u32::MIN as int
    }

    open spec fn highest() -> int {
        u32::MAX as int
    }
}

impl Primitive for u32 {

}

impl Integer for u32 {
    proof fn lemma_value(a: Self, b: Self) {
    }

    proof fn lemma_ring(a: Self, b: Self) {
    }

    proof fn lemma_division(a: Self, b: Self) {
        if b != 0 {
            lemma_quotient_bounds(a as int, b as int);
        }
    }

    proof fn lemma_order(a: Self, b: Self) {
    }

    fn zero() -> Self {
        primitive::zero()
    }

    fn is_zero(&self) -> bool {
        primitive::is_zero(self)
    }

    fn one() -> Self {
        primitive::one()
    }

    fn min_value() -> Self {
        primitive::min_value()
    }

    fn max_value() -> Self {
        primitive::max_value()
    }

    fn to_i8(&self) -> Option<i8> {
        primitive::to_i8(self)
    }

    fn to_i16(&self) -> Option<i16> {
        primitive::to_i16(self)
    }

    fn to_i32(&self) -> Option<i32> {
        primitive::to_i32(self)
    }

    fn to_i64(&self) -> Option<i64> {
        primitive::to_i64(self)
    }

    fn to_i128(&self) -> Option<i128> {
        primitive::to_i128(self)
    }

    fn to_isize(&self) -> Option<isize> {
        primitive::to_isize(self)
    }

    fn to_u8(&self) -> Option<u8> {
        primitive::to_u8(self)
    }

    fn to_u16(&self) -> Option<u16> {
        primitive::to_u16(self)
    }

    fn to_u32(&self) -> Option<u32> {
        primitive::to_u32(self)
    }

    fn to_u64(&self) -> Option<u64> {
        primitive::to_u64(self)
    }

    fn to_u128(&self) -> Option<u128> {
        primitive::to_u128(self)
    }

    fn to_usize(&self) -> Option<usize> {
        primitive::to_usize(self)
    }

    fn from_i64(n: i64) -> Option<Self> {
        primitive::from_i64(n)
    }

    fn from_u64(n: u64) -> Option<Self> {
        primitive::from_u64(n)
    }

    fn from_str_radix(text: &str, radix: u32) -> Result<Self, ParseIntError> {
        primitive::from_str_radix(text, radix)
    }

    fn parse(text: &str) -> Result<Self, ParseIntError> {
        primitive::parse(text)
    }

    fn to_text(&self) -> String {
        primitive::to_text(self)
    }
}

impl NumCast for u32 {
    fn from<N: Integer>(n: N) -> Option<Self> {
        n.to_u32()
    }
}

impl Model for u64 {
    open spec fn value(self) -> int {
        self as int
    }

    open spec fn lowest() -> int {
        u64::MIN as int
    }

    open spec fn highest() -> int {
        u64::MAX as int
    }
}

impl Primitive for u64 {

}

impl Integer for u64 {
    proof fn lemma_value(a: Self, b: Self) {
    }

    proof fn lemma_ring(a: Self, b: Self) {
    }

    proof fn lemma_division(a: Self, b: Self) {
        if b != 0 {
            lemma_quotient_bounds(a as int, b as int);
        }
    }

    proof fn lemma_order(a: Self, b: Self) {
    }

    fn zero() -> Self {
        primitive::zero()
    }

    fn is_zero(&self) -> bool {
        primitive::is_zero(self)
    }

    fn one() -> Self {
        primitive::one()
    }

    fn min_value() -> Self {
        primitive::min_value()
    }

    fn max_value() -> Self {
        primitive::max_value()
    }

    fn to_i8(&self) -> Option<i8> {
        primitive::to_i8(self)
    }

    fn to_i16(&self) -> Option<i16> {
        primitive::to_i16(self)
    }

    fn to_i32(&self) -> Option<i32> {
        primitive::to_i32(self)
    }

    fn to_i64(&self) -> Option<i64> {
        primitive::to_i64(self)
    }

    fn to_i128(&self) -> Option<i128> {
        primitive::to_i128(self)
    }

    fn to_isize(&self) -> Option<isize> {
        primitive::to_isize(self)
    }

    fn to_u8(&self) -> Option<u8> {
        primitive::to_u8(self)
    }

    fn to_u16(&self) -> Option<u16> {
        primitive::to_u16(self)
    }

    fn to_u32(&self) -> Option<u32> {
        primitive::to_u32(self)
    }

    fn to_u64(&self) -> Option<u64> {
        primitive::to_u64(self)
    }

    fn to_u128(&self) -> Option<u128> {
        primitive::to_u128(self)
    }

    fn to_usize(&self) -> Option<usize> {
        primitive::to_usize(self)
    }

    fn from_i64(n: i64) -> Option<Self> {
        primitive::from_i64(n)
    }

    fn from_u64(n: u64) -> Option<Self> {
        primitive::from_u64(n)
    }

    fn from_str_radix(text: &str, radix: u32) -> Result<Self, ParseIntError> {
        primitive::from_str_radix(text, radix)
    }

    fn parse(text: &str) -> Result<Self, ParseIntError> {
        primitive::parse(text)
    }

    fn to_text(&self) -> String {
        primitive::to_text(self)
    }
}

impl NumCast for u64 {
    fn from<N: Integer>(n: N) -> Option<Self> {
        n.to_u64()
    }
}

impl Model for u128 {
    open spec fn value(self) -> int {
        self as int
    }

    open spec fn lowest() -> int {
        u128::MIN as int
    }

    open spec fn highest() -> int {
        u128::MAX as int
    }
}

impl Primitive for u128 {

}

impl Integer for u128 {
    proof fn lemma_value(a: Self, b: Self) {
    }

    proof fn lemma_ring(a: Self, b: Self) {
    }

    proof fn lemma_division(a: Self, b: Self) {
        if b != 0 {
            lemma_quotient_bounds(a as int, b as int);
        }
    }

    proof fn lemma_order(a: Self, b: Self) {
    }

    fn zero() -> Self {
        primitive::zero()
    }

    fn is_zero(&self) -> bool {
        primitive::is_zero(self)
    }

    fn one() -> Self {
        primitive::one()
    }

    fn min_value() -> Self {
        primitive::min_value()
    }

    fn max_value() -> Self {
        primitive::max_value()
    }

    fn to_i8(&self) -> Option<i8> {
        primitive::to_i8(self)
    }

    fn to_i16(&self) -> Option<i16> {
        primitive::to_i16(self)
    }

    fn to_i32(&self) -> Option<i32> {
        primitive::to_i32(self)
    }

    fn to_i64(&self) -> Option<i64> {
        primitive::to_i64(self)
    }

    fn to_i128(&self) -> Option<i128> {
        primitive::to_i128(self)
    }

    fn to_isize(&self) -> Option<isize> {
        primitive::to_isize(self)
    }

    fn to_u8(&self) -> Option<u8> {
        primitive::to_u8(self)
    }

    fn to_u16(&self) -> Option<u16> {
        primitive::to_u16(self)
    }

    fn to_u32(&self) -> Option<u32> {
        primitive::to_u32(self)
    }

    fn to_u64(&self) -> Option<u64> {
        primitive::to_u64(self)
    }

    fn to_u128(&self) -> Option<u128> {
        primitive::to_u128(self)
    }

    fn to_usize(&self) -> Option<usize> {
        primitive::to_usize(self)
    }

    fn from_i64(n: i64) -> Option<Self> {
        primitive::from_i64(n)
    }

    fn from_u64(n: u64) -> Option<Self> {
        primitive::from_u64(n)
    }

    fn from_str_radix(text: &str, radix: u32) -> Result<Self, ParseIntError> {
        primitive::from_str_radix(text, radix)
    }

    fn parse(text: &str) -> Result<Self, ParseIntError> {
        primitive::parse(text)
    }

    fn to_text(&self) -> String {
        primitive::to_text(self)
    }
}

impl NumCast for u128 {
    fn from<N: Integer>(n: N) -> Option<Self> {
        n.to_u128()
    }
}

impl Model for usize {
    open spec fn value(self) -> int {
        self as int
    }

    open spec fn lowest() -> int {
        usize::MIN as int
    }

    open spec fn highest() -> int {
        usize::MAX as int
    }
}

impl Primitive for usize {

}

impl Integer for usize {
    proof fn lemma_value(a: Self, b: Self) {
    }

    proof fn lemma_ring(a: Self, b: Self) {
    }

    proof fn lemma_division(a: Self, b: Self) {
        if b != 0 {
            lemma_quotient_bounds(a as int, b as int);
        }
    }

    proof fn lemma_order(a: Self, b: Self) {
    }

    fn zero() -> Self {
        primitive::zero()
    }

    fn is_zero(&self) -> bool {
        primitive::is_zero(self)
    }

    fn one() -> Self {
        primitive::one()
    }

    fn min_value() -> Self {
        primitive::min_value()
    }

    fn max_value() -> Self {
        primitive::max_value()
    }

    fn to_i8(&self) -> Option<i8> {
        primitive::to_i8(self)
    }

    fn to_i16(&self) -> Option<i16> {
        primitive::to_i16(self)
    }

    fn to_i32(&self) -> Option<i32> {
        primitive::to_i32(self)
    }

    fn to_i64(&self) -> Option<i64> {
        primitive::to_i64(self)
    }

    fn to_i128(&self) -> Option<i128> {
        primitive::to_i128(self)
    }

    fn to_isize(&self) -> Option<isize> {
        primitive::to_isize(self)
    }

    fn to_u8(&self) -> Option<u8> {
        primitive::to_u8(self)
    }

    fn to_u16(&self) -> Option<u16> {
        primitive::to_u16(self)
    }

    fn to_u32(&self) -> Option<u32> {
        primitive::to_u32(self)
    }

    fn to_u64(&self) -> Option<u64> {
        primitive::to_u64(self)
    }

    fn to_u128(&self) -> Option<u128> {
        primitive::to_u128(self)
    }

    fn to_usize(&self) -> Option<usize> {
        primitive::to_usize(self)
    }

    fn from_i64(n: i64) -> Option<Self> {
        primitive::from_i64(n)
    }

    fn from_u64(n: u64) -> Option<Self> {
        primitive::from_u64(n)
    }

    fn from_str_radix(text: &str, radix: u32) -> Result<Self, ParseIntError> {
        primitive::from_str_radix(text, radix)
    }

    fn parse(text: &str) -> Result<Self, ParseIntError> {
        primitive::parse(text)
    }

    fn to_text(&self) -> String {
        primitive::to_text(self)
    }
}

impl NumCast for usize {
    fn from<N: Integer>(n: N) -> Option<Self> {
        n.to_usize()
    }
}

} // verus!
