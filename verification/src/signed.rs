//! The primitive signed integer types as integer scalars.

use vstd::prelude::*;
use core::cmp::Ordering;
use core::num::ParseIntError;
use crate::integer::lemma_quotient_bounds;
use crate::integer::Integer;
use crate::integer::Model;
use crate::integer::NumCast;
use crate::integer::Signed;
use crate::integer::TotalOrder;
use crate::primitive;
use crate::primitive::Primitive;

verus! {

impl Model for i8 {
    open spec fn value(self) -> int {
        self as int
    }

    open spec fn lowest() -> int {
        i8::MIN as int
    }

    open spec fn highest() -> int {
        i8::MAX as int
    }
}

impl Primitive for i8 {

}

impl Integer for i8 {
    proof fn lemma_value(a: Self, b: Self) {
    }

    proof fn lemma_ring(a: Self, b: Self) {
    }

    proof fn lemma_division(a: Self, b: Self) {
        if b != 0 {
            lemma_quotient_bounds(a as int, b as int);
        }
    }

    proof fn lemma_order(a: Self, b: Self) {
    }

    fn zero() -> Self {
        primitive::zero()
    }

    fn is_zero(&self) -> bool {
        primitive::is_zero(self)
    }

    fn one() -> Self {
        primitive::one()
    }

    fn min_value() -> Self {
        primitive::min_value()
    }

    fn max_value() -> Self {
        primitive::max_value()
    }

    fn to_i8(&self) -> Option<i8> {
        primitive::to_i8(self)
    }

    fn to_i16(&self) -> Option<i16> {
        primitive::to_i16(self)
    }

    fn to_i32(&self) -> Option<i32> {
        primitive::to_i32(self)
    }

    fn to_i64(&self) -> Option<i64> {
        primitive::to_i64(self)
    }

    fn to_i128(&self) -> Option<i128> {
        primitive::to_i128(self)
    }

    fn to_isize(&self) -> Option<isize> {
        primitive::to_isize(self)
    }

    fn to_u8(&self) -> Option<u8> {
        primitive::to_u8(self)
    }

    fn to_u16(&self) -> Option<u16> {
        primitive::to_u16(self)
    }

    fn to_u32(&self) -> Option<u32> {
        primitive::to_u32(self)
    }

    fn to_u64(&self) -> Option<u64> {
        primitive::to_u64(self)
    }

    fn to_u128(&self) -> Option<u128> {
        primitive::to_u128(self)
    }

    fn to_usize(&self) -> Option<usize> {
        primitive::to_usize(self)
    }

    fn from_i64(n: i64) -> Option<Self> {
        primitive::from_i64(n)
    }

    fn from_u64(n: u64) -> Option<Self> {
        primitive::from_u64(n)
    }

    fn from_str_radix(text: &str, radix: u32) -> Result<Self, ParseIntError> {
        primitive::from_str_radix(text, radix)
    }

    fn parse(text: &str) -> Result<Self, ParseIntError> {
        primitive::parse(text)
    }

    fn to_text(&self) -> String {
        primitive::to_text(self)
    }
}

impl NumCast for i8 {
    fn from<N: Integer>(n: N) -> Option<Self> {
        n.to_i8()
    }
}

impl Signed for i8 {
    proof fn lemma_negation(a: Self) {
    }

    fn abs(&self) -> Self {
        primitive::abs(self)
    }

    fn abs_sub(&self, other: &Self) -> Self {
        primitive::abs_sub(self, other)
    }

    fn signum(&self) -> Self {
        primitive::signum(self)
    }

    fn is_positive(&self) -> bool {
        primitive::is_positive(self)
    }

    fn is_negative(&self) -> bool {
        primitive::is_negative(self)
    }
}

impl Model for i16 {
    open spec fn value(self) -> int {
        self as int
    }

    open spec fn lowest() -> int {
        i16::MIN as int
    }

    open spec fn highest() -> int {
        i16::MAX as int
    }
}

impl Primitive for i16 {

}

impl Integer for i16 {
    proof fn lemma_value(a: Self, b: Self) {
    }

    proof fn lemma_ring(a: Self, b: Self) {
    }

    proof fn lemma_division(a: Self, b: Self) {
        if b != 0 {
            lemma_quotient_bounds(a as int, b as int);
        }
    }

    proof fn lemma_order(a: Self, b: Self) {
    }

    fn zero() -> Self {
        primitive::zero()
    }

    fn is_zero(&self) -> bool {
        primitive::is_zero(self)
    }

    fn one() -> Self {
        primitive::one()
    }

    fn min_value() -> Self {
        primitive::min_value()
    }

    fn max_value() -> Self {
        primitive::max_value()
    }

    fn to_i8(&self) -> Option<i8> {
        primitive::to_i8(self)
    }

    fn to_i16(&self) -> Option<i16> {
        primitive::to_i16(self)
    }

    fn to_i32(&self) -> Option<i32> {
        primitive::to_i32(self)
    }

    fn to_i64(&self) -> Option<i64> {
        primitive::to_i64(self)
    }

    fn to_i128(&self) -> Option<i128> {
        primitive::to_i128(self)
    }

    fn to_isize(&self) -> Option<isize> {
        primitive::to_isize(self)
    }

    fn to_u8(&self) -> Option<u8> {
        primitive::to_u8(self)
    }

    fn to_u16(&self) -> Option<u16> {
        primitive::to_u16(self)
    }

    fn to_u32(&self) -> Option<u32> {
        primitive::to_u32(self)
    }

    fn to_u64(&self) -> Option<u64> {
        primitive::to_u64(self)
    }

    fn to_u128(&self) -> Option<u128> {
        primitive::to_u128(self)
    }

    fn to_usize(&self) -> Option<usize> {
        primitive::to_usize(self)
    }

    fn from_i64(n: i64) -> Option<Self> {
        primitive::from_i64(n)
    }

    fn from_u64(n: u64) -> Option<Self> {
        primitive::from_u64(n)
    }

    fn from_str_radix(text: &str, radix: u32) -> Result<Self, ParseIntError> {
        primitive::from_str_radix(text, radix)
    }

    fn parse(text: &str) -> Result<Self, ParseIntError> {
        primitive::parse(text)
    }

    fn to_text(&self) -> String {
        primitive::to_text(self)
    }
}

impl NumCast for i16 {
    fn from<N: Integer>(n: N) -> Option<Self> {
        n.to_i16()
    }
}

impl Signed for i16 {
    proof fn lemma_negation(a: Self) {
    }

    fn abs(&self) -> Self {
        primitive::abs(self)
    }

    fn abs_sub(&self, other: &Self) -> Self {
        primitive::abs_sub(self, other)
    }

    fn signum(&self) -> Self {
        primitive::signum(self)
    }

    fn is_positive(&self) -> bool {
        primitive::is_positive(self)
    }

    fn is_negative(&self) -> bool {
        primitive::is_negative(self)
    }
}

impl TotalOrder for i16 {
    fn total_cmp(&self, other: &Self) -> Ordering {
        primitive::total_cmp(self, other)
    }
}

impl Model for i32 {
    open spec fn value(self) -> int {
        self as int
    }

    open spec fn lowest() -> int {
        i32::MIN as int
    }

    open spec fn highest() -> int {
        i32::MAX as int
    }
}

impl Primitive for i32 {

}

impl Integer for i32 {
    proof fn lemma_value(a: Self, b: Self) {
    }

    proof fn lemma_ring(a: Self, b: Self) {
    }

    proof fn lemma_division(a: Self, b: Self) {
        if b != 0 {
            lemma_quotient_bounds(a as int, b as int);
        }
    }

    proof fn lemma_order(a: Self, b: Self) {
    }

    fn zero() -> Self {
        primitive::zero()
    }

    fn is_zero(&self) -> bool {
        primitive::is_zero(self)
    }

    fn one() -> Self {
        primitive::one()
    }

    fn min_value() -> Self {
        primitive::min_value()
    }

    fn max_value() -> Self {
        primitive::max_value()
    }

    fn to_i8(&self) -> Option<i8> {
        primitive::to_i8(self)
    }

    fn to_i16(&self) -> Option<i16> {
        primitive::to_i16(self)
    }

    fn to_i32(&self) -> Option<i32> {
        primitive::to_i32(self)
    }

    fn to_i64(&self) -> Option<i64> {
        primitive::to_i64(self)
    }

    fn to_i128(&self) -> Option<i128> {
        primitive::to_i128(self)
    }

    fn to_isize(&self) -> Option<isize> {
        primitive::to_isize(self)
    }

    fn to_u8(&self) -> Option<u8> {
        primitive::to_u8(self)
    }

    fn to_u16(&self) -> Option<u16> {
        primitive::to_u16(self)
    }

    fn to_u32(&self) -> Option<u32> {
        primitive::to_u32(self)
    }

    fn to_u64(&self) -> Option<u64> {
        primitive::to_u64(self)
    }

    fn to_u128(&self) -> Option<u128> {
        primitive::to_u128(self)
    }

    fn to_usize(&self) -> Option<usize> {
        primitive::to_usize(self)
    }

    fn from_i64(n: i64) -> Option<Self> {
        primitive::from_i64(n)
    }

    fn from_u64(n: u64) -> Option<Self> {
        primitive::from_u64(n)
    }

    fn from_str_radix(text: &str, radix: u32) -> Result<Self, ParseIntError> {
        primitive::from_str_radix(text, radix)
    }

    fn parse(text: &str) -> Result<Self, ParseIntError> {
        primitive::parse(text)
    }

    fn to_text(&self) -> String {
        primitive::to_text(self)
    }
}

impl NumCast for i32 {
    fn from<N: Integer>(n: N) -> Option<Self> {
        n.to_i32()
    }
}

impl Signed for i32 {
    proof fn lemma_negation(a: Self) {
    }

    fn abs(&self) -> Self {
        primitive::abs(self)
    }

    fn abs_sub(&self, other: &Self) -> Self {
        primitive::abs_sub(self, other)
    }

    fn signum(&self) -> Self {
        primitive::signum(self)
    }

    fn is_positive(&self) -> bool {
        primitive::is_positive(self)
    }

    fn is_negative(&self) -> bool {
        primitive::is_negative(self)
    }
}

impl TotalOrder for i32 {
    fn total_cmp(&self, other: &Self) -> Ordering {
        primitive::total_cmp(self, other)
    }
}

impl Model for i64 {
    open spec fn value(self) -> int {
        self as int
    }

    open spec fn lowest() -> int {
        i64::MIN as int
    }

    open spec fn highest() -> int {
        i64::MAX as int
    }
}

impl Primitive for i64 {

}

impl Integer for i64 {
    proof fn lemma_value(a: Self, b: Self) {
    }

    proof fn lemma_ring(a: Self, b: Self) {
    }

    proof fn lemma_division(a: Self, b: Self) {
        if b != 0 {
            lemma_quotient_bounds(a as int, b as int);
        }
    }

    proof fn lemma_order(a: Self, b: Self) {
    }

    fn zero() -> Self {
        primitive::zero()
    }

    fn is_zero(&self) -> bool {
        primitive::is_zero(self)
    }

    fn one() -> Self {
        primitive::one()
    }

    fn min_value() -> Self {
        primitive::min_value()
    }

    fn max_value() -> Self {
        primitive::max_value()
    }

    fn to_i8(&self) -> Option<i8> {
        primitive::to_i8(self)
    }

    fn to_i16(&self) -> Option<i16> {
        primitive::to_i16(self)
    }

    fn to_i32(&self) -> Option<i32> {
        primitive::to_i32(self)
    }

    fn to_i64(&self) -> Option<i64> {
        primitive::to_i64(self)
    }

    fn to_i128(&self) -> Option<i128> {
        primitive::to_i128(self)
    }

    fn to_isize(&self) -> Option<isize> {
        primitive::to_isize(self)
    }

    fn to_u8(&self) -> Option<u8> {
        primitive::to_u8(self)
    }

    fn to_u16(&self) -> Option<u16> {
        primitive::to_u16(self)
    }

    fn to_u32(&self) -> Option<u32> {
        primitive::to_u32(self)
    }

    fn to_u64(&self) -> Option<u64> {
        primitive::to_u64(self)
    }

    fn to_u128(&self) -> Option<u128> {
        primitive::to_u128(self)
    }

    fn to_usize(&self) -> Option<usize> {
        primitive::to_usize(self)
    }

    fn from_i64(n: i64) -> Option<Self> {
        primitive::from_i64(n)
    }

    fn from_u64(n: u64) -> Option<Self> {
        primitive::from_u64(n)
    }

    fn from_str_radix(text: &str, radix: u32) -> Result<Self, ParseIntError> {
        primitive::from_str_radix(text, radix)
    }

    fn parse(text: &str) -> Result<Self, ParseIntError> {
        primitive::parse(text)
    }

    fn to_text(&self) -> String {
        primitive::to_text(self)
    }
}

impl NumCast for i64 {
    fn from<N: Integer>(n: N) -> Option<Self> {
        n.to_i64()
    }
}

impl Signed for i64 {
    proof fn lemma_negation(a: Self) {
    }

    fn abs(&self) -> Self {
        primitive::abs(self)
    }

    fn abs_sub(&self, other: &Self) -> Self {
        primitive::abs_sub(self, other)
    }

    fn signum(&self) -> Self {
        primitive::signum(self)
    }

    fn is_positive(&self) -> bool {
        primitive::is_positive(self)
    }

    fn is_negative(&self) -> bool {
        primitive::is_negative(self)
    }
}

impl TotalOrder for i64 {
    fn total_cmp(&self, other: &Self) -> Ordering {
        primitive::total_cmp(self, other)
    }
}

impl Model for i128 {
    open spec fn value(self) -> int {
        self as int
    }

    open spec fn lowest() -> int {
        i128::MIN as int
    }

    open spec fn highest() -> int {
        i128::MAX as int
    }
}

impl Primitive for i128 {

}

impl Integer for i128 {
    proof fn lemma_value(a: Self, b: Self) {
    }

    proof fn lemma_ring(a: Self, b: Self) {
    }

    proof fn lemma_division(a: Self, b: Self) {
        if b != 0 {
            lemma_quotient_bounds(a as int, b as int);
        }
    }

    proof fn lemma_order(a: Self, b: Self) {
    }

    fn zero() -> Self {
        primitive::zero()
    }

    fn is_zero(&self) -> bool {
        primitive::is_zero(self)
    }

    fn one() -> Self {
        primitive::one()
    }

    fn min_value() -> Self {
        primitive::min_value()
    }

    fn max_value() -> Self {
        primitive::max_value()
    }

    fn to_i8(&self) -> Option<i8> {
        primitive::to_i8(self)
    }

    fn to_i16(&self) -> Option<i16> {
        primitive::to_i16(self)
    }

    fn to_i32(&self) -> Option<i32> {
        primitive::to_i32(self)
    }

    fn to_i64(&self) -> Option<i64> {
        primitive::to_i64(self)
    }

    fn to_i128(&self) -> Option<i128> {
        primitive::to_i128(self)
    }

    fn to_isize(&self) -> Option<isize> {
        primitive::to_isize(self)
    }

    fn to_u8(&self) -> Option<u8> {
        primitive::to_u8(self)
    }

    fn to_u16(&self) -> Option<u16> {
        primitive::to_u16(self)
    }

    fn to_u32(&self) -> Option<u32> {
        primitive::to_u32(self)
    }

    fn to_u64(&self) -> Option<u64> {
        primitive::to_u64(self)
    }

    fn to_u128(&self) -> Option<u128> {
        primitive::to_u128(self)
    }

    fn to_usize(&self) -> Option<usize> {
        primitive::to_usize(self)
    }

    fn from_i64(n: i64) -> Option<Self> {
        primitive::from_i64(n)
    }

    fn from_u64(n: u64) -> Option<Self> {
        primitive::from_u64(n)
    }

    fn from_str_radix(text: &str, radix: u32) -> Result<Self, ParseIntError> {
        primitive::from_str_radix(text, radix)
    }

    fn parse(text: &str) -> Result<Self, ParseIntError> {
        primitive::parse(text)
    }

    fn to_text(&self) -> String {
        primitive::to_text(self)
    }
}

impl NumCast for i128 {
    fn from<N: Integer>(n: N) -> Option<Self> {
        n.to_i128()
    }
}

impl Signed for i128 {
    proof fn lemma_negation(a: Self) {
    }

    fn abs(&self) -> Self {
        primitive::abs(self)
    }

    fn abs_sub(&self, other: &Self) -> Self {
        primitive::abs_sub(self, other)
    }

    fn signum(&self) -> Self {
        primitive::signum(self)
    }

    fn is_positive(&self) -> bool {
        primitive::is_positive(self)
    }

    fn is_negative(&self) -> bool {
        primitive::is_negative(self)
    }
}

impl TotalOrder for i128 {
    fn total_cmp(&self, other: &Self) -> Ordering {
        primitive::total_cmp(self, other)
    }
}

impl Model for isize {
    open spec fn value(self) -> int {
        self as int
    }

    open spec fn lowest() -> int {
        isize::MIN as int
    }

    open spec fn highest() -> int {
        isize::MAX as int
    }
}

impl Primitive for isize {

}

impl Integer for isize {
    proof fn lemma_value(a: Self, b: Self) {
    }

    proof fn lemma_ring(a: Self, b: Self) {
    }

    proof fn lemma_division(a: Self, b: Self) {
        if b != 0 {
            lemma_quotient_bounds(a as int, b as int);
        }
    }

    proof fn lemma_order(a: Self, b: Self) {
    }

    fn zero() -> Self {
        primitive::zero()
    }

    fn is_zero(&self) -> bool {
        primitive::is_zero(self)
    }

    fn one() -> Self {
        primitive::one()
    }

    fn min_value() -> Self {
        primitive::min_value()
    }

    fn max_value() -> Self {
        primitive::max_value()
    }

    fn to_i8(&self) -> Option<i8> {
        primitive::to_i8(self)
    }

    fn to_i16(&self) -> Option<i16> {
        primitive::to_i16(self)
    }

    fn to_i32(&self) -> Option<i32> {
        primitive::to_i32(self)
    }

    fn to_i64(&self) -> Option<i64> {
        primitive::to_i64(self)
    }

    fn to_i128(&self) -> Option<i128> {
        primitive::to_i128(self)
    }

    fn to_isize(&self) -> Option<isize> {
        primitive::to_isize(self)
    }

    fn to_u8(&self) -> Option<u8> {
        primitive::to_u8(self)
    }

    fn to_u16(&self) -> Option<u16> {
        primitive::to_u16(self)
    }

    fn to_u32(&self) -> Option<u32> {
        primitive::to_u32(self)
    }

    fn to_u64(&self) -> Option<u64> {
        primitive::to_u64(self)
    }

    fn to_u128(&self) -> Option<u128> {
        primitive::to_u128(self)
    }

    fn to_usize(&self) -> Option<usize> {
        primitive::to_usize(self)
    }

    fn from_i64(n: i64) -> Option<Self> {
        primitive::from_i64(n)
    }

    fn from_u64(n: u64) -> Option<Self> {
        primitive::from_u64(n)
    }

    fn from_str_radix(text: &str, radix: u32) -> Result<Self, ParseIntError> {
        primitive::from_str_radix(text, radix)
    }

    fn parse(text: &str) -> Result<Self, ParseIntError> {
        primitive::parse(text)
    }

    fn to_text(&self) -> String {
        primitive::to_text(self)
    }
}

impl NumCast for isize {
    fn from<N: Integer>(n: N) -> Option<Self> {
        n.to_isize()
    }
}

impl Signed for isize {
    proof fn lemma_negation(a: Self) {
    }

    fn abs(&self) -> Self {
        primitive::abs(self)
    }

    fn abs_sub(&self, other: &Self) -> Self {
        primitive::abs_sub(self, other)
    }

    fn signum(&self) -> Self {
        primitive::signum(self)
    }

    fn is_positive(&self) -> bool {
        primitive::is_positive(self)
    }

    fn is_negative(&self) -> bool {
        primitive::is_negative(self)
    }
}

impl TotalOrder for isize {
    fn total_cmp(&self, other: &Self) -> Ordering {
        primitive::total_cmp(self, other)
    }
}

} // verus!
