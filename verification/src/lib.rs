//! Scalars labelled with a unit or kind that exists in the type only.
//!
//! [`Num`] holds one scalar. Whatever the scalar can do, the wrapped scalar
//! does in the same way and with the same result, under its label: the
//! operators and comparisons of std for any scalar, and for integer scalars
//! the numeric capabilities of [`Integer`], [`NumCast`], [`Signed`] and
//! [`TotalOrder`], text and sums. Values with different labels do not mix.

pub mod arith;
pub mod forward;
pub mod integer;
pub mod laws;
pub mod num;
pub mod order;
pub mod primitive;
pub mod signed;
pub mod sum;
pub mod text;
pub mod unsigned;

pub use integer::Integer;
pub use integer::Model;
pub use integer::NumCast;
pub use integer::Signed;
pub use integer::TotalOrder;
pub use num::Num;
