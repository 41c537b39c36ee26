//! What holds of labelled scalars throughout: they behave as the scalars
//! they hold.

use vstd::prelude::*;
use core::ops::Add;
use core::ops::Div;
use core::ops::Mul;
use core::ops::Neg;
use core::ops::Rem;
use core::ops::Sub;
use vstd::std_specs::cmp::PartialEqSpec;
use vstd::std_specs::cmp::PartialOrdIs;
use vstd::std_specs::cmp::PartialOrdSpec;
use vstd::std_specs::ops::AddSpec;
use vstd::std_specs::ops::DivSpec;
use vstd::std_specs::ops::MulSpec;
use vstd::std_specs::ops::NegSpec;
use vstd::std_specs::ops::RemSpec;
use vstd::std_specs::ops::SubSpec;
use crate::integer::Integer;
use crate::integer::Model;
use crate::num::Num;
use crate::text::decimal;
use crate::text::lemma_text_round_trip;
use crate::text::parsed;

verus! {

/// Arithmetic on wrapped scalars is the scalars' arithmetic: each of `+`,
/// `-`, `*`, `/` and `%` is defined on the wrapped `a` and `b` where it is
/// defined on `a` and `b`, and its result holds what the scalars' operator
/// gives.
pub proof fn lemma_arithmetic_is_the_scalars<
    Scalar: Add<Output = Scalar> + Sub<Output = Scalar> + Mul<Output = Scalar> + Div<
        Output = Scalar,
    > + Rem<Output = Scalar>,
    Type,
>(a: Scalar, b: Scalar)
    ensures
        Num::<Scalar, Type>::wrap(a).add_req(Num::wrap(b)) == a.add_req(b),
        Num::<Scalar, Type>::wrap(a).add_spec(Num::wrap(b)).0 == a.add_spec(b),
        Num::<Scalar, Type>::wrap(a).sub_req(Num::wrap(b)) == a.sub_req(b),
        Num::<Scalar, Type>::wrap(a).sub_spec(Num::wrap(b)).0 == a.sub_spec(b),
        Num::<Scalar, Type>::wrap(a).mul_req(Num::wrap(b)) == a.mul_req(b),
        Num::<Scalar, Type>::wrap(a).mul_spec(Num::wrap(b)).0 == a.mul_spec(b),
        Num::<Scalar, Type>::wrap(a).div_req(Num::wrap(b)) == a.div_req(b),
        Num::<Scalar, Type>::wrap(a).div_spec(Num::wrap(b)).0 == a.div_spec(b),
        Num::<Scalar, Type>::wrap(a).rem_req(Num::wrap(b)) == a.rem_req(b),
        Num::<Scalar, Type>::wrap(a).rem_spec(Num::wrap(b)).0 == a.rem_spec(b),
{
}

/// Negating a wrapped scalar is negating the scalar.
pub proof fn lemma_negation_is_the_scalars<Scalar: Neg<Output = Scalar>, Type>(a: Scalar)
    ensures
        Num::<Scalar, Type>::wrap(a).neg_req() == a.neg_req(),
        Num::<Scalar, Type>::wrap(a).neg_spec().0 == a.neg_spec(),
{
}

/// Wrapped scalars are equal, and stand in the order, as the scalars are
/// and do: `wrap(a) < wrap(b)` exactly where `a < b`, and where the scalars
/// do not compare, neither do the wrapped ones.
pub proof fn lemma_order_is_the_scalars<Scalar: PartialOrd, Type>(a: Scalar, b: Scalar)
    ensures
        Num::<Scalar, Type>::wrap(a).eq_spec(&Num::wrap(b)) == a.eq_spec(&b),
        Num::<Scalar, Type>::wrap(a).partial_cmp_spec(&Num::wrap(b)) == a.partial_cmp_spec(&b),
        Num::<Scalar, Type>::wrap(a).is_lt(&Num::wrap(b)) == a.is_lt(&b),
        Num::<Scalar, Type>::wrap(a).is_gt(&Num::wrap(b)) == a.is_gt(&b),
{
}

/// Zero is neutral for `+` and one for `*`: with any `x`, the sum and the
/// product are defined and are `x`.
pub proof fn lemma_identities<Scalar: Integer, Type>(
    zero: Num<Scalar, Type>,
    one: Num<Scalar, Type>,
    x: Num<Scalar, Type>,
)
    requires
        zero.value() == 0,
        one.value() == 1,
    ensures
        zero.add_req(x),
        zero.add_spec(x) == x,
        one.mul_req(x),
        one.mul_spec(x) == x,
{
    Num::<Scalar, Type>::lemma_ring(zero, x);
    Num::<Scalar, Type>::lemma_ring(one, x);
    Num::<Scalar, Type>::lemma_value(x, x);
    Num::<Scalar, Type>::lemma_value(zero.add_spec(x), x);
    Num::<Scalar, Type>::lemma_value(one.mul_spec(x), x);
}

/// The text written for a wrapped integer is the text written for the
/// integer it holds, and reading it gives the same value back.
pub proof fn lemma_text_is_the_scalars<Scalar: Integer, Type>(x: Num<Scalar, Type>)
    ensures
        decimal(x.value()) == decimal(x.0.value()),
        parsed(decimal(x.value()), 10, Scalar::lowest(), Scalar::highest()) == Some(x.value()),
{
    Scalar::lemma_value(x.0, x.0);
    lemma_text_round_trip(x.0.value(), Scalar::lowest(), Scalar::highest());
}

} // verus!
