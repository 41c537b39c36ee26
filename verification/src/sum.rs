//! Sums of labelled integer scalars.

use vstd::prelude::*;
use crate::integer::in_range;
use crate::integer::Integer;
use crate::integer::Model;
use crate::num::Num;

verus! {

/// The sum of the integers that `items` stand for.
pub open spec fn total<S: Model>(items: Seq<S>) -> int
    decreases items.len(),
{
    if items.len() == 0 {
        0
    } else {
        total(items.drop_last()) + items.last().value()
    }
}

/// Whether `items` can be added up from the left without leaving the range
/// of their type on the way.
pub open spec fn summable<S: Model>(items: Seq<S>) -> bool {
    forall|k: int| 0 <= k <= items.len() ==> in_range::<S>(#[trigger] total(items.take(k)))
}

/// The scalars that `items` hold, in their order.
pub open spec fn scalars<Scalar, Type>(items: Seq<Num<Scalar, Type>>) -> Seq<Scalar> {
    Seq::new(items.len(), |i: int| items[i].0)
}

/// Adding up wrapped values and adding up the scalars they hold come to the
/// same.
pub proof fn lemma_total_of_scalars<Scalar: Model, Type>(items: Seq<Num<Scalar, Type>>)
    ensures
        total(items) == total(scalars(items)),
    decreases items.len(),
{
    if items.len() > 0 {
        lemma_total_of_scalars(items.drop_last());
        assert(scalars(items).drop_last() =~= scalars(items.drop_last()));
    }
}

/// Wrapped values can be added up where the scalars they hold can.
pub proof fn lemma_summable_as_scalars<Scalar: Model, Type>(items: Seq<Num<Scalar, Type>>)
    ensures
        summable(items) == summable(scalars(items)),
{
    if summable(items) {
        assert forall|k: int| 0 <= k <= items.len() implies in_range::<Scalar>(
            #[trigger] total(scalars(items).take(k)),
        ) by {
            lemma_total_of_scalars(items.take(k));
            assert(scalars(items.take(k)) =~= scalars(items).take(k));
            assert(in_range::<Num<Scalar, Type>>(total(items.take(k))));
        }
    }
    if summable(scalars(items)) {
        assert forall|k: int| 0 <= k <= items.len() implies in_range::<Num<Scalar, Type>>(
            #[trigger] total(items.take(k)),
        ) by {
            lemma_total_of_scalars(items.take(k));
            assert(scalars(items.take(k)) =~= scalars(items).take(k));
            assert(in_range::<Scalar>(total(scalars(items).take(k))));
        }
    }
}

impl<Scalar: Integer, Type> Num<Scalar, Type> {
    /// Adds up `items` from the left, starting at zero.
    pub fn sum(items: &[Self]) -> (r: Self)
        requires
            summable(items@),
        ensures
            r.value() == total(items@),
    {
        let mut acc = Scalar::zero();
        let mut i: usize = 0;
        assert(items@.take(0) =~= Seq::empty());
        while i < items.len()
            invariant
                i <= items.len(),
                summable(items@),
                acc.value() == total(items@.take(i as int)),
            decreases items.len() - i,
        {
            proof {
                Scalar::lemma_ring(acc, items@[i as int].0);
                assert(items@.take(i + 1).drop_last() =~= items@.take(i as int));
                assert(in_range::<Self>(total(items@.take(i + 1))));
            }
            acc = acc + items[i].0;
            i = i + 1;
        }
        assert(items@.take(items.len() as int) =~= items@);
        Num::new(acc)
    }
}

} // verus!
