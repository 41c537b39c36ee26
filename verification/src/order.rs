//! Equality and order of labelled scalars: those of the scalars.

use vstd::prelude::*;
use core::cmp::Ordering;
use vstd::std_specs::cmp::OrdSpec;
use vstd::std_specs::cmp::PartialEqSpec;
use vstd::std_specs::cmp::PartialEqSpecImpl;
use vstd::std_specs::cmp::PartialOrdSpec;
use vstd::std_specs::cmp::PartialOrdSpecImpl;
use crate::num::Num;

verus! {

impl<Scalar: PartialEq, Type> PartialEq for Num<Scalar, Type> {
    /// Whether the scalars are equal by their own `==`.
    fn eq(&self, other: &Self) -> (r: bool)
        ensures
            call_ensures(Scalar::eq, (&self.0, &other.0), r),
    {
        self.0 == other.0
    }
}

impl<Scalar: PartialEq, Type> PartialEqSpecImpl for Num<Scalar, Type> {
    open spec fn obeys_eq_spec() -> bool {
        Scalar::obeys_eq_spec()
    }

    open spec fn eq_spec(&self, other: &Self) -> bool {
        self.0.eq_spec(&other.0)
    }
}

impl<Scalar: Eq, Type> Eq for Num<Scalar, Type> {

}

impl<Scalar: PartialOrd, Type> PartialOrd for Num<Scalar, Type> {
    /// How the scalars compare by their own partial order: `None` where they
    /// do not compare, as with a NaN.
    fn partial_cmp(&self, other: &Self) -> (r: Option<Ordering>)
        ensures
            call_ensures(Scalar::partial_cmp, (&self.0, &other.0), r),
    {
        self.0.partial_cmp(&other.0)
    }
}

impl<Scalar: PartialOrd, Type> PartialOrdSpecImpl for Num<Scalar, Type> {
    open spec fn obeys_partial_cmp_spec() -> bool {
        Scalar::obeys_partial_cmp_spec()
    }

    open spec fn partial_cmp_spec(&self, other: &Self) -> Option<Ordering> {
        self.0.partial_cmp_spec(&other.0)
    }
}

impl<Scalar: Ord, Type> Num<Scalar, Type> {
    /// How the scalars compare by their own total order.
    pub fn cmp(&self, other: &Self) -> (r: Ordering)
        ensures
            call_ensures(Scalar::cmp, (&self.0, &other.0), r),
            Scalar::obeys_cmp_spec() ==> r == self.0.cmp_spec(&other.0),
    {
        self.0.cmp(&other.0)
    }
}

} // verus!
