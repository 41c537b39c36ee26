//! The labelled scalar, and how one is made.

use vstd::prelude::*;
use vstd::std_specs::convert::FromSpecImpl;

verus! {

/// A scalar labelled, in its type only, with a unit or kind.
///
/// `Num<f64, Meters>` and `Num<f64, Feet>` hold the same kind of value and
/// are different types: nothing but the type system tells them apart. The
/// scalar is the first field; the second holds no data.
#[derive(Debug, Ord)]
pub struct Num<Number, Type>(pub Number, pub core::marker::PhantomData<Type>);

impl<Scalar, Type> Num<Scalar, Type> {
    /// The value that holds `number`, as a specification.
    pub open spec fn wrap(number: Scalar) -> Self {
        Num(number, core::marker::PhantomData)
    }

    /// Wraps `number`; every scalar value is accepted.
    #[inline]
    pub fn new(number: Scalar) -> (r: Num<Scalar, Type>)
        ensures
            r == Self::wrap(number),
            r.0 == number,
    {
        Num(number, core::marker::PhantomData::<Type>)
    }
}

impl<Scalar: Clone, Type> Clone for Num<Scalar, Type> {
    /// Clones the scalar with its own `clone` and keeps the label.
    fn clone(&self) -> (r: Self)
        ensures
            cloned(self.0, r.0),
    {
        Num(self.0.clone(), self.1)
    }
}

impl<Scalar: Copy, Type> Copy for Num<Scalar, Type> {

}

impl<Scalar: Default, Type> Default for Num<Scalar, Type> {
    /// The scalar's own default, wrapped.
    fn default() -> (r: Self)
        ensures
            call_ensures(Scalar::default, (), r.0),
    {
        Num(Scalar::default(), core::marker::PhantomData::<Type>)
    }
}

impl<Scalar, Type> From<Scalar> for Num<Scalar, Type> {
    /// Wraps `number`, as `new` does.
    fn from(number: Scalar) -> (r: Self)
        ensures
            r.0 == number,
    {
        Num(number, core::marker::PhantomData::<Type>)
    }
}

impl<Scalar, Type> FromSpecImpl<Scalar> for Num<Scalar, Type> {
    open spec fn obeys_from_spec() -> bool {
        true
    }

    open spec fn from_spec(number: Scalar) -> Self {
        Self::wrap(number)
    }
}

} // verus!
