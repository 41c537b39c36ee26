//! The operators of std on labelled scalars: each is the scalars' own,
//! under the label. Both operands carry the same label, and so does the
//! result.

use vstd::prelude::*;
use core::ops::Add;
use core::ops::AddAssign;
use core::ops::Div;
use core::ops::DivAssign;
use core::ops::Mul;
use core::ops::MulAssign;
use core::ops::Neg;
use core::ops::Rem;
use core::ops::RemAssign;
use core::ops::Sub;
use core::ops::SubAssign;
use vstd::std_specs::ops::AddSpec;
use vstd::std_specs::ops::AddSpecImpl;
use vstd::std_specs::ops::DivSpec;
use vstd::std_specs::ops::DivSpecImpl;
use vstd::std_specs::ops::MulSpec;
use vstd::std_specs::ops::MulSpecImpl;
use vstd::std_specs::ops::NegSpec;
use vstd::std_specs::ops::NegSpecImpl;
use vstd::std_specs::ops::RemSpec;
use vstd::std_specs::ops::RemSpecImpl;
use vstd::std_specs::ops::SubSpec;
use vstd::std_specs::ops::SubSpecImpl;
use crate::num::Num;

verus! {

impl<Scalar: Add<Output = Scalar>, Type> Add for Num<Scalar, Type> {
    type Output = Self;

    /// `self.0 + other.0`, wrapped: it is defined where the scalars'
    /// `+` is, and the result holds what that gives.
    fn add(self, other: Self) -> (r: Self)
        ensures
            call_ensures(Scalar::add, (self.0, other.0), r.0),
    {
        Num::new(self.0 + other.0)
    }
}

impl<Scalar: Add<Output = Scalar>, Type> AddSpecImpl for Num<Scalar, Type> {
    open spec fn obeys_add_spec() -> bool {
        Scalar::obeys_add_spec()
    }

    open spec fn add_req(self, other: Self) -> bool {
        self.0.add_req(other.0)
    }

    open spec fn add_spec(self, other: Self) -> Self {
        Self::wrap(self.0.add_spec(other.0))
    }
}

impl<Scalar: Add<Output = Scalar> + Copy, Type> AddAssign for Num<Scalar, Type> {
    /// Puts `self.0 + other.0` in place of `self.0`.
    fn add_assign(&mut self, other: Self)
        requires
            old(self).0.add_req(other.0),
        ensures
            call_ensures(Scalar::add, (old(self).0, other.0), final(self).0),
            Scalar::obeys_add_spec() ==> final(self).0 == old(self).0.add_spec(other.0),
    {
        self.0 = self.0 + other.0;
    }
}

impl<Scalar: Sub<Output = Scalar>, Type> Sub for Num<Scalar, Type> {
    type Output = Self;

    /// `self.0 - other.0`, wrapped: it is defined where the scalars'
    /// `-` is, and the result holds what that gives.
    fn sub(self, other: Self) -> (r: Self)
        ensures
            call_ensures(Scalar::sub, (self.0, other.0), r.0),
    {
        Num::new(self.0 - other.0)
    }
}

impl<Scalar: Sub<Output = Scalar>, Type> SubSpecImpl for Num<Scalar, Type> {
    open spec fn obeys_sub_spec() -> bool {
        Scalar::obeys_sub_spec()
    }

    open spec fn sub_req(self, other: Self) -> bool {
        self.0.sub_req(other.0)
    }

    open spec fn sub_spec(self, other: Self) -> Self {
        Self::wrap(self.0.sub_spec(other.0))
    }
}

impl<Scalar: Sub<Output = Scalar> + Copy, Type> SubAssign for Num<Scalar, Type> {
    /// Puts `self.0 - other.0` in place of `self.0`.
    fn sub_assign(&mut self, other: Self)
        requires
            old(self).0.sub_req(other.0),
        ensures
            call_ensures(Scalar::sub, (old(self).0, other.0), final(self).0),
            Scalar::obeys_sub_spec() ==> final(self).0 == old(self).0.sub_spec(other.0),
    {
        self.0 = self.0 - other.0;
    }
}

impl<Scalar: Mul<Output = Scalar>, Type> Mul for Num<Scalar, Type> {
    type Output = Self;

    /// `self.0 * other.0`, wrapped: it is defined where the scalars'
    /// `*` is, and the result holds what that gives.
    fn mul(self, other: Self) -> (r: Self)
        ensures
            call_ensures(Scalar::mul, (self.0, other.0), r.0),
    {
        Num::new(self.0 * other.0)
    }
}

impl<Scalar: Mul<Output = Scalar>, Type> MulSpecImpl for Num<Scalar, Type> {
    open spec fn obeys_mul_spec() -> bool {
        Scalar::obeys_mul_spec()
    }

    open spec fn mul_req(self, other: Self) -> bool {
        self.0.mul_req(other.0)
    }

    open spec fn mul_spec(self, other: Self) -> Self {
        Self::wrap(self.0.mul_spec(other.0))
    }
}

impl<Scalar: Mul<Output = Scalar> + Copy, Type> MulAssign for Num<Scalar, Type> {
    /// Puts `self.0 * other.0` in place of `self.0`.
    fn mul_assign(&mut self, other: Self)
        requires
            old(self).0.mul_req(other.0),
        ensures
            call_ensures(Scalar::mul, (old(self).0, other.0), final(self).0),
            Scalar::obeys_mul_spec() ==> final(self).0 == old(self).0.mul_spec(other.0),
    {
        self.0 = self.0 * other.0;
    }
}

impl<Scalar: Div<Output = Scalar>, Type> Div for Num<Scalar, Type> {
    type Output = Self;

    /// `self.0 / other.0`, wrapped: it is defined where the scalars'
    /// `/` is, and the result holds what that gives.
    fn div(self, other: Self) -> (r: Self)
        ensures
            call_ensures(Scalar::div, (self.0, other.0), r.0),
    {
        Num::new(self.0 / other.0)
    }
}

impl<Scalar: Div<Output = Scalar>, Type> DivSpecImpl for Num<Scalar, Type> {
    open spec fn obeys_div_spec() -> bool {
        Scalar::obeys_div_spec()
    }

    open spec fn div_req(self, other: Self) -> bool {
        self.0.div_req(other.0)
    }

    open spec fn div_spec(self, other: Self) -> Self {
        Self::wrap(self.0.div_spec(other.0))
    }
}

impl<Scalar: Div<Output = Scalar> + Copy, Type> DivAssign for Num<Scalar, Type> {
    /// Puts `self.0 / other.0` in place of `self.0`.
    fn div_assign(&mut self, other: Self)
        requires
            old(self).0.div_req(other.0),
        ensures
            call_ensures(Scalar::div, (old(self).0, other.0), final(self).0),
            Scalar::obeys_div_spec() ==> final(self).0 == old(self).0.div_spec(other.0),
    {
        self.0 = self.0 / other.0;
    }
}

impl<Scalar: Rem<Output = Scalar>, Type> Rem for Num<Scalar, Type> {
    type Output = Self;

    /// `self.0 % other.0`, wrapped: it is defined where the scalars'
    /// `%` is, and the result holds what that gives.
    fn rem(self, other: Self) -> (r: Self)
        ensures
            call_ensures(Scalar::rem, (self.0, other.0), r.0),
    {
        Num::new(self.0 % other.0)
    }
}

impl<Scalar: Rem<Output = Scalar>, Type> RemSpecImpl for Num<Scalar, Type> {
    open spec fn obeys_rem_spec() -> bool {
        Scalar::obeys_rem_spec()
    }

    open spec fn rem_req(self, other: Self) -> bool {
        self.0.rem_req(other.0)
    }

    open spec fn rem_spec(self, other: Self) -> Self {
        Self::wrap(self.0.rem_spec(other.0))
    }
}

impl<Scalar: Rem<Output = Scalar> + Copy, Type> RemAssign for Num<Scalar, Type> {
    /// Puts `self.0 % other.0` in place of `self.0`.
    fn rem_assign(&mut self, other: Self)
        requires
            old(self).0.rem_req(other.0),
        ensures
            call_ensures(Scalar::rem, (old(self).0, other.0), final(self).0),
            Scalar::obeys_rem_spec() ==> final(self).0 == old(self).0.rem_spec(other.0),
    {
        self.0 = self.0 % other.0;
    }
}

impl<Scalar: Neg<Output = Scalar>, Type> Neg for Num<Scalar, Type> {
    type Output = Self;

    /// `-self.0`, wrapped: it is defined where the scalar's negation is, and
    /// the result holds what that gives.
    fn neg(self) -> (r: Self)
        ensures
            call_ensures(Scalar::neg, (self.0,), r.0),
    {
        Num::new(self.0.neg())
    }
}

impl<Scalar: Neg<Output = Scalar>, Type> NegSpecImpl for Num<Scalar, Type> {
    open spec fn obeys_neg_spec() -> bool {
        Scalar::obeys_neg_spec()
    }

    open spec fn neg_req(self) -> bool {
        self.0.neg_req()
    }

    open spec fn neg_spec(self) -> Self {
        Self::wrap(self.0.neg_spec())
    }
}

} // verus!
