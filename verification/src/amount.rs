//! Amounts of value, which are never zero.

use vstd::prelude::*;

verus! {

/// An amount of value. It is never zero: where nothing is owed, earned or
/// collected there is no amount at all.
#[derive(Debug, Clone, Copy, PartialEq, Eq)]
pub struct Amount(u128);

impl View for Amount {
    type V = u128;

    closed spec fn view(&self) -> u128 {
        self.0
    }
}

impl DeepView for Amount {
    type V = u128;

    open spec fn deep_view(&self) -> u128 {
        self@
    }
}

impl Amount {
    #[verifier::type_invariant]
    spec fn nonzero(self) -> bool {
        self.0 != 0
    }

    /// The amount `value`, unless `value` is zero.
    #[must_use]
    pub fn new(value: u128) -> (made: Option<Amount>)
        ensures
            value == 0 ==> made is None,
            value != 0 ==> made is Some && made->0@ == value,
    {
        if value == 0 {
            None
        } else {
            Some(Amount(value))
        }
    }

    /// The amount as a number, which is not zero.
    #[must_use]
    pub fn get(self) -> (value: u128)
        ensures
            value == self@,
            value != 0,
    {
        proof {
            use_type_invariant(&self);
        }
        self.0
    }

    /// The amount grown by `other`, unless that is more than 128 bits hold.
    #[must_use]
    pub fn checked_add(self, other: u128) -> (sum: Option<Amount>)
        ensures
            self@ + other > u128::MAX ==> sum is None,
            self@ + other <= u128::MAX ==> sum is Some && sum->0@ == self@ + other,
    {
        proof {
            use_type_invariant(&self);
        }
        match self.0.checked_add(other) {
            Some(total) => Some(Amount(total)),
            None => None,
        }
    }

    /// The product of two amounts, unless that is more than 128 bits hold.
    #[must_use]
    pub fn checked_mul(self, other: Amount) -> (product: Option<Amount>)
        ensures
            self@ * other@ > u128::MAX ==> product is None,
            self@ * other@ <= u128::MAX ==> product is Some && product->0@ == self@ * other@,
    {
        proof {
            use_type_invariant(&self);
            use_type_invariant(&other);
            assert(self.0 * other.0 != 0) by (nonlinear_arith)
                requires
                    self.0 != 0,
                    other.0 != 0,
            ;
        }
        match self.0.checked_mul(other.0) {
            Some(total) => Some(Amount(total)),
            None => None,
        }
    }

    /// What is left of the amount once `other` is taken away, if anything is.
    #[must_use]
    pub fn checked_sub(self, other: u128) -> (rest: Option<Amount>)
        ensures
            self@ <= other ==> rest is None,
            self@ > other ==> rest is Some && rest->0@ == self@ - other,
    {
        if self.0 > other {
            Some(Amount(self.0 - other))
        } else {
            None
        }
    }
}

/// The number of an amount that may be absent.
pub open spec fn number(amount: Option<Amount>) -> Option<u128> {
    match amount {
        Some(a) => Some(a@),
        None => None,
    }
}

/// The number of an amount that may be absent, with zero for none.
pub open spec fn or_zero(amount: Option<Amount>) -> u128 {
    match amount {
        Some(a) => a@,
        None => 0,
    }
}

} // verus!
