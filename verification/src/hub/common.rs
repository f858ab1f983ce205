//! The share that an application gives to referrers.

use vstd::prelude::*;

use crate::amount::Amount;

verus! {

/// A share in percent, from 1 to 100.
#[derive(Debug, Clone, Copy, PartialEq, Eq)]
pub struct NonZeroPercent(u8);

impl View for NonZeroPercent {
    type V = u8;

    closed spec fn view(&self) -> u8 {
        self.0
    }
}

impl DeepView for NonZeroPercent {
    type V = u8;

    open spec fn deep_view(&self) -> u8 {
        self@
    }
}

/// Whether `percent` is a share that an application may give away.
pub open spec fn valid_percent(percent: u8) -> bool {
    1 <= percent <= 100
}

/// The share of `percent` in `fee`, rounded down.
pub open spec fn share_of(percent: u8, fee: u128) -> int {
    (fee * percent) / 100
}

impl NonZeroPercent {
    #[verifier::type_invariant]
    spec fn in_range(self) -> bool {
        valid_percent(self.0)
    }

    /// The share `percent`, unless it is zero or more than one hundred.
    #[must_use]
    pub fn new(percent: u8) -> (made: Option<NonZeroPercent>)
        ensures
            made is Some <==> valid_percent(percent),
            made is Some ==> made->0@ == percent,
    {
        if percent == 0 || percent > 100 {
            return None;
        }
        Some(NonZeroPercent(percent))
    }

    /// The share as a number from 1 to 100.
    #[must_use]
    pub fn to_u8(self) -> (percent: u8)
        ensures
            percent == self@,
            valid_percent(percent),
    {
        proof {
            use_type_invariant(&self);
        }
        self.0
    }

    /// This share of `amount`, rounded down. The outer `None` says that
    /// `amount` times the percentage does not fit in 128 bits; the inner one
    /// that the share rounds down to nothing.
    #[must_use]
    pub fn checked_apply_to(self, amount: Amount) -> (share: Option<Option<Amount>>)
        ensures
            amount@ * self@ > u128::MAX ==> share is None,
            amount@ * self@ <= u128::MAX ==> share is Some,
            share matches Some(None) ==> share_of(self@, amount@) == 0,
            share matches Some(Some(part)) ==> part@ == share_of(self@, amount@) && part@ > 0,
    {
        proof {
            use_type_invariant(&self);
        }
        let percent: u128 = self.0 as u128;
        match amount.get().checked_mul(percent) {
            Some(numer) => Some(Amount::new(numer / 100)),
            None => None,
        }
    }
}

} // verus!
