//! The referral registry: the codes, who owns each, how often each was
//! used, and what each has earned.

use vstd::prelude::*;
use vstd::std_specs::convert::FromSpecImpl;

use crate::amount::{number, or_zero, Amount};
use crate::hub::common::{share_of, NonZeroPercent};
use crate::hub::dapp::{Query as DappQuery, ReadonlyStore as ReadonlyDappStore};
use crate::hub::ledger::{answered, sum_or_zero, written, Facts, Ledger, Model};
use crate::hub::{follows, lift, Error};
use crate::id::Id;

verus! {

/// A referral code: the number under which it was issued.
#[derive(Debug, Default, Clone, Copy, PartialEq, Eq)]
pub struct Code(u64);

impl View for Code {
    type V = u64;

    closed spec fn view(&self) -> u64 {
        self.0
    }
}

impl DeepView for Code {
    type V = u64;

    open spec fn deep_view(&self) -> u64 {
        self@
    }
}

impl Code {
    /// The code with the number `value`.
    pub fn new(value: u64) -> (code: Code)
        ensures
            code@ == value,
    {
        Code(value)
    }

    /// The code that is issued after this one, unless this is the last
    /// that 64 bits can hold.
    pub fn next(self) -> (after: Option<Code>)
        ensures
            self@ == u64::MAX ==> after is None,
            self@ < u64::MAX ==> after is Some && after->0@ == self@ + 1,
    {
        match self.0.checked_add(1) {
            Some(n) => Some(Code(n)),
            None => None,
        }
    }

    /// The code's number.
    #[must_use]
    pub fn to_u64(self) -> (value: u64)
        ensures
            value == self@,
    {
        self.0
    }
}

impl From<u64> for Code {
    fn from(value: u64) -> (code: Code) {
        Code(value)
    }
}

impl FromSpecImpl<u64> for Code {
    open spec fn obeys_from_spec() -> bool {
        true
    }

    closed spec fn from_spec(value: u64) -> Code {
        Code(value)
    }
}

/// What the referral registry lets one read.
pub trait ReadonlyStore: Model {
    /// Whether `code` was issued.
    fn code_exists(&self, code: Code) -> (r: Result<bool, Self::Error>)
        ensures
            answered(*self, r, true),
            r matches Ok(found) ==> found == self.ledger().owner_of.contains_key(code@),
    ;

    /// Whether `owner` holds a code, or held one.
    fn owner_exists(&self, owner: &Id) -> (r: Result<bool, Self::Error>)
        ensures
            answered(*self, r, true),
            r matches Ok(found) ==> found == self.ledger().owners.contains(owner@),
    ;

    /// The owner of `code`, if it was issued.
    fn owner_of(&self, code: Code) -> (r: Result<Option<Id>, Self::Error>)
        ensures
            answered(*self, r, true),
            r matches Ok(Some(owner)) ==> self.ledger().owner_of.get(code@) == Some(owner@),
            r matches Ok(None) ==> !self.ledger().owner_of.contains_key(code@),
    ;

    /// The code that was issued last, if any was.
    fn latest(&self) -> (r: Result<Option<Code>, Self::Error>)
        ensures
            answered(*self, r, true),
            r matches Ok(Some(code)) ==> self.ledger().latest == Some(code@),
            r matches Ok(None) ==> self.ledger().latest is None,
    ;

    /// What `code` has earned at all applications together.
    fn total_earnings(&self, code: Code) -> (r: Result<Option<Amount>, Self::Error>)
        ensures
            answered(*self, r, true),
            r matches Ok(Some(total)) ==> self.ledger().total_earnings.get(code@) == Some(total@),
            r matches Ok(None) ==> !self.ledger().total_earnings.contains_key(code@),
    ;

    /// What `code` has earned at `dapp`.
    fn dapp_earnings(&self, dapp: &Id, code: Code) -> (r: Result<Option<Amount>, Self::Error>)
        ensures
            answered(*self, r, true),
            r matches Ok(Some(total)) ==> self.ledger().dapp_earnings.get((dapp@, code@)) == Some(
                total@,
            ),
            r matches Ok(None) ==> !self.ledger().dapp_earnings.contains_key((dapp@, code@)),
    ;

    /// What `dapp` has given to all referrers together.
    fn dapp_contributions(&self, dapp: &Id) -> (r: Result<Option<Amount>, Self::Error>)
        ensures
            answered(*self, r, true),
            r matches Ok(Some(total)) ==> self.ledger().contributions.get(dapp@) == Some(total@),
            r matches Ok(None) ==> !self.ledger().contributions.contains_key(dapp@),
    ;
}

/// What the referral registry lets one change.
pub trait MutableStore: Model {
    /// Notes `code` as the one that was issued last.
    fn set_latest(&mut self, code: Code) -> (r: Result<(), Self::Error>)
        ensures
            written(*old(self), *final(self), r, old(self).ledger().set_latest(code@), true),
    ;

    /// Makes `owner` the owner of `code`.
    fn set_code_owner(&mut self, code: Code, owner: Id) -> (r: Result<(), Self::Error>)
        ensures
            written(
                *old(self),
                *final(self),
                r,
                old(self).ledger().set_code_owner(code@, owner@),
                true,
            ),
    ;

    /// Counts one more use of `code` at `dapp`.
    fn increment_invocations(&mut self, dapp: &Id, code: Code) -> (r: Result<(), Self::Error>)
        ensures
            written(
                *old(self),
                *final(self),
                r,
                old(self).ledger().count_invocation(dapp@, code@),
                old(self).ledger().can_count(dapp@, code@),
            ),
    ;

    /// Sets what `code` has earned at all applications together.
    fn set_total_earnings(&mut self, code: Code, total: Amount) -> (r: Result<(), Self::Error>)
        ensures
            written(
                *old(self),
                *final(self),
                r,
                old(self).ledger().set_total_earnings(code@, total@),
                true,
            ),
    ;

    /// Sets what `code` has earned at `dapp`.
    fn set_dapp_earnings(&mut self, dapp: &Id, code: Code, total: Amount) -> (r: Result<
        (),
        Self::Error,
    >)
        ensures
            written(
                *old(self),
                *final(self),
                r,
                old(self).ledger().set_dapp_earnings(dapp@, code@, total@),
                true,
            ),
    ;

    /// Sets what `dapp` has given to all referrers together.
    fn set_dapp_contributions(&mut self, dapp: &Id, contributions: Amount) -> (r: Result<
        (),
        Self::Error,
    >)
        ensures
            written(
                *old(self),
                *final(self),
                r,
                old(self).ledger().set_contributions(dapp@, contributions@),
                true,
            ),
    ;
}

/// What the rules make of a request for a referral code.
pub open spec fn register_ruled(l: Ledger, sender: Seq<char>) -> Result<(Ledger, u64), Error<()>> {
    let latest: u64 = match l.latest {
        Some(code) => code,
        None => 0,
    };
    if l.owners.contains(sender) {
        Err(Error::AlreadyRegistered)
    } else if latest == u64::MAX {
        Err(Error::Overflow)
    } else {
        let code = (latest + 1) as u64;
        Ok((l.set_code_owner(code, sender).set_latest(code), code))
    }
}

/// Issues the next referral code to the sender: the code after the one
/// issued last, or 1 where none was issued.
///
/// Turned down with `AlreadyRegistered` where the sender holds a code or
/// held one, and with `Overflow` where no code is left to issue.
pub fn register<Api>(api: &mut Api, sender: Id) -> (r: Result<Code, Error<Api::Error>>) where
    Api: ReadonlyStore + MutableStore,

    ensures
        follows(*old(api), *final(api), r, register_ruled(old(api).ledger(), sender@)),
{
    if lift(api.owner_exists(&sender))? {
        return Err(Error::AlreadyRegistered);
    }
    let latest = match lift(api.latest())? {
        Some(code) => code,
        None => Code(0),
    };
    let code = match latest.next() {
        Some(code) => code,
        None => {
            return Err(Error::Overflow);
        },
    };
    lift(api.set_code_owner(code, sender))?;
    lift(api.set_latest(code))?;
    Ok(code)
}

/// What the rules make of a transfer of a referral code.
pub open spec fn transfer_ownership_ruled(
    l: Ledger,
    sender: Seq<char>,
    code: u64,
    new_owner: Seq<char>,
) -> Result<(Ledger, ()), Error<()>> {
    if !l.owner_of.contains_key(code) {
        Err(Error::ReferralCodeNotRegistered)
    } else if l.owner_of[code] != sender {
        Err(Error::Unauthorized)
    } else {
        Ok((l.set_code_owner(code, new_owner), ()))
    }
}

/// Makes `new_owner` the owner of `code`.
///
/// Turned down with `ReferralCodeNotRegistered` where the code was never
/// issued, and with `Unauthorized` where the sender does not own it.
pub fn transfer_ownership<Api>(api: &mut Api, sender: &Id, code: Code, new_owner: Id) -> (r: Result<
    (),
    Error<Api::Error>,
>) where Api: ReadonlyStore + MutableStore
    ensures
        follows(
            *old(api),
            *final(api),
            r,
            transfer_ownership_ruled(old(api).ledger(), sender@, code@, new_owner@),
        ),
{
    let current_owner = match lift(api.owner_of(code))? {
        Some(owner) => owner,
        None => {
            return Err(Error::ReferralCodeNotRegistered);
        },
    };
    if *sender != current_owner {
        return Err(Error::Unauthorized);
    }
    lift(api.set_code_owner(code, new_owner))?;
    Ok(())
}

/// The three sums that one use of a referral code raises, as they stand
/// after it.
#[derive(Debug, Clone, Copy, PartialEq, Eq)]
pub struct Accrual {
    /// What the code has earned at all applications together.
    pub total_earnings: Amount,
    /// What the code has earned at the application.
    pub dapp_earnings: Amount,
    /// What the application has given to all referrers together.
    pub contributions: Amount,
}

/// The referrer's share of one use: nothing where the application charges
/// no fee or the share rounds down to nothing.
pub open spec fn referrer_share(percent: u8, fee: Option<u128>) -> int {
    match fee {
        Some(fee) => share_of(percent, fee),
        None => 0,
    }
}

/// Whether one use can be accounted for in 128 bits: the fee times the
/// percentage fits, and, where there is a share, so do the three sums
/// with the share added.
pub open spec fn accrual_fits(
    percent: u8,
    fee: Option<u128>,
    total: u128,
    at_dapp: u128,
    contributions: u128,
) -> bool {
    let share = referrer_share(percent, fee);
    &&& fee matches Some(fee) ==> fee * percent <= u128::MAX
    &&& total + share <= u128::MAX
    &&& at_dapp + share <= u128::MAX
    &&& contributions + share <= u128::MAX
}

/// Works out what one use of a referral code adds: the referrer's share
/// is the percentage of the fee, rounded down, and it is added to each of
/// the three sums. `Ok(None)`: there is no share, and nothing is added.
/// `Err(Overflow)`: one of the numbers does not fit.
pub fn accrue<E>(
    percent: NonZeroPercent,
    fee: Option<Amount>,
    total: Option<Amount>,
    at_dapp: Option<Amount>,
    contributions: Option<Amount>,
) -> (r: Result<Option<Accrual>, Error<E>>)
    ensures
        r is Ok <==> accrual_fits(
            percent@,
            number(fee),
            or_zero(total),
            or_zero(at_dapp),
            or_zero(contributions),
        ),
        r is Err ==> r matches Err(Error::Overflow),
        r matches Ok(None) ==> referrer_share(percent@, number(fee)) == 0,
        r matches Ok(Some(accrual)) ==> {
            let share = referrer_share(percent@, number(fee));
            &&& share > 0
            &&& accrual.total_earnings@ == or_zero(total) + share
            &&& accrual.dapp_earnings@ == or_zero(at_dapp) + share
            &&& accrual.contributions@ == or_zero(contributions) + share
        },
{
    let fee = match fee {
        Some(fee) => fee,
        None => {
            return Ok(None);
        },
    };
    let share = match percent.checked_apply_to(fee) {
        None => {
            return Err(Error::Overflow);
        },
        Some(None) => {
            return Ok(None);
        },
        Some(Some(share)) => share,
    };
    let total_earnings = match raised(total, share) {
        Some(sum) => sum,
        None => {
            return Err(Error::Overflow);
        },
    };
    let dapp_earnings = match raised(at_dapp, share) {
        Some(sum) => sum,
        None => {
            return Err(Error::Overflow);
        },
    };
    let contributions = match raised(contributions, share) {
        Some(sum) => sum,
        None => {
            return Err(Error::Overflow);
        },
    };
    Ok(Some(Accrual { total_earnings, dapp_earnings, contributions }))
}

/// A sum that may be absent, raised by `share`.
fn raised(sum: Option<Amount>, share: Amount) -> (r: Option<Amount>)
    ensures
        r is Some <==> or_zero(sum) + share@ <= u128::MAX,
        r matches Some(s) ==> s@ == or_zero(sum) + share@,
{
    match sum {
        Some(current) => current.checked_add(share.get()),
        None => Some(share),
    }
}

/// What the rules make of one use of `code` at the application `sender`.
pub open spec fn record_ruled(l: Ledger, f: Facts, sender: Seq<char>, code: u64) -> Result<
    (Ledger, ()),
    Error<()>,
> {
    let fee = f.current_fee.get(sender);
    let total = sum_or_zero(l.total_earnings, code);
    let at_dapp = sum_or_zero(l.dapp_earnings, (sender, code));
    let contributions = sum_or_zero(l.contributions, sender);
    if !l.registered(sender) {
        Err(Error::DappNotRegistered)
    } else if !l.owner_of.contains_key(code) {
        Err(Error::ReferralCodeNotRegistered)
    } else if !l.percent.contains_key(sender) {
        Err(Error::Api(()))
    } else if !accrual_fits(l.percent[sender], fee, total, at_dapp, contributions) {
        Err(Error::Overflow)
    } else if !l.can_count(sender, code) {
        Err(Error::Api(()))
    } else {
        let share = referrer_share(l.percent[sender], fee);
        let counted = l.count_invocation(sender, code);
        if share == 0 {
            Ok((counted, ()))
        } else {
            Ok(
                (
                    counted.set_total_earnings(code, (total + share) as u128).set_dapp_earnings(
                        sender,
                        code,
                        (at_dapp + share) as u128,
                    ).set_contributions(sender, (contributions + share) as u128),
                    (),
                ),
            )
        }
    }
}

/// Records one use of `code` at the application that sends the request.
/// The use is counted, and the referrer's share of the application's
/// current fee is added to what the code has earned in all, to what it has
/// earned at the application, and to what the application has given away.
/// A share that rounds down to nothing is not added; the use still counts.
///
/// Turned down with `DappNotRegistered` where the sender is no registered
/// application, with `ReferralCodeNotRegistered` where the code was never
/// issued, and with `Overflow` where a number does not fit; nothing is
/// counted or added then.
pub fn record<Api>(api: &mut Api, sender: &Id, code: Code) -> (r: Result<(), Error<Api::Error>>) where
    Api: ReadonlyStore + MutableStore + DappQuery + ReadonlyDappStore,

    ensures
        follows(
            *old(api),
            *final(api),
            r,
            record_ruled(old(api).ledger(), old(api).facts(), sender@, code@),
        ),
{
    if !lift(api.dapp_exists(sender))? {
        return Err(Error::DappNotRegistered);
    }
    if !lift(api.code_exists(code))? {
        return Err(Error::ReferralCodeNotRegistered);
    }
    let percent = lift(api.percent(sender))?;
    let fee = lift(api.current_fee(sender))?;
    let total = lift(api.total_earnings(code))?;
    let at_dapp = lift(api.dapp_earnings(sender, code))?;
    let contributions = lift(api.dapp_contributions(sender))?;
    let accrual = accrue(percent, fee, total, at_dapp, contributions)?;
    lift(api.increment_invocations(sender, code))?;
    if let Some(accrual) = accrual {
        lift(api.set_total_earnings(code, accrual.total_earnings))?;
        lift(api.set_dapp_earnings(sender, code, accrual.dapp_earnings))?;
        lift(api.set_dapp_contributions(sender, accrual.contributions))?;
    }
    Ok(())
}

} // verus!
