//! The collection ledger: what was paid out already, and what is to be
//! paid next.

use vstd::prelude::*;

use crate::amount::{number, Amount};
use crate::hub::dapp::{acts_for, may_act_for, ReadonlyStore as ReadonlyDappStore};
use crate::hub::ledger::{answered, sum_or_zero, written, Facts, Ledger, Model};
use crate::hub::referral::{Code, ReadonlyStore as ReadonlyReferralStore};
use crate::hub::reply::{Command, Effect};
use crate::hub::{follows, lift, Error};
use crate::id::Id;

verus! {

/// What the collection ledger lets one read.
pub trait ReadonlyStore: Model {
    /// What was paid out to `code` over all applications.
    fn referrer_total_collected(&self, code: Code) -> (r: Result<Option<Amount>, Self::Error>)
        ensures
            answered(*self, r, true),
            r matches Ok(Some(total)) ==> self.ledger().referrer_total_collected.get(code@)
                == Some(total@),
            r matches Ok(None) ==> !self.ledger().referrer_total_collected.contains_key(code@),
    ;

    /// What of the earnings of `code` at `dapp` was paid out.
    fn referrer_dapp_collected(&self, dapp: &Id, code: Code) -> (r: Result<
        Option<Amount>,
        Self::Error,
    >)
        ensures
            answered(*self, r, true),
            r matches Ok(Some(total)) ==> self.ledger().referrer_dapp_collected.get(
                (dapp@, code@),
            ) == Some(total@),
            r matches Ok(None) ==> !self.ledger().referrer_dapp_collected.contains_key(
                (dapp@, code@),
            ),
    ;

    /// What of the own share of `dapp` was paid out.
    fn dapp_total_collected(&self, dapp: &Id) -> (r: Result<Option<Amount>, Self::Error>)
        ensures
            answered(*self, r, true),
            r matches Ok(Some(total)) ==> self.ledger().dapp_total_collected.get(dapp@) == Some(
                total@,
            ),
            r matches Ok(None) ==> !self.ledger().dapp_total_collected.contains_key(dapp@),
    ;
}

/// What the collection ledger lets one change.
pub trait MutableStore: Model {
    /// Sets what was paid out to `code` over all applications.
    fn set_referrer_total_collected(&mut self, code: Code, total: Amount) -> (r: Result<
        (),
        Self::Error,
    >)
        ensures
            written(
                *old(self),
                *final(self),
                r,
                old(self).ledger().set_referrer_total_collected(code@, total@),
                true,
            ),
    ;

    /// Sets what of the earnings of `code` at `dapp` was paid out.
    fn set_referrer_dapp_collected(&mut self, dapp: &Id, code: Code, total: Amount) -> (r: Result<
        (),
        Self::Error,
    >)
        ensures
            written(
                *old(self),
                *final(self),
                r,
                old(self).ledger().set_referrer_dapp_collected(dapp@, code@, total@),
                true,
            ),
    ;

    /// Sets what of the own share of `dapp` was paid out.
    fn set_dapp_total_collected(&mut self, dapp: &Id, total: Amount) -> (r: Result<
        (),
        Self::Error,
    >)
        ensures
            written(
                *old(self),
                *final(self),
                r,
                old(self).ledger().set_dapp_total_collected(dapp@, total@),
                true,
            ),
    ;
}

/// What the hub asks the chain about rewards.
pub trait Query: Model {
    /// All that the rewards pot `pot` has ever reported as received, if it
    /// has received anything.
    fn dapp_total_rewards(&self, pot: &Id) -> (r: Result<Option<Amount>, Self::Error>)
        ensures
            answered(*self, r, true),
            r matches Ok(Some(total)) ==> self.facts().total_rewards.get(pot@) == Some(total@),
            r matches Ok(None) ==> !self.facts().total_rewards.contains_key(pot@),
    ;
}

/// What is to be paid when `earned` has been earned and `collected` was
/// paid before. Where nothing was ever paid, all that was earned is owed;
/// else what was earned since, if anything was.
pub open spec fn owed_amount(earned: u128, collected: Option<u128>) -> Option<u128> {
    match collected {
        None => if earned > 0 {
            Some(earned)
        } else {
            None
        },
        Some(paid) => if earned > paid {
            Some((earned - paid) as u128)
        } else {
            None
        },
    }
}

/// What is to be paid when `earned` has been earned and `collected` was
/// paid before, if anything is.
pub fn owed(earned: Amount, collected: Option<Amount>) -> (due: Option<Amount>)
    ensures
        due is Some <==> owed_amount(earned@, number(collected)) is Some,
        due matches Some(d) ==> Some(d@) == owed_amount(earned@, number(collected)),
{
    match collected {
        None => {
            let _ = earned.get();
            Some(earned)
        },
        Some(paid) => earned.checked_sub(paid.get()),
    }
}

/// The two commands of a payment: flush the pot, then pay out of it.
pub open spec fn payment(pot: Seq<char>, amount: u128, receiver: Seq<char>) -> Seq<Effect> {
    seq![Effect::WithdrawPending(pot), Effect::RedistributeRewards { amount, pot, receiver }]
}

/// The two commands of a payment: flush the pot, then pay out of it.
fn pay(pot: Id, amount: Amount, receiver: Id) -> (commands: Vec<Command>)
    ensures
        commands.deep_view() == payment(pot@, amount@, receiver@),
{
    let commands = vec![
        Command::WithdrawPending(pot.duplicate()),
        Command::RedistributeRewards { amount, pot, receiver },
    ];
    assert(commands.deep_view() =~= payment(pot@, amount@, receiver@));
    commands
}

/// What the rules make of a referrer's request to be paid what `code` has
/// earned at `dapp`.
pub open spec fn referrer_ruled(l: Ledger, sender: Seq<char>, dapp: Seq<char>, code: u64) -> Result<
    (Ledger, Seq<Effect>),
    Error<()>,
> {
    if !l.owner_of.contains_key(code) {
        Err(Error::ReferralCodeNotRegistered)
    } else if l.owner_of[code] != sender {
        Err(Error::Unauthorized)
    } else if !l.dapp_earnings.contains_key((dapp, code)) {
        Err(Error::NothingToCollect)
    } else {
        let earned = l.dapp_earnings[(dapp, code)];
        match owed_amount(earned, l.referrer_dapp_collected.get((dapp, code))) {
            None => Err(Error::NothingToCollect),
            Some(due) => {
                let paid = sum_or_zero(l.referrer_total_collected, code) + due;
                if paid > u128::MAX {
                    Err(Error::Overflow)
                } else if !l.rewards_pot.contains_key(dapp) {
                    Err(Error::Api(()))
                } else {
                    Ok(
                        (
                            l.set_referrer_total_collected(
                                code,
                                paid as u128,
                            ).set_referrer_dapp_collected(dapp, code, earned),
                            payment(l.rewards_pot[dapp], due, sender),
                        ),
                    )
                }
            },
        }
    }
}

/// Pays the owner of `code` what the code has earned at `dapp` and was not
/// paid yet: all of it at the first collection, and what was earned since
/// at a later one. The ledger notes all that was earned as paid, and the
/// hub asks that the application's pot be flushed and then pay the sender.
///
/// Turned down with `ReferralCodeNotRegistered` where the code was never
/// issued, with `Unauthorized` where the sender does not own it, with
/// `NothingToCollect` where the code has earned nothing at the application
/// or nothing since the last collection, and with `Overflow` where all
/// that was paid to the code does not fit in 128 bits.
pub fn referrer<Api>(api: &mut Api, sender: Id, dapp: &Id, code: Code) -> (r: Result<
    Vec<Command>,
    Error<Api::Error>,
>) where Api: ReadonlyStore + MutableStore + Query + ReadonlyReferralStore + ReadonlyDappStore
    ensures
        follows(
            *old(api),
            *final(api),
            r,
            referrer_ruled(old(api).ledger(), sender@, dapp@, code@),
        ),
{
    let owner = match lift(api.owner_of(code))? {
        Some(owner) => owner,
        None => {
            return Err(Error::ReferralCodeNotRegistered);
        },
    };
    if sender != owner {
        return Err(Error::Unauthorized);
    }
    let earned = match lift(api.dapp_earnings(dapp, code))? {
        Some(earned) => earned,
        None => {
            return Err(Error::NothingToCollect);
        },
    };
    let already_collected = lift(api.referrer_dapp_collected(dapp, code))?;
    let due = match owed(earned, already_collected) {
        Some(due) => due,
        None => {
            return Err(Error::NothingToCollect);
        },
    };
    let total_collected = match lift(api.referrer_total_collected(code))? {
        Some(total) => match total.checked_add(due.get()) {
            Some(sum) => sum,
            None => {
                return Err(Error::Overflow);
            },
        },
        None => due,
    };
    let pot = lift(api.rewards_pot(dapp))?;
    lift(api.set_referrer_total_collected(code, total_collected))?;
    lift(api.set_referrer_dapp_collected(dapp, code, earned))?;
    Ok(pay(pot, due, sender))
}

/// What is left to an application of the rewards its pot has reported once
/// what it gave to referrers is taken away, if anything is. An application
/// that has given nothing to referrers yet has nothing left to it either.
pub open spec fn remaining_share(l: Ledger, f: Facts, dapp: Seq<char>) -> Option<u128> {
    if !l.rewards_pot.contains_key(dapp) {
        None
    } else {
        match (f.total_rewards.get(l.rewards_pot[dapp]), l.contributions.get(dapp)) {
            (Some(rewards), Some(given)) => if rewards > given {
                Some((rewards - given) as u128)
            } else {
                None
            },
            _ => None,
        }
    }
}

/// What the rules make of an application's request to be paid its own
/// share.
pub open spec fn dapp_ruled(l: Ledger, f: Facts, sender: Seq<char>, dapp: Seq<char>) -> Result<
    (Ledger, Seq<Effect>),
    Error<()>,
> {
    match may_act_for(l, sender, dapp) {
        None => Err(Error::Api(())),
        Some(false) => Err(Error::Unauthorized),
        Some(true) => if !l.rewards_pot.contains_key(dapp) {
            Err(Error::Api(()))
        } else {
            match remaining_share(l, f, dapp) {
                None => Err(Error::NothingToCollect),
                Some(remaining) => match owed_amount(remaining, l.dapp_total_collected.get(dapp)) {
                    None => Err(Error::NothingToCollect),
                    Some(due) => Ok(
                        (
                            l.set_dapp_total_collected(dapp, remaining),
                            payment(l.rewards_pot[dapp], due, sender),
                        ),
                    ),
                },
            }
        },
    }
}

/// Pays an application what is left to it and was not paid yet: the
/// rewards its pot has reported, less what it gave to referrers, less what
/// it was paid before. The ledger notes all that is left to it as paid,
/// and the hub asks that the pot be flushed and then pay the sender.
///
/// Turned down with `Unauthorized` where the sender is neither the
/// application nor its collector, and with `NothingToCollect` where the
/// pot has reported nothing, the application has given nothing to
/// referrers, nothing is left to it, or nothing that was not paid before.
pub fn dapp<Api>(api: &mut Api, sender: Id, app: &Id) -> (r: Result<
    Vec<Command>,
    Error<Api::Error>,
>) where Api: ReadonlyStore + MutableStore + Query + ReadonlyReferralStore + ReadonlyDappStore
    ensures
        follows(
            *old(api),
            *final(api),
            r,
            dapp_ruled(old(api).ledger(), old(api).facts(), sender@, app@),
        ),
{
    if !acts_for(api, &sender, app)? {
        return Err(Error::Unauthorized);
    }
    let pot = lift(api.rewards_pot(app))?;
    let total_rewards = match lift(api.dapp_total_rewards(&pot))? {
        Some(total) => total,
        None => {
            return Err(Error::NothingToCollect);
        },
    };
    let given = match lift(api.dapp_contributions(app))? {
        Some(given) => given,
        None => {
            return Err(Error::NothingToCollect);
        },
    };
    let remaining = match total_rewards.checked_sub(given.get()) {
        Some(remaining) => remaining,
        None => {
            return Err(Error::NothingToCollect);
        },
    };
    let already_collected = lift(api.dapp_total_collected(app))?;
    let due = match owed(remaining, already_collected) {
        Some(due) => due,
        None => {
            return Err(Error::NothingToCollect);
        },
    };
    lift(api.set_dapp_total_collected(app, remaining))?;
    Ok(pay(pot, due, sender))
}

} // verus!
