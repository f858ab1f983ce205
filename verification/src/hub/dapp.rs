//! The application registry: who is registered, what share each gives to
//! referrers, who collects for it, and which rewards pot is its own.

use vstd::prelude::*;

use crate::amount::Amount;
use crate::hub::common::NonZeroPercent;
use crate::hub::ledger::{answered, written, Facts, Ledger, Model};
use crate::hub::reply::{Command, Effect};
use crate::hub::{follows, lift, Error};
use crate::id::Id;

verus! {

/// What a registered application may change about itself. A field that is
/// absent leaves what the ledger holds.
#[derive(Debug, Clone, PartialEq)]
pub struct Metadata {
    pub percent: Option<NonZeroPercent>,
    pub collector: Option<Id>,
    pub repo_url: Option<String>,
}

/// What the application registry lets one read.
pub trait ReadonlyStore: Model {
    /// Whether `id` is a registered application.
    fn dapp_exists(&self, id: &Id) -> (r: Result<bool, Self::Error>)
        ensures
            answered(*self, r, true),
            r matches Ok(found) ==> found == self.ledger().registered(id@),
    ;

    /// The percentage of its fee that `id` gives to referrers.
    fn percent(&self, id: &Id) -> (r: Result<NonZeroPercent, Self::Error>)
        ensures
            answered(*self, r, self.ledger().percent.contains_key(id@)),
            r matches Ok(percent) ==> percent@ == self.ledger().percent[id@],
    ;

    /// Who may collect for `id`.
    fn collector(&self, id: &Id) -> (r: Result<Id, Self::Error>)
        ensures
            answered(*self, r, self.ledger().collector.contains_key(id@)),
            r matches Ok(collector) ==> collector@ == self.ledger().collector[id@],
    ;

    /// Whether `id` has a rewards pot.
    fn has_rewards_pot(&self, id: &Id) -> (r: Result<bool, Self::Error>)
        ensures
            answered(*self, r, true),
            r matches Ok(found) ==> found == self.ledger().rewards_pot.contains_key(id@),
    ;

    /// The rewards pot of `id`.
    fn rewards_pot(&self, id: &Id) -> (r: Result<Id, Self::Error>)
        ensures
            answered(*self, r, self.ledger().rewards_pot.contains_key(id@)),
            r matches Ok(pot) ==> pot@ == self.ledger().rewards_pot[id@],
    ;
}

/// What the application registry lets one change.
pub trait MutableStore: Model {
    /// Registers `id` under `name`.
    fn add_dapp(&mut self, id: &Id, name: String) -> (r: Result<(), Self::Error>)
        ensures
            written(*old(self), *final(self), r, old(self).ledger().add_dapp(id@, name@), true),
    ;

    /// Takes `id` out of the registered applications.
    fn remove_dapp(&mut self, id: &Id) -> (r: Result<(), Self::Error>)
        ensures
            written(*old(self), *final(self), r, old(self).ledger().remove_dapp(id@), true),
    ;

    /// Sets the percentage of its fee that `id` gives to referrers.
    fn set_percent(&mut self, id: &Id, percent: NonZeroPercent) -> (r: Result<(), Self::Error>)
        ensures
            written(
                *old(self),
                *final(self),
                r,
                old(self).ledger().set_percent(id@, percent@),
                true,
            ),
    ;

    /// Sets who may collect for `id`.
    fn set_collector(&mut self, id: &Id, collector: Id) -> (r: Result<(), Self::Error>)
        ensures
            written(
                *old(self),
                *final(self),
                r,
                old(self).ledger().set_collector(id@, collector@),
                true,
            ),
    ;

    /// Sets where the source of `id` is kept.
    fn set_repo_url(&mut self, id: &Id, repo_url: String) -> (r: Result<(), Self::Error>)
        ensures
            written(
                *old(self),
                *final(self),
                r,
                old(self).ledger().set_repo_url(id@, repo_url@),
                true,
            ),
    ;

    /// Sets the rewards pot of `id`.
    fn set_rewards_pot(&mut self, id: &Id, rewards_pot: Id) -> (r: Result<(), Self::Error>)
        ensures
            written(
                *old(self),
                *final(self),
                r,
                old(self).ledger().set_rewards_pot(id@, rewards_pot@),
                true,
            ),
    ;
}

/// What the hub asks the chain about applications and pots.
pub trait Query: Model {
    /// The hub's own identifier.
    fn self_id(&self) -> (r: Result<Id, Self::Error>)
        ensures
            answered(*self, r, true),
            r matches Ok(id) ==> id@ == self.facts().self_id,
    ;

    /// Who administers the rewards of `id`.
    fn rewards_admin(&self, id: &Id) -> (r: Result<Id, Self::Error>)
        ensures
            answered(*self, r, self.facts().rewards_admin.contains_key(id@)),
            r matches Ok(admin) ==> admin@ == self.facts().rewards_admin[id@],
    ;

    /// Who administers the rewards pot `id`.
    fn rewards_pot_admin(&self, id: &Id) -> (r: Result<Id, Self::Error>)
        ensures
            answered(*self, r, self.facts().rewards_pot_admin.contains_key(id@)),
            r matches Ok(admin) ==> admin@ == self.facts().rewards_pot_admin[id@],
    ;

    /// The fee that `id` charges now, if it charges one.
    fn current_fee(&self, id: &Id) -> (r: Result<Option<Amount>, Self::Error>)
        ensures
            answered(*self, r, true),
            r matches Ok(Some(fee)) ==> self.facts().current_fee.get(id@) == Some(fee@),
            r matches Ok(None) ==> !self.facts().current_fee.contains_key(id@),
    ;
}

/// Whether `sender` may act for `dapp`: it is the application itself or
/// the application's collector. `None`: it is not the application, and the
/// ledger knows no collector to hold it against.
pub open spec fn may_act_for(l: Ledger, sender: Seq<char>, dapp: Seq<char>) -> Option<bool> {
    if sender == dapp {
        Some(true)
    } else if l.collector.contains_key(dapp) {
        Some(l.collector[dapp] == sender)
    } else {
        None
    }
}

/// What the rules make of a registration.
pub open spec fn register_ruled(
    l: Ledger,
    f: Facts,
    sender: Seq<char>,
    name: Seq<char>,
    percent: u8,
    collector: Seq<char>,
) -> Result<(Ledger, Effect), Error<()>> {
    if l.registered(sender) {
        Err(Error::AlreadyRegistered)
    } else if !f.rewards_admin.contains_key(sender) {
        Err(Error::Api(()))
    } else if f.rewards_admin[sender] != f.self_id {
        Err(Error::InvalidRewardsAdmin)
    } else {
        Ok(
            (
                l.add_dapp(sender, name).set_percent(sender, percent).set_collector(
                    sender,
                    collector,
                ),
                Effect::CreateRewardsPot(sender),
            ),
        )
    }
}

/// Registers the sender as an application under `name`, with the
/// percentage it gives to referrers and its collector, and asks for a
/// rewards pot to be created for it.
///
/// Turned down with `AlreadyRegistered` where the sender is registered,
/// and with `InvalidRewardsAdmin` where the hub does not administer the
/// sender's rewards.
pub fn register<Api>(
    api: &mut Api,
    sender: Id,
    name: String,
    percent: NonZeroPercent,
    collector: Id,
) -> (r: Result<Command, Error<Api::Error>>) where Api: ReadonlyStore + MutableStore + Query
    ensures
        follows(
            *old(api),
            *final(api),
            r,
            register_ruled(
                old(api).ledger(),
                old(api).facts(),
                sender@,
                name@,
                percent@,
                collector@,
            ),
        ),
{
    if lift(api.dapp_exists(&sender))? {
        return Err(Error::AlreadyRegistered);
    }
    let own = lift(api.self_id())?;
    let admin = lift(api.rewards_admin(&sender))?;
    if own != admin {
        return Err(Error::InvalidRewardsAdmin);
    }
    lift(api.add_dapp(&sender, name))?;
    lift(api.set_percent(&sender, percent))?;
    lift(api.set_collector(&sender, collector))?;
    Ok(Command::CreateRewardsPot(sender))
}

/// What the rules make of the report that a rewards pot was created.
pub open spec fn set_rewards_pot_ruled(
    l: Ledger,
    f: Facts,
    dapp: Seq<char>,
    rewards_pot: Seq<char>,
) -> Result<(Ledger, Effect), Error<()>> {
    if !l.registered(dapp) {
        Err(Error::DappNotRegistered)
    } else if l.rewards_pot.contains_key(dapp) {
        Err(Error::RewardsPotAlreadySet)
    } else if !f.rewards_pot_admin.contains_key(rewards_pot) {
        Err(Error::Api(()))
    } else if f.rewards_pot_admin[rewards_pot] != f.self_id {
        Err(Error::InvalidRewardsPotAdmin)
    } else {
        Ok((l.set_rewards_pot(dapp, rewards_pot), Effect::SetRewardsRecipient(rewards_pot)))
    }
}

/// Takes in the report that `rewards_pot` was created for `dapp`: the pot
/// becomes the application's, and the hub asks that the application's
/// rewards go to it.
///
/// Turned down with `DappNotRegistered` where the application is not
/// registered, with `RewardsPotAlreadySet` where it has a pot, whichever
/// pot is reported, and with `InvalidRewardsPotAdmin` where the hub does
/// not administer the pot.
pub fn set_rewards_pot<Api>(api: &mut Api, dapp: &Id, rewards_pot: Id) -> (r: Result<
    Command,
    Error<Api::Error>,
>) where Api: ReadonlyStore + MutableStore + Query
    ensures
        follows(
            *old(api),
            *final(api),
            r,
            set_rewards_pot_ruled(old(api).ledger(), old(api).facts(), dapp@, rewards_pot@),
        ),
{
    if !lift(api.dapp_exists(dapp))? {
        return Err(Error::DappNotRegistered);
    }
    if lift(api.has_rewards_pot(dapp))? {
        return Err(Error::RewardsPotAlreadySet);
    }
    let own = lift(api.self_id())?;
    let admin = lift(api.rewards_pot_admin(&rewards_pot))?;
    if own != admin {
        return Err(Error::InvalidRewardsPotAdmin);
    }
    lift(api.set_rewards_pot(dapp, rewards_pot.duplicate()))?;
    Ok(Command::SetRewardsRecipient(rewards_pot))
}

/// Whether the rules let `sender` go on with a request about `dapp`, and
/// if not, why not.
pub open spec fn admitted(l: Ledger, sender: Seq<char>, dapp: Seq<char>) -> Result<
    (),
    Error<()>,
> {
    if !l.registered(dapp) {
        Err(Error::DappNotRegistered)
    } else {
        match may_act_for(l, sender, dapp) {
            None => Err(Error::Api(())),
            Some(false) => Err(Error::Unauthorized),
            Some(true) => Ok(()),
        }
    }
}

/// Whether `sender` is `dapp` or its collector.
pub(crate) fn acts_for<Api>(api: &Api, sender: &Id, dapp: &Id) -> (r: Result<bool, Error<Api::Error>>) where
    Api: ReadonlyStore,

    ensures
        r matches Ok(allowed) ==> may_act_for(api.ledger(), sender@, dapp@) == Some(allowed),
        r is Err ==> r matches Err(Error::Api(_)),
        r is Err ==> may_act_for(api.ledger(), sender@, dapp@) is None || !api.reliable(),
{
    if sender == dapp {
        return Ok(true);
    }
    let collector = lift(api.collector(dapp))?;
    Ok(*sender == collector)
}

/// What the rules make of a deregistration.
pub open spec fn deregister_ruled(
    l: Ledger,
    sender: Seq<char>,
    dapp: Seq<char>,
    rewards_admin: Seq<char>,
    rewards_recipient: Seq<char>,
) -> Result<(Ledger, Seq<Effect>), Error<()>> {
    match admitted(l, sender, dapp) {
        Err(e) => Err(e),
        Ok(_) => if !l.rewards_pot.contains_key(dapp) {
            Err(Error::Api(()))
        } else {
            Ok(
                (
                    l.remove_dapp(dapp),
                    seq![
                        Effect::WithdrawPending(l.rewards_pot[dapp]),
                        Effect::SetRewardsRecipient(rewards_recipient),
                        Effect::SetRewardsAdmin(rewards_admin),
                    ],
                ),
            )
        },
    }
}

/// Takes `dapp` out of the registered applications. The hub asks, in this
/// order, that the application's pot be flushed, that its rewards go to
/// `rewards_recipient`, and that `rewards_admin` administer them.
///
/// Turned down with `DappNotRegistered` where the application is not
/// registered, and with `Unauthorized` where the sender is neither the
/// application nor its collector.
pub fn deregister<Api>(
    api: &mut Api,
    sender: &Id,
    dapp: &Id,
    rewards_admin: Id,
    rewards_recipient: Id,
) -> (r: Result<Vec<Command>, Error<Api::Error>>) where Api: ReadonlyStore + MutableStore + Query
    ensures
        follows(
            *old(api),
            *final(api),
            r,
            deregister_ruled(
                old(api).ledger(),
                sender@,
                dapp@,
                rewards_admin@,
                rewards_recipient@,
            ),
        ),
{
    if !lift(api.dapp_exists(dapp))? {
        return Err(Error::DappNotRegistered);
    }
    if !acts_for(api, sender, dapp)? {
        return Err(Error::Unauthorized);
    }
    let pot = lift(api.rewards_pot(dapp))?;
    lift(api.remove_dapp(dapp))?;
    let commands = vec![
        Command::WithdrawPending(pot),
        Command::SetRewardsRecipient(rewards_recipient),
        Command::SetRewardsAdmin(rewards_admin),
    ];
    assert(commands.deep_view() =~= seq![
        Effect::WithdrawPending(pot@),
        Effect::SetRewardsRecipient(rewards_recipient@),
        Effect::SetRewardsAdmin(rewards_admin@),
    ]);
    Ok(commands)
}

impl Ledger {
    /// The ledger once `dapp` has what `metadata` holds, field by field.
    pub open spec fn configure(self, dapp: Seq<char>, metadata: Metadata) -> Ledger {
        let with_percent = match metadata.percent {
            Some(percent) => self.set_percent(dapp, percent@),
            None => self,
        };
        let with_collector = match metadata.collector {
            Some(collector) => with_percent.set_collector(dapp, collector@),
            None => with_percent,
        };
        match metadata.repo_url {
            Some(repo_url) => with_collector.set_repo_url(dapp, repo_url@),
            None => with_collector,
        }
    }
}

/// What the rules make of a change of an application's metadata.
pub open spec fn configure_ruled(
    l: Ledger,
    sender: Seq<char>,
    dapp: Seq<char>,
    metadata: Metadata,
) -> Result<(Ledger, ()), Error<()>> {
    match admitted(l, sender, dapp) {
        Err(e) => Err(e),
        Ok(_) => Ok((l.configure(dapp, metadata), ())),
    }
}

/// Overwrites what `metadata` holds of `dapp` and leaves the rest.
///
/// Turned down with `DappNotRegistered` where the application is not
/// registered, and with `Unauthorized` where the sender is neither the
/// application nor its collector.
pub fn configure<Api>(api: &mut Api, sender: &Id, dapp: &Id, metadata: Metadata) -> (r: Result<
    (),
    Error<Api::Error>,
>) where Api: ReadonlyStore + MutableStore
    ensures
        follows(
            *old(api),
            *final(api),
            r,
            configure_ruled(old(api).ledger(), sender@, dapp@, metadata),
        ),
{
    if !lift(api.dapp_exists(dapp))? {
        return Err(Error::DappNotRegistered);
    }
    if !acts_for(api, sender, dapp)? {
        return Err(Error::Unauthorized);
    }
    if let Some(percent) = metadata.percent {
        lift(api.set_percent(dapp, percent))?;
    }
    if let Some(collector) = metadata.collector {
        lift(api.set_collector(dapp, collector))?;
    }
    if let Some(repo_url) = metadata.repo_url {
        lift(api.set_repo_url(dapp, repo_url))?;
    }
    Ok(())
}

/// What the rules make of a request to set an application's fee.
pub open spec fn set_fee_ruled(l: Ledger, sender: Seq<char>, dapp: Seq<char>, amount: u128) -> Result<
    (Ledger, Effect),
    Error<()>,
> {
    match admitted(l, sender, dapp) {
        Err(e) => Err(e),
        Ok(_) => Ok((l, Effect::SetDappFee { dapp, amount })),
    }
}

/// Asks that the fee of `dapp` be set to `amount`. The ledger holds no fee
/// and does not change.
///
/// Turned down with `DappNotRegistered` where the application is not
/// registered, and with `Unauthorized` where the sender is neither the
/// application nor its collector.
pub fn set_fee<Api>(api: &mut Api, sender: &Id, dapp: Id, amount: Amount) -> (r: Result<
    Command,
    Error<Api::Error>,
>) where Api: ReadonlyStore
    ensures
        follows(
            *old(api),
            *final(api),
            r,
            set_fee_ruled(old(api).ledger(), sender@, dapp@, amount@),
        ),
{
    if !lift(api.dapp_exists(&dapp))? {
        return Err(Error::DappNotRegistered);
    }
    if !acts_for(api, sender, &dapp)? {
        return Err(Error::Unauthorized);
    }
    Ok(Command::SetDappFee { dapp, amount })
}

} // verus!
