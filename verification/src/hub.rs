//! The hub: the registry of applications, the referral codes with what
//! they earn, the ledger of what was paid, and the router that takes each
//! request to the one operation it asks for.

use vstd::prelude::*;
use vstd::std_specs::convert::FromSpecImpl;

pub mod collect;
pub mod common;
pub mod dapp;
pub mod laws;
pub mod ledger;
pub mod msg;
pub mod query;
pub mod referral;
pub mod reply;
pub mod sums;

pub use collect::MutableStore as MutableCollectStore;
pub use collect::Query as CollectQuery;
pub use collect::ReadonlyStore as ReadonlyCollectStore;
pub use common::{share_of, valid_percent, NonZeroPercent};
pub use dapp::Metadata as DappMetadata;
pub use dapp::MutableStore as MutableDappStore;
pub use dapp::Query as DappQuery;
pub use dapp::ReadonlyStore as ReadonlyDappStore;
pub use ledger::{Facts, Ledger, Model};
pub use query::Dapps as DappsQuery;
pub use query::Referrers as ReferrersQuery;
pub use query::{DappInfo, Request as QueryRequest, Response as QueryResponse};
pub use msg::{Collection, Configure, Kind, Msg, Registration};
pub use referral::Code as ReferralCode;
pub use referral::MutableStore as MutableReferralStore;
pub use referral::ReadonlyStore as ReadonlyReferralStore;
pub use reply::handle as handle_reply;
pub use reply::Handle as HandleReply;
pub use reply::{Answer, Command, Effect, Outbox, Reply};

verus! {

/// Why the hub turned a request down. A request that is turned down for one
/// of the hub's own reasons has changed nothing.
#[derive(Debug)]
pub enum Error<Api> {
    /// The store or the chain failed, or does not hold what was asked for.
    Api(Api),
    /// The sender may not do this.
    Unauthorized,
    /// The sender is registered already.
    AlreadyRegistered,
    /// The application is not registered.
    DappNotRegistered,
    /// No such referral code was issued.
    ReferralCodeNotRegistered,
    /// The hub does not administer the application's rewards.
    InvalidRewardsAdmin,
    /// The hub does not administer the rewards pot.
    InvalidRewardsPotAdmin,
    /// The application has a rewards pot already.
    RewardsPotAlreadySet,
    /// A sum or a product does not fit in its number.
    Overflow,
    /// Nothing is owed.
    NothingToCollect,
}

impl<Api> View for Error<Api> {
    type V = Error<()>;

    open spec fn view(&self) -> Error<()> {
        match self {
            Error::Api(_) => Error::Api(()),
            Error::Unauthorized => Error::Unauthorized,
            Error::AlreadyRegistered => Error::AlreadyRegistered,
            Error::DappNotRegistered => Error::DappNotRegistered,
            Error::ReferralCodeNotRegistered => Error::ReferralCodeNotRegistered,
            Error::InvalidRewardsAdmin => Error::InvalidRewardsAdmin,
            Error::InvalidRewardsPotAdmin => Error::InvalidRewardsPotAdmin,
            Error::RewardsPotAlreadySet => Error::RewardsPotAlreadySet,
            Error::Overflow => Error::Overflow,
            Error::NothingToCollect => Error::NothingToCollect,
        }
    }
}

impl<Api> From<Api> for Error<Api> {
    fn from(error: Api) -> (wrapped: Error<Api>) {
        Error::Api(error)
    }
}

impl<Api> FromSpecImpl<Api> for Error<Api> {
    open spec fn obeys_from_spec() -> bool {
        true
    }

    open spec fn from_spec(error: Api) -> Error<Api> {
        Error::Api(error)
    }
}

impl<Api> Error<Api> {
    /// The words for this error. An error of the store or the chain has
    /// none here: it brings its own.
    pub fn message(&self) -> (words: Option<String>)
        ensures
            words is None <==> self is Api,
            self is Unauthorized ==> words->0@ == "unauthorised"@,
            self is AlreadyRegistered ==> words->0@ == "already registered"@,
            self is DappNotRegistered ==> words->0@ == "dapp not registered"@,
            self is ReferralCodeNotRegistered ==> words->0@ == "referral code not registered"@,
            self is InvalidRewardsAdmin ==> words->0@ == "invalid rewards admin"@,
            self is InvalidRewardsPotAdmin ==> words->0@ == "invalid rewards pot admin"@,
            self is RewardsPotAlreadySet ==> words->0@ == "rewards pot already set"@,
            self is Overflow ==> words->0@ == "math overflow"@,
            self is NothingToCollect ==> words->0@ == "nothing to collect"@,
    {
        match self {
            Error::Api(_) => None,
            Error::Unauthorized => Some("unauthorised".to_owned()),
            Error::AlreadyRegistered => Some("already registered".to_owned()),
            Error::DappNotRegistered => Some("dapp not registered".to_owned()),
            Error::ReferralCodeNotRegistered => Some("referral code not registered".to_owned()),
            Error::InvalidRewardsAdmin => Some("invalid rewards admin".to_owned()),
            Error::InvalidRewardsPotAdmin => Some("invalid rewards pot admin".to_owned()),
            Error::RewardsPotAlreadySet => Some("rewards pot already set".to_owned()),
            Error::Overflow => Some("math overflow".to_owned()),
            Error::NothingToCollect => Some("nothing to collect".to_owned()),
        }
    }
}

/// The answer of the store or the chain, as the hub hands it on.
pub(crate) fn lift<T, E>(r: Result<T, E>) -> (lifted: Result<T, Error<E>>)
    ensures
        r matches Ok(v) ==> lifted == Ok::<T, Error<E>>(v),
        r matches Err(e) ==> lifted == Err::<T, Error<E>>(Error::Api(e)),
{
    match r {
        Ok(v) => Ok(v),
        Err(e) => Err(Error::Api(e)),
    }
}

/// How the call of an operation stands to what the rules say of it.
///
/// `ruled` is what the rules make of the ledger and the facts before the
/// call: the new ledger with the operation's answer, or the reason why the
/// request is turned down; where the store lacks what the operation has to
/// read, that reason is `Api`. The call may give `ruled` and nothing else,
/// but for an unreliable store, which may fail where the rules would go on.
/// A request that is turned down for one of the hub's own reasons, or by a
/// reliable store, leaves the ledger as it was. The facts never change.
pub open spec fn follows<S: Model, T: DeepView>(
    before: S,
    after: S,
    r: Result<T, Error<S::Error>>,
    ruled: Result<(Ledger, T::V), Error<()>>,
) -> bool {
    &&& after.facts() == before.facts()
    &&& after.reliable() == before.reliable()
    &&& match r {
        Ok(v) => ruled == Ok::<(Ledger, T::V), Error<()>>((after.ledger(), v.deep_view())),
        Err(Error::Api(_)) => ruled == Err::<(Ledger, T::V), Error<()>>(Error::Api(()))
            || !before.reliable(),
        Err(e) => ruled == Err::<(Ledger, T::V), Error<()>>(e@) && after.ledger()
            == before.ledger(),
    }
    &&& before.reliable() && r is Err ==> after.ledger() == before.ledger()
}

/// The rules' verdict on a request, with the operation's answer turned
/// into the reply that carries it.
pub open spec fn replied<T>(
    ruled: Result<(Ledger, T), Error<()>>,
    reply: spec_fn(T) -> Answer,
) -> Result<(Ledger, Answer), Error<()>> {
    match ruled {
        Ok((ledger, answer)) => Ok((ledger, reply(answer))),
        Err(e) => Err(e),
    }
}

/// What the rules make of a request: the one operation that its kind names,
/// on the ledger and the facts as they are, and that operation's answer as
/// a reply.
pub open spec fn exec_ruled(l: Ledger, f: Facts, msg: Msg) -> Result<(Ledger, Answer), Error<()>> {
    let sender = msg.sender@;
    match msg.kind {
        Kind::Register(Registration::Referrer) => replied(
            referral::register_ruled(l, sender),
            |code: u64| Answer::ReferralCode(code),
        ),
        Kind::Register(Registration::Dapp { name, percent, collector }) => replied(
            dapp::register_ruled(l, f, sender, name@, percent@, collector@),
            |effect: Effect| Answer::Cmd(effect),
        ),
        Kind::Register(Registration::RewardsPot { dapp, rewards_pot }) => replied(
            dapp::set_rewards_pot_ruled(l, f, dapp@, rewards_pot@),
            |effect: Effect| Answer::Cmd(effect),
        ),
        Kind::Register(
            Registration::DeregisterDapp { dapp, rewards_admin, rewards_recipient },
        ) => replied(
            dapp::deregister_ruled(l, sender, dapp@, rewards_admin@, rewards_recipient@),
            |effects: Seq<Effect>| Answer::MultiCmd(effects),
        ),
        Kind::Referral { code } => replied(
            referral::record_ruled(l, f, sender, code@),
            |done: ()| Answer::Empty,
        ),
        Kind::Collect(Collection::Referrer { dapp, code }) => replied(
            collect::referrer_ruled(l, sender, dapp@, code@),
            |effects: Seq<Effect>| Answer::MultiCmd(effects),
        ),
        Kind::Collect(Collection::Dapp { dapp }) => replied(
            collect::dapp_ruled(l, f, sender, dapp@),
            |effects: Seq<Effect>| Answer::MultiCmd(effects),
        ),
        Kind::Config(Configure::TransferReferralCodeOwnership { code, owner }) => replied(
            referral::transfer_ownership_ruled(l, sender, code@, owner@),
            |done: ()| Answer::Empty,
        ),
        Kind::Config(Configure::DappMetadata { dapp, metadata }) => replied(
            dapp::configure_ruled(l, sender, dapp@, metadata),
            |done: ()| Answer::Empty,
        ),
        Kind::Config(Configure::DappFee { dapp, fee }) => replied(
            dapp::set_fee_ruled(l, sender, dapp@, fee@),
            |effect: Effect| Answer::Cmd(effect),
        ),
    }
}

/// Handles one request: the hub's entry point. The request goes to the one
/// operation that its kind names, and the reply carries that operation's
/// answer: nothing, a referral code, one command, or several commands in
/// the order in which they are to be carried out.
pub fn exec<Api>(api: &mut Api, msg: Msg) -> (r: Result<Reply, Error<Api::Error>>) where
    Api: ReadonlyDappStore + MutableDappStore + DappQuery + ReadonlyReferralStore
        + MutableReferralStore + ReadonlyCollectStore + MutableCollectStore + CollectQuery,

    ensures
        follows(*old(api), *final(api), r, exec_ruled(old(api).ledger(), old(api).facts(), msg)),
{
    let sender = msg.sender;
    match msg.kind {
        Kind::Register(Registration::Referrer) => {
            let code = referral::register(api, sender)?;
            Ok(Reply::ReferralCode(code))
        },
        Kind::Register(Registration::Dapp { name, percent, collector }) => {
            let command = dapp::register(api, sender, name, percent, collector)?;
            Ok(Reply::Cmd(command))
        },
        Kind::Register(Registration::RewardsPot { dapp, rewards_pot }) => {
            let command = dapp::set_rewards_pot(api, &dapp, rewards_pot)?;
            Ok(Reply::Cmd(command))
        },
        Kind::Register(Registration::DeregisterDapp { dapp, rewards_admin, rewards_recipient }) => {
            let commands = dapp::deregister(api, &sender, &dapp, rewards_admin, rewards_recipient)?;
            Ok(Reply::MultiCmd(commands))
        },
        Kind::Referral { code } => {
            referral::record(api, &sender, code)?;
            Ok(Reply::Empty)
        },
        Kind::Collect(Collection::Referrer { dapp, code }) => {
            let commands = collect::referrer(api, sender, &dapp, code)?;
            Ok(Reply::MultiCmd(commands))
        },
        Kind::Collect(Collection::Dapp { dapp }) => {
            let commands = collect::dapp(api, sender, &dapp)?;
            Ok(Reply::MultiCmd(commands))
        },
        Kind::Config(Configure::TransferReferralCodeOwnership { code, owner }) => {
            referral::transfer_ownership(api, &sender, code, owner)?;
            Ok(Reply::Empty)
        },
        Kind::Config(Configure::DappMetadata { dapp, metadata }) => {
            dapp::configure(api, &sender, &dapp, metadata)?;
            Ok(Reply::Empty)
        },
        Kind::Config(Configure::DappFee { dapp, fee }) => {
            let command = dapp::set_fee(api, &sender, dapp, fee)?;
            Ok(Reply::Cmd(command))
        },
    }
}

} // verus!
