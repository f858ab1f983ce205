//! The questions that the hub answers without changing anything.

use vstd::prelude::*;

use crate::amount::Amount;
use crate::hub::collect::Query as CollectQuery;
use crate::hub::common::NonZeroPercent;
use crate::hub::dapp::{Query as DappExternalQuery, ReadonlyStore as ReadonlyDappStore};
use crate::hub::ledger::{answered, count_or_zero, sum_or_zero, Facts, Ledger, Model};
use crate::hub::referral::{Code, ReadonlyStore as ReadonlyReferralStore};
use crate::hub::{lift, Error};
use crate::id::Id;

verus! {

/// What one may ask about the applications.
pub trait Dapps: Model {
    /// How many applications were ever registered.
    fn total_dapp_count(&self) -> (r: Result<u64, Self::Error>)
        ensures
            answered(*self, r, true),
            r matches Ok(count) ==> count == self.ledger().order.len(),
    ;

    /// The applications in the order in which each was registered first:
    /// from place `start` on, up to and with the one `limit` places
    /// further.
    fn all_dapp_ids(&self, start: Option<u64>, limit: Option<u64>) -> (r: Result<
        Vec<Id>,
        Self::Error,
    >)
        ensures
            answered(*self, r, self.ledger().page_exists(start)),
            r matches Ok(ids) ==> ids.deep_view() == self.ledger().page(start, limit),
    ;

    /// The name of `dapp`, if it is registered.
    fn dapp_name(&self, dapp: &Id) -> (r: Result<Option<String>, Self::Error>)
        ensures
            answered(*self, r, true),
            r matches Ok(Some(name)) ==> self.ledger().names.get(dapp@) == Some(name@),
            r matches Ok(None) ==> !self.ledger().names.contains_key(dapp@),
    ;

    /// Where the source of `dapp` is kept, if that was set.
    fn dapp_repo_url(&self, dapp: &Id) -> (r: Result<Option<String>, Self::Error>)
        ensures
            answered(*self, r, true),
            r matches Ok(Some(url)) ==> self.ledger().repo_url.get(dapp@) == Some(url@),
            r matches Ok(None) ==> !self.ledger().repo_url.contains_key(dapp@),
    ;

    /// How often any code was used at `dapp`.
    fn dapp_total_invocations(&self, dapp: &Id) -> (r: Result<u64, Self::Error>)
        ensures
            answered(*self, r, true),
            r matches Ok(count) ==> count == count_or_zero(
                self.ledger().total_invocations,
                dapp@,
            ),
    ;

    /// How many different codes were used at `dapp`.
    fn dapp_discrete_referrers(&self, dapp: &Id) -> (r: Result<u64, Self::Error>)
        ensures
            answered(*self, r, true),
            r matches Ok(count) ==> count == count_or_zero(
                self.ledger().discrete_referrers,
                dapp@,
            ),
    ;
}

/// What one may ask about the referrers.
pub trait Referrers: Model {
    /// The code that was last given to `referrer`, if one was.
    fn referral_code(&self, referrer: &Id) -> (r: Result<Option<Code>, Self::Error>)
        ensures
            answered(*self, r, true),
            r matches Ok(Some(code)) ==> self.ledger().code_of.get(referrer@) == Some(code@),
            r matches Ok(None) ==> !self.ledger().code_of.contains_key(referrer@),
    ;
}

/// All that is known of one application.
#[derive(Debug, Clone, PartialEq)]
pub struct DappInfo {
    pub id: Id,
    /// Whether the application takes referrals now: it has a name and
    /// charges a fee.
    pub active: bool,
    pub name: Option<String>,
    pub percent: NonZeroPercent,
    pub repo_url: Option<String>,
    pub fee: Option<Amount>,
    pub total_invocations: u64,
    pub discrete_referrers: u64,
    pub total_contributions: u128,
    pub total_rewards: u128,
}

/// All that is known of one application, as mathematics.
pub struct DappSummary {
    pub id: Seq<char>,
    pub active: bool,
    pub name: Option<Seq<char>>,
    pub percent: u8,
    pub repo_url: Option<Seq<char>>,
    pub fee: Option<u128>,
    pub total_invocations: u64,
    pub discrete_referrers: u64,
    pub total_contributions: u128,
    pub total_rewards: u128,
}

impl DeepView for DappInfo {
    type V = DappSummary;

    open spec fn deep_view(&self) -> DappSummary {
        DappSummary {
            id: self.id@,
            active: self.active,
            name: match self.name {
                Some(name) => Some(name@),
                None => None,
            },
            percent: self.percent@,
            repo_url: match self.repo_url {
                Some(url) => Some(url@),
                None => None,
            },
            fee: match self.fee {
                Some(fee) => Some(fee@),
                None => None,
            },
            total_invocations: self.total_invocations,
            discrete_referrers: self.discrete_referrers,
            total_contributions: self.total_contributions,
            total_rewards: self.total_rewards,
        }
    }
}

/// A question to the hub. Answering it changes nothing.
#[derive(Debug, Clone, PartialEq)]
pub enum Request {
    TotalDappCount,
    Dapp(Id),
    AllDapps { start: Option<u64>, limit: Option<u64> },
    ReferralCode(Id),
}

/// The hub's answer to a question.
#[derive(Debug, Clone, PartialEq)]
pub enum Response {
    TotalDappCount(u64),
    Dapp(DappInfo),
    AllDapps(Vec<DappInfo>),
    ReferralCode(Option<Code>),
}

/// The hub's answer to a question, as mathematics.
pub enum Told {
    TotalDappCount(u64),
    Dapp(DappSummary),
    AllDapps(Seq<DappSummary>),
    ReferralCode(Option<u64>),
}

impl DeepView for Response {
    type V = Told;

    open spec fn deep_view(&self) -> Told {
        match self {
            Response::TotalDappCount(count) => Told::TotalDappCount(*count),
            Response::Dapp(info) => Told::Dapp(info.deep_view()),
            Response::AllDapps(infos) => Told::AllDapps(infos.deep_view()),
            Response::ReferralCode(code) => Told::ReferralCode(
                match code {
                    Some(code) => Some(code@),
                    None => None,
                },
            ),
        }
    }
}

/// How the answer to a question stands to the ledger and the facts:
/// `ruled` is what they hold, or nothing where the store lacks a part of
/// it. The hub tells `ruled` or fails with an error of the store, and
/// where the store is reliable it fails only where `ruled` is nothing.
pub open spec fn tells<S: Model, T: DeepView>(
    api: S,
    r: Result<T, Error<S::Error>>,
    ruled: Option<T::V>,
) -> bool {
    &&& (r matches Ok(v) ==> ruled == Some(v.deep_view()))
    &&& (r is Err ==> r matches Err(Error::Api(_)))
    &&& api.reliable() && ruled is Some ==> r is Ok
}

/// What the ledger and the facts hold of the application `id`, if they
/// hold its percentage and its rewards pot.
pub open spec fn dapp_info_ruled(l: Ledger, f: Facts, id: Seq<char>) -> Option<DappSummary> {
    if l.percent.contains_key(id) && l.rewards_pot.contains_key(id) {
        Some(
            DappSummary {
                id,
                active: l.names.contains_key(id) && f.current_fee.contains_key(id),
                name: l.names.get(id),
                percent: l.percent[id],
                repo_url: l.repo_url.get(id),
                fee: f.current_fee.get(id),
                total_invocations: count_or_zero(l.total_invocations, id),
                discrete_referrers: count_or_zero(l.discrete_referrers, id),
                total_contributions: sum_or_zero(l.contributions, id),
                total_rewards: sum_or_zero(f.total_rewards, l.rewards_pot[id]),
            },
        )
    } else {
        None
    }
}

/// All that is known of the application `id`.
pub fn dapp_info<Api>(api: &Api, id: Id) -> (r: Result<DappInfo, Error<Api::Error>>) where
    Api: ReadonlyDappStore + Dapps + DappExternalQuery + ReadonlyReferralStore + CollectQuery,

    ensures
        tells(*api, r, dapp_info_ruled(api.ledger(), api.facts(), id@)),
{
    let name = lift(api.dapp_name(&id))?;
    let percent = lift(api.percent(&id))?;
    let repo_url = lift(api.dapp_repo_url(&id))?;
    let fee = lift(api.current_fee(&id))?;
    let total_invocations = lift(api.dapp_total_invocations(&id))?;
    let discrete_referrers = lift(api.dapp_discrete_referrers(&id))?;
    let total_contributions = match lift(api.dapp_contributions(&id))? {
        Some(given) => given.get(),
        None => 0,
    };
    let rewards_pot = lift(api.rewards_pot(&id))?;
    let total_rewards = match lift(api.dapp_total_rewards(&rewards_pot))? {
        Some(total) => total.get(),
        None => 0,
    };
    let active = name.is_some() && fee.is_some();
    Ok(
        DappInfo {
            id,
            active,
            name,
            percent,
            repo_url,
            fee,
            total_invocations,
            discrete_referrers,
            total_contributions,
            total_rewards,
        },
    )
}

/// What the ledger and the facts hold of each application in `ids`, if
/// they hold the percentage and the rewards pot of every one.
pub open spec fn dapp_infos_ruled(l: Ledger, f: Facts, ids: Seq<Seq<char>>) -> Option<
    Seq<DappSummary>,
> {
    if forall|i: int| 0 <= i < ids.len() ==> (#[trigger] dapp_info_ruled(l, f, ids[i])) is Some {
        Some(Seq::new(ids.len(), |i: int| dapp_info_ruled(l, f, ids[i])->0))
    } else {
        None
    }
}

/// What the ledger and the facts hold of the applications on one page.
pub open spec fn all_dapps_ruled(l: Ledger, f: Facts, start: Option<u64>, limit: Option<u64>) -> Option<
    Seq<DappSummary>,
> {
    if l.page_exists(start) {
        dapp_infos_ruled(l, f, l.page(start, limit))
    } else {
        None
    }
}

/// All that is known of the applications on one page, in the order in
/// which each was registered first.
pub fn all_dapps<Api>(api: &Api, start: Option<u64>, limit: Option<u64>) -> (r: Result<
    Vec<DappInfo>,
    Error<Api::Error>,
>) where Api: ReadonlyDappStore + Dapps + DappExternalQuery + ReadonlyReferralStore + CollectQuery
    ensures
        tells(*api, r, all_dapps_ruled(api.ledger(), api.facts(), start, limit)),
{
    let ids = lift(api.all_dapp_ids(start, limit))?;
    let ghost page = ids.deep_view();
    let mut dapps: Vec<DappInfo> = Vec::new();
    let mut at: usize = 0;
    while at < ids.len()
        invariant
            at <= ids.len(),
            ids.deep_view() == page,
            page == api.ledger().page(start, limit),
            dapps.len() == at,
            forall|i: int|
                0 <= i < at ==> dapp_info_ruled(api.ledger(), api.facts(), page[i]) == Some(
                    (#[trigger] dapps[i]).deep_view(),
                ),
            forall|i: int|
                0 <= i < at ==> (#[trigger] dapp_info_ruled(
                    api.ledger(),
                    api.facts(),
                    page[i],
                )) is Some,
        decreases ids.len() - at,
    {
        assert(ids[at as int].deep_view() == page[at as int]);
        let info = match dapp_info(api, ids[at].duplicate()) {
            Ok(info) => info,
            Err(e) => {
                assert(api.reliable() ==> dapp_info_ruled(
                    api.ledger(),
                    api.facts(),
                    page[at as int],
                ) is None);
                return Err(e);
            },
        };
        dapps.push(info);
        at += 1;
    }
    proof {
        let told = dapp_infos_ruled(api.ledger(), api.facts(), page);
        assert(told is Some);
        assert(dapps.deep_view() =~= told->0);
    }
    Ok(dapps)
}

/// What the ledger and the facts answer to a question.
pub open spec fn handle_ruled(l: Ledger, f: Facts, request: Request) -> Option<Told> {
    match request {
        Request::TotalDappCount => if l.order.len() <= u64::MAX {
            Some(Told::TotalDappCount(l.order.len() as u64))
        } else {
            None
        },
        Request::Dapp(id) => match dapp_info_ruled(l, f, id@) {
            Some(info) => Some(Told::Dapp(info)),
            None => None,
        },
        Request::AllDapps { start, limit } => match all_dapps_ruled(l, f, start, limit) {
            Some(infos) => Some(Told::AllDapps(infos)),
            None => None,
        },
        Request::ReferralCode(id) => Some(Told::ReferralCode(l.code_of.get(id@))),
    }
}

/// Answers one question.
pub fn handle<Api>(api: &Api, request: Request) -> (r: Result<Response, Error<Api::Error>>) where
    Api: Dapps + ReadonlyDappStore + DappExternalQuery + Referrers + ReadonlyReferralStore
        + CollectQuery,

    ensures
        tells(*api, r, handle_ruled(api.ledger(), api.facts(), request)),
{
    match request {
        Request::TotalDappCount => {
            let count = lift(api.total_dapp_count())?;
            Ok(Response::TotalDappCount(count))
        },
        Request::Dapp(id) => {
            let info = dapp_info(api, id)?;
            Ok(Response::Dapp(info))
        },
        Request::AllDapps { start, limit } => {
            let infos = all_dapps(api, start, limit)?;
            Ok(Response::AllDapps(infos))
        },
        Request::ReferralCode(id) => {
            let code = lift(api.referral_code(&id))?;
            Ok(Response::ReferralCode(code))
        },
    }
}

} // verus!
