//! A hub that lives in memory: a store that keeps the whole ledger, and
//! the chain's facts as fixed answers. It serves tests and examples, and
//! shows that the capabilities can be had.

use vstd::prelude::*;

use crate::amount::Amount;
use crate::hub::collect::{
    MutableStore as MutableCollectStore, Query as CollectQuery,
    ReadonlyStore as ReadonlyCollectStore,
};
use crate::hub::common::NonZeroPercent;
use crate::hub::dapp::{
    MutableStore as MutableDappStore, Query as DappQuery, ReadonlyStore as ReadonlyDappStore,
};
use crate::hub::ledger::{count_or_zero, Facts, Ledger, Model};
use crate::hub::query::{Dapps, Referrers};
use crate::hub::referral::{
    Code, MutableStore as MutableReferralStore, ReadonlyStore as ReadonlyReferralStore,
};
use crate::hub::reply::{Command, Effect, Handle, Outbox};
use crate::id::Id;
use crate::rewards_pot;
use crate::storage::{count_invocation, page_bounds, Invocations};
use crate::table::{Key, Table};
use crate::FallibleApi;

pub use crate::storage::Error;

verus! {

/// The identifier under which the hub in memory knows itself.
pub const SELF_ID: &'static str = "self";

/// A hub in memory. The ledger is kept in full; of the chain it holds one
/// answer to each question, the same for every application and pot.
pub struct MockApi {
    names: Table<Id, Option<String>>,
    order: Vec<Id>,
    percent: Table<Id, NonZeroPercent>,
    collector: Table<Id, Id>,
    repo_url: Table<Id, String>,
    rewards_pot: Table<Id, Id>,
    latest: Option<Code>,
    owners: Table<Id, ()>,
    owner_of: Table<Code, Id>,
    code_of: Table<Id, Code>,
    invocations: Table<(Id, Code), u64>,
    total_invocations: Table<Id, u64>,
    discrete_referrers: Table<Id, u64>,
    total_earnings: Table<Code, Amount>,
    dapp_earnings: Table<(Id, Code), Amount>,
    contributions: Table<Id, Amount>,
    referrer_total_collected: Table<Code, Amount>,
    referrer_dapp_collected: Table<(Id, Code), Amount>,
    dapp_total_collected: Table<Id, Amount>,
    rewards_admin: Option<Id>,
    rewards_pot_admin: Option<Id>,
    current_fee: Option<Amount>,
    dapp_total_rewards: u128,
    named_dapp: Option<Id>,
    named_collector: Option<Id>,
    named_pot: Option<Id>,
    named_code: Option<Code>,
    named_owner: Option<Id>,
}

/// The names of the applications that are registered now: an application
/// that was taken out keeps its entry, without a name.
pub open spec fn registered_names(names: Map<Seq<char>, Option<Seq<char>>>) -> Map<
    Seq<char>,
    Seq<char>,
> {
    Map::new(
        |id: Seq<char>| names.contains_key(id) && names[id] is Some,
        |id: Seq<char>| names[id]->0,
    )
}

/// The one answer that is given for every application and every pot.
pub open spec fn everywhere<V>(answer: V) -> Map<Seq<char>, V> {
    Map::total(|id: Seq<char>| answer)
}

/// The administrator that is reported for every application, if one is.
pub open spec fn answer_of(admin: Option<Id>) -> Map<Seq<char>, Seq<char>> {
    match admin {
        Some(admin) => everywhere(admin@),
        None => Map::empty(),
    }
}

/// The rewards that every pot reports, unless they are none.
pub open spec fn reported(total: u128) -> Map<Seq<char>, u128> {
    if total != 0 {
        everywhere(total)
    } else {
        Map::empty()
    }
}

/// What the builder was told last: the application, the collector, the
/// rewards pot, the referral code and its owner.
pub struct Named {
    pub dapp: Option<Seq<char>>,
    pub collector: Option<Seq<char>>,
    pub rewards_pot: Option<Seq<char>>,
    pub code: Option<u64>,
    pub owner: Option<Seq<char>>,
}

/// The characters of an identifier that may be absent.
pub open spec fn id_chars(id: Option<Id>) -> Option<Seq<char>> {
    match id {
        Some(id) => Some(id@),
        None => None,
    }
}

/// The number of a code that may be absent.
pub open spec fn code_number(code: Option<Code>) -> Option<u64> {
    match code {
        Some(code) => Some(code@),
        None => None,
    }
}

impl FallibleApi for MockApi {
    type Error = Error;
}

impl Model for MockApi {
    closed spec fn ledger(&self) -> Ledger {
        Ledger {
            names: registered_names(self.names.model()),
            order: self.order.deep_view(),
            percent: self.percent.model(),
            collector: self.collector.model(),
            repo_url: self.repo_url.model(),
            rewards_pot: self.rewards_pot.model(),
            latest: code_number(self.latest),
            owners: self.owners.model().dom(),
            owner_of: self.owner_of.model(),
            code_of: self.code_of.model(),
            invocations: self.invocations.model(),
            total_invocations: self.total_invocations.model(),
            discrete_referrers: self.discrete_referrers.model(),
            total_earnings: self.total_earnings.model(),
            dapp_earnings: self.dapp_earnings.model(),
            contributions: self.contributions.model(),
            referrer_total_collected: self.referrer_total_collected.model(),
            referrer_dapp_collected: self.referrer_dapp_collected.model(),
            dapp_total_collected: self.dapp_total_collected.model(),
        }
    }

    closed spec fn facts(&self) -> Facts {
        Facts {
            self_id: SELF_ID@,
            rewards_admin: answer_of(self.rewards_admin),
            rewards_pot_admin: match self.rewards_pot_admin {
                Some(admin) => everywhere(admin@),
                None => everywhere(SELF_ID@),
            },
            current_fee: match self.current_fee {
                Some(fee) => everywhere(fee@),
                None => Map::empty(),
            },
            total_rewards: reported(self.dapp_total_rewards),
        }
    }

    /// The store in memory answers whenever it can.
    open spec fn reliable(&self) -> bool {
        true
    }
}

/// The identifier in `table` under `key`.
fn id_at<K: Key>(table: &Table<K, Id>, key: &K) -> (r: Result<Id, Error>)
    ensures
        r is Ok <==> table.model().contains_key(key.model()),
        r matches Ok(id) ==> id@ == table.model()[key.model()],
{
    match table.get(key) {
        Some(id) => Ok(id.duplicate()),
        None => Err(Error::NotFound),
    }
}

/// The identifier in `table` under `key`, if there is one.
fn id_if_at<K: Key>(table: &Table<K, Id>, key: &K) -> (r: Option<Id>)
    ensures
        r is Some <==> table.model().contains_key(key.model()),
        r matches Some(id) ==> id@ == table.model()[key.model()],
{
    match table.get(key) {
        Some(id) => Some(id.duplicate()),
        None => None,
    }
}

/// The words in `table` under `key`, if there are any.
fn words_at<K: Key>(table: &Table<K, String>, key: &K) -> (r: Option<String>)
    ensures
        r is Some <==> table.model().contains_key(key.model()),
        r matches Some(words) ==> words@ == table.model()[key.model()],
{
    match table.get(key) {
        Some(words) => Some(words.clone()),
        None => None,
    }
}

/// The amount in `table` under `key`, if there is one.
fn amount_at<K: Key>(table: &Table<K, Amount>, key: &K) -> (r: Option<Amount>)
    ensures
        r is Some <==> table.model().contains_key(key.model()),
        r matches Some(amount) ==> amount@ == table.model()[key.model()],
{
    match table.get(key) {
        Some(amount) => Some(*amount),
        None => None,
    }
}

/// The counter in `table` under `key`, which is zero where there is none.
fn count_at<K: Key>(table: &Table<K, u64>, key: &K) -> (count: u64)
    ensures
        count == count_or_zero(table.model(), key.model()),
{
    match table.get(key) {
        Some(count) => *count,
        None => 0,
    }
}

impl ReadonlyDappStore for MockApi {
    fn dapp_exists(&self, id: &Id) -> (r: Result<bool, Error>) {
        match self.names.get(id) {
            Some(name) => Ok(name.is_some()),
            None => Ok(false),
        }
    }

    fn percent(&self, id: &Id) -> (r: Result<NonZeroPercent, Error>) {
        match self.percent.get(id) {
            Some(percent) => Ok(*percent),
            None => Err(Error::NotFound),
        }
    }

    fn collector(&self, id: &Id) -> (r: Result<Id, Error>) {
        id_at(&self.collector, id)
    }

    fn has_rewards_pot(&self, id: &Id) -> (r: Result<bool, Error>) {
        Ok(self.rewards_pot.contains_key(id))
    }

    fn rewards_pot(&self, id: &Id) -> (r: Result<Id, Error>) {
        id_at(&self.rewards_pot, id)
    }
}

/// Whether `id` is among `order`.
fn listed(order: &Vec<Id>, id: &Id) -> (found: bool)
    ensures
        found == order.deep_view().contains(id@),
{
    let mut at: usize = 0;
    while at < order.len()
        invariant
            at <= order.len(),
            forall|i: int| 0 <= i < at ==> (#[trigger] order.deep_view()[i]) != id@,
        decreases order.len() - at,
    {
        if order[at] == *id {
            assert(order.deep_view()[at as int] == id@);
            return true;
        }
        at += 1;
    }
    false
}

impl MutableDappStore for MockApi {
    fn add_dapp(&mut self, id: &Id, name: String) -> (r: Result<(), Error>)
        ensures
            final(self).named() == old(self).named(),
    {
        let ghost before = self.order.deep_view();
        if !listed(&self.order, id) {
            self.order.push(id.duplicate());
            assert(self.order.deep_view() =~= before.push(id@));
        }
        let ghost names = self.names.model();
        self.names.insert(id.duplicate(), Some(name));
        assert(registered_names(self.names.model()) =~= registered_names(names).insert(
            id@,
            name@,
        ));
        Ok(())
    }

    fn remove_dapp(&mut self, id: &Id) -> (r: Result<(), Error>)
        ensures
            final(self).named() == old(self).named(),
    {
        let ghost names = self.names.model();
        self.names.insert(id.duplicate(), None);
        assert(registered_names(self.names.model()) =~= registered_names(names).remove(id@));
        Ok(())
    }

    fn set_percent(&mut self, id: &Id, percent: NonZeroPercent) -> (r: Result<(), Error>)
        ensures
            final(self).named() == old(self).named(),
    {
        self.percent.insert(id.duplicate(), percent);
        Ok(())
    }

    fn set_collector(&mut self, id: &Id, collector: Id) -> (r: Result<(), Error>)
        ensures
            final(self).named() == old(self).named(),
    {
        self.collector.insert(id.duplicate(), collector);
        Ok(())
    }

    fn set_repo_url(&mut self, id: &Id, repo_url: String) -> (r: Result<(), Error>)
        ensures
            final(self).named() == old(self).named(),
    {
        self.repo_url.insert(id.duplicate(), repo_url);
        Ok(())
    }

    fn set_rewards_pot(&mut self, id: &Id, rewards_pot: Id) -> (r: Result<(), Error>)
        ensures
            final(self).named() == old(self).named(),
    {
        self.rewards_pot.insert(id.duplicate(), rewards_pot);
        Ok(())
    }
}

impl DappQuery for MockApi {
    fn self_id(&self) -> (r: Result<Id, Error>) {
        Ok(Id::new(SELF_ID))
    }

    fn rewards_admin(&self, id: &Id) -> (r: Result<Id, Error>) {
        match &self.rewards_admin {
            Some(admin) => Ok(admin.duplicate()),
            None => Err(Error::NotFound),
        }
    }

    fn rewards_pot_admin(&self, id: &Id) -> (r: Result<Id, Error>) {
        match &self.rewards_pot_admin {
            Some(admin) => Ok(admin.duplicate()),
            None => Ok(Id::new(SELF_ID)),
        }
    }

    fn current_fee(&self, id: &Id) -> (r: Result<Option<Amount>, Error>) {
        Ok(self.current_fee)
    }
}

impl ReadonlyReferralStore for MockApi {
    fn code_exists(&self, code: Code) -> (r: Result<bool, Error>) {
        Ok(self.owner_of.contains_key(&code))
    }

    fn owner_exists(&self, owner: &Id) -> (r: Result<bool, Error>) {
        Ok(self.owners.contains_key(owner))
    }

    fn owner_of(&self, code: Code) -> (r: Result<Option<Id>, Error>) {
        Ok(id_if_at(&self.owner_of, &code))
    }

    fn latest(&self) -> (r: Result<Option<Code>, Error>) {
        Ok(self.latest)
    }

    fn total_earnings(&self, code: Code) -> (r: Result<Option<Amount>, Error>) {
        Ok(amount_at(&self.total_earnings, &code))
    }

    fn dapp_earnings(&self, dapp: &Id, code: Code) -> (r: Result<Option<Amount>, Error>) {
        Ok(amount_at(&self.dapp_earnings, &(dapp.duplicate(), code)))
    }

    fn dapp_contributions(&self, dapp: &Id) -> (r: Result<Option<Amount>, Error>) {
        Ok(amount_at(&self.contributions, dapp))
    }
}

impl MutableReferralStore for MockApi {
    fn set_latest(&mut self, code: Code) -> (r: Result<(), Error>)
        ensures
            final(self).named() == old(self).named(),
    {
        self.latest = Some(code);
        Ok(())
    }

    fn set_code_owner(&mut self, code: Code, owner: Id) -> (r: Result<(), Error>)
        ensures
            final(self).named() == old(self).named(),
    {
        let ghost before = self.owners.model();
        self.owners.insert(owner.duplicate(), ());
        assert(self.owners.model().dom() =~= before.dom().insert(owner@));
        self.code_of.insert(owner.duplicate(), code);
        self.owner_of.insert(code, owner);
        Ok(())
    }

    /// Counts one more use: for the pair always, for the application
    /// always, and among the application's different referrers where the
    /// pair was not used before.
    fn increment_invocations(&mut self, dapp: &Id, code: Code) -> (r: Result<(), Error>)
        ensures
            final(self).named() == old(self).named(),
    {
        let pair = (dapp.duplicate(), code);
        let before = Invocations {
            by_referrer: count_at(&self.invocations, &pair),
            total: count_at(&self.total_invocations, dapp),
            discrete_referrers: count_at(&self.discrete_referrers, dapp),
        };
        let after = match count_invocation(before) {
            Ok(after) => after,
            Err(e) => {
                return Err(e);
            },
        };
        if before.by_referrer == 0 {
            self.discrete_referrers.insert(dapp.duplicate(), after.discrete_referrers);
        }
        self.invocations.insert(pair, after.by_referrer);
        self.total_invocations.insert(dapp.duplicate(), after.total);
        Ok(())
    }

    fn set_total_earnings(&mut self, code: Code, total: Amount) -> (r: Result<(), Error>)
        ensures
            final(self).named() == old(self).named(),
    {
        self.total_earnings.insert(code, total);
        Ok(())
    }

    fn set_dapp_earnings(&mut self, dapp: &Id, code: Code, total: Amount) -> (r: Result<
        (),
        Error,
    >)
        ensures
            final(self).named() == old(self).named(),
    {
        self.dapp_earnings.insert((dapp.duplicate(), code), total);
        Ok(())
    }

    fn set_dapp_contributions(&mut self, dapp: &Id, contributions: Amount) -> (r: Result<
        (),
        Error,
    >)
        ensures
            final(self).named() == old(self).named(),
    {
        self.contributions.insert(dapp.duplicate(), contributions);
        Ok(())
    }
}

impl ReadonlyCollectStore for MockApi {
    fn referrer_total_collected(&self, code: Code) -> (r: Result<Option<Amount>, Error>) {
        Ok(amount_at(&self.referrer_total_collected, &code))
    }

    fn referrer_dapp_collected(&self, dapp: &Id, code: Code) -> (r: Result<
        Option<Amount>,
        Error,
    >) {
        Ok(amount_at(&self.referrer_dapp_collected, &(dapp.duplicate(), code)))
    }

    fn dapp_total_collected(&self, dapp: &Id) -> (r: Result<Option<Amount>, Error>) {
        Ok(amount_at(&self.dapp_total_collected, dapp))
    }
}

impl MutableCollectStore for MockApi {
    fn set_referrer_total_collected(&mut self, code: Code, total: Amount) -> (r: Result<
        (),
        Error,
    >)
        ensures
            final(self).named() == old(self).named(),
    {
        self.referrer_total_collected.insert(code, total);
        Ok(())
    }

    fn set_referrer_dapp_collected(&mut self, dapp: &Id, code: Code, total: Amount) -> (r: Result<
        (),
        Error,
    >)
        ensures
            final(self).named() == old(self).named(),
    {
        self.referrer_dapp_collected.insert((dapp.duplicate(), code), total);
        Ok(())
    }

    fn set_dapp_total_collected(&mut self, dapp: &Id, total: Amount) -> (r: Result<(), Error>)
        ensures
            final(self).named() == old(self).named(),
    {
        self.dapp_total_collected.insert(dapp.duplicate(), total);
        Ok(())
    }
}

impl CollectQuery for MockApi {
    fn dapp_total_rewards(&self, pot: &Id) -> (r: Result<Option<Amount>, Error>) {
        Ok(Amount::new(self.dapp_total_rewards))
    }
}

impl Dapps for MockApi {
    fn total_dapp_count(&self) -> (r: Result<u64, Error>) {
        Ok(self.order.len() as u64)
    }

    /// The page runs from `start` up to and with the place `limit` further
    /// on, and ends with the last application at the latest.
    fn all_dapp_ids(&self, start: Option<u64>, limit: Option<u64>) -> (r: Result<Vec<Id>, Error>) {
        let (first, end) = match page_bounds(self.order.len() as u64, start, limit) {
            Ok(Some(bounds)) => bounds,
            Ok(None) => {
                let none: Vec<Id> = Vec::new();
                assert(none.deep_view() =~= Seq::<Seq<char>>::empty());
                return Ok(none);
            },
            Err(e) => {
                return Err(e);
            },
        };
        let ghost page = self.order.deep_view().subrange(first as int, end as int + 1);
        let mut ids: Vec<Id> = Vec::new();
        let mut at: usize = first as usize;
        while at <= end as usize
            invariant
                first <= at <= end + 1,
                end < self.order.len(),
                ids.len() == at - first,
                page == self.order.deep_view().subrange(first as int, end as int + 1),
                forall|i: int| 0 <= i < ids.len() ==> (#[trigger] ids[i])@ == page[i],
            decreases end + 1 - at,
        {
            ids.push(self.order[at].duplicate());
            at += 1;
        }
        assert(ids.deep_view() =~= page);
        Ok(ids)
    }

    fn dapp_name(&self, dapp: &Id) -> (r: Result<Option<String>, Error>) {
        match self.names.get(dapp) {
            Some(Some(name)) => Ok(Some(name.clone())),
            _ => Ok(None),
        }
    }

    fn dapp_repo_url(&self, dapp: &Id) -> (r: Result<Option<String>, Error>) {
        Ok(words_at(&self.repo_url, dapp))
    }

    fn dapp_total_invocations(&self, dapp: &Id) -> (r: Result<u64, Error>) {
        Ok(count_at(&self.total_invocations, dapp))
    }

    fn dapp_discrete_referrers(&self, dapp: &Id) -> (r: Result<u64, Error>) {
        Ok(count_at(&self.discrete_referrers, dapp))
    }
}

impl Referrers for MockApi {
    fn referral_code(&self, referrer: &Id) -> (r: Result<Option<Code>, Error>) {
        match self.code_of.get(referrer) {
            Some(code) => Ok(Some(*code)),
            None => Ok(None),
        }
    }
}

impl Default for MockApi {
    /// The hub in which nothing has happened: the ledger is empty, nobody
    /// administers any application's rewards, the hub administers every
    /// pot, no fee is charged and no rewards were reported.
    fn default() -> (api: MockApi)
        ensures
            api.ledger() == Ledger::empty(),
            api.facts() == (Facts {
                self_id: SELF_ID@,
                rewards_admin: Map::empty(),
                rewards_pot_admin: everywhere(SELF_ID@),
                current_fee: Map::empty(),
                total_rewards: Map::empty(),
            }),
            api.named() == (Named {
                dapp: None,
                collector: None,
                rewards_pot: None,
                code: None,
                owner: None,
            }),
    {
        let api = MockApi {
            names: Table::new(),
            order: Vec::new(),
            percent: Table::new(),
            collector: Table::new(),
            repo_url: Table::new(),
            rewards_pot: Table::new(),
            latest: None,
            owners: Table::new(),
            owner_of: Table::new(),
            code_of: Table::new(),
            invocations: Table::new(),
            total_invocations: Table::new(),
            discrete_referrers: Table::new(),
            total_earnings: Table::new(),
            dapp_earnings: Table::new(),
            contributions: Table::new(),
            referrer_total_collected: Table::new(),
            referrer_dapp_collected: Table::new(),
            dapp_total_collected: Table::new(),
            rewards_admin: None,
            rewards_pot_admin: None,
            current_fee: None,
            dapp_total_rewards: 0,
            named_dapp: None,
            named_collector: None,
            named_pot: None,
            named_code: None,
            named_owner: None,
        };
        assert(registered_names(api.names.model()) =~= Map::empty());
        assert(api.order.deep_view() =~= Seq::empty());
        assert(api.owners.model().dom() =~= Set::empty());
        api
    }
}

impl Ledger {
    /// The ledger once `owner` is among the accounts that hold a code.
    pub open spec fn add_owner(self, owner: Seq<char>) -> Ledger {
        Ledger { owners: self.owners.insert(owner), ..self }
    }

    /// The ledger once `dapp`, if one is named, has `collector`.
    pub open spec fn set_collector_of(self, dapp: Option<Seq<char>>, collector: Seq<char>) -> Ledger {
        match dapp {
            Some(dapp) => self.set_collector(dapp, collector),
            None => self,
        }
    }

    /// The ledger once `dapp`, if one is named, has the rewards pot `pot`.
    pub open spec fn set_rewards_pot_of(self, dapp: Option<Seq<char>>, pot: Seq<char>) -> Ledger {
        match dapp {
            Some(dapp) => self.set_rewards_pot(dapp, pot),
            None => self,
        }
    }

    /// The ledger once `code` belongs to `owner`, if both are named.
    pub open spec fn set_code_owner_of(self, code: Option<u64>, owner: Option<Seq<char>>) -> Ledger {
        match (code, owner) {
            (Some(code), Some(owner)) => self.set_code_owner(code, owner),
            _ => self,
        }
    }
}

impl MockApi {
    /// What the builder was told last.
    pub closed spec fn named(&self) -> Named {
        Named {
            dapp: id_chars(self.named_dapp),
            collector: id_chars(self.named_collector),
            rewards_pot: id_chars(self.named_pot),
            code: code_number(self.named_code),
            owner: id_chars(self.named_owner),
        }
    }

    /// Registers the application `id`, under its identifier as its name.
    /// It gets the collector and the rewards pot that were named before,
    /// and those that are named next go to it.
    pub fn dapp(self, id: &str) -> (api: MockApi)
        ensures
            api.facts() == self.facts(),
            api.named() == (Named { dapp: Some(id@), ..self.named() }),
            api.ledger() == ({
                let registered = self.ledger().add_dapp(id@, id@);
                let with_collector = match self.named().collector {
                    Some(collector) => registered.set_collector(id@, collector),
                    None => registered,
                };
                match self.named().rewards_pot {
                    Some(pot) => with_collector.set_rewards_pot(id@, pot),
                    None => with_collector,
                }
            }),
    {
        let mut api = self;
        let dapp = Id::new(id);
        let _ = api.add_dapp(&dapp, id.to_owned());
        if let Some(collector) = &api.named_collector {
            let collector = collector.duplicate();
            let _ = api.set_collector(&dapp, collector);
        }
        if let Some(pot) = &api.named_pot {
            let pot = pot.duplicate();
            let _ = api.set_rewards_pot(&dapp, pot);
        }
        api.named_dapp = Some(dapp);
        api
    }

    /// Names the collector: of the application that was named last, if
    /// one was, and of each that is named from now on.
    pub fn collector(self, id: &str) -> (api: MockApi)
        ensures
            api.facts() == self.facts(),
            api.named() == (Named { collector: Some(id@), ..self.named() }),
            api.ledger() == self.ledger().set_collector_of(self.named().dapp, id@),
    {
        let mut api = self;
        if let Some(dapp) = &api.named_dapp {
            let dapp = dapp.duplicate();
            let _ = api.set_collector(&dapp, Id::new(id));
        }
        api.named_collector = Some(Id::new(id));
        api
    }

    /// Makes `id` the one that administers every application's rewards.
    pub fn rewards_admin(self, id: &str) -> (api: MockApi)
        ensures
            api.ledger() == self.ledger(),
            api.named() == self.named(),
            api.facts() == (Facts { rewards_admin: everywhere(id@), ..self.facts() }),
    {
        let mut api = self;
        api.rewards_admin = Some(Id::new(id));
        api
    }

    /// Names the rewards pot: of the application that was named last, if
    /// one was, and of each that is named from now on.
    pub fn rewards_pot(self, id: &str) -> (api: MockApi)
        ensures
            api.facts() == self.facts(),
            api.named() == (Named { rewards_pot: Some(id@), ..self.named() }),
            api.ledger() == self.ledger().set_rewards_pot_of(self.named().dapp, id@),
    {
        let mut api = self;
        if let Some(dapp) = &api.named_dapp {
            let dapp = dapp.duplicate();
            let _ = api.set_rewards_pot(&dapp, Id::new(id));
        }
        api.named_pot = Some(Id::new(id));
        api
    }

    /// Makes `id` the one that administers every rewards pot, in place of
    /// the hub itself.
    pub fn rewards_pot_admin(self, id: &str) -> (api: MockApi)
        ensures
            api.ledger() == self.ledger(),
            api.named() == self.named(),
            api.facts() == (Facts { rewards_pot_admin: everywhere(id@), ..self.facts() }),
    {
        let mut api = self;
        api.rewards_pot_admin = Some(Id::new(id));
        api
    }

    /// Makes `fee` the fee that every application charges.
    pub fn current_fee(self, fee: Amount) -> (api: MockApi)
        ensures
            api.ledger() == self.ledger(),
            api.named() == self.named(),
            api.facts() == (Facts { current_fee: everywhere(fee@), ..self.facts() }),
    {
        let mut api = self;
        api.current_fee = Some(fee);
        api
    }

    /// Names the referral code. It belongs to the owner that was named
    /// last, if one was.
    pub fn referral_code(self, code: u64) -> (api: MockApi)
        ensures
            api.facts() == self.facts(),
            api.named() == (Named { code: Some(code), ..self.named() }),
            api.ledger() == self.ledger().set_code_owner_of(Some(code), self.named().owner),
    {
        let mut api = self;
        let code = Code::new(code);
        if let Some(owner) = &api.named_owner {
            let owner = owner.duplicate();
            let _ = api.set_code_owner(code, owner);
        }
        api.named_code = Some(code);
        api
    }

    /// Names the owner of a referral code: `id` is among the accounts that
    /// hold one, and owns the code that was named last, if one was.
    pub fn referral_code_owner(self, id: &str) -> (api: MockApi)
        ensures
            api.facts() == self.facts(),
            api.named() == (Named { owner: Some(id@), ..self.named() }),
            api.ledger() == self.ledger().add_owner(id@).set_code_owner_of(
                self.named().code,
                Some(id@),
            ),
    {
        let mut api = self;
        let ghost before = api.owners.model();
        api.owners.insert(Id::new(id), ());
        assert(api.owners.model().dom() =~= before.dom().insert(id@));
        if let Some(code) = api.named_code {
            let _ = api.set_code_owner(code, Id::new(id));
        }
        api.named_owner = Some(Id::new(id));
        api
    }

    /// Makes `total` what every rewards pot has reported; zero stands for
    /// nothing reported.
    pub fn dapp_total_rewards(self, total: u128) -> (api: MockApi)
        ensures
            api.ledger() == self.ledger(),
            api.named() == self.named(),
            api.facts() == (Facts { total_rewards: reported(total), ..self.facts() }),
    {
        let mut api = self;
        api.dapp_total_rewards = total;
        api
    }

    /// Makes `total` what every rewards pot has reported; zero stands for
    /// nothing reported.
    pub fn set_dapp_total_rewards(&mut self, total: u128)
        ensures
            final(self).ledger() == old(self).ledger(),
            final(self).named() == old(self).named(),
            final(self).facts() == (Facts { total_rewards: reported(total), ..old(self).facts() }),
    {
        self.dapp_total_rewards = total;
    }

    /// Makes `fee` the fee that every application charges.
    pub fn set_current_fee(&mut self, fee: Amount)
        ensures
            final(self).ledger() == old(self).ledger(),
            final(self).named() == old(self).named(),
            final(self).facts() == (Facts { current_fee: everywhere(fee@), ..old(self).facts() }),
    {
        self.current_fee = Some(fee);
    }
}

/// One who carries the hub's replies out by writing them down: the
/// commands in the order in which they came, and the referral codes.
pub struct Recorder {
    commands: Vec<Command>,
    codes: Vec<Code>,
}

impl FallibleApi for Recorder {
    type Error = Error;
}

impl Outbox for Recorder {
    closed spec fn carried_out(&self) -> Seq<Effect> {
        self.commands.deep_view()
    }

    closed spec fn codes(&self) -> Seq<u64> {
        self.codes.deep_view()
    }

    /// Writing down never fails.
    open spec fn dependable(&self) -> bool {
        true
    }
}

impl Recorder {
    /// The recorder that has written nothing down.
    pub fn new() -> (recorder: Recorder)
        ensures
            recorder.carried_out() == Seq::<Effect>::empty(),
            recorder.codes() == Seq::<u64>::empty(),
    {
        let recorder = Recorder { commands: Vec::new(), codes: Vec::new() };
        assert(recorder.commands.deep_view() =~= Seq::<Effect>::empty());
        assert(recorder.codes.deep_view() =~= Seq::<u64>::empty());
        recorder
    }

    /// The commands written down, in their order.
    pub fn commands(&self) -> (commands: &Vec<Command>)
        ensures
            commands.deep_view() == self.carried_out(),
    {
        &self.commands
    }

    /// The referral codes written down, in their order.
    pub fn referral_codes(&self) -> (codes: &Vec<Code>)
        ensures
            codes.deep_view() == self.codes(),
    {
        &self.codes
    }

    /// Writes one command down.
    fn note(&mut self, command: Command)
        ensures
            final(self).carried_out() == old(self).carried_out().push(command@),
            final(self).carried_out() == old(self).carried_out() + seq![command@],
            final(self).codes() == old(self).codes(),
            final(self).codes() == old(self).codes() + Seq::<u64>::empty(),
    {
        let ghost before = self.commands.deep_view();
        self.commands.push(command);
        assert(self.commands.deep_view() =~= before.push(command@));
        assert(before.push(command@) =~= before + seq![command@]);
        assert(self.codes.deep_view() + Seq::<u64>::empty() =~= self.codes.deep_view());
    }
}

impl Handle for Recorder {
    type Response = Recorder;

    open spec fn response(&self) -> Recorder {
        *self
    }

    fn into_response(self) -> (response: Recorder) {
        self
    }

    fn add_referral_code(&mut self, referral_code: Code) -> (r: Result<(), Error>) {
        let ghost before = self.codes.deep_view();
        self.codes.push(referral_code);
        assert(self.codes.deep_view() =~= before + seq![referral_code@]);
        assert(self.commands.deep_view() + Seq::<Effect>::empty() =~= self.commands.deep_view());
        Ok(())
    }

    fn create_rewards_pot(&mut self, dapp: Id) -> (r: Result<(), Error>) {
        self.note(Command::CreateRewardsPot(dapp));
        Ok(())
    }

    fn set_rewards_recipient(&mut self, recipient: Id) -> (r: Result<(), Error>) {
        self.note(Command::SetRewardsRecipient(recipient));
        Ok(())
    }

    fn set_rewards_admin(&mut self, admin: Id) -> (r: Result<(), Error>) {
        self.note(Command::SetRewardsAdmin(admin));
        Ok(())
    }

    fn set_dapp_fee(&mut self, dapp: Id, amount: Amount) -> (r: Result<(), Error>) {
        self.note(Command::SetDappFee { dapp, amount });
        Ok(())
    }

    fn withdraw_rewards(&mut self, pot: Id) -> (r: Result<(), Error>) {
        self.note(Command::WithdrawPending(pot));
        Ok(())
    }

    fn distribute_rewards(&mut self, pot: Id, amount: Amount, receiver: Id) -> (r: Result<
        (),
        Error,
    >) {
        self.note(Command::RedistributeRewards { amount, pot, receiver });
        Ok(())
    }
}

/// A rewards pot in memory: it knows its owner and whether value has
/// accrued, and writes down what it is asked to carry out.
pub struct MockPot {
    owner: Id,
    uncollected: bool,
    commands: Vec<rewards_pot::Command>,
}

impl FallibleApi for MockPot {
    type Error = Error;
}

impl rewards_pot::Pot for MockPot {
    closed spec fn owner(&self) -> Seq<char> {
        self.owner@
    }

    closed spec fn uncollected(&self) -> bool {
        self.uncollected
    }

    /// The pot in memory answers always.
    open spec fn reliable(&self) -> bool {
        true
    }
}

impl rewards_pot::Query for MockPot {
    fn owner_id(&self) -> (r: Result<Id, Error>) {
        Ok(self.owner.duplicate())
    }

    fn has_uncollected_rewards(&self) -> (r: Result<bool, Error>) {
        Ok(self.uncollected)
    }
}

impl rewards_pot::Outbox for MockPot {
    closed spec fn carried_out(&self) -> Seq<rewards_pot::Effect> {
        self.commands.deep_view()
    }

    /// Writing down never fails.
    open spec fn dependable(&self) -> bool {
        true
    }
}

impl MockPot {
    /// The pot of `owner`, in which value has accrued or not, and which
    /// has carried nothing out.
    pub fn new(owner: &str, uncollected: bool) -> (pot: MockPot)
        ensures
            rewards_pot::Pot::owner(&pot) == owner@,
            rewards_pot::Pot::uncollected(&pot) == uncollected,
            rewards_pot::Outbox::carried_out(&pot) == Seq::<rewards_pot::Effect>::empty(),
    {
        let pot = MockPot { owner: Id::new(owner), uncollected, commands: Vec::new() };
        assert(pot.commands.deep_view() =~= Seq::<rewards_pot::Effect>::empty());
        pot
    }

    /// The commands carried out, in their order.
    pub fn commands(&self) -> (commands: &Vec<rewards_pot::Command>)
        ensures
            commands.deep_view() == rewards_pot::Outbox::carried_out(self),
    {
        &self.commands
    }

    /// Writes one command down.
    fn note(&mut self, command: rewards_pot::Command)
        ensures
            rewards_pot::Outbox::carried_out(final(self)) == rewards_pot::Outbox::carried_out(
                old(self),
            ) + seq![command@],
    {
        let ghost before = self.commands.deep_view();
        self.commands.push(command);
        assert(self.commands.deep_view() =~= before + seq![command@]);
    }
}

impl rewards_pot::HandleReply for MockPot {
    type Response = MockPot;

    open spec fn response(&self) -> MockPot {
        *self
    }

    fn into_response(self) -> (response: MockPot) {
        self
    }

    fn withdraw_pending(&mut self) -> (r: Result<(), Error>) {
        self.note(rewards_pot::Command::WithdrawPending);
        Ok(())
    }

    fn send_rewards(&mut self, receiver: Id, amount: Amount) -> (r: Result<(), Error>) {
        self.note(rewards_pot::Command::Send { recipient: receiver, amount });
        Ok(())
    }
}

} // verus!
