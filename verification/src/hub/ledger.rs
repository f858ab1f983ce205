//! The ledger as mathematics: what the hub keeps and what the chain
//! reports, the changes that the hub makes to it, and what it means for a
//! store to hold it.

use vstd::prelude::*;

use crate::storage::{can_count, counted, page_end, page_start, Invocations};
use crate::FallibleApi;

verus! {

/// An application and a referral code together: the key of what one code
/// has done at one application.
pub type Pair = (Seq<char>, u64);

/// Everything the hub keeps, as mathematics. Identifiers stand as their
/// characters, amounts and counters as numbers; what has no entry is absent.
pub struct Ledger {
    /// The registered applications, each with its name.
    pub names: Map<Seq<char>, Seq<char>>,
    /// Every application that was ever registered, in the order in which
    /// each was registered first.
    pub order: Seq<Seq<char>>,
    /// The percentage of its fee that an application gives to referrers.
    pub percent: Map<Seq<char>, u8>,
    /// Who may collect for an application.
    pub collector: Map<Seq<char>, Seq<char>>,
    /// Where an application's source is kept.
    pub repo_url: Map<Seq<char>, Seq<char>>,
    /// The rewards pot of an application.
    pub rewards_pot: Map<Seq<char>, Seq<char>>,
    /// The referral code that was issued last.
    pub latest: Option<u64>,
    /// The accounts that hold a code, or held one.
    pub owners: Set<Seq<char>>,
    /// The owner of each referral code.
    pub owner_of: Map<u64, Seq<char>>,
    /// The code that was last given to an account.
    pub code_of: Map<Seq<char>, u64>,
    /// How often a code was used at an application.
    pub invocations: Map<Pair, u64>,
    /// How often any code was used at an application.
    pub total_invocations: Map<Seq<char>, u64>,
    /// How many different codes were used at an application.
    pub discrete_referrers: Map<Seq<char>, u64>,
    /// What a code has earned at all applications together.
    pub total_earnings: Map<u64, u128>,
    /// What a code has earned at one application.
    pub dapp_earnings: Map<Pair, u128>,
    /// What an application has given to all referrers together.
    pub contributions: Map<Seq<char>, u128>,
    /// What was paid out to a code over all applications.
    pub referrer_total_collected: Map<u64, u128>,
    /// What of a code's earnings at one application was paid out.
    pub referrer_dapp_collected: Map<Pair, u128>,
    /// What of an application's own share was paid out.
    pub dapp_total_collected: Map<Seq<char>, u128>,
}

/// What the chain knows and the hub only asks for. Nothing the hub does
/// changes any of it.
pub struct Facts {
    /// The hub's own identifier.
    pub self_id: Seq<char>,
    /// Who administers the rewards of an application.
    pub rewards_admin: Map<Seq<char>, Seq<char>>,
    /// Who administers a rewards pot.
    pub rewards_pot_admin: Map<Seq<char>, Seq<char>>,
    /// The fee that an application charges now.
    pub current_fee: Map<Seq<char>, u128>,
    /// All that a rewards pot has ever reported as received.
    pub total_rewards: Map<Seq<char>, u128>,
}

/// The number behind a counter that may be absent.
pub open spec fn count_or_zero<K>(counters: Map<K, u64>, key: K) -> u64 {
    match counters.get(key) {
        Some(n) => n,
        None => 0,
    }
}

/// The number behind an amount that may be absent.
pub open spec fn sum_or_zero<K>(sums: Map<K, u128>, key: K) -> u128 {
    match sums.get(key) {
        Some(n) => n,
        None => 0,
    }
}

impl Ledger {
    /// The ledger in which nothing has happened yet.
    pub open spec fn empty() -> Ledger {
        Ledger {
            names: Map::empty(),
            order: Seq::empty(),
            percent: Map::empty(),
            collector: Map::empty(),
            repo_url: Map::empty(),
            rewards_pot: Map::empty(),
            latest: None,
            owners: Set::empty(),
            owner_of: Map::empty(),
            code_of: Map::empty(),
            invocations: Map::empty(),
            total_invocations: Map::empty(),
            discrete_referrers: Map::empty(),
            total_earnings: Map::empty(),
            dapp_earnings: Map::empty(),
            contributions: Map::empty(),
            referrer_total_collected: Map::empty(),
            referrer_dapp_collected: Map::empty(),
            dapp_total_collected: Map::empty(),
        }
    }

    /// Whether `id` is a registered application.
    pub open spec fn registered(self, id: Seq<char>) -> bool {
        self.names.contains_key(id)
    }

    /// The ledger once `id` is registered under `name`. An application that
    /// registers again keeps its place in the order.
    pub open spec fn add_dapp(self, id: Seq<char>, name: Seq<char>) -> Ledger {
        Ledger {
            names: self.names.insert(id, name),
            order: if self.order.contains(id) {
                self.order
            } else {
                self.order.push(id)
            },
            ..self
        }
    }

    /// The ledger once `id` is no longer registered. What else is known of
    /// the application stays.
    pub open spec fn remove_dapp(self, id: Seq<char>) -> Ledger {
        Ledger { names: self.names.remove(id), ..self }
    }

    /// The ledger once `id` gives `percent` of its fee to referrers.
    pub open spec fn set_percent(self, id: Seq<char>, percent: u8) -> Ledger {
        Ledger { percent: self.percent.insert(id, percent), ..self }
    }

    /// The ledger once `collector` may collect for `id`.
    pub open spec fn set_collector(self, id: Seq<char>, collector: Seq<char>) -> Ledger {
        Ledger { collector: self.collector.insert(id, collector), ..self }
    }

    /// The ledger once the source of `id` is kept at `repo_url`.
    pub open spec fn set_repo_url(self, id: Seq<char>, repo_url: Seq<char>) -> Ledger {
        Ledger { repo_url: self.repo_url.insert(id, repo_url), ..self }
    }

    /// The ledger once `pot` is the rewards pot of `id`.
    pub open spec fn set_rewards_pot(self, id: Seq<char>, pot: Seq<char>) -> Ledger {
        Ledger { rewards_pot: self.rewards_pot.insert(id, pot), ..self }
    }

    /// The ledger once `code` is the code that was issued last.
    pub open spec fn set_latest(self, code: u64) -> Ledger {
        Ledger { latest: Some(code), ..self }
    }

    /// The ledger once `code` belongs to `owner`. Whoever owned it before
    /// stays among the accounts that held a code.
    pub open spec fn set_code_owner(self, code: u64, owner: Seq<char>) -> Ledger {
        Ledger {
            owners: self.owners.insert(owner),
            owner_of: self.owner_of.insert(code, owner),
            code_of: self.code_of.insert(owner, code),
            ..self
        }
    }

    /// The counters that a use of `code` at `dapp` touches, as they stand.
    pub open spec fn invocations_of(self, dapp: Seq<char>, code: u64) -> Invocations {
        Invocations {
            by_referrer: count_or_zero(self.invocations, (dapp, code)),
            total: count_or_zero(self.total_invocations, dapp),
            discrete_referrers: count_or_zero(self.discrete_referrers, dapp),
        }
    }

    /// Whether one more use of `code` at `dapp` can be counted: none of the
    /// counters it raises is at its end.
    pub open spec fn can_count(self, dapp: Seq<char>, code: u64) -> bool {
        can_count(self.invocations_of(dapp, code))
    }

    /// The ledger once one more use of `code` at `dapp` is counted: for the
    /// pair, for the application, and, where the pair is new, among the
    /// application's different referrers.
    pub open spec fn count_invocation(self, dapp: Seq<char>, code: u64) -> Ledger {
        let before = self.invocations_of(dapp, code);
        let after = counted(before);
        Ledger {
            invocations: self.invocations.insert((dapp, code), after.by_referrer),
            total_invocations: self.total_invocations.insert(dapp, after.total),
            discrete_referrers: if before.by_referrer == 0 {
                self.discrete_referrers.insert(dapp, after.discrete_referrers)
            } else {
                self.discrete_referrers
            },
            ..self
        }
    }

    /// The ledger once `code` has earned `total` in all.
    pub open spec fn set_total_earnings(self, code: u64, total: u128) -> Ledger {
        Ledger { total_earnings: self.total_earnings.insert(code, total), ..self }
    }

    /// The ledger once `code` has earned `total` at `dapp`.
    pub open spec fn set_dapp_earnings(self, dapp: Seq<char>, code: u64, total: u128) -> Ledger {
        Ledger { dapp_earnings: self.dapp_earnings.insert((dapp, code), total), ..self }
    }

    /// The ledger once `dapp` has given `total` to referrers in all.
    pub open spec fn set_contributions(self, dapp: Seq<char>, total: u128) -> Ledger {
        Ledger { contributions: self.contributions.insert(dapp, total), ..self }
    }

    /// The ledger once `code` was paid `total` in all.
    pub open spec fn set_referrer_total_collected(self, code: u64, total: u128) -> Ledger {
        Ledger {
            referrer_total_collected: self.referrer_total_collected.insert(code, total),
            ..self
        }
    }

    /// The ledger once `code` was paid `total` of its earnings at `dapp`.
    pub open spec fn set_referrer_dapp_collected(
        self,
        dapp: Seq<char>,
        code: u64,
        total: u128,
    ) -> Ledger {
        Ledger {
            referrer_dapp_collected: self.referrer_dapp_collected.insert((dapp, code), total),
            ..self
        }
    }

    /// The ledger once `dapp` was paid `total` of its own share.
    pub open spec fn set_dapp_total_collected(self, dapp: Seq<char>, total: u128) -> Ledger {
        Ledger { dapp_total_collected: self.dapp_total_collected.insert(dapp, total), ..self }
    }

    /// The applications from place `start` on (from the first where none is
    /// given), up to and with the one `limit` places further, or up to the
    /// last where no limit is given or the limit leads past it.
    pub open spec fn page(self, start: Option<u64>, limit: Option<u64>) -> Seq<Seq<char>> {
        if self.order.len() == 0 {
            Seq::empty()
        } else {
            self.order.subrange(
                page_start(start),
                page_end(self.order.len() as int, start, limit) + 1,
            )
        }
    }

    /// Whether a page can start where `start` says: the ledger knows no
    /// application at all, or one at that place.
    pub open spec fn page_exists(self, start: Option<u64>) -> bool {
        self.order.len() == 0 || page_start(start) < self.order.len()
    }
}

/// What every capability of the hub is stated over: the ledger that the
/// store holds, the facts that the chain reports, and whether the
/// implementor answers whenever it can.
pub trait Model: FallibleApi + Sized {
    /// What the store holds. An implementor that does not say is held to
    /// nothing.
    open spec fn ledger(&self) -> Ledger {
        arbitrary()
    }

    /// What the chain reports.
    open spec fn facts(&self) -> Facts {
        arbitrary()
    }

    /// Whether every question is answered when the answer is there, and
    /// every change made when it can be made. A store that may fail at any
    /// time says `false`, as does one that does not say, and is then only
    /// held to what it does answer.
    open spec fn reliable(&self) -> bool {
        false
    }
}

/// What is asked of a capability that reads: it answers only where `owed`
/// holds, and a reliable implementor answers wherever it holds.
pub open spec fn answered<S: Model, T>(api: S, r: Result<T, S::Error>, owed: bool) -> bool {
    &&& r is Ok ==> owed
    &&& api.reliable() && owed ==> r is Ok
}

/// What is asked of a capability that writes: where it reports success the
/// ledger is `target`; the facts are as before; and a reliable implementor
/// succeeds wherever `owed` holds, and else leaves the ledger as it was.
pub open spec fn written<S: Model>(
    before: S,
    after: S,
    r: Result<(), S::Error>,
    target: Ledger,
    owed: bool,
) -> bool {
    &&& after.facts() == before.facts()
    &&& after.reliable() == before.reliable()
    &&& r is Ok ==> owed && after.ledger() == target
    &&& before.reliable() && owed ==> r is Ok
    &&& before.reliable() && r is Err ==> after.ledger() == before.ledger()
}

} // verus!
