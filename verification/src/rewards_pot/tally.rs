//! What a rewards pot keeps of its own: the rewards it has flushed so
//! far, and how many of the chain's records of rewards those came from.

use vstd::prelude::*;

verus! {

/// The sum of the amounts in `rewards`.
pub open spec fn sum(rewards: Seq<u128>) -> nat
    decreases rewards.len(),
{
    if rewards.len() == 0 {
        0
    } else {
        sum(rewards.drop_last()) + rewards.last() as nat
    }
}

/// The pot's own account of what it has received.
#[derive(Debug, Clone, Copy, PartialEq, Eq)]
pub struct Tally {
    rewards_collected: u128,
    records_collected: u64,
}

impl View for Tally {
    type V = (u128, u64);

    closed spec fn view(&self) -> (u128, u64) {
        (self.rewards_collected, self.records_collected)
    }
}

impl Tally {
    /// The rewards flushed so far, as mathematics.
    pub open spec fn collected(&self) -> u128 {
        self@.0
    }

    /// The number of the chain's records that were flushed, as
    /// mathematics.
    pub open spec fn folded(&self) -> u64 {
        self@.1
    }

    /// The account of a pot that has flushed `rewards_collected` out of
    /// `records_collected` records.
    pub fn new(rewards_collected: u128, records_collected: u64) -> (tally: Tally)
        ensures
            tally@ == (rewards_collected, records_collected),
    {
        Tally { rewards_collected, records_collected }
    }

    /// The rewards flushed so far.
    pub fn rewards_collected(&self) -> (total: u128)
        ensures
            total == self.collected(),
    {
        self.rewards_collected
    }

    /// The number of the chain's records that were flushed.
    pub fn records_collected(&self) -> (count: u64)
        ensures
            count == self.folded(),
    {
        self.records_collected
    }

    /// How many of the chain's `total_records` records were not flushed
    /// yet: none where the chain knows fewer than were flushed.
    pub fn outstanding_records(&self, total_records: u64) -> (outstanding: u64)
        ensures
            total_records >= self.folded() ==> outstanding == total_records - self.folded(),
            total_records < self.folded() ==> outstanding == 0,
    {
        total_records.saturating_sub(self.records_collected)
    }

    /// Whether anything has accrued that was not flushed.
    pub fn has_uncollected_rewards(&self, total_records: u64) -> (pending: bool)
        ensures
            pending == (total_records > self.folded()),
    {
        self.outstanding_records(total_records) > 0
    }

    /// All that the pot has received and can still receive: what it has
    /// flushed and the rewards of the records that are outstanding.
    /// `None`: the sum does not fit in 128 bits.
    pub fn total_rewards(&self, outstanding: &Vec<u128>) -> (total: Option<u128>)
        ensures
            total is Some <==> self.collected() + sum(outstanding@) <= u128::MAX,
            total matches Some(t) ==> t == self.collected() + sum(outstanding@),
    {
        let mut total: u128 = self.rewards_collected;
        let mut at: usize = 0;
        assert(outstanding@.take(0) =~= Seq::<u128>::empty());
        while at < outstanding.len()
            invariant
                at <= outstanding.len(),
                total == self.collected() + sum(outstanding@.take(at as int)),
            decreases outstanding.len() - at,
        {
            proof {
                assert(outstanding@.take(at as int + 1).drop_last() =~= outstanding@.take(
                    at as int,
                ));
                lemma_sum_grows(outstanding@, at as int + 1);
            }
            total = match total.checked_add(outstanding[at]) {
                Some(total) => total,
                None => {
                    return None;
                },
            };
            at += 1;
        }
        assert(outstanding@.take(at as int) =~= outstanding@);
        Some(total)
    }

    /// Takes in a flush that brought `amount`, when the chain knows
    /// `total_records` records: the amount is added to what was flushed,
    /// and all the chain's records count as flushed. A flush that brought
    /// nothing changes nothing. `false`: the sum does not fit in 128 bits,
    /// and nothing has changed.
    pub fn record_withdrawal(&mut self, amount: Option<u128>, total_records: u64) -> (done: bool)
        ensures
            done <==> (amount matches Some(a) ==> old(self).collected() + a <= u128::MAX),
            !done ==> *final(self) == *old(self),
            done && amount is None ==> *final(self) == *old(self),
            done ==> (amount matches Some(a) ==> final(self)@ == (
                (old(self).collected() + a) as u128,
                total_records,
            )),
            final(self).collected() >= old(self).collected(),
    {
        match amount {
            None => true,
            Some(amount) => match self.rewards_collected.checked_add(amount) {
                Some(total) => {
                    self.rewards_collected = total;
                    self.records_collected = total_records;
                    true
                },
                None => false,
            },
        }
    }
}

/// The sum of the first `n` amounts is no more than the sum of all.
pub proof fn lemma_sum_grows(rewards: Seq<u128>, n: int)
    requires
        0 <= n <= rewards.len(),
    ensures
        sum(rewards.take(n)) <= sum(rewards),
    decreases rewards.len() - n,
{
    if n == rewards.len() {
        assert(rewards.take(n) =~= rewards);
    } else {
        lemma_sum_grows(rewards, n + 1);
        assert(rewards.take(n + 1).drop_last() =~= rewards.take(n));
    }
}

} // verus!
