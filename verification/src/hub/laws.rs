//! What holds of the ledger whatever requests come in.

use vstd::prelude::*;

use crate::hub::collect::{dapp_ruled, referrer_ruled, remaining_share};
use crate::hub::dapp::{deregister_ruled, register_ruled};
use crate::hub::ledger::{sum_or_zero, Facts, Ledger};
use crate::hub::msg::{Collection, Kind, Msg};
use crate::hub::referral::{record_ruled, referrer_share};
use crate::hub::reply::{Answer, Effect};
use crate::hub::sums::{code_sum, lemma_code_sum_update, lemma_code_sum_within};
use crate::hub::{exec_ruled, Error};

verus! {

impl Ledger {
    /// No code has earned more at one application than it has earned in
    /// all.
    pub open spec fn earnings_add_up(self) -> bool {
        forall|dapp: Seq<char>, code: u64| #[trigger]
            sum_or_zero(self.dapp_earnings, (dapp, code)) <= sum_or_zero(
                self.total_earnings,
                code,
            )
    }

    /// No code was paid more of its earnings at an application than it has
    /// earned there.
    pub open spec fn collected_within_earned(self) -> bool {
        forall|dapp: Seq<char>, code: u64| #[trigger]
            sum_or_zero(self.referrer_dapp_collected, (dapp, code)) <= sum_or_zero(
                self.dapp_earnings,
                (dapp, code),
            )
    }

    /// Nothing that was earned, given or paid is less in `self` than it
    /// was in `before`.
    pub open spec fn grown_from(self, before: Ledger) -> bool {
        &&& forall|code: u64| #[trigger]
            sum_or_zero(before.total_earnings, code) <= sum_or_zero(self.total_earnings, code)
        &&& forall|pair: (Seq<char>, u64)| #[trigger]
            sum_or_zero(before.dapp_earnings, pair) <= sum_or_zero(self.dapp_earnings, pair)
        &&& forall|dapp: Seq<char>| #[trigger]
            sum_or_zero(before.contributions, dapp) <= sum_or_zero(self.contributions, dapp)
        &&& forall|pair: (Seq<char>, u64)| #[trigger]
            sum_or_zero(before.referrer_dapp_collected, pair) <= sum_or_zero(
                self.referrer_dapp_collected,
                pair,
            )
        &&& forall|code: u64| #[trigger]
            sum_or_zero(before.referrer_total_collected, code) <= sum_or_zero(
                self.referrer_total_collected,
                code,
            )
        &&& forall|dapp: Seq<char>| #[trigger]
            sum_or_zero(before.dapp_total_collected, dapp) <= sum_or_zero(
                self.dapp_total_collected,
                dapp,
            )
    }

    /// Every registered application has its percentage and its collector.
    pub open spec fn registered_are_configured(self) -> bool {
        forall|dapp: Seq<char>| #[trigger]
            self.registered(dapp) ==> self.percent.contains_key(dapp)
                && self.collector.contains_key(dapp)
    }
}

/// In the ledger in which nothing has happened, earnings add up and
/// nothing was paid beyond what was earned.
pub proof fn law_empty_ledger_is_sound()
    ensures
        Ledger::empty().earnings_add_up(),
        Ledger::empty().collected_within_earned(),
{
}

/// Whatever request the hub accepts, a code's earnings at one application
/// stay within its earnings in all.
pub proof fn law_earnings_add_up(l: Ledger, f: Facts, msg: Msg)
    requires
        l.earnings_add_up(),
        exec_ruled(l, f, msg) is Ok,
    ensures
        exec_ruled(l, f, msg)->Ok_0.0.earnings_add_up(),
{
    let after = exec_ruled(l, f, msg)->Ok_0.0;
    assert forall|dapp: Seq<char>, code: u64| #[trigger]
        sum_or_zero(after.dapp_earnings, (dapp, code)) <= sum_or_zero(
            after.total_earnings,
            code,
        ) by {
        assert(sum_or_zero(l.dapp_earnings, (dapp, code)) <= sum_or_zero(l.total_earnings, code));
    }
}

/// Whatever request the hub accepts, what a code was paid of its earnings
/// at an application stays within what it has earned there.
pub proof fn law_collected_within_earned(l: Ledger, f: Facts, msg: Msg)
    requires
        l.collected_within_earned(),
        exec_ruled(l, f, msg) is Ok,
    ensures
        exec_ruled(l, f, msg)->Ok_0.0.collected_within_earned(),
{
    let after = exec_ruled(l, f, msg)->Ok_0.0;
    assert forall|dapp: Seq<char>, code: u64| #[trigger]
        sum_or_zero(after.referrer_dapp_collected, (dapp, code)) <= sum_or_zero(
            after.dapp_earnings,
            (dapp, code),
        ) by {
        assert(sum_or_zero(l.referrer_dapp_collected, (dapp, code)) <= sum_or_zero(
            l.dapp_earnings,
            (dapp, code),
        ));
    }
}

/// Whatever request the hub accepts, nothing that was earned, given to
/// referrers or paid to them becomes less.
pub proof fn law_sums_only_grow(l: Ledger, f: Facts, msg: Msg)
    requires
        l.collected_within_earned(),
        exec_ruled(l, f, msg) is Ok,
    ensures
        exec_ruled(l, f, msg)->Ok_0.0.grown_from(l),
{
    let after = exec_ruled(l, f, msg)->Ok_0.0;
    assert forall|pair: (Seq<char>, u64)| #[trigger]
        sum_or_zero(l.referrer_dapp_collected, pair) <= sum_or_zero(
            after.referrer_dapp_collected,
            pair,
        ) by {
        assert(sum_or_zero(l.referrer_dapp_collected, (pair.0, pair.1)) <= sum_or_zero(
            l.dapp_earnings,
            (pair.0, pair.1),
        ));
    }
}

/// A referrer who was just paid is owed nothing: the same request again,
/// with nothing recorded in between, is turned down with
/// `NothingToCollect`.
pub proof fn law_referrer_collects_once(l: Ledger, sender: Seq<char>, dapp: Seq<char>, code: u64)
    requires
        referrer_ruled(l, sender, dapp, code) is Ok,
    ensures
        referrer_ruled(referrer_ruled(l, sender, dapp, code)->Ok_0.0, sender, dapp, code) == Err::<
            (Ledger, Seq<Effect>),
            Error<()>,
        >(Error::NothingToCollect),
{
}

/// An application that was just paid is owed nothing: the same request
/// again, with nothing recorded or reported in between, is turned down
/// with `NothingToCollect`.
pub proof fn law_dapp_collects_once(l: Ledger, f: Facts, sender: Seq<char>, dapp: Seq<char>)
    requires
        dapp_ruled(l, f, sender, dapp) is Ok,
    ensures
        dapp_ruled(dapp_ruled(l, f, sender, dapp)->Ok_0.0, f, sender, dapp) == Err::<
            (Ledger, Seq<Effect>),
            Error<()>,
        >(Error::NothingToCollect),
        dapp_ruled(l, f, sender, dapp)->Ok_0.0.dapp_total_collected[dapp] == remaining_share(
            l,
            f,
            dapp,
        )->0,
{
}

/// An application cannot register twice: once a registration is accepted,
/// the same sender's next one is turned down with `AlreadyRegistered`,
/// whatever it holds.
pub proof fn law_dapp_registers_once(
    l: Ledger,
    f: Facts,
    sender: Seq<char>,
    name: Seq<char>,
    percent: u8,
    collector: Seq<char>,
    again_name: Seq<char>,
    again_percent: u8,
    again_collector: Seq<char>,
)
    requires
        register_ruled(l, f, sender, name, percent, collector) is Ok,
    ensures
        register_ruled(
            register_ruled(l, f, sender, name, percent, collector)->Ok_0.0,
            f,
            sender,
            again_name,
            again_percent,
            again_collector,
        ) == Err::<(Ledger, Effect), Error<()>>(Error::AlreadyRegistered),
{
}

/// A use that is recorded raises by one and the same share what the code
/// has earned in all, what it has earned at the application, and what the
/// application has given to referrers.
pub proof fn law_record_raises_sums_alike(l: Ledger, f: Facts, sender: Seq<char>, code: u64)
    requires
        record_ruled(l, f, sender, code) is Ok,
    ensures
        ({
            let after = record_ruled(l, f, sender, code)->Ok_0.0;
            let share = sum_or_zero(after.total_earnings, code) - sum_or_zero(
                l.total_earnings,
                code,
            );
            &&& share >= 0
            &&& sum_or_zero(after.dapp_earnings, (sender, code)) == sum_or_zero(
                l.dapp_earnings,
                (sender, code),
            ) + share
            &&& sum_or_zero(after.contributions, sender) == sum_or_zero(l.contributions, sender)
                + share
        }),
{
}

impl Ledger {
    /// The books of the referrers balance: what a code has earned in all
    /// is the sum of what it has earned at each application, and what it
    /// was paid in all is the sum of what it was paid of each.
    pub open spec fn referrer_books_balance(self) -> bool {
        &&& self.dapp_earnings.dom().finite()
        &&& forall|code: u64|
            sum_or_zero(self.total_earnings, code) == #[trigger] code_sum(
                self.dapp_earnings.dom(),
                self.dapp_earnings,
                code,
            )
        &&& forall|code: u64|
            sum_or_zero(self.referrer_total_collected, code) == #[trigger] code_sum(
                self.dapp_earnings.dom(),
                self.referrer_dapp_collected,
                code,
            )
    }
}

/// In the ledger in which nothing has happened the books balance.
pub proof fn law_empty_books_balance()
    ensures
        Ledger::empty().referrer_books_balance(),
{
    let l = Ledger::empty();
    assert(l.dapp_earnings.dom() =~= Set::<(Seq<char>, u64)>::empty());
    assert forall|code: u64|
        sum_or_zero(l.total_earnings, code) == #[trigger] code_sum(
            l.dapp_earnings.dom(),
            l.dapp_earnings,
            code,
        ) by {}
    assert forall|code: u64|
        sum_or_zero(l.referrer_total_collected, code) == #[trigger] code_sum(
            l.dapp_earnings.dom(),
            l.referrer_dapp_collected,
            code,
        ) by {}
}

/// A use that is recorded keeps the books balanced.
proof fn lemma_record_keeps_balance(l: Ledger, f: Facts, sender: Seq<char>, code: u64)
    requires
        l.referrer_books_balance(),
        l.collected_within_earned(),
        record_ruled(l, f, sender, code) is Ok,
    ensures
        record_ruled(l, f, sender, code)->Ok_0.0.referrer_books_balance(),
{
    let after = record_ruled(l, f, sender, code)->Ok_0.0;
    let pair = (sender, code);
    let pairs = l.dapp_earnings.dom();
    let share = referrer_share(l.percent[sender], f.current_fee.get(sender));
    if share != 0 {
        assert(after.dapp_earnings.dom() =~= pairs.insert(pair));
        assert(sum_or_zero(l.referrer_dapp_collected, (sender, code)) <= sum_or_zero(
            l.dapp_earnings,
            (sender, code),
        ));
        assert forall|any: u64|
            sum_or_zero(after.total_earnings, any) == #[trigger] code_sum(
                after.dapp_earnings.dom(),
                after.dapp_earnings,
                any,
            ) by {
            lemma_code_sum_update(pairs, l.dapp_earnings, after.dapp_earnings, any, pair);
            assert(sum_or_zero(l.total_earnings, any) == code_sum(pairs, l.dapp_earnings, any));
        }
        assert forall|any: u64|
            sum_or_zero(after.referrer_total_collected, any) == #[trigger] code_sum(
                after.dapp_earnings.dom(),
                after.referrer_dapp_collected,
                any,
            ) by {
            lemma_code_sum_update(
                pairs,
                l.referrer_dapp_collected,
                after.referrer_dapp_collected,
                any,
                pair,
            );
            assert(sum_or_zero(l.referrer_total_collected, any) == code_sum(
                pairs,
                l.referrer_dapp_collected,
                any,
            ));
        }
    } else {
        assert(after.dapp_earnings == l.dapp_earnings);
    }
}

/// A payment to a referrer keeps the books balanced.
proof fn lemma_referrer_keeps_balance(l: Ledger, sender: Seq<char>, dapp: Seq<char>, code: u64)
    requires
        l.referrer_books_balance(),
        l.collected_within_earned(),
        referrer_ruled(l, sender, dapp, code) is Ok,
    ensures
        referrer_ruled(l, sender, dapp, code)->Ok_0.0.referrer_books_balance(),
{
    let after = referrer_ruled(l, sender, dapp, code)->Ok_0.0;
    let pair = (dapp, code);
    let pairs = l.dapp_earnings.dom();
    assert(pairs.contains(pair));
    assert(pairs.insert(pair) =~= pairs);
    assert(after.dapp_earnings == l.dapp_earnings);
    assert(sum_or_zero(l.referrer_dapp_collected, (dapp, code)) <= sum_or_zero(
        l.dapp_earnings,
        (dapp, code),
    ));
    assert forall|any: u64|
        sum_or_zero(after.referrer_total_collected, any) == #[trigger] code_sum(
            after.dapp_earnings.dom(),
            after.referrer_dapp_collected,
            any,
        ) by {
        lemma_code_sum_update(
            pairs,
            l.referrer_dapp_collected,
            after.referrer_dapp_collected,
            any,
            pair,
        );
        assert(sum_or_zero(l.referrer_total_collected, any) == code_sum(
            pairs,
            l.referrer_dapp_collected,
            any,
        ));
    }
    assert forall|any: u64|
        sum_or_zero(after.total_earnings, any) == #[trigger] code_sum(
            after.dapp_earnings.dom(),
            after.dapp_earnings,
            any,
        ) by {
        assert(sum_or_zero(l.total_earnings, any) == code_sum(pairs, l.dapp_earnings, any));
    }
}

/// Whatever request the hub accepts, the books of the referrers stay
/// balanced.
pub proof fn law_books_stay_balanced(l: Ledger, f: Facts, msg: Msg)
    requires
        l.referrer_books_balance(),
        l.collected_within_earned(),
        exec_ruled(l, f, msg) is Ok,
    ensures
        exec_ruled(l, f, msg)->Ok_0.0.referrer_books_balance(),
{
    let after = exec_ruled(l, f, msg)->Ok_0.0;
    match msg.kind {
        Kind::Referral { code } => {
            lemma_record_keeps_balance(l, f, msg.sender@, code@);
        },
        Kind::Collect(Collection::Referrer { dapp, code }) => {
            lemma_referrer_keeps_balance(l, msg.sender@, dapp@, code@);
        },
        _ => {
            assert(after.dapp_earnings == l.dapp_earnings);
            assert(after.total_earnings == l.total_earnings);
            assert(after.referrer_total_collected == l.referrer_total_collected);
            assert(after.referrer_dapp_collected == l.referrer_dapp_collected);
            assert forall|any: u64|
                sum_or_zero(after.total_earnings, any) == #[trigger] code_sum(
                    after.dapp_earnings.dom(),
                    after.dapp_earnings,
                    any,
                ) by {
                assert(sum_or_zero(l.total_earnings, any) == code_sum(
                    l.dapp_earnings.dom(),
                    l.dapp_earnings,
                    any,
                ));
            }
            assert forall|any: u64|
                sum_or_zero(after.referrer_total_collected, any) == #[trigger] code_sum(
                    after.dapp_earnings.dom(),
                    after.referrer_dapp_collected,
                    any,
                ) by {
                assert(sum_or_zero(l.referrer_total_collected, any) == code_sum(
                    l.dapp_earnings.dom(),
                    l.referrer_dapp_collected,
                    any,
                ));
            }
        },
    }
}

/// While the books balance and no code was paid more at an application
/// than it has earned there, no code was paid more in all than it has
/// earned in all.
pub proof fn law_total_collected_within_earned(l: Ledger, code: u64)
    requires
        l.referrer_books_balance(),
        l.collected_within_earned(),
    ensures
        sum_or_zero(l.referrer_total_collected, code) <= sum_or_zero(l.total_earnings, code),
{
    assert forall|pair: (Seq<char>, u64)| #[trigger]
        l.dapp_earnings.dom().contains(pair) implies sum_or_zero(l.referrer_dapp_collected, pair)
        <= sum_or_zero(l.dapp_earnings, pair) by {
        assert(sum_or_zero(l.referrer_dapp_collected, (pair.0, pair.1)) <= sum_or_zero(
            l.dapp_earnings,
            (pair.0, pair.1),
        ));
    }
    lemma_code_sum_within(
        l.dapp_earnings.dom(),
        l.referrer_dapp_collected,
        l.dapp_earnings,
        code,
    );
    assert(sum_or_zero(l.total_earnings, code) == code_sum(
        l.dapp_earnings.dom(),
        l.dapp_earnings,
        code,
    ));
    assert(sum_or_zero(l.referrer_total_collected, code) == code_sum(
        l.dapp_earnings.dom(),
        l.referrer_dapp_collected,
        code,
    ));
}

impl Ledger {
    /// Every code that has an owner was issued: it is no later than the
    /// code that was issued last, and it is not zero.
    pub open spec fn codes_were_issued(self) -> bool {
        forall|code: u64| #[trigger]
            self.owner_of.contains_key(code) ==> self.latest is Some && 1 <= code
                <= self.latest->0
    }
}

/// Whatever request the hub accepts, every code that has an owner stays
/// one that was issued, and a code that had an owner keeps having one.
pub proof fn law_codes_stay_issued(l: Ledger, f: Facts, msg: Msg)
    requires
        l.codes_were_issued(),
        exec_ruled(l, f, msg) is Ok,
    ensures
        exec_ruled(l, f, msg)->Ok_0.0.codes_were_issued(),
        forall|code: u64| #[trigger]
            l.owner_of.contains_key(code) ==> exec_ruled(l, f, msg)->Ok_0.0.owner_of.contains_key(
                code,
            ),
{
}

/// A code that is issued is a new one: the one after the code issued
/// last, or 1 where none was issued, and it had no owner before.
pub proof fn law_codes_are_never_reused(l: Ledger, sender: Seq<char>)
    requires
        l.codes_were_issued(),
        crate::hub::referral::register_ruled(l, sender) is Ok,
    ensures
        ({
            let (after, code) = crate::hub::referral::register_ruled(l, sender)->Ok_0;
            &&& !l.owner_of.contains_key(code)
            &&& l.latest is None ==> code == 1
            &&& l.latest matches Some(latest) ==> code == latest + 1
            &&& after.latest == Some(code)
            &&& after.owner_of[code] == sender
        }),
{
}

/// A reply that carries several commands carries at least two, and
/// whenever one of them pays out of a pot, the one before it flushes that
/// pot.
pub proof fn law_flush_comes_before_payment(l: Ledger, f: Facts, msg: Msg, at: int)
    requires
        exec_ruled(l, f, msg) matches Ok((_, Answer::MultiCmd(effects))) && 0 <= at < effects.len()
            && effects[at] is RedistributeRewards,
    ensures
        exec_ruled(l, f, msg) matches Ok((_, Answer::MultiCmd(effects))) && effects.len() >= 2
            && at > 0 && effects[at - 1] == Effect::WithdrawPending(
            effects[at]->RedistributeRewards_pot,
        ),
{
}

/// A reply that carries several commands is never empty.
pub proof fn law_commands_are_never_empty(l: Ledger, f: Facts, msg: Msg)
    requires
        exec_ruled(l, f, msg) matches Ok((_, Answer::MultiCmd(_))),
    ensures
        exec_ruled(l, f, msg) matches Ok((_, Answer::MultiCmd(effects))) && effects.len() >= 2,
{
}

/// What is left to `dapp` of the rewards its pot has reported once what it
/// gave to referrers is taken away. It is less than nothing where the
/// application has given away more than its pot has reported.
pub open spec fn dapp_share(l: Ledger, f: Facts, dapp: Seq<char>) -> int {
    let rewards = if l.rewards_pot.contains_key(dapp) {
        sum_or_zero(f.total_rewards, l.rewards_pot[dapp])
    } else {
        0
    };
    rewards - sum_or_zero(l.contributions, dapp)
}

/// Nothing was paid to `dapp`, or no more than is left to it.
pub open spec fn dapp_paid_within_share(l: Ledger, f: Facts, dapp: Seq<char>) -> bool {
    sum_or_zero(l.dapp_total_collected, dapp) == 0 || sum_or_zero(l.dapp_total_collected, dapp)
        <= dapp_share(l, f, dapp)
}

/// Whatever request the hub accepts while the chain reports the same, an
/// application that was paid no more than is left to it stays so, as long
/// as what is left to it does not shrink below what it was paid. It can
/// shrink only when a use is recorded at the application before its pot
/// has reported the fee that pays for it.
pub proof fn law_dapp_collected_within_share(l: Ledger, f: Facts, msg: Msg, dapp: Seq<char>)
    requires
        dapp_paid_within_share(l, f, dapp),
        exec_ruled(l, f, msg) is Ok,
        msg.kind is Referral && msg.sender@ == dapp ==> sum_or_zero(l.dapp_total_collected, dapp)
            <= dapp_share(exec_ruled(l, f, msg)->Ok_0.0, f, dapp),
    ensures
        dapp_paid_within_share(exec_ruled(l, f, msg)->Ok_0.0, f, dapp),
{
}

/// Whatever request the hub accepts, every registered application keeps
/// having its percentage and its collector.
pub proof fn law_registered_stay_configured(l: Ledger, f: Facts, msg: Msg)
    requires
        l.registered_are_configured(),
        exec_ruled(l, f, msg) is Ok,
    ensures
        exec_ruled(l, f, msg)->Ok_0.0.registered_are_configured(),
{
    let after = exec_ruled(l, f, msg)->Ok_0.0;
    assert forall|dapp: Seq<char>| #[trigger] after.registered(dapp) implies after.percent.contains_key(
        dapp,
    ) && after.collector.contains_key(dapp) by {
        if l.registered(dapp) {
            assert(l.percent.contains_key(dapp) && l.collector.contains_key(dapp));
        }
    }
}

/// An application's rewards pot is set once: whatever request the hub
/// accepts, the pot that an application has is the one it keeps.
pub proof fn law_pot_is_set_once(l: Ledger, f: Facts, msg: Msg, dapp: Seq<char>)
    requires
        l.rewards_pot.contains_key(dapp),
        exec_ruled(l, f, msg) is Ok,
    ensures
        exec_ruled(l, f, msg)->Ok_0.0.rewards_pot.contains_key(dapp),
        exec_ruled(l, f, msg)->Ok_0.0.rewards_pot[dapp] == l.rewards_pot[dapp],
{
}

/// What the hub keeps of an application or a code that a request does not
/// name stays as it is: a request about one application changes nothing
/// that another has earned, given or collected.
pub proof fn law_others_are_left_alone(l: Ledger, f: Facts, msg: Msg, dapp: Seq<char>, code: u64)
    requires
        exec_ruled(l, f, msg) is Ok,
        msg.kind matches Kind::Referral { .. } ==> msg.sender@ != dapp,
        msg.kind matches Kind::Collect(Collection::Referrer { dapp: paid, .. }) ==> paid@ != dapp,
        msg.kind matches Kind::Collect(Collection::Dapp { dapp: paid }) ==> paid@ != dapp,
    ensures
        ({
            let after = exec_ruled(l, f, msg)->Ok_0.0;
            &&& after.dapp_earnings.get((dapp, code)) == l.dapp_earnings.get((dapp, code))
            &&& after.contributions.get(dapp) == l.contributions.get(dapp)
            &&& after.referrer_dapp_collected.get((dapp, code)) == l.referrer_dapp_collected.get(
                (dapp, code),
            )
            &&& after.dapp_total_collected.get(dapp) == l.dapp_total_collected.get(dapp)
            &&& after.total_invocations.get(dapp) == l.total_invocations.get(dapp)
        }),
{
}

/// A registration is turned down with `InvalidRewardsAdmin` whenever the
/// chain names another than the hub as the one that administers the
/// sender's rewards, and the sender is not registered yet.
pub proof fn law_registration_needs_the_hub_as_admin(
    l: Ledger,
    f: Facts,
    sender: Seq<char>,
    name: Seq<char>,
    percent: u8,
    collector: Seq<char>,
)
    requires
        !l.registered(sender),
        f.rewards_admin.contains_key(sender),
        f.rewards_admin[sender] != f.self_id,
    ensures
        register_ruled(l, f, sender, name, percent, collector) == Err::<(Ledger, Effect), Error<()>>(
            Error::InvalidRewardsAdmin,
        ),
{
}

/// The collector of a registered application that has a pot can take the
/// application out, and so can the application itself. The hub then asks
/// for three things in this order: the flush of the pot, the new
/// recipient, the new administrator.
pub proof fn law_deregister_by_dapp_or_collector(
    l: Ledger,
    sender: Seq<char>,
    dapp: Seq<char>,
    rewards_admin: Seq<char>,
    rewards_recipient: Seq<char>,
)
    requires
        l.registered(dapp),
        l.rewards_pot.contains_key(dapp),
        sender == dapp || (l.collector.contains_key(dapp) && l.collector[dapp] == sender),
    ensures
        deregister_ruled(l, sender, dapp, rewards_admin, rewards_recipient) == Ok::<
            (Ledger, Seq<Effect>),
            Error<()>,
        >(
            (
                l.remove_dapp(dapp),
                seq![
                    Effect::WithdrawPending(l.rewards_pot[dapp]),
                    Effect::SetRewardsRecipient(rewards_recipient),
                    Effect::SetRewardsAdmin(rewards_admin),
                ],
            ),
        ),
        !l.remove_dapp(dapp).registered(dapp),
{
}

/// Nobody but a registered application or its collector can take the
/// application out: anybody else is turned down with `Unauthorized`.
pub proof fn law_deregister_by_another(
    l: Ledger,
    sender: Seq<char>,
    dapp: Seq<char>,
    rewards_admin: Seq<char>,
    rewards_recipient: Seq<char>,
)
    requires
        l.registered(dapp),
        l.collector.contains_key(dapp),
        sender != dapp,
        sender != l.collector[dapp],
    ensures
        deregister_ruled(l, sender, dapp, rewards_admin, rewards_recipient) == Err::<
            (Ledger, Seq<Effect>),
            Error<()>,
        >(Error::Unauthorized),
{
}

/// A use whose fee times the application's percentage does not fit in 128
/// bits is turned down with `Overflow`, whatever else the ledger holds.
pub proof fn law_record_overflows(l: Ledger, f: Facts, sender: Seq<char>, code: u64)
    requires
        l.registered(sender),
        l.owner_of.contains_key(code),
        l.percent.contains_key(sender),
        f.current_fee.contains_key(sender),
        f.current_fee[sender] * l.percent[sender] > u128::MAX,
    ensures
        record_ruled(l, f, sender, code) == Err::<(Ledger, ()), Error<()>>(Error::Overflow),
{
}

impl Ledger {
    /// Whoever owns a code is among the accounts that hold one, and has a
    /// code to its name.
    pub open spec fn owners_are_known(self) -> bool {
        forall|code: u64| #[trigger]
            self.owner_of.contains_key(code) ==> self.owners.contains(self.owner_of[code])
                && self.code_of.contains_key(self.owner_of[code])
    }
}

/// Whatever request the hub accepts, the owner of every code stays among
/// the accounts that hold one, and an account that held a code stays among
/// them: it can never ask for a second code.
pub proof fn law_owners_stay_known(l: Ledger, f: Facts, msg: Msg)
    requires
        l.owners_are_known(),
        exec_ruled(l, f, msg) is Ok,
    ensures
        exec_ruled(l, f, msg)->Ok_0.0.owners_are_known(),
        forall|owner: Seq<char>| #[trigger]
            l.owners.contains(owner) ==> exec_ruled(l, f, msg)->Ok_0.0.owners.contains(owner),
{
    let after = exec_ruled(l, f, msg)->Ok_0.0;
    assert forall|code: u64| #[trigger] after.owner_of.contains_key(code) implies after.owners.contains(
        after.owner_of[code],
    ) && after.code_of.contains_key(after.owner_of[code]) by {
        if l.owner_of.contains_key(code) {
            assert(l.owners.contains(l.owner_of[code]));
        }
    }
}

impl Ledger {
    /// All that holds of the ledger whatever requests came in.
    pub open spec fn sound(self) -> bool {
        &&& self.earnings_add_up()
        &&& self.collected_within_earned()
        &&& self.referrer_books_balance()
        &&& self.codes_were_issued()
        &&& self.owners_are_known()
        &&& self.registered_are_configured()
    }
}

/// The ledger after a row of requests, each with the facts that the chain
/// reported when it came. A request that is turned down leaves the ledger
/// as it was.
pub open spec fn ledger_after(l: Ledger, requests: Seq<(Facts, Msg)>) -> Ledger
    decreases requests.len(),
{
    if requests.len() == 0 {
        l
    } else {
        let before = ledger_after(l, requests.drop_last());
        match exec_ruled(before, requests.last().0, requests.last().1) {
            Ok((next, _)) => next,
            Err(_) => before,
        }
    }
}

/// A sound ledger stays sound over any row of requests, whatever the
/// chain reports in between.
pub proof fn law_sound_ledgers_stay_sound(l: Ledger, requests: Seq<(Facts, Msg)>)
    requires
        l.sound(),
    ensures
        ledger_after(l, requests).sound(),
    decreases requests.len(),
{
    if requests.len() > 0 {
        law_sound_ledgers_stay_sound(l, requests.drop_last());
        let before = ledger_after(l, requests.drop_last());
        let (f, msg) = requests.last();
        if exec_ruled(before, f, msg) is Ok {
            law_earnings_add_up(before, f, msg);
            law_collected_within_earned(before, f, msg);
            law_books_stay_balanced(before, f, msg);
            law_codes_stay_issued(before, f, msg);
            law_owners_stay_known(before, f, msg);
            law_registered_stay_configured(before, f, msg);
        }
    }
}

/// After any row of requests to a hub that started with nothing, no code
/// has earned more at one application than it has earned in all, and no
/// code was paid more than it has earned, neither at one application nor
/// in all.
pub proof fn law_after_any_requests(requests: Seq<(Facts, Msg)>, dapp: Seq<char>, code: u64)
    ensures
        ({
            let l = ledger_after(Ledger::empty(), requests);
            &&& l.sound()
            &&& sum_or_zero(l.dapp_earnings, (dapp, code)) <= sum_or_zero(l.total_earnings, code)
            &&& sum_or_zero(l.referrer_dapp_collected, (dapp, code)) <= sum_or_zero(
                l.dapp_earnings,
                (dapp, code),
            )
            &&& sum_or_zero(l.referrer_total_collected, code) <= sum_or_zero(
                l.total_earnings,
                code,
            )
        }),
{
    law_empty_ledger_is_sound();
    law_empty_books_balance();
    law_sound_ledgers_stay_sound(Ledger::empty(), requests);
    let l = ledger_after(Ledger::empty(), requests);
    law_total_collected_within_earned(l, code);
}

} // verus!
