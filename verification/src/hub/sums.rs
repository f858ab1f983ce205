//! Sums over the applications at which a referral code has earned.

use vstd::prelude::*;

use crate::hub::ledger::{sum_or_zero, Pair};

verus! {

/// What `pair` adds to the sum for `code`: its amount where it is a pair
/// of that code, and nothing else.
pub open spec fn term(amounts: Map<Pair, u128>, pair: Pair, code: u64) -> nat {
    if pair.1 == code {
        sum_or_zero(amounts, pair) as nat
    } else {
        0
    }
}

/// The sum of the amounts that `amounts` holds for `code`, over the pairs
/// in `pairs`.
pub open spec fn code_sum(pairs: Set<Pair>, amounts: Map<Pair, u128>, code: u64) -> nat
    decreases pairs.len(),
    when pairs.finite()
{
    if pairs.is_empty() {
        0
    } else {
        let pair = pairs.choose();
        term(amounts, pair, code) + code_sum(pairs.remove(pair), amounts, code)
    }
}

/// A sum can be taken apart at any of its pairs.
pub proof fn lemma_code_sum_split(pairs: Set<Pair>, amounts: Map<Pair, u128>, code: u64, pair: Pair)
    requires
        pairs.finite(),
        pairs.contains(pair),
    ensures
        code_sum(pairs, amounts, code) == term(amounts, pair, code) + code_sum(
            pairs.remove(pair),
            amounts,
            code,
        ),
    decreases pairs.len(),
{
    broadcast use vstd::set::group_set_axioms;

    let chosen = pairs.choose();
    if chosen != pair {
        lemma_code_sum_split(pairs.remove(chosen), amounts, code, pair);
        lemma_code_sum_split(pairs.remove(pair), amounts, code, chosen);
        assert(pairs.remove(chosen).remove(pair) =~= pairs.remove(pair).remove(chosen));
    }
}

/// Two books that agree on the pairs of a sum give the same sum.
pub proof fn lemma_code_sum_agrees(
    pairs: Set<Pair>,
    amounts: Map<Pair, u128>,
    others: Map<Pair, u128>,
    code: u64,
)
    requires
        pairs.finite(),
        forall|pair: Pair| #[trigger]
            pairs.contains(pair) ==> sum_or_zero(amounts, pair) == sum_or_zero(others, pair),
    ensures
        code_sum(pairs, amounts, code) == code_sum(pairs, others, code),
    decreases pairs.len(),
{
    broadcast use vstd::set::group_set_axioms;

    if !pairs.is_empty() {
        let chosen = pairs.choose();
        assert(pairs.contains(chosen));
        lemma_code_sum_agrees(pairs.remove(chosen), amounts, others, code);
    }
}

/// Where one book holds no more than another at every pair, its sum is no
/// more either.
pub proof fn lemma_code_sum_within(
    pairs: Set<Pair>,
    amounts: Map<Pair, u128>,
    others: Map<Pair, u128>,
    code: u64,
)
    requires
        pairs.finite(),
        forall|pair: Pair| #[trigger]
            pairs.contains(pair) ==> sum_or_zero(amounts, pair) <= sum_or_zero(others, pair),
    ensures
        code_sum(pairs, amounts, code) <= code_sum(pairs, others, code),
    decreases pairs.len(),
{
    broadcast use vstd::set::group_set_axioms;

    if !pairs.is_empty() {
        let chosen = pairs.choose();
        assert(pairs.contains(chosen));
        lemma_code_sum_within(pairs.remove(chosen), amounts, others, code);
    }
}

/// When a book changes at one pair, its sum changes by what that pair
/// held before and holds after.
pub proof fn lemma_code_sum_update(
    pairs: Set<Pair>,
    amounts: Map<Pair, u128>,
    after: Map<Pair, u128>,
    code: u64,
    pair: Pair,
)
    requires
        pairs.finite(),
        forall|other: Pair| #[trigger]
            sum_or_zero(after, other) == sum_or_zero(amounts, other) || other == pair,
        pairs.contains(pair) || sum_or_zero(amounts, pair) == 0,
    ensures
        code_sum(pairs.insert(pair), after, code) + term(amounts, pair, code) == code_sum(
            pairs,
            amounts,
            code,
        ) + term(after, pair, code),
{
    broadcast use vstd::set::group_set_axioms;

    let grown = pairs.insert(pair);
    let rest = grown.remove(pair);
    lemma_code_sum_split(grown, after, code, pair);
    assert forall|other: Pair| #[trigger] rest.contains(other) implies sum_or_zero(amounts, other)
        == sum_or_zero(after, other) by {
        assert(sum_or_zero(after, other) == sum_or_zero(amounts, other) || other == pair);
    }
    lemma_code_sum_agrees(rest, amounts, after, code);
    if pairs.contains(pair) {
        assert(grown =~= pairs);
        lemma_code_sum_split(pairs, amounts, code, pair);
    } else {
        assert(rest =~= pairs);
    }
}

} // verus!
