//! Time-weighted selection: weights that fall with an entry's age, and
//! draws that walk the running sum of the weights.

use vstd::prelude::*;
use crate::allocation::{
    min_of, AllocationEngine, AllocationResult, AllocationResultView, LotteryEntry,
    LotteryEntryView,
};
use crate::ledger::LedgerContext;

verus! {

/// The larger of two numbers.
pub open spec fn max_of(a: int, b: int) -> int {
    if a >= b {
        a
    } else {
        b
    }
}

/// The earliest entry time among the first `upto` entries.
pub open spec fn earliest_entry_time(entries: Seq<LotteryEntryView>, upto: int) -> int
    decreases upto,
{
    if upto <= 1 {
        entries[0].entry_time as int
    } else {
        min_of(earliest_entry_time(entries, upto - 1), entries[upto - 1].entry_time as int)
    }
}

/// The latest entry time among the first `upto` entries.
pub open spec fn latest_entry_time(entries: Seq<LotteryEntryView>, upto: int) -> int
    decreases upto,
{
    if upto <= 1 {
        entries[0].entry_time as int
    } else {
        max_of(latest_entry_time(entries, upto - 1), entries[upto - 1].entry_time as int)
    }
}

/// The spread between the earliest and the latest entry time of the pool.
pub open spec fn time_span(entries: Seq<LotteryEntryView>) -> int {
    latest_entry_time(entries, entries.len() as int) - earliest_entry_time(
        entries,
        entries.len() as int,
    )
}

/// How old an entry is at `now`; an entry from the future has age 0.
pub open spec fn entry_age(now: u64, entry_time: u64) -> int {
    if now >= entry_time {
        now - entry_time
    } else {
        0
    }
}

/// The weight of an entry: 100 for every entry when the pool has no
/// spread; otherwise 100 less the entry's age as a percentage of the spread
/// plus one, and never below 1.
pub open spec fn time_weight(now: u64, entry_time: u64, span: int) -> int {
    if span == 0 {
        100
    } else {
        max_of(1, 100 - (entry_age(now, entry_time) * 100) / (span + 1))
    }
}

/// The weight of each entry of the pool at `now`.
pub open spec fn time_weights(entries: Seq<LotteryEntryView>, now: u64) -> Seq<u32> {
    Seq::new(
        entries.len(),
        |i: int| time_weight(now, entries[i].entry_time, time_span(entries)) as u32,
    )
}

/// The sum of the first `upto` weights.
pub open spec fn weight_sum(weights: Seq<u32>, upto: int) -> int
    decreases upto,
{
    if upto <= 0 {
        0
    } else {
        weight_sum(weights, upto - 1) + weights[upto - 1]
    }
}

/// The running sum of weights up to and including `position`.
pub open spec fn weight_through(weights: Seq<u32>, position: int) -> int {
    weight_sum(weights, position + 1)
}

/// The total weight of the pool, which saturates at `u32::MAX`.
pub open spec fn total_weight(weights: Seq<u32>) -> int {
    min_of(weight_sum(weights, weights.len() as int), u32::MAX as int)
}

/// The first position at or after `from` whose running sum of weights,
/// itself included, reaches `target`; the number of weights if none does.
pub open spec fn weighted_pick(weights: Seq<u32>, target: int, from: int) -> int
    decreases weights.len() - from,
{
    if from >= weights.len() {
        weights.len() as int
    } else if target <= weight_through(weights, from) {
        from
    } else {
        weighted_pick(weights, target, from + 1)
    }
}

/// A weight lies between 1 and 100.
pub proof fn lemma_time_weight_bounds(now: u64, entry_time: u64, span: int)
    requires
        0 <= span,
    ensures
        1 <= time_weight(now, entry_time, span) <= 100,
{
    if span != 0 {
        let age = entry_age(now, entry_time);
        assert((age * 100) / (span + 1) >= 0) by (nonlinear_arith)
            requires
                age >= 0,
                span + 1 > 0,
        ;
    }
}

/// A target that the whole pool's weight reaches is reached at some
/// position of the pool, and at no earlier one.
proof fn lemma_weighted_pick_found(weights: Seq<u32>, target: int, from: int)
    requires
        0 <= from < weights.len(),
        target <= weight_sum(weights, weights.len() as int),
    ensures
        from <= weighted_pick(weights, target, from) < weights.len(),
        target <= weight_through(weights, weighted_pick(weights, target, from)),
        forall|j: int|
            from <= j < weighted_pick(weights, target, from) ==> target > #[trigger] weight_through(
                weights,
                j,
            ),
    decreases weights.len() - from,
{
    if target > weight_through(weights, from) {
        if from + 1 < weights.len() {
            lemma_weighted_pick_found(weights, target, from + 1);
        }
    }
}

/// How many draws time-weighted selection makes: none over an empty pool;
/// otherwise one per winner asked for, but no more than there are
/// randomness values. The size of the pool is no cap, since an entry may
/// win again.
pub open spec fn time_weighted_draws(pool: int, supplied: int, quantity: u32) -> nat {
    if pool == 0 {
        0
    } else {
        min_of(quantity as int, supplied) as nat
    }
}

/// The outcome of time-weighted selection at `now`: nothing for an empty
/// pool; otherwise one result per draw, each draw reducing its randomness
/// modulo the pool's total weight and taking the first entry whose running
/// sum of weights reaches that value. Draws are independent, so an entry
/// may win more than once.
pub open spec fn time_weighted_results(
    entries: Seq<LotteryEntryView>,
    randomness: Seq<u128>,
    quantity: u32,
    now: u64,
) -> Seq<AllocationResultView> {
    if entries.len() == 0 {
        Seq::empty()
    } else {
        let weights = time_weights(entries, now);
        let total = total_weight(weights);
        Seq::new(
            time_weighted_draws(entries.len() as int, randomness.len() as int, quantity),
            |k: int|
                {
                    let pick = weighted_pick(weights, randomness[k] as int % total, 0);
                    AllocationResultView {
                        winner: entries[pick].participant,
                        allocation_index: k as u32,
                        randomness_value: randomness[k],
                        weight_applied: weights[pick],
                    }
                },
        )
    }
}

/// Adding a weight at the end leaves the sums before it as they were.
proof fn lemma_weight_sum_unchanged(before: Seq<u32>, after: Seq<u32>, upto: int)
    requires
        0 <= upto <= before.len(),
        after.len() >= before.len(),
        forall|k: int| 0 <= k < before.len() ==> before[k] == after[k],
    ensures
        weight_sum(after, upto) == weight_sum(before, upto),
    decreases upto,
{
    if upto > 0 {
        lemma_weight_sum_unchanged(before, after, upto - 1);
    }
}

impl AllocationEngine {
    /// Time-weighted selection at the ledger's clock: every entry gets a
    /// weight between 1 and 100 that falls with its age, measured against
    /// the spread of entry times in the pool; each draw picks the first
    /// entry whose running sum of weights reaches the draw's randomness
    /// modulo the total weight.
    pub fn allocate_time_weighted(
        ledger: &LedgerContext,
        entries: &Vec<LotteryEntry>,
        randomness_values: &Vec<u128>,
        quantity: u32,
    ) -> (results: Vec<AllocationResult>)
        ensures
            results.deep_view() == time_weighted_results(
                entries.deep_view(),
                randomness_values@,
                quantity,
                ledger.timestamp,
            ),
            results@.len() == time_weighted_draws(
                entries@.len() as int,
                randomness_values@.len() as int,
                quantity,
            ),
            results@.len() <= quantity,
            forall|k: int|
                0 <= k < results@.len() ==> {
                    &&& (#[trigger] results@[k]).allocation_index == k
                    &&& 1 <= results@[k].weight_applied <= 100
                },
    {
        let mut results: Vec<AllocationResult> = Vec::new();
        let pool: usize = entries.len();
        let ghost list = entries.deep_view();
        if pool == 0 {
            assert(results.deep_view() =~= time_weighted_results(
                list,
                randomness_values@,
                quantity,
                ledger.timestamp,
            ));
            return results;
        }
        let now: u64 = ledger.timestamp;

        // The spread of entry times.
        let mut earliest: u64 = entries[0].entry_time;
        let mut latest: u64 = entries[0].entry_time;
        let mut at: usize = 1;
        while at < pool
            invariant
                pool == entries@.len(),
                list == entries.deep_view(),
                1 <= at <= pool,
                earliest == earliest_entry_time(list, at as int),
                latest == latest_entry_time(list, at as int),
                earliest <= latest,
            decreases pool - at,
        {
            let time: u64 = entries[at].entry_time;
            if time < earliest {
                earliest = time;
            }
            if time > latest {
                latest = time;
            }
            at += 1;
        }
        let span: u64 = latest - earliest;
        assert(span == time_span(list));

        // The weight of each entry, and their saturating total.
        let mut weights: Vec<u32> = Vec::new();
        let mut total: u32 = 0;
        let mut at: usize = 0;
        while at < pool
            invariant
                pool == entries@.len(),
                list == entries.deep_view(),
                at <= pool,
                weights@.len() == at,
                forall|k: int|
                    0 <= k < at ==> #[trigger] weights@[k] == time_weight(
                        now,
                        list[k].entry_time,
                        span as int,
                    ),
                forall|k: int| 0 <= k < at ==> 1 <= #[trigger] weights@[k] <= 100,
                total == min_of(weight_sum(weights@, at as int), u32::MAX as int),
                at <= weight_sum(weights@, at as int),
            decreases pool - at,
        {
            let weight: u32 = Self::entry_weight(now, entries[at].entry_time, span);
            let ghost before = weights@;
            weights.push(weight);
            proof {
                lemma_weight_sum_unchanged(before, weights@, at as int);
            }
            total = total.saturating_add(weight);
            at += 1;
        }
        assert(weights@ =~= time_weights(list, now));
        assert(total == total_weight(weights@));
        assert(total > 0);

        let mut draw: u32 = 0;
        while draw < quantity && (draw as usize) < randomness_values.len()
            invariant
                pool == entries@.len(),
                pool > 0,
                list == entries.deep_view(),
                weights@ == time_weights(list, now),
                total == total_weight(weights@),
                total > 0,
                draw <= quantity,
                draw <= randomness_values@.len(),
                results@.len() == draw,
                forall|k: int| 0 <= k < pool ==> 1 <= #[trigger] weights@[k] <= 100,
                forall|k: int|
                    0 <= k < draw ==> 1 <= (#[trigger] results@[k]).weight_applied <= 100,
                forall|k: int|
                    0 <= k < draw ==> (#[trigger] results@[k])@ == (AllocationResultView {
                        winner: list[weighted_pick(
                            weights@,
                            randomness_values@[k] as int % (total as int),
                            0,
                        )].participant,
                        allocation_index: k as u32,
                        randomness_value: randomness_values@[k],
                        weight_applied: weights@[weighted_pick(
                            weights@,
                            randomness_values@[k] as int % (total as int),
                            0,
                        )],
                    }),
            decreases quantity - draw,
        {
            let randomness: u128 = randomness_values[draw as usize];
            let target: u32 = (randomness % (total as u128)) as u32;
            proof {
                lemma_weighted_pick_found(weights@, target as int, 0);
            }
            let ghost expected = weighted_pick(weights@, target as int, 0);

            // Walk the running sum until it reaches the target.
            let mut pick: usize = 0;
            let mut cumulative: u32 = weights[0];
            assert(weight_through(weights@, 0) == weights@[0]) by {
                assert(weight_sum(weights@, 0) == 0);
            }
            while target > cumulative
                invariant
                    weights@.len() == pool,
                    pick <= expected < pool,
                    target < total,
                    total == total_weight(weights@),
                    cumulative == min_of(weight_through(weights@, pick as int), u32::MAX as int),
                    forall|j: int|
                        0 <= j < expected ==> target > #[trigger] weight_through(weights@, j),
                    target <= weight_through(weights@, expected),
                decreases pool - pick,
            {
                assert(pick < expected);
                pick += 1;
                cumulative = cumulative.saturating_add(weights[pick]);
            }
            assert(pick == expected) by {
                if pick < expected {
                    assert(target > weight_through(weights@, pick as int));
                }
            }
            let entry = &entries[pick];
            assert(list[pick as int] == entry@);
            results.push(
                AllocationResult {
                    winner: entry.participant.duplicate(),
                    allocation_index: draw,
                    randomness_value: randomness,
                    weight_applied: weights[pick],
                },
            );
            draw += 1;
        }
        assert(results.deep_view() =~= time_weighted_results(
            list,
            randomness_values@,
            quantity,
            ledger.timestamp,
        ));
        results
    }

    /// The weight of one entry, given the pool's spread of entry times.
    fn entry_weight(now: u64, entry_time: u64, span: u64) -> (weight: u32)
        ensures
            weight == time_weight(now, entry_time, span as int),
            1 <= weight <= 100,
    {
        proof {
            lemma_time_weight_bounds(now, entry_time, span as int);
        }
        if span == 0 {
            return 100;
        }
        let age: u64 = now.saturating_sub(entry_time);
        let fraction: u128 = (age as u128 * 100) / (span as u128 + 1);
        if fraction >= 99 {
            1
        } else {
            100 - fraction as u32
        }
    }
}

} // verus!
