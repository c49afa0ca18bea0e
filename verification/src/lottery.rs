//! The lottery: uniform draws without replacement. Here is the mathematics
//! of picking the free position of a given rank, the proof that no position
//! is picked twice, and the strategy itself.

use vstd::prelude::*;
use crate::allocation::{
    min_of, AllocationEngine, AllocationResult, AllocationResultView, LotteryEntry,
    LotteryEntryView,
};

verus! {

/// How many positions in `0..upto` are not in `taken`.
pub open spec fn free_below(taken: Set<int>, upto: int) -> int
    decreases upto,
{
    if upto <= 0 {
        0
    } else {
        free_below(taken, upto - 1) + if taken.contains(upto - 1) {
            0int
        } else {
            1int
        }
    }
}

/// The free position of rank `rank` at or after `from`: scanning upward
/// from `from`, the position reached after passing `rank` free ones. Where
/// fewer than `rank + 1` free positions lie in `from..bound`, it is `bound`.
pub open spec fn nth_free(taken: Set<int>, from: int, rank: nat, bound: int) -> int
    decreases bound - from,
{
    if from >= bound {
        bound
    } else if taken.contains(from) {
        nth_free(taken, from + 1, rank, bound)
    } else if rank == 0 {
        from
    } else {
        nth_free(taken, from + 1, (rank - 1) as nat, bound)
    }
}

/// The rank drawn from `randomness` over a pool of `pool_size` remaining
/// candidates.
pub open spec fn selection_index(randomness: u128, pool_size: int) -> int {
    randomness as int % pool_size
}

/// The positions that a lottery over a pool of `pool` picks in its first
/// `draws` draws. Each draw reduces its randomness modulo the number of
/// positions still free and takes the free position of that rank.
pub open spec fn lottery_picks(pool: int, randomness: Seq<u128>, draws: nat) -> Seq<int>
    decreases draws,
{
    if draws == 0 {
        Seq::empty()
    } else {
        let prior = lottery_picks(pool, randomness, (draws - 1) as nat);
        let rank = selection_index(randomness[draws - 1], pool - (draws - 1));
        prior.push(nth_free(prior.to_set(), 0, rank as nat, pool))
    }
}

/// All positions of `picks` lie in `0..pool` and no two are the same.
pub open spec fn distinct_within(picks: Seq<int>, pool: int) -> bool {
    &&& forall|k: int| 0 <= k < picks.len() ==> 0 <= #[trigger] picks[k] < pool
    &&& forall|a: int, b: int|
        0 <= a < picks.len() && 0 <= b < picks.len() && a != b ==> #[trigger] picks[a]
            != #[trigger] picks[b]
}

/// Counting free positions never goes down as the range grows.
proof fn lemma_free_below_monotone(taken: Set<int>, low: int, high: int)
    requires
        low <= high,
    ensures
        free_below(taken, low) <= free_below(taken, high),
    decreases high - low,
{
    if low < high {
        lemma_free_below_monotone(taken, low, high - 1);
    }
}

/// Taking one more position, which was free, removes it from every count
/// that reaches past it and leaves the other counts alone.
proof fn lemma_free_below_insert(taken: Set<int>, position: int, upto: int)
    requires
        !taken.contains(position),
        0 <= position,
    ensures
        free_below(taken.insert(position), upto) == free_below(taken, upto) - if position < upto {
            1int
        } else {
            0int
        },
    decreases upto,
{
    if upto > 0 {
        lemma_free_below_insert(taken, position, upto - 1);
    }
}

/// Where enough free positions remain in `from..bound`, the free position
/// of rank `rank` lies in that range, is free, and has exactly `rank` free
/// positions between `from` and itself.
proof fn lemma_nth_free_found(taken: Set<int>, from: int, rank: nat, bound: int)
    requires
        0 <= from <= bound,
        rank < free_below(taken, bound) - free_below(taken, from),
    ensures
        from <= nth_free(taken, from, rank, bound) < bound,
        !taken.contains(nth_free(taken, from, rank, bound)),
        free_below(taken, nth_free(taken, from, rank, bound)) == free_below(taken, from) + rank,
    decreases bound - from,
{
    if from >= bound {
    } else if taken.contains(from) {
        lemma_nth_free_found(taken, from + 1, rank, bound);
    } else if rank == 0 {
    } else {
        lemma_nth_free_found(taken, from + 1, (rank - 1) as nat, bound);
    }
}

/// At most one free position has a given number of free positions below it.
proof fn lemma_free_rank_unique(taken: Set<int>, first: int, second: int)
    requires
        0 <= first,
        0 <= second,
        !taken.contains(first),
        !taken.contains(second),
        free_below(taken, first) == free_below(taken, second),
    ensures
        first == second,
{
    if first < second {
        lemma_free_below_monotone(taken, first + 1, second);
    } else if second < first {
        lemma_free_below_monotone(taken, second + 1, first);
    }
}

/// A lottery never picks a position twice, nor one outside the pool: after
/// `draws` draws, with `draws` no larger than the pool, the picks are
/// `draws` different positions of the pool, and as many free ones remain as
/// the pool has left.
pub proof fn lemma_lottery_picks_distinct(pool: int, randomness: Seq<u128>, draws: nat)
    requires
        draws <= pool,
    ensures
        lottery_picks(pool, randomness, draws).len() == draws,
        distinct_within(lottery_picks(pool, randomness, draws), pool),
        free_below(lottery_picks(pool, randomness, draws).to_set(), pool) == pool - draws,
    decreases draws,
{
    let picks = lottery_picks(pool, randomness, draws);
    if draws == 0 {
        assert(picks.to_set() =~= Set::<int>::empty());
        lemma_free_below_empty(pool);
    } else {
        let prior = lottery_picks(pool, randomness, (draws - 1) as nat);
        lemma_lottery_picks_distinct(pool, randomness, (draws - 1) as nat);
        let remaining = pool - (draws - 1);
        let rank = selection_index(randomness[draws - 1], remaining);
        assert(0 <= rank < remaining) by (nonlinear_arith)
            requires
                rank == randomness[draws - 1] as int % remaining,
                remaining > 0,
        ;
        let taken = prior.to_set();
        let next = nth_free(taken, 0, rank as nat, pool);
        lemma_nth_free_found(taken, 0, rank as nat, pool);
        prior.lemma_push_to_set_commute(next);
        assert(picks.to_set() == taken.insert(next));
        lemma_free_below_insert(taken, next, pool);
        assert(picks == prior.push(next));
        assert forall|a: int, b: int|
            0 <= a < picks.len() && 0 <= b < picks.len() && a != b implies #[trigger] picks[a]
            != #[trigger] picks[b] by {
            if a == draws - 1 {
                assert(prior.contains(prior[b]));
                assert(taken.contains(picks[b]));
            } else if b == draws - 1 {
                assert(prior.contains(prior[a]));
                assert(taken.contains(picks[a]));
            }
        }
    }
}

/// With nothing taken, every position is free.
proof fn lemma_free_below_empty(upto: int)
    requires
        0 <= upto,
    ensures
        free_below(Set::<int>::empty(), upto) == upto,
    decreases upto,
{
    if upto > 0 {
        lemma_free_below_empty(upto - 1);
    }
}

/// The set of the first `count` values of `positions`.
pub open spec fn members(positions: Seq<usize>, count: int) -> Set<int>
    decreases count,
{
    if count <= 0 {
        Set::empty()
    } else {
        members(positions, count - 1).insert(positions[count - 1] as int)
    }
}

/// Each value is smaller than the values after it.
pub open spec fn ascending(positions: Seq<usize>) -> bool {
    forall|a: int, b: int| 0 <= a < b < positions.len() ==> positions[a] < positions[b]
}

/// In an ascending list, the first `count` values are all at most the last
/// of them.
proof fn lemma_members_below(positions: Seq<usize>, count: int)
    requires
        ascending(positions),
        0 <= count <= positions.len(),
    ensures
        forall|x: int| #[trigger]
            members(positions, count).contains(x) ==> count > 0 && 0 <= x <= positions[count - 1],
    decreases count,
{
    if count > 0 {
        lemma_members_below(positions, count - 1);
        assert forall|x: int| #[trigger]
            members(positions, count).contains(x) implies 0 <= x <= positions[count - 1] by {
            if x != positions[count - 1] as int {
                assert(members(positions, count - 1).contains(x));
                assert(positions[count - 2] < positions[count - 1]);
            }
        }
    }
}

/// Values of an ascending list that all lie above `position` change neither
/// whether `position` is free nor how many free positions lie below it.
proof fn lemma_members_above(positions: Seq<usize>, from: int, count: int, position: int)
    requires
        ascending(positions),
        0 <= from <= count <= positions.len(),
        0 <= position,
        from < positions.len() ==> position < positions[from],
        !members(positions, from).contains(position),
    ensures
        !members(positions, count).contains(position),
        free_below(members(positions, count), position) == free_below(
            members(positions, from),
            position,
        ),
    decreases count - from,
{
    if from < count {
        lemma_members_above(positions, from, count - 1, position);
        lemma_members_below(positions, count - 1);
        lemma_free_below_insert(
            members(positions, count - 1),
            positions[count - 1] as int,
            position,
        );
    }
}

/// Putting a value into a list adds it to the list's set of values.
proof fn lemma_members_insert(positions: Seq<usize>, at: int, value: usize, count: int)
    requires
        0 <= at <= positions.len(),
        0 <= count <= positions.len() + 1,
    ensures
        count <= at ==> members(positions.insert(at, value), count) == members(positions, count),
        count > at ==> members(positions.insert(at, value), count) == members(
            positions,
            count - 1,
        ).insert(value as int),
    decreases count,
{
    let grown = positions.insert(at, value);
    if count > 0 {
        lemma_members_insert(positions, at, value, count - 1);
        if count <= at {
            assert(grown[count - 1] == positions[count - 1]);
        } else if count - 1 == at {
            assert(grown[count - 1] == value);
        } else {
            assert(grown[count - 1] == positions[count - 2]);
            assert(members(positions, count - 2).insert(value as int).insert(
                positions[count - 2] as int,
            ) =~= members(positions, count - 2).insert(positions[count - 2] as int).insert(
                value as int,
            ));
        }
    }
}

/// Takes the free position of rank `rank`: finds it by skipping the
/// positions picked so far, in ascending order, and files it among them.
/// `picked` holds the positions picked so far, ascending, and stays so.
pub(crate) fn take_free_position(picked: &mut Vec<usize>, rank: usize) -> (position: usize)
    requires
        ascending(old(picked)@),
        rank + old(picked)@.len() <= usize::MAX,
    ensures
        !members(old(picked)@, old(picked)@.len() as int).contains(position as int),
        free_below(members(old(picked)@, old(picked)@.len() as int), position as int) == rank,
        position <= rank + old(picked)@.len(),
        ascending(final(picked)@),
        final(picked)@.len() == old(picked)@.len() + 1,
        members(final(picked)@, final(picked)@.len() as int) == members(
            old(picked)@,
            old(picked)@.len() as int,
        ).insert(position as int),
{
    let mut position: usize = rank;
    let mut at: usize = 0;
    proof {
        lemma_free_below_empty(rank as int);
    }
    while at < picked.len() && picked[at] <= position
        invariant
            picked@ == old(picked)@,
            at <= picked@.len(),
            ascending(picked@),
            position == rank + at,
            rank + picked@.len() <= usize::MAX,
            !members(picked@, at as int).contains(position as int),
            free_below(members(picked@, at as int), position as int) == rank,
            at > 0 ==> picked@[at - 1] < position,
        decreases picked@.len() - at,
    {
        proof {
            let seen = members(picked@, at as int);
            lemma_members_below(picked@, at as int);
            if at > 0 {
                assert(picked@[at - 1] < picked@[at as int]);
            }
            assert(!seen.contains(picked@[at as int] as int));
            lemma_free_below_insert(seen, picked@[at as int] as int, position + 1);
            assert(!seen.contains(position + 1)) by {
                if seen.contains(position + 1) {
                    assert(position + 1 <= picked@[at - 1]);
                }
            }
        }
        position += 1;
        at += 1;
    }
    let ghost before = picked@;
    proof {
        lemma_members_above(before, at as int, before.len() as int, position as int);
        lemma_members_insert(before, at as int, position, before.len() as int + 1);
    }
    picked.insert(at, position);
    assert(ascending(picked@)) by {
        assert forall|a: int, b: int| 0 <= a < b < picked@.len() implies picked@[a]
            < picked@[b] by {
            if b < at {
                assert(before[a] < before[b]);
            } else if b == at {
                if a < at - 1 {
                    assert(before[a] < before[at - 1]);
                }
            } else if a < at {
                if a < at - 1 {
                    assert(before[a] < before[at - 1]);
                }
                if at < b - 1 {
                    assert(before[at as int] < before[b - 1]);
                }
            } else if a == at {
                if at < b - 1 {
                    assert(before[at as int] < before[b - 1]);
                }
            } else {
                assert(before[a - 1] < before[b - 1]);
            }
        }
    }
    position
}

/// How many draws a lottery makes: one per winner asked for, but no more
/// than there are randomness values, nor than there are entries.
pub open spec fn lottery_draws(pool: int, supplied: int, quantity: u32) -> nat {
    min_of(min_of(quantity as int, supplied), pool) as nat
}

/// The outcome of a lottery: draw `k` takes the entry at the `k`-th picked
/// position and records the randomness that picked it.
pub open spec fn lottery_results(
    entries: Seq<LotteryEntryView>,
    randomness: Seq<u128>,
    quantity: u32,
) -> Seq<AllocationResultView> {
    let draws = lottery_draws(entries.len() as int, randomness.len() as int, quantity);
    let picks = lottery_picks(entries.len() as int, randomness, draws);
    Seq::new(
        draws,
        |k: int|
            AllocationResultView {
                winner: entries[picks[k]].participant,
                allocation_index: k as u32,
                randomness_value: randomness[k],
                weight_applied: 1,
            },
    )
}

/// No two entries belong to the same participant.
pub open spec fn distinct_participants(entries: Seq<LotteryEntryView>) -> bool {
    forall|a: int, b: int|
        0 <= a < entries.len() && 0 <= b < entries.len() && a != b ==> (
        #[trigger] entries[a]).participant != (#[trigger] entries[b]).participant
}

/// No two results name the same winner.
pub open spec fn distinct_winners(results: Seq<AllocationResultView>) -> bool {
    forall|a: int, b: int|
        0 <= a < results.len() && 0 <= b < results.len() && a != b ==> (
        #[trigger] results[a]).winner != (#[trigger] results[b]).winner
}

/// No double selection: whatever the entries, the randomness and the
/// quantity, a lottery picks each position of the pool at most once, so
/// that among entries of different participants all winners differ. Given
/// at most as many randomness values as there are entries, and at least as
/// many winners asked for, it returns one result for each randomness value.
pub proof fn lemma_lottery_no_double_selection(
    entries: Seq<LotteryEntryView>,
    randomness: Seq<u128>,
    quantity: u32,
)
    ensures
        distinct_within(
            lottery_picks(
                entries.len() as int,
                randomness,
                lottery_draws(entries.len() as int, randomness.len() as int, quantity),
            ),
            entries.len() as int,
        ),
        distinct_participants(entries) ==> distinct_winners(
            lottery_results(entries, randomness, quantity),
        ),
        randomness.len() <= entries.len() && randomness.len() <= quantity ==> lottery_results(
            entries,
            randomness,
            quantity,
        ).len() == randomness.len(),
{
    let draws = lottery_draws(entries.len() as int, randomness.len() as int, quantity);
    let picks = lottery_picks(entries.len() as int, randomness, draws);
    lemma_lottery_picks_distinct(entries.len() as int, randomness, draws);
    let results = lottery_results(entries, randomness, quantity);
    if distinct_participants(entries) {
        assert forall|a: int, b: int|
            0 <= a < results.len() && 0 <= b < results.len() && a != b implies (
        #[trigger] results[a]).winner != (#[trigger] results[b]).winner by {
            assert(picks[a] != picks[b]);
            assert(entries[picks[a]].participant != entries[picks[b]].participant);
        }
    }
}

impl AllocationEngine {
    /// Lottery: uniform draws without replacement. Draw `k` reduces its
    /// randomness value modulo the number of entries not yet picked, and
    /// takes the entry of that rank among them, in ascending order of
    /// position. There is one draw per winner asked for, capped by the
    /// randomness supplied and by the size of the pool.
    pub fn allocate_lottery(
        entries: &Vec<LotteryEntry>,
        randomness_values: &Vec<u128>,
        quantity: u32,
    ) -> (results: Vec<AllocationResult>)
        ensures
            results.deep_view() == lottery_results(
                entries.deep_view(),
                randomness_values@,
                quantity,
            ),
            results@.len() == lottery_draws(
                entries@.len() as int,
                randomness_values@.len() as int,
                quantity,
            ),
            results@.len() <= quantity,
            forall|k: int|
                0 <= k < results@.len() ==> (#[trigger] results@[k]).allocation_index == k,
            distinct_participants(entries.deep_view()) ==> distinct_winners(results.deep_view()),
    {
        proof {
            lemma_lottery_no_double_selection(entries.deep_view(), randomness_values@, quantity);
        }
        let pool: usize = entries.len();
        let mut results: Vec<AllocationResult> = Vec::new();
        // Positions picked so far, kept in ascending order.
        let mut picked: Vec<usize> = Vec::new();
        let mut draw: u32 = 0;
        proof {
            lemma_free_below_empty(pool as int);
            assert(lottery_picks(pool as int, randomness_values@, 0).to_set() =~= Set::<
                int,
            >::empty());
        }
        while draw < quantity && (draw as usize) < randomness_values.len() && (draw as usize)
            < pool
            invariant
                pool == entries@.len(),
                draw <= quantity,
                draw <= randomness_values@.len(),
                draw <= pool,
                results@.len() == draw,
                picked@.len() == draw,
                ascending(picked@),
                lottery_picks(pool as int, randomness_values@, draw as nat).len() == draw,
                members(picked@, draw as int) == lottery_picks(
                    pool as int,
                    randomness_values@,
                    draw as nat,
                ).to_set(),
                free_below(members(picked@, draw as int), pool as int) == pool - draw,
                forall|k: int|
                    0 <= k < draw ==> 0 <= #[trigger] lottery_picks(
                        pool as int,
                        randomness_values@,
                        draw as nat,
                    )[k] < pool,
                forall|k: int|
                    0 <= k < draw ==> (#[trigger] results@[k])@ == (AllocationResultView {
                        winner: entries@[lottery_picks(
                            pool as int,
                            randomness_values@,
                            draw as nat,
                        )[k]].participant@,
                        allocation_index: k as u32,
                        randomness_value: randomness_values@[k],
                        weight_applied: 1,
                    }),
            decreases quantity - draw,
        {
            let randomness: u128 = randomness_values[draw as usize];
            let remaining: usize = pool - draw as usize;
            let rank: usize = (randomness % (remaining as u128)) as usize;
            let ghost prior = lottery_picks(pool as int, randomness_values@, draw as nat);
            let ghost taken = members(picked@, draw as int);
            assert(rank == selection_index(randomness, pool - draw));

            let position: usize = take_free_position(&mut picked, rank);
            proof {
                lemma_nth_free_found(taken, 0, rank as nat, pool as int);
                let expected = nth_free(taken, 0, rank as nat, pool as int);
                lemma_free_rank_unique(taken, position as int, expected);
                prior.lemma_push_to_set_commute(position as int);
                lemma_free_below_insert(taken, position as int, pool as int);
                assert(lottery_picks(pool as int, randomness_values@, (draw + 1) as nat)
                    == prior.push(position as int));
            }
            let entry = &entries[position];
            results.push(
                AllocationResult {
                    winner: entry.participant.duplicate(),
                    allocation_index: draw,
                    randomness_value: randomness,
                    weight_applied: 1,
                },
            );
            draw += 1;
        }
        assert(results.deep_view() =~= lottery_results(
            entries.deep_view(),
            randomness_values@,
            quantity,
        ));
        results
    }
}

} // verus!
