//! The whitelist strategies: priority addresses served in stored order,
//! alone or ahead of a lottery, and the booking of what they received.

use vstd::prelude::*;
use crate::allocation::{
    min_of, AllocationEngine, AllocationResult, AllocationResultView, LotteryEntry,
    LotteryEntryView, WhitelistEntry, WhitelistEntryView,
};
use crate::lottery::{lottery_draws, lottery_results};

verus! {

/// The positions of the eligible entries among the first `upto` of the
/// whitelist, in stored order.
pub open spec fn eligible_positions(whitelist: Seq<WhitelistEntryView>, upto: nat) -> Seq<int>
    decreases upto,
{
    if upto == 0 {
        Seq::empty()
    } else {
        let before = eligible_positions(whitelist, (upto - 1) as nat);
        if whitelist[upto - 1].eligible() {
            before.push(upto - 1)
        } else {
            before
        }
    }
}

/// The whitelist positions that win: the first `quantity` eligible ones.
pub open spec fn whitelist_picks(whitelist: Seq<WhitelistEntryView>, quantity: u32) -> Seq<int> {
    let all = eligible_positions(whitelist, whitelist.len());
    all.take(min_of(quantity as int, all.len() as int))
}

/// The outcome of a whitelist allocation: one result per winning position,
/// in stored order, carrying the entry's weight and no randomness.
pub open spec fn whitelist_results(
    whitelist: Seq<WhitelistEntryView>,
    quantity: u32,
) -> Seq<AllocationResultView> {
    let picks = whitelist_picks(whitelist, quantity);
    Seq::new(
        picks.len(),
        |k: int|
            AllocationResultView {
                winner: whitelist[picks[k]].address,
                allocation_index: k as u32,
                randomness_value: 0,
                weight_applied: whitelist[picks[k]].weight,
            },
    )
}

/// The eligible positions are positions of eligible entries, in ascending
/// order, and there are no more of them than entries looked at.
proof fn lemma_eligible_positions_sound(whitelist: Seq<WhitelistEntryView>, upto: nat)
    requires
        upto <= whitelist.len(),
    ensures
        eligible_positions(whitelist, upto).len() <= upto,
        forall|k: int|
            0 <= k < eligible_positions(whitelist, upto).len() ==> {
                &&& 0 <= #[trigger] eligible_positions(whitelist, upto)[k] < upto
                &&& whitelist[eligible_positions(whitelist, upto)[k]].eligible()
            },
        forall|a: int, b: int|
            0 <= a < b < eligible_positions(whitelist, upto).len() ==> eligible_positions(
                whitelist,
                upto,
            )[a] < eligible_positions(whitelist, upto)[b],
    decreases upto,
{
    if upto > 0 {
        lemma_eligible_positions_sound(whitelist, (upto - 1) as nat);
    }
}

/// Looking at more of the whitelist only adds eligible positions at the end.
proof fn lemma_eligible_positions_extend(
    whitelist: Seq<WhitelistEntryView>,
    fewer: nat,
    more: nat,
)
    requires
        fewer <= more,
    ensures
        eligible_positions(whitelist, fewer).len() <= eligible_positions(whitelist, more).len(),
        eligible_positions(whitelist, more).take(
            eligible_positions(whitelist, fewer).len() as int,
        ) == eligible_positions(whitelist, fewer),
    decreases more,
{
    let short = eligible_positions(whitelist, fewer);
    let long = eligible_positions(whitelist, more);
    if fewer == more {
        assert(long.take(short.len() as int) =~= short);
    } else {
        lemma_eligible_positions_extend(whitelist, fewer, (more - 1) as nat);
        let mid = eligible_positions(whitelist, (more - 1) as nat);
        assert(long.take(short.len() as int) =~= mid.take(short.len() as int));
    }
}

/// The whitelist cap: an entry that has used up its limit is never picked,
/// and every pick is an entry that may still receive an allocation.
pub proof fn lemma_whitelist_respects_limits(whitelist: Seq<WhitelistEntryView>, quantity: u32)
    ensures
        whitelist_picks(whitelist, quantity).len() <= quantity,
        forall|k: int|
            0 <= k < whitelist_picks(whitelist, quantity).len() ==> {
                &&& 0 <= #[trigger] whitelist_picks(whitelist, quantity)[k] < whitelist.len()
                &&& whitelist[whitelist_picks(whitelist, quantity)[k]].eligible()
            },
        forall|position: int|
            0 <= position < whitelist.len() && !(#[trigger] whitelist[position]).eligible()
                ==> !whitelist_picks(whitelist, quantity).contains(position),
{
    lemma_eligible_positions_sound(whitelist, whitelist.len());
    let picks = whitelist_picks(whitelist, quantity);
    assert forall|position: int|
        0 <= position < whitelist.len() && !(#[trigger] whitelist[position]).eligible()
            implies !picks.contains(position) by {
        if picks.contains(position) {
            let k = choose|k: int| 0 <= k < picks.len() && picks[k] == position;
            assert(whitelist[picks[k]].eligible());
        }
    }
}

/// A whitelist entry after one more allocation: its count moves on by
/// one, stopping at `u32::MAX`.
pub open spec fn granted(entry: WhitelistEntryView) -> WhitelistEntryView {
    WhitelistEntryView {
        allocated: if entry.allocated < u32::MAX {
            (entry.allocated + 1) as u32
        } else {
            u32::MAX
        },
        ..entry
    }
}

/// The whitelist after an allocation of `quantity`: the entries that won
/// have one allocation more, the others are as they were.
pub open spec fn whitelist_after(
    whitelist: Seq<WhitelistEntryView>,
    quantity: u32,
) -> Seq<WhitelistEntryView> {
    let picks = whitelist_picks(whitelist, quantity);
    Seq::new(
        whitelist.len(),
        |position: int|
            if picks.contains(position) {
                granted(whitelist[position])
            } else {
                whitelist[position]
            },
    )
}

/// A position is among the eligible positions of the first `upto` entries
/// exactly when it is one of them and its entry is eligible.
proof fn lemma_eligible_positions_complete(
    whitelist: Seq<WhitelistEntryView>,
    upto: nat,
    position: int,
)
    requires
        upto <= whitelist.len(),
    ensures
        eligible_positions(whitelist, upto).contains(position) <==> 0 <= position < upto
            && whitelist[position].eligible(),
    decreases upto,
{
    if upto > 0 {
        let before = eligible_positions(whitelist, (upto - 1) as nat);
        lemma_eligible_positions_complete(whitelist, (upto - 1) as nat, position);
        if whitelist[upto - 1].eligible() {
            let all = before.push(upto - 1);
            if before.contains(position) {
                let k = choose|k: int| 0 <= k < before.len() && before[k] == position;
                assert(all[k] == position);
            }
            if position == upto - 1 {
                assert(all[before.len() as int] == position);
            }
        }
    }
}

/// A limited entry stays within its limit when it receives an allocation
/// that it was eligible for.
proof fn lemma_granted_within_limit(entry: WhitelistEntryView)
    requires
        entry.within_limit(),
        entry.eligible(),
    ensures
        granted(entry).within_limit(),
        granted(entry).allocated >= entry.allocated,
{
}

// ---------------------------------------------------------------------------
// Hybrid
// ---------------------------------------------------------------------------

/// A result moved `offset` slots further on.
pub open spec fn shifted(result: AllocationResultView, offset: u32) -> AllocationResultView {
    AllocationResultView {
        winner: result.winner,
        allocation_index: (offset + result.allocation_index) as u32,
        randomness_value: result.randomness_value,
        weight_applied: result.weight_applied,
    }
}

/// How many winners the hybrid strategy has: those of the whitelist, and
/// as many lottery draws as what remains of `quantity` allows.
pub open spec fn hybrid_winners(
    whitelist: Seq<WhitelistEntryView>,
    pool: int,
    supplied: int,
    quantity: u32,
) -> nat {
    let priority = whitelist_picks(whitelist, quantity).len();
    priority + lottery_draws(pool, supplied, (quantity - priority) as u32)
}

/// The outcome of the hybrid strategy: the whitelist results for
/// `quantity`, followed by the results of a lottery for what remains of
/// `quantity`, each moved on by the number of whitelist winners.
pub open spec fn hybrid_results(
    whitelist: Seq<WhitelistEntryView>,
    entries: Seq<LotteryEntryView>,
    randomness: Seq<u128>,
    quantity: u32,
) -> Seq<AllocationResultView> {
    let first = whitelist_results(whitelist, quantity);
    let remaining = (quantity - first.len()) as u32;
    let second = lottery_results(entries, randomness, remaining);
    first + second.map_values(|r: AllocationResultView| shifted(r, first.len() as u32))
}

impl AllocationEngine {
    /// Whitelist: the stored order decides. An address wins if it has no
    /// limit or has not reached it; the walk stops at `quantity` winners or
    /// at the end of the list. Each result carries the entry's weight.
    pub fn allocate_whitelist(
        whitelist: &Vec<WhitelistEntry>,
        quantity: u32,
    ) -> (results: Vec<AllocationResult>)
        ensures
            results.deep_view() == whitelist_results(whitelist.deep_view(), quantity),
            results@.len() == whitelist_picks(whitelist.deep_view(), quantity).len(),
            results@.len() <= quantity,
            forall|k: int|
                0 <= k < results@.len() ==> (#[trigger] results@[k]).allocation_index == k,
    {
        let mut results: Vec<AllocationResult> = Vec::new();
        let mut count: u32 = 0;
        let mut at: usize = 0;
        let ghost list = whitelist.deep_view();
        while at < whitelist.len() && count < quantity
            invariant
                list == whitelist.deep_view(),
                at <= whitelist@.len(),
                count <= quantity,
                results@.len() == count,
                eligible_positions(list, at as nat).len() == count,
                forall|k: int|
                    0 <= k < count ==> 0 <= #[trigger] eligible_positions(list, at as nat)[k]
                        < at,
                forall|k: int|
                    0 <= k < count ==> (#[trigger] results@[k])@ == (AllocationResultView {
                        winner: list[eligible_positions(list, at as nat)[k]].address,
                        allocation_index: k as u32,
                        randomness_value: 0,
                        weight_applied: list[eligible_positions(list, at as nat)[k]].weight,
                    }),
            decreases whitelist@.len() - at,
        {
            let entry = &whitelist[at];
            assert(list[at as int] == entry@);
            if entry.allocated < entry.allocation_limit || entry.allocation_limit == 0 {
                results.push(
                    AllocationResult {
                        winner: entry.address.duplicate(),
                        allocation_index: count,
                        randomness_value: 0,
                        weight_applied: entry.weight,
                    },
                );
                count += 1;
            }
            at += 1;
        }
        proof {
            let seen = eligible_positions(list, at as nat);
            let all = eligible_positions(list, list.len());
            lemma_eligible_positions_extend(list, at as nat, list.len());
            let picks = whitelist_picks(list, quantity);
            assert(picks =~= seen);
            assert(results.deep_view() =~= whitelist_results(list, quantity));
        }
        results
    }

    /// Books the allocations of a whitelist round: every entry that
    /// [`AllocationEngine::allocate_whitelist`] picks for `quantity`
    /// receives one allocation more. No other entry changes, and no
    /// limited entry goes beyond its limit.
    pub fn record_whitelist_allocations(whitelist: &mut Vec<WhitelistEntry>, quantity: u32)
        ensures
            final(whitelist).deep_view() == whitelist_after(old(whitelist).deep_view(), quantity),
            forall|k: int|
                0 <= k < old(whitelist)@.len() && (#[trigger] old(whitelist)@[k])@.within_limit()
                    ==> final(whitelist)@[k]@.within_limit(),
    {
        let ghost list = old(whitelist).deep_view();
        let mut count: u32 = 0;
        let mut at: usize = 0;
        while at < whitelist.len() && count < quantity
            invariant
                whitelist@.len() == list.len(),
                list == old(whitelist).deep_view(),
                at <= whitelist@.len(),
                count <= quantity,
                eligible_positions(list, at as nat).len() == count,
                forall|k: int|
                    0 <= k < at ==> (#[trigger] whitelist@[k])@ == if list[k].eligible() {
                        granted(list[k])
                    } else {
                        list[k]
                    },
                forall|k: int|
                    at <= k < whitelist@.len() ==> (#[trigger] whitelist@[k])@ == list[k],
            decreases whitelist@.len() - at,
        {
            let entry = &whitelist[at];
            if entry.allocated < entry.allocation_limit || entry.allocation_limit == 0 {
                let booked = WhitelistEntry {
                    address: entry.address.duplicate(),
                    weight: entry.weight,
                    allocation_limit: entry.allocation_limit,
                    allocated: entry.allocated.saturating_add(1),
                };
                whitelist.set(at, booked);
                count += 1;
            }
            at += 1;
        }
        proof {
            let seen = eligible_positions(list, at as nat);
            lemma_eligible_positions_extend(list, at as nat, list.len());
            let picks = whitelist_picks(list, quantity);
            assert(picks =~= seen);
            assert forall|k: int| 0 <= k < list.len() implies whitelist.deep_view()[k]
                == whitelist_after(list, quantity)[k] by {
                lemma_eligible_positions_complete(list, at as nat, k);
            }
            assert(whitelist.deep_view() =~= whitelist_after(list, quantity));
            assert forall|k: int|
                0 <= k < old(whitelist)@.len() && (#[trigger] old(whitelist)@[k])@.within_limit()
                    implies whitelist@[k]@.within_limit() by {
                lemma_eligible_positions_complete(list, at as nat, k);
                assert(list[k] == old(whitelist)@[k]@);
                if list[k].eligible() {
                    lemma_granted_within_limit(list[k]);
                }
            }
        }
    }

    /// Hybrid: the whitelist is served first, for up to `quantity` winners;
    /// what is left of `quantity` is drawn by lottery from the lottery
    /// entries. Whitelist winners come first; the lottery winners follow,
    /// their slots numbered on from the last whitelist slot.
    pub fn allocate_hybrid_whitelist_lottery(
        whitelist: &Vec<WhitelistEntry>,
        lottery_entries: &Vec<LotteryEntry>,
        randomness_values: &Vec<u128>,
        quantity: u32,
    ) -> (results: Vec<AllocationResult>)
        ensures
            results.deep_view() == hybrid_results(
                whitelist.deep_view(),
                lottery_entries.deep_view(),
                randomness_values@,
                quantity,
            ),
            results@.len() == hybrid_winners(
                whitelist.deep_view(),
                lottery_entries@.len() as int,
                randomness_values@.len() as int,
                quantity,
            ),
            results@.len() <= quantity,
            forall|k: int|
                0 <= k < results@.len() ==> (#[trigger] results@[k]).allocation_index == k,
    {
        let mut results = Self::allocate_whitelist(whitelist, quantity);
        let priority: u32 = results.len() as u32;
        let remaining: u32 = quantity - priority;
        let drawn = Self::allocate_lottery(lottery_entries, randomness_values, remaining);
        let ghost first = results.deep_view();
        let ghost second = drawn.deep_view();
        let mut at: usize = 0;
        while at < drawn.len()
            invariant
                at <= drawn@.len(),
                priority + drawn@.len() <= quantity,
                first.len() == priority,
                second == drawn.deep_view(),
                results@.len() == priority + at,
                forall|k: int|
                    0 <= k < drawn@.len() ==> (#[trigger] drawn@[k]).allocation_index == k,
                forall|k: int| 0 <= k < priority ==> (#[trigger] first[k]).allocation_index == k,
                forall|k: int| 0 <= k < priority ==> (#[trigger] results@[k])@ == first[k],
                forall|k: int|
                    0 <= k < at ==> (#[trigger] results@[priority + k])@ == shifted(
                        second[k],
                        priority,
                    ),
            decreases drawn@.len() - at,
        {
            let result = &drawn[at];
            assert(second[at as int] == result@);
            results.push(
                AllocationResult {
                    winner: result.winner.duplicate(),
                    allocation_index: priority + result.allocation_index,
                    randomness_value: result.randomness_value,
                    weight_applied: result.weight_applied,
                },
            );
            at += 1;
        }
        proof {
            let expected = hybrid_results(
                whitelist.deep_view(),
                lottery_entries.deep_view(),
                randomness_values@,
                quantity,
            );
            assert(results.deep_view().len() == expected.len());
            assert forall|k: int| 0 <= k < expected.len() implies results.deep_view()[k]
                == expected[k] by {
                if k >= priority {
                    assert(results@[priority + (k - priority)]@ == shifted(
                        second[k - priority],
                        priority,
                    ));
                }
            }
            assert(results.deep_view() =~= expected);
            assert forall|k: int| 0 <= k < results@.len() implies (
            #[trigger] results@[k]).allocation_index == k by {
                if k >= priority {
                    assert(results@[priority + (k - priority)]@ == shifted(
                        second[k - priority],
                        priority,
                    ));
                    assert(second[k - priority] == drawn@[k - priority]@);
                } else {
                    assert(results@[k]@ == first[k]);
                }
            }
        }
        results
    }
}

} // verus!
