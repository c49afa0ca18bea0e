//! The allocation engine: entries, results and the strategies that turn
//! one into the other. This file holds the data model, the first-come
//! strategy, the rate limit and the fairness score; the lottery, the
//! whitelist and the time-weighted strategies have files of their own.

use vstd::prelude::*;
use crate::digest::copy_bytes;
use crate::identity::ParticipantId;
use crate::ledger::LedgerContext;

verus! {

/// How winners are chosen.
#[derive(Clone, Copy, Debug, PartialEq, Eq, Structural)]
pub enum AllocationStrategy {
    /// First come, first served.
    FCFS,
    /// Uniform draws without replacement.
    Lottery,
    /// Whitelisted addresses, in stored order.
    Whitelist,
    /// Whitelist first, the remainder by lottery.
    HybridWhitelistLottery,
    /// Weighted draws that favour early entries.
    TimeWeighted,
}

/// One registration in a round's pool.
#[derive(Clone, Debug, PartialEq, Eq)]
pub struct LotteryEntry {
    /// Who registered.
    pub participant: ParticipantId,
    /// When the entry was made.
    pub entry_time: u64,
    /// Nonce of this entry.
    pub nonce: u32,
    /// Commitment hash, where commit/reveal is in use.
    pub commitment_hash: Option<Vec<u8>>,
}

/// The bytes of a commitment hash, where there is one.
pub open spec fn hash_view(hash: Option<Vec<u8>>) -> Option<Seq<u8>> {
    match hash {
        Some(bytes) => Some(bytes@),
        None => None,
    }
}

/// The mathematical content of a [`LotteryEntry`].
pub struct LotteryEntryView {
    pub participant: Seq<u8>,
    pub entry_time: u64,
    pub nonce: u32,
    pub commitment_hash: Option<Seq<u8>>,
}

impl View for LotteryEntry {
    type V = LotteryEntryView;

    open spec fn view(&self) -> LotteryEntryView {
        LotteryEntryView {
            participant: self.participant@,
            entry_time: self.entry_time,
            nonce: self.nonce,
            commitment_hash: hash_view(self.commitment_hash),
        }
    }
}

impl DeepView for LotteryEntry {
    type V = LotteryEntryView;

    open spec fn deep_view(&self) -> LotteryEntryView {
        self@
    }
}

impl LotteryEntry {
    /// A copy of this entry.
    pub fn duplicate(&self) -> (copy: LotteryEntry)
        ensures
            copy@ == self@,
    {
        LotteryEntry {
            participant: self.participant.duplicate(),
            entry_time: self.entry_time,
            nonce: self.nonce,
            commitment_hash: match &self.commitment_hash {
                Some(hash) => Some(copy_bytes(hash)),
                None => None,
            },
        }
    }
}

/// An address with priority access, and how much of its allowance is used.
#[derive(Clone, Debug, PartialEq, Eq)]
pub struct WhitelistEntry {
    /// The whitelisted address.
    pub address: ParticipantId,
    /// Weight reported with its allocations.
    pub weight: u32,
    /// Most allocations this address may receive; 0 means no limit.
    pub allocation_limit: u32,
    /// Allocations received so far.
    pub allocated: u32,
}

/// The mathematical content of a [`WhitelistEntry`].
pub struct WhitelistEntryView {
    pub address: Seq<u8>,
    pub weight: u32,
    pub allocation_limit: u32,
    pub allocated: u32,
}

impl WhitelistEntryView {
    /// The entry may still receive an allocation: it has no limit, or has
    /// not reached it.
    pub open spec fn eligible(self) -> bool {
        self.allocation_limit == 0 || self.allocated < self.allocation_limit
    }

    /// A limited entry never holds more than its limit.
    pub open spec fn within_limit(self) -> bool {
        self.allocation_limit == 0 || self.allocated <= self.allocation_limit
    }
}

impl View for WhitelistEntry {
    type V = WhitelistEntryView;

    open spec fn view(&self) -> WhitelistEntryView {
        WhitelistEntryView {
            address: self.address@,
            weight: self.weight,
            allocation_limit: self.allocation_limit,
            allocated: self.allocated,
        }
    }
}

impl DeepView for WhitelistEntry {
    type V = WhitelistEntryView;

    open spec fn deep_view(&self) -> WhitelistEntryView {
        self@
    }
}

/// Limits on how fast one participant may register.
#[derive(Clone, Copy, Debug, PartialEq, Eq, Structural)]
pub struct AntiSnipingConfig {
    /// Least height between an entry and finalization.
    pub minimum_lock_period: u32,
    /// Most entries one address may hold inside the window.
    pub max_entries_per_address: u32,
    /// Length of the rolling window, in seconds.
    pub rate_limit_window: u64,
    /// Heights to wait before randomness is drawn.
    pub randomization_delay_ledgers: u32,
}

/// One winner of a round.
#[derive(Clone, Debug, PartialEq, Eq)]
pub struct AllocationResult {
    /// Who won.
    pub winner: ParticipantId,
    /// Slot of this allocation within the round, counted from 0.
    pub allocation_index: u32,
    /// The randomness that chose the winner; 0 where none was used.
    pub randomness_value: u128,
    /// The weight that applied to the winner.
    pub weight_applied: u32,
}

/// The mathematical content of an [`AllocationResult`].
pub struct AllocationResultView {
    pub winner: Seq<u8>,
    pub allocation_index: u32,
    pub randomness_value: u128,
    pub weight_applied: u32,
}

impl View for AllocationResult {
    type V = AllocationResultView;

    open spec fn view(&self) -> AllocationResultView {
        AllocationResultView {
            winner: self.winner@,
            allocation_index: self.allocation_index,
            randomness_value: self.randomness_value,
            weight_applied: self.weight_applied,
        }
    }
}

impl DeepView for AllocationResult {
    type V = AllocationResultView;

    open spec fn deep_view(&self) -> AllocationResultView {
        self@
    }
}

impl AllocationResult {
    /// A copy of this result.
    pub fn duplicate(&self) -> (copy: AllocationResult)
        ensures
            copy@ == self@,
    {
        AllocationResult {
            winner: self.winner.duplicate(),
            allocation_index: self.allocation_index,
            randomness_value: self.randomness_value,
            weight_applied: self.weight_applied,
        }
    }
}

/// The smaller of two numbers.
pub open spec fn min_of(a: int, b: int) -> int {
    if a <= b {
        a
    } else {
        b
    }
}

// ---------------------------------------------------------------------------
// First come, first served
// ---------------------------------------------------------------------------

/// The outcome of first-come-first-served: the first `quantity` entries (or
/// all of them, if there are fewer), in arrival order.
pub open spec fn fcfs_results(
    entries: Seq<LotteryEntryView>,
    quantity: u32,
) -> Seq<AllocationResultView> {
    Seq::new(
        min_of(quantity as int, entries.len() as int) as nat,
        |i: int|
            AllocationResultView {
                winner: entries[i].participant,
                allocation_index: i as u32,
                randomness_value: 0,
                weight_applied: 1,
            },
    )
}

// ---------------------------------------------------------------------------
// Rate limiting
// ---------------------------------------------------------------------------

/// Start of the rolling window that ends at `now`.
pub open spec fn window_start(now: u64, window: u64) -> int {
    if now >= window {
        now - window
    } else {
        0
    }
}

/// How many of `entries` belong to `who` and were made at or after `start`.
pub open spec fn entries_in_window(
    entries: Seq<LotteryEntryView>,
    who: Seq<u8>,
    start: int,
) -> nat
    decreases entries.len(),
{
    if entries.len() == 0 {
        0
    } else {
        let last = entries.last();
        let earlier = entries_in_window(entries.drop_last(), who, start);
        if last.participant == who && last.entry_time >= start {
            earlier + 1
        } else {
            earlier
        }
    }
}

// ---------------------------------------------------------------------------
// Fairness score
// ---------------------------------------------------------------------------

/// The fairness score of a round with `winners` results over a pool of
/// `total_entries`: 100 for an empty round; 100 while the selection rate (in
/// percent, rounded down) lies in 1..=100; falling by one point for each
/// percentage point above 100, down to 0; and 50 when winners exist but the
/// rate rounds down to nothing.
pub open spec fn fairness_score(winners: nat, total_entries: nat) -> nat {
    if winners == 0 || total_entries == 0 {
        100
    } else {
        let rate = (winners * 100) / total_entries;
        if 0 < rate <= 100 {
            100
        } else if rate > 100 {
            (100 - min_of(rate - 100, 100)) as nat
        } else {
            50
        }
    }
}

/// The allocation engine.
pub struct AllocationEngine;

impl AllocationEngine {
    /// First come, first served: the first `quantity` entries win, in
    /// arrival order, with no randomness and weight 1.
    pub fn allocate_fcfs(
        entries: &Vec<LotteryEntry>,
        quantity: u32,
    ) -> (results: Vec<AllocationResult>)
        ensures
            results.deep_view() == fcfs_results(entries.deep_view(), quantity),
            results@.len() == min_of(quantity as int, entries@.len() as int),
            results@.len() <= quantity,
            forall|i: int|
                0 <= i < results@.len() ==> {
                    &&& (#[trigger] results@[i]).winner@ == entries@[i].participant@
                    &&& results@[i].allocation_index == i
                    &&& results@[i].randomness_value == 0
                },
    {
        let mut results: Vec<AllocationResult> = Vec::new();
        let mut i: u32 = 0;
        while i < quantity && (i as usize) < entries.len()
            invariant
                i <= quantity,
                i <= entries@.len(),
                results@.len() == i,
                forall|k: int|
                    0 <= k < i ==> (#[trigger] results@[k])@ == (AllocationResultView {
                        winner: entries@[k].participant@,
                        allocation_index: k as u32,
                        randomness_value: 0,
                        weight_applied: 1,
                    }),
            decreases quantity - i,
        {
            let entry = &entries[i as usize];
            results.push(
                AllocationResult {
                    winner: entry.participant.duplicate(),
                    allocation_index: i,
                    randomness_value: 0,
                    weight_applied: 1,
                },
            );
            i += 1;
        }
        assert(results.deep_view() =~= fcfs_results(entries.deep_view(), quantity));
        results
    }

    /// Whether `participant` may register once more: true exactly when
    /// fewer than `config.max_entries_per_address` of the recent entries are
    /// theirs and fall inside the window that ends at the ledger's clock.
    pub fn check_anti_sniping(
        ledger: &LedgerContext,
        participant: &ParticipantId,
        config: &AntiSnipingConfig,
        recent_entries: &Vec<LotteryEntry>,
    ) -> (admitted: bool)
        ensures
            admitted == (entries_in_window(
                recent_entries.deep_view(),
                participant@,
                window_start(ledger.timestamp, config.rate_limit_window),
            ) < config.max_entries_per_address),
    {
        let start: u64 = ledger.timestamp.saturating_sub(config.rate_limit_window);
        let mut count: usize = 0;
        let mut i: usize = 0;
        while i < recent_entries.len()
            invariant
                i <= recent_entries@.len(),
                count <= i,
                start == window_start(ledger.timestamp, config.rate_limit_window),
                count == entries_in_window(
                    recent_entries.deep_view().take(i as int),
                    participant@,
                    start as int,
                ),
            decreases recent_entries.len() - i,
        {
            let entry = &recent_entries[i];
            let hit = entry.participant.same_as(participant) && entry.entry_time >= start;
            proof {
                let all = recent_entries.deep_view();
                assert(all.take(i + 1).drop_last() =~= all.take(i as int));
                assert(all.take(i + 1).last() == entry@);
            }
            if hit {
                count += 1;
            }
            i += 1;
        }
        proof {
            let all = recent_entries.deep_view();
            assert(all.take(i as int) =~= all);
        }
        count < config.max_entries_per_address as usize
    }

    /// The fairness score of a finished round, between 0 and 100.
    pub fn compute_fairness_score(
        results: &Vec<AllocationResult>,
        total_entries: u32,
    ) -> (score: u32)
        ensures
            score == fairness_score(results@.len(), total_entries as nat),
            score <= 100,
            (results@.len() == 0 || total_entries == 0) ==> score == 100,
    {
        if results.len() == 0 || total_entries == 0 {
            return 100;
        }
        let rate: u128 = (results.len() as u128 * 100) / (total_entries as u128);
        if rate > 0 && rate <= 100 {
            100
        } else if rate > 100 {
            let excess: u128 = rate - 100;
            if excess >= 100 {
                0
            } else {
                100 - excess as u32
            }
        } else {
            50
        }
    }
}

} // verus!
