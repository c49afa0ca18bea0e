//! One allocation round, from registration to its published results.
//!
//! A round is `Open` while entries are accepted, `Finalizing` once its
//! randomness has been requested, and `Finalized` when its results stand.
//! Every operation says which phase it needs and turns a call in another
//! phase down with an error, leaving the round as it was.

use vstd::prelude::*;
use crate::allocation::{
    entries_in_window, fairness_score, fcfs_results, hash_view, min_of, window_start,
    AllocationEngine, AllocationResult, AllocationResultView, AllocationStrategy,
    AntiSnipingConfig, LotteryEntry, LotteryEntryView, WhitelistEntry, WhitelistEntryView,
};
use crate::digest::sha256_digest;
use crate::entropy::{multi_source_preimage, EntropyManager};
use crate::identity::ParticipantId;
use crate::ledger::{LedgerContext, LedgerContextView};
use crate::lottery::lottery_results;
use crate::time_weighted::time_weighted_results;
use crate::vrf::{
    batch_outputs, lemma_batch_outputs_len, proof_valid, randomness_batch, RandomnessOutput,
    RandomnessOutputView, VRFEngine, VRFProof,
};
use crate::whitelist::{hybrid_results, whitelist_after, whitelist_results};

verus! {

/// How many entries of a round, counted from its first, the rate limit
/// looks at when a participant registers.
pub const RECENT_ENTRIES_SCANNED: usize = 10;

/// The largest batch whose outputs can be summarised in one digest.
pub const MAX_BATCH_SIZE: u32 = 134217727;

/// Where a round stands.
#[derive(Clone, Copy, Debug, PartialEq, Eq, Structural)]
pub enum RoundPhase {
    /// Entries are accepted.
    Open,
    /// Randomness has been requested; no more entries.
    Finalizing,
    /// Results are published and do not change.
    Finalized,
}

/// Why an operation on a round was turned down.
#[derive(Clone, Copy, Debug, PartialEq, Eq, Structural)]
pub enum LotteryError {
    /// The finalization height lies behind the ledger.
    FinalizationInPast,
    /// The reveal window does not start before it ends.
    InvalidRevealWindow,
    /// The round no longer accepts entries or a request for randomness.
    RoundNotOpen,
    /// The participant has reached the rate limit.
    RateLimitExceeded,
    /// The ledger has not reached the finalization height.
    FinalizationNotReached,
    /// More randomness was asked for than one summary can cover.
    BatchTooLarge,
    /// Allocation was asked for before randomness was generated.
    RandomnessNotGenerated,
    /// The round has its results already.
    AlreadyFinalized,
    /// A whitelisted address holds more allocations than its limit.
    WhitelistOverLimit,
}

/// One allocation round.
#[derive(Clone, Debug, PartialEq, Eq)]
pub struct LotteryRound {
    /// How winners are chosen.
    pub strategy: AllocationStrategy,
    /// How many winners the round may have.
    pub total_allocations: u32,
    /// The height from which randomness may be drawn.
    pub finalization_ledger: u32,
    /// First height of the reveal window.
    pub reveal_start_ledger: u32,
    /// End of the reveal window.
    pub reveal_end_ledger: u32,
    /// The rate limit on registrations.
    pub anti_sniping: AntiSnipingConfig,
    /// Where the round stands.
    pub phase: RoundPhase,
    /// The pool, in order of registration.
    pub entries: Vec<LotteryEntry>,
    /// Addresses with priority, for the whitelist strategies.
    pub whitelist: Vec<WhitelistEntry>,
    /// Digest of the randomness batch, kept for audit; empty until the
    /// batch is generated.
    pub randomness_hash: Vec<u8>,
    /// How many allocations were made.
    pub allocated_count: u32,
    /// The winners, once the round is finalized.
    pub results: Vec<AllocationResult>,
}

/// The mathematical content of a [`LotteryRound`].
pub struct LotteryRoundView {
    pub strategy: AllocationStrategy,
    pub total_allocations: u32,
    pub finalization_ledger: u32,
    pub reveal_start_ledger: u32,
    pub reveal_end_ledger: u32,
    pub anti_sniping: AntiSnipingConfig,
    pub phase: RoundPhase,
    pub entries: Seq<LotteryEntryView>,
    pub whitelist: Seq<WhitelistEntryView>,
    pub randomness_hash: Seq<u8>,
    pub allocated_count: u32,
    pub results: Seq<AllocationResultView>,
}

impl View for LotteryRound {
    type V = LotteryRoundView;

    open spec fn view(&self) -> LotteryRoundView {
        LotteryRoundView {
            strategy: self.strategy,
            total_allocations: self.total_allocations,
            finalization_ledger: self.finalization_ledger,
            reveal_start_ledger: self.reveal_start_ledger,
            reveal_end_ledger: self.reveal_end_ledger,
            anti_sniping: self.anti_sniping,
            phase: self.phase,
            entries: self.entries.deep_view(),
            whitelist: self.whitelist.deep_view(),
            randomness_hash: self.randomness_hash@,
            allocated_count: self.allocated_count,
            results: self.results.deep_view(),
        }
    }
}

impl LotteryRoundView {
    /// What holds of a round in each phase: it has results only once it is
    /// finalized, then no more than it may allocate, and it holds the
    /// digest of its randomness from the moment the batch is generated.
    /// At all times its reveal window starts before it ends, and no
    /// whitelisted address holds more than its limit.
    pub open spec fn well_formed(self) -> bool {
        &&& self.reveal_start_ledger < self.reveal_end_ledger
        &&& within_limits(self.whitelist)
        &&& self.phase == RoundPhase::Open ==> self.results.len() == 0 && self.allocated_count == 0
            && self.randomness_hash.len() == 0
        &&& self.phase == RoundPhase::Finalizing ==> self.results.len() == 0 && self.allocated_count
            == 0 && self.randomness_hash.len() == 32
        &&& self.phase == RoundPhase::Finalized ==> self.results.len() <= self.total_allocations
            && self.allocated_count == self.results.len() && self.randomness_hash.len() == 32
    }
}

/// No address of the whitelist holds more than its limit.
pub open spec fn within_limits(whitelist: Seq<WhitelistEntryView>) -> bool {
    forall|k: int| 0 <= k < whitelist.len() ==> (#[trigger] whitelist[k]).within_limit()
}

/// The rate limit that every new round starts with.
pub open spec fn default_anti_sniping() -> AntiSnipingConfig {
    AntiSnipingConfig {
        minimum_lock_period: 10,
        max_entries_per_address: 5,
        rate_limit_window: 3600,
        randomization_delay_ledgers: 3,
    }
}

/// A round as it is set up: open, with no entries, no whitelist and no
/// results.
pub open spec fn new_round(
    strategy: AllocationStrategy,
    total_allocations: u32,
    finalization_ledger: u32,
    reveal_start_ledger: u32,
    reveal_end_ledger: u32,
) -> LotteryRoundView {
    LotteryRoundView {
        strategy,
        total_allocations,
        finalization_ledger,
        reveal_start_ledger,
        reveal_end_ledger,
        anti_sniping: default_anti_sniping(),
        phase: RoundPhase::Open,
        entries: Seq::empty(),
        whitelist: Seq::empty(),
        randomness_hash: Seq::empty(),
        allocated_count: 0,
        results: Seq::empty(),
    }
}

/// Whether the rate limit of `round` lets `participant` register at
/// `ledger`: fewer than the allowed number of the entries it looks at are
/// theirs and inside the window.
pub open spec fn admits(
    round: LotteryRoundView,
    ledger: LedgerContextView,
    participant: Seq<u8>,
) -> bool {
    entries_in_window(
        round.entries.take(min_of(round.entries.len() as int, RECENT_ENTRIES_SCANNED as int)),
        participant,
        window_start(ledger.timestamp, round.anti_sniping.rate_limit_window),
    ) < round.anti_sniping.max_entries_per_address
}

/// The entry that a registration at `ledger` adds to the pool.
pub open spec fn new_entry(
    ledger: LedgerContextView,
    participant: Seq<u8>,
    commitment_hash: Option<Seq<u8>>,
) -> LotteryEntryView {
    LotteryEntryView {
        participant,
        entry_time: ledger.timestamp,
        nonce: ledger.sequence,
        commitment_hash,
    }
}

/// The batch of randomness that a round draws at `ledger`: derived from
/// the multi-source entropy of the ledger with counter 0.
pub open spec fn round_randomness(
    ledger: LedgerContextView,
    batch_size: u32,
) -> Seq<RandomnessOutputView> {
    randomness_batch(
        sha256_digest(multi_source_preimage(ledger, 0)),
        batch_size,
        ledger.sequence,
    )
}

/// The winners of a round under its strategy, given the randomness values
/// and the clock.
pub open spec fn strategy_results(
    round: LotteryRoundView,
    randomness: Seq<u128>,
    now: u64,
) -> Seq<AllocationResultView> {
    match round.strategy {
        AllocationStrategy::FCFS => fcfs_results(round.entries, round.total_allocations),
        AllocationStrategy::Lottery => lottery_results(
            round.entries,
            randomness,
            round.total_allocations,
        ),
        AllocationStrategy::Whitelist => whitelist_results(
            round.whitelist,
            round.total_allocations,
        ),
        AllocationStrategy::HybridWhitelistLottery => hybrid_results(
            round.whitelist,
            round.entries,
            randomness,
            round.total_allocations,
        ),
        AllocationStrategy::TimeWeighted => time_weighted_results(
            round.entries,
            randomness,
            round.total_allocations,
            now,
        ),
    }
}

/// The whitelist of a round after its allocation: under the strategies
/// that serve the whitelist, every entry that won has one allocation more;
/// under the others the whitelist is as it was.
pub open spec fn whitelist_after_round(round: LotteryRoundView) -> Seq<WhitelistEntryView> {
    match round.strategy {
        AllocationStrategy::Whitelist | AllocationStrategy::HybridWhitelistLottery => {
            whitelist_after(round.whitelist, round.total_allocations)
        },
        _ => round.whitelist,
    }
}

/// The size of a pool as the fairness score counts it: its number of
/// entries, at most `u32::MAX`.
pub open spec fn counted_entries(entries: Seq<LotteryEntryView>) -> nat {
    min_of(entries.len() as int, u32::MAX as int) as nat
}

/// The lottery operations of the ticket contract, on the state of one
/// round.
pub struct SoulboundTicketContract;

impl SoulboundTicketContract {
    /// Sets up a round. The finalization height must not lie behind the
    /// ledger, and the reveal window must start before it ends.
    pub fn initialize_lottery(
        ledger: &LedgerContext,
        strategy_type: AllocationStrategy,
        total_allocations: u32,
        finalization_ledger: u32,
        reveal_start_ledger: u32,
        reveal_end_ledger: u32,
    ) -> (outcome: Result<LotteryRound, LotteryError>)
        ensures
            outcome == Err::<LotteryRound, LotteryError>(LotteryError::FinalizationInPast)
                <==> finalization_ledger < ledger.sequence,
            outcome == Err::<LotteryRound, LotteryError>(LotteryError::InvalidRevealWindow)
                <==> finalization_ledger >= ledger.sequence && reveal_start_ledger
                >= reveal_end_ledger,
            outcome is Ok <==> finalization_ledger >= ledger.sequence && reveal_start_ledger
                < reveal_end_ledger,
            outcome is Ok ==> outcome->Ok_0@ == new_round(
                strategy_type,
                total_allocations,
                finalization_ledger,
                reveal_start_ledger,
                reveal_end_ledger,
            ) && outcome->Ok_0@.well_formed(),
    {
        if finalization_ledger < ledger.sequence {
            return Err(LotteryError::FinalizationInPast);
        }
        if reveal_start_ledger >= reveal_end_ledger {
            return Err(LotteryError::InvalidRevealWindow);
        }
        let round = LotteryRound {
            strategy: strategy_type,
            total_allocations,
            finalization_ledger,
            reveal_start_ledger,
            reveal_end_ledger,
            anti_sniping: AntiSnipingConfig {
                minimum_lock_period: 10,
                max_entries_per_address: 5,
                rate_limit_window: 3600,
                randomization_delay_ledgers: 3,
            },
            phase: RoundPhase::Open,
            entries: Vec::new(),
            whitelist: Vec::new(),
            randomness_hash: Vec::new(),
            allocated_count: 0,
            results: Vec::new(),
        };
        assert(round@ =~= new_round(
            strategy_type,
            total_allocations,
            finalization_ledger,
            reveal_start_ledger,
            reveal_end_ledger,
        )) by {
            assert(round@.entries =~= Seq::empty());
            assert(round@.whitelist =~= Seq::empty());
            assert(round@.results =~= Seq::empty());
        }
        Ok(round)
    }

    /// Puts addresses on the whitelist of a round, in place of those that
    /// were there. The whitelist is settled while the round is open, and
    /// no address on it may hold more allocations than its limit.
    pub fn set_lottery_whitelist(
        round: &mut LotteryRound,
        whitelist: Vec<WhitelistEntry>,
    ) -> (outcome: Result<(), LotteryError>)
        ensures
            outcome == Err::<(), LotteryError>(LotteryError::RoundNotOpen) <==> old(round).phase
                != RoundPhase::Open,
            outcome == Err::<(), LotteryError>(LotteryError::WhitelistOverLimit) <==> old(
                round,
            ).phase == RoundPhase::Open && !within_limits(whitelist.deep_view()),
            outcome is Ok <==> old(round).phase == RoundPhase::Open && within_limits(
                whitelist.deep_view(),
            ),
            outcome is Ok ==> final(round)@ == (LotteryRoundView {
                whitelist: whitelist.deep_view(),
                ..old(round)@
            }),
            outcome is Err ==> final(round)@ == old(round)@,
            old(round)@.well_formed() ==> final(round)@.well_formed(),
    {
        match round.phase {
            RoundPhase::Open => {},
            _ => {
                return Err(LotteryError::RoundNotOpen);
            },
        }
        let mut at: usize = 0;
        while at < whitelist.len()
            invariant
                *round == *old(round),
                round.phase == RoundPhase::Open,
                at <= whitelist@.len(),
                forall|k: int| 0 <= k < at ==> (#[trigger] whitelist.deep_view()[k]).within_limit(),
            decreases whitelist@.len() - at,
        {
            let entry = &whitelist[at];
            assert(whitelist.deep_view()[at as int] == entry@);
            if entry.allocation_limit != 0 && entry.allocated > entry.allocation_limit {
                assert(!whitelist.deep_view()[at as int].within_limit());
                return Err(LotteryError::WhitelistOverLimit);
            }
            at += 1;
        }
        round.whitelist = whitelist;
        Ok(())
    }

    /// Registers `participant` in an open round, unless the rate limit
    /// says no. The new entry carries the ledger's clock as its time and
    /// the ledger's height as its nonce, and goes to the end of the pool.
    pub fn register_lottery_entry(
        round: &mut LotteryRound,
        ledger: &LedgerContext,
        participant: ParticipantId,
        commitment_hash: Option<Vec<u8>>,
    ) -> (outcome: Result<(), LotteryError>)
        ensures
            outcome == Err::<(), LotteryError>(LotteryError::RoundNotOpen) <==> old(round).phase
                != RoundPhase::Open,
            outcome == Err::<(), LotteryError>(LotteryError::RateLimitExceeded) <==> old(
                round,
            ).phase == RoundPhase::Open && !admits(old(round)@, ledger@, participant@),
            outcome is Ok <==> old(round).phase == RoundPhase::Open && admits(
                old(round)@,
                ledger@,
                participant@,
            ),
            outcome is Ok ==> final(round)@ == (LotteryRoundView {
                entries: old(round)@.entries.push(
                    new_entry(ledger@, participant@, hash_view(commitment_hash)),
                ),
                ..old(round)@
            }),
            outcome is Err ==> final(round)@ == old(round)@,
            old(round)@.well_formed() ==> final(round)@.well_formed(),
    {
        match round.phase {
            RoundPhase::Open => {},
            _ => {
                return Err(LotteryError::RoundNotOpen);
            },
        }
        let mut recent: Vec<LotteryEntry> = Vec::new();
        let mut at: usize = 0;
        while at < round.entries.len() && at < RECENT_ENTRIES_SCANNED
            invariant
                at <= round.entries@.len(),
                at <= RECENT_ENTRIES_SCANNED,
                recent@.len() == at,
                forall|k: int| 0 <= k < at ==> (#[trigger] recent@[k])@ == round.entries@[k]@,
            decreases round.entries@.len() - at,
        {
            recent.push(round.entries[at].duplicate());
            at += 1;
        }
        assert(recent.deep_view() =~= round@.entries.take(
            min_of(round@.entries.len() as int, RECENT_ENTRIES_SCANNED as int),
        ));
        let admitted = AllocationEngine::check_anti_sniping(
            ledger,
            &participant,
            &round.anti_sniping,
            &recent,
        );
        if !admitted {
            return Err(LotteryError::RateLimitExceeded);
        }
        let entry = LotteryEntry {
            participant,
            entry_time: ledger.timestamp,
            nonce: ledger.sequence,
            commitment_hash,
        };
        round.entries.push(entry);
        assert(round@.entries =~= old(round)@.entries.push(
            new_entry(ledger@, participant@, hash_view(commitment_hash)),
        ));
        Ok(())
    }

    /// Draws the round's randomness: a batch of `batch_size` outputs,
    /// derived at the ledger's height from the ledger's multi-source
    /// entropy. The round keeps the digest of the batch and stops taking
    /// entries. The ledger must have reached the round's finalization
    /// height.
    pub fn generate_lottery_randomness(
        round: &mut LotteryRound,
        ledger: &LedgerContext,
        batch_size: u32,
    ) -> (outcome: Result<Vec<RandomnessOutput>, LotteryError>)
        ensures
            outcome == Err::<Vec<RandomnessOutput>, LotteryError>(LotteryError::RoundNotOpen)
                <==> old(round).phase != RoundPhase::Open,
            outcome == Err::<Vec<RandomnessOutput>, LotteryError>(
                LotteryError::FinalizationNotReached,
            ) <==> old(round).phase == RoundPhase::Open && ledger.sequence < old(
                round,
            ).finalization_ledger,
            outcome == Err::<Vec<RandomnessOutput>, LotteryError>(LotteryError::BatchTooLarge)
                <==> old(round).phase == RoundPhase::Open && ledger.sequence >= old(
                round,
            ).finalization_ledger && batch_size > MAX_BATCH_SIZE,
            outcome is Ok <==> old(round).phase == RoundPhase::Open && ledger.sequence >= old(
                round,
            ).finalization_ledger && batch_size <= MAX_BATCH_SIZE,
            outcome is Ok ==> {
                &&& outcome->Ok_0.deep_view() == round_randomness(ledger@, batch_size)
                &&& final(round)@ == (LotteryRoundView {
                    phase: RoundPhase::Finalizing,
                    randomness_hash: sha256_digest(
                        batch_outputs(round_randomness(ledger@, batch_size), batch_size as int),
                    ),
                    ..old(round)@
                })
            },
            outcome is Err ==> final(round)@ == old(round)@,
            old(round)@.well_formed() ==> final(round)@.well_formed(),
    {
        match round.phase {
            RoundPhase::Open => {},
            _ => {
                return Err(LotteryError::RoundNotOpen);
            },
        }
        if ledger.sequence < round.finalization_ledger {
            return Err(LotteryError::FinalizationNotReached);
        }
        if batch_size > MAX_BATCH_SIZE {
            return Err(LotteryError::BatchTooLarge);
        }
        let entropy = EntropyManager::generate_multi_source_entropy(ledger, 0);
        let outputs = VRFEngine::generate_batch_randomness(ledger, batch_size, entropy);
        proof {
            lemma_batch_outputs_len(outputs.deep_view(), batch_size as int);
        }
        let summary = VRFEngine::hash_randomness_batch(&outputs);
        round.randomness_hash = summary;
        round.phase = RoundPhase::Finalizing;
        Ok(outputs)
    }

    /// Allocates: runs the round's strategy over its entries, its
    /// whitelist and the randomness values given, publishes the results
    /// and closes the round. Randomness must have been generated, and a
    /// round is allocated once.
    pub fn execute_lottery_allocation(
        round: &mut LotteryRound,
        ledger: &LedgerContext,
        randomness_values: Vec<u128>,
    ) -> (outcome: Result<(), LotteryError>)
        ensures
            outcome == Err::<(), LotteryError>(LotteryError::RandomnessNotGenerated) <==> old(
                round,
            ).phase == RoundPhase::Open,
            outcome == Err::<(), LotteryError>(LotteryError::AlreadyFinalized) <==> old(
                round,
            ).phase == RoundPhase::Finalized,
            outcome is Ok <==> old(round).phase == RoundPhase::Finalizing,
            outcome is Ok ==> final(round)@ == (LotteryRoundView {
                phase: RoundPhase::Finalized,
                results: strategy_results(old(round)@, randomness_values@, ledger.timestamp),
                allocated_count: strategy_results(
                    old(round)@,
                    randomness_values@,
                    ledger.timestamp,
                ).len() as u32,
                whitelist: whitelist_after_round(old(round)@),
                ..old(round)@
            }),
            outcome is Ok ==> final(round)@.results.len() <= old(round).total_allocations,
            outcome is Err ==> final(round)@ == old(round)@,
            old(round)@.well_formed() ==> final(round)@.well_formed(),
    {
        match round.phase {
            RoundPhase::Open => {
                return Err(LotteryError::RandomnessNotGenerated);
            },
            RoundPhase::Finalized => {
                return Err(LotteryError::AlreadyFinalized);
            },
            RoundPhase::Finalizing => {},
        }
        let quantity: u32 = round.total_allocations;
        let results = match round.strategy {
            AllocationStrategy::FCFS => AllocationEngine::allocate_fcfs(&round.entries, quantity),
            AllocationStrategy::Lottery => AllocationEngine::allocate_lottery(
                &round.entries,
                &randomness_values,
                quantity,
            ),
            AllocationStrategy::Whitelist => AllocationEngine::allocate_whitelist(
                &round.whitelist,
                quantity,
            ),
            AllocationStrategy::HybridWhitelistLottery => {
                AllocationEngine::allocate_hybrid_whitelist_lottery(
                    &round.whitelist,
                    &round.entries,
                    &randomness_values,
                    quantity,
                )
            },
            AllocationStrategy::TimeWeighted => AllocationEngine::allocate_time_weighted(
                ledger,
                &round.entries,
                &randomness_values,
                quantity,
            ),
        };
        match round.strategy {
            AllocationStrategy::Whitelist | AllocationStrategy::HybridWhitelistLottery => {
                AllocationEngine::record_whitelist_allocations(&mut round.whitelist, quantity);
            },
            _ => {},
        }
        round.allocated_count = results.len() as u32;
        round.results = results;
        round.phase = RoundPhase::Finalized;
        Ok(())
    }

    /// Checks a randomness proof against the input and height it claims.
    pub fn verify_lottery_randomness(
        proof: &VRFProof,
        original_input: Vec<u8>,
        expected_ledger: u32,
    ) -> (valid: bool)
        ensures
            valid == proof_valid(proof@, original_input@, expected_ledger),
    {
        VRFEngine::verify_vrf_proof(proof, original_input, expected_ledger)
    }

    /// The winners of the round; none before it is finalized.
    pub fn get_lottery_winners(round: &LotteryRound) -> (winners: Vec<AllocationResult>)
        ensures
            winners.deep_view() == round@.results,
    {
        let mut winners: Vec<AllocationResult> = Vec::new();
        let mut at: usize = 0;
        while at < round.results.len()
            invariant
                at <= round.results@.len(),
                winners@.len() == at,
                forall|k: int| 0 <= k < at ==> (#[trigger] winners@[k])@ == round.results@[k]@,
            decreases round.results@.len() - at,
        {
            winners.push(round.results[at].duplicate());
            at += 1;
        }
        assert(winners.deep_view() =~= round@.results);
        winners
    }

    /// The fairness score of a finalized round; 0 while the round has no
    /// results to score.
    pub fn get_allocation_fairness(round: &LotteryRound) -> (score: u32)
        ensures
            round.phase == RoundPhase::Finalized ==> score == fairness_score(
                round@.results.len(),
                counted_entries(round@.entries),
            ),
            round.phase != RoundPhase::Finalized ==> score == 0,
            score <= 100,
    {
        match round.phase {
            RoundPhase::Finalized => {
                let entry_count: u32 = if round.entries.len() > 4294967295 {
                    4294967295
                } else {
                    round.entries.len() as u32
                };
                AllocationEngine::compute_fairness_score(&round.results, entry_count)
            },
            _ => 0,
        }
    }
}

} // verus!
