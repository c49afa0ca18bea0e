//! The entropy manager: unpredictable byte strings derived from a reading
//! of the ledger, and the bookkeeping that tells fresh entropy from reused.

use vstd::prelude::*;
use vstd::bytes::{spec_u32_to_le_bytes, spec_u64_to_le_bytes, u32_to_le_bytes, u64_to_le_bytes};
use crate::digest::{
    append_bytes, bytes_equal, copy_bytes, normalize32, normalized, sha256, sha256_digest,
};
use crate::ledger::{LedgerContext, LedgerContextView};

verus! {

/// Which signals of the ledger go into a derivation.
#[derive(Clone, Copy, Debug, PartialEq, Eq, Structural)]
pub enum EntropySource {
    /// The chain hash as it is.
    LedgerHash,
    /// The chain hash and the clock.
    LedgerHashWithTimestamp,
    /// The chain hash, the clock, the height and a counter.
    MultiSource,
}

/// What the manager remembers between derivations.
#[derive(Clone, Debug, PartialEq, Eq)]
pub struct EntropyState {
    /// The chain hash at the last derivation.
    pub last_ledger_hash: Vec<u8>,
    /// The clock at the last derivation.
    pub last_entropy_timestamp: u64,
    /// How many derivations were made; it never goes down.
    pub entropy_counter: u32,
    /// Whether entropy can be derived.
    pub entropy_ready: bool,
}

/// The mathematical content of an [`EntropyState`].
pub struct EntropyStateView {
    pub last_ledger_hash: Seq<u8>,
    pub last_entropy_timestamp: u64,
    pub entropy_counter: u32,
    pub entropy_ready: bool,
}

impl View for EntropyState {
    type V = EntropyStateView;

    open spec fn view(&self) -> EntropyStateView {
        EntropyStateView {
            last_ledger_hash: self.last_ledger_hash@,
            last_entropy_timestamp: self.last_entropy_timestamp,
            entropy_counter: self.entropy_counter,
            entropy_ready: self.entropy_ready,
        }
    }
}

/// What is digested for entropy from hash and clock: the chain hash at
/// digest width, then the clock in little-endian.
pub open spec fn timestamp_preimage(ledger: LedgerContextView) -> Seq<u8> {
    normalize32(ledger.hash) + spec_u64_to_le_bytes(ledger.timestamp)
}

/// What is digested for multi-source entropy: the chain hash at digest
/// width, then clock, height and counter, each in little-endian.
pub open spec fn multi_source_preimage(ledger: LedgerContextView, counter: u32) -> Seq<u8> {
    normalize32(ledger.hash) + spec_u64_to_le_bytes(ledger.timestamp) + spec_u32_to_le_bytes(
        ledger.sequence,
    ) + spec_u32_to_le_bytes(counter)
}

/// The entropy that `source` derives from a reading of the ledger.
pub open spec fn derived_entropy(
    ledger: LedgerContextView,
    source: EntropySource,
    counter: u32,
) -> Seq<u8> {
    match source {
        EntropySource::LedgerHash => ledger.hash,
        EntropySource::LedgerHashWithTimestamp => sha256_digest(timestamp_preimage(ledger)),
        EntropySource::MultiSource => sha256_digest(multi_source_preimage(ledger, counter)),
    }
}

/// The first `upto` sources, each at digest width, one after the other.
pub open spec fn mix_preimage(sources: Seq<Seq<u8>>, upto: int) -> Seq<u8>
    decreases upto,
{
    if upto <= 0 {
        Seq::empty()
    } else {
        mix_preimage(sources, upto - 1) + normalize32(sources[upto - 1])
    }
}

/// The state after one more derivation at `ledger`: hash and clock are
/// refreshed and the counter moves on by one, stopping at `u32::MAX`.
pub open spec fn updated_state(
    state: EntropyStateView,
    ledger: LedgerContextView,
) -> EntropyStateView {
    EntropyStateView {
        last_ledger_hash: ledger.hash,
        last_entropy_timestamp: ledger.timestamp,
        entropy_counter: if state.entropy_counter < u32::MAX {
            (state.entropy_counter + 1) as u32
        } else {
            u32::MAX
        },
        entropy_ready: state.entropy_ready,
    }
}

/// How fresh entropy is, in percent: it decays linearly with the number of
/// derivations since it was made, and is 0 from `max_reuse_count` on.
pub open spec fn freshness_percentage(
    current_counter: u32,
    last_counter: u32,
    max_reuse_count: u32,
) -> int {
    let age = if current_counter >= last_counter {
        current_counter - last_counter
    } else {
        0
    };
    if age >= max_reuse_count {
        0
    } else {
        ((max_reuse_count - age) * 100) / (max_reuse_count as int)
    }
}

/// The entropy manager.
pub struct EntropyManager;

impl EntropyManager {
    /// The state at system start: the ledger's hash and clock, no
    /// derivations yet, ready.
    pub fn initialize_entropy(ledger: &LedgerContext) -> (state: EntropyState)
        ensures
            state@ == (EntropyStateView {
                last_ledger_hash: ledger.hash@,
                last_entropy_timestamp: ledger.timestamp,
                entropy_counter: 0,
                entropy_ready: true,
            }),
    {
        EntropyState {
            last_ledger_hash: copy_bytes(&ledger.hash),
            last_entropy_timestamp: ledger.timestamp,
            entropy_counter: 0,
            entropy_ready: true,
        }
    }

    /// The chain hash, unchanged.
    pub fn generate_ledger_entropy(ledger: &LedgerContext) -> (entropy: Vec<u8>)
        ensures
            entropy@ == ledger.hash@,
            entropy@ == derived_entropy(ledger@, EntropySource::LedgerHash, 0),
    {
        copy_bytes(&ledger.hash)
    }

    /// The digest of the chain hash followed by the clock.
    pub fn generate_entropy_with_timestamp(ledger: &LedgerContext) -> (entropy: Vec<u8>)
        ensures
            entropy@ == sha256_digest(timestamp_preimage(ledger@)),
            entropy@.len() == 32,
    {
        let mut combined = normalized(&ledger.hash);
        let clock = u64_to_le_bytes(ledger.timestamp);
        append_bytes(&mut combined, &clock);
        sha256(&combined)
    }

    /// The digest of chain hash, clock, height and `counter`. The counter
    /// tells apart derivations made at one height and clock.
    pub fn generate_multi_source_entropy(
        ledger: &LedgerContext,
        counter: u32,
    ) -> (entropy: Vec<u8>)
        ensures
            entropy@ == sha256_digest(multi_source_preimage(ledger@, counter)),
            entropy@.len() == 32,
    {
        let mut combined = normalized(&ledger.hash);
        let clock = u64_to_le_bytes(ledger.timestamp);
        append_bytes(&mut combined, &clock);
        let height = u32_to_le_bytes(ledger.sequence);
        append_bytes(&mut combined, &height);
        let count = u32_to_le_bytes(counter);
        append_bytes(&mut combined, &count);
        sha256(&combined)
    }

    /// Whether `new_entropy` differs from the hash used last.
    pub fn verify_entropy_freshness(state: &EntropyState, new_entropy: &Vec<u8>) -> (fresh: bool)
        ensures
            fresh == (new_entropy@ != state.last_ledger_hash@),
    {
        !bytes_equal(new_entropy, &state.last_ledger_hash)
    }

    /// Records one more derivation: refreshes hash and clock from the
    /// ledger and moves the counter on by one, stopping at `u32::MAX`.
    pub fn update_entropy_state(ledger: &LedgerContext, state: &mut EntropyState)
        ensures
            final(state)@ == updated_state(old(state)@, ledger@),
            final(state).entropy_counter >= old(state).entropy_counter,
            old(state).entropy_counter < u32::MAX ==> final(state).entropy_counter > old(
                state,
            ).entropy_counter,
    {
        state.last_ledger_hash = copy_bytes(&ledger.hash);
        state.last_entropy_timestamp = ledger.timestamp;
        state.entropy_counter = state.entropy_counter.saturating_add(1);
    }

    /// Derives entropy from the signals that `source` names. Only
    /// `MultiSource` uses `counter`.
    pub fn generate_entropy(
        ledger: &LedgerContext,
        source: &EntropySource,
        counter: u32,
    ) -> (entropy: Vec<u8>)
        ensures
            entropy@ == derived_entropy(ledger@, *source, counter),
            *source != EntropySource::LedgerHash ==> entropy@.len() == 32,
    {
        match source {
            EntropySource::LedgerHash => Self::generate_ledger_entropy(ledger),
            EntropySource::LedgerHashWithTimestamp => Self::generate_entropy_with_timestamp(
                ledger,
            ),
            EntropySource::MultiSource => Self::generate_multi_source_entropy(ledger, counter),
        }
    }

    /// Combines several sources into one value: the digest of all of them,
    /// each brought to 32 bytes, in the order given.
    pub fn mix_entropy_sources(sources: &Vec<Vec<u8>>) -> (entropy: Vec<u8>)
        requires
            32 * sources@.len() <= u32::MAX,
        ensures
            entropy@ == sha256_digest(mix_preimage(sources.deep_view(), sources@.len() as int)),
            entropy@.len() == 32,
    {
        let mut combined: Vec<u8> = Vec::new();
        let mut at: usize = 0;
        while at < sources.len()
            invariant
                at <= sources@.len(),
                combined@ == mix_preimage(sources.deep_view(), at as int),
                combined@.len() == 32 * at,
            decreases sources@.len() - at,
        {
            let part = normalized(&sources[at]);
            assert(sources.deep_view()[at as int] == sources@[at as int]@);
            append_bytes(&mut combined, &part);
            at += 1;
        }
        sha256(&combined)
    }

    /// Whether `entropy` has the width of a digest, 32 bytes.
    pub fn validate_entropy(entropy: &Vec<u8>) -> (valid: bool)
        ensures
            valid == (entropy@.len() == 32),
    {
        entropy.len() == 32
    }

    /// How fresh entropy made at `last_counter` still is at
    /// `current_counter`, in percent.
    pub fn get_entropy_freshness(
        current_counter: u32,
        last_counter: u32,
        max_reuse_count: u32,
    ) -> (freshness: u32)
        ensures
            freshness == freshness_percentage(current_counter, last_counter, max_reuse_count),
            freshness <= 100,
    {
        let reuse_count: u32 = current_counter.saturating_sub(last_counter);
        if reuse_count >= max_reuse_count {
            0
        } else {
            let left: u64 = (max_reuse_count - reuse_count) as u64;
            let limit: u64 = max_reuse_count as u64;
            assert((left * 100) / (limit as int) <= 100) by (nonlinear_arith)
                requires
                    0 < left <= limit,
            ;
            ((left * 100) / limit) as u32
        }
    }
}

} // verus!
