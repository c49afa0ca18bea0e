//! The VRF engine: pseudorandom outputs derived from a seed and its
//! context, each with a proof that anyone can check by deriving it again.

use vstd::prelude::*;
use vstd::bytes::{
    spec_u128_from_le_bytes, spec_u32_to_le_bytes, u128_from_le_bytes, u32_to_le_bytes,
};
use vstd::slice::slice_subrange;
use crate::digest::{append_bytes, bytes_equal, copy_bytes, sha256, sha256_digest};
use crate::ledger::LedgerContext;
use crate::lottery::selection_index;

verus! {

/// The longest seed that an output can be derived from. The digest takes
/// at most `u32::MAX` bytes, and 40 of them hold an output and its context.
pub const MAX_SEED_LEN: usize = 4294967255;

/// A derived output together with what it was derived from.
#[derive(Clone, Debug, PartialEq, Eq)]
pub struct VRFProof {
    /// The derived output, 32 bytes.
    pub output: Vec<u8>,
    /// Binds the output to its input and context.
    pub proof: Vec<u8>,
    /// The seed.
    pub input: Vec<u8>,
    /// The height at which the output was derived.
    pub ledger_sequence: u32,
    /// The nonce folded into the derivation.
    pub nonce: u32,
}

/// The mathematical content of a [`VRFProof`].
pub struct VRFProofView {
    pub output: Seq<u8>,
    pub proof: Seq<u8>,
    pub input: Seq<u8>,
    pub ledger_sequence: u32,
    pub nonce: u32,
}

impl View for VRFProof {
    type V = VRFProofView;

    open spec fn view(&self) -> VRFProofView {
        VRFProofView {
            output: self.output@,
            proof: self.proof@,
            input: self.input@,
            ledger_sequence: self.ledger_sequence,
            nonce: self.nonce,
        }
    }
}

impl DeepView for VRFProof {
    type V = VRFProofView;

    open spec fn deep_view(&self) -> VRFProofView {
        self@
    }
}

/// One element of a finalization batch. Its place in the batch is the
/// allocation slot it serves.
#[derive(Clone, Debug, PartialEq, Eq)]
pub struct RandomnessOutput {
    /// The random value, read from the output.
    pub value: u128,
    /// The output and its proof.
    pub proof: VRFProof,
}

/// The mathematical content of a [`RandomnessOutput`].
pub struct RandomnessOutputView {
    pub value: u128,
    pub proof: VRFProofView,
}

impl View for RandomnessOutput {
    type V = RandomnessOutputView;

    open spec fn view(&self) -> RandomnessOutputView {
        RandomnessOutputView { value: self.value, proof: self.proof@ }
    }
}

impl DeepView for RandomnessOutput {
    type V = RandomnessOutputView;

    open spec fn deep_view(&self) -> RandomnessOutputView {
        self@
    }
}

/// What is digested for an output: the seed, then nonce and height in
/// little-endian.
pub open spec fn vrf_preimage(seed: Seq<u8>, nonce: u32, height: u32) -> Seq<u8> {
    seed + spec_u32_to_le_bytes(nonce) + spec_u32_to_le_bytes(height)
}

/// The output derived from `seed` with `nonce` at `height`.
pub open spec fn vrf_output(seed: Seq<u8>, nonce: u32, height: u32) -> Seq<u8> {
    sha256_digest(vrf_preimage(seed, nonce, height))
}

/// The blob that binds an output to its input and context: the digest of
/// the output followed by what the output was derived from.
pub open spec fn vrf_binding(seed: Seq<u8>, nonce: u32, height: u32) -> Seq<u8> {
    sha256_digest(vrf_output(seed, nonce, height) + vrf_preimage(seed, nonce, height))
}

/// The proof that comes with the output derived from `seed` with `nonce`
/// at `height`.
pub open spec fn vrf_proof(seed: Seq<u8>, nonce: u32, height: u32) -> VRFProofView {
    VRFProofView {
        output: vrf_output(seed, nonce, height),
        proof: vrf_binding(seed, nonce, height),
        input: seed,
        ledger_sequence: height,
        nonce,
    }
}

/// The random value that an output stands for: its first 16 bytes, read
/// as a little-endian number.
pub open spec fn randomness_value(output: Seq<u8>) -> u128 {
    spec_u128_from_le_bytes(output.subrange(0, 16))
}

/// Element `index` of the batch derived from `seed` at `height`.
pub open spec fn batch_element(seed: Seq<u8>, index: int, height: u32) -> RandomnessOutputView {
    RandomnessOutputView {
        value: randomness_value(vrf_output(seed, index as u32, height)),
        proof: vrf_proof(seed, index as u32, height),
    }
}

/// The batch of `batch_size` outputs derived from `seed` at `height`.
pub open spec fn randomness_batch(
    seed: Seq<u8>,
    batch_size: u32,
    height: u32,
) -> Seq<RandomnessOutputView> {
    Seq::new(batch_size as nat, |index: int| batch_element(seed, index, height))
}

/// The outputs of the first `upto` elements of a batch, one after the
/// other.
pub open spec fn batch_outputs(batch: Seq<RandomnessOutputView>, upto: int) -> Seq<u8>
    decreases upto,
{
    if upto <= 0 {
        Seq::empty()
    } else {
        batch_outputs(batch, upto - 1) + batch[upto - 1].proof.output
    }
}

/// A proof checks out against `original_input` and `expected_ledger`: it
/// names that input and that height, and its output is the one derived
/// from them with the proof's nonce. No proof exists for a seed longer
/// than [`MAX_SEED_LEN`].
pub open spec fn proof_valid(
    proof: VRFProofView,
    original_input: Seq<u8>,
    expected_ledger: u32,
) -> bool {
    &&& original_input.len() <= MAX_SEED_LEN
    &&& proof.input == original_input
    &&& proof.ledger_sequence == expected_ledger
    &&& proof.output == vrf_output(original_input, proof.nonce, expected_ledger)
}

/// Determinism: the same seed, nonce and height give the same output and
/// the same proof.
pub proof fn lemma_vrf_deterministic(
    seed: Seq<u8>,
    nonce: u32,
    height: u32,
    other_seed: Seq<u8>,
    other_nonce: u32,
    other_height: u32,
)
    requires
        seed == other_seed,
        nonce == other_nonce,
        height == other_height,
    ensures
        vrf_output(seed, nonce, height) == vrf_output(other_seed, other_nonce, other_height),
        vrf_proof(seed, nonce, height) == vrf_proof(other_seed, other_nonce, other_height),
{
}

/// Proof soundness: the proof derived from a seed at a height checks out
/// against that seed and height, and stops doing so once its output, its
/// input or its height is changed.
pub proof fn lemma_proof_soundness(seed: Seq<u8>, nonce: u32, height: u32, altered: VRFProofView)
    requires
        seed.len() <= MAX_SEED_LEN,
    ensures
        proof_valid(vrf_proof(seed, nonce, height), seed, height),
        altered.nonce == nonce && altered.output != vrf_output(seed, nonce, height)
            ==> !proof_valid(altered, seed, height),
        altered.input != seed ==> !proof_valid(altered, seed, height),
        altered.ledger_sequence != height ==> !proof_valid(altered, seed, height),
{
}

/// A batch whose outputs are all 32 bytes long has `32 * upto` bytes of
/// output in its first `upto` elements.
pub(crate) proof fn lemma_batch_outputs_len(batch: Seq<RandomnessOutputView>, upto: int)
    requires
        0 <= upto <= batch.len(),
        forall|k: int| 0 <= k < batch.len() ==> (#[trigger] batch[k]).proof.output.len() == 32,
    ensures
        batch_outputs(batch, upto).len() == 32 * upto,
    decreases upto,
{
    if upto > 0 {
        lemma_batch_outputs_len(batch, upto - 1);
    }
}

/// The VRF engine.
pub struct VRFEngine;

impl VRFEngine {
    /// Derives the output for `seed` and `nonce` at the ledger's height,
    /// with its proof. The output is the digest of seed, nonce and height;
    /// nothing else of the ledger enters it.
    pub fn generate_vrf_randomness(
        ledger: &LedgerContext,
        seed: Vec<u8>,
        nonce: u32,
    ) -> (derived: (Vec<u8>, VRFProof))
        requires
            seed@.len() <= MAX_SEED_LEN,
        ensures
            derived.0@ == vrf_output(seed@, nonce, ledger.sequence),
            derived.0@.len() == 32,
            derived.1@ == vrf_proof(seed@, nonce, ledger.sequence),
            derived.1@.proof.len() == 32,
    {
        let mut preimage = copy_bytes(&seed);
        let nonce_bytes = u32_to_le_bytes(nonce);
        append_bytes(&mut preimage, &nonce_bytes);
        let height_bytes = u32_to_le_bytes(ledger.sequence);
        append_bytes(&mut preimage, &height_bytes);
        let output = sha256(&preimage);

        let mut bound = copy_bytes(&output);
        append_bytes(&mut bound, &preimage);
        let binding = sha256(&bound);

        let proof = VRFProof {
            output: copy_bytes(&output),
            proof: binding,
            input: seed,
            ledger_sequence: ledger.sequence,
            nonce,
        };
        (output, proof)
    }

    /// Derives `batch_size` outputs from one seed at the ledger's height:
    /// element `index` is the output for nonce `index`.
    pub fn generate_batch_randomness(
        ledger: &LedgerContext,
        batch_size: u32,
        seed: Vec<u8>,
    ) -> (batch: Vec<RandomnessOutput>)
        requires
            seed@.len() <= MAX_SEED_LEN,
        ensures
            batch.deep_view() == randomness_batch(seed@, batch_size, ledger.sequence),
            batch@.len() == batch_size,
            forall|k: int|
                0 <= k < batch@.len() ==> (#[trigger] batch@[k]).proof.output@.len() == 32,
    {
        let mut batch: Vec<RandomnessOutput> = Vec::new();
        let mut index: u32 = 0;
        while index < batch_size
            invariant
                index <= batch_size,
                seed@.len() <= MAX_SEED_LEN,
                batch@.len() == index,
                forall|k: int|
                    0 <= k < index ==> (#[trigger] batch@[k])@ == batch_element(
                        seed@,
                        k,
                        ledger.sequence,
                    ),
                forall|k: int| 0 <= k < index ==> (#[trigger] batch@[k]).proof.output@.len() == 32,
            decreases batch_size - index,
        {
            let (output, proof) = Self::generate_vrf_randomness(ledger, copy_bytes(&seed), index);
            let value = Self::output_value(&output);
            batch.push(RandomnessOutput { value, proof });
            index += 1;
        }
        assert(batch.deep_view() =~= randomness_batch(seed@, batch_size, ledger.sequence));
        batch
    }

    /// The digest of all outputs of a batch, in order: a summary that
    /// changes when any output does.
    pub fn hash_randomness_batch(batch: &Vec<RandomnessOutput>) -> (summary: Vec<u8>)
        requires
            batch_outputs(batch.deep_view(), batch@.len() as int).len() <= u32::MAX,
        ensures
            summary@ == sha256_digest(batch_outputs(batch.deep_view(), batch@.len() as int)),
            summary@.len() == 32,
    {
        let mut combined: Vec<u8> = Vec::new();
        let mut at: usize = 0;
        while at < batch.len()
            invariant
                at <= batch@.len(),
                combined@ == batch_outputs(batch.deep_view(), at as int),
            decreases batch@.len() - at,
        {
            assert(batch.deep_view()[at as int] == batch@[at as int]@);
            append_bytes(&mut combined, &batch[at].proof.output);
            at += 1;
        }
        sha256(&combined)
    }

    /// Checks a proof against the input and the height it claims: true
    /// exactly when the proof names both and deriving the output again
    /// gives the proof's output.
    pub fn verify_vrf_proof(
        proof: &VRFProof,
        original_input: Vec<u8>,
        expected_ledger: u32,
    ) -> (valid: bool)
        ensures
            valid == proof_valid(proof@, original_input@, expected_ledger),
    {
        if original_input.len() > MAX_SEED_LEN {
            return false;
        }
        if !bytes_equal(&proof.input, &original_input) {
            return false;
        }
        if proof.ledger_sequence != expected_ledger {
            return false;
        }
        let mut preimage = original_input;
        let nonce_bytes = u32_to_le_bytes(proof.nonce);
        append_bytes(&mut preimage, &nonce_bytes);
        let height_bytes = u32_to_le_bytes(expected_ledger);
        append_bytes(&mut preimage, &height_bytes);
        let output = sha256(&preimage);
        bytes_equal(&proof.output, &output)
    }

    /// Maps a random value onto a position in a pool of `pool_size`:
    /// the value modulo the pool size. The pool must not be empty.
    pub fn compute_selection_index(randomness: u128, pool_size: u32) -> (index: u32)
        requires
            pool_size > 0,
        ensures
            index == selection_index(randomness, pool_size as int),
            index < pool_size,
            pool_size == 1 ==> index == 0,
    {
        (randomness % (pool_size as u128)) as u32
    }

    /// The random value of a 32-byte output.
    fn output_value(output: &Vec<u8>) -> (value: u128)
        requires
            output@.len() == 32,
        ensures
            value == randomness_value(output@),
    {
        u128_from_le_bytes(slice_subrange(output.as_slice(), 0, 16))
    }
}

} // verus!
