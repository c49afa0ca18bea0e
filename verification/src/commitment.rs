//! Commit, then reveal: a participant locks a secret in before randomness
//! is public, and later shows that the secret matches.

use vstd::prelude::*;
use vstd::bytes::{spec_u32_to_le_bytes, u32_to_le_bytes};
use crate::digest::{append_bytes, bytes_equal, copy_bytes, sha256, sha256_digest};
use crate::identity::ParticipantId;
use crate::ledger::LedgerContext;

verus! {

/// A published commitment.
#[derive(Clone, Debug, PartialEq, Eq)]
pub struct Commitment {
    /// Who committed.
    pub committer: ParticipantId,
    /// The digest that binds the secret.
    pub commitment_hash: Vec<u8>,
    /// The clock when the commitment was made.
    pub committed_at: u64,
    /// Whether the secret has been revealed. It turns true once, on a
    /// matching reveal, and stays so.
    pub revealed: bool,
}

/// The mathematical content of a [`Commitment`].
pub struct CommitmentView {
    pub committer: Seq<u8>,
    pub commitment_hash: Seq<u8>,
    pub committed_at: u64,
    pub revealed: bool,
}

impl View for Commitment {
    type V = CommitmentView;

    open spec fn view(&self) -> CommitmentView {
        CommitmentView {
            committer: self.committer@,
            commitment_hash: self.commitment_hash@,
            committed_at: self.committed_at,
            revealed: self.revealed,
        }
    }
}

/// What a participant discloses to open a commitment.
#[derive(Clone, Debug, PartialEq, Eq)]
pub struct Reveal {
    /// The secret.
    pub seed: Vec<u8>,
    /// The nonce committed with it.
    pub nonce: u32,
    /// The clock at the reveal.
    pub revealed_at: u64,
}

/// The mathematical content of a [`Reveal`].
pub struct RevealView {
    pub seed: Seq<u8>,
    pub nonce: u32,
    pub revealed_at: u64,
}

impl View for Reveal {
    type V = RevealView;

    open spec fn view(&self) -> RevealView {
        RevealView { seed: self.seed@, nonce: self.nonce, revealed_at: self.revealed_at }
    }
}

/// Why a reveal was turned down.
#[derive(Clone, Copy, Debug, PartialEq, Eq, Structural)]
pub enum RevealError {
    /// The commitment was opened before.
    AlreadyRevealed,
    /// The reveal does not hash to the commitment.
    Mismatch,
}

/// What is digested for a commitment: the seed, the nonce in
/// little-endian, then the committer's identity.
pub open spec fn commitment_preimage(seed: Seq<u8>, nonce: u32, committer: Seq<u8>) -> Seq<u8> {
    seed + spec_u32_to_le_bytes(nonce) + committer
}

/// Whether seed, nonce and identity together are short enough to digest.
pub open spec fn committable(seed: Seq<u8>, committer: Seq<u8>) -> bool {
    seed.len() + 4 + committer.len() <= u32::MAX
}

/// The digest that commits `committer` to `seed` and `nonce`.
pub open spec fn commitment_digest(seed: Seq<u8>, nonce: u32, committer: Seq<u8>) -> Seq<u8> {
    sha256_digest(commitment_preimage(seed, nonce, committer))
}

/// A reveal opens the commitment `stored_hash` of `committer`: it can be
/// digested, and its digest is the stored one.
pub open spec fn reveal_matches(
    stored_hash: Seq<u8>,
    reveal: RevealView,
    committer: Seq<u8>,
) -> bool {
    &&& committable(reveal.seed, committer)
    &&& stored_hash == commitment_digest(reveal.seed, reveal.nonce, committer)
}

/// Commitment binding, the half that holds of every digest: revealing
/// the seed and nonce that were committed opens the commitment, whoever
/// committed and whenever the reveal is made.
pub proof fn lemma_reveal_opens_commitment(
    seed: Seq<u8>,
    nonce: u32,
    committer: Seq<u8>,
    revealed_at: u64,
)
    requires
        committable(seed, committer),
    ensures
        reveal_matches(
            commitment_digest(seed, nonce, committer),
            RevealView { seed, nonce, revealed_at },
            committer,
        ),
{
}

/// Commitment binding, the half that rests on the digest: a reveal with
/// another seed than the committed one is digested from other bytes, so
/// it opens the commitment only if the two byte strings, though different,
/// have the same digest.
pub proof fn lemma_altered_seed_needs_collision(
    seed: Seq<u8>,
    altered: Seq<u8>,
    nonce: u32,
    committer: Seq<u8>,
    revealed_at: u64,
)
    requires
        altered != seed,
    ensures
        commitment_preimage(altered, nonce, committer) != commitment_preimage(
            seed,
            nonce,
            committer,
        ),
        reveal_matches(
            commitment_digest(seed, nonce, committer),
            RevealView { seed: altered, nonce, revealed_at },
            committer,
        ) ==> sha256_digest(commitment_preimage(altered, nonce, committer)) == sha256_digest(
            commitment_preimage(seed, nonce, committer),
        ),
{
    let committed = commitment_preimage(seed, nonce, committer);
    let revealed = commitment_preimage(altered, nonce, committer);
    if committed == revealed {
        let middle = spec_u32_to_le_bytes(nonce);
        assert(committed.len() == seed.len() + middle.len() + committer.len());
        assert(revealed.len() == altered.len() + middle.len() + committer.len());
        assert forall|i: int| 0 <= i < seed.len() implies seed[i] == altered[i] by {
            assert(committed[i] == seed[i]);
            assert(revealed[i] == altered[i]);
        }
        assert(seed =~= altered);
    }
}

/// The commitment scheme.
pub struct CommitmentScheme;

impl CommitmentScheme {
    /// Commits `committer` to `seed` and `nonce` at the ledger's clock.
    /// Returns the digest to publish and the record to keep, not yet
    /// revealed. The seed itself is disclosed only at the reveal.
    pub fn commit(
        ledger: &LedgerContext,
        seed: Vec<u8>,
        nonce: u32,
        committer: ParticipantId,
    ) -> (made: (Vec<u8>, Commitment))
        requires
            committable(seed@, committer@),
        ensures
            made.0@ == commitment_digest(seed@, nonce, committer@),
            made.0@.len() == 32,
            made.1@ == (CommitmentView {
                committer: committer@,
                commitment_hash: commitment_digest(seed@, nonce, committer@),
                committed_at: ledger.timestamp,
                revealed: false,
            }),
    {
        let hash = Self::digest_of(&seed, nonce, &committer);
        let commitment = Commitment {
            committer,
            commitment_hash: copy_bytes(&hash),
            committed_at: ledger.timestamp,
            revealed: false,
        };
        (hash, commitment)
    }

    /// Whether `reveal` opens the commitment `stored_hash` made by
    /// `committer`: true exactly when digesting the revealed seed and
    /// nonce with the committer's identity gives the stored digest.
    pub fn verify_reveal(
        stored_hash: &Vec<u8>,
        reveal: &Reveal,
        committer: &ParticipantId,
    ) -> (valid: bool)
        ensures
            valid == reveal_matches(stored_hash@, reveal@, committer@),
    {
        let limit: u64 = 4294967295;
        if reveal.seed.len() as u64 > limit - 4 {
            return false;
        }
        if committer.as_bytes().len() as u64 > limit - 4 - reveal.seed.len() as u64 {
            return false;
        }
        let hash = Self::digest_of(&reveal.seed, reveal.nonce, committer);
        bytes_equal(stored_hash, &hash)
    }

    /// Opens a commitment. A commitment opens once: a second reveal is
    /// turned down, and so is one that does not hash to the commitment,
    /// which leaves the commitment unrevealed.
    pub fn apply_reveal(
        commitment: &mut Commitment,
        reveal: &Reveal,
    ) -> (outcome: Result<(), RevealError>)
        ensures
            outcome == Err::<(), RevealError>(RevealError::AlreadyRevealed) <==> old(
                commitment,
            ).revealed,
            outcome == Err::<(), RevealError>(RevealError::Mismatch) <==> !old(commitment).revealed
                && !reveal_matches(
                old(commitment)@.commitment_hash,
                reveal@,
                old(commitment)@.committer,
            ),
            outcome is Ok <==> !old(commitment).revealed && reveal_matches(
                old(commitment)@.commitment_hash,
                reveal@,
                old(commitment)@.committer,
            ),
            outcome is Ok ==> final(commitment)@ == (CommitmentView {
                revealed: true,
                ..old(commitment)@
            }),
            outcome is Err ==> final(commitment)@ == old(commitment)@,
    {
        if commitment.revealed {
            return Err(RevealError::AlreadyRevealed);
        }
        if !Self::verify_reveal(&commitment.commitment_hash, reveal, &commitment.committer) {
            return Err(RevealError::Mismatch);
        }
        commitment.revealed = true;
        Ok(())
    }

    /// The digest of seed, nonce and identity.
    fn digest_of(seed: &Vec<u8>, nonce: u32, committer: &ParticipantId) -> (hash: Vec<u8>)
        requires
            committable(seed@, committer@),
        ensures
            hash@ == commitment_digest(seed@, nonce, committer@),
            hash@.len() == 32,
    {
        let mut preimage = copy_bytes(seed);
        let nonce_bytes = u32_to_le_bytes(nonce);
        append_bytes(&mut preimage, &nonce_bytes);
        append_bytes(&mut preimage, committer.as_bytes());
        sha256(&preimage)
    }
}

} // verus!
