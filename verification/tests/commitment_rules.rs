use ticket_contract::commitment::{Commitment, CommitmentScheme, Reveal, RevealError};
use ticket_contract::identity::ParticipantId;
use ticket_contract::ledger::LedgerContext;

fn hex(bytes: &[u8]) -> String {
    let mut text = String::new();
    for byte in bytes {
        text.push_str(&format!("{:02x}", byte));
    }
    text
}

fn sample_ledger() -> LedgerContext {
    LedgerContext::new(1_700_000_000, 1234, (0..32u8).collect())
}

fn seed() -> Vec<u8> {
    b"seed-bytes".to_vec()
}

fn committer() -> ParticipantId {
    ParticipantId::new(b"participant-1".to_vec())
}

fn reveal_of(seed: Vec<u8>, nonce: u32) -> Reveal {
    Reveal { seed, nonce, revealed_at: 1_700_000_900 }
}

#[test]
fn commitment_digests_seed_nonce_and_identity() {
    let (hash, commitment) = CommitmentScheme::commit(&sample_ledger(), seed(), 42, committer());
    assert_eq!(
        hex(&hash),
        "c9c59e7e4e8d6289c24552c0658e76807721608b3a2dc2ac9b10ebbdd54a2c9a"
    );
    assert_eq!(
        commitment,
        Commitment {
            committer: committer(),
            commitment_hash: hash.clone(),
            committed_at: 1_700_000_000,
            revealed: false,
        }
    );
}

#[test]
fn commitment_does_not_depend_on_the_ledger() {
    let elsewhere = LedgerContext::new(1, 2, vec![3]);
    assert_eq!(
        CommitmentScheme::commit(&sample_ledger(), seed(), 42, committer()).0,
        CommitmentScheme::commit(&elsewhere, seed(), 42, committer()).0
    );
}

#[test]
fn the_committed_seed_and_nonce_open_the_commitment() {
    let (hash, _) = CommitmentScheme::commit(&sample_ledger(), seed(), 42, committer());
    assert!(CommitmentScheme::verify_reveal(&hash, &reveal_of(seed(), 42), &committer()));

    // When the reveal is made does not matter.
    let late = Reveal { seed: seed(), nonce: 42, revealed_at: u64::MAX };
    assert!(CommitmentScheme::verify_reveal(&hash, &late, &committer()));
}

#[test]
fn changing_any_byte_of_the_seed_fails_the_reveal() {
    let (hash, _) = CommitmentScheme::commit(&sample_ledger(), seed(), 42, committer());
    for position in 0..seed().len() {
        let mut changed = seed();
        changed[position] ^= 1;
        assert!(!CommitmentScheme::verify_reveal(&hash, &reveal_of(changed, 42), &committer()));
    }

    let mut longer = seed();
    longer.push(0);
    assert!(!CommitmentScheme::verify_reveal(&hash, &reveal_of(longer, 42), &committer()));
    assert!(!CommitmentScheme::verify_reveal(&hash, &reveal_of(Vec::new(), 42), &committer()));
}

#[test]
fn another_nonce_or_committer_fails_the_reveal() {
    let (hash, _) = CommitmentScheme::commit(&sample_ledger(), seed(), 42, committer());
    assert!(!CommitmentScheme::verify_reveal(&hash, &reveal_of(seed(), 43), &committer()));

    let stranger = ParticipantId::new(b"participant-2".to_vec());
    assert!(!CommitmentScheme::verify_reveal(&hash, &reveal_of(seed(), 42), &stranger));
}

#[test]
fn a_changed_stored_hash_fails_the_reveal() {
    let (mut hash, _) = CommitmentScheme::commit(&sample_ledger(), seed(), 42, committer());
    hash[5] ^= 0x10;
    assert!(!CommitmentScheme::verify_reveal(&hash, &reveal_of(seed(), 42), &committer()));
    assert!(!CommitmentScheme::verify_reveal(&Vec::new(), &reveal_of(seed(), 42), &committer()));
}

#[test]
fn a_commitment_opens_once() {
    let (_, mut commitment) = CommitmentScheme::commit(&sample_ledger(), seed(), 42, committer());

    assert_eq!(CommitmentScheme::apply_reveal(&mut commitment, &reveal_of(seed(), 42)), Ok(()));
    assert!(commitment.revealed);

    assert_eq!(
        CommitmentScheme::apply_reveal(&mut commitment, &reveal_of(seed(), 42)),
        Err(RevealError::AlreadyRevealed)
    );
    assert!(commitment.revealed);
}

#[test]
fn a_wrong_reveal_leaves_the_commitment_closed() {
    let (hash, mut commitment) =
        CommitmentScheme::commit(&sample_ledger(), seed(), 42, committer());

    assert_eq!(
        CommitmentScheme::apply_reveal(&mut commitment, &reveal_of(b"guess".to_vec(), 42)),
        Err(RevealError::Mismatch)
    );
    assert!(!commitment.revealed);
    assert_eq!(commitment.commitment_hash, hash);

    // The right reveal still opens it afterwards.
    assert_eq!(CommitmentScheme::apply_reveal(&mut commitment, &reveal_of(seed(), 42)), Ok(()));
    assert!(commitment.revealed);
    assert_eq!(commitment.committer, committer());
    assert_eq!(commitment.committed_at, 1_700_000_000);
}
