use soroban_sdk::testutils::Address as _;
use soroban_sdk::xdr::ToXdr;
use soroban_sdk::{Address, Bytes, Env};
use ticket_contract::allocation::{
    AllocationEngine, AllocationResult, AntiSnipingConfig, LotteryEntry,
};
use ticket_contract::commitment::{CommitmentScheme, Reveal};
use ticket_contract::entropy::EntropyManager;
use ticket_contract::identity::ParticipantId;
use ticket_contract::ledger::LedgerContext;
use ticket_contract::vrf::VRFEngine;

/// The ledger as the host environment shows it.
fn ledger_of(e: &Env) -> LedgerContext {
    LedgerContext::new(
        e.ledger().timestamp(),
        e.ledger().sequence(),
        e.ledger().network_id().to_array().to_vec(),
    )
}

/// The identity of a host address: its serialized form.
fn participant_of(e: &Env, address: &Address) -> ParticipantId {
    ParticipantId::new(address.clone().to_xdr(e).iter().collect())
}

/// The digest of the empty byte string, computed by the host.
fn empty_digest(e: &Env) -> Vec<u8> {
    e.crypto().sha256(&Bytes::new(e)).to_array().to_vec()
}

#[test]
fn test_anti_sniping_rate_limit() {
    let config = AntiSnipingConfig {
        minimum_lock_period: 10,
        max_entries_per_address: 3,
        rate_limit_window: 3600,
        randomization_delay_ledgers: 5,
    };

    assert!(config.max_entries_per_address == 3);
    assert!(config.rate_limit_window == 3600);
}

#[test]
fn test_entropy_validation() {
    // 32-byte entropy should be valid
    let e = Env::default();
    let entropy = empty_digest(&e);
    assert!(EntropyManager::validate_entropy(&entropy));
}

#[test]
fn entropy_test_entropy_state_update() {
    let e = Env::default();
    let mut state = EntropyManager::initialize_entropy(&ledger_of(&e));
    let initial_counter = state.entropy_counter;

    EntropyManager::update_entropy_state(&ledger_of(&e), &mut state);
    assert!(state.entropy_counter > initial_counter);
}

#[test]
fn test_vrf_randomness_generation() {
    let e = Env::default();
    let input = empty_digest(&e);

    let (output, proof) = VRFEngine::generate_vrf_randomness(&ledger_of(&e), input.clone(), 0);

    // Verify output is 32 bytes
    assert_eq!(output.len(), 32);

    // Verify proof contains valid data
    assert!(!proof.proof.is_empty());
    assert_eq!(proof.output.len(), 32);
}

#[test]
fn test_vrf_batch_randomness() {
    let e = Env::default();
    let seed = empty_digest(&e);
    let batch_size = 10u32;

    let randomness = VRFEngine::generate_batch_randomness(&ledger_of(&e), batch_size, seed);

    // Verify batch size
    assert_eq!(randomness.len() as u32, batch_size);
}

#[test]
fn test_vrf_proof_verification() {
    let e = Env::default();
    let input = empty_digest(&e);
    let (_, proof) = VRFEngine::generate_vrf_randomness(&ledger_of(&e), input.clone(), 0);

    let expected_ledger = proof.ledger_sequence;
    let is_valid = VRFEngine::verify_vrf_proof(&proof, input, expected_ledger);

    assert!(is_valid);
}

#[test]
fn test_vrf_selection_index_computation() {
    // Test basic selection
    let index = VRFEngine::compute_selection_index(42, 100);
    assert!(index < 100);

    // Test with single element pool
    let single = VRFEngine::compute_selection_index(999999, 1);
    assert_eq!(single, 0);
}

#[test]
fn test_commitment_creation() {
    let e = Env::default();
    e.mock_all_auths();
    let committer = participant_of(&e, &Address::generate(&e));
    let seed = empty_digest(&e);
    let nonce = 42u32;

    let (hash, commitment) =
        CommitmentScheme::commit(&ledger_of(&e), seed.clone(), nonce, committer.clone());

    assert_eq!(hash.len(), 32);
    assert!(!commitment.revealed);
    assert_eq!(commitment.committer, committer);
}

#[test]
fn test_commitment_reveal_verification() {
    let e = Env::default();
    e.mock_all_auths();
    let committer = participant_of(&e, &Address::generate(&e));
    let seed = empty_digest(&e);
    let nonce = 42u32;

    let (hash, _commitment) =
        CommitmentScheme::commit(&ledger_of(&e), seed.clone(), nonce, committer.clone());

    let reveal = Reveal {
        seed: seed.clone(),
        nonce,
        revealed_at: e.ledger().timestamp(),
    };

    let is_valid = CommitmentScheme::verify_reveal(&hash, &reveal, &committer);
    assert!(is_valid);
}

#[test]
fn test_entropy_generation() {
    let e = Env::default();
    let entropy = EntropyManager::generate_ledger_entropy(&ledger_of(&e));

    assert!(EntropyManager::validate_entropy(&entropy));
    assert_eq!(entropy.len(), 32);
}

#[test]
fn test_entropy_with_timestamp() {
    let e = Env::default();
    let entropy = EntropyManager::generate_entropy_with_timestamp(&ledger_of(&e));

    assert!(EntropyManager::validate_entropy(&entropy));
}

#[test]
fn test_multi_source_entropy() {
    let e = Env::default();
    let entropy = EntropyManager::generate_multi_source_entropy(&ledger_of(&e), 0);

    assert!(EntropyManager::validate_entropy(&entropy));
}

#[test]
fn test_test_entropy_state_update() {
    let e = Env::default();
    let mut state = EntropyManager::initialize_entropy(&ledger_of(&e));
    let initial_counter = state.entropy_counter;

    EntropyManager::update_entropy_state(&ledger_of(&e), &mut state);

    assert!(state.entropy_counter > initial_counter);
}

#[test]
fn test_fcfs_allocation() {
    let e = Env::default();

    let mut entries = Vec::new();
    for i in 0..5u32 {
        entries.push(LotteryEntry {
            participant: participant_of(&e, &Address::generate(&e)),
            entry_time: e.ledger().timestamp(),
            nonce: i,
            commitment_hash: None,
        });
    }

    let results = AllocationEngine::allocate_fcfs(&entries, 3);

    assert_eq!(results.len() as u32, 3);
    // First 3 should be allocated in order
    for i in 0..3 {
        let result = &results[i as usize];
        assert_eq!(result.allocation_index, i);
    }
}

#[test]
fn test_lottery_allocation() {
    let e = Env::default();

    let mut entries = Vec::new();
    for i in 0..10u32 {
        entries.push(LotteryEntry {
            participant: participant_of(&e, &Address::generate(&e)),
            entry_time: e.ledger().timestamp(),
            nonce: i,
            commitment_hash: None,
        });
    }

    let mut randomness = Vec::new();
    for i in 0..5u32 {
        randomness.push((i as u128 * 12345u128) % 1000000u128);
    }

    let results = AllocationEngine::allocate_lottery(&entries, &randomness, 5);

    assert_eq!(results.len() as u32, 5);
}

#[test]
fn test_anti_sniping_check() {
    let e = Env::default();
    let participant = participant_of(&e, &Address::generate(&e));

    let config = AntiSnipingConfig {
        minimum_lock_period: 10,
        max_entries_per_address: 2,
        rate_limit_window: 3600,
        randomization_delay_ledgers: 3,
    };

    let mut recent = Vec::new();
    for _ in 0..2 {
        recent.push(LotteryEntry {
            participant: participant.clone(),
            entry_time: e.ledger().timestamp(),
            nonce: 0,
            commitment_hash: None,
        });
    }

    // Should fail: already at max entries
    let result =
        AllocationEngine::check_anti_sniping(&ledger_of(&e), &participant, &config, &recent);
    assert!(!result);
}

#[test]
fn test_fairness_score_computation() {
    let e = Env::default();
    let mut results = Vec::new();

    for i in 0..10u32 {
        results.push(AllocationResult {
            winner: participant_of(&e, &Address::generate(&e)),
            allocation_index: i,
            randomness_value: 42,
            weight_applied: 1,
        });
    }

    let score = AllocationEngine::compute_fairness_score(&results, 100);

    // Should be high score for roughly fair distribution
    assert!(score >= 50);
}

#[test]
fn test_full_lottery_cycle() {
    let e = Env::default();

    // 1. Create entries
    let mut entries = Vec::new();
    for i in 0..20u32 {
        entries.push(LotteryEntry {
            participant: participant_of(&e, &Address::generate(&e)),
            entry_time: e.ledger().timestamp(),
            nonce: i,
            commitment_hash: None,
        });
    }

    // 2. Generate randomness
    let seed = empty_digest(&e);
    let randomness = VRFEngine::generate_batch_randomness(&ledger_of(&e), 10, seed);

    // 3. Extract values
    let mut values = Vec::new();
    for r in &randomness {
        values.push(r.value);
    }

    // 4. Execute allocation
    let results = AllocationEngine::allocate_lottery(&entries, &values, 10);

    // 5. Verify results
    assert_eq!(results.len() as u32, 10);

    for result in &results {
        // Each result should have valid indices
        assert!(result.allocation_index < 10);
    }
}

#[test]
fn test_commit_reveal_lottery_cycle() {
    let e = Env::default();
    e.mock_all_auths();
    let committer = participant_of(&e, &Address::generate(&e));

    // Phase 1: Commit
    let seed = empty_digest(&e);
    let (commitment_hash, _) =
        CommitmentScheme::commit(&ledger_of(&e), seed.clone(), 42, committer.clone());

    // Phase 2: Reveal
    let reveal = Reveal {
        seed: seed.clone(),
        nonce: 42,
        revealed_at: e.ledger().timestamp(),
    };

    // Phase 3: Verify
    let is_valid = CommitmentScheme::verify_reveal(&commitment_hash, &reveal, &committer);
    assert!(is_valid);

    // Phase 4: Generate randomness from revealed seed
    let (vrf_output, proof) =
        VRFEngine::generate_vrf_randomness(&ledger_of(&e), seed.clone(), 42);
    assert_eq!(vrf_output.len(), 32);

    // Phase 5: Verify proof
    let proof_valid = VRFEngine::verify_vrf_proof(&proof, seed, proof.ledger_sequence);
    assert!(proof_valid);
}
