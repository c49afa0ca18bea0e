use ticket_contract::allocation::{
    AllocationEngine, AllocationStrategy, AntiSnipingConfig, LotteryEntry, WhitelistEntry,
};
use ticket_contract::contract::{
    LotteryError, LotteryRound, RoundPhase, SoulboundTicketContract, MAX_BATCH_SIZE,
};
use ticket_contract::entropy::EntropyManager;
use ticket_contract::identity::ParticipantId;
use ticket_contract::ledger::LedgerContext;
use ticket_contract::vrf::VRFEngine;

fn person(number: u32) -> ParticipantId {
    ParticipantId::new(format!("participant-{}", number).into_bytes())
}

fn ledger_at(timestamp: u64, sequence: u32) -> LedgerContext {
    LedgerContext::new(timestamp, sequence, (0..32u8).collect())
}

/// A round that may be finalized from height 200 on.
fn open_round(strategy: AllocationStrategy, total_allocations: u32) -> LotteryRound {
    SoulboundTicketContract::initialize_lottery(
        &ledger_at(1_000, 100),
        strategy,
        total_allocations,
        200,
        210,
        220,
    )
    .unwrap()
}

fn register(round: &mut LotteryRound, number: u32, timestamp: u64) -> Result<(), LotteryError> {
    SoulboundTicketContract::register_lottery_entry(
        round,
        &ledger_at(timestamp, 150),
        person(number),
        None,
    )
}

fn winners_of(round: &LotteryRound) -> Vec<ParticipantId> {
    SoulboundTicketContract::get_lottery_winners(round)
        .iter()
        .map(|result| result.winner.clone())
        .collect()
}

#[test]
fn a_new_round_is_open_and_empty() {
    let round = open_round(AllocationStrategy::Lottery, 3);
    assert_eq!(
        round,
        LotteryRound {
            strategy: AllocationStrategy::Lottery,
            total_allocations: 3,
            finalization_ledger: 200,
            reveal_start_ledger: 210,
            reveal_end_ledger: 220,
            anti_sniping: AntiSnipingConfig {
                minimum_lock_period: 10,
                max_entries_per_address: 5,
                rate_limit_window: 3600,
                randomization_delay_ledgers: 3,
            },
            phase: RoundPhase::Open,
            entries: Vec::new(),
            whitelist: Vec::new(),
            randomness_hash: Vec::new(),
            allocated_count: 0,
            results: Vec::new(),
        }
    );
}

#[test]
fn finalization_must_not_lie_in_the_past() {
    let ledger = ledger_at(1_000, 100);
    assert_eq!(
        SoulboundTicketContract::initialize_lottery(
            &ledger,
            AllocationStrategy::FCFS,
            1,
            99,
            210,
            220
        ),
        Err(LotteryError::FinalizationInPast)
    );
    // The ledger's own height is not the past.
    assert!(SoulboundTicketContract::initialize_lottery(
        &ledger,
        AllocationStrategy::FCFS,
        1,
        100,
        210,
        220
    )
    .is_ok());
}

#[test]
fn reveal_window_must_start_before_it_ends() {
    let ledger = ledger_at(1_000, 100);
    for (start, end) in [(220u32, 220u32), (221, 220), (u32::MAX, 0)] {
        assert_eq!(
            SoulboundTicketContract::initialize_lottery(
                &ledger,
                AllocationStrategy::FCFS,
                1,
                200,
                start,
                end
            ),
            Err(LotteryError::InvalidRevealWindow)
        );
    }
    // A past finalization height is reported first.
    assert_eq!(
        SoulboundTicketContract::initialize_lottery(
            &ledger,
            AllocationStrategy::FCFS,
            1,
            5,
            220,
            220
        ),
        Err(LotteryError::FinalizationInPast)
    );
}

#[test]
fn registration_appends_an_entry_stamped_by_the_ledger() {
    let mut round = open_round(AllocationStrategy::Lottery, 3);
    let hash = Some(vec![9u8; 32]);
    assert_eq!(
        SoulboundTicketContract::register_lottery_entry(
            &mut round,
            &ledger_at(1_234, 150),
            person(1),
            hash.clone()
        ),
        Ok(())
    );
    assert_eq!(register(&mut round, 2, 1_300), Ok(()));

    assert_eq!(
        round.entries,
        vec![
            LotteryEntry {
                participant: person(1),
                entry_time: 1_234,
                nonce: 150,
                commitment_hash: hash
            },
            LotteryEntry {
                participant: person(2),
                entry_time: 1_300,
                nonce: 150,
                commitment_hash: None
            },
        ]
    );
    assert_eq!(round.phase, RoundPhase::Open);
}

#[test]
fn the_sixth_entry_inside_the_window_is_turned_down() {
    let mut round = open_round(AllocationStrategy::Lottery, 3);
    for _ in 0..5 {
        assert_eq!(register(&mut round, 1, 2_000), Ok(()));
    }
    assert_eq!(register(&mut round, 1, 2_000), Err(LotteryError::RateLimitExceeded));
    assert_eq!(round.entries.len(), 5);

    // Somebody else still gets in, and so does the same participant once
    // the window has moved on.
    assert_eq!(register(&mut round, 2, 2_000), Ok(()));
    assert_eq!(register(&mut round, 1, 2_000 + 3_601), Ok(()));
    assert_eq!(round.entries.len(), 7);
}

#[test]
fn the_rate_limit_looks_at_the_first_ten_entries() {
    let mut round = open_round(AllocationStrategy::Lottery, 3);
    for number in 0..10 {
        assert_eq!(register(&mut round, number, 2_000), Ok(()));
    }
    for _ in 0..7 {
        assert_eq!(register(&mut round, 77, 2_000), Ok(()));
    }
    assert_eq!(round.entries.len(), 17);
}

#[test]
fn randomness_waits_for_the_finalization_height() {
    let mut round = open_round(AllocationStrategy::Lottery, 3);
    assert_eq!(
        SoulboundTicketContract::generate_lottery_randomness(&mut round, &ledger_at(5_000, 199), 3),
        Err(LotteryError::FinalizationNotReached)
    );
    assert_eq!(round, open_round(AllocationStrategy::Lottery, 3));

    assert!(SoulboundTicketContract::generate_lottery_randomness(
        &mut round,
        &ledger_at(5_000, 200),
        3
    )
    .is_ok());
}

#[test]
fn an_oversized_batch_is_turned_down() {
    let mut round = open_round(AllocationStrategy::Lottery, 3);
    assert_eq!(
        SoulboundTicketContract::generate_lottery_randomness(
            &mut round,
            &ledger_at(5_000, 200),
            MAX_BATCH_SIZE + 1
        ),
        Err(LotteryError::BatchTooLarge)
    );
    assert_eq!(round.phase, RoundPhase::Open);
    // Too early is reported before too large.
    assert_eq!(
        SoulboundTicketContract::generate_lottery_randomness(
            &mut round,
            &ledger_at(5_000, 199),
            u32::MAX
        ),
        Err(LotteryError::FinalizationNotReached)
    );
}

#[test]
fn randomness_is_derived_from_the_ledgers_entropy() {
    let mut round = open_round(AllocationStrategy::Lottery, 3);
    let ledger = ledger_at(5_000, 205);
    let outputs =
        SoulboundTicketContract::generate_lottery_randomness(&mut round, &ledger, 4).unwrap();

    let entropy = EntropyManager::generate_multi_source_entropy(&ledger, 0);
    assert_eq!(outputs, VRFEngine::generate_batch_randomness(&ledger, 4, entropy));
    assert_eq!(round.randomness_hash, VRFEngine::hash_randomness_batch(&outputs));
    assert_eq!(round.phase, RoundPhase::Finalizing);
    assert!(round.results.is_empty());

    for output in &outputs {
        assert!(SoulboundTicketContract::verify_lottery_randomness(
            &output.proof,
            output.proof.input.clone(),
            205
        ));
        assert!(!SoulboundTicketContract::verify_lottery_randomness(
            &output.proof,
            output.proof.input.clone(),
            206
        ));
    }
}

#[test]
fn a_finalizing_round_takes_no_entries_and_no_second_batch() {
    let mut round = open_round(AllocationStrategy::Lottery, 3);
    register(&mut round, 1, 2_000).unwrap();
    SoulboundTicketContract::generate_lottery_randomness(&mut round, &ledger_at(5_000, 200), 3)
        .unwrap();
    let frozen = round.clone();

    assert_eq!(register(&mut round, 2, 5_000), Err(LotteryError::RoundNotOpen));
    assert_eq!(
        SoulboundTicketContract::generate_lottery_randomness(&mut round, &ledger_at(5_001, 201), 3),
        Err(LotteryError::RoundNotOpen)
    );
    assert_eq!(round, frozen);
}

#[test]
fn the_whitelist_is_settled_while_the_round_is_open() {
    let listed = vec![WhitelistEntry {
        address: person(100),
        weight: 2,
        allocation_limit: 1,
        allocated: 0,
    }];
    let mut round = open_round(AllocationStrategy::Whitelist, 3);
    assert_eq!(SoulboundTicketContract::set_lottery_whitelist(&mut round, listed.clone()), Ok(()));
    assert_eq!(round.whitelist, listed);
    assert_eq!(SoulboundTicketContract::set_lottery_whitelist(&mut round, Vec::new()), Ok(()));
    assert!(round.whitelist.is_empty());
    SoulboundTicketContract::set_lottery_whitelist(&mut round, listed.clone()).unwrap();

    SoulboundTicketContract::generate_lottery_randomness(&mut round, &ledger_at(5_000, 200), 1)
        .unwrap();
    assert_eq!(
        SoulboundTicketContract::set_lottery_whitelist(&mut round, Vec::new()),
        Err(LotteryError::RoundNotOpen)
    );
    assert_eq!(round.whitelist, listed);
}

#[test]
fn a_whitelist_beyond_a_limit_is_turned_down() {
    let entry = |allocation_limit: u32, allocated: u32| WhitelistEntry {
        address: person(100),
        weight: 1,
        allocation_limit,
        allocated,
    };
    let mut round = open_round(AllocationStrategy::Whitelist, 3);
    assert_eq!(
        SoulboundTicketContract::set_lottery_whitelist(
            &mut round,
            vec![entry(0, 9), entry(3, 3), entry(3, 4)]
        ),
        Err(LotteryError::WhitelistOverLimit)
    );
    assert!(round.whitelist.is_empty());
    assert_eq!(
        SoulboundTicketContract::set_lottery_whitelist(
            &mut round,
            vec![entry(0, 9), entry(3, 3), entry(0, u32::MAX)]
        ),
        Ok(())
    );
    assert_eq!(round.whitelist.len(), 3);
}

#[test]
fn allocation_needs_randomness_first() {
    let mut round = open_round(AllocationStrategy::FCFS, 3);
    register(&mut round, 1, 2_000).unwrap();
    assert_eq!(
        SoulboundTicketContract::execute_lottery_allocation(
            &mut round,
            &ledger_at(5_000, 200),
            vec![1, 2, 3]
        ),
        Err(LotteryError::RandomnessNotGenerated)
    );
    assert_eq!(round.phase, RoundPhase::Open);
    assert!(round.results.is_empty());
    assert_eq!(SoulboundTicketContract::get_allocation_fairness(&round), 0);
    assert!(SoulboundTicketContract::get_lottery_winners(&round).is_empty());
}

#[test]
fn a_round_is_allocated_once() {
    let mut round = open_round(AllocationStrategy::Lottery, 2);
    for number in 0..5 {
        register(&mut round, number, 2_000).unwrap();
    }
    let ledger = ledger_at(5_000, 200);
    SoulboundTicketContract::generate_lottery_randomness(&mut round, &ledger, 2).unwrap();
    assert_eq!(SoulboundTicketContract::get_allocation_fairness(&round), 0);

    assert_eq!(
        SoulboundTicketContract::execute_lottery_allocation(&mut round, &ledger, vec![7, 7, 7]),
        Ok(())
    );
    assert_eq!(round.phase, RoundPhase::Finalized);
    assert_eq!(round.allocated_count, 2);
    assert_eq!(winners_of(&round), vec![person(2), person(4)]);
    assert_eq!(SoulboundTicketContract::get_allocation_fairness(&round), 100);

    let published = round.clone();
    assert_eq!(
        SoulboundTicketContract::execute_lottery_allocation(&mut round, &ledger, vec![1, 1, 1]),
        Err(LotteryError::AlreadyFinalized)
    );
    assert_eq!(register(&mut round, 9, 5_000), Err(LotteryError::RoundNotOpen));
    assert_eq!(
        SoulboundTicketContract::generate_lottery_randomness(&mut round, &ledger, 2),
        Err(LotteryError::RoundNotOpen)
    );
    assert_eq!(round, published);
}

/// Runs a round of the given strategy over five entries, registered at
/// times 2000, 2100, ..., and a whitelist of three.
fn finished_round(strategy: AllocationStrategy, randomness: Vec<u128>) -> LotteryRound {
    let mut round = open_round(strategy, 3);
    for number in 0..5u32 {
        register(&mut round, number, 2_000 + 100 * number as u64).unwrap();
    }
    let whitelist = vec![
        WhitelistEntry { address: person(100), weight: 2, allocation_limit: 1, allocated: 1 },
        WhitelistEntry { address: person(101), weight: 3, allocation_limit: 2, allocated: 1 },
        WhitelistEntry { address: person(102), weight: 4, allocation_limit: 0, allocated: 0 },
    ];
    SoulboundTicketContract::set_lottery_whitelist(&mut round, whitelist).unwrap();
    let ledger = ledger_at(2_400, 200);
    SoulboundTicketContract::generate_lottery_randomness(&mut round, &ledger, 3).unwrap();
    SoulboundTicketContract::execute_lottery_allocation(&mut round, &ledger, randomness).unwrap();
    round
}

#[test]
fn every_strategy_is_dispatched_to_its_engine() {
    let randomness = vec![3u128, 2, 2];
    let ledger = ledger_at(2_400, 200);

    let fcfs = finished_round(AllocationStrategy::FCFS, randomness.clone());
    assert_eq!(fcfs.results, AllocationEngine::allocate_fcfs(&fcfs.entries, 3));
    assert_eq!(winners_of(&fcfs), vec![person(0), person(1), person(2)]);

    let lottery = finished_round(AllocationStrategy::Lottery, randomness.clone());
    assert_eq!(
        lottery.results,
        AllocationEngine::allocate_lottery(&lottery.entries, &randomness, 3)
    );
    assert_eq!(winners_of(&lottery), vec![person(3), person(2), person(4)]);

    let weighted = finished_round(AllocationStrategy::TimeWeighted, randomness.clone());
    assert_eq!(
        weighted.results,
        AllocationEngine::allocate_time_weighted(&ledger, &weighted.entries, &randomness, 3)
    );

    let whitelist = finished_round(AllocationStrategy::Whitelist, randomness.clone());
    assert_eq!(winners_of(&whitelist), vec![person(101), person(102)]);
    assert_eq!(whitelist.allocated_count, 2);

    let hybrid = finished_round(AllocationStrategy::HybridWhitelistLottery, randomness.clone());
    assert_eq!(winners_of(&hybrid), vec![person(101), person(102), person(3)]);
    assert_eq!(
        hybrid.results.iter().map(|result| result.allocation_index).collect::<Vec<u32>>(),
        vec![0, 1, 2]
    );
}

#[test]
fn whitelist_strategies_book_their_allocations() {
    let allocated = |round: &LotteryRound| -> Vec<u32> {
        round.whitelist.iter().map(|entry| entry.allocated).collect()
    };
    assert_eq!(allocated(&finished_round(AllocationStrategy::Whitelist, vec![1])), vec![1, 2, 1]);
    assert_eq!(
        allocated(&finished_round(AllocationStrategy::HybridWhitelistLottery, vec![1])),
        vec![1, 2, 1]
    );
    assert_eq!(allocated(&finished_round(AllocationStrategy::Lottery, vec![1])), vec![1, 1, 0]);
    assert_eq!(allocated(&finished_round(AllocationStrategy::FCFS, vec![1])), vec![1, 1, 0]);
}

#[test]
fn results_never_exceed_the_allocations_of_the_round() {
    for strategy in [
        AllocationStrategy::FCFS,
        AllocationStrategy::Lottery,
        AllocationStrategy::Whitelist,
        AllocationStrategy::HybridWhitelistLottery,
        AllocationStrategy::TimeWeighted,
    ] {
        let round = finished_round(strategy, vec![11, 22, 33, 44, 55, 66]);
        assert!(round.results.len() <= 3);
        assert_eq!(round.allocated_count as usize, round.results.len());
        assert_eq!(SoulboundTicketContract::get_lottery_winners(&round), round.results);
    }
}

#[test]
fn fairness_of_a_finished_round_counts_its_entries() {
    let round = finished_round(AllocationStrategy::FCFS, Vec::new());
    assert_eq!(
        SoulboundTicketContract::get_allocation_fairness(&round),
        AllocationEngine::compute_fairness_score(&round.results, 5)
    );
    assert_eq!(SoulboundTicketContract::get_allocation_fairness(&round), 100);

    // A finished round without winners is vacuously fair.
    let empty = finished_round(AllocationStrategy::Lottery, Vec::new());
    assert!(empty.results.is_empty());
    assert_eq!(SoulboundTicketContract::get_allocation_fairness(&empty), 100);
}

#[test]
fn twenty_participants_ten_winners_end_to_end() {
    let mut round = open_round(AllocationStrategy::Lottery, 10);
    round.anti_sniping.max_entries_per_address = 1;
    for number in 0..20 {
        assert_eq!(register(&mut round, number, 2_000), Ok(()));
    }

    let ledger = ledger_at(9_000, 200);
    let batch =
        SoulboundTicketContract::generate_lottery_randomness(&mut round, &ledger, 10).unwrap();
    assert_eq!(batch.len(), 10);
    let digest = VRFEngine::hash_randomness_batch(&batch);
    assert_eq!(digest, VRFEngine::hash_randomness_batch(&batch));
    assert_eq!(digest, round.randomness_hash);

    let values: Vec<u128> = batch.iter().map(|output| output.value).collect();
    SoulboundTicketContract::execute_lottery_allocation(&mut round, &ledger, values).unwrap();

    let results = SoulboundTicketContract::get_lottery_winners(&round);
    assert_eq!(results.len(), 10);
    for (slot, result) in results.iter().enumerate() {
        assert_eq!(result.allocation_index, slot as u32);
        assert_eq!(result.randomness_value, batch[slot].value);
    }
    let winners = winners_of(&round);
    for first in 0..winners.len() {
        for second in (first + 1)..winners.len() {
            assert_ne!(winners[first], winners[second]);
        }
    }
    assert_eq!(SoulboundTicketContract::get_allocation_fairness(&round), 100);
}

#[test]
fn fixed_seed_batch_feeds_a_lottery_of_ten() {
    let entries: Vec<LotteryEntry> = (0..20u32)
        .map(|number| LotteryEntry {
            participant: person(number),
            entry_time: 2_000,
            nonce: number,
            commitment_hash: None,
        })
        .collect();
    let ledger = ledger_at(1_700_000_000, 1234);
    let batch = VRFEngine::generate_batch_randomness(&ledger, 10, b"seed-bytes".to_vec());
    let values: Vec<u128> = batch.iter().map(|output| output.value).collect();

    let results = AllocationEngine::allocate_lottery(&entries, &values, 10);
    assert_eq!(results.len(), 10);
    let mut slots: Vec<u32> = results.iter().map(|result| result.allocation_index).collect();
    assert_eq!(slots, (0..10).collect::<Vec<u32>>());
    slots.dedup();
    assert_eq!(slots.len(), 10);
    for first in 0..results.len() {
        for second in (first + 1)..results.len() {
            assert_ne!(results[first].winner, results[second].winner);
        }
    }
    assert_eq!(
        VRFEngine::hash_randomness_batch(&batch),
        VRFEngine::hash_randomness_batch(
            &VRFEngine::generate_batch_randomness(&ledger, 10, b"seed-bytes".to_vec())
        )
    );
}
