use private_voting::contract::build_and_attest_voting_result;
use private_voting::contract::cast_vote;
use private_voting::contract::determine_result;
use private_voting::contract::initialize;
use private_voting::contract::open_yes_count_variable;
use private_voting::contract::read_variable_u32_le;
use private_voting::contract::save_attestation_on_result_and_start_next_vote;
use private_voting::contract::start_vote_counting;
use private_voting::state::Address;
use private_voting::state::AttestationId;
use private_voting::state::CalculationStatus;
use private_voting::state::DataAttestation;
use private_voting::state::SecretVarId;
use private_voting::state::SecretVarMetadata;
use private_voting::state::SecretVarType;
use private_voting::state::SecretVariable;
use private_voting::state::Signature;
use private_voting::state::VoteError;
use private_voting::state::ZkState;
use private_voting::state::ZkStateChange;

fn empty_zk_state(calculation_state: CalculationStatus) -> ZkState {
    ZkState {
        calculation_state,
        pending_inputs: vec![],
        secret_variables: vec![],
        data_attestations: vec![],
    }
}

fn vote_variable(raw_id: u32, owner_id: u64) -> SecretVariable {
    SecretVariable {
        variable_id: SecretVarId { raw_id },
        owner: Some(Address { id: owner_id }),
        metadata: SecretVarMetadata { variable_type: SecretVarType::Vote },
        data: None,
    }
}

fn tally_variable(raw_id: u32, data: Option<Vec<u8>>) -> SecretVariable {
    SecretVariable {
        variable_id: SecretVarId { raw_id },
        owner: None,
        metadata: SecretVarMetadata { variable_type: SecretVarType::CountedYesVotes },
        data,
    }
}

#[test]
fn initialize_starts_at_round_one_with_empty_history() {
    let state = initialize();
    assert_eq!(state.current_vote_id, 1);
    assert!(state.vote_results.is_empty());
}

#[test]
fn cast_vote_admitted_when_idle() {
    let zk_state = empty_zk_state(CalculationStatus::Waiting);
    let input_def = cast_vote(Address { id: 7 }, &zk_state).unwrap();
    assert!(!input_def.seal);
    assert_eq!(input_def.metadata.variable_type, SecretVarType::Vote);
    assert_eq!(input_def.expected_bit_lengths, vec![1]);
}

#[test]
fn cast_vote_rejected_outside_idle_phase() {
    let running = empty_zk_state(CalculationStatus::Calculating);
    assert_eq!(cast_vote(Address { id: 7 }, &running).unwrap_err(), VoteError::PhaseError);
    let output = empty_zk_state(CalculationStatus::Output);
    assert_eq!(cast_vote(Address { id: 7 }, &output).unwrap_err(), VoteError::PhaseError);
}

#[test]
fn cast_vote_rejected_for_duplicate_confirmed_vote() {
    let mut zk_state = empty_zk_state(CalculationStatus::Waiting);
    zk_state.secret_variables.push(vote_variable(1, 7));
    let r = cast_vote(Address { id: 7 }, &zk_state);
    assert_eq!(r.unwrap_err(), VoteError::DuplicateVoterError);
    // A different identity is still admitted.
    assert!(cast_vote(Address { id: 8 }, &zk_state).is_ok());
}

#[test]
fn cast_vote_rejected_while_first_vote_is_pending() {
    let mut zk_state = empty_zk_state(CalculationStatus::Waiting);
    zk_state.pending_inputs.push(vote_variable(1, 7));
    let r = cast_vote(Address { id: 7 }, &zk_state);
    assert_eq!(r.unwrap_err(), VoteError::DuplicateVoterError);
}

#[test]
fn start_counting_requests_counted_yes_votes() {
    let zk_state = empty_zk_state(CalculationStatus::Waiting);
    match start_vote_counting(&zk_state).unwrap() {
        ZkStateChange::StartComputation { output_metadata } => {
            assert_eq!(output_metadata.variable_type, SecretVarType::CountedYesVotes);
        }
        _ => panic!("expected a computation request"),
    }
}

#[test]
fn start_counting_twice_rejects_second_call() {
    // First call while the engine is idle: accepted.
    let waiting = empty_zk_state(CalculationStatus::Waiting);
    assert!(start_vote_counting(&waiting).is_ok());
    // Second call while the engine reports Running: rejected, no duplicate
    // computation requested.
    let running = empty_zk_state(CalculationStatus::Calculating);
    assert_eq!(start_vote_counting(&running).unwrap_err(), VoteError::PhaseError);
}

#[test]
fn open_yes_count_opens_the_single_output_variable() {
    let output_variables = vec![SecretVarId { raw_id: 100 }];
    match open_yes_count_variable(output_variables).unwrap() {
        ZkStateChange::OpenVariables { variables } => {
            assert_eq!(variables, vec![SecretVarId { raw_id: 100 }]);
        }
        _ => panic!("expected an open request"),
    }
}

#[test]
fn open_yes_count_rejects_more_than_one_output() {
    let output_variables = vec![SecretVarId { raw_id: 100 }, SecretVarId { raw_id: 101 }];
    let r = open_yes_count_variable(output_variables);
    assert_eq!(r.unwrap_err(), VoteError::EngineContractViolation);
    assert_eq!(
        open_yes_count_variable(vec![]).unwrap_err(),
        VoteError::EngineContractViolation
    );
}

#[test]
fn read_variable_reads_little_endian() {
    let mut zk_state = empty_zk_state(CalculationStatus::Output);
    zk_state.secret_variables.push(tally_variable(100, Some(vec![2, 1, 0, 0])));
    let x = read_variable_u32_le(&zk_state, SecretVarId { raw_id: 100 }).unwrap();
    assert_eq!(x, 258);
}

#[test]
fn read_variable_rejects_missing_or_malformed_data() {
    let mut zk_state = empty_zk_state(CalculationStatus::Output);
    zk_state.secret_variables.push(tally_variable(100, None));
    zk_state.secret_variables.push(tally_variable(101, Some(vec![2, 0, 0])));
    let missing = read_variable_u32_le(&zk_state, SecretVarId { raw_id: 99 });
    assert_eq!(missing.unwrap_err(), VoteError::EngineContractViolation);
    let secret = read_variable_u32_le(&zk_state, SecretVarId { raw_id: 100 });
    assert_eq!(secret.unwrap_err(), VoteError::EngineContractViolation);
    let short = read_variable_u32_le(&zk_state, SecretVarId { raw_id: 101 });
    assert_eq!(short.unwrap_err(), VoteError::EngineContractViolation);
}

/// Six voters, bits 0,0,1,1,0,0: the engine reports a tally of 2, so the
/// result is 2 for and 4 against.
#[test]
fn determine_result_splits_six_votes() {
    let state = initialize();
    let mut zk_state = empty_zk_state(CalculationStatus::Output);
    for voter in 0..6u32 {
        zk_state.secret_variables.push(vote_variable(voter + 1, voter as u64 + 1));
    }
    zk_state.secret_variables.push(tally_variable(100, Some(vec![2, 0, 0, 0])));
    let result = determine_result(&state, &zk_state, SecretVarId { raw_id: 100 }).unwrap();
    assert_eq!(result.vote_id, 1);
    assert_eq!(result.votes_for, 2);
    assert_eq!(result.votes_against, 4);
    assert!(result.proof.is_none());
}

#[test]
fn determine_result_rejects_impossible_count() {
    let state = initialize();
    let mut zk_state = empty_zk_state(CalculationStatus::Output);
    zk_state.secret_variables.push(vote_variable(1, 1));
    zk_state.secret_variables.push(tally_variable(100, Some(vec![2, 0, 0, 0])));
    let r = determine_result(&state, &zk_state, SecretVarId { raw_id: 100 });
    assert_eq!(r.unwrap_err(), VoteError::EngineContractViolation);
}

#[test]
fn zero_votes_round_still_produces_a_result() {
    let state = initialize();
    let mut zk_state = empty_zk_state(CalculationStatus::Output);
    zk_state.secret_variables.push(tally_variable(100, Some(vec![0, 0, 0, 0])));
    let result = determine_result(&state, &zk_state, SecretVarId { raw_id: 100 }).unwrap();
    assert_eq!(result.votes_for, 0);
    assert_eq!(result.votes_against, 0);
}

#[test]
fn build_and_attest_appends_result_and_requests_attestation() {
    let mut state = initialize();
    let mut zk_state = empty_zk_state(CalculationStatus::Output);
    for voter in 0..6u32 {
        zk_state.secret_variables.push(vote_variable(voter + 1, voter as u64 + 1));
    }
    zk_state.secret_variables.push(tally_variable(100, Some(vec![2, 0, 0, 0])));
    let opened = vec![SecretVarId { raw_id: 100 }];
    match build_and_attest_voting_result(&mut state, &zk_state, &opened).unwrap() {
        ZkStateChange::Attest { data_to_attest } => {
            assert_eq!(data_to_attest, vec![0, 0, 0, 1, 0, 0, 0, 2, 0, 0, 0, 4]);
        }
        _ => panic!("expected an attestation request"),
    }
    assert_eq!(state.current_vote_id, 1);
    assert_eq!(state.vote_results.len(), 1);
    assert_eq!(state.vote_results[0].vote_id, 1);
    assert_eq!(state.vote_results[0].votes_for, 2);
    assert_eq!(state.vote_results[0].votes_against, 4);
    assert!(state.vote_results[0].proof.is_none());
}

#[test]
fn build_and_attest_leaves_state_unchanged_on_violation() {
    let mut state = initialize();
    let zk_state = empty_zk_state(CalculationStatus::Output);
    let opened = vec![SecretVarId { raw_id: 100 }];
    let r = build_and_attest_voting_result(&mut state, &zk_state, &opened);
    assert_eq!(r.unwrap_err(), VoteError::EngineContractViolation);
    assert_eq!(state.current_vote_id, 1);
    assert!(state.vote_results.is_empty());
}

/// Round 1 finalizes with a 2-signature attestation: signature 0 has
/// recovery id 0, so its rendering ends in 1b (0 + 27 = 0x1b); signature 1
/// has recovery id 1, ending in 1c. The round id moves to 2 and every
/// remaining secret variable is requested deleted.
#[test]
fn attestation_complete_finalizes_round_one() {
    let mut state = initialize();
    let mut zk_state = empty_zk_state(CalculationStatus::Output);
    for voter in 0..6u32 {
        zk_state.secret_variables.push(vote_variable(voter + 1, voter as u64 + 1));
    }
    zk_state.secret_variables.push(tally_variable(100, Some(vec![2, 0, 0, 0])));
    let opened = vec![SecretVarId { raw_id: 100 }];
    build_and_attest_voting_result(&mut state, &zk_state, &opened).unwrap();

    zk_state.data_attestations.push(DataAttestation {
        attestation_id: AttestationId { id: 1 },
        signatures: vec![
            Signature { recovery_id: 0, value_r: [0x11; 32], value_s: [0x22; 32] },
            Signature { recovery_id: 1, value_r: [0x33; 32], value_s: [0x44; 32] },
        ],
    });
    let change = save_attestation_on_result_and_start_next_vote(
        &mut state,
        &zk_state,
        AttestationId { id: 1 },
    )
    .unwrap();
    match change {
        ZkStateChange::OutputComplete { variables_to_delete } => {
            let expected: Vec<SecretVarId> =
                vec![1, 2, 3, 4, 5, 6, 100].into_iter().map(|raw_id| SecretVarId { raw_id }).collect();
            assert_eq!(variables_to_delete, expected);
        }
        _ => panic!("expected a cleanup request"),
    }
    assert_eq!(state.current_vote_id, 2);
    assert_eq!(state.vote_results.len(), 1);
    let expected_proof = format!(
        "[0x{}{}1b, 0x{}{}1c]",
        "11".repeat(32),
        "22".repeat(32),
        "33".repeat(32),
        "44".repeat(32)
    );
    assert_eq!(state.vote_results[0].proof.as_deref(), Some(expected_proof.as_str()));
    assert_eq!(state.vote_results[0].votes_for, 2);
    assert_eq!(state.vote_results[0].votes_against, 4);
}

#[test]
fn attestation_complete_rejects_unknown_attestation_or_missing_result() {
    // No result record for the current round.
    let mut state = initialize();
    let zk_state = empty_zk_state(CalculationStatus::Output);
    let r = save_attestation_on_result_and_start_next_vote(
        &mut state,
        &zk_state,
        AttestationId { id: 1 },
    );
    assert_eq!(r.unwrap_err(), VoteError::EngineContractViolation);
    assert_eq!(state.current_vote_id, 1);

    // A result exists but the attestation id is unknown.
    let mut zk_state = empty_zk_state(CalculationStatus::Output);
    zk_state.secret_variables.push(tally_variable(100, Some(vec![0, 0, 0, 0])));
    build_and_attest_voting_result(&mut state, &zk_state, &vec![SecretVarId { raw_id: 100 }])
        .unwrap();
    let r = save_attestation_on_result_and_start_next_vote(
        &mut state,
        &zk_state,
        AttestationId { id: 9 },
    );
    assert_eq!(r.unwrap_err(), VoteError::EngineContractViolation);
    assert_eq!(state.current_vote_id, 1);
    assert!(state.vote_results[0].proof.is_none());
}

/// Two full rounds: the round id grows by exactly 1 each time a round
/// finalizes and the history stays ordered by round id.
#[test]
fn round_ids_grow_by_one_per_finalized_round() {
    let mut state = initialize();
    for round in 1..=2u32 {
        let mut zk_state = empty_zk_state(CalculationStatus::Output);
        zk_state.secret_variables.push(vote_variable(1, 1));
        zk_state.secret_variables.push(tally_variable(100, Some(vec![1, 0, 0, 0])));
        zk_state.data_attestations.push(DataAttestation {
            attestation_id: AttestationId { id: round },
            signatures: vec![Signature {
                recovery_id: 0,
                value_r: [0; 32],
                value_s: [0; 32],
            }],
        });
        assert_eq!(state.current_vote_id, round);
        build_and_attest_voting_result(&mut state, &zk_state, &vec![SecretVarId { raw_id: 100 }])
            .unwrap();
        save_attestation_on_result_and_start_next_vote(
            &mut state,
            &zk_state,
            AttestationId { id: round },
        )
        .unwrap();
        assert_eq!(state.current_vote_id, round + 1);
    }
    assert_eq!(state.vote_results.len(), 2);
    assert_eq!(state.vote_results[0].vote_id, 1);
    assert_eq!(state.vote_results[1].vote_id, 2);
}
