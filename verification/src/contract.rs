//! The round lifecycle: the five triggers of the state machine.
//!
//! Two triggers are user-facing: casting a vote and starting the count. The
//! other three are callbacks the engine delivers in causal order once a count
//! was started: computation complete, variables opened, attestation
//! complete. Each handler validates its preconditions against the engine
//! state it is given, then either commits its whole effect and returns the
//! requests for the engine, or changes nothing and reports why.

use vstd::prelude::*;

use crate::codec::result_be_bytes;
use crate::codec::serialize_result_as_big_endian;
use crate::codec::u32_from_le_bytes;
use crate::evm::format_attestation_proof;
use crate::evm::proof_chars;
use crate::evm::valid_signatures;
use crate::find::first_match_index;
use crate::find::lemma_first_match_found;
use crate::find::lemma_first_match_index_properties;
use crate::find::lemma_first_match_none;
use crate::state::Address;
use crate::state::AttestationId;
use crate::state::CalculationStatus;
use crate::state::ContractState;
use crate::state::DataAttestation;
use crate::state::SecretVarId;
use crate::state::SecretVarMetadata;
use crate::state::SecretVarType;
use crate::state::SecretVariable;
use crate::state::VoteError;
use crate::state::VoteResult;
use crate::state::ZkInputDef;
use crate::state::ZkState;
use crate::state::ZkStateChange;
use crate::state::count_vote_vars;
use crate::state::has_vote_from;
use crate::state::may_cast_vote;
use crate::state::state_awaiting_proof;
use crate::state::state_between_rounds;

verus! {

/// Set up the open state for the first round: round 1, empty history.
pub fn initialize() -> (state: ContractState)
    ensures
        state.current_vote_id == 1,
        state.vote_results@ == Seq::<VoteResult>::empty(),
        state_between_rounds(state),
{
    ContractState { current_vote_id: 1, vote_results: Vec::new() }
}

/// Whether some variable in the list carries a vote from the given identity.
fn holds_vote_from(vars: &Vec<SecretVariable>, sender: Address) -> (found: bool)
    ensures
        found == has_vote_from(vars@, sender),
{
    for i in 0..vars.len()
        invariant
            forall|j: int| 0 <= j < i ==> (#[trigger] vars@[j]).owner != Some(sender),
    {
        match &vars[i].owner {
            Some(owner) => {
                if *owner == sender {
                    assert(vars@[i as int].owner == Some(sender));
                    return true;
                }
            },
            None => {},
        }
    }
    false
}

/// Admit or reject a new secret vote from `sender`.
///
/// The vote is admitted only while the engine is idle and neither the
/// confirmed nor the still-pending variables hold a vote from the same
/// identity; the duplicate check runs against the engine's live set, never a
/// cached count. An admitted vote becomes an input definition for one new
/// secret variable tagged as a vote, a single bit wide. Rejection changes
/// nothing: a phase mismatch is reported before a duplicate vote.
pub fn cast_vote(sender: Address, zk_state: &ZkState) -> (r: Result<ZkInputDef, VoteError>)
    ensures
        r is Ok <==> may_cast_vote(*zk_state, sender),
        match r {
            Ok(input_def) => {
                &&& input_def.seal == false
                &&& input_def.metadata.variable_type == SecretVarType::Vote
                &&& input_def.expected_bit_lengths@ == seq![1u32]
            },
            Err(e) => if zk_state.calculation_state != CalculationStatus::Waiting {
                e == VoteError::PhaseError
            } else {
                e == VoteError::DuplicateVoterError
            },
        },
{
    if zk_state.calculation_state != CalculationStatus::Waiting {
        return Err(VoteError::PhaseError);
    }
    if holds_vote_from(&zk_state.secret_variables, sender) || holds_vote_from(
        &zk_state.pending_inputs,
        sender,
    ) {
        return Err(VoteError::DuplicateVoterError);
    }
    let mut expected_bit_lengths: Vec<u32> = Vec::new();
    expected_bit_lengths.push(1);
    assert(expected_bit_lengths@ =~= seq![1u32]);
    Ok(
        ZkInputDef {
            seal: false,
            metadata: SecretVarMetadata { variable_type: SecretVarType::Vote },
            expected_bit_lengths,
        },
    )
}

/// An identity with a vote already pending or confirmed is never admitted a
/// second time within the round, whatever else happened in between.
pub proof fn lemma_duplicate_vote_never_admissible(zk_state: ZkState, sender: Address)
    requires
        has_vote_from(zk_state.secret_variables@, sender) || has_vote_from(
            zk_state.pending_inputs@,
            sender,
        ),
    ensures
        !may_cast_vote(zk_state, sender),
{
}

/// Request that the engine start counting the round's votes.
///
/// Anyone may trigger the count; it is a pure liveness trigger. It is
/// accepted only while the engine is idle — while a computation runs or its
/// output is still being handled the call is rejected and nothing changes,
/// so no duplicate computation is ever requested. The request declares the
/// metadata of the single output variable: the counted yes votes.
pub fn start_vote_counting(zk_state: &ZkState) -> (r: Result<ZkStateChange, VoteError>)
    ensures
        r is Ok <==> zk_state.calculation_state == CalculationStatus::Waiting,
        match r {
            Ok(change) => change matches ZkStateChange::StartComputation { output_metadata }
                && output_metadata.variable_type == SecretVarType::CountedYesVotes,
            Err(e) => e == VoteError::PhaseError,
        },
{
    if zk_state.calculation_state != CalculationStatus::Waiting {
        return Err(VoteError::PhaseError);
    }
    Ok(
        ZkStateChange::StartComputation {
            output_metadata: SecretVarMetadata { variable_type: SecretVarType::CountedYesVotes },
        },
    )
}

/// Handle the computation-complete callback: request that the single output
/// variable — the counted yes votes — be revealed to all parties.
///
/// The engine reports exactly one output variable for the counting
/// computation; any other number is an engine-contract violation and the
/// transition is aborted.
pub fn open_yes_count_variable(output_variables: Vec<SecretVarId>) -> (r: Result<
    ZkStateChange,
    VoteError,
>)
    ensures
        r is Ok <==> output_variables@.len() == 1,
        match r {
            Ok(change) => change matches ZkStateChange::OpenVariables { variables } && variables@
                == output_variables@,
            Err(e) => e == VoteError::EngineContractViolation,
        },
{
    if output_variables.len() != 1 {
        return Err(VoteError::EngineContractViolation);
    }
    Ok(ZkStateChange::OpenVariables { variables: output_variables })
}

/// Predicate for the secret variable carrying a given handle.
pub open spec fn var_has_id(variable_id: SecretVarId) -> spec_fn(SecretVariable) -> bool {
    |v: SecretVariable| v.variable_id == variable_id
}

/// The first variable in the list carrying the given handle, if any.
pub open spec fn found_variable(vars: Seq<SecretVariable>, variable_id: SecretVarId) -> Option<
    SecretVariable,
> {
    match first_match_index(vars, var_has_id(variable_id)) {
        Some(i) => Some(vars[i]),
        None => None,
    }
}

/// The declassified tally carried by the variable with the given handle: its
/// plaintext read as a little-endian 32-bit unsigned integer. Nothing is
/// read when the variable is missing, still secret, or not 4 bytes wide.
pub open spec fn opened_tally(vars: Seq<SecretVariable>, variable_id: SecretVarId) -> Option<u32> {
    match found_variable(vars, variable_id) {
        Some(v) => match v.data {
            Some(d) => if d@.len() == 4 {
                Some(u32_from_le_bytes(d@))
            } else {
                None
            },
            None => None,
        },
        None => None,
    }
}

fn get_variable<'a>(zk_state: &'a ZkState, variable_id: SecretVarId) -> (r: Option<
    &'a SecretVariable,
>)
    ensures
        match r {
            Some(v) => found_variable(zk_state.secret_variables@, variable_id) == Some(*v),
            None => found_variable(zk_state.secret_variables@, variable_id) is None,
        },
{
    for i in 0..zk_state.secret_variables.len()
        invariant
            forall|j: int|
                0 <= j < i ==> (#[trigger] zk_state.secret_variables@[j]).variable_id
                    != variable_id,
    {
        if zk_state.secret_variables[i].variable_id == variable_id {
            proof {
                lemma_first_match_found(
                    zk_state.secret_variables@,
                    var_has_id(variable_id),
                    i as int,
                );
            }
            return Some(&zk_state.secret_variables[i]);
        }
    }
    proof {
        lemma_first_match_none(zk_state.secret_variables@, var_has_id(variable_id));
    }
    None
}

/// Read the declassified value of the variable with the given handle as a
/// little-endian 32-bit unsigned integer; anything else the engine handed
/// over is an engine-contract violation.
pub fn read_variable_u32_le(zk_state: &ZkState, variable_id: SecretVarId) -> (r: Result<
    u32,
    VoteError,
>)
    ensures
        match r {
            Ok(x) => opened_tally(zk_state.secret_variables@, variable_id) == Some(x),
            Err(e) => {
                &&& opened_tally(zk_state.secret_variables@, variable_id) is None
                &&& e == VoteError::EngineContractViolation
            },
        },
{
    let variable = match get_variable(zk_state, variable_id) {
        Some(v) => v,
        None => {
            return Err(VoteError::EngineContractViolation);
        },
    };
    let data = match &variable.data {
        Some(d) => d,
        None => {
            return Err(VoteError::EngineContractViolation);
        },
    };
    if data.len() != 4 {
        return Err(VoteError::EngineContractViolation);
    }
    Ok((data[0] as u32) | ((data[1] as u32) << 8) | ((data[2] as u32) << 16) | ((data[3] as u32)
        << 24))
}

/// How many of the listed variables are votes.
fn count_vote_variables(vars: &Vec<SecretVariable>) -> (count: usize)
    ensures
        count == count_vote_vars(vars@),
{
    let mut count: usize = 0;
    for i in 0..vars.len()
        invariant
            count <= i,
            count == count_vote_vars(vars@.take(i as int)),
    {
        proof {
            assert(vars@.take(i + 1).drop_last() =~= vars@.take(i as int));
        }
        if vars[i].metadata.variable_type == SecretVarType::Vote {
            count = count + 1;
        }
    }
    proof {
        assert(vars@.take(vars@.len() as int) =~= vars@);
    }
    count
}

/// The result record the variables-opened callback must build, if the engine
/// kept its contract: the declassified count of yes votes, the remaining
/// votes counted as against, the current round's id, and no proof yet.
pub open spec fn tally_result(
    state: ContractState,
    zk_state: ZkState,
    variable_id: SecretVarId,
) -> Option<VoteResult> {
    let total = count_vote_vars(zk_state.secret_variables@);
    match opened_tally(zk_state.secret_variables@, variable_id) {
        Some(votes_for) => if votes_for <= total && total <= u32::MAX {
            Some(
                VoteResult {
                    vote_id: state.current_vote_id,
                    votes_for,
                    votes_against: (total - votes_for) as u32,
                    proof: None,
                },
            )
        } else {
            None
        },
        None => None,
    }
}

/// Build the round's result from the declassified count of yes votes.
///
/// The count of against votes is derived: every admitted vote that is not a
/// yes is a no. A reported count above the number of admitted votes is an
/// engine-contract violation and aborts the transition.
pub fn determine_result(
    state: &ContractState,
    zk_state: &ZkState,
    computation_result_variable_id: SecretVarId,
) -> (r: Result<VoteResult, VoteError>)
    requires
        count_vote_vars(zk_state.secret_variables@) <= u32::MAX,
    ensures
        match r {
            Ok(result) => {
                &&& tally_result(*state, *zk_state, computation_result_variable_id) == Some(result)
                &&& result.votes_for + result.votes_against == count_vote_vars(
                    zk_state.secret_variables@,
                )
            },
            Err(e) => {
                &&& tally_result(*state, *zk_state, computation_result_variable_id) is None
                &&& e == VoteError::EngineContractViolation
            },
        },
{
    let votes_for = match read_variable_u32_le(zk_state, computation_result_variable_id) {
        Ok(x) => x,
        Err(e) => {
            return Err(e);
        },
    };
    let total_votes = count_vote_variables(&zk_state.secret_variables) as u32;
    if votes_for > total_votes {
        return Err(VoteError::EngineContractViolation);
    }
    let votes_against = total_votes - votes_for;
    Ok(VoteResult { vote_id: state.current_vote_id, votes_for, votes_against, proof: None })
}

/// Every result the variables-opened callback can build partitions the
/// round's admitted votes: the for and against counts sum to the number of
/// vote variables the engine holds.
pub proof fn lemma_result_partitions_votes(
    state: ContractState,
    zk_state: ZkState,
    variable_id: SecretVarId,
    result: VoteResult,
)
    requires
        tally_result(state, zk_state, variable_id) == Some(result),
    ensures
        result.votes_for + result.votes_against == count_vote_vars(zk_state.secret_variables@),
{
}

/// Handle the variables-opened callback: build the round's result, append it
/// to the history, and request attestation over its big-endian
/// serialization.
///
/// Exactly one variable — the tally — is expected to have been opened; on
/// any engine-contract violation the state is left unchanged.
pub fn build_and_attest_voting_result(
    state: &mut ContractState,
    zk_state: &ZkState,
    opened_variables: &Vec<SecretVarId>,
) -> (r: Result<ZkStateChange, VoteError>)
    requires
        count_vote_vars(zk_state.secret_variables@) <= u32::MAX,
    ensures
        match r {
            Ok(change) => {
                &&& opened_variables@.len() == 1
                &&& tally_result(*old(state), *zk_state, opened_variables@[0]) matches Some(result)
                    && {
                    &&& final(state).current_vote_id == old(state).current_vote_id
                    &&& final(state).vote_results@ == old(state).vote_results@.push(result)
                    &&& change matches ZkStateChange::Attest { data_to_attest } && data_to_attest@
                        == result_be_bytes(result)
                }
            },
            Err(e) => {
                &&& *final(state) == *old(state)
                &&& e == VoteError::EngineContractViolation
                &&& (opened_variables@.len() != 1 || tally_result(
                    *old(state),
                    *zk_state,
                    opened_variables@[0],
                ) is None)
            },
        },
        state_between_rounds(*old(state)) && r is Ok ==> state_awaiting_proof(*final(state)),
{
    if opened_variables.len() != 1 {
        return Err(VoteError::EngineContractViolation);
    }
    let computation_result_variable_id = opened_variables[0];
    let vote_result = match determine_result(state, zk_state, computation_result_variable_id) {
        Ok(result) => result,
        Err(e) => {
            return Err(e);
        },
    };
    let data_to_attest = serialize_result_as_big_endian(&vote_result);
    state.vote_results.push(vote_result);
    Ok(ZkStateChange::Attest { data_to_attest })
}

/// Predicate for the result record of a given round.
pub open spec fn result_has_vote_id(vote_id: u32) -> spec_fn(VoteResult) -> bool {
    |r: VoteResult| r.vote_id == vote_id
}

/// Predicate for the attestation carrying a given handle.
pub open spec fn attestation_has_id(attestation_id: AttestationId) -> spec_fn(
    DataAttestation,
) -> bool {
    |a: DataAttestation| a.attestation_id == attestation_id
}

/// The first attestation in the list carrying the given handle, if any.
pub open spec fn found_attestation(
    attestations: Seq<DataAttestation>,
    attestation_id: AttestationId,
) -> Option<DataAttestation> {
    match first_match_index(attestations, attestation_has_id(attestation_id)) {
        Some(i) => Some(attestations[i]),
        None => None,
    }
}

/// The handles of all secret variables the engine holds, in order.
pub open spec fn variable_ids(vars: Seq<SecretVariable>) -> Seq<SecretVarId> {
    vars.map_values(|v: SecretVariable| v.variable_id)
}

/// Every attestation the engine reports carries only recovery ids the
/// signing parties may produce.
pub open spec fn attestations_valid(attestations: Seq<DataAttestation>) -> bool {
    forall|i: int|
        0 <= i < attestations.len() ==> valid_signatures(
            (#[trigger] attestations[i]).signatures@,
        )
}

fn find_result_index(results: &Vec<VoteResult>, vote_id: u32) -> (r: Option<usize>)
    ensures
        match r {
            Some(i) => first_match_index(results@, result_has_vote_id(vote_id)) == Some(i as int),
            None => first_match_index(results@, result_has_vote_id(vote_id)) is None,
        },
{
    for i in 0..results.len()
        invariant
            forall|j: int| 0 <= j < i ==> (#[trigger] results@[j]).vote_id != vote_id,
    {
        if results[i].vote_id == vote_id {
            proof {
                lemma_first_match_found(results@, result_has_vote_id(vote_id), i as int);
            }
            return Some(i);
        }
    }
    proof {
        lemma_first_match_none(results@, result_has_vote_id(vote_id));
    }
    None
}

fn find_attestation<'a>(attestations: &'a Vec<DataAttestation>, attestation_id: AttestationId) -> (r:
    Option<&'a DataAttestation>)
    ensures
        match r {
            Some(a) => {
                &&& found_attestation(attestations@, attestation_id) == Some(*a)
                &&& exists|i: int|
                    0 <= i < attestations@.len() && #[trigger] attestations@[i] == *a
            },
            None => found_attestation(attestations@, attestation_id) is None,
        },
{
    for i in 0..attestations.len()
        invariant
            forall|j: int|
                0 <= j < i ==> (#[trigger] attestations@[j]).attestation_id != attestation_id,
    {
        if attestations[i].attestation_id == attestation_id {
            proof {
                lemma_first_match_found(attestations@, attestation_has_id(attestation_id), i as int);
            }
            return Some(&attestations[i]);
        }
    }
    proof {
        lemma_first_match_none(attestations@, attestation_has_id(attestation_id));
    }
    None
}

/// What a successful attestation-complete transition does, `pre` being the
/// open state before it and `post` the open state after it: the proof string
/// of the found attestation's signatures is stored on the result record of
/// the finished round (the first one carrying `pre.current_vote_id`, its
/// counts untouched), every other record is untouched, the round id grows by
/// exactly 1, and `change` requests deletion of every secret variable the
/// engine holds.
pub open spec fn round_finalized(
    pre: ContractState,
    post: ContractState,
    zk_state: ZkState,
    attestation_id: AttestationId,
    change: ZkStateChange,
) -> bool {
    first_match_index(pre.vote_results@, result_has_vote_id(pre.current_vote_id)) matches Some(i)
        && {
        &&& found_attestation(zk_state.data_attestations@, attestation_id) matches Some(attestation)
            && {
            &&& post.current_vote_id == pre.current_vote_id + 1
            &&& post.vote_results@.len() == pre.vote_results@.len()
            &&& (forall|j: int|
                0 <= j < pre.vote_results@.len() && j != i ==> post.vote_results@[j]
                    == pre.vote_results@[j])
            &&& post.vote_results@[i].vote_id == pre.vote_results@[i].vote_id
            &&& post.vote_results@[i].votes_for == pre.vote_results@[i].votes_for
            &&& post.vote_results@[i].votes_against == pre.vote_results@[i].votes_against
            &&& post.vote_results@[i].proof matches Some(p) && p@ == proof_chars(
                attestation.signatures@,
            )
            &&& change matches ZkStateChange::OutputComplete { variables_to_delete }
                && variables_to_delete@ == variable_ids(zk_state.secret_variables@)
        }
    }
}

/// Handle the attestation-complete callback: store the formatted proof on
/// the round's result, move to the next round, and request cleanup.
///
/// The proof string joins the attestation's signatures in engine order. As
/// one atomic transition the round id grows by exactly 1 and every secret
/// variable of the finished round is requested deleted, which also returns
/// the engine to its idle phase for the next round's votes. A missing result
/// record or an unknown attestation id is an engine-contract violation: the
/// state is left unchanged.
pub fn save_attestation_on_result_and_start_next_vote(
    state: &mut ContractState,
    zk_state: &ZkState,
    attestation_id: AttestationId,
) -> (r: Result<ZkStateChange, VoteError>)
    requires
        old(state).current_vote_id < u32::MAX,
        attestations_valid(zk_state.data_attestations@),
    ensures
        match r {
            Ok(change) => round_finalized(
                *old(state),
                *final(state),
                *zk_state,
                attestation_id,
                change,
            ),
            Err(e) => {
                &&& *final(state) == *old(state)
                &&& e == VoteError::EngineContractViolation
                &&& (first_match_index(
                    old(state).vote_results@,
                    result_has_vote_id(old(state).current_vote_id),
                ) is None || found_attestation(zk_state.data_attestations@, attestation_id)
                    is None)
            },
        },
        state_awaiting_proof(*old(state)) && r is Ok ==> state_between_rounds(*final(state))
            && final(state).current_vote_id == old(state).current_vote_id + 1,
{
    let mut variables_to_delete: Vec<SecretVarId> = Vec::new();
    let vars = &zk_state.secret_variables;
    for k in 0..vars.len()
        invariant
            variables_to_delete@ =~= variable_ids(vars@.take(k as int)),
    {
        variables_to_delete.push(vars[k].variable_id);
        proof {
            assert(variables_to_delete@ =~= variable_ids(vars@.take(k + 1)));
        }
    }
    proof {
        assert(vars@.take(vars@.len() as int) =~= vars@);
    }
    let result_index = match find_result_index(&state.vote_results, state.current_vote_id) {
        Some(i) => i,
        None => {
            return Err(VoteError::EngineContractViolation);
        },
    };
    proof {
        lemma_first_match_index_properties(
            state.vote_results@,
            result_has_vote_id(state.current_vote_id),
            result_index as int,
        );
    }
    let attestation = match find_attestation(&zk_state.data_attestations, attestation_id) {
        Some(a) => a,
        None => {
            return Err(VoteError::EngineContractViolation);
        },
    };
    proof {
        let i = choose|i: int|
            0 <= i < zk_state.data_attestations@.len() && #[trigger] zk_state.data_attestations@[i]
                == *attestation;
        assert(valid_signatures(zk_state.data_attestations@[i].signatures@));
    }
    let proof_of_result = format_attestation_proof(&attestation.signatures);
    let finished = &state.vote_results[result_index];
    let updated = VoteResult {
        vote_id: finished.vote_id,
        votes_for: finished.votes_for,
        votes_against: finished.votes_against,
        proof: Some(proof_of_result),
    };
    state.vote_results[result_index] = updated;
    state.current_vote_id = state.current_vote_id + 1;
    Ok(ZkStateChange::OutputComplete { variables_to_delete })
}

} // verus!
