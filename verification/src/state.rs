//! Data model of the round and of the engine state the handlers read.
//!
//! The secret-computation engine owns the secret variables; the contract only
//! reads the open metadata it reports: which variables exist, who contributed
//! them, whether they are votes or a computed tally, and — after
//! declassification — their plaintext bytes. Those reports are modeled here
//! as plain values, together with the open round state that is persisted
//! between triggers.

use vstd::prelude::*;

verus! {

/// Identity of a contributing party, as the ledger environment reports it.
#[derive(Clone, Copy, PartialEq, Eq, Structural, Debug)]
pub struct Address {
    pub id: u64,
}

/// Engine-assigned handle of a secret variable, unique per variable.
#[derive(Clone, Copy, PartialEq, Eq, Structural, Debug)]
pub struct SecretVarId {
    pub raw_id: u32,
}

/// Engine-assigned handle of a completed attestation.
#[derive(Clone, Copy, PartialEq, Eq, Structural, Debug)]
pub struct AttestationId {
    pub id: u32,
}

/// Semantic role of a secret variable: a voter-submitted vote bit, or the
/// tally the counting computation produced.
#[derive(Clone, Copy, PartialEq, Eq, Structural, Debug)]
pub enum SecretVarType {
    Vote,
    CountedYesVotes,
}

/// Metadata the contract attaches to each secret variable.
#[derive(Clone, Copy, PartialEq, Eq, Structural, Debug)]
pub struct SecretVarMetadata {
    pub variable_type: SecretVarType,
}

/// A secret variable as the engine reports it: its handle, the identity of
/// the contributing party (absent for computed variables), its role, and —
/// only once declassified — its plaintext bytes.
#[derive(Debug)]
pub struct SecretVariable {
    pub variable_id: SecretVarId,
    pub owner: Option<Address>,
    pub metadata: SecretVarMetadata,
    pub data: Option<Vec<u8>>,
}

/// Phase of the engine's computation, as it reports it. `Waiting` is the
/// idle phase in which votes are admitted and counting may start;
/// `Calculating` means a computation is running; `Output` means a computation
/// finished and its output is being declassified, attested or cleaned up.
#[derive(Clone, Copy, PartialEq, Eq, Structural, Debug)]
pub enum CalculationStatus {
    Waiting,
    Calculating,
    Output,
}

/// One per-party signature of an attestation: 32-byte r value, 32-byte s
/// value, and a recovery id the signing parties report as 0 or 1.
#[derive(Debug)]
pub struct Signature {
    pub recovery_id: u8,
    pub value_r: [u8; 32],
    pub value_s: [u8; 32],
}

/// A completed attestation the engine reports: its handle and the ordered
/// per-party signatures over the attested bytes.
#[derive(Debug)]
pub struct DataAttestation {
    pub attestation_id: AttestationId,
    pub signatures: Vec<Signature>,
}

/// The engine state a trigger runs against: the reported phase, the
/// confirmed and not-yet-confirmed secret variables, and the completed
/// attestations.
#[derive(Debug)]
pub struct ZkState {
    pub calculation_state: CalculationStatus,
    pub pending_inputs: Vec<SecretVariable>,
    pub secret_variables: Vec<SecretVariable>,
    pub data_attestations: Vec<DataAttestation>,
}

/// Definition of one new secret input: whether it is sealed, the metadata to
/// attach, and the bit width of each component of the input.
#[derive(Debug)]
pub struct ZkInputDef {
    pub seal: bool,
    pub metadata: SecretVarMetadata,
    pub expected_bit_lengths: Vec<u32>,
}

/// A request a handler returns for the engine to perform.
#[derive(Debug)]
pub enum ZkStateChange {
    /// Start the counting computation, declaring the metadata of the single
    /// output variable it will produce.
    StartComputation { output_metadata: SecretVarMetadata },
    /// Reveal the plaintext of the given variables to all parties.
    OpenVariables { variables: Vec<SecretVarId> },
    /// Request per-party signatures over the given bytes.
    Attest { data_to_attest: Vec<u8> },
    /// Delete the given variables and return the phase to `Waiting`.
    OutputComplete { variables_to_delete: Vec<SecretVarId> },
}

/// Result of one finished vote round. The proof field is absent until the
/// attestation over the serialized result completes, then set exactly once.
#[derive(Debug)]
pub struct VoteResult {
    pub vote_id: u32,
    pub votes_for: u32,
    pub votes_against: u32,
    pub proof: Option<String>,
}

/// The open, persisted state of the contract: the identifier of the round
/// currently accepting votes and the history of finished rounds.
#[derive(Debug)]
pub struct ContractState {
    pub current_vote_id: u32,
    pub vote_results: Vec<VoteResult>,
}

/// Why a trigger was rejected.
#[derive(Clone, Copy, PartialEq, Eq, Structural, Debug)]
pub enum VoteError {
    /// The action was invoked outside its required phase; nothing changed
    /// and the caller may retry once the phase changes.
    PhaseError,
    /// The same identity attempted a second vote within one round; nothing
    /// changed.
    DuplicateVoterError,
    /// The engine broke its contract (an impossible count, a missing or
    /// malformed variable, an unknown attestation); the triggering
    /// transition is aborted.
    EngineContractViolation,
}

/// Whether a secret variable is a voter-submitted vote.
pub open spec fn is_vote_var(v: SecretVariable) -> bool {
    v.metadata.variable_type == SecretVarType::Vote
}

/// How many of the given variables are voter-submitted votes.
pub open spec fn count_vote_vars(vars: Seq<SecretVariable>) -> nat
    decreases vars.len(),
{
    if vars.len() == 0 {
        0
    } else {
        count_vote_vars(vars.drop_last()) + if is_vote_var(vars.last()) {
            1nat
        } else {
            0nat
        }
    }
}

/// There are never more votes than variables.
pub proof fn lemma_count_vote_vars_le_len(vars: Seq<SecretVariable>)
    ensures
        count_vote_vars(vars) <= vars.len(),
    decreases vars.len(),
{
    if vars.len() > 0 {
        lemma_count_vote_vars_le_len(vars.drop_last());
    }
}

/// Whether some variable in the sequence was contributed by the given
/// identity.
pub open spec fn has_vote_from(vars: Seq<SecretVariable>, sender: Address) -> bool {
    exists|i: int| 0 <= i < vars.len() && vars[i].owner == Some(sender)
}

/// When a vote from the given identity is admissible: the engine is idle and
/// neither the confirmed nor the not-yet-confirmed variables hold a vote
/// from that identity.
pub open spec fn may_cast_vote(zk_state: ZkState, sender: Address) -> bool {
    &&& zk_state.calculation_state == CalculationStatus::Waiting
    &&& !has_vote_from(zk_state.secret_variables@, sender)
    &&& !has_vote_from(zk_state.pending_inputs@, sender)
}

/// The shape the result history always has: the result at position `i`
/// summarizes round `i + 1`, so the history is ordered by round id,
/// starts at 1, and has no gaps and no repeats.
pub open spec fn results_well_formed(results: Seq<VoteResult>) -> bool {
    forall|i: int| 0 <= i < results.len() ==> (#[trigger] results[i]).vote_id == i + 1
}

/// Invariant of the open state between rounds and up to the point a round's
/// result record is built: every finished round has its result, and
/// `current_vote_id` names the round now accepting votes.
pub open spec fn state_between_rounds(state: ContractState) -> bool {
    &&& results_well_formed(state.vote_results@)
    &&& state.current_vote_id == state.vote_results@.len() + 1
}

/// Invariant of the open state while the current round's result awaits its
/// attestation proof: the result record of `current_vote_id` is already
/// appended.
pub open spec fn state_awaiting_proof(state: ContractState) -> bool {
    &&& results_well_formed(state.vote_results@)
    &&& state.current_vote_id == state.vote_results@.len()
}

/// A well-formed history is ordered by round id ascending with no duplicate
/// ids and no gaps, starting at round 1.
pub proof fn lemma_results_ordered_and_gapless(results: Seq<VoteResult>)
    requires
        results_well_formed(results),
    ensures
        forall|i: int, j: int|
            0 <= i < j < results.len() ==> results[i].vote_id < results[j].vote_id,
        results.len() > 0 ==> results[0].vote_id == 1,
        forall|i: int|
            0 <= i && i + 1 < results.len() ==> (#[trigger] results[i + 1]).vote_id == results[
                i
            ].vote_id + 1,
{
}

} // verus!
