//! Assembly of an ordered chunk of trace records into a single witness.
//! The engine's capacity check and witness builder are outside collaborators;
//! the decisions between their calls — reject an empty chunk outright, stop
//! on a failed capacity check, only then build — are made here, as one step
//! function from an engine event to the next action.

use vstd::prelude::*;

verus! {

use crate::trace::TraceRecord;

/// One transaction inside an assembled witness, with its execution steps.
#[derive(Clone, Debug)]
pub struct WitnessTx {
    /// Identifiers of the transaction's execution steps, in order.
    pub steps: Vec<u64>,
}

/// The assembled structure the proving engine consumes; derived entirely
/// from one chunk of trace records, immutable once constructed.
#[derive(Clone, Debug)]
pub struct Witness {
    /// The distinct block contexts the chunk covers, by block number.
    pub block_contexts: Vec<u64>,
    /// The transactions of those blocks, in order.
    pub txs: Vec<WitnessTx>,
}

/// A failure while assembling a chunk into a witness.
#[derive(Clone, Debug)]
pub enum ChunkError {
    /// The chunk holds no record; an empty chunk has no well-defined witness
    /// and must never reach the proving engine.
    EmptyChunk,
    /// The engine's capacity check found the chunk too large to prove in a
    /// single circuit instance; the caller must split it and retry.
    CapacityExceeded(String),
    /// The engine could not assemble a witness from a chunk that had passed
    /// the capacity check; fatal for the chunk, never retried here.
    WitnessBuildError(String),
}

/// What has just happened on the engine side of the assembly.
pub enum AssemblyEvent {
    /// A chunk of trace records arrived for assembly.
    ChunkReceived(Vec<TraceRecord>),
    /// The capacity check returned: the (possibly adjusted) chunk it admitted,
    /// or the reason the chunk cannot be proven in one instance.
    CapacityChecked(Result<Vec<TraceRecord>, String>),
    /// The witness builder returned: the witness, or the failure it hit.
    WitnessBuilt(Result<Witness, String>),
}

/// What the driver of the assembly must do next.
pub enum AssemblyAction {
    /// Run the engine's capacity check on this chunk, which owns it
    /// exclusively for the duration of the check.
    CheckCapacity(Vec<TraceRecord>),
    /// Run the engine's witness builder on this admitted chunk.
    BuildWitness(Vec<TraceRecord>),
    /// Assembly is over with this outcome.
    Finish(Result<Witness, ChunkError>),
}

/// The assembly's decision relation: which action each event demands.
pub open spec fn spec_assembly_step(event: AssemblyEvent, action: AssemblyAction) -> bool {
    match event {
        AssemblyEvent::ChunkReceived(chunk) => if chunk@.len() == 0 {
            action matches AssemblyAction::Finish(r) && (r matches Err(ChunkError::EmptyChunk))
        } else {
            action matches AssemblyAction::CheckCapacity(c) && c@ == chunk@
        },
        AssemblyEvent::CapacityChecked(outcome) => match outcome {
            Ok(chunk) => action matches AssemblyAction::BuildWitness(c) && c@ == chunk@,
            Err(msg) => action matches AssemblyAction::Finish(r) && (r matches Err(
                ChunkError::CapacityExceeded(m),
            ) && m@ == msg@),
        },
        AssemblyEvent::WitnessBuilt(outcome) => match outcome {
            Ok(w) => action matches AssemblyAction::Finish(r) && (r matches Ok(w2) && w2 == w),
            Err(msg) => action matches AssemblyAction::Finish(r) && (r matches Err(
                ChunkError::WitnessBuildError(m),
            ) && m@ == msg@),
        },
    }
}

/// Decide the next assembly action for an engine event: an empty chunk is
/// rejected before any engine call; a chunk with records goes to the capacity
/// check; only an admitted chunk goes to the builder; every engine failure
/// ends the assembly with its typed error.
pub fn chunk_assembly_step(event: AssemblyEvent) -> (action: AssemblyAction)
    ensures
        spec_assembly_step(event, action),
{
    match event {
        AssemblyEvent::ChunkReceived(chunk) => {
            if chunk.len() == 0 {
                AssemblyAction::Finish(Err(ChunkError::EmptyChunk))
            } else {
                AssemblyAction::CheckCapacity(chunk)
            }
        },
        AssemblyEvent::CapacityChecked(outcome) => match outcome {
            Ok(chunk) => AssemblyAction::BuildWitness(chunk),
            Err(msg) => AssemblyAction::Finish(Err(ChunkError::CapacityExceeded(msg))),
        },
        AssemblyEvent::WitnessBuilt(outcome) => match outcome {
            Ok(w) => AssemblyAction::Finish(Ok(w)),
            Err(msg) => AssemblyAction::Finish(Err(ChunkError::WitnessBuildError(msg))),
        },
    }
}

/// Law: an empty chunk short-circuits — the assembly finishes with
/// `EmptyChunk` at once, invoking neither the capacity check nor the builder.
pub proof fn lemma_empty_chunk_short_circuits(chunk: Vec<TraceRecord>, action: AssemblyAction)
    requires
        spec_assembly_step(AssemblyEvent::ChunkReceived(chunk), action),
        chunk@.len() == 0,
    ensures
        action matches AssemblyAction::Finish(r) && (r matches Err(ChunkError::EmptyChunk)),
{
}

/// Law: the witness builder runs only on a chunk the capacity check admitted;
/// in particular, a failed capacity check never reaches the builder.
pub proof fn lemma_build_only_after_capacity(event: AssemblyEvent, action: AssemblyAction)
    requires
        spec_assembly_step(event, action),
        action matches AssemblyAction::BuildWitness(_),
    ensures
        event matches AssemblyEvent::CapacityChecked(outcome) && outcome is Ok,
{
}

/// Law: a capacity failure short-circuits — the assembly finishes with
/// `CapacityExceeded` carrying the engine's reason, and no further action.
pub proof fn lemma_capacity_failure_short_circuits(msg: String, action: AssemblyAction)
    requires
        spec_assembly_step(AssemblyEvent::CapacityChecked(Err(msg)), action),
    ensures
        action matches AssemblyAction::Finish(r) && (r matches Err(ChunkError::CapacityExceeded(m))
            && m@ == msg@),
{
}

} // verus!
