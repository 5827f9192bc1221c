use prover_support::trace::TraceRecord;
use prover_support::witness::{
    chunk_assembly_step, AssemblyAction, AssemblyEvent, ChunkError, Witness, WitnessTx,
};

fn sample_chunk() -> Vec<TraceRecord> {
    vec![
        TraceRecord {
            chain_id: 1,
            block_number: 100,
        },
        TraceRecord {
            chain_id: 1,
            block_number: 101,
        },
    ]
}

fn sample_witness() -> Witness {
    Witness {
        block_contexts: vec![100, 101],
        txs: vec![
            WitnessTx {
                steps: vec![1, 2, 3],
            },
            WitnessTx { steps: vec![4] },
        ],
    }
}

#[test]
fn empty_chunk_is_rejected_before_any_engine_call() {
    match chunk_assembly_step(AssemblyEvent::ChunkReceived(Vec::new())) {
        AssemblyAction::Finish(Err(ChunkError::EmptyChunk)) => {}
        _ => panic!("an empty chunk must finish with EmptyChunk at once"),
    }
}

#[test]
fn nonempty_chunk_goes_to_the_capacity_check_unchanged() {
    let chunk = sample_chunk();
    match chunk_assembly_step(AssemblyEvent::ChunkReceived(chunk.clone())) {
        AssemblyAction::CheckCapacity(c) => assert_eq!(c, chunk),
        _ => panic!("a chunk with records must go to the capacity check"),
    }
}

#[test]
fn capacity_failure_short_circuits_the_builder() {
    let outcome = Err("row budget exceeded".to_string());
    match chunk_assembly_step(AssemblyEvent::CapacityChecked(outcome)) {
        AssemblyAction::Finish(Err(ChunkError::CapacityExceeded(m))) => {
            assert_eq!(m, "row budget exceeded");
        }
        _ => panic!("a failed capacity check must finish without building"),
    }
}

#[test]
fn admitted_chunk_goes_to_the_builder() {
    let chunk = sample_chunk();
    match chunk_assembly_step(AssemblyEvent::CapacityChecked(Ok(chunk.clone()))) {
        AssemblyAction::BuildWitness(c) => assert_eq!(c, chunk),
        _ => panic!("an admitted chunk must go to the builder"),
    }
}

#[test]
fn builder_outcomes_finish_the_assembly() {
    let w = sample_witness();
    match chunk_assembly_step(AssemblyEvent::WitnessBuilt(Ok(w))) {
        AssemblyAction::Finish(Ok(got)) => {
            assert_eq!(got.block_contexts, vec![100, 101]);
            assert_eq!(got.txs.len(), 2);
            assert_eq!(got.txs[0].steps, vec![1, 2, 3]);
            assert_eq!(got.txs[1].steps, vec![4]);
        }
        _ => panic!("a built witness must finish the assembly successfully"),
    }
    match chunk_assembly_step(AssemblyEvent::WitnessBuilt(Err("bad trace".to_string()))) {
        AssemblyAction::Finish(Err(ChunkError::WitnessBuildError(m))) => {
            assert_eq!(m, "bad trace");
        }
        _ => panic!("a builder failure must finish with WitnessBuildError"),
    }
}

#[test]
fn capacity_failure_never_reaches_the_builder_in_a_full_run() {
    // drive the assembly as a caller would, with an engine whose capacity
    // check rejects the chunk; the builder must never be invoked
    let mut builder_ran = false;
    let mut action = chunk_assembly_step(AssemblyEvent::ChunkReceived(sample_chunk()));
    let outcome = loop {
        action = match action {
            AssemblyAction::CheckCapacity(_chunk) => chunk_assembly_step(
                AssemblyEvent::CapacityChecked(Err("too many steps".to_string())),
            ),
            AssemblyAction::BuildWitness(_chunk) => {
                builder_ran = true;
                chunk_assembly_step(AssemblyEvent::WitnessBuilt(Ok(sample_witness())))
            }
            AssemblyAction::Finish(outcome) => break outcome,
        };
    };
    assert!(!builder_ran);
    assert!(matches!(outcome, Err(ChunkError::CapacityExceeded(_))));
}

#[test]
fn admitted_chunk_yields_a_witness_in_a_full_run() {
    let mut action = chunk_assembly_step(AssemblyEvent::ChunkReceived(sample_chunk()));
    let outcome = loop {
        action = match action {
            AssemblyAction::CheckCapacity(chunk) => {
                chunk_assembly_step(AssemblyEvent::CapacityChecked(Ok(chunk)))
            }
            AssemblyAction::BuildWitness(_chunk) => {
                chunk_assembly_step(AssemblyEvent::WitnessBuilt(Ok(sample_witness())))
            }
            AssemblyAction::Finish(outcome) => break outcome,
        };
    };
    let w = outcome.unwrap();
    assert_eq!(w.block_contexts, vec![100, 101]);
}
