//! The steps before the proof backend: build the schema, lay out the
//! circuit, and check the witness against the public instance, so that a
//! bad witness is reported apart from any failure of the backend.

use crate::field::{modulus, Felt, Value};
use crate::layout::{Column, ColumnKind, ConstraintSystem, Error, FibConfig, Selector};
use crate::satisfaction::{gate_holds, Unsatisfied};
use crate::theorems::{fib_term, lemma_accepted_iff_instance_matches, lemma_final_sum};
use crate::synthesis::{FibCircuit, Synthesis};
use vstd::prelude::*;

verus! {

/// Why a circuit cannot be handed to the prover.
#[derive(Clone, Copy, Debug, PartialEq, Eq, Structural)]
pub enum PipelineError {
    /// Configuring or synthesizing the circuit failed.
    Synthesis(Error),
    /// The witness breaks a gate, a copy constraint or an instance binding.
    Witness(Unsatisfied),
}

/// The configuration that declaring the chain on an empty schema yields.
pub open spec fn fresh_config() -> FibConfig {
    FibConfig {
        selector: Selector { index: 0 },
        a: Column { kind: ColumnKind::Advice, index: 0 },
        b: Column { kind: ColumnKind::Advice, index: 1 },
        c: Column { kind: ColumnKind::Advice, index: 2 },
        target: Column { kind: ColumnKind::Instance, index: 0 },
    }
}

/// Declares the circuit's schema on a fresh constraint system and lays the
/// circuit out within `max_rows` rows.
pub fn lay_out(circuit: &FibCircuit, max_rows: usize) -> (r: Result<(ConstraintSystem, FibConfig, Synthesis), Error>)
    ensures
        r is Err <==> circuit.steps >= max_rows,
        r is Err ==> r == Err::<(ConstraintSystem, FibConfig, Synthesis), Error>(Error::RowsExhausted),
        r matches Ok((cs, config, syn)) ==> cs.wf() && config.valid_in(cs) && config == fresh_config()
            && circuit.produces(config, max_rows, syn),
{
    let mut cs = ConstraintSystem::new();
    let config = FibCircuit::configure(&mut cs);
    match circuit.synthesize(&cs, config, max_rows) {
        Ok(syn) => Ok((cs, config, syn)),
        Err(e) => Err(e),
    }
}

proof fn lemma_verdict_of_layout(
    circuit: FibCircuit,
    cs: ConstraintSystem,
    config: FibConfig,
    max_rows: usize,
    syn: Synthesis,
    instance: Seq<Felt>,
)
    requires
        config.valid_in(cs),
        circuit.produces(config, max_rows, syn),
    ensures
        (circuit.a, circuit.b) matches (Value::Known(a0), Value::Known(b0)) ==> (syn.satisfied(
            config,
            instance,
        ) <==> instance.len() > 0 && instance[0].val() == fib_term(
            a0.val() as int,
            b0.val() as int,
            (circuit.steps + 2) as nat,
        ) % (modulus() as int)),
        !(circuit.a is Known && circuit.b is Known) ==> !syn.satisfied(config, instance),
{
    match (circuit.a, circuit.b) {
        (Value::Known(a0), Value::Known(b0)) => {
            lemma_final_sum(circuit, config, max_rows, syn, a0, b0);
            lemma_accepted_iff_instance_matches(circuit, cs, config, max_rows, syn, a0, b0, instance);
        },
        _ => {
            assert(syn.rows@[0].selector && !gate_holds(syn.rows@[0]));
        },
    }
}

/// Lays the circuit out and checks its witness against `instance`. With
/// known seeds `a0, b0` the witness is accepted exactly when position 0 of
/// the instance holds term `steps + 2` of the recurrence started at
/// `a0, b0`; with an unknown seed it is never accepted.
pub fn prepare(circuit: &FibCircuit, max_rows: usize, instance: &Vec<Felt>) -> (r: Result<Synthesis, PipelineError>)
    ensures
        circuit.steps >= max_rows <==> r == Err::<Synthesis, PipelineError>(
            PipelineError::Synthesis(Error::RowsExhausted),
        ),
        r matches Err(PipelineError::Synthesis(e)) ==> e == Error::RowsExhausted,
        (circuit.a, circuit.b) matches (Value::Known(a0), Value::Known(b0)) ==> (circuit.steps
            < max_rows ==> (r is Ok <==> instance@.len() > 0 && instance@[0].val() == fib_term(
            a0.val() as int,
            b0.val() as int,
            (circuit.steps + 2) as nat,
        ) % (modulus() as int))),
        circuit.steps < max_rows && !(circuit.a is Known && circuit.b is Known) ==> r matches Err(
            PipelineError::Witness(_),
        ),
        r matches Ok(syn) ==> circuit.produces(fresh_config(), max_rows, syn) && syn.satisfied(
            fresh_config(),
            instance@,
        ),
{
    match lay_out(circuit, max_rows) {
        Err(e) => Err(PipelineError::Synthesis(e)),
        Ok((cs, config, syn)) => {
            proof {
                lemma_verdict_of_layout(*circuit, cs, config, max_rows, syn, instance@);
            }
            match syn.check_witness(&config, instance) {
                Ok(()) => {
                    Ok(syn)
                },
                Err(u) => Err(PipelineError::Witness(u)),
            }
        },
    }
}

} // verus!
