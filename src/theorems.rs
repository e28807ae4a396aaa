//! What every layout produced by the circuit satisfies: the final sum is a
//! term of the recurrence, copies thread values row to row, the witness is
//! accepted exactly when the public instance holds the final sum, and the
//! shape does not depend on the witness.

use crate::field::{modulus, Felt, Value};
use crate::layout::{ConstraintSystem, FibChip, FibConfig};
use crate::satisfaction::{gate_holds, same_known, Unsatisfied};
use crate::synthesis::{chain_rows, copy_plan, Cell, FibCircuit, Row, Synthesis};
use vstd::prelude::*;

verus! {

/// Term `k` of the recurrence `t0, t1, t(k) = t(k-1) + t(k-2)`.
pub open spec fn fib_term(t0: int, t1: int, k: nat) -> int
    decreases k,
{
    if k == 0 {
        t0
    } else if k == 1 {
        t1
    } else {
        fib_term(t0, t1, (k - 1) as nat) + fib_term(t0, t1, (k - 2) as nat)
    }
}

/// The value is known and equals `n` in the field.
pub open spec fn holds_num(v: Value, n: int) -> bool {
    match v {
        Value::Known(f) => f.val() == n % (modulus() as int),
        Value::Unknown => false,
    }
}

proof fn lemma_row_terms(rows: Seq<Row>, x: Felt, y: Felt, i: int)
    requires
        chain_rows(rows, Value::Known(x), Value::Known(y)),
        0 <= i < rows.len(),
    ensures
        holds_num(rows[i].a, fib_term(x.val() as int, y.val() as int, i as nat)),
        holds_num(rows[i].b, fib_term(x.val() as int, y.val() as int, (i + 1) as nat)),
        holds_num(rows[i].c, fib_term(x.val() as int, y.val() as int, (i + 2) as nat)),
    decreases i,
{
    let t0 = x.val() as int;
    let t1 = y.val() as int;
    let p = modulus() as int;
    assert(rows[i].selector);
    if i == 0 {
        x.lemma_val_bound();
        y.lemma_val_bound();
        vstd::arithmetic::div_mod::lemma_small_mod(x.val(), modulus());
        vstd::arithmetic::div_mod::lemma_small_mod(y.val(), modulus());
        assert(fib_term(t0, t1, 2) == fib_term(t0, t1, 1) + fib_term(t0, t1, 0));
    } else {
        lemma_row_terms(rows, x, y, i - 1);
        let fa = fib_term(t0, t1, i as nat);
        let fb = fib_term(t0, t1, (i + 1) as nat);
        assert(fib_term(t0, t1, (i + 2) as nat) == fb + fa);
        vstd::arithmetic::div_mod::lemma_add_mod_noop(fa, fb, p);
    }
}

/// Synthesizing `n` chain steps from known seeds `a0` and `b0` leaves in the
/// last row's `c` cell, the one bound to the instance, term `n + 2` of the
/// recurrence started at `a0, b0`.
pub proof fn lemma_final_sum(circuit: FibCircuit, config: FibConfig, max_rows: usize, syn: Synthesis, a0: Felt, b0: Felt)
    requires
        circuit.a == Value::Known(a0),
        circuit.b == Value::Known(b0),
        circuit.produces(config, max_rows, syn),
    ensures
        holds_num(
            syn.rows@[circuit.steps as int].c,
            fib_term(a0.val() as int, b0.val() as int, (circuit.steps + 2) as nat),
        ),
        syn.bindings@[0].0 == (Cell { column: config.c, row: circuit.steps }),
{
    lemma_row_terms(syn.rows@, a0, b0, circuit.steps as int);
}

proof fn lemma_copy_plan(config: FibConfig, n: nat, i: int)
    requires
        1 <= i <= n,
    ensures
        copy_plan(config, n).len() == 2 * n,
        copy_plan(config, n)[2 * (i - 1)] == (
            Cell { column: config.b, row: (i - 1) as usize },
            Cell { column: config.a, row: i as usize },
        ),
        copy_plan(config, n)[2 * (i - 1) + 1] == (
            Cell { column: config.c, row: (i - 1) as usize },
            Cell { column: config.b, row: i as usize },
        ),
    decreases n,
{
    if i < n {
        lemma_copy_plan(config, (n - 1) as nat, i);
    } else if n > 1 {
        lemma_copy_plan(config, (n - 1) as nat, 1);
    } else {
        assert(copy_plan(config, 0).len() == 0);
    }
}

/// At every chain step `i`, the cell `a` holds what `b` held at step `i - 1`
/// and the cell `b` what `c` held there, and both equalities are recorded as
/// copy constraints.
pub proof fn lemma_copy_consistency(circuit: FibCircuit, config: FibConfig, max_rows: usize, syn: Synthesis, i: int)
    requires
        circuit.produces(config, max_rows, syn),
        1 <= i <= circuit.steps,
    ensures
        syn.rows@[i].a == syn.rows@[i - 1].b,
        syn.rows@[i].b == syn.rows@[i - 1].c,
        syn.copies@.contains(
            (Cell { column: config.b, row: (i - 1) as usize }, Cell { column: config.a, row: i as usize }),
        ),
        syn.copies@.contains(
            (Cell { column: config.c, row: (i - 1) as usize }, Cell { column: config.b, row: i as usize }),
        ),
{
    assert(syn.rows@[i].a == syn.rows@[i - 1].b);
    lemma_copy_plan(config, circuit.steps as nat, i);
}

proof fn lemma_copy_holds(circuit: FibCircuit, config: FibConfig, max_rows: usize, syn: Synthesis, a0: Felt, b0: Felt, k: int)
    requires
        config.a != config.b && config.b != config.c && config.a != config.c,
        circuit.a == Value::Known(a0),
        circuit.b == Value::Known(b0),
        circuit.produces(config, max_rows, syn),
        0 <= k < syn.copies@.len(),
    ensures
        syn.copy_holds(config, syn.copies@[k]),
{
    lemma_copy_plan(config, circuit.steps as nat, 1);
    let q = k / 2;
    let i = q + 1;
    assert(k == 2 * q + k % 2 && 0 <= k % 2 < 2 && 0 <= q < circuit.steps) by (nonlinear_arith)
        requires
            0 <= k < 2 * circuit.steps,
            q == k / 2,
    ;
    lemma_copy_plan(config, circuit.steps as nat, i);
    lemma_row_terms(syn.rows@, a0, b0, i);
    lemma_row_terms(syn.rows@, a0, b0, i - 1);
    assert(syn.rows@[i].a == syn.rows@[i - 1].b);
    assert(syn.rows@[i].b == syn.rows@[i - 1].c);
}

/// A layout synthesized from known seeds meets every gate and copy
/// constraint, so it is accepted exactly when the public instance holds the
/// final sum at position 0.
pub proof fn lemma_accepted_iff_instance_matches(
    circuit: FibCircuit,
    cs: ConstraintSystem,
    config: FibConfig,
    max_rows: usize,
    syn: Synthesis,
    a0: Felt,
    b0: Felt,
    instance: Seq<Felt>,
)
    requires
        config.valid_in(cs),
        circuit.a == Value::Known(a0),
        circuit.b == Value::Known(b0),
        circuit.produces(config, max_rows, syn),
    ensures
        forall|i: int| 0 <= i < syn.rows@.len() ==> gate_holds(#[trigger] syn.rows@[i]),
        syn.satisfied(config, instance) <==> (instance.len() > 0 && same_known(
            syn.rows@[circuit.steps as int].c,
            Value::Known(instance[0]),
        )),
{
    let rows = syn.rows@;
    assert forall|i: int| 0 <= i < rows.len() implies gate_holds(#[trigger] rows[i]) by {
        lemma_row_terms(rows, a0, b0, i);
    }
    assert forall|k: int| 0 <= k < syn.copies@.len() implies syn.copy_holds(config, #[trigger] syn.copies@[k]) by {
        lemma_copy_holds(circuit, config, max_rows, syn, a0, b0, k);
    }
    assert(syn.bindings@[0] == (Cell { column: config.c, row: circuit.steps }, 0usize));
    if syn.satisfied(config, instance) {
        assert(syn.binding_holds(config, instance, syn.bindings@[0]));
    }
}

/// Two circuits with the same number of chain steps, whatever their seeds,
/// known or not, lay out the same shape: the same rows switched on, the same
/// copy constraints and the same instance bindings.
pub proof fn lemma_shape_independent_of_witness(
    c1: FibCircuit,
    c2: FibCircuit,
    config: FibConfig,
    max_rows: usize,
    s1: Synthesis,
    s2: Synthesis,
)
    requires
        c1.steps == c2.steps,
        c1.produces(config, max_rows, s1),
        c2.produces(config, max_rows, s2),
    ensures
        s1.max_rows == s2.max_rows,
        s1.rows@.len() == s2.rows@.len(),
        forall|i: int| 0 <= i < s1.rows@.len() ==> #[trigger] s1.rows@[i].selector == s2.rows@[i].selector,
        s1.copies@ == s2.copies@,
        s1.bindings@ == s2.bindings@,
{
}

/// Checking a witness is repeatable: whatever two runs of `check_witness`
/// on the same layout, configuration and instance return is the same
/// verdict, acceptance or the same first failure.
pub proof fn lemma_verdict_repeatable(
    syn: Synthesis,
    config: FibConfig,
    instance: Seq<Felt>,
    r1: Result<(), Unsatisfied>,
    r2: Result<(), Unsatisfied>,
)
    requires
        syn.is_verdict(config, instance, r1),
        syn.is_verdict(config, instance, r2),
    ensures
        r1 == r2,
{
    lemma_verdict_item(syn, config, instance, r1);
    lemma_verdict_item(syn, config, instance, r2);
    match (r1, r2) {
        (Ok(u1), Ok(u2)) => {
            assert(u1 == u2);
        },
        (Err(Unsatisfied::Gate { row: x }), Err(Unsatisfied::Gate { row: y })) => {
            assert(x == y) by {
                if x < y {
                    assert(syn.gates_hold_below(y as int));
                    assert(gate_holds(syn.rows@[x as int]));
                }
                if y < x {
                    assert(syn.gates_hold_below(x as int));
                    assert(gate_holds(syn.rows@[y as int]));
                }
            }
        },
        (Err(Unsatisfied::Copy { index: x }), Err(Unsatisfied::Copy { index: y })) => {
            assert(x == y) by {
                if x < y {
                    assert(syn.copies_hold_below(config, y as int));
                    assert(syn.copy_holds(config, syn.copies@[x as int]));
                }
                if y < x {
                    assert(syn.copies_hold_below(config, x as int));
                    assert(syn.copy_holds(config, syn.copies@[y as int]));
                }
            }
        },
        (Err(Unsatisfied::Instance { index: x }), Err(Unsatisfied::Instance { index: y })) => {
            assert(x == y) by {
                if x < y {
                    assert(syn.bindings_hold_below(config, instance, y as int));
                    assert(syn.binding_holds(config, instance, syn.bindings@[x as int]));
                }
                if y < x {
                    assert(syn.bindings_hold_below(config, instance, x as int));
                    assert(syn.binding_holds(config, instance, syn.bindings@[y as int]));
                }
            }
        },
        (Err(Unsatisfied::Gate { row: x }), _) => {
            assert(gate_holds(syn.rows@[x as int]));
        },
        (_, Err(Unsatisfied::Gate { row: y })) => {
            assert(gate_holds(syn.rows@[y as int]));
        },
        (Err(Unsatisfied::Copy { index: x }), _) => {
            assert(syn.copy_holds(config, syn.copies@[x as int]));
        },
        (_, Err(Unsatisfied::Copy { index: y })) => {
            assert(syn.copy_holds(config, syn.copies@[y as int]));
        },
        (Err(Unsatisfied::Instance { index: x }), _) => {
            assert(syn.binding_holds(config, instance, syn.bindings@[x as int]));
        },
        (_, Err(Unsatisfied::Instance { index: y })) => {
            assert(syn.binding_holds(config, instance, syn.bindings@[y as int]));
        },
    }
}

proof fn lemma_verdict_item(syn: Synthesis, config: FibConfig, instance: Seq<Felt>, r: Result<(), Unsatisfied>)
    requires
        syn.is_verdict(config, instance, r),
    ensures
        r matches Err(Unsatisfied::Gate { row }) ==> syn.rows@[row as int].selector,
        r matches Err(Unsatisfied::Copy { index }) ==> !syn.copy_holds(config, syn.copies@[index as int]),
        r matches Err(Unsatisfied::Instance { index }) ==> !syn.binding_holds(
            config,
            instance,
            syn.bindings@[index as int],
        ),
{
}

/// Declaring the chain's schema depends on the schema it starts from and
/// on nothing else, no witness in particular: two declarations on the same
/// schema give the same configuration and the same resulting schema.
pub proof fn lemma_schema_witness_free(
    cs: ConstraintSystem,
    r1: FibConfig,
    n1: ConstraintSystem,
    r2: FibConfig,
    n2: ConstraintSystem,
)
    requires
        FibChip::configures(cs, r1, n1),
        FibChip::configures(cs, r2, n2),
    ensures
        r1 == r2,
        n1.num_advice == n2.num_advice,
        n1.num_instance == n2.num_instance,
        n1.num_selectors == n2.num_selectors,
        n1.equality@ == n2.equality@,
        n1.gates@ == n2.gates@,
{
}

} // verus!
