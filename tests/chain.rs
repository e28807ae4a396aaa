use fib_circuit::field::{Felt, Value};
use fib_circuit::layout::{Column, ColumnKind, ConstraintSystem, Error, FibChip, FibConfig};
use fib_circuit::pipeline::{lay_out, prepare, PipelineError};
use fib_circuit::satisfaction::Unsatisfied;
use fib_circuit::synthesis::{Cell, FibCircuit, Synthesis};

fn felt(x: u64) -> Felt {
    Felt::from_u64(x)
}

fn known(x: u64) -> Value {
    Value::Known(felt(x))
}

fn as_felt(v: Value) -> Felt {
    match v {
        Value::Known(f) => f,
        Value::Unknown => panic!("value is unknown"),
    }
}

fn circuit(a: u64, b: u64, steps: usize) -> FibCircuit {
    FibCircuit { a: known(a), b: known(b), steps }
}

fn fib_layout(a: u64, b: u64, steps: usize, max_rows: usize) -> (FibConfig, Synthesis) {
    let (_cs, config, syn) = lay_out(&circuit(a, b, steps), max_rows).expect("layout");
    (config, syn)
}

#[test]
fn from_u64_is_little_endian() {
    let bytes = felt(0x0102).to_bytes();
    assert_eq!(bytes[0], 2);
    assert_eq!(bytes[1], 1);
    assert!(bytes[2..].iter().all(|b| *b == 0));
}

#[test]
fn field_addition_adds() {
    let s = felt(2).add(&felt(3));
    assert_eq!(s, felt(5));
    assert_eq!(s.to_bytes()[0], 5);
    let big = felt(u64::MAX).add(&felt(1));
    let bytes = big.to_bytes();
    assert_eq!(bytes[8], 1);
    assert!(bytes[..8].iter().all(|b| *b == 0));
}

#[test]
fn felt_equality() {
    assert!(felt(7).equals(&felt(7)));
    assert!(!felt(7).equals(&felt(8)));
}

#[test]
fn unknown_propagates_through_addition() {
    assert!(!Value::Unknown.add(&known(1)).is_known());
    assert!(!known(1).add(&Value::Unknown).is_known());
    assert_eq!(as_felt(known(1).add(&known(2))), felt(3));
}

#[test]
fn one_step_from_one_one_gives_three() {
    let (config, syn) = fib_layout(1, 1, 1, 2);
    assert_eq!(syn.rows.len(), 2);
    assert_eq!(as_felt(syn.rows[1].c), felt(3));
    assert_eq!(syn.bindings, vec![(Cell { column: config.c, row: 1 }, 0)]);
}

#[test]
fn final_sum_is_recurrence_term() {
    // 1, 1, 2, 3, 5, 8, 13: term 7 is 21
    let (_config, syn) = fib_layout(1, 1, 5, 8);
    assert_eq!(as_felt(syn.rows[5].c), felt(21));
    // 2, 5, 7, 12, 19: term 4 is 19
    let (_config, syn) = fib_layout(2, 5, 2, 3);
    assert_eq!(as_felt(syn.rows[2].c), felt(19));
    // no chain step: the sum of the seeds
    let (_config, syn) = fib_layout(4, 9, 0, 1);
    assert_eq!(as_felt(syn.rows[0].c), felt(13));
}

#[test]
fn copies_thread_values_forward() {
    let (config, syn) = fib_layout(3, 4, 3, 4);
    for i in 1..syn.rows.len() {
        assert_eq!(as_felt(syn.rows[i].a), as_felt(syn.rows[i - 1].b));
        assert_eq!(as_felt(syn.rows[i].b), as_felt(syn.rows[i - 1].c));
        assert!(syn.rows[i].selector);
    }
    assert_eq!(syn.copies.len(), 6);
    assert_eq!(
        syn.copies[2],
        (Cell { column: config.b, row: 1 }, Cell { column: config.a, row: 2 })
    );
    assert_eq!(
        syn.copies[3],
        (Cell { column: config.c, row: 1 }, Cell { column: config.b, row: 2 })
    );
}

#[test]
fn instance_three_accepted_five_rejected() {
    let c = circuit(1, 1, 1);
    assert!(prepare(&c, 2, &vec![felt(3)]).is_ok());
    assert_eq!(
        prepare(&c, 2, &vec![felt(5)]).err(),
        Some(PipelineError::Witness(Unsatisfied::Instance { index: 0 }))
    );
    assert_eq!(
        prepare(&c, 2, &vec![]).err(),
        Some(PipelineError::Witness(Unsatisfied::Instance { index: 0 }))
    );
}

#[test]
fn shape_only_layout_matches_concrete() {
    let concrete = circuit(1, 1, 3);
    let shape = concrete.without_witnesses();
    assert!(!shape.a.is_known() && !shape.b.is_known());
    let (_, c1, s1) = lay_out(&concrete, 8).expect("layout");
    let (_, c2, s2) = lay_out(&shape, 8).expect("layout");
    assert_eq!(c1, c2);
    assert_eq!(s1.rows.len(), s2.rows.len());
    assert_eq!(s1.copies, s2.copies);
    assert_eq!(s1.bindings, s2.bindings);
    assert!(s2.rows.iter().all(|r| !r.c.is_known()));
    let d = FibCircuit::default();
    assert_eq!(d.steps, 1);
    assert!(!d.a.is_known());
}

#[test]
fn shape_only_witness_is_not_accepted() {
    let shape = circuit(1, 1, 1).without_witnesses();
    assert_eq!(
        prepare(&shape, 2, &vec![felt(3)]).err(),
        Some(PipelineError::Witness(Unsatisfied::Gate { row: 0 }))
    );
}

#[test]
fn repeated_check_gives_same_verdict() {
    let (config, syn) = fib_layout(1, 1, 1, 2);
    for inst in [vec![felt(3)], vec![felt(5)]] {
        let first = syn.check_witness(&config, &inst);
        let second = syn.check_witness(&config, &inst);
        assert_eq!(first, second);
    }
}

#[test]
fn too_many_steps_fail() {
    assert_eq!(
        lay_out(&circuit(1, 1, 2), 2).err(),
        Some(Error::RowsExhausted)
    );
    assert_eq!(
        prepare(&circuit(1, 1, 2), 2, &vec![felt(5)]).err(),
        Some(PipelineError::Synthesis(Error::RowsExhausted))
    );
    assert!(lay_out(&circuit(1, 1, 1), 2).is_ok());
    assert_eq!(lay_out(&circuit(1, 1, 0), 0).err(), Some(Error::RowsExhausted));
}

#[test]
fn row_budget_checked_per_assignment() {
    let (config, _) = fib_layout(1, 1, 0, 1);
    let chip = FibChip { config };
    let mut syn = Synthesis::new(1);
    let (b, c) = chip.assign_first_row(&mut syn, known(1), known(2)).expect("first row");
    assert_eq!(as_felt(c.value), felt(3));
    assert_eq!(b.cell, Cell { column: config.b, row: 0 });
    assert_eq!(chip.assign_next_row(&mut syn, &b, &c).err(), Some(Error::RowsExhausted));
    assert_eq!(chip.assign_first_row(&mut syn, known(1), known(2)).err(), Some(Error::RowsExhausted));
    assert_eq!(chip.expose_public(&mut syn, &c, 1), Err(Error::RowsExhausted));
    assert_eq!(chip.expose_public(&mut syn, &c, 0), Ok(()));
    assert_eq!(syn.rows.len(), 1);
}

#[test]
fn configure_declares_schema() {
    let mut cs = ConstraintSystem::new();
    let config = FibCircuit::configure(&mut cs);
    assert_eq!(cs.num_advice, 3);
    assert_eq!(cs.num_instance, 1);
    assert_eq!(cs.num_selectors, 1);
    assert_eq!(cs.equality.len(), 4);
    assert_eq!(cs.gates.len(), 1);
    assert_eq!(config.a, Column { kind: ColumnKind::Advice, index: 0 });
    assert_eq!(config.target, Column { kind: ColumnKind::Instance, index: 0 });
    assert_eq!(config.check(&cs), Ok(()));
}

#[test]
fn schema_errors() {
    let mut cs = ConstraintSystem::new();
    let undeclared = Column { kind: ColumnKind::Advice, index: 0 };
    assert_eq!(cs.enable_equality(undeclared), Err(Error::UndeclaredColumn));
    let s = cs.selector();
    let a = cs.advice_column();
    let b = cs.advice_column();
    let c = cs.advice_column();
    let t = cs.instance_column();
    assert_eq!(cs.enable_equality(a), Ok(()));
    assert_eq!(cs.enable_equality(a), Ok(()));
    assert_eq!(cs.equality.len(), 1);
    let missing = Column { kind: ColumnKind::Advice, index: 9 };
    assert_eq!(cs.create_gate(s, a, b, missing), Err(Error::UndeclaredColumn));
    assert_eq!(cs.create_gate(s, a, b, c), Ok(()));
    assert_eq!(cs.create_gate(s, a, c, b), Err(Error::GateRedeclared));
    let config = FibConfig { selector: s, a, b, c, target: t };
    assert_eq!(config.check(&cs), Err(Error::EqualityNotEnabled));
    for col in [b, c, t] {
        cs.enable_equality(col).unwrap();
    }
    assert_eq!(config.check(&cs), Ok(()));
    let swapped = FibConfig { selector: s, a, b: c, c: b, target: t };
    assert_eq!(swapped.check(&cs), Err(Error::GateMissing));
    let clash = FibConfig { selector: s, a, b: a, c, target: t };
    assert_eq!(clash.check(&cs), Err(Error::UndeclaredColumn));
    assert_eq!(
        circuit(1, 1, 1).synthesize(&cs, swapped, 4).err(),
        Some(Error::GateMissing)
    );
}

#[test]
fn broken_witness_is_named() {
    let (config, mut syn) = fib_layout(1, 1, 2, 3);
    let good = syn.rows[1];
    syn.rows[1].c = known(9);
    assert_eq!(
        syn.check_witness(&config, &vec![felt(5)]),
        Err(Unsatisfied::Gate { row: 1 })
    );
    syn.rows[1] = good;
    syn.rows[1].a = known(0);
    syn.rows[1].c = known(2);
    assert_eq!(
        syn.check_witness(&config, &vec![felt(5)]),
        Err(Unsatisfied::Copy { index: 0 })
    );
    syn.rows[1] = good;
    assert_eq!(syn.check_witness(&config, &vec![felt(5)]), Ok(()));
    assert_eq!(
        syn.check_witness(&config, &vec![felt(4)]),
        Err(Unsatisfied::Instance { index: 0 })
    );
}

#[test]
fn schema_is_the_same_for_both_configure_paths() {
    let mut cs1 = ConstraintSystem::new();
    let mut cs2 = ConstraintSystem::new();
    let r1 = FibCircuit::configure(&mut cs1);
    let r2 = FibChip::configure(&mut cs2);
    assert_eq!(r1, r2);
    assert_eq!(cs1.equality, cs2.equality);
    assert_eq!(cs1.equality, vec![r1.a, r1.b, r1.c, r1.target]);
    assert_eq!(cs1.gates, cs2.gates);
    assert_eq!(
        (cs1.num_advice, cs1.num_instance, cs1.num_selectors),
        (cs2.num_advice, cs2.num_instance, cs2.num_selectors)
    );
}

#[test]
fn unknown_seed_rejected_by_prepare() {
    let half = FibCircuit { a: known(1), b: Value::Unknown, steps: 1 };
    assert!(matches!(
        prepare(&half, 2, &vec![felt(3)]).err(),
        Some(PipelineError::Witness(_))
    ));
}
