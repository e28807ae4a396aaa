//! Whether a laid-out witness meets every gate, copy constraint and
//! instance binding, and which one it breaks first when it does not.

use crate::field::{modulus, Felt, Value};
use crate::layout::FibConfig;
use crate::synthesis::{Cell, Row, Synthesis};
use vstd::prelude::*;

verus! {

/// The row meets the addition gate: all three values are known and `c` is
/// the sum of `a` and `b`.
pub open spec fn gate_holds(row: Row) -> bool {
    match (row.a, row.b, row.c) {
        (Value::Known(x), Value::Known(y), Value::Known(z)) => z.val() == (x.val() + y.val())
            % modulus(),
        _ => false,
    }
}

/// Both values are known and equal.
pub open spec fn same_known(v: Value, w: Value) -> bool {
    match (v, w) {
        (Value::Known(x), Value::Known(y)) => x.val() == y.val(),
        _ => false,
    }
}

/// The first witness-level flaw found in a layout.
#[derive(Clone, Copy, Debug, PartialEq, Eq, Structural)]
pub enum Unsatisfied {
    /// In this row the selector is on and `a + b = c` fails.
    Gate { row: usize },
    /// The copy constraint at this index joins cells that differ.
    Copy { index: usize },
    /// The binding at this index does not match the public instance.
    Instance { index: usize },
}

impl Synthesis {
    /// The value held in a cell of the chain's columns; unknown outside them.
    pub open spec fn value_of(self, config: FibConfig, cell: Cell) -> Value {
        if cell.row < self.rows@.len() {
            let row = self.rows@[cell.row as int];
            if cell.column == config.a {
                row.a
            } else if cell.column == config.b {
                row.b
            } else if cell.column == config.c {
                row.c
            } else {
                Value::Unknown
            }
        } else {
            Value::Unknown
        }
    }

    pub open spec fn copy_holds(self, config: FibConfig, pair: (Cell, Cell)) -> bool {
        same_known(self.value_of(config, pair.0), self.value_of(config, pair.1))
    }

    pub open spec fn binding_holds(self, config: FibConfig, instance: Seq<Felt>, binding: (Cell, usize)) -> bool {
        &&& binding.1 < instance.len()
        &&& same_known(self.value_of(config, binding.0), Value::Known(instance[binding.1 as int]))
    }

    /// The witness meets every enabled gate, every copy constraint, and every
    /// binding to the public instance.
    pub open spec fn satisfied(self, config: FibConfig, instance: Seq<Felt>) -> bool {
        &&& forall|i: int| 0 <= i < self.rows@.len() && (#[trigger] self.rows@[i]).selector ==> gate_holds(self.rows@[i])
        &&& forall|k: int| 0 <= k < self.copies@.len() ==> self.copy_holds(config, #[trigger] self.copies@[k])
        &&& forall|k: int| 0 <= k < self.bindings@.len() ==> self.binding_holds(config, instance, #[trigger] self.bindings@[k])
    }

    pub open spec fn gates_hold_below(self, n: int) -> bool {
        forall|i: int| 0 <= i < n && (#[trigger] self.rows@[i]).selector ==> gate_holds(self.rows@[i])
    }

    pub open spec fn copies_hold_below(self, config: FibConfig, n: int) -> bool {
        forall|k: int| 0 <= k < n ==> self.copy_holds(config, #[trigger] self.copies@[k])
    }

    pub open spec fn bindings_hold_below(self, config: FibConfig, instance: Seq<Felt>, n: int) -> bool {
        forall|k: int| 0 <= k < n ==> self.binding_holds(config, instance, #[trigger] self.bindings@[k])
    }

    /// `r` is the verdict on the witness: `Ok` when it is satisfied, else
    /// the first failure, looking at gates row by row, then copy constraints,
    /// then instance bindings, each in order.
    pub open spec fn is_verdict(self, config: FibConfig, instance: Seq<Felt>, r: Result<(), Unsatisfied>) -> bool {
        &&& r is Ok <==> self.satisfied(config, instance)
        &&& r matches Err(Unsatisfied::Gate { row }) ==> row < self.rows@.len()
            && self.rows@[row as int].selector && !gate_holds(self.rows@[row as int])
            && self.gates_hold_below(row as int)
        &&& r matches Err(Unsatisfied::Copy { index }) ==> index < self.copies@.len()
            && !self.copy_holds(config, self.copies@[index as int])
            && self.gates_hold_below(self.rows@.len() as int)
            && self.copies_hold_below(config, index as int)
        &&& r matches Err(Unsatisfied::Instance { index }) ==> index < self.bindings@.len()
            && !self.binding_holds(config, instance, self.bindings@[index as int])
            && self.gates_hold_below(self.rows@.len() as int)
            && self.copies_hold_below(config, self.copies@.len() as int)
            && self.bindings_hold_below(config, instance, index as int)
    }

    /// The value held in a cell.
    pub fn value_at(&self, config: &FibConfig, cell: Cell) -> (r: Value)
        ensures
            r == self.value_of(*config, cell),
    {
        if cell.row < self.rows.len() {
            let row = self.rows[cell.row];
            if cell.column == config.a {
                row.a
            } else if cell.column == config.b {
                row.b
            } else if cell.column == config.c {
                row.c
            } else {
                Value::Unknown
            }
        } else {
            Value::Unknown
        }
    }

    /// Checks the witness against every gate, copy constraint and instance
    /// binding, in that order, and names the first that fails.
    pub fn check_witness(&self, config: &FibConfig, instance: &Vec<Felt>) -> (r: Result<(), Unsatisfied>)
        ensures
            self.is_verdict(*config, instance@, r),
    {
        let mut i: usize = 0;
        while i < self.rows.len()
            invariant
                i <= self.rows@.len(),
                self.gates_hold_below(i as int),
            decreases self.rows@.len() - i,
        {
            let row = self.rows[i];
            if row.selector {
                let ok = match (row.a, row.b, row.c) {
                    (Value::Known(x), Value::Known(y), Value::Known(z)) => x.add(&y).equals(&z),
                    _ => false,
                };
                if !ok {
                    return Err(Unsatisfied::Gate { row: i });
                }
            }
            i = i + 1;
        }
        let mut k: usize = 0;
        while k < self.copies.len()
            invariant
                k <= self.copies@.len(),
                self.gates_hold_below(self.rows@.len() as int),
                self.copies_hold_below(*config, k as int),
            decreases self.copies@.len() - k,
        {
            let (from, to) = self.copies[k];
            let ok = match (self.value_at(config, from), self.value_at(config, to)) {
                (Value::Known(x), Value::Known(y)) => x.equals(&y),
                _ => false,
            };
            if !ok {
                return Err(Unsatisfied::Copy { index: k });
            }
            k = k + 1;
        }
        let mut k: usize = 0;
        while k < self.bindings.len()
            invariant
                k <= self.bindings@.len(),
                self.gates_hold_below(self.rows@.len() as int),
                self.copies_hold_below(*config, self.copies@.len() as int),
                self.bindings_hold_below(*config, instance@, k as int),
            decreases self.bindings@.len() - k,
        {
            let (cell, pos) = self.bindings[k];
            let ok = if pos < instance.len() {
                match self.value_at(config, cell) {
                    Value::Known(x) => x.equals(&instance[pos]),
                    Value::Unknown => false,
                }
            } else {
                false
            };
            if !ok {
                return Err(Unsatisfied::Instance { index: k });
            }
            k = k + 1;
        }
        Ok(())
    }
}

} // verus!
