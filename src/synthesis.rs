//! Witness assignment: the seed row, the chain steps that copy values
//! forward, the binding of the final sum to the public instance, and the
//! circuit descriptor that runs them in order.

use crate::field::Value;
use crate::layout::{Column, ConstraintSystem, Error, FibChip, FibConfig};
use vstd::prelude::*;

verus! {

/// The address of a cell: a column and a row.
#[derive(Clone, Copy, Debug, PartialEq, Eq, Structural)]
pub struct Cell {
    pub column: Column,
    pub row: usize,
}

/// A cell that has been assigned, with the value it holds.
#[derive(Clone, Copy, Debug)]
pub struct AssignedCell {
    pub cell: Cell,
    pub value: Value,
}

/// One row of the chain: whether its selector is on, and the values in
/// the columns `a`, `b` and `c`.
#[derive(Clone, Copy, Debug)]
pub struct Row {
    pub selector: bool,
    pub a: Value,
    pub b: Value,
    pub c: Value,
}

/// What a synthesis pass has laid out so far: the rows, the copy
/// constraints between cells, and the cells bound to instance positions.
#[derive(Debug)]
pub struct Synthesis {
    /// How many rows the domain offers.
    pub max_rows: usize,
    pub rows: Vec<Row>,
    pub copies: Vec<(Cell, Cell)>,
    pub bindings: Vec<(Cell, usize)>,
}

impl Synthesis {
    /// An empty layout over a domain of `max_rows` rows.
    pub fn new(max_rows: usize) -> (r: Synthesis)
        ensures
            r.max_rows == max_rows,
            r.rows@ == Seq::<Row>::empty(),
            r.copies@ == Seq::<(Cell, Cell)>::empty(),
            r.bindings@ == Seq::<(Cell, usize)>::empty(),
    {
        Synthesis { max_rows, rows: Vec::new(), copies: Vec::new(), bindings: Vec::new() }
    }
}

impl FibChip {
    pub open spec fn cell(self, column: Column, row: int) -> Cell {
        Cell { column, row: row as usize }
    }

    /// Fills the seed row in a region of its own: `a` and `b` as given, and
    /// their sum in `c`. Returns the `b` and `c` cells.
    pub fn assign_first_row(&self, syn: &mut Synthesis, a: Value, b: Value) -> (r: Result<
        (AssignedCell, AssignedCell),
        Error,
    >)
        ensures
            final(syn).max_rows == old(syn).max_rows,
            final(syn).copies@ == old(syn).copies@,
            final(syn).bindings@ == old(syn).bindings@,
            r is Err <==> old(syn).rows@.len() >= old(syn).max_rows,
            r is Err ==> r == Err::<(AssignedCell, AssignedCell), Error>(Error::RowsExhausted)
                && final(syn).rows@ == old(syn).rows@,
            r matches Ok((pb, pc)) ==> {
                let n = old(syn).rows@.len() as int;
                let row = final(syn).rows@[n];
                &&& final(syn).rows@ == old(syn).rows@.push(row)
                &&& row.selector && row.a == a && row.b == b && row.c.is_sum_of(a, b)
                &&& pb.cell == self.cell(self.config.b, n) && pb.value == b
                &&& pc.cell == self.cell(self.config.c, n) && pc.value == row.c
            },
    {
        if syn.rows.len() >= syn.max_rows {
            return Err(Error::RowsExhausted);
        }
        let n = syn.rows.len();
        let c = a.add(&b);
        syn.rows.push(Row { selector: true, a, b, c });
        let pb = AssignedCell { cell: Cell { column: self.config.b, row: n }, value: b };
        let pc = AssignedCell { cell: Cell { column: self.config.c, row: n }, value: c };
        Ok((pb, pc))
    }

    /// Fills one chain step in a region of its own: the previous `b` is
    /// copied into `a`, the previous `c` into `b`, and their sum goes into
    /// `c`. Both copies are recorded as copy constraints. Returns the new `b`
    /// and `c` cells.
    pub fn assign_next_row(
        &self,
        syn: &mut Synthesis,
        pre_b: &AssignedCell,
        pre_c: &AssignedCell,
    ) -> (r: Result<(AssignedCell, AssignedCell), Error>)
        ensures
            final(syn).max_rows == old(syn).max_rows,
            final(syn).bindings@ == old(syn).bindings@,
            r is Err <==> old(syn).rows@.len() >= old(syn).max_rows,
            r is Err ==> r == Err::<(AssignedCell, AssignedCell), Error>(Error::RowsExhausted)
                && final(syn).rows@ == old(syn).rows@ && final(syn).copies@ == old(syn).copies@,
            r matches Ok((nb, nc)) ==> {
                let n = old(syn).rows@.len() as int;
                let row = final(syn).rows@[n];
                &&& final(syn).rows@ == old(syn).rows@.push(row)
                &&& row.selector && row.a == pre_b.value && row.b == pre_c.value
                &&& row.c.is_sum_of(row.a, row.b)
                &&& final(syn).copies@ == old(syn).copies@.push(
                    (pre_b.cell, self.cell(self.config.a, n)),
                ).push((pre_c.cell, self.cell(self.config.b, n)))
                &&& nb.cell == self.cell(self.config.b, n) && nb.value == pre_c.value
                &&& nc.cell == self.cell(self.config.c, n) && nc.value == row.c
            },
    {
        if syn.rows.len() >= syn.max_rows {
            return Err(Error::RowsExhausted);
        }
        let n = syn.rows.len();
        let cur_a = AssignedCell { cell: Cell { column: self.config.a, row: n }, value: pre_b.value };
        let cur_b = AssignedCell { cell: Cell { column: self.config.b, row: n }, value: pre_c.value };
        syn.copies.push((pre_b.cell, cur_a.cell));
        syn.copies.push((pre_c.cell, cur_b.cell));
        let c = cur_a.value.add(&cur_b.value);
        syn.rows.push(Row { selector: true, a: cur_a.value, b: cur_b.value, c });
        let cur_c = AssignedCell { cell: Cell { column: self.config.c, row: n }, value: c };
        Ok((cur_b, cur_c))
    }

    /// Binds a cell to position `row` of the public instance.
    pub fn expose_public(&self, syn: &mut Synthesis, cell: &AssignedCell, row: usize) -> (r: Result<
        (),
        Error,
    >)
        ensures
            final(syn).max_rows == old(syn).max_rows,
            final(syn).rows@ == old(syn).rows@,
            final(syn).copies@ == old(syn).copies@,
            r is Err <==> row >= old(syn).max_rows,
            r is Err ==> r == Err::<(), Error>(Error::RowsExhausted) && final(syn).bindings@
                == old(syn).bindings@,
            r is Ok ==> final(syn).bindings@ == old(syn).bindings@.push((cell.cell, row)),
    {
        if row >= syn.max_rows {
            return Err(Error::RowsExhausted);
        }
        syn.bindings.push((cell.cell, row));
        Ok(())
    }
}

/// The rows of a chain seeded with `a` and `b`: every row switched on, each
/// `c` the sum of its row's `a` and `b`, and each later row holding the
/// previous row's `b` and `c` in its `a` and `b`.
pub open spec fn chain_rows(rows: Seq<Row>, a: Value, b: Value) -> bool {
    &&& rows.len() > 0
    &&& rows[0].a == a
    &&& rows[0].b == b
    &&& forall|i: int| 0 <= i < rows.len() ==> (#[trigger] rows[i]).selector && rows[i].c.is_sum_of(
        rows[i].a,
        rows[i].b,
    )
    &&& forall|i: int|
        0 < i < rows.len() ==> (#[trigger] rows[i]).a == rows[i - 1].b && rows[i].b == rows[i - 1].c
}

/// The copy constraints of the first `n` chain steps, two per step.
pub open spec fn copy_plan(config: FibConfig, n: nat) -> Seq<(Cell, Cell)>
    decreases n,
{
    if n == 0 {
        Seq::empty()
    } else {
        copy_plan(config, (n - 1) as nat).push(
            (Cell { column: config.b, row: (n - 1) as usize }, Cell { column: config.a, row: n as usize }),
        ).push(
            (Cell { column: config.c, row: (n - 1) as usize }, Cell { column: config.b, row: n as usize }),
        )
    }
}

/// The circuit descriptor: the seed values and the number of chain steps.
#[derive(Clone, Copy, Debug)]
pub struct FibCircuit {
    pub a: Value,
    pub b: Value,
    pub steps: usize,
}

impl Default for FibCircuit {
    /// A shape-only circuit of one chain step.
    fn default() -> (r: FibCircuit)
        ensures
            r.a is Unknown,
            r.b is Unknown,
            r.steps == 1,
    {
        FibCircuit { a: Value::Unknown, b: Value::Unknown, steps: 1 }
    }
}

impl FibCircuit {
    /// `syn` is what synthesizing this circuit under `config` within
    /// `max_rows` rows lays out: one seed row and `steps` chain steps, the
    /// copy constraints between them, and the last `c` cell bound to
    /// instance position 0.
    pub open spec fn produces(self, config: FibConfig, max_rows: usize, syn: Synthesis) -> bool {
        &&& syn.max_rows == max_rows
        &&& syn.rows@.len() == self.steps + 1
        &&& chain_rows(syn.rows@, self.a, self.b)
        &&& syn.copies@ == copy_plan(config, self.steps as nat)
        &&& syn.bindings@ == seq![(Cell { column: config.c, row: self.steps }, 0usize)]
    }

    /// The same shape with the witness left unknown.
    pub fn without_witnesses(&self) -> (r: FibCircuit)
        ensures
            r.a is Unknown,
            r.b is Unknown,
            r.steps == self.steps,
    {
        FibCircuit { a: Value::Unknown, b: Value::Unknown, steps: self.steps }
    }

    /// Declares the circuit's schema; it does not depend on any witness.
    pub fn configure(meta: &mut ConstraintSystem) -> (r: FibConfig)
        requires
            old(meta).wf(),
            old(meta).num_advice + 3 <= usize::MAX,
            old(meta).num_instance < usize::MAX,
            old(meta).num_selectors < usize::MAX,
        ensures
            FibChip::configures(*old(meta), r, *final(meta)),
    {
        FibChip::configure(meta)
    }

    /// Lays out the seed row and the chain steps, then binds the last sum to
    /// instance position 0. Fails on a configuration that `cs` does not
    /// hold, and when the rows needed exceed `max_rows`.
    pub fn synthesize(&self, cs: &ConstraintSystem, config: FibConfig, max_rows: usize) -> (r: Result<
        Synthesis,
        Error,
    >)
        ensures
            !config.valid_in(*cs) ==> r is Err,
            config.valid_in(*cs) ==> (r is Err <==> self.steps >= max_rows),
            config.valid_in(*cs) && self.steps >= max_rows ==> r == Err::<Synthesis, Error>(
                Error::RowsExhausted,
            ),
            r matches Ok(syn) ==> self.produces(config, max_rows, syn),
    {
        match config.check(cs) {
            Ok(()) => {},
            Err(e) => {
                return Err(e);
            },
        }
        if self.steps >= max_rows {
            return Err(Error::RowsExhausted);
        }
        let chip = FibChip { config };
        let mut syn = Synthesis::new(max_rows);
        let (mut b, mut c) = match chip.assign_first_row(&mut syn, self.a, self.b) {
            Ok(cells) => cells,
            Err(e) => {
                return Err(e);
            },
        };
        let mut i: usize = 1;
        while i <= self.steps
            invariant
                1 <= i <= self.steps + 1,
                self.steps < max_rows,
                chip.config == config,
                syn.max_rows == max_rows,
                syn.rows@.len() == i,
                chain_rows(syn.rows@, self.a, self.b),
                syn.copies@ == copy_plan(config, (i - 1) as nat),
                syn.bindings@ == Seq::<(Cell, usize)>::empty(),
                b.cell == (Cell { column: config.b, row: (i - 1) as usize }),
                b.value == syn.rows@[i - 1].b,
                c.cell == (Cell { column: config.c, row: (i - 1) as usize }),
                c.value == syn.rows@[i - 1].c,
            decreases self.steps + 1 - i,
        {
            let (next_b, next_c) = match chip.assign_next_row(&mut syn, &b, &c) {
                Ok(cells) => cells,
                Err(e) => {
                    return Err(e);
                },
            };
            b = next_b;
            c = next_c;
            i = i + 1;
        }
        match chip.expose_public(&mut syn, &c, 0) {
            Ok(()) => {},
            Err(e) => {
                return Err(e);
            },
        }
        Ok(syn)
    }
}

} // verus!
