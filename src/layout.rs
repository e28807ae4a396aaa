//! The schema of the constraint system: columns, equality-enabled columns,
//! selectors and the gates they switch on.

use vstd::prelude::*;

verus! {

/// What a column holds: private witness values, or public instance values.
#[derive(Clone, Copy, Debug, PartialEq, Eq, Structural)]
pub enum ColumnKind {
    Advice,
    Instance,
}

/// A column, by kind and by its index among the columns of that kind.
#[derive(Clone, Copy, Debug, PartialEq, Eq, Structural)]
pub struct Column {
    pub kind: ColumnKind,
    pub index: usize,
}

/// A selector, by its index among the declared selectors.
#[derive(Clone, Copy, Debug, PartialEq, Eq, Structural)]
pub struct Selector {
    pub index: usize,
}

/// An addition constraint `selector * (a + b - c) = 0`, read on the current row only.
#[derive(Clone, Copy, Debug, PartialEq, Eq, Structural)]
pub struct Gate {
    pub selector: Selector,
    pub a: Column,
    pub b: Column,
    pub c: Column,
}

/// Why configuring or synthesizing a circuit failed.
#[derive(Clone, Copy, Debug, PartialEq, Eq, Structural)]
pub enum Error {
    /// A column or selector was used before it was declared.
    UndeclaredColumn,
    /// A column takes part in a copy or instance constraint without equality.
    EqualityNotEnabled,
    /// A second gate was declared on a selector that already has one.
    GateRedeclared,
    /// The configuration names a gate that the schema does not hold.
    GateMissing,
    /// An assignment or binding addresses a row beyond the row budget.
    RowsExhausted,
}

/// The schema under construction.
#[derive(Clone, Debug)]
pub struct ConstraintSystem {
    pub num_advice: usize,
    pub num_instance: usize,
    pub num_selectors: usize,
    /// Columns whose cells may take part in copy and instance constraints.
    pub equality: Vec<Column>,
    pub gates: Vec<Gate>,
}

impl ConstraintSystem {
    pub open spec fn declared(&self, col: Column) -> bool {
        match col.kind {
            ColumnKind::Advice => col.index < self.num_advice,
            ColumnKind::Instance => col.index < self.num_instance,
        }
    }

    pub open spec fn selector_declared(&self, s: Selector) -> bool {
        s.index < self.num_selectors
    }

    pub open spec fn gate_declared(&self, g: Gate) -> bool {
        &&& self.selector_declared(g.selector)
        &&& self.declared(g.a)
        &&& self.declared(g.b)
        &&& self.declared(g.c)
    }

    /// Every column or selector that the schema refers to has been declared,
    /// and no selector carries two gates.
    pub open spec fn wf(&self) -> bool {
        &&& forall|i: int| 0 <= i < self.equality@.len() ==> self.declared(#[trigger] self.equality@[i])
        &&& forall|i: int| 0 <= i < self.gates@.len() ==> self.gate_declared(#[trigger] self.gates@[i])
        &&& forall|i: int, j: int|
            0 <= i < j < self.gates@.len() ==> #[trigger] self.gates@[i].selector != #[trigger] self.gates@[j].selector
    }

    pub open spec fn has_selector_gate(&self, s: Selector) -> bool {
        exists|i: int| 0 <= i < self.gates@.len() && #[trigger] self.gates@[i].selector == s
    }

    /// An empty schema.
    pub fn new() -> (r: ConstraintSystem)
        ensures
            r.wf(),
            r.num_advice == 0,
            r.num_instance == 0,
            r.num_selectors == 0,
            r.equality@ == Seq::<Column>::empty(),
            r.gates@ == Seq::<Gate>::empty(),
    {
        ConstraintSystem {
            num_advice: 0,
            num_instance: 0,
            num_selectors: 0,
            equality: Vec::new(),
            gates: Vec::new(),
        }
    }

    /// Declares a new advice column.
    pub fn advice_column(&mut self) -> (r: Column)
        requires
            old(self).wf(),
            old(self).num_advice < usize::MAX,
        ensures
            final(self).wf(),
            r == (Column { kind: ColumnKind::Advice, index: old(self).num_advice }),
            *final(self) == (ConstraintSystem { num_advice: (old(self).num_advice + 1) as usize, ..*old(self) }),
    {
        let r = Column { kind: ColumnKind::Advice, index: self.num_advice };
        self.num_advice = self.num_advice + 1;
        r
    }

    /// Declares a new instance column.
    pub fn instance_column(&mut self) -> (r: Column)
        requires
            old(self).wf(),
            old(self).num_instance < usize::MAX,
        ensures
            final(self).wf(),
            r == (Column { kind: ColumnKind::Instance, index: old(self).num_instance }),
            *final(self) == (ConstraintSystem { num_instance: (old(self).num_instance + 1) as usize, ..*old(self) }),
    {
        let r = Column { kind: ColumnKind::Instance, index: self.num_instance };
        self.num_instance = self.num_instance + 1;
        r
    }

    /// Declares a new selector.
    pub fn selector(&mut self) -> (r: Selector)
        requires
            old(self).wf(),
            old(self).num_selectors < usize::MAX,
        ensures
            final(self).wf(),
            r == (Selector { index: old(self).num_selectors }),
            *final(self) == (ConstraintSystem { num_selectors: (old(self).num_selectors + 1) as usize, ..*old(self) }),
    {
        let r = Selector { index: self.num_selectors };
        self.num_selectors = self.num_selectors + 1;
        r
    }

    /// Whether a column has been declared.
    pub fn is_declared(&self, col: Column) -> (r: bool)
        ensures
            r == self.declared(col),
    {
        match col.kind {
            ColumnKind::Advice => col.index < self.num_advice,
            ColumnKind::Instance => col.index < self.num_instance,
        }
    }

    /// Whether a column has equality enabled.
    pub fn has_equality(&self, col: Column) -> (r: bool)
        ensures
            r == self.equality@.contains(col),
    {
        let mut i: usize = 0;
        while i < self.equality.len()
            invariant
                i <= self.equality@.len(),
                forall|j: int| 0 <= j < i ==> self.equality@[j] != col,
            decreases self.equality@.len() - i,
        {
            if self.equality[i] == col {
                return true;
            }
            i = i + 1;
        }
        false
    }

    /// Lets the cells of a declared column take part in copy and instance
    /// constraints. Enabling it twice changes nothing.
    pub fn enable_equality(&mut self, col: Column) -> (r: Result<(), Error>)
        requires
            old(self).wf(),
        ensures
            final(self).wf(),
            r is Err <==> !old(self).declared(col),
            r is Err ==> r == Err::<(), Error>(Error::UndeclaredColumn) && final(self).equality@ == old(self).equality@,
            r is Ok ==> final(self).equality@ == if old(self).equality@.contains(col) {
                old(self).equality@
            } else {
                old(self).equality@.push(col)
            },
            final(self).num_advice == old(self).num_advice,
            final(self).num_instance == old(self).num_instance,
            final(self).num_selectors == old(self).num_selectors,
            final(self).gates@ == old(self).gates@,
            r is Ok ==> forall|x: Column| #[trigger] final(self).equality@.contains(x)
                <==> (old(self).equality@.contains(x) || x == col),
    {
        if !self.is_declared(col) {
            return Err(Error::UndeclaredColumn);
        }
        if !self.has_equality(col) {
            self.equality.push(col);
            proof {
                assert forall|x: Column| #[trigger] self.equality@.contains(x)
                    <==> (old(self).equality@.contains(x) || x == col) by {
                    if old(self).equality@.contains(x) {
                        let k = choose|k: int| 0 <= k < old(self).equality@.len() && old(self).equality@[k] == x;
                        assert(self.equality@[k] == x);
                    }
                    if x == col {
                        assert(self.equality@[self.equality@.len() - 1] == x);
                    }
                    if self.equality@.contains(x) && x != col {
                        let k = choose|k: int| 0 <= k < self.equality@.len() && self.equality@[k] == x;
                        assert(old(self).equality@[k] == x);
                    }
                }
            }
        }
        Ok(())
    }
    /// Whether some gate is switched by the selector.
    pub fn selector_has_gate(&self, s: Selector) -> (r: bool)
        ensures
            r == self.has_selector_gate(s),
    {
        let mut i: usize = 0;
        while i < self.gates.len()
            invariant
                i <= self.gates@.len(),
                forall|j: int| 0 <= j < i ==> self.gates@[j].selector != s,
            decreases self.gates@.len() - i,
        {
            if self.gates[i].selector == s {
                return true;
            }
            i = i + 1;
        }
        false
    }

    /// Whether the schema holds this gate.
    pub fn has_gate(&self, g: Gate) -> (r: bool)
        ensures
            r == self.gates@.contains(g),
    {
        let mut i: usize = 0;
        while i < self.gates.len()
            invariant
                i <= self.gates@.len(),
                forall|j: int| 0 <= j < i ==> self.gates@[j] != g,
            decreases self.gates@.len() - i,
        {
            if self.gates[i] == g {
                return true;
            }
            i = i + 1;
        }
        false
    }

    /// Registers the constraint `selector * (a + b - c) = 0`.
    pub fn create_gate(&mut self, selector: Selector, a: Column, b: Column, c: Column) -> (r: Result<(), Error>)
        requires
            old(self).wf(),
        ensures
            final(self).wf(),
            final(self).num_advice == old(self).num_advice,
            final(self).num_instance == old(self).num_instance,
            final(self).num_selectors == old(self).num_selectors,
            final(self).equality@ == old(self).equality@,
            !old(self).gate_declared(Gate { selector, a, b, c }) ==> r == Err::<(), Error>(Error::UndeclaredColumn),
            old(self).gate_declared(Gate { selector, a, b, c }) && old(self).has_selector_gate(selector)
                ==> r == Err::<(), Error>(Error::GateRedeclared),
            r is Ok <==> old(self).gate_declared(Gate { selector, a, b, c }) && !old(self).has_selector_gate(selector),
            r is Ok ==> final(self).gates@ == old(self).gates@.push(Gate { selector, a, b, c }),
            r is Err ==> final(self).gates@ == old(self).gates@,
    {
        if !(selector.index < self.num_selectors) || !self.is_declared(a) || !self.is_declared(b)
            || !self.is_declared(c) {
            return Err(Error::UndeclaredColumn);
        }
        if self.selector_has_gate(selector) {
            return Err(Error::GateRedeclared);
        }
        let g = Gate { selector, a, b, c };
        self.gates.push(g);
        proof {
            assert forall|i: int, j: int|
                0 <= i < j < self.gates@.len() implies #[trigger] self.gates@[i].selector
                != #[trigger] self.gates@[j].selector by {
                if j == self.gates@.len() - 1 {
                    assert(old(self).gates@[i].selector != selector);
                }
            }
        }
        Ok(())
    }
}

/// The columns and selector of the addition chain.
#[derive(Clone, Copy, Debug, PartialEq, Eq, Structural)]
pub struct FibConfig {
    pub selector: Selector,
    pub a: Column,
    pub b: Column,
    pub c: Column,
    pub target: Column,
}

impl FibConfig {
    /// The chain's own gate.
    pub open spec fn gate(self) -> Gate {
        Gate { selector: self.selector, a: self.a, b: self.b, c: self.c }
    }

    /// The configuration describes a schema that `cs` holds: three distinct
    /// advice columns and one instance column, all declared and
    /// equality-enabled, and the addition gate on the selector.
    pub open spec fn valid_in(self, cs: ConstraintSystem) -> bool {
        &&& self.a.kind == ColumnKind::Advice
        &&& self.b.kind == ColumnKind::Advice
        &&& self.c.kind == ColumnKind::Advice
        &&& self.target.kind == ColumnKind::Instance
        &&& self.a != self.b && self.b != self.c && self.a != self.c
        &&& cs.declared(self.a) && cs.declared(self.b) && cs.declared(self.c)
        &&& cs.declared(self.target)
        &&& cs.equality@.contains(self.a) && cs.equality@.contains(self.b)
        &&& cs.equality@.contains(self.c) && cs.equality@.contains(self.target)
        &&& cs.gates@.contains(self.gate())
    }

    /// Checks the configuration against a schema, naming the first flaw.
    pub fn check(&self, cs: &ConstraintSystem) -> (r: Result<(), Error>)
        ensures
            r is Ok <==> self.valid_in(*cs),
    {
        if self.a.kind != ColumnKind::Advice || self.b.kind != ColumnKind::Advice
            || self.c.kind != ColumnKind::Advice || self.target.kind != ColumnKind::Instance
            || self.a == self.b || self.b == self.c || self.a == self.c
            || !cs.is_declared(self.a) || !cs.is_declared(self.b) || !cs.is_declared(self.c)
            || !cs.is_declared(self.target) {
            return Err(Error::UndeclaredColumn);
        }
        if !cs.has_equality(self.a) || !cs.has_equality(self.b) || !cs.has_equality(self.c)
            || !cs.has_equality(self.target) {
            return Err(Error::EqualityNotEnabled);
        }
        let g = Gate { selector: self.selector, a: self.a, b: self.b, c: self.c };
        if !cs.has_gate(g) {
            return Err(Error::GateMissing);
        }
        Ok(())
    }
}

/// Lays out and fills the rows of the addition chain.
#[derive(Clone, Copy, Debug)]
pub struct FibChip {
    pub config: FibConfig,
}

impl FibChip {
    /// `r` and `new` are what declaring the chain's schema on `old` gives:
    /// a fresh selector, three fresh advice columns and one fresh instance
    /// column, equality enabled on the four in that order, and the addition
    /// gate.
    pub open spec fn configures(old: ConstraintSystem, r: FibConfig, new: ConstraintSystem) -> bool {
        &&& new.wf()
        &&& r.valid_in(new)
        &&& r.selector == (Selector { index: old.num_selectors })
        &&& r.a == (Column { kind: ColumnKind::Advice, index: old.num_advice })
        &&& r.b == (Column { kind: ColumnKind::Advice, index: (old.num_advice + 1) as usize })
        &&& r.c == (Column { kind: ColumnKind::Advice, index: (old.num_advice + 2) as usize })
        &&& r.target == (Column { kind: ColumnKind::Instance, index: old.num_instance })
        &&& new.num_advice == old.num_advice + 3
        &&& new.num_instance == old.num_instance + 1
        &&& new.num_selectors == old.num_selectors + 1
        &&& new.gates@ == old.gates@.push(r.gate())
        &&& new.equality@ == old.equality@ + seq![r.a, r.b, r.c, r.target]
    }

    /// Declares the chain's columns, enables equality on them, and registers
    /// the addition gate on a fresh selector.
    pub fn configure(meta: &mut ConstraintSystem) -> (r: FibConfig)
        requires
            old(meta).wf(),
            old(meta).num_advice + 3 <= usize::MAX,
            old(meta).num_instance < usize::MAX,
            old(meta).num_selectors < usize::MAX,
        ensures
            FibChip::configures(*old(meta), r, *final(meta)),
    {
        let ghost before = *meta;
        let selector = meta.selector();
        let a = meta.advice_column();
        let b = meta.advice_column();
        let c = meta.advice_column();
        let target = meta.instance_column();
        proof {
            assert(!before.equality@.contains(a) && !before.equality@.contains(b)
                && !before.equality@.contains(c) && !before.equality@.contains(target)) by {
                if before.equality@.contains(a) || before.equality@.contains(b)
                    || before.equality@.contains(c) || before.equality@.contains(target) {
                    let x = if before.equality@.contains(a) { a } else if before.equality@.contains(b) {
                        b
                    } else if before.equality@.contains(c) { c } else { target };
                    let k = choose|k: int| 0 <= k < before.equality@.len() && before.equality@[k] == x;
                    assert(before.declared(before.equality@[k]));
                }
            }
        }
        let _ = meta.enable_equality(a);
        let _ = meta.enable_equality(b);
        let _ = meta.enable_equality(c);
        let _ = meta.enable_equality(target);
        proof {
            assert(meta.equality@ =~= before.equality@ + seq![a, b, c, target]);
        }
        let ghost fresh = meta.gates@;
        proof {
            assert forall|i: int| 0 <= i < fresh.len() implies #[trigger] fresh[i].selector
                != selector by {
                assert(meta.gate_declared(fresh[i]));
            }
        }
        let _ = meta.create_gate(selector, a, b, c);
        proof {
            assert(meta.gates@[meta.gates@.len() - 1] == Gate { selector, a, b, c });
        }
        FibConfig { selector, a, b, c, target }
    }
}

} // verus!
