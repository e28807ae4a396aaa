//! Elements of the Pallas base field, held as their canonical 32-byte
//! little-endian encoding, and witness values that may be unknown.

use halo2_proofs::arithmetic::FieldExt;
use halo2_proofs::pasta::group::ff::PrimeField;
use halo2_proofs::pasta::Fp;
use vstd::prelude::*;

verus! {

/// The order of the field in which every cell value lives.
pub open spec fn modulus() -> nat {
    0x40000000000000000000000000000000224698fc094cf91b992d30ed00000001nat
}

/// The number that a little-endian byte string encodes.
pub open spec fn le_nat(s: Seq<u8>) -> nat
    decreases s.len(),
{
    if s.len() == 0 {
        0
    } else {
        s[0] as nat + 256 * le_nat(s.subrange(1, s.len() as int))
    }
}

proof fn lemma_le_nat_injective(s: Seq<u8>, t: Seq<u8>)
    requires
        s.len() == t.len(),
        le_nat(s) == le_nat(t),
    ensures
        s == t,
    decreases s.len(),
{
    if s.len() > 0 {
        let rs = s.subrange(1, s.len() as int);
        let rt = t.subrange(1, t.len() as int);
        vstd::arithmetic::div_mod::lemma_fundamental_div_mod_converse(
            le_nat(s) as int, 256, le_nat(rs) as int, s[0] as int);
        vstd::arithmetic::div_mod::lemma_fundamental_div_mod_converse(
            le_nat(t) as int, 256, le_nat(rt) as int, t[0] as int);
        lemma_le_nat_injective(rs, rt);
        assert(s =~= seq![s[0]] + rs);
        assert(t =~= seq![t[0]] + rt);
    }
}

/// Relies on pasta_curves' `impl From<u64> for Fp` and `PrimeField::to_repr`:
/// the element equal to `x`, in its canonical little-endian encoding.
#[verifier::external_body]
fn pasta_from_u64(x: u64) -> (r: [u8; 32])
    ensures
        le_nat(r@) == x,
{
    Fp::from(x).to_repr()
}

/// Relies on pasta_curves' `Fp::add` (with `PrimeField::from_repr` and
/// `to_repr` for the encoding): the sum of two canonical elements, reduced
/// modulo the field's order.
#[verifier::external_body]
fn pasta_add(x: &[u8; 32], y: &[u8; 32]) -> (r: [u8; 32])
    requires
        le_nat(x@) < modulus(),
        le_nat(y@) < modulus(),
    ensures
        le_nat(r@) == (le_nat(x@) + le_nat(y@)) % modulus(),
{
    let fx = Fp::from_repr(*x).unwrap();
    let fy = Fp::from_repr(*y).unwrap();
    Fp::add(&fx, &fy).to_repr()
}

/// A field element: the canonical encoding of a number below `modulus()`.
#[derive(Clone, Copy, Debug, PartialEq, Eq)]
pub struct Felt {
    repr: [u8; 32],
}

impl Felt {
    #[verifier::type_invariant]
    spec fn canonical(self) -> bool {
        le_nat(self.repr@) < modulus()
    }

    /// The number this element stands for.
    pub closed spec fn val(self) -> nat {
        le_nat(self.repr@) % modulus()
    }

    pub proof fn lemma_val_bound(self)
        ensures
            self.val() < modulus(),
    {
    }

    /// The element equal to the integer `x`.
    pub fn from_u64(x: u64) -> (r: Felt)
        ensures
            r.val() == x,
    {
        let repr = pasta_from_u64(x);
        proof {
            assert(u64::MAX < modulus());
            vstd::arithmetic::div_mod::lemma_small_mod(x as nat, modulus());
        }
        Felt { repr }
    }

    /// The sum of two elements in the field.
    pub fn add(&self, other: &Felt) -> (r: Felt)
        ensures
            r.val() == (self.val() + other.val()) % modulus(),
    {
        proof {
            use_type_invariant(self);
            use_type_invariant(other);
        }
        let repr = pasta_add(&self.repr, &other.repr);
        proof {
            vstd::arithmetic::div_mod::lemma_mod_twice(
                (le_nat(self.repr@) + le_nat(other.repr@)) as int, modulus() as int);
            vstd::arithmetic::div_mod::lemma_small_mod(le_nat(self.repr@), modulus());
            vstd::arithmetic::div_mod::lemma_small_mod(le_nat(other.repr@), modulus());
        }
        Felt { repr }
    }

    /// Whether two elements are equal.
    pub fn equals(&self, other: &Felt) -> (r: bool)
        ensures
            r == (self.val() == other.val()),
    {
        proof {
            use_type_invariant(self);
            use_type_invariant(other);
            vstd::arithmetic::div_mod::lemma_small_mod(le_nat(self.repr@), modulus());
            vstd::arithmetic::div_mod::lemma_small_mod(le_nat(other.repr@), modulus());
            assert(self.val() == other.val() ==> self.repr@ == other.repr@) by {
                if self.val() == other.val() {
                    lemma_le_nat_injective(self.repr@, other.repr@);
                }
            }
        }
        let mut i: usize = 0;
        while i < 32
            invariant
                i <= 32,
                self.val() == other.val() ==> self.repr@ == other.repr@,
                forall|j: int| 0 <= j < i ==> self.repr@[j] == other.repr@[j],
            decreases 32 - i,
        {
            if self.repr[i] != other.repr[i] {
                return false;
            }
            i = i + 1;
        }
        proof {
            assert(self.repr@ =~= other.repr@);
        }
        true
    }

    /// The canonical little-endian encoding of the element.
    pub fn to_bytes(&self) -> (r: [u8; 32])
        ensures
            le_nat(r@) == self.val(),
    {
        proof {
            use_type_invariant(self);
            vstd::arithmetic::div_mod::lemma_small_mod(le_nat(self.repr@), modulus());
        }
        self.repr
    }
}

/// A cell value: known to the prover, or left unknown while keys are made.
#[derive(Clone, Copy, Debug)]
pub enum Value {
    Known(Felt),
    Unknown,
}

impl Value {
    /// `c` is what the sum of `a` and `b` yields: unknown as soon as either
    /// is.
    pub open spec fn is_sum_of(self, a: Value, b: Value) -> bool {
        match (a, b) {
            (Value::Known(x), Value::Known(y)) => match self {
                Value::Known(z) => z.val() == (x.val() + y.val()) % modulus(),
                Value::Unknown => false,
            },
            _ => self is Unknown,
        }
    }

    /// The sum of two values.
    pub fn add(&self, other: &Value) -> (r: Value)
        ensures
            r.is_sum_of(*self, *other),
    {
        match (self, other) {
            (Value::Known(x), Value::Known(y)) => Value::Known(x.add(y)),
            _ => Value::Unknown,
        }
    }

    /// Whether the value is known.
    pub fn is_known(&self) -> (r: bool)
        ensures
            r == (*self is Known),
    {
        match self {
            Value::Known(_) => true,
            Value::Unknown => false,
        }
    }
}

} // verus!
