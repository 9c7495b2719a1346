//! Elements of the BLS12-381 scalar field.
//!
//! An [`Fe`] holds the canonical little-endian encoding of a field element.
//! Its view is the natural number below the modulus that the bytes encode,
//! and every contract in this crate is stated over that number. The
//! arithmetic itself is done by `bls12_381::Scalar`; the functions that call
//! it are the only unverified code in this module, and each says what it
//! relies on.

use bls12_381::Scalar;
use ff::Field;
use vstd::prelude::*;

verus! {

/// The order `q` of the scalar field.
pub open spec fn modulus() -> nat {
    0x73eda753299d7d483339d80809a1d80553bda402fffe5bfeffffffff00000001nat
}

/// Sum in the field.
pub open spec fn fadd(a: nat, b: nat) -> nat {
    (a + b) % modulus()
}

/// Difference in the field.
pub open spec fn fsub(a: nat, b: nat) -> nat {
    ((a as int - b as int) % (modulus() as int)) as nat
}

/// Product in the field.
pub open spec fn fmul(a: nat, b: nat) -> nat {
    (a * b) % modulus()
}

/// The number that a little-endian byte string encodes.
pub open spec fn le_value(bytes: Seq<u8>) -> nat
    decreases bytes.len(),
{
    if bytes.len() == 0 {
        0
    } else {
        bytes[0] as nat + 256 * le_value(bytes.skip(1))
    }
}

/// The values of a sequence of field elements, in order.
pub open spec fn values(elements: Seq<Fe>) -> Seq<nat> {
    Seq::new(elements.len(), |i: int| elements[i]@)
}

/// Two byte strings of one length that encode the same number are the same
/// string.
pub proof fn lemma_le_value_injective(a: Seq<u8>, b: Seq<u8>)
    requires
        a.len() == b.len(),
        le_value(a) == le_value(b),
    ensures
        a == b,
    decreases a.len(),
{
    if a.len() > 0 {
        let ta = le_value(a.skip(1));
        let tb = le_value(b.skip(1));
        assert(a[0] as nat + 256 * ta == b[0] as nat + 256 * tb);
        assert(a[0] == b[0] && ta == tb);
        lemma_le_value_injective(a.skip(1), b.skip(1));
        assert forall|i: int| 0 <= i < a.len() implies a[i] == b[i] by {
            if i > 0 {
                assert(a[i] == a.skip(1)[i - 1]);
                assert(b[i] == b.skip(1)[i - 1]);
            }
        }
    }
    assert(a =~= b);
}

/// An element of the scalar field, held as its canonical encoding.
#[derive(Clone, Copy, Debug)]
pub struct Fe {
    bytes: [u8; 32],
}

impl View for Fe {
    type V = nat;

    closed spec fn view(&self) -> nat {
        le_value(self.bytes@)
    }
}

impl Fe {
    /// The encoding is canonical: it names a number below the modulus.
    #[verifier::type_invariant]
    pub open spec fn canonical(&self) -> bool {
        self@ < modulus()
    }

    /// An element has one encoding: two elements with the same value are the
    /// same, byte for byte.
    pub proof fn lemma_value_determines_element(self, other: Fe)
        requires
            self@ == other@,
        ensures
            self == other,
    {
        lemma_le_value_injective(self.bytes@, other.bytes@);
        assert(self.bytes =~= other.bytes);
    }

    /// The element with the given value.
    pub fn from_u64(value: u64) -> (element: Fe)
        ensures
            element@ == value,
    {
        scalar_from_u64(value)
    }

    /// The canonical little-endian encoding of the element.
    pub fn to_bytes(&self) -> (bytes: [u8; 32])
        ensures
            le_value(bytes@) == self@,
            self@ < modulus(),
    {
        proof {
            use_type_invariant(self);
        }
        self.bytes
    }

    /// Whether two elements are the same element of the field.
    pub fn equals(&self, other: &Fe) -> (same: bool)
        ensures
            same == (self@ == other@),
    {
        let mut i: usize = 0;
        while i < 32
            invariant
                i <= 32,
                forall|j: int| 0 <= j < i ==> self.bytes@[j] == other.bytes@[j],
            decreases 32 - i,
        {
            if self.bytes[i] != other.bytes[i] {
                proof {
                    if self@ == other@ {
                        lemma_le_value_injective(self.bytes@, other.bytes@);
                    }
                }
                return false;
            }
            i += 1;
        }
        assert(self.bytes@ =~= other.bytes@);
        true
    }
}

/// Calls `Scalar::from(u64)`, which gives the element whose value is the
/// integer itself: every `u64` is below the modulus. Like every function
/// here that makes an element, it relies on `Scalar::to_bytes` giving the
/// canonical little-endian encoding.
#[verifier::external_body]
fn scalar_from_u64(value: u64) -> (element: Fe)
    ensures
        element@ == value,
{
    Fe { bytes: Scalar::from(value).to_bytes() }
}

/// Calls `Scalar::add`, which adds modulo the field's order. Like every
/// function here that takes an element, it relies on `Scalar::from_bytes`
/// reading the canonical little-endian encoding back.
#[verifier::external_body]
pub(crate) fn scalar_add(a: &Fe, b: &Fe) -> (sum: Fe)
    ensures
        sum@ == fadd(a@, b@),
{
    let a = Scalar::from_bytes(&a.bytes).unwrap();
    let b = Scalar::from_bytes(&b.bytes).unwrap();
    Fe { bytes: a.add(&b).to_bytes() }
}

/// Calls `Scalar::sub`, which subtracts modulo the field's order.
#[verifier::external_body]
pub(crate) fn scalar_sub(a: &Fe, b: &Fe) -> (difference: Fe)
    ensures
        difference@ == fsub(a@, b@),
{
    let a = Scalar::from_bytes(&a.bytes).unwrap();
    let b = Scalar::from_bytes(&b.bytes).unwrap();
    Fe { bytes: a.sub(&b).to_bytes() }
}

/// Calls `Scalar::mul`, which multiplies modulo the field's order.
#[verifier::external_body]
pub(crate) fn scalar_mul(a: &Fe, b: &Fe) -> (product: Fe)
    ensures
        product@ == fmul(a@, b@),
{
    let a = Scalar::from_bytes(&a.bytes).unwrap();
    let b = Scalar::from_bytes(&b.bytes).unwrap();
    Fe { bytes: a.mul(&b).to_bytes() }
}

/// Calls `Scalar::square`, which multiplies the element by itself modulo the
/// field's order.
#[verifier::external_body]
pub(crate) fn scalar_square(a: &Fe) -> (square: Fe)
    ensures
        square@ == fmul(a@, a@),
{
    Fe { bytes: Scalar::from_bytes(&a.bytes).unwrap().square().to_bytes() }
}

/// Calls `Scalar::random` with the thread's generator. Nothing is promised of
/// the element but that it is one.
#[verifier::external_body]
fn scalar_random() -> (element: Fe) {
    Fe { bytes: Scalar::random(rand::thread_rng()).to_bytes() }
}

/// Samples `count` field elements, each independently of the others.
pub fn sample_constants(count: usize) -> (constants: Vec<Fe>)
    ensures
        constants@.len() == count,
{
    let mut constants: Vec<Fe> = Vec::new();
    let mut i: usize = 0;
    while i < count
        invariant
            i <= count,
            constants@.len() == i,
        decreases count - i,
    {
        constants.push(scalar_random());
        i += 1;
    }
    constants
}

} // verus!
