//! What the library holds of the Groth16 backend: proofs and verifying keys
//! as the curve points they are made of, the proof's byte encoding, and the
//! verifier.
//!
//! The points are values of `bls12_381`, carried through and never looked
//! into. Encoding, decoding and verification are `bellman`'s; each has a name
//! here for what it gives, so that the protocol can say exactly what it
//! passes on. A point can be made that lies on no curve, and the verifier is
//! not made for such points: a key and a proof are tested before they reach
//! it.

use crate::error::Error;
use crate::field::{le_value, modulus, values, Fe};
use bellman::groth16::{prepare_verifying_key, verify_proof};
use bls12_381::{Bls12, G1Affine, G2Affine, Scalar};
use vstd::prelude::*;

verus! {

/// A point of the first group of BLS12-381. Nothing of it is known here.
#[verifier::external_type_specification]
#[verifier::external_body]
pub struct ExG1Affine(G1Affine);

/// A point of the second group of BLS12-381. Nothing of it is known here.
#[verifier::external_type_specification]
#[verifier::external_body]
pub struct ExG2Affine(G2Affine);

/// The number of bytes of an encoded proof: 48 for each point of the first
/// group and 96 for the point of the second.
pub const PROOF_BYTES: usize = 192;

/// A proof: the three points of `bellman::groth16::Proof`.
#[derive(Clone, Copy, Debug, PartialEq, Eq)]
pub struct Proof {
    pub a: G1Affine,
    pub b: G2Affine,
    pub c: G1Affine,
}

/// A verifying key: the points of `bellman::groth16::VerifyingKey`, one of
/// `ic` for the constant wire and one for each public input.
#[derive(Debug, PartialEq, Eq)]
pub struct VerifyingKey {
    pub alpha_g1: G1Affine,
    pub beta_g1: G1Affine,
    pub beta_g2: G2Affine,
    pub gamma_g2: G2Affine,
    pub delta_g1: G1Affine,
    pub delta_g2: G2Affine,
    pub ic: Vec<G1Affine>,
}

/// Whether a point of the first group is on the curve: what
/// `G1Affine::is_on_curve` answers.
pub uninterp spec fn on_curve_g1(point: G1Affine) -> bool;

/// Whether a point of the first group is in the subgroup of prime order: what
/// `G1Affine::is_torsion_free` answers.
pub uninterp spec fn torsion_free_g1(point: G1Affine) -> bool;

/// Whether a point of the second group is on the curve: what
/// `G2Affine::is_on_curve` answers.
pub uninterp spec fn on_curve_g2(point: G2Affine) -> bool;

/// Whether a point of the second group is in the subgroup of prime order:
/// what `G2Affine::is_torsion_free` answers.
pub uninterp spec fn torsion_free_g2(point: G2Affine) -> bool;

/// Whether a point of the first group is one that the verifier is made for.
pub open spec fn sound_g1(point: G1Affine) -> bool {
    on_curve_g1(point) && torsion_free_g1(point)
}

/// Whether a point of the second group is one that the verifier is made for.
pub open spec fn sound_g2(point: G2Affine) -> bool {
    on_curve_g2(point) && torsion_free_g2(point)
}

/// Whether every point of the sequence is sound.
pub open spec fn all_sound_g1(points: Seq<G1Affine>) -> bool {
    forall|i: int| 0 <= i < points.len() ==> sound_g1(#[trigger] points[i])
}

/// Whether every point of the proof is sound.
pub open spec fn sound_proof(proof: Proof) -> bool {
    sound_g1(proof.a) && sound_g2(proof.b) && sound_g1(proof.c)
}

/// Whether every point of the key is sound.
pub open spec fn sound_key(key: VerifyingKey) -> bool {
    &&& sound_g1(key.alpha_g1)
    &&& sound_g1(key.beta_g1)
    &&& sound_g2(key.beta_g2)
    &&& sound_g2(key.gamma_g2)
    &&& sound_g1(key.delta_g1)
    &&& sound_g2(key.delta_g2)
    &&& all_sound_g1(key.ic@)
}

/// The bytes that a proof is written as: what `Proof::write` writes.
pub uninterp spec fn encoding(proof: Proof) -> Seq<u8>;

/// The proof that a byte string decodes to, if it decodes: what `Proof::read`
/// makes of these bytes.
pub uninterp spec fn decoding(bytes: Seq<u8>) -> Option<Proof>;

/// Whether the verifier accepts the proof for these public inputs under the
/// key: whether `verify_proof` returns `Ok` on them, with the key prepared by
/// `prepare_verifying_key`.
pub uninterp spec fn accepts(key: VerifyingKey, proof: Proof, public_inputs: Seq<nat>) -> bool;

/// The numbers that a sequence of little-endian encodings stands for.
pub open spec fn decoded_values(encodings: Seq<[u8; 32]>) -> Seq<nat> {
    Seq::new(encodings.len(), |i: int| le_value(encodings[i]@))
}

/// Calls `G1Affine::is_on_curve`, which tests the curve equation and answers
/// for every point, also one made without checks.
#[verifier::external_body]
fn g1_on_curve(point: &G1Affine) -> (on_curve: bool)
    ensures
        on_curve == on_curve_g1(*point),
{
    bool::from(point.is_on_curve())
}

/// Calls `G1Affine::is_torsion_free`, which tests membership of the subgroup
/// of prime order and answers for every point.
#[verifier::external_body]
fn g1_torsion_free(point: &G1Affine) -> (torsion_free: bool)
    ensures
        torsion_free == torsion_free_g1(*point),
{
    bool::from(point.is_torsion_free())
}

/// Calls `G2Affine::is_on_curve`, which tests the curve equation and answers
/// for every point, also one made without checks.
#[verifier::external_body]
fn g2_on_curve(point: &G2Affine) -> (on_curve: bool)
    ensures
        on_curve == on_curve_g2(*point),
{
    bool::from(point.is_on_curve())
}

/// Calls `G2Affine::is_torsion_free`, which tests membership of the subgroup
/// of prime order and answers for every point.
#[verifier::external_body]
fn g2_torsion_free(point: &G2Affine) -> (torsion_free: bool)
    ensures
        torsion_free == torsion_free_g2(*point),
{
    bool::from(point.is_torsion_free())
}

/// Whether a point of the first group is sound.
fn g1_is_sound(point: &G1Affine) -> (sound: bool)
    ensures
        sound == sound_g1(*point),
{
    g1_on_curve(point) && g1_torsion_free(point)
}

/// Whether a point of the second group is sound.
fn g2_is_sound(point: &G2Affine) -> (sound: bool)
    ensures
        sound == sound_g2(*point),
{
    g2_on_curve(point) && g2_torsion_free(point)
}

impl Proof {
    /// Whether every point of the proof is sound.
    pub fn is_sound(&self) -> (sound: bool)
        ensures
            sound == sound_proof(*self),
    {
        g1_is_sound(&self.a) && g2_is_sound(&self.b) && g1_is_sound(&self.c)
    }
}

impl VerifyingKey {
    /// Whether every point of the key is sound.
    pub fn is_sound(&self) -> (sound: bool)
        ensures
            sound == sound_key(*self),
    {
        if !(g1_is_sound(&self.alpha_g1) && g1_is_sound(&self.beta_g1) && g2_is_sound(
            &self.beta_g2,
        ) && g2_is_sound(&self.gamma_g2) && g1_is_sound(&self.delta_g1) && g2_is_sound(
            &self.delta_g2,
        )) {
            return false;
        }
        let mut i: usize = 0;
        while i < self.ic.len()
            invariant
                i <= self.ic@.len(),
                forall|j: int| 0 <= j < i ==> sound_g1(#[trigger] self.ic@[j]),
            decreases self.ic@.len() - i,
        {
            if !g1_is_sound(&self.ic[i]) {
                return false;
            }
            i += 1;
        }
        true
    }
}

/// Calls `bellman::groth16::Proof::write` into a fresh buffer. It writes the
/// three points in compressed form, 48, 96 and 48 bytes, and what it writes
/// depends on the proof alone. Writing into a vector does not fail.
#[verifier::external_body]
fn write_proof(proof: &Proof) -> (bytes: Vec<u8>)
    ensures
        bytes@ == encoding(*proof),
        bytes@.len() == PROOF_BYTES,
{
    let mut bytes = Vec::new();
    let proof = bellman::groth16::Proof::<Bls12> { a: proof.a, b: proof.b, c: proof.c };
    let _ = proof.write(&mut bytes);
    bytes
}

/// Calls `bellman::groth16::Proof::read` on the bytes. It reads the three
/// points in compressed form, 48, 96 and 48 bytes, and fails where the bytes
/// run out before that, where a point does not decode, and where one is the
/// point at infinity; bytes after the proof are not read. What it makes of
/// the bytes depends on the bytes alone.
#[verifier::external_body]
fn read_proof(bytes: &[u8]) -> (proof: Option<Proof>)
    ensures
        proof == decoding(bytes@),
        bytes@.len() < PROOF_BYTES ==> proof is None,
{
    match bellman::groth16::Proof::<Bls12>::read(bytes) {
        Ok(proof) => Some(Proof { a: proof.a, b: proof.b, c: proof.c }),
        Err(_) => None,
    }
}

/// Calls `bellman::groth16::prepare_verifying_key` on the key and
/// `bellman::groth16::verify_proof` on what it gives, the proof and the
/// public inputs, and says whether the latter returned `Ok`. The answer
/// depends on the key, the proof and the inputs alone. The inputs come as
/// canonical encodings, which `Scalar::from_bytes` reads back. The pairing
/// is made for points on the curve and in the subgroup of prime order, and
/// on others it may not return: they are left out.
#[verifier::external_body]
fn check_proof(key: &VerifyingKey, proof: &Proof, inputs: &Vec<[u8; 32]>) -> (accepted: bool)
    requires
        sound_key(*key),
        sound_proof(*proof),
        forall|i: int| 0 <= i < inputs@.len() ==> le_value(#[trigger] inputs@[i]@) < modulus(),
    ensures
        accepted == accepts(*key, *proof, decoded_values(inputs@)),
{
    let key = bellman::groth16::VerifyingKey::<Bls12> {
        alpha_g1: key.alpha_g1,
        beta_g1: key.beta_g1,
        beta_g2: key.beta_g2,
        gamma_g2: key.gamma_g2,
        delta_g1: key.delta_g1,
        delta_g2: key.delta_g2,
        ic: key.ic.clone(),
    };
    let proof = bellman::groth16::Proof::<Bls12> { a: proof.a, b: proof.b, c: proof.c };
    let inputs: Vec<Scalar> = inputs.iter().map(|e| Scalar::from_bytes(e).unwrap()).collect();
    verify_proof(&prepare_verifying_key(&key), &proof, &inputs).is_ok()
}

/// Encodes a proof as `PROOF_BYTES` bytes.
pub fn encode(proof: &Proof) -> (bytes: Vec<u8>)
    ensures
        bytes@ == encoding(*proof),
        bytes@.len() == PROOF_BYTES,
{
    write_proof(proof)
}

/// What decoding gives: the proof, or a decode error where there is none.
pub open spec fn decoded(found: Option<Proof>) -> Result<Proof, Error> {
    match found {
        Some(proof) => Ok(proof),
        None => Err(Error::DecodeError),
    }
}

/// Decodes a proof. Fewer than `PROOF_BYTES` bytes never decode.
pub fn decode(bytes: &[u8]) -> (proof: Result<Proof, Error>)
    ensures
        proof == decoded(decoding(bytes@)),
        bytes@.len() < PROOF_BYTES ==> proof == Err::<Proof, Error>(Error::DecodeError),
{
    match read_proof(bytes) {
        Some(proof) => Ok(proof),
        None => Err(Error::DecodeError),
    }
}

/// Has the verifier decide on a sound key and a sound proof.
fn verify_sound(key: &VerifyingKey, proof: &Proof, public_inputs: &[Fe]) -> (accepted: bool)
    requires
        sound_key(*key),
        sound_proof(*proof),
    ensures
        accepted == accepts(*key, *proof, values(public_inputs@)),
{
    let mut encodings: Vec<[u8; 32]> = Vec::new();
    let mut i: usize = 0;
    while i < public_inputs.len()
        invariant
            i <= public_inputs@.len(),
            encodings@.len() == i,
            forall|j: int|
                0 <= j < i ==> le_value(#[trigger] encodings@[j]@) == public_inputs@[j]@
                    && public_inputs@[j]@ < modulus(),
        decreases public_inputs@.len() - i,
    {
        encodings.push(public_inputs[i].to_bytes());
        i += 1;
    }
    assert(decoded_values(encodings@) =~= values(public_inputs@));
    check_proof(key, proof, &encodings)
}

/// Whether the verifier accepts the proof for the public inputs under the
/// key. It is asked only where every point of the key and of the proof is
/// sound; where one is not, there is no answer.
pub fn verify(key: &VerifyingKey, proof: &Proof, public_inputs: &[Fe]) -> (accepted: Option<bool>)
    ensures
        accepted is Some <==> sound_key(*key) && sound_proof(*proof),
        accepted is Some ==> accepted->0 == accepts(*key, *proof, values(public_inputs@)),
{
    if key.is_sound() && proof.is_sound() {
        Some(verify_sound(key, proof, public_inputs))
    } else {
        None
    }
}

/// What the verification phase makes of a proof that was read: a decode
/// error where a point of it is not sound, a setup error where a point of
/// the key is not, and else the verifier's answer, which is no error
/// whichever it is.
pub open spec fn judgement(key: VerifyingKey, proof: Proof, public_inputs: Seq<nat>) -> Result<
    bool,
    Error,
> {
    if !sound_proof(proof) {
        Err(Error::DecodeError)
    } else if !sound_key(key) {
        Err(Error::SetupError)
    } else {
        Ok(accepts(key, proof, public_inputs))
    }
}

/// What the verification phase makes of the bytes of a proof: a decode error
/// where they do not decode, and else its judgement of what they decode to.
pub open spec fn verification(key: VerifyingKey, bytes: Seq<u8>, public_inputs: Seq<nat>) -> Result<
    bool,
    Error,
> {
    match decoding(bytes) {
        Some(proof) => judgement(key, proof, public_inputs),
        None => Err(Error::DecodeError),
    }
}

/// The verification phase on a proof that was read.
pub fn judge(key: &VerifyingKey, proof: &Proof, public_inputs: &[Fe]) -> (outcome: Result<
    bool,
    Error,
>)
    ensures
        outcome == judgement(*key, *proof, values(public_inputs@)),
{
    if !proof.is_sound() {
        Err(Error::DecodeError)
    } else if !key.is_sound() {
        Err(Error::SetupError)
    } else {
        Ok(verify_sound(key, proof, public_inputs))
    }
}

/// The verification phase: decodes the proof and, where it decodes and its
/// points and those of the key are sound, has it verified against the public
/// inputs. A proof that is rejected is not an error. Fewer than `PROOF_BYTES`
/// bytes are a decode error.
pub fn verify_encoded(key: &VerifyingKey, bytes: &[u8], public_inputs: &[Fe]) -> (outcome: Result<
    bool,
    Error,
>)
    ensures
        outcome == verification(*key, bytes@, values(public_inputs@)),
        bytes@.len() < PROOF_BYTES ==> outcome == Err::<bool, Error>(Error::DecodeError),
{
    match decode(bytes) {
        Ok(proof) => judge(key, &proof, public_inputs),
        Err(error) => Err(error),
    }
}

} // verus!
