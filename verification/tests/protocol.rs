use bellman::groth16::{create_random_proof, generate_random_parameters, Parameters};
use bellman::{Circuit, ConstraintSystem, LinearCombination, SynthesisError, Variable};
use bls12_381::{Bls12, G1Affine, G2Affine, Scalar};
use rand::thread_rng;
use zkp_mimc::error::Error;
use zkp_mimc::field::Fe;
use zkp_mimc::groth16::{
    decode, encode, judge, verify, verify_encoded, Proof, VerifyingKey, PROOF_BYTES,
};
use zkp_mimc::mimc::mimc;
use zkp_mimc::protocol::{Answer, Orchestrator, Phase, Request};
use zkp_mimc::r1cs::{Assignment, System, Term, Wire};

fn scalar(element: &Fe) -> Scalar {
    Scalar::from_bytes(&element.to_bytes()).unwrap()
}

struct Replay<'a> {
    system: &'a System,
    witness: Option<&'a Assignment>,
}

fn combination(
    terms: &[Term],
    one: Variable,
    public: &[Variable],
    private: &[Variable],
) -> LinearCombination<Scalar> {
    let mut sum = LinearCombination::zero();
    for term in terms {
        let variable = match term.wire {
            Wire::One => one,
            Wire::Public(i) => public[i],
            Wire::Private(i) => private[i],
        };
        sum = sum + (scalar(&term.coeff), variable);
    }
    sum
}

impl<'a> Circuit<Scalar> for Replay<'a> {
    fn synthesize<CS: ConstraintSystem<Scalar>>(self, cs: &mut CS) -> Result<(), SynthesisError> {
        let mut public = Vec::new();
        for i in 0..self.system.public {
            let value = self.witness.map(|w| scalar(&w.public[i]));
            public.push(cs.alloc_input(
                || "public",
                || value.ok_or(SynthesisError::AssignmentMissing),
            )?);
        }
        let mut private = Vec::new();
        for i in 0..self.system.private {
            let value = self.witness.map(|w| scalar(&w.private[i]));
            private.push(cs.alloc(
                || "private",
                || value.ok_or(SynthesisError::AssignmentMissing),
            )?);
        }
        for constraint in self.system.constraints.iter() {
            cs.enforce(
                || "constraint",
                |_| combination(&constraint.a, CS::one(), &public, &private),
                |_| combination(&constraint.b, CS::one(), &public, &private),
                |_| combination(&constraint.c, CS::one(), &public, &private),
            );
        }
        Ok(())
    }
}

fn key_of(parameters: &Parameters<Bls12>) -> VerifyingKey {
    VerifyingKey {
        alpha_g1: parameters.vk.alpha_g1,
        beta_g1: parameters.vk.beta_g1,
        beta_g2: parameters.vk.beta_g2,
        gamma_g2: parameters.vk.gamma_g2,
        delta_g1: parameters.vk.delta_g1,
        delta_g2: parameters.vk.delta_g2,
        ic: parameters.vk.ic.clone(),
    }
}

struct Backend {
    parameters: Option<Parameters<Bls12>>,
}

impl Backend {
    fn key(&self) -> VerifyingKey {
        key_of(self.parameters.as_ref().unwrap())
    }

    fn serve(&mut self, request: &Request) -> Answer {
        match request {
            Request::Setup { system } => {
                let circuit = Replay { system, witness: None };
                match generate_random_parameters::<Bls12, _, _>(circuit, &mut thread_rng()) {
                    Ok(parameters) => {
                        let key = key_of(&parameters);
                        self.parameters = Some(parameters);
                        Answer::KeysReady { key }
                    }
                    Err(_) => Answer::SetupFailed,
                }
            }
            Request::Prove { system, witness } => {
                let circuit = Replay { system, witness: Some(witness) };
                let parameters = self.parameters.as_ref().unwrap();
                match create_random_proof(circuit, parameters, &mut thread_rng()) {
                    Ok(proof) => {
                        Answer::ProofReady { proof: Proof { a: proof.a, b: proof.b, c: proof.c } }
                    }
                    Err(_) => Answer::ProveFailed,
                }
            }
            Request::Finish { .. } => unreachable!(),
        }
    }
}

fn finished(request: &Request) -> Option<Result<bool, Error>> {
    match request {
        Request::Finish { outcome } => Some(*outcome),
        _ => None,
    }
}

/// Runs the protocol to its end. `relay` sees every answer of the backend
/// before the orchestrator does. Returns the outcome and the proof that the
/// orchestrator was given.
fn run_through(
    a: u64,
    b: u64,
    relay: impl Fn(Answer) -> Answer,
) -> (Result<bool, Error>, Option<Proof>) {
    let mut backend = Backend { parameters: None };
    let mut proof_seen = None;
    let (mut orchestrator, mut request) = Orchestrator::start(a, b);
    loop {
        if let Some(outcome) = finished(&request) {
            assert_eq!(orchestrator.phase(), Phase::Finished);
            assert_eq!(orchestrator.outcome(), Some(outcome));
            return (outcome, proof_seen);
        }
        let answer = relay(backend.serve(&request));
        if let Answer::ProofReady { proof } = &answer {
            proof_seen = Some(*proof);
        }
        let next = orchestrator.receive(answer);
        orchestrator = next.0;
        request = next.1;
    }
}

fn run(a: u64, b: u64) -> Result<bool, Error> {
    run_through(a, b, |answer| answer).0
}

/// Keys and one valid proof for a run on `a` and `b`, to verify variations
/// against without generating keys again.
struct Session {
    backend: Backend,
    constants: Vec<Fe>,
    image: Fe,
    proof: Proof,
}

fn session(a: u64, b: u64) -> Session {
    let mut backend = Backend { parameters: None };
    let (run, request) = Orchestrator::start(a, b);
    let constants = run.constants().to_vec();
    let image = run.image();
    let (_, request) = run.receive(backend.serve(&request));
    match backend.serve(&request) {
        Answer::ProofReady { proof } => Session { backend, constants, image, proof },
        other => panic!("unexpected answer {:?}", other),
    }
}

#[test]
fn one_plus_two_round_trips() {
    assert_eq!(run(1, 2), Ok(true));
}

#[test]
fn zero_plus_zero_round_trips() {
    assert_eq!(run(0, 0), Ok(true));
}

#[test]
fn the_largest_inputs_round_trip() {
    assert_eq!(run(u64::MAX, u64::MAX), Ok(true));
}

#[test]
fn the_image_of_one_plus_two_is_the_round_function_of_three_and_zero() {
    let session = session(1, 2);
    let image = mimc(Fe::from_u64(3), Fe::from_u64(0), &session.constants);
    assert!(session.image.equals(&image));
    assert_eq!(verify(&session.backend.key(), &session.proof, &[image]), Some(true));
}

#[test]
fn a_proof_is_192_bytes() {
    let session = session(5, 6);
    assert_eq!(PROOF_BYTES, 192);
    assert_eq!(encode(&session.proof).len(), PROOF_BYTES);
}

#[test]
fn encoding_is_what_the_backend_writes() {
    let session = session(5, 6);
    let proof = session.proof;
    let mut written = Vec::new();
    bellman::groth16::Proof::<Bls12> { a: proof.a, b: proof.b, c: proof.c }
        .write(&mut written)
        .unwrap();
    assert_eq!(encode(&proof), written);
}

#[test]
fn decoding_reads_back_what_was_encoded() {
    let session = session(1, 2);
    let bytes = encode(&session.proof);
    assert_eq!(decode(&bytes), Ok(session.proof));
    let read = bellman::groth16::Proof::<Bls12>::read(&bytes[..]).unwrap();
    let decoded = decode(&bytes).unwrap();
    assert_eq!((decoded.a, decoded.b, decoded.c), (read.a, read.b, read.c));
}

#[test]
fn a_perturbed_public_input_is_rejected_without_an_error() {
    let session = session(1, 2);
    let key = session.backend.key();
    let bytes = encode(&session.proof);
    assert_eq!(verify_encoded(&key, &bytes, &[session.image]), Ok(true));
    for other in [0u64, 1, 3, 218, u64::MAX] {
        assert_eq!(verify_encoded(&key, &bytes, &[Fe::from_u64(other)]), Ok(false));
        assert_eq!(verify(&key, &session.proof, &[Fe::from_u64(other)]), Some(false));
    }
}

#[test]
fn a_missing_public_input_is_rejected_without_an_error() {
    let session = session(1, 2);
    let key = session.backend.key();
    assert_eq!(verify_encoded(&key, &encode(&session.proof), &[]), Ok(false));
}

#[test]
fn an_extra_public_input_is_rejected_without_an_error() {
    let session = session(1, 2);
    let key = session.backend.key();
    let inputs = [session.image, Fe::from_u64(0)];
    assert_eq!(verify_encoded(&key, &encode(&session.proof), &inputs), Ok(false));
}

#[test]
fn a_run_on_other_inputs_rejects_the_proof() {
    // The same constants, hence the same circuit and keys, but another sum:
    // the image differs, and the proof of the first run is not one for it.
    let session = session(1, 2);
    let (run, _) = Orchestrator::begin(1, 3, session.constants.clone());
    assert!(!run.image().equals(&session.image));
    let (run, _) = run.receive(Answer::KeysReady { key: session.backend.key() });
    let (run, request) = run.receive(Answer::ProofReady { proof: session.proof });
    assert_eq!(run.outcome(), Some(Ok(false)));
    assert_eq!(finished(&request), Some(Ok(false)));
}

#[test]
fn a_run_on_the_same_sum_accepts_the_proof() {
    let session = session(1, 2);
    let (run, _) = Orchestrator::begin(3, 0, session.constants.clone());
    let (run, _) = run.receive(Answer::KeysReady { key: session.backend.key() });
    let (run, request) = run.receive(Answer::ProofReady { proof: session.proof });
    assert_eq!(run.outcome(), Some(Ok(true)));
    assert_eq!(finished(&request), Some(Ok(true)));
}

#[test]
fn two_runs_on_the_same_inputs_give_different_proofs_that_both_verify() {
    let (first_outcome, first_proof) = run_through(1, 2, |answer| answer);
    let (second_outcome, second_proof) = run_through(1, 2, |answer| answer);
    assert_eq!(first_outcome, Ok(true));
    assert_eq!(second_outcome, Ok(true));
    assert_ne!(encode(&first_proof.unwrap()), encode(&second_proof.unwrap()));
}

#[test]
fn proving_twice_under_one_key_gives_two_proofs_that_both_verify() {
    let mut first = session(1, 2);
    let (run, _) = Orchestrator::begin(1, 2, first.constants.clone());
    let (_, request) = run.receive(Answer::KeysReady { key: first.backend.key() });
    let second = match first.backend.serve(&request) {
        Answer::ProofReady { proof } => proof,
        other => panic!("unexpected answer {:?}", other),
    };
    assert_ne!(encode(&first.proof), encode(&second));
    let key = first.backend.key();
    assert_eq!(verify(&key, &first.proof, &[first.image]), Some(true));
    assert_eq!(verify(&key, &second, &[first.image]), Some(true));
}

#[test]
fn a_proof_does_not_verify_under_the_keys_of_another_run() {
    let first = session(1, 2);
    let second = session(1, 2);
    let bytes = encode(&first.proof);
    assert_eq!(verify_encoded(&second.backend.key(), &bytes, &[first.image]), Ok(false));
    assert_eq!(verify_encoded(&second.backend.key(), &bytes, &[second.image]), Ok(false));
}

#[test]
fn a_truncated_proof_is_a_decode_error() {
    let session = session(1, 2);
    let key = session.backend.key();
    let bytes = encode(&session.proof);
    for length in [0usize, 1, 47, 48, 100, 144, 191] {
        assert_eq!(decode(&bytes[..length]), Err(Error::DecodeError));
        let outcome = verify_encoded(&key, &bytes[..length], &[session.image]);
        assert_eq!(outcome, Err(Error::DecodeError));
    }
}

#[test]
fn bytes_after_the_proof_are_not_read() {
    let session = session(1, 2);
    let mut bytes = encode(&session.proof);
    bytes.extend_from_slice(&[1, 2, 3]);
    assert_eq!(decode(&bytes), Ok(session.proof));
    assert_eq!(verify_encoded(&session.backend.key(), &bytes, &[session.image]), Ok(true));
}

#[test]
fn bytes_that_are_no_points_are_a_decode_error() {
    assert_eq!(decode(&[0u8; 192]), Err(Error::DecodeError));
    assert_eq!(decode(&[0xffu8; 192]), Err(Error::DecodeError));
    assert_eq!(decode(&[]), Err(Error::DecodeError));
}

#[test]
fn a_corrupted_proof_never_verifies() {
    let session = session(1, 2);
    let key = session.backend.key();
    let bytes = encode(&session.proof);
    for position in (0..PROOF_BYTES).step_by(3) {
        let mut corrupted = bytes.clone();
        corrupted[position] ^= 0x01;
        let outcome = verify_encoded(&key, &corrupted, &[session.image]);
        assert!(outcome == Err(Error::DecodeError) || outcome == Ok(false));
    }
}

#[test]
fn a_proof_with_a_point_at_infinity_ends_a_run_with_a_decode_error() {
    let (outcome, _) = run_through(1, 2, |answer| match answer {
        Answer::ProofReady { proof } => {
            Answer::ProofReady { proof: Proof { a: G1Affine::identity(), ..proof } }
        }
        other => other,
    });
    assert_eq!(outcome, Err(Error::DecodeError));
}

#[test]
fn a_witness_that_does_not_satisfy_the_system_gives_no_valid_proof() {
    let mut backend = Backend { parameters: None };
    let (run, request) = Orchestrator::start(1, 2);
    let (run, request) = run.receive(backend.serve(&request));
    let forged = match request {
        Request::Prove { system, mut witness } => {
            witness.public[0] = Fe::from_u64(7);
            assert!(!system.satisfied_by(&witness));
            Request::Prove { system, witness }
        }
        other => other,
    };
    let proof = match backend.serve(&forged) {
        Answer::ProofReady { proof } => proof,
        other => panic!("unexpected answer {:?}", other),
    };
    assert_eq!(verify(&backend.key(), &proof, &[Fe::from_u64(7)]), Some(false));
    let (run, request) = run.receive(Answer::ProofReady { proof });
    assert_eq!(run.outcome(), Some(Ok(false)));
    assert_eq!(finished(&request), Some(Ok(false)));
}

/// A point of the second group that lies on no curve: both coordinates zero.
fn unsound_g2() -> G2Affine {
    G2Affine::from_uncompressed_unchecked(&[0u8; 192]).unwrap()
}

/// A point of the first group that lies on no curve: both coordinates zero.
fn unsound_g1() -> G1Affine {
    G1Affine::from_uncompressed_unchecked(&[0u8; 96]).unwrap()
}

#[test]
fn keys_and_proofs_of_the_backend_are_sound() {
    let session = session(1, 2);
    assert!(session.backend.key().is_sound());
    assert!(session.proof.is_sound());
    assert!(decode(&encode(&session.proof)).unwrap().is_sound());
}

#[test]
fn a_point_on_no_curve_is_not_sound() {
    let session = session(1, 2);
    assert!(!Proof { a: unsound_g1(), ..session.proof }.is_sound());
    assert!(!Proof { b: unsound_g2(), ..session.proof }.is_sound());
    assert!(!Proof { c: unsound_g1(), ..session.proof }.is_sound());
    assert!(!VerifyingKey { alpha_g1: unsound_g1(), ..session.backend.key() }.is_sound());
    assert!(!VerifyingKey { beta_g1: unsound_g1(), ..session.backend.key() }.is_sound());
    assert!(!VerifyingKey { beta_g2: unsound_g2(), ..session.backend.key() }.is_sound());
    assert!(!VerifyingKey { gamma_g2: unsound_g2(), ..session.backend.key() }.is_sound());
    assert!(!VerifyingKey { delta_g1: unsound_g1(), ..session.backend.key() }.is_sound());
    assert!(!VerifyingKey { delta_g2: unsound_g2(), ..session.backend.key() }.is_sound());
    let mut key = session.backend.key();
    key.ic[1] = unsound_g1();
    assert!(!key.is_sound());
}

#[test]
fn the_verifier_is_not_asked_about_a_key_on_no_curve() {
    let session = session(1, 2);
    let bytes = encode(&session.proof);
    for key in [
        VerifyingKey { beta_g2: unsound_g2(), ..session.backend.key() },
        VerifyingKey { gamma_g2: unsound_g2(), ..session.backend.key() },
        VerifyingKey { delta_g2: unsound_g2(), ..session.backend.key() },
        VerifyingKey { alpha_g1: unsound_g1(), ..session.backend.key() },
    ] {
        assert_eq!(verify(&key, &session.proof, &[session.image]), None);
        assert_eq!(judge(&key, &session.proof, &[session.image]), Err(Error::SetupError));
        assert_eq!(verify_encoded(&key, &bytes, &[session.image]), Err(Error::SetupError));
        assert_eq!(verify_encoded(&key, &bytes[..100], &[session.image]), Err(Error::DecodeError));
    }
}

#[test]
fn the_verifier_is_not_asked_about_a_proof_on_no_curve() {
    let session = session(1, 2);
    let key = session.backend.key();
    for proof in [
        Proof { a: unsound_g1(), ..session.proof },
        Proof { b: unsound_g2(), ..session.proof },
        Proof { c: unsound_g1(), ..session.proof },
    ] {
        assert_eq!(verify(&key, &proof, &[session.image]), None);
        assert_eq!(judge(&key, &proof, &[session.image]), Err(Error::DecodeError));
    }
    assert_eq!(judge(&key, &session.proof, &[session.image]), Ok(true));
    assert_eq!(judge(&key, &session.proof, &[Fe::from_u64(1)]), Ok(false));
}

#[test]
fn a_key_on_no_curve_ends_a_run_as_a_failed_setup() {
    let (outcome, _) = run_through(1, 2, |answer| match answer {
        Answer::KeysReady { key } => {
            Answer::KeysReady { key: VerifyingKey { beta_g2: unsound_g2(), ..key } }
        }
        other => other,
    });
    assert_eq!(outcome, Err(Error::SetupError));
}

#[test]
fn a_proof_on_no_curve_never_verifies() {
    for change in 0..3 {
        let (outcome, _) = run_through(1, 2, move |answer| match answer {
            Answer::ProofReady { proof } => Answer::ProofReady {
                proof: match change {
                    0 => Proof { a: unsound_g1(), ..proof },
                    1 => Proof { b: unsound_g2(), ..proof },
                    _ => Proof { c: unsound_g1(), ..proof },
                },
            },
            other => other,
        });
        assert!(outcome == Err(Error::DecodeError) || outcome == Ok(false));
    }
}
