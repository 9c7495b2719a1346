//! The run of the protocol: setup, prove, verify, strictly in that order.
//!
//! Key generation and proving are the backend's work: the orchestrator hands
//! out one [`Request`] at a time and takes the backend's [`Answer`]. The last
//! phase is its own. It writes the proof out as bytes, reads the bytes back,
//! and has what they decode to verified against the one public input that it
//! computed itself. A run ends with `Ok(true)` or `Ok(false)`, the verifier's
//! answer, or with the [`Error`] that stopped it.

use crate::circuit::{
    all_canonical, lemma_witness_satisfies, mimc_system, mimc_witness, MimcCircuit, Synthesis,
    MIMC_ROUNDS,
};
use crate::error::Error;
use crate::field::{modulus, sample_constants, scalar_add, scalar_sub, values, Fe};
use crate::groth16::{
    accepts, decoding, encode, encoding, sound_key, sound_proof, verification, verify_encoded,
    Proof, VerifyingKey,
};
use crate::mimc::{mimc, round_function};
use crate::r1cs::{Assignment, AssignmentView, System, SystemView};
use vstd::prelude::*;

verus! {

/// Where a run stands: the phase whose answer it waits for.
#[derive(Clone, Copy, Debug, PartialEq, Eq)]
pub enum Phase {
    /// Keys are being generated.
    Setup,
    /// A proof is being made. Its verification follows at once.
    Prove,
    /// The run is over.
    Finished,
}

/// What the orchestrator asks of the backend.
#[derive(Debug)]
pub enum Request {
    /// Generate keys for the constraint system.
    Setup { system: System },
    /// Prove that the witness satisfies the constraint system, under the
    /// keys of this run.
    Prove { system: System, witness: Assignment },
    /// Nothing more: the run is over, with this outcome.
    Finish { outcome: Result<bool, Error> },
}

/// A request as a mathematical object.
pub enum RequestView {
    Setup { system: SystemView },
    Prove { system: SystemView, witness: AssignmentView },
    Finish { outcome: Result<bool, Error> },
}

impl View for Request {
    type V = RequestView;

    open spec fn view(&self) -> RequestView {
        match *self {
            Request::Setup { system } => RequestView::Setup { system: system@ },
            Request::Prove { system, witness } => RequestView::Prove {
                system: system@,
                witness: witness@,
            },
            Request::Finish { outcome } => RequestView::Finish { outcome },
        }
    }
}

/// What the backend answers.
#[derive(Debug, PartialEq, Eq)]
pub enum Answer {
    /// Keys were generated; this is the key to verify with. A key with a
    /// point that is not sound counts as a failed setup.
    KeysReady { key: VerifyingKey },
    /// Key generation failed.
    SetupFailed,
    /// A proof was made.
    ProofReady { proof: Proof },
    /// No proof could be made.
    ProveFailed,
}

/// The state of a run as a mathematical object.
pub struct RunView {
    pub phase: Phase,
    /// The private inputs that the proof is made from.
    pub left: nat,
    pub right: nat,
    /// The round constants, the same in every phase.
    pub constants: Seq<nat>,
    /// The key to verify with, once keys have been made.
    pub key: Option<VerifyingKey>,
    /// How the run ended, once it has.
    pub outcome: Option<Result<bool, Error>>,
}

impl RunView {
    /// The one public input of the run: the round function of its inputs
    /// under its constants.
    pub open spec fn image(self) -> nat {
        round_function(self.left, self.right, self.constants)
    }
}

/// Whether the state is one that a run can be in: it is over exactly when it
/// has an outcome; while it is not over it has the circuit's number of
/// constants; and while a proof is being made it has a key, every point of
/// which is sound.
pub open spec fn well_formed(run: RunView) -> bool {
    &&& run.phase == Phase::Finished <==> run.outcome is Some
    &&& run.phase != Phase::Finished ==> run.constants.len() == MIMC_ROUNDS
    &&& run.phase == Phase::Prove ==> run.key is Some && sound_key(run.key->0)
}

/// The state in which a run on `a` and `b` starts. The sum is folded into
/// `left`, and `right` is their difference from themselves, zero. With the
/// wrong number of constants the run is over before it has begun.
pub open spec fn initial(a: u64, b: u64, constants: Seq<nat>) -> RunView {
    RunView {
        phase: if constants.len() == MIMC_ROUNDS {
            Phase::Setup
        } else {
            Phase::Finished
        },
        left: (a + b) as nat,
        right: 0,
        constants,
        key: None,
        outcome: if constants.len() == MIMC_ROUNDS {
            None
        } else {
            Some(Err(Error::ShapeMismatch))
        },
    }
}

/// What a run asks first: keys for the circuit's shape, or nothing where it
/// could not start.
pub open spec fn first_request(run: RunView) -> RequestView {
    match run.outcome {
        Some(outcome) => RequestView::Finish { outcome },
        None => RequestView::Setup { system: mimc_system(run.constants) },
    }
}

/// What the verification phase gives for a proof: the proof is written out,
/// read back, and what was read is verified under the run's key against the
/// run's image and nothing else.
pub open spec fn verification_of(run: RunView, proof: Proof) -> Result<bool, Error> {
    verification(run.key->0, encoding(proof), seq![run.image()])
}

/// How a proving phase ends with what the verification phase gave; any other
/// phase does not expect it.
pub open spec fn outcome_concluded(run: RunView, verified: Result<bool, Error>) -> Result<
    bool,
    Error,
> {
    match run.phase {
        Phase::Prove => verified,
        Phase::Setup => Err(Error::OutOfOrder),
        Phase::Finished => run.outcome->0,
    }
}

/// How the run ends with this answer, if it does end with it. Setup goes on
/// with a sound key and fails with its own error, also on a key that is not
/// sound. Proving fails with its own error; with a proof, the verification
/// phase follows and ends the run. Any other answer is out of order.
pub open spec fn outcome_after(run: RunView, answer: Answer) -> Option<Result<bool, Error>> {
    match run.phase {
        Phase::Setup => match answer {
            Answer::KeysReady { key } => if sound_key(key) {
                None
            } else {
                Some(Err(Error::SetupError))
            },
            Answer::SetupFailed => Some(Err(Error::SetupError)),
            _ => Some(Err(Error::OutOfOrder)),
        },
        Phase::Prove => match answer {
            Answer::ProofReady { proof } => Some(verification_of(run, proof)),
            Answer::ProveFailed => Some(Err(Error::ProveError)),
            _ => Some(Err(Error::OutOfOrder)),
        },
        Phase::Finished => run.outcome,
    }
}

/// The state after an answer: proving after setup, and else the end.
pub open spec fn advance(run: RunView, answer: Answer) -> RunView {
    match outcome_after(run, answer) {
        Some(outcome) => RunView { phase: Phase::Finished, outcome: Some(outcome), ..run },
        None => RunView { phase: Phase::Prove, key: Some(answer->key), ..run },
    }
}

/// What is asked after an answer. The proof is to be made from the witness
/// of the run's inputs under the run's constants, for the system that the
/// keys were made for.
pub open spec fn request_after(run: RunView, answer: Answer) -> RequestView {
    match outcome_after(run, answer) {
        Some(outcome) => RequestView::Finish { outcome },
        None => RequestView::Prove {
            system: mimc_system(run.constants),
            witness: mimc_witness(run.left, run.right, run.constants),
        },
    }
}

/// The state after a sequence of answers, taken in order.
pub open spec fn replay(run: RunView, answers: Seq<Answer>) -> RunView
    decreases answers.len(),
{
    if answers.len() == 0 {
        run
    } else {
        replay(advance(run, answers[0]), answers.skip(1))
    }
}

/// Every answer leaves a run in a state that a run can be in.
pub proof fn lemma_advance_well_formed(run: RunView, answer: Answer)
    requires
        well_formed(run),
    ensures
        well_formed(advance(run, answer)),
{
}

/// A run that is over stays over, with the outcome it has, whatever comes
/// afterwards.
pub proof fn lemma_finished_is_final(run: RunView, answers: Seq<Answer>)
    requires
        well_formed(run),
        run.phase == Phase::Finished,
    ensures
        replay(run, answers) == run,
    decreases answers.len(),
{
    if answers.len() > 0 {
        assert(advance(run, answers[0]) == run);
        lemma_finished_is_final(run, answers.skip(1));
    }
}

/// The phases come strictly in order, and a failure on the way is never
/// turned into an answer. A run ends with `Ok` only if it started, keys were
/// made and the key was sound, a proof was made, and the bytes of that proof
/// decoded to a sound proof; what it then holds is the verifier's answer on
/// the decoded proof, under that key, for the round function of `a + b` and
/// zero.
pub proof fn lemma_answer_needs_all_phases(
    a: u64,
    b: u64,
    constants: Seq<nat>,
    answers: Seq<Answer>,
)
    ensures
        replay(initial(a, b, constants), answers).outcome matches Some(Ok(accepted)) ==> {
            &&& constants.len() == MIMC_ROUNDS
            &&& answers.len() >= 2
            &&& answers[0] matches Answer::KeysReady { key }
            &&& sound_key(key)
            &&& answers[1] matches Answer::ProofReady { proof }
            &&& decoding(encoding(proof)) matches Some(read)
            &&& sound_proof(read)
            &&& accepted == accepts(key, read, seq![round_function((a + b) as nat, 0, constants)])
        },
{
    let run = initial(a, b, constants);
    if run.phase == Phase::Finished {
        lemma_finished_is_final(run, answers);
    } else if answers.len() >= 1 {
        let first = advance(run, answers[0]);
        let after_first = answers.skip(1);
        assert(replay(run, answers) == replay(first, after_first));
        if first.phase == Phase::Finished {
            lemma_finished_is_final(first, after_first);
        } else if after_first.len() >= 1 {
            let second = advance(first, after_first[0]);
            let after_second = after_first.skip(1);
            assert(replay(first, after_first) == replay(second, after_second));
            lemma_finished_is_final(second, after_second);
        }
    }
}

/// A run in which the backend does its part asks for the right things: keys
/// for the circuit's system, and a proof for that same system from a witness
/// that satisfies it, whose public input is the image that the proof is then
/// verified against: the round function of `a + b` and zero.
pub proof fn lemma_honest_run(a: u64, b: u64, constants: Seq<nat>, key: VerifyingKey, proof: Proof)
    requires
        constants.len() == MIMC_ROUNDS,
        all_canonical(constants),
        sound_key(key),
    ensures
        ({
            let run = initial(a, b, constants);
            let proving = advance(run, Answer::KeysReady { key });
            let system = mimc_system(constants);
            let witness = mimc_witness((a + b) as nat, 0, constants);
            let image = round_function((a + b) as nat, 0, constants);
            &&& first_request(run) == (RequestView::Setup { system })
            &&& request_after(run, Answer::KeysReady { key }) == (RequestView::Prove {
                system,
                witness,
            })
            &&& system.satisfied_by(witness)
            &&& witness.public == seq![image]
            &&& request_after(proving, Answer::ProofReady { proof }) == (RequestView::Finish {
                outcome: verification(key, encoding(proof), seq![image]),
            })
        }),
{
    assert(a + b < modulus());
    lemma_witness_satisfies((a + b) as nat, 0, constants);
}

/// One run of the protocol.
#[derive(Debug)]
pub struct Orchestrator {
    phase: Phase,
    left: Fe,
    right: Fe,
    constants: Vec<Fe>,
    key: Option<VerifyingKey>,
    outcome: Option<Result<bool, Error>>,
}

impl View for Orchestrator {
    type V = RunView;

    closed spec fn view(&self) -> RunView {
        RunView {
            phase: self.phase,
            left: self.left@,
            right: self.right@,
            constants: values(self.constants@),
            key: self.key,
            outcome: self.outcome,
        }
    }
}

impl Orchestrator {
    /// The state is one that a run can be in.
    #[verifier::type_invariant]
    pub open spec fn valid(&self) -> bool {
        well_formed(self@)
    }

    /// Starts a run on `a` and `b` under the given round constants.
    pub fn begin(a: u64, b: u64, constants: Vec<Fe>) -> (started: (Orchestrator, Request))
        ensures
            started.0@ == initial(a, b, values(constants@)),
            started.1@ == first_request(started.0@),
    {
        let addend = Fe::from_u64(b);
        let left = scalar_add(&Fe::from_u64(a), &addend);
        let right = scalar_sub(&addend, &addend);
        let shape = MimcCircuit { left: None, right: None, constants: constants.as_slice() };
        match shape.synthesize() {
            Ok(synthesis) => {
                let Synthesis { system, witness: _ } = synthesis;
                let run = Orchestrator {
                    phase: Phase::Setup,
                    left,
                    right,
                    constants,
                    key: None,
                    outcome: None,
                };
                (run, Request::Setup { system })
            },
            Err(error) => Orchestrator::finish(left, right, constants, None, Err(error)),
        }
    }

    /// Starts a run on `a` and `b` under freshly sampled round constants.
    /// Such a run always starts: its first request is for keys.
    pub fn start(a: u64, b: u64) -> (started: (Orchestrator, Request))
        ensures
            started.0@.constants.len() == MIMC_ROUNDS,
            started.0@ == initial(a, b, started.0@.constants),
            started.1@ == (RequestView::Setup { system: mimc_system(started.0@.constants) }),
    {
        Orchestrator::begin(a, b, sample_constants(MIMC_ROUNDS))
    }

    /// The phase that the run is in.
    pub fn phase(&self) -> (phase: Phase)
        ensures
            phase == self@.phase,
    {
        self.phase
    }

    /// The round constants of the run.
    pub fn constants(&self) -> (constants: &[Fe])
        ensures
            values(constants@) == self@.constants,
    {
        self.constants.as_slice()
    }

    /// The run's public input: the round function of its inputs under its
    /// constants.
    pub fn image(&self) -> (image: Fe)
        ensures
            image@ == self@.image(),
    {
        mimc(self.left, self.right, self.constants.as_slice())
    }

    /// How the run ended, once it is over.
    pub fn outcome(&self) -> (outcome: Option<Result<bool, Error>>)
        ensures
            outcome == self@.outcome,
    {
        self.outcome
    }

    /// Takes the backend's answer and says what is to be done next. On a
    /// proof, the verification phase runs here and ends the run. A witness
    /// that is handed out satisfies the system that it is handed out with.
    pub fn receive(self, answer: Answer) -> (next: (Orchestrator, Request))
        ensures
            next.0@ == advance(self@, answer),
            next.1@ == request_after(self@, answer),
            next.1@ matches RequestView::Prove { system, witness } ==> system.satisfied_by(witness),
    {
        proof {
            use_type_invariant(&self);
        }
        match answer {
            Answer::ProofReady { proof } => {
                let verified = match &self.key {
                    Some(key) => {
                        let mut public_inputs: Vec<Fe> = Vec::new();
                        public_inputs.push(self.image());
                        assert(values(public_inputs@) =~= seq![self@.image()]);
                        let bytes = encode(&proof);
                        verify_encoded(key, bytes.as_slice(), public_inputs.as_slice())
                    },
                    None => Err(Error::OutOfOrder),
                };
                self.conclude(verified)
            },
            Answer::KeysReady { key } => {
                let Orchestrator { phase, left, right, constants, key: held, outcome } = self;
                match phase {
                    Phase::Setup => if !key.is_sound() {
                        Orchestrator::finish(left, right, constants, held, Err(Error::SetupError))
                    } else {
                        let populated = MimcCircuit {
                            left: Some(left),
                            right: Some(right),
                            constants: constants.as_slice(),
                        };
                        match populated.synthesize() {
                            Ok(Synthesis { system, witness: Some(witness) }) => {
                                let run = Orchestrator {
                                    phase: Phase::Prove,
                                    left,
                                    right,
                                    constants,
                                    key: Some(key),
                                    outcome,
                                };
                                (run, Request::Prove { system, witness })
                            },
                            Ok(_) => Orchestrator::finish(
                                left,
                                right,
                                constants,
                                held,
                                Err(Error::ProveError),
                            ),
                            Err(error) => Orchestrator::finish(
                                left,
                                right,
                                constants,
                                held,
                                Err(error),
                            ),
                        }
                    },
                    Phase::Prove => Orchestrator::finish(
                        left,
                        right,
                        constants,
                        held,
                        Err(Error::OutOfOrder),
                    ),
                    Phase::Finished => Orchestrator::finish(
                        left,
                        right,
                        constants,
                        held,
                        Orchestrator::kept(outcome),
                    ),
                }
            },
            Answer::SetupFailed => self.fail(Phase::Setup, Error::SetupError),
            Answer::ProveFailed => self.fail(Phase::Prove, Error::ProveError),
        }
    }

    /// Ends a proving phase with what the verification phase gave. A run
    /// that is in another phase does not expect it.
    pub fn conclude(self, verified: Result<bool, Error>) -> (next: (Orchestrator, Request))
        ensures
            next.0@ == (RunView {
                phase: Phase::Finished,
                outcome: Some(outcome_concluded(self@, verified)),
                ..self@
            }),
            next.1@ == (RequestView::Finish { outcome: outcome_concluded(self@, verified) }),
    {
        proof {
            use_type_invariant(&self);
        }
        let Orchestrator { phase, left, right, constants, key, outcome } = self;
        let outcome = match phase {
            Phase::Prove => verified,
            Phase::Setup => Err(Error::OutOfOrder),
            Phase::Finished => Orchestrator::kept(outcome),
        };
        Orchestrator::finish(left, right, constants, key, outcome)
    }

    /// Ends the run with `error` where it is in `phase`, the phase that this
    /// failure belongs to. A run in another phase does not expect it.
    fn fail(self, failing: Phase, error: Error) -> (next: (Orchestrator, Request))
        requires
            failing != Phase::Finished,
        ensures
            next.0@ == (RunView {
                phase: Phase::Finished,
                outcome: Some(
                    if self@.phase == failing {
                        Err(error)
                    } else if self@.phase == Phase::Finished {
                        self@.outcome->0
                    } else {
                        Err(Error::OutOfOrder)
                    },
                ),
                ..self@
            }),
            next.1@ == (RequestView::Finish { outcome: next.0@.outcome->0 }),
    {
        proof {
            use_type_invariant(&self);
        }
        let Orchestrator { phase, left, right, constants, key, outcome } = self;
        let outcome = match (phase, failing) {
            (Phase::Setup, Phase::Setup) => Err(error),
            (Phase::Prove, Phase::Prove) => Err(error),
            (Phase::Finished, _) => Orchestrator::kept(outcome),
            _ => Err(Error::OutOfOrder),
        };
        Orchestrator::finish(left, right, constants, key, outcome)
    }

    /// The outcome that a finished run has.
    fn kept(outcome: Option<Result<bool, Error>>) -> (kept: Result<bool, Error>)
        ensures
            outcome is Some ==> kept == outcome->0,
    {
        match outcome {
            Some(outcome) => outcome,
            None => Err(Error::OutOfOrder),
        }
    }

    /// Ends a run with the given outcome.
    fn finish(
        left: Fe,
        right: Fe,
        constants: Vec<Fe>,
        key: Option<VerifyingKey>,
        outcome: Result<bool, Error>,
    ) -> (ended: (Orchestrator, Request))
        ensures
            ended.0@ == (RunView {
                phase: Phase::Finished,
                left: left@,
                right: right@,
                constants: values(constants@),
                key,
                outcome: Some(outcome),
            }),
            ended.1@ == (RequestView::Finish { outcome }),
    {
        let run = Orchestrator {
            phase: Phase::Finished,
            left,
            right,
            constants,
            key,
            outcome: Some(outcome),
        };
        (run, Request::Finish { outcome })
    }
}

} // verus!
