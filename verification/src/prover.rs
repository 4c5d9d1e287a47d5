//! The prover's side of the lifecycle: one circuit at one degree, with its
//! cached parameters and keys.

use crate::lifecycle::{bytes_of, Action, Artifact, Cache, Error, Event, Phase, Report};
use crate::naming;
use crate::proofs::{arity_matches, copy_of, shape_matches, Proof};
use crate::seed::{chacha_seed_of, expand_seed, RNG_SEED};
use crate::setup::{
    claims_degree, derive_verifier_params, fits, general_params_report, generate_general_params,
    is_fit, verifier_params_report, MAX_DEGREE,
};
use crate::verifying::{RealVerifier, Rejection};
use vstd::prelude::*;
use vstd::string::*;

verus! {

/// Why no proof is made.
#[derive(Clone, Copy, Debug, PartialEq, Eq, Structural)]
pub enum ProveError {
    /// Loading the artifacts failed.
    Load(Error),
    /// The public values do not have the shape that the circuit declares.
    ArityMismatch,
}

/// What the driver reports while proving.
#[derive(Debug)]
pub enum ProveEvent {
    /// Proving is requested, or the outcome of a loading action is reported.
    Load(Event),
    /// The backend created this transcript for these public values.
    Transcript(Vec<u8>, Vec<Vec<Vec<u8>>>),
}

/// What the driver has to do next while proving.
#[derive(Debug)]
pub enum ProveAction {
    /// Perform this loading action and report its outcome.
    Load(Action),
    /// Everything is loaded: have the backend create the transcript from the
    /// cached general parameters and proving key.
    CreateTranscript,
    /// The proof, and the file to write its transcript to where that was
    /// asked for.
    Done(Proof, Option<Vec<u8>>),
    /// No proof is made.
    Fail(ProveError),
}

/// What a proving step comes to, before the proof is put together.
pub ghost enum ProveStage {
    Load(Action),
    CreateTranscript,
    Assemble,
    Fail(ProveError),
}

/// What a loading action means to proving: readiness asks for the
/// transcript, a failure ends proving, anything else is passed on.
pub open spec fn stage_of(action: Action) -> ProveStage {
    match action {
        Action::Ready => ProveStage::CreateTranscript,
        Action::Fail(e) => ProveStage::Fail(ProveError::Load(e)),
        _ => ProveStage::Load(action),
    }
}

/// A circuit at one degree, with the artifacts cached for it.
///
/// Artifacts are held in the serialized form in which their files hold them.
#[derive(Clone, Debug)]
pub struct RealProver {
    /// The name under which the circuit's keys and proofs are filed.
    pub circuit_name: String,
    /// How many public values the circuit declares in each instance column.
    pub num_instance: Vec<usize>,
    /// The circuit's size parameter.
    pub degree: u32,
    /// The directory that holds the artifact files.
    pub dir_path: String,
    /// The seed of the generator handed to setup and proving.
    pub rng_seed: [u8; 32],
    pub general_params: Option<Vec<u8>>,
    pub verifier_params: Option<Vec<u8>>,
    pub circuit_proving_key: Option<Vec<u8>>,
    pub circuit_verifying_key: Option<Vec<u8>>,
    /// What the prover is waiting for.
    pub phase: Phase,
    /// Generated bytes that are not yet written to their file.
    pub pending: Option<Vec<u8>>,
}

impl RealProver {
    /// The state of the prover's cache.
    pub open spec fn cache(&self) -> Cache {
        Cache {
            general_params: bytes_of(self.general_params),
            verifier_params: bytes_of(self.verifier_params),
            verifying_key: bytes_of(self.circuit_verifying_key),
            proving_key: bytes_of(self.circuit_proving_key),
            phase: self.phase,
            pending: bytes_of(self.pending),
        }
    }

    /// Whether two provers stand for the same circuit, degree, directory and
    /// seed.
    pub open spec fn same_subject(&self, other: &RealProver) -> bool {
        &&& self.circuit_name@ == other.circuit_name@
        &&& self.num_instance@ == other.num_instance@
        &&& self.degree == other.degree
        &&& self.dir_path@ == other.dir_path@
        &&& self.rng_seed@ == other.rng_seed@
    }

    /// The file name of one of the prover's artifacts.
    pub open spec fn spec_file_name(&self, a: Artifact) -> Seq<u8> {
        match a {
            Artifact::GeneralParams => naming::general_params_name(self.degree as nat),
            Artifact::VerifierParams => naming::verifier_params_name(self.degree as nat),
            Artifact::VerifyingKey => naming::verifying_key_name(
                vstd::utf8::encode_utf8(self.circuit_name@),
                self.degree as nat,
            ),
            Artifact::ProvingKey => naming::proving_key_name(
                vstd::utf8::encode_utf8(self.circuit_name@),
                self.degree as nat,
            ),
        }
    }

    /// A prover for the circuit called `circuit_name`, whose instance columns
    /// hold `num_instance` values each, at degree `k`. Its files live in
    /// `dir_path`, or in `./out` where none is given. Nothing is cached yet,
    /// and the generator's seed is the fixed one.
    pub fn from(
        circuit_name: String,
        num_instance: Vec<usize>,
        k: u32,
        dir_path: Option<String>,
    ) -> (prover: RealProver)
        ensures
            prover.circuit_name@ == circuit_name@,
            prover.num_instance@ == num_instance@,
            prover.degree == k,
            prover.dir_path@ == (match dir_path {
                Some(path) => path@,
                None => "./out"@,
            }),
            prover.rng_seed@ == chacha_seed_of(RNG_SEED),
            prover.cache() == Cache::empty(),
    {
        let dir_path = match dir_path {
            Some(path) => path,
            None => "./out".to_owned(),
        };
        RealProver {
            circuit_name,
            num_instance,
            degree: k,
            dir_path,
            rng_seed: expand_seed(RNG_SEED),
            general_params: None,
            verifier_params: None,
            circuit_proving_key: None,
            circuit_verifying_key: None,
            phase: Phase::Idle,
            pending: None,
        }
    }

    /// The same prover at degree `k`. Artifacts belong to one degree: where
    /// `k` differs from the current degree, everything cached is dropped.
    pub fn degree(self, k: u32) -> (prover: RealProver)
        ensures
            prover.degree == k,
            prover.circuit_name@ == self.circuit_name@,
            prover.num_instance@ == self.num_instance@,
            prover.dir_path@ == self.dir_path@,
            prover.rng_seed@ == self.rng_seed@,
            prover.cache() == if k == self.degree {
                self.cache()
            } else {
                Cache::empty()
            },
    {
        let mut prover = self;
        if prover.degree != k {
            prover.degree = k;
            prover.general_params = None;
            prover.verifier_params = None;
            prover.circuit_proving_key = None;
            prover.circuit_verifying_key = None;
            prover.phase = Phase::Idle;
            prover.pending = None;
        }
        prover
    }

    /// The file, within the directory, that holds the artifact.
    pub fn file_name(&self, a: Artifact) -> (name: Vec<u8>)
        ensures
            name@ == self.spec_file_name(a),
    {
        match a {
            Artifact::GeneralParams => naming::general_params_file(self.degree as u64),
            Artifact::VerifierParams => naming::verifier_params_file(self.degree as u64),
            Artifact::VerifyingKey => naming::verifying_key_file(
                self.circuit_name.as_str(),
                self.degree as u64,
            ),
            Artifact::ProvingKey => naming::proving_key_file(
                self.circuit_name.as_str(),
                self.degree as u64,
            ),
        }
    }

    /// The first artifact that is not cached.
    pub fn wanted(&self) -> (next: Option<Artifact>)
        ensures
            next == self.cache().wanted(),
    {
        if self.general_params.is_none() {
            Some(Artifact::GeneralParams)
        } else if self.verifier_params.is_none() {
            Some(Artifact::VerifierParams)
        } else if self.circuit_verifying_key.is_none() {
            Some(Artifact::VerifyingKey)
        } else if self.circuit_proving_key.is_none() {
            Some(Artifact::ProvingKey)
        } else {
            None
        }
    }

    /// Whether all four artifacts are cached.
    pub fn is_loaded(&self) -> (loaded: bool)
        ensures
            loaded == self.cache().loaded(),
    {
        self.general_params.is_some() && self.verifier_params.is_some()
            && self.circuit_verifying_key.is_some() && self.circuit_proving_key.is_some()
    }

    fn put(&mut self, a: Artifact, bytes: Vec<u8>)
        ensures
            final(self).cache() == old(self).cache().with_slot(a, bytes@),
            final(self).same_subject(old(self)),
    {
        match a {
            Artifact::GeneralParams => {
                self.general_params = Some(bytes);
            },
            Artifact::VerifierParams => {
                self.verifier_params = Some(bytes);
            },
            Artifact::VerifyingKey => {
                self.circuit_verifying_key = Some(bytes);
            },
            Artifact::ProvingKey => {
                self.circuit_proving_key = Some(bytes);
            },
        }
    }

    fn resume(&mut self) -> (action: Action)
        ensures
            (final(self).cache(), action) == old(self).cache().resume(),
            final(self).same_subject(old(self)),
    {
        self.pending = None;
        match self.wanted() {
            Some(a) => {
                self.phase = Phase::Reading(a);
                Action::Read(a)
            },
            None => {
                self.phase = Phase::Idle;
                Action::Ready
            },
        }
    }

    fn fail(&mut self, e: Error) -> (action: Action)
        ensures
            final(self).cache() == old(self).cache().settle(Phase::Failed(e)),
            action == Action::Fail(e),
            final(self).same_subject(old(self)),
    {
        self.pending = None;
        self.phase = Phase::Failed(e);
        Action::Fail(e)
    }

    fn pursues(&self, a: Artifact) -> (yes: bool)
        ensures
            yes == (self.cache().wanted() == Some(a)),
    {
        match self.wanted() {
            Some(b) => a == b,
            None => false,
        }
    }

    /// Advances loading by one event and says what to do next.
    ///
    /// The prover looks for each artifact first in its cache, then in its
    /// file, and asks for generation only when the file is missing; what was
    /// generated is cached once it has been stored. `Ready` means that all
    /// four artifacts are cached.
    pub fn load(&mut self, event: Event) -> (action: Action)
        ensures
            (final(self).cache(), action) == old(self).cache().step(event@),
            final(self).same_subject(old(self)),
    {
        match self.phase {
            Phase::Idle => self.resume(),
            Phase::Failed(e) => match event {
                Event::Begin => self.resume(),
                _ => Action::Fail(e),
            },
            Phase::Reading(a) => {
                if !self.pursues(a) {
                    self.resume()
                } else {
                    match event {
                        Event::Found(bytes) => {
                            self.put(a, bytes);
                            self.resume()
                        },
                        Event::Missing => {
                            self.pending = None;
                            self.phase = Phase::Generating(a);
                            Action::Generate(a)
                        },
                        Event::IoFailed => self.fail(Error::Io(a)),
                        Event::BackendFailed => self.fail(Error::Backend(a)),
                        _ => Action::Read(a),
                    }
                }
            },
            Phase::Generating(a) => {
                if !self.pursues(a) {
                    self.resume()
                } else {
                    match event {
                        Event::Generated(bytes) => {
                            self.pending = Some(bytes);
                            self.phase = Phase::Persisting(a);
                            Action::Store(a)
                        },
                        Event::BackendFailed => self.fail(Error::Backend(a)),
                        _ => Action::Generate(a),
                    }
                }
            },
            Phase::Persisting(a) => {
                if !self.pursues(a) || self.pending.is_none() {
                    self.resume()
                } else {
                    match event {
                        Event::Stored => {
                            let bytes = self.pending.take().unwrap();
                            self.put(a, bytes);
                            self.resume()
                        },
                        Event::IoFailed => self.fail(Error::Io(a)),
                        _ => Action::Store(a),
                    }
                }
            },
        }
    }

    /// Installs general parameters that the caller already holds, if any, and
    /// goes on loading.
    pub fn set_general_params(&mut self, params_override: Option<Vec<u8>>) -> (action: Action)
        ensures
            (final(self).cache(), action) == (match params_override {
                Some(params) => old(self).cache().with_slot(Artifact::GeneralParams, params@),
                None => old(self).cache(),
            }).step(Report::Begin),
            final(self).same_subject(old(self)),
    {
        match params_override {
            Some(params) => {
                self.put(Artifact::GeneralParams, params);
            },
            None => {},
        }
        self.load(Event::Begin)
    }

    /// Installs verifier parameters that the caller already holds, if any,
    /// and goes on loading.
    pub fn set_verifier_params(&mut self, params_override: Option<Vec<u8>>) -> (action: Action)
        ensures
            (final(self).cache(), action) == (match params_override {
                Some(params) => old(self).cache().with_slot(Artifact::VerifierParams, params@),
                None => old(self).cache(),
            }).step(Report::Begin),
            final(self).same_subject(old(self)),
    {
        match params_override {
            Some(params) => {
                self.put(Artifact::VerifierParams, params);
            },
            None => {},
        }
        self.load(Event::Begin)
    }

    /// What [`RealProver::set_circuit_params`] installs: cached keys win; else
    /// both keys are taken where both are given; one key alone is ignored.
    pub open spec fn with_circuit_params(
        cache: Cache,
        proving_key: Option<Seq<u8>>,
        verifying_key: Option<Seq<u8>>,
    ) -> Cache {
        if cache.proving_key is Some && cache.verifying_key is Some {
            cache
        } else if proving_key is Some && verifying_key is Some {
            Cache { proving_key, verifying_key, ..cache }
        } else {
            cache
        }
    }

    /// Installs a key pair that the caller already holds, unless both keys
    /// are cached, and goes on loading. The two keys belong together: one
    /// without the other is not installed.
    pub fn set_circuit_params(
        &mut self,
        circuit_proving_key_override: Option<Vec<u8>>,
        circuit_verifying_key_override: Option<Vec<u8>>,
    ) -> (action: Action)
        ensures
            (final(self).cache(), action) == Self::with_circuit_params(
                old(self).cache(),
                bytes_of(circuit_proving_key_override),
                bytes_of(circuit_verifying_key_override),
            ).step(Report::Begin),
            final(self).same_subject(old(self)),
    {
        let cached = self.circuit_proving_key.is_some() && self.circuit_verifying_key.is_some();
        if !cached && circuit_proving_key_override.is_some()
            && circuit_verifying_key_override.is_some() {
            self.circuit_proving_key = circuit_proving_key_override;
            self.circuit_verifying_key = circuit_verifying_key_override;
        }
        self.load(Event::Begin)
    }
    /// What is reported for a file that was read. Setup parameters must begin
    /// with the prover's degree and be decoded by the backend, or they count
    /// as rejected; keys are passed on for the backend to decode.
    pub open spec fn spec_examine(&self, a: Artifact, bytes: Seq<u8>) -> Report {
        match a {
            Artifact::GeneralParams | Artifact::VerifierParams => if fits(bytes, self.degree) {
                Report::Found(bytes)
            } else {
                Report::BackendFailed
            },
            Artifact::VerifyingKey | Artifact::ProvingKey => Report::Found(bytes),
        }
    }

    /// Turns the contents of an artifact's file into the event to report.
    /// Parameters of another degree than the prover's are not accepted, nor
    /// parameters that the backend does not decode.
    pub fn examine(&self, a: Artifact, bytes: Vec<u8>) -> (event: Event)
        ensures
            event@ == self.spec_examine(a, bytes@),
    {
        match a {
            Artifact::GeneralParams | Artifact::VerifierParams => {
                if is_fit(&bytes, self.degree) {
                    Event::Found(bytes)
                } else {
                    Event::BackendFailed
                }
            },
            Artifact::VerifyingKey | Artifact::ProvingKey => Event::Found(bytes),
        }
    }

    /// What generating a set of parameters reports; `None` for the keys,
    /// which only the holder of the circuit can generate.
    pub open spec fn spec_generate(&self, a: Artifact) -> Option<Report> {
        match a {
            Artifact::GeneralParams => Some(general_params_report(self.degree, self.rng_seed@)),
            Artifact::VerifierParams => match self.general_params {
                Some(general) => Some(verifier_params_report(general@, self.degree)),
                None => Some(Report::BackendFailed),
            },
            Artifact::VerifyingKey | Artifact::ProvingKey => None,
        }
    }

    /// Generates setup parameters: the general ones from the degree and the
    /// seed, the verifier's from the cached general ones. Keys are left to
    /// the holder of the circuit.
    pub fn generate(&self, a: Artifact) -> (event: Option<Event>)
        ensures
            (event is Some) == (self.spec_generate(a) is Some),
            event is Some ==> event->0@ == self.spec_generate(a)->0,
            a == Artifact::GeneralParams && self.degree <= MAX_DEGREE ==> event is Some
                && event->0 is Generated && fits(event->0->Generated_0@, self.degree),
            a == Artifact::VerifierParams && self.general_params is Some && fits(
                self.general_params->0@,
                self.degree,
            ) ==> event is Some && event->0 is Generated && fits(
                event->0->Generated_0@,
                self.degree,
            ),
    {
        match a {
            Artifact::GeneralParams => Some(generate_general_params(self.degree, &self.rng_seed)),
            Artifact::VerifierParams => match &self.general_params {
                Some(general) => Some(derive_verifier_params(general, self.degree)),
                None => Some(Event::BackendFailed),
            },
            Artifact::VerifyingKey | Artifact::ProvingKey => None,
        }
    }

    /// One step of proving.
    ///
    /// Artifacts are loaded lazily: while they are not all cached, every step
    /// is a loading step, and a transcript that arrives too early is set
    /// aside for the loading action that is due. Once all are cached, the
    /// transcript is asked for, and the transcript that arrives is put
    /// together with its public values, which must have the declared shape.
    pub open spec fn spec_prove(&self, event: ProveEvent) -> (Cache, ProveStage) {
        match event {
            ProveEvent::Load(e) => {
                let (cache, action) = self.cache().step(e@);
                (cache, stage_of(action))
            },
            ProveEvent::Transcript(_, instances) => if !self.cache().loaded() {
                let (cache, action) = self.cache().step(Report::Begin);
                (cache, stage_of(action))
            } else if !shape_matches(instances@, self.num_instance@) {
                (self.cache(), ProveStage::Fail(ProveError::ArityMismatch))
            } else {
                (self.cache(), ProveStage::Assemble)
            },
        }
    }

    fn stage(action: Action) -> (next: ProveAction)
        ensures
            match stage_of(action) {
                ProveStage::Load(a) => next == ProveAction::Load(a),
                ProveStage::CreateTranscript => next == ProveAction::CreateTranscript,
                ProveStage::Fail(e) => next == ProveAction::Fail(e),
                ProveStage::Assemble => false,
            },
    {
        match action {
            Action::Ready => ProveAction::CreateTranscript,
            Action::Fail(e) => ProveAction::Fail(ProveError::Load(e)),
            _ => ProveAction::Load(action),
        }
    }

    /// The step up to the point where the proof is put together: `Ok` hands
    /// the transcript and the public values back for that, `Err` holds the
    /// answer.
    fn advance(&mut self, event: ProveEvent) -> (outcome: Result<
        (Vec<u8>, Vec<Vec<Vec<u8>>>),
        ProveAction,
    >)
        ensures
            final(self).cache() == old(self).spec_prove(event).0,
            final(self).same_subject(old(self)),
            match old(self).spec_prove(event).1 {
                ProveStage::Load(a) => outcome == Err::<
                    (Vec<u8>, Vec<Vec<Vec<u8>>>),
                    ProveAction,
                >(ProveAction::Load(a)),
                ProveStage::CreateTranscript => outcome == Err::<
                    (Vec<u8>, Vec<Vec<Vec<u8>>>),
                    ProveAction,
                >(ProveAction::CreateTranscript),
                ProveStage::Fail(e) => outcome == Err::<
                    (Vec<u8>, Vec<Vec<Vec<u8>>>),
                    ProveAction,
                >(ProveAction::Fail(e)),
                ProveStage::Assemble => {
                    &&& event is Transcript
                    &&& outcome is Ok
                    &&& outcome->Ok_0.0 == event->Transcript_0
                    &&& outcome->Ok_0.1 == event->Transcript_1
                },
            },
    {
        match event {
            ProveEvent::Load(e) => {
                let action = self.load(e);
                Err(Self::stage(action))
            },
            ProveEvent::Transcript(transcript, instances) => {
                if !self.is_loaded() {
                    let action = self.load(Event::Begin);
                    Err(Self::stage(action))
                } else if !arity_matches(&instances, &self.num_instance) {
                    Err(ProveAction::Fail(ProveError::ArityMismatch))
                } else {
                    Ok((transcript, instances))
                }
            },
        }
    }

    /// Advances proving by one event and says what to do next.
    ///
    /// A prover that has not loaded its artifacts answers with the loading
    /// action that is due, never with an error. Once everything is cached it
    /// asks for the transcript, and given the transcript it hands out the
    /// proof: the transcript and the public values as they came, under the
    /// prover's circuit name and degree. No file is named for it.
    pub fn prove(&mut self, event: ProveEvent) -> (next: ProveAction)
        ensures
            final(self).cache() == old(self).spec_prove(event).0,
            final(self).same_subject(old(self)),
            match old(self).spec_prove(event).1 {
                ProveStage::Load(a) => next == ProveAction::Load(a),
                ProveStage::CreateTranscript => next == ProveAction::CreateTranscript,
                ProveStage::Fail(e) => next == ProveAction::Fail(e),
                ProveStage::Assemble => {
                    &&& event is Transcript
                    &&& next is Done
                    &&& next->Done_0.degree == old(self).degree
                    &&& next->Done_0.data == event->Transcript_0
                    &&& next->Done_0.instances == event->Transcript_1
                    &&& next->Done_0.circuit_name@ == old(self).circuit_name@
                    &&& next->Done_1 is None
                },
            },
    {
        match self.advance(event) {
            Err(next) => next,
            Ok((transcript, instances)) => ProveAction::Done(
                Proof::from(self.degree, transcript, instances, self.circuit_name.clone()),
                None,
            ),
        }
    }

    /// Like [`RealProver::prove`], and names the file to write the
    /// transcript to where `write_to_file` asks for that.
    pub fn run(&mut self, write_to_file: bool, event: ProveEvent) -> (next: ProveAction)
        ensures
            final(self).cache() == old(self).spec_prove(event).0,
            final(self).same_subject(old(self)),
            match old(self).spec_prove(event).1 {
                ProveStage::Load(a) => next == ProveAction::Load(a),
                ProveStage::CreateTranscript => next == ProveAction::CreateTranscript,
                ProveStage::Fail(e) => next == ProveAction::Fail(e),
                ProveStage::Assemble => {
                    &&& event is Transcript
                    &&& next is Done
                    &&& next->Done_0.degree == old(self).degree
                    &&& next->Done_0.data == event->Transcript_0
                    &&& next->Done_0.instances == event->Transcript_1
                    &&& next->Done_0.circuit_name@ == old(self).circuit_name@
                    &&& write_to_file ==> next->Done_1 is Some && next->Done_1->0@
                        == naming::proof_name(vstd::utf8::encode_utf8(old(self).circuit_name@))
                    &&& !write_to_file ==> next->Done_1 is None
                },
            },
    {
        match self.advance(event) {
            Err(next) => next,
            Ok((transcript, instances)) => {
                let file = if write_to_file {
                    Some(naming::proof_file(self.circuit_name.as_str()))
                } else {
                    None
                };
                ProveAction::Done(
                    Proof::from(self.degree, transcript, instances, self.circuit_name.clone()),
                    file,
                )
            },
        }
    }

    /// Whether what a verifier needs is cached: both sets of parameters and
    /// the verifying key.
    pub open spec fn can_verify(&self) -> bool {
        &&& self.general_params is Some
        &&& self.verifier_params is Some
        &&& self.circuit_verifying_key is Some
    }

    /// Tests whether [`RealProver::to_verifier`] may be called.
    pub fn has_verifier(&self) -> (yes: bool)
        ensures
            yes == self.can_verify(),
    {
        self.general_params.is_some() && self.verifier_params.is_some()
            && self.circuit_verifying_key.is_some()
    }

    /// The verifier for this circuit and degree, with copies of the cached
    /// parameters and verifying key.
    pub fn to_verifier(&self) -> (verifier: RealVerifier)
        requires
            self.can_verify(),
        ensures
            verifier.circuit_name@ == self.circuit_name@,
            verifier.dir_path@ == self.dir_path@,
            verifier.num_instance@ == self.num_instance@,
            verifier.degree == self.degree,
            Some(verifier.general_params@) == bytes_of(self.general_params),
            Some(verifier.verifier_params@) == bytes_of(self.verifier_params),
            Some(verifier.circuit_verifying_key@) == bytes_of(self.circuit_verifying_key),
    {
        let general_params = match &self.general_params {
            Some(bytes) => copy_of(bytes),
            None => Vec::new(),
        };
        let verifier_params = match &self.verifier_params {
            Some(bytes) => copy_of(bytes),
            None => Vec::new(),
        };
        let circuit_verifying_key = match &self.circuit_verifying_key {
            Some(bytes) => copy_of(bytes),
            None => Vec::new(),
        };
        RealVerifier::new(
            self.circuit_name.clone(),
            self.degree as usize,
            self.dir_path.clone(),
            copy_of(&self.num_instance),
            general_params,
            verifier_params,
            circuit_verifying_key,
        )
    }
}

/// Generation is reproducible: two provers of one degree and one seed
/// generate the same general parameters, byte for byte, and derive the same
/// verifier parameters from the same general ones.
pub proof fn law_generation_is_reproducible(a: RealProver, b: RealProver)
    requires
        a.degree == b.degree,
        a.rng_seed@ == b.rng_seed@,
    ensures
        a.spec_generate(Artifact::GeneralParams) == b.spec_generate(Artifact::GeneralParams),
        bytes_of(a.general_params) == bytes_of(b.general_params) ==> a.spec_generate(
            Artifact::VerifierParams,
        ) == b.spec_generate(Artifact::VerifierParams),
{
}

/// Parameters found in a file are cached only for the degree that they
/// claim: a prover of another degree reports them as rejected.
pub proof fn law_parameters_of_another_degree_are_rejected(
    prover: RealProver,
    a: Artifact,
    bytes: Seq<u8>,
    degree: u32,
)
    requires
        a == Artifact::GeneralParams || a == Artifact::VerifierParams,
        claims_degree(bytes, degree),
        degree != prover.degree,
    ensures
        prover.spec_examine(a, bytes) == Report::BackendFailed,
{
}

/// Proving loads lazily: on a prover that has not cached all four
/// artifacts, a request to prove and a transcript alike are answered with
/// the loading action that is due, which is never a failure.
pub proof fn law_proving_loads_first(prover: RealProver, event: ProveEvent)
    requires
        !prover.cache().loaded(),
        event is Transcript || event == ProveEvent::Load(Event::Begin),
    ensures
        prover.spec_prove(event).0 == prover.cache().step(Report::Begin).0,
        prover.spec_prove(event).1 == ProveStage::Load(prover.cache().step(Report::Begin).1),
        prover.cache().step(Report::Begin).1.subject() == prover.cache().wanted(),
{
}

/// Once all four artifacts are cached, a request to prove asks for the
/// transcript and leaves the artifacts as they are, and a transcript for
/// public values of the declared shape becomes the proof.
pub proof fn law_loaded_prover_proves(prover: RealProver, event: ProveEvent)
    requires
        prover.cache().loaded(),
    ensures
        event == ProveEvent::Load(Event::Begin) ==> prover.spec_prove(event).1
            == ProveStage::CreateTranscript,
        event is Load ==> forall|a: Artifact|
            prover.spec_prove(event).0.slot(a) == prover.cache().slot(a),
        event is Transcript ==> prover.spec_prove(event).0 == prover.cache(),
        event is Transcript && shape_matches(event->Transcript_1@, prover.num_instance@)
            ==> prover.spec_prove(event).1 == ProveStage::Assemble,
{
}

/// Whether the cached setup parameters, and generated ones that wait to be
/// stored, are fit for a degree.
pub open spec fn params_fit(cache: Cache, degree: u32) -> bool {
    &&& cache.general_params is Some ==> fits(cache.general_params->0, degree)
    &&& cache.verifier_params is Some ==> fits(cache.verifier_params->0, degree)
    &&& (cache.phase == Phase::Persisting(Artifact::GeneralParams) || cache.phase
        == Phase::Persisting(Artifact::VerifierParams)) && cache.pending is Some ==> fits(
        cache.pending->0,
        degree,
    )
}

/// Whether a report hands over only parameters that are fit for a degree, as
/// the reports of [`RealProver::examine`] and [`RealProver::generate`] do.
pub open spec fn report_fits(report: Report, degree: u32) -> bool {
    match report {
        Report::Found(bytes) => fits(bytes, degree),
        Report::Generated(bytes) => fits(bytes, degree),
        _ => true,
    }
}

/// Fit parameters stay fit: a step that is told only of parameters fit for
/// the degree caches only such parameters.
pub proof fn law_fit_parameters_are_kept(cache: Cache, report: Report, degree: u32)
    requires
        params_fit(cache, degree),
        (cache.wanted() == Some(Artifact::GeneralParams) || cache.wanted() == Some(
            Artifact::VerifierParams,
        )) ==> report_fits(report, degree),
    ensures
        params_fit(cache.step(report).0, degree),
{
}

/// With fit parameters, the verifier of a prover accepts a proof of the
/// prover's degree exactly when its public values have the declared shape
/// and the backend accepts its transcript.
pub proof fn law_round_trip(
    prover: RealProver,
    verifier: RealVerifier,
    proof: Proof,
    backend_accepts: bool,
)
    requires
        prover.can_verify(),
        params_fit(prover.cache(), prover.degree),
        verifier.degree == prover.degree,
        verifier.num_instance@ == prover.num_instance@,
        Some(verifier.general_params@) == bytes_of(prover.general_params),
        Some(verifier.verifier_params@) == bytes_of(prover.verifier_params),
        proof.degree == prover.degree,
    ensures
        verifier.verdict(&proof, backend_accepts) is Ok <==> (shape_matches(
            proof.instances@,
            prover.num_instance@,
        ) && backend_accepts),
        shape_matches(proof.instances@, prover.num_instance@) && backend_accepts
            ==> verifier.verdict(&proof, backend_accepts) == Ok::<(), Rejection>(()),
{
}

} // verus!
