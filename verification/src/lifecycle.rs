//! The decisions of the artifact cache: which artifact to fetch next, when a
//! file is consulted, when the backend is asked to generate, and when a result
//! may be cached.
//!
//! The cache never touches a file or the backend itself. It hands out an
//! [`Action`]; whoever drives it performs the action and reports the outcome
//! as an [`Event`].

use vstd::prelude::*;

verus! {

/// The four artifacts that proving and verifying need, in the order in which
/// they are obtained.
#[derive(Clone, Copy, Debug, PartialEq, Eq, Structural)]
pub enum Artifact {
    /// Setup parameters of the prover.
    GeneralParams,
    /// Setup parameters of the verifier, derived from the general ones.
    VerifierParams,
    /// Verifying key of the circuit, generated from the general parameters.
    VerifyingKey,
    /// Proving key of the circuit, generated from the general parameters and
    /// the verifying key.
    ProvingKey,
}

/// Why loading stopped.
#[derive(Clone, Copy, Debug, PartialEq, Eq, Structural)]
pub enum Error {
    /// A file of the artifact could not be read, created or written.
    Io(Artifact),
    /// The backend rejected the artifact's bytes or failed to generate it.
    Backend(Artifact),
}

/// The bytes of an optional artifact.
pub open spec fn bytes_of(slot: Option<Vec<u8>>) -> Option<Seq<u8>> {
    match slot {
        Some(bytes) => Some(bytes@),
        None => None,
    }
}

/// What the cache is waiting for.
#[derive(Clone, Copy, Debug, PartialEq, Eq, Structural)]
pub enum Phase {
    /// Nothing is outstanding.
    Idle,
    /// The artifact's file is being looked up.
    Reading(Artifact),
    /// The backend is generating the artifact.
    Generating(Artifact),
    /// The generated artifact is being written to its file.
    Persisting(Artifact),
    /// Loading failed.
    Failed(Error),
}

/// What the driver has to do next.
#[derive(Clone, Copy, Debug, PartialEq, Eq, Structural)]
pub enum Action {
    /// Open the artifact's file and decode it.
    Read(Artifact),
    /// Ask the backend to generate the artifact from what is cached.
    Generate(Artifact),
    /// Write the pending bytes to the artifact's file.
    Store(Artifact),
    /// Every artifact is cached.
    Ready,
    /// Loading failed; nothing more is asked for until it is begun afresh.
    Fail(Error),
}

/// What the driver reports.
#[derive(Debug)]
pub enum Event {
    /// Loading is requested, or requested again.
    Begin,
    /// The file exists and holds these bytes, which the backend accepts.
    Found(Vec<u8>),
    /// The file could not be opened.
    Missing,
    /// The backend generated the artifact, serialized as these bytes.
    Generated(Vec<u8>),
    /// The pending bytes were written.
    Stored,
    /// Reading, creating or writing the file failed.
    IoFailed,
    /// The backend rejected the file's bytes or failed to generate.
    BackendFailed,
}

/// An [`Event`] with its bytes as a sequence.
pub ghost enum Report {
    Begin,
    Found(Seq<u8>),
    Missing,
    Generated(Seq<u8>),
    Stored,
    IoFailed,
    BackendFailed,
}

impl View for Event {
    type V = Report;

    open spec fn view(&self) -> Report {
        match *self {
            Event::Begin => Report::Begin,
            Event::Found(bytes) => Report::Found(bytes@),
            Event::Missing => Report::Missing,
            Event::Generated(bytes) => Report::Generated(bytes@),
            Event::Stored => Report::Stored,
            Event::IoFailed => Report::IoFailed,
            Event::BackendFailed => Report::BackendFailed,
        }
    }
}

impl Action {
    /// The artifact that the action is about, if any.
    pub open spec fn subject(self) -> Option<Artifact> {
        match self {
            Action::Read(a) => Some(a),
            Action::Generate(a) => Some(a),
            Action::Store(a) => Some(a),
            Action::Ready => None,
            Action::Fail(_) => None,
        }
    }
}

impl Phase {
    /// The artifact that is being fetched, if any.
    pub open spec fn pursued(self) -> Option<Artifact> {
        match self {
            Phase::Reading(a) => Some(a),
            Phase::Generating(a) => Some(a),
            Phase::Persisting(a) => Some(a),
            Phase::Idle => None,
            Phase::Failed(_) => None,
        }
    }
}

/// The state of the cache: one slot per artifact, the phase, and the
/// generated bytes that are not yet persisted.
pub ghost struct Cache {
    pub general_params: Option<Seq<u8>>,
    pub verifier_params: Option<Seq<u8>>,
    pub verifying_key: Option<Seq<u8>>,
    pub proving_key: Option<Seq<u8>>,
    pub phase: Phase,
    pub pending: Option<Seq<u8>>,
}

impl Cache {
    /// A cache that holds nothing.
    pub open spec fn empty() -> Cache {
        Cache {
            general_params: None,
            verifier_params: None,
            verifying_key: None,
            proving_key: None,
            phase: Phase::Idle,
            pending: None,
        }
    }

    /// What is cached of an artifact.
    pub open spec fn slot(self, a: Artifact) -> Option<Seq<u8>> {
        match a {
            Artifact::GeneralParams => self.general_params,
            Artifact::VerifierParams => self.verifier_params,
            Artifact::VerifyingKey => self.verifying_key,
            Artifact::ProvingKey => self.proving_key,
        }
    }

    /// The cache with `bytes` in the slot of `a`.
    pub open spec fn with_slot(self, a: Artifact, bytes: Seq<u8>) -> Cache {
        match a {
            Artifact::GeneralParams => Cache { general_params: Some(bytes), ..self },
            Artifact::VerifierParams => Cache { verifier_params: Some(bytes), ..self },
            Artifact::VerifyingKey => Cache { verifying_key: Some(bytes), ..self },
            Artifact::ProvingKey => Cache { proving_key: Some(bytes), ..self },
        }
    }

    /// Whether all four artifacts are cached.
    pub open spec fn loaded(self) -> bool {
        &&& self.general_params is Some
        &&& self.verifier_params is Some
        &&& self.verifying_key is Some
        &&& self.proving_key is Some
    }

    /// The first artifact, in the order of [`Artifact`], that is not cached.
    pub open spec fn wanted(self) -> Option<Artifact> {
        if self.general_params is None {
            Some(Artifact::GeneralParams)
        } else if self.verifier_params is None {
            Some(Artifact::VerifierParams)
        } else if self.verifying_key is None {
            Some(Artifact::VerifyingKey)
        } else if self.proving_key is None {
            Some(Artifact::ProvingKey)
        } else {
            None
        }
    }

    /// The cache in the given phase, with nothing pending.
    pub open spec fn settle(self, phase: Phase) -> Cache {
        Cache { phase, pending: None, ..self }
    }

    /// Turns to the first artifact that is not cached: its file is read next.
    /// With everything cached the cache is ready.
    pub open spec fn resume(self) -> (Cache, Action) {
        match self.wanted() {
            Some(a) => (self.settle(Phase::Reading(a)), Action::Read(a)),
            None => (self.settle(Phase::Idle), Action::Ready),
        }
    }

    /// One step of the cache.
    ///
    /// The artifact in progress is pursued only while it is the first one
    /// missing; otherwise the cache turns to the first one missing. A file
    /// that was found is cached and never regenerated. Only a missing file
    /// leads to generation, and what was generated is cached once it is
    /// stored. A failure stops loading until it is begun again. An event that
    /// the phase does not expect repeats the outstanding action.
    pub open spec fn step(self, report: Report) -> (Cache, Action) {
        match self.phase {
            Phase::Idle => self.resume(),
            Phase::Failed(e) => match report {
                Report::Begin => self.resume(),
                _ => (self, Action::Fail(e)),
            },
            Phase::Reading(a) => if self.wanted() != Some(a) {
                self.resume()
            } else {
                match report {
                    Report::Found(bytes) => self.with_slot(a, bytes).resume(),
                    Report::Missing => (self.settle(Phase::Generating(a)), Action::Generate(a)),
                    Report::IoFailed => (
                        self.settle(Phase::Failed(Error::Io(a))),
                        Action::Fail(Error::Io(a)),
                    ),
                    Report::BackendFailed => (
                        self.settle(Phase::Failed(Error::Backend(a))),
                        Action::Fail(Error::Backend(a)),
                    ),
                    _ => (self, Action::Read(a)),
                }
            },
            Phase::Generating(a) => if self.wanted() != Some(a) {
                self.resume()
            } else {
                match report {
                    Report::Generated(bytes) => (
                        Cache { phase: Phase::Persisting(a), pending: Some(bytes), ..self },
                        Action::Store(a),
                    ),
                    Report::BackendFailed => (
                        self.settle(Phase::Failed(Error::Backend(a))),
                        Action::Fail(Error::Backend(a)),
                    ),
                    _ => (self, Action::Generate(a)),
                }
            },
            Phase::Persisting(a) => if self.wanted() != Some(a) || self.pending is None {
                self.resume()
            } else {
                match report {
                    Report::Stored => self.with_slot(a, self.pending->0).resume(),
                    Report::IoFailed => (
                        self.settle(Phase::Failed(Error::Io(a))),
                        Action::Fail(Error::Io(a)),
                    ),
                    _ => (self, Action::Store(a)),
                }
            },
        }
    }
}

/// The artifacts that generating `a` reads.
pub open spec fn requires_cached(a: Artifact, b: Artifact) -> bool {
    match a {
        Artifact::GeneralParams => false,
        Artifact::VerifierParams => b == Artifact::GeneralParams,
        Artifact::VerifyingKey => b == Artifact::GeneralParams,
        Artifact::ProvingKey => b == Artifact::GeneralParams || b == Artifact::VerifyingKey,
    }
}

/// A cached artifact is kept: no step changes it, and no step reads,
/// generates or stores it again.
pub proof fn law_cached_artifact_is_kept(cache: Cache, report: Report, a: Artifact)
    requires
        cache.slot(a) is Some,
    ensures
        cache.step(report).0.slot(a) == cache.slot(a),
        cache.step(report).1.subject() != Some(a),
{
}

/// Once everything is cached, every further step answers `Ready` and leaves
/// all four artifacts as they are: nothing is read or generated again.
pub proof fn law_loaded_is_settled(cache: Cache, report: Report)
    requires
        cache.loaded(),
        !(cache.phase is Failed),
    ensures
        cache.step(report).1 == Action::Ready,
        cache.step(report).0 == cache.settle(Phase::Idle),
        forall|a: Artifact| cache.step(report).0.slot(a) == cache.slot(a),
{
}

/// A file that is found is what gets cached, and the step that caches it
/// does not ask for any generation.
pub proof fn law_found_file_is_used(cache: Cache, a: Artifact, bytes: Seq<u8>)
    requires
        cache.phase == Phase::Reading(a),
        cache.wanted() == Some(a),
    ensures
        cache.step(Report::Found(bytes)).0.slot(a) == Some(bytes),
        !(cache.step(Report::Found(bytes)).1 is Generate),
        !(cache.step(Report::Found(bytes)).1 is Store),
{
}

/// Generation is asked for only when the artifact is not cached and its file
/// was just reported missing, or when that request is repeated.
pub proof fn law_generation_only_after_miss(cache: Cache, report: Report, a: Artifact)
    requires
        cache.step(report).1 == Action::Generate(a),
    ensures
        cache.slot(a) is None,
        (cache.phase == Phase::Reading(a) && report is Missing) || cache.phase
            == Phase::Generating(a),
{
}

/// Whatever is asked about an artifact, every artifact before it is cached
/// by then: in particular a proving key is never read, generated or stored
/// before the verifying key and the general parameters are there.
pub proof fn law_dependencies_come_first(cache: Cache, report: Report, a: Artifact, b: Artifact)
    requires
        cache.step(report).1.subject() == Some(a),
        requires_cached(a, b),
    ensures
        cache.step(report).0.slot(b) is Some,
        cache.step(report).0.slot(a) is None,
        cache.step(report).0.wanted() == Some(a),
{
}

/// A missing artifact never makes a step fail: a failure is either the one
/// that already stopped loading, or the answer to a failure that the driver
/// reported for the artifact in progress.
pub proof fn law_failure_is_reported(cache: Cache, report: Report, e: Error)
    requires
        cache.step(report).1 == Action::Fail(e),
    ensures
        cache.phase == Phase::Failed(e) || ((report is IoFailed || report is BackendFailed)
            && cache.phase.pursued() is Some),
        (e is Io) ==> (cache.phase == Phase::Failed(e) || report is IoFailed),
        (e is Backend) ==> (cache.phase == Phase::Failed(e) || report is BackendFailed),
{
}

/// What is stored is what was generated: the bytes that a finished write
/// caches are the pending ones.
pub proof fn law_stored_is_generated(cache: Cache, a: Artifact, bytes: Seq<u8>)
    requires
        cache.phase == Phase::Generating(a),
        cache.wanted() == Some(a),
    ensures
        cache.step(Report::Generated(bytes)).1 == Action::Store(a),
        cache.step(Report::Generated(bytes)).0.slot(a) is None,
        cache.step(Report::Generated(bytes)).0.step(Report::Stored).0.slot(a) == Some(bytes),
{
}

/// How many of the four artifacts are cached.
pub open spec fn cached_count(cache: Cache) -> nat {
    (if cache.general_params is Some { 1nat } else { 0nat })
        + (if cache.verifier_params is Some { 1nat } else { 0nat })
        + (if cache.verifying_key is Some { 1nat } else { 0nat })
        + (if cache.proving_key is Some { 1nat } else { 0nat })
}

/// Loading makes progress: a file that is found, or a finished write, caches
/// one more artifact, and no step ever caches fewer than before.
pub proof fn law_progress(cache: Cache, report: Report, a: Artifact)
    requires
        cache.wanted() == Some(a),
    ensures
        cached_count(cache.step(report).0) >= cached_count(cache),
        cache.phase == Phase::Reading(a) && report is Found ==> cached_count(
            cache.step(report).0,
        ) == cached_count(cache) + 1,
        cache.phase == Phase::Persisting(a) && cache.pending is Some && report is Stored
            ==> cached_count(cache.step(report).0) == cached_count(cache) + 1,
{
}

/// Whether the cache is on its way: the artifact in progress is the first
/// one missing, and a write in progress has its bytes.
pub open spec fn on_track(cache: Cache) -> bool {
    &&& cache.phase.pursued() is Some ==> cache.wanted() == cache.phase.pursued()
    &&& cache.phase is Persisting ==> cache.pending is Some
}

/// Whether a report answers the outstanding action without a failure.
pub open spec fn answers(cache: Cache, report: Report) -> bool {
    match cache.phase {
        Phase::Idle => true,
        Phase::Reading(_) => report is Found || report is Missing,
        Phase::Generating(_) => report is Generated,
        Phase::Persisting(_) => report is Stored,
        Phase::Failed(_) => false,
    }
}

/// A bound on the steps that loading still takes.
pub open spec fn remaining(cache: Cache) -> nat {
    (4 * (4 - cached_count(cache)) + match cache.phase {
        Phase::Idle => 3nat,
        Phase::Reading(_) => 2nat,
        Phase::Generating(_) => 1nat,
        Phase::Persisting(_) => 0nat,
        Phase::Failed(_) => 3nat,
    }) as nat
}

/// Loading terminates: while the driver answers each action without a
/// failure, every step either reports `Ready` or brings the cache strictly
/// closer to it, and never fails. Nineteen steps suffice from any state.
pub proof fn law_loading_terminates(cache: Cache, report: Report)
    requires
        on_track(cache),
        answers(cache, report),
    ensures
        on_track(cache.step(report).0),
        !(cache.step(report).0.phase is Failed),
        !(cache.step(report).1 is Fail),
        cache.step(report).1 is Ready || remaining(cache.step(report).0) < remaining(cache),
        cache.step(report).1 is Ready ==> cache.step(report).0.loaded(),
        remaining(cache) <= 19,
{
}

/// What a driver reports that finds the files in `files`, gets
/// `generated(a)` from the backend for an artifact `a`, and meets no failure.
pub open spec fn due(
    cache: Cache,
    files: Map<Artifact, Seq<u8>>,
    generated: spec_fn(Artifact) -> Seq<u8>,
) -> Report {
    match cache.phase {
        Phase::Reading(a) => if files.contains_key(a) {
            Report::Found(files[a])
        } else {
            Report::Missing
        },
        Phase::Generating(a) => Report::Generated(generated(a)),
        Phase::Persisting(_) => Report::Stored,
        _ => Report::Begin,
    }
}

/// The cache after such a driver has run it until it is ready or fails, or
/// for `fuel` steps.
pub open spec fn run_to_end(
    cache: Cache,
    files: Map<Artifact, Seq<u8>>,
    generated: spec_fn(Artifact) -> Seq<u8>,
    fuel: nat,
) -> Cache
    decreases fuel,
{
    if fuel == 0 {
        cache
    } else {
        let (next, action) = cache.step(due(cache, files, generated));
        if action is Ready || action is Fail {
            next
        } else {
            run_to_end(next, files, generated, (fuel - 1) as nat)
        }
    }
}

/// Where an artifact comes from in a run: from the cache, else from its
/// file, else from the backend.
pub open spec fn source_of(
    cache: Cache,
    files: Map<Artifact, Seq<u8>>,
    generated: spec_fn(Artifact) -> Seq<u8>,
    a: Artifact,
) -> Seq<u8> {
    if cache.slot(a) is Some {
        cache.slot(a)->0
    } else if files.contains_key(a) {
        files[a]
    } else {
        generated(a)
    }
}

/// Whether a slot that is filled holds what its source gives, and was
/// filled if it was at the start.
pub open spec fn slot_from_source(
    cache: Cache,
    start: Cache,
    files: Map<Artifact, Seq<u8>>,
    generated: spec_fn(Artifact) -> Seq<u8>,
    a: Artifact,
) -> bool {
    &&& start.slot(a) is Some ==> cache.slot(a) is Some
    &&& cache.slot(a) is Some ==> cache.slot(a) == Some(source_of(start, files, generated, a))
}

/// Whether a cache is a state of the run that began at `start`.
pub open spec fn in_run(
    cache: Cache,
    start: Cache,
    files: Map<Artifact, Seq<u8>>,
    generated: spec_fn(Artifact) -> Seq<u8>,
) -> bool {
    &&& on_track(cache)
    &&& slot_from_source(cache, start, files, generated, Artifact::GeneralParams)
    &&& slot_from_source(cache, start, files, generated, Artifact::VerifierParams)
    &&& slot_from_source(cache, start, files, generated, Artifact::VerifyingKey)
    &&& slot_from_source(cache, start, files, generated, Artifact::ProvingKey)
    &&& match cache.phase {
        Phase::Generating(a) => !files.contains_key(a),
        Phase::Persisting(a) => !files.contains_key(a) && cache.pending == Some(generated(a)),
        _ => true,
    }
}

/// Whether every artifact is cached and holds what its source gives.
pub open spec fn all_from_source(
    cache: Cache,
    start: Cache,
    files: Map<Artifact, Seq<u8>>,
    generated: spec_fn(Artifact) -> Seq<u8>,
) -> bool {
    &&& cache.loaded()
    &&& cache.phase == Phase::Idle
    &&& forall|a: Artifact| #[trigger]
        cache.slot(a) == Some(source_of(start, files, generated, a))
}

proof fn lemma_run_ends_loaded(
    cache: Cache,
    start: Cache,
    files: Map<Artifact, Seq<u8>>,
    generated: spec_fn(Artifact) -> Seq<u8>,
    fuel: nat,
)
    requires
        in_run(cache, start, files, generated),
        fuel > remaining(cache),
    ensures
        all_from_source(run_to_end(cache, files, generated, fuel), start, files, generated),
    decreases fuel,
{
    let (next, action) = cache.step(due(cache, files, generated));
    if action is Ready || action is Fail {
        assert(next.loaded());
        assert forall|a: Artifact| #[trigger]
            next.slot(a) == Some(source_of(start, files, generated, a)) by {
            match a {
                Artifact::GeneralParams => {},
                Artifact::VerifierParams => {},
                Artifact::VerifyingKey => {},
                Artifact::ProvingKey => {},
            }
        }
    } else {
        assert(in_run(next, start, files, generated));
        assert(remaining(next) < remaining(cache));
        lemma_run_ends_loaded(next, start, files, generated, (fuel - 1) as nat);
    }
}

/// A whole run of loading, with a driver that meets no failure: from a cache
/// that is between runs, twenty steps end with all four artifacts cached,
/// and each of them is what the cache already held, else what its file
/// holds, else what the backend generated. So nothing cached is loaded
/// again, no file that exists is regenerated, a missing verifying key is
/// generated even where only the proving key was asked for, and a file that
/// was deleted is replaced by what the backend gives for it anew.
pub proof fn law_run_loads_from_cache_then_file_then_backend(
    cache: Cache,
    files: Map<Artifact, Seq<u8>>,
    generated: spec_fn(Artifact) -> Seq<u8>,
)
    requires
        cache.phase.pursued() is None,
    ensures
        all_from_source(run_to_end(cache, files, generated, 20), cache, files, generated),
{
    lemma_run_ends_loaded(cache, cache, files, generated, 20);
}

} // verus!
