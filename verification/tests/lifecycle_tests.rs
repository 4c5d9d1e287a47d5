use exploit_prover::lifecycle::{Action, Artifact, Error, Event, Phase};
use exploit_prover::prover::RealProver;
use std::collections::HashMap;

/// An in-memory directory and a backend that counts what it generates.
struct Bench {
    files: HashMap<Vec<u8>, Vec<u8>>,
    generated: Vec<Artifact>,
    reads: Vec<Artifact>,
}

fn bench() -> Bench {
    Bench { files: HashMap::new(), generated: Vec::new(), reads: Vec::new() }
}

fn toy_prover(k: u32) -> RealProver {
    RealProver::from(String::from("toy"), vec![2], k, None)
}

/// What the toy backend generates: a function of the artifact, the degree and
/// what the artifact is generated from.
fn fake_artifact(prover: &RealProver, a: Artifact) -> Vec<u8> {
    let mut out = vec![prover.degree as u8];
    match a {
        Artifact::GeneralParams => out.extend_from_slice(&prover.rng_seed[..4]),
        Artifact::VerifierParams => {
            out.push(1);
            out.extend_from_slice(prover.general_params.as_ref().unwrap());
        }
        Artifact::VerifyingKey => {
            out.push(2);
            out.extend_from_slice(prover.general_params.as_ref().unwrap());
        }
        Artifact::ProvingKey => {
            out.push(3);
            out.extend_from_slice(prover.general_params.as_ref().unwrap());
            out.extend_from_slice(prover.circuit_verifying_key.as_ref().unwrap());
        }
    }
    out
}

/// Drives the prover until it is ready or fails.
fn drive(prover: &mut RealProver, bench: &mut Bench) -> Result<(), Error> {
    let mut action = prover.load(Event::Begin);
    for _ in 0..64 {
        let event = match action {
            Action::Ready => return Ok(()),
            Action::Fail(e) => return Err(e),
            Action::Read(a) => {
                bench.reads.push(a);
                match bench.files.get(&prover.file_name(a)) {
                    Some(bytes) => Event::Found(bytes.clone()),
                    None => Event::Missing,
                }
            }
            Action::Generate(a) => {
                bench.generated.push(a);
                Event::Generated(fake_artifact(prover, a))
            }
            Action::Store(a) => {
                let bytes = prover.pending.clone().unwrap();
                bench.files.insert(prover.file_name(a), bytes);
                Event::Stored
            }
        };
        action = prover.load(event);
    }
    panic!("loading did not settle");
}

#[test]
fn first_load_reads_generates_and_stores_in_order() {
    let mut prover = toy_prover(10);
    assert_eq!(prover.load(Event::Begin), Action::Read(Artifact::GeneralParams));
    assert_eq!(prover.phase, Phase::Reading(Artifact::GeneralParams));
    assert_eq!(prover.load(Event::Missing), Action::Generate(Artifact::GeneralParams));
    assert_eq!(prover.load(Event::Generated(vec![1, 2, 3])), Action::Store(Artifact::GeneralParams));
    assert_eq!(prover.general_params, None);
    assert_eq!(prover.pending, Some(vec![1, 2, 3]));
    assert_eq!(prover.load(Event::Stored), Action::Read(Artifact::VerifierParams));
    assert_eq!(prover.general_params, Some(vec![1, 2, 3]));
    assert_eq!(prover.pending, None);
    assert_eq!(prover.load(Event::Found(vec![4])), Action::Read(Artifact::VerifyingKey));
    assert_eq!(prover.verifier_params, Some(vec![4]));
    assert_eq!(prover.load(Event::Found(vec![5])), Action::Read(Artifact::ProvingKey));
    assert_eq!(prover.load(Event::Missing), Action::Generate(Artifact::ProvingKey));
    assert_eq!(prover.load(Event::Generated(vec![6])), Action::Store(Artifact::ProvingKey));
    assert_eq!(prover.load(Event::Stored), Action::Ready);
    assert_eq!(prover.circuit_verifying_key, Some(vec![5]));
    assert_eq!(prover.circuit_proving_key, Some(vec![6]));
    assert_eq!(prover.phase, Phase::Idle);
    assert!(prover.is_loaded());
}

#[test]
fn loading_twice_generates_once_and_returns_the_same_parameters() {
    let mut prover = toy_prover(10);
    let mut bench = bench();
    assert_eq!(drive(&mut prover, &mut bench), Ok(()));
    let first = prover.general_params.clone();
    let generated = bench.generated.len();
    let reads = bench.reads.len();
    assert_eq!(generated, 4);
    assert_eq!(drive(&mut prover, &mut bench), Ok(()));
    assert_eq!(prover.general_params, first);
    assert_eq!(bench.generated.len(), generated);
    assert_eq!(bench.reads.len(), reads);
}

#[test]
fn existing_files_are_never_regenerated() {
    let mut bench = bench();
    let mut first = toy_prover(10);
    assert_eq!(drive(&mut first, &mut bench), Ok(()));
    assert_eq!(bench.generated.len(), 4);
    let mut second = toy_prover(10);
    assert_eq!(drive(&mut second, &mut bench), Ok(()));
    assert_eq!(bench.generated.len(), 4);
    assert_eq!(second.general_params, first.general_params);
    assert_eq!(second.verifier_params, first.verifier_params);
    assert_eq!(second.circuit_verifying_key, first.circuit_verifying_key);
    assert_eq!(second.circuit_proving_key, first.circuit_proving_key);
}

#[test]
fn another_degree_does_not_reuse_the_files() {
    let mut bench = bench();
    let mut first = toy_prover(10);
    assert_eq!(drive(&mut first, &mut bench), Ok(()));
    let mut other = toy_prover(11);
    assert_eq!(drive(&mut other, &mut bench), Ok(()));
    assert_eq!(bench.generated.len(), 8);
    assert_ne!(other.general_params, first.general_params);
    assert_eq!(bench.files.len(), 8);
}

#[test]
fn verifying_key_is_generated_before_the_proving_key() {
    let mut bench = bench();
    let mut prover = toy_prover(10);
    assert_eq!(drive(&mut prover, &mut bench), Ok(()));
    assert_eq!(
        bench.generated,
        vec![
            Artifact::GeneralParams,
            Artifact::VerifierParams,
            Artifact::VerifyingKey,
            Artifact::ProvingKey
        ]
    );
}

#[test]
fn deleted_verifying_key_file_is_regenerated_identically() {
    let mut bench = bench();
    let mut first = toy_prover(10);
    assert_eq!(drive(&mut first, &mut bench), Ok(()));
    let name = first.file_name(Artifact::VerifyingKey);
    let deleted = bench.files.remove(&name).unwrap();
    bench.generated.clear();
    let mut second = toy_prover(10);
    assert_eq!(drive(&mut second, &mut bench), Ok(()));
    assert_eq!(bench.generated, vec![Artifact::VerifyingKey]);
    assert_eq!(bench.files.get(&name), Some(&deleted));
    assert_eq!(second.circuit_verifying_key, Some(deleted));
}

#[test]
fn proving_key_request_with_nothing_cached_starts_at_the_parameters() {
    let mut prover = toy_prover(10);
    assert_eq!(prover.set_circuit_params(None, None), Action::Read(Artifact::GeneralParams));
}

#[test]
fn cached_verifying_key_without_parameters_loads_the_parameters_first() {
    let mut prover = toy_prover(10);
    prover.circuit_verifying_key = Some(vec![9]);
    assert_eq!(prover.load(Event::Begin), Action::Read(Artifact::GeneralParams));
    assert_eq!(prover.load(Event::Found(vec![1])), Action::Read(Artifact::VerifierParams));
    assert_eq!(prover.load(Event::Found(vec![2])), Action::Read(Artifact::ProvingKey));
    assert_eq!(prover.circuit_verifying_key, Some(vec![9]));
}

#[test]
fn io_failure_while_storing_is_fatal_and_caches_nothing() {
    let mut prover = toy_prover(10);
    prover.load(Event::Begin);
    prover.load(Event::Missing);
    prover.load(Event::Generated(vec![1]));
    assert_eq!(prover.load(Event::IoFailed), Action::Fail(Error::Io(Artifact::GeneralParams)));
    assert_eq!(prover.general_params, None);
    assert_eq!(prover.pending, None);
    assert_eq!(prover.phase, Phase::Failed(Error::Io(Artifact::GeneralParams)));
    assert_eq!(prover.load(Event::Stored), Action::Fail(Error::Io(Artifact::GeneralParams)));
    assert_eq!(prover.load(Event::Missing), Action::Fail(Error::Io(Artifact::GeneralParams)));
    assert_eq!(prover.general_params, None);
}

#[test]
fn backend_failure_is_told_apart_from_io_failure() {
    let mut prover = toy_prover(10);
    prover.load(Event::Begin);
    assert_eq!(
        prover.load(Event::BackendFailed),
        Action::Fail(Error::Backend(Artifact::GeneralParams))
    );
    let mut prover = toy_prover(10);
    prover.load(Event::Begin);
    assert_eq!(prover.load(Event::IoFailed), Action::Fail(Error::Io(Artifact::GeneralParams)));
    let mut prover = toy_prover(10);
    prover.load(Event::Begin);
    prover.load(Event::Missing);
    assert_eq!(
        prover.load(Event::BackendFailed),
        Action::Fail(Error::Backend(Artifact::GeneralParams))
    );
}

#[test]
fn beginning_again_after_a_failure_starts_over() {
    let mut prover = toy_prover(10);
    prover.load(Event::Begin);
    prover.load(Event::Found(vec![1]));
    prover.load(Event::IoFailed);
    assert_eq!(prover.phase, Phase::Failed(Error::Io(Artifact::VerifierParams)));
    assert_eq!(prover.load(Event::Begin), Action::Read(Artifact::VerifierParams));
    assert_eq!(prover.general_params, Some(vec![1]));
}

#[test]
fn unexpected_event_repeats_the_outstanding_action() {
    let mut prover = toy_prover(10);
    prover.load(Event::Begin);
    assert_eq!(prover.load(Event::Stored), Action::Read(Artifact::GeneralParams));
    assert_eq!(prover.load(Event::Generated(vec![1])), Action::Read(Artifact::GeneralParams));
    assert_eq!(prover.general_params, None);
    prover.load(Event::Missing);
    assert_eq!(prover.load(Event::Found(vec![1])), Action::Generate(Artifact::GeneralParams));
    assert_eq!(prover.load(Event::IoFailed), Action::Generate(Artifact::GeneralParams));
    prover.load(Event::Generated(vec![2]));
    assert_eq!(prover.load(Event::Missing), Action::Store(Artifact::GeneralParams));
    assert_eq!(prover.pending, Some(vec![2]));
}

#[test]
fn ready_prover_stays_ready_whatever_is_reported() {
    let mut bench = bench();
    let mut prover = toy_prover(10);
    assert_eq!(drive(&mut prover, &mut bench), Ok(()));
    let keys = prover.circuit_proving_key.clone();
    assert_eq!(prover.load(Event::Missing), Action::Ready);
    assert_eq!(prover.load(Event::Found(vec![0])), Action::Ready);
    assert_eq!(prover.load(Event::Generated(vec![0])), Action::Ready);
    assert_eq!(prover.load(Event::IoFailed), Action::Ready);
    assert_eq!(prover.circuit_proving_key, keys);
}

#[test]
fn key_overrides_are_installed_together_or_not_at_all() {
    let mut prover = toy_prover(10);
    prover.general_params = Some(vec![1]);
    prover.verifier_params = Some(vec![2]);
    assert_eq!(prover.set_circuit_params(Some(vec![3]), None), Action::Read(Artifact::VerifyingKey));
    assert_eq!(prover.circuit_proving_key, None);
    assert_eq!(prover.set_circuit_params(Some(vec![3]), Some(vec![4])), Action::Ready);
    assert_eq!(prover.circuit_proving_key, Some(vec![3]));
    assert_eq!(prover.circuit_verifying_key, Some(vec![4]));
    assert_eq!(prover.set_circuit_params(Some(vec![5]), Some(vec![6])), Action::Ready);
    assert_eq!(prover.circuit_proving_key, Some(vec![3]));
    assert_eq!(prover.circuit_verifying_key, Some(vec![4]));
}

#[test]
fn parameter_overrides_are_installed() {
    let mut prover = toy_prover(10);
    assert_eq!(
        prover.set_general_params(Some(vec![1])),
        Action::Read(Artifact::VerifierParams)
    );
    assert_eq!(prover.general_params, Some(vec![1]));
    assert_eq!(
        prover.set_verifier_params(Some(vec![2])),
        Action::Read(Artifact::VerifyingKey)
    );
    assert_eq!(prover.verifier_params, Some(vec![2]));
    assert_eq!(prover.set_general_params(None), Action::Read(Artifact::VerifyingKey));
}

#[test]
fn changing_the_degree_drops_what_was_cached() {
    let mut bench = bench();
    let mut prover = toy_prover(10);
    assert_eq!(drive(&mut prover, &mut bench), Ok(()));
    let same = prover.degree(10);
    assert!(same.is_loaded());
    let other = same.degree(12);
    assert_eq!(other.degree, 12);
    assert!(!other.is_loaded());
    assert_eq!(other.general_params, None);
    assert_eq!(other.wanted(), Some(Artifact::GeneralParams));
    assert_eq!(other.file_name(Artifact::ProvingKey), b"toy_proving_key_12".to_vec());
}

#[test]
fn new_prover_has_the_default_directory() {
    let prover = toy_prover(10);
    assert_eq!(prover.dir_path, "./out");
    assert_eq!(prover.degree, 10);
    assert_eq!(prover.circuit_name, "toy");
    assert_eq!(prover.num_instance, vec![2]);
    assert_eq!(prover.phase, Phase::Idle);
    assert!(!prover.is_loaded());
    let placed = RealProver::from(String::from("toy"), vec![2], 10, Some(String::from("/tmp/a")));
    assert_eq!(placed.dir_path, "/tmp/a");
}

#[test]
fn file_names_of_a_prover() {
    let prover = toy_prover(10);
    assert_eq!(prover.file_name(Artifact::GeneralParams), b"kzg_general_params_10".to_vec());
    assert_eq!(prover.file_name(Artifact::VerifierParams), b"kzg_verifier_params_10".to_vec());
    assert_eq!(prover.file_name(Artifact::VerifyingKey), b"toy_verifying_key_10".to_vec());
    assert_eq!(prover.file_name(Artifact::ProvingKey), b"toy_proving_key_10".to_vec());
}

#[test]
fn loading_from_nothing_takes_thirteen_steps() {
    let mut prover = toy_prover(10);
    let mut steps = 1;
    let mut action = prover.load(Event::Begin);
    while action != Action::Ready {
        let event = match action {
            Action::Read(_) => Event::Missing,
            Action::Generate(_) => Event::Generated(vec![steps as u8]),
            Action::Store(_) => Event::Stored,
            other => panic!("unexpected {:?}", other),
        };
        action = prover.load(event);
        steps += 1;
        assert!(steps <= 19);
    }
    assert_eq!(steps, 13);
    assert!(prover.is_loaded());
}

#[test]
fn artifact_cached_behind_the_back_is_not_fetched_again() {
    let mut prover = toy_prover(10);
    assert_eq!(prover.load(Event::Begin), Action::Read(Artifact::GeneralParams));
    prover.general_params = Some(vec![7]);
    assert_eq!(prover.load(Event::Missing), Action::Read(Artifact::VerifierParams));
    assert_eq!(prover.general_params, Some(vec![7]));
    assert_eq!(prover.load(Event::Missing), Action::Generate(Artifact::VerifierParams));
    prover.verifier_params = Some(vec![8]);
    assert_eq!(prover.load(Event::Generated(vec![9])), Action::Read(Artifact::VerifyingKey));
    assert_eq!(prover.verifier_params, Some(vec![8]));
    assert_eq!(prover.pending, None);
}

#[test]
fn dropped_dependency_is_fetched_before_generation_goes_on() {
    let mut prover = toy_prover(10);
    prover.general_params = Some(vec![1]);
    prover.verifier_params = Some(vec![2]);
    prover.circuit_verifying_key = Some(vec![3]);
    assert_eq!(prover.load(Event::Begin), Action::Read(Artifact::ProvingKey));
    prover.circuit_verifying_key = None;
    assert_eq!(prover.load(Event::Missing), Action::Read(Artifact::VerifyingKey));
    assert_eq!(prover.load(Event::Missing), Action::Generate(Artifact::VerifyingKey));
    assert_eq!(prover.circuit_proving_key, None);
}
