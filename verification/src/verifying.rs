//! The verifier's side: the artifacts that checking a proof needs, and the
//! checks that are made before and after the backend is asked.

use crate::naming;
use crate::proofs::{arity_matches, shape_matches, Proof};
use crate::setup::{claims_degree, has_degree};
use vstd::prelude::*;
use vstd::string::*;

verus! {

/// Why a proof is not accepted.
#[derive(Clone, Copy, Debug, PartialEq, Eq, Structural)]
pub enum Rejection {
    /// The proof claims another degree than the verifier's artifacts have.
    DegreeMismatch,
    /// The public values do not have the shape that the circuit declares.
    ArityMismatch,
    /// The backend did not accept the transcript.
    Backend,
}

/// What verifying needs of one circuit at one degree, in serialized form.
#[derive(Clone, Debug)]
pub struct RealVerifier {
    pub circuit_name: String,
    pub dir_path: String,
    pub num_instance: Vec<usize>,
    pub degree: usize,
    pub general_params: Vec<u8>,
    pub verifier_params: Vec<u8>,
    pub circuit_verifying_key: Vec<u8>,
}

/// The names of the files that a verifier is built from.
#[derive(Debug)]
pub struct VerifierFiles {
    pub general_params: Vec<u8>,
    pub verifier_params: Vec<u8>,
    pub verifying_key: Vec<u8>,
}

impl RealVerifier {
    /// The files, within the directory, that hold what [`RealVerifier::new`]
    /// takes for the circuit called `circuit_name` at degree `k`.
    pub fn files(circuit_name: &str, k: usize) -> (names: VerifierFiles)
        ensures
            names.general_params@ == naming::general_params_name(k as nat),
            names.verifier_params@ == naming::verifier_params_name(k as nat),
            names.verifying_key@ == naming::verifying_key_name(circuit_name.spec_bytes(), k as nat),
    {
        VerifierFiles {
            general_params: naming::general_params_file(k as u64),
            verifier_params: naming::verifier_params_file(k as u64),
            verifying_key: naming::verifying_key_file(circuit_name, k as u64),
        }
    }

    /// A verifier for the circuit called `circuit_name` at degree `k`, from
    /// the contents of its three files.
    pub fn new(
        circuit_name: String,
        k: usize,
        dir_path: String,
        num_instance: Vec<usize>,
        general_params: Vec<u8>,
        verifier_params: Vec<u8>,
        circuit_verifying_key: Vec<u8>,
    ) -> (verifier: RealVerifier)
        ensures
            verifier.circuit_name == circuit_name,
            verifier.degree == k,
            verifier.dir_path == dir_path,
            verifier.num_instance == num_instance,
            verifier.general_params == general_params,
            verifier.verifier_params == verifier_params,
            verifier.circuit_verifying_key == circuit_verifying_key,
    {
        RealVerifier {
            circuit_name,
            dir_path,
            num_instance,
            degree: k,
            general_params,
            verifier_params,
            circuit_verifying_key,
        }
    }

    /// Whether the verifier and both sets of its parameters are of the
    /// degree that the proof claims.
    pub open spec fn degree_fits(&self, proof: &Proof) -> bool {
        &&& proof.degree as int == self.degree as int
        &&& claims_degree(self.general_params@, proof.degree)
        &&& claims_degree(self.verifier_params@, proof.degree)
    }

    /// Why the proof is turned away before the backend sees it, if it is:
    /// first for its degree, then for the shape of its public values.
    pub open spec fn objection(&self, proof: &Proof) -> Option<Rejection> {
        if !self.degree_fits(proof) {
            Some(Rejection::DegreeMismatch)
        } else if !shape_matches(proof.instances@, self.num_instance@) {
            Some(Rejection::ArityMismatch)
        } else {
            None
        }
    }

    /// What verification answers, given whether the backend accepted the
    /// transcript: an objection stands whatever the backend says; without
    /// one, the backend decides.
    pub open spec fn verdict(&self, proof: &Proof, backend_accepts: bool) -> Result<
        (),
        Rejection,
    > {
        match self.objection(proof) {
            Some(rejection) => Err(rejection),
            None => if backend_accepts {
                Ok(())
            } else {
                Err(Rejection::Backend)
            },
        }
    }

    /// Tests whether the proof may be handed to the backend at all.
    pub fn admits(&self, proof: &Proof) -> (outcome: Result<(), Rejection>)
        ensures
            outcome == (match self.objection(proof) {
                Some(rejection) => Err::<(), Rejection>(rejection),
                None => Ok(()),
            }),
    {
        if proof.degree as u64 != self.degree as u64 || !has_degree(
            &self.general_params,
            proof.degree,
        ) || !has_degree(&self.verifier_params, proof.degree) {
            Err(Rejection::DegreeMismatch)
        } else if !arity_matches(&proof.instances, &self.num_instance) {
            Err(Rejection::ArityMismatch)
        } else {
            Ok(())
        }
    }

    /// Concludes verification from the backend's answer.
    ///
    /// A proof of another degree is rejected, and so is one whose public
    /// values do not fit the circuit, even where the backend accepted.
    pub fn run(&self, proof: &Proof, backend_accepts: bool) -> (outcome: Result<(), Rejection>)
        ensures
            outcome == self.verdict(proof, backend_accepts),
            !self.degree_fits(proof) ==> outcome == Err::<(), Rejection>(
                Rejection::DegreeMismatch,
            ),
            outcome is Ok ==> backend_accepts,
    {
        match self.admits(proof) {
            Err(rejection) => Err(rejection),
            Ok(()) => if backend_accepts {
                Ok(())
            } else {
                Err(Rejection::Backend)
            },
        }
    }

    /// Passes on the verifier program that the backend rendered, with the
    /// file to write it to where that is asked for.
    pub fn generate_yul(&self, write_to_file: bool, source: String) -> (out: (
        String,
        Option<Vec<u8>>,
    ))
        ensures
            out.0 == source,
            write_to_file ==> out.1 is Some && out.1->0@ == naming::verifier_source_name(
                vstd::utf8::encode_utf8(self.circuit_name@),
            ),
            !write_to_file ==> out.1 is None,
    {
        if write_to_file {
            let name = naming::verifier_source_file(self.circuit_name.as_str());
            (source, Some(name))
        } else {
            (source, None)
        }
    }
}

/// A proof that claims another degree than the verifier has is rejected,
/// whatever the backend says of it.
pub proof fn law_degree_mismatch_is_rejected(
    verifier: RealVerifier,
    proof: Proof,
    backend_accepts: bool,
)
    requires
        proof.degree as int != verifier.degree as int,
    ensures
        verifier.verdict(&proof, backend_accepts) == Err::<(), Rejection>(
            Rejection::DegreeMismatch,
        ),
{
}

/// A proof is accepted exactly when its degree is that of the verifier and
/// of its parameters, its public values have the declared shape, and the
/// backend accepts its transcript.
pub proof fn law_acceptance(verifier: RealVerifier, proof: Proof, backend_accepts: bool)
    ensures
        verifier.verdict(&proof, backend_accepts) is Ok <==> (verifier.degree_fits(&proof)
            && shape_matches(proof.instances@, verifier.num_instance@) && backend_accepts),
{
}

} // verus!
