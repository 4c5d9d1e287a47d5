//! Setup parameters: their generation by the KZG backend, and the degree that
//! their serialized form begins with.

use crate::lifecycle::{bytes_of, Event, Report};
use rand_chacha::rand_core::SeedableRng;
use rand_chacha::ChaCha20Rng;
use snark_verifier::halo2_base::halo2_proofs::halo2curves::bn256::Bn256;
use snark_verifier::halo2_base::halo2_proofs::poly::commitment::ParamsProver;
use snark_verifier::halo2_base::halo2_proofs::poly::kzg::commitment::ParamsKZG;
use snark_verifier::halo2_base::halo2_proofs::SerdeFormat;
use vstd::prelude::*;

verus! {

/// The largest degree that the backend generates parameters for.
pub const MAX_DEGREE: u32 = 28;

/// The degree that serialized parameters begin with: their first four bytes,
/// least significant first. Shorter input holds none.
pub open spec fn header_degree(bytes: Seq<u8>) -> Option<u32> {
    if bytes.len() >= 4 {
        Some(
            (bytes[0] as nat + 256 * (bytes[1] as nat) + 65536 * (bytes[2] as nat) + 16777216 * (
            bytes[3] as nat)) as u32,
        )
    } else {
        None
    }
}

/// Reads the degree that serialized parameters begin with.
pub fn read_header(bytes: &Vec<u8>) -> (degree: Option<u32>)
    ensures
        degree == header_degree(bytes@),
{
    if bytes.len() < 4 {
        return None;
    }
    let b0: u32 = bytes[0] as u32;
    let b1: u32 = bytes[1] as u32;
    let b2: u32 = bytes[2] as u32;
    let b3: u32 = bytes[3] as u32;
    Some(b0 + 256 * b1 + 65536 * b2 + 16777216 * b3)
}

/// The serialized general parameters that the backend sets up for a degree
/// with a generator of the given seed.
pub uninterp spec fn kzg_params_of(degree: u32, seed: Seq<u8>) -> Seq<u8>;

/// The serialized verifier parameters that the backend derives from
/// serialized general parameters, where it can decode them.
pub uninterp spec fn kzg_verifier_params_of(general: Seq<u8>) -> Option<Seq<u8>>;

/// Calls `ParamsKZG::<Bn256>::setup` with the ChaCha20 generator of `seed`
/// and serializes the result with `write_custom` in the raw format.
///
/// Believed, not proved: the bytes depend on the degree and the seed alone,
/// they begin with the degree as four bytes, least significant first, and
/// the backend decodes what it has written in this way.
/// The backend refuses a degree above [`MAX_DEGREE`]. It also gives up where
/// the secret that it draws is a root of unity of the domain, which no seed
/// is known to produce.
#[verifier::external_body]
pub(crate) fn kzg_setup(degree: u32, seed: &[u8; 32]) -> (bytes: Vec<u8>)
    requires
        degree <= MAX_DEGREE,
    ensures
        bytes@ == kzg_params_of(degree, seed@),
        header_degree(bytes@) == Some(degree),
        kzg_verifier_params_of(bytes@) is Some,
{
    let params = ParamsKZG::<Bn256>::setup(degree, ChaCha20Rng::from_seed(*seed));
    let mut bytes: Vec<u8> = Vec::new();
    params.write_custom(&mut bytes, SerdeFormat::RawBytes).unwrap();
    bytes
}

/// Decodes general parameters with `ParamsKZG::<Bn256>::read_custom`, takes
/// their `verifier_params` and serializes those with `write_custom`, all in
/// the raw format.
///
/// Believed, not proved: the outcome depends on the bytes alone; `None`
/// stands for bytes that the backend does not decode. The verifier's
/// parameters are the decoded ones themselves, so what comes back begins
/// with the same degree, and the backend decodes it again.
#[verifier::external_body]
pub(crate) fn kzg_verifier_params(general: &Vec<u8>) -> (bytes: Option<Vec<u8>>)
    requires
        header_degree(general@) is Some,
        header_degree(general@)->0 <= MAX_DEGREE,
    ensures
        bytes_of(bytes) == kzg_verifier_params_of(general@),
        bytes is Some ==> header_degree(bytes->0@) == header_degree(general@),
        bytes is Some ==> kzg_verifier_params_of(bytes->0@) is Some,
{
    match ParamsKZG::<Bn256>::read_custom(&mut general.as_slice(), SerdeFormat::RawBytes) {
        Ok(params) => {
            let mut bytes: Vec<u8> = Vec::new();
            params.verifier_params().write_custom(&mut bytes, SerdeFormat::RawBytes).unwrap();
            Some(bytes)
        },
        Err(_) => None,
    }
}

/// Decodes parameters with `ParamsKZG::<Bn256>::read_custom` in the raw
/// format and says whether that succeeded.
///
/// Believed, not proved: the backend decodes exactly the bytes from which it
/// derives verifier parameters, since deriving fails nowhere but in decoding.
#[verifier::external_body]
pub(crate) fn kzg_decodes(bytes: &Vec<u8>) -> (ok: bool)
    requires
        header_degree(bytes@) is Some,
        header_degree(bytes@)->0 <= MAX_DEGREE,
    ensures
        ok == (kzg_verifier_params_of(bytes@) is Some),
{
    ParamsKZG::<Bn256>::read_custom(&mut bytes.as_slice(), SerdeFormat::RawBytes).is_ok()
}

/// What generating general parameters reports: the backend's bytes, or a
/// backend failure for a degree that it does not support.
pub open spec fn general_params_report(degree: u32, seed: Seq<u8>) -> Report {
    if degree <= MAX_DEGREE {
        Report::Generated(kzg_params_of(degree, seed))
    } else {
        Report::BackendFailed
    }
}

/// Whether serialized parameters claim the given degree, which must be one
/// that the backend supports.
pub open spec fn claims_degree(bytes: Seq<u8>, degree: u32) -> bool {
    degree <= MAX_DEGREE && header_degree(bytes) == Some(degree)
}

/// Tests whether serialized parameters claim the given degree.
pub fn has_degree(bytes: &Vec<u8>, degree: u32) -> (yes: bool)
    ensures
        yes == claims_degree(bytes@, degree),
{
    if degree > MAX_DEGREE {
        return false;
    }
    match read_header(bytes) {
        Some(claimed) => claimed == degree,
        None => false,
    }
}

/// Whether serialized parameters are fit for a degree: they claim it and
/// the backend decodes them.
pub open spec fn fits(bytes: Seq<u8>, degree: u32) -> bool {
    claims_degree(bytes, degree) && kzg_verifier_params_of(bytes) is Some
}

/// Tests whether serialized parameters are fit for a degree.
pub fn is_fit(bytes: &Vec<u8>, degree: u32) -> (yes: bool)
    ensures
        yes == fits(bytes@, degree),
{
    has_degree(bytes, degree) && kzg_decodes(bytes)
}

/// What deriving verifier parameters reports: the backend's bytes where the
/// general parameters claim the degree and the backend decodes them, else a
/// backend failure.
pub open spec fn verifier_params_report(general: Seq<u8>, degree: u32) -> Report {
    if claims_degree(general, degree) {
        match kzg_verifier_params_of(general) {
            Some(bytes) => Report::Generated(bytes),
            None => Report::BackendFailed,
        }
    } else {
        Report::BackendFailed
    }
}

/// Generates the general parameters of a degree.
pub fn generate_general_params(degree: u32, seed: &[u8; 32]) -> (event: Event)
    ensures
        event@ == general_params_report(degree, seed@),
        degree <= MAX_DEGREE ==> event is Generated && fits(event->Generated_0@, degree),
{
    if degree <= MAX_DEGREE {
        Event::Generated(kzg_setup(degree, seed))
    } else {
        Event::BackendFailed
    }
}

/// Derives the verifier parameters of a degree from general parameters.
pub fn derive_verifier_params(general: &Vec<u8>, degree: u32) -> (event: Event)
    ensures
        event@ == verifier_params_report(general@, degree),
        fits(general@, degree) ==> event is Generated && fits(event->Generated_0@, degree),
        event is Generated ==> fits(general@, degree) && fits(event->Generated_0@, degree),
{
    if has_degree(general, degree) {
        match kzg_verifier_params(general) {
            Some(bytes) => Event::Generated(bytes),
            None => Event::BackendFailed,
        }
    } else {
        Event::BackendFailed
    }
}

} // verus!
