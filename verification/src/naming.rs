//! Canonical file names of the cached artifacts, as UTF-8 bytes.

use vstd::prelude::*;
use vstd::string::*;

verus! {

/// The decimal digits of `n` in ASCII, most significant first, without
/// leading zeros.
pub open spec fn decimal(n: nat) -> Seq<u8>
    decreases n,
{
    if n < 10 {
        seq![(48 + n) as u8]
    } else {
        decimal(n / 10).push((48 + n % 10) as u8)
    }
}

/// File name of the general setup parameters of one degree.
pub open spec fn general_params_name(degree: nat) -> Seq<u8> {
    "kzg_general_params_".spec_bytes() + decimal(degree)
}

/// File name of the verifier's setup parameters of one degree.
pub open spec fn verifier_params_name(degree: nat) -> Seq<u8> {
    "kzg_verifier_params_".spec_bytes() + decimal(degree)
}

/// File name of the verifying key of a circuit at one degree.
pub open spec fn verifying_key_name(circuit: Seq<u8>, degree: nat) -> Seq<u8> {
    circuit + "_verifying_key_".spec_bytes() + decimal(degree)
}

/// File name of the proving key of a circuit at one degree.
pub open spec fn proving_key_name(circuit: Seq<u8>, degree: nat) -> Seq<u8> {
    circuit + "_proving_key_".spec_bytes() + decimal(degree)
}

/// File name of a circuit's serialized proof.
pub open spec fn proof_name(circuit: Seq<u8>) -> Seq<u8> {
    circuit + "_proof".spec_bytes()
}

/// File name of a circuit's standalone verifier program.
pub open spec fn verifier_source_name(circuit: Seq<u8>) -> Seq<u8> {
    circuit + "_verifier.yul".spec_bytes()
}

/// The number that a sequence of ASCII digits stands for.
pub open spec fn digits_value(digits: Seq<u8>) -> nat
    decreases digits.len(),
{
    if digits.len() == 0 {
        0
    } else {
        digits_value(digits.drop_last()) * 10 + (digits.last() - 48) as nat
    }
}

/// Reading the decimal digits of a number gives the number back.
pub proof fn lemma_decimal_is_read_back(n: nat)
    ensures
        digits_value(decimal(n)) == n,
    decreases n,
{
    if n < 10 {
        let digits = seq![(48 + n) as u8];
        assert(digits.drop_last() =~= Seq::<u8>::empty());
        assert(digits_value(digits.drop_last()) == 0);
    } else {
        lemma_decimal_is_read_back(n / 10);
        let digits = decimal(n / 10).push((48 + n % 10) as u8);
        assert(digits.drop_last() =~= decimal(n / 10));
    }
}

/// Two sequences that follow the same prefix are equal when the whole
/// sequences are.
proof fn lemma_same_prefix(prefix: Seq<u8>, a: Seq<u8>, b: Seq<u8>)
    requires
        prefix + a == prefix + b,
    ensures
        a == b,
{
    assert(a =~= (prefix + a).subrange(prefix.len() as int, (prefix + a).len() as int));
    assert(b =~= (prefix + b).subrange(prefix.len() as int, (prefix + b).len() as int));
}

/// Files are keyed by degree: for one circuit, artifacts of two different
/// degrees never share a file name.
pub proof fn law_degrees_have_their_own_files(circuit: Seq<u8>, d1: nat, d2: nat)
    requires
        d1 != d2,
    ensures
        general_params_name(d1) != general_params_name(d2),
        verifier_params_name(d1) != verifier_params_name(d2),
        verifying_key_name(circuit, d1) != verifying_key_name(circuit, d2),
        proving_key_name(circuit, d1) != proving_key_name(circuit, d2),
{
    lemma_decimal_is_read_back(d1);
    lemma_decimal_is_read_back(d2);
    assert(decimal(d1) != decimal(d2));
    if general_params_name(d1) == general_params_name(d2) {
        lemma_same_prefix("kzg_general_params_".spec_bytes(), decimal(d1), decimal(d2));
    }
    if verifier_params_name(d1) == verifier_params_name(d2) {
        lemma_same_prefix("kzg_verifier_params_".spec_bytes(), decimal(d1), decimal(d2));
    }
    if verifying_key_name(circuit, d1) == verifying_key_name(circuit, d2) {
        lemma_same_prefix(circuit + "_verifying_key_".spec_bytes(), decimal(d1), decimal(d2));
    }
    if proving_key_name(circuit, d1) == proving_key_name(circuit, d2) {
        lemma_same_prefix(circuit + "_proving_key_".spec_bytes(), decimal(d1), decimal(d2));
    }
}

/// Appends `src` to `out`.
pub fn append_bytes(out: &mut Vec<u8>, src: &[u8])
    ensures
        final(out)@ == old(out)@ + src@,
{
    let ghost before = out@;
    let mut i: usize = 0;
    while i < src.len()
        invariant
            0 <= i <= src.len(),
            out@ == before + src@.subrange(0, i as int),
        decreases src.len() - i,
    {
        out.push(src[i]);
        i = i + 1;
        assert(out@ =~= before + src@.subrange(0, i as int));
    }
    assert(out@ =~= before + src@);
}

/// Appends the decimal digits of `n` to `out`.
pub fn push_decimal(out: &mut Vec<u8>, n: u64)
    ensures
        final(out)@ == old(out)@ + decimal(n as nat),
    decreases n,
{
    let ghost before = out@;
    if n >= 10 {
        push_decimal(out, n / 10);
    }
    let digit: u8 = 48u8 + (n % 10) as u8;
    out.push(digit);
    assert(out@ =~= before + decimal(n as nat));
}

/// Builds `prefix`, then `infix`, then the decimal digits of `degree`.
fn compose(prefix: &[u8], infix: &str, degree: u64) -> (name: Vec<u8>)
    ensures
        name@ == prefix@ + infix.spec_bytes() + decimal(degree as nat),
{
    let mut name: Vec<u8> = Vec::new();
    append_bytes(&mut name, prefix);
    append_bytes(&mut name, infix.as_bytes());
    push_decimal(&mut name, degree);
    assert(name@ =~= prefix@ + infix.spec_bytes() + decimal(degree as nat));
    name
}

/// The file that holds the general setup parameters of `degree`.
pub fn general_params_file(degree: u64) -> (name: Vec<u8>)
    ensures
        name@ == general_params_name(degree as nat),
{
    let empty: Vec<u8> = Vec::new();
    let name = compose(empty.as_slice(), "kzg_general_params_", degree);
    assert(name@ =~= general_params_name(degree as nat));
    name
}

/// The file that holds the verifier's setup parameters of `degree`.
pub fn verifier_params_file(degree: u64) -> (name: Vec<u8>)
    ensures
        name@ == verifier_params_name(degree as nat),
{
    let empty: Vec<u8> = Vec::new();
    let name = compose(empty.as_slice(), "kzg_verifier_params_", degree);
    assert(name@ =~= verifier_params_name(degree as nat));
    name
}

/// The file that holds the verifying key of `circuit` at `degree`.
pub fn verifying_key_file(circuit: &str, degree: u64) -> (name: Vec<u8>)
    ensures
        name@ == verifying_key_name(circuit.spec_bytes(), degree as nat),
{
    compose(circuit.as_bytes(), "_verifying_key_", degree)
}

/// The file that holds the proving key of `circuit` at `degree`.
pub fn proving_key_file(circuit: &str, degree: u64) -> (name: Vec<u8>)
    ensures
        name@ == proving_key_name(circuit.spec_bytes(), degree as nat),
{
    compose(circuit.as_bytes(), "_proving_key_", degree)
}

/// The file that holds the serialized proof of `circuit`.
pub fn proof_file(circuit: &str) -> (name: Vec<u8>)
    ensures
        name@ == proof_name(circuit.spec_bytes()),
{
    let mut name: Vec<u8> = Vec::new();
    append_bytes(&mut name, circuit.as_bytes());
    append_bytes(&mut name, "_proof".as_bytes());
    assert(name@ =~= proof_name(circuit.spec_bytes()));
    name
}

/// The file that holds the standalone verifier program of `circuit`.
pub fn verifier_source_file(circuit: &str) -> (name: Vec<u8>)
    ensures
        name@ == verifier_source_name(circuit.spec_bytes()),
{
    let mut name: Vec<u8> = Vec::new();
    append_bytes(&mut name, circuit.as_bytes());
    append_bytes(&mut name, "_verifier.yul".as_bytes());
    assert(name@ =~= verifier_source_name(circuit.spec_bytes()));
    name
}

} // verus!
