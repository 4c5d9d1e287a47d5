use exploit_prover::naming::{
    append_bytes, general_params_file, proof_file, proving_key_file, push_decimal,
    verifier_params_file, verifier_source_file, verifying_key_file,
};

#[test]
fn general_params_file_of_degree_ten() {
    assert_eq!(general_params_file(10), b"kzg_general_params_10".to_vec());
}

#[test]
fn verifier_params_file_of_degree_ten() {
    assert_eq!(verifier_params_file(10), b"kzg_verifier_params_10".to_vec());
}

#[test]
fn key_files_hold_circuit_and_degree() {
    assert_eq!(verifying_key_file("super", 19), b"super_verifying_key_19".to_vec());
    assert_eq!(proving_key_file("super", 19), b"super_proving_key_19".to_vec());
}

#[test]
fn names_agree_with_std_formatting() {
    for k in [0u64, 1, 9, 10, 11, 99, 100, 101, 4294967295, u64::MAX] {
        assert_eq!(general_params_file(k), format!("kzg_general_params_{}", k).into_bytes());
        assert_eq!(verifier_params_file(k), format!("kzg_verifier_params_{}", k).into_bytes());
        assert_eq!(
            verifying_key_file("toy", k),
            format!("{}_verifying_key_{}", "toy", k).into_bytes()
        );
        assert_eq!(
            proving_key_file("toy", k),
            format!("{}_proving_key_{}", "toy", k).into_bytes()
        );
    }
}

#[test]
fn degree_zero_has_one_digit() {
    assert_eq!(general_params_file(0), b"kzg_general_params_0".to_vec());
}

#[test]
fn non_ascii_circuit_name_is_kept_as_utf8() {
    let name = "é";
    assert_eq!(proof_file(name), "é_proof".as_bytes().to_vec());
    assert_eq!(verifier_source_file(name), "é_verifier.yul".as_bytes().to_vec());
}

#[test]
fn empty_circuit_name_leaves_the_suffix() {
    assert_eq!(proof_file(""), b"_proof".to_vec());
    assert_eq!(verifying_key_file("", 7), b"_verifying_key_7".to_vec());
}

#[test]
fn push_decimal_appends_digits() {
    let mut out = b"k=".to_vec();
    push_decimal(&mut out, 1203);
    assert_eq!(out, b"k=1203".to_vec());
    push_decimal(&mut out, 0);
    assert_eq!(out, b"k=12030".to_vec());
}

#[test]
fn append_bytes_keeps_what_was_there() {
    let mut out = vec![1u8, 2];
    append_bytes(&mut out, &[3, 4, 5]);
    assert_eq!(out, vec![1u8, 2, 3, 4, 5]);
    append_bytes(&mut out, &[]);
    assert_eq!(out, vec![1u8, 2, 3, 4, 5]);
}

#[test]
fn different_degrees_give_different_files() {
    assert_ne!(general_params_file(10), general_params_file(11));
    assert_ne!(verifying_key_file("toy", 1), verifying_key_file("toy", 10));
    assert_ne!(verifying_key_file("toy", 10), proving_key_file("toy", 10));
}
