[package]
name = "exploit_prover"
version = "0.1.0"
edition = "2021"
publish = false

[dependencies]
rand_chacha = "=0.3.1"
halo2_proofs = "*"
snark-verifier = "*"
tokio = { version = "1", features = ["macros", "rt-multi-thread"] }
