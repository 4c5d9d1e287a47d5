use exploit_prover::prover::RealProver;
use exploit_prover::seed::RNG_SEED;
use rand_chacha::rand_core::SeedableRng;
use rand_chacha::ChaCha20Rng;

#[test]
fn prover_seed_is_the_expanded_fixed_seed() {
    let prover = RealProver::from(String::from("toy"), vec![1], 4, None);
    assert_eq!(RNG_SEED, 2);
    assert_eq!(prover.rng_seed, ChaCha20Rng::seed_from_u64(2).get_seed());
    let mut plain = [0u8; 32];
    plain[0] = 2;
    assert_ne!(prover.rng_seed, plain);
    assert_ne!(prover.rng_seed, [0u8; 32]);
    assert_ne!(prover.rng_seed, ChaCha20Rng::seed_from_u64(3).get_seed());
}

#[test]
fn generator_from_the_seed_is_the_seeded_generator() {
    let prover = RealProver::from(String::from("toy"), vec![1], 4, None);
    assert_eq!(ChaCha20Rng::from_seed(prover.rng_seed), ChaCha20Rng::seed_from_u64(2));
}

#[test]
fn two_provers_share_the_seed() {
    let a = RealProver::from(String::from("a"), vec![1], 4, None);
    let b = RealProver::from(String::from("b"), vec![3], 9, None);
    assert_eq!(a.rng_seed, b.rng_seed);
}

#[test]
fn expanded_seed_of_two() {
    let prover = RealProver::from(String::from("toy"), vec![1], 4, None);
    assert_eq!(
        prover.rng_seed,
        [
            77, 209, 16, 204, 177, 124, 55, 30, 237, 239, 68, 142, 238, 125, 215, 7, 34, 250, 84,
            41, 215, 170, 67, 152, 115, 109, 172, 5, 147, 170, 243, 120
        ]
    );
}
