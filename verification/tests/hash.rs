use bellovin_merritt::error::Error;
use bellovin_merritt::hash::{hash_password, HashConfig, DERIVED_KEY_LENGTH};

fn fast_config() -> HashConfig {
    HashConfig { memory_kib: 8, iterations: 1, parallelism: 1 }
}

#[test]
fn derivation_is_deterministic() {
    let config = fast_config();
    let first = hash_password("correct horse", &config).expect("hashing should succeed");
    let second = hash_password("correct horse", &config).expect("hashing should succeed");
    assert_eq!(first, second);
    assert_eq!(first.len(), DERIVED_KEY_LENGTH);
}

#[test]
fn different_secrets_yield_different_keys() {
    let config = fast_config();
    let first = hash_password("correct horse", &config).expect("hashing should succeed");
    let second = hash_password("wrong horse", &config).expect("hashing should succeed");
    assert_ne!(first, second);
}

#[test]
fn different_work_parameters_yield_different_keys() {
    let once = hash_password("correct horse", &fast_config()).expect("hashing should succeed");
    let twice = hash_password(
        "correct horse",
        &HashConfig { memory_kib: 8, iterations: 2, parallelism: 1 },
    )
    .expect("hashing should succeed");
    assert_ne!(once, twice);
}

#[test]
fn recommended_parameters_derive_a_key() {
    let key = hash_password("correct horse", &HashConfig::recommended())
        .expect("hashing should succeed");
    assert_eq!(key.len(), DERIVED_KEY_LENGTH);
}

#[test]
fn rejected_work_parameters_are_a_hash_fault() {
    let config = HashConfig { memory_kib: 8, iterations: 1, parallelism: 0 };
    assert_eq!(hash_password("correct horse", &config), Err(Error::Hash));
}
