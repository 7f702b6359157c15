use rustweaved::pow::{KHeavyHash, PowHash};
use sha3::digest::{ExtendableOutput, Update, XofReader};
use sha3::{CShake256, CShake256Core};

const HEAVY_HASH_DOMAIN: &[u8] = b"HeavyHash";

#[test]
fn test_pow_hash() {
    let timestamp: u64 = 5435345234;
    let nonce: u64 = 432432432;
    let pre_pow_hash = rustweaved::pow::Hash([42; 32]);
    let hasher = PowHash::new(pre_pow_hash, timestamp);
    let hash1 = hasher.finalize_with_nonce(nonce);

    let mut hasher = blake3::Hasher::new();
    hasher.update(&pre_pow_hash.as_bytes());
    hasher.update(&timestamp.to_le_bytes());
    hasher.update(&[0u8; 32]);
    hasher.update(&nonce.to_le_bytes());

    let hash2 = rustweaved::pow::Hash(*hasher.finalize().as_bytes());
    assert_eq!(hash2, hash1);
}

#[test]
fn test_heavy_hash() {
    let val = rustweaved::pow::Hash([42; 32]);
    let hash1 = KHeavyHash::hash(val);

    let hasher = CShake256::from_core(CShake256Core::new(HEAVY_HASH_DOMAIN)).chain(val.0);
    let mut hash2 = [0u8; 32];
    hasher.finalize_xof().read(&mut hash2);
    assert_eq!(rustweaved::pow::Hash(hash2), hash1);
}

#[test]
fn pow_hash_differs_per_nonce() {
    let pre_pow_hash = rustweaved::pow::Hash([7; 32]);
    let hasher = PowHash::new(pre_pow_hash, 123456);
    let a = hasher.clone().finalize_with_nonce(1);
    let b = hasher.finalize_with_nonce(2);
    assert_ne!(a, b);
}

#[test]
fn hash_round_trips_le_words() {
    let words: [u64; 4] = [1, 2, 3, u64::MAX];
    let h = rustweaved::pow::Hash::from_le_u64(words);
    for (k, expected) in words.iter().enumerate() {
        assert_eq!(h.word_le(k), *expected);
    }
    let mut bytes = [0u8; 32];
    for (k, w) in words.iter().enumerate() {
        bytes[8 * k..8 * k + 8].copy_from_slice(&w.to_le_bytes());
    }
    assert_eq!(h, rustweaved::pow::Hash(bytes));
}
