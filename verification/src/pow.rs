//! Proof-of-work hashing primitives.
//!
//! Two constructions: a blake3-based hasher that absorbs a block header's
//! pre-proof-of-work hash, its timestamp and zero padding once, and is then
//! finalized per nonce; and the heavy hash, a single application of the
//! Keccak-f[1600] permutation to a sponge state seeded with fixed
//! initialization words and the input hash.
//!
//! The two permutations themselves come from outside crates; this module
//! names their results and verifies the byte layout fed to them and read
//! back from them.

use vstd::prelude::*;
use vstd::bytes::{spec_u64_from_le_bytes, spec_u64_to_le_bytes, u64_from_le_bytes, u64_to_le_bytes};
use vstd::slice::slice_subrange;

verus! {

/// A 32-byte hash value.
#[derive(Clone, Copy, Debug)]
pub struct Hash(pub [u8; 32]);

impl View for Hash {
    type V = Seq<u8>;

    open spec fn view(&self) -> Seq<u8> {
        self.0@
    }
}

impl PartialEq for Hash {
    fn eq(&self, other: &Hash) -> (r: bool) {
        let mut i: usize = 0;
        while i < 32
            invariant
                0 <= i <= 32,
                forall|k: int| 0 <= k < i ==> self.0@[k] == other.0@[k],
            decreases 32 - i,
        {
            if self.0[i] != other.0[i] {
                return false;
            }
            i += 1;
        }
        proof {
            assert(self.0@ =~= other.0@);
        }
        true
    }
}

impl Eq for Hash {

}

impl vstd::std_specs::cmp::PartialEqSpecImpl for Hash {
    open spec fn obeys_eq_spec() -> bool {
        true
    }

    open spec fn eq_spec(&self, other: &Hash) -> bool {
        self.0@ == other.0@
    }
}

/// The bytes of four words, each little-endian, concatenated.
pub open spec fn spec_le_bytes_of_words(words: Seq<u64>) -> Seq<u8>
    recommends
        words.len() == 4,
{
    spec_u64_to_le_bytes(words[0]) + spec_u64_to_le_bytes(words[1]) + spec_u64_to_le_bytes(
        words[2],
    ) + spec_u64_to_le_bytes(words[3])
}

/// Word `k` of a 32-byte value, read little-endian.
pub open spec fn spec_word_le(bytes: Seq<u8>, k: int) -> u64
    recommends
        bytes.len() == 32,
        0 <= k < 4,
{
    spec_u64_from_le_bytes(bytes.subrange(8 * k, 8 * k + 8))
}

impl Hash {
    /// The underlying bytes.
    pub fn as_bytes(&self) -> (r: [u8; 32])
        ensures
            r@ == self@,
    {
        self.0
    }

    /// Word `k` of the hash, read little-endian.
    pub fn word_le(&self, k: usize) -> (r: u64)
        requires
            k < 4,
        ensures
            r == spec_word_le(self@, k as int),
    {
        let w = slice_subrange(self.0.as_slice(), 8 * k, 8 * k + 8);
        u64_from_le_bytes(w)
    }

    /// The hash whose bytes are the four words laid out little-endian.
    pub fn from_le_u64(words: [u64; 4]) -> (r: Hash)
        ensures
            r@ == spec_le_bytes_of_words(words@),
    {
        let mut bytes = u64_to_le_bytes(words[0]);
        let mut b1 = u64_to_le_bytes(words[1]);
        bytes.append(&mut b1);
        let mut b2 = u64_to_le_bytes(words[2]);
        bytes.append(&mut b2);
        let mut b3 = u64_to_le_bytes(words[3]);
        bytes.append(&mut b3);
        proof {
            assert(bytes@ =~= spec_le_bytes_of_words(words@));
        }
        let mut out: [u8; 32] = [0; 32];
        let mut i: usize = 0;
        while i < 32
            invariant
                0 <= i <= 32,
                bytes@ == spec_le_bytes_of_words(words@),
                bytes@.len() == 32,
                forall|k: int| 0 <= k < i ==> out@[k] == bytes@[k],
            decreases 32 - i,
        {
            out[i] = bytes[i];
            i += 1;
        }
        proof {
            assert(out@ =~= spec_le_bytes_of_words(words@));
        }
        Hash(out)
    }
}

/// The blake3 digest of a byte string.
pub uninterp spec fn blake3_digest(input: Seq<u8>) -> Seq<u8>;

/// Relies on blake3::hash: the 32-byte digest of the input, a function of
/// the input bytes alone.
#[verifier::external_body]
fn blake3_hash32(input: &[u8]) -> (r: [u8; 32])
    ensures
        r@ == blake3_digest(input@),
{
    *blake3::hash(input).as_bytes()
}

/// The Keccak-f[1600] permutation of a 25-word state.
pub uninterp spec fn keccak_f1600(state: Seq<u64>) -> Seq<u64>;

/// Relies on keccak::f1600: permutes the 25-word state in place; the
/// result is a function of the state alone and is again 25 words.
#[verifier::external_body]
fn apply_f1600(state: &mut Vec<u64>)
    requires
        old(state)@.len() == 25,
    ensures
        final(state)@ == keccak_f1600(old(state)@),
        final(state)@.len() == 25,
{
    keccak::f1600(state.as_mut_slice().try_into().unwrap());
}

/// The header prefix a proof-of-work hasher absorbs before any nonce: the
/// pre-proof-of-work hash, the timestamp little-endian, and 32 zero bytes
/// of padding.
pub open spec fn spec_pow_header(pre_pow_hash: Seq<u8>, timestamp: u64) -> Seq<u8> {
    pre_pow_hash + spec_u64_to_le_bytes(timestamp) + Seq::new(32, |i: int| 0u8)
}

/// A proof-of-work hasher: absorbs the header prefix once, then produces
/// one blake3 digest per nonce. Its view is the absorbed prefix.
#[derive(Clone)]
pub struct PowHash {
    header: Vec<u8>,
}

impl View for PowHash {
    type V = Seq<u8>;

    closed spec fn view(&self) -> Seq<u8> {
        self.header@
    }
}

impl PowHash {
    /// A hasher that has absorbed the header prefix for this
    /// pre-proof-of-work hash and timestamp.
    pub fn new(pre_pow_hash: Hash, timestamp: u64) -> (r: PowHash)
        ensures
            r@ == spec_pow_header(pre_pow_hash@, timestamp),
    {
        let mut header: Vec<u8> = Vec::new();
        let mut i: usize = 0;
        while i < 32
            invariant
                0 <= i <= 32,
                header@ == pre_pow_hash@.subrange(0, i as int),
            decreases 32 - i,
        {
            header.push(pre_pow_hash.0[i]);
            i += 1;
            proof {
                assert(header@ =~= pre_pow_hash@.subrange(0, i as int));
            }
        }
        proof {
            assert(pre_pow_hash@.subrange(0, 32) =~= pre_pow_hash@);
        }
        let mut ts = u64_to_le_bytes(timestamp);
        header.append(&mut ts);
        let ghost mid = header@;
        let mut z: usize = 0;
        while z < 32
            invariant
                0 <= z <= 32,
                header@ == mid + Seq::new(z as nat, |i: int| 0u8),
            decreases 32 - z,
        {
            header.push(0);
            z += 1;
            proof {
                assert(header@ =~= mid + Seq::new(z as nat, |i: int| 0u8));
            }
        }
        proof {
            assert(header@ =~= spec_pow_header(pre_pow_hash@, timestamp));
        }
        PowHash { header }
    }

    /// The blake3 digest of the absorbed prefix followed by the nonce
    /// little-endian. Consumes the hasher; clone it to try several nonces.
    pub fn finalize_with_nonce(self, nonce: u64) -> (r: Hash)
        ensures
            r@ == blake3_digest(self@ + spec_u64_to_le_bytes(nonce)),
    {
        let PowHash { header: mut buffer } = self;
        let mut nb = u64_to_le_bytes(nonce);
        buffer.append(&mut nb);
        let digest = blake3_hash32(buffer.as_slice());
        Hash(digest)
    }
}

/// The sponge state the heavy hash absorbs its input into: 25 fixed
/// initialization words, the first four combined with the input words by
/// xor.
pub open spec fn spec_heavy_state(h: Seq<u8>) -> Seq<u64> {
    seq![
        4239941492252378377u64 ^ spec_word_le(h, 0),
        8746723911537738262u64 ^ spec_word_le(h, 1),
        8796936657246353646u64 ^ spec_word_le(h, 2),
        1272090201925444760u64 ^ spec_word_le(h, 3),
        16654558671554924250u64,
        8270816933120786537u64,
        13907396207649043898u64,
        6782861118970774626u64,
        9239690602118867528u64,
        11582319943599406348u64,
        17596056728278508070u64,
        15212962468105129023u64,
        7812475424661425213u64,
        3370482334374859748u64,
        5690099369266491460u64,
        8596393687355028144u64,
        570094237299545110u64,
        9119540418498120711u64,
        16901969272480492857u64,
        13372017233735502424u64,
        14372891883993151831u64,
        5171152063242093102u64,
        10573107899694386186u64,
        6096431547456407061u64,
        1592359455985097269u64,
    ]
}

/// The heavy hash: the first four words of the permuted sponge state, laid
/// out little-endian.
pub open spec fn spec_heavy_hash(h: Seq<u8>) -> Seq<u8> {
    let out = keccak_f1600(spec_heavy_state(h));
    spec_le_bytes_of_words(out.subrange(0, 4))
}

/// The heavy hash construction.
#[derive(Clone)]
pub struct KHeavyHash;

impl KHeavyHash {
    /// Absorbs the input hash into the fixed sponge state, applies one
    /// Keccak-f[1600] permutation, and reads the first four state words
    /// back as the output hash.
    pub fn hash(in_hash: Hash) -> (r: Hash)
        ensures
            r@ == spec_heavy_hash(in_hash@),
    {
        let w0 = in_hash.word_le(0);
        let w1 = in_hash.word_le(1);
        let w2 = in_hash.word_le(2);
        let w3 = in_hash.word_le(3);
        let mut state: Vec<u64> = Vec::new();
        state.push(4239941492252378377u64 ^ w0);
        state.push(8746723911537738262u64 ^ w1);
        state.push(8796936657246353646u64 ^ w2);
        state.push(1272090201925444760u64 ^ w3);
        state.push(16654558671554924250);
        state.push(8270816933120786537);
        state.push(13907396207649043898);
        state.push(6782861118970774626);
        state.push(9239690602118867528);
        state.push(11582319943599406348);
        state.push(17596056728278508070);
        state.push(15212962468105129023);
        state.push(7812475424661425213);
        state.push(3370482334374859748);
        state.push(5690099369266491460);
        state.push(8596393687355028144);
        state.push(570094237299545110);
        state.push(9119540418498120711);
        state.push(16901969272480492857);
        state.push(13372017233735502424);
        state.push(14372891883993151831);
        state.push(5171152063242093102);
        state.push(10573107899694386186);
        state.push(6096431547456407061);
        state.push(1592359455985097269);
        proof {
            assert(state@ =~= spec_heavy_state(in_hash@));
        }
        apply_f1600(&mut state);
        let r = Hash::from_le_u64([state[0], state[1], state[2], state[3]]);
        proof {
            let out = keccak_f1600(spec_heavy_state(in_hash@));
            assert(seq![out[0], out[1], out[2], out[3]] =~= out.subrange(0, 4));
        }
        r
    }
}

} // verus!
