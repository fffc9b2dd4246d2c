//! Key derivation shared by X3DH and the double ratchet.
pub mod ratchet;
pub mod x3dh;

use vstd::prelude::*;

use sha2::{Digest, Sha256};

verus! {

pub const KEY_LENGTH: usize = 32;

pub const RATCHET_KEY_LENGTH: usize = 32;

pub const CHAIN_KEY_LENGTH: usize = 32;

pub const MAC_LENGTH: usize = 16;

/// SHA-256 of a byte string, as `sha2::Sha256` computes it.
pub uninterp spec fn sha256(data: Seq<u8>) -> Seq<u8>;

/// Hashes `first` and then `second` with one `sha2::Sha256` hasher (two `update`
/// calls, then `finalize`). By the `Digest` contract this is the hash of the two
/// parts one after the other; the contract names it so.
#[verifier::external_body]
fn sha256_of_parts(first: &[u8], second: &[u8]) -> (r: [u8; 32])
    ensures
        r@ == sha256(first@ + second@),
{
    let mut hasher = Sha256::new();
    hasher.update(first);
    hasher.update(second);
    let digest = hasher.finalize();
    let mut out = [0u8; 32];
    out.copy_from_slice(&digest);
    out
}

/// HKDF-SHA-256 output keying material of `length` bytes for `salt` and `ikm`,
/// with empty `info`, as the `hkdf` crate computes it.
pub uninterp spec fn hkdf_sha256(length: nat, salt: Seq<u8>, ikm: Seq<u8>) -> Seq<u8>;

/// Runs `hkdf::Hkdf::<Sha256>::extract` and then `expand` with empty `info` into a
/// buffer of `length` bytes. The crate refuses lengths above 255 hash blocks
/// (8160 bytes), which `requires` leaves out; below that it fills the whole buffer.
#[verifier::external_body]
fn hkdf_sha256_expand(length: usize, salt: &[u8], ikm: &[u8]) -> (r: Vec<u8>)
    requires
        length <= 8160,
    ensures
        r@ == hkdf_sha256(length as nat, salt@, ikm@),
        r@.len() == length,
{
    let (_, hk) = hkdf::Hkdf::<Sha256>::extract(Some(salt), ikm);
    let mut okm = vec![0u8; length];
    hk.expand(&[], &mut okm).expect("hkdf expand");
    okm
}

/// Thirty-two zero bytes: the salt of every derivation here.
pub open spec fn zero_salt() -> Seq<u8> {
    Seq::new(32, |i: int| 0u8)
}

/// HKDF-SHA-256 with empty `info`.
pub fn hkdf(length: usize, salt: &[u8], ikm: &[u8]) -> (r: Vec<u8>)
    requires
        length <= 255 * 32,
    ensures
        r@ == hkdf_sha256(length as nat, salt@, ikm@),
        r@.len() == length,
{
    hkdf_sha256_expand(length, salt, ikm)
}

/// Copies 32 bytes of `bytes`, starting at `start`, into an array.
pub(crate) fn array32_at(bytes: &[u8], start: usize) -> (r: [u8; 32])
    requires
        start + 32 <= bytes@.len(),
    ensures
        r@ == bytes@.subrange(start as int, start + 32),
{
    let n = bytes.len();
    let mut out = [0u8; 32];
    let mut i: usize = 0;
    while i < 32
        invariant
            i <= 32,
            n == bytes@.len(),
            start + 32 <= n,
            forall|j: int| 0 <= j < i ==> out@[j] == bytes@[start + j],
        decreases 32 - i,
    {
        out[i] = bytes[start + i];
        i = i + 1;
    }
    assert(out@ =~= bytes@.subrange(start as int, start + 32));
    out
}

/// The thirty-two zero bytes, as an array.
pub(crate) fn zero_key() -> (r: [u8; 32])
    ensures
        r@ == zero_salt(),
{
    let r = [0u8; 32];
    assert(r@ =~= zero_salt());
    r
}

/// A secret shared by two parties; the root key of a ratchet.
#[derive(Debug, Clone)]
pub struct SharedSecret([u8; KEY_LENGTH]);

impl View for SharedSecret {
    type V = Seq<u8>;

    closed spec fn view(&self) -> Seq<u8> {
        self.0@
    }
}

impl SharedSecret {
    pub fn new(data: [u8; KEY_LENGTH]) -> (r: Self)
        ensures
            r@ == data@,
    {
        SharedSecret(data)
    }

    pub fn as_bytes(&self) -> (r: &[u8])
        ensures
            r@ == self@,
            r@.len() == KEY_LENGTH,
    {
        self.0.as_slice()
    }
}

/// A symmetric-ratchet chain key.
#[derive(Debug, Clone)]
pub struct ChainKey(pub [u8; CHAIN_KEY_LENGTH]);

impl ChainKey {
    pub fn new(data: [u8; CHAIN_KEY_LENGTH]) -> (r: Self)
        ensures
            r.0 == data,
    {
        ChainKey(data)
    }

    pub fn as_bytes(&self) -> (r: &[u8])
        ensures
            r@ == self.0@,
            r@.len() == CHAIN_KEY_LENGTH,
    {
        self.0.as_slice()
    }
}

/// The root-key step: HKDF over the root key followed by the DH output gives 64
/// bytes, the new root key and then a new chain key.
pub open spec fn kdf_rk_spec(rk: Seq<u8>, dh_output: Seq<u8>) -> (Seq<u8>, Seq<u8>) {
    let raw = hkdf_sha256(64, zero_salt(), rk + dh_output);
    (raw.subrange(0, 32), raw.subrange(32, 64))
}

/// The chain-key step: `(next chain key, message key)`, the hashes of the chain key
/// followed by the byte 2 and by the byte 1.
pub open spec fn kdf_ck_spec(ck: Seq<u8>) -> (Seq<u8>, Seq<u8>) {
    (sha256(ck + seq![2u8]), sha256(ck + seq![1u8]))
}

/// The chain step hashes the chain key followed by one byte: followed by 0x01 it
/// gives the message key, followed by 0x02 the next chain key.
pub proof fn lemma_chain_step(ck: Seq<u8>)
    ensures
        kdf_ck_spec(ck).1 == sha256(ck + seq![1u8]),
        kdf_ck_spec(ck).0 == sha256(ck + seq![2u8]),
{
}

pub fn kdf_rk(rk: &SharedSecret, dh_output: &[u8]) -> (r: (SharedSecret, ChainKey))
    ensures
        r.0@ == kdf_rk_spec(rk@, dh_output@).0,
        r.1.0@ == kdf_rk_spec(rk@, dh_output@).1,
        r.0@.len() == 32,
        r.1.0@.len() == 32,
        r.0@ + r.1.0@ == hkdf_sha256(64, zero_salt(), rk@ + dh_output@),
{
    let mut input: Vec<u8> = Vec::new();
    input.extend_from_slice(rk.as_bytes());
    input.extend_from_slice(dh_output);
    assert(input@ =~= rk@ + dh_output@);
    let salt = zero_key();
    let raw = hkdf(KEY_LENGTH * 2, salt.as_slice(), input.as_slice());
    let rk_arr = array32_at(raw.as_slice(), 0);
    let ck_arr = array32_at(raw.as_slice(), KEY_LENGTH);
    assert(raw@ == hkdf_sha256(64, zero_salt(), rk@ + dh_output@));
    assert(rk_arr@ + ck_arr@ =~= raw@);
    (SharedSecret::new(rk_arr), ChainKey::new(ck_arr))
}

pub fn kdf_ck(ck: &ChainKey) -> (r: (ChainKey, [u8; KEY_LENGTH]))
    ensures
        r.0.0@ == kdf_ck_spec(ck.0@).0,
        r.1@ == kdf_ck_spec(ck.0@).1,
        r.1@ == sha256(ck.0@ + seq![1u8]),
        r.0.0@ == sha256(ck.0@ + seq![2u8]),
{
    let one: [u8; 1] = [0x01];
    let two: [u8; 1] = [0x02];
    assert(one@ =~= seq![1u8]);
    assert(two@ =~= seq![2u8]);
    let mk = sha256_of_parts(ck.as_bytes(), one.as_slice());
    let ck_next = sha256_of_parts(ck.as_bytes(), two.as_slice());
    (ChainKey::new(ck_next), mk)
}

} // verus!
