//! The X3DH key agreement over X25519.
use vstd::prelude::*;

use rand::rngs::OsRng;
use x25519_dalek::{PublicKey, StaticSecret};

use super::{array32_at, hkdf, hkdf_sha256, zero_key, zero_salt, SharedSecret, KEY_LENGTH};

verus! {

/// The X25519 public key of a secret key, as `x25519_dalek::PublicKey::from(&StaticSecret)`
/// computes it.
pub uninterp spec fn x25519_public(secret: Seq<u8>) -> Seq<u8>;

/// The X25519 shared secret of a secret key and a public key, as
/// `x25519_dalek::StaticSecret::diffie_hellman` computes it.
pub uninterp spec fn x25519_shared(secret: Seq<u8>, public: Seq<u8>) -> Seq<u8>;

/// Derives the public key of a secret with `x25519_dalek::PublicKey::from(&StaticSecret)`.
/// The result is named by `x25519_public`.
#[verifier::external_body]
pub(crate) fn x25519_public_key(secret: &[u8; 32]) -> (r: [u8; 32])
    ensures
        r@ == x25519_public(secret@),
{
    PublicKey::from(&StaticSecret::from(*secret)).to_bytes()
}

/// Computes `x25519_dalek::StaticSecret::diffie_hellman`. The result is named by
/// `x25519_shared`. The contract also states the agreement property that X25519 exists
/// for: where `public` is the public key of some secret `other`, the owner of `other`
/// computes the same value from this side's public key (both sides compute the
/// clamped product of the two scalars with the base point).
#[verifier::external_body]
pub(crate) fn x25519_diffie_hellman(secret: &[u8; 32], public: &[u8; 32]) -> (r: [u8; 32])
    ensures
        r@ == x25519_shared(secret@, public@),
        forall|other: Seq<u8>|
            other.len() == 32 && public@ == x25519_public(other) ==> #[trigger] x25519_shared(
                other,
                x25519_public(secret@),
            ) == r@,
{
    StaticSecret::from(*secret).diffie_hellman(&PublicKey::from(*public)).to_bytes()
}

/// Draws a secret key with `x25519_dalek::StaticSecret::random_from_rng` over the
/// operating system's generator. Nothing is claimed of the key.
#[verifier::external_body]
pub(crate) fn x25519_random_secret() -> (r: [u8; 32]) {
    StaticSecret::random_from_rng(&mut OsRng).to_bytes()
}

/// The result of an X3DH run: the shared secret and the associated data
/// (the responder's identity key followed by the initiator's ephemeral key).
pub struct X3dhResult {
    pub shared_secret: SharedSecret,
    pub associated_data: Vec<u8>,
}

/// The bytes of an optional key.
pub open spec fn opt_key(k: Option<&[u8; 32]>) -> Option<Seq<u8>> {
    match k {
        Some(a) => Some(a@),
        None => None,
    }
}

/// The HKDF input: DH1, DH2, DH3 and, when there is one, DH4.
pub open spec fn x3dh_dh_input(dh1: Seq<u8>, dh2: Seq<u8>, dh3: Seq<u8>, dh4: Option<Seq<u8>>) -> Seq<u8> {
    dh1 + dh2 + dh3 + match dh4 {
        Some(d) => d,
        None => Seq::empty(),
    }
}

/// The secret the initiator derives.
pub open spec fn x3dh_initiator_secret(
    identity_sk: Seq<u8>,
    ephemeral_sk: Seq<u8>,
    bob_identity_pk: Seq<u8>,
    bob_signed_pre_key_pk: Seq<u8>,
    bob_one_time_pre_key_pk: Option<Seq<u8>>,
) -> Seq<u8> {
    hkdf_sha256(
        32,
        zero_salt(),
        x3dh_dh_input(
            x25519_shared(identity_sk, bob_signed_pre_key_pk),
            x25519_shared(ephemeral_sk, bob_identity_pk),
            x25519_shared(ephemeral_sk, bob_signed_pre_key_pk),
            match bob_one_time_pre_key_pk {
                Some(k) => Some(x25519_shared(ephemeral_sk, k)),
                None => None,
            },
        ),
    )
}

/// The secret the responder derives.
pub open spec fn x3dh_responder_secret(
    alice_identity_pk: Seq<u8>,
    alice_ephemeral_pk: Seq<u8>,
    identity_sk: Seq<u8>,
    signed_pre_key_sk: Seq<u8>,
    one_time_key_sk: Option<Seq<u8>>,
) -> Seq<u8> {
    hkdf_sha256(
        32,
        zero_salt(),
        x3dh_dh_input(
            x25519_shared(signed_pre_key_sk, alice_identity_pk),
            x25519_shared(identity_sk, alice_ephemeral_pk),
            x25519_shared(signed_pre_key_sk, alice_ephemeral_pk),
            match one_time_key_sk {
                Some(k) => Some(x25519_shared(k, alice_ephemeral_pk)),
                None => None,
            },
        ),
    )
}

/// The HKDF input lays the DH outputs end to end: with 32-byte outputs, bytes 0..32
/// are DH1, 32..64 DH2, 64..96 DH3 and, with a one-time key, 96..128 DH4; the input
/// is 96 bytes long, or 128 with a one-time key.
pub proof fn lemma_x3dh_input_layout(dh1: Seq<u8>, dh2: Seq<u8>, dh3: Seq<u8>, dh4: Option<Seq<u8>>)
    requires
        dh1.len() == 32,
        dh2.len() == 32,
        dh3.len() == 32,
        dh4 matches Some(d) ==> d.len() == 32,
    ensures
        x3dh_dh_input(dh1, dh2, dh3, dh4).len() == (if dh4 is Some { 128int } else { 96int }),
        x3dh_dh_input(dh1, dh2, dh3, dh4).subrange(0, 32) == dh1,
        x3dh_dh_input(dh1, dh2, dh3, dh4).subrange(32, 64) == dh2,
        x3dh_dh_input(dh1, dh2, dh3, dh4).subrange(64, 96) == dh3,
        dh4 matches Some(d) ==> x3dh_dh_input(dh1, dh2, dh3, dh4).subrange(96, 128) == d,
{
    let input = x3dh_dh_input(dh1, dh2, dh3, dh4);
    assert(input.subrange(0, 32) =~= dh1);
    assert(input.subrange(32, 64) =~= dh2);
    assert(input.subrange(64, 96) =~= dh3);
    if let Some(d) = dh4 {
        assert(input.subrange(96, 128) =~= d);
    }
}

/// The initiator's secret is HKDF-SHA-256 under the zero salt of DH(IK_A, SPK_B),
/// DH(EK_A, IK_B), DH(EK_A, SPK_B) and, with a one-time key, DH(EK_A, OPK_B), in that
/// order; the responder's is the same with its own secret halves.
pub proof fn lemma_x3dh_secrets(
    identity_sk: Seq<u8>,
    ephemeral_sk: Seq<u8>,
    bob_identity_pk: Seq<u8>,
    bob_signed_pre_key_pk: Seq<u8>,
    bob_one_time_pre_key_pk: Option<Seq<u8>>,
    alice_identity_pk: Seq<u8>,
    alice_ephemeral_pk: Seq<u8>,
    bob_identity_sk: Seq<u8>,
    bob_signed_pre_key_sk: Seq<u8>,
    bob_one_time_key_sk: Option<Seq<u8>>,
)
    ensures
        x3dh_initiator_secret(identity_sk, ephemeral_sk, bob_identity_pk, bob_signed_pre_key_pk, bob_one_time_pre_key_pk)
            == hkdf_sha256(
            32,
            zero_salt(),
            x25519_shared(identity_sk, bob_signed_pre_key_pk) + x25519_shared(ephemeral_sk, bob_identity_pk)
                + x25519_shared(ephemeral_sk, bob_signed_pre_key_pk) + match bob_one_time_pre_key_pk {
                Some(k) => x25519_shared(ephemeral_sk, k),
                None => Seq::<u8>::empty(),
            },
        ),
        x3dh_responder_secret(alice_identity_pk, alice_ephemeral_pk, bob_identity_sk, bob_signed_pre_key_sk, bob_one_time_key_sk)
            == hkdf_sha256(
            32,
            zero_salt(),
            x25519_shared(bob_signed_pre_key_sk, alice_identity_pk) + x25519_shared(bob_identity_sk, alice_ephemeral_pk)
                + x25519_shared(bob_signed_pre_key_sk, alice_ephemeral_pk) + match bob_one_time_key_sk {
                Some(k) => x25519_shared(k, alice_ephemeral_pk),
                None => Seq::<u8>::empty(),
            },
        ),
{
}

/// Whether an optional public key is the public key of an optional secret key:
/// both absent, or both present and matching.
pub open spec fn key_pair_matches(pk: Option<Seq<u8>>, sk: Option<Seq<u8>>) -> bool {
    match (pk, sk) {
        (None, None) => true,
        (Some(p), Some(s)) => s.len() == 32 && p == x25519_public(s),
        _ => false,
    }
}

/// Appends DH1 to DH4 into one buffer.
fn concat_dh(dh1: &[u8; 32], dh2: &[u8; 32], dh3: &[u8; 32], dh4: Option<[u8; 32]>) -> (r: Vec<u8>)
    ensures
        r@ == x3dh_dh_input(
            dh1@,
            dh2@,
            dh3@,
            match dh4 {
                Some(d) => Some(d@),
                None => None,
            },
        ),
{
    let mut dh_input: Vec<u8> = Vec::new();
    dh_input.extend_from_slice(dh1.as_slice());
    dh_input.extend_from_slice(dh2.as_slice());
    dh_input.extend_from_slice(dh3.as_slice());
    match dh4 {
        Some(d) => {
            dh_input.extend_from_slice(d.as_slice());
        },
        None => {},
    }
    assert(dh_input@ =~= x3dh_dh_input(
        dh1@,
        dh2@,
        dh3@,
        match dh4 {
            Some(d) => Some(d@),
            None => None,
        },
    ));
    dh_input
}

/// Derives the 32-byte shared secret from the DH outputs.
fn derive_secret(dh_input: &Vec<u8>) -> (r: SharedSecret)
    ensures
        r@ == hkdf_sha256(32, zero_salt(), dh_input@),
{
    let salt = zero_key();
    let raw = hkdf(KEY_LENGTH, salt.as_slice(), dh_input.as_slice());
    let sk = array32_at(raw.as_slice(), 0);
    assert(raw@.subrange(0, 32) =~= raw@);
    SharedSecret::new(sk)
}

/// Two keys one after the other.
fn concat_keys(first: &[u8; 32], second: &[u8; 32]) -> (r: Vec<u8>)
    ensures
        r@ == first@ + second@,
{
    let mut ad: Vec<u8> = Vec::new();
    ad.extend_from_slice(first.as_slice());
    ad.extend_from_slice(second.as_slice());
    ad
}

/// X3DH initiation (Alice). All identity and pre-keys are X25519 key pairs; the
/// ephemeral key serves DH2, DH3 and the optional DH4.
///
/// Whenever Bob's public keys belong to secrets that Bob holds, Bob's
/// [`x3dh_receive`] on Alice's public keys yields the same secret and the same
/// associated data.
pub fn x3dh_initiate(
    identity_sk: &[u8; 32],
    ephemeral_sk: &[u8; 32],
    bob_identity_pk: &[u8; 32],
    bob_signed_pre_key_pk: &[u8; 32],
    bob_one_time_pre_key_pk: Option<&[u8; 32]>,
) -> (r: X3dhResult)
    ensures
        r.shared_secret@ == x3dh_initiator_secret(
            identity_sk@,
            ephemeral_sk@,
            bob_identity_pk@,
            bob_signed_pre_key_pk@,
            opt_key(bob_one_time_pre_key_pk),
        ),
        r.associated_data@ == bob_identity_pk@ + x25519_public(ephemeral_sk@),
        r.shared_secret@ == hkdf_sha256(
            32,
            zero_salt(),
            x25519_shared(identity_sk@, bob_signed_pre_key_pk@) + x25519_shared(ephemeral_sk@, bob_identity_pk@)
                + x25519_shared(ephemeral_sk@, bob_signed_pre_key_pk@) + match bob_one_time_pre_key_pk {
                Some(k) => x25519_shared(ephemeral_sk@, k@),
                None => Seq::<u8>::empty(),
            },
        ),
        r.associated_data@.len() == 64,
        forall|b_ik: Seq<u8>, b_spk: Seq<u8>, b_opk: Option<Seq<u8>>|
            b_ik.len() == 32 && b_spk.len() == 32 && bob_identity_pk@ == x25519_public(b_ik)
                && bob_signed_pre_key_pk@ == x25519_public(b_spk) && key_pair_matches(
                opt_key(bob_one_time_pre_key_pk),
                b_opk,
            ) ==> {
                &&& #[trigger] x3dh_responder_secret(
                    x25519_public(identity_sk@),
                    x25519_public(ephemeral_sk@),
                    b_ik,
                    b_spk,
                    b_opk,
                ) == r.shared_secret@
                &&& x25519_public(b_ik) + x25519_public(ephemeral_sk@) == r.associated_data@
            },
{
    let ephemeral_pk = x25519_public_key(ephemeral_sk);
    let dh1 = x25519_diffie_hellman(identity_sk, bob_signed_pre_key_pk);
    let dh2 = x25519_diffie_hellman(ephemeral_sk, bob_identity_pk);
    let dh3 = x25519_diffie_hellman(ephemeral_sk, bob_signed_pre_key_pk);
    let dh4 = match bob_one_time_pre_key_pk {
        Some(opk) => Some(x25519_diffie_hellman(ephemeral_sk, opk)),
        None => None,
    };
    let dh_input = concat_dh(&dh1, &dh2, &dh3, dh4);
    let shared_secret = derive_secret(&dh_input);
    let ad = concat_keys(bob_identity_pk, &ephemeral_pk);
    proof {
        assert forall|b_ik: Seq<u8>, b_spk: Seq<u8>, b_opk: Option<Seq<u8>>|
            b_ik.len() == 32 && b_spk.len() == 32 && bob_identity_pk@ == x25519_public(b_ik)
                && bob_signed_pre_key_pk@ == x25519_public(b_spk) && key_pair_matches(
                opt_key(bob_one_time_pre_key_pk),
                b_opk,
            ) implies #[trigger] x3dh_responder_secret(
            x25519_public(identity_sk@),
            x25519_public(ephemeral_sk@),
            b_ik,
            b_spk,
            b_opk,
        ) == shared_secret@ by {
            assert(x25519_shared(b_spk, x25519_public(identity_sk@)) == dh1@);
            assert(x25519_shared(b_ik, x25519_public(ephemeral_sk@)) == dh2@);
            assert(x25519_shared(b_spk, x25519_public(ephemeral_sk@)) == dh3@);
            match b_opk {
                Some(o) => {
                    assert(x25519_shared(o, x25519_public(ephemeral_sk@)) == dh4.unwrap()@);
                },
                None => {},
            }
        }
    }
    X3dhResult { shared_secret, associated_data: ad }
}

/// X3DH reception (Bob).
pub fn x3dh_receive(
    alice_identity_pk: &[u8; 32],
    alice_ephemeral_pk: &[u8; 32],
    identity_sk: &[u8; 32],
    signed_pre_key_sk: &[u8; 32],
    consumed_one_time_key_sk: Option<&[u8; 32]>,
) -> (r: X3dhResult)
    ensures
        r.shared_secret@ == x3dh_responder_secret(
            alice_identity_pk@,
            alice_ephemeral_pk@,
            identity_sk@,
            signed_pre_key_sk@,
            opt_key(consumed_one_time_key_sk),
        ),
        r.associated_data@ == x25519_public(identity_sk@) + alice_ephemeral_pk@,
        r.shared_secret@ == hkdf_sha256(
            32,
            zero_salt(),
            x25519_shared(signed_pre_key_sk@, alice_identity_pk@) + x25519_shared(identity_sk@, alice_ephemeral_pk@)
                + x25519_shared(signed_pre_key_sk@, alice_ephemeral_pk@) + match consumed_one_time_key_sk {
                Some(k) => x25519_shared(k@, alice_ephemeral_pk@),
                None => Seq::<u8>::empty(),
            },
        ),
        r.associated_data@.len() == 64,
{
    let dh1 = x25519_diffie_hellman(signed_pre_key_sk, alice_identity_pk);
    let dh2 = x25519_diffie_hellman(identity_sk, alice_ephemeral_pk);
    let dh3 = x25519_diffie_hellman(signed_pre_key_sk, alice_ephemeral_pk);
    let dh4 = match consumed_one_time_key_sk {
        Some(opk) => Some(x25519_diffie_hellman(opk, alice_ephemeral_pk)),
        None => None,
    };
    let dh_input = concat_dh(&dh1, &dh2, &dh3, dh4);
    let shared_secret = derive_secret(&dh_input);
    let identity_pk = x25519_public_key(identity_sk);
    let ad = concat_keys(&identity_pk, alice_ephemeral_pk);
    X3dhResult { shared_secret, associated_data: ad }
}

} // verus!
