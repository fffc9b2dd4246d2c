use halo_server::domain::crypto::ratchet::{CipherMessage, RatchetState};
use halo_server::domain::crypto::x3dh::{x3dh_initiate, x3dh_receive};
use halo_server::domain::crypto::{hkdf, kdf_ck, kdf_rk, ChainKey, SharedSecret};
use rand::rngs::OsRng;
use x25519_dalek::{PublicKey, StaticSecret};

fn secret() -> [u8; 32] {
    StaticSecret::random_from_rng(OsRng).to_bytes()
}

fn public(sk: &[u8; 32]) -> [u8; 32] {
    PublicKey::from(&StaticSecret::from(*sk)).to_bytes()
}

fn perform_x3dh() -> (SharedSecret, SharedSecret) {
    let alice_ik = secret();
    let alice_ek = secret();

    let bob_ik = secret();
    let bob_ik_pk = public(&bob_ik);

    let bob_spk = secret();
    let bob_spk_pk = public(&bob_spk);

    let alice_result = x3dh_initiate(&alice_ik, &alice_ek, &bob_ik_pk, &bob_spk_pk, None);

    let alice_ek_pk = public(&alice_ek);

    let bob_result = x3dh_receive(&public(&alice_ik), &alice_ek_pk, &bob_ik, &bob_spk, None);

    (alice_result.shared_secret, bob_result.shared_secret)
}

#[test]
fn test_ratchet_roundtrip() {
    let (alice_sk, bob_sk) = perform_x3dh();

    let mut alice = RatchetState::new(alice_sk, true);
    let mut bob = RatchetState::new(bob_sk, false);

    let msg = b"Hello, Double Ratchet!";
    let ad = b"associated data";

    let cipher = alice.encrypt(msg, ad).unwrap();
    let decrypted = bob.decrypt(&cipher, ad).unwrap();

    assert_eq!(decrypted, msg);
}

#[test]
fn test_multiple_messages() {
    let (alice_sk, bob_sk) = perform_x3dh();

    let mut alice = RatchetState::new(alice_sk, true);
    let mut bob = RatchetState::new(bob_sk, false);

    let ad = b"ad";

    for i in 0..5 {
        let msg = format!("message {i}");
        let cipher = alice.encrypt(msg.as_bytes(), ad).unwrap();
        let decrypted = bob.decrypt(&cipher, ad).unwrap();
        assert_eq!(decrypted, msg.as_bytes(), "roundtrip failed for msg {i}");
    }
}

#[test]
fn test_bidirectional() {
    let (alice_sk, bob_sk) = perform_x3dh();

    let mut alice = RatchetState::new(alice_sk, true);
    let mut bob = RatchetState::new(bob_sk, false);

    // Alice sends first message
    let cipher1 = alice.encrypt(b"hi from alice", b"ad").unwrap();
    let dec1 = bob.decrypt(&cipher1, b"ad").unwrap();
    assert_eq!(dec1, b"hi from alice");

    // Bob replies
    let cipher2 = bob.encrypt(b"hi from bob", b"ad").unwrap();
    let dec2 = alice.decrypt(&cipher2, b"ad").unwrap();
    assert_eq!(dec2, b"hi from bob");

    // Another round
    let cipher3 = alice.encrypt(b"how are you?", b"ad").unwrap();
    let dec3 = bob.decrypt(&cipher3, b"ad").unwrap();
    assert_eq!(dec3, b"how are you?");
}

#[test]
fn ratchet_headers_and_tampering() {
    let (alice_sk, bob_sk) = perform_x3dh();
    let mut alice = RatchetState::new(alice_sk, true);
    let mut bob = RatchetState::new(bob_sk, false);
    let c1 = alice.encrypt(b"one", b"").unwrap();
    assert_eq!(c1.header.dh_public_key.len(), 32);
    assert_eq!(c1.nonce.len(), 12);
    assert_eq!(c1.header.previous_chain_length, 0);
    assert_ne!(c1.ciphertext, b"one".to_vec());
    assert_eq!(c1.ciphertext.len(), 3 + 16);
    let tampered = CipherMessage {
        header: c1.header.clone(),
        nonce: c1.nonce.clone(),
        ciphertext: {
            let mut c = c1.ciphertext.clone();
            c[0] ^= 1;
            c
        },
    };
    assert_eq!(bob.decrypt(&tampered, b"").unwrap_err(), "decryption failed");
}

#[test]
fn responder_cannot_receive_without_a_ratchet_key() {
    let (_, bob_sk) = perform_x3dh();
    let mut bob = RatchetState::new(bob_sk, false);
    let message = CipherMessage {
        header: halo_server::domain::crypto::ratchet::Header { dh_public_key: vec![], previous_chain_length: 0 },
        nonce: vec![0u8; 12],
        ciphertext: vec![0u8; 16],
    };
    assert_eq!(bob.decrypt(&message, b"").unwrap_err(), "no receive chain");
}

#[test]
fn key_derivations_are_deterministic_and_distinct() {
    let rk = SharedSecret::new([7u8; 32]);
    let (rk1, ck1) = kdf_rk(&rk, &[9u8; 32]);
    let (rk2, ck2) = kdf_rk(&rk, &[9u8; 32]);
    assert_eq!(rk1.as_bytes(), rk2.as_bytes());
    assert_eq!(ck1.as_bytes(), ck2.as_bytes());
    assert_ne!(rk1.as_bytes(), rk.as_bytes());
    assert_ne!(rk1.as_bytes(), ck1.as_bytes());
    let (next, mk) = kdf_ck(&ChainKey::new([5u8; 32]));
    assert_ne!(next.as_bytes(), &[5u8; 32]);
    assert_ne!(next.as_bytes(), &mk);
    let okm = hkdf(64, &[0u8; 32], b"input");
    assert_eq!(okm.len(), 64);
    assert_eq!(&hkdf(32, &[0u8; 32], b"input")[..], &okm[..32]);
}

// Consecutive messages carry the same ratchet key and previous chain length, and
// the receiver reads each of them in order.
#[test]
fn consecutive_messages_share_the_header() {
    let (alice_sk, bob_sk) = perform_x3dh();
    let mut alice = RatchetState::new(alice_sk, true);
    let mut bob = RatchetState::new(bob_sk, false);
    let c1 = alice.encrypt(b"first", b"").unwrap();
    let c2 = alice.encrypt(b"second", b"").unwrap();
    assert_eq!(c1.header.dh_public_key, c2.header.dh_public_key);
    assert_eq!(c1.header.previous_chain_length, c2.header.previous_chain_length);
    assert_eq!(c2.ciphertext.len(), 6 + 16);
    assert_eq!(bob.decrypt(&c1, b"").unwrap(), b"first");
    assert_eq!(bob.decrypt(&c2, b"").unwrap(), b"second");
}

#[test]
fn root_step_halves_join_into_the_hkdf_output() {
    let rk = SharedSecret::new([3u8; 32]);
    let dh = [4u8; 32];
    let (r, c) = kdf_rk(&rk, &dh);
    let mut input = rk.as_bytes().to_vec();
    input.extend_from_slice(&dh);
    let mut joined = r.as_bytes().to_vec();
    joined.extend_from_slice(c.as_bytes());
    assert_eq!(joined, hkdf(64, &[0u8; 32], &input));
}
