use halo_server::domain::crypto::x3dh::{x3dh_initiate, x3dh_receive};
use rand::rngs::OsRng;
use x25519_dalek::{PublicKey, StaticSecret};

fn secret() -> [u8; 32] {
    StaticSecret::random_from_rng(OsRng).to_bytes()
}

fn public(sk: &[u8; 32]) -> [u8; 32] {
    PublicKey::from(&StaticSecret::from(*sk)).to_bytes()
}

#[test]
fn test_x3dh_agreement() {
    let alice_ik = secret();
    let alice_ek = secret();
    let alice_ek_pk = public(&alice_ek);

    let bob_ik = secret();
    let bob_ik_pk = public(&bob_ik);

    let bob_spk = secret();
    let bob_spk_pk = public(&bob_spk);

    let bob_opk = secret();
    let bob_opk_pk = public(&bob_opk);

    let alice_result = x3dh_initiate(&alice_ik, &alice_ek, &bob_ik_pk, &bob_spk_pk, Some(&bob_opk_pk));

    let bob_result = x3dh_receive(&public(&alice_ik), &alice_ek_pk, &bob_ik, &bob_spk, Some(&bob_opk));

    assert_eq!(alice_result.shared_secret.as_bytes(), bob_result.shared_secret.as_bytes(),);
    assert_eq!(alice_result.associated_data, bob_result.associated_data,);
}

#[test]
fn test_x3dh_no_one_time() {
    let alice_ik = secret();
    let alice_ek = secret();
    let alice_ek_pk = public(&alice_ek);

    let bob_ik = secret();
    let bob_ik_pk = public(&bob_ik);

    let bob_spk = secret();
    let bob_spk_pk = public(&bob_spk);

    let alice_result = x3dh_initiate(&alice_ik, &alice_ek, &bob_ik_pk, &bob_spk_pk, None);

    let bob_result = x3dh_receive(&public(&alice_ik), &alice_ek_pk, &bob_ik, &bob_spk, None);

    assert_eq!(alice_result.shared_secret.as_bytes(), bob_result.shared_secret.as_bytes(),);
}

// The associated data is the responder's identity key followed by the initiator's
// ephemeral key, and using a one-time key changes the secret.
#[test]
fn x3dh_associated_data_layout_and_one_time_key_matters() {
    let alice_ik = secret();
    let alice_ek = secret();
    let bob_ik = secret();
    let bob_spk = secret();
    let bob_opk = secret();
    let with = x3dh_initiate(&alice_ik, &alice_ek, &public(&bob_ik), &public(&bob_spk), Some(&public(&bob_opk)));
    let without = x3dh_initiate(&alice_ik, &alice_ek, &public(&bob_ik), &public(&bob_spk), None);
    let mut expected = public(&bob_ik).to_vec();
    expected.extend_from_slice(&public(&alice_ek));
    assert_eq!(with.associated_data, expected);
    assert_eq!(with.associated_data.len(), 64);
    assert_ne!(with.shared_secret.as_bytes(), without.shared_secret.as_bytes());
    let bob_wrong = x3dh_receive(&public(&alice_ik), &public(&alice_ek), &bob_ik, &bob_spk, None);
    assert_ne!(with.shared_secret.as_bytes(), bob_wrong.shared_secret.as_bytes());
}

// Fixed keys give a fixed secret: the derivation depends on its inputs alone.
#[test]
fn x3dh_is_deterministic() {
    let a = [1u8; 32];
    let e = [2u8; 32];
    let b = [3u8; 32];
    let s = [4u8; 32];
    let r1 = x3dh_initiate(&a, &e, &public(&b), &public(&s), None);
    let r2 = x3dh_initiate(&a, &e, &public(&b), &public(&s), None);
    assert_eq!(r1.shared_secret.as_bytes(), r2.shared_secret.as_bytes());
    let rb = x3dh_receive(&public(&a), &public(&e), &b, &s, None);
    assert_eq!(r1.shared_secret.as_bytes(), rb.shared_secret.as_bytes());
}
