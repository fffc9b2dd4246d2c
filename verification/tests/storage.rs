use halo_server::adapters::api::routes::keys::{
    bundle_response, prepare_one_time_pre_keys, prepare_signed_pre_key, OneTimePreKeyDto, SignedPreKeyDto,
};
use halo_server::adapters::db::{
    bundle_from_rows, group_role_as_str, group_role_from_str, session_status_as_str, session_status_from_str,
    OneTimePreKeyRow, SignedPreKeyRow,
};
use halo_server::domain::error::DomainError;
use halo_server::domain::group::GroupRole;
use halo_server::domain::session::SessionStatus;
use halo_server::domain::value_objects::UserId;

#[test]
fn session_status_round_trips() {
    for s in [SessionStatus::Active, SessionStatus::Expired, SessionStatus::Revoked, SessionStatus::Reconnecting] {
        assert_eq!(session_status_from_str(session_status_as_str(s)), s);
    }
    assert_eq!(session_status_as_str(SessionStatus::Reconnecting), "reconnecting");
    assert_eq!(session_status_from_str("garbage"), SessionStatus::Active);
}

#[test]
fn group_role_round_trips() {
    for r in [GroupRole::Owner, GroupRole::Admin, GroupRole::Member] {
        assert_eq!(group_role_from_str(group_role_as_str(r)), r);
    }
    assert_eq!(group_role_as_str(GroupRole::Admin), "admin");
    assert_eq!(group_role_from_str("garbage"), GroupRole::Member);
}

#[test]
fn bundle_needs_a_signed_pre_key() {
    match bundle_from_rows(UserId::from_uuid(1), vec![0u8; 32], None, vec![]) {
        Err(DomainError::Internal(m)) => assert_eq!(m, "no signed pre-key found"),
        _ => panic!("expected an error"),
    }
}

#[test]
fn bundle_from_rows_and_response() {
    let user = UserId::from_uuid(1);
    let signed = SignedPreKeyRow { id: 3, public_key: vec![0xaa; 32], signature: vec![0xbb; 64], created_at: 10 };
    let rows = vec![
        OneTimePreKeyRow { id: 5, public_key: vec![1; 32], created_at: 11 },
        OneTimePreKeyRow { id: -1, public_key: vec![2; 32], created_at: 12 },
    ];
    let b = bundle_from_rows(user, vec![0x0f; 32], Some(signed), rows).unwrap();
    assert_eq!(b.signed_pre_key.id().as_u32(), 3);
    assert_eq!(*b.signed_pre_key.user_id(), user);
    assert_eq!(b.signed_pre_key.created_at().as_millis(), 10);
    assert_eq!(b.one_time_pre_keys.len(), 2);
    assert_eq!(b.one_time_pre_keys[1].id().as_u32(), u32::MAX);
    assert_eq!(b.one_time_pre_keys[1].public_key().as_bytes(), &[2u8; 32]);
    let r = bundle_response(&b);
    assert_eq!(r.identity_key, "0f".repeat(32));
    assert_eq!(r.signed_pre_key.key_id, 3);
    assert_eq!(r.signed_pre_key.public_key, "aa".repeat(32));
    assert_eq!(r.signed_pre_key.signature, "bb".repeat(64));
    assert_eq!(r.one_time_pre_keys[0].key_id, 5);
    assert_eq!(r.one_time_pre_keys[0].public_key, "01".repeat(32));
}

#[test]
fn uploaded_keys_are_checked() {
    let user = UserId::from_uuid(2);
    let bad_key = SignedPreKeyDto { key_id: 1, public_key: vec![0; 31], signature: vec![0; 64] };
    let (s, e) = prepare_signed_pre_key(user, &bad_key).unwrap_err();
    assert_eq!((s, e.error.message.as_str()), (400, "signed_pre_key.public_key must be 32 bytes"));
    let bad_sig = SignedPreKeyDto { key_id: 1, public_key: vec![0; 32], signature: vec![0; 63] };
    let (_, e) = prepare_signed_pre_key(user, &bad_sig).unwrap_err();
    assert_eq!(e.error.message, "signed_pre_key.signature must be 64 bytes");
    let good = SignedPreKeyDto { key_id: 7, public_key: vec![3; 32], signature: vec![4; 64] };
    let k = prepare_signed_pre_key(user, &good).unwrap();
    assert_eq!(k.id().as_u32(), 7);
    assert_eq!(k.signature().as_bytes(), &[4u8; 64][..]);
    let keys = vec![
        OneTimePreKeyDto { key_id: 1, public_key: vec![5; 32] },
        OneTimePreKeyDto { key_id: 2, public_key: vec![6; 32] },
    ];
    let ks = prepare_one_time_pre_keys(user, &keys).unwrap();
    assert_eq!(ks.len(), 2);
    assert_eq!(ks[1].id().as_u32(), 2);
    let bad = vec![OneTimePreKeyDto { key_id: 1, public_key: vec![5; 32] }, OneTimePreKeyDto { key_id: 2, public_key: vec![] }];
    let (_, e) = prepare_one_time_pre_keys(user, &bad).unwrap_err();
    assert_eq!(e.error.message, "one_time_pre_key.public_key must be 32 bytes");
}
