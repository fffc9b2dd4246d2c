use halo_server::domain::conversation::Conversation;
use halo_server::domain::value_objects::{ConversationId, GroupId, JwtId, MessageId, SessionId, Timestamp, UserId};

#[test]
fn test_conversation_orders_participants() {
    let a = UserId::new();
    let b = UserId::new();
    let conv = Conversation::new(a, b);
    let (p1, p2) = conv.participants();

    assert!(p1.as_uuid() < p2.as_uuid());
}

#[test]
fn test_includes_user() {
    let a = UserId::new();
    let b = UserId::new();
    let conv = Conversation::new(a, b);

    assert!(conv.includes_user(&a));
    assert!(conv.includes_user(&b));

    let c = UserId::new();
    assert!(!conv.includes_user(&c));
}

#[test]
fn test_other_participant() {
    let a = UserId::new();
    let b = UserId::new();
    let conv = Conversation::new(a, b);

    assert_eq!(conv.other_participant(&a), Some(&b));
    assert_eq!(conv.other_participant(&b), Some(&a));
}

// Whichever order the participants come in, the smaller identifier is first.
#[test]
fn participant_order_does_not_depend_on_argument_order() {
    let low = UserId::from_uuid(5);
    let high = UserId::from_uuid(9);
    let c1 = Conversation::new(high, low);
    let c2 = Conversation::new(low, high);
    assert_eq!(*c1.participant_a(), low);
    assert_eq!(*c1.participant_b(), high);
    assert_eq!(*c2.participant_a(), low);
    assert_eq!(*c2.participant_b(), high);
    assert!(c1.is_active());
    assert!(c1.last_message_at().is_none());
}

#[test]
fn other_participant_of_stranger_is_none() {
    let conv = Conversation::new(UserId::from_uuid(1), UserId::from_uuid(2));
    assert_eq!(conv.other_participant(&UserId::from_uuid(3)), None);
}

#[test]
fn conversation_from_db_keeps_fields() {
    let conv = Conversation::from_db(
        ConversationId::from_uuid(7),
        UserId::from_uuid(1),
        UserId::from_uuid(2),
        Timestamp::from_millis(100),
        Some(Timestamp::from_millis(200)),
        false,
    );
    assert_eq!(*conv.id(), ConversationId::from_uuid(7));
    assert_eq!(conv.created_at().as_millis(), 100);
    assert_eq!(conv.last_message_at().unwrap().as_millis(), 200);
    assert!(!conv.is_active());
}

// Fresh identifiers are version-7 UUIDs of the RFC 4122 variant.
#[test]
fn fresh_identifiers_are_version_7() {
    let values = [
        UserId::new().0,
        SessionId::new().0,
        JwtId::new().0,
        MessageId::new().0,
        ConversationId::new().0,
        GroupId::new().0,
    ];
    for v in values {
        assert_eq!((v >> 76) & 0xf, 7);
        assert_eq!((v >> 62) & 0x3, 2);
    }
    assert_ne!(UserId::new(), UserId::new());
}
