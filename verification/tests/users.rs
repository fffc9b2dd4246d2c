use halo_server::adapters::api::routes::users::{
    encode_hex, public_key_response, search_response, text_greater, user_profile, user_summary,
    validate_search_query,
};
use halo_server::domain::user::User;
use halo_server::domain::user::UtcTime;
use halo_server::domain::value_objects::{Email, PasswordHash, UserId, Username};

fn user(id: u128, name: &str, key: Vec<u8>, created: i64) -> User {
    User::from_db(
        UserId::from_uuid(id),
        Username::new(name).unwrap(),
        Email::new("x@y.z").unwrap(),
        PasswordHash::new("h"),
        key,
        UtcTime { secs: created.div_euclid(1000), nanos: (created.rem_euclid(1000) as u32) * 1_000_000 },
        UtcTime { secs: created.div_euclid(1000), nanos: (created.rem_euclid(1000) as u32) * 1_000_000 },
        0,
        None,
    )
}

#[test]
fn hex_encoding() {
    assert_eq!(encode_hex(&[]), "");
    assert_eq!(encode_hex(&[0x00, 0x0f, 0xa5, 0xff]), "000fa5ff");
    assert_eq!(encode_hex(&[0x12, 0x34]), "1234");
}

#[test]
fn search_query_rules() {
    assert!(validate_search_query("ab").is_ok());
    let (s, e) = validate_search_query("a").unwrap_err();
    assert_eq!((s, e.error.message.as_str()), (400, "Search query must be at least 2 characters"));
    assert!(validate_search_query("   ").is_err());
    assert!(validate_search_query(" a ").is_ok());
}

#[test]
fn text_ordering() {
    assert!(text_greater("b", "a"));
    assert!(text_greater("ab", "a"));
    assert!(!text_greater("a", "ab"));
    assert!(!text_greater("a", "a"));
    assert!(!text_greater("a", "b"));
}

#[test]
fn search_pages_after_cursor() {
    let users: Vec<User> = (1..=5u128).map(|i| user(i, &format!("user{i}"), vec![], 0)).collect();
    let page = search_response(&users, None, Some(2));
    assert!(page.has_more);
    assert_eq!(page.users.len(), 2);
    assert_eq!(page.users[0].username, "user1");
    assert_eq!(page.next_cursor.as_deref(), Some("00000000-0000-0000-0000-000000000002"));
    let next = search_response(&users, page.next_cursor.as_deref(), Some(2));
    assert_eq!(next.users[0].username, "user3");
    assert_eq!(next.users[1].username, "user4");
    assert!(next.has_more);
    let last = search_response(&users, next.next_cursor.as_deref(), Some(2));
    assert_eq!(last.users.len(), 1);
    assert!(!last.has_more);
    assert_eq!(last.next_cursor.as_deref(), Some("00000000-0000-0000-0000-000000000005"));
    let empty = search_response(&users, last.next_cursor.as_deref(), None);
    assert!(empty.users.is_empty());
    assert!(empty.next_cursor.is_none());
    assert!(!empty.has_more);
}

#[test]
fn search_page_limits() {
    let users: Vec<User> = (1..=150u128).map(|i| user(i, &format!("user{i}"), vec![], 0)).collect();
    assert_eq!(search_response(&users, None, None).users.len(), 20);
    assert_eq!(search_response(&users, None, Some(500)).users.len(), 100);
    assert_eq!(search_response(&users, None, Some(0)).users.len(), 0);
}

#[test]
fn profiles_and_keys() {
    let u = user(0xab, "alice", vec![1, 2, 255], 0);
    let s = user_summary(&u);
    assert_eq!(s.user_id, "00000000-0000-0000-0000-0000000000ab");
    assert_eq!(s.username, "alice");
    let p = user_profile(&u);
    assert_eq!(p.identity_public_key, "0102ff");
    assert_eq!(p.created_at, "1970-01-01T00:00:00+00:00");
    let k = public_key_response(&u);
    assert_eq!(k.user_id, s.user_id);
    assert_eq!(k.identity_public_key, "0102ff");
    let later = user(1, "bob", vec![], 1_700_000_000_123);
    assert_eq!(user_profile(&later).created_at, "2023-11-14T22:13:20.123+00:00");
}

#[test]
fn unicode_whitespace_is_blank() {
    assert!(validate_search_query("\u{3000}\u{3000}").is_err());
    assert!(validate_search_query("\t\n").is_err());
    assert!(validate_search_query("\u{3000}x").is_ok());
}

#[test]
fn profile_before_the_epoch() {
    let u = user(2, "old_one", vec![], -1_000);
    assert_eq!(user_profile(&u).created_at, "1969-12-31T23:59:59+00:00");
}

#[test]
fn profile_keeps_nanoseconds() {
    let t = UtcTime { secs: 1_700_000_000, nanos: 123_456_789 };
    let u = User::from_db(
        UserId::from_uuid(3),
        Username::new("precise").unwrap(),
        Email::new("p@q.r").unwrap(),
        PasswordHash::new("h"),
        vec![],
        t,
        t,
        0,
        None,
    );
    assert_eq!(user_profile(&u).created_at, "2023-11-14T22:13:20.123456789+00:00");
}
