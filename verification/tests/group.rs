use halo_server::adapters::api::routes::groups::{
    authorize_group_action, encode_group, group_from_request, parse_group_id, parse_user_id, parse_user_ids,
    role_name, tally_added, CreateGroupBody, GroupAction,
};
use halo_server::domain::error::DomainError;
use halo_server::domain::group::{Group, GroupMember, GroupRole, MAX_GROUP_SIZE};
use halo_server::domain::value_objects::{GroupId, GroupName, Timestamp, UserId};

#[test]
fn test_create_group_success() {
    let name = GroupName::new("test-group").unwrap();
    let owner = UserId::new();
    let member = UserId::new();
    let group = Group::new(name, owner, vec![member]);
    assert!(group.is_ok());
    assert_eq!(group.unwrap().member_count(), 2);
}

#[test]
fn test_create_group_no_members() {
    let name = GroupName::new("test-group").unwrap();
    let owner = UserId::new();
    let group = Group::new(name, owner, vec![]);
    assert!(group.is_err());
}

#[test]
fn test_is_member() {
    let name = GroupName::new("test-group").unwrap();
    let owner = UserId::new();
    let member = UserId::new();
    let group = Group::new(name, owner, vec![member]).unwrap();
    assert!(group.is_member(&owner));
    assert!(group.is_member(&member));

    let stranger = UserId::new();
    assert!(!group.is_member(&stranger));
}

fn uid(n: u128) -> UserId {
    UserId::from_uuid(n)
}

fn group_of(owner: u128, members: &[u128]) -> Group {
    Group::new(GroupName::new("g").unwrap(), uid(owner), members.iter().map(|m| uid(*m)).collect()).unwrap()
}

#[test]
fn create_group_skips_owner_and_keeps_order() {
    let g = group_of(1, &[3, 1, 2]);
    let ids: Vec<u128> = g.members().iter().map(|m| m.user_id().to_uuid()).collect();
    assert_eq!(ids, vec![1, 3, 2]);
    assert_eq!(g.members()[0].role(), GroupRole::Owner);
    assert_eq!(g.members()[1].role(), GroupRole::Member);
    assert!(g.is_owner(&uid(1)));
    assert!(!g.is_owner(&uid(3)));
    assert!(g.is_admin_or_owner(&uid(1)));
    assert!(!g.is_admin_or_owner(&uid(3)));
}

#[test]
fn create_group_refuses_repeated_member() {
    let r = Group::new(GroupName::new("g").unwrap(), uid(1), vec![uid(2), uid(2)]);
    assert!(matches!(r, Err(DomainError::MemberAlreadyExists)));
    let only_owner = Group::new(GroupName::new("g").unwrap(), uid(1), vec![uid(1), uid(1)]);
    assert_eq!(only_owner.unwrap().member_count(), 1);
}

#[test]
fn create_group_error_text() {
    match Group::new(GroupName::new("g").unwrap(), uid(1), vec![]) {
        Err(DomainError::Internal(m)) => assert_eq!(m, "group must have at least one member besides owner"),
        _ => panic!("expected an error"),
    }
}

#[test]
fn group_name_limits() {
    assert!(GroupName::new("").is_err());
    assert!(GroupName::new(&"x".repeat(51)).is_err());
    assert_eq!(GroupName::new(&"x".repeat(50)).unwrap().as_str().len(), 50);
}

#[test]
fn add_member_rules() {
    let mut g = group_of(1, &[2]);
    assert!(g.add_member(uid(3)).is_ok());
    assert_eq!(g.member_count(), 3);
    assert_eq!(g.members()[2].role(), GroupRole::Member);
    assert!(matches!(g.add_member(uid(3)), Err(DomainError::MemberAlreadyExists)));
    assert_eq!(g.member_count(), 3);
    for n in 4..=(MAX_GROUP_SIZE as u128) {
        assert!(g.add_member(uid(n)).is_ok());
    }
    assert_eq!(g.member_count(), MAX_GROUP_SIZE);
    assert!(matches!(g.add_member(uid(999)), Err(DomainError::GroupFull)));
}

#[test]
fn remove_member_rules() {
    let mut g = group_of(1, &[2, 3]);
    match g.remove_member(&uid(1)) {
        Err(DomainError::Internal(m)) => assert_eq!(m, "cannot remove the group owner"),
        _ => panic!("owner removed"),
    }
    assert!(matches!(g.remove_member(&uid(9)), Err(DomainError::NotMember)));
    assert!(g.remove_member(&uid(2)).is_ok());
    let ids: Vec<u128> = g.members().iter().map(|m| m.user_id().to_uuid()).collect();
    assert_eq!(ids, vec![1, 3]);
}

// Adding a member and removing it again gives back the same member list.
#[test]
fn add_then_remove_restores_members() {
    let mut g = group_of(1, &[2, 3]);
    let before: Vec<u128> = g.members().iter().map(|m| m.user_id().to_uuid()).collect();
    g.add_member(uid(4)).unwrap();
    g.remove_member(&uid(4)).unwrap();
    let after: Vec<u128> = g.members().iter().map(|m| m.user_id().to_uuid()).collect();
    assert_eq!(before, after);
}

#[test]
fn admins_may_manage_but_not_delete() {
    let g = Group::from_db(
        GroupId::from_uuid(10),
        GroupName::new("team").unwrap(),
        uid(1),
        vec![
            GroupMember::from_db(uid(1), GroupRole::Owner, Timestamp::from_millis(1)),
            GroupMember::from_db(uid(2), GroupRole::Admin, Timestamp::from_millis(2)),
            GroupMember::from_db(uid(3), GroupRole::Member, Timestamp::from_millis(3)),
        ],
        Timestamp::from_millis(1),
    );
    assert!(authorize_group_action(&g, &uid(2), GroupAction::AddMembers).is_ok());
    assert!(authorize_group_action(&g, &uid(2), GroupAction::RemoveMember).is_ok());
    let (status, err) = authorize_group_action(&g, &uid(2), GroupAction::Delete).unwrap_err();
    assert_eq!(status, 403);
    assert_eq!(err.error.code, "FORBIDDEN");
    assert!(authorize_group_action(&g, &uid(1), GroupAction::Delete).is_ok());
    assert!(authorize_group_action(&g, &uid(3), GroupAction::View).is_ok());
    assert!(authorize_group_action(&g, &uid(3), GroupAction::AddMembers).is_err());
    assert!(authorize_group_action(&g, &uid(4), GroupAction::View).is_err());
    assert_eq!(g.members()[1].joined_at().as_millis(), 2);
}

#[test]
fn tally_counts_new_members_only() {
    assert_eq!(tally_added(2, Ok(())).unwrap(), 3);
    assert_eq!(tally_added(2, Err(DomainError::MemberAlreadyExists)).unwrap(), 2);
    let (status, err) = tally_added(2, Err(DomainError::GroupFull)).unwrap_err();
    assert_eq!(status, 400);
    assert_eq!(err.error.message, "group is full");
}

const A: &str = "0190f5c4-7a1b-7c3d-8e4f-a1b2c3d4e5f6";
const B: &str = "0190f5c4-7a1b-7c3d-8e4f-a1b2c3d4e5f7";

#[test]
fn parse_ids_from_paths_and_bodies() {
    assert_eq!(parse_group_id(A).unwrap().as_uuid(), &0x0190f5c4_7a1b_7c3d_8e4f_a1b2c3d4e5f6u128);
    assert_eq!(parse_user_id(B).unwrap().to_uuid(), 0x0190f5c4_7a1b_7c3d_8e4f_a1b2c3d4e5f7u128);
    let (s, e) = parse_group_id("nope").unwrap_err();
    assert_eq!((s, e.error.message.as_str()), (400, "Invalid group ID"));
    let (s, e) = parse_user_id("nope").unwrap_err();
    assert_eq!((s, e.error.message.as_str()), (400, "Invalid user ID"));
    let ids = parse_user_ids(&vec![A.to_string(), B.to_string()]).unwrap();
    assert_eq!(ids.len(), 2);
    let (_, e) = parse_user_ids(&vec![A.to_string(), "bad".to_string(), "worse".to_string()]).unwrap_err();
    assert_eq!(e.error.message, "Invalid user ID: bad");
}

#[test]
fn group_from_request_checks_name_then_ids_then_rules() {
    let owner = uid(1);
    let bad_name = CreateGroupBody { name: String::new(), member_ids: vec![A.to_string()] };
    let (s, e) = group_from_request(owner, &bad_name).unwrap_err();
    assert_eq!((s, e.error.message.as_str()), (400, "Group name must be between 1 and 50 characters"));
    let no_members = CreateGroupBody { name: "x".to_string(), member_ids: vec![] };
    let (s, e) = group_from_request(owner, &no_members).unwrap_err();
    assert_eq!((s, e.error.code.as_str()), (500, "INTERNAL_ERROR"));
    let twice = CreateGroupBody { name: "x".to_string(), member_ids: vec![A.to_string(), A.to_string()] };
    let (s, e) = group_from_request(owner, &twice).unwrap_err();
    assert_eq!((s, e.error.code.as_str()), (409, "CONFLICT"));
    let ok = CreateGroupBody { name: "x".to_string(), member_ids: vec![A.to_string(), B.to_string()] };
    assert_eq!(group_from_request(owner, &ok).unwrap().member_count(), 3);
}

#[test]
fn encode_group_shows_members_and_roles() {
    let g = Group::from_db(
        GroupId::from_uuid(0x0190f5c4_7a1b_7c3d_8e4f_a1b2c3d4e5f6),
        GroupName::new("team").unwrap(),
        uid(1),
        vec![
            GroupMember::from_db(uid(1), GroupRole::Owner, Timestamp::from_millis(1)),
            GroupMember::from_db(uid(2), GroupRole::Admin, Timestamp::from_millis(2)),
        ],
        Timestamp::from_millis(77),
    );
    let r = encode_group(&g);
    assert_eq!(r.group_id, A);
    assert_eq!(r.name, "team");
    assert_eq!(r.owner_id, "00000000-0000-0000-0000-000000000001");
    assert_eq!(r.member_count, 2);
    assert_eq!(r.created_at, 77);
    assert_eq!(r.members[0].role, "owner");
    assert_eq!(r.members[1].role, "admin");
    assert_eq!(r.members[1].user_id, "00000000-0000-0000-0000-000000000002");
    assert_eq!(role_name(GroupRole::Member), "member");
}
