//! The group endpoints: parsing identifiers, creating groups, and who may do what.
use vstd::prelude::*;

use crate::adapters::api::error::{
    domain_error_response, error_code_text, ApiError, ErrorCode, STATUS_BAD_REQUEST, STATUS_FORBIDDEN,
    STATUS_INTERNAL_SERVER_ERROR,
};
use crate::domain::error::DomainError;
use crate::domain::group::{
    group_wf, has_repeated_member, is_admin_or_owner_of, is_member_of, member_ids, non_owner_ids, Group,
    GroupRole, GroupView,
};
use crate::domain::value_objects::{
    group_name_ok, utf8_len, uuid_parse, uuid_text, parse_uuid, GroupId, GroupName, UserId,
};

use super::keys::is_api_error;

verus! {

#[derive(Debug)]
pub struct CreateGroupBody {
    pub name: String,
    pub member_ids: Vec<String>,
}

#[derive(Debug)]
pub struct AddMembersBody {
    pub user_ids: Vec<String>,
}

/// A group identifier from a path.
pub fn parse_group_id(id: &str) -> (r: Result<GroupId, (u16, ApiError)>)
    ensures
        uuid_parse(id@) matches Some(v) ==> r == Ok::<GroupId, (u16, ApiError)>(GroupId(v)),
        uuid_parse(id@) is None ==> (r matches Err(e) && is_api_error(
            e,
            STATUS_BAD_REQUEST,
            ErrorCode::ValidationError,
            "Invalid group ID"@,
        )),
{
    match parse_uuid(id) {
        Some(v) => Ok(GroupId::from_uuid(v)),
        None => Err(ApiError::new(STATUS_BAD_REQUEST, ErrorCode::ValidationError, "Invalid group ID")),
    }
}

/// A user identifier from a path.
pub fn parse_user_id(id: &str) -> (r: Result<UserId, (u16, ApiError)>)
    ensures
        uuid_parse(id@) matches Some(v) ==> r == Ok::<UserId, (u16, ApiError)>(UserId(v)),
        uuid_parse(id@) is None ==> (r matches Err(e) && is_api_error(
            e,
            STATUS_BAD_REQUEST,
            ErrorCode::ValidationError,
            "Invalid user ID"@,
        )),
{
    match parse_uuid(id) {
        Some(v) => Ok(UserId::from_uuid(v)),
        None => Err(ApiError::new(STATUS_BAD_REQUEST, ErrorCode::ValidationError, "Invalid user ID")),
    }
}

/// User identifiers from a request body, in order; the first that does not parse is
/// named in the error.
pub fn parse_user_ids(ids: &Vec<String>) -> (r: Result<Vec<UserId>, (u16, ApiError)>)
    ensures
        r is Ok ==> forall|i: int| 0 <= i < ids@.len() ==> (#[trigger] uuid_parse(ids@[i]@)) is Some,
        (forall|i: int| 0 <= i < ids@.len() ==> (#[trigger] uuid_parse(ids@[i]@)) is Some) ==> (r matches Ok(v)
            && v@.len() == ids@.len() && forall|i: int|
            0 <= i < v@.len() ==> (#[trigger] v@[i]) == UserId(uuid_parse(ids@[i]@)->0)),
        forall|k: int|
            0 <= k < ids@.len() && (#[trigger] uuid_parse(ids@[k]@)) is None && (forall|i: int|
                0 <= i < k ==> (#[trigger] uuid_parse(ids@[i]@)) is Some) ==> (r matches Err(e) && is_api_error(
                e,
                STATUS_BAD_REQUEST,
                ErrorCode::ValidationError,
                "Invalid user ID: "@ + ids@[k]@,
            )),
{
    let n = ids.len();
    let mut out: Vec<UserId> = Vec::new();
    let mut i: usize = 0;
    while i < n
        invariant
            n == ids@.len(),
            i <= n,
            out@.len() == i,
            forall|j: int| 0 <= j < i ==> (#[trigger] uuid_parse(ids@[j]@)) is Some,
            forall|j: int| 0 <= j < i ==> (#[trigger] out@[j]) == UserId(uuid_parse(ids@[j]@)->0),
        decreases n - i,
    {
        let id_str = &ids[i];
        match parse_uuid(id_str.as_str()) {
            Some(v) => {
                out.push(UserId::from_uuid(v));
            },
            None => {
                let mut message = "Invalid user ID: ".to_owned();
                message.append(id_str.as_str());
                return Err(ApiError::new(STATUS_BAD_REQUEST, ErrorCode::ValidationError, message.as_str()));
            },
        }
        i = i + 1;
    }
    Ok(out)
}

/// Builds the group a create request asks for: a valid name, parseable member
/// identifiers, then the group rules (see `Group::new`), whose refusals are answered
/// as domain errors.
pub fn group_from_request(owner_id: UserId, body: &CreateGroupBody) -> (r: Result<Group, (u16, ApiError)>)
    ensures
        !group_name_ok(utf8_len(body.name@) as int, body.name@) ==> (r matches Err(e) && is_api_error(
            e,
            STATUS_BAD_REQUEST,
            ErrorCode::ValidationError,
            "Group name must be between 1 and 50 characters"@,
        )),
        group_name_ok(utf8_len(body.name@) as int, body.name@) && (exists|i: int|
            0 <= i < body.member_ids@.len() && (#[trigger] uuid_parse(body.member_ids@[i]@)) is None) ==> r is Err,
        group_name_ok(utf8_len(body.name@) as int, body.name@) && (forall|i: int|
            0 <= i < body.member_ids@.len() ==> (#[trigger] uuid_parse(body.member_ids@[i]@)) is Some) ==> {
            let ids = Seq::new(body.member_ids@.len(), |i: int| UserId(uuid_parse(body.member_ids@[i]@)->0));
            &&& ids.len() == 0 ==> (r matches Err(e) && is_api_error(
                e,
                STATUS_INTERNAL_SERVER_ERROR,
                ErrorCode::InternalError,
                "An internal error occurred"@,
            ))
            &&& ids.len() != 0 && has_repeated_member(ids, owner_id) ==> (r matches Err(e) && is_api_error(
                e,
                domain_error_response(DomainError::MemberAlreadyExists).0,
                domain_error_response(DomainError::MemberAlreadyExists).1,
                domain_error_response(DomainError::MemberAlreadyExists).2,
            ))
            &&& ids.len() != 0 && !has_repeated_member(ids, owner_id) ==> (r matches Ok(g) && g@.name
                == body.name@ && g@.owner_id == owner_id && member_ids(g@.members) == seq![owner_id]
                + non_owner_ids(ids, owner_id) && group_wf(g@))
        },
{
    let group_name = match GroupName::new(body.name.as_str()) {
        Ok(n) => n,
        Err(_) => {
            return Err(
                ApiError::new(
                    STATUS_BAD_REQUEST,
                    ErrorCode::ValidationError,
                    "Group name must be between 1 and 50 characters",
                ),
            );
        },
    };
    let member_ids = parse_user_ids(&body.member_ids)?;
    proof {
        let ids = Seq::new(body.member_ids@.len(), |i: int| UserId(uuid_parse(body.member_ids@[i]@)->0));
        assert(member_ids@ =~= ids);
    }
    match Group::new(group_name, owner_id, member_ids) {
        Ok(g) => Ok(g),
        Err(e) => Err(ApiError::from(e)),
    }
}

/// What a request does to a group.
#[derive(Debug, Clone, Copy, PartialEq, Eq, Structural)]
pub enum GroupAction {
    View,
    AddMembers,
    RemoveMember,
    Delete,
}

/// Who may do what: members may view, admins and the owner may add and remove
/// members, and only the owner may delete.
pub open spec fn may_perform(g: GroupView, user: UserId, action: GroupAction) -> bool {
    match action {
        GroupAction::View => is_member_of(g, user),
        GroupAction::AddMembers | GroupAction::RemoveMember => is_admin_or_owner_of(g, user),
        GroupAction::Delete => g.owner_id == user,
    }
}

/// Who may do what, by membership and role: any member may view; a member with the
/// owner or admin role may add and remove members; only the owner may delete.
pub proof fn lemma_group_permissions(g: GroupView, user: UserId)
    ensures
        may_perform(g, user, GroupAction::View) <==> exists|i: int|
            0 <= i < g.members.len() && (#[trigger] g.members[i]).user_id == user,
        may_perform(g, user, GroupAction::AddMembers) <==> exists|i: int|
            0 <= i < g.members.len() && (#[trigger] g.members[i]).user_id == user && (g.members[i].role
                == GroupRole::Owner || g.members[i].role == GroupRole::Admin),
        may_perform(g, user, GroupAction::RemoveMember) <==> exists|i: int|
            0 <= i < g.members.len() && (#[trigger] g.members[i]).user_id == user && (g.members[i].role
                == GroupRole::Owner || g.members[i].role == GroupRole::Admin),
        may_perform(g, user, GroupAction::Delete) <==> g.owner_id == user,
{
}

/// In a well-formed group, a user listed with the plain member role may neither add
/// nor remove members, nor delete the group unless it is the owner.
pub proof fn lemma_plain_member_refused(g: GroupView, i: int)
    requires
        group_wf(g),
        0 <= i < g.members.len(),
        g.members[i].role == GroupRole::Member,
    ensures
        !may_perform(g, g.members[i].user_id, GroupAction::AddMembers),
        !may_perform(g, g.members[i].user_id, GroupAction::RemoveMember),
        may_perform(g, g.members[i].user_id, GroupAction::View),
{
    let u = g.members[i].user_id;
    let ids = member_ids(g.members);
    assert(ids[i] == u);
    assert forall|j: int| 0 <= j < g.members.len() && (#[trigger] g.members[j]).user_id == u implies j == i by {
        assert(ids[j] == u);
    }
}

/// The message a refused action is answered with.
pub open spec fn refusal_message(action: GroupAction) -> Seq<char> {
    match action {
        GroupAction::View => "Not a member of this group"@,
        GroupAction::AddMembers => "Only group admins or the owner can add members"@,
        GroupAction::RemoveMember => "Only group admins or the owner can remove members"@,
        GroupAction::Delete => "Only the group owner can delete the group"@,
    }
}

pub fn authorize_group_action(group: &Group, user_id: &UserId, action: GroupAction) -> (r: Result<
    (),
    (u16, ApiError),
>)
    ensures
        action == GroupAction::View ==> (r is Ok <==> is_member_of(group@, *user_id)),
        action == GroupAction::AddMembers ==> (r is Ok <==> is_admin_or_owner_of(group@, *user_id)),
        action == GroupAction::RemoveMember ==> (r is Ok <==> is_admin_or_owner_of(group@, *user_id)),
        action == GroupAction::Delete ==> (r is Ok <==> group@.owner_id == *user_id),
        may_perform(group@, *user_id, action) ==> r is Ok,
        !may_perform(group@, *user_id, action) ==> (r matches Err(e) && is_api_error(
            e,
            STATUS_FORBIDDEN,
            ErrorCode::Forbidden,
            refusal_message(action),
        )),
{
    let (allowed, message) = match action {
        GroupAction::View => (group.is_member(user_id), "Not a member of this group"),
        GroupAction::AddMembers => (
            group.is_admin_or_owner(user_id),
            "Only group admins or the owner can add members",
        ),
        GroupAction::RemoveMember => (
            group.is_admin_or_owner(user_id),
            "Only group admins or the owner can remove members",
        ),
        GroupAction::Delete => (group.is_owner(user_id), "Only the group owner can delete the group"),
    };
    if allowed {
        Ok(())
    } else {
        Err(ApiError::new(STATUS_FORBIDDEN, ErrorCode::Forbidden, message))
    }
}

/// Counts an attempt to add one member: a member already present is skipped, any
/// other failure ends the request.
pub fn tally_added(added: u32, outcome: Result<(), DomainError>) -> (r: Result<u32, (u16, ApiError)>)
    requires
        added < u32::MAX,
    ensures
        match outcome {
            Ok(_) => r == Ok::<u32, (u16, ApiError)>((added + 1) as u32),
            Err(DomainError::MemberAlreadyExists) => r == Ok::<u32, (u16, ApiError)>(added),
            Err(e) => r matches Err(a) && is_api_error(
                a,
                domain_error_response(e).0,
                domain_error_response(e).1,
                domain_error_response(e).2,
            ),
        },
{
    match outcome {
        Ok(()) => Ok(added + 1),
        Err(DomainError::MemberAlreadyExists) => Ok(added),
        Err(e) => Err(ApiError::from(e)),
    }
}

/// The lower-case name of a role, as group responses show it.
pub open spec fn role_name_text(role: GroupRole) -> Seq<char> {
    match role {
        GroupRole::Owner => "owner"@,
        GroupRole::Admin => "admin"@,
        GroupRole::Member => "member"@,
    }
}

pub fn role_name(role: GroupRole) -> (r: &'static str)
    ensures
        r@ == role_name_text(role),
{
    match role {
        GroupRole::Owner => "owner",
        GroupRole::Admin => "admin",
        GroupRole::Member => "member",
    }
}

/// A member as a group response lists it.
#[derive(Debug)]
pub struct MemberResponse {
    pub user_id: String,
    pub role: String,
}

/// A group as the group endpoints answer it.
#[derive(Debug)]
pub struct GroupResponse {
    pub group_id: String,
    pub name: String,
    pub owner_id: String,
    pub members: Vec<MemberResponse>,
    pub member_count: usize,
    pub created_at: i64,
}

/// Whether a response entry shows a member: its identifier's text and its role's name.
pub open spec fn shows_member(r: MemberResponse, m: crate::domain::group::MemberView) -> bool {
    &&& r.user_id@ == uuid_text(m.user_id.0)
    &&& r.role@ == role_name_text(m.role)
}

/// The response body for a group: its identifiers as text, its name, each member in
/// order with the name of its role, the member count and the creation time.
pub fn encode_group(group: &Group) -> (r: GroupResponse)
    ensures
        r.group_id@ == uuid_text(group@.id.0),
        r.name@ == group@.name,
        r.owner_id@ == uuid_text(group@.owner_id.0),
        r.members@.len() == group@.members.len(),
        forall|i: int| 0 <= i < r.members@.len() ==> shows_member(#[trigger] r.members@[i], group@.members[i]),
        r.member_count == group@.members.len(),
        r.created_at == group@.created_at,
{
    let members = group.members();
    let mut encoded: Vec<MemberResponse> = Vec::new();
    let mut i: usize = 0;
    while i < members.len()
        invariant
            crate::domain::group::members_view(members@) == group@.members,
            i <= members@.len(),
            encoded@.len() == i,
            forall|j: int| 0 <= j < i ==> shows_member(#[trigger] encoded@[j], group@.members[j]),
        decreases members@.len() - i,
    {
        let m = &members[i];
        let role = role_name(m.role());
        encoded.push(MemberResponse { user_id: m.user_id().to_text(), role: role.to_owned() });
        i = i + 1;
    }
    GroupResponse {
        group_id: group.id().to_text(),
        name: group.name().as_str().to_owned(),
        owner_id: group.owner_id().to_text(),
        members: encoded,
        member_count: group.member_count(),
        created_at: group.created_at().as_millis(),
    }
}

} // verus!
