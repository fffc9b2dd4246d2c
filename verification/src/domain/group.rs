use vstd::prelude::*;

use super::error::DomainError;
use super::value_objects::{GroupId, GroupName, Timestamp, UserId};

verus! {

#[derive(Debug, Clone, Copy, PartialEq, Eq, Structural)]
pub enum GroupRole {
    Owner,
    Admin,
    Member,
}

pub const MAX_GROUP_SIZE: usize = 50;

/// A group member as plain values.
pub struct MemberView {
    pub user_id: UserId,
    pub role: GroupRole,
    pub joined_at: i64,
}

#[derive(Debug, Clone, Copy)]
pub struct GroupMember {
    user_id: UserId,
    role: GroupRole,
    joined_at: Timestamp,
}

impl View for GroupMember {
    type V = MemberView;

    closed spec fn view(&self) -> MemberView {
        MemberView { user_id: self.user_id, role: self.role, joined_at: self.joined_at.0 }
    }
}

impl GroupMember {
    /// A member who joins now.
    pub fn new(user_id: UserId, role: GroupRole) -> (r: Self)
        ensures
            r@.user_id == user_id,
            r@.role == role,
    {
        GroupMember { user_id, role, joined_at: Timestamp::now() }
    }

    pub fn from_db(user_id: UserId, role: GroupRole, joined_at: Timestamp) -> (r: Self)
        ensures
            r@ == (MemberView { user_id, role, joined_at: joined_at.0 }),
    {
        GroupMember { user_id, role, joined_at }
    }

    pub fn user_id(&self) -> (r: &UserId)
        ensures
            *r == self@.user_id,
    {
        &self.user_id
    }

    pub fn role(&self) -> (r: GroupRole)
        ensures
            r == self@.role,
    {
        self.role
    }

    pub fn joined_at(&self) -> (r: &Timestamp)
        ensures
            r.0 == self@.joined_at,
    {
        &self.joined_at
    }
}

/// A group as plain values.
pub struct GroupView {
    pub id: GroupId,
    pub name: Seq<char>,
    pub owner_id: UserId,
    pub members: Seq<MemberView>,
    pub created_at: i64,
}

#[derive(Debug, Clone)]
pub struct Group {
    id: GroupId,
    name: GroupName,
    owner_id: UserId,
    members: Vec<GroupMember>,
    created_at: Timestamp,
}

impl View for Group {
    type V = GroupView;

    closed spec fn view(&self) -> GroupView {
        GroupView {
            id: self.id,
            name: self.name@,
            owner_id: self.owner_id,
            members: members_view(self.members@),
            created_at: self.created_at.0,
        }
    }
}

/// The plain values of a member list.
pub open spec fn members_view(members: Seq<GroupMember>) -> Seq<MemberView> {
    members.map_values(|m: GroupMember| m@)
}

/// The user identifiers of a member list, in order.
pub open spec fn member_ids(members: Seq<MemberView>) -> Seq<UserId> {
    members.map_values(|m: MemberView| m.user_id)
}

/// Whether `user` is among the members.
pub open spec fn is_member_of(g: GroupView, user: UserId) -> bool {
    exists|i: int| 0 <= i < g.members.len() && (#[trigger] g.members[i]).user_id == user
}

/// Whether `user` is a member with the owner or admin role.
pub open spec fn is_admin_or_owner_of(g: GroupView, user: UserId) -> bool {
    exists|i: int|
        0 <= i < g.members.len() && (#[trigger] g.members[i]).user_id == user && (g.members[i].role
            == GroupRole::Owner || g.members[i].role == GroupRole::Admin)
}

/// A well-formed group: no user is a member twice, and the owner is a member.
pub open spec fn group_wf(g: GroupView) -> bool {
    &&& member_ids(g.members).no_duplicates()
    &&& is_member_of(g, g.owner_id)
}

/// The entries of `ids` other than `owner`, in order.
pub open spec fn non_owner_ids(ids: Seq<UserId>, owner: UserId) -> Seq<UserId>
    decreases ids.len(),
{
    if ids.len() == 0 {
        Seq::empty()
    } else if ids.last() == owner {
        non_owner_ids(ids.drop_last(), owner)
    } else {
        non_owner_ids(ids.drop_last(), owner).push(ids.last())
    }
}

/// Whether some user other than the owner is named twice.
pub open spec fn has_repeated_member(ids: Seq<UserId>, owner: UserId) -> bool {
    exists|i: int, j: int| 0 <= i < j < ids.len() && ids[j] != owner && #[trigger] ids[i] == #[trigger] ids[j]
}

proof fn lemma_non_owner_ids_contains(ids: Seq<UserId>, owner: UserId, u: UserId)
    ensures
        non_owner_ids(ids, owner).contains(u) <==> (u != owner && ids.contains(u)),
    decreases ids.len(),
{
    if ids.len() > 0 {
        let p = ids.drop_last();
        let l = ids.last();
        lemma_non_owner_ids_contains(p, owner, u);
        assert(ids.contains(u) <==> (p.contains(u) || u == l)) by {
            if ids.contains(u) && u != l {
                let k = choose|k: int| 0 <= k < ids.len() && ids[k] == u;
                assert(p[k] == u);
            }
            if p.contains(u) {
                let k = choose|k: int| 0 <= k < p.len() && p[k] == u;
                assert(ids[k] == u);
            }
            if u == l {
                assert(ids[ids.len() - 1] == u);
            }
        }
        if l != owner {
            let s = non_owner_ids(p, owner);
            assert(s.push(l).contains(u) <==> (s.contains(u) || u == l)) by {
                if s.push(l).contains(u) && u != l {
                    let k = choose|k: int| 0 <= k < s.push(l).len() && s.push(l)[k] == u;
                    assert(s[k] == u);
                }
                if s.contains(u) {
                    let k = choose|k: int| 0 <= k < s.len() && s[k] == u;
                    assert(s.push(l)[k] == u);
                }
                if u == l {
                    assert(s.push(l)[s.len() as int] == u);
                }
            }
        }
    }
}

/// The index of the first member with a given user identifier.
fn position_of(members: &Vec<GroupMember>, user_id: &UserId) -> (r: Option<usize>)
    ensures
        r matches Some(i) ==> i < members@.len() && members@[i as int]@.user_id == *user_id
            && forall|j: int| 0 <= j < i ==> members@[j]@.user_id != *user_id,
        r is None ==> forall|j: int| 0 <= j < members@.len() ==> members@[j]@.user_id != *user_id,
{
    let n = members.len();
    let mut i: usize = 0;
    while i < n
        invariant
            n == members@.len(),
            i <= n,
            forall|j: int| 0 <= j < i ==> members@[j]@.user_id != *user_id,
        decreases n - i,
    {
        if members[i].user_id == *user_id {
            return Some(i);
        }
        i = i + 1;
    }
    None
}

impl Group {
    /// Creates a group: the owner first, with the owner role, then the initial
    /// members in order as plain members, skipping the owner. At least one initial
    /// member is needed, and naming a member twice is refused.
    pub fn new(name: GroupName, owner_id: UserId, initial_members: Vec<UserId>) -> (r: Result<Self, DomainError>)
        ensures
            initial_members@.len() == 0 ==> (r matches Err(DomainError::Internal(m))
                && m@ == "group must have at least one member besides owner"@),
            initial_members@.len() != 0 && has_repeated_member(initial_members@, owner_id) ==> (r matches Err(
                DomainError::MemberAlreadyExists,
            )),
            initial_members@.len() != 0 && !has_repeated_member(initial_members@, owner_id) ==> (r matches Ok(g) && {
                &&& g@.name == name@
                &&& g@.owner_id == owner_id
                &&& member_ids(g@.members) == seq![owner_id] + non_owner_ids(initial_members@, owner_id)
                &&& g@.members[0].role == GroupRole::Owner
                &&& forall|i: int| 1 <= i < g@.members.len() ==> (#[trigger] g@.members[i]).role == GroupRole::Member
                &&& group_wf(g@)
            }),
    {
        if initial_members.len() == 0 {
            return Err(DomainError::Internal("group must have at least one member besides owner".to_owned()));
        }
        let mut members: Vec<GroupMember> = Vec::new();
        members.push(GroupMember::new(owner_id, GroupRole::Owner));
        let n = initial_members.len();
        let mut k: usize = 0;
        while k < n
            invariant
                n == initial_members@.len(),
                k <= n,
                members@.len() >= 1,
                members@[0]@.user_id == owner_id,
                members@[0]@.role == GroupRole::Owner,
                forall|i: int| 1 <= i < members@.len() ==> (#[trigger] members@[i])@.role == GroupRole::Member,
                member_ids(members_view(members@)) == seq![owner_id] + non_owner_ids(
                    initial_members@.take(k as int),
                    owner_id,
                ),
                !has_repeated_member(initial_members@.take(k as int), owner_id),
            decreases n - k,
        {
            let member_id = initial_members[k];
            let ghost ids = initial_members@.take(k as int);
            let ghost mv = members_view(members@);
            proof {
                assert(initial_members@.take(k + 1).drop_last() =~= ids);
                assert(initial_members@.take(k + 1).last() == member_id);
                lemma_non_owner_ids_contains(ids, owner_id, member_id);
            }
            if member_id == owner_id {
                k = k + 1;
                proof {
                    assert(!has_repeated_member(initial_members@.take(k as int), owner_id)) by {
                        if has_repeated_member(initial_members@.take(k as int), owner_id) {
                            let (i, j) = choose|i: int, j: int|
                                0 <= i < j < initial_members@.take(k as int).len()
                                    && initial_members@.take(k as int)[j] != owner_id
                                    && #[trigger] initial_members@.take(k as int)[i]
                                    == #[trigger] initial_members@.take(k as int)[j];
                            assert(ids[i] == ids[j]);
                        }
                    }
                }
                continue;
            }
            match position_of(&members, &member_id) {
                Some(pos) => {
                    proof {
                        assert(pos > 0);
                        let ms = member_ids(mv);
                        assert(ms == seq![owner_id] + non_owner_ids(ids, owner_id));
                        assert(ms[pos as int] == member_id);
                        let x = non_owner_ids(ids, owner_id);
                        assert(ms.len() == members@.len());
                        assert(pos < ms.len());
                        assert(ms.len() == 1 + x.len());
                        assert((seq![owner_id] + x)[pos as int] == x[pos - 1]);
                        assert(non_owner_ids(ids, owner_id)[pos - 1] == member_id);
                        assert(non_owner_ids(ids, owner_id).contains(member_id));
                        let i = choose|i: int| 0 <= i < ids.len() && ids[i] == member_id;
                        let full = initial_members@;
                        assert(full[i] == ids[i]);
                        assert(full[k as int] == member_id);
                        assert(has_repeated_member(full, owner_id));
                    }
                    return Err(DomainError::MemberAlreadyExists);
                },
                None => {},
            }
            proof {
                assert(!member_ids(mv).contains(member_id)) by {
                    if member_ids(mv).contains(member_id) {
                        let j = choose|j: int| 0 <= j < member_ids(mv).len() && member_ids(mv)[j] == member_id;
                        assert(members@[j]@.user_id == member_id);
                    }
                }
                assert(!non_owner_ids(ids, owner_id).contains(member_id)) by {
                    if non_owner_ids(ids, owner_id).contains(member_id) {
                        let j = choose|j: int| 0 <= j < non_owner_ids(ids, owner_id).len() && non_owner_ids(ids, owner_id)[j] == member_id;
                        assert(member_ids(mv)[j + 1] == member_id);
                    }
                }
            }
            members.push(GroupMember::new(member_id, GroupRole::Member));
            k = k + 1;
            proof {
                let mv2 = members_view(members@);
                assert(member_ids(mv2) =~= member_ids(mv).push(member_id));
                assert(!has_repeated_member(initial_members@.take(k as int), owner_id)) by {
                    if has_repeated_member(initial_members@.take(k as int), owner_id) {
                        let t = initial_members@.take(k as int);
                        let (i, j) = choose|i: int, j: int|
                            0 <= i < j < t.len() && t[j] != owner_id && #[trigger] t[i] == #[trigger] t[j];
                        if j < k - 1 {
                            assert(ids[i] == ids[j]);
                        } else {
                            assert(ids[i] == member_id);
                            assert(ids.contains(member_id));
                        }
                    }
                }
            }
        }
        proof {
            assert(initial_members@.take(n as int) =~= initial_members@);
        }
        let g = Group {
            id: GroupId::new(),
            name,
            owner_id,
            members,
            created_at: Timestamp::now(),
        };
        proof {
            let ids = non_owner_ids(initial_members@, owner_id);
            let gv = g@;
            assert(member_ids(gv.members) == seq![owner_id] + ids);
            assert(gv.members[0].user_id == owner_id);
            assert(is_member_of(gv, owner_id));
            lemma_no_duplicates_non_owner(initial_members@, owner_id);
            assert forall|i: int, j: int| 0 <= i < j < member_ids(gv.members).len() implies
                member_ids(gv.members)[i] != member_ids(gv.members)[j] by {
                if i == 0 {
                    lemma_non_owner_ids_contains(initial_members@, owner_id, member_ids(gv.members)[j]);
                    assert(ids.contains(ids[j - 1]));
                } else {
                    assert(ids[i - 1] != ids[j - 1]);
                }
            }
        }
        Ok(g)
    }

    pub fn from_db(
        id: GroupId,
        name: GroupName,
        owner_id: UserId,
        members: Vec<GroupMember>,
        created_at: Timestamp,
    ) -> (r: Self)
        ensures
            r@.id == id,
            r@.name == name@,
            r@.owner_id == owner_id,
            r@.members == members_view(members@),
            r@.created_at == created_at.0,
    {
        Group { id, name, owner_id, members, created_at }
    }

    pub fn id(&self) -> (r: &GroupId)
        ensures
            *r == self@.id,
    {
        &self.id
    }

    pub fn name(&self) -> (r: &GroupName)
        ensures
            r@ == self@.name,
    {
        &self.name
    }

    pub fn owner_id(&self) -> (r: &UserId)
        ensures
            *r == self@.owner_id,
    {
        &self.owner_id
    }

    pub fn members(&self) -> (r: &[GroupMember])
        ensures
            members_view(r@) == self@.members,
    {
        self.members.as_slice()
    }

    pub fn member_count(&self) -> (r: usize)
        ensures
            r == self@.members.len(),
    {
        self.members.len()
    }

    pub fn is_member(&self, user_id: &UserId) -> (r: bool)
        ensures
            r == is_member_of(self@, *user_id),
    {
        let found = position_of(&self.members, user_id);
        proof {
            match found {
                Some(i) => {
                    assert(self@.members[i as int].user_id == *user_id);
                },
                None => {
                    assert forall|i: int| 0 <= i < self@.members.len() implies (#[trigger] self@.members[i]).user_id
                        != *user_id by {
                        assert(self.members@[i]@.user_id != *user_id);
                    }
                },
            }
        }
        found.is_some()
    }

    pub fn is_owner(&self, user_id: &UserId) -> (r: bool)
        ensures
            r == (self@.owner_id == *user_id),
    {
        self.owner_id == *user_id
    }

    pub fn is_admin_or_owner(&self, user_id: &UserId) -> (r: bool)
        ensures
            r == is_admin_or_owner_of(self@, *user_id),
    {
        let n = self.members.len();
        let mut i: usize = 0;
        while i < n
            invariant
                n == self.members@.len(),
                i <= n,
                forall|j: int|
                    0 <= j < i ==> !((#[trigger] self.members@[j])@.user_id == *user_id && (
                    self.members@[j]@.role == GroupRole::Owner || self.members@[j]@.role
                        == GroupRole::Admin)),
            decreases n - i,
        {
            let m = &self.members[i];
            if m.user_id == *user_id && (m.role == GroupRole::Owner || m.role == GroupRole::Admin) {
                assert(self@.members[i as int] == self.members@[i as int]@);
                return true;
            }
            i = i + 1;
        }
        proof {
            assert forall|j: int| 0 <= j < self@.members.len() implies !((#[trigger] self@.members[j]).user_id
                == *user_id && (self@.members[j].role == GroupRole::Owner || self@.members[j].role
                == GroupRole::Admin)) by {
                assert(self@.members[j] == self.members@[j]@);
            }
        }
        false
    }

    /// Adds a plain member, unless the group is full or the user is already in it.
    pub fn add_member(&mut self, user_id: UserId) -> (r: Result<(), DomainError>)
        ensures
            old(self)@.members.len() >= MAX_GROUP_SIZE ==> (r matches Err(DomainError::GroupFull))
                && final(self)@ == old(self)@,
            old(self)@.members.len() < MAX_GROUP_SIZE && is_member_of(old(self)@, user_id) ==> (r matches Err(
                DomainError::MemberAlreadyExists,
            )) && final(self)@ == old(self)@,
            old(self)@.members.len() < MAX_GROUP_SIZE && !is_member_of(old(self)@, user_id) ==> r is Ok
                && final(self)@.id == old(self)@.id && final(self)@.name == old(self)@.name
                && final(self)@.owner_id == old(self)@.owner_id && final(self)@.created_at
                == old(self)@.created_at && final(self)@.members.drop_last() == old(self)@.members
                && final(self)@.members.last().user_id == user_id && final(self)@.members.last().role
                == GroupRole::Member,
    {
        if self.members.len() >= MAX_GROUP_SIZE {
            return Err(DomainError::GroupFull);
        }
        if self.is_member(&user_id) {
            return Err(DomainError::MemberAlreadyExists);
        }
        let ghost before = self.members@;
        self.members.push(GroupMember::new(user_id, GroupRole::Member));
        assert(members_view(self.members@).drop_last() =~= members_view(before));
        Ok(())
    }

    /// Removes a member; the owner cannot be removed.
    pub fn remove_member(&mut self, user_id: &UserId) -> (r: Result<(), DomainError>)
        ensures
            old(self)@.owner_id == *user_id ==> (r matches Err(DomainError::Internal(m))
                && m@ == "cannot remove the group owner"@) && final(self)@ == old(self)@,
            old(self)@.owner_id != *user_id && !is_member_of(old(self)@, *user_id) ==> (r matches Err(
                DomainError::NotMember,
            )) && final(self)@ == old(self)@,
            old(self)@.owner_id != *user_id && is_member_of(old(self)@, *user_id) ==> r is Ok
                && exists|i: int|
                0 <= i < old(self)@.members.len() && old(self)@.members[i].user_id == *user_id
                    && (forall|j: int| 0 <= j < i ==> (#[trigger] old(self)@.members[j]).user_id != *user_id)
                    && final(self)@ == (GroupView { members: old(self)@.members.remove(i), ..old(self)@ }),
    {
        if self.owner_id == *user_id {
            return Err(DomainError::Internal("cannot remove the group owner".to_owned()));
        }
        match position_of(&self.members, user_id) {
            None => {
                proof {
                    assert forall|i: int| 0 <= i < self@.members.len() implies (#[trigger] self@.members[i]).user_id
                        != *user_id by {
                        assert(self.members@[i]@.user_id != *user_id);
                    }
                }
                Err(DomainError::NotMember)
            },
            Some(pos) => {
                let ghost before = self.members@;
                let ghost old_view = self@;
                assert(old_view.members[pos as int].user_id == *user_id);
                self.members.remove(pos);
                proof {
                    assert(members_view(self.members@) =~= members_view(before).remove(pos as int));
                    assert forall|j: int| 0 <= j < pos implies (#[trigger] old_view.members[j]).user_id
                        != *user_id by {
                        assert(before[j]@.user_id != *user_id);
                    }
                    assert(self@ == (GroupView { members: old_view.members.remove(pos as int), ..old_view }));
                }
                Ok(())
            },
        }
    }

    pub fn created_at(&self) -> (r: &Timestamp)
        ensures
            r.0 == self@.created_at,
    {
        &self.created_at
    }
}

/// Adding a user who is not yet a member keeps the group well formed, makes that
/// user a member, and changes membership for no one else.
pub proof fn lemma_add_member_keeps_wf(g: GroupView, m: MemberView)
    requires
        group_wf(g),
        !is_member_of(g, m.user_id),
    ensures
        group_wf(GroupView { members: g.members.push(m), ..g }),
        is_member_of(GroupView { members: g.members.push(m), ..g }, m.user_id),
        forall|v: UserId|
            v != m.user_id ==> (is_member_of(GroupView { members: g.members.push(m), ..g }, v)
                == is_member_of(g, v)),
{
    let g2 = GroupView { members: g.members.push(m), ..g };
    let ids = member_ids(g.members);
    let ids2 = member_ids(g2.members);
    assert(ids2 =~= ids.push(m.user_id));
    assert(g2.members[g.members.len() as int] == m);
    assert forall|i: int, j: int| 0 <= i < j < ids2.len() implies ids2[i] != ids2[j] by {
        if j == ids.len() {
            assert(g.members[i].user_id == ids[i]);
        }
    }
    let w = choose|i: int| 0 <= i < g.members.len() && (#[trigger] g.members[i]).user_id == g.owner_id;
    assert(g2.members[w] == g.members[w]);
    assert forall|v: UserId| v != m.user_id implies (is_member_of(g2, v) == is_member_of(g, v)) by {
        if is_member_of(g, v) {
            let i = choose|i: int| 0 <= i < g.members.len() && (#[trigger] g.members[i]).user_id == v;
            assert(g2.members[i] == g.members[i]);
        }
        if is_member_of(g2, v) {
            let i = choose|i: int| 0 <= i < g2.members.len() && (#[trigger] g2.members[i]).user_id == v;
            assert(g.members[i] == g2.members[i]);
        }
    }
}

/// Removing a member other than the owner keeps the group well formed; the removed
/// user is no longer a member, and membership changes for no one else.
pub proof fn lemma_remove_member_keeps_wf(g: GroupView, i: int)
    requires
        group_wf(g),
        0 <= i < g.members.len(),
        g.members[i].user_id != g.owner_id,
    ensures
        group_wf(GroupView { members: g.members.remove(i), ..g }),
        !is_member_of(GroupView { members: g.members.remove(i), ..g }, g.members[i].user_id),
        forall|v: UserId|
            v != g.members[i].user_id ==> (is_member_of(GroupView { members: g.members.remove(i), ..g }, v)
                == is_member_of(g, v)),
{
    let u = g.members[i].user_id;
    let g2 = GroupView { members: g.members.remove(i), ..g };
    let ids = member_ids(g.members);
    let ids2 = member_ids(g2.members);
    assert(ids2 =~= ids.remove(i));
    assert forall|a: int, b: int| 0 <= a < b < ids2.len() implies ids2[a] != ids2[b] by {
        let a1 = if a < i { a } else { a + 1 };
        let b1 = if b < i { b } else { b + 1 };
        assert(ids2[a] == ids[a1]);
        assert(ids2[b] == ids[b1]);
    }
    assert forall|v: UserId| v != u implies (is_member_of(g2, v) == is_member_of(g, v)) by {
        if is_member_of(g, v) {
            let k = choose|k: int| 0 <= k < g.members.len() && (#[trigger] g.members[k]).user_id == v;
            assert(k != i);
            let k2 = if k < i { k } else { k - 1 };
            assert(g2.members[k2] == g.members[k]);
        }
        if is_member_of(g2, v) {
            let k = choose|k: int| 0 <= k < g2.members.len() && (#[trigger] g2.members[k]).user_id == v;
            let k1 = if k < i { k } else { k + 1 };
            assert(g.members[k1] == g2.members[k]);
        }
    }
    assert(!is_member_of(g2, u)) by {
        if is_member_of(g2, u) {
            let k = choose|k: int| 0 <= k < g2.members.len() && (#[trigger] g2.members[k]).user_id == u;
            let k1 = if k < i { k } else { k + 1 };
            assert(g.members[k1] == g2.members[k]);
            assert(ids[k1] == ids[i]);
        }
    }
}

/// Removing a member who was just added undoes the addition: after a user who was
/// not a member is appended, the first entry with that user's identifier (the one
/// `remove_member` takes out) is the appended one, and taking it out gives back the
/// group as it was.
pub proof fn lemma_remove_undoes_add(g: GroupView, m: MemberView)
    requires
        !is_member_of(g, m.user_id),
    ensures
        forall|i: int|
            0 <= i < g.members.push(m).len() && (#[trigger] g.members.push(m)[i]).user_id == m.user_id
                && (forall|j: int| 0 <= j < i ==> (#[trigger] g.members.push(m)[j]).user_id != m.user_id)
                ==> (GroupView { members: g.members.push(m).remove(i), ..g }) == g,
{
    let after = g.members.push(m);
    assert forall|i: int|
        0 <= i < after.len() && (#[trigger] after[i]).user_id == m.user_id && (forall|j: int|
            0 <= j < i ==> (#[trigger] after[j]).user_id != m.user_id) implies (GroupView {
        members: after.remove(i),
        ..g
    }) == g by {
        if i < g.members.len() {
            assert(g.members[i] == after[i]);
            assert(is_member_of(g, m.user_id));
        }
        assert(i == g.members.len());
        assert(after.remove(i) =~= g.members);
    }
}

/// Without a repeated member, the non-owner entries are distinct.
proof fn lemma_no_duplicates_non_owner(ids: Seq<UserId>, owner: UserId)
    requires
        !has_repeated_member(ids, owner),
    ensures
        non_owner_ids(ids, owner).no_duplicates(),
    decreases ids.len(),
{
    if ids.len() > 0 {
        let prefix = ids.drop_last();
        assert(!has_repeated_member(prefix, owner)) by {
            if has_repeated_member(prefix, owner) {
                let (i, j) = choose|i: int, j: int|
                    0 <= i < j < prefix.len() && prefix[j] != owner && #[trigger] prefix[i] == #[trigger] prefix[j];
                assert(ids[i] == ids[j]);
            }
        }
        lemma_no_duplicates_non_owner(prefix, owner);
        if ids.last() != owner {
            lemma_non_owner_ids_contains(prefix, owner, ids.last());
            assert(!prefix.contains(ids.last())) by {
                if prefix.contains(ids.last()) {
                    let i = choose|i: int| 0 <= i < prefix.len() && prefix[i] == ids.last();
                    assert(ids[i] == ids[ids.len() - 1]);
                }
            }
            let s = non_owner_ids(prefix, owner);
            assert forall|a: int, b: int| 0 <= a < b < s.push(ids.last()).len() implies s.push(ids.last())[a] != s.push(ids.last())[b] by {
                if b == s.len() {
                    assert(s.contains(s[a]));
                }
            }
        }
    }
}

} // verus!
