//! The user endpoints: search with cursor paging, profiles and public keys.
use vstd::prelude::*;

use chrono::{DateTime, Utc};

use crate::adapters::api::error::{ApiError, ErrorCode, STATUS_BAD_REQUEST};
use crate::domain::user::{utc_representable, User, UserView, UtcTime};
use crate::domain::value_objects::{uuid_text, utf8_len};

pub use super::keys::encode_hex;
use super::keys::{hex_text, is_api_error};

verus! {

#[derive(Debug)]
pub struct SearchQuery {
    pub q: String,
    pub cursor: Option<String>,
    pub limit: Option<u32>,
}

#[derive(Debug)]
pub struct SearchResponse {
    pub users: Vec<UserSummary>,
    pub next_cursor: Option<String>,
    pub has_more: bool,
}

#[derive(Debug)]
pub struct UserSummary {
    pub user_id: String,
    pub username: String,
}

#[derive(Debug)]
pub struct UserProfile {
    pub user_id: String,
    pub username: String,
    pub identity_public_key: String,
    pub created_at: String,
}

#[derive(Debug)]
pub struct PublicKeyResponse {
    pub user_id: String,
    pub identity_public_key: String,
}

/// Whether a character has the Unicode `White_Space` property, the whitespace that
/// `str::trim` removes.
pub open spec fn is_white_space(c: char) -> bool {
    let u = c as u32;
    ||| 0x9 <= u <= 0xd
    ||| u == 0x20
    ||| u == 0x85
    ||| u == 0xa0
    ||| u == 0x1680
    ||| 0x2000 <= u <= 0x200a
    ||| u == 0x2028
    ||| u == 0x2029
    ||| u == 0x202f
    ||| u == 0x205f
    ||| u == 0x3000
}

/// Whether `r` is `s` without its leading and trailing whitespace: a part of `s`
/// with only whitespace before and after it, which neither starts nor ends with
/// whitespace.
pub open spec fn is_trim_of(r: Seq<char>, s: Seq<char>) -> bool {
    exists|a: int, b: int|
        #![trigger s.subrange(a, b)]
        {
            &&& 0 <= a <= b <= s.len()
            &&& r == s.subrange(a, b)
            &&& forall|i: int| 0 <= i < a ==> is_white_space(#[trigger] s[i])
            &&& forall|i: int| b <= i < s.len() ==> is_white_space(#[trigger] s[i])
            &&& a < b ==> !is_white_space(s[a]) && !is_white_space(s[b - 1])
        }
}

/// Whether a text holds a character other than whitespace.
pub open spec fn has_non_white_space(s: Seq<char>) -> bool {
    exists|i: int| 0 <= i < s.len() && !is_white_space(#[trigger] s[i])
}

/// A text's trimmed form is empty exactly when the text is all whitespace.
proof fn lemma_trim_empty(r: Seq<char>, s: Seq<char>)
    requires
        is_trim_of(r, s),
    ensures
        r.len() == 0 <==> !has_non_white_space(s),
{
    let (a, b) = choose|a: int, b: int|
        #![trigger s.subrange(a, b)]
        {
            &&& 0 <= a <= b <= s.len()
            &&& r == s.subrange(a, b)
            &&& forall|i: int| 0 <= i < a ==> is_white_space(#[trigger] s[i])
            &&& forall|i: int| b <= i < s.len() ==> is_white_space(#[trigger] s[i])
            &&& a < b ==> !is_white_space(s[a]) && !is_white_space(s[b - 1])
        };
    if r.len() == 0 {
        assert forall|i: int| 0 <= i < s.len() implies is_white_space(#[trigger] s[i]) by {
            if i >= a {
                assert(b <= i);
            }
        }
    } else {
        assert(!is_white_space(s[a]));
    }
}

/// Calls `str::trim`: the text without leading and trailing whitespace, as its
/// documentation defines it (the Unicode `White_Space` property).
#[verifier::external_body]
fn trim(text: &str) -> (r: &str)
    ensures
        is_trim_of(r@, text@),
{
    text.trim()
}

/// The RFC 3339 text that chrono writes for an instant given as seconds and
/// nanoseconds since the Unix epoch.
pub uninterp spec fn rfc3339_text(secs: i64, nanos: u32) -> Seq<char>;

/// Formats an instant with `chrono::DateTime::<Utc>::to_rfc3339`, after
/// `DateTime::from_timestamp`; `None` where chrono cannot represent the instant. The
/// text is named by `rfc3339_text`; the contract adds chrono's range: every instant
/// from `NaiveDate::MIN` to the end of `NaiveDate::MAX` with nanoseconds below a
/// second is represented.
#[verifier::external_body]
fn rfc3339(t: UtcTime) -> (r: Option<String>)
    ensures
        utc_representable(t) ==> r is Some,
        r matches Some(text) ==> text@ == rfc3339_text(t.secs, t.nanos),
{
    match DateTime::<Utc>::from_timestamp(t.secs, t.nanos) {
        Some(d) => Some(d.to_rfc3339()),
        None => None,
    }
}

/// Whether a search query is acceptable: not blank, and at least 2 bytes long.
pub open spec fn search_query_ok(q: Seq<char>) -> bool {
    has_non_white_space(q) && utf8_len(q) >= 2
}

pub fn validate_search_query(q: &str) -> (r: Result<(), (u16, ApiError)>)
    ensures
        search_query_ok(q@) ==> r is Ok,
        !search_query_ok(q@) ==> (r matches Err(e) && is_api_error(
            e,
            STATUS_BAD_REQUEST,
            ErrorCode::ValidationError,
            "Search query must be at least 2 characters"@,
        )),
{
    let trimmed = trim(q);
    proof {
        lemma_trim_empty(trimmed@, q@);
    }
    if trimmed.is_empty() || q.len() < 2 {
        return Err(
            ApiError::new(STATUS_BAD_REQUEST, ErrorCode::ValidationError, "Search query must be at least 2 characters"),
        );
    }
    Ok(())
}

/// Whether text `a` sorts after text `b` (lexicographically by character, a proper
/// extension sorting after its prefix).
pub open spec fn text_gt(a: Seq<char>, b: Seq<char>) -> bool
    decreases a.len(),
{
    if a.len() == 0 {
        false
    } else if b.len() == 0 {
        true
    } else if a[0] != b[0] {
        a[0] > b[0]
    } else {
        text_gt(a.drop_first(), b.drop_first())
    }
}

proof fn lemma_text_gt_skip(a: Seq<char>, b: Seq<char>, i: int)
    requires
        0 <= i <= a.len(),
        i <= b.len(),
        forall|j: int| 0 <= j < i ==> a[j] == b[j],
    ensures
        text_gt(a, b) == text_gt(a.skip(i), b.skip(i)),
    decreases i,
{
    if i > 0 {
        assert(a[0] == b[0]);
        assert(a.skip(1).skip(i - 1) =~= a.skip(i));
        assert(b.skip(1).skip(i - 1) =~= b.skip(i));
        assert(a.drop_first() =~= a.skip(1));
        assert(b.drop_first() =~= b.skip(1));
        lemma_text_gt_skip(a.skip(1), b.skip(1), i - 1);
    } else {
        assert(a.skip(0) =~= a);
        assert(b.skip(0) =~= b);
    }
}

/// Texts are ordered by code point at their first difference: where `a` and `b`
/// agree before index `i` and differ at `i`, `a` sorts after `b` exactly when its
/// character there is the greater one.
pub proof fn lemma_text_order_first_difference(a: Seq<char>, b: Seq<char>, i: int)
    requires
        0 <= i < a.len(),
        i < b.len(),
        a.subrange(0, i) == b.subrange(0, i),
        a[i] != b[i],
    ensures
        text_gt(a, b) == (a[i] > b[i]),
{
    assert forall|j: int| 0 <= j < i implies a[j] == b[j] by {
        assert(a.subrange(0, i)[j] == a[j]);
        assert(b.subrange(0, i)[j] == b[j]);
    }
    lemma_text_gt_skip(a, b, i);
    assert(a.skip(i)[0] == a[i]);
    assert(b.skip(i)[0] == b[i]);
}

/// A text sorts after each of its proper prefixes, and never after a text it is a
/// prefix of.
pub proof fn lemma_text_order_prefix(a: Seq<char>, b: Seq<char>)
    ensures
        b.len() < a.len() && a.subrange(0, b.len() as int) == b ==> text_gt(a, b),
        a.len() <= b.len() && b.subrange(0, a.len() as int) == a ==> !text_gt(a, b),
{
    if b.len() < a.len() && a.subrange(0, b.len() as int) == b {
        assert forall|j: int| 0 <= j < b.len() implies a[j] == b[j] by {
            assert(a.subrange(0, b.len() as int)[j] == a[j]);
        }
        lemma_text_gt_skip(a, b, b.len() as int);
        assert(b.skip(b.len() as int).len() == 0);
    }
    if a.len() <= b.len() && b.subrange(0, a.len() as int) == a {
        assert forall|j: int| 0 <= j < a.len() implies a[j] == b[j] by {
            assert(b.subrange(0, a.len() as int)[j] == b[j]);
        }
        lemma_text_gt_skip(a, b, a.len() as int);
        assert(a.skip(a.len() as int).len() == 0);
    }
}

/// Compares two texts character by character.
pub fn text_greater(a: &str, b: &str) -> (r: bool)
    ensures
        r == text_gt(a@, b@),
{
    let na = a.unicode_len();
    let nb = b.unicode_len();
    let mut i: usize = 0;
    while i < na && i < nb
        invariant
            na == a@.len(),
            nb == b@.len(),
            i <= na,
            i <= nb,
            forall|j: int| 0 <= j < i ==> a@[j] == b@[j],
        decreases na - i,
    {
        let ca = a.get_char(i);
        let cb = b.get_char(i);
        if ca != cb {
            proof {
                lemma_text_gt_skip(a@, b@, i as int);
                assert(a@.skip(i as int)[0] == ca);
                assert(b@.skip(i as int)[0] == cb);
            }
            return ca > cb;
        }
        i = i + 1;
    }
    proof {
        lemma_text_gt_skip(a@, b@, i as int);
    }
    i < na
}

/// Whether a user passes the cursor: every user with no cursor, else those whose
/// identifier's text sorts after it.
pub open spec fn passes_cursor(u: UserView, cursor: Option<Seq<char>>) -> bool {
    match cursor {
        None => true,
        Some(c) => text_gt(uuid_text(u.id.0), c),
    }
}

/// The text of an optional cursor.
pub open spec fn opt_text(cursor: Option<&str>) -> Option<Seq<char>> {
    match cursor {
        Some(c) => Some(c@),
        None => None,
    }
}

/// The users that pass the cursor, in order.
pub open spec fn after_cursor(users: Seq<UserView>, cursor: Option<Seq<char>>) -> Seq<UserView>
    decreases users.len(),
{
    if users.len() == 0 {
        Seq::empty()
    } else if passes_cursor(users.last(), cursor) {
        after_cursor(users.drop_last(), cursor).push(users.last())
    } else {
        after_cursor(users.drop_last(), cursor)
    }
}

/// The page size: 20 unless asked, and at most 100.
pub open spec fn page_limit(limit: Option<u32>) -> int {
    let asked = match limit {
        Some(l) => l as int,
        None => 20,
    };
    if asked < 100 { asked } else { 100 }
}

/// The plain values of a user list.
pub open spec fn users_view(users: Seq<User>) -> Seq<UserView> {
    users.map_values(|u: User| u@)
}

/// A summary shows a user's identifier and name.
pub open spec fn summarizes(s: UserSummary, u: UserView) -> bool {
    s.user_id@ == uuid_text(u.id.0) && s.username@ == u.username
}

pub fn user_summary(user: &User) -> (r: UserSummary)
    ensures
        summarizes(r, user@),
{
    UserSummary { user_id: user.id().to_text(), username: user.username().as_str().to_owned() }
}

/// One page of search results: the users after the cursor, at most the page size of
/// them, whether more follow, and the cursor for the next page (the last shown user).
pub fn search_response(users: &Vec<User>, cursor: Option<&str>, limit: Option<u32>) -> (r: SearchResponse)
    ensures
        ({
            let cursor_text = opt_text(cursor);
            let filtered = after_cursor(users_view(users@), cursor_text);
            let page = page_limit(limit);
            &&& r.has_more == (filtered.len() > page)
            &&& r.users@.len() == (if r.has_more { page } else { filtered.len() as int })
            &&& forall|i: int| 0 <= i < r.users@.len() ==> summarizes(#[trigger] r.users@[i], filtered[i])
            &&& r.users@.len() == 0 ==> r.next_cursor is None
            &&& r.users@.len() > 0 ==> (r.next_cursor matches Some(c) && c@ == uuid_text(
                filtered[r.users@.len() - 1].id.0,
            ))
        }),
{
    let ghost cursor_text = opt_text(cursor);
    let page: usize = match limit {
        Some(l) => if l < 100 { l as usize } else { 100 },
        None => 20,
    };
    let n = users.len();
    let mut shown: Vec<UserSummary> = Vec::new();
    let mut i: usize = 0;
    while i < n
        invariant
            n == users@.len(),
            i <= n,
            cursor_text == opt_text(cursor),
            shown@.len() == after_cursor(users_view(users@.take(i as int)), cursor_text).len(),
            forall|j: int|
                0 <= j < shown@.len() ==> summarizes(
                    #[trigger] shown@[j],
                    after_cursor(users_view(users@.take(i as int)), cursor_text)[j],
                ),
        decreases n - i,
    {
        let u = &users[i];
        let ghost before = users_view(users@.take(i as int));
        proof {
            assert(users_view(users@.take(i + 1)).drop_last() =~= before);
            assert(users_view(users@.take(i + 1)).last() == u@);
        }
        let passes = match cursor {
            None => true,
            Some(c) => {
                let id_text = u.id().to_text();
                let gt = text_greater(id_text.as_str(), c);
                assert(id_text@ == uuid_text(u@.id.0));
                assert(cursor_text == Some(c@));
                gt
            },
        };
        proof {
            assert(passes == passes_cursor(u@, cursor_text));
            let next = users_view(users@.take(i + 1));
            assert(next.len() > 0);
            assert(after_cursor(next, cursor_text) == if passes {
                after_cursor(before, cursor_text).push(u@)
            } else {
                after_cursor(before, cursor_text)
            });
        }
        if passes {
            shown.push(user_summary(u));
        }
        i = i + 1;
    }
    proof {
        assert(users@.take(n as int) =~= users@);
    }
    let has_more = shown.len() > page;
    if has_more {
        shown.truncate(page);
    }
    let count = shown.len();
    let next_cursor = if count > 0 {
        Some(clone_text(&shown[count - 1].user_id))
    } else {
        None
    };
    SearchResponse { users: shown, next_cursor, has_more }
}

fn clone_text(s: &String) -> (r: String)
    ensures
        r@ == s@,
{
    s.as_str().to_owned()
}

/// A user's profile: identifier, name, identity key in hexadecimal and creation time in
/// RFC 3339. The creation time is one that chrono represents, as every stored time is.
pub fn user_profile(user: &User) -> (r: UserProfile)
    requires
        utc_representable(user@.created_at),
    ensures
        r.user_id@ == uuid_text(user@.id.0),
        r.username@ == user@.username,
        r.identity_public_key@ == hex_text(user@.identity_public_key),
        r.created_at@ == rfc3339_text(user@.created_at.secs, user@.created_at.nanos),
{
    UserProfile {
        user_id: user.id().to_text(),
        username: user.username().as_str().to_owned(),
        identity_public_key: encode_hex(user.identity_public_key()),
        created_at: rfc3339(*user.created_at()).unwrap(),
    }
}

pub fn public_key_response(user: &User) -> (r: PublicKeyResponse)
    ensures
        r.user_id@ == uuid_text(user@.id.0),
        r.identity_public_key@ == hex_text(user@.identity_public_key),
{
    PublicKeyResponse { user_id: user.id().to_text(), identity_public_key: encode_hex(user.identity_public_key()) }
}

} // verus!
