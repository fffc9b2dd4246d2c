use vstd::prelude::*;

use vstd::string::*;
use vstd::utf8::*;

use crate::domain::error::DomainError;

verus! {

// ---------------------------------------------------------------------------
// UUID-backed identifiers. A UUID is held as its 128-bit big-endian value, so
// that ordering identifiers by `<` is ordering their UUIDs.
// ---------------------------------------------------------------------------

/// The layout of a version-7 UUID (RFC 9562) in its 128-bit big-endian value: the
/// version field (the high half of byte 6) is 7 and the variant bits (the top two
/// bits of byte 8) are `10`, the RFC 4122 variant.
pub open spec fn is_uuid_v7(value: u128) -> bool {
    &&& (value >> 76u128) & 0xfu128 == 7
    &&& (value >> 62u128) & 0x3u128 == 2
}

/// Draws a fresh version-7 UUID from `uuid::Uuid::now_v7` and returns its 128-bit
/// value. The timestamp and random bits depend on the clock and on chance; the
/// contract states only the layout the crate documents and writes for every such
/// UUID: version 7, RFC 4122 variant.
#[verifier::external_body]
fn fresh_uuid_v7() -> (r: u128)
    ensures
        is_uuid_v7(r),
{
    uuid::Uuid::now_v7().as_u128()
}

/// The text that `uuid::Uuid`'s `Display` writes for a UUID value.
pub uninterp spec fn uuid_text(value: u128) -> Seq<char>;

/// Formats a UUID value with `uuid::Uuid::to_string`. The text is named by
/// `uuid_text`; the contract adds two documented facts: the hyphenated form has 36
/// characters, and `Uuid::parse_str` reads every form the crate writes back to the
/// same UUID.
#[verifier::external_body]
pub(crate) fn uuid_to_text(value: u128) -> (r: String)
    ensures
        r@ == uuid_text(value),
        r@.len() == 36,
        uuid_parse(r@) == Some(value),
{
    uuid::Uuid::from_u128(value).to_string()
}

/// What `uuid::Uuid::parse_str` makes of a text: the UUID's value when it parses.
pub uninterp spec fn uuid_parse(text: Seq<char>) -> Option<u128>;

/// Parses a UUID with `uuid::Uuid::parse_str`; `None` where the crate reports an error.
/// The outcome is named by `uuid_parse`.
#[verifier::external_body]
pub(crate) fn parse_uuid(text: &str) -> (r: Option<u128>)
    ensures
        r == uuid_parse(text@),
{
    match uuid::Uuid::parse_str(text) {
        Ok(u) => Some(u.as_u128()),
        Err(_) => None,
    }
}

/// The identifier of a user.
#[derive(Debug, Clone, Copy, PartialEq, Eq, Hash, Structural)]
pub struct UserId(pub u128);

impl UserId {
    /// A fresh, time-ordered identifier: a version-7 UUID.
    pub fn new() -> (r: Self)
        ensures
            is_uuid_v7(r.0),
    {
        UserId(fresh_uuid_v7())
    }

    pub fn from_uuid(uuid: u128) -> (r: Self)
        ensures
            r.0 == uuid,
    {
        UserId(uuid)
    }

    pub fn as_uuid(&self) -> (r: &u128)
        ensures
            *r == self.0,
    {
        &self.0
    }

    pub fn to_uuid(self) -> (r: u128)
        ensures
            r == self.0,
    {
        self.0
    }

    /// The identifier's text, as its `Display` writes it; it parses back to the
    /// identifier.
    pub fn to_text(&self) -> (r: String)
        ensures
            r@ == uuid_text(self.0),
            uuid_parse(r@) == Some(self.0),
    {
        uuid_to_text(self.0)
    }
}

impl Default for UserId {
    fn default() -> (r: Self) {
        Self::new()
    }
}

/// The identifier of a login session.
#[derive(Debug, Clone, Copy, PartialEq, Eq, Hash, Structural)]
pub struct SessionId(pub u128);

impl SessionId {
    pub fn new() -> (r: Self)
        ensures
            is_uuid_v7(r.0),
    {
        SessionId(fresh_uuid_v7())
    }

    pub fn from_uuid(uuid: u128) -> (r: Self)
        ensures
            r.0 == uuid,
    {
        SessionId(uuid)
    }

    pub fn as_uuid(&self) -> (r: &u128)
        ensures
            *r == self.0,
    {
        &self.0
    }

    pub fn to_text(&self) -> (r: String)
        ensures
            r@ == uuid_text(self.0),
            uuid_parse(r@) == Some(self.0),
    {
        uuid_to_text(self.0)
    }
}

impl Default for SessionId {
    fn default() -> (r: Self) {
        Self::new()
    }
}

/// The identifier (`jti`) that ties a token pair to its session.
#[derive(Debug, Clone, Copy, PartialEq, Eq, Hash, Structural)]
pub struct JwtId(pub u128);

impl JwtId {
    pub fn new() -> (r: Self)
        ensures
            is_uuid_v7(r.0),
    {
        JwtId(fresh_uuid_v7())
    }

    pub fn from_uuid(uuid: u128) -> (r: Self)
        ensures
            r.0 == uuid,
    {
        JwtId(uuid)
    }

    pub fn as_uuid(&self) -> (r: &u128)
        ensures
            *r == self.0,
    {
        &self.0
    }
}

impl Default for JwtId {
    fn default() -> (r: Self) {
        Self::new()
    }
}

/// The identifier of a message.
#[derive(Debug, Clone, Copy, PartialEq, Eq, Hash, Structural)]
pub struct MessageId(pub u128);

impl MessageId {
    pub fn new() -> (r: Self)
        ensures
            is_uuid_v7(r.0),
    {
        MessageId(fresh_uuid_v7())
    }

    pub fn from_uuid(uuid: u128) -> (r: Self)
        ensures
            r.0 == uuid,
    {
        MessageId(uuid)
    }

    pub fn as_uuid(&self) -> (r: &u128)
        ensures
            *r == self.0,
    {
        &self.0
    }

    pub fn to_text(&self) -> (r: String)
        ensures
            r@ == uuid_text(self.0),
            uuid_parse(r@) == Some(self.0),
    {
        uuid_to_text(self.0)
    }
}

impl Default for MessageId {
    fn default() -> (r: Self) {
        Self::new()
    }
}

/// The identifier of a one-to-one conversation.
#[derive(Debug, Clone, Copy, PartialEq, Eq, Hash, Structural)]
pub struct ConversationId(pub u128);

impl ConversationId {
    pub fn new() -> (r: Self)
        ensures
            is_uuid_v7(r.0),
    {
        ConversationId(fresh_uuid_v7())
    }

    pub fn from_uuid(uuid: u128) -> (r: Self)
        ensures
            r.0 == uuid,
    {
        ConversationId(uuid)
    }

    pub fn as_uuid(&self) -> (r: &u128)
        ensures
            *r == self.0,
    {
        &self.0
    }

    pub fn to_text(&self) -> (r: String)
        ensures
            r@ == uuid_text(self.0),
            uuid_parse(r@) == Some(self.0),
    {
        uuid_to_text(self.0)
    }
}

impl Default for ConversationId {
    fn default() -> (r: Self) {
        Self::new()
    }
}

/// The identifier of a group.
#[derive(Debug, Clone, Copy, PartialEq, Eq, Hash, Structural)]
pub struct GroupId(pub u128);

impl GroupId {
    pub fn new() -> (r: Self)
        ensures
            is_uuid_v7(r.0),
    {
        GroupId(fresh_uuid_v7())
    }

    pub fn from_uuid(uuid: u128) -> (r: Self)
        ensures
            r.0 == uuid,
    {
        GroupId(uuid)
    }

    pub fn as_uuid(&self) -> (r: &u128)
        ensures
            *r == self.0,
    {
        &self.0
    }

    pub fn to_text(&self) -> (r: String)
        ensures
            r@ == uuid_text(self.0),
            uuid_parse(r@) == Some(self.0),
    {
        uuid_to_text(self.0)
    }
}

impl Default for GroupId {
    fn default() -> (r: Self) {
        Self::new()
    }
}


// ---------------------------------------------------------------------------
// Text-backed values.
// ---------------------------------------------------------------------------

/// Whether `char::is_alphanumeric` holds of a character (Unicode `Alphabetic`
/// or `Numeric`).
pub uninterp spec fn char_is_alphanumeric(c: char) -> bool;

/// An ASCII letter or digit.
pub open spec fn is_ascii_alphanumeric(c: char) -> bool {
    ('a' <= c <= 'z') || ('A' <= c <= 'Z') || ('0' <= c <= '9')
}

/// Calls `char::is_alphanumeric`. The result is named by `char_is_alphanumeric`;
/// for ASCII characters the contract states it: exactly the letters and digits.
#[verifier::external_body]
fn is_alphanumeric(c: char) -> (r: bool)
    ensures
        r == char_is_alphanumeric(c),
        (c as u32) < 128 ==> (r <==> is_ascii_alphanumeric(c)),
{
    c.is_alphanumeric()
}

/// The length of a text's UTF-8 encoding, as `str::len` reports it.
pub open spec fn utf8_len(s: Seq<char>) -> usize {
    encode_utf8(s).len() as usize
}

/// The characters a username may hold: alphanumeric ones and `_`.
pub open spec fn username_chars_ok(s: Seq<char>) -> bool {
    forall|i: int| 0 <= i < s.len() ==> (char_is_alphanumeric(#[trigger] s[i]) || s[i] == '_')
}

/// A valid username: 3 to 30 bytes long (`byte_len`), each character alphanumeric or `_`.
pub open spec fn username_ok(byte_len: int, s: Seq<char>) -> bool {
    &&& 3 <= byte_len <= 30
    &&& username_chars_ok(s)
}

#[derive(Debug, Clone, PartialEq, Eq)]
pub struct Username(String);

impl View for Username {
    type V = Seq<char>;

    closed spec fn view(&self) -> Seq<char> {
        self.0@
    }
}

impl Username {
    /// Checks a username: its byte length first, then its characters.
    pub fn new(name: &str) -> (r: Result<Self, DomainError>)
        ensures
            !(3 <= utf8_len(name@) <= 30) ==> (r matches Err(
                DomainError::InvalidUsername(m),
            ) && m@ == "must be between 3 and 30 characters"@),
            (3 <= utf8_len(name@) <= 30 && !username_chars_ok(name@)) ==> (r matches Err(
                DomainError::InvalidUsername(m),
            ) && m@ == "only alphanumeric characters and underscores allowed"@),
            username_ok(utf8_len(name@) as int, name@) ==> (r matches Ok(u) && u@ == name@),
            is_ascii_chars(name@) ==> (r is Ok <==> (3 <= name@.len() <= 30 && forall|i: int|
                0 <= i < name@.len() ==> is_ascii_alphanumeric(#[trigger] name@[i]) || name@[i] == '_')),
    {
        proof {
            if is_ascii_chars(name@) {
                is_ascii_chars_encode_utf8(name@);
            }
        }
        let len = name.len();
        if len < 3 || len > 30 {
            return Err(DomainError::InvalidUsername("must be between 3 and 30 characters".to_owned()));
        }
        let n = name.unicode_len();
        let mut i: usize = 0;
        while i < n
            invariant
                n == name@.len(),
                i <= n,
                3 <= utf8_len(name@) <= 30,
                forall|j: int| 0 <= j < i ==> (char_is_alphanumeric(#[trigger] name@[j]) || name@[j] == '_'),
                forall|j: int|
                    0 <= j < i && (#[trigger] name@[j] as u32) < 128 ==> (char_is_alphanumeric(name@[j])
                        <==> is_ascii_alphanumeric(name@[j])),
            decreases n - i,
        {
            let c = name.get_char(i);
            if !(is_alphanumeric(c) || c == '_') {
                return Err(
                    DomainError::InvalidUsername(
                        "only alphanumeric characters and underscores allowed".to_owned(),
                    ),
                );
            }
            i = i + 1;
        }
        Ok(Username(name.to_owned()))
    }

    pub fn as_str(&self) -> (r: &str)
        ensures
            r@ == self@,
    {
        self.0.as_str()
    }
}

/// A plausible email address: it holds an `@` and a `.`.
pub open spec fn email_ok(s: Seq<char>) -> bool {
    s.contains('@') && s.contains('.')
}

/// Whether a text holds a given character, scanning it from the start.
fn text_contains(text: &str, c: char) -> (r: bool)
    ensures
        r == text@.contains(c),
{
    let n = text.unicode_len();
    let mut i: usize = 0;
    while i < n
        invariant
            n == text@.len(),
            i <= n,
            forall|j: int| 0 <= j < i ==> text@[j] != c,
        decreases n - i,
    {
        if text.get_char(i) == c {
            return true;
        }
        i = i + 1;
    }
    false
}

/// Whether two texts are equal, compared character by character.
pub(crate) fn text_equals(a: &str, b: &str) -> (r: bool)
    ensures
        r == (a@ == b@),
{
    let n = a.unicode_len();
    if n != b.unicode_len() {
        return false;
    }
    let mut i: usize = 0;
    while i < n
        invariant
            n == a@.len(),
            n == b@.len(),
            i <= n,
            forall|j: int| 0 <= j < i ==> a@[j] == b@[j],
        decreases n - i,
    {
        if a.get_char(i) != b.get_char(i) {
            return false;
        }
        i = i + 1;
    }
    assert(a@ =~= b@);
    true
}

#[derive(Debug, Clone, PartialEq, Eq)]
pub struct Email(String);

impl View for Email {
    type V = Seq<char>;

    closed spec fn view(&self) -> Seq<char> {
        self.0@
    }
}

impl Email {
    pub fn new(email: &str) -> (r: Result<Self, DomainError>)
        ensures
            email_ok(email@) ==> (r matches Ok(e) && e@ == email@),
            !email_ok(email@) ==> (r matches Err(DomainError::InvalidEmail(m))
                && m@ == "invalid email format"@),
    {
        if !text_contains(email, '@') || !text_contains(email, '.') {
            return Err(DomainError::InvalidEmail("invalid email format".to_owned()));
        }
        Ok(Email(email.to_owned()))
    }

    pub fn as_str(&self) -> (r: &str)
        ensures
            r@ == self@,
    {
        self.0.as_str()
    }
}

/// A password hash in PHC string form.
#[derive(Debug, Clone, PartialEq, Eq)]
pub struct PasswordHash(String);

impl View for PasswordHash {
    type V = Seq<char>;

    closed spec fn view(&self) -> Seq<char> {
        self.0@
    }
}

impl PasswordHash {
    pub fn new(hash: &str) -> (r: Self)
        ensures
            r@ == hash@,
    {
        PasswordHash(hash.to_owned())
    }

    pub fn as_str(&self) -> (r: &str)
        ensures
            r@ == self@,
    {
        self.0.as_str()
    }
}

/// An encoded JSON Web Token.
#[derive(Debug, Clone, PartialEq, Eq)]
pub struct JwtToken(String);

impl View for JwtToken {
    type V = Seq<char>;

    closed spec fn view(&self) -> Seq<char> {
        self.0@
    }
}

impl JwtToken {
    pub fn new(token: &str) -> (r: Self)
        ensures
            r@ == token@,
    {
        JwtToken(token.to_owned())
    }

    pub fn as_str(&self) -> (r: &str)
        ensures
            r@ == self@,
    {
        self.0.as_str()
    }
}

/// A client's user-agent string.
#[derive(Debug, Clone, PartialEq, Eq)]
pub struct UserAgent(String);

impl View for UserAgent {
    type V = Seq<char>;

    closed spec fn view(&self) -> Seq<char> {
        self.0@
    }
}

impl UserAgent {
    pub fn new(agent: &str) -> (r: Self)
        ensures
            r@ == agent@,
    {
        UserAgent(agent.to_owned())
    }

    pub fn as_str(&self) -> (r: &str)
        ensures
            r@ == self@,
    {
        self.0.as_str()
    }
}

/// A valid group name: not empty, and at most 50 bytes long (`byte_len`).
pub open spec fn group_name_ok(byte_len: int, s: Seq<char>) -> bool {
    s.len() != 0 && byte_len <= 50
}

#[derive(Debug, Clone, PartialEq, Eq)]
pub struct GroupName(String);

impl View for GroupName {
    type V = Seq<char>;

    closed spec fn view(&self) -> Seq<char> {
        self.0@
    }
}

impl GroupName {
    pub fn new(name: &str) -> (r: Result<Self, DomainError>)
        ensures
            group_name_ok(utf8_len(name@) as int, name@) ==> (r matches Ok(g) && g@ == name@),
            !group_name_ok(utf8_len(name@) as int, name@) ==> (r matches Err(DomainError::Internal(m))
                && m@ == "group name must be between 1 and 50 characters"@),
    {
        if name.is_empty() || name.len() > 50 {
            return Err(DomainError::Internal("group name must be between 1 and 50 characters".to_owned()));
        }
        Ok(GroupName(name.to_owned()))
    }

    pub fn as_str(&self) -> (r: &str)
        ensures
            r@ == self@,
    {
        self.0.as_str()
    }
}

// ---------------------------------------------------------------------------
// Time.
// ---------------------------------------------------------------------------

/// Reads the system clock (`std::time::SystemTime::now`) as whole milliseconds since
/// the Unix epoch, zero for a clock set before it. The value depends on the clock, so
/// nothing is claimed of it.
#[verifier::external_body]
fn system_time_millis() -> i64 {
    std::time::SystemTime::now().duration_since(std::time::UNIX_EPOCH).unwrap_or_default().as_millis() as i64
}

/// A point in time, in milliseconds since the Unix epoch.
#[derive(Debug, Clone, Copy, PartialEq, Eq, Structural)]
pub struct Timestamp(pub i64);

impl Timestamp {
    pub fn now() -> (r: Self) {
        Timestamp(system_time_millis())
    }

    pub fn from_millis(millis: i64) -> (r: Self)
        ensures
            r.0 == millis,
    {
        Timestamp(millis)
    }

    pub fn as_millis(&self) -> (r: i64)
        ensures
            r == self.0,
    {
        self.0
    }
}

impl From<i64> for Timestamp {
    fn from(millis: i64) -> (r: Self) {
        Timestamp(millis)
    }
}

impl vstd::std_specs::convert::FromSpecImpl<i64> for Timestamp {
    open spec fn obeys_from_spec() -> bool {
        true
    }

    open spec fn from_spec(millis: i64) -> Timestamp {
        Timestamp(millis)
    }
}

// ---------------------------------------------------------------------------
// Network and byte values.
// ---------------------------------------------------------------------------

/// The octets of an IP address.
#[derive(Debug, Clone, Copy, PartialEq, Eq)]
pub enum IpOctets {
    V4([u8; 4]),
    V6([u8; 16]),
}

#[derive(Debug, Clone, PartialEq, Eq)]
pub struct IpAddress(pub IpOctets);

impl IpAddress {
    pub fn new(ip: IpOctets) -> (r: Self)
        ensures
            r.0 == ip,
    {
        IpAddress(ip)
    }

    pub fn as_ip_addr(&self) -> (r: &IpOctets)
        ensures
            *r == self.0,
    {
        &self.0
    }
}

#[derive(Debug, Clone, PartialEq, Eq)]
pub struct Ciphertext(Vec<u8>);

impl View for Ciphertext {
    type V = Seq<u8>;

    closed spec fn view(&self) -> Seq<u8> {
        self.0@
    }
}

impl Ciphertext {
    pub fn new(data: Vec<u8>) -> (r: Self)
        ensures
            r@ == data@,
    {
        Ciphertext(data)
    }

    pub fn as_bytes(&self) -> (r: &[u8])
        ensures
            r@ == self@,
    {
        self.0.as_slice()
    }
}

#[derive(Debug, Clone, Copy, PartialEq, Eq)]
pub struct Iv([u8; 24]);

impl View for Iv {
    type V = Seq<u8>;

    closed spec fn view(&self) -> Seq<u8> {
        self.0@
    }
}

impl Iv {
    pub fn new(data: [u8; 24]) -> (r: Self)
        ensures
            r@ == data@,
    {
        Iv(data)
    }

    pub fn as_bytes(&self) -> (r: &[u8])
        ensures
            r@ == self@,
    {
        self.0.as_slice()
    }
}

#[derive(Debug, Clone, Copy, PartialEq, Eq)]
pub struct Salt([u8; 32]);

impl View for Salt {
    type V = Seq<u8>;

    closed spec fn view(&self) -> Seq<u8> {
        self.0@
    }
}

impl Salt {
    pub fn new(data: [u8; 32]) -> (r: Self)
        ensures
            r@ == data@,
    {
        Salt(data)
    }

    pub fn as_bytes(&self) -> (r: &[u8])
        ensures
            r@ == self@,
    {
        self.0.as_slice()
    }
}

#[derive(Debug, Clone, Copy, PartialEq, Eq)]
pub struct Signature([u8; 64]);

impl View for Signature {
    type V = Seq<u8>;

    closed spec fn view(&self) -> Seq<u8> {
        self.0@
    }
}

impl Signature {
    pub fn new(data: [u8; 64]) -> (r: Self)
        ensures
            r@ == data@,
    {
        Signature(data)
    }

    pub fn as_bytes(&self) -> (r: &[u8])
        ensures
            r@ == self@,
    {
        self.0.as_slice()
    }
}

/// The identifier a client gives one of its pre-keys.
#[derive(Debug, Clone, Copy, PartialEq, Eq, Hash, Structural)]
pub struct KeyId(pub u32);

impl KeyId {
    pub fn new(id: u32) -> (r: Self)
        ensures
            r.0 == id,
    {
        KeyId(id)
    }

    pub fn as_u32(&self) -> (r: u32)
        ensures
            r == self.0,
    {
        self.0
    }
}

/// An X25519 public key.
#[derive(Debug, Clone, Copy, PartialEq, Eq)]
pub struct X25519PublicKey([u8; 32]);

impl View for X25519PublicKey {
    type V = Seq<u8>;

    closed spec fn view(&self) -> Seq<u8> {
        self.0@
    }
}

impl X25519PublicKey {
    pub fn new(data: [u8; 32]) -> (r: Self)
        ensures
            r@ == data@,
    {
        X25519PublicKey(data)
    }

    pub fn as_bytes(&self) -> (r: &[u8])
        ensures
            r@ == self@,
    {
        self.0.as_slice()
    }
}

} // verus!
