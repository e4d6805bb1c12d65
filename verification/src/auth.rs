//! Identities, credential parsing, and access-control decisions.
//!
//! Every request is resolved to an [`AuthUser`]:
//! - no credentials: anonymous;
//! - `Authorization: Bearer <token>`: the user that owns the token;
//! - `Authorization: Basic <base64(user:pass)>`: the named user, if the
//!   password matches its bcrypt hash (an empty user name makes the password
//!   a token);
//! - `?auth=<base64(header)>`: as the header it decodes to.
//!
//! The user database itself is outside this library: the functions here say
//! what to look up, and what to conclude from what was found.

use vstd::prelude::*;
use vstd::utf8::{decode_utf8, encode_utf8, encode_utf8_decode_utf8, is_char_boundary, valid_utf8};
use crate::config::{Config, DefaultAccess};
use crate::error::AppError;
use crate::text::{
    split, split_once, split_once_spec, split_spec, starts_with, starts_with_spec, str_eq,
    str_get_from, string_from_utf8, strip_prefix, strip_prefix_spec, to_lowercase, to_owned_string,
    trim, trim_spec, unicode_lowercase,
};
use base64::Engine;

verus! {

// ── domain types ─────────────────────────────────────────────────────────────

/// The role of a registered user.
#[derive(Debug, Clone, Copy, PartialEq, Eq, Structural)]
pub enum Role {
    Admin,
    User,
}

/// The name under which a role is stored.
pub open spec fn role_name(r: Role) -> Seq<char> {
    match r {
        Role::Admin => "admin"@,
        Role::User => "user"@,
    }
}

/// The role stored under `s`: "admin" is the administrator, anything else a user.
pub open spec fn role_from_name(s: Seq<char>) -> Role {
    if s == "admin"@ {
        Role::Admin
    } else {
        Role::User
    }
}

impl Role {
    /// The name under which this role is stored.
    pub fn as_str(&self) -> (s: &'static str)
        ensures
            s@ == role_name(*self),
    {
        match self {
            Role::Admin => "admin",
            Role::User => "user",
        }
    }

    /// The role stored under `s`.
    pub fn from_str(s: &str) -> (r: Self)
        ensures
            r == role_from_name(s@),
    {
        if str_eq(s, "admin") {
            Role::Admin
        } else {
            Role::User
        }
    }

    /// Whether this is the administrator role.
    pub fn is_admin(&self) -> (b: bool)
        ensures
            b == (*self == Role::Admin),
    {
        *self == Role::Admin
    }
}

/// Storing a role and reading it back gives the same role.
pub proof fn lemma_role_name_round_trip(r: Role)
    ensures
        role_from_name(role_name(r)) == r,
{
    reveal_strlit("admin");
    reveal_strlit("user");
    if r == Role::User {
        assert("user"@[0] != "admin"@[0]);
    }
}

/// What a request wants to do with a topic.
#[derive(Debug, Clone, Copy, PartialEq, Eq, Structural)]
pub enum Permission {
    Read,
    Write,
}

/// A user row of the user database.
#[derive(Debug, Clone)]
pub struct User {
    pub id: String,
    pub username: String,
    pub hash: String,
    pub role: Role,
}

/// A client address.
#[derive(Debug, Clone, Copy, PartialEq, Eq)]
pub enum IpAddress {
    V4([u8; 4]),
    V6([u16; 8]),
}

/// The resolved identity attached to every request; anonymous when no valid
/// credentials were supplied.
#[derive(Debug, Clone)]
pub struct AuthUser {
    pub user: Option<User>,
    pub ip: IpAddress,
}

impl AuthUser {
    /// A caller without credentials.
    pub fn anonymous(ip: IpAddress) -> (a: Self)
        ensures
            a.user is None,
            a.ip == ip,
    {
        AuthUser { user: None, ip }
    }

    /// A caller identified as `user`.
    pub fn authenticated(user: User, ip: IpAddress) -> (a: Self)
        ensures
            a.user == Some(user),
            a.ip == ip,
    {
        AuthUser { user: Some(user), ip }
    }

    /// The caller is a user with the administrator role.
    pub open spec fn spec_is_admin(self) -> bool {
        self.user matches Some(u) && u.role == Role::Admin
    }

    /// Whether the caller is a user with the administrator role.
    pub fn is_admin(&self) -> (b: bool)
        ensures
            b == self.spec_is_admin(),
    {
        match &self.user {
            Some(u) => u.role.is_admin(),
            None => false,
        }
    }

    /// The id of the caller's user, if any.
    pub fn user_id(&self) -> (r: Option<&str>)
        ensures
            match self.user {
                Some(u) => r matches Some(id) && id@ == u.id@,
                None => r is None,
            },
    {
        match &self.user {
            Some(u) => Some(u.id.as_str()),
            None => None,
        }
    }
}

// ── credentials ──────────────────────────────────────────────────────────────

/// What an `Authorization` value claims.
#[derive(Debug, Clone)]
pub enum Credentials {
    /// An access token.
    Token(String),
    /// A user name and a password.
    Basic { username: String, password: String },
}

/// The characters of [`Credentials`].
pub enum CredentialsView {
    Token(Seq<char>),
    Basic(Seq<char>, Seq<char>),
}

impl View for Credentials {
    type V = CredentialsView;

    open spec fn view(&self) -> CredentialsView {
        match self {
            Credentials::Token(t) => CredentialsView::Token(t@),
            Credentials::Basic { username, password } => CredentialsView::Basic(
                username@,
                password@,
            ),
        }
    }
}

/// The bytes that the standard base64 alphabet, with padding, decodes `input`
/// to, or `None` where it is not such an encoding; as `base64`'s
/// `general_purpose::STANDARD` engine decodes.
pub uninterp spec fn base64_standard_decode(input: Seq<char>) -> Option<Seq<u8>>;

/// `base64`'s `Engine::decode` on the `STANDARD` engine; the error is mapped
/// to `None`. What it decodes is left unstated and named `base64_standard_decode`.
#[verifier::external_body]
fn base64_decode(input: &str) -> (r: Option<Vec<u8>>)
    ensures
        match r {
            Some(b) => base64_standard_decode(input@) == Some(b@),
            None => base64_standard_decode(input@) is None,
        },
{
    base64::engine::general_purpose::STANDARD.decode(input).ok()
}

/// Whether `password` matches the bcrypt `hash` (`false` also where the hash
/// is malformed), as `bcrypt::verify` decides.
pub uninterp spec fn bcrypt_accepts(password: Seq<char>, hash: Seq<char>) -> bool;

/// `bcrypt::verify`, with an error (a malformed hash) read as `false`. Its
/// answer is left unstated and named `bcrypt_accepts`.
#[verifier::external_body]
fn bcrypt_verify(password: &str, hash: &str) -> (ok: bool)
    ensures
        ok == bcrypt_accepts(password@, hash@),
{
    bcrypt::verify(password, hash).unwrap_or(false)
}

/// The text that base64 `encoded` stands for, when it decodes to UTF-8.
pub open spec fn decoded_text(encoded: Seq<char>) -> Option<Seq<char>> {
    match base64_standard_decode(encoded) {
        Some(bytes) => if valid_utf8(bytes) {
            Some(decode_utf8(bytes))
        } else {
            None
        },
        None => None,
    }
}

/// The credentials of a `Basic` header: the text from byte 6 on, trimmed and
/// base64-decoded, split at its first `:` into user name and password; an
/// empty user name makes the password a token.
pub open spec fn basic_credentials_spec(header: Seq<char>) -> Option<CredentialsView> {
    let bytes = encode_utf8(header);
    if !is_char_boundary(bytes, 6) {
        None
    } else {
        let encoded = trim_spec(decode_utf8(bytes.subrange(6, bytes.len() as int)));
        match decoded_text(encoded) {
            Some(text) => match split_once_spec(text, ':') {
                Some((user, pass)) => if user.len() == 0 {
                    Some(CredentialsView::Token(pass))
                } else {
                    Some(CredentialsView::Basic(user, pass))
                },
                None => None,
            },
            None => None,
        }
    }
}

/// The credentials an `Authorization` value carries: `Bearer <token>` (the
/// token trimmed), or a value whose lowercase form starts with `basic `.
pub open spec fn credentials_spec(header: Seq<char>) -> Option<CredentialsView> {
    match strip_prefix_spec(header, "Bearer "@) {
        Some(rest) => Some(CredentialsView::Token(trim_spec(rest))),
        None => if starts_with_spec(unicode_lowercase(header), "basic "@) {
            basic_credentials_spec(header)
        } else {
            None
        },
    }
}

/// Parse the credentials of an `Authorization` value; `Unauthorized` where it
/// carries none that can be checked.
pub fn parse_credentials(header: &str) -> (r: Result<Credentials, AppError>)
    ensures
        r is Ok <==> credentials_spec(header@) is Some,
        r matches Ok(c) ==> credentials_spec(header@) == Some(c@),
        r matches Err(e) ==> e == AppError::Unauthorized,
{
    if let Some(rest) = strip_prefix(header, "Bearer ") {
        return Ok(Credentials::Token(trim(rest.as_str())));
    }
    let lower = to_lowercase(header);
    if !starts_with(lower.as_str(), "basic ") {
        return Err(AppError::Unauthorized);
    }
    parse_basic(header)
}

/// The credentials of a value known to start with `basic ` in any case.
fn parse_basic(header: &str) -> (r: Result<Credentials, AppError>)
    ensures
        r is Ok <==> basic_credentials_spec(header@) is Some,
        r matches Ok(c) ==> basic_credentials_spec(header@) == Some(c@),
        r matches Err(e) ==> e == AppError::Unauthorized,
{
    let rest = match str_get_from(header, 6) {
        Some(t) => t,
        None => return Err(AppError::Unauthorized),
    };
    proof {
        encode_utf8_decode_utf8(rest@);
    }
    let encoded = trim(rest);
    let bytes = match base64_decode(encoded.as_str()) {
        Some(b) => b,
        None => return Err(AppError::Unauthorized),
    };
    let text = match string_from_utf8(bytes) {
        Some(s) => s,
        None => return Err(AppError::Unauthorized),
    };
    match split_once(text.as_str(), ':') {
        Some((username, password)) => {
            if username.as_str().is_empty() {
                Ok(Credentials::Token(password))
            } else {
                Ok(Credentials::Basic { username, password })
            }
        },
        None => Err(AppError::Unauthorized),
    }
}

// ── reading the credentials of a request ───────────────────────────────────

/// The trimmed header text, if it is not blank.
pub open spec fn nonblank_trimmed(h: Seq<char>) -> Option<Seq<char>> {
    if trim_spec(h).len() > 0 {
        Some(trim_spec(h))
    } else {
        None
    }
}

/// The value of the first `auth=` query pair that base64-decodes to UTF-8
/// text, trimmed.
pub open spec fn auth_from_query_pairs(pairs: Seq<Seq<char>>) -> Option<Seq<char>>
    decreases pairs.len(),
{
    if pairs.len() == 0 {
        None
    } else {
        match strip_prefix_spec(pairs[0], "auth="@) {
            Some(val) => match decoded_text(val) {
                Some(s) => Some(trim_spec(s)),
                None => auth_from_query_pairs(pairs.drop_first()),
            },
            None => auth_from_query_pairs(pairs.drop_first()),
        }
    }
}

/// The `Authorization` value of a request: the header, trimmed, when it is
/// readable text and not blank; otherwise what the `auth=` query parameter
/// carries (for WebSocket clients that cannot set headers).
pub open spec fn auth_value_spec(header: Option<Seq<char>>, query: Option<Seq<char>>) -> Option<
    Seq<char>,
> {
    let from_header = match header {
        Some(h) => nonblank_trimmed(h),
        None => None,
    };
    match from_header {
        Some(v) => Some(v),
        None => match query {
            Some(q) => auth_from_query_pairs(split_spec(q, '&')),
            None => None,
        },
    }
}

/// The `Authorization` value of a request, given its `Authorization` header
/// (`None` where absent or not readable text) and its query string.
pub fn auth_value(header: Option<&str>, query: Option<&str>) -> (r: Option<String>)
    ensures
        match r {
            Some(s) => auth_value_spec(opt_str_view(header), opt_str_view(query)) == Some(s@),
            None => auth_value_spec(opt_str_view(header), opt_str_view(query)) is None,
        },
{
    if let Some(h) = header {
        let t = trim(h);
        if !t.as_str().is_empty() {
            return Some(t);
        }
    }
    let q = match query {
        Some(q) => q,
        None => return None,
    };
    let pairs = split(q, '&');
    let ghost all = split_spec(q@, '&');
    let mut i: usize = 0;
    proof {
        assert(all.skip(0) =~= all);
    }
    while i < pairs.len()
        invariant
            crate::text::string_views(pairs@) == all,
            i <= pairs.len(),
            auth_from_query_pairs(all) == auth_from_query_pairs(all.skip(i as int)),
            auth_value_spec(opt_str_view(header), opt_str_view(query)) == auth_from_query_pairs(
                all,
            ),
        decreases pairs.len() - i,
    {
        assert(all[i as int] == pairs@[i as int]@);
        assert(all.skip(i as int).drop_first() =~= all.skip(i + 1));
        if let Some(val) = strip_prefix(pairs[i].as_str(), "auth=") {
            if let Some(bytes) = base64_decode(val.as_str()) {
                if let Some(s) = string_from_utf8(bytes) {
                    assert(decoded_text(val@) == Some(s@));
                    return Some(trim(s.as_str()));
                }
            }
        }
        i = i + 1;
    }
    assert(all.skip(i as int) =~= Seq::<Seq<char>>::empty());
    None
}

/// The characters of an optional string slice.
pub open spec fn opt_str_view(o: Option<&str>) -> Option<Seq<char>> {
    match o {
        Some(s) => Some(s@),
        None => None,
    }
}

/// The client address that an `X-Forwarded-For` header names: its first
/// comma-separated entry, trimmed.
pub open spec fn forwarded_client_spec(xff: Seq<char>) -> Seq<char> {
    trim_spec(split_spec(xff, ',')[0])
}

/// The text of the client address that an `X-Forwarded-For` value names.
pub fn forwarded_client(xff: &str) -> (r: String)
    ensures
        r@ == forwarded_client_spec(xff@),
{
    let parts = split(xff, ',');
    proof {
        crate::text::lemma_split_nonempty(xff@, ',');
        assert(parts@[0]@ == split_spec(xff@, ',')[0]);
    }
    trim(parts[0].as_str())
}

// ── authentication ──────────────────────────────────────────────────────────

/// The first step of resolving a request's identity.
#[derive(Debug, Clone)]
pub enum AuthStart {
    /// The caller is anonymous; nothing need be looked up.
    Anonymous,
    /// Look up the user these credentials name (by token, or by user name).
    Lookup(Credentials),
}

/// Decide, from whether auth is enabled and the request's `Authorization`
/// value, whether the caller is anonymous or which user to look up.
pub fn begin_authentication(auth_enabled: bool, value: Option<&str>) -> (r: AuthStart)
    ensures
        !auth_enabled ==> r is Anonymous,
        auth_enabled && value is None ==> r is Anonymous,
        auth_enabled && value is Some ==> match (r, credentials_spec(value->0@)) {
            (AuthStart::Anonymous, None) => true,
            (AuthStart::Lookup(c), Some(v)) => c@ == v,
            _ => false,
        },
{
    if !auth_enabled {
        return AuthStart::Anonymous;
    }
    match value {
        None => AuthStart::Anonymous,
        Some(h) => match parse_credentials(h) {
            Ok(c) => AuthStart::Lookup(c),
            Err(_) => AuthStart::Anonymous,
        },
    }
}

/// The caller is the found user: for a token, whenever one was found; for a
/// user name, when the password matches the user's hash.
pub open spec fn authenticates(credentials: CredentialsView, found: Option<User>) -> bool {
    match found {
        None => false,
        Some(u) => match credentials {
            CredentialsView::Token(_) => true,
            CredentialsView::Basic(_, password) => bcrypt_accepts(password, u.hash@),
        },
    }
}

/// Conclude the caller's identity from the user that the lookup found
/// (`None` when there is none or the lookup failed).
pub fn finish_authentication(credentials: &Credentials, found: Option<User>, ip: IpAddress) -> (a:
    AuthUser)
    ensures
        a.ip == ip,
        authenticates(credentials@, found) ==> a.user == found,
        !authenticates(credentials@, found) ==> a.user is None,
{
    match found {
        None => AuthUser::anonymous(ip),
        Some(user) => match credentials {
            Credentials::Token(_) => AuthUser::authenticated(user, ip),
            Credentials::Basic { username: _, password } => {
                if bcrypt_verify(password.as_str(), user.hash.as_str()) {
                    AuthUser::authenticated(user, ip)
                } else {
                    AuthUser::anonymous(ip)
                }
            },
        },
    }
}

// ── access control ──────────────────────────────────────────────────────────

/// What an anonymous caller may do under `access`.
pub open spec fn anonymous_may(access: DefaultAccess, perm: Permission) -> bool {
    match access {
        DefaultAccess::ReadWrite => true,
        DefaultAccess::ReadOnly => perm == Permission::Read,
        DefaultAccess::DenyAll => false,
    }
}

/// The outcome of an access check.
#[derive(Debug, Clone)]
pub enum AccessCheck {
    /// The request may go ahead.
    Allowed,
    /// The request is refused with this error.
    Denied(AppError),
    /// The topic ACL of this user id and topic decides.
    LookupAcl { user_id: String, topic: String },
}

/// The characters of [`AccessCheck`].
pub enum AccessCheckView {
    Allowed,
    Denied(AppError),
    LookupAcl(Seq<char>, Seq<char>),
}

impl View for AccessCheck {
    type V = AccessCheckView;

    open spec fn view(&self) -> AccessCheckView {
        match self {
            AccessCheck::Allowed => AccessCheckView::Allowed,
            AccessCheck::Denied(e) => AccessCheckView::Denied(*e),
            AccessCheck::LookupAcl { user_id, topic } => AccessCheckView::LookupAcl(
                user_id@,
                topic@,
            ),
        }
    }
}

/// Whether a caller may perform `perm` on `topic`, in order: auth disabled,
/// allowed; an administrator, allowed; another user, as the topic ACL says;
/// anonymous, as `default_access` says (refused as `Unauthorized`).
pub open spec fn access_check_spec(
    auth_enabled: bool,
    access: DefaultAccess,
    user: Option<User>,
    topic: Seq<char>,
    perm: Permission,
) -> AccessCheckView {
    if !auth_enabled {
        AccessCheckView::Allowed
    } else {
        match user {
            Some(u) => if u.role == Role::Admin {
                AccessCheckView::Allowed
            } else {
                AccessCheckView::LookupAcl(u.id@, topic)
            },
            None => if anonymous_may(access, perm) {
                AccessCheckView::Allowed
            } else {
                AccessCheckView::Denied(AppError::Unauthorized)
            },
        }
    }
}

/// Check whether `auth_user` may perform `perm` on `topic`.
pub fn authorize(config: &Config, auth_user: &AuthUser, topic: &str, perm: Permission) -> (r:
    AccessCheck)
    ensures
        r@ == access_check_spec(
            config.auth_enabled,
            config.default_access,
            auth_user.user,
            topic@,
            perm,
        ),
{
    if !config.auth_enabled {
        return AccessCheck::Allowed;
    }
    if auth_user.is_admin() {
        return AccessCheck::Allowed;
    }
    if let Some(user_id) = auth_user.user_id() {
        return AccessCheck::LookupAcl {
            user_id: to_owned_string(user_id),
            topic: to_owned_string(topic),
        };
    }
    let allowed = match config.default_access {
        DefaultAccess::ReadWrite => true,
        DefaultAccess::ReadOnly => perm == Permission::Read,
        DefaultAccess::DenyAll => false,
    };
    if allowed {
        AccessCheck::Allowed
    } else {
        AccessCheck::Denied(AppError::Unauthorized)
    }
}

/// What the topic ACL lookup gave.
#[derive(Debug, Clone, Copy, PartialEq, Eq)]
pub enum AclLookup {
    /// No database connection could be had.
    NoConnection,
    /// The query failed.
    QueryFailed,
    /// The ACL allows (`true`) or does not allow (`false`) the request.
    Answer(bool),
}

/// The verdict of a topic ACL lookup: allowed when the ACL says so,
/// `Forbidden` when it says no, `Unauthorized` without a connection and
/// `Internal` when the query failed.
pub fn acl_verdict(lookup: AclLookup) -> (r: Result<(), AppError>)
    ensures
        lookup == AclLookup::Answer(true) ==> r is Ok,
        lookup == AclLookup::Answer(false) ==> r == Err::<(), AppError>(AppError::Forbidden),
        lookup == AclLookup::NoConnection ==> r == Err::<(), AppError>(AppError::Unauthorized),
        lookup == AclLookup::QueryFailed ==> (r matches Err(AppError::Internal(m)) && m@
            == "acl check failed"@),
{
    match lookup {
        AclLookup::NoConnection => Err(AppError::Unauthorized),
        AclLookup::QueryFailed => Err(AppError::Internal(to_owned_string("acl check failed"))),
        AclLookup::Answer(true) => Ok(()),
        AclLookup::Answer(false) => Err(AppError::Forbidden),
    }
}

/// Whoever may write to a topic may also read it, and a request that the
/// topic ACL decides is decided by the ACL for reading and writing alike.
pub proof fn lemma_write_access_implies_read(
    auth_enabled: bool,
    access: DefaultAccess,
    user: Option<User>,
    topic: Seq<char>,
)
    ensures
        access_check_spec(auth_enabled, access, user, topic, Permission::Write) is Allowed
            ==> access_check_spec(auth_enabled, access, user, topic, Permission::Read) is Allowed,
        access_check_spec(auth_enabled, access, user, topic, Permission::Write) is LookupAcl
            <==> access_check_spec(auth_enabled, access, user, topic, Permission::Read) is LookupAcl,
{
}

/// With auth enabled, a signed-in user who is not an administrator is always
/// decided by the topic ACL for that user and topic, whatever the default
/// access is and whatever is asked; the default access only decides for
/// callers without a user.
pub proof fn lemma_users_are_decided_by_the_acl(
    access: DefaultAccess,
    other_access: DefaultAccess,
    user: User,
    topic: Seq<char>,
    perm: Permission,
)
    requires
        user.role != Role::Admin,
    ensures
        access_check_spec(true, access, Some(user), topic, perm) == AccessCheckView::LookupAcl(
            user.id@,
            topic,
        ),
        access_check_spec(true, access, Some(user), topic, perm) == access_check_spec(
            true,
            other_access,
            Some(user),
            topic,
            perm,
        ),
{
}

/// With auth disabled every request is allowed, and with auth enabled an
/// administrator is allowed everything.
pub proof fn lemma_disabled_or_admin_is_allowed(
    access: DefaultAccess,
    user: Option<User>,
    topic: Seq<char>,
    perm: Permission,
)
    ensures
        access_check_spec(false, access, user, topic, perm) == AccessCheckView::Allowed,
        (user matches Some(u) && u.role == Role::Admin) ==> access_check_spec(
            true,
            access,
            user,
            topic,
            perm,
        ) == AccessCheckView::Allowed,
{
}

/// With auth enabled, an anonymous caller may read under read-write and
/// read-only access, may write only under read-write access, may do nothing
/// under deny-all, and is refused as `Unauthorized`.
pub proof fn lemma_anonymous_access(topic: Seq<char>)
    ensures
        access_check_spec(true, DefaultAccess::ReadWrite, None, topic, Permission::Read)
            == AccessCheckView::Allowed,
        access_check_spec(true, DefaultAccess::ReadWrite, None, topic, Permission::Write)
            == AccessCheckView::Allowed,
        access_check_spec(true, DefaultAccess::ReadOnly, None, topic, Permission::Read)
            == AccessCheckView::Allowed,
        access_check_spec(true, DefaultAccess::ReadOnly, None, topic, Permission::Write)
            == AccessCheckView::Denied(AppError::Unauthorized),
        access_check_spec(true, DefaultAccess::DenyAll, None, topic, Permission::Read)
            == AccessCheckView::Denied(AppError::Unauthorized),
        access_check_spec(true, DefaultAccess::DenyAll, None, topic, Permission::Write)
            == AccessCheckView::Denied(AppError::Unauthorized),
{
}

} // verus!
