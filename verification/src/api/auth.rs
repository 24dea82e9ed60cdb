//! Authentication: which credentials a route accepts, and which of those a
//! request carries.

use vstd::prelude::*;
use vstd::string::*;

use super::cookie::{decrypt_session_cookie, session_cookie_outcome, CookieError, SessionCipher};
use super::error::{authentication_required_error, invalid_credentials_error, session_expired_error, ApiError};
use crate::database::models::api_key::{key_expired_at, ApiKey};
use crate::database::models::user_session::{session_expired_at, UserSession};
use crate::entity_id::{EntityId, ForApiKey, ForSession};

verus! {

/// The set of authentication methods a route accepts, as bit flags.
#[derive(Debug, Clone, Copy, PartialEq, Eq, Structural)]
pub struct AllowedAuthMethods {
    bits: u32,
}

/// The flag of session-cookie authentication.
pub const SESSION_BIT: u32 = 1;

/// The flag of API-key authentication.
pub const API_KEY_BIT: u32 = 2;

impl AllowedAuthMethods {
    /// The flags that are set.
    pub closed spec fn spec_bits(self) -> u32 {
        self.bits
    }

    /// Authentication by session cookie.
    pub fn session() -> (r: Self)
        ensures
            r.spec_bits() == SESSION_BIT,
    {
        AllowedAuthMethods { bits: SESSION_BIT }
    }

    /// Authentication by API key.
    pub fn api_key() -> (r: Self)
        ensures
            r.spec_bits() == API_KEY_BIT,
    {
        AllowedAuthMethods { bits: API_KEY_BIT }
    }

    /// The flags that are set.
    pub fn bits(&self) -> (b: u32)
        ensures
            b == self.spec_bits(),
    {
        self.bits
    }

    /// Every method that either set accepts.
    pub fn union(self, other: Self) -> (r: Self)
        ensures
            r.spec_bits() == self.spec_bits() | other.spec_bits(),
    {
        AllowedAuthMethods { bits: self.bits | other.bits }
    }

    /// Whether every method of `other` is accepted.
    pub fn contains(&self, other: Self) -> (r: bool)
        ensures
            r == (self.spec_bits() & other.spec_bits() == other.spec_bits()),
    {
        self.bits & other.bits == other.bits
    }
}

/// Whether `methods` accepts session cookies.
pub open spec fn accepts_session(methods: AllowedAuthMethods) -> bool {
    methods.spec_bits() & SESSION_BIT == SESSION_BIT
}

/// Whether `methods` accepts API keys.
pub open spec fn accepts_api_key(methods: AllowedAuthMethods) -> bool {
    methods.spec_bits() & API_KEY_BIT == API_KEY_BIT
}

/// The union of two sets of methods accepts a kind of credentials exactly
/// when one of the two does.
pub proof fn lemma_union_accepts(a: AllowedAuthMethods, b: AllowedAuthMethods, u: AllowedAuthMethods)
    requires
        u.spec_bits() == a.spec_bits() | b.spec_bits(),
    ensures
        accepts_session(u) == (accepts_session(a) || accepts_session(b)),
        accepts_api_key(u) == (accepts_api_key(a) || accepts_api_key(b)),
{
    let x = a.spec_bits();
    let y = b.spec_bits();
    assert(((x | y) & 1u32 == 1u32) == ((x & 1u32 == 1u32) || (y & 1u32 == 1u32))) by (bit_vector);
    assert(((x | y) & 2u32 == 2u32) == ((x & 2u32 == 2u32) || (y & 2u32 == 2u32))) by (bit_vector);
}

/// Session authentication accepts session cookies and no API keys, and the
/// other way round.
pub proof fn lemma_single_methods(s: AllowedAuthMethods, k: AllowedAuthMethods)
    requires
        s.spec_bits() == SESSION_BIT,
        k.spec_bits() == API_KEY_BIT,
    ensures
        accepts_session(s) && !accepts_api_key(s),
        accepts_api_key(k) && !accepts_session(k),
{
    assert(1u32 & 1u32 == 1u32 && 1u32 & 2u32 != 2u32) by (bit_vector);
    assert(2u32 & 2u32 == 2u32 && 2u32 & 1u32 != 1u32) by (bit_vector);
}

/// The prefix of an `Authorization` header that carries an API key.
pub const BEARER_PREFIX: &'static str = "Bearer ";

/// The token of a bearer `Authorization` header: what follows the prefix.
pub open spec fn bearer_token(header: Seq<char>) -> Option<Seq<char>> {
    if header.len() >= 7 && header.subrange(0, 7) == "Bearer "@ {
        Some(header.subrange(7, header.len() as int))
    } else {
        None
    }
}

/// The token of an `Authorization` header, if it is a bearer header.
pub fn strip_bearer(header: &str) -> (r: Option<String>)
    ensures
        r matches Some(t) ==> bearer_token(header@) == Some(t@),
        r is None ==> bearer_token(header@) is None,
{
    proof {
        reveal_strlit("Bearer ");
    }
    let n = header.unicode_len();
    if n < 7 {
        return None;
    }
    let prefix = header.substring_char(0, 7);
    let mut i: usize = 0;
    while i < 7
        invariant
            prefix@ == header@.subrange(0, 7),
            prefix@.len() == 7,
            "Bearer "@.len() == 7,
            i <= 7,
            forall|j: int| 0 <= j < i ==> prefix@[j] == "Bearer "@[j],
        decreases 7 - i,
    {
        if prefix.get_char(i) != BEARER_PREFIX.get_char(i) {
            assert(prefix@[i as int] != "Bearer "@[i as int]);
            return None;
        }
        i = i + 1;
    }
    assert(prefix@ =~= "Bearer "@);
    let rest = header.substring_char(7, n);
    Some(String::from_str(rest))
}

/// What to do with a request, given the methods its route accepts.
#[derive(Debug, Clone, PartialEq, Eq)]
pub enum AuthAttempt {
    /// Check the session named by this cookie value.
    Session(String),
    /// Check this API key.
    ApiKey(String),
    /// Answer that authentication is required.
    Reject,
}

/// The credentials to check: a session cookie when the route accepts one and
/// the request has it; otherwise a bearer API key when the route accepts one
/// and the request has it; otherwise none.
pub open spec fn auth_attempt(
    allowed: AllowedAuthMethods,
    cookie: Option<Seq<char>>,
    authorization: Option<Seq<char>>,
) -> Option<(bool, Seq<char>)> {
    if accepts_session(allowed) && cookie is Some {
        Some((true, cookie->0))
    } else if accepts_api_key(allowed) && authorization is Some && bearer_token(authorization->0) is Some {
        Some((false, bearer_token(authorization->0)->0))
    } else {
        None
    }
}

/// Which credentials of a request to check (see [`auth_attempt`]): `cookie`
/// is the session cookie's value and `authorization` the `Authorization`
/// header, when present.
pub fn choose_auth(allowed: AllowedAuthMethods, cookie: Option<String>, authorization: Option<&str>) -> (r: AuthAttempt)
    ensures
        match auth_attempt(
            allowed,
            match cookie {
                Some(c) => Some(c@),
                None => None,
            },
            match authorization {
                Some(a) => Some(a@),
                None => None,
            },
        ) {
            Some((true, v)) => r matches AuthAttempt::Session(s) && s@ == v,
            Some((false, t)) => r matches AuthAttempt::ApiKey(s) && s@ == t,
            None => r is Reject,
        },
{
    if allowed.contains(AllowedAuthMethods::session()) {
        if let Some(value) = cookie {
            return AuthAttempt::Session(value);
        }
    }
    if allowed.contains(AllowedAuthMethods::api_key()) {
        if let Some(header) = authorization {
            if let Some(token) = strip_bearer(header) {
                return AuthAttempt::ApiKey(token);
            }
        }
    }
    AuthAttempt::Reject
}

/// The answer when no credentials were accepted.
pub fn reject() -> (e: ApiError)
    ensures
        e@ == authentication_required_error(),
{
    ApiError::authentication_required()
}

/// The session a cookie value names, or invalid credentials when it names
/// none under the key.
pub fn session_from_cookie(cipher: &SessionCipher, value: &str) -> (r: Result<EntityId<ForSession>, ApiError>)
    ensures
        r is Ok <==> session_cookie_outcome(cipher.key(), value@) is Ok,
        r matches Ok(id) ==> session_cookie_outcome(cipher.key(), value@) == Ok::<u128, CookieError>(id@),
        r matches Err(e) ==> e@ == invalid_credentials_error(),
{
    match decrypt_session_cookie(cipher, value) {
        Ok(id) => Ok(id),
        Err(_) => Err(ApiError::invalid_credentials()),
    }
}

/// Why a session cookie was not accepted.
#[derive(Debug, Clone, PartialEq, Eq)]
pub enum SessionRejection {
    /// No such session is stored.
    Unknown,
    /// The session has expired; it should be removed.
    Expired(EntityId<ForSession>),
}

impl SessionRejection {
    /// The answer to the request: invalid credentials for an unknown
    /// session, an expired session otherwise.
    pub fn answer(&self) -> (e: ApiError)
        ensures
            self is Unknown ==> e@ == invalid_credentials_error(),
            self is Expired ==> e@ == session_expired_error(),
    {
        match self {
            SessionRejection::Unknown => ApiError::invalid_credentials(),
            SessionRejection::Expired(_) => ApiError::session_expired(),
        }
    }
}

/// Whether the stored session `found` (if any) lets a request in at time
/// `now`: it must exist and not have expired.
pub fn verify_session(found: Option<UserSession>, now: i64) -> (r: Result<UserSession, SessionRejection>)
    ensures
        found is None ==> r == Err::<UserSession, SessionRejection>(SessionRejection::Unknown),
        found matches Some(s) ==> if session_expired_at(s.expires_at, now) {
            r matches Err(SessionRejection::Expired(id)) && id@ == s.id@
        } else {
            r == Ok::<UserSession, SessionRejection>(s)
        },
{
    match found {
        None => Err(SessionRejection::Unknown),
        Some(s) => if s.is_expired_at(now) {
            Err(SessionRejection::Expired(s.id))
        } else {
            Ok(s)
        },
    }
}

/// The key that the stored key `found` (if any) names for a request at
/// time `now`: it must exist and not have expired, else the credentials are
/// invalid.
pub fn verify_api_key(found: Option<ApiKey>, now: i64) -> (r: Result<EntityId<ForApiKey>, ApiError>)
    ensures
        r is Ok <==> (found matches Some(k) && !key_expired_at(k.expires_at, now)),
        r matches Ok(id) ==> found matches Some(k) && id@ == k.id@,
        r matches Err(e) ==> e@ == invalid_credentials_error(),
{
    match found {
        Some(k) => if k.is_expired_at(now) {
            Err(ApiError::invalid_credentials())
        } else {
            Ok(k.id)
        },
        None => Err(ApiError::invalid_credentials()),
    }
}

/// The credentials of a login or setup request.
#[derive(Debug, Clone, PartialEq, Eq)]
pub struct LoginPayload {
    pub username: String,
    pub password: String,
}

/// Whether the caller is signed in, and whether setup is still to be done.
#[derive(Debug, Clone, Copy, PartialEq, Eq)]
pub struct CheckResponse {
    pub authenticated: bool,
    pub setup_required: bool,
}

impl CheckResponse {
    /// The answer to a check: with no users, setup is required and nobody is
    /// signed in; otherwise the caller is signed in exactly when its session
    /// was verified.
    pub fn new(user_count: i64, session_verified: bool) -> (r: Self)
        ensures
            user_count == 0 ==> !r.authenticated && r.setup_required,
            user_count != 0 ==> r.authenticated == session_verified && !r.setup_required,
    {
        if user_count == 0 {
            CheckResponse { authenticated: false, setup_required: true }
        } else {
            CheckResponse { authenticated: session_verified, setup_required: false }
        }
    }
}

} // verus!
