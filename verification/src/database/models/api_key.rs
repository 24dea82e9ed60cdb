//! API keys for scripting against the HTTP API.

use rand::RngCore;
use sha2::Digest;
use vstd::prelude::*;
use vstd::string::*;
use vstd::utf8::*;

use crate::clock::now_millis;
use crate::entity_id::{is_v7_uuid, EntityId, ForApiKey, ForUser};
use crate::text::{hex_lower, to_hex_lower};

verus! {

/// The SHA-256 digest of `data`, as computed by the `sha2` crate.
pub uninterp spec fn sha256_spec(data: Seq<u8>) -> Seq<u8>;

/// `sha2::Sha256::digest`: the 32-byte SHA-256 digest of `data`.
#[verifier::external_body]
fn sha256_digest(data: &[u8]) -> (digest: Vec<u8>)
    ensures
        digest@ == sha256_spec(data@),
        digest@.len() == 32,
{
    sha2::Sha256::digest(data).to_vec()
}

/// 32 bytes from the thread-local random generator (`rand::rng().fill_bytes`).
///
/// Nothing is stated of the bytes beyond their number.
#[verifier::external_body]
pub(crate) fn random_key_bytes() -> (bytes: Vec<u8>)
    ensures
        bytes@.len() == 32,
{
    let mut bytes = [0u8; 32];
    rand::rng().fill_bytes(&mut bytes);
    bytes.to_vec()
}

/// The prefix of every API key token.
pub const API_KEY_PREFIX: &'static str = "reso_";

/// The token made from `bytes`: the prefix followed by their lowercase hex.
pub open spec fn token_text(bytes: Seq<u8>) -> Seq<char> {
    "reso_"@ + hex_lower(bytes)
}

/// The stored hash of a token: the lowercase hex of the SHA-256 digest of its
/// UTF-8 bytes.
pub open spec fn token_hash(token: Seq<char>) -> Seq<char> {
    hex_lower(sha256_spec(encode_utf8(token)))
}

/// The token for the given random bytes.
pub fn token_from_bytes(bytes: &[u8]) -> (token: String)
    ensures
        token@ == token_text(bytes@),
{
    let mut token = String::new();
    token.append(API_KEY_PREFIX);
    let hex = to_hex_lower(bytes);
    token.append(hex.as_str());
    proof {
        assert(token@ =~= token_text(bytes@));
    }
    token
}

/// A new random token: the prefix followed by 64 lowercase hex digits.
fn generate_token() -> (token: String)
    ensures
        exists|bytes: Seq<u8>| bytes.len() == 32 && token@ == token_text(bytes),
{
    let bytes = random_key_bytes();
    token_from_bytes(bytes.as_slice())
}

/// An API key. Only the hash of its token is kept.
#[derive(Debug, Clone, PartialEq, Eq)]
pub struct ApiKey {
    pub id: EntityId<ForApiKey>,
    pub display_name: String,
    pub user_id: EntityId<ForUser>,
    pub key_hash: String,
    pub created_at: i64,
    pub expires_at: Option<i64>,
}

/// Whether a key with the given expiry has expired at time `now`.
pub open spec fn key_expired_at(expires_at: Option<i64>, now: i64) -> bool {
    match expires_at {
        Some(t) => now >= t,
        None => false,
    }
}

impl ApiKey {
    /// The hash stored for `token`.
    pub fn hash_token(token: &str) -> (h: String)
        ensures
            h@ == token_hash(token@),
            h@.len() == 64,
    {
        let digest = sha256_digest(token.as_bytes());
        to_hex_lower(digest.as_slice())
    }

    /// A new API key owned by `user_id`, and its token. The token itself is
    /// not kept: only its hash is, so the token is never returned again.
    pub fn new(display_name: String, user_id: EntityId<ForUser>, expires_at: Option<i64>) -> (r: (
        Self,
        String,
    ))
        ensures
            r.0.display_name@ == display_name@,
            r.0.user_id@ == user_id@,
            r.0.expires_at == expires_at,
            r.0.created_at >= 0,
            r.0.key_hash@ == token_hash(r.1@),
            exists|bytes: Seq<u8>| bytes.len() == 32 && r.1@ == token_text(bytes),
            is_v7_uuid(r.0.id@),
    {
        Self::new_at(display_name, user_id, expires_at, now_millis())
    }

    /// A new API key owned by `user_id`, created at time `now`, and its
    /// token (see [`ApiKey::new`]).
    pub fn new_at(display_name: String, user_id: EntityId<ForUser>, expires_at: Option<i64>, now: i64) -> (r: (
        Self,
        String,
    ))
        ensures
            r.0.display_name@ == display_name@,
            r.0.user_id@ == user_id@,
            r.0.expires_at == expires_at,
            r.0.created_at == now,
            r.0.key_hash@ == token_hash(r.1@),
            exists|bytes: Seq<u8>| bytes.len() == 32 && r.1@ == token_text(bytes),
            is_v7_uuid(r.0.id@),
    {
        let token = generate_token();
        let key_hash = Self::hash_token(token.as_str());
        let key = Self {
            id: EntityId::new(),
            display_name,
            user_id,
            key_hash,
            created_at: now,
            expires_at,
        };
        (key, token)
    }

    /// Whether the key has expired at time `now`: a key without an expiry never does.
    pub fn is_expired_at(&self, now: i64) -> (r: bool)
        ensures
            r == key_expired_at(self.expires_at, now),
    {
        match self.expires_at {
            Some(t) => now >= t,
            None => false,
        }
    }

    /// Whether the key has expired by the current clock: the answer of
    /// [`ApiKey::is_expired_at`] for the time the clock read.
    pub fn is_expired(&self) -> (r: bool)
        ensures
            exists|now: i64| now >= 0 && r == #[trigger] key_expired_at(self.expires_at, now),
            self.expires_at is None ==> !r,
    {
        let now = now_millis();
        let r = self.is_expired_at(now);
        assert(r == key_expired_at(self.expires_at, now));
        r
    }
}

/// Once a key has expired it stays expired.
pub proof fn lemma_key_expiry_monotone(expires_at: Option<i64>, t1: i64, t2: i64)
    requires
        t1 <= t2,
        key_expired_at(expires_at, t1),
    ensures
        key_expired_at(expires_at, t2),
{
}

} // verus!
