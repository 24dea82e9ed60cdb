//! The session secret that cookies are sealed with, from its file or from
//! the legacy environment variable.

use base64::Engine;
use vstd::prelude::*;

use crate::database::models::api_key::random_key_bytes;

verus! {

/// The database file when the environment names none.
pub const DEFAULT_DATABASE_PATH: &'static str = "reso.db";

/// The metrics database file when the environment names none.
pub const DEFAULT_METRICS_DATABASE_PATH: &'static str = "reso_metrics.db";

/// The session secret file when the environment names none.
pub const DEFAULT_SESSION_SECRET_PATH: &'static str = "reso_session.key";

/// The length of the session secret, in bytes.
pub const SESSION_SECRET_LEN: usize = 32;

/// The bytes that standard padded base64 `text` stands for, or nothing when
/// it is not such base64.
pub uninterp spec fn base64_standard_decode(text: Seq<char>) -> Option<Seq<u8>>;

/// `base64::engine::general_purpose::STANDARD.decode(text)`.
#[verifier::external_body]
fn base64_standard_decode_text(text: &str) -> (r: Option<Vec<u8>>)
    ensures
        r is Some <==> base64_standard_decode(text@) is Some,
        r matches Some(b) ==> base64_standard_decode(text@) == Some(b@),
{
    base64::engine::general_purpose::STANDARD.decode(text).ok()
}

/// Why a session secret was refused.
#[derive(Debug, Clone, Copy, PartialEq, Eq)]
pub enum SecretError {
    /// The legacy variable is not standard base64.
    InvalidBase64,
    /// The secret has this many bytes instead of 32.
    WrongLength(usize),
}

/// The secret held by the legacy `RESO_COOKIE_SECRET` value `encoded`: its
/// base64 must decode to exactly 32 bytes.
pub fn decode_legacy_cookie_secret(encoded: &str) -> (r: Result<Vec<u8>, SecretError>)
    ensures
        base64_standard_decode(encoded@) is None ==> r == Err::<Vec<u8>, SecretError>(SecretError::InvalidBase64),
        base64_standard_decode(encoded@) matches Some(b) ==> if b.len() == SESSION_SECRET_LEN {
            r is Ok && r->Ok_0@ == b
        } else {
            r == Err::<Vec<u8>, SecretError>(SecretError::WrongLength(b.len() as usize))
        },
{
    match base64_standard_decode_text(encoded) {
        None => Err(SecretError::InvalidBase64),
        Some(bytes) => session_secret_from_bytes(bytes),
    }
}

/// The secret read from its file: exactly 32 bytes.
pub fn session_secret_from_bytes(bytes: Vec<u8>) -> (r: Result<Vec<u8>, SecretError>)
    ensures
        bytes@.len() == SESSION_SECRET_LEN ==> r is Ok && r->Ok_0@ == bytes@,
        bytes@.len() != SESSION_SECRET_LEN ==> r == Err::<Vec<u8>, SecretError>(SecretError::WrongLength(bytes@.len() as usize)),
{
    let n = bytes.len();
    if n == SESSION_SECRET_LEN {
        Ok(bytes)
    } else {
        Err(SecretError::WrongLength(n))
    }
}

/// A new random secret of 32 bytes, for when there is no secret file yet.
pub fn new_session_secret() -> (secret: Vec<u8>)
    ensures
        secret@.len() == SESSION_SECRET_LEN,
{
    random_key_bytes()
}

} // verus!
