//! The session cookie: a session identifier sealed with AES-256-GCM under a
//! fresh random nonce, the nonce and ciphertext together in URL-safe base64.

use aes_gcm::aead::rand_core::RngCore;
use aes_gcm::aead::{Aead, KeyInit};
use base64::Engine;
use vstd::prelude::*;

use crate::entity_id::{be_bytes, lemma_be_bytes_injective, uuid_from_slice, uuid_bytes, EntityId, ForSession};

verus! {

/// Name of the session cookie.
pub const SESSION_COOKIE_KEY: &'static str = "RESO_SESSION";

/// Length of an AES-GCM nonce, in bytes.
pub const NONCE_LEN: usize = 12;

/// Length of an AES-GCM authentication tag, in bytes.
pub const TAG_LEN: usize = 16;

/// Length of an AES-256 key, in bytes.
pub const KEY_LEN: usize = 32;

/// The longest plaintext AES-GCM seals (2^36 bytes).
pub const MAX_PLAINTEXT_LEN: u64 = 68719476736;

/// The ciphertext (with its tag appended) that AES-256-GCM makes of
/// `plaintext` under `key` and `nonce`, without associated data.
pub uninterp spec fn aes256_gcm_seal(key: Seq<u8>, nonce: Seq<u8>, plaintext: Seq<u8>) -> Seq<u8>;

/// What AES-256-GCM decryption of `ciphertext` under `key` and `nonce` gives:
/// the plaintext, or nothing when the tag does not verify.
pub uninterp spec fn aes256_gcm_open(key: Seq<u8>, nonce: Seq<u8>, ciphertext: Seq<u8>) -> Option<Seq<u8>>;

/// The URL-safe base64 text of `bytes`, without padding.
pub uninterp spec fn base64_url_encode(bytes: Seq<u8>) -> Seq<char>;

/// The bytes that URL-safe unpadded base64 `text` stands for, or nothing when
/// it is not such base64.
pub uninterp spec fn base64_url_decode(text: Seq<char>) -> Option<Seq<u8>>;

/// `Aes256Gcm::new(key).encrypt(nonce, plaintext)` (aes-gcm): fails exactly
/// when the plaintext is longer than 2^36 bytes; otherwise the ciphertext is
/// the plaintext's length plus the 16-byte tag.
#[verifier::external_body]
fn aes256_gcm_encrypt(key: &[u8], nonce: &[u8], plaintext: &[u8]) -> (r: Option<Vec<u8>>)
    requires
        key@.len() == KEY_LEN,
        nonce@.len() == NONCE_LEN,
    ensures
        r is Some <==> plaintext@.len() <= MAX_PLAINTEXT_LEN,
        r matches Some(ct) ==> ct@ == aes256_gcm_seal(key@, nonce@, plaintext@),
        r matches Some(ct) ==> ct@.len() == plaintext@.len() + TAG_LEN,
{
    let cipher = aes_gcm::Aes256Gcm::new(aes_gcm::Key::<aes_gcm::Aes256Gcm>::from_slice(key));
    cipher.encrypt(aes_gcm::Nonce::from_slice(nonce), plaintext).ok()
}

/// `Aes256Gcm::new(key).decrypt(nonce, ciphertext)` (aes-gcm). Decrypting what
/// the same key and nonce sealed gives the plaintext back.
#[verifier::external_body]
fn aes256_gcm_decrypt(key: &[u8], nonce: &[u8], ciphertext: &[u8]) -> (r: Option<Vec<u8>>)
    requires
        key@.len() == KEY_LEN,
        nonce@.len() == NONCE_LEN,
    ensures
        r is Some <==> aes256_gcm_open(key@, nonce@, ciphertext@) is Some,
        r matches Some(p) ==> aes256_gcm_open(key@, nonce@, ciphertext@) == Some(p@),
        forall|p: Seq<u8>|
            p.len() <= MAX_PLAINTEXT_LEN && ciphertext@ == aes256_gcm_seal(key@, nonce@, p) ==> r is Some
                && r->0@ == p,
{
    let cipher = aes_gcm::Aes256Gcm::new(aes_gcm::Key::<aes_gcm::Aes256Gcm>::from_slice(key));
    cipher.decrypt(aes_gcm::Nonce::from_slice(nonce), ciphertext).ok()
}

/// `base64::engine::general_purpose::URL_SAFE_NO_PAD.encode(bytes)`.
#[verifier::external_body]
fn base64_url_encode_bytes(bytes: &[u8]) -> (s: String)
    requires
        bytes@.len() <= usize::MAX / 2,
    ensures
        s@ == base64_url_encode(bytes@),
{
    base64::engine::general_purpose::URL_SAFE_NO_PAD.encode(bytes)
}

/// `base64::engine::general_purpose::URL_SAFE_NO_PAD.decode(text)`: decoding
/// what was encoded gives the bytes back.
#[verifier::external_body]
fn base64_url_decode_text(text: &str) -> (r: Option<Vec<u8>>)
    ensures
        r is Some <==> base64_url_decode(text@) is Some,
        r matches Some(b) ==> base64_url_decode(text@) == Some(b@),
        forall|b: Seq<u8>| text@ == base64_url_encode(b) ==> r is Some && r->0@ == b,
{
    base64::engine::general_purpose::URL_SAFE_NO_PAD.decode(text).ok()
}

/// 12 bytes from the operating system's random source (`OsRng.fill_bytes`).
/// Nothing is stated of them beyond their number.
#[verifier::external_body]
fn random_nonce() -> (nonce: Vec<u8>)
    ensures
        nonce@.len() == NONCE_LEN,
{
    let mut bytes = [0u8; 12];
    aes_gcm::aead::OsRng.fill_bytes(&mut bytes);
    bytes.to_vec()
}

/// The key that session cookies are sealed with.
pub struct SessionCipher {
    key: Vec<u8>,
}

impl SessionCipher {
    #[verifier::type_invariant]
    spec fn well_formed(self) -> bool {
        self.key@.len() == KEY_LEN
    }

    /// The 32 key bytes.
    pub closed spec fn key(self) -> Seq<u8> {
        self.key@
    }

    /// The cipher with key `key`, which must be 32 bytes long.
    pub fn new(key: &[u8]) -> (r: Option<Self>)
        ensures
            r is Some <==> key@.len() == KEY_LEN,
            r matches Some(c) ==> c.key() == key@,
    {
        if key.len() != KEY_LEN {
            return None;
        }
        let mut bytes: Vec<u8> = Vec::new();
        let mut i: usize = 0;
        while i < key.len()
            invariant
                i <= key@.len(),
                bytes@ == key@.subrange(0, i as int),
            decreases key@.len() - i,
        {
            bytes.push(key[i]);
            i = i + 1;
        }
        assert(bytes@ =~= key@);
        Some(SessionCipher { key: bytes })
    }
}

/// The cookie text for session `id`, sealed under `key` with `nonce`.
pub open spec fn session_cookie_text(key: Seq<u8>, nonce: Seq<u8>, id: u128) -> Seq<char> {
    base64_url_encode(nonce + aes256_gcm_seal(key, nonce, be_bytes(id)))
}

/// Whether `text` is the cookie for session `id` sealed under `key` with
/// `nonce`: a 12-byte nonce, and the sealed identifier as long as the
/// identifier and its tag.
pub open spec fn is_session_cookie(key: Seq<u8>, nonce: Seq<u8>, id: u128, text: Seq<char>) -> bool {
    &&& nonce.len() == NONCE_LEN
    &&& aes256_gcm_seal(key, nonce, be_bytes(id)).len() == be_bytes(id).len() + TAG_LEN
    &&& text == session_cookie_text(key, nonce, id)
}

/// Why a cookie does not name a session.
#[derive(Debug, Clone, Copy, PartialEq, Eq)]
pub enum CookieError {
    /// Sealing the identifier failed.
    EncryptionFailed,
    /// The cookie is not URL-safe unpadded base64.
    InvalidEncoding,
    /// The cookie is too short to hold a nonce and a tag.
    TooShort,
    /// The tag does not verify under the key.
    DecryptionFailed,
    /// What was sealed is not a 16-byte identifier.
    InvalidIdLength,
}

/// The session that cookie `text` names under `key`, or why it names none:
/// it must decode to at least a 12-byte nonce and a 16-byte tag, the rest must
/// open under the key and that nonce, and what opens must be 16 bytes.
pub open spec fn session_cookie_outcome(key: Seq<u8>, text: Seq<char>) -> Result<u128, CookieError> {
    match base64_url_decode(text) {
        None => Err(CookieError::InvalidEncoding),
        Some(data) => if data.len() < NONCE_LEN + TAG_LEN {
            Err(CookieError::TooShort)
        } else {
            match aes256_gcm_open(key, data.subrange(0, NONCE_LEN as int), data.subrange(NONCE_LEN as int, data.len() as int)) {
                None => Err(CookieError::DecryptionFailed),
                Some(p) => if p.len() == 16 {
                    Ok(choose|x: u128| be_bytes(x) == p)
                } else {
                    Err(CookieError::InvalidIdLength)
                },
            }
        },
    }
}

/// The cookie value for session `id` sealed with `nonce`: the nonce followed
/// by the sealed identifier, in URL-safe base64.
pub fn seal_session_id(cipher: &SessionCipher, id: &EntityId<ForSession>, nonce: &[u8]) -> (s: String)
    requires
        nonce@.len() == NONCE_LEN,
    ensures
        is_session_cookie(cipher.key(), nonce@, id@, s@),
{
    proof {
        use_type_invariant(cipher);
    }
    let bytes = id.to_bytes();
    let sealed = aes256_gcm_encrypt(cipher.key.as_slice(), nonce, bytes.as_slice()).unwrap();
    let mut data: Vec<u8> = Vec::new();
    let mut i: usize = 0;
    while i < nonce.len()
        invariant
            i <= nonce@.len(),
            data@ == nonce@.subrange(0, i as int),
        decreases nonce@.len() - i,
    {
        data.push(nonce[i]);
        i = i + 1;
    }
    let mut j: usize = 0;
    while j < sealed.len()
        invariant
            nonce@.len() == NONCE_LEN,
            sealed@.len() == 32,
            j <= sealed@.len(),
            data@ == nonce@ + sealed@.subrange(0, j as int),
        decreases sealed@.len() - j,
    {
        data.push(sealed[j]);
        j = j + 1;
    }
    assert(data@ =~= nonce@ + sealed@);
    base64_url_encode_bytes(data.as_slice())
}

/// The cookie value for session `id`: a fresh random nonce followed by the
/// sealed identifier, in URL-safe base64 (see [`seal_session_id`]).
pub fn encrypt_session_id(cipher: &SessionCipher, id: EntityId<ForSession>) -> (r: Result<String, CookieError>)
    ensures
        r is Ok,
        r matches Ok(s) ==> exists|nonce: Seq<u8>| #[trigger] is_session_cookie(cipher.key(), nonce, id@, s@),
{
    let nonce = random_nonce();
    let text = seal_session_id(cipher, &id, nonce.as_slice());
    let r: Result<String, CookieError> = Ok(text);
    assert(r matches Ok(s) && is_session_cookie(cipher.key(), nonce@, id@, s@));
    r
}

/// The session that cookie value `encoded` names (see
/// [`session_cookie_outcome`]). A value made by [`encrypt_session_id`] with
/// the same key names the session it was made for.
pub fn decrypt_session_cookie(cipher: &SessionCipher, encoded: &str) -> (r: Result<EntityId<ForSession>, CookieError>)
    ensures
        match r {
            Ok(id) => session_cookie_outcome(cipher.key(), encoded@) == Ok::<u128, CookieError>(id@),
            Err(e) => session_cookie_outcome(cipher.key(), encoded@) == Err::<u128, CookieError>(e),
        },
        forall|nonce: Seq<u8>, id: u128|
            #[trigger] is_session_cookie(cipher.key(), nonce, id, encoded@) ==> r is Ok && r->Ok_0@ == id,
{
    proof {
        use_type_invariant(cipher);
    }
    let data = match base64_url_decode_text(encoded) {
        Some(d) => d,
        None => return Err(CookieError::InvalidEncoding),
    };
    if data.len() < NONCE_LEN + TAG_LEN {
        return Err(CookieError::TooShort);
    }
    let mut nonce: Vec<u8> = Vec::new();
    let mut ciphertext: Vec<u8> = Vec::new();
    let mut i: usize = 0;
    while i < data.len()
        invariant
            data@.len() >= NONCE_LEN + TAG_LEN,
            i <= data@.len(),
            i <= NONCE_LEN ==> nonce@ == data@.subrange(0, i as int) && ciphertext@.len() == 0,
            i > NONCE_LEN ==> nonce@ == data@.subrange(0, NONCE_LEN as int) && ciphertext@ == data@.subrange(
                NONCE_LEN as int,
                i as int,
            ),
        decreases data@.len() - i,
    {
        if i < NONCE_LEN {
            nonce.push(data[i]);
        } else {
            ciphertext.push(data[i]);
        }
        i = i + 1;
    }
    let plaintext = match aes256_gcm_decrypt(cipher.key.as_slice(), nonce.as_slice(), ciphertext.as_slice()) {
        Some(p) => p,
        None => {
            proof {
                assert forall|n: Seq<u8>, id: u128|
                    #[trigger] is_session_cookie(cipher.key(), n, id, encoded@)
                        implies false by {
                    assert(data@ =~= n + aes256_gcm_seal(cipher.key(), n, be_bytes(id)));
                    assert(nonce@ =~= n);
                    assert(ciphertext@ =~= aes256_gcm_seal(cipher.key(), n, be_bytes(id)));
                }
            }
            return Err(CookieError::DecryptionFailed);
        },
    };
    if plaintext.len() != 16 {
        proof {
            assert forall|n: Seq<u8>, id: u128|
                #[trigger] is_session_cookie(cipher.key(), n, id, encoded@)
                    implies false by {
                assert(data@ =~= n + aes256_gcm_seal(cipher.key(), n, be_bytes(id)));
                assert(nonce@ =~= n);
                assert(ciphertext@ =~= aes256_gcm_seal(cipher.key(), n, be_bytes(id)));
            }
        }
        return Err(CookieError::InvalidIdLength);
    }
    let v = match uuid_from_slice(plaintext.as_slice()) {
        Some(v) => v,
        None => return Err(CookieError::InvalidIdLength),
    };
    proof {
        let c = choose|x: u128| be_bytes(x) == plaintext@;
        lemma_be_bytes_injective(c, v);
        assert forall|n: Seq<u8>, id: u128|
            #[trigger] is_session_cookie(cipher.key(), n, id, encoded@)
                implies v == id by {
            assert(data@ =~= n + aes256_gcm_seal(cipher.key(), n, be_bytes(id)));
            assert(nonce@ =~= n);
            assert(ciphertext@ =~= aes256_gcm_seal(cipher.key(), n, be_bytes(id)));
            lemma_be_bytes_injective(v, id);
        }
    }
    Ok(EntityId::from_u128(v))
}

} // verus!
