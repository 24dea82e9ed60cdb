use base64::Engine;
use reso::api::cookie::{
    decrypt_session_cookie, encrypt_session_id, seal_session_id, CookieError, SessionCipher, SESSION_COOKIE_KEY,
};
use reso::entity_id::{EntityId, ForSession};

fn create_test_cipher() -> SessionCipher {
    let key = [0u8; 32];
    SessionCipher::new(&key).unwrap()
}

#[test]
fn test_encrypt_and_decrypt_session_id() {
    let cipher = create_test_cipher();
    let session_id = EntityId::<ForSession>::new();

    let encrypted = encrypt_session_id(&cipher, session_id.duplicate()).expect("encryption failed");
    assert!(!encrypted.is_empty());

    let decrypted = decrypt_session_cookie(&cipher, &encrypted).expect("decryption failed");
    assert_eq!(session_id.as_u128(), decrypted.as_u128());
}

#[test]
fn test_encrypt_produces_different_results() {
    let cipher = create_test_cipher();
    let session_id = EntityId::<ForSession>::new();

    let encrypted1 = encrypt_session_id(&cipher, session_id.duplicate()).expect("encryption failed");
    let encrypted2 = encrypt_session_id(&cipher, session_id.duplicate()).expect("encryption failed");

    assert_ne!(encrypted1, encrypted2, "Nonce should make each encryption unique");

    let decrypted1 = decrypt_session_cookie(&cipher, &encrypted1).expect("decryption failed");
    let decrypted2 = decrypt_session_cookie(&cipher, &encrypted2).expect("decryption failed");
    assert_eq!(decrypted1.as_u128(), decrypted2.as_u128());
}

#[test]
fn test_decrypt_invalid_base64() {
    let cipher = create_test_cipher();
    let result = decrypt_session_cookie(&cipher, "not-valid-base64!!!");
    assert!(result.is_err());
}

#[test]
fn test_decrypt_too_short() {
    let cipher = create_test_cipher();
    let short_data = base64::engine::general_purpose::URL_SAFE_NO_PAD.encode(&[0u8; 10]);
    let result = decrypt_session_cookie(&cipher, &short_data);
    assert!(result.is_err());
}

#[test]
fn test_decrypt_wrong_key() {
    let cipher1 = create_test_cipher();
    let session_id = EntityId::<ForSession>::new();

    let encrypted = encrypt_session_id(&cipher1, session_id).expect("encryption failed");

    let wrong_key = [1u8; 32];
    let cipher2 = SessionCipher::new(&wrong_key).unwrap();
    let result = decrypt_session_cookie(&cipher2, &encrypted);
    assert!(result.is_err());
}

#[test]
fn test_decrypt_tampered_ciphertext() {
    let cipher = create_test_cipher();
    let session_id = EntityId::<ForSession>::new();

    let mut encrypted = encrypt_session_id(&cipher, session_id).expect("encryption failed");

    encrypted.push('X');

    let result = decrypt_session_cookie(&cipher, &encrypted);
    assert!(result.is_err());
}

#[test]
fn test_session_cookie_key_constant() {
    assert_eq!(SESSION_COOKIE_KEY, "RESO_SESSION");
}

#[test]
fn test_round_trip_multiple_sessions() {
    let cipher = create_test_cipher();
    let sessions: Vec<EntityId<ForSession>> = (0..10).map(|_| EntityId::new()).collect();

    for session_id in sessions {
        let encrypted = encrypt_session_id(&cipher, session_id.duplicate()).expect("encryption failed");
        let decrypted = decrypt_session_cookie(&cipher, &encrypted).expect("decryption failed");
        assert_eq!(session_id.as_u128(), decrypted.as_u128());
    }
}

#[test]
fn cookie_errors_name_the_failing_step() {
    let cipher = create_test_cipher();
    assert_eq!(decrypt_session_cookie(&cipher, "not-valid-base64!!!").unwrap_err(), CookieError::InvalidEncoding);
    let short = base64::engine::general_purpose::URL_SAFE_NO_PAD.encode([0u8; 27]);
    assert_eq!(decrypt_session_cookie(&cipher, &short).unwrap_err(), CookieError::TooShort);
    let forged = base64::engine::general_purpose::URL_SAFE_NO_PAD.encode([7u8; 44]);
    assert_eq!(decrypt_session_cookie(&cipher, &forged).unwrap_err(), CookieError::DecryptionFailed);
}

#[test]
fn cookie_is_nonce_and_sealed_id_in_url_safe_base64() {
    let cipher = create_test_cipher();
    let id = EntityId::<ForSession>::from_u128(0x0102_0304_0506_0708_090a_0b0c_0d0e_0f10);
    let text = encrypt_session_id(&cipher, id.duplicate()).unwrap();
    let raw = base64::engine::general_purpose::URL_SAFE_NO_PAD.decode(&text).unwrap();
    assert_eq!(raw.len(), 12 + 16 + 16);
    assert!(!text.contains('='));
    assert_ne!(&raw[12..28], &id.to_bytes()[..], "the identifier must not appear in the clear");
}

#[test]
fn session_cipher_needs_a_32_byte_key() {
    assert!(SessionCipher::new(&[0u8; 31]).is_none());
    assert!(SessionCipher::new(&[0u8; 33]).is_none());
    assert!(SessionCipher::new(&[0u8; 32]).is_some());
}

#[test]
fn sealing_with_a_given_nonce_is_deterministic() {
    let cipher = create_test_cipher();
    let id = EntityId::<ForSession>::new();
    let a = seal_session_id(&cipher, &id, &[1u8; 12]);
    assert_eq!(a, seal_session_id(&cipher, &id, &[1u8; 12]));
    let b = seal_session_id(&cipher, &id, &[2u8; 12]);
    assert_ne!(a, b);
    let raw = base64::engine::general_purpose::URL_SAFE_NO_PAD.decode(&a).unwrap();
    assert_eq!(&raw[..12], &[1u8; 12]);
    assert_eq!(decrypt_session_cookie(&cipher, &a).unwrap().as_u128(), id.as_u128());
    assert_eq!(decrypt_session_cookie(&cipher, &b).unwrap().as_u128(), id.as_u128());
}
