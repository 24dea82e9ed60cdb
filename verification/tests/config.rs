use reso::config::{
    default_db_path, default_log_level, default_server_ip, default_server_port, ConfigError, DatabaseConfig,
    LogLevel, ServerConfig, DEFAULT_CONFIG_PATH,
};
use reso::env_config::{decode_legacy_cookie_secret, new_session_secret, session_secret_from_bytes, SecretError};

#[test]
fn configuration_defaults() {
    assert_eq!(LogLevel::default(), LogLevel::Info);
    assert_eq!(default_log_level(), LogLevel::Info);
    assert_eq!(default_db_path(), "reso.db");
    assert_eq!(default_server_ip(), "0.0.0.0");
    assert_eq!(default_server_port(), 53);
    assert_eq!(DatabaseConfig::default().path, "reso.db");
    let server = ServerConfig::default();
    assert_eq!((server.ip.as_str(), server.port, server.log_level), ("0.0.0.0", 53, LogLevel::Info));
    assert_eq!(DEFAULT_CONFIG_PATH, "config.toml");
}

#[test]
fn log_level_names() {
    let names: Vec<&str> = [LogLevel::Trace, LogLevel::Debug, LogLevel::Info, LogLevel::Warn, LogLevel::Error]
        .iter()
        .map(|l| l.name())
        .collect();
    assert_eq!(names, vec!["trace", "debug", "info", "warn", "error"]);
}

#[test]
fn config_error_messages() {
    assert_eq!(ConfigError::NotFound.message(), "config file not found");
    assert_eq!(ConfigError::Decode("bad toml".to_string()).message(), "bad toml");
}

#[test]
fn legacy_secret_must_be_base64_of_32_bytes() {
    let ok = "AAECAwQFBgcICQoLDA0ODxAREhMUFRYXGBkaGxwdHh8=";
    let secret = decode_legacy_cookie_secret(ok).unwrap();
    assert_eq!(secret, (0u8..32).collect::<Vec<u8>>());
    assert_eq!(decode_legacy_cookie_secret("AAEC"), Err(SecretError::WrongLength(3)));
    assert_eq!(decode_legacy_cookie_secret("not base64!"), Err(SecretError::InvalidBase64));
}

#[test]
fn secret_file_must_hold_32_bytes() {
    assert_eq!(session_secret_from_bytes(vec![9u8; 32]), Ok(vec![9u8; 32]));
    assert_eq!(session_secret_from_bytes(vec![9u8; 31]), Err(SecretError::WrongLength(31)));
    let a = new_session_secret();
    let b = new_session_secret();
    assert_eq!(a.len(), 32);
    assert_ne!(a, b);
}
