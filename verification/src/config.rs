//! The DNS server's configuration file and its defaults.

use vstd::prelude::*;
use vstd::string::*;

verus! {

/// Where the configuration is read from and written to.
pub const DEFAULT_CONFIG_PATH: &'static str = "config.toml";

/// How much the server logs.
#[derive(Debug, Clone, Copy, PartialEq, Eq, Structural)]
pub enum LogLevel {
    Trace,
    Debug,
    Info,
    Warn,
    Error,
}

/// The name of a level in the configuration file.
pub open spec fn log_level_name(l: LogLevel) -> Seq<char> {
    match l {
        LogLevel::Trace => "trace"@,
        LogLevel::Debug => "debug"@,
        LogLevel::Info => "info"@,
        LogLevel::Warn => "warn"@,
        LogLevel::Error => "error"@,
    }
}

impl LogLevel {
    /// The level's name in the configuration file.
    pub fn name(&self) -> (s: &'static str)
        ensures
            s@ == log_level_name(*self),
    {
        match self {
            LogLevel::Trace => "trace",
            LogLevel::Debug => "debug",
            LogLevel::Info => "info",
            LogLevel::Warn => "warn",
            LogLevel::Error => "error",
        }
    }
}

impl Default for LogLevel {
    /// Informational messages and above.
    fn default() -> (l: Self)
        ensures
            l == LogLevel::Info,
    {
        LogLevel::Info
    }
}

/// The database file when the configuration names none.
pub fn default_db_path() -> (s: String)
    ensures
        s@ == "reso.db"@,
{
    String::from_str("reso.db")
}

/// The address the DNS server listens on when the configuration names none.
pub fn default_server_ip() -> (s: String)
    ensures
        s@ == "0.0.0.0"@,
{
    String::from_str("0.0.0.0")
}

/// The port the DNS server listens on when the configuration names none.
pub fn default_server_port() -> (p: u64)
    ensures
        p == 53,
{
    53
}

/// The log level when the configuration names none.
pub fn default_log_level() -> (l: LogLevel)
    ensures
        l == LogLevel::Info,
{
    LogLevel::default()
}

/// Where and how the DNS server listens.
#[derive(Debug, Clone, PartialEq, Eq)]
pub struct ServerConfig {
    /// IP address to listen on for DNS queries.
    pub ip: String,
    /// Port to listen on for DNS queries.
    pub port: u64,
    /// Logging level for the server.
    pub log_level: LogLevel,
}

impl Default for ServerConfig {
    /// Every address, port 53, informational logging.
    fn default() -> (c: Self)
        ensures
            c.ip@ == "0.0.0.0"@,
            c.port == 53,
            c.log_level == LogLevel::Info,
    {
        ServerConfig { ip: default_server_ip(), port: default_server_port(), log_level: default_log_level() }
    }
}

/// Where the database is stored.
#[derive(Debug, Clone, PartialEq, Eq)]
pub struct DatabaseConfig {
    pub path: String,
}

impl Default for DatabaseConfig {
    /// `reso.db` in the working directory.
    fn default() -> (c: Self)
        ensures
            c.path@ == "reso.db"@,
    {
        DatabaseConfig { path: default_db_path() }
    }
}

/// Why the configuration could not be read.
#[derive(Debug, Clone, PartialEq, Eq)]
pub enum ConfigError {
    /// There is no configuration file.
    NotFound,
    /// The file is not a valid configuration; the text says why.
    Decode(String),
}

impl ConfigError {
    /// A description of the error for people.
    pub fn message(&self) -> (s: String)
        ensures
            self is NotFound ==> s@ == "config file not found"@,
            self matches ConfigError::Decode(e) ==> s@ == e@,
    {
        match self {
            ConfigError::NotFound => String::from_str("config file not found"),
            ConfigError::Decode(e) => e.clone(),
        }
    }
}

} // verus!
