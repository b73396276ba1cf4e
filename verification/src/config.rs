//! The settings of a running service, and the rules they must meet.

use std::str::FromStr;
use vstd::prelude::*;
use vstd::string::*;
use vstd::utf8::{encode_utf8, is_char_boundary};

verus! {

/// Where the relational store is.
#[derive(Clone, Debug, PartialEq, Eq)]
pub struct Database {
    pub url: String,
}

/// Services outside this one.
#[derive(Clone, Debug, PartialEq, Eq)]
pub struct External {
    pub sentry: String,
}

/// How the service is reached.
#[derive(Clone, Debug, PartialEq, Eq)]
pub struct Http {
    pub address: String,
    pub domain: String,
    pub session: Session,
}

/// What is logged, and how.
#[derive(Clone, Debug, PartialEq, Eq)]
pub struct Logger {
    pub pretty: bool,
    pub level: String,
}

/// Where the session store and the broadcast channel are.
#[derive(Clone, Debug, PartialEq, Eq)]
pub struct Redis {
    pub address: String,
}

/// How sessions are kept: their age in hours, the cookie's name, whether it
/// is sent over secure connections only, and the key that signs it.
#[derive(Clone, Debug, PartialEq, Eq)]
pub struct Session {
    pub age: i64,
    pub name: String,
    pub secure: bool,
    pub key: String,
}

/// All settings of the service.
#[derive(Clone, Debug, PartialEq, Eq)]
pub struct Settings {
    pub database: Database,
    pub external: External,
    pub redis: Redis,
    pub http: Http,
    pub logger: Logger,
}

/// How much is logged.
#[derive(Clone, Copy, Debug, PartialEq, Eq, Structural)]
pub enum LogLevel {
    Off,
    Error,
    Warn,
    Info,
    Debug,
    Trace,
}

/// The least number of bytes of a session key.
pub const SESSION_KEY_BYTES: usize = 32;

/// The number of bytes of the scheme `redis://` that an address begins with.
pub const REDIS_SCHEME_BYTES: usize = 8;

/// A letter of the ASCII alphabet in upper case, and any other character as
/// it is.
pub open spec fn ascii_upper(c: char) -> char {
    if 'a' <= c && c <= 'z' {
        ((c as u8 - 32) as u8) as char
    } else {
        c
    }
}

/// Whether two texts are the same but for the case of ASCII letters.
pub open spec fn same_ignoring_case(a: Seq<char>, b: Seq<char>) -> bool {
    &&& a.len() == b.len()
    &&& forall|i: int| 0 <= i < a.len() ==> ascii_upper(a[i]) == ascii_upper(b[i])
}

/// The level that a text names, in whatever case it is written.
pub open spec fn level_named(text: Seq<char>) -> Option<LogLevel> {
    if same_ignoring_case(text, "OFF"@) {
        Some(LogLevel::Off)
    } else if same_ignoring_case(text, "ERROR"@) {
        Some(LogLevel::Error)
    } else if same_ignoring_case(text, "WARN"@) {
        Some(LogLevel::Warn)
    } else if same_ignoring_case(text, "INFO"@) {
        Some(LogLevel::Info)
    } else if same_ignoring_case(text, "DEBUG"@) {
        Some(LogLevel::Debug)
    } else if same_ignoring_case(text, "TRACE"@) {
        Some(LogLevel::Trace)
    } else {
        None
    }
}

/// The level that is logged at: the one that the setting names, and `Info`
/// where it names none.
pub open spec fn level_of(text: Seq<char>) -> LogLevel {
    match level_named(text) {
        Some(level) => level,
        None => LogLevel::Info,
    }
}

/// `log::LevelFilter::from_str`: the level whose name the text is, compared
/// without regard to the case of ASCII letters.
#[verifier::external_body]
fn parse_level(text: &str) -> (level: Option<LogLevel>)
    ensures
        level == level_named(text@),
{
    match log::LevelFilter::from_str(text) {
        Ok(log::LevelFilter::Off) => Some(LogLevel::Off),
        Ok(log::LevelFilter::Error) => Some(LogLevel::Error),
        Ok(log::LevelFilter::Warn) => Some(LogLevel::Warn),
        Ok(log::LevelFilter::Info) => Some(LogLevel::Info),
        Ok(log::LevelFilter::Debug) => Some(LogLevel::Debug),
        Ok(log::LevelFilter::Trace) => Some(LogLevel::Trace),
        Err(_) => None,
    }
}

impl Settings {
    /// The settings made of their sections.
    pub fn new(database: Database, external: External, redis: Redis, http: Http, logger: Logger)
        -> (settings: Settings)
        ensures
            settings.database == database,
            settings.external == external,
            settings.redis == redis,
            settings.http == http,
            settings.logger == logger,
    {
        Settings { database, external, redis, http, logger }
    }
}

impl Session {
    /// Whether the key is long enough to sign session cookies: 32 bytes or
    /// more.
    pub fn key_is_valid(&self) -> (valid: bool)
        ensures
            valid == (encode_utf8(self.key@).len() >= SESSION_KEY_BYTES),
    {
        self.key.as_str().as_bytes().len() >= SESSION_KEY_BYTES
    }
}

impl Redis {
    /// The address without the scheme `redis://` that it begins with: what
    /// follows its first eight bytes, or nothing where the address is
    /// shorter or cannot be split there.
    pub fn connection_string(&self) -> (rest: Option<&str>)
        ensures
            match rest {
                Some(rest) => {
                    &&& encode_utf8(self.address@).len() >= REDIS_SCHEME_BYTES
                    &&& is_char_boundary(encode_utf8(self.address@), REDIS_SCHEME_BYTES as int)
                    &&& encode_utf8(rest@) == encode_utf8(self.address@).subrange(
                        REDIS_SCHEME_BYTES as int,
                        encode_utf8(self.address@).len() as int,
                    )
                },
                None => encode_utf8(self.address@).len() < REDIS_SCHEME_BYTES || !is_char_boundary(
                    encode_utf8(self.address@),
                    REDIS_SCHEME_BYTES as int,
                ),
            },
    {
        let address = self.address.as_str();
        if address.as_bytes().len() >= REDIS_SCHEME_BYTES && address.is_char_boundary(
            REDIS_SCHEME_BYTES,
        ) {
            Some(address.split_at(REDIS_SCHEME_BYTES).1)
        } else {
            None
        }
    }
}

impl Logger {
    /// The level that is logged at.
    pub fn filter_level(&self) -> (level: LogLevel)
        ensures
            level == level_of(self.level@),
    {
        match parse_level(self.level.as_str()) {
            Some(level) => level,
            None => LogLevel::Info,
        }
    }
}

} // verus!
