//! Service configuration shared by all services: connection strings and
//! addresses built from the configured parts.
use vstd::prelude::*;
use crate::text::{decimal_text, spec_decimal};

verus! {

/// Where the message broker is and how to log in.
#[derive(Debug, Clone, PartialEq, Eq)]
pub struct RabbitMqConfig {
    pub host: String,
    pub port: u16,
    pub username: String,
    pub password: String,
}

impl Default for RabbitMqConfig {
    fn default() -> (res: Self)
        ensures
            res.host@ == "localhost"@,
            res.port == 5672,
            res.username@ == "cipher"@,
            res.password@ == "cipher"@,
    {
        RabbitMqConfig {
            host: String::from_str("localhost"),
            port: 5672,
            username: String::from_str("cipher"),
            password: String::from_str("cipher"),
        }
    }
}

impl RabbitMqConfig {
    /// `amqp://<username>:<password>@<host>:<port>/%2f`: the default virtual host.
    pub open spec fn spec_connection_string(self) -> Seq<char> {
        "amqp://"@ + self.username@ + ":"@ + self.password@ + "@"@ + self.host@ + ":"@
            + spec_decimal(self.port as nat) + "/%2f"@
    }

    /// The broker's connection string.
    pub fn connection_string(&self) -> (res: String)
        ensures
            res@ == self.spec_connection_string(),
    {
        let mut s = String::from_str("amqp://");
        s.append(self.username.as_str());
        s.append(":");
        s.append(self.password.as_str());
        s.append("@");
        s.append(self.host.as_str());
        s.append(":");
        s.append(decimal_text(self.port as u64).as_str());
        s.append("/%2f");
        s
    }
}

/// Where a Postgres database is and how to log in.
#[derive(Debug, Clone, PartialEq, Eq)]
pub struct DatabaseConfig {
    pub username: String,
    pub password: String,
    pub host: String,
    pub port: u16,
    pub database: String,
    pub use_ssl: bool,
}

impl Default for DatabaseConfig {
    fn default() -> (res: Self)
        ensures
            res.username@ == "cipher"@,
            res.password@ == "cipher"@,
            res.host@ == "localhost"@,
            res.port == 5432,
            res.database@ == "cipher"@,
            !res.use_ssl,
    {
        DatabaseConfig {
            username: String::from_str("cipher"),
            password: String::from_str("cipher"),
            host: String::from_str("localhost"),
            port: 5432,
            database: String::from_str("cipher"),
            use_ssl: false,
        }
    }
}

impl DatabaseConfig {
    /// The SSL mode asked for: `require` or `disable`.
    pub open spec fn spec_ssl_mode(self) -> Seq<char> {
        if self.use_ssl {
            "require"@
        } else {
            "disable"@
        }
    }

    /// `postgres://<username>:<password>@<host>:<port>/<database>?sslmode=<mode>`.
    pub open spec fn spec_connection_string(self) -> Seq<char> {
        "postgres://"@ + self.username@ + ":"@ + self.password@ + "@"@ + self.host@ + ":"@
            + spec_decimal(self.port as nat) + "/"@ + self.database@ + "?sslmode="@
            + self.spec_ssl_mode()
    }

    /// The database's connection string.
    pub fn connection_string(&self) -> (res: String)
        ensures
            res@ == self.spec_connection_string(),
    {
        let ssl_mode = if self.use_ssl {
            "require"
        } else {
            "disable"
        };
        let mut s = String::from_str("postgres://");
        s.append(self.username.as_str());
        s.append(":");
        s.append(self.password.as_str());
        s.append("@");
        s.append(self.host.as_str());
        s.append(":");
        s.append(decimal_text(self.port as u64).as_str());
        s.append("/");
        s.append(self.database.as_str());
        s.append("?sslmode=");
        s.append(ssl_mode);
        s
    }
}

/// Where a service listens or is reached.
#[derive(Debug, Clone, PartialEq, Eq)]
pub struct HostingConfig {
    pub scheme: String,
    pub host: String,
    pub port: u16,
}

impl Default for HostingConfig {
    fn default() -> (res: Self)
        ensures
            res.scheme@ == "http"@,
            res.host@ == "[::1]"@,
            res.port == 0,
    {
        HostingConfig { scheme: String::from_str("http"), host: String::from_str("[::1]"), port: 0 }
    }
}

impl HostingConfig {
    /// `<host>:<port>`.
    pub open spec fn spec_bind_address(self) -> Seq<char> {
        self.host@ + ":"@ + spec_decimal(self.port as nat)
    }

    /// `<scheme>://<host>:<port>`.
    pub open spec fn spec_address(self) -> Seq<char> {
        self.scheme@ + "://"@ + self.spec_bind_address()
    }

    /// The address a client reaches the service at.
    pub fn address(&self) -> (res: String)
        ensures
            res@ == self.spec_address(),
    {
        let mut s = self.scheme.clone();
        s.append("://");
        s.append(self.host.as_str());
        s.append(":");
        s.append(decimal_text(self.port as u64).as_str());
        s
    }

    /// The address the service listens on.
    pub fn bind_address(&self) -> (res: String)
        ensures
            res@ == self.spec_bind_address(),
    {
        let mut s = self.host.clone();
        s.append(":");
        s.append(decimal_text(self.port as u64).as_str());
        s
    }
}

/// The least severe level of log records kept.
#[derive(Debug, Clone, Copy, PartialEq, Eq, Structural)]
pub enum LogLevel {
    Off,
    Error,
    Warn,
    Info,
    Debug,
    Trace,
}

impl LogLevel {
    /// The level's name, as `tracing`'s `LevelFilter` writes it.
    pub open spec fn spec_name(self) -> Seq<char> {
        match self {
            LogLevel::Off => "off"@,
            LogLevel::Error => "error"@,
            LogLevel::Warn => "warn"@,
            LogLevel::Info => "info"@,
            LogLevel::Debug => "debug"@,
            LogLevel::Trace => "trace"@,
        }
    }
}

/// Whether a character is an ASCII digit.
pub open spec fn spec_is_digit(c: char) -> bool {
    48 <= c as int <= 57
}

/// The value of a string of decimal digits.
pub open spec fn spec_digits_value(d: Seq<char>) -> int
    decreases d.len(),
{
    if d.len() == 0 {
        0
    } else {
        spec_digits_value(d.drop_last()) * 10 + (d.last() as int - 48)
    }
}

/// The digits of an unsigned number's text: the text without a leading `+`.
pub open spec fn spec_unsigned_digits(text: Seq<char>) -> Seq<char> {
    if text.len() > 0 && text[0] == '+' {
        text.drop_first()
    } else {
        text
    }
}

/// Whether a text is an unsigned decimal number as std's integer `FromStr`
/// reads it: an optional `+`, then one or more digits.
pub open spec fn spec_is_unsigned_number(text: Seq<char>) -> bool {
    let d = spec_unsigned_digits(text);
    d.len() > 0 && forall|i: int| 0 <= i < d.len() ==> #[trigger] spec_is_digit(d[i])
}

/// Whether a text equals a lower-case ASCII name ignoring ASCII case: each of
/// its characters is the name's, or that letter in upper case.
pub open spec fn spec_same_name(text: Seq<char>, name: Seq<char>) -> bool {
    &&& text.len() == name.len()
    &&& forall|i: int| 0 <= i < name.len() ==> (#[trigger] text[i] == name[i] || text[i] as int + 32 == name[i] as int)
}

/// The level a number names: 0 is off, 1 to 5 are error to trace.
pub open spec fn spec_level_of_number(v: int) -> Option<LogLevel> {
    if v == 0 {
        Some(LogLevel::Off)
    } else if v == 1 {
        Some(LogLevel::Error)
    } else if v == 2 {
        Some(LogLevel::Warn)
    } else if v == 3 {
        Some(LogLevel::Info)
    } else if v == 4 {
        Some(LogLevel::Debug)
    } else if v == 5 {
        Some(LogLevel::Trace)
    } else {
        None
    }
}

/// The level that `tracing::level_filters::LevelFilter`'s `FromStr` reads
/// from a text: a number 0-5; otherwise the empty text as error, or a level's
/// name in any ASCII case; nothing else.
pub open spec fn spec_parse_level_filter(text: Seq<char>) -> Option<LogLevel> {
    if spec_is_unsigned_number(text) {
        spec_level_of_number(spec_digits_value(spec_unsigned_digits(text)))
    } else if text.len() == 0 {
        Some(LogLevel::Error)
    } else if spec_same_name(text, "error"@) {
        Some(LogLevel::Error)
    } else if spec_same_name(text, "warn"@) {
        Some(LogLevel::Warn)
    } else if spec_same_name(text, "info"@) {
        Some(LogLevel::Info)
    } else if spec_same_name(text, "debug"@) {
        Some(LogLevel::Debug)
    } else if spec_same_name(text, "trace"@) {
        Some(LogLevel::Trace)
    } else if spec_same_name(text, "off"@) {
        Some(LogLevel::Off)
    } else {
        None
    }
}

/// The text of `tracing`'s `ParseLevelFilterError`.
pub open spec fn spec_level_filter_error() -> Seq<char> {
    "error parsing level filter: expected one of \"off\", \"error\", \"warn\", \"info\", \"debug\", \"trace\", or a number 0-5"@
}

/// Calls `tracing::level_filters::LevelFilter`'s `FromStr`. Claimed, as its
/// source shows (it tries std's `usize` parse, then the names with
/// `eq_ignore_ascii_case`): the level read is `spec_parse_level_filter` of
/// the text, and a failure carries the error's `Display` text.
#[verifier::external_body]
fn parse_level_filter_text(text: &str) -> (res: Result<LogLevel, String>)
    ensures
        match spec_parse_level_filter(text@) {
            Some(level) => res == Ok::<LogLevel, String>(level),
            None => res matches Err(e) && e@ == spec_level_filter_error(),
        },
{
    match text.parse::<tracing::level_filters::LevelFilter>() {
        Ok(tracing::level_filters::LevelFilter::OFF) => Ok(LogLevel::Off),
        Ok(tracing::level_filters::LevelFilter::ERROR) => Ok(LogLevel::Error),
        Ok(tracing::level_filters::LevelFilter::WARN) => Ok(LogLevel::Warn),
        Ok(tracing::level_filters::LevelFilter::INFO) => Ok(LogLevel::Info),
        Ok(tracing::level_filters::LevelFilter::DEBUG) => Ok(LogLevel::Debug),
        Ok(_) => Ok(LogLevel::Trace),
        Err(e) => Err(e.to_string()),
    }
}

/// Calls `tracing::level_filters::LevelFilter`'s `Display`. Claimed, as its
/// source shows: it writes the level's lower-case name.
#[verifier::external_body]
fn level_filter_name(level: LogLevel) -> (res: String)
    ensures
        res@ == level.spec_name(),
{
    let filter = match level {
        LogLevel::Off => tracing::level_filters::LevelFilter::OFF,
        LogLevel::Error => tracing::level_filters::LevelFilter::ERROR,
        LogLevel::Warn => tracing::level_filters::LevelFilter::WARN,
        LogLevel::Info => tracing::level_filters::LevelFilter::INFO,
        LogLevel::Debug => tracing::level_filters::LevelFilter::DEBUG,
        LogLevel::Trace => tracing::level_filters::LevelFilter::TRACE,
    };
    filter.to_string()
}

/// A level's name reads back as the same level.
pub proof fn lemma_level_name_reads_back(level: LogLevel)
    ensures
        spec_parse_level_filter(level.spec_name()) == Some(level),
{
    reveal_strlit("off");
    reveal_strlit("error");
    reveal_strlit("warn");
    reveal_strlit("info");
    reveal_strlit("debug");
    reveal_strlit("trace");
    let name = level.spec_name();
    assert(!spec_is_digit(name[0]));
    assert(!spec_is_unsigned_number(name));
    match level {
        LogLevel::Off => {
            assert(!spec_same_name(name, "error"@));
            assert(!spec_same_name(name, "debug"@));
            assert(!spec_same_name(name, "trace"@));
            assert(!spec_same_name(name, "warn"@) && !spec_same_name(name, "info"@));
        },
        LogLevel::Error => {},
        LogLevel::Warn => {
            assert(!spec_same_name(name, "error"@));
        },
        LogLevel::Info => {
            assert(!spec_same_name(name, "error"@));
            assert(!spec_same_name(name, "warn"@));
        },
        LogLevel::Debug => {
            assert(!spec_same_name(name, "error"@));
            assert(!spec_same_name(name, "warn"@) && !spec_same_name(name, "info"@));
        },
        LogLevel::Trace => {
            assert(!spec_same_name(name, "error"@));
            assert(!spec_same_name(name, "debug"@));
            assert(!spec_same_name(name, "warn"@) && !spec_same_name(name, "info"@));
        },
    }
}

/// The text a log level is written as in configuration: its name, which
/// reads back as the same level.
pub fn serialize(level: LogLevel) -> (res: String)
    ensures
        res@ == level.spec_name(),
        spec_parse_level_filter(res@) == Some(level),
{
    proof {
        lemma_level_name_reads_back(level);
    }
    level_filter_name(level)
}

/// The log level a configuration text names; otherwise the parse error's text.
pub fn deserialize(text: &str) -> (res: Result<LogLevel, String>)
    ensures
        match spec_parse_level_filter(text@) {
            Some(level) => res == Ok::<LogLevel, String>(level),
            None => res matches Err(e) && e@ == spec_level_filter_error(),
        },
{
    parse_level_filter_text(text)
}

/// Logging settings.
#[derive(Debug, Clone, Copy, PartialEq, Eq)]
pub struct LogConfig {
    pub min_level: LogLevel,
}

impl Default for LogConfig {
    fn default() -> (res: Self)
        ensures
            res.min_level == LogLevel::Debug,
    {
        LogConfig { min_level: LogLevel::Debug }
    }
}

/// The configuration could not be loaded; `message` says why.
#[derive(Debug, Clone, PartialEq, Eq)]
pub struct ConfigLoadError {
    pub message: String,
}

impl ConfigLoadError {
    /// `failed to load configuration: <cause>`.
    pub fn describe(&self) -> (res: String)
        ensures
            res@ == "failed to load configuration: "@ + self.message@,
    {
        let mut s = String::from_str("failed to load configuration: ");
        s.append(self.message.as_str());
        s
    }
}

} // verus!
