//! Logging settings: level, output format and request logging.
use vstd::prelude::*;

verus! {

/// The least severity of messages that are shown.
#[derive(Debug, Clone, Copy, PartialEq, Eq, Structural)]
pub enum LogLevel {
    Trace,
    Debug,
    Info,
    Warn,
    Error,
}

impl LogLevel {
    /// The level's name as a log filter spells it.
    pub open spec fn filter_name(self) -> Seq<char> {
        match self {
            LogLevel::Trace => "trace"@,
            LogLevel::Debug => "debug"@,
            LogLevel::Info => "info"@,
            LogLevel::Warn => "warn"@,
            LogLevel::Error => "error"@,
        }
    }

    /// The level's name as a log filter spells it.
    pub fn as_filter(&self) -> (r: &'static str)
        ensures
            r@ == self.filter_name(),
    {
        match self {
            LogLevel::Trace => "trace",
            LogLevel::Debug => "debug",
            LogLevel::Info => "info",
            LogLevel::Warn => "warn",
            LogLevel::Error => "error",
        }
    }
}

impl Default for LogLevel {
    fn default() -> (r: Self)
        ensures
            r == LogLevel::Info,
    {
        LogLevel::Info
    }
}

/// How log lines are written.
#[derive(Debug, Clone, Copy, PartialEq, Eq, Structural)]
pub enum LogFormat {
    /// Compact lines for people (development).
    Pretty,
    /// One JSON object per line, for log collectors (production).
    Json,
}

/// Logging settings.
#[derive(Debug, Clone, Copy, PartialEq, Eq, Structural)]
pub struct Logging {
    pub level: LogLevel,
    pub format: LogFormat,
    pub log_requests: bool,
}

impl Default for Logging {
    fn default() -> (r: Self)
        ensures
            r == (Logging { level: LogLevel::Info, format: LogFormat::Pretty, log_requests: true }),
    {
        Logging { level: LogLevel::Info, format: LogFormat::Pretty, log_requests: true }
    }
}

impl Logging {
    /// The given level and format, with request logging on.
    pub fn new(level: LogLevel, format: LogFormat) -> (r: Self)
        ensures
            r == (Logging { level, format, log_requests: true }),
    {
        Logging { level, format, log_requests: true }
    }

    /// Debug level, pretty lines, request logging on.
    pub fn development() -> (r: Self)
        ensures
            r == (Logging { level: LogLevel::Debug, format: LogFormat::Pretty, log_requests: true }),
    {
        Logging { level: LogLevel::Debug, format: LogFormat::Pretty, log_requests: true }
    }

    /// Info level, JSON lines, request logging on.
    pub fn production() -> (r: Self)
        ensures
            r == (Logging { level: LogLevel::Info, format: LogFormat::Json, log_requests: true }),
    {
        Logging { level: LogLevel::Info, format: LogFormat::Json, log_requests: true }
    }

    /// Sets the level.
    pub fn level(self, level: LogLevel) -> (r: Self)
        ensures
            r.level == level,
            r.format == self.format,
            r.log_requests == self.log_requests,
    {
        let mut this = self;
        this.level = level;
        this
    }

    /// Sets the format.
    pub fn format(self, format: LogFormat) -> (r: Self)
        ensures
            r.format == format,
            r.level == self.level,
            r.log_requests == self.log_requests,
    {
        let mut this = self;
        this.format = format;
        this
    }

    /// Turns request logging on or off.
    pub fn log_requests(self, enabled: bool) -> (r: Self)
        ensures
            r.log_requests == enabled,
            r.level == self.level,
            r.format == self.format,
    {
        let mut this = self;
        this.log_requests = enabled;
        this
    }
}

} // verus!
