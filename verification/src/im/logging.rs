//! What the adapters' log lines look like, and which of them are written.

use vstd::prelude::*;
use vstd::string::*;
use crate::im::gateway::{clone_opt_string, opt_text};

verus! {

/// How much a log line matters.
#[derive(Debug, Clone, Copy, PartialEq, Eq, Structural)]
pub enum LogLevel {
    Trace,
    Debug,
    Info,
    Warn,
    Error,
}

impl LogLevel {
    /// The place of the level, from the least to the most important.
    pub open spec fn rank_of(self) -> int {
        match self {
            LogLevel::Trace => 0,
            LogLevel::Debug => 1,
            LogLevel::Info => 2,
            LogLevel::Warn => 3,
            LogLevel::Error => 4,
        }
    }

    /// The place of the level, from the least to the most important.
    pub fn rank(&self) -> (r: u8)
        ensures
            r == self.rank_of(),
    {
        match self {
            LogLevel::Trace => 0,
            LogLevel::Debug => 1,
            LogLevel::Info => 2,
            LogLevel::Warn => 3,
            LogLevel::Error => 4,
        }
    }

    /// The name of the level in a log line.
    pub open spec fn name_of(self) -> Seq<char> {
        match self {
            LogLevel::Trace => "TRACE"@,
            LogLevel::Debug => "DEBUG"@,
            LogLevel::Info => "INFO"@,
            LogLevel::Warn => "WARN"@,
            LogLevel::Error => "ERROR"@,
        }
    }

    /// The name of the level in a log line.
    pub fn as_str(&self) -> (name: &'static str)
        ensures
            name@ == self.name_of(),
    {
        match self {
            LogLevel::Trace => "TRACE",
            LogLevel::Debug => "DEBUG",
            LogLevel::Info => "INFO",
            LogLevel::Warn => "WARN",
            LogLevel::Error => "ERROR",
        }
    }
}

/// What a `LogConfig` holds.
pub struct LogConfigView {
    pub enabled: bool,
    pub level: LogLevel,
    pub file_path: Option<Seq<char>>,
}

/// Which lines are written, and where.
#[derive(Debug)]
pub struct LogConfig {
    pub enabled: bool,
    pub level: LogLevel,
    pub file_path: Option<String>,
}

impl View for LogConfig {
    type V = LogConfigView;

    open spec fn view(&self) -> LogConfigView {
        LogConfigView { enabled: self.enabled, level: self.level, file_path: opt_text(self.file_path) }
    }
}

impl Default for LogConfig {
    fn default() -> (c: LogConfig)
        ensures
            c@ == (LogConfigView { enabled: true, level: LogLevel::Info, file_path: None }),
    {
        LogConfig { enabled: true, level: LogLevel::Info, file_path: None }
    }
}

impl Clone for LogConfig {
    fn clone(&self) -> (c: LogConfig)
        ensures
            c@ == self@,
    {
        LogConfig { enabled: self.enabled, level: self.level, file_path: clone_opt_string(&self.file_path) }
    }
}

/// Whether a line of the level `level` is written under `config`: logging
/// is on and the line matters at least as much as the configuration asks.
pub open spec fn is_written(config: LogConfigView, level: LogLevel) -> bool {
    config.enabled && config.level.rank_of() <= level.rank_of()
}

/// A log line.
pub open spec fn line_of(timestamp: Seq<char>, level: LogLevel, module: Seq<char>, message: Seq<char>) -> Seq<char> {
    "["@ + timestamp + "] ["@ + level.name_of() + "] ["@ + module + "] "@ + message
}

/// Makes the log lines of the adapters. Writing them is left to the caller.
pub struct Logger {
    config: LogConfig,
}

impl Logger {
    /// The configuration.
    pub closed spec fn config(&self) -> LogConfigView {
        self.config@
    }

    /// A logger with `config`.
    pub fn new(config: LogConfig) -> (l: Logger)
        ensures
            l.config() == config@,
    {
        Logger { config }
    }

    /// A logger that writes from `Info` up.
    pub fn new_default() -> (l: Logger)
        ensures
            l.config() == (LogConfigView { enabled: true, level: LogLevel::Info, file_path: None }),
    {
        Logger { config: LogConfig::default() }
    }

    /// Replaces the configuration.
    pub fn set_config(&mut self, config: LogConfig)
        ensures
            final(self).config() == config@,
    {
        self.config = config;
    }

    /// A copy of the configuration.
    pub fn get_config(&self) -> (c: LogConfig)
        ensures
            c@ == self.config(),
    {
        self.config.clone()
    }

    /// The line to write for `message` of `module` at `timestamp`, where a
    /// line of this level is written at all.
    pub fn line(&self, level: LogLevel, module: &str, message: &str, timestamp: &str) -> (r: Option<String>)
        ensures
            match r {
                Some(line) => is_written(self.config(), level) && line@ == line_of(
                    timestamp@,
                    level,
                    module@,
                    message@,
                ),
                None => !is_written(self.config(), level),
            },
    {
        if !self.config.enabled || self.config.level.rank() > level.rank() {
            return None;
        }
        let mut line = String::from_str("[");
        line.append(timestamp);
        line.append("] [");
        line.append(level.as_str());
        line.append("] [");
        line.append(module);
        line.append("] ");
        line.append(message);
        Some(line)
    }

    /// The trace line for `message`, where trace lines are written.
    pub fn trace(&self, module: &str, message: &str, timestamp: &str) -> (r: Option<String>)
        ensures
            match r {
                Some(line) => is_written(self.config(), LogLevel::Trace) && line@ == line_of(
                    timestamp@,
                    LogLevel::Trace,
                    module@,
                    message@,
                ),
                None => !is_written(self.config(), LogLevel::Trace),
            },
    {
        self.line(LogLevel::Trace, module, message, timestamp)
    }

    /// The debug line for `message`, where debug lines are written.
    pub fn debug(&self, module: &str, message: &str, timestamp: &str) -> (r: Option<String>)
        ensures
            match r {
                Some(line) => is_written(self.config(), LogLevel::Debug) && line@ == line_of(
                    timestamp@,
                    LogLevel::Debug,
                    module@,
                    message@,
                ),
                None => !is_written(self.config(), LogLevel::Debug),
            },
    {
        self.line(LogLevel::Debug, module, message, timestamp)
    }

    /// The info line for `message`, where info lines are written.
    pub fn info(&self, module: &str, message: &str, timestamp: &str) -> (r: Option<String>)
        ensures
            match r {
                Some(line) => is_written(self.config(), LogLevel::Info) && line@ == line_of(
                    timestamp@,
                    LogLevel::Info,
                    module@,
                    message@,
                ),
                None => !is_written(self.config(), LogLevel::Info),
            },
    {
        self.line(LogLevel::Info, module, message, timestamp)
    }

    /// The warning line for `message`, where warnings are written.
    pub fn warn(&self, module: &str, message: &str, timestamp: &str) -> (r: Option<String>)
        ensures
            match r {
                Some(line) => is_written(self.config(), LogLevel::Warn) && line@ == line_of(
                    timestamp@,
                    LogLevel::Warn,
                    module@,
                    message@,
                ),
                None => !is_written(self.config(), LogLevel::Warn),
            },
    {
        self.line(LogLevel::Warn, module, message, timestamp)
    }

    /// The error line for `message`, where errors are written.
    pub fn error(&self, module: &str, message: &str, timestamp: &str) -> (r: Option<String>)
        ensures
            match r {
                Some(line) => is_written(self.config(), LogLevel::Error) && line@ == line_of(
                    timestamp@,
                    LogLevel::Error,
                    module@,
                    message@,
                ),
                None => !is_written(self.config(), LogLevel::Error),
            },
    {
        self.line(LogLevel::Error, module, message, timestamp)
    }
}

} // verus!
