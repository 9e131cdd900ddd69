//! What the log configuration asks for: level, sinks and rotation.

use vstd::prelude::*;
use vstd::string::StringExecFns;

verus! {

/// Verbosity of the log.
#[derive(Clone, Copy, Debug, PartialEq, Eq, Structural)]
pub enum LogLevel {
    /// Very low priority, often extremely verbose.
    Trace,
    /// Lower priority information.
    Debug,
    /// Useful information.
    Info,
    /// Hazardous situations.
    Warn,
    /// Very serious errors.
    Error,
}

/// How often the log file is replaced by a new one.
#[derive(Clone, Copy, Debug, PartialEq, Eq, Structural)]
pub enum Rotation {
    /// Every minute.
    Minutely,
    /// Every hour.
    Hourly,
    /// Every day.
    Daily,
    /// Never.
    Never,
}

/// Where the log goes.
#[derive(Clone, Copy, Debug, PartialEq, Eq, Structural)]
pub enum Sink {
    /// To standard output.
    Stdout,
    /// To a file that rotates.
    File(Rotation),
    /// To a file that rotates, and to standard output.
    All(Rotation),
}

/// What `setup` decides: the level, and where the log goes.
#[derive(Clone, Copy, Debug, PartialEq, Eq, Structural)]
pub struct LogPlan {
    /// The most verbose level that is logged.
    pub level: LogLevel,
    /// Where the log goes.
    pub sink: Sink,
}

/// The log configuration as written by the operator.
#[derive(Debug)]
pub struct LogConfig {
    /// Name or number of the level.
    pub level: String,
    /// Directory of the log file.
    pub location: String,
    /// First part of the log file's name.
    pub file_prefix: String,
    /// "minute", "hour", "daily" or "never".
    pub rotation: Option<String>,
    /// "file", "all", or anything else for standard output.
    pub appender: Option<String>,
}

/// The level that `tracing` reads from a text: what `Level::from_str`
/// gives, `None` where it gives an error.
pub uninterp spec fn level_named(text: Seq<char>) -> Option<LogLevel>;

/// `<tracing::Level as FromStr>::from_str`: reads a level from its name or
/// number. The contract claims only that the level is a function of the
/// text; which texts name which level is `tracing`'s.
#[verifier::external_body]
fn parse_level(text: &str) -> (level: Option<LogLevel>)
    ensures
        level == level_named(text@),
{
    match text.parse::<tracing::Level>() {
        Ok(tracing::Level::TRACE) => Some(LogLevel::Trace),
        Ok(tracing::Level::DEBUG) => Some(LogLevel::Debug),
        Ok(tracing::Level::INFO) => Some(LogLevel::Info),
        Ok(tracing::Level::WARN) => Some(LogLevel::Warn),
        Ok(tracing::Level::ERROR) => Some(LogLevel::Error),
        Err(_) => None,
    }
}

/// The level to log at, given what was read from the configuration: `Info`
/// where nothing was.
pub fn level_or_info(read: Option<LogLevel>) -> (level: LogLevel)
    ensures
        level == match read {
            Some(level) => level,
            None => LogLevel::Info,
        },
{
    match read {
        Some(level) => level,
        None => LogLevel::Info,
    }
}

/// The rotation that a configured word asks for: `Never` for no word and for
/// any word but "daily", "minute" and "hour".
pub open spec fn rotation_spec(word: Option<Seq<char>>) -> Rotation {
    match word {
        Some(text) => if text == "daily"@ {
            Rotation::Daily
        } else if text == "never"@ {
            Rotation::Never
        } else if text == "minute"@ {
            Rotation::Minutely
        } else if text == "hour"@ {
            Rotation::Hourly
        } else {
            Rotation::Never
        },
        None => Rotation::Never,
    }
}

/// The sink that a configured word asks for, with the rotation for its file.
pub open spec fn sink_spec(word: Option<Seq<char>>, rotation: Rotation) -> Sink {
    match word {
        Some(text) => if text == "file"@ {
            Sink::File(rotation)
        } else if text == "all"@ {
            Sink::All(rotation)
        } else {
            Sink::Stdout
        },
        None => Sink::Stdout,
    }
}

/// The text of an optional string.
pub open spec fn word_spec(word: Option<String>) -> Option<Seq<char>> {
    match word {
        Some(text) => Some(text@),
        None => None,
    }
}

/// Whether a configured text is the given word.
fn is_word(text: &String, word: &str) -> (same: bool)
    ensures
        same == (text@ == word@),
{
    let word = String::from_str(word);
    *text == word
}

impl LogConfig {
    /// The level to log at: what `tracing` reads from the configured text,
    /// `Info` where it reads none.
    pub fn get_level(&self) -> (level: LogLevel)
        ensures
            level == match level_named(self.level@) {
                Some(level) => level,
                None => LogLevel::Info,
            },
    {
        level_or_info(parse_level(self.level.as_str()))
    }

    /// How often the log file rotates.
    pub fn get_rotation(&self) -> (rotation: Rotation)
        ensures
            rotation == rotation_spec(word_spec(self.rotation)),
    {
        match &self.rotation {
            Some(word) => {
                if is_word(word, "daily") {
                    Rotation::Daily
                } else if is_word(word, "never") {
                    Rotation::Never
                } else if is_word(word, "minute") {
                    Rotation::Minutely
                } else if is_word(word, "hour") {
                    Rotation::Hourly
                } else {
                    Rotation::Never
                }
            },
            None => Rotation::Never,
        }
    }
}

/// What the configuration asks of the log: its level, and where it goes.
/// Opening the files and installing the subscriber is the caller's.
pub fn setup(log_config: &LogConfig) -> (plan: LogPlan)
    ensures
        plan.level == match level_named(log_config.level@) {
            Some(level) => level,
            None => LogLevel::Info,
        },
        plan.sink == sink_spec(
            word_spec(log_config.appender),
            rotation_spec(word_spec(log_config.rotation)),
        ),
{
    let level = log_config.get_level();
    let sink = match &log_config.appender {
        Some(word) => {
            if is_word(word, "file") {
                Sink::File(log_config.get_rotation())
            } else if is_word(word, "all") {
                Sink::All(log_config.get_rotation())
            } else {
                Sink::Stdout
            }
        },
        None => Sink::Stdout,
    };
    LogPlan { level, sink }
}

} // verus!
