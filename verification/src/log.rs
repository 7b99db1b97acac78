//! The level at which the server logs.

use vstd::prelude::*;

verus! {

/// How much a log line matters, from most to least.
#[derive(Debug, Clone, Copy, PartialEq, Eq, Structural)]
pub enum Level {
    Error,
    Warn,
    Info,
    Debug,
    Trace,
}

/// The log setting of a server.
#[derive(Debug, Clone, Copy, PartialEq, Eq, Structural)]
pub struct LogSetting {
    pub level: Level,
}

impl Default for LogSetting {
    /// **Default:** `Level::Trace`
    fn default() -> (s: LogSetting)
        ensures
            s.level == Level::Trace,
    {
        LogSetting { level: Level::Trace }
    }
}

/// Get log level of this crate.
pub fn get_log_level(setting: &LogSetting) -> (level: Level)
    ensures
        level == setting.level,
{
    setting.level
}

/// Set log level of this crate.
///
/// **Default:** `Level::Trace`
pub fn set_log_level(setting: &mut LogSetting, level: Level)
    ensures
        final(setting).level == level,
{
    setting.level = level;
}

} // verus!
