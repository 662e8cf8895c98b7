//! Explicit configuration data, constructed at startup and passed by
//! reference into the components that need it: window mode and logging
//! level. Persistence of the configuration lives outside this crate; these
//! are the plain values the core works with.

use vstd::prelude::*;

verus! {

/// How the window is created: a sized window, maximized, or fullscreen.
#[derive(Clone, Copy, Debug, PartialEq, Eq, Structural)]
pub enum WindowMode {
    Default { width: u32, height: u32 },
    Maximized,
    Fullscreen,
}

impl Default for WindowMode {
    /// An 800 x 600 window.
    fn default() -> (r: WindowMode)
        ensures
            r == (WindowMode::Default { width: 800u32, height: 600u32 }),
    {
        WindowMode::Default { width: 800, height: 600 }
    }
}

/// The largest level of log messages that is emitted.
#[derive(Clone, Copy, Debug, PartialEq, Eq, Structural)]
pub enum LevelFilter {
    Off,
    Error,
    Warn,
    Info,
    Debug,
    Trace,
}

/// Logging configuration.
#[derive(Clone, Copy, Debug, PartialEq, Eq, Structural)]
pub struct LogSettings {
    pub max_level: LevelFilter,
}

impl Default for LogSettings {
    /// Informational messages and up.
    fn default() -> (r: LogSettings)
        ensures
            r == (LogSettings { max_level: LevelFilter::Info }),
    {
        LogSettings { max_level: LevelFilter::Info }
    }
}

} // verus!
