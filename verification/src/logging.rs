//! How loud the run is: the number of `-v` flags decides the log level.

use vstd::prelude::*;

verus! {

/// The severity from which messages are shown.
#[derive(Clone, Copy, Debug, PartialEq, Eq, Structural)]
pub enum LogLevel {
    /// Errors and warnings only.
    Warn,
    /// Also progress messages.
    Info,
    /// Also what is being read and run.
    Debug,
    /// Everything.
    Trace,
}

impl LogLevel {
    /// The level that `verbose` repetitions of the verbosity flag ask for.
    pub open spec fn of(verbose: u8) -> LogLevel {
        if verbose == 0 {
            LogLevel::Warn
        } else if verbose == 1 {
            LogLevel::Info
        } else if verbose == 2 {
            LogLevel::Debug
        } else {
            LogLevel::Trace
        }
    }

    /// Maps the count of verbosity flags to a level: none shows warnings,
    /// one adds information, two adds debugging, three or more show all.
    pub fn from_verbosity(verbose: u8) -> (level: LogLevel)
        ensures
            level == LogLevel::of(verbose),
            verbose >= 3 ==> level == LogLevel::Trace,
    {
        match verbose {
            0 => LogLevel::Warn,
            1 => LogLevel::Info,
            2 => LogLevel::Debug,
            _ => LogLevel::Trace,
        }
    }
}

} // verus!
