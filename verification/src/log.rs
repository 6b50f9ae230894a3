//! Console verbosity levels and their selection from the CLI flags.
//!
//! The level is decided once, from the counts of `--verbose` and `--quiet`
//! occurrences, and passed to whoever prints; the core itself never reads
//! ambient state.

use vstd::prelude::*;

verus! {

/// How much the CLI prints; later variants print less.
#[derive(Clone, Copy, Debug, PartialEq, Eq, PartialOrd, Ord, Structural)]
pub enum LogLevel {
    Trace,
    Debug,
    Info,
    Warn,
    Error,
    Off,
}

/// The level the flag counts select: each `--quiet` mutes one level, each
/// `--verbose` adds one, and `--verbose` wins over `--quiet`.
pub open spec fn spec_log_level(verbose: u8, quiet: u8) -> LogLevel {
    if verbose == 0 {
        if quiet == 0 {
            LogLevel::Info
        } else if quiet == 1 {
            LogLevel::Warn
        } else if quiet == 2 {
            LogLevel::Error
        } else {
            LogLevel::Off
        }
    } else if verbose == 1 {
        LogLevel::Debug
    } else {
        LogLevel::Trace
    }
}

/// Select the log level from the counted `--verbose` and `--quiet` flags.
pub fn log_level_from_flags(verbose: u8, quiet: u8) -> (r: LogLevel)
    ensures
        r == spec_log_level(verbose, quiet),
{
    match verbose {
        0 => match quiet {
            0 => LogLevel::Info,
            1 => LogLevel::Warn,
            2 => LogLevel::Error,
            _ => LogLevel::Off,
        },
        1 => LogLevel::Debug,
        _ => LogLevel::Trace,
    }
}

} // verus!
