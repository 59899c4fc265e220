//! How much the program says while it works.

use vstd::prelude::*;

verus! {

/// The least important kind of message that is still shown: none at all
/// (`Off`), or messages from that kind upwards.
#[derive(Debug, Clone, Copy, PartialEq, Eq, Structural)]
pub enum LogLevel {
    Off,
    Error,
    Warn,
    Info,
    Debug,
    Trace,
}

/// The level that the command line asks for.
///
/// `quiet` silences everything, whatever else is set. With `debug`, the
/// level is `Debug`, and `Trace` once `verbose` is given. Otherwise errors
/// are shown, warnings too with `verbose` given once, and information too
/// with `verbose` given more often.
pub open spec fn level_for(quiet: bool, debug: bool, verbose: u8) -> LogLevel {
    if quiet {
        LogLevel::Off
    } else if debug {
        if verbose == 0 {
            LogLevel::Debug
        } else {
            LogLevel::Trace
        }
    } else if verbose == 0 {
        LogLevel::Error
    } else if verbose == 1 {
        LogLevel::Warn
    } else {
        LogLevel::Info
    }
}

/// The level that the command line asks for.
pub fn get_log_level(quiet: bool, debug: bool, verbose: u8) -> (level: LogLevel)
    ensures
        level == level_for(quiet, debug, verbose),
{
    if quiet {
        LogLevel::Off
    } else if debug {
        match verbose {
            0 => LogLevel::Debug,
            _ => LogLevel::Trace,
        }
    } else {
        match verbose {
            0 => LogLevel::Error,
            1 => LogLevel::Warn,
            _ => LogLevel::Info,
        }
    }
}

} // verus!
