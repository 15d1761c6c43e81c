//! The configuration of a session: which command to run, and how long each
//! kind of session lasts.

pub mod config_args;
pub mod config_file;

use crate::config::config_args::ConfigArgs;
use crate::config::config_file::ConfigFile;
use crate::span::{Span, NANOS_PER_SEC};
use vstd::prelude::*;

verus! {

/// The length of a Pomodoro work session that nobody configured: 25 minutes.
pub const DEFAULT_POMODORO_SECS: u64 = 25 * 60;

/// The length of a short break that nobody configured: 5 minutes.
pub const DEFAULT_SHORT_BREAK_SECS: u64 = 5 * 60;

/// The length of a long break that nobody configured: 15 minutes.
pub const DEFAULT_LONG_BREAK_SECS: u64 = 15 * 60;

/// What the program was asked to do.
#[derive(Clone, Copy, Debug, PartialEq, Eq, Structural)]
pub enum TimerCommand {
    /// Start a new Pomodoro work session
    Start,
    /// Start a short break
    ShortBreak,
    /// Start a long break after several sessions
    LongBreak,
    /// View the history of completed sessions
    Log,
}

/// The configuration that a session runs with.
#[derive(Clone, Copy, Debug, PartialEq, Eq)]
pub struct Config {
    pub command: TimerCommand,
    pub pomodoro_duration: Span,
    pub short_break_duration: Span,
    pub long_break_duration: Span,
}

/// The length, in nanoseconds, that a setting has: what the command line
/// gives, else what the configuration file gives, else the default.
pub open spec fn chosen(args: Option<Span>, file: Option<Span>, default_secs: u64) -> nat {
    match args {
        Some(span) => span@,
        None => match file {
            Some(span) => span@,
            None => (default_secs * NANOS_PER_SEC) as nat,
        },
    }
}

/// What the command line gives for a setting, else what the configuration
/// file gives, else `default_secs` seconds.
fn pick(args: Option<Span>, file: Option<Span>, default_secs: u64) -> (span: Span)
    ensures
        span@ == chosen(args, file, default_secs),
{
    match args {
        Some(span) => span,
        None => match file {
            Some(span) => span,
            None => Span::from_secs(default_secs),
        },
    }
}

impl Config {
    /// Merges the command line and the configuration file. The command is
    /// that of the command line. For each duration the command line takes
    /// precedence over the file, and the file over the default (25, 5 and 15
    /// minutes).
    pub fn load(args: ConfigArgs, file: ConfigFile) -> (config: Config)
        ensures
            config.command == args.command,
            config.pomodoro_duration@ == chosen(
                args.pomodoro_duration,
                file.pomodoro_duration,
                DEFAULT_POMODORO_SECS,
            ),
            config.short_break_duration@ == chosen(
                args.short_break_duration,
                file.short_break_duration,
                DEFAULT_SHORT_BREAK_SECS,
            ),
            config.long_break_duration@ == chosen(
                args.long_break_duration,
                file.long_break_duration,
                DEFAULT_LONG_BREAK_SECS,
            ),
    {
        Config {
            command: args.command,
            pomodoro_duration: pick(
                args.pomodoro_duration,
                file.pomodoro_duration,
                DEFAULT_POMODORO_SECS,
            ),
            short_break_duration: pick(
                args.short_break_duration,
                file.short_break_duration,
                DEFAULT_SHORT_BREAK_SECS,
            ),
            long_break_duration: pick(
                args.long_break_duration,
                file.long_break_duration,
                DEFAULT_LONG_BREAK_SECS,
            ),
        }
    }
}

} // verus!
