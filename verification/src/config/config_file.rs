//! What the configuration file gives: the durations it sets.

use crate::span::Span;
use vstd::prelude::*;

verus! {

/// The settings of the configuration file. A key that the file does not
/// hold is `None`.
#[derive(Clone, Copy, Debug, PartialEq, Eq)]
pub struct ConfigFile {
    pub pomodoro_duration: Option<Span>,
    pub short_break_duration: Option<Span>,
    pub long_break_duration: Option<Span>,
}

impl Default for ConfigFile {
    /// The settings of a file that holds no key.
    fn default() -> (file: ConfigFile)
        ensures
            file.pomodoro_duration is None,
            file.short_break_duration is None,
            file.long_break_duration is None,
    {
        ConfigFile { pomodoro_duration: None, short_break_duration: None, long_break_duration: None }
    }
}

} // verus!
