//! A Pomodoro-style countdown timer.
//!
//! The library holds the timer engine ([`timer::Timer`]), the rules that
//! merge its configuration ([`config::Config`]), the meaning of the keys and
//! the layout of what the timer shows. The program around it owns the
//! terminal, the sound and the threads: once per pass of its loop it calls
//! [`timer::Timer::poll`], draws the display that the pass hands out and
//! does what the pass asks for, until that is to sound the alarm.
//!
//! The engine is specified by a state machine over plain numbers,
//! [`timer::model::TimerModel`]; what holds of every run of that machine is
//! proved in [`timer::laws`].

pub mod config;
pub mod span;
pub mod timer;

use crate::config::{Config, TimerCommand};
use crate::timer::model::TimerModel;
use crate::timer::{Timer, TimerKind, TimerMessage};
use std::sync::mpsc::Receiver;
use vstd::prelude::*;

verus! {

/// Why a command started no timer.
#[derive(Clone, Copy, Debug, PartialEq, Eq, Structural)]
pub enum CommandError {
    /// The command is known, but nothing implements it.
    NotImplemented,
}

/// The timer that a command asks for: its kind, and the duration that the
/// configuration gives that kind. `None` for a command that asks for none.
pub open spec fn session(config: Config) -> Option<TimerModel> {
    match config.command {
        TimerCommand::Start => Some(
            TimerModel::new(TimerKind::Pomodoro, config.pomodoro_duration@),
        ),
        TimerCommand::ShortBreak => Some(
            TimerModel::new(TimerKind::ShortBreak, config.short_break_duration@),
        ),
        TimerCommand::LongBreak => Some(
            TimerModel::new(TimerKind::LongBreak, config.long_break_duration@),
        ),
        TimerCommand::Log => None,
    }
}

/// The timer for the configured command: a new, stopped timer of the
/// command's kind and configured duration, which takes its messages from
/// `rx`. The `Log` command has no timer and is reported as not implemented.
pub fn process_command(config: &Config, rx: Receiver<TimerMessage>) -> (result: Result<
    Timer,
    CommandError,
>)
    ensures
        match session(*config) {
            Some(timer) => result matches Ok(t) && t@ == timer && t.receiver() == rx,
            None => result matches Err(e) && e == CommandError::NotImplemented,
        },
{
    match config.command {
        TimerCommand::Start => Ok(Timer::new(TimerKind::Pomodoro, config.pomodoro_duration, rx)),
        TimerCommand::ShortBreak => Ok(
            Timer::new(TimerKind::ShortBreak, config.short_break_duration, rx),
        ),
        TimerCommand::LongBreak => Ok(
            Timer::new(TimerKind::LongBreak, config.long_break_duration, rx),
        ),
        TimerCommand::Log => Err(CommandError::NotImplemented),
    }
}

/// What the input listener does with a key.
#[derive(Clone, Copy, Debug, PartialEq, Eq, Structural)]
pub enum InputAction {
    /// Send the message to the timer.
    Send(TimerMessage),
    /// Leave the listener's loop.
    Quit,
    /// Nothing: the key has no meaning.
    Ignore,
}

/// The meaning of a key: `s` toggles between stopped and running, `p`
/// between paused and running, `q` quits, and no other key means anything.
pub open spec fn key_action(key: char) -> InputAction {
    if key == 's' {
        InputAction::Send(TimerMessage::ToggleStop)
    } else if key == 'p' {
        InputAction::Send(TimerMessage::TogglePause)
    } else if key == 'q' {
        InputAction::Quit
    } else {
        InputAction::Ignore
    }
}

/// What the input listener does with the character key `key`.
pub fn process_event(key: char) -> (action: InputAction)
    ensures
        action == key_action(key),
{
    match key {
        's' => InputAction::Send(TimerMessage::ToggleStop),
        'p' => InputAction::Send(TimerMessage::TogglePause),
        'q' => InputAction::Quit,
        _ => InputAction::Ignore,
    }
}

} // verus!
