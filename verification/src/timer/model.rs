//! The timer as a mathematical state machine: what each control message and
//! each pass of the engine's loop does to a timer.

use crate::span::{MAX_NANOS, NANOS_PER_SEC};
use crate::timer::timer_display::DisplayModel;
use crate::timer::{Notice, TimerEffect, TimerKind, TimerMessage, TimerState};
use vstd::prelude::*;

verus! {

/// The length of one tick, in nanoseconds (250 ms).
pub const TICK_NANOS: u128 = 250_000_000;

/// Shown under the countdown while the timer is paused.
pub open spec fn paused_text() -> Seq<char> {
    "The pomodoro is paused. Press P to resume."@
}

/// Shown under the countdown while the timer is stopped.
pub open spec fn stopped_text() -> Seq<char> {
    "The pomodoro has been stopped and reset. Press S to start again."@
}

/// Shown under the countdown once the timer has finished.
pub open spec fn finished_text() -> Seq<char> {
    "The pomodoro has finished! Press Q to quit."@
}

/// The desktop notification that announces the end of a session of `kind`.
pub open spec fn notice(kind: TimerKind) -> Notice {
    match kind {
        TimerKind::Pomodoro => Notice {
            summary: "Pomodoro Session Finished",
            body: "You've completed your focus session. Take a short break!",
            timeout_millis: 10000,
        },
        TimerKind::ShortBreak => Notice {
            summary: "Short Break  Finished",
            body: "You've completed your short break. Start a new pomodoro!",
            timeout_millis: 10000,
        },
        TimerKind::LongBreak => Notice {
            summary: "Pomodoro Session Finished",
            body: "You've completed your long break. Start a new pomodoro!",
            timeout_millis: 10000,
        },
    }
}

/// What one pass of the engine's loop hands to its driver.
pub struct StepModel {
    pub display: DisplayModel,
    pub effect: TimerEffect,
}

/// The state of a timer, with times in nanoseconds.
pub struct TimerModel {
    pub kind: TimerKind,
    /// The configured length of the countdown.
    pub duration: nat,
    /// The progress of the countdown so far.
    pub elapsed: nat,
    pub state: TimerState,
    /// Whether the start of a running interval is on record.
    pub started: bool,
}

impl TimerModel {
    /// A new timer: stopped, with no progress.
    pub open spec fn new(kind: TimerKind, duration: nat) -> TimerModel {
        TimerModel { kind, duration, elapsed: 0, state: TimerState::Stopped, started: false }
    }

    /// What every timer satisfies, whichever way it was driven.
    pub open spec fn wf(self) -> bool {
        &&& self.duration <= MAX_NANOS
        &&& self.elapsed <= MAX_NANOS
        &&& self.started <==> self.state == TimerState::Running
        &&& self.state == TimerState::Stopped ==> self.elapsed == 0
        &&& self.elapsed > 0 ==> self.elapsed - TICK_NANOS < self.duration
        &&& self.on_grid()
    }

    /// The progress is a whole number of ticks, unless it has reached the
    /// longest span, which only a countdown longer than every whole number of
    /// ticks below that span can make it do.
    pub open spec fn on_grid(self) -> bool {
        ||| self.elapsed % (TICK_NANOS as nat) == 0
        ||| self.elapsed == MAX_NANOS && self.duration > MAX_NANOS - MAX_NANOS % TICK_NANOS
    }

    /// What the engine's loop keeps beyond [`Self::wf`]: a timer finishes only
    /// with its countdown used up.
    pub open spec fn on_course(self) -> bool {
        &&& self.wf()
        &&& self.state == TimerState::Finished ==> self.elapsed >= self.duration
    }

    /// The time left: `duration - elapsed`, and zero once the progress has
    /// passed the duration.
    pub open spec fn remaining(self) -> nat {
        if self.elapsed >= self.duration {
            0
        } else {
            (self.duration - self.elapsed) as nat
        }
    }

    /// The whole seconds of the time left, which is what the display shows.
    pub open spec fn remaining_secs(self) -> u64 {
        (self.remaining() / (NANOS_PER_SEC as nat)) as u64
    }

    /// A stopped timer starts running; any other timer stays as it is.
    pub open spec fn start(self) -> TimerModel {
        if self.state == TimerState::Stopped {
            TimerModel { state: TimerState::Running, started: true, ..self }
        } else {
            self
        }
    }

    /// A running timer pauses; any other timer stays as it is.
    pub open spec fn pause(self) -> TimerModel {
        if self.state == TimerState::Running {
            TimerModel { state: TimerState::Paused, started: false, ..self }
        } else {
            self
        }
    }

    /// A paused timer runs again; any other timer stays as it is.
    pub open spec fn resume(self) -> TimerModel {
        if self.state == TimerState::Paused {
            TimerModel { state: TimerState::Running, started: true, ..self }
        } else {
            self
        }
    }

    /// A running or paused timer stops and loses its progress; any other
    /// timer stays as it is.
    pub open spec fn stop(self) -> TimerModel {
        if self.state == TimerState::Running || self.state == TimerState::Paused {
            TimerModel { state: TimerState::Stopped, started: false, elapsed: 0, ..self }
        } else {
            self
        }
    }

    /// A running timer finishes; any other timer stays as it is.
    pub open spec fn finish(self) -> TimerModel {
        if self.state == TimerState::Running {
            TimerModel { state: TimerState::Finished, started: false, ..self }
        } else {
            self
        }
    }

    /// The timer after one control message. A message that does not apply to
    /// the current state changes nothing.
    pub open spec fn handle(self, message: TimerMessage) -> TimerModel {
        match message {
            TimerMessage::Start => self.start(),
            TimerMessage::ToggleStop => match self.state {
                TimerState::Running => self.stop(),
                TimerState::Stopped => self.start(),
                _ => self,
            },
            TimerMessage::TogglePause => match self.state {
                TimerState::Running => self.pause(),
                TimerState::Paused => self.resume(),
                _ => self,
            },
        }
    }

    /// The timer after the message that a pass of the loop found, if it found
    /// one.
    pub open spec fn accept(self, message: Option<TimerMessage>) -> TimerModel {
        match message {
            Some(m) => self.handle(m),
            None => self,
        }
    }

    /// The progress after one more tick.
    pub open spec fn elapsed_after_tick(self) -> nat {
        if self.elapsed + TICK_NANOS <= MAX_NANOS {
            self.elapsed + TICK_NANOS as nat
        } else {
            MAX_NANOS as nat
        }
    }

    /// The timer after the second half of a pass of the loop: a running timer
    /// with time left advances by one tick, a running timer with none
    /// finishes, and any other timer stays as it is.
    pub open spec fn advance(self) -> TimerModel {
        if self.state == TimerState::Running {
            if self.remaining() > 0 {
                TimerModel { elapsed: self.elapsed_after_tick(), ..self }
            } else {
                self.finish()
            }
        } else {
            self
        }
    }

    /// The timer after one whole pass of the loop.
    pub open spec fn step(self, message: Option<TimerMessage>) -> TimerModel {
        self.accept(message).advance()
    }

    /// The timer after `passes` passes of the loop that found no message.
    pub open spec fn idle(self, passes: nat) -> TimerModel
        decreases passes,
    {
        if passes == 0 {
            self
        } else {
            self.idle((passes - 1) as nat).step(None)
        }
    }

    /// The timer after one pass of the loop for each entry of `inbox`, in
    /// order: an entry is the message that the pass found, if it found one.
    pub open spec fn run(self, inbox: Seq<Option<TimerMessage>>) -> TimerModel
        decreases inbox.len(),
    {
        if inbox.len() == 0 {
            self
        } else {
            self.run(inbox.drop_last()).step(inbox.last())
        }
    }

    /// The number of ticks that use up the time left: the time left divided
    /// by the tick, rounded up.
    pub open spec fn ticks_left(self) -> nat {
        (self.remaining() + TICK_NANOS - 1) as nat / (TICK_NANOS as nat)
    }

    /// What the second half of a pass shows, where `text` is the rendering of
    /// the time left.
    pub open spec fn display(self, text: Seq<char>) -> DisplayModel {
        DisplayModel {
            center: Some(text),
            bottom_middle: match self.state {
                TimerState::Running => None,
                TimerState::Paused => Some(paused_text()),
                TimerState::Stopped => Some(stopped_text()),
                TimerState::Finished => Some(finished_text()),
            },
        }
    }

    /// What the driver has to do after the second half of a pass.
    pub open spec fn effect(self) -> TimerEffect {
        match self.state {
            TimerState::Running => if self.remaining() > 0 {
                TimerEffect::Sleep
            } else {
                TimerEffect::Notify(notice(self.kind))
            },
            TimerState::Paused => TimerEffect::Sleep,
            TimerState::Stopped => TimerEffect::Sleep,
            TimerState::Finished => TimerEffect::Alarm,
        }
    }

    /// What the second half of a pass hands to the driver.
    pub open spec fn output(self, text: Seq<char>) -> StepModel {
        StepModel { display: self.display(text), effect: self.effect() }
    }
}

} // verus!
