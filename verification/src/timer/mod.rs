//! The timer engine: a countdown driven by control messages and by ticks.

pub mod laws;
pub mod model;
pub mod timer_display;

use crate::span::Span;
use crate::timer::model::{StepModel, TimerModel};
use crate::timer::timer_display::DisplayPosition;
use std::sync::mpsc::Receiver;
use std::time::{Duration, Instant};
use vstd::prelude::*;

verus! {

/// Which kind of session a timer counts down. It selects the text of the
/// notification and nothing else.
#[derive(Clone, Copy, Debug, PartialEq, Eq, Structural)]
pub enum TimerKind {
    Pomodoro,
    ShortBreak,
    LongBreak,
}

/// A control message for the timer.
#[derive(Clone, Copy, Debug, PartialEq, Eq, Structural)]
pub enum TimerMessage {
    Start,
    ToggleStop,
    TogglePause,
}

/// Where a timer is in its life.
#[derive(Clone, Copy, Debug, PartialEq, Eq, Structural)]
pub enum TimerState {
    Stopped,
    Running,
    Paused,
    Finished,
}

/// A desktop notification: its two texts, and how long it stays.
#[derive(Clone, Copy, Debug, PartialEq, Eq)]
pub struct Notice {
    pub summary: &'static str,
    pub body: &'static str,
    pub timeout_millis: u32,
}

/// What the driver of the engine's loop does after it has shown the display.
#[derive(Clone, Copy, Debug, PartialEq, Eq)]
pub enum TimerEffect {
    /// Wait for one tick, then make the next pass.
    Sleep,
    /// Show the notification, then make the next pass at once.
    Notify(Notice),
    /// Sound the alarm and leave the loop.
    Alarm,
}

/// One pass of the engine's loop, as its driver sees it: what to show, and
/// what to do then.
#[derive(Debug, PartialEq, Eq)]
pub struct TimerStep {
    pub display: DisplayPosition,
    pub effect: TimerEffect,
}

impl View for TimerStep {
    type V = StepModel;

    open spec fn view(&self) -> StepModel {
        StepModel { display: self.display@, effect: self.effect }
    }
}

/// `std::time::Instant`: a moment in time, carried through and never looked
/// into.
#[verifier::external_type_specification]
#[verifier::external_body]
pub struct ExInstant(std::time::Instant);

/// `std::time::Instant::now`: the present moment. Nothing is claimed of it.
#[verifier::external_body]
fn now() -> Instant {
    Instant::now()
}

/// `std::sync::mpsc::Receiver`: the receiving end of a channel. What waits
/// in the channel is not modelled.
#[verifier::external_type_specification]
#[verifier::external_body]
#[verifier::reject_recursive_types(T)]
pub struct ExReceiver<T>(std::sync::mpsc::Receiver<T>);

/// `std::sync::mpsc::Receiver::try_recv`, without blocking: the next message
/// of the channel, or `None` where none is waiting or the sender is gone.
/// Which of these comes back depends on the sender, so nothing is claimed.
#[verifier::external_body]
fn try_receive(receiver: &Receiver<TimerMessage>) -> (message: Option<TimerMessage>) {
    receiver.try_recv().ok()
}

/// The text that `humantime::format_duration` gives for a duration of `secs`
/// whole seconds.
pub uninterp spec fn formatted_duration(secs: u64) -> Seq<char>;

/// `humantime::format_duration` on a duration of `secs` whole seconds, as a
/// `String`. The text is a function of `secs` alone; what it is on a given
/// number is not stated here.
#[verifier::external_body]
fn format_secs(secs: u64) -> (text: String)
    ensures
        text@ == formatted_duration(secs),
{
    humantime::format_duration(Duration::from_secs(secs)).to_string()
}

/// Where a timer is in its life, with the moment at which the current
/// running interval began.
enum Phase {
    Stopped,
    Running(Instant),
    Paused,
    Finished,
}

/// A countdown timer with the receiving end of its channel of control
/// messages.
///
/// The view of a timer is its [`TimerModel`]; every timer's model is
/// well-formed ([`TimerModel::wf`]). The messages that wait in the channel
/// are no part of the view.
pub struct Timer {
    kind: TimerKind,
    duration: Span,
    elapsed_time: Span,
    receiver: Receiver<TimerMessage>,
    phase: Phase,
}

impl View for Timer {
    type V = TimerModel;

    closed spec fn view(&self) -> TimerModel {
        TimerModel {
            kind: self.kind,
            duration: self.duration@,
            elapsed: self.elapsed_time@,
            state: match self.phase {
                Phase::Stopped => TimerState::Stopped,
                Phase::Running(_) => TimerState::Running,
                Phase::Paused => TimerState::Paused,
                Phase::Finished => TimerState::Finished,
            },
            started: self.phase is Running,
        }
    }
}

impl Timer {
    /// The model of every timer is well-formed, and a start is on record in
    /// the model exactly where the timer holds its moment.
    #[verifier::type_invariant]
    pub open spec fn inv(self) -> bool {
        &&& self@.wf()
        &&& self.started_at() is Some <==> self@.started
    }

    /// The moment at which the current running interval began, if the timer
    /// is running.
    pub closed spec fn started_at(self) -> Option<Instant> {
        match self.phase {
            Phase::Running(start) => Some(start),
            _ => None,
        }
    }

    /// What every change of a timer does to the recorded start: a timer
    /// holds one exactly while it is running, and a timer that stays running
    /// keeps the one it has. Only a timer that begins to run records a new
    /// one.
    pub open spec fn keeps_start(self, before: Timer) -> bool {
        &&& self.started_at() is Some <==> self@.state == TimerState::Running
        &&& before.started_at() is Some <==> before@.state == TimerState::Running
        &&& before@.state == TimerState::Running && self@.state == TimerState::Running
            ==> self.started_at() == before.started_at()
    }

    /// The receiving end of the channel that the timer takes its messages
    /// from.
    pub closed spec fn receiver(self) -> Receiver<TimerMessage> {
        self.receiver
    }

    /// A timer of the given kind and duration, which takes its messages from
    /// `receiver`: stopped, with no progress.
    pub fn new(kind: TimerKind, duration: Span, receiver: Receiver<TimerMessage>) -> (timer:
        Timer)
        ensures
            timer@ == TimerModel::new(kind, duration@),
            timer.receiver() == receiver,
    {
        proof {
            use_type_invariant(&duration);
        }
        Timer { kind, duration, elapsed_time: Span::zero(), receiver, phase: Phase::Stopped }
    }

    /// One pass of the engine's loop: takes at most one message from the
    /// channel, without waiting for one, and makes the step for what it
    /// found.
    pub fn poll(&mut self) -> (step: TimerStep)
        ensures
            final(self).receiver() == old(self).receiver(),
            final(self).keeps_start(*old(self)),
            exists|message: Option<TimerMessage>|
                {
                    &&& final(self)@ == old(self)@.step(message)
                    &&& step@ == #[trigger] old(self)@.accept(message).output(
                        formatted_duration(old(self)@.accept(message).remaining_secs()),
                    )
                },
    {
        let message = try_receive(&self.receiver);
        self.step(message)
    }

    /// One pass of the engine's loop: applies `message`, if the loop found
    /// one, then renders the time left and advances the countdown.
    pub fn step(&mut self, message: Option<TimerMessage>) -> (step: TimerStep)
        ensures
            final(self).receiver() == old(self).receiver(),
            final(self).keeps_start(*old(self)),
            final(self)@ == old(self)@.step(message),
            step@ == old(self)@.accept(message).output(
                formatted_duration(old(self)@.accept(message).remaining_secs()),
            ),
    {
        if let Some(m) = message {
            self.handle(m);
        }
        let text = self.remaining_text();
        self.advance(text)
    }

    /// The second half of a pass of the loop, where `text` is the rendering
    /// of the time left. A running timer with time left advances by one tick
    /// and the driver sleeps; a running timer with none finishes and the
    /// driver shows the notification; a paused or stopped timer stays as it
    /// is and the driver sleeps; a finished timer has the driver sound the
    /// alarm and leave the loop.
    pub fn advance(&mut self, text: String) -> (step: TimerStep)
        ensures
            final(self).receiver() == old(self).receiver(),
            final(self).keeps_start(*old(self)),
            final(self)@ == old(self)@.advance(),
            step@ == old(self)@.output(text@),
    {
        proof {
            use_type_invariant(&*self);
        }
        match self.state() {
            TimerState::Running => {
                let display = DisplayPosition { center: Some(text), bottom_middle: None };
                if !self.remaining_time().is_zero() {
                    self.elapsed_time = self.elapsed_time.saturating_add(Self::tick());
                    TimerStep { display, effect: TimerEffect::Sleep }
                } else {
                    let notice = self.finish();
                    TimerStep { display, effect: TimerEffect::Notify(notice) }
                }
            },
            TimerState::Paused => {
                let display = DisplayPosition {
                    center: Some(text),
                    bottom_middle: Some("The pomodoro is paused. Press P to resume.".to_owned()),
                };
                TimerStep { display, effect: TimerEffect::Sleep }
            },
            TimerState::Stopped => {
                let display = DisplayPosition {
                    center: Some(text),
                    bottom_middle: Some(
                        "The pomodoro has been stopped and reset. Press S to start again."
                            .to_owned(),
                    ),
                };
                TimerStep { display, effect: TimerEffect::Sleep }
            },
            TimerState::Finished => {
                let display = DisplayPosition {
                    center: Some(text),
                    bottom_middle: Some("The pomodoro has finished! Press Q to quit.".to_owned()),
                };
                TimerStep { display, effect: TimerEffect::Alarm }
            },
        }
    }

    /// Finishes a running timer and does nothing to a timer in any other
    /// state. Either way it returns the notification for the timer's kind.
    pub fn finish(&mut self) -> (notice: Notice)
        ensures
            final(self).receiver() == old(self).receiver(),
            final(self).keeps_start(*old(self)),
            final(self)@ == old(self)@.finish(),
            notice == model::notice(old(self)@.kind),
    {
        proof {
            use_type_invariant(&*self);
        }
        let notice = match self.kind {
            TimerKind::Pomodoro => Notice {
                summary: "Pomodoro Session Finished",
                body: "You've completed your focus session. Take a short break!",
                timeout_millis: 10000,
            },
            TimerKind::ShortBreak => Notice {
                summary: "Short Break  Finished",
                body: "You've completed your short break. Start a new pomodoro!",
                timeout_millis: 10000,
            },
            TimerKind::LongBreak => Notice {
                summary: "Pomodoro Session Finished",
                body: "You've completed your long break. Start a new pomodoro!",
                timeout_millis: 10000,
            },
        };
        if let Phase::Running(_) = self.phase {
            self.phase = Phase::Finished;
        }
        notice
    }

    /// Applies one control message: `Start` starts a stopped timer,
    /// `ToggleStop` stops a running timer and starts a stopped one,
    /// `TogglePause` pauses a running timer and resumes a paused one. A
    /// message that does not apply to the current state is ignored.
    pub fn handle(&mut self, message: TimerMessage)
        ensures
            final(self).receiver() == old(self).receiver(),
            final(self).keeps_start(*old(self)),
            final(self)@ == old(self)@.handle(message),
    {
        match message {
            TimerMessage::Start => self.start(),
            TimerMessage::ToggleStop => match self.phase {
                Phase::Running(_) => self.stop(),
                Phase::Stopped => self.start(),
                _ => (),
            },
            TimerMessage::TogglePause => match self.phase {
                Phase::Running(_) => self.pause(),
                Phase::Paused => self.resume(),
                _ => (),
            },
        }
    }

    /// Stops a running or paused timer and resets its progress; does nothing
    /// to a timer in any other state.
    pub fn stop(&mut self)
        ensures
            final(self).receiver() == old(self).receiver(),
            final(self).keeps_start(*old(self)),
            final(self)@ == old(self)@.stop(),
    {
        proof {
            use_type_invariant(&*self);
        }
        if let Phase::Running(_) | Phase::Paused = self.phase {
            self.elapsed_time = Span::zero();
            self.phase = Phase::Stopped;
        }
    }

    /// Starts a stopped timer, recording the moment; does nothing to a timer
    /// in any other state.
    pub fn start(&mut self)
        ensures
            final(self).receiver() == old(self).receiver(),
            final(self).keeps_start(*old(self)),
            final(self)@ == old(self)@.start(),
    {
        proof {
            use_type_invariant(&*self);
        }
        if let Phase::Stopped = self.phase {
            self.phase = Phase::Running(now());
        }
    }

    /// Pauses a running timer; does nothing to a timer in any other state.
    pub fn pause(&mut self)
        ensures
            final(self).receiver() == old(self).receiver(),
            final(self).keeps_start(*old(self)),
            final(self)@ == old(self)@.pause(),
    {
        proof {
            use_type_invariant(&*self);
        }
        if let Phase::Running(_) = self.phase {
            self.phase = Phase::Paused;
        }
    }

    /// Lets a paused timer run again, recording the moment; does nothing to
    /// a timer in any other state.
    pub fn resume(&mut self)
        ensures
            final(self).receiver() == old(self).receiver(),
            final(self).keeps_start(*old(self)),
            final(self)@ == old(self)@.resume(),
    {
        proof {
            use_type_invariant(&*self);
        }
        if let Phase::Paused = self.phase {
            self.phase = Phase::Running(now());
        }
    }

    /// The rendering of the time left, in whole seconds.
    pub fn remaining_text(&self) -> (text: String)
        ensures
            text@ == formatted_duration(self@.remaining_secs()),
    {
        format_secs(self.remaining_time().as_secs())
    }

    /// The time left: the duration less the progress, and zero once the
    /// progress has passed the duration.
    pub fn remaining_time(&self) -> (remaining: Span)
        ensures
            remaining@ == self@.remaining(),
            self@.elapsed <= self@.duration ==> remaining@ == self@.duration - self@.elapsed,
    {
        self.duration.saturating_sub(self.elapsed_time)
    }

    /// The state that the timer is in.
    pub fn state(&self) -> (state: TimerState)
        ensures
            state == self@.state,
    {
        match self.phase {
            Phase::Stopped => TimerState::Stopped,
            Phase::Running(_) => TimerState::Running,
            Phase::Paused => TimerState::Paused,
            Phase::Finished => TimerState::Finished,
        }
    }

    /// The kind of session that the timer counts down.
    pub fn kind(&self) -> (kind: TimerKind)
        ensures
            kind == self@.kind,
    {
        self.kind
    }

    /// The configured length of the countdown.
    pub fn duration(&self) -> (duration: Span)
        ensures
            duration@ == self@.duration,
    {
        self.duration
    }

    /// The progress of the countdown so far.
    pub fn elapsed_time(&self) -> (elapsed: Span)
        ensures
            elapsed@ == self@.elapsed,
    {
        self.elapsed_time
    }

    /// The moment at which the current running interval began: on record
    /// while the timer is running, and only then.
    pub fn start_time(&self) -> (start: Option<Instant>)
        ensures
            start == self.started_at(),
            start is Some <==> self@.started,
            start is Some <==> self@.state == TimerState::Running,
    {
        proof {
            use_type_invariant(self);
        }
        match self.phase {
            Phase::Running(start) => Some(start),
            _ => None,
        }
    }

    /// The length of one tick: 250 ms.
    pub fn tick() -> (tick: Span)
        ensures
            tick@ == model::TICK_NANOS,
    {
        Span::from_millis(250)
    }
}

} // verus!
