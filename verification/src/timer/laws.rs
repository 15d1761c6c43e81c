//! What holds of the timer's state machine, proved over its model.

use crate::span::MAX_NANOS;
use crate::timer::model::{TimerModel, TICK_NANOS};
use crate::timer::{TimerKind, TimerMessage, TimerState};
use vstd::prelude::*;

verus! {

/// A control message takes a well-formed timer to a well-formed timer, and
/// changes neither its kind nor its duration.
pub proof fn lemma_handle_keeps_wf(m: TimerModel, message: TimerMessage)
    requires
        m.wf(),
    ensures
        m.handle(message).wf(),
        m.handle(message).kind == m.kind,
        m.handle(message).duration == m.duration,
{
}

/// A control message never finishes a timer: only the loop does, once the
/// countdown is used up.
pub proof fn lemma_handle_keeps_course(m: TimerModel, message: TimerMessage)
    requires
        m.on_course(),
    ensures
        m.handle(message).on_course(),
{
}

/// A pass of the loop takes a well-formed timer to a well-formed timer, and
/// changes neither its kind nor its duration. If it changes the progress,
/// then to zero or by one tick, and this never makes the progress shrink
/// unless the timer was stopped.
pub proof fn lemma_step_keeps_wf(m: TimerModel, message: Option<TimerMessage>)
    requires
        m.wf(),
    ensures
        m.step(message).wf(),
        m.step(message).kind == m.kind,
        m.step(message).duration == m.duration,
        m.step(message).elapsed == m.elapsed || m.step(message).elapsed == 0 || m.step(
            message,
        ).elapsed == m.accept(message).elapsed_after_tick(),
        m.step(message).state != TimerState::Stopped ==> m.step(message).elapsed >= m.elapsed,
{
}

/// A pass of the loop takes a timer on course to a timer on course: the
/// loop finishes a timer only when its countdown is used up.
pub proof fn lemma_step_keeps_course(m: TimerModel, message: Option<TimerMessage>)
    requires
        m.on_course(),
    ensures
        m.step(message).on_course(),
{
}

/// Every timer that the loop has driven from a new one, whatever messages
/// its passes found, is on course; it has the kind and the duration it was
/// made with.
pub proof fn lemma_run_keeps_course(
    kind: TimerKind,
    duration: nat,
    inbox: Seq<Option<TimerMessage>>,
)
    requires
        duration <= MAX_NANOS,
    ensures
        TimerModel::new(kind, duration).run(inbox).on_course(),
        TimerModel::new(kind, duration).run(inbox).kind == kind,
        TimerModel::new(kind, duration).run(inbox).duration == duration,
    decreases inbox.len(),
{
    if inbox.len() > 0 {
        let before = TimerModel::new(kind, duration).run(inbox.drop_last());
        lemma_run_keeps_course(kind, duration, inbox.drop_last());
        lemma_step_keeps_wf(before, inbox.last());
        lemma_step_keeps_course(before, inbox.last());
    }
}

/// However the loop has driven a new timer, with whatever pauses, stops and
/// restarts: once the timer has finished, its progress is the duration or
/// less than one tick more, and exactly the duration where that is a whole
/// number of ticks.
pub proof fn lemma_run_finishes_on_time(
    kind: TimerKind,
    duration: nat,
    inbox: Seq<Option<TimerMessage>>,
)
    requires
        duration <= MAX_NANOS,
        TimerModel::new(kind, duration).run(inbox).state == TimerState::Finished,
    ensures
        duration <= TimerModel::new(kind, duration).run(inbox).elapsed < duration + TICK_NANOS,
        TimerModel::new(kind, duration).run(inbox).remaining() == 0,
        duration % (TICK_NANOS as nat) == 0 ==> TimerModel::new(kind, duration).run(inbox).elapsed
            == duration,
{
    lemma_run_keeps_course(kind, duration, inbox);
}

/// A finished timer stays as it is, whatever message a pass finds.
pub proof fn lemma_finished_is_final(m: TimerModel, message: Option<TimerMessage>)
    requires
        m.state == TimerState::Finished,
    ensures
        m.step(message) == m,
{
}

/// `TogglePause` leaves a stopped timer and a finished timer as they are.
pub proof fn lemma_toggle_pause_ignored(m: TimerModel)
    requires
        m.state == TimerState::Stopped || m.state == TimerState::Finished,
    ensures
        m.handle(TimerMessage::TogglePause) == m,
{
}

/// `ToggleStop` stops a running timer and resets its progress, and starts a
/// stopped timer; it changes nothing else of either.
pub proof fn lemma_toggle_stop(m: TimerModel)
    ensures
        m.state == TimerState::Running ==> m.handle(TimerMessage::ToggleStop) == (TimerModel {
            state: TimerState::Stopped,
            elapsed: 0,
            started: false,
            ..m
        }),
        m.state == TimerState::Stopped ==> m.handle(TimerMessage::ToggleStop) == (TimerModel {
            state: TimerState::Running,
            started: true,
            ..m
        }),
{
}

/// The time left is never negative. It is the duration less the progress as
/// long as the progress has not passed the duration, which it never does
/// where the duration is a whole number of ticks.
pub proof fn lemma_remaining(m: TimerModel)
    requires
        m.wf(),
    ensures
        m.remaining() >= 0,
        m.elapsed <= m.duration ==> m.remaining() == m.duration - m.elapsed,
        m.duration % (TICK_NANOS as nat) == 0 ==> m.elapsed <= m.duration,
{
}

/// `Start`, `TogglePause` and `TogglePause`, applied in this order to a
/// stopped timer, leave it running: started, paused, resumed.
pub proof fn lemma_start_pause_resume(m: TimerModel)
    requires
        m.state == TimerState::Stopped,
    ensures
        m.handle(TimerMessage::Start).state == TimerState::Running,
        m.handle(TimerMessage::Start).handle(TimerMessage::TogglePause).state
            == TimerState::Paused,
        m.handle(TimerMessage::Start).handle(TimerMessage::TogglePause).handle(
            TimerMessage::TogglePause,
        ) == m.start(),
{
}

/// Three passes that find `Start`, `TogglePause` and `TogglePause`, one
/// each, leave a new timer of more than one tick running, two ticks into its
/// countdown: the first pass starts it and ticks, the second pauses it, the
/// third resumes it and ticks.
pub proof fn lemma_start_pause_resume_passes(kind: TimerKind, duration: nat)
    requires
        TICK_NANOS < duration <= MAX_NANOS,
    ensures
        TimerModel::new(kind, duration).run(
            seq![
                Some(TimerMessage::Start),
                Some(TimerMessage::TogglePause),
                Some(TimerMessage::TogglePause),
            ],
        ) == (TimerModel {
            state: TimerState::Running,
            started: true,
            elapsed: 2 * TICK_NANOS as nat,
            ..TimerModel::new(kind, duration)
        }),
{
    let m = TimerModel::new(kind, duration);
    let three = seq![
        Some(TimerMessage::Start),
        Some(TimerMessage::TogglePause),
        Some(TimerMessage::TogglePause),
    ];
    let two = three.drop_last();
    let one = two.drop_last();
    assert(m.run(one.drop_last()) == m);
    assert(m.run(one) == m.step(Some(TimerMessage::Start)));
    assert(m.run(two) == m.run(one).step(Some(TimerMessage::TogglePause)));
    assert(m.run(three) == m.run(two).step(Some(TimerMessage::TogglePause)));
}

/// No time accrues while a timer is paused or stopped, nor once it has
/// finished: passes that find no message leave it as it is.
pub proof fn lemma_idle_at_rest(m: TimerModel, passes: nat)
    requires
        m.state != TimerState::Running,
    ensures
        m.idle(passes) == m,
    decreases passes,
{
    if passes > 0 {
        lemma_idle_at_rest(m, (passes - 1) as nat);
    }
}

/// A pause keeps the progress: a running timer that is paused in one pass,
/// left alone for any number of passes and resumed in one more is where a
/// single pass without a message would have taken it.
pub proof fn lemma_pause_keeps_progress(m: TimerModel, wait: nat)
    requires
        m.wf(),
        m.state == TimerState::Running,
    ensures
        m.step(Some(TimerMessage::TogglePause)).state == TimerState::Paused,
        m.step(Some(TimerMessage::TogglePause)).elapsed == m.elapsed,
        m.step(Some(TimerMessage::TogglePause)).idle(wait) == m.step(
            Some(TimerMessage::TogglePause),
        ),
        m.step(Some(TimerMessage::TogglePause)).idle(wait).step(Some(TimerMessage::TogglePause))
            == m.step(None),
{
    lemma_idle_at_rest(m.step(Some(TimerMessage::TogglePause)), wait);
}

/// A running timer that is left alone is still running after each of the
/// first `ticks_left` passes, every one of which is a tick.
pub proof fn lemma_countdown(m: TimerModel, passes: nat)
    requires
        m.wf(),
        m.state == TimerState::Running,
        passes <= m.ticks_left(),
    ensures
        m.idle(passes).wf(),
        m.idle(passes).state == TimerState::Running,
        m.idle(passes).kind == m.kind,
        m.idle(passes).duration == m.duration,
        m.idle(passes).ticks_left() == m.ticks_left() - passes,
        m.idle(passes).elapsed == if m.elapsed + passes * TICK_NANOS <= MAX_NANOS {
            m.elapsed + passes * TICK_NANOS
        } else {
            MAX_NANOS as int
        },
    decreases passes,
{
    if passes > 0 {
        lemma_countdown(m, (passes - 1) as nat);
    }
}

/// A running timer that is left alone finishes in the pass after its last
/// tick, less than one tick late, and not before.
pub proof fn lemma_finishes_after_last_tick(m: TimerModel)
    requires
        m.wf(),
        m.state == TimerState::Running,
    ensures
        m.idle(m.ticks_left()).state == TimerState::Running,
        m.idle(m.ticks_left()).remaining() == 0,
        m.idle(m.ticks_left() + 1).state == TimerState::Finished,
        m.idle(m.ticks_left() + 1).elapsed == m.idle(m.ticks_left()).elapsed,
        m.duration <= m.idle(m.ticks_left() + 1).elapsed < m.duration + TICK_NANOS,
        m.duration % (TICK_NANOS as nat) == 0 ==> m.idle(m.ticks_left() + 1).elapsed
            == m.duration,
{
    lemma_countdown(m, m.ticks_left());
}

/// A new timer of a duration above zero that is started and left alone
/// finishes after exactly as many ticks as the duration divided by the tick,
/// rounded up: it is running with time left before each of them, out of time
/// after the last, and finished by the pass that follows, less than one tick
/// late.
pub proof fn lemma_started_timer_finishes(kind: TimerKind, duration: nat, passes: nat)
    requires
        0 < duration <= MAX_NANOS,
    ensures
        ({
            let started = TimerModel::new(kind, duration).handle(TimerMessage::Start);
            let ticks = (duration + TICK_NANOS - 1) as nat / (TICK_NANOS as nat);
            &&& started.ticks_left() == ticks
            &&& ticks > 0
            &&& passes < ticks ==> started.idle(passes).state == TimerState::Running
                && started.idle(passes).remaining() > 0
            &&& started.idle(ticks).state == TimerState::Running
            &&& started.idle(ticks).remaining() == 0
            &&& started.idle(ticks + 1).state == TimerState::Finished
            &&& duration <= started.idle(ticks + 1).elapsed < duration + TICK_NANOS
        }),
{
    let started = TimerModel::new(kind, duration).handle(TimerMessage::Start);
    lemma_finishes_after_last_tick(started);
    if passes < started.ticks_left() {
        lemma_countdown(started, passes);
    }
}

/// A timer that was paused, left alone and resumed still finishes with its
/// countdown used up, less than one tick late: with a total progress of
/// exactly the duration, where that is a whole number of ticks.
pub proof fn lemma_paused_timer_finishes(m: TimerModel, wait: nat)
    requires
        m.wf(),
        m.state == TimerState::Running,
    ensures
        ({
            let resumed = m.step(Some(TimerMessage::TogglePause)).idle(wait).step(
                Some(TimerMessage::TogglePause),
            );
            let end = resumed.idle(resumed.ticks_left() + 1);
            &&& end.state == TimerState::Finished
            &&& m.duration <= end.elapsed < m.duration + TICK_NANOS
            &&& m.duration % (TICK_NANOS as nat) == 0 ==> end.elapsed == m.duration
        }),
{
    let resumed = m.step(None);
    lemma_pause_keeps_progress(m, wait);
    lemma_step_keeps_wf(m, None);
    if resumed.state == TimerState::Running {
        lemma_finishes_after_last_tick(resumed);
    } else {
        lemma_idle_at_rest(resumed, resumed.ticks_left() + 1);
    }
}

} // verus!
