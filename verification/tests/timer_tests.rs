use oxitime::span::Span;
use oxitime::timer::{Timer, TimerEffect, TimerKind, TimerMessage, TimerState};
use std::sync::mpsc::{channel, Sender};

fn timer_with_sender(kind: TimerKind, duration: Span) -> (Timer, Sender<TimerMessage>) {
    let (tx, rx) = channel();
    (Timer::new(kind, duration, rx), tx)
}

fn new_timer(kind: TimerKind, duration: Span) -> Timer {
    timer_with_sender(kind, duration).0
}

fn secs(n: u64) -> Span {
    Span::from_secs(n)
}

fn millis(n: u64) -> Span {
    Span::from_millis(n)
}

fn text(step_text: &Option<String>) -> &str {
    step_text.as_deref().unwrap_or("")
}

#[test]
fn new_timer_is_stopped_with_no_progress() {
    let timer = new_timer(TimerKind::Pomodoro, secs(1500));
    assert_eq!(timer.state(), TimerState::Stopped);
    assert_eq!(timer.kind(), TimerKind::Pomodoro);
    assert_eq!(timer.duration(), secs(1500));
    assert_eq!(timer.elapsed_time(), Span::zero());
    assert_eq!(timer.remaining_time(), secs(1500));
    assert!(timer.start_time().is_none());
}

#[test]
fn start_runs_a_stopped_timer_only() {
    let mut timer = new_timer(TimerKind::Pomodoro, secs(10));
    timer.start();
    assert_eq!(timer.state(), TimerState::Running);
    assert!(timer.start_time().is_some());
    timer.pause();
    timer.start();
    assert_eq!(timer.state(), TimerState::Paused);
}

#[test]
fn pause_and_resume_toggle_a_running_timer() {
    let mut timer = new_timer(TimerKind::Pomodoro, secs(10));
    timer.pause();
    assert_eq!(timer.state(), TimerState::Stopped);
    timer.resume();
    assert_eq!(timer.state(), TimerState::Stopped);
    timer.start();
    timer.resume();
    assert_eq!(timer.state(), TimerState::Running);
    timer.pause();
    assert_eq!(timer.state(), TimerState::Paused);
    assert!(timer.start_time().is_none());
    timer.pause();
    assert_eq!(timer.state(), TimerState::Paused);
    timer.resume();
    assert_eq!(timer.state(), TimerState::Running);
    assert!(timer.start_time().is_some());
}

#[test]
fn stop_resets_progress_of_running_and_paused_timers() {
    let mut timer = new_timer(TimerKind::Pomodoro, secs(10));
    timer.start();
    timer.step(None);
    timer.step(None);
    assert_eq!(timer.elapsed_time(), millis(500));
    timer.stop();
    assert_eq!(timer.state(), TimerState::Stopped);
    assert_eq!(timer.elapsed_time(), Span::zero());
    assert!(timer.start_time().is_none());

    timer.start();
    timer.step(None);
    timer.pause();
    timer.stop();
    assert_eq!(timer.state(), TimerState::Stopped);
    assert_eq!(timer.elapsed_time(), Span::zero());

    timer.stop();
    assert_eq!(timer.state(), TimerState::Stopped);
}

#[test]
fn finish_ends_a_running_timer_only() {
    let mut timer = new_timer(TimerKind::ShortBreak, secs(10));
    let notice = timer.finish();
    assert_eq!(timer.state(), TimerState::Stopped);
    assert_eq!(notice.summary, "Short Break  Finished");
    timer.start();
    timer.pause();
    timer.finish();
    assert_eq!(timer.state(), TimerState::Paused);
    timer.resume();
    timer.finish();
    assert_eq!(timer.state(), TimerState::Finished);
    assert!(timer.start_time().is_none());
    timer.start();
    timer.stop();
    timer.pause();
    timer.resume();
    assert_eq!(timer.state(), TimerState::Finished);
}

#[test]
fn notice_follows_the_kind() {
    let mut pomodoro = new_timer(TimerKind::Pomodoro, secs(1));
    let notice = pomodoro.finish();
    assert_eq!(notice.summary, "Pomodoro Session Finished");
    assert_eq!(notice.body, "You've completed your focus session. Take a short break!");
    assert_eq!(notice.timeout_millis, 10000);

    let mut short = new_timer(TimerKind::ShortBreak, secs(1));
    let notice = short.finish();
    assert_eq!(notice.summary, "Short Break  Finished");
    assert_eq!(notice.body, "You've completed your short break. Start a new pomodoro!");
    assert_eq!(notice.timeout_millis, 10000);

    let mut long = new_timer(TimerKind::LongBreak, secs(1));
    let notice = long.finish();
    assert_eq!(notice.summary, "Pomodoro Session Finished");
    assert_eq!(notice.body, "You've completed your long break. Start a new pomodoro!");
    assert_eq!(notice.timeout_millis, 10000);
}

#[test]
fn toggle_pause_is_ignored_when_stopped_or_finished() {
    let mut timer = new_timer(TimerKind::Pomodoro, millis(250));
    timer.handle(TimerMessage::TogglePause);
    assert_eq!(timer.state(), TimerState::Stopped);
    assert_eq!(timer.elapsed_time(), Span::zero());

    timer.handle(TimerMessage::Start);
    timer.step(None);
    timer.step(None);
    assert_eq!(timer.state(), TimerState::Finished);
    let elapsed = timer.elapsed_time();
    timer.handle(TimerMessage::TogglePause);
    assert_eq!(timer.state(), TimerState::Finished);
    assert_eq!(timer.elapsed_time(), elapsed);
}

#[test]
fn toggle_stop_stops_a_running_timer_and_starts_a_stopped_one() {
    let mut timer = new_timer(TimerKind::Pomodoro, secs(10));
    timer.handle(TimerMessage::ToggleStop);
    assert_eq!(timer.state(), TimerState::Running);
    timer.step(None);
    assert_eq!(timer.elapsed_time(), millis(250));
    timer.handle(TimerMessage::ToggleStop);
    assert_eq!(timer.state(), TimerState::Stopped);
    assert_eq!(timer.elapsed_time(), Span::zero());
    assert_eq!(timer.remaining_time(), secs(10));
}

#[test]
fn toggle_stop_is_ignored_when_paused_or_finished() {
    let mut timer = new_timer(TimerKind::Pomodoro, secs(10));
    timer.start();
    timer.step(None);
    timer.pause();
    timer.handle(TimerMessage::ToggleStop);
    assert_eq!(timer.state(), TimerState::Paused);
    assert_eq!(timer.elapsed_time(), millis(250));
    timer.resume();
    timer.finish();
    timer.handle(TimerMessage::ToggleStop);
    assert_eq!(timer.state(), TimerState::Finished);
    timer.handle(TimerMessage::Start);
    assert_eq!(timer.state(), TimerState::Finished);
}

#[test]
fn start_pause_pause_leaves_the_timer_running() {
    let mut timer = new_timer(TimerKind::Pomodoro, secs(10));
    timer.handle(TimerMessage::Start);
    assert_eq!(timer.state(), TimerState::Running);
    timer.handle(TimerMessage::TogglePause);
    assert_eq!(timer.state(), TimerState::Paused);
    timer.handle(TimerMessage::TogglePause);
    assert_eq!(timer.state(), TimerState::Running);
}

#[test]
fn queued_messages_drain_one_per_pass() {
    let (mut timer, tx) = timer_with_sender(TimerKind::Pomodoro, secs(10));
    tx.send(TimerMessage::Start).unwrap();
    tx.send(TimerMessage::TogglePause).unwrap();
    tx.send(TimerMessage::TogglePause).unwrap();
    let mut states = Vec::new();
    for _ in 0..3 {
        timer.poll();
        states.push(timer.state());
    }
    assert_eq!(states, vec![TimerState::Running, TimerState::Paused, TimerState::Running]);
    assert_eq!(timer.elapsed_time(), millis(500));
    timer.poll();
    assert_eq!(timer.state(), TimerState::Running);
    assert_eq!(timer.elapsed_time(), millis(750));
}

#[test]
fn step_applies_the_message_it_is_given() {
    let mut timer = new_timer(TimerKind::Pomodoro, secs(10));
    let inbox = [TimerMessage::Start, TimerMessage::TogglePause, TimerMessage::TogglePause];
    let mut states = Vec::new();
    for message in inbox {
        timer.step(Some(message));
        states.push(timer.state());
    }
    assert_eq!(states, vec![TimerState::Running, TimerState::Paused, TimerState::Running]);
    assert_eq!(timer.elapsed_time(), millis(500));
}

#[test]
fn poll_goes_on_when_the_sender_is_gone() {
    let (mut timer, tx) = timer_with_sender(TimerKind::Pomodoro, secs(10));
    tx.send(TimerMessage::Start).unwrap();
    drop(tx);
    timer.poll();
    assert_eq!(timer.state(), TimerState::Running);
    timer.poll();
    assert_eq!(timer.state(), TimerState::Running);
    assert_eq!(timer.elapsed_time(), millis(500));
}

#[test]
fn poll_without_a_message_leaves_a_stopped_timer_stopped() {
    let (mut timer, _tx) = timer_with_sender(TimerKind::Pomodoro, secs(10));
    let step = timer.poll();
    assert_eq!(step.effect, TimerEffect::Sleep);
    assert_eq!(timer.state(), TimerState::Stopped);
    assert_eq!(timer.elapsed_time(), Span::zero());
}

#[test]
fn queued_messages_on_a_timer_of_one_tick_end_finished() {
    let mut timer = new_timer(TimerKind::Pomodoro, millis(250));
    timer.step(Some(TimerMessage::Start));
    timer.step(Some(TimerMessage::TogglePause));
    let last = timer.step(Some(TimerMessage::TogglePause));
    assert_eq!(timer.state(), TimerState::Finished);
    assert!(matches!(last.effect, TimerEffect::Notify(_)));
}

#[test]
fn one_second_timer_runs_to_completion() {
    let (mut timer, tx) = timer_with_sender(TimerKind::Pomodoro, secs(1));
    tx.send(TimerMessage::Start).unwrap();
    let mut sleeps = 0;
    let mut notices = 0;
    let mut alarms = 0;
    let mut passes = 0;
    loop {
        let step = timer.poll();
        passes += 1;
        match step.effect {
            TimerEffect::Sleep => sleeps += 1,
            TimerEffect::Notify(notice) => {
                notices += 1;
                assert_eq!(notice.summary, "Pomodoro Session Finished");
            }
            TimerEffect::Alarm => {
                alarms += 1;
                break;
            }
        }
        assert!(passes < 100);
    }
    assert_eq!(sleeps, 4);
    assert_eq!(notices, 1);
    assert_eq!(alarms, 1);
    assert_eq!(passes, 6);
    assert_eq!(timer.state(), TimerState::Finished);
    assert_eq!(timer.elapsed_time(), secs(1));
    assert_eq!(timer.remaining_time(), Span::zero());
}

#[test]
fn pause_after_three_ticks_holds_the_remaining_time() {
    let (mut timer, tx) = timer_with_sender(TimerKind::Pomodoro, secs(10));
    tx.send(TimerMessage::Start).unwrap();
    timer.poll();
    timer.poll();
    timer.poll();
    tx.send(TimerMessage::TogglePause).unwrap();
    let paused = timer.poll();
    assert_eq!(timer.state(), TimerState::Paused);
    assert_eq!(timer.elapsed_time(), millis(750));
    assert_eq!(timer.remaining_time(), millis(9250));
    assert_eq!(paused.effect, TimerEffect::Sleep);
    assert_eq!(text(&paused.display.center), "9s");
    for _ in 0..20 {
        let step = timer.poll();
        assert_eq!(step.effect, TimerEffect::Sleep);
        assert_eq!(text(&step.display.center), "9s");
        assert_eq!(timer.state(), TimerState::Paused);
        assert_eq!(timer.remaining_time(), millis(9250));
    }
    tx.send(TimerMessage::TogglePause).unwrap();
    timer.poll();
    assert_eq!(timer.state(), TimerState::Running);
    assert_eq!(timer.remaining_time(), secs(9));
}

#[test]
fn pause_keeps_the_total_at_the_duration() {
    let mut timer = new_timer(TimerKind::Pomodoro, secs(2));
    timer.step(Some(TimerMessage::Start));
    timer.step(None);
    timer.step(Some(TimerMessage::TogglePause));
    for _ in 0..7 {
        timer.step(None);
    }
    timer.step(Some(TimerMessage::TogglePause));
    let mut ticks = 3;
    while timer.state() == TimerState::Running {
        let step = timer.step(None);
        if step.effect == TimerEffect::Sleep {
            ticks += 1;
        }
        assert!(ticks < 100);
    }
    assert_eq!(ticks, 8);
    assert_eq!(timer.state(), TimerState::Finished);
    assert_eq!(timer.elapsed_time(), secs(2));
}

fn ticks_until_finished(duration: Span) -> u32 {
    let mut timer = new_timer(TimerKind::Pomodoro, duration);
    timer.start();
    let mut ticks = 0;
    loop {
        let step = timer.step(None);
        match step.effect {
            TimerEffect::Sleep => ticks += 1,
            _ => break,
        }
        assert!(ticks < 10_000);
    }
    assert_eq!(timer.state(), TimerState::Finished);
    assert!(timer.elapsed_time().as_nanos() >= duration.as_nanos());
    assert!(timer.elapsed_time().as_nanos() < duration.as_nanos() + 250_000_000);
    ticks
}

#[test]
fn timer_finishes_after_the_duration_in_ticks_rounded_up() {
    assert_eq!(ticks_until_finished(secs(1)), 4);
    assert_eq!(ticks_until_finished(millis(1100)), 5);
    assert_eq!(ticks_until_finished(millis(250)), 1);
    assert_eq!(ticks_until_finished(millis(251)), 2);
    assert_eq!(ticks_until_finished(millis(1)), 1);
    assert_eq!(ticks_until_finished(Span::new(0, 1).unwrap()), 1);
    assert_eq!(ticks_until_finished(secs(25 * 60)), 6000);
}

#[test]
fn timer_of_no_duration_finishes_without_a_tick() {
    let mut timer = new_timer(TimerKind::Pomodoro, Span::zero());
    let first = timer.step(Some(TimerMessage::Start));
    assert!(matches!(first.effect, TimerEffect::Notify(_)));
    assert_eq!(timer.state(), TimerState::Finished);
    let second = timer.step(None);
    assert_eq!(second.effect, TimerEffect::Alarm);
}

#[test]
fn overshoot_is_less_than_one_tick_and_remaining_time_stays_at_zero() {
    let mut timer = new_timer(TimerKind::Pomodoro, millis(1100));
    timer.start();
    for _ in 0..5 {
        timer.step(None);
    }
    assert_eq!(timer.state(), TimerState::Running);
    assert_eq!(timer.elapsed_time(), millis(1250));
    assert_eq!(timer.remaining_time(), Span::zero());
    timer.step(None);
    assert_eq!(timer.state(), TimerState::Finished);
    assert_eq!(timer.elapsed_time(), millis(1250));
}

#[test]
fn remaining_time_is_duration_less_elapsed() {
    let mut timer = new_timer(TimerKind::Pomodoro, secs(3));
    timer.start();
    for _ in 0..12 {
        assert_eq!(
            timer.remaining_time().as_nanos(),
            timer.duration().as_nanos() - timer.elapsed_time().as_nanos()
        );
        timer.step(None);
    }
    assert_eq!(timer.remaining_time(), Span::zero());
    assert_eq!(timer.elapsed_time(), secs(3));
}

#[test]
fn longest_timer_keeps_its_progress_in_range() {
    let longest = Span::new(u64::MAX, 999_999_999).unwrap();
    let mut timer = new_timer(TimerKind::LongBreak, longest);
    timer.start();
    let step = timer.step(None);
    assert_eq!(step.effect, TimerEffect::Sleep);
    assert_eq!(timer.elapsed_time(), millis(250));
    assert_eq!(timer.remaining_time().as_secs(), u64::MAX);
}

#[test]
fn tick_is_a_quarter_of_a_second() {
    assert_eq!(Timer::tick(), millis(250));
    assert_eq!(Timer::tick().as_nanos(), 250_000_000);
}

#[test]
fn display_shows_the_whole_seconds_left() {
    let mut timer = new_timer(TimerKind::Pomodoro, secs(25 * 60));
    assert_eq!(timer.remaining_text(), "25m");
    let step = timer.step(Some(TimerMessage::Start));
    assert_eq!(text(&step.display.center), "25m");
    assert_eq!(step.display.bottom_middle, None);
    let step = timer.step(None);
    assert_eq!(text(&step.display.center), "24m 59s");
    let mut short = new_timer(TimerKind::Pomodoro, millis(3_725_500));
    assert_eq!(short.remaining_text(), "1h 2m 5s");
    short.start();
    for _ in 0..3 {
        short.step(None);
    }
    assert_eq!(short.remaining_text(), "1h 2m 4s");
    let none = new_timer(TimerKind::Pomodoro, millis(999));
    assert_eq!(none.remaining_text(), "0s");
}

#[test]
fn display_names_the_state_under_the_countdown() {
    let mut timer = new_timer(TimerKind::Pomodoro, millis(250));
    let stopped = timer.step(None);
    assert_eq!(text(&stopped.display.center), "0s");
    assert_eq!(
        text(&stopped.display.bottom_middle),
        "The pomodoro has been stopped and reset. Press S to start again."
    );
    assert_eq!(stopped.effect, TimerEffect::Sleep);

    let running = timer.step(Some(TimerMessage::Start));
    assert_eq!(running.display.bottom_middle, None);
    assert_eq!(running.effect, TimerEffect::Sleep);

    let paused = timer.step(Some(TimerMessage::TogglePause));
    assert_eq!(
        text(&paused.display.bottom_middle),
        "The pomodoro is paused. Press P to resume."
    );
    assert_eq!(paused.effect, TimerEffect::Sleep);

    let finishing = timer.step(Some(TimerMessage::TogglePause));
    assert_eq!(finishing.display.bottom_middle, None);
    assert!(matches!(finishing.effect, TimerEffect::Notify(_)));

    let finished = timer.step(None);
    assert_eq!(text(&finished.display.center), "0s");
    assert_eq!(
        text(&finished.display.bottom_middle),
        "The pomodoro has finished! Press Q to quit."
    );
    assert_eq!(finished.effect, TimerEffect::Alarm);
}

#[test]
fn advance_shows_the_text_it_is_given() {
    let mut timer = new_timer(TimerKind::Pomodoro, secs(1));
    timer.start();
    let step = timer.advance("soon".to_string());
    assert_eq!(text(&step.display.center), "soon");
    assert_eq!(step.display.bottom_middle, None);
    assert_eq!(step.effect, TimerEffect::Sleep);
    assert_eq!(timer.elapsed_time(), millis(250));
}

#[test]
fn start_keeps_the_recorded_start_of_a_running_timer() {
    let mut timer = new_timer(TimerKind::Pomodoro, secs(10));
    timer.start();
    let first = timer.start_time();
    assert!(first.is_some());
    timer.start();
    assert_eq!(timer.start_time(), first);
    timer.handle(TimerMessage::Start);
    assert_eq!(timer.start_time(), first);
    timer.step(Some(TimerMessage::Start));
    assert_eq!(timer.start_time(), first);
    timer.step(None);
    assert_eq!(timer.start_time(), first);
    assert_eq!(timer.state(), TimerState::Running);
    assert_eq!(timer.elapsed_time(), millis(500));
}

#[test]
fn start_changes_nothing_of_a_paused_or_finished_timer() {
    let mut timer = new_timer(TimerKind::LongBreak, secs(10));
    timer.start();
    timer.step(None);
    timer.pause();
    timer.start();
    assert_eq!(timer.state(), TimerState::Paused);
    assert_eq!(timer.elapsed_time(), millis(250));
    assert_eq!(timer.duration(), secs(10));
    assert_eq!(timer.kind(), TimerKind::LongBreak);
    assert!(timer.start_time().is_none());
    timer.resume();
    timer.finish();
    timer.start();
    assert_eq!(timer.state(), TimerState::Finished);
    assert_eq!(timer.elapsed_time(), millis(250));
    assert!(timer.start_time().is_none());
}

#[test]
fn resume_records_a_new_start() {
    let mut timer = new_timer(TimerKind::Pomodoro, secs(10));
    timer.start();
    let first = timer.start_time().unwrap();
    timer.pause();
    timer.resume();
    let second = timer.start_time().unwrap();
    assert!(second >= first);
}
