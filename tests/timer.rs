use pomodoro_timer::model::{notification_title, MAX_DURATION_MINUTES};
use pomodoro_timer::{TickAction, TimerManager, TimerState, TimerStatus, TimerType, UserPreferences};

fn defaults() -> UserPreferences {
    UserPreferences::default()
}

fn status(state: TimerState, timer_type: TimerType, remaining: u64, total: u64) -> TimerStatus {
    TimerStatus { state, timer_type, remaining_seconds: remaining, total_seconds: total }
}

#[test]
fn default_preferences() {
    let p = defaults();
    assert_eq!(p.work_duration_minutes, 25);
    assert_eq!(p.short_break_duration_minutes, 5);
    assert_eq!(p.long_break_duration_minutes, 15);
    assert!(!p.auto_start_breaks);
    assert!(!p.auto_start_work);
    assert!(p.notification_sound);
    assert_eq!(p, UserPreferences::new(25, 5, 15, false, false, true));
}

#[test]
fn new_manager_is_idle_work() {
    let m = TimerManager::new(None);
    assert_eq!(m.get_status(), status(TimerState::Idle, TimerType::Work, 1500, 1500));
    assert_eq!(m.get_preferences(), defaults());
}

#[test]
fn new_manager_uses_loaded_preferences() {
    let p = UserPreferences::new(40, 10, 20, true, true, false);
    let m = TimerManager::new(Some(p));
    assert_eq!(m.get_preferences(), p);
    assert_eq!(m.get_status(), status(TimerState::Idle, TimerType::Work, 2400, 2400));
}

#[test]
fn new_manager_rejects_oversized_loaded_work_duration() {
    let p = UserPreferences::new(MAX_DURATION_MINUTES + 1, 5, 15, false, false, true);
    assert!(!p.fits_in_seconds(TimerType::Work));
    let m = TimerManager::new(Some(p));
    assert_eq!(m.get_preferences(), defaults());
}

#[test]
fn new_manager_keeps_loaded_record_with_oversized_break() {
    let p = UserPreferences::new(25, u64::MAX, 15, true, false, false);
    assert!(!p.fits_in_seconds(TimerType::ShortBreak));
    let m = TimerManager::new(Some(p));
    assert_eq!(m.get_preferences(), p);
    assert_eq!(m.get_status(), status(TimerState::Idle, TimerType::Work, 1500, 1500));
}

#[test]
fn largest_duration_fits() {
    let p = UserPreferences::new(MAX_DURATION_MINUTES, 0, 0, false, false, true);
    assert!(p.fits_in_seconds(TimerType::Work));
    assert!(!UserPreferences::new(MAX_DURATION_MINUTES + 1, 0, 0, false, false, true)
        .fits_in_seconds(TimerType::Work));
    assert_eq!(p.duration_seconds(TimerType::Work), MAX_DURATION_MINUTES * 60);
    assert_eq!(p.duration_seconds(TimerType::ShortBreak), 0);
}

#[test]
fn duration_seconds_per_kind() {
    let p = defaults();
    assert_eq!(p.duration_seconds(TimerType::Work), 1500);
    assert_eq!(p.duration_seconds(TimerType::ShortBreak), 300);
    assert_eq!(p.duration_seconds(TimerType::LongBreak), 900);
}

#[test]
fn from_loaded_falls_back_to_defaults() {
    assert_eq!(UserPreferences::from_loaded(None), defaults());
    let p = UserPreferences::new(1, 2, 3, true, false, false);
    assert_eq!(UserPreferences::from_loaded(Some(p)), p);
}

#[test]
fn start_work_timer_with_defaults() {
    let mut m = TimerManager::new(None);
    m.start_timer(TimerType::Work);
    assert_eq!(m.get_status(), status(TimerState::Running, TimerType::Work, 1500, 1500));
}

#[test]
fn work_session_completes_after_its_ticks() {
    let mut m = TimerManager::new(None);
    let token = m.start_timer(TimerType::Work);
    for k in 1..=1500u64 {
        let expected = status(TimerState::Running, TimerType::Work, 1500 - k, 1500);
        assert_eq!(m.tick(token), TickAction::Tick(expected));
        assert_eq!(m.get_status(), expected);
    }
    assert_eq!(m.get_status(), status(TimerState::Running, TimerType::Work, 0, 1500));
    assert_eq!(m.tick(token), TickAction::Complete(TimerType::Work));
    let done = status(TimerState::Completed, TimerType::Work, 0, 1500);
    assert_eq!(m.get_status(), done);
    assert_eq!(m.get_status().timer_type.notification_body(), "Work session completed!");
    assert_eq!(m.tick(token), TickAction::Exit);
    assert_eq!(m.get_status(), done);
}

#[test]
fn pause_short_break_before_any_tick() {
    let mut m = TimerManager::new(None);
    let token = m.start_timer(TimerType::ShortBreak);
    m.pause_timer();
    assert_eq!(m.get_status(), status(TimerState::Paused, TimerType::ShortBreak, 300, 300));
    assert_eq!(m.tick(token), TickAction::Exit);
    assert_eq!(m.get_status().remaining_seconds, 300);
}

#[test]
fn pause_twice_is_pause_once() {
    let mut m = TimerManager::new(None);
    m.start_timer(TimerType::Work);
    m.pause_timer();
    let once = m.get_status();
    let generation = m.generation();
    m.pause_timer();
    assert_eq!(m.get_status(), once);
    assert_eq!(m.generation(), generation);
    assert_eq!(once.state, TimerState::Paused);
}

#[test]
fn pause_while_idle_does_nothing() {
    let mut m = TimerManager::new(None);
    let before = m.get_status();
    m.pause_timer();
    assert_eq!(m.get_status(), before);
}

#[test]
fn resume_while_idle_or_completed_does_nothing() {
    let mut m = TimerManager::new(None);
    let before = m.get_status();
    assert_eq!(m.resume_timer(), None);
    assert_eq!(m.get_status(), before);

    let zero = UserPreferences::new(25, 0, 15, false, false, true);
    let mut m = TimerManager::new(Some(zero));
    let token = m.start_timer(TimerType::ShortBreak);
    assert!(matches!(m.tick(token), TickAction::Complete(_)));
    let done = m.get_status();
    assert_eq!(done.state, TimerState::Completed);
    assert_eq!(m.resume_timer(), None);
    assert_eq!(m.get_status(), done);
}

#[test]
fn resume_restarts_ticking_with_fresh_token() {
    let mut m = TimerManager::new(None);
    let first = m.start_timer(TimerType::Work);
    assert!(matches!(m.tick(first), TickAction::Tick(_)));
    m.pause_timer();
    let second = m.resume_timer().expect("timer was paused");
    assert_ne!(first, second);
    assert_eq!(m.get_status().state, TimerState::Running);
    assert_eq!(m.tick(first), TickAction::Exit);
    assert_eq!(m.tick(second), TickAction::Tick(status(TimerState::Running, TimerType::Work, 1498, 1500)));
}

#[test]
fn stop_from_every_state_resets() {
    let expected = status(TimerState::Idle, TimerType::LongBreak, 900, 900);

    let mut m = TimerManager::new(None);
    let token = m.start_timer(TimerType::LongBreak);
    m.tick(token);
    m.stop_timer();
    assert_eq!(m.get_status(), expected);
    assert_eq!(m.tick(token), TickAction::Exit);

    m.start_timer(TimerType::LongBreak);
    m.pause_timer();
    m.stop_timer();
    assert_eq!(m.get_status(), expected);

    m.stop_timer();
    assert_eq!(m.get_status(), expected);

    let zero = UserPreferences::new(25, 5, 0, false, false, true);
    let mut m = TimerManager::new(Some(zero));
    let token = m.start_timer(TimerType::LongBreak);
    m.tick(token);
    assert_eq!(m.get_status().state, TimerState::Completed);
    m.stop_timer();
    assert_eq!(m.get_status(), status(TimerState::Idle, TimerType::LongBreak, 0, 0));
}

#[test]
fn update_preferences_while_idle_resets_countdown() {
    let mut m = TimerManager::new(None);
    let p = UserPreferences::new(50, 5, 15, false, false, true);
    m.update_preferences(p);
    assert_eq!(m.get_status(), status(TimerState::Idle, TimerType::Work, 3000, 3000));
    assert_eq!(m.get_preferences(), p);
}

#[test]
fn update_preferences_while_running_keeps_countdown() {
    let mut m = TimerManager::new(None);
    let token = m.start_timer(TimerType::Work);
    m.tick(token);
    let p = UserPreferences::new(50, 5, 15, false, false, true);
    m.update_preferences(p);
    assert_eq!(m.get_status(), status(TimerState::Running, TimerType::Work, 1499, 1500));
    assert_eq!(m.get_preferences(), p);
    m.stop_timer();
    assert_eq!(m.get_status(), status(TimerState::Idle, TimerType::Work, 3000, 3000));
}

#[test]
fn restart_invalidates_previous_process() {
    let mut m = TimerManager::new(None);
    let first = m.start_timer(TimerType::Work);
    let second = m.start_timer(TimerType::ShortBreak);
    assert_ne!(first, second);
    assert_eq!(m.tick(first), TickAction::Exit);
    assert_eq!(m.get_status(), status(TimerState::Running, TimerType::ShortBreak, 300, 300));
    assert_eq!(m.tick(second), TickAction::Tick(status(TimerState::Running, TimerType::ShortBreak, 299, 300)));
}

#[test]
fn zero_length_session_completes_on_first_tick() {
    let p = UserPreferences::new(0, 5, 15, false, false, true);
    let mut m = TimerManager::new(Some(p));
    let token = m.start_timer(TimerType::Work);
    assert_eq!(m.get_status(), status(TimerState::Running, TimerType::Work, 0, 0));
    assert_eq!(m.tick(token), TickAction::Complete(TimerType::Work));
    assert_eq!(m.get_status(), status(TimerState::Completed, TimerType::Work, 0, 0));
    assert_eq!(m.tick(token), TickAction::Exit);
}

#[test]
fn remaining_never_exceeds_total() {
    let mut m = TimerManager::new(None);
    let token = m.start_timer(TimerType::ShortBreak);
    for _ in 0..10 {
        m.tick(token);
        let s = m.get_status();
        assert!(s.remaining_seconds <= s.total_seconds);
    }
    m.update_preferences(UserPreferences::new(25, 1, 15, false, false, true));
    let s = m.get_status();
    assert_eq!(s, status(TimerState::Running, TimerType::ShortBreak, 290, 300));
    assert!(s.remaining_seconds <= s.total_seconds);
}

#[test]
fn notification_texts() {
    assert_eq!(notification_title(), "Pomodoro Timer");
    assert_eq!(TimerType::Work.notification_body(), "Work session completed!");
    assert_eq!(TimerType::ShortBreak.notification_body(), "Short break completed!");
    assert_eq!(TimerType::LongBreak.notification_body(), "Long break completed!");
}

#[test]
fn status_getters() {
    let s = status(TimerState::Paused, TimerType::LongBreak, 7, 9);
    assert_eq!(s.state(), TimerState::Paused);
    assert_eq!(s.timer_type(), TimerType::LongBreak);
    assert_eq!(s.remaining_seconds(), 7);
    assert_eq!(s.total_seconds(), 9);
}
