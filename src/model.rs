use vstd::prelude::*;

verus! {

/// The largest duration, in minutes, whose length in seconds fits in a `u64`.
pub const MAX_DURATION_MINUTES: u64 = 307445734561825860;

/// Where a timer stands in its lifecycle.
#[derive(Clone, Copy, Debug, PartialEq, Eq, Structural)]
pub enum TimerState {
    Idle,
    Running,
    Paused,
    Completed,
}

/// Which kind of session a timer measures.
#[derive(Clone, Copy, Debug, PartialEq, Eq, Structural)]
pub enum TimerType {
    Work,
    ShortBreak,
    LongBreak,
}

/// A snapshot of the single active countdown.
#[derive(Clone, Copy, Debug, PartialEq, Eq, Structural)]
pub struct TimerStatus {
    pub state: TimerState,
    pub timer_type: TimerType,
    pub remaining_seconds: u64,
    pub total_seconds: u64,
}

/// The user-configurable durations and flags.
#[derive(Clone, Copy, Debug, PartialEq, Eq, Structural)]
pub struct UserPreferences {
    pub work_duration_minutes: u64,
    pub short_break_duration_minutes: u64,
    pub long_break_duration_minutes: u64,
    pub auto_start_breaks: bool,
    pub auto_start_work: bool,
    pub notification_sound: bool,
}

impl TimerType {
    /// The text of the notification that announces the end of a session of this kind.
    pub open spec fn completion_message(self) -> Seq<char> {
        match self {
            TimerType::Work => "Work session completed!"@,
            TimerType::ShortBreak => "Short break completed!"@,
            TimerType::LongBreak => "Long break completed!"@,
        }
    }

    /// Body of the notification requested when a session of this kind completes.
    pub fn notification_body(&self) -> (r: &'static str)
        ensures
            r@ == self.completion_message(),
    {
        match self {
            TimerType::Work => "Work session completed!",
            TimerType::ShortBreak => "Short break completed!",
            TimerType::LongBreak => "Long break completed!",
        }
    }
}

/// Title of every completion notification.
pub fn notification_title() -> (r: &'static str)
    ensures
        r@ == "Pomodoro Timer"@,
{
    "Pomodoro Timer"
}

impl TimerStatus {
    /// The countdown never exceeds its length, and a completed one has nothing left.
    pub open spec fn wf(self) -> bool {
        &&& self.remaining_seconds <= self.total_seconds
        &&& (self.state is Completed ==> self.remaining_seconds == 0)
    }

    /// The full-length countdown of a session of kind `t` under `p`, in state `s`.
    pub open spec fn fresh(s: TimerState, t: TimerType, p: UserPreferences) -> TimerStatus {
        TimerStatus {
            state: s,
            timer_type: t,
            remaining_seconds: p.duration_of(t) as u64,
            total_seconds: p.duration_of(t) as u64,
        }
    }

    pub fn state(&self) -> (r: TimerState)
        ensures
            r == self.state,
    {
        self.state
    }

    pub fn timer_type(&self) -> (r: TimerType)
        ensures
            r == self.timer_type,
    {
        self.timer_type
    }

    pub fn remaining_seconds(&self) -> (r: u64)
        ensures
            r == self.remaining_seconds,
    {
        self.remaining_seconds
    }

    pub fn total_seconds(&self) -> (r: u64)
        ensures
            r == self.total_seconds,
    {
        self.total_seconds
    }
}

impl UserPreferences {
    /// The configured length, in minutes, of a session of kind `t`.
    pub open spec fn minutes_of(self, t: TimerType) -> u64 {
        match t {
            TimerType::Work => self.work_duration_minutes,
            TimerType::ShortBreak => self.short_break_duration_minutes,
            TimerType::LongBreak => self.long_break_duration_minutes,
        }
    }

    /// The configured length, in seconds, of a session of kind `t`.
    pub open spec fn duration_of(self, t: TimerType) -> int {
        self.minutes_of(t) * 60
    }

    /// The length of a session of kind `t` in seconds fits in a `u64`.
    pub open spec fn fits(self, t: TimerType) -> bool {
        self.minutes_of(t) <= MAX_DURATION_MINUTES
    }

    /// 25 / 5 / 15 minutes; only the notification sound is on.
    pub open spec fn defaults() -> UserPreferences {
        UserPreferences {
            work_duration_minutes: 25,
            short_break_duration_minutes: 5,
            long_break_duration_minutes: 15,
            auto_start_breaks: false,
            auto_start_work: false,
            notification_sound: true,
        }
    }

    pub fn new(
        work_duration_minutes: u64,
        short_break_duration_minutes: u64,
        long_break_duration_minutes: u64,
        auto_start_breaks: bool,
        auto_start_work: bool,
        notification_sound: bool,
    ) -> (r: UserPreferences)
        ensures
            r == (UserPreferences {
                work_duration_minutes,
                short_break_duration_minutes,
                long_break_duration_minutes,
                auto_start_breaks,
                auto_start_work,
                notification_sound,
            }),
    {
        UserPreferences {
            work_duration_minutes,
            short_break_duration_minutes,
            long_break_duration_minutes,
            auto_start_breaks,
            auto_start_work,
            notification_sound,
        }
    }

    /// Whether the length of a session of kind `t` in seconds fits in a `u64`.
    pub fn fits_in_seconds(&self, t: TimerType) -> (r: bool)
        ensures
            r == self.fits(t),
    {
        match t {
            TimerType::Work => self.work_duration_minutes <= MAX_DURATION_MINUTES,
            TimerType::ShortBreak => self.short_break_duration_minutes <= MAX_DURATION_MINUTES,
            TimerType::LongBreak => self.long_break_duration_minutes <= MAX_DURATION_MINUTES,
        }
    }

    /// The configured length, in seconds, of a session of kind `t`.
    pub fn duration_seconds(&self, t: TimerType) -> (r: u64)
        requires
            self.fits(t),
        ensures
            r == self.duration_of(t),
    {
        match t {
            TimerType::Work => self.work_duration_minutes * 60,
            TimerType::ShortBreak => self.short_break_duration_minutes * 60,
            TimerType::LongBreak => self.long_break_duration_minutes * 60,
        }
    }

    /// The preferences to run with, given what was read back from storage: a
    /// record that could not be read, or whose work session (the countdown a new
    /// timer starts from) is too long to count in seconds, gives way to the defaults.
    pub open spec fn loaded_or_defaults(loaded: Option<UserPreferences>) -> UserPreferences {
        match loaded {
            Some(p) => if p.fits(TimerType::Work) { p } else { UserPreferences::defaults() },
            None => UserPreferences::defaults(),
        }
    }

    /// The preferences to run with, given what was read back from storage (`None`
    /// when nothing could be read).
    pub fn from_loaded(loaded: Option<UserPreferences>) -> (r: UserPreferences)
        ensures
            r.fits(TimerType::Work),
            r == UserPreferences::loaded_or_defaults(loaded),
    {
        match loaded {
            Some(p) => if p.fits_in_seconds(TimerType::Work) { p } else { UserPreferences::default() },
            None => UserPreferences::default(),
        }
    }
}

impl Default for UserPreferences {
    fn default() -> (r: UserPreferences)
        ensures
            r == UserPreferences::defaults(),
    {
        UserPreferences {
            work_duration_minutes: 25,
            short_break_duration_minutes: 5,
            long_break_duration_minutes: 15,
            auto_start_breaks: false,
            auto_start_work: false,
            notification_sound: true,
        }
    }
}

} // verus!
