use vstd::prelude::*;
use crate::model::{TimerState, TimerStatus, TimerType, UserPreferences};

verus! {

/// What the ticking process is to do after one elapsed second.
#[derive(Clone, Copy, Debug, PartialEq, Eq, Structural)]
pub enum TickAction {
    /// The process is stale or the timer is not running: end without emitting anything.
    Exit,
    /// One second was counted down: emit a tick event with this snapshot and keep going.
    Tick(TimerStatus),
    /// A tick found the countdown at zero and completed the session of this kind: emit
    /// the completion event and the completion notification, then end.
    Complete(TimerType),
}

/// The abstract state of a timer manager: the countdown, the preferences, and the
/// generation token that a ticking process must carry to be current.
pub struct TimerModel {
    pub status: TimerStatus,
    pub preferences: UserPreferences,
    pub generation: u64,
}

/// The token that follows `g`; it always differs from `g`.
pub open spec fn next_generation(g: u64) -> u64 {
    if g == u64::MAX { 0 } else { (g + 1) as u64 }
}

impl TimerModel {
    pub open spec fn wf(self) -> bool {
        self.status.wf()
    }

    /// The state right after construction with preferences `p`.
    pub open spec fn initial(p: UserPreferences) -> TimerModel {
        TimerModel {
            status: TimerStatus::fresh(TimerState::Idle, TimerType::Work, p),
            preferences: p,
            generation: 0,
        }
    }

    /// `start(t)`: from any state, run a full-length session of kind `t`.
    pub open spec fn start(self, t: TimerType) -> TimerModel {
        TimerModel {
            status: TimerStatus::fresh(TimerState::Running, t, self.preferences),
            preferences: self.preferences,
            generation: next_generation(self.generation),
        }
    }

    /// `pause()`: a running timer becomes paused; otherwise nothing changes.
    pub open spec fn pause(self) -> TimerModel {
        if self.status.state is Running {
            TimerModel {
                status: TimerStatus { state: TimerState::Paused, ..self.status },
                preferences: self.preferences,
                generation: next_generation(self.generation),
            }
        } else {
            self
        }
    }

    /// `resume()`: a paused timer runs again; otherwise nothing changes.
    pub open spec fn resume(self) -> TimerModel {
        if self.status.state is Paused {
            TimerModel {
                status: TimerStatus { state: TimerState::Running, ..self.status },
                preferences: self.preferences,
                generation: next_generation(self.generation),
            }
        } else {
            self
        }
    }

    /// `stop()`: from any state, go idle with a full-length countdown of the current kind.
    pub open spec fn stop(self) -> TimerModel {
        TimerModel {
            status: TimerStatus::fresh(TimerState::Idle, self.status.timer_type, self.preferences),
            preferences: self.preferences,
            generation: next_generation(self.generation),
        }
    }

    /// `update_preferences(p)`: store `p`; an idle countdown takes its new length at once.
    pub open spec fn update(self, p: UserPreferences) -> TimerModel {
        TimerModel {
            status: if self.status.state is Idle {
                TimerStatus::fresh(TimerState::Idle, self.status.timer_type, p)
            } else {
                self.status
            },
            preferences: p,
            generation: self.generation,
        }
    }

    /// Whether a ticking process holding `token` may still act.
    pub open spec fn ticks_with(self, token: u64) -> bool {
        token == self.generation && self.status.state is Running
    }

    /// The countdown after one second elapsed for a process holding `token`.
    pub open spec fn tick(self, token: u64) -> TimerModel {
        if !self.ticks_with(token) {
            self
        } else {
            let left = self.status.remaining_seconds;
            TimerModel {
                status: TimerStatus {
                    state: if left == 0 { TimerState::Completed } else { TimerState::Running },
                    remaining_seconds: if left > 0 { (left - 1) as u64 } else { 0 },
                    ..self.status
                },
                ..self
            }
        }
    }

    /// The state after `n` ticks of a process holding `token`, with no command between.
    pub open spec fn ticked(self, token: u64, n: nat) -> TimerModel
        decreases n,
    {
        if n == 0 {
            self
        } else {
            self.ticked(token, (n - 1) as nat).tick(token)
        }
    }

    /// What a process holding `token` is to do after one elapsed second.
    pub open spec fn tick_action(self, token: u64) -> TickAction {
        if !self.ticks_with(token) {
            TickAction::Exit
        } else if self.status.remaining_seconds == 0 {
            TickAction::Complete(self.status.timer_type)
        } else {
            TickAction::Tick(self.tick(token).status)
        }
    }
}

/// Owns the single timer status and the preferences, and decides every transition of
/// the countdown. A ticking process run by the host calls [`TimerManager::tick`] once
/// per second with the token it was handed, and carries out the action returned.
pub struct TimerManager {
    status: TimerStatus,
    preferences: UserPreferences,
    generation: u64,
}

impl View for TimerManager {
    type V = TimerModel;

    closed spec fn view(&self) -> TimerModel {
        TimerModel {
            status: self.status,
            preferences: self.preferences,
            generation: self.generation,
        }
    }
}

fn advance_generation(g: u64) -> (r: u64)
    ensures
        r == next_generation(g),
{
    if g == u64::MAX { 0 } else { g + 1 }
}

impl TimerManager {
    /// A manager whose preferences are those read back from storage (`None` when they
    /// could not be read), falling back to the defaults, with an idle work countdown.
    pub fn new(loaded: Option<UserPreferences>) -> (r: TimerManager)
        ensures
            r@.wf(),
            r@ == TimerModel::initial(UserPreferences::loaded_or_defaults(loaded)),
    {
        let preferences = UserPreferences::from_loaded(loaded);
        let work_duration = preferences.duration_seconds(TimerType::Work);
        TimerManager {
            status: TimerStatus {
                state: TimerState::Idle,
                timer_type: TimerType::Work,
                remaining_seconds: work_duration,
                total_seconds: work_duration,
            },
            preferences,
            generation: 0,
        }
    }

    pub fn get_preferences(&self) -> (r: UserPreferences)
        ensures
            r == self@.preferences,
    {
        self.preferences
    }

    pub fn get_status(&self) -> (r: TimerStatus)
        ensures
            r == self@.status,
    {
        self.status
    }

    /// The token that a ticking process spawned now must carry.
    pub fn generation(&self) -> (r: u64)
        ensures
            r == self@.generation,
    {
        self.generation
    }

    /// Replaces the preferences. An idle countdown is reset to the new length of its
    /// kind; a running, paused or completed one is left as it is. Persisting the new
    /// preferences is up to the caller.
    pub fn update_preferences(&mut self, new_preferences: UserPreferences)
        requires
            old(self)@.wf(),
            old(self)@.status.state is Idle ==> new_preferences.fits(old(self)@.status.timer_type),
        ensures
            final(self)@.wf(),
            final(self)@ == old(self)@.update(new_preferences),
    {
        self.preferences = new_preferences;
        if self.status.state == TimerState::Idle {
            let duration = self.preferences.duration_seconds(self.status.timer_type);
            self.status.remaining_seconds = duration;
            self.status.total_seconds = duration;
        }
    }

    /// Starts a full-length session of kind `timer_type` from any state. Any ticking
    /// process spawned before is invalidated; the token returned is the one the new
    /// process must carry.
    pub fn start_timer(&mut self, timer_type: TimerType) -> (r: u64)
        requires
            old(self)@.wf(),
            old(self)@.preferences.fits(timer_type),
        ensures
            final(self)@.wf(),
            final(self)@ == old(self)@.start(timer_type),
            r == final(self)@.generation,
            r != old(self)@.generation,
    {
        let duration = self.preferences.duration_seconds(timer_type);
        self.status = TimerStatus {
            state: TimerState::Running,
            timer_type,
            remaining_seconds: duration,
            total_seconds: duration,
        };
        self.generation = advance_generation(self.generation);
        self.generation
    }

    /// Pauses a running timer and invalidates its ticking process; otherwise does nothing.
    pub fn pause_timer(&mut self)
        requires
            old(self)@.wf(),
        ensures
            final(self)@.wf(),
            final(self)@ == old(self)@.pause(),
    {
        if self.status.state == TimerState::Running {
            self.status.state = TimerState::Paused;
            self.generation = advance_generation(self.generation);
        }
    }

    /// Resumes a paused timer. Returns the token for the fresh ticking process that
    /// must then be spawned, or `None` (and changes nothing) when it was not paused.
    pub fn resume_timer(&mut self) -> (r: Option<u64>)
        requires
            old(self)@.wf(),
        ensures
            final(self)@.wf(),
            final(self)@ == old(self)@.resume(),
            r == (if old(self)@.status.state is Paused {
                Some(final(self)@.generation)
            } else {
                None::<u64>
            }),
    {
        if self.status.state == TimerState::Paused {
            self.status.state = TimerState::Running;
            self.generation = advance_generation(self.generation);
            Some(self.generation)
        } else {
            None
        }
    }

    /// Goes idle from any state with a full-length countdown of the current kind, and
    /// invalidates any ticking process.
    pub fn stop_timer(&mut self)
        requires
            old(self)@.wf(),
            old(self)@.preferences.fits(old(self)@.status.timer_type),
        ensures
            final(self)@.wf(),
            final(self)@ == old(self)@.stop(),
    {
        let duration = self.preferences.duration_seconds(self.status.timer_type);
        self.status.state = TimerState::Idle;
        self.status.remaining_seconds = duration;
        self.status.total_seconds = duration;
        self.generation = advance_generation(self.generation);
    }

    /// One elapsed second, seen by the ticking process that holds `token`. A stale
    /// token, or a timer that is not running, ends the process with no change. Else a
    /// countdown with time left is counted down by one second and keeps running, and
    /// one found at zero is completed.
    pub fn tick(&mut self, token: u64) -> (r: TickAction)
        requires
            old(self)@.wf(),
        ensures
            final(self)@.wf(),
            final(self)@ == old(self)@.tick(token),
            r == old(self)@.tick_action(token),
    {
        if token != self.generation || self.status.state != TimerState::Running {
            return TickAction::Exit;
        }
        if self.status.remaining_seconds == 0 {
            self.status.state = TimerState::Completed;
            TickAction::Complete(self.status.timer_type)
        } else {
            self.status.remaining_seconds = self.status.remaining_seconds - 1;
            TickAction::Tick(self.status)
        }
    }
}

} // verus!
