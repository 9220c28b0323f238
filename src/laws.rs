use vstd::prelude::*;
use crate::manager::{TickAction, TimerModel};
use crate::model::{TimerState, TimerStatus, TimerType, UserPreferences};

verus! {

/// Every transition keeps the timer well formed; in particular the time remaining
/// never exceeds the length of the countdown, in any reachable state.
pub proof fn lemma_remaining_within_total(
    m: TimerModel,
    t: TimerType,
    p: UserPreferences,
    token: u64,
)
    requires
        m.wf(),
    ensures
        m.status.remaining_seconds <= m.status.total_seconds,
        m.preferences.fits(t) ==> m.start(t).wf(),
        m.pause().wf(),
        m.resume().wf(),
        m.preferences.fits(m.status.timer_type) ==> m.stop().wf(),
        (m.status.state is Idle ==> p.fits(m.status.timer_type)) ==> m.update(p).wf(),
        m.tick(token).wf(),
{
}

/// A fresh manager is well formed, whatever was read back from storage.
pub proof fn lemma_initial_wf(loaded: Option<UserPreferences>)
    ensures
        TimerModel::initial(UserPreferences::loaded_or_defaults(loaded)).wf(),
{
}

/// The length of the countdown is the configured length of its kind as of the last
/// start or stop: those two set it from the preferences, and pausing, resuming,
/// ticking and updating the preferences of a timer that is not idle leave it and the
/// kind as they are.
pub proof fn lemma_total_follows_preferences(
    m: TimerModel,
    t: TimerType,
    p: UserPreferences,
    token: u64,
)
    requires
        m.wf(),
    ensures
        m.preferences.fits(t) ==> m.start(t).status.total_seconds == m.preferences.duration_of(
            t,
        ),
        m.start(t).status.timer_type == t,
        m.preferences.fits(m.status.timer_type) ==> m.stop().status.total_seconds
            == m.preferences.duration_of(m.status.timer_type),
        m.stop().status.timer_type == m.status.timer_type,
        m.pause().status.total_seconds == m.status.total_seconds,
        m.pause().status.timer_type == m.status.timer_type,
        m.resume().status.total_seconds == m.status.total_seconds,
        m.resume().status.timer_type == m.status.timer_type,
        m.tick(token).status.total_seconds == m.status.total_seconds,
        m.tick(token).status.timer_type == m.status.timer_type,
        m.tick(token).preferences == m.preferences,
        m.status.state is Idle && p.fits(m.status.timer_type) ==> m.update(p).status.total_seconds
            == p.duration_of(m.status.timer_type),
        !(m.status.state is Idle) ==> m.update(p).status == m.status,
{
}

/// Pausing a second time has no effect: the timer stays paused as the first pause
/// left it.
pub proof fn lemma_pause_idempotent(m: TimerModel)
    requires
        m.wf(),
    ensures
        m.pause().pause() == m.pause(),
        m.status.state is Running ==> m.pause().status.state is Paused,
        m.status.state is Paused ==> m.pause() == m,
{
}

/// Resuming a timer that is idle or completed changes nothing.
pub proof fn lemma_resume_idle_or_completed_noop(m: TimerModel)
    requires
        m.status.state is Idle || m.status.state is Completed,
    ensures
        m.resume() == m,
{
}

/// Stopping from any state leaves an idle, full-length countdown of the current kind.
pub proof fn lemma_stop_resets(m: TimerModel)
    requires
        m.wf(),
        m.preferences.fits(m.status.timer_type),
    ensures
        m.stop().status.state is Idle,
        m.stop().status.remaining_seconds == m.stop().status.total_seconds,
        m.stop().status.total_seconds == m.preferences.duration_of(m.status.timer_type),
{
}

/// Starting, pausing, resuming a paused timer and stopping each make every ticking
/// process spawned before them stale: a process holding an earlier token ends without
/// changing anything.
pub proof fn lemma_commands_invalidate_ticking(m: TimerModel, t: TimerType)
    requires
        m.wf(),
    ensures
        m.start(t).tick_action(m.generation) == TickAction::Exit,
        m.start(t).tick(m.generation) == m.start(t),
        m.stop().tick_action(m.generation) == TickAction::Exit,
        m.stop().tick(m.generation) == m.stop(),
        m.pause().tick_action(m.generation) == TickAction::Exit,
        m.status.state is Paused ==> m.resume().tick_action(m.generation) == TickAction::Exit,
{
}

/// Completion is reported at most once: once a tick has completed the timer, every
/// later tick ends its process without a change.
pub proof fn lemma_completion_once(m: TimerModel, token: u64, later: u64)
    requires
        m.wf(),
        m.tick_action(token) is Complete,
    ensures
        m.status.remaining_seconds == 0,
        m.tick(token).status.state is Completed,
        m.tick(token).status.remaining_seconds == 0,
        m.tick(token).tick_action(later) == TickAction::Exit,
        m.tick(token).tick(later) == m.tick(token),
{
}

/// One tick of the current process on a running timer with time left counts one
/// second down, keeps it running and reports the new snapshot; only a tick that finds
/// the countdown at zero completes it.
pub proof fn lemma_tick_counts_down(m: TimerModel)
    requires
        m.wf(),
        m.status.state is Running,
    ensures
        m.status.remaining_seconds > 0 ==> m.tick(m.generation).status.remaining_seconds
            == m.status.remaining_seconds - 1 && m.tick(m.generation).status.state is Running
            && m.tick_action(m.generation) == TickAction::Tick(m.tick(m.generation).status),
        m.status.remaining_seconds == 0 ==> m.tick_action(m.generation) == TickAction::Complete(
            m.status.timer_type,
        ) && m.tick(m.generation).status.state is Completed,
{
}

/// With no intervening command, the `k`-th tick of the current process on a running
/// countdown with at least `k` seconds left reports it running with `k` fewer seconds.
pub proof fn lemma_counts_down_for(m: TimerModel, k: nat)
    requires
        m.wf(),
        m.status.state is Running,
        k <= m.status.remaining_seconds,
    ensures
        m.ticked(m.generation, k).status == (TimerStatus {
            remaining_seconds: (m.status.remaining_seconds - k) as u64,
            ..m.status
        }),
        m.ticked(m.generation, k).generation == m.generation,
        m.ticked(m.generation, k).preferences == m.preferences,
        k > 0 ==> m.ticked(m.generation, (k - 1) as nat).tick_action(m.generation)
            == TickAction::Tick(m.ticked(m.generation, k).status),
    decreases k,
{
    if k > 0 {
        lemma_counts_down_for(m, (k - 1) as nat);
    }
}

/// A running countdown with `n` seconds left and no intervening command is running
/// with zero left after `n` ticks of its process, and completed after exactly `n + 1`,
/// the last of which reports the completion of its kind.
pub proof fn lemma_runs_to_completion(m: TimerModel, n: nat)
    requires
        m.wf(),
        m.status.state is Running,
        m.status.remaining_seconds == n,
    ensures
        m.ticked(m.generation, n).status.state is Running,
        m.ticked(m.generation, n).status.remaining_seconds == 0,
        m.ticked(m.generation, n).tick_action(m.generation) == TickAction::Complete(
            m.status.timer_type,
        ),
        m.ticked(m.generation, n + 1).status == (TimerStatus {
            state: TimerState::Completed,
            remaining_seconds: 0,
            ..m.status
        }),
{
    lemma_counts_down_for(m, n);
}

/// Preferences that were read back intact are taken as they stand, as long as the
/// work countdown a new timer starts from can be counted in seconds; anything else
/// gives way to the defaults, all of whose durations fit.
pub proof fn lemma_loaded_preferences_kept(p: UserPreferences)
    requires
        p.fits(TimerType::Work),
    ensures
        UserPreferences::loaded_or_defaults(Some(p)) == p,
        UserPreferences::defaults().fits(TimerType::Work),
        UserPreferences::defaults().fits(TimerType::ShortBreak),
        UserPreferences::defaults().fits(TimerType::LongBreak),
        UserPreferences::loaded_or_defaults(None) == UserPreferences::defaults(),
{
}

} // verus!
