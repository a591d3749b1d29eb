//! Autosaving: whether it is on, how often it saves, and the timer that
//! does it.

use vstd::prelude::*;

verus! {

/// The autosave interval of a new window, in seconds.
pub const AUTOSAVE_INTERVAL_DEFAULT: u32 = 30u32;

/// The shortest autosave interval the window accepts, in seconds.
pub const AUTOSAVE_INTERVAL_MIN: u32 = 5u32;

/// The autosave settings of a window and its timer: `timer` is the interval
/// of the running timer, if one runs.
#[derive(Clone, Copy, Debug, PartialEq, Eq, Structural)]
pub struct Autosave {
    pub enabled: bool,
    pub interval_secs: u32,
    pub timer: Option<u32>,
}

/// What the caller does with the timers.
#[derive(Clone, Copy, Debug, PartialEq, Eq, Structural)]
pub struct TimerEffects {
    /// Remove the running timer.
    pub remove: bool,
    /// Start a timer with this interval, in seconds.
    pub start: Option<u32>,
}

/// The timer is in step with the settings: it runs, with the current
/// interval, exactly while autosaving is on.
pub open spec fn in_step(a: Autosave) -> bool {
    if a.enabled {
        a.timer == Some(a.interval_secs)
    } else {
        a.timer is None
    }
}

/// Replaces the timer by one with the current interval.
pub open spec fn restart(a: Autosave) -> (Autosave, TimerEffects) {
    (
        Autosave { timer: Some(a.interval_secs), ..a },
        TimerEffects { remove: a.timer is Some, start: Some(a.interval_secs) },
    )
}

/// Switching autosaving on starts a timer (replacing one that runs);
/// switching it off removes the running timer.
pub open spec fn spec_set_enabled(a: Autosave, enabled: bool) -> (Autosave, TimerEffects) {
    if enabled {
        restart(Autosave { enabled: true, ..a })
    } else {
        (
            Autosave { enabled: false, timer: None, ..a },
            TimerEffects { remove: a.timer is Some, start: None },
        )
    }
}

/// A new interval is refused below the minimum; otherwise it is kept, and
/// while autosaving is on the timer restarts with it.
pub open spec fn spec_set_interval(a: Autosave, secs: u32) -> (Autosave, TimerEffects) {
    if secs < AUTOSAVE_INTERVAL_MIN {
        (a, TimerEffects { remove: false, start: None })
    } else if a.enabled {
        restart(Autosave { interval_secs: secs, ..a })
    } else {
        (Autosave { interval_secs: secs, ..a }, TimerEffects { remove: false, start: None })
    }
}

impl Autosave {
    /// A new window: autosaving on with the default interval; the timer
    /// starts once the settings are applied.
    pub fn new() -> (a: Self)
        ensures
            a == (Autosave {
                enabled: true,
                interval_secs: AUTOSAVE_INTERVAL_DEFAULT,
                timer: None,
            }),
    {
        Autosave { enabled: true, interval_secs: AUTOSAVE_INTERVAL_DEFAULT, timer: None }
    }

    fn restart_timer(&mut self) -> (e: TimerEffects)
        ensures
            (*final(self), e) == restart(*old(self)),
    {
        let e = TimerEffects { remove: self.timer.is_some(), start: Some(self.interval_secs) };
        self.timer = Some(self.interval_secs);
        e
    }

    /// Switches autosaving on or off.
    pub fn set_enabled(&mut self, enabled: bool) -> (e: TimerEffects)
        ensures
            (*final(self), e) == spec_set_enabled(*old(self), enabled),
    {
        if enabled {
            self.enabled = true;
            self.restart_timer()
        } else {
            let e = TimerEffects { remove: self.timer.is_some(), start: None };
            self.enabled = false;
            self.timer = None;
            e
        }
    }

    /// Sets the autosave interval.
    pub fn set_interval_secs(&mut self, secs: u32) -> (e: TimerEffects)
        ensures
            (*final(self), e) == spec_set_interval(*old(self), secs),
    {
        if secs < AUTOSAVE_INTERVAL_MIN {
            return TimerEffects { remove: false, start: None };
        }
        self.interval_secs = secs;
        if self.enabled {
            self.restart_timer()
        } else {
            TimerEffects { remove: false, start: None }
        }
    }
}

/// Whatever the state before, switching autosaving on or off brings the
/// timer in step, and changing the interval keeps it in step; a timer is
/// only removed when one runs, so at most one ever runs.
pub proof fn lemma_timer_in_step(a: Autosave, enabled: bool, secs: u32)
    ensures
        in_step(spec_set_enabled(a, enabled).0),
        in_step(a) ==> in_step(spec_set_interval(a, secs).0),
        spec_set_enabled(a, enabled).1.remove ==> a.timer is Some,
        spec_set_interval(a, secs).1.remove ==> a.timer is Some,
{
}

} // verus!
