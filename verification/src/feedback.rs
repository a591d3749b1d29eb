//! How the window tells the user what is going on: the progress bar that
//! pulses while work runs, and toasts, of which some kinds show one at a
//! time.

use vstd::prelude::*;

verus! {

/// How long a plain text toast stays, in seconds.
pub const TOAST_TEXT_TIMEOUT: u32 = 5u32;

/// An error toast stays until it is dismissed (no timeout).
pub const TOAST_ERROR_TIMEOUT: u32 = 0u32;

/// How often the progress bar pulses, in milliseconds.
pub const PROGRESS_BAR_PULSE_INTERVAL_MS: u64 = 300u64;

/// How long a finished progress bar stays full, in milliseconds.
pub const PROGRESS_BAR_TIMEOUT_MS: u64 = 300u64;

/// How full the progress bar is drawn.
#[derive(Clone, Copy, Debug, PartialEq, Eq, Structural)]
pub enum ProgressFraction {
    Empty,
    Full,
}

/// The progress bar: whether a timer makes it pulse, and how full it is.
#[derive(Clone, Copy, Debug, PartialEq, Eq, Structural)]
pub struct ProgressBar {
    pub pulsing: bool,
    pub fraction: ProgressFraction,
}

/// What the caller does with the timers after a change of the bar.
#[derive(Clone, Copy, Debug, PartialEq, Eq, Structural)]
pub struct ProgressEffects {
    /// Remove the running pulse timer.
    pub remove_pulse_source: bool,
    /// Add a pulse timer.
    pub add_pulse_source: bool,
    /// Empty the bar after the finish timeout.
    pub schedule_reset: bool,
}

/// The number of pulse timers that run for a bar.
pub open spec fn pulse_sources(b: ProgressBar) -> int {
    if b.pulsing {
        1
    } else {
        0
    }
}

/// The number of pulse timers after the caller applied the effects.
pub open spec fn sources_after(before: int, e: ProgressEffects) -> int {
    before - (if e.remove_pulse_source {
        1int
    } else {
        0int
    }) + (if e.add_pulse_source {
        1int
    } else {
        0int
    })
}

/// Starting to pulse: a timer that already runs is replaced by a new one.
pub open spec fn spec_start_pulsing(b: ProgressBar) -> (ProgressBar, ProgressEffects) {
    (
        ProgressBar { pulsing: true, fraction: b.fraction },
        ProgressEffects {
            remove_pulse_source: b.pulsing,
            add_pulse_source: true,
            schedule_reset: false,
        },
    )
}

/// Finishing: the pulsing stops and the bar is full until the reset after
/// the timeout.
pub open spec fn spec_finish(b: ProgressBar) -> (ProgressBar, ProgressEffects) {
    (
        ProgressBar { pulsing: false, fraction: ProgressFraction::Full },
        ProgressEffects {
            remove_pulse_source: b.pulsing,
            add_pulse_source: false,
            schedule_reset: true,
        },
    )
}

/// Aborting: the pulsing stops and the bar is empty.
pub open spec fn spec_abort(b: ProgressBar) -> (ProgressBar, ProgressEffects) {
    (
        ProgressBar { pulsing: false, fraction: ProgressFraction::Empty },
        ProgressEffects {
            remove_pulse_source: b.pulsing,
            add_pulse_source: false,
            schedule_reset: false,
        },
    )
}

impl ProgressBar {
    /// A bar at rest: not pulsing and empty.
    pub fn new() -> (b: Self)
        ensures
            b == (ProgressBar { pulsing: false, fraction: ProgressFraction::Empty }),
    {
        ProgressBar { pulsing: false, fraction: ProgressFraction::Empty }
    }

    /// Starts pulsing.
    pub fn start_pulsing(&mut self) -> (e: ProgressEffects)
        ensures
            (*final(self), e) == spec_start_pulsing(*old(self)),
    {
        let e = ProgressEffects {
            remove_pulse_source: self.pulsing,
            add_pulse_source: true,
            schedule_reset: false,
        };
        self.pulsing = true;
        e
    }

    /// The work finished.
    pub fn finish(&mut self) -> (e: ProgressEffects)
        ensures
            (*final(self), e) == spec_finish(*old(self)),
    {
        let e = ProgressEffects {
            remove_pulse_source: self.pulsing,
            add_pulse_source: false,
            schedule_reset: true,
        };
        self.pulsing = false;
        self.fraction = ProgressFraction::Full;
        e
    }

    /// The timeout after finishing ran out: the bar is empty again.
    pub fn reset(&mut self)
        ensures
            *final(self) == (ProgressBar {
                pulsing: old(self).pulsing,
                fraction: ProgressFraction::Empty,
            }),
    {
        self.fraction = ProgressFraction::Empty;
    }

    /// The work was aborted.
    pub fn abort(&mut self) -> (e: ProgressEffects)
        ensures
            (*final(self), e) == spec_abort(*old(self)),
    {
        let e = ProgressEffects {
            remove_pulse_source: self.pulsing,
            add_pulse_source: false,
            schedule_reset: false,
        };
        self.pulsing = false;
        self.fraction = ProgressFraction::Empty;
        e
    }
}

/// At most one pulse timer ever runs: after any change of the bar, applying
/// its effects leaves exactly as many timers as the new bar pulses with, and
/// a timer is only removed when one runs.
pub proof fn lemma_one_pulse_source_at_most(b: ProgressBar)
    ensures
        ({
            let (after, e) = spec_start_pulsing(b);
            sources_after(pulse_sources(b), e) == pulse_sources(after) == 1
        }),
        ({
            let (after, e) = spec_finish(b);
            sources_after(pulse_sources(b), e) == pulse_sources(after) == 0
        }),
        ({
            let (after, e) = spec_abort(b);
            sources_after(pulse_sources(b), e) == pulse_sources(after) == 0
        }),
        spec_start_pulsing(b).1.remove_pulse_source ==> pulse_sources(b) == 1,
        spec_finish(b).1.remove_pulse_source ==> pulse_sources(b) == 1,
        spec_abort(b).1.remove_pulse_source ==> pulse_sources(b) == 1,
{
}

/// A finished bar is emptied by the reset it schedules; an aborted one is
/// empty at once.
pub proof fn lemma_bar_ends_empty(b: ProgressBar)
    ensures
        spec_finish(b).1.schedule_reset,
        spec_abort(b).0.fraction == ProgressFraction::Empty,
        !spec_abort(b).1.schedule_reset,
{
}

/// A toast of which one shows at a time: a new one replaces the previous.
pub struct SingletonToast<T> {
    pub current: Option<T>,
}

impl<T> SingletonToast<T> {
    /// No toast of this kind shows.
    pub fn new() -> (s: Self)
        ensures
            s.current is None,
    {
        SingletonToast { current: None }
    }

    /// Shows a new toast; returns the previous one, which the caller
    /// dismisses.
    pub fn dispatch(&mut self, toast: T) -> (previous: Option<T>)
        ensures
            final(self).current == Some(toast),
            previous == old(self).current,
    {
        let previous = self.current.take();
        self.current = Some(toast);
        previous
    }

    /// Takes the toast that shows, if any, for the caller to dismiss.
    pub fn dismiss(&mut self) -> (shown: Option<T>)
        ensures
            final(self).current is None,
            shown == old(self).current,
    {
        self.current.take()
    }
}

/// What dispatching the toasts one after the other through a singleton slot
/// that holds `current` leaves: the toast the slot holds in the end, and the
/// toasts handed back for dismissal, in order.
pub open spec fn dispatch_all<T>(current: Option<T>, toasts: Seq<T>) -> (Option<T>, Seq<T>)
    decreases toasts.len(),
{
    if toasts.len() == 0 {
        (current, Seq::empty())
    } else {
        let (held, handed_back) = dispatch_all(current, toasts.drop_last());
        (
            Some(toasts.last()),
            match held {
                Some(previous) => handed_back.push(previous),
                None => handed_back,
            },
        )
    }
}

/// Through a singleton slot that starts empty, every toast but the last is
/// handed back for dismissal, once and in order, and only the last one stays
/// shown: at most one toast of the slot is ever left undismissed.
pub proof fn lemma_singleton_keeps_one<T>(toasts: Seq<T>)
    requires
        toasts.len() > 0,
    ensures
        dispatch_all(None::<T>, toasts) == (Some(toasts.last()), toasts.drop_last()),
    decreases toasts.len(),
{
    let rest = toasts.drop_last();
    if toasts.len() == 1 {
        assert(rest =~= Seq::<T>::empty());
        assert(dispatch_all(None::<T>, rest) == (None::<T>, Seq::<T>::empty()));
    } else {
        lemma_singleton_keeps_one(rest);
        assert(dispatch_all(None::<T>, rest) == (Some(rest.last()), rest.drop_last()));
        assert(rest.drop_last().push(rest.last()) =~= rest);
    }
}

} // verus!
