use rnote_ui::canvas::{
    cursor_resource_path, touch_gesture_phase, CanvasCursors, PropagationPhase, CURSOR_SIZE,
};
use rnote_ui::feedback::{
    ProgressBar, ProgressEffects, ProgressFraction, SingletonToast, PROGRESS_BAR_PULSE_INTERVAL_MS,
    PROGRESS_BAR_TIMEOUT_MS, TOAST_ERROR_TIMEOUT, TOAST_TEXT_TIMEOUT,
};

#[test]
fn cursor_paths() {
    assert_eq!(
        cursor_resource_path("/com/github/flxzt/rnote/", "cursor-dot-medium"),
        "/com/github/flxzt/rnote/icons/scalable/actions/cursor-dot-medium.svg"
    );
    assert_eq!(CURSOR_SIZE, 32);
}

#[test]
fn default_cursors() {
    let c = CanvasCursors::new();
    assert_eq!(c.regular, "cursor-dot-medium");
    assert_eq!(c.drawing, "cursor-dot-small");
    assert_eq!(c.shown, "cursor-dot-medium");
}

#[test]
fn cursor_switching() {
    let mut c = CanvasCursors::new();
    c.switch_between_cursors(true);
    assert_eq!(c.shown, "cursor-dot-small");
    // a new drawing cursor shows from the next switch on
    c.set_drawing_cursor("cursor-crosshair-small");
    assert_eq!(c.shown, "cursor-dot-small");
    c.switch_between_cursors(true);
    assert_eq!(c.shown, "cursor-crosshair-small");
    // a new regular cursor shows right away
    c.set_regular_cursor("cursor-block-medium");
    assert_eq!(c.shown, "cursor-block-medium");
    c.switch_between_cursors(false);
    assert_eq!(c.shown, "cursor-block-medium");
}

#[test]
fn touch_gesture_phases() {
    assert_eq!(touch_gesture_phase(true), PropagationPhase::Bubble);
    assert_eq!(touch_gesture_phase(false), PropagationPhase::Off);
}

#[test]
fn feedback_constants() {
    assert_eq!(TOAST_TEXT_TIMEOUT, 5);
    assert_eq!(TOAST_ERROR_TIMEOUT, 0);
    assert_eq!(PROGRESS_BAR_PULSE_INTERVAL_MS, 300);
    assert_eq!(PROGRESS_BAR_TIMEOUT_MS, 300);
}

#[test]
fn progress_bar_cycle() {
    let mut b = ProgressBar::new();
    assert_eq!(b, ProgressBar { pulsing: false, fraction: ProgressFraction::Empty });
    let e = b.start_pulsing();
    assert_eq!(e, ProgressEffects { remove_pulse_source: false, add_pulse_source: true, schedule_reset: false });
    // a second start replaces the running timer
    let e = b.start_pulsing();
    assert_eq!(e, ProgressEffects { remove_pulse_source: true, add_pulse_source: true, schedule_reset: false });
    let e = b.finish();
    assert_eq!(e, ProgressEffects { remove_pulse_source: true, add_pulse_source: false, schedule_reset: true });
    assert_eq!(b, ProgressBar { pulsing: false, fraction: ProgressFraction::Full });
    b.reset();
    assert_eq!(b.fraction, ProgressFraction::Empty);
}

#[test]
fn progress_bar_abort() {
    let mut b = ProgressBar::new();
    let e = b.abort();
    assert!(!e.remove_pulse_source);
    b.start_pulsing();
    let e = b.abort();
    assert_eq!(e, ProgressEffects { remove_pulse_source: true, add_pulse_source: false, schedule_reset: false });
    assert_eq!(b, ProgressBar { pulsing: false, fraction: ProgressFraction::Empty });
}

#[test]
fn pulse_timers_never_pile_up() {
    let mut b = ProgressBar::new();
    let mut timers: i32 = 0;
    for step in 0..12 {
        let e = match step % 4 {
            0 | 1 => b.start_pulsing(),
            2 => b.finish(),
            _ => b.abort(),
        };
        if e.remove_pulse_source {
            timers -= 1;
        }
        if e.add_pulse_source {
            timers += 1;
        }
        assert!(timers == 0 || timers == 1);
        assert_eq!(timers == 1, b.pulsing);
    }
}

#[test]
fn singleton_toast_replaces_previous() {
    let mut t: SingletonToast<&str> = SingletonToast::new();
    assert_eq!(t.dispatch("first"), None);
    assert_eq!(t.dispatch("second"), Some("first"));
    assert_eq!(t.current, Some("second"));
    assert_eq!(t.dismiss(), Some("second"));
    assert_eq!(t.current, None);
    assert_eq!(t.dismiss(), None);
}

#[test]
fn singleton_slot_keeps_one_toast() {
    let mut t: SingletonToast<u32> = SingletonToast::new();
    let mut handed_back = Vec::new();
    for toast in 1..=5 {
        if let Some(previous) = t.dispatch(toast) {
            handed_back.push(previous);
        }
    }
    assert_eq!(handed_back, vec![1, 2, 3, 4]);
    assert_eq!(t.current, Some(5));
}
