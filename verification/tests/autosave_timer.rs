use rnote_ui::autosave::{Autosave, TimerEffects, AUTOSAVE_INTERVAL_DEFAULT, AUTOSAVE_INTERVAL_MIN};

#[test]
fn autosave_defaults() {
    assert_eq!(AUTOSAVE_INTERVAL_DEFAULT, 30);
    assert_eq!(AUTOSAVE_INTERVAL_MIN, 5);
    assert_eq!(Autosave::new(), Autosave { enabled: true, interval_secs: 30, timer: None });
}

#[test]
fn enabling_starts_and_replaces_timer() {
    let mut a = Autosave::new();
    assert_eq!(a.set_enabled(true), TimerEffects { remove: false, start: Some(30) });
    assert_eq!(a.timer, Some(30));
    assert_eq!(a.set_enabled(true), TimerEffects { remove: true, start: Some(30) });
    assert_eq!(a.set_enabled(false), TimerEffects { remove: true, start: None });
    assert_eq!(a.timer, None);
    assert_eq!(a.set_enabled(false), TimerEffects { remove: false, start: None });
}

#[test]
fn interval_changes() {
    let mut a = Autosave::new();
    a.set_enabled(true);
    assert_eq!(a.set_interval_secs(60), TimerEffects { remove: true, start: Some(60) });
    assert_eq!(a.timer, Some(60));
    // below the minimum: refused
    assert_eq!(a.set_interval_secs(4), TimerEffects { remove: false, start: None });
    assert_eq!(a.interval_secs, 60);
    a.set_enabled(false);
    assert_eq!(a.set_interval_secs(10), TimerEffects { remove: false, start: None });
    assert_eq!(a.interval_secs, 10);
    assert_eq!(a.timer, None);
    assert_eq!(a.set_enabled(true), TimerEffects { remove: false, start: Some(10) });
}
