use rnote_ui::constraints::{ConstraintRatio, ConstraintSwitches, ShaperConstraints};

#[test]
fn new_constraints_are_off() {
    let c = ShaperConstraints::new();
    assert!(!c.enabled());
    assert_eq!(
        c.switch_states(),
        ConstraintSwitches { enabled: false, one_to_one: false, three_to_two: false, golden: false }
    );
}

#[test]
fn switches_show_what_was_set() {
    let mut c = ShaperConstraints::new();
    c.set_enabled(true);
    c.set_ratio(ConstraintRatio::Golden, true);
    c.set_ratio(ConstraintRatio::OneToOne, true);
    c.set_ratio(ConstraintRatio::Golden, true);
    assert_eq!(
        c.switch_states(),
        ConstraintSwitches { enabled: true, one_to_one: true, three_to_two: false, golden: true }
    );
    c.set_ratio(ConstraintRatio::Golden, false);
    assert!(!c.has_ratio(ConstraintRatio::Golden));
    assert!(c.has_ratio(ConstraintRatio::OneToOne));
    c.set_ratio(ConstraintRatio::ThreeToTwo, false);
    assert!(!c.has_ratio(ConstraintRatio::ThreeToTwo));
    assert!(c.has_ratio(ConstraintRatio::OneToOne));
}

#[test]
fn with_ratios_takes_each_once() {
    let mut c = ShaperConstraints::with_ratios(
        true,
        &vec![ConstraintRatio::ThreeToTwo, ConstraintRatio::ThreeToTwo, ConstraintRatio::Golden],
    );
    assert!(c.enabled());
    assert!(c.has_ratio(ConstraintRatio::ThreeToTwo));
    // one removal takes the ratio out entirely
    c.set_ratio(ConstraintRatio::ThreeToTwo, false);
    assert!(!c.has_ratio(ConstraintRatio::ThreeToTwo));
    assert!(c.has_ratio(ConstraintRatio::Golden));
}
