use rnote_ui::input::{
    classify_pointer_event, pointer_outcome, reject_pointer_input, retrieve_button_shortcut_key,
    retrieve_keyboard_key, retrieve_modifier_keys, retrieve_pen_mode, DeviceToolType, EventKind,
    KeyPress, KeyboardKey, ModifierKey, ModifierState, NamedKey, PenMode, PenState, PointerEvent,
    ShortcutKey, BUTTON_MIDDLE, BUTTON_PRIMARY, BUTTON_SECONDARY,
};

fn no_mods() -> ModifierState {
    ModifierState { shift: false, control: false, alt: false, button1: false, button3: false, other: false }
}

fn event(kind: EventKind, button: u32, tool: Option<DeviceToolType>) -> PointerEvent {
    PointerEvent { kind, modifiers: no_mods(), button, pointer_emulated: false, tool }
}

#[test]
fn button_constants() {
    assert_eq!((BUTTON_PRIMARY, BUTTON_MIDDLE, BUTTON_SECONDARY), (1, 2, 3));
}

#[test]
fn touch_rejected_without_touch_drawing() {
    let e = event(EventKind::TouchBegin, 0, None);
    assert!(reject_pointer_input(&e, false));
    assert!(!reject_pointer_input(&e, true));
    let mut emulated = event(EventKind::MotionNotify, 0, None);
    emulated.pointer_emulated = true;
    assert!(reject_pointer_input(&emulated, false));
    assert!(!reject_pointer_input(&event(EventKind::MotionNotify, 0, None), false));
}

#[test]
fn rejected_event_changes_nothing() {
    let d = classify_pointer_event(&event(EventKind::TouchUpdate, 0, None), false, PenState::Proximity);
    assert!(d.rejected);
    let o = pointer_outcome(&d, true);
    assert!(!o.inhibit);
    assert_eq!(o.state, PenState::Proximity);
    assert_eq!(o.pen_event, None);
}

#[test]
fn shortcut_keys_of_buttons() {
    assert_eq!(retrieve_button_shortcut_key(BUTTON_PRIMARY, true), None);
    assert_eq!(retrieve_button_shortcut_key(BUTTON_PRIMARY, false), None);
    assert_eq!(retrieve_button_shortcut_key(BUTTON_SECONDARY, true), Some(ShortcutKey::StylusPrimaryButton));
    assert_eq!(retrieve_button_shortcut_key(BUTTON_SECONDARY, false), Some(ShortcutKey::MouseSecondaryButton));
    assert_eq!(retrieve_button_shortcut_key(BUTTON_MIDDLE, true), Some(ShortcutKey::StylusSecondaryButton));
    assert_eq!(retrieve_button_shortcut_key(BUTTON_MIDDLE, false), None);
    assert_eq!(retrieve_button_shortcut_key(8, true), None);
}

#[test]
fn modifier_keys_in_order() {
    let m = ModifierState { shift: true, control: true, alt: true, ..no_mods() };
    assert_eq!(
        retrieve_modifier_keys(m),
        vec![ModifierKey::KeyboardShift, ModifierKey::KeyboardCtrl, ModifierKey::KeyboardAlt]
    );
    let m = ModifierState { alt: true, button1: true, ..no_mods() };
    assert_eq!(retrieve_modifier_keys(m), vec![ModifierKey::KeyboardAlt]);
    assert_eq!(retrieve_modifier_keys(no_mods()), vec![]);
}

#[test]
fn pen_modes() {
    assert_eq!(retrieve_pen_mode(&event(EventKind::MotionNotify, 0, Some(DeviceToolType::Pen))), Some(PenMode::Pen));
    assert_eq!(retrieve_pen_mode(&event(EventKind::MotionNotify, 0, Some(DeviceToolType::Eraser))), Some(PenMode::Eraser));
    assert_eq!(retrieve_pen_mode(&event(EventKind::MotionNotify, 0, Some(DeviceToolType::Other))), None);
    assert_eq!(retrieve_pen_mode(&event(EventKind::MotionNotify, 0, None)), None);
}

#[test]
fn stylus_motion_down_or_proximity() {
    let mut e = event(EventKind::MotionNotify, 0, Some(DeviceToolType::Pen));
    let d = classify_pointer_event(&e, false, PenState::Up);
    assert_eq!(d.state, PenState::Proximity);
    assert!(d.handle_pen_event && d.inhibit);
    e.modifiers.button1 = true;
    let d = classify_pointer_event(&e, false, PenState::Up);
    assert_eq!(d.state, PenState::Down);
}

#[test]
fn mouse_motion_passed_on_with_buttons() {
    let e = event(EventKind::MotionNotify, 0, None);
    let d = classify_pointer_event(&e, false, PenState::Down);
    assert!(d.handle_pen_event);
    assert_eq!(d.state, PenState::Down);
    let mut e = event(EventKind::MotionNotify, 0, None);
    e.modifiers.shift = true;
    let d = classify_pointer_event(&e, false, PenState::Up);
    assert!(!d.handle_pen_event);
    assert!(!d.inhibit);
    e.modifiers.button3 = true;
    let d = classify_pointer_event(&e, false, PenState::Up);
    assert!(d.handle_pen_event);
}

#[test]
fn mouse_press_and_release() {
    let d = classify_pointer_event(&event(EventKind::ButtonPress, BUTTON_SECONDARY, None), false, PenState::Up);
    assert_eq!(d.state, PenState::Down);
    assert_eq!(d.shortcut_key, Some(ShortcutKey::MouseSecondaryButton));
    assert!(d.handle_pen_event);
    let d = classify_pointer_event(&event(EventKind::ButtonRelease, BUTTON_PRIMARY, None), false, PenState::Down);
    assert_eq!(d.state, PenState::Up);
    assert!(d.handle_pen_event);
    let d = classify_pointer_event(&event(EventKind::ButtonPress, BUTTON_MIDDLE, None), false, PenState::Up);
    assert!(!d.handle_pen_event);
    assert_eq!(d.state, PenState::Up);
    assert_eq!(d.shortcut_key, None);
}

#[test]
fn stylus_press_and_release() {
    let d = classify_pointer_event(&event(EventKind::ButtonPress, BUTTON_MIDDLE, Some(DeviceToolType::Pen)), false, PenState::Proximity);
    assert!(d.handle_pen_event);
    assert_eq!(d.state, PenState::Proximity);
    assert_eq!(d.shortcut_key, Some(ShortcutKey::StylusSecondaryButton));
    let d = classify_pointer_event(&event(EventKind::ButtonRelease, BUTTON_PRIMARY, Some(DeviceToolType::Pen)), false, PenState::Down);
    assert_eq!(d.state, PenState::Up);
    let d = classify_pointer_event(&event(EventKind::ButtonRelease, BUTTON_SECONDARY, Some(DeviceToolType::Pen)), false, PenState::Down);
    assert_eq!(d.state, PenState::Proximity);
    let d = classify_pointer_event(&event(EventKind::ButtonRelease, 9, Some(DeviceToolType::Pen)), false, PenState::Down);
    assert!(!d.handle_pen_event);
    assert_eq!(d.state, PenState::Proximity);
}

#[test]
fn proximity_and_touch_set_named_state() {
    let cases = [
        (EventKind::ProximityIn, PenState::Proximity),
        (EventKind::ProximityOut, PenState::Up),
        (EventKind::TouchBegin, PenState::Down),
        (EventKind::TouchUpdate, PenState::Down),
        (EventKind::TouchEnd, PenState::Up),
        (EventKind::TouchCancel, PenState::Up),
    ];
    for (kind, expected) in cases {
        let d = classify_pointer_event(&event(kind, 0, None), true, PenState::Proximity);
        assert_eq!(d.state, expected);
        assert!(d.handle_pen_event && d.inhibit && !d.rejected);
    }
}

#[test]
fn other_events_are_ignored() {
    let d = classify_pointer_event(&event(EventKind::Other, 0, None), false, PenState::Down);
    assert!(!d.handle_pen_event && !d.inhibit && !d.rejected);
    assert_eq!(d.state, PenState::Down);
}

#[test]
fn outcome_without_position_drops_pen_event() {
    let d = classify_pointer_event(&event(EventKind::TouchBegin, 0, None), true, PenState::Up);
    let o = pointer_outcome(&d, false);
    assert!(!o.inhibit);
    assert_eq!(o.pen_event, None);
    let o = pointer_outcome(&d, true);
    assert!(o.inhibit);
    assert_eq!(o.pen_event, Some(PenState::Down));
}

#[test]
fn keyboard_keys() {
    assert_eq!(retrieve_keyboard_key(KeyPress { unicode: Some('a'), named: NamedKey::Other }), KeyboardKey::Unicode('a'));
    assert_eq!(retrieve_keyboard_key(KeyPress { unicode: None, named: NamedKey::Return }), KeyboardKey::CarriageReturn);
    assert_eq!(retrieve_keyboard_key(KeyPress { unicode: None, named: NamedKey::Tab }), KeyboardKey::HorizontalTab);
    assert_eq!(retrieve_keyboard_key(KeyPress { unicode: None, named: NamedKey::ControlRight }), KeyboardKey::CtrlRight);
    assert_eq!(retrieve_keyboard_key(KeyPress { unicode: None, named: NamedKey::Other }), KeyboardKey::Unsupported);
}

use rnote_ui::input::{gesture_claims, CanvasGesture};

#[test]
fn gestures_claim_exact_modifiers() {
    let ctrl = ModifierState { control: true, ..no_mods() };
    let alt = ModifierState { alt: true, ..no_mods() };
    let shift_alt = ModifierState { shift: true, alt: true, ..no_mods() };
    assert!(gesture_claims(CanvasGesture::ZoomScroll, ctrl));
    assert!(!gesture_claims(CanvasGesture::ZoomScroll, ModifierState { shift: true, ..ctrl }));
    assert!(gesture_claims(CanvasGesture::PanDrag, alt));
    assert!(!gesture_claims(CanvasGesture::PanDrag, shift_alt));
    assert!(!gesture_claims(CanvasGesture::PanDrag, ModifierState { button1: true, ..alt }));
    assert!(gesture_claims(CanvasGesture::ZoomDrag, shift_alt));
    assert!(!gesture_claims(CanvasGesture::ZoomDrag, alt));
    assert!(!gesture_claims(CanvasGesture::ZoomScroll, no_mods()));
}
