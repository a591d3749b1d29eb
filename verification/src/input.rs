//! Classification of the pointer and key events that reach the canvas.
//!
//! The widget toolkit hands over events as opaque objects; the canvas turns
//! each into a plain `PointerEvent` and lets the functions here decide
//! whether the event is consumed, which pen state follows, which shortcut key
//! it presses and which pen event the engine receives.

use vstd::prelude::*;

verus! {

/// The primary (usually left) mouse button or the stylus tip.
pub const BUTTON_PRIMARY: u32 = 1u32;

/// The middle mouse button or the second stylus button.
pub const BUTTON_MIDDLE: u32 = 2u32;

/// The secondary (usually right) mouse button or the first stylus button.
pub const BUTTON_SECONDARY: u32 = 3u32;

/// The state of the pen as the engine tracks it.
#[derive(Clone, Copy, Debug, PartialEq, Eq, Structural)]
pub enum PenState {
    Up,
    Proximity,
    Down,
}

/// The kind of a pointer event.
#[derive(Clone, Copy, Debug, PartialEq, Eq, Structural)]
pub enum EventKind {
    MotionNotify,
    ButtonPress,
    ButtonRelease,
    ProximityIn,
    ProximityOut,
    TouchBegin,
    TouchUpdate,
    TouchEnd,
    TouchCancel,
    Other,
}

/// The modifier state of an event: the keys and buttons that the pen logic
/// reads, and whether any other modifier is held.
#[derive(Clone, Copy, Debug, PartialEq, Eq, Structural)]
pub struct ModifierState {
    pub shift: bool,
    pub control: bool,
    pub alt: bool,
    pub button1: bool,
    pub button3: bool,
    pub other: bool,
}

impl ModifierState {
    /// No modifier at all is held.
    pub open spec fn spec_is_empty(self) -> bool {
        !self.shift && !self.control && !self.alt && !self.button1 && !self.button3 && !self.other
    }

    /// Whether no modifier at all is held.
    pub fn is_empty(&self) -> (r: bool)
        ensures
            r == self.spec_is_empty(),
    {
        !self.shift && !self.control && !self.alt && !self.button1 && !self.button3 && !self.other
    }
}

/// The kind of tool a stylus reports.
#[derive(Clone, Copy, Debug, PartialEq, Eq, Structural)]
pub enum DeviceToolType {
    Pen,
    Eraser,
    Other,
}

/// A pointer event reduced to what the pen logic reads.
#[derive(Clone, Copy, Debug, PartialEq, Eq, Structural)]
pub struct PointerEvent {
    pub kind: EventKind,
    pub modifiers: ModifierState,
    /// The button of a press or release; ignored for other kinds.
    pub button: u32,
    /// The event was emulated from another device (a touch turned into a pointer).
    pub pointer_emulated: bool,
    /// The tool of the device, which only a stylus has.
    pub tool: Option<DeviceToolType>,
}

impl PointerEvent {
    /// An event comes from a stylus when its device has a tool.
    pub open spec fn spec_is_stylus(self) -> bool {
        self.tool is Some
    }

    /// Whether the event comes from a stylus.
    pub fn is_stylus(&self) -> (r: bool)
        ensures
            r == self.spec_is_stylus(),
    {
        self.tool.is_some()
    }
}

/// A key that can be bound to a pen shortcut.
#[derive(Clone, Copy, Debug, PartialEq, Eq, Structural)]
pub enum ShortcutKey {
    StylusPrimaryButton,
    StylusSecondaryButton,
    MouseSecondaryButton,
}

/// A modifier key that accompanies a pen event.
#[derive(Clone, Copy, Debug, PartialEq, Eq, Structural)]
pub enum ModifierKey {
    KeyboardShift,
    KeyboardCtrl,
    KeyboardAlt,
}

/// The mode of the pen, when the device tells it.
#[derive(Clone, Copy, Debug, PartialEq, Eq, Structural)]
pub enum PenMode {
    Pen,
    Eraser,
}

/// Whether the event is a touch event.
pub open spec fn is_touch_kind(kind: EventKind) -> bool {
    kind == EventKind::TouchBegin || kind == EventKind::TouchUpdate || kind == EventKind::TouchEnd
        || kind == EventKind::TouchCancel
}

/// Touch input, and input emulated from touch, is refused while drawing with
/// touch is disabled.
pub open spec fn spec_reject_pointer_input(event: PointerEvent, touch_drawing: bool) -> bool {
    !touch_drawing && (event.pointer_emulated || is_touch_kind(event.kind))
}

/// Returns whether the pointer input is refused.
pub fn reject_pointer_input(event: &PointerEvent, touch_drawing: bool) -> (r: bool)
    ensures
        r == spec_reject_pointer_input(*event, touch_drawing),
{
    if !touch_drawing {
        let kind = event.kind;
        if event.pointer_emulated || matches!(kind, EventKind::TouchBegin) || matches!(
            kind,
            EventKind::TouchUpdate
        ) || matches!(kind, EventKind::TouchEnd) || matches!(kind, EventKind::TouchCancel) {
            return true;
        }
    }
    false
}

/// The shortcut key that a pressed button stands for: the secondary button of
/// a mouse, and the two buttons of a stylus.
pub open spec fn spec_button_shortcut_key(button: u32, is_stylus: bool) -> Option<ShortcutKey> {
    if button == BUTTON_SECONDARY {
        if is_stylus {
            Some(ShortcutKey::StylusPrimaryButton)
        } else {
            Some(ShortcutKey::MouseSecondaryButton)
        }
    } else if button == BUTTON_MIDDLE && is_stylus {
        Some(ShortcutKey::StylusSecondaryButton)
    } else {
        None
    }
}

/// Returns the shortcut key that the button stands for, if any.
pub fn retrieve_button_shortcut_key(button: u32, is_stylus: bool) -> (r: Option<ShortcutKey>)
    ensures
        r == spec_button_shortcut_key(button, is_stylus),
{
    if button == BUTTON_PRIMARY {
        None
    } else if button == BUTTON_SECONDARY {
        if is_stylus {
            Some(ShortcutKey::StylusPrimaryButton)
        } else {
            Some(ShortcutKey::MouseSecondaryButton)
        }
    } else if button == BUTTON_MIDDLE {
        if is_stylus {
            Some(ShortcutKey::StylusSecondaryButton)
        } else {
            None
        }
    } else {
        None
    }
}

/// The modifier keys held, in the order shift, ctrl, alt.
pub open spec fn spec_modifier_keys(m: ModifierState) -> Seq<ModifierKey> {
    let s0 = if m.shift {
        seq![ModifierKey::KeyboardShift]
    } else {
        Seq::<ModifierKey>::empty()
    };
    let s1 = if m.control {
        s0.push(ModifierKey::KeyboardCtrl)
    } else {
        s0
    };
    if m.alt {
        s1.push(ModifierKey::KeyboardAlt)
    } else {
        s1
    }
}

/// Returns the modifier keys that accompany an event.
pub fn retrieve_modifier_keys(modifier: ModifierState) -> (keys: Vec<ModifierKey>)
    ensures
        keys@ == spec_modifier_keys(modifier),
{
    let mut keys: Vec<ModifierKey> = Vec::new();
    if modifier.shift {
        keys.push(ModifierKey::KeyboardShift);
    }
    if modifier.control {
        keys.push(ModifierKey::KeyboardCtrl);
    }
    if modifier.alt {
        keys.push(ModifierKey::KeyboardAlt);
    }
    keys
}

/// The pen mode that the tool of a stylus tells.
pub open spec fn spec_pen_mode(tool: Option<DeviceToolType>) -> Option<PenMode> {
    match tool {
        Some(DeviceToolType::Pen) => Some(PenMode::Pen),
        Some(DeviceToolType::Eraser) => Some(PenMode::Eraser),
        _ => None,
    }
}

/// Returns the pen mode of the event's tool, if its tool tells one.
pub fn retrieve_pen_mode(event: &PointerEvent) -> (r: Option<PenMode>)
    ensures
        r == spec_pen_mode(event.tool),
{
    match event.tool {
        Some(DeviceToolType::Pen) => Some(PenMode::Pen),
        Some(DeviceToolType::Eraser) => Some(PenMode::Eraser),
        _ => None,
    }
}

/// What the canvas does with a pointer event before it knows where the
/// pointer is.
#[derive(Clone, Copy, Debug, PartialEq, Eq, Structural)]
pub struct PointerDecision {
    /// The event was refused: nothing else happens.
    pub rejected: bool,
    /// The event is consumed and does not propagate further.
    pub inhibit: bool,
    /// The pen state after the event.
    pub state: PenState,
    /// The event is passed on to the engine as a pen event.
    pub handle_pen_event: bool,
    /// The shortcut key that the event presses.
    pub shortcut_key: Option<ShortcutKey>,
}

/// The decision when the event is handled as a pen event in `state`.
pub open spec fn handled(state: PenState, shortcut_key: Option<ShortcutKey>) -> PointerDecision {
    PointerDecision {
        rejected: false,
        inhibit: true,
        state,
        handle_pen_event: true,
        shortcut_key,
    }
}

/// The decision when the event is not passed on, the state left as `state`.
pub open spec fn ignored(state: PenState, shortcut_key: Option<ShortcutKey>) -> PointerDecision {
    PointerDecision {
        rejected: false,
        inhibit: false,
        state,
        handle_pen_event: false,
        shortcut_key,
    }
}

/// Whether the button is one of the three a stylus reports.
pub open spec fn is_stylus_button(button: u32) -> bool {
    button == BUTTON_PRIMARY || button == BUTTON_SECONDARY || button == BUTTON_MIDDLE
}

/// Whether the button is the primary or the secondary mouse button.
pub open spec fn is_mouse_button(button: u32) -> bool {
    button == BUTTON_PRIMARY || button == BUTTON_SECONDARY
}

/// The decision for a pointer event, given whether drawing with touch is
/// enabled and the pen state before it.
///
/// - A stylus in motion is down while its tip (button 1) is held, else in
///   proximity. A mouse in motion is passed on with no button, or with the
///   primary or secondary button held.
/// - A press of a stylus button is passed on (the state kept), a press of
///   the primary or secondary mouse button puts the pen down.
/// - A release of a stylus button is passed on; the pen is up after the tip
///   and in proximity after another button. A release of the primary or
///   secondary mouse button lifts the pen.
/// - Proximity in and out, and touch events, set the state they name.
/// - A press also presses the shortcut key of its button.
pub open spec fn spec_classify_pointer_event(
    event: PointerEvent,
    touch_drawing: bool,
    state: PenState,
) -> PointerDecision {
    let is_stylus = event.spec_is_stylus();
    let m = event.modifiers;
    let button = event.button;
    if spec_reject_pointer_input(event, touch_drawing) {
        PointerDecision {
            rejected: true,
            inhibit: false,
            state,
            handle_pen_event: false,
            shortcut_key: None,
        }
    } else {
        match event.kind {
            EventKind::MotionNotify => if is_stylus {
                handled(
                    if m.button1 {
                        PenState::Down
                    } else {
                        PenState::Proximity
                    },
                    None,
                )
            } else if m.spec_is_empty() || m.button1 || m.button3 {
                handled(state, None)
            } else {
                ignored(state, None)
            },
            EventKind::ButtonPress => {
                let key = spec_button_shortcut_key(button, is_stylus);
                if is_stylus {
                    if is_stylus_button(button) {
                        handled(state, key)
                    } else {
                        ignored(state, key)
                    }
                } else if is_mouse_button(button) {
                    handled(PenState::Down, key)
                } else {
                    ignored(state, key)
                }
            },
            EventKind::ButtonRelease => if is_stylus {
                let new_state = if button == BUTTON_PRIMARY {
                    PenState::Up
                } else {
                    PenState::Proximity
                };
                if is_stylus_button(button) {
                    handled(new_state, None)
                } else {
                    ignored(new_state, None)
                }
            } else if is_mouse_button(button) {
                handled(PenState::Up, None)
            } else {
                ignored(state, None)
            },
            EventKind::ProximityIn => handled(PenState::Proximity, None),
            EventKind::ProximityOut => handled(PenState::Up, None),
            EventKind::TouchBegin => handled(PenState::Down, None),
            EventKind::TouchUpdate => handled(PenState::Down, None),
            EventKind::TouchEnd => handled(PenState::Up, None),
            EventKind::TouchCancel => handled(PenState::Up, None),
            EventKind::Other => ignored(state, None),
        }
    }
}

/// Decides what a pointer event does on the canvas.
pub fn classify_pointer_event(event: &PointerEvent, touch_drawing: bool, state: PenState) -> (d:
    PointerDecision)
    ensures
        d == spec_classify_pointer_event(*event, touch_drawing, state),
{
    if reject_pointer_input(event, touch_drawing) {
        return PointerDecision {
            rejected: true,
            inhibit: false,
            state,
            handle_pen_event: false,
            shortcut_key: None,
        };
    }
    let modifiers = event.modifiers;
    let is_stylus = event.is_stylus();
    let button = event.button;
    let mut new_state = state;
    let mut handle_pen_event = false;
    let mut inhibit = false;
    let mut shortcut_key: Option<ShortcutKey> = None;

    match event.kind {
        EventKind::MotionNotify => {
            if is_stylus {
                handle_pen_event = true;
                inhibit = true;
                if modifiers.button1 {
                    new_state = PenState::Down;
                } else {
                    new_state = PenState::Proximity;
                }
            } else {
                if modifiers.is_empty() || modifiers.button1 || modifiers.button3 {
                    handle_pen_event = true;
                    inhibit = true;
                }
            }
        },
        EventKind::ButtonPress => {
            if is_stylus {
                if button == BUTTON_PRIMARY || button == BUTTON_SECONDARY || button
                    == BUTTON_MIDDLE {
                    handle_pen_event = true;
                    inhibit = true;
                }
            } else {
                if button == BUTTON_PRIMARY || button == BUTTON_SECONDARY {
                    handle_pen_event = true;
                    inhibit = true;
                    new_state = PenState::Down;
                }
            }
            shortcut_key = retrieve_button_shortcut_key(button, is_stylus);
        },
        EventKind::ButtonRelease => {
            if is_stylus {
                if button == BUTTON_PRIMARY || button == BUTTON_SECONDARY || button
                    == BUTTON_MIDDLE {
                    handle_pen_event = true;
                    inhibit = true;
                }
                if button == BUTTON_PRIMARY {
                    new_state = PenState::Up;
                } else {
                    new_state = PenState::Proximity;
                }
            } else {
                if button == BUTTON_PRIMARY || button == BUTTON_SECONDARY {
                    new_state = PenState::Up;
                    handle_pen_event = true;
                    inhibit = true;
                }
            }
        },
        EventKind::ProximityIn => {
            new_state = PenState::Proximity;
            handle_pen_event = true;
            inhibit = true;
        },
        EventKind::ProximityOut => {
            new_state = PenState::Up;
            handle_pen_event = true;
            inhibit = true;
        },
        EventKind::TouchBegin => {
            new_state = PenState::Down;
            handle_pen_event = true;
            inhibit = true;
        },
        EventKind::TouchUpdate => {
            new_state = PenState::Down;
            handle_pen_event = true;
            inhibit = true;
        },
        EventKind::TouchEnd => {
            new_state = PenState::Up;
            handle_pen_event = true;
            inhibit = true;
        },
        EventKind::TouchCancel => {
            new_state = PenState::Up;
            handle_pen_event = true;
            inhibit = true;
        },
        EventKind::Other => {},
    }
    PointerDecision { rejected: false, inhibit, state: new_state, handle_pen_event, shortcut_key }
}

/// What the canvas finally does with a pointer event.
#[derive(Clone, Copy, Debug, PartialEq, Eq, Structural)]
pub struct PointerOutcome {
    /// The event is consumed.
    pub inhibit: bool,
    /// The pen state after the event.
    pub state: PenState,
    /// The pen event sent to the engine, named by the state it carries: down
    /// also grabs the focus and shows the drawing cursor, up and proximity
    /// show the regular cursor.
    pub pen_event: Option<PenState>,
}

/// The outcome of a decision, given whether the position of the pointer
/// could be read: a pen event without a position is dropped and the event
/// is not consumed.
pub open spec fn spec_pointer_outcome(d: PointerDecision, has_position: bool) -> PointerOutcome {
    if d.handle_pen_event && !has_position {
        PointerOutcome { inhibit: false, state: d.state, pen_event: None }
    } else if d.handle_pen_event {
        PointerOutcome { inhibit: d.inhibit, state: d.state, pen_event: Some(d.state) }
    } else {
        PointerOutcome { inhibit: d.inhibit, state: d.state, pen_event: None }
    }
}

/// Finishes a decision once the position of the pointer is known or not.
pub fn pointer_outcome(d: &PointerDecision, has_position: bool) -> (o: PointerOutcome)
    ensures
        o == spec_pointer_outcome(*d, has_position),
{
    if d.handle_pen_event {
        if !has_position {
            return PointerOutcome { inhibit: false, state: d.state, pen_event: None };
        }
        PointerOutcome { inhibit: d.inhibit, state: d.state, pen_event: Some(d.state) }
    } else {
        PointerOutcome { inhibit: d.inhibit, state: d.state, pen_event: None }
    }
}

/// The gestures of the canvas's scrolled window that take over plain
/// scrolling and dragging while modifier keys are held.
#[derive(Clone, Copy, Debug, PartialEq, Eq, Structural)]
pub enum CanvasGesture {
    /// Scrolling zooms.
    ZoomScroll,
    /// Dragging pans.
    PanDrag,
    /// Dragging zooms.
    ZoomDrag,
}

/// The modifier state holds exactly the given keyboard keys and nothing else.
pub open spec fn holds_exactly(m: ModifierState, shift: bool, control: bool, alt: bool) -> bool {
    m.shift == shift && m.control == control && m.alt == alt && !m.button1 && !m.button3 && !m.other
}

/// A gesture takes over the event when exactly its keys are held: control
/// for zooming by scrolling, alt for panning by dragging, shift and alt for
/// zooming by dragging. (A drag starts before its button shows among the
/// modifiers.)
pub open spec fn spec_gesture_claims(gesture: CanvasGesture, m: ModifierState) -> bool {
    match gesture {
        CanvasGesture::ZoomScroll => holds_exactly(m, false, true, false),
        CanvasGesture::PanDrag => holds_exactly(m, false, false, true),
        CanvasGesture::ZoomDrag => holds_exactly(m, true, false, true),
    }
}

/// Returns whether the gesture takes over the event.
pub fn gesture_claims(gesture: CanvasGesture, m: ModifierState) -> (r: bool)
    ensures
        r == spec_gesture_claims(gesture, m),
{
    let no_buttons = !m.button1 && !m.button3 && !m.other;
    match gesture {
        CanvasGesture::ZoomScroll => no_buttons && !m.shift && m.control && !m.alt,
        CanvasGesture::PanDrag => no_buttons && !m.shift && !m.control && m.alt,
        CanvasGesture::ZoomDrag => no_buttons && m.shift && !m.control && m.alt,
    }
}

/// No two of the gestures take over the same event.
pub proof fn lemma_gestures_exclusive(m: ModifierState, a: CanvasGesture, b: CanvasGesture)
    requires
        a != b,
    ensures
        !(spec_gesture_claims(a, m) && spec_gesture_claims(b, m)),
{
}

/// A key of the keyboard reduced to what the key handling reads: the
/// character it types, if any, and which of the named keys it is.
#[derive(Clone, Copy, Debug, PartialEq, Eq, Structural)]
pub enum NamedKey {
    BackSpace,
    Tab,
    Linefeed,
    Return,
    Escape,
    Delete,
    Down,
    Up,
    Left,
    Right,
    ShiftLeft,
    ShiftRight,
    ControlLeft,
    ControlRight,
    Other,
}

/// A key press as the toolkit reports it.
#[derive(Clone, Copy, Debug, PartialEq, Eq, Structural)]
pub struct KeyPress {
    pub unicode: Option<char>,
    pub named: NamedKey,
}

/// A keyboard key as the engine receives it.
#[derive(Clone, Copy, Debug, PartialEq, Eq, Structural)]
pub enum KeyboardKey {
    Unicode(char),
    BackSpace,
    HorizontalTab,
    Linefeed,
    CarriageReturn,
    Escape,
    Delete,
    NavDown,
    NavUp,
    NavLeft,
    NavRight,
    ShiftLeft,
    ShiftRight,
    CtrlLeft,
    CtrlRight,
    Unsupported,
}

/// A key that types a character is that character; the other keys map one
/// for one to the engine's keys.
pub open spec fn spec_keyboard_key(key: KeyPress) -> KeyboardKey {
    match key.unicode {
        Some(c) => KeyboardKey::Unicode(c),
        None => match key.named {
            NamedKey::BackSpace => KeyboardKey::BackSpace,
            NamedKey::Tab => KeyboardKey::HorizontalTab,
            NamedKey::Linefeed => KeyboardKey::Linefeed,
            NamedKey::Return => KeyboardKey::CarriageReturn,
            NamedKey::Escape => KeyboardKey::Escape,
            NamedKey::Delete => KeyboardKey::Delete,
            NamedKey::Down => KeyboardKey::NavDown,
            NamedKey::Up => KeyboardKey::NavUp,
            NamedKey::Left => KeyboardKey::NavLeft,
            NamedKey::Right => KeyboardKey::NavRight,
            NamedKey::ShiftLeft => KeyboardKey::ShiftLeft,
            NamedKey::ShiftRight => KeyboardKey::ShiftRight,
            NamedKey::ControlLeft => KeyboardKey::CtrlLeft,
            NamedKey::ControlRight => KeyboardKey::CtrlRight,
            NamedKey::Other => KeyboardKey::Unsupported,
        },
    }
}

/// Returns the engine's key for a key press.
pub fn retrieve_keyboard_key(key: KeyPress) -> (r: KeyboardKey)
    ensures
        r == spec_keyboard_key(key),
{
    match key.unicode {
        Some(c) => KeyboardKey::Unicode(c),
        None => match key.named {
            NamedKey::BackSpace => KeyboardKey::BackSpace,
            NamedKey::Tab => KeyboardKey::HorizontalTab,
            NamedKey::Linefeed => KeyboardKey::Linefeed,
            NamedKey::Return => KeyboardKey::CarriageReturn,
            NamedKey::Escape => KeyboardKey::Escape,
            NamedKey::Delete => KeyboardKey::Delete,
            NamedKey::Down => KeyboardKey::NavDown,
            NamedKey::Up => KeyboardKey::NavUp,
            NamedKey::Left => KeyboardKey::NavLeft,
            NamedKey::Right => KeyboardKey::NavRight,
            NamedKey::ShiftLeft => KeyboardKey::ShiftLeft,
            NamedKey::ShiftRight => KeyboardKey::ShiftRight,
            NamedKey::ControlLeft => KeyboardKey::CtrlLeft,
            NamedKey::ControlRight => KeyboardKey::CtrlRight,
            NamedKey::Other => KeyboardKey::Unsupported,
        },
    }
}

/// A refused event is not consumed, keeps the pen state, presses no
/// shortcut key and is not passed on.
pub proof fn lemma_rejected_event_changes_nothing(
    event: PointerEvent,
    touch_drawing: bool,
    state: PenState,
)
    requires
        spec_reject_pointer_input(event, touch_drawing),
    ensures
        ({
            let o = spec_pointer_outcome(
                spec_classify_pointer_event(event, touch_drawing, state),
                true,
            );
            !o.inhibit && o.state == state && o.pen_event is None
        }),
        spec_classify_pointer_event(event, touch_drawing, state).shortcut_key is None,
{
}

/// An event is consumed exactly when it is passed on to the engine.
pub proof fn lemma_consumed_iff_passed_on(event: PointerEvent, touch_drawing: bool, state: PenState)
    ensures
        spec_classify_pointer_event(event, touch_drawing, state).inhibit
            == spec_classify_pointer_event(event, touch_drawing, state).handle_pen_event,
{
}

/// A pen event sent to the engine carries the pen state that the canvas
/// keeps afterwards, and a consumed event always sends one.
pub proof fn lemma_outcome_sends_resulting_state(d: PointerDecision, has_position: bool)
    requires
        d.inhibit == d.handle_pen_event,
    ensures
        spec_pointer_outcome(d, has_position).pen_event matches Some(s) ==> s
            == spec_pointer_outcome(d, has_position).state,
        spec_pointer_outcome(d, has_position).inhibit <==> spec_pointer_outcome(
            d,
            has_position,
        ).pen_event is Some,
        spec_pointer_outcome(d, has_position).state == d.state,
{
}

/// With touch drawing enabled, a touch that begins or moves puts the pen
/// down and a touch that ends or is cancelled lifts it, whatever the state
/// was.
pub proof fn lemma_touch_sets_pen_state(event: PointerEvent, state: PenState)
    requires
        is_touch_kind(event.kind),
    ensures
        spec_classify_pointer_event(event, true, state).handle_pen_event,
        spec_classify_pointer_event(event, true, state).state == (if event.kind
            == EventKind::TouchBegin || event.kind == EventKind::TouchUpdate {
            PenState::Down
        } else {
            PenState::Up
        }),
{
}

/// The primary button never presses a shortcut key; the secondary button
/// always does.
pub proof fn lemma_button_shortcut_keys(is_stylus: bool)
    ensures
        spec_button_shortcut_key(BUTTON_PRIMARY, is_stylus) is None,
        spec_button_shortcut_key(BUTTON_SECONDARY, is_stylus) is Some,
{
}

/// Each modifier key is reported exactly when it is held, once, and in the
/// order shift, ctrl, alt.
pub proof fn lemma_modifier_keys_exact(m: ModifierState)
    ensures
        spec_modifier_keys(m).contains(ModifierKey::KeyboardShift) == m.shift,
        spec_modifier_keys(m).contains(ModifierKey::KeyboardCtrl) == m.control,
        spec_modifier_keys(m).contains(ModifierKey::KeyboardAlt) == m.alt,
        spec_modifier_keys(m).len() == (if m.shift {
            1int
        } else {
            0int
        }) + (if m.control {
            1int
        } else {
            0int
        }) + (if m.alt {
            1int
        } else {
            0int
        }),
        m.shift ==> spec_modifier_keys(m)[0] == ModifierKey::KeyboardShift,
        m.alt ==> spec_modifier_keys(m).last() == ModifierKey::KeyboardAlt,
{
    let s0 = if m.shift {
        seq![ModifierKey::KeyboardShift]
    } else {
        Seq::<ModifierKey>::empty()
    };
    let s1 = if m.control {
        s0.push(ModifierKey::KeyboardCtrl)
    } else {
        s0
    };
    let s2 = spec_modifier_keys(m);
    assert(s0.contains(ModifierKey::KeyboardShift) == m.shift) by {
        if m.shift {
            assert(s0[0] == ModifierKey::KeyboardShift);
        }
    }
    assert(!s0.contains(ModifierKey::KeyboardCtrl));
    assert(!s0.contains(ModifierKey::KeyboardAlt));
    if m.control {
        assert(s1[s1.len() - 1] == ModifierKey::KeyboardCtrl);
        assert forall|k: ModifierKey| k != ModifierKey::KeyboardCtrl implies s1.contains(k)
            == s0.contains(k) by {
            if s1.contains(k) {
                let i = choose|i: int| 0 <= i < s1.len() && s1[i] == k;
                assert(s0[i] == k);
            }
            if s0.contains(k) {
                let i = choose|i: int| 0 <= i < s0.len() && s0[i] == k;
                assert(s1[i] == k);
            }
        }
    }
    assert(s1.contains(ModifierKey::KeyboardCtrl) == m.control);
    assert(!s1.contains(ModifierKey::KeyboardAlt));
    if m.alt {
        assert(s2[s2.len() - 1] == ModifierKey::KeyboardAlt);
        assert forall|k: ModifierKey| k != ModifierKey::KeyboardAlt implies s2.contains(k)
            == s1.contains(k) by {
            if s2.contains(k) {
                let i = choose|i: int| 0 <= i < s2.len() && s2[i] == k;
                assert(s1[i] == k);
            }
            if s1.contains(k) {
                let i = choose|i: int| 0 <= i < s1.len() && s1[i] == k;
                assert(s2[i] == k);
            }
        }
    }
}

/// A mouse that moves with its primary or secondary button held, or with
/// no modifier at all, is drawing: the motion is consumed and passed on to
/// the engine, and the pen keeps its state.
pub proof fn lemma_mouse_motion_is_passed_on(event: PointerEvent, touch_drawing: bool, state: PenState)
    requires
        event.kind == EventKind::MotionNotify,
        event.tool is None,
        !event.pointer_emulated,
        event.modifiers.button1 || event.modifiers.button3 || (!event.modifiers.shift
            && !event.modifiers.control && !event.modifiers.alt && !event.modifiers.button1
            && !event.modifiers.button3 && !event.modifiers.other),
    ensures
        !spec_classify_pointer_event(event, touch_drawing, state).rejected,
        spec_classify_pointer_event(event, touch_drawing, state).handle_pen_event,
        spec_classify_pointer_event(event, touch_drawing, state).inhibit,
        spec_classify_pointer_event(event, touch_drawing, state).state == state,
        spec_classify_pointer_event(event, touch_drawing, state).shortcut_key is None,
{
}

/// A mouse draws between a press and a release of its primary or secondary
/// button: the press puts the pen down and the release lifts it, both passed
/// on to the engine. A stylus in motion is down exactly while its tip
/// touches.
pub proof fn lemma_mouse_press_release_and_stylus_motion(
    event: PointerEvent,
    touch_drawing: bool,
    state: PenState,
)
    requires
        !event.pointer_emulated,
    ensures
        (event.tool is None && event.kind == EventKind::ButtonPress && (event.button == 1
            || event.button == 3)) ==> ({
            let d = spec_classify_pointer_event(event, touch_drawing, state);
            d.handle_pen_event && d.inhibit && d.state == PenState::Down
        }),
        (event.tool is None && event.kind == EventKind::ButtonRelease && (event.button == 1
            || event.button == 3)) ==> ({
            let d = spec_classify_pointer_event(event, touch_drawing, state);
            d.handle_pen_event && d.inhibit && d.state == PenState::Up
        }),
        (event.tool is Some && event.kind == EventKind::MotionNotify) ==> ({
            let d = spec_classify_pointer_event(event, touch_drawing, state);
            d.handle_pen_event && d.inhibit && (d.state == PenState::Down
                <==> event.modifiers.button1) && d.state != PenState::Up
        }),
{
}

} // verus!
