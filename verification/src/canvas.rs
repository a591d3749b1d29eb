//! The canvas widget's own state: which cursor it shows, where the cursor
//! images come from, and whether its touch gesture listens.

use vstd::prelude::*;
use crate::input::{is_touch_kind, spec_reject_pointer_input, PointerEvent};

verus! {

/// The size of a cursor image, in pixels.
pub const CURSOR_SIZE: i32 = 32i32;

/// The cursor a new canvas shows while no pen is down.
pub open spec fn default_regular_cursor() -> Seq<char> {
    "cursor-dot-medium"@
}

/// The cursor a new canvas shows while a pen is down.
pub open spec fn default_drawing_cursor() -> Seq<char> {
    "cursor-dot-small"@
}

/// The resource path of a cursor's image, under the application's resource
/// path.
pub open spec fn cursor_path(app_idpath: Seq<char>, icon_name: Seq<char>) -> Seq<char> {
    app_idpath + "icons/scalable/actions/"@ + icon_name + ".svg"@
}

/// Returns the resource path of a cursor's image.
pub fn cursor_resource_path(app_idpath: &str, icon_name: &str) -> (p: String)
    ensures
        p@ == cursor_path(app_idpath@, icon_name@),
{
    let mut p = app_idpath.to_owned();
    p.append("icons/scalable/actions/");
    p.append(icon_name);
    p.append(".svg");
    p
}

/// The cursors of a canvas, by their icon names, and the one the widget
/// shows. A cursor is made from its icon when it is set, so the widget keeps
/// showing the cursor it was given until it is given another.
pub struct CanvasCursors {
    pub regular: String,
    pub drawing: String,
    pub shown: String,
}

impl CanvasCursors {
    /// A new canvas: the default cursors, the regular one shown.
    pub fn new() -> (c: Self)
        ensures
            c.regular@ == default_regular_cursor(),
            c.drawing@ == default_drawing_cursor(),
            c.shown@ == default_regular_cursor(),
    {
        let c = CanvasCursors {
            regular: String::from_str("cursor-dot-medium"),
            drawing: String::from_str("cursor-dot-small"),
            shown: String::from_str("cursor-dot-medium"),
        };
        c
    }

    /// Sets the regular cursor, which the canvas shows right away.
    pub fn set_regular_cursor(&mut self, icon_name: &str)
        ensures
            final(self).regular@ == icon_name@,
            final(self).drawing@ == old(self).drawing@,
            final(self).shown@ == icon_name@,
    {
        self.regular = icon_name.to_owned();
        self.shown = icon_name.to_owned();
    }

    /// Sets the drawing cursor, which shows from the next pen down on.
    pub fn set_drawing_cursor(&mut self, icon_name: &str)
        ensures
            final(self).regular@ == old(self).regular@,
            final(self).drawing@ == icon_name@,
            final(self).shown@ == old(self).shown@,
    {
        self.drawing = icon_name.to_owned();
    }

    /// Shows the drawing cursor while drawing, the regular one otherwise.
    pub fn switch_between_cursors(&mut self, drawing_cursor: bool)
        ensures
            final(self).regular@ == old(self).regular@,
            final(self).drawing@ == old(self).drawing@,
            final(self).shown@ == (if drawing_cursor {
                old(self).drawing@
            } else {
                old(self).regular@
            }),
    {
        if drawing_cursor {
            self.shown = self.drawing.clone();
        } else {
            self.shown = self.regular.clone();
        }
    }
}

/// When the canvas's touch gesture receives events.
#[derive(Clone, Copy, Debug, PartialEq, Eq, Structural)]
pub enum PropagationPhase {
    /// Not at all (the toolkit's `None` phase).
    Off,
    /// On the way up from the target.
    Bubble,
}

/// The touch gesture listens only while drawing with touch is enabled.
pub fn touch_gesture_phase(touch_drawing: bool) -> (p: PropagationPhase)
    ensures
        p == (if touch_drawing {
            PropagationPhase::Bubble
        } else {
            PropagationPhase::Off
        }),
{
    if touch_drawing {
        PropagationPhase::Bubble
    } else {
        PropagationPhase::Off
    }
}

/// The touch gesture is switched off exactly when the pointer handling
/// refuses touch events.
pub proof fn lemma_touch_gesture_follows_rejection(event: PointerEvent, touch_drawing: bool)
    requires
        is_touch_kind(event.kind),
    ensures
        (!touch_drawing) == spec_reject_pointer_input(event, touch_drawing),
{
}

} // verus!
