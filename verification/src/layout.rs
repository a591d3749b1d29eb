//! Where the parts of the window go for right- and left-handed use, and how
//! the sidebar flap and its chrome follow its state.

use vstd::prelude::*;

verus! {

/// A side along the reading direction.
#[derive(Clone, Copy, Debug, PartialEq, Eq, Structural)]
pub enum Side {
    Start,
    End,
}

/// A horizontal direction.
#[derive(Clone, Copy, Debug, PartialEq, Eq, Structural)]
pub enum Direction {
    Left,
    Right,
}

/// A corner, where a scrolled window puts its content relative to its
/// scrollbars.
#[derive(Clone, Copy, Debug, PartialEq, Eq, Structural)]
pub enum Corner {
    TopLeft,
    TopRight,
    BottomLeft,
    BottomRight,
}

/// The placement of the window's parts for one handedness.
#[derive(Clone, Copy, Debug, PartialEq, Eq, Structural)]
pub struct HandednessLayout {
    /// The side of the sidebar flap.
    pub flap_position: Side,
    /// The flap toggle on the left of the header is shown.
    pub left_flapreveal_visible: bool,
    /// The flap toggle on the right of the header is shown.
    pub right_flapreveal_visible: bool,
    /// The right-handed toggle of the app menu is the active one (else the
    /// left-handed one).
    pub righthanded_toggle_active: bool,
    /// The grid row of the main grid that holds the pens sidebar, the
    /// separator and the canvas overlays.
    pub main_grid_row: i32,
    /// The grid column of the separator between the sidebar and the overlays.
    pub separator_column: i32,
    /// The grid column of the canvas overlays.
    pub overlays_column: i32,
    /// The grid column of the pens sidebar.
    pub sidebar_column: i32,
    /// The grid row of the workspace browser that holds the workspaces bar and
    /// the file list.
    pub browser_row: i32,
    /// The grid column of the workspaces bar in the workspace browser.
    pub workspacesbar_column: i32,
    /// The grid column of the file list in the workspace browser.
    pub files_column: i32,
    /// The alignment of the quick actions and of the sidebar box.
    pub quickactions_halign: Side,
    /// The alignment of the sidebar box over the canvas.
    pub sidebar_halign: Side,
    /// Where the scrolled content of the sidebars and lists sits.
    pub sidebar_placement: Corner,
    /// Where the scrolled canvas sits.
    pub canvas_placement: Corner,
    /// The end of the header bar that holds the pen toggles.
    pub pens_toggles_pack: Side,
    /// The direction in which the menus of the sidebar pages open.
    pub menubutton_direction: Direction,
    /// The side of the sidebar pickers (color and stroke width) relative to
    /// their popovers.
    pub picker_position: Direction,
}

/// The layout for a right-handed user puts the sidebar and its menus on the
/// left, so that the hand holding the pen does not cover them; the layout
/// for a left-handed user mirrors it.
pub open spec fn spec_handedness_layout(righthanded: bool) -> HandednessLayout {
    if righthanded {
        HandednessLayout {
            flap_position: Side::Start,
            left_flapreveal_visible: true,
            right_flapreveal_visible: false,
            righthanded_toggle_active: true,
            main_grid_row: 3,
            separator_column: 1,
            overlays_column: 2,
            sidebar_column: 0,
            browser_row: 0,
            workspacesbar_column: 0,
            files_column: 2,
            quickactions_halign: Side::End,
            sidebar_halign: Side::Start,
            sidebar_placement: Corner::TopRight,
            canvas_placement: Corner::BottomLeft,
            pens_toggles_pack: Side::Start,
            menubutton_direction: Direction::Right,
            picker_position: Direction::Left,
        }
    } else {
        HandednessLayout {
            flap_position: Side::End,
            left_flapreveal_visible: false,
            right_flapreveal_visible: true,
            righthanded_toggle_active: false,
            main_grid_row: 3,
            separator_column: 1,
            overlays_column: 0,
            sidebar_column: 2,
            browser_row: 0,
            workspacesbar_column: 2,
            files_column: 0,
            quickactions_halign: Side::Start,
            sidebar_halign: Side::End,
            sidebar_placement: Corner::TopLeft,
            canvas_placement: Corner::BottomRight,
            pens_toggles_pack: Side::End,
            menubutton_direction: Direction::Left,
            picker_position: Direction::Right,
        }
    }
}

/// Returns the layout of the window for the handedness.
pub fn handedness_layout(righthanded: bool) -> (l: HandednessLayout)
    ensures
        l == spec_handedness_layout(righthanded),
{
    if righthanded {
        HandednessLayout {
            flap_position: Side::Start,
            left_flapreveal_visible: true,
            right_flapreveal_visible: false,
            righthanded_toggle_active: true,
            main_grid_row: 3,
            separator_column: 1,
            overlays_column: 2,
            sidebar_column: 0,
            browser_row: 0,
            workspacesbar_column: 0,
            files_column: 2,
            quickactions_halign: Side::End,
            sidebar_halign: Side::Start,
            sidebar_placement: Corner::TopRight,
            canvas_placement: Corner::BottomLeft,
            pens_toggles_pack: Side::Start,
            menubutton_direction: Direction::Right,
            picker_position: Direction::Left,
        }
    } else {
        HandednessLayout {
            flap_position: Side::End,
            left_flapreveal_visible: false,
            right_flapreveal_visible: true,
            righthanded_toggle_active: false,
            main_grid_row: 3,
            separator_column: 1,
            overlays_column: 0,
            sidebar_column: 2,
            browser_row: 0,
            workspacesbar_column: 2,
            files_column: 0,
            quickactions_halign: Side::Start,
            sidebar_halign: Side::End,
            sidebar_placement: Corner::TopLeft,
            canvas_placement: Corner::BottomRight,
            pens_toggles_pack: Side::End,
            menubutton_direction: Direction::Left,
            picker_position: Direction::Right,
        }
    }
}

/// The other side.
pub open spec fn flip_side(s: Side) -> Side {
    match s {
        Side::Start => Side::End,
        Side::End => Side::Start,
    }
}

/// The other direction.
pub open spec fn flip_direction(d: Direction) -> Direction {
    match d {
        Direction::Left => Direction::Right,
        Direction::Right => Direction::Left,
    }
}

/// The corner mirrored left to right.
pub open spec fn mirror_corner(c: Corner) -> Corner {
    match c {
        Corner::TopLeft => Corner::TopRight,
        Corner::TopRight => Corner::TopLeft,
        Corner::BottomLeft => Corner::BottomRight,
        Corner::BottomRight => Corner::BottomLeft,
    }
}

/// The left-handed layout is the mirror image of the right-handed one:
/// every side, direction, corner and grid column is swapped, every
/// visibility of the two flap toggles exchanged, while the rows and the
/// separator's middle column stay; the parts of each row never share a
/// column.
pub proof fn lemma_handedness_layouts_mirror()
    ensures
        ({
            let r = spec_handedness_layout(true);
            let l = spec_handedness_layout(false);
            &&& l.flap_position == flip_side(r.flap_position)
            &&& l.left_flapreveal_visible == r.right_flapreveal_visible
            &&& l.right_flapreveal_visible == r.left_flapreveal_visible
            &&& l.righthanded_toggle_active != r.righthanded_toggle_active
            &&& l.main_grid_row == r.main_grid_row
            &&& l.separator_column == r.separator_column
            &&& l.browser_row == r.browser_row
            &&& l.overlays_column == 2 - r.overlays_column
            &&& l.sidebar_column == 2 - r.sidebar_column
            &&& l.workspacesbar_column == 2 - r.workspacesbar_column
            &&& l.files_column == 2 - r.files_column
            &&& l.quickactions_halign == flip_side(r.quickactions_halign)
            &&& l.sidebar_halign == flip_side(r.sidebar_halign)
            &&& l.sidebar_placement == mirror_corner(r.sidebar_placement)
            &&& l.canvas_placement == mirror_corner(r.canvas_placement)
            &&& l.pens_toggles_pack == flip_side(r.pens_toggles_pack)
            &&& l.menubutton_direction == flip_direction(r.menubutton_direction)
            &&& l.picker_position == flip_direction(r.picker_position)
        }),
        forall|righthanded: bool|
            {
                let x = #[trigger] spec_handedness_layout(righthanded);
                &&& x.main_grid_row == 3 && x.browser_row == 0 && x.separator_column == 1
                &&& x.overlays_column != x.sidebar_column
                &&& x.overlays_column != x.separator_column
                &&& x.sidebar_column != x.separator_column
                &&& x.workspacesbar_column != x.files_column
                &&& x.left_flapreveal_visible != x.right_flapreveal_visible
            },
{
}

/// The chrome around the flap: where the app menu sits and which header
/// buttons show.
#[derive(Clone, Copy, Debug, PartialEq, Eq, Structural)]
pub struct FlapChrome {
    /// The app menu sits in the flap's menu box, which is shown (else it sits
    /// in the main header and the box is hidden).
    pub appmenu_in_flap: bool,
    /// The button that closes the flap is shown.
    pub close_button_visible: bool,
    /// The flap's header shows the window buttons at its start.
    pub show_start_title_buttons: bool,
    /// The flap's header shows the window buttons at its end.
    pub show_end_title_buttons: bool,
}

/// The app menu moves into an unfolded, revealed flap; the flap shows the
/// window buttons on its outer side while revealed.
pub open spec fn spec_flap_chrome(reveals: bool, folded: bool, position: Side) -> FlapChrome {
    FlapChrome {
        appmenu_in_flap: reveals && !folded,
        close_button_visible: !(reveals && !folded),
        show_start_title_buttons: position == Side::Start && reveals,
        show_end_title_buttons: position == Side::End && reveals,
    }
}

/// Returns the chrome of the flap in the given state.
pub fn flap_chrome(reveals: bool, folded: bool, position: Side) -> (c: FlapChrome)
    ensures
        c == spec_flap_chrome(reveals, folded, position),
{
    let in_flap = reveals && !folded;
    FlapChrome {
        appmenu_in_flap: in_flap,
        close_button_visible: !in_flap,
        show_start_title_buttons: matches!(position, Side::Start) && reveals,
        show_end_title_buttons: matches!(position, Side::End) && reveals,
    }
}

/// What the flap toggles do when the flap folds or unfolds.
#[derive(Clone, Copy, Debug, PartialEq, Eq, Structural)]
pub struct FoldedUpdate {
    /// The new active state of both flap toggles, if they change.
    pub toggles_active: Option<bool>,
    /// Whether the flap is remembered as revealed while unfolded.
    pub expanded_revealed: bool,
}

/// A folding flap hides behind its toggles; an unfolding flap that was
/// revealed while unfolded (or is revealed now) is revealed again and
/// remembered so.
pub open spec fn spec_folded_update(folded: bool, reveals: bool, expanded_revealed: bool) -> FoldedUpdate {
    if folded {
        FoldedUpdate { toggles_active: Some(false), expanded_revealed }
    } else if expanded_revealed || reveals {
        FoldedUpdate { toggles_active: Some(true), expanded_revealed: true }
    } else {
        FoldedUpdate { toggles_active: None, expanded_revealed }
    }
}

/// Returns what the toggles do when the folded state of the flap changes.
pub fn folded_update(folded: bool, reveals: bool, expanded_revealed: bool) -> (u: FoldedUpdate)
    ensures
        u == spec_folded_update(folded, reveals, expanded_revealed),
{
    if folded {
        FoldedUpdate { toggles_active: Some(false), expanded_revealed }
    } else if expanded_revealed || reveals {
        FoldedUpdate { toggles_active: Some(true), expanded_revealed: true }
    } else {
        FoldedUpdate { toggles_active: None, expanded_revealed }
    }
}

/// A flap toggle reveals or hides the flap, and while the flap is unfolded
/// its state is remembered: returns the remembered state.
pub fn toggle_expanded_revealed(active: bool, folded: bool, expanded_revealed: bool) -> (r: bool)
    ensures
        r == (if folded {
            expanded_revealed
        } else {
            active
        }),
{
    if !folded {
        active
    } else {
        expanded_revealed
    }
}

/// The header of a flap on the given side: the end where the close button
/// is packed, and the icon of the close button.
#[derive(Clone, Copy, Debug, PartialEq, Eq, Structural)]
pub struct FlapHeader {
    pub close_button_pack: Side,
    /// The flap box comes before the resizer (else after it).
    pub flap_box_first: bool,
    /// The close button points left (else right).
    pub close_icon_left: bool,
}

/// A flap at the start has its resizer after it and a close button at the
/// header's end pointing left; a flap at the end mirrors it.
pub open spec fn spec_flap_header(position: Side) -> FlapHeader {
    match position {
        Side::Start => FlapHeader {
            close_button_pack: Side::End,
            flap_box_first: true,
            close_icon_left: true,
        },
        Side::End => FlapHeader {
            close_button_pack: Side::Start,
            flap_box_first: false,
            close_icon_left: false,
        },
    }
}

/// Returns the header of a flap on the given side.
pub fn flap_header(position: Side) -> (h: FlapHeader)
    ensures
        h == spec_flap_header(position),
{
    match position {
        Side::Start => FlapHeader {
            close_button_pack: Side::End,
            flap_box_first: true,
            close_icon_left: true,
        },
        Side::End => FlapHeader {
            close_button_pack: Side::Start,
            flap_box_first: false,
            close_icon_left: false,
        },
    }
}

/// The icon name of the close button of the flap.
pub fn flap_close_icon_name(position: Side) -> (s: &'static str)
    ensures
        s@ == (if position == Side::Start {
            "left-symbolic"@
        } else {
            "right-symbolic"@
        }),
{
    match position {
        Side::Start => "left-symbolic",
        Side::End => "right-symbolic",
    }
}

/// How far the flap may grow: it keeps this many pixels of the header free.
pub const FLAP_FOLDED_RESIZE_MARGIN: i32 = 64i32;

/// What dragging the flap resizer does.
#[derive(Clone, Copy, Debug, PartialEq, Eq, Structural)]
pub enum FlapResize {
    /// Request the new width for the flap box.
    SetWidth(i32),
    /// The width would leave the allowed range: nothing changes.
    Keep,
    /// The flap folded or unfolded during the drag: reveal it through the
    /// toggles.
    RevealToggles,
    /// The flap unfolded during the drag: nothing changes.
    Nothing,
}

/// The width that a drag by `dx` pixels (rounded away from the flap's edge:
/// up for a flap at the start, down for one at the end) asks for.
pub open spec fn resize_width(position: Side, width: int, dx_rounded: int) -> int {
    if position == Side::Start {
        width + dx_rounded
    } else {
        width - dx_rounded
    }
}

/// A drag resizes the flap while its folded state stays as it was when the
/// drag began; the new width must stay positive and leave the margin of the
/// header free.
pub open spec fn spec_flap_resize(
    folded: bool,
    prev_folded: bool,
    position: Side,
    width: i32,
    dx_rounded: i32,
    header_width: i32,
) -> FlapResize {
    if folded == prev_folded {
        let w = resize_width(position, width as int, dx_rounded as int);
        if 0 < w < header_width - FLAP_FOLDED_RESIZE_MARGIN {
            FlapResize::SetWidth(w as i32)
        } else {
            FlapResize::Keep
        }
    } else if folded {
        FlapResize::RevealToggles
    } else {
        FlapResize::Nothing
    }
}

/// Decides what a drag of the flap resizer does. `dx_rounded` is the drag
/// offset rounded up for a flap at the start and down for one at the end.
pub fn flap_resize(
    folded: bool,
    prev_folded: bool,
    position: Side,
    width: i32,
    dx_rounded: i32,
    header_width: i32,
) -> (r: FlapResize)
    ensures
        r == spec_flap_resize(folded, prev_folded, position, width, dx_rounded, header_width),
{
    if folded == prev_folded {
        let w: i64 = match position {
            Side::Start => width as i64 + dx_rounded as i64,
            Side::End => width as i64 - dx_rounded as i64,
        };
        if 0 < w && w < header_width as i64 - FLAP_FOLDED_RESIZE_MARGIN as i64 {
            FlapResize::SetWidth(w as i32)
        } else {
            FlapResize::Keep
        }
    } else if folded {
        FlapResize::RevealToggles
    } else {
        FlapResize::Nothing
    }
}

/// The close button hides a revealed flap only while it is folded.
pub fn flap_close_hides(reveals: bool, folded: bool) -> (r: bool)
    ensures
        r == (reveals && folded),
{
    reveals && folded
}

/// The flap's chrome is consistent: the app menu is either in the flap or
/// the close button shows, never both, and window buttons show on at most
/// one side, on the flap's own side, and only while it is revealed.
pub proof fn lemma_flap_chrome_consistent(reveals: bool, folded: bool, position: Side)
    ensures
        ({
            let c = spec_flap_chrome(reveals, folded, position);
            &&& c.appmenu_in_flap != c.close_button_visible
            &&& !(c.show_start_title_buttons && c.show_end_title_buttons)
            &&& (c.show_start_title_buttons || c.show_end_title_buttons) == reveals
        }),
{
}

/// A resize never asks for a width outside the allowed range.
pub proof fn lemma_flap_resize_in_range(
    folded: bool,
    prev_folded: bool,
    position: Side,
    width: i32,
    dx_rounded: i32,
    header_width: i32,
)
    ensures
        spec_flap_resize(folded, prev_folded, position, width, dx_rounded, header_width) matches FlapResize::SetWidth(
            w,
        ) ==> 0 < w < header_width - FLAP_FOLDED_RESIZE_MARGIN,
{
}

} // verus!
