use rnote_ui::layout::{
    flap_chrome, flap_close_hides, flap_close_icon_name, flap_header, flap_resize, folded_update,
    handedness_layout, toggle_expanded_revealed, Corner, Direction, FlapChrome, FlapHeader,
    FlapResize, FoldedUpdate, Side, FLAP_FOLDED_RESIZE_MARGIN,
};

#[test]
fn righthanded_layout() {
    let l = handedness_layout(true);
    assert_eq!(l.flap_position, Side::Start);
    assert!(l.left_flapreveal_visible && !l.right_flapreveal_visible);
    assert!(l.righthanded_toggle_active);
    assert_eq!((l.overlays_column, l.sidebar_column), (2, 0));
    assert_eq!((l.main_grid_row, l.separator_column, l.browser_row), (3, 1, 0));
    assert_eq!((l.workspacesbar_column, l.files_column), (0, 2));
    assert_eq!(l.sidebar_placement, Corner::TopRight);
    assert_eq!(l.canvas_placement, Corner::BottomLeft);
    assert_eq!(l.menubutton_direction, Direction::Right);
    assert_eq!(l.picker_position, Direction::Left);
}

#[test]
fn lefthanded_layout_mirrors_righthanded() {
    let r = handedness_layout(true);
    let l = handedness_layout(false);
    assert_eq!(l.flap_position, Side::End);
    assert_eq!(l.left_flapreveal_visible, r.right_flapreveal_visible);
    assert_eq!(l.right_flapreveal_visible, r.left_flapreveal_visible);
    assert!(!l.righthanded_toggle_active);
    assert_eq!(l.overlays_column, r.sidebar_column);
    assert_eq!(l.sidebar_column, r.overlays_column);
    assert_eq!((l.main_grid_row, l.separator_column, l.browser_row), (3, 1, 0));
    assert_eq!((l.workspacesbar_column, l.files_column), (2, 0));
    assert_eq!(l.sidebar_placement, Corner::TopLeft);
    assert_eq!(l.canvas_placement, Corner::BottomRight);
    assert_eq!(l.quickactions_halign, Side::Start);
    assert_eq!(l.pens_toggles_pack, Side::End);
    assert_eq!(l.menubutton_direction, Direction::Left);
    assert_eq!(l.picker_position, Direction::Right);
}

#[test]
fn flap_chrome_states() {
    assert_eq!(
        flap_chrome(true, false, Side::Start),
        FlapChrome {
            appmenu_in_flap: true,
            close_button_visible: false,
            show_start_title_buttons: true,
            show_end_title_buttons: false
        }
    );
    assert_eq!(
        flap_chrome(true, true, Side::End),
        FlapChrome {
            appmenu_in_flap: false,
            close_button_visible: true,
            show_start_title_buttons: false,
            show_end_title_buttons: true
        }
    );
    let c = flap_chrome(false, false, Side::Start);
    assert!(!c.appmenu_in_flap && c.close_button_visible);
    assert!(!c.show_start_title_buttons && !c.show_end_title_buttons);
}

#[test]
fn folding_and_unfolding() {
    assert_eq!(folded_update(true, true, true), FoldedUpdate { toggles_active: Some(false), expanded_revealed: true });
    assert_eq!(folded_update(false, false, true), FoldedUpdate { toggles_active: Some(true), expanded_revealed: true });
    assert_eq!(folded_update(false, true, false), FoldedUpdate { toggles_active: Some(true), expanded_revealed: true });
    assert_eq!(folded_update(false, false, false), FoldedUpdate { toggles_active: None, expanded_revealed: false });
}

#[test]
fn toggles_remember_unfolded_state() {
    assert!(toggle_expanded_revealed(true, false, false));
    assert!(!toggle_expanded_revealed(false, false, true));
    assert!(toggle_expanded_revealed(false, true, true));
}

#[test]
fn flap_headers() {
    assert_eq!(flap_header(Side::Start), FlapHeader { close_button_pack: Side::End, flap_box_first: true, close_icon_left: true });
    assert_eq!(flap_header(Side::End), FlapHeader { close_button_pack: Side::Start, flap_box_first: false, close_icon_left: false });
    assert_eq!(flap_close_icon_name(Side::Start), "left-symbolic");
    assert_eq!(flap_close_icon_name(Side::End), "right-symbolic");
}

#[test]
fn flap_resizing() {
    assert_eq!(FLAP_FOLDED_RESIZE_MARGIN, 64);
    assert_eq!(flap_resize(false, false, Side::Start, 300, 20, 1000), FlapResize::SetWidth(320));
    assert_eq!(flap_resize(false, false, Side::End, 300, 20, 1000), FlapResize::SetWidth(280));
    // too wide: would cover the header's margin
    assert_eq!(flap_resize(false, false, Side::Start, 900, 36, 1000), FlapResize::Keep);
    assert_eq!(flap_resize(false, false, Side::Start, 900, 35, 1000), FlapResize::SetWidth(935));
    // not positive
    assert_eq!(flap_resize(false, false, Side::End, 10, 10, 1000), FlapResize::Keep);
    assert_eq!(flap_resize(true, false, Side::Start, 300, 20, 1000), FlapResize::RevealToggles);
    assert_eq!(flap_resize(false, true, Side::Start, 300, 20, 1000), FlapResize::Nothing);
    assert_eq!(flap_resize(false, false, Side::Start, i32::MAX, i32::MAX, i32::MAX), FlapResize::Keep);
}

#[test]
fn close_button_hides_only_folded_flap() {
    assert!(flap_close_hides(true, true));
    assert!(!flap_close_hides(true, false));
    assert!(!flap_close_hides(false, true));
}
