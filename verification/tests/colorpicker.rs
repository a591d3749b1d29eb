use rnote_ui::colors::{
    generate_css_string, picker_layout, ColorPickerState, Margins, Orientation, Position,
    AMOUNT_COLORBUTTONS_DEFAULT, AMOUNT_COLORBUTTONS_MAX, AMOUNT_COLORBUTTONS_MIN,
};

#[test]
fn css_for_left_setter_exact() {
    let css = generate_css_string(Position::Left, 255, 0, 128, 500);
    let expected = "
.setter_button {
    margin-right: 6px;
    background-color: rgba(255, 0, 128, 0.500);
    border-color: mix(mix(@theme_bg_color, rgba(255, 0, 128, 1.0), 0.500), @theme_fg_color, 0.2);
    transition: margin-right 0.15s ease-out, border-radius 0.15s ease-out, filter 0.15s ease-out;
    
    border-top-left-radius: 0px;
    border-bottom-left-radius: 0px;

}

.setter_button:checked {
    margin-right: 0px;
    border-radius: 0px 4px 4px 0px;
}
";
    assert_eq!(css, expected);
}

#[test]
fn css_for_bottom_setter_exact() {
    let css = generate_css_string(Position::Bottom, 0, 10, 200, 1000);
    let expected = "
.setter_button {
    margin-top: 6px;
    background-color: rgba(0, 10, 200, 1.000);
    border-color: mix(mix(@theme_bg_color, rgba(0, 10, 200, 1.0), 1.000), @theme_fg_color, 0.2);
    transition: margin-top 0.15s ease-out, border-radius 0.15s ease-out, filter 0.15s ease-out;
    
    border-bottom-left-radius: 0px;
    border-bottom-right-radius: 0px;

}

.setter_button:checked {
    margin-top: 0px;
    border-radius: 4px 4px 0px 0px;
}
";
    assert_eq!(css, expected);
}

#[test]
fn css_alpha_thousandths_are_zero_padded() {
    let css = generate_css_string(Position::Right, 1, 2, 3, 5);
    assert!(css.contains("rgba(1, 2, 3, 0.005)"));
    assert!(css.contains("margin-left: 6px;"));
    assert!(css.contains("border-radius: 4px 0px 0px 4px;"));
    let css = generate_css_string(Position::Top, 1, 2, 3, 42);
    assert!(css.contains("rgba(1, 2, 3, 0.042)"));
    assert!(css.contains("margin-bottom: 0px;"));
}

#[test]
fn css_negative_channel() {
    let css = generate_css_string(Position::Top, -1, 0, 0, 0);
    assert!(css.contains("rgba(-1, 0, 0, 0.000)"));
}

#[test]
fn picker_layouts() {
    let l = picker_layout(Position::Left);
    assert_eq!(l.popover_position, Position::Right);
    assert_eq!(l.orientation, Orientation::Vertical);
    assert_eq!(l.button_margins, Margins { start: 0, end: 0, top: 3, bottom: 0 });
    let l = picker_layout(Position::Right);
    assert_eq!(l.popover_position, Position::Left);
    assert_eq!(l.orientation, Orientation::Vertical);
    let l = picker_layout(Position::Top);
    assert_eq!(l.popover_position, Position::Bottom);
    assert_eq!(l.orientation, Orientation::Horizontal);
    assert_eq!(l.button_margins, Margins { start: 3, end: 0, top: 0, bottom: 0 });
    let l = picker_layout(Position::Bottom);
    assert_eq!(l.popover_position, Position::Top);
    assert_eq!(l.orientation, Orientation::Horizontal);
}

#[test]
fn amount_constants() {
    assert_eq!(AMOUNT_COLORBUTTONS_MIN, 1);
    assert_eq!(AMOUNT_COLORBUTTONS_MAX, 1000);
    assert_eq!(AMOUNT_COLORBUTTONS_DEFAULT, 8);
}

fn default_picker() -> ColorPickerState<u32> {
    ColorPickerState::new(100, vec![1, 2, 3, 4, 5, 6, 7])
}

#[test]
fn new_picker_selects_first() {
    let p = default_picker();
    assert_eq!(p.selected, 0);
    assert_eq!(p.amount, 8);
    assert_eq!(p.fetch_all_colors(), vec![100, 1, 2, 3, 4, 5, 6, 7]);
}

#[test]
fn set_selected_clamps_to_amount() {
    let mut p = default_picker();
    assert_eq!(p.set_selected(3), Some(3));
    assert_eq!(p.selected, 3);
    assert_eq!(p.set_selected(0), Some(0));
    assert_eq!(p.set_selected(7), Some(7));
    // clamped to the amount of buttons, one past the last button
    assert_eq!(p.set_selected(50), None);
    assert_eq!(p.selected, 8);
}

#[test]
fn set_selected_beyond_buttons_activates_none() {
    let mut p: ColorPickerState<u32> = ColorPickerState::new(0, vec![1, 2, 3, 4, 5, 6, 7]);
    p.set_amount(12, vec![9; 11]);
    p.setters.truncate(3);
    assert_eq!(p.set_selected(10), None);
    assert_eq!(p.selected, 10);
}

#[test]
fn set_amount_rebuilds_setters() {
    let mut p = default_picker();
    p.set_amount(3, vec![11, 12]);
    assert_eq!(p.amount, 3);
    assert_eq!(p.fetch_all_colors(), vec![100, 11, 12]);
}

#[test]
fn load_then_fetch_round_trip() {
    let mut p = default_picker();
    let colors = vec![8, 7, 6, 5, 4, 3, 2, 1];
    p.load_colors(colors.clone());
    assert_eq!(p.fetch_all_colors(), colors);
}

#[test]
fn load_fewer_colors_keeps_the_rest() {
    let mut p = default_picker();
    p.load_colors(vec![50, 51]);
    assert_eq!(p.fetch_all_colors(), vec![50, 51, 2, 3, 4, 5, 6, 7]);
}

#[test]
fn load_more_colors_ignores_the_surplus() {
    let mut p: ColorPickerState<u32> = ColorPickerState::new(0, vec![1, 2, 3, 4, 5, 6, 7]);
    p.set_amount(2, vec![1]);
    p.load_colors(vec![10, 20, 30, 40]);
    assert_eq!(p.fetch_all_colors(), vec![10, 20]);
}

#[test]
fn load_nothing_changes_nothing() {
    let mut p = default_picker();
    p.load_colors(Vec::new());
    assert_eq!(p.fetch_all_colors(), vec![100, 1, 2, 3, 4, 5, 6, 7]);
}
