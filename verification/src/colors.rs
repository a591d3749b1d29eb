//! The color picker: the style sheet of its color buttons, the layout for
//! the side it sits on, and the bookkeeping of its colors and selection.

use vstd::prelude::*;
use crate::text::{append_decimal, append_signed_decimal, decimal, signed_decimal};

verus! {

/// The side of the window a picker sits on.
#[derive(Clone, Copy, Debug, PartialEq, Eq, Structural)]
pub enum Position {
    Left,
    Right,
    Top,
    Bottom,
}

/// The suffix of the margin property for a button on the given side: the
/// margin faces away from the window's edge.
pub open spec fn margin_suffix(position: Position) -> Seq<char> {
    match position {
        Position::Left => "-right"@,
        Position::Right => "-left"@,
        Position::Top => "-bottom"@,
        Position::Bottom => "-top"@,
    }
}

/// The corner radii that the unchecked button drops on the window's side.
pub open spec fn unchecked_radii(position: Position) -> Seq<char> {
    match position {
        Position::Left => "\n    border-top-left-radius: 0px;\n    border-bottom-left-radius: 0px;\n"@,
        Position::Right => "\n    border-top-right-radius: 0px;\n    border-bottom-right-radius: 0px;\n"@,
        Position::Top => "\n    border-top-left-radius: 0px;\n    border-top-right-radius: 0px;\n"@,
        Position::Bottom => "\n    border-bottom-left-radius: 0px;\n    border-bottom-right-radius: 0px;\n"@,
    }
}

/// The corner radii of the checked button.
pub open spec fn checked_radii(position: Position) -> Seq<char> {
    match position {
        Position::Left => "border-radius: 0px 4px 4px 0px;"@,
        Position::Right => "border-radius: 4px 0px 0px 4px;"@,
        Position::Top => "border-radius: 0px 0px 4px 4px;"@,
        Position::Bottom => "border-radius: 4px 4px 0px 0px;"@,
    }
}

fn margin_suffix_str(position: Position) -> (s: &'static str)
    ensures
        s@ == margin_suffix(position),
{
    match position {
        Position::Left => "-right",
        Position::Right => "-left",
        Position::Top => "-bottom",
        Position::Bottom => "-top",
    }
}

fn unchecked_radii_str(position: Position) -> (s: &'static str)
    ensures
        s@ == unchecked_radii(position),
{
    match position {
        Position::Left => "\n    border-top-left-radius: 0px;\n    border-bottom-left-radius: 0px;\n",
        Position::Right => "\n    border-top-right-radius: 0px;\n    border-bottom-right-radius: 0px;\n",
        Position::Top => "\n    border-top-left-radius: 0px;\n    border-top-right-radius: 0px;\n",
        Position::Bottom => "\n    border-bottom-left-radius: 0px;\n    border-bottom-right-radius: 0px;\n",
    }
}

fn checked_radii_str(position: Position) -> (s: &'static str)
    ensures
        s@ == checked_radii(position),
{
    match position {
        Position::Left => "border-radius: 0px 4px 4px 0px;",
        Position::Right => "border-radius: 4px 0px 0px 4px;",
        Position::Top => "border-radius: 0px 0px 4px 4px;",
        Position::Bottom => "border-radius: 4px 4px 0px 0px;",
    }
}

/// Three digits with leading zeros, for numbers below a thousand.
pub open spec fn three_digits(n: nat) -> Seq<char> {
    if n < 10 {
        seq!['0', '0'] + decimal(n)
    } else if n < 100 {
        seq!['0'] + decimal(n)
    } else {
        decimal(n)
    }
}

/// A number of thousandths written with three decimals, as `{:.3}` writes
/// the number it stands for: 500 is `0.500`, 1000 is `1.000`.
pub open spec fn thousandths_text(t: nat) -> Seq<char> {
    decimal(t / 1000) + seq!['.'] + three_digits(t % 1000)
}

/// The style sheet of a color button on the given side, for a color with
/// the given channels (0 to 255) and opacity in thousandths: the button has a
/// margin away from the window's edge and square corners towards it, and
/// when checked it loses the margin and rounds its outer corners.
pub open spec fn setter_css(
    position: Position,
    red: i32,
    green: i32,
    blue: i32,
    alpha_thousandths: u32,
) -> Seq<char> {
    let m = margin_suffix(position);
    let rgb = signed_decimal(red as int) + ", "@ + signed_decimal(green as int) + ", "@
        + signed_decimal(blue as int);
    let a = thousandths_text(alpha_thousandths as nat);
    "\n.setter_button {\n    margin"@ + m + ": 6px;\n    background-color: rgba("@ + rgb + ", "@ + a
        + ");\n    border-color: mix(mix(@theme_bg_color, rgba("@ + rgb + ", 1.0), "@ + a
        + "), @theme_fg_color, 0.2);\n    transition: margin"@ + m
        + " 0.15s ease-out, border-radius 0.15s ease-out, filter 0.15s ease-out;\n    "@
        + unchecked_radii(position) + "\n}\n\n.setter_button:checked {\n    margin"@ + m
        + ": 0px;\n    "@ + checked_radii(position) + "\n}\n"@
}

/// Appends the three-digit, zero-padded text of `n`.
fn append_three_digits(s: &mut String, n: u64)
    requires
        n < 1000,
    ensures
        final(s)@ == old(s)@ + three_digits(n as nat),
{
    proof {
        reveal_strlit("00");
        reveal_strlit("0");
    }
    if n < 10 {
        s.append("00");
    } else if n < 100 {
        s.append("0");
    }
    append_decimal(s, n);
    proof {
        assert(s@ =~= old(s)@ + three_digits(n as nat));
    }
}

/// Appends the three-decimal text of a number of thousandths.
fn append_thousandths(s: &mut String, t: u32)
    ensures
        final(s)@ == old(s)@ + thousandths_text(t as nat),
{
    append_decimal(s, (t / 1000) as u64);
    s.append(".");
    proof {
        reveal_strlit(".");
    }
    append_three_digits(s, (t % 1000) as u64);
    proof {
        assert(s@ =~= old(s)@ + thousandths_text(t as nat));
    }
}

/// Appends the red, green and blue channels separated by `", "`.
fn append_rgb(s: &mut String, red: i32, green: i32, blue: i32)
    ensures
        final(s)@ == old(s)@ + (signed_decimal(red as int) + ", "@ + signed_decimal(green as int)
            + ", "@ + signed_decimal(blue as int)),
{
    append_signed_decimal(s, red);
    s.append(", ");
    append_signed_decimal(s, green);
    s.append(", ");
    append_signed_decimal(s, blue);
    proof {
        assert(s@ =~= old(s)@ + (signed_decimal(red as int) + ", "@ + signed_decimal(green as int)
            + ", "@ + signed_decimal(blue as int)));
    }
}

/// Writes the style sheet of a color button. The caller turns the color's
/// channels into whole numbers from 0 to 255 and its opacity into rounded
/// thousandths.
pub fn generate_css_string(
    position: Position,
    red: i32,
    green: i32,
    blue: i32,
    alpha_thousandths: u32,
) -> (css: String)
    ensures
        css@ == setter_css(position, red, green, blue, alpha_thousandths),
{
    let m = margin_suffix_str(position);
    let mut s = String::new();
    s.append("\n.setter_button {\n    margin");
    s.append(m);
    s.append(": 6px;\n    background-color: rgba(");
    append_rgb(&mut s, red, green, blue);
    s.append(", ");
    append_thousandths(&mut s, alpha_thousandths);
    s.append(");\n    border-color: mix(mix(@theme_bg_color, rgba(");
    append_rgb(&mut s, red, green, blue);
    s.append(", 1.0), ");
    append_thousandths(&mut s, alpha_thousandths);
    s.append("), @theme_fg_color, 0.2);\n    transition: margin");
    s.append(m);
    s.append(" 0.15s ease-out, border-radius 0.15s ease-out, filter 0.15s ease-out;\n    ");
    s.append(unchecked_radii_str(position));
    s.append("\n}\n\n.setter_button:checked {\n    margin");
    s.append(m);
    s.append(": 0px;\n    ");
    s.append(checked_radii_str(position));
    s.append("\n}\n");
    proof {
        assert(s@ =~= setter_css(position, red, green, blue, alpha_thousandths));
    }
    s
}

/// The orientation of the picker's boxes.
#[derive(Clone, Copy, Debug, PartialEq, Eq, Structural)]
pub enum Orientation {
    Horizontal,
    Vertical,
}

/// The layout of a color picker on a side of the window.
#[derive(Clone, Copy, Debug, PartialEq, Eq, Structural)]
pub struct PickerLayout {
    /// The side on which the color chooser's popover opens.
    pub popover_position: Position,
    /// The orientation of the picker and of its box of buttons.
    pub orientation: Orientation,
    /// The margins of the chooser button.
    pub button_margins: Margins,
}

/// The margins of a widget.
#[derive(Clone, Copy, Debug, PartialEq, Eq, Structural)]
pub struct Margins {
    pub start: i32,
    pub end: i32,
    pub top: i32,
    pub bottom: i32,
}

/// The side opposite to a side.
pub open spec fn opposite(position: Position) -> Position {
    match position {
        Position::Left => Position::Right,
        Position::Right => Position::Left,
        Position::Top => Position::Bottom,
        Position::Bottom => Position::Top,
    }
}

/// A picker on the left or right stands upright, one at the top or bottom
/// lies flat; its popover opens towards the window's inside, and its chooser
/// button keeps a gap from the buttons before it.
pub open spec fn spec_picker_layout(position: Position) -> PickerLayout {
    match position {
        Position::Left | Position::Right => PickerLayout {
            popover_position: opposite(position),
            orientation: Orientation::Vertical,
            button_margins: Margins { start: 0, end: 0, top: 3, bottom: 0 },
        },
        Position::Top | Position::Bottom => PickerLayout {
            popover_position: opposite(position),
            orientation: Orientation::Horizontal,
            button_margins: Margins { start: 3, end: 0, top: 0, bottom: 0 },
        },
    }
}

/// Returns the layout of a color picker on the given side.
pub fn picker_layout(position: Position) -> (l: PickerLayout)
    ensures
        l == spec_picker_layout(position),
{
    match position {
        Position::Left => PickerLayout {
            popover_position: Position::Right,
            orientation: Orientation::Vertical,
            button_margins: Margins { start: 0, end: 0, top: 3, bottom: 0 },
        },
        Position::Right => PickerLayout {
            popover_position: Position::Left,
            orientation: Orientation::Vertical,
            button_margins: Margins { start: 0, end: 0, top: 3, bottom: 0 },
        },
        Position::Top => PickerLayout {
            popover_position: Position::Bottom,
            orientation: Orientation::Horizontal,
            button_margins: Margins { start: 3, end: 0, top: 0, bottom: 0 },
        },
        Position::Bottom => PickerLayout {
            popover_position: Position::Top,
            orientation: Orientation::Horizontal,
            button_margins: Margins { start: 3, end: 0, top: 0, bottom: 0 },
        },
    }
}

/// The fewest color buttons a picker has.
pub const AMOUNT_COLORBUTTONS_MIN: u32 = 1u32;

/// The most color buttons a picker has.
pub const AMOUNT_COLORBUTTONS_MAX: u32 = 1000u32;

/// The number of color buttons a new picker has.
pub const AMOUNT_COLORBUTTONS_DEFAULT: u32 = 8u32;

/// The colors of a picker: the first button's color, then the colors of the
/// buttons after it, and which button is selected.
pub struct ColorPickerState<C> {
    pub first: C,
    pub setters: Vec<C>,
    pub selected: u32,
    pub amount: u32,
}

/// The colors of the buttons after loading `loaded` into buttons that had
/// the colors `current`: each button takes the loaded color at its index,
/// where there is one, and keeps its color otherwise.
pub open spec fn colors_after_load<C>(current: Seq<C>, loaded: Seq<C>) -> Seq<C> {
    Seq::new(current.len(), |i: int| if i < loaded.len() { loaded[i] } else { current[i] })
}

impl<C> ColorPickerState<C> {
    /// All colors of the picker, the first button's color first.
    pub open spec fn all_colors(self) -> Seq<C> {
        seq![self.first] + self.setters@
    }

    /// A new picker with its default number of buttons, the first of them
    /// selected. `setters` holds the colors generated for the buttons after
    /// the first.
    pub fn new(first: C, setters: Vec<C>) -> (s: Self)
        requires
            setters@.len() == AMOUNT_COLORBUTTONS_DEFAULT - AMOUNT_COLORBUTTONS_MIN,
        ensures
            s.first == first,
            s.setters@ == setters@,
            s.selected == 0,
            s.amount == AMOUNT_COLORBUTTONS_DEFAULT,
    {
        ColorPickerState { first, setters, selected: 0, amount: AMOUNT_COLORBUTTONS_DEFAULT }
    }

    /// Selects the button at `index`, clamped to the number of buttons: 0 is
    /// the first button, `i` the `i`-th button after it. Returns the button
    /// that becomes active, if there is one at the clamped index.
    pub fn set_selected(&mut self, index: u32) -> (active: Option<usize>)
        ensures
            final(self).selected == (if index <= old(self).amount {
                index
            } else {
                old(self).amount
            }),
            final(self).first == old(self).first,
            final(self).setters@ == old(self).setters@,
            final(self).amount == old(self).amount,
            active == (if final(self).selected == 0 {
                Some(0usize)
            } else if final(self).selected - 1 < old(self).setters@.len() {
                Some(final(self).selected as usize)
            } else {
                None
            }),
    {
        let clamped = if index <= self.amount {
            index
        } else {
            self.amount
        };
        self.selected = clamped;
        if clamped == 0 {
            Some(0)
        } else if ((clamped - 1) as usize) < self.setters.len() {
            Some(clamped as usize)
        } else {
            None
        }
    }

    /// Rebuilds the buttons after the first for a new number of buttons:
    /// `amount - 1` buttons, colored with the generated colors.
    pub fn set_amount(&mut self, amount: u32, generated: Vec<C>)
        requires
            generated@.len() == (if amount >= AMOUNT_COLORBUTTONS_MIN {
                amount - AMOUNT_COLORBUTTONS_MIN
            } else {
                0
            }),
        ensures
            final(self).amount == amount,
            final(self).setters@ == generated@,
            final(self).first == old(self).first,
            final(self).selected == old(self).selected,
    {
        self.amount = amount;
        self.setters = generated;
    }

    /// Loads colors into the buttons in order: the first color into the
    /// first button, the following ones into the buttons after it, as far as
    /// both reach.
    pub fn load_colors(&mut self, all_colors: Vec<C>)
        ensures
            final(self).all_colors() == colors_after_load(old(self).all_colors(), all_colors@),
            final(self).selected == old(self).selected,
            final(self).amount == old(self).amount,
    {
        let ghost old_setters = self.setters@;
        let ghost loaded = all_colors@;
        let mut rest = all_colors;
        if rest.len() == 0 {
            proof {
                assert(self.all_colors() =~= colors_after_load(self.all_colors(), loaded));
            }
            return;
        }
        let mut colors: Vec<C> = Vec::new();
        let first = rest.remove(0);
        self.first = first;
        // `rest` now holds the colors after the first, in order
        let mut i: usize = 0;
        let n = self.setters.len();
        let mut new_setters: Vec<C> = Vec::new();
        let mut old_rest: Vec<C> = Vec::new();
        std::mem::swap(&mut old_rest, &mut self.setters);
        // take the loaded colors from the back of `rest` into `colors`, so
        // that they come out in order
        while rest.len() > 0
            invariant
                rest@.len() + colors@.len() == loaded.len() - 1,
                forall|j: int| 0 <= j < rest@.len() ==> rest@[j] == loaded[j + 1],
                forall|j: int|
                    0 <= j < colors@.len() ==> colors@[j] == loaded[loaded.len() - 1 - j],
            decreases rest@.len(),
        {
            let c = rest.pop().unwrap();
            colors.push(c);
        }
        // `colors` holds the loaded colors after the first in reverse order
        let mut setters_rev: Vec<C> = Vec::new();
        while old_rest.len() > 0
            invariant
                old_rest@.len() + setters_rev@.len() == old_setters.len(),
                forall|j: int| 0 <= j < old_rest@.len() ==> old_rest@[j] == old_setters[j],
                forall|j: int|
                    0 <= j < setters_rev@.len() ==> setters_rev@[j] == old_setters[old_setters.len()
                        - 1 - j],
            decreases old_rest@.len(),
        {
            let c = old_rest.pop().unwrap();
            setters_rev.push(c);
        }
        // pop from the back of both reversed vectors: they give the buttons
        // and the loaded colors in order
        while i < n
            invariant
                n == old_setters.len(),
                i <= n,
                setters_rev@.len() == n - i,
                forall|j: int|
                    0 <= j < setters_rev@.len() ==> setters_rev@[j] == old_setters[n - 1 - j],
                colors@.len() == (if loaded.len() - 1 >= i {
                    loaded.len() - 1 - i
                } else {
                    0
                }),
                forall|j: int|
                    0 <= j < colors@.len() ==> colors@[j] == loaded[loaded.len() - 1 - j],
                loaded.len() >= 1,
                new_setters@.len() == i,
                forall|j: int|
                    0 <= j < i ==> #[trigger] new_setters@[j] == (if j + 1 < loaded.len() {
                        loaded[j + 1]
                    } else {
                        old_setters[j]
                    }),
            decreases n - i,
        {
            let current = setters_rev.pop().unwrap();
            if colors.len() > 0 {
                let c = colors.pop().unwrap();
                new_setters.push(c);
            } else {
                new_setters.push(current);
            }
            i = i + 1;
        }
        self.setters = new_setters;
        proof {
            assert(self.all_colors() =~= colors_after_load(seq![old(self).first] + old_setters, loaded));
        }
    }

    /// Returns all colors of the picker, the first button's color first.
    pub fn fetch_all_colors(&self) -> (colors: Vec<C>)
        where C: Copy
        ensures
            colors@ == self.all_colors(),
    {
        let mut colors: Vec<C> = Vec::new();
        colors.push(self.first);
        let mut i: usize = 0;
        while i < self.setters.len()
            invariant
                i <= self.setters@.len(),
                colors@ == seq![self.first] + self.setters@.subrange(0, i as int),
            decreases self.setters@.len() - i,
        {
            colors.push(self.setters[i]);
            i = i + 1;
            proof {
                assert(self.setters@.subrange(0, i as int) =~= self.setters@.subrange(
                    0,
                    i - 1,
                ).push(self.setters@[i - 1]));
            }
        }
        proof {
            assert(self.setters@.subrange(0, i as int) =~= self.setters@);
        }
        colors
    }
}

/// Loading as many colors as the picker has buttons, then fetching them,
/// gives back the loaded colors.
pub proof fn lemma_load_then_fetch<C>(current: Seq<C>, loaded: Seq<C>)
    requires
        loaded.len() == current.len(),
    ensures
        colors_after_load(current, loaded) == loaded,
{
    assert(colors_after_load(current, loaded) =~= loaded);
}

/// Loading never changes the number of buttons.
pub proof fn lemma_load_keeps_button_count<C>(current: Seq<C>, loaded: Seq<C>)
    ensures
        colors_after_load(current, loaded).len() == current.len(),
{
}

/// The selection never points past the buttons.
pub proof fn lemma_selected_within_amount(amount: u32, index: u32)
    ensures
        (if index <= amount {
            index
        } else {
            amount
        }) <= amount,
{
}

} // verus!
