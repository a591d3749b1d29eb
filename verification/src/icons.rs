//! The icons a workspace can carry, the translatable names shown for them,
//! and the selection of an icon picker over a list of icon names.

use vstd::prelude::*;
use crate::text::str_eq;

verus! {

/// The message to translate for an icon's name: an optional context that
/// tells translators which meaning is meant, and the English text.
#[derive(Clone, Copy, Debug)]
pub struct IconLabel {
    pub context: Option<&'static str>,
    pub msgid: &'static str,
}

/// The view of a label.
pub open spec fn label_view(l: IconLabel) -> (Option<Seq<char>>, Seq<char>) {
    (
        match l.context {
            Some(c) => Some(c@),
            None => None,
        },
        l.msgid@,
    )
}

/// The icons a workspace can carry, in the order the picker shows them.
pub open spec fn workspace_icon_names() -> Seq<Seq<char>> {
    seq![
        "workspacelistentryicon-bandaid-symbolic"@,
        "workspacelistentryicon-bank-symbolic"@,
        "workspacelistentryicon-bookmark-symbolic"@,
        "workspacelistentryicon-book-symbolic"@,
        "workspacelistentryicon-bread-symbolic"@,
        "workspacelistentryicon-calendar-symbolic"@,
        "workspacelistentryicon-camera-symbolic"@,
        "workspacelistentryicon-chip-symbolic"@,
        "workspacelistentryicon-clock-symbolic"@,
        "workspacelistentryicon-code-symbolic"@,
        "workspacelistentryicon-compose-symbolic"@,
        "workspacelistentryicon-crop-symbolic"@,
        "workspacelistentryicon-dictionary-symbolic"@,
        "workspacelistentryicon-document-symbolic"@,
        "workspacelistentryicon-drinks-symbolic"@,
        "workspacelistentryicon-flag-symbolic"@,
        "workspacelistentryicon-folder-symbolic"@,
        "workspacelistentryicon-footprints-symbolic"@,
        "workspacelistentryicon-gamepad-symbolic"@,
        "workspacelistentryicon-gear-symbolic"@,
        "workspacelistentryicon-globe-symbolic"@,
        "workspacelistentryicon-hammer-symbolic"@,
        "workspacelistentryicon-heart-symbolic"@,
        "workspacelistentryicon-hourglass-symbolic"@,
        "workspacelistentryicon-key-symbolic"@,
        "workspacelistentryicon-language-symbolic"@,
        "workspacelistentryicon-library-symbolic"@,
        "workspacelistentryicon-lightbulb-symbolic"@,
        "workspacelistentryicon-math-symbolic"@,
        "workspacelistentryicon-meeting-symbolic"@,
        "workspacelistentryicon-money-symbolic"@,
        "workspacelistentryicon-musicnote-symbolic"@,
        "workspacelistentryicon-nature-symbolic"@,
        "workspacelistentryicon-open-book-symbolic"@,
        "workspacelistentryicon-paintbrush-symbolic"@,
        "workspacelistentryicon-pencilandpaper-symbolic"@,
        "workspacelistentryicon-people-symbolic"@,
        "workspacelistentryicon-person-symbolic"@,
        "workspacelistentryicon-projector-symbolic"@,
        "workspacelistentryicon-science-symbolic"@,
        "workspacelistentryicon-scratchpad-symbolic"@,
        "workspacelistentryicon-shapes-symbolic"@,
        "workspacelistentryicon-shopping-symbolic"@,
        "workspacelistentryicon-speechbubble-symbolic"@,
        "workspacelistentryicon-speedometer-symbolic"@,
        "workspacelistentryicon-star-symbolic"@,
        "workspacelistentryicon-terminal-symbolic"@,
        "workspacelistentryicon-text-symbolic"@,
        "workspacelistentryicon-travel-symbolic"@,
        "workspacelistentryicon-weather-symbolic"@,
        "workspacelistentryicon-weight-symbolic"@,
    ]
}

/// Returns the icons a workspace can carry.
pub fn workspace_icons() -> (v: Vec<&'static str>)
    ensures
        v@.map_values(|s: &'static str| s@) == workspace_icon_names(),
{
    let mut v: Vec<&'static str> = Vec::new();
    v.push("workspacelistentryicon-bandaid-symbolic");
    v.push("workspacelistentryicon-bank-symbolic");
    v.push("workspacelistentryicon-bookmark-symbolic");
    v.push("workspacelistentryicon-book-symbolic");
    v.push("workspacelistentryicon-bread-symbolic");
    v.push("workspacelistentryicon-calendar-symbolic");
    v.push("workspacelistentryicon-camera-symbolic");
    v.push("workspacelistentryicon-chip-symbolic");
    v.push("workspacelistentryicon-clock-symbolic");
    v.push("workspacelistentryicon-code-symbolic");
    v.push("workspacelistentryicon-compose-symbolic");
    v.push("workspacelistentryicon-crop-symbolic");
    v.push("workspacelistentryicon-dictionary-symbolic");
    v.push("workspacelistentryicon-document-symbolic");
    v.push("workspacelistentryicon-drinks-symbolic");
    v.push("workspacelistentryicon-flag-symbolic");
    v.push("workspacelistentryicon-folder-symbolic");
    v.push("workspacelistentryicon-footprints-symbolic");
    v.push("workspacelistentryicon-gamepad-symbolic");
    v.push("workspacelistentryicon-gear-symbolic");
    v.push("workspacelistentryicon-globe-symbolic");
    v.push("workspacelistentryicon-hammer-symbolic");
    v.push("workspacelistentryicon-heart-symbolic");
    v.push("workspacelistentryicon-hourglass-symbolic");
    v.push("workspacelistentryicon-key-symbolic");
    v.push("workspacelistentryicon-language-symbolic");
    v.push("workspacelistentryicon-library-symbolic");
    v.push("workspacelistentryicon-lightbulb-symbolic");
    v.push("workspacelistentryicon-math-symbolic");
    v.push("workspacelistentryicon-meeting-symbolic");
    v.push("workspacelistentryicon-money-symbolic");
    v.push("workspacelistentryicon-musicnote-symbolic");
    v.push("workspacelistentryicon-nature-symbolic");
    v.push("workspacelistentryicon-open-book-symbolic");
    v.push("workspacelistentryicon-paintbrush-symbolic");
    v.push("workspacelistentryicon-pencilandpaper-symbolic");
    v.push("workspacelistentryicon-people-symbolic");
    v.push("workspacelistentryicon-person-symbolic");
    v.push("workspacelistentryicon-projector-symbolic");
    v.push("workspacelistentryicon-science-symbolic");
    v.push("workspacelistentryicon-scratchpad-symbolic");
    v.push("workspacelistentryicon-shapes-symbolic");
    v.push("workspacelistentryicon-shopping-symbolic");
    v.push("workspacelistentryicon-speechbubble-symbolic");
    v.push("workspacelistentryicon-speedometer-symbolic");
    v.push("workspacelistentryicon-star-symbolic");
    v.push("workspacelistentryicon-terminal-symbolic");
    v.push("workspacelistentryicon-text-symbolic");
    v.push("workspacelistentryicon-travel-symbolic");
    v.push("workspacelistentryicon-weather-symbolic");
    v.push("workspacelistentryicon-weight-symbolic");
    assert(v@.map_values(|s: &'static str| s@) =~= workspace_icon_names());
    v
}

/// The label of a workspace icon, if the name is one of them.
pub open spec fn spec_icon_label(name: Seq<char>) -> Option<(Option<Seq<char>>, Seq<char>)> {
    if name == "workspacelistentryicon-bandaid-symbolic"@ {
        Some((None, "Band-Aid"@))
    } else if name == "workspacelistentryicon-bank-symbolic"@ {
        Some((None, "Bank"@))
    } else if name == "workspacelistentryicon-bookmark-symbolic"@ {
        Some((None, "Bookmark"@))
    } else if name == "workspacelistentryicon-book-symbolic"@ {
        Some((None, "Book"@))
    } else if name == "workspacelistentryicon-bread-symbolic"@ {
        Some((None, "Bread"@))
    } else if name == "workspacelistentryicon-calendar-symbolic"@ {
        Some((None, "Calendar"@))
    } else if name == "workspacelistentryicon-camera-symbolic"@ {
        Some((None, "Camera"@))
    } else if name == "workspacelistentryicon-chip-symbolic"@ {
        Some((Some("as in computer chip"@), "Chip"@))
    } else if name == "workspacelistentryicon-clock-symbolic"@ {
        Some((None, "Clock"@))
    } else if name == "workspacelistentryicon-code-symbolic"@ {
        Some((None, "Code"@))
    } else if name == "workspacelistentryicon-compose-symbolic"@ {
        Some((None, "Compose"@))
    } else if name == "workspacelistentryicon-crop-symbolic"@ {
        Some((Some("as in plant"@), "Crop"@))
    } else if name == "workspacelistentryicon-dictionary-symbolic"@ {
        Some((None, "Dictionary"@))
    } else if name == "workspacelistentryicon-document-symbolic"@ {
        Some((None, "Document"@))
    } else if name == "workspacelistentryicon-drinks-symbolic"@ {
        Some((None, "Drinks"@))
    } else if name == "workspacelistentryicon-flag-symbolic"@ {
        Some((None, "Flag"@))
    } else if name == "workspacelistentryicon-folder-symbolic"@ {
        Some((None, "Folder"@))
    } else if name == "workspacelistentryicon-footprints-symbolic"@ {
        Some((None, "Footprints"@))
    } else if name == "workspacelistentryicon-gamepad-symbolic"@ {
        Some((None, "Gamepad"@))
    } else if name == "workspacelistentryicon-gear-symbolic"@ {
        Some((None, "Gear"@))
    } else if name == "workspacelistentryicon-globe-symbolic"@ {
        Some((None, "Globe"@))
    } else if name == "workspacelistentryicon-hammer-symbolic"@ {
        Some((None, "Hammer"@))
    } else if name == "workspacelistentryicon-heart-symbolic"@ {
        Some((None, "Heart"@))
    } else if name == "workspacelistentryicon-hourglass-symbolic"@ {
        Some((None, "Hourglass"@))
    } else if name == "workspacelistentryicon-key-symbolic"@ {
        Some((None, "Key"@))
    } else if name == "workspacelistentryicon-language-symbolic"@ {
        Some((None, "Language"@))
    } else if name == "workspacelistentryicon-library-symbolic"@ {
        Some((None, "Library"@))
    } else if name == "workspacelistentryicon-lightbulb-symbolic"@ {
        Some((None, "Lightbulb"@))
    } else if name == "workspacelistentryicon-math-symbolic"@ {
        Some((None, "Mathematics"@))
    } else if name == "workspacelistentryicon-meeting-symbolic"@ {
        Some((None, "Meeting"@))
    } else if name == "workspacelistentryicon-money-symbolic"@ {
        Some((None, "Money"@))
    } else if name == "workspacelistentryicon-musicnote-symbolic"@ {
        Some((None, "Musical Note"@))
    } else if name == "workspacelistentryicon-nature-symbolic"@ {
        Some((None, "Nature"@))
    } else if name == "workspacelistentryicon-open-book-symbolic"@ {
        Some((None, "Open Book"@))
    } else if name == "workspacelistentryicon-paintbrush-symbolic"@ {
        Some((None, "Paintbrush"@))
    } else if name == "workspacelistentryicon-pencilandpaper-symbolic"@ {
        Some((None, "Pencil and Paper"@))
    } else if name == "workspacelistentryicon-people-symbolic"@ {
        Some((None, "People"@))
    } else if name == "workspacelistentryicon-person-symbolic"@ {
        Some((None, "Person"@))
    } else if name == "workspacelistentryicon-projector-symbolic"@ {
        Some((None, "Projector"@))
    } else if name == "workspacelistentryicon-science-symbolic"@ {
        Some((None, "Science"@))
    } else if name == "workspacelistentryicon-scratchpad-symbolic"@ {
        Some((None, "Scratchpad"@))
    } else if name == "workspacelistentryicon-shapes-symbolic"@ {
        Some((None, "Shapes"@))
    } else if name == "workspacelistentryicon-shopping-symbolic"@ {
        Some((None, "Shopping"@))
    } else if name == "workspacelistentryicon-speechbubble-symbolic"@ {
        Some((None, "Speech Bubble"@))
    } else if name == "workspacelistentryicon-speedometer-symbolic"@ {
        Some((None, "Speedometer"@))
    } else if name == "workspacelistentryicon-star-symbolic"@ {
        Some((None, "Star"@))
    } else if name == "workspacelistentryicon-terminal-symbolic"@ {
        Some((Some("as in terminal software"@), "Terminal"@))
    } else if name == "workspacelistentryicon-text-symbolic"@ {
        Some((None, "Text"@))
    } else if name == "workspacelistentryicon-travel-symbolic"@ {
        Some((None, "Travel"@))
    } else if name == "workspacelistentryicon-weather-symbolic"@ {
        Some((None, "Weather"@))
    } else if name == "workspacelistentryicon-weight-symbolic"@ {
        Some((None, "Weight"@))
    } else {
        None
    }
}

/// Returns the label of a workspace icon, for the caller to translate. The
/// name must be one of the workspace icons.
pub fn workspacelistentry_icons_list_to_display_name(name: &str) -> (l: IconLabel)
    requires
        spec_icon_label(name@) is Some,
    ensures
        spec_icon_label(name@) == Some(label_view(l)),
{
    if str_eq(name, "workspacelistentryicon-bandaid-symbolic") {
        IconLabel { context: None, msgid: "Band-Aid" }
    } else if str_eq(name, "workspacelistentryicon-bank-symbolic") {
        IconLabel { context: None, msgid: "Bank" }
    } else if str_eq(name, "workspacelistentryicon-bookmark-symbolic") {
        IconLabel { context: None, msgid: "Bookmark" }
    } else if str_eq(name, "workspacelistentryicon-book-symbolic") {
        IconLabel { context: None, msgid: "Book" }
    } else if str_eq(name, "workspacelistentryicon-bread-symbolic") {
        IconLabel { context: None, msgid: "Bread" }
    } else if str_eq(name, "workspacelistentryicon-calendar-symbolic") {
        IconLabel { context: None, msgid: "Calendar" }
    } else if str_eq(name, "workspacelistentryicon-camera-symbolic") {
        IconLabel { context: None, msgid: "Camera" }
    } else if str_eq(name, "workspacelistentryicon-chip-symbolic") {
        IconLabel { context: Some("as in computer chip"), msgid: "Chip" }
    } else if str_eq(name, "workspacelistentryicon-clock-symbolic") {
        IconLabel { context: None, msgid: "Clock" }
    } else if str_eq(name, "workspacelistentryicon-code-symbolic") {
        IconLabel { context: None, msgid: "Code" }
    } else if str_eq(name, "workspacelistentryicon-compose-symbolic") {
        IconLabel { context: None, msgid: "Compose" }
    } else if str_eq(name, "workspacelistentryicon-crop-symbolic") {
        IconLabel { context: Some("as in plant"), msgid: "Crop" }
    } else if str_eq(name, "workspacelistentryicon-dictionary-symbolic") {
        IconLabel { context: None, msgid: "Dictionary" }
    } else if str_eq(name, "workspacelistentryicon-document-symbolic") {
        IconLabel { context: None, msgid: "Document" }
    } else if str_eq(name, "workspacelistentryicon-drinks-symbolic") {
        IconLabel { context: None, msgid: "Drinks" }
    } else if str_eq(name, "workspacelistentryicon-flag-symbolic") {
        IconLabel { context: None, msgid: "Flag" }
    } else if str_eq(name, "workspacelistentryicon-folder-symbolic") {
        IconLabel { context: None, msgid: "Folder" }
    } else if str_eq(name, "workspacelistentryicon-footprints-symbolic") {
        IconLabel { context: None, msgid: "Footprints" }
    } else if str_eq(name, "workspacelistentryicon-gamepad-symbolic") {
        IconLabel { context: None, msgid: "Gamepad" }
    } else if str_eq(name, "workspacelistentryicon-gear-symbolic") {
        IconLabel { context: None, msgid: "Gear" }
    } else if str_eq(name, "workspacelistentryicon-globe-symbolic") {
        IconLabel { context: None, msgid: "Globe" }
    } else if str_eq(name, "workspacelistentryicon-hammer-symbolic") {
        IconLabel { context: None, msgid: "Hammer" }
    } else if str_eq(name, "workspacelistentryicon-heart-symbolic") {
        IconLabel { context: None, msgid: "Heart" }
    } else if str_eq(name, "workspacelistentryicon-hourglass-symbolic") {
        IconLabel { context: None, msgid: "Hourglass" }
    } else if str_eq(name, "workspacelistentryicon-key-symbolic") {
        IconLabel { context: None, msgid: "Key" }
    } else if str_eq(name, "workspacelistentryicon-language-symbolic") {
        IconLabel { context: None, msgid: "Language" }
    } else if str_eq(name, "workspacelistentryicon-library-symbolic") {
        IconLabel { context: None, msgid: "Library" }
    } else if str_eq(name, "workspacelistentryicon-lightbulb-symbolic") {
        IconLabel { context: None, msgid: "Lightbulb" }
    } else if str_eq(name, "workspacelistentryicon-math-symbolic") {
        IconLabel { context: None, msgid: "Mathematics" }
    } else if str_eq(name, "workspacelistentryicon-meeting-symbolic") {
        IconLabel { context: None, msgid: "Meeting" }
    } else if str_eq(name, "workspacelistentryicon-money-symbolic") {
        IconLabel { context: None, msgid: "Money" }
    } else if str_eq(name, "workspacelistentryicon-musicnote-symbolic") {
        IconLabel { context: None, msgid: "Musical Note" }
    } else if str_eq(name, "workspacelistentryicon-nature-symbolic") {
        IconLabel { context: None, msgid: "Nature" }
    } else if str_eq(name, "workspacelistentryicon-open-book-symbolic") {
        IconLabel { context: None, msgid: "Open Book" }
    } else if str_eq(name, "workspacelistentryicon-paintbrush-symbolic") {
        IconLabel { context: None, msgid: "Paintbrush" }
    } else if str_eq(name, "workspacelistentryicon-pencilandpaper-symbolic") {
        IconLabel { context: None, msgid: "Pencil and Paper" }
    } else if str_eq(name, "workspacelistentryicon-people-symbolic") {
        IconLabel { context: None, msgid: "People" }
    } else if str_eq(name, "workspacelistentryicon-person-symbolic") {
        IconLabel { context: None, msgid: "Person" }
    } else if str_eq(name, "workspacelistentryicon-projector-symbolic") {
        IconLabel { context: None, msgid: "Projector" }
    } else if str_eq(name, "workspacelistentryicon-science-symbolic") {
        IconLabel { context: None, msgid: "Science" }
    } else if str_eq(name, "workspacelistentryicon-scratchpad-symbolic") {
        IconLabel { context: None, msgid: "Scratchpad" }
    } else if str_eq(name, "workspacelistentryicon-shapes-symbolic") {
        IconLabel { context: None, msgid: "Shapes" }
    } else if str_eq(name, "workspacelistentryicon-shopping-symbolic") {
        IconLabel { context: None, msgid: "Shopping" }
    } else if str_eq(name, "workspacelistentryicon-speechbubble-symbolic") {
        IconLabel { context: None, msgid: "Speech Bubble" }
    } else if str_eq(name, "workspacelistentryicon-speedometer-symbolic") {
        IconLabel { context: None, msgid: "Speedometer" }
    } else if str_eq(name, "workspacelistentryicon-star-symbolic") {
        IconLabel { context: None, msgid: "Star" }
    } else if str_eq(name, "workspacelistentryicon-terminal-symbolic") {
        IconLabel { context: Some("as in terminal software"), msgid: "Terminal" }
    } else if str_eq(name, "workspacelistentryicon-text-symbolic") {
        IconLabel { context: None, msgid: "Text" }
    } else if str_eq(name, "workspacelistentryicon-travel-symbolic") {
        IconLabel { context: None, msgid: "Travel" }
    } else if str_eq(name, "workspacelistentryicon-weather-symbolic") {
        IconLabel { context: None, msgid: "Weather" }
    } else {
        IconLabel { context: None, msgid: "Weight" }
    }
}

/// Every icon of the list has a label.
pub proof fn lemma_every_workspace_icon_has_a_label(i: int)
    requires
        0 <= i < workspace_icon_names().len(),
    ensures
        spec_icon_label(workspace_icon_names()[i]) is Some,
{
}
/// The position that selects nothing in a list of the toolkit.
pub const INVALID_LIST_POSITION: u32 = 4294967295u32;

/// The view of a list of names.
pub open spec fn names_view(list: Seq<String>) -> Seq<Seq<char>> {
    list.map_values(|s: String| s@)
}

/// Returns the name at the selected position of the list, if there is one.
pub fn picked_at(list: &Vec<String>, selected: u32) -> (r: Option<String>)
    ensures
        r is Some <==> (selected as int) < list@.len(),
        r matches Some(s) ==> s@ == list@[selected as int]@,
{
    if (selected as usize) < list.len() {
        Some(list[selected as usize].clone())
    } else {
        None
    }
}

/// The first position of `name` in the list.
pub open spec fn first_position(list: Seq<Seq<char>>, name: Seq<char>, i: int) -> bool {
    0 <= i < list.len() && list[i] == name && forall|j: int| 0 <= j < i ==> list[j] != name
}

/// Returns the position that selects the picked name: its first position in
/// the list, or the invalid position when nothing is picked or the name is
/// not in the list.
pub fn selection_for(list: &Vec<String>, picked: Option<&str>) -> (r: u32)
    requires
        list@.len() < INVALID_LIST_POSITION,
    ensures
        picked is None ==> r == INVALID_LIST_POSITION,
        picked matches Some(p) ==> (names_view(list@).contains(p@) ==> first_position(
            names_view(list@),
            p@,
            r as int,
        )),
        picked matches Some(p) ==> (!names_view(list@).contains(p@) ==> r
            == INVALID_LIST_POSITION),
{
    let ghost names = names_view(list@);
    match picked {
        None => INVALID_LIST_POSITION,
        Some(p) => {
            let mut i: usize = 0;
            while i < list.len()
                invariant
                    i <= list@.len(),
                    list@.len() < INVALID_LIST_POSITION,
                    names == names_view(list@),
                    picked == Some(p),
                    forall|j: int| 0 <= j < i ==> names[j] != p@,
                decreases list@.len() - i,
            {
                if str_eq(list[i].as_str(), p) {
                    assert(names[i as int] == p@);
                    assert(names.contains(p@));
                    assert(first_position(names, p@, i as int));
                    let r = i as u32;
                    assert(r as int == i as int);
                    return r;
                }
                i = i + 1;
            }
            assert(!names.contains(p@)) by {
                if names.contains(p@) {
                    let k = choose|k: int| 0 <= k < names.len() && names[k] == p@;
                    assert(k < i);
                }
            }
            INVALID_LIST_POSITION
        },
    }
}

/// Setting the picked icon and reading it back gives the same icon, when it
/// is in the list; otherwise nothing is selected and nothing is read back.
pub proof fn lemma_pick_round_trip(list: Seq<String>, picked: Seq<char>, position: u32)
    requires
        list.len() < INVALID_LIST_POSITION,
        names_view(list).contains(picked) ==> first_position(
            names_view(list),
            picked,
            position as int,
        ),
        !names_view(list).contains(picked) ==> position == INVALID_LIST_POSITION,
    ensures
        names_view(list).contains(picked) ==> (position as int) < list.len() && list[position as int]@
            == picked,
        !names_view(list).contains(picked) ==> (position as int) >= list.len(),
{
    if names_view(list).contains(picked) {
        assert(names_view(list)[position as int] == list[position as int]@);
    }
}


/// The labels of the workspace icons, in the order of the icons.
spec fn workspace_icon_label_texts() -> Seq<Seq<char>> {
    seq![
        "Band-Aid"@,
        "Bank"@,
        "Bookmark"@,
        "Book"@,
        "Bread"@,
        "Calendar"@,
        "Camera"@,
        "Chip"@,
        "Clock"@,
        "Code"@,
        "Compose"@,
        "Crop"@,
        "Dictionary"@,
        "Document"@,
        "Drinks"@,
        "Flag"@,
        "Folder"@,
        "Footprints"@,
        "Gamepad"@,
        "Gear"@,
        "Globe"@,
        "Hammer"@,
        "Heart"@,
        "Hourglass"@,
        "Key"@,
        "Language"@,
        "Library"@,
        "Lightbulb"@,
        "Mathematics"@,
        "Meeting"@,
        "Money"@,
        "Musical Note"@,
        "Nature"@,
        "Open Book"@,
        "Paintbrush"@,
        "Pencil and Paper"@,
        "People"@,
        "Person"@,
        "Projector"@,
        "Science"@,
        "Scratchpad"@,
        "Shapes"@,
        "Shopping"@,
        "Speech Bubble"@,
        "Speedometer"@,
        "Star"@,
        "Terminal"@,
        "Text"@,
        "Travel"@,
        "Weather"@,
        "Weight"@,
    ]
}

/// The position of a label in the list of labels, told apart by its
/// length and its first three characters (-1 for any other text).
spec fn label_position(t: Seq<char>) -> int {
    if t.len() == 8 && t[0] == 'B' && t[1] == 'a' && t[2] == 'n' {
        0int
    } else if t.len() == 4 && t[0] == 'B' && t[1] == 'a' && t[2] == 'n' {
        1int
    } else if t.len() == 8 && t[0] == 'B' && t[1] == 'o' && t[2] == 'o' {
        2int
    } else if t.len() == 4 && t[0] == 'B' && t[1] == 'o' && t[2] == 'o' {
        3int
    } else if t.len() == 5 && t[0] == 'B' && t[1] == 'r' && t[2] == 'e' {
        4int
    } else if t.len() == 8 && t[0] == 'C' && t[1] == 'a' && t[2] == 'l' {
        5int
    } else if t.len() == 6 && t[0] == 'C' && t[1] == 'a' && t[2] == 'm' {
        6int
    } else if t.len() == 4 && t[0] == 'C' && t[1] == 'h' && t[2] == 'i' {
        7int
    } else if t.len() == 5 && t[0] == 'C' && t[1] == 'l' && t[2] == 'o' {
        8int
    } else if t.len() == 4 && t[0] == 'C' && t[1] == 'o' && t[2] == 'd' {
        9int
    } else if t.len() == 7 && t[0] == 'C' && t[1] == 'o' && t[2] == 'm' {
        10int
    } else if t.len() == 4 && t[0] == 'C' && t[1] == 'r' && t[2] == 'o' {
        11int
    } else if t.len() == 10 && t[0] == 'D' && t[1] == 'i' && t[2] == 'c' {
        12int
    } else if t.len() == 8 && t[0] == 'D' && t[1] == 'o' && t[2] == 'c' {
        13int
    } else if t.len() == 6 && t[0] == 'D' && t[1] == 'r' && t[2] == 'i' {
        14int
    } else if t.len() == 4 && t[0] == 'F' && t[1] == 'l' && t[2] == 'a' {
        15int
    } else if t.len() == 6 && t[0] == 'F' && t[1] == 'o' && t[2] == 'l' {
        16int
    } else if t.len() == 10 && t[0] == 'F' && t[1] == 'o' && t[2] == 'o' {
        17int
    } else if t.len() == 7 && t[0] == 'G' && t[1] == 'a' && t[2] == 'm' {
        18int
    } else if t.len() == 4 && t[0] == 'G' && t[1] == 'e' && t[2] == 'a' {
        19int
    } else if t.len() == 5 && t[0] == 'G' && t[1] == 'l' && t[2] == 'o' {
        20int
    } else if t.len() == 6 && t[0] == 'H' && t[1] == 'a' && t[2] == 'm' {
        21int
    } else if t.len() == 5 && t[0] == 'H' && t[1] == 'e' && t[2] == 'a' {
        22int
    } else if t.len() == 9 && t[0] == 'H' && t[1] == 'o' && t[2] == 'u' {
        23int
    } else if t.len() == 3 && t[0] == 'K' && t[1] == 'e' && t[2] == 'y' {
        24int
    } else if t.len() == 8 && t[0] == 'L' && t[1] == 'a' && t[2] == 'n' {
        25int
    } else if t.len() == 7 && t[0] == 'L' && t[1] == 'i' && t[2] == 'b' {
        26int
    } else if t.len() == 9 && t[0] == 'L' && t[1] == 'i' && t[2] == 'g' {
        27int
    } else if t.len() == 11 && t[0] == 'M' && t[1] == 'a' && t[2] == 't' {
        28int
    } else if t.len() == 7 && t[0] == 'M' && t[1] == 'e' && t[2] == 'e' {
        29int
    } else if t.len() == 5 && t[0] == 'M' && t[1] == 'o' && t[2] == 'n' {
        30int
    } else if t.len() == 12 && t[0] == 'M' && t[1] == 'u' && t[2] == 's' {
        31int
    } else if t.len() == 6 && t[0] == 'N' && t[1] == 'a' && t[2] == 't' {
        32int
    } else if t.len() == 9 && t[0] == 'O' && t[1] == 'p' && t[2] == 'e' {
        33int
    } else if t.len() == 10 && t[0] == 'P' && t[1] == 'a' && t[2] == 'i' {
        34int
    } else if t.len() == 16 && t[0] == 'P' && t[1] == 'e' && t[2] == 'n' {
        35int
    } else if t.len() == 6 && t[0] == 'P' && t[1] == 'e' && t[2] == 'o' {
        36int
    } else if t.len() == 6 && t[0] == 'P' && t[1] == 'e' && t[2] == 'r' {
        37int
    } else if t.len() == 9 && t[0] == 'P' && t[1] == 'r' && t[2] == 'o' {
        38int
    } else if t.len() == 7 && t[0] == 'S' && t[1] == 'c' && t[2] == 'i' {
        39int
    } else if t.len() == 10 && t[0] == 'S' && t[1] == 'c' && t[2] == 'r' {
        40int
    } else if t.len() == 6 && t[0] == 'S' && t[1] == 'h' && t[2] == 'a' {
        41int
    } else if t.len() == 8 && t[0] == 'S' && t[1] == 'h' && t[2] == 'o' {
        42int
    } else if t.len() == 13 && t[0] == 'S' && t[1] == 'p' && t[2] == 'e' {
        43int
    } else if t.len() == 11 && t[0] == 'S' && t[1] == 'p' && t[2] == 'e' {
        44int
    } else if t.len() == 4 && t[0] == 'S' && t[1] == 't' && t[2] == 'a' {
        45int
    } else if t.len() == 8 && t[0] == 'T' && t[1] == 'e' && t[2] == 'r' {
        46int
    } else if t.len() == 4 && t[0] == 'T' && t[1] == 'e' && t[2] == 'x' {
        47int
    } else if t.len() == 6 && t[0] == 'T' && t[1] == 'r' && t[2] == 'a' {
        48int
    } else if t.len() == 7 && t[0] == 'W' && t[1] == 'e' && t[2] == 'a' {
        49int
    } else if t.len() == 6 && t[0] == 'W' && t[1] == 'e' && t[2] == 'i' {
        50int
    } else {
        -1int
    }
}

/// The texts of the labels are not empty and no two are alike.
proof fn lemma_label_texts_distinct()
    ensures
        workspace_icon_label_texts().len() == workspace_icon_names().len(),
        forall|i: int|
            0 <= i < workspace_icon_label_texts().len() ==> #[trigger] workspace_icon_label_texts()[i].len()
                > 0,
        forall|i: int, j: int|
            0 <= i < j < workspace_icon_label_texts().len() ==> workspace_icon_label_texts()[i]
                != workspace_icon_label_texts()[j],
{
    reveal_strlit("Band-Aid");
    reveal_strlit("Bank");
    reveal_strlit("Bookmark");
    reveal_strlit("Book");
    reveal_strlit("Bread");
    reveal_strlit("Calendar");
    reveal_strlit("Camera");
    reveal_strlit("Chip");
    reveal_strlit("Clock");
    reveal_strlit("Code");
    reveal_strlit("Compose");
    reveal_strlit("Crop");
    reveal_strlit("Dictionary");
    reveal_strlit("Document");
    reveal_strlit("Drinks");
    reveal_strlit("Flag");
    reveal_strlit("Folder");
    reveal_strlit("Footprints");
    reveal_strlit("Gamepad");
    reveal_strlit("Gear");
    reveal_strlit("Globe");
    reveal_strlit("Hammer");
    reveal_strlit("Heart");
    reveal_strlit("Hourglass");
    reveal_strlit("Key");
    reveal_strlit("Language");
    reveal_strlit("Library");
    reveal_strlit("Lightbulb");
    reveal_strlit("Mathematics");
    reveal_strlit("Meeting");
    reveal_strlit("Money");
    reveal_strlit("Musical Note");
    reveal_strlit("Nature");
    reveal_strlit("Open Book");
    reveal_strlit("Paintbrush");
    reveal_strlit("Pencil and Paper");
    reveal_strlit("People");
    reveal_strlit("Person");
    reveal_strlit("Projector");
    reveal_strlit("Science");
    reveal_strlit("Scratchpad");
    reveal_strlit("Shapes");
    reveal_strlit("Shopping");
    reveal_strlit("Speech Bubble");
    reveal_strlit("Speedometer");
    reveal_strlit("Star");
    reveal_strlit("Terminal");
    reveal_strlit("Text");
    reveal_strlit("Travel");
    reveal_strlit("Weather");
    reveal_strlit("Weight");
    assert(label_position(workspace_icon_label_texts()[0]) == 0);
    assert(label_position(workspace_icon_label_texts()[1]) == 1);
    assert(label_position(workspace_icon_label_texts()[2]) == 2);
    assert(label_position(workspace_icon_label_texts()[3]) == 3);
    assert(label_position(workspace_icon_label_texts()[4]) == 4);
    assert(label_position(workspace_icon_label_texts()[5]) == 5);
    assert(label_position(workspace_icon_label_texts()[6]) == 6);
    assert(label_position(workspace_icon_label_texts()[7]) == 7);
    assert(label_position(workspace_icon_label_texts()[8]) == 8);
    assert(label_position(workspace_icon_label_texts()[9]) == 9);
    assert(label_position(workspace_icon_label_texts()[10]) == 10);
    assert(label_position(workspace_icon_label_texts()[11]) == 11);
    assert(label_position(workspace_icon_label_texts()[12]) == 12);
    assert(label_position(workspace_icon_label_texts()[13]) == 13);
    assert(label_position(workspace_icon_label_texts()[14]) == 14);
    assert(label_position(workspace_icon_label_texts()[15]) == 15);
    assert(label_position(workspace_icon_label_texts()[16]) == 16);
    assert(label_position(workspace_icon_label_texts()[17]) == 17);
    assert(label_position(workspace_icon_label_texts()[18]) == 18);
    assert(label_position(workspace_icon_label_texts()[19]) == 19);
    assert(label_position(workspace_icon_label_texts()[20]) == 20);
    assert(label_position(workspace_icon_label_texts()[21]) == 21);
    assert(label_position(workspace_icon_label_texts()[22]) == 22);
    assert(label_position(workspace_icon_label_texts()[23]) == 23);
    assert(label_position(workspace_icon_label_texts()[24]) == 24);
    assert(label_position(workspace_icon_label_texts()[25]) == 25);
    assert(label_position(workspace_icon_label_texts()[26]) == 26);
    assert(label_position(workspace_icon_label_texts()[27]) == 27);
    assert(label_position(workspace_icon_label_texts()[28]) == 28);
    assert(label_position(workspace_icon_label_texts()[29]) == 29);
    assert(label_position(workspace_icon_label_texts()[30]) == 30);
    assert(label_position(workspace_icon_label_texts()[31]) == 31);
    assert(label_position(workspace_icon_label_texts()[32]) == 32);
    assert(label_position(workspace_icon_label_texts()[33]) == 33);
    assert(label_position(workspace_icon_label_texts()[34]) == 34);
    assert(label_position(workspace_icon_label_texts()[35]) == 35);
    assert(label_position(workspace_icon_label_texts()[36]) == 36);
    assert(label_position(workspace_icon_label_texts()[37]) == 37);
    assert(label_position(workspace_icon_label_texts()[38]) == 38);
    assert(label_position(workspace_icon_label_texts()[39]) == 39);
    assert(label_position(workspace_icon_label_texts()[40]) == 40);
    assert(label_position(workspace_icon_label_texts()[41]) == 41);
    assert(label_position(workspace_icon_label_texts()[42]) == 42);
    assert(label_position(workspace_icon_label_texts()[43]) == 43);
    assert(label_position(workspace_icon_label_texts()[44]) == 44);
    assert(label_position(workspace_icon_label_texts()[45]) == 45);
    assert(label_position(workspace_icon_label_texts()[46]) == 46);
    assert(label_position(workspace_icon_label_texts()[47]) == 47);
    assert(label_position(workspace_icon_label_texts()[48]) == 48);
    assert(label_position(workspace_icon_label_texts()[49]) == 49);
    assert(label_position(workspace_icon_label_texts()[50]) == 50);
    assert forall|i: int| 0 <= i < workspace_icon_label_texts().len() implies label_position(
        #[trigger] workspace_icon_label_texts()[i],
    ) == i by {
        if i == 0 {
        } else if i == 1 {
        } else if i == 2 {
        } else if i == 3 {
        } else if i == 4 {
        } else if i == 5 {
        } else if i == 6 {
        } else if i == 7 {
        } else if i == 8 {
        } else if i == 9 {
        } else if i == 10 {
        } else if i == 11 {
        } else if i == 12 {
        } else if i == 13 {
        } else if i == 14 {
        } else if i == 15 {
        } else if i == 16 {
        } else if i == 17 {
        } else if i == 18 {
        } else if i == 19 {
        } else if i == 20 {
        } else if i == 21 {
        } else if i == 22 {
        } else if i == 23 {
        } else if i == 24 {
        } else if i == 25 {
        } else if i == 26 {
        } else if i == 27 {
        } else if i == 28 {
        } else if i == 29 {
        } else if i == 30 {
        } else if i == 31 {
        } else if i == 32 {
        } else if i == 33 {
        } else if i == 34 {
        } else if i == 35 {
        } else if i == 36 {
        } else if i == 37 {
        } else if i == 38 {
        } else if i == 39 {
        } else if i == 40 {
        } else if i == 41 {
        } else if i == 42 {
        } else if i == 43 {
        } else if i == 44 {
        } else if i == 45 {
        } else if i == 46 {
        } else if i == 47 {
        } else if i == 48 {
        } else if i == 49 {
        } else if i == 50 {
        }
    }
}



/// Each workspace icon's label is the text at the icon's place in the list
/// of labels.
#[verifier::rlimit(100)]
proof fn lemma_workspace_icon_label_texts()
    ensures
        forall|i: int|
            0 <= i < workspace_icon_names().len() ==> (#[trigger] spec_icon_label(workspace_icon_names()[i])) is Some
                && spec_icon_label(workspace_icon_names()[i]).unwrap().1 == workspace_icon_label_texts()[i],
{
    reveal_strlit("workspacelistentryicon-bandaid-symbolic");
    reveal_strlit("workspacelistentryicon-bank-symbolic");
    reveal_strlit("workspacelistentryicon-bookmark-symbolic");
    reveal_strlit("workspacelistentryicon-book-symbolic");
    reveal_strlit("workspacelistentryicon-bread-symbolic");
    reveal_strlit("workspacelistentryicon-calendar-symbolic");
    reveal_strlit("workspacelistentryicon-camera-symbolic");
    reveal_strlit("workspacelistentryicon-chip-symbolic");
    reveal_strlit("workspacelistentryicon-clock-symbolic");
    reveal_strlit("workspacelistentryicon-code-symbolic");
    reveal_strlit("workspacelistentryicon-compose-symbolic");
    reveal_strlit("workspacelistentryicon-crop-symbolic");
    reveal_strlit("workspacelistentryicon-dictionary-symbolic");
    reveal_strlit("workspacelistentryicon-document-symbolic");
    reveal_strlit("workspacelistentryicon-drinks-symbolic");
    reveal_strlit("workspacelistentryicon-flag-symbolic");
    reveal_strlit("workspacelistentryicon-folder-symbolic");
    reveal_strlit("workspacelistentryicon-footprints-symbolic");
    reveal_strlit("workspacelistentryicon-gamepad-symbolic");
    reveal_strlit("workspacelistentryicon-gear-symbolic");
    reveal_strlit("workspacelistentryicon-globe-symbolic");
    reveal_strlit("workspacelistentryicon-hammer-symbolic");
    reveal_strlit("workspacelistentryicon-heart-symbolic");
    reveal_strlit("workspacelistentryicon-hourglass-symbolic");
    reveal_strlit("workspacelistentryicon-key-symbolic");
    reveal_strlit("workspacelistentryicon-language-symbolic");
    reveal_strlit("workspacelistentryicon-library-symbolic");
    reveal_strlit("workspacelistentryicon-lightbulb-symbolic");
    reveal_strlit("workspacelistentryicon-math-symbolic");
    reveal_strlit("workspacelistentryicon-meeting-symbolic");
    reveal_strlit("workspacelistentryicon-money-symbolic");
    reveal_strlit("workspacelistentryicon-musicnote-symbolic");
    reveal_strlit("workspacelistentryicon-nature-symbolic");
    reveal_strlit("workspacelistentryicon-open-book-symbolic");
    reveal_strlit("workspacelistentryicon-paintbrush-symbolic");
    reveal_strlit("workspacelistentryicon-pencilandpaper-symbolic");
    reveal_strlit("workspacelistentryicon-people-symbolic");
    reveal_strlit("workspacelistentryicon-person-symbolic");
    reveal_strlit("workspacelistentryicon-projector-symbolic");
    reveal_strlit("workspacelistentryicon-science-symbolic");
    reveal_strlit("workspacelistentryicon-scratchpad-symbolic");
    reveal_strlit("workspacelistentryicon-shapes-symbolic");
    reveal_strlit("workspacelistentryicon-shopping-symbolic");
    reveal_strlit("workspacelistentryicon-speechbubble-symbolic");
    reveal_strlit("workspacelistentryicon-speedometer-symbolic");
    reveal_strlit("workspacelistentryicon-star-symbolic");
    reveal_strlit("workspacelistentryicon-terminal-symbolic");
    reveal_strlit("workspacelistentryicon-text-symbolic");
    reveal_strlit("workspacelistentryicon-travel-symbolic");
    reveal_strlit("workspacelistentryicon-weather-symbolic");
    reveal_strlit("workspacelistentryicon-weight-symbolic");
    assert("workspacelistentryicon-bandaid-symbolic"@.len() == 39);
    assert("workspacelistentryicon-bank-symbolic"@.len() == 36);
    assert("workspacelistentryicon-bookmark-symbolic"@.len() == 40);
    assert("workspacelistentryicon-book-symbolic"@.len() == 36);
    assert("workspacelistentryicon-bread-symbolic"@.len() == 37);
    assert("workspacelistentryicon-calendar-symbolic"@.len() == 40);
    assert("workspacelistentryicon-camera-symbolic"@.len() == 38);
    assert("workspacelistentryicon-chip-symbolic"@.len() == 36);
    assert("workspacelistentryicon-clock-symbolic"@.len() == 37);
    assert("workspacelistentryicon-code-symbolic"@.len() == 36);
    assert("workspacelistentryicon-compose-symbolic"@.len() == 39);
    assert("workspacelistentryicon-crop-symbolic"@.len() == 36);
    assert("workspacelistentryicon-dictionary-symbolic"@.len() == 42);
    assert("workspacelistentryicon-document-symbolic"@.len() == 40);
    assert("workspacelistentryicon-drinks-symbolic"@.len() == 38);
    assert("workspacelistentryicon-flag-symbolic"@.len() == 36);
    assert("workspacelistentryicon-folder-symbolic"@.len() == 38);
    assert("workspacelistentryicon-footprints-symbolic"@.len() == 42);
    assert("workspacelistentryicon-gamepad-symbolic"@.len() == 39);
    assert("workspacelistentryicon-gear-symbolic"@.len() == 36);
    assert("workspacelistentryicon-globe-symbolic"@.len() == 37);
    assert("workspacelistentryicon-hammer-symbolic"@.len() == 38);
    assert("workspacelistentryicon-heart-symbolic"@.len() == 37);
    assert("workspacelistentryicon-hourglass-symbolic"@.len() == 41);
    assert("workspacelistentryicon-key-symbolic"@.len() == 35);
    assert("workspacelistentryicon-language-symbolic"@.len() == 40);
    assert("workspacelistentryicon-library-symbolic"@.len() == 39);
    assert("workspacelistentryicon-lightbulb-symbolic"@.len() == 41);
    assert("workspacelistentryicon-math-symbolic"@.len() == 36);
    assert("workspacelistentryicon-meeting-symbolic"@.len() == 39);
    assert("workspacelistentryicon-money-symbolic"@.len() == 37);
    assert("workspacelistentryicon-musicnote-symbolic"@.len() == 41);
    assert("workspacelistentryicon-nature-symbolic"@.len() == 38);
    assert("workspacelistentryicon-open-book-symbolic"@.len() == 41);
    assert("workspacelistentryicon-paintbrush-symbolic"@.len() == 42);
    assert("workspacelistentryicon-pencilandpaper-symbolic"@.len() == 46);
    assert("workspacelistentryicon-people-symbolic"@.len() == 38);
    assert("workspacelistentryicon-person-symbolic"@.len() == 38);
    assert("workspacelistentryicon-projector-symbolic"@.len() == 41);
    assert("workspacelistentryicon-science-symbolic"@.len() == 39);
    assert("workspacelistentryicon-scratchpad-symbolic"@.len() == 42);
    assert("workspacelistentryicon-shapes-symbolic"@.len() == 38);
    assert("workspacelistentryicon-shopping-symbolic"@.len() == 40);
    assert("workspacelistentryicon-speechbubble-symbolic"@.len() == 44);
    assert("workspacelistentryicon-speedometer-symbolic"@.len() == 43);
    assert("workspacelistentryicon-star-symbolic"@.len() == 36);
    assert("workspacelistentryicon-terminal-symbolic"@.len() == 40);
    assert("workspacelistentryicon-text-symbolic"@.len() == 36);
    assert("workspacelistentryicon-travel-symbolic"@.len() == 38);
    assert("workspacelistentryicon-weather-symbolic"@.len() == 39);
    assert("workspacelistentryicon-weight-symbolic"@.len() == 38);
    assert(workspace_icon_names()[0] == "workspacelistentryicon-bandaid-symbolic"@);
    assert(spec_icon_label("workspacelistentryicon-bandaid-symbolic"@) == Some((None::<Seq<char>>, "Band-Aid"@)));
    assert(workspace_icon_names()[1] == "workspacelistentryicon-bank-symbolic"@);
    assert(spec_icon_label("workspacelistentryicon-bank-symbolic"@) == Some((None::<Seq<char>>, "Bank"@)));
    assert(workspace_icon_names()[2] == "workspacelistentryicon-bookmark-symbolic"@);
    assert(spec_icon_label("workspacelistentryicon-bookmark-symbolic"@) == Some((None::<Seq<char>>, "Bookmark"@)));
    assert(workspace_icon_names()[3] == "workspacelistentryicon-book-symbolic"@);
    assert("workspacelistentryicon-book-symbolic"@[24] != "workspacelistentryicon-bank-symbolic"@[24]);
    assert(spec_icon_label("workspacelistentryicon-book-symbolic"@) == Some((None::<Seq<char>>, "Book"@)));
    assert(workspace_icon_names()[4] == "workspacelistentryicon-bread-symbolic"@);
    assert(spec_icon_label("workspacelistentryicon-bread-symbolic"@) == Some((None::<Seq<char>>, "Bread"@)));
    assert(workspace_icon_names()[5] == "workspacelistentryicon-calendar-symbolic"@);
    assert("workspacelistentryicon-calendar-symbolic"@[23] != "workspacelistentryicon-bookmark-symbolic"@[23]);
    assert(spec_icon_label("workspacelistentryicon-calendar-symbolic"@) == Some((None::<Seq<char>>, "Calendar"@)));
    assert(workspace_icon_names()[6] == "workspacelistentryicon-camera-symbolic"@);
    assert(spec_icon_label("workspacelistentryicon-camera-symbolic"@) == Some((None::<Seq<char>>, "Camera"@)));
    assert(workspace_icon_names()[7] == "workspacelistentryicon-chip-symbolic"@);
    assert("workspacelistentryicon-chip-symbolic"@[23] != "workspacelistentryicon-bank-symbolic"@[23]);
    assert("workspacelistentryicon-chip-symbolic"@[23] != "workspacelistentryicon-book-symbolic"@[23]);
    assert(spec_icon_label("workspacelistentryicon-chip-symbolic"@) == Some((Some("as in computer chip"@), "Chip"@)));
    assert(workspace_icon_names()[8] == "workspacelistentryicon-clock-symbolic"@);
    assert("workspacelistentryicon-clock-symbolic"@[23] != "workspacelistentryicon-bread-symbolic"@[23]);
    assert(spec_icon_label("workspacelistentryicon-clock-symbolic"@) == Some((None::<Seq<char>>, "Clock"@)));
    assert(workspace_icon_names()[9] == "workspacelistentryicon-code-symbolic"@);
    assert("workspacelistentryicon-code-symbolic"@[23] != "workspacelistentryicon-bank-symbolic"@[23]);
    assert("workspacelistentryicon-code-symbolic"@[23] != "workspacelistentryicon-book-symbolic"@[23]);
    assert("workspacelistentryicon-code-symbolic"@[24] != "workspacelistentryicon-chip-symbolic"@[24]);
    assert(spec_icon_label("workspacelistentryicon-code-symbolic"@) == Some((None::<Seq<char>>, "Code"@)));
    assert(workspace_icon_names()[10] == "workspacelistentryicon-compose-symbolic"@);
    assert("workspacelistentryicon-compose-symbolic"@[23] != "workspacelistentryicon-bandaid-symbolic"@[23]);
    assert(spec_icon_label("workspacelistentryicon-compose-symbolic"@) == Some((None::<Seq<char>>, "Compose"@)));
    assert(workspace_icon_names()[11] == "workspacelistentryicon-crop-symbolic"@);
    assert("workspacelistentryicon-crop-symbolic"@[23] != "workspacelistentryicon-bank-symbolic"@[23]);
    assert("workspacelistentryicon-crop-symbolic"@[23] != "workspacelistentryicon-book-symbolic"@[23]);
    assert("workspacelistentryicon-crop-symbolic"@[24] != "workspacelistentryicon-chip-symbolic"@[24]);
    assert("workspacelistentryicon-crop-symbolic"@[24] != "workspacelistentryicon-code-symbolic"@[24]);
    assert(spec_icon_label("workspacelistentryicon-crop-symbolic"@) == Some((Some("as in plant"@), "Crop"@)));
    assert(workspace_icon_names()[12] == "workspacelistentryicon-dictionary-symbolic"@);
    assert(spec_icon_label("workspacelistentryicon-dictionary-symbolic"@) == Some((None::<Seq<char>>, "Dictionary"@)));
    assert(workspace_icon_names()[13] == "workspacelistentryicon-document-symbolic"@);
    assert("workspacelistentryicon-document-symbolic"@[23] != "workspacelistentryicon-bookmark-symbolic"@[23]);
    assert("workspacelistentryicon-document-symbolic"@[23] != "workspacelistentryicon-calendar-symbolic"@[23]);
    assert(spec_icon_label("workspacelistentryicon-document-symbolic"@) == Some((None::<Seq<char>>, "Document"@)));
    assert(workspace_icon_names()[14] == "workspacelistentryicon-drinks-symbolic"@);
    assert("workspacelistentryicon-drinks-symbolic"@[23] != "workspacelistentryicon-camera-symbolic"@[23]);
    assert(spec_icon_label("workspacelistentryicon-drinks-symbolic"@) == Some((None::<Seq<char>>, "Drinks"@)));
    assert(workspace_icon_names()[15] == "workspacelistentryicon-flag-symbolic"@);
    assert("workspacelistentryicon-flag-symbolic"@[23] != "workspacelistentryicon-bank-symbolic"@[23]);
    assert("workspacelistentryicon-flag-symbolic"@[23] != "workspacelistentryicon-book-symbolic"@[23]);
    assert("workspacelistentryicon-flag-symbolic"@[23] != "workspacelistentryicon-chip-symbolic"@[23]);
    assert("workspacelistentryicon-flag-symbolic"@[23] != "workspacelistentryicon-code-symbolic"@[23]);
    assert("workspacelistentryicon-flag-symbolic"@[23] != "workspacelistentryicon-crop-symbolic"@[23]);
    assert(spec_icon_label("workspacelistentryicon-flag-symbolic"@) == Some((None::<Seq<char>>, "Flag"@)));
    assert(workspace_icon_names()[16] == "workspacelistentryicon-folder-symbolic"@);
    assert("workspacelistentryicon-folder-symbolic"@[23] != "workspacelistentryicon-camera-symbolic"@[23]);
    assert("workspacelistentryicon-folder-symbolic"@[23] != "workspacelistentryicon-drinks-symbolic"@[23]);
    assert(spec_icon_label("workspacelistentryicon-folder-symbolic"@) == Some((None::<Seq<char>>, "Folder"@)));
    assert(workspace_icon_names()[17] == "workspacelistentryicon-footprints-symbolic"@);
    assert("workspacelistentryicon-footprints-symbolic"@[23] != "workspacelistentryicon-dictionary-symbolic"@[23]);
    assert(spec_icon_label("workspacelistentryicon-footprints-symbolic"@) == Some((None::<Seq<char>>, "Footprints"@)));
    assert(workspace_icon_names()[18] == "workspacelistentryicon-gamepad-symbolic"@);
    assert("workspacelistentryicon-gamepad-symbolic"@[23] != "workspacelistentryicon-bandaid-symbolic"@[23]);
    assert("workspacelistentryicon-gamepad-symbolic"@[23] != "workspacelistentryicon-compose-symbolic"@[23]);
    assert(spec_icon_label("workspacelistentryicon-gamepad-symbolic"@) == Some((None::<Seq<char>>, "Gamepad"@)));
    assert(workspace_icon_names()[19] == "workspacelistentryicon-gear-symbolic"@);
    assert("workspacelistentryicon-gear-symbolic"@[23] != "workspacelistentryicon-bank-symbolic"@[23]);
    assert("workspacelistentryicon-gear-symbolic"@[23] != "workspacelistentryicon-book-symbolic"@[23]);
    assert("workspacelistentryicon-gear-symbolic"@[23] != "workspacelistentryicon-chip-symbolic"@[23]);
    assert("workspacelistentryicon-gear-symbolic"@[23] != "workspacelistentryicon-code-symbolic"@[23]);
    assert("workspacelistentryicon-gear-symbolic"@[23] != "workspacelistentryicon-crop-symbolic"@[23]);
    assert("workspacelistentryicon-gear-symbolic"@[23] != "workspacelistentryicon-flag-symbolic"@[23]);
    assert(spec_icon_label("workspacelistentryicon-gear-symbolic"@) == Some((None::<Seq<char>>, "Gear"@)));
    assert(workspace_icon_names()[20] == "workspacelistentryicon-globe-symbolic"@);
    assert("workspacelistentryicon-globe-symbolic"@[23] != "workspacelistentryicon-bread-symbolic"@[23]);
    assert("workspacelistentryicon-globe-symbolic"@[23] != "workspacelistentryicon-clock-symbolic"@[23]);
    assert(spec_icon_label("workspacelistentryicon-globe-symbolic"@) == Some((None::<Seq<char>>, "Globe"@)));
    assert(workspace_icon_names()[21] == "workspacelistentryicon-hammer-symbolic"@);
    assert("workspacelistentryicon-hammer-symbolic"@[23] != "workspacelistentryicon-camera-symbolic"@[23]);
    assert("workspacelistentryicon-hammer-symbolic"@[23] != "workspacelistentryicon-drinks-symbolic"@[23]);
    assert("workspacelistentryicon-hammer-symbolic"@[23] != "workspacelistentryicon-folder-symbolic"@[23]);
    assert(spec_icon_label("workspacelistentryicon-hammer-symbolic"@) == Some((None::<Seq<char>>, "Hammer"@)));
    assert(workspace_icon_names()[22] == "workspacelistentryicon-heart-symbolic"@);
    assert("workspacelistentryicon-heart-symbolic"@[23] != "workspacelistentryicon-bread-symbolic"@[23]);
    assert("workspacelistentryicon-heart-symbolic"@[23] != "workspacelistentryicon-clock-symbolic"@[23]);
    assert("workspacelistentryicon-heart-symbolic"@[23] != "workspacelistentryicon-globe-symbolic"@[23]);
    assert(spec_icon_label("workspacelistentryicon-heart-symbolic"@) == Some((None::<Seq<char>>, "Heart"@)));
    assert(workspace_icon_names()[23] == "workspacelistentryicon-hourglass-symbolic"@);
    assert(spec_icon_label("workspacelistentryicon-hourglass-symbolic"@) == Some((None::<Seq<char>>, "Hourglass"@)));
    assert(workspace_icon_names()[24] == "workspacelistentryicon-key-symbolic"@);
    assert(spec_icon_label("workspacelistentryicon-key-symbolic"@) == Some((None::<Seq<char>>, "Key"@)));
    assert(workspace_icon_names()[25] == "workspacelistentryicon-language-symbolic"@);
    assert("workspacelistentryicon-language-symbolic"@[23] != "workspacelistentryicon-bookmark-symbolic"@[23]);
    assert("workspacelistentryicon-language-symbolic"@[23] != "workspacelistentryicon-calendar-symbolic"@[23]);
    assert("workspacelistentryicon-language-symbolic"@[23] != "workspacelistentryicon-document-symbolic"@[23]);
    assert(spec_icon_label("workspacelistentryicon-language-symbolic"@) == Some((None::<Seq<char>>, "Language"@)));
    assert(workspace_icon_names()[26] == "workspacelistentryicon-library-symbolic"@);
    assert("workspacelistentryicon-library-symbolic"@[23] != "workspacelistentryicon-bandaid-symbolic"@[23]);
    assert("workspacelistentryicon-library-symbolic"@[23] != "workspacelistentryicon-compose-symbolic"@[23]);
    assert("workspacelistentryicon-library-symbolic"@[23] != "workspacelistentryicon-gamepad-symbolic"@[23]);
    assert(spec_icon_label("workspacelistentryicon-library-symbolic"@) == Some((None::<Seq<char>>, "Library"@)));
    assert(workspace_icon_names()[27] == "workspacelistentryicon-lightbulb-symbolic"@);
    assert("workspacelistentryicon-lightbulb-symbolic"@[23] != "workspacelistentryicon-hourglass-symbolic"@[23]);
    assert(spec_icon_label("workspacelistentryicon-lightbulb-symbolic"@) == Some((None::<Seq<char>>, "Lightbulb"@)));
    assert(workspace_icon_names()[28] == "workspacelistentryicon-math-symbolic"@);
    assert("workspacelistentryicon-math-symbolic"@[23] != "workspacelistentryicon-bank-symbolic"@[23]);
    assert("workspacelistentryicon-math-symbolic"@[23] != "workspacelistentryicon-book-symbolic"@[23]);
    assert("workspacelistentryicon-math-symbolic"@[23] != "workspacelistentryicon-chip-symbolic"@[23]);
    assert("workspacelistentryicon-math-symbolic"@[23] != "workspacelistentryicon-code-symbolic"@[23]);
    assert("workspacelistentryicon-math-symbolic"@[23] != "workspacelistentryicon-crop-symbolic"@[23]);
    assert("workspacelistentryicon-math-symbolic"@[23] != "workspacelistentryicon-flag-symbolic"@[23]);
    assert("workspacelistentryicon-math-symbolic"@[23] != "workspacelistentryicon-gear-symbolic"@[23]);
    assert(spec_icon_label("workspacelistentryicon-math-symbolic"@) == Some((None::<Seq<char>>, "Mathematics"@)));
    assert(workspace_icon_names()[29] == "workspacelistentryicon-meeting-symbolic"@);
    assert("workspacelistentryicon-meeting-symbolic"@[23] != "workspacelistentryicon-bandaid-symbolic"@[23]);
    assert("workspacelistentryicon-meeting-symbolic"@[23] != "workspacelistentryicon-compose-symbolic"@[23]);
    assert("workspacelistentryicon-meeting-symbolic"@[23] != "workspacelistentryicon-gamepad-symbolic"@[23]);
    assert("workspacelistentryicon-meeting-symbolic"@[23] != "workspacelistentryicon-library-symbolic"@[23]);
    assert(spec_icon_label("workspacelistentryicon-meeting-symbolic"@) == Some((None::<Seq<char>>, "Meeting"@)));
    assert(workspace_icon_names()[30] == "workspacelistentryicon-money-symbolic"@);
    assert("workspacelistentryicon-money-symbolic"@[23] != "workspacelistentryicon-bread-symbolic"@[23]);
    assert("workspacelistentryicon-money-symbolic"@[23] != "workspacelistentryicon-clock-symbolic"@[23]);
    assert("workspacelistentryicon-money-symbolic"@[23] != "workspacelistentryicon-globe-symbolic"@[23]);
    assert("workspacelistentryicon-money-symbolic"@[23] != "workspacelistentryicon-heart-symbolic"@[23]);
    assert(spec_icon_label("workspacelistentryicon-money-symbolic"@) == Some((None::<Seq<char>>, "Money"@)));
    assert(workspace_icon_names()[31] == "workspacelistentryicon-musicnote-symbolic"@);
    assert("workspacelistentryicon-musicnote-symbolic"@[23] != "workspacelistentryicon-hourglass-symbolic"@[23]);
    assert("workspacelistentryicon-musicnote-symbolic"@[23] != "workspacelistentryicon-lightbulb-symbolic"@[23]);
    assert(spec_icon_label("workspacelistentryicon-musicnote-symbolic"@) == Some((None::<Seq<char>>, "Musical Note"@)));
    assert(workspace_icon_names()[32] == "workspacelistentryicon-nature-symbolic"@);
    assert("workspacelistentryicon-nature-symbolic"@[23] != "workspacelistentryicon-camera-symbolic"@[23]);
    assert("workspacelistentryicon-nature-symbolic"@[23] != "workspacelistentryicon-drinks-symbolic"@[23]);
    assert("workspacelistentryicon-nature-symbolic"@[23] != "workspacelistentryicon-folder-symbolic"@[23]);
    assert("workspacelistentryicon-nature-symbolic"@[23] != "workspacelistentryicon-hammer-symbolic"@[23]);
    assert(spec_icon_label("workspacelistentryicon-nature-symbolic"@) == Some((None::<Seq<char>>, "Nature"@)));
    assert(workspace_icon_names()[33] == "workspacelistentryicon-open-book-symbolic"@);
    assert("workspacelistentryicon-open-book-symbolic"@[23] != "workspacelistentryicon-hourglass-symbolic"@[23]);
    assert("workspacelistentryicon-open-book-symbolic"@[23] != "workspacelistentryicon-lightbulb-symbolic"@[23]);
    assert("workspacelistentryicon-open-book-symbolic"@[23] != "workspacelistentryicon-musicnote-symbolic"@[23]);
    assert(spec_icon_label("workspacelistentryicon-open-book-symbolic"@) == Some((None::<Seq<char>>, "Open Book"@)));
    assert(workspace_icon_names()[34] == "workspacelistentryicon-paintbrush-symbolic"@);
    assert("workspacelistentryicon-paintbrush-symbolic"@[23] != "workspacelistentryicon-dictionary-symbolic"@[23]);
    assert("workspacelistentryicon-paintbrush-symbolic"@[23] != "workspacelistentryicon-footprints-symbolic"@[23]);
    assert(spec_icon_label("workspacelistentryicon-paintbrush-symbolic"@) == Some((None::<Seq<char>>, "Paintbrush"@)));
    assert(workspace_icon_names()[35] == "workspacelistentryicon-pencilandpaper-symbolic"@);
    assert(spec_icon_label("workspacelistentryicon-pencilandpaper-symbolic"@) == Some((None::<Seq<char>>, "Pencil and Paper"@)));
    assert(workspace_icon_names()[36] == "workspacelistentryicon-people-symbolic"@);
    assert("workspacelistentryicon-people-symbolic"@[23] != "workspacelistentryicon-camera-symbolic"@[23]);
    assert("workspacelistentryicon-people-symbolic"@[23] != "workspacelistentryicon-drinks-symbolic"@[23]);
    assert("workspacelistentryicon-people-symbolic"@[23] != "workspacelistentryicon-folder-symbolic"@[23]);
    assert("workspacelistentryicon-people-symbolic"@[23] != "workspacelistentryicon-hammer-symbolic"@[23]);
    assert("workspacelistentryicon-people-symbolic"@[23] != "workspacelistentryicon-nature-symbolic"@[23]);
    assert(spec_icon_label("workspacelistentryicon-people-symbolic"@) == Some((None::<Seq<char>>, "People"@)));
    assert(workspace_icon_names()[37] == "workspacelistentryicon-person-symbolic"@);
    assert("workspacelistentryicon-person-symbolic"@[23] != "workspacelistentryicon-camera-symbolic"@[23]);
    assert("workspacelistentryicon-person-symbolic"@[23] != "workspacelistentryicon-drinks-symbolic"@[23]);
    assert("workspacelistentryicon-person-symbolic"@[23] != "workspacelistentryicon-folder-symbolic"@[23]);
    assert("workspacelistentryicon-person-symbolic"@[23] != "workspacelistentryicon-hammer-symbolic"@[23]);
    assert("workspacelistentryicon-person-symbolic"@[23] != "workspacelistentryicon-nature-symbolic"@[23]);
    assert("workspacelistentryicon-person-symbolic"@[25] != "workspacelistentryicon-people-symbolic"@[25]);
    assert(spec_icon_label("workspacelistentryicon-person-symbolic"@) == Some((None::<Seq<char>>, "Person"@)));
    assert(workspace_icon_names()[38] == "workspacelistentryicon-projector-symbolic"@);
    assert("workspacelistentryicon-projector-symbolic"@[23] != "workspacelistentryicon-hourglass-symbolic"@[23]);
    assert("workspacelistentryicon-projector-symbolic"@[23] != "workspacelistentryicon-lightbulb-symbolic"@[23]);
    assert("workspacelistentryicon-projector-symbolic"@[23] != "workspacelistentryicon-musicnote-symbolic"@[23]);
    assert("workspacelistentryicon-projector-symbolic"@[23] != "workspacelistentryicon-open-book-symbolic"@[23]);
    assert(spec_icon_label("workspacelistentryicon-projector-symbolic"@) == Some((None::<Seq<char>>, "Projector"@)));
    assert(workspace_icon_names()[39] == "workspacelistentryicon-science-symbolic"@);
    assert("workspacelistentryicon-science-symbolic"@[23] != "workspacelistentryicon-bandaid-symbolic"@[23]);
    assert("workspacelistentryicon-science-symbolic"@[23] != "workspacelistentryicon-compose-symbolic"@[23]);
    assert("workspacelistentryicon-science-symbolic"@[23] != "workspacelistentryicon-gamepad-symbolic"@[23]);
    assert("workspacelistentryicon-science-symbolic"@[23] != "workspacelistentryicon-library-symbolic"@[23]);
    assert("workspacelistentryicon-science-symbolic"@[23] != "workspacelistentryicon-meeting-symbolic"@[23]);
    assert(spec_icon_label("workspacelistentryicon-science-symbolic"@) == Some((None::<Seq<char>>, "Science"@)));
    assert(workspace_icon_names()[40] == "workspacelistentryicon-scratchpad-symbolic"@);
    assert("workspacelistentryicon-scratchpad-symbolic"@[23] != "workspacelistentryicon-dictionary-symbolic"@[23]);
    assert("workspacelistentryicon-scratchpad-symbolic"@[23] != "workspacelistentryicon-footprints-symbolic"@[23]);
    assert("workspacelistentryicon-scratchpad-symbolic"@[23] != "workspacelistentryicon-paintbrush-symbolic"@[23]);
    assert(spec_icon_label("workspacelistentryicon-scratchpad-symbolic"@) == Some((None::<Seq<char>>, "Scratchpad"@)));
    assert(workspace_icon_names()[41] == "workspacelistentryicon-shapes-symbolic"@);
    assert("workspacelistentryicon-shapes-symbolic"@[23] != "workspacelistentryicon-camera-symbolic"@[23]);
    assert("workspacelistentryicon-shapes-symbolic"@[23] != "workspacelistentryicon-drinks-symbolic"@[23]);
    assert("workspacelistentryicon-shapes-symbolic"@[23] != "workspacelistentryicon-folder-symbolic"@[23]);
    assert("workspacelistentryicon-shapes-symbolic"@[23] != "workspacelistentryicon-hammer-symbolic"@[23]);
    assert("workspacelistentryicon-shapes-symbolic"@[23] != "workspacelistentryicon-nature-symbolic"@[23]);
    assert("workspacelistentryicon-shapes-symbolic"@[23] != "workspacelistentryicon-people-symbolic"@[23]);
    assert("workspacelistentryicon-shapes-symbolic"@[23] != "workspacelistentryicon-person-symbolic"@[23]);
    assert(spec_icon_label("workspacelistentryicon-shapes-symbolic"@) == Some((None::<Seq<char>>, "Shapes"@)));
    assert(workspace_icon_names()[42] == "workspacelistentryicon-shopping-symbolic"@);
    assert("workspacelistentryicon-shopping-symbolic"@[23] != "workspacelistentryicon-bookmark-symbolic"@[23]);
    assert("workspacelistentryicon-shopping-symbolic"@[23] != "workspacelistentryicon-calendar-symbolic"@[23]);
    assert("workspacelistentryicon-shopping-symbolic"@[23] != "workspacelistentryicon-document-symbolic"@[23]);
    assert("workspacelistentryicon-shopping-symbolic"@[23] != "workspacelistentryicon-language-symbolic"@[23]);
    assert(spec_icon_label("workspacelistentryicon-shopping-symbolic"@) == Some((None::<Seq<char>>, "Shopping"@)));
    assert(workspace_icon_names()[43] == "workspacelistentryicon-speechbubble-symbolic"@);
    assert(spec_icon_label("workspacelistentryicon-speechbubble-symbolic"@) == Some((None::<Seq<char>>, "Speech Bubble"@)));
    assert(workspace_icon_names()[44] == "workspacelistentryicon-speedometer-symbolic"@);
    assert(spec_icon_label("workspacelistentryicon-speedometer-symbolic"@) == Some((None::<Seq<char>>, "Speedometer"@)));
    assert(workspace_icon_names()[45] == "workspacelistentryicon-star-symbolic"@);
    assert("workspacelistentryicon-star-symbolic"@[23] != "workspacelistentryicon-bank-symbolic"@[23]);
    assert("workspacelistentryicon-star-symbolic"@[23] != "workspacelistentryicon-book-symbolic"@[23]);
    assert("workspacelistentryicon-star-symbolic"@[23] != "workspacelistentryicon-chip-symbolic"@[23]);
    assert("workspacelistentryicon-star-symbolic"@[23] != "workspacelistentryicon-code-symbolic"@[23]);
    assert("workspacelistentryicon-star-symbolic"@[23] != "workspacelistentryicon-crop-symbolic"@[23]);
    assert("workspacelistentryicon-star-symbolic"@[23] != "workspacelistentryicon-flag-symbolic"@[23]);
    assert("workspacelistentryicon-star-symbolic"@[23] != "workspacelistentryicon-gear-symbolic"@[23]);
    assert("workspacelistentryicon-star-symbolic"@[23] != "workspacelistentryicon-math-symbolic"@[23]);
    assert(spec_icon_label("workspacelistentryicon-star-symbolic"@) == Some((None::<Seq<char>>, "Star"@)));
    assert(workspace_icon_names()[46] == "workspacelistentryicon-terminal-symbolic"@);
    assert("workspacelistentryicon-terminal-symbolic"@[23] != "workspacelistentryicon-bookmark-symbolic"@[23]);
    assert("workspacelistentryicon-terminal-symbolic"@[23] != "workspacelistentryicon-calendar-symbolic"@[23]);
    assert("workspacelistentryicon-terminal-symbolic"@[23] != "workspacelistentryicon-document-symbolic"@[23]);
    assert("workspacelistentryicon-terminal-symbolic"@[23] != "workspacelistentryicon-language-symbolic"@[23]);
    assert("workspacelistentryicon-terminal-symbolic"@[23] != "workspacelistentryicon-shopping-symbolic"@[23]);
    assert(spec_icon_label("workspacelistentryicon-terminal-symbolic"@) == Some((Some("as in terminal software"@), "Terminal"@)));
    assert(workspace_icon_names()[47] == "workspacelistentryicon-text-symbolic"@);
    assert("workspacelistentryicon-text-symbolic"@[23] != "workspacelistentryicon-bank-symbolic"@[23]);
    assert("workspacelistentryicon-text-symbolic"@[23] != "workspacelistentryicon-book-symbolic"@[23]);
    assert("workspacelistentryicon-text-symbolic"@[23] != "workspacelistentryicon-chip-symbolic"@[23]);
    assert("workspacelistentryicon-text-symbolic"@[23] != "workspacelistentryicon-code-symbolic"@[23]);
    assert("workspacelistentryicon-text-symbolic"@[23] != "workspacelistentryicon-crop-symbolic"@[23]);
    assert("workspacelistentryicon-text-symbolic"@[23] != "workspacelistentryicon-flag-symbolic"@[23]);
    assert("workspacelistentryicon-text-symbolic"@[23] != "workspacelistentryicon-gear-symbolic"@[23]);
    assert("workspacelistentryicon-text-symbolic"@[23] != "workspacelistentryicon-math-symbolic"@[23]);
    assert("workspacelistentryicon-text-symbolic"@[23] != "workspacelistentryicon-star-symbolic"@[23]);
    assert(spec_icon_label("workspacelistentryicon-text-symbolic"@) == Some((None::<Seq<char>>, "Text"@)));
    assert(workspace_icon_names()[48] == "workspacelistentryicon-travel-symbolic"@);
    assert("workspacelistentryicon-travel-symbolic"@[23] != "workspacelistentryicon-camera-symbolic"@[23]);
    assert("workspacelistentryicon-travel-symbolic"@[23] != "workspacelistentryicon-drinks-symbolic"@[23]);
    assert("workspacelistentryicon-travel-symbolic"@[23] != "workspacelistentryicon-folder-symbolic"@[23]);
    assert("workspacelistentryicon-travel-symbolic"@[23] != "workspacelistentryicon-hammer-symbolic"@[23]);
    assert("workspacelistentryicon-travel-symbolic"@[23] != "workspacelistentryicon-nature-symbolic"@[23]);
    assert("workspacelistentryicon-travel-symbolic"@[23] != "workspacelistentryicon-people-symbolic"@[23]);
    assert("workspacelistentryicon-travel-symbolic"@[23] != "workspacelistentryicon-person-symbolic"@[23]);
    assert("workspacelistentryicon-travel-symbolic"@[23] != "workspacelistentryicon-shapes-symbolic"@[23]);
    assert(spec_icon_label("workspacelistentryicon-travel-symbolic"@) == Some((None::<Seq<char>>, "Travel"@)));
    assert(workspace_icon_names()[49] == "workspacelistentryicon-weather-symbolic"@);
    assert("workspacelistentryicon-weather-symbolic"@[23] != "workspacelistentryicon-bandaid-symbolic"@[23]);
    assert("workspacelistentryicon-weather-symbolic"@[23] != "workspacelistentryicon-compose-symbolic"@[23]);
    assert("workspacelistentryicon-weather-symbolic"@[23] != "workspacelistentryicon-gamepad-symbolic"@[23]);
    assert("workspacelistentryicon-weather-symbolic"@[23] != "workspacelistentryicon-library-symbolic"@[23]);
    assert("workspacelistentryicon-weather-symbolic"@[23] != "workspacelistentryicon-meeting-symbolic"@[23]);
    assert("workspacelistentryicon-weather-symbolic"@[23] != "workspacelistentryicon-science-symbolic"@[23]);
    assert(spec_icon_label("workspacelistentryicon-weather-symbolic"@) == Some((None::<Seq<char>>, "Weather"@)));
    assert(workspace_icon_names()[50] == "workspacelistentryicon-weight-symbolic"@);
    assert("workspacelistentryicon-weight-symbolic"@[23] != "workspacelistentryicon-camera-symbolic"@[23]);
    assert("workspacelistentryicon-weight-symbolic"@[23] != "workspacelistentryicon-drinks-symbolic"@[23]);
    assert("workspacelistentryicon-weight-symbolic"@[23] != "workspacelistentryicon-folder-symbolic"@[23]);
    assert("workspacelistentryicon-weight-symbolic"@[23] != "workspacelistentryicon-hammer-symbolic"@[23]);
    assert("workspacelistentryicon-weight-symbolic"@[23] != "workspacelistentryicon-nature-symbolic"@[23]);
    assert("workspacelistentryicon-weight-symbolic"@[23] != "workspacelistentryicon-people-symbolic"@[23]);
    assert("workspacelistentryicon-weight-symbolic"@[23] != "workspacelistentryicon-person-symbolic"@[23]);
    assert("workspacelistentryicon-weight-symbolic"@[23] != "workspacelistentryicon-shapes-symbolic"@[23]);
    assert("workspacelistentryicon-weight-symbolic"@[23] != "workspacelistentryicon-travel-symbolic"@[23]);
    assert(spec_icon_label("workspacelistentryicon-weight-symbolic"@) == Some((None::<Seq<char>>, "Weight"@)));
    assert forall|i: int| 0 <= i < workspace_icon_names().len() implies (#[trigger] spec_icon_label(
        workspace_icon_names()[i],
    )) is Some && spec_icon_label(workspace_icon_names()[i]).unwrap().1 == workspace_icon_label_texts()[i] by {
        if i == 0 {
        } else if i == 1 {
        } else if i == 2 {
        } else if i == 3 {
        } else if i == 4 {
        } else if i == 5 {
        } else if i == 6 {
        } else if i == 7 {
        } else if i == 8 {
        } else if i == 9 {
        } else if i == 10 {
        } else if i == 11 {
        } else if i == 12 {
        } else if i == 13 {
        } else if i == 14 {
        } else if i == 15 {
        } else if i == 16 {
        } else if i == 17 {
        } else if i == 18 {
        } else if i == 19 {
        } else if i == 20 {
        } else if i == 21 {
        } else if i == 22 {
        } else if i == 23 {
        } else if i == 24 {
        } else if i == 25 {
        } else if i == 26 {
        } else if i == 27 {
        } else if i == 28 {
        } else if i == 29 {
        } else if i == 30 {
        } else if i == 31 {
        } else if i == 32 {
        } else if i == 33 {
        } else if i == 34 {
        } else if i == 35 {
        } else if i == 36 {
        } else if i == 37 {
        } else if i == 38 {
        } else if i == 39 {
        } else if i == 40 {
        } else if i == 41 {
        } else if i == 42 {
        } else if i == 43 {
        } else if i == 44 {
        } else if i == 45 {
        } else if i == 46 {
        } else if i == 47 {
        } else if i == 48 {
        } else if i == 49 {
        } else if i == 50 {
        }
    }
}



/// Every workspace icon has a label, no label is empty, and no two icons
/// share a label.
pub proof fn lemma_workspace_icon_labels_distinct()
    ensures
        forall|i: int|
            0 <= i < workspace_icon_names().len() ==> (#[trigger] spec_icon_label(workspace_icon_names()[i])) is Some
                && spec_icon_label(workspace_icon_names()[i]).unwrap().1.len() > 0,
        forall|i: int, j: int|
            0 <= i < j < workspace_icon_names().len() ==> spec_icon_label(
                #[trigger] workspace_icon_names()[i],
            ).unwrap().1 != spec_icon_label(#[trigger] workspace_icon_names()[j]).unwrap().1,
{
    lemma_label_texts_distinct();
    lemma_workspace_icon_label_texts();
    assert forall|i: int, j: int|
        0 <= i < j < workspace_icon_names().len() implies spec_icon_label(
        #[trigger] workspace_icon_names()[i],
    ).unwrap().1 != spec_icon_label(#[trigger] workspace_icon_names()[j]).unwrap().1 by {
        assert(spec_icon_label(workspace_icon_names()[i]).unwrap().1 == workspace_icon_label_texts()[i]);
        assert(spec_icon_label(workspace_icon_names()[j]).unwrap().1 == workspace_icon_label_texts()[j]);
    }
}
} // verus!
