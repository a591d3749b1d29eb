//! The decisions of the application window: how it opens and loads files,
//! how it names files saved on closing, what it does with the engine's
//! widget flags, what it pastes, and its keyboard accelerators.

use vstd::prelude::*;
use crate::text::{append_decimal, decimal, str_eq};

verus! {

/// The kind of a file, as its content type tells.
#[derive(Clone, Copy, Debug, PartialEq, Eq, Structural)]
pub enum FileType {
    RnoteFile,
    VectorImageFile,
    BitmapImageFile,
    XoppFile,
    PdfFile,
    Folder,
    Unsupported,
}

/// What opening a file does.
#[derive(Clone, Copy, Debug, PartialEq, Eq, Structural)]
pub enum OpenFileAction {
    /// The file is open in a tab already: switch to that tab.
    SwitchToTab,
    /// Load the file into a new tab.
    LoadInNewTab,
    /// Load the file into the active tab.
    LoadInActiveTab,
    /// Open a new tab and ask how to import the Xournal++ file into it.
    ImportXoppInNewTab,
    /// Ask how to import the PDF into the active tab.
    ImportPdf,
    /// Make the folder the directory of the selected workspace.
    SelectWorkspaceDir,
    /// The file has no local path: report it and do nothing.
    NoPath,
    /// The file type is not supported: report it and do nothing.
    Unsupported,
}

/// Opening a file: an Rnote file switches to the tab that has it open, or
/// loads into a new tab or the active one; images load into the active tab;
/// Xournal++ files and PDFs go through their import dialogs; a folder
/// becomes the workspace directory.
pub open spec fn spec_open_file_action(
    file_type: FileType,
    has_path: bool,
    already_opened: bool,
    rnote_file_new_tab: bool,
) -> OpenFileAction {
    match file_type {
        FileType::RnoteFile => if !has_path {
            OpenFileAction::NoPath
        } else if already_opened {
            OpenFileAction::SwitchToTab
        } else if rnote_file_new_tab {
            OpenFileAction::LoadInNewTab
        } else {
            OpenFileAction::LoadInActiveTab
        },
        FileType::VectorImageFile | FileType::BitmapImageFile => OpenFileAction::LoadInActiveTab,
        FileType::XoppFile => OpenFileAction::ImportXoppInNewTab,
        FileType::PdfFile => OpenFileAction::ImportPdf,
        FileType::Folder => if has_path {
            OpenFileAction::SelectWorkspaceDir
        } else {
            OpenFileAction::NoPath
        },
        FileType::Unsupported => OpenFileAction::Unsupported,
    }
}

/// Decides what opening a file does. `already_opened` tells whether some tab
/// saves to the same file; only Rnote files ask it.
pub fn open_file_action(
    file_type: FileType,
    has_path: bool,
    already_opened: bool,
    rnote_file_new_tab: bool,
) -> (a: OpenFileAction)
    ensures
        a == spec_open_file_action(file_type, has_path, already_opened, rnote_file_new_tab),
{
    match file_type {
        FileType::RnoteFile => {
            if !has_path {
                OpenFileAction::NoPath
            } else if already_opened {
                OpenFileAction::SwitchToTab
            } else if rnote_file_new_tab {
                OpenFileAction::LoadInNewTab
            } else {
                OpenFileAction::LoadInActiveTab
            }
        },
        FileType::VectorImageFile | FileType::BitmapImageFile => OpenFileAction::LoadInActiveTab,
        FileType::XoppFile => OpenFileAction::ImportXoppInNewTab,
        FileType::PdfFile => OpenFileAction::ImportPdf,
        FileType::Folder => {
            if has_path {
                OpenFileAction::SelectWorkspaceDir
            } else {
                OpenFileAction::NoPath
            }
        },
        FileType::Unsupported => OpenFileAction::Unsupported,
    }
}

/// The loader that reads a file's bytes into the engine.
#[derive(Clone, Copy, Debug, PartialEq, Eq, Structural)]
pub enum Loader {
    Rnote,
    VectorImage,
    BitmapImage,
    Xopp,
    Pdf,
}

/// How a file is loaded: with a loader and the message shown if it fails,
/// or not at all, with the message shown right away.
#[derive(Clone, Copy, Debug)]
pub enum LoadPlan {
    Load { loader: Loader, failure_msgid: &'static str },
    Refuse { msgid: &'static str },
}

/// The plan of a file type, its messages as text.
pub open spec fn spec_load_plan(file_type: FileType) -> (Option<Loader>, Seq<char>) {
    match file_type {
        FileType::RnoteFile => (Some(Loader::Rnote), "Opening .rnote file failed."@),
        FileType::VectorImageFile => (Some(Loader::VectorImage), "Opening vector image file failed."@),
        FileType::BitmapImageFile => (Some(Loader::BitmapImage), "Opening bitmap image file failed."@),
        FileType::XoppFile => (Some(Loader::Xopp), "Opening Xournal++ file failed."@),
        FileType::PdfFile => (Some(Loader::Pdf), "Opening PDF file failed."@),
        FileType::Folder => (None, "Error: Tried opening folder as file"@),
        FileType::Unsupported => (None, "Failed to open file: Unsupported file type."@),
    }
}

/// The view of a plan.
pub open spec fn load_plan_view(p: LoadPlan) -> (Option<Loader>, Seq<char>) {
    match p {
        LoadPlan::Load { loader, failure_msgid } => (Some(loader), failure_msgid@),
        LoadPlan::Refuse { msgid } => (None, msgid@),
    }
}

/// Returns how a file of the given type is loaded into a canvas.
pub fn load_plan(file_type: FileType) -> (p: LoadPlan)
    ensures
        load_plan_view(p) == spec_load_plan(file_type),
{
    match file_type {
        FileType::RnoteFile => LoadPlan::Load {
            loader: Loader::Rnote,
            failure_msgid: "Opening .rnote file failed.",
        },
        FileType::VectorImageFile => LoadPlan::Load {
            loader: Loader::VectorImage,
            failure_msgid: "Opening vector image file failed.",
        },
        FileType::BitmapImageFile => LoadPlan::Load {
            loader: Loader::BitmapImage,
            failure_msgid: "Opening bitmap image file failed.",
        },
        FileType::XoppFile => LoadPlan::Load {
            loader: Loader::Xopp,
            failure_msgid: "Opening Xournal++ file failed.",
        },
        FileType::PdfFile => LoadPlan::Load {
            loader: Loader::Pdf,
            failure_msgid: "Opening PDF file failed.",
        },
        FileType::Folder => LoadPlan::Refuse { msgid: "Error: Tried opening folder as file" },
        FileType::Unsupported => LoadPlan::Refuse {
            msgid: "Failed to open file: Unsupported file type.",
        },
    }
}

/// Every file type that opening a file loads directly has a loader.
pub proof fn lemma_opened_files_have_loaders(
    file_type: FileType,
    has_path: bool,
    already_opened: bool,
    new_tab: bool,
)
    ensures
        ({
            let a = spec_open_file_action(file_type, has_path, already_opened, new_tab);
            (a == OpenFileAction::LoadInNewTab || a == OpenFileAction::LoadInActiveTab)
                ==> spec_load_plan(file_type).0 is Some
        }),
{
}

/// The file name of a document saved on closing: its title, with ` - ` and
/// the postfix when the postfix is not zero, and the `.rnote` extension.
pub open spec fn postfixed_title(title: Seq<char>, postfix: nat) -> Seq<char> {
    if postfix == 0 {
        title
    } else {
        title + " - "@ + decimal(postfix)
    }
}

/// The file name for a title and a postfix.
pub open spec fn save_file_name(title: Seq<char>, postfix: nat) -> Seq<char> {
    postfixed_title(title, postfix) + ".rnote"@
}

/// Returns the title with its postfix.
pub fn postfixed_title_string(title: &str, postfix: u64) -> (s: String)
    ensures
        s@ == postfixed_title(title@, postfix as nat),
{
    let mut s = String::from_str(title);
    if postfix != 0 {
        s.append(" - ");
        append_decimal(&mut s, postfix);
        proof {
            assert(s@ =~= postfixed_title(title@, postfix as nat));
        }
    }
    s
}

/// Returns the file name of the title with its postfix.
pub fn save_file_name_string(title: &str, postfix: u64) -> (s: String)
    ensures
        s@ == save_file_name(title@, postfix as nat),
{
    let mut s = postfixed_title_string(title, postfix);
    s.append(".rnote");
    s
}

/// The next step of the search for a free file name: a file exists under the
/// name for `postfix`, so the next postfix is tried; else the search ends
/// with this postfix. Returns the postfix to try next, or `None` when the
/// search ended.
pub fn file_name_search_step(postfix: u64, exists: bool) -> (next: Option<u64>)
    requires
        postfix < u64::MAX,
    ensures
        next == (if exists {
            Some((postfix + 1) as u64)
        } else {
            None::<u64>
        }),
{
    if exists {
        Some(postfix + 1)
    } else {
        None
    }
}

/// The title of the window: the document's title and the application's name.
pub open spec fn spec_window_title(doc_title: Seq<char>, app_name: Seq<char>) -> Seq<char> {
    doc_title + " - "@ + app_name
}

/// Returns the title of the window.
pub fn window_title(doc_title: &str, app_name: &str) -> (s: String)
    ensures
        s@ == spec_window_title(doc_title@, app_name@),
{
    let mut s = String::from_str(doc_title);
    s.append(" - ");
    s.append(app_name);
    s
}

/// A text to show: given as it is, or a message to translate first.
#[derive(Debug)]
pub enum DisplayText {
    Text(String),
    Message(&'static str),
}

/// The view of a display text: the text, or the message to translate.
pub open spec fn display_text_view(t: &DisplayText) -> Result<Seq<char>, Seq<char>> {
    match t {
        DisplayText::Text(s) => Ok(s@),
        DisplayText::Message(m) => Err(m@),
    }
}

/// The title of a document for display: the stem of its file's name, a
/// message when the name has no stem, or the title of a new document when it
/// has no file. `output_file` holds the file's stem, if the document has a
/// file.
pub open spec fn spec_doc_title(output_file: Option<Option<Seq<char>>>) -> Result<
    Seq<char>,
    Seq<char>,
> {
    match output_file {
        None => Err("New Document"@),
        Some(None) => Err("- invalid file name -"@),
        Some(Some(stem)) => Ok(stem),
    }
}

/// Returns the title of a document for display.
pub fn doc_title_display(output_file: Option<Option<String>>) -> (t: DisplayText)
    ensures
        display_text_view(&t) == spec_doc_title(
            match output_file {
                None => None,
                Some(None) => Some(None),
                Some(Some(s)) => Some(Some(s@)),
            },
        ),
{
    match output_file {
        None => DisplayText::Message("New Document"),
        Some(None) => DisplayText::Message("- invalid file name -"),
        Some(Some(stem)) => DisplayText::Text(stem),
    }
}

/// The folder of a document for display: the path of its file's folder, a
/// message when there is none, or `Draft` when it has no file.
pub open spec fn spec_doc_folder(output_file: Option<Option<Seq<char>>>) -> Result<
    Seq<char>,
    Seq<char>,
> {
    match output_file {
        None => Err("Draft"@),
        Some(None) => Err("- invalid folder path -"@),
        Some(Some(path)) => Ok(path),
    }
}

/// Returns the folder of a document for display.
pub fn doc_folderpath_display(output_file: Option<Option<String>>) -> (t: DisplayText)
    ensures
        display_text_view(&t) == spec_doc_folder(
            match output_file {
                None => None,
                Some(None) => Some(None),
                Some(Some(s)) => Some(Some(s@)),
            },
        ),
{
    match output_file {
        None => DisplayText::Message("Draft"),
        Some(None) => DisplayText::Message("- invalid folder path -"),
        Some(Some(path)) => DisplayText::Text(path),
    }
}

/// The flags the engine returns after it handled something.
#[derive(Clone, Copy, Debug, PartialEq, Eq, Structural)]
pub struct WidgetFlags {
    pub redraw: bool,
    pub resize: bool,
    pub refresh_ui: bool,
    pub store_modified: bool,
    pub update_view: bool,
    pub hide_undo: Option<bool>,
    pub hide_redo: Option<bool>,
    pub enable_text_preprocessing: Option<bool>,
}

/// What the window does for the flags.
#[derive(Clone, Copy, Debug, PartialEq, Eq, Structural)]
pub struct FlagEffects {
    /// Redraw the canvas.
    pub queue_draw: bool,
    /// Recompute the canvas's size.
    pub queue_resize: bool,
    /// Refresh the interface from the engine's state.
    pub refresh_ui: bool,
    /// Mark the document as changed and not empty.
    pub mark_modified: bool,
    /// Move the canvas's scroll position to the camera's offset.
    pub update_camera_offset: bool,
    /// The new sensitivity of the undo button, if it changes.
    pub undo_sensitive: Option<bool>,
    /// The new sensitivity of the redo button, if it changes.
    pub redo_sensitive: Option<bool>,
    /// Whether text preprocessing is switched on or off, if it changes.
    pub text_preprocessing: Option<bool>,
}

/// The negation of an optional flag.
pub open spec fn negated(b: Option<bool>) -> Option<bool> {
    match b {
        Some(x) => Some(!x),
        None => None,
    }
}

/// Each flag asks for its effect; a hidden undo or redo makes its button
/// insensitive.
pub open spec fn spec_flag_effects(f: WidgetFlags) -> FlagEffects {
    FlagEffects {
        queue_draw: f.redraw,
        queue_resize: f.resize,
        refresh_ui: f.refresh_ui,
        mark_modified: f.store_modified,
        update_camera_offset: f.update_view,
        undo_sensitive: negated(f.hide_undo),
        redo_sensitive: negated(f.hide_redo),
        text_preprocessing: f.enable_text_preprocessing,
    }
}

fn negate(b: Option<bool>) -> (r: Option<bool>)
    ensures
        r == negated(b),
{
    match b {
        Some(x) => Some(!x),
        None => None,
    }
}

/// Returns what the window does for the engine's flags.
pub fn handle_widget_flags(f: WidgetFlags) -> (e: FlagEffects)
    ensures
        e == spec_flag_effects(f),
{
    FlagEffects {
        queue_draw: f.redraw,
        queue_resize: f.resize,
        refresh_ui: f.refresh_ui,
        mark_modified: f.store_modified,
        update_camera_offset: f.update_view,
        undo_sensitive: negate(f.hide_undo),
        redo_sensitive: negate(f.hide_redo),
        text_preprocessing: f.enable_text_preprocessing,
    }
}

/// What the clipboard is pasted as.
#[derive(Clone, Copy, Debug, PartialEq, Eq, Structural)]
pub enum PasteSource {
    /// An SVG image, read as text.
    Svg,
    /// A list of file URIs, read as text and opened.
    UriList,
    /// A PNG image, read as a texture.
    Png,
    /// Nothing that can be pasted.
    Unsupported,
}

/// The clipboard's formats, by their mime types.
pub open spec fn formats_view(formats: Seq<String>) -> Seq<Seq<char>> {
    formats.map_values(|s: String| s@)
}

/// An SVG image comes first, then a list of files, then a PNG image.
pub open spec fn spec_paste_source(formats: Seq<Seq<char>>) -> PasteSource {
    if formats.contains("image/svg+xml"@) {
        PasteSource::Svg
    } else if formats.contains("text/uri-list"@) {
        PasteSource::UriList
    } else if formats.contains("image/png"@) {
        PasteSource::Png
    } else {
        PasteSource::Unsupported
    }
}

/// Whether the formats hold the mime type.
fn contains_mime_type(formats: &Vec<String>, mime: &str) -> (r: bool)
    ensures
        r == formats_view(formats@).contains(mime@),
{
    let ghost view = formats_view(formats@);
    let mut i: usize = 0;
    while i < formats.len()
        invariant
            i <= formats@.len(),
            view == formats_view(formats@),
            forall|j: int| 0 <= j < i ==> view[j] != mime@,
        decreases formats@.len() - i,
    {
        if str_eq(formats[i].as_str(), mime) {
            assert(view[i as int] == mime@);
            return true;
        }
        i = i + 1;
    }
    assert(!view.contains(mime@)) by {
        if view.contains(mime@) {
            let k = choose|k: int| 0 <= k < view.len() && view[k] == mime@;
            assert(k < i);
        }
    }
    false
}

/// Decides what the clipboard is pasted as.
pub fn paste_source(formats: &Vec<String>) -> (r: PasteSource)
    ensures
        r == spec_paste_source(formats_view(formats@)),
{
    if contains_mime_type(formats, "image/svg+xml") {
        PasteSource::Svg
    } else if contains_mime_type(formats, "text/uri-list") {
        PasteSource::UriList
    } else if contains_mime_type(formats, "image/png") {
        PasteSource::Png
    } else {
        PasteSource::Unsupported
    }
}

/// What toggling the developer mode does.
#[derive(Clone, Copy, Debug, PartialEq, Eq, Structural)]
pub struct DevelModeToggle {
    /// The new state of the developer mode.
    pub devel_mode: bool,
    /// Whether the developer menu is enabled.
    pub devel_menu_enabled: bool,
    /// Whether visual debugging is switched off.
    pub disable_visual_debug: bool,
}

/// Toggling the developer mode flips it, enables the developer menu exactly
/// while it is on, and switches visual debugging off when it is turned off.
pub fn toggle_devel_mode(devel_mode: bool) -> (t: DevelModeToggle)
    ensures
        t == (DevelModeToggle {
            devel_mode: !devel_mode,
            devel_menu_enabled: !devel_mode,
            disable_visual_debug: devel_mode,
        }),
{
    DevelModeToggle {
        devel_mode: !devel_mode,
        devel_menu_enabled: !devel_mode,
        disable_visual_debug: devel_mode,
    }
}

/// The lowercase form of a text, as `str::to_lowercase` gives it.
pub uninterp spec fn lowercase(s: Seq<char>) -> Seq<char>;

/// Calls `str::to_lowercase`; its result is named `lowercase`, a function of
/// the text alone (it does not depend on the locale).
#[verifier::external_body]
fn to_lowercase(s: &str) -> (r: String)
    ensures
        r@ == lowercase(s@),
{
    s.to_lowercase()
}

/// Whether the build profile is the development profile, whatever its case.
pub fn is_devel_profile(profile: &str) -> (r: bool)
    ensures
        r == (lowercase(profile@) == "devel"@),
{
    let lower = to_lowercase(profile);
    str_eq(lower.as_str(), "devel")
}

/// An action and the keyboard accelerators that trigger it.
pub struct ActionAccels {
    pub action: &'static str,
    pub accels: Vec<&'static str>,
}

/// The view of an action's accelerators.
pub open spec fn action_accels_view(a: ActionAccels) -> (Seq<char>, Seq<Seq<char>>) {
    (a.action@, a.accels@.map_values(|s: &'static str| s@))
}

/// The accelerators of the window's actions.
pub open spec fn spec_window_accels(devel: bool) -> Seq<(Seq<char>, Seq<Seq<char>>)> {
    let base = seq![
        ("win.close-active"@, seq!["<Ctrl>w"@]),
        ("win.fullscreen"@, seq!["F11"@]),
        ("win.keyboard-shortcuts"@, seq!["<Ctrl>question"@]),
        ("win.open-canvasmenu"@, seq!["F9"@]),
        ("win.open-appmenu"@, seq!["F10"@]),
        ("win.new-doc"@, seq!["<Ctrl>n"@]),
        ("win.open-doc"@, seq!["<Ctrl>o"@]),
        ("win.save-doc"@, seq!["<Ctrl>s"@]),
        ("win.save-doc-as"@, seq!["<Ctrl><Shift>s"@]),
        ("win.clear-doc"@, seq!["<Ctrl>l"@]),
        ("win.print-doc"@, seq!["<Ctrl>p"@]),
        ("win.import-file"@, seq!["<Ctrl>i"@]),
        ("win.undo"@, seq!["<Ctrl>z"@]),
        ("win.redo"@, seq!["<Ctrl><Shift>z"@]),
        ("win.zoomin"@, seq!["plus"@]),
        ("win.zoomout"@, seq!["minus"@]),
        ("win.selection-trash"@, seq!["Delete"@]),
        ("win.selection-duplicate"@, seq!["<Ctrl>d"@]),
        ("win.selection-select-all"@, seq!["<Ctrl>a"@]),
        ("win.selection-deselect-all"@, seq!["<Ctrl><Shift>a"@]),
        ("win.clipboard-copy-selection"@, seq!["<Ctrl>c"@]),
        ("win.clipboard-paste"@, seq!["<Ctrl>v"@]),
    ];
    if devel {
        base.push(("win.visual-debug"@, seq!["<Ctrl><Shift>v"@]))
    } else {
        base
    }
}

/// One action with one accelerator.
fn accel(action: &'static str, key: &'static str) -> (a: ActionAccels)
    ensures
        action_accels_view(a) == (action@, seq![key@]),
{
    let mut accels: Vec<&'static str> = Vec::new();
    accels.push(key);
    let a = ActionAccels { action, accels };
    assert(a.accels@.map_values(|s: &'static str| s@) =~= seq![key@]);
    a
}

/// Returns the accelerators of the window's actions; the development
/// profile adds one for visual debugging.
pub fn window_accels(devel: bool) -> (v: Vec<ActionAccels>)
    ensures
        v@.map_values(|a: ActionAccels| action_accels_view(a)) == spec_window_accels(devel),
{
    let mut v: Vec<ActionAccels> = Vec::new();
    v.push(accel("win.close-active", "<Ctrl>w"));
    v.push(accel("win.fullscreen", "F11"));
    v.push(accel("win.keyboard-shortcuts", "<Ctrl>question"));
    v.push(accel("win.open-canvasmenu", "F9"));
    v.push(accel("win.open-appmenu", "F10"));
    v.push(accel("win.new-doc", "<Ctrl>n"));
    v.push(accel("win.open-doc", "<Ctrl>o"));
    v.push(accel("win.save-doc", "<Ctrl>s"));
    v.push(accel("win.save-doc-as", "<Ctrl><Shift>s"));
    v.push(accel("win.clear-doc", "<Ctrl>l"));
    v.push(accel("win.print-doc", "<Ctrl>p"));
    v.push(accel("win.import-file", "<Ctrl>i"));
    v.push(accel("win.undo", "<Ctrl>z"));
    v.push(accel("win.redo", "<Ctrl><Shift>z"));
    v.push(accel("win.zoomin", "plus"));
    v.push(accel("win.zoomout", "minus"));
    v.push(accel("win.selection-trash", "Delete"));
    v.push(accel("win.selection-duplicate", "<Ctrl>d"));
    v.push(accel("win.selection-select-all", "<Ctrl>a"));
    v.push(accel("win.selection-deselect-all", "<Ctrl><Shift>a"));
    v.push(accel("win.clipboard-copy-selection", "<Ctrl>c"));
    v.push(accel("win.clipboard-paste", "<Ctrl>v"));
    if devel {
        v.push(accel("win.visual-debug", "<Ctrl><Shift>v"));
    }
    assert(v@.map_values(|a: ActionAccels| action_accels_view(a)) =~= spec_window_accels(devel));
    v
}

/// The accelerators of the application's actions.
pub fn app_accels() -> (v: Vec<ActionAccels>)
    ensures
        v@.map_values(|a: ActionAccels| action_accels_view(a)) == seq![
            ("app.quit"@, seq!["<Ctrl>q"@]),
        ],
{
    let mut v: Vec<ActionAccels> = Vec::new();
    v.push(accel("app.quit", "<Ctrl>q"));
    assert(v@.map_values(|a: ActionAccels| action_accels_view(a)) =~= seq![
        ("app.quit"@, seq!["<Ctrl>q"@]),
    ]);
    v
}

/// An Rnote file that a tab already has open is never loaded again: opening
/// it switches to that tab, whether new files go to a new tab or not. One
/// that no tab has open is loaded into a new tab exactly when that is the
/// setting, and into the active tab otherwise.
pub proof fn lemma_opened_rnote_file_switches_to_tab(already_opened: bool, rnote_file_new_tab: bool)
    ensures
        already_opened ==> spec_open_file_action(
            FileType::RnoteFile,
            true,
            already_opened,
            rnote_file_new_tab,
        ) == OpenFileAction::SwitchToTab,
        !already_opened ==> spec_open_file_action(
            FileType::RnoteFile,
            true,
            already_opened,
            rnote_file_new_tab,
        ) == (if rnote_file_new_tab {
            OpenFileAction::LoadInNewTab
        } else {
            OpenFileAction::LoadInActiveTab
        }),
{
}

/// Undo sits on Ctrl+Z and redo on Ctrl+Shift+Z, save on Ctrl+S and save-as
/// on Ctrl+Shift+S, copy on Ctrl+C and paste on Ctrl+V, in every profile.
pub proof fn lemma_window_accels_bindings(devel: bool)
    ensures
        spec_window_accels(devel).contains(("win.undo"@, seq!["<Ctrl>z"@])),
        spec_window_accels(devel).contains(("win.redo"@, seq!["<Ctrl><Shift>z"@])),
        spec_window_accels(devel).contains(("win.save-doc"@, seq!["<Ctrl>s"@])),
        spec_window_accels(devel).contains(("win.save-doc-as"@, seq!["<Ctrl><Shift>s"@])),
        spec_window_accels(devel).contains(("win.clipboard-copy-selection"@, seq!["<Ctrl>c"@])),
        spec_window_accels(devel).contains(("win.clipboard-paste"@, seq!["<Ctrl>v"@])),
{
    let a = spec_window_accels(devel);
    assert(a[12] == ("win.undo"@, seq!["<Ctrl>z"@]));
    assert(a[13] == ("win.redo"@, seq!["<Ctrl><Shift>z"@]));
    assert(a[7] == ("win.save-doc"@, seq!["<Ctrl>s"@]));
    assert(a[8] == ("win.save-doc-as"@, seq!["<Ctrl><Shift>s"@]));
    assert(a[20] == ("win.clipboard-copy-selection"@, seq!["<Ctrl>c"@]));
    assert(a[21] == ("win.clipboard-paste"@, seq!["<Ctrl>v"@]));
}

} // verus!
