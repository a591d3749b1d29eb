//! The export dialogs: the file filters of their file choosers, which
//! options apply to a format, and the state of the target and the confirm
//! button while the user picks a format and a target.

use vstd::prelude::*;

verus! {

/// The formats a whole document exports to.
#[derive(Clone, Copy, Debug, PartialEq, Eq, Structural)]
pub enum DocExportFormat {
    Svg,
    Pdf,
    Xopp,
}

/// The formats the pages of a document export to, one file per page.
#[derive(Clone, Copy, Debug, PartialEq, Eq, Structural)]
pub enum DocPagesExportFormat {
    Svg,
    Png,
    Jpeg,
}

/// The formats a selection exports to.
#[derive(Clone, Copy, Debug, PartialEq, Eq, Structural)]
pub enum SelectionExportFormat {
    Svg,
    Png,
    Jpeg,
}

/// A file filter of a file chooser: its name (to be translated), the mime
/// types and the file name suffixes it accepts.
pub struct FileFilterSpec {
    pub name: &'static str,
    pub mime_types: Vec<&'static str>,
    pub suffixes: Vec<&'static str>,
}

/// The texts of a list of static strings.
pub open spec fn texts(v: Seq<&'static str>) -> Seq<Seq<char>> {
    v.map_values(|s: &'static str| s@)
}

/// A filter as its name, mime types and suffixes.
pub open spec fn filter_view(f: &FileFilterSpec) -> (Seq<char>, Seq<Seq<char>>, Seq<Seq<char>>) {
    (f.name@, texts(f.mime_types@), texts(f.suffixes@))
}

/// The filter for an SVG file.
pub open spec fn svg_filter() -> (Seq<char>, Seq<Seq<char>>, Seq<Seq<char>>) {
    ("Svg"@, seq!["image/svg+xml"@], seq!["svg"@])
}

/// The filter for a PNG file.
pub open spec fn png_filter() -> (Seq<char>, Seq<Seq<char>>, Seq<Seq<char>>) {
    ("Png"@, seq!["image/png"@], seq!["png"@])
}

/// The filter for a JPEG file, which takes both of its suffixes.
pub open spec fn jpeg_filter() -> (Seq<char>, Seq<Seq<char>>, Seq<Seq<char>>) {
    ("Jpeg"@, seq!["image/jpeg"@], seq!["jpg"@, "jpeg"@])
}

/// The filter of the document export's file chooser.
pub open spec fn spec_doc_export_filter(format: DocExportFormat) -> (
    Seq<char>,
    Seq<Seq<char>>,
    Seq<Seq<char>>,
) {
    match format {
        DocExportFormat::Svg => svg_filter(),
        DocExportFormat::Pdf => ("Pdf"@, seq!["application/pdf"@], seq!["pdf"@]),
        DocExportFormat::Xopp => ("Xopp"@, seq!["application/x-xopp"@], seq!["xopp"@]),
    }
}

/// The filter of the selection export's file chooser.
pub open spec fn spec_selection_export_filter(format: SelectionExportFormat) -> (
    Seq<char>,
    Seq<Seq<char>>,
    Seq<Seq<char>>,
) {
    match format {
        SelectionExportFormat::Svg => svg_filter(),
        SelectionExportFormat::Png => png_filter(),
        SelectionExportFormat::Jpeg => jpeg_filter(),
    }
}

/// The filter of the page export's chooser, which selects a directory: it
/// always accepts directories, and besides them the files of the format.
pub open spec fn spec_doc_pages_export_filter(format: DocPagesExportFormat) -> (
    Seq<char>,
    Seq<Seq<char>>,
    Seq<Seq<char>>,
) {
    let f = match format {
        DocPagesExportFormat::Svg => svg_filter(),
        DocPagesExportFormat::Png => png_filter(),
        DocPagesExportFormat::Jpeg => jpeg_filter(),
    };
    (f.0, seq!["inode/directory"@] + f.1, f.2)
}

/// The filter for the JSON files of the engine's state and configuration.
pub open spec fn json_filter() -> (Seq<char>, Seq<Seq<char>>, Seq<Seq<char>>) {
    ("JSON"@, seq!["application/json"@], seq!["json"@])
}

/// The filter for saving a document as a `.rnote` file.
pub open spec fn rnote_filter() -> (Seq<char>, Seq<Seq<char>>, Seq<Seq<char>>) {
    (".rnote file"@, seq!["application/rnote"@], seq!["rnote"@])
}

fn one(a: &'static str) -> (v: Vec<&'static str>)
    ensures
        texts(v@) == seq![a@],
{
    let mut v: Vec<&'static str> = Vec::new();
    v.push(a);
    proof {
        assert(texts(v@) =~= seq![a@]);
    }
    v
}

fn two(a: &'static str, b: &'static str) -> (v: Vec<&'static str>)
    ensures
        texts(v@) == seq![a@, b@],
{
    let mut v: Vec<&'static str> = Vec::new();
    v.push(a);
    v.push(b);
    proof {
        assert(texts(v@) =~= seq![a@, b@]);
    }
    v
}

fn filter(name: &'static str, mime_types: Vec<&'static str>, suffixes: Vec<&'static str>) -> (f:
    FileFilterSpec)
    ensures
        f.name == name,
        f.mime_types@ == mime_types@,
        f.suffixes@ == suffixes@,
{
    FileFilterSpec { name, mime_types, suffixes }
}

/// Returns the filter of the document export's file chooser.
pub fn doc_export_filter(format: DocExportFormat) -> (f: FileFilterSpec)
    ensures
        filter_view(&f) == spec_doc_export_filter(format),
{
    match format {
        DocExportFormat::Svg => filter("Svg", one("image/svg+xml"), one("svg")),
        DocExportFormat::Pdf => filter("Pdf", one("application/pdf"), one("pdf")),
        DocExportFormat::Xopp => filter("Xopp", one("application/x-xopp"), one("xopp")),
    }
}

/// Returns the filter of the selection export's file chooser.
pub fn selection_export_filter(format: SelectionExportFormat) -> (f: FileFilterSpec)
    ensures
        filter_view(&f) == spec_selection_export_filter(format),
{
    match format {
        SelectionExportFormat::Svg => filter("Svg", one("image/svg+xml"), one("svg")),
        SelectionExportFormat::Png => filter("Png", one("image/png"), one("png")),
        SelectionExportFormat::Jpeg => filter("Jpeg", one("image/jpeg"), two("jpg", "jpeg")),
    }
}

/// Returns the filter of the page export's directory chooser.
pub fn doc_pages_export_filter(format: DocPagesExportFormat) -> (f: FileFilterSpec)
    ensures
        filter_view(&f) == spec_doc_pages_export_filter(format),
{
    match format {
        DocPagesExportFormat::Svg => filter(
            "Svg",
            two("inode/directory", "image/svg+xml"),
            one("svg"),
        ),
        DocPagesExportFormat::Png => filter("Png", two("inode/directory", "image/png"), one("png")),
        DocPagesExportFormat::Jpeg => filter(
            "Jpeg",
            two("inode/directory", "image/jpeg"),
            two("jpg", "jpeg"),
        ),
    }
}

/// Returns the filter for the engine's state and configuration files.
pub fn engine_json_filter() -> (f: FileFilterSpec)
    ensures
        filter_view(&f) == json_filter(),
{
    filter("JSON", one("application/json"), one("json"))
}

/// Returns the filter for saving a document.
pub fn save_doc_filter() -> (f: FileFilterSpec)
    ensures
        filter_view(&f) == rnote_filter(),
{
    filter(".rnote file", one("application/rnote"), one("rnote"))
}

/// Which export options apply to a format: the bitmap scale factor to the
/// bitmap formats, the JPEG quality to JPEG alone.
#[derive(Clone, Copy, Debug, PartialEq, Eq, Structural)]
pub struct BitmapOptions {
    pub scalefactor_sensitive: bool,
    pub jpeg_quality_sensitive: bool,
}

/// Returns the options that apply to a page export format.
pub fn doc_pages_bitmap_options(format: DocPagesExportFormat) -> (o: BitmapOptions)
    ensures
        o.scalefactor_sensitive == (format == DocPagesExportFormat::Png || format
            == DocPagesExportFormat::Jpeg),
        o.jpeg_quality_sensitive == (format == DocPagesExportFormat::Jpeg),
{
    match format {
        DocPagesExportFormat::Svg => BitmapOptions {
            scalefactor_sensitive: false,
            jpeg_quality_sensitive: false,
        },
        DocPagesExportFormat::Png => BitmapOptions {
            scalefactor_sensitive: true,
            jpeg_quality_sensitive: false,
        },
        DocPagesExportFormat::Jpeg => BitmapOptions {
            scalefactor_sensitive: true,
            jpeg_quality_sensitive: true,
        },
    }
}

/// Returns the options that apply to a selection export format.
pub fn selection_bitmap_options(format: SelectionExportFormat) -> (o: BitmapOptions)
    ensures
        o.scalefactor_sensitive == (format == SelectionExportFormat::Png || format
            == SelectionExportFormat::Jpeg),
        o.jpeg_quality_sensitive == (format == SelectionExportFormat::Jpeg),
{
    match format {
        SelectionExportFormat::Svg => BitmapOptions {
            scalefactor_sensitive: false,
            jpeg_quality_sensitive: false,
        },
        SelectionExportFormat::Png => BitmapOptions {
            scalefactor_sensitive: true,
            jpeg_quality_sensitive: false,
        },
        SelectionExportFormat::Jpeg => BitmapOptions {
            scalefactor_sensitive: true,
            jpeg_quality_sensitive: true,
        },
    }
}

/// The three export dialogs.
#[derive(Clone, Copy, Debug, PartialEq, Eq, Structural)]
pub enum ExportDialogKind {
    Doc,
    DocPages,
    Selection,
}

/// What an export dialog shows of its target and whether it can confirm.
/// `target` is the path shown, `None` when the dialog shows that nothing is
/// selected yet.
pub struct ExportDialogState {
    pub kind: ExportDialogKind,
    pub target: Option<String>,
    pub confirm_sensitive: bool,
}

/// The dialogs that export to a file confirm exactly when a file is shown.
pub open spec fn confirm_follows_target(s: ExportDialogState) -> bool {
    s.kind != ExportDialogKind::DocPages ==> (s.confirm_sensitive <==> s.target is Some)
}

/// The state of a dialog as it opens. The file dialogs show the path of the
/// file their chooser holds, if any, and confirm only with one; the page
/// export starts with no directory and cannot confirm yet.
pub open spec fn spec_new_dialog(kind: ExportDialogKind, chooser_path: Option<String>) -> ExportDialogState {
    if kind == ExportDialogKind::DocPages {
        ExportDialogState { kind, target: None, confirm_sensitive: false }
    } else {
        ExportDialogState { kind, target: chooser_path, confirm_sensitive: chooser_path is Some }
    }
}

/// The file chooser answered. When it was accepted, the dialog shows the
/// chosen path and can confirm, or shows that nothing is selected and cannot
/// confirm when no path came back; otherwise nothing changes.
pub open spec fn spec_chooser_response(
    s: ExportDialogState,
    accepted: bool,
    path: Option<String>,
) -> ExportDialogState {
    if accepted {
        ExportDialogState { kind: s.kind, target: path, confirm_sensitive: path is Some }
    } else {
        s
    }
}

/// The export format changed. The file dialogs drop the chosen file, since
/// its suffix may not fit any more; the page export keeps its directory.
pub open spec fn spec_format_changed(s: ExportDialogState) -> ExportDialogState {
    if s.kind == ExportDialogKind::DocPages {
        s
    } else {
        ExportDialogState { kind: s.kind, target: None, confirm_sensitive: false }
    }
}

/// The stem name of the page files changed: the page export can confirm
/// exactly when the name is not empty, whether or not a directory is chosen.
/// The other dialogs have no stem name.
pub open spec fn spec_stem_name_changed(s: ExportDialogState, stem_name: Seq<char>) -> ExportDialogState {
    if s.kind == ExportDialogKind::DocPages {
        ExportDialogState { kind: s.kind, target: s.target, confirm_sensitive: stem_name.len() > 0 }
    } else {
        s
    }
}

impl ExportDialogState {
    /// Returns the state of a dialog as it opens.
    pub fn new(kind: ExportDialogKind, chooser_path: Option<String>) -> (s: Self)
        ensures
            s == spec_new_dialog(kind, chooser_path),
    {
        match kind {
            ExportDialogKind::DocPages => ExportDialogState {
                kind,
                target: None,
                confirm_sensitive: false,
            },
            _ => {
                let confirm = chooser_path.is_some();
                ExportDialogState { kind, target: chooser_path, confirm_sensitive: confirm }
            },
        }
    }

    /// Takes the answer of the file chooser.
    pub fn chooser_response(&mut self, accepted: bool, path: Option<String>)
        ensures
            *final(self) == spec_chooser_response(*old(self), accepted, path),
    {
        if accepted {
            self.confirm_sensitive = path.is_some();
            self.target = path;
        }
    }

    /// Takes a change of the export format.
    pub fn format_changed(&mut self)
        ensures
            *final(self) == spec_format_changed(*old(self)),
    {
        match self.kind {
            ExportDialogKind::DocPages => {},
            _ => {
                self.target = None;
                self.confirm_sensitive = false;
            },
        }
    }

    /// Takes a change of the page files' stem name.
    pub fn stem_name_changed(&mut self, stem_name: &str)
        ensures
            *final(self) == spec_stem_name_changed(*old(self), stem_name@),
    {
        match self.kind {
            ExportDialogKind::DocPages => {
                self.confirm_sensitive = !stem_name.is_empty();
            },
            _ => {},
        }
    }
}

/// What the dialog does when it closes.
#[derive(Clone, Copy, Debug, PartialEq, Eq, Structural)]
pub enum ExportResponse {
    /// Export to the chosen target.
    Export,
    /// Tell the user that the export failed because no target was chosen.
    NoTarget,
    /// Close without exporting.
    Close,
}

/// The dialog closed: with the apply response it exports when its chooser
/// holds a target and reports the missing target otherwise; any other
/// response closes it without exporting.
pub fn export_response(apply: bool, has_target: bool) -> (r: ExportResponse)
    ensures
        r == (if !apply {
            ExportResponse::Close
        } else if has_target {
            ExportResponse::Export
        } else {
            ExportResponse::NoTarget
        }),
{
    if !apply {
        ExportResponse::Close
    } else if has_target {
        ExportResponse::Export
    } else {
        ExportResponse::NoTarget
    }
}

/// The messages of an export dialog (to be translated): what its label
/// shows while no target is chosen, and the toasts after an export.
pub struct ExportMessages {
    pub no_target_label: &'static str,
    pub succeeded: &'static str,
    pub failed: &'static str,
    pub no_target: &'static str,
}

/// The messages of each dialog.
pub open spec fn spec_export_messages(kind: ExportDialogKind) -> (
    Seq<char>,
    Seq<char>,
    Seq<char>,
    Seq<char>,
) {
    match kind {
        ExportDialogKind::Doc => (
            "- no file selected -"@,
            "Exported document successfully."@,
            "Export document failed."@,
            "Export document failed, no file selected."@,
        ),
        ExportDialogKind::DocPages => (
            "- no directory selected -"@,
            "Exported document pages successfully."@,
            "Export document pages failed."@,
            "Export document pages failed, no directory selected."@,
        ),
        ExportDialogKind::Selection => (
            "- no file selected -"@,
            "Exported selection successfully."@,
            "Export selection failed."@,
            "Export selection failed, no file selected."@,
        ),
    }
}

/// Returns the messages of a dialog.
pub fn export_messages(kind: ExportDialogKind) -> (m: ExportMessages)
    ensures
        (m.no_target_label@, m.succeeded@, m.failed@, m.no_target@) == spec_export_messages(kind),
{
    match kind {
        ExportDialogKind::Doc => ExportMessages {
            no_target_label: "- no file selected -",
            succeeded: "Exported document successfully.",
            failed: "Export document failed.",
            no_target: "Export document failed, no file selected.",
        },
        ExportDialogKind::DocPages => ExportMessages {
            no_target_label: "- no directory selected -",
            succeeded: "Exported document pages successfully.",
            failed: "Export document pages failed.",
            no_target: "Export document pages failed, no directory selected.",
        },
        ExportDialogKind::Selection => ExportMessages {
            no_target_label: "- no file selected -",
            succeeded: "Exported selection successfully.",
            failed: "Export selection failed.",
            no_target: "Export selection failed, no file selected.",
        },
    }
}

/// The file name a chooser suggests: the title, a dot and the extension.
pub open spec fn suggested_name(title: Seq<char>, ext: Seq<char>) -> Seq<char> {
    title + seq!['.'] + ext
}

/// Returns the file name a chooser suggests for a title and an extension.
pub fn suggested_file_name(title: &str, ext: &str) -> (s: String)
    ensures
        s@ == suggested_name(title@, ext@),
{
    let mut s = title.to_owned();
    s.append(".");
    proof {
        reveal_strlit(".");
    }
    s.append(ext);
    s
}

/// The dialogs that export to a file keep their confirm button in step with
/// the file they show: it holds when they open and after every event.
pub proof fn lemma_confirm_follows_target(
    s: ExportDialogState,
    kind: ExportDialogKind,
    chooser_path: Option<String>,
    accepted: bool,
    path: Option<String>,
    stem_name: Seq<char>,
)
    requires
        confirm_follows_target(s),
    ensures
        confirm_follows_target(spec_new_dialog(kind, chooser_path)),
        confirm_follows_target(spec_chooser_response(s, accepted, path)),
        confirm_follows_target(spec_format_changed(s)),
        confirm_follows_target(spec_stem_name_changed(s, stem_name)),
{
}

/// After a change of format, a file dialog cannot export until the user
/// accepts a file again.
pub proof fn lemma_format_change_needs_new_target(s: ExportDialogState)
    requires
        s.kind != ExportDialogKind::DocPages,
    ensures
        !spec_format_changed(s).confirm_sensitive,
        spec_format_changed(s).target is None,
{
}

/// The page export's chooser accepts directories and, besides them, just
/// what the selection export's chooser accepts for the same format.
pub proof fn lemma_pages_filter_extends_selection_filter(format: DocPagesExportFormat)
    ensures
        spec_doc_pages_export_filter(format).1[0] == "inode/directory"@,
        spec_doc_pages_export_filter(format).1.drop_first() == spec_selection_export_filter(
            match format {
                DocPagesExportFormat::Svg => SelectionExportFormat::Svg,
                DocPagesExportFormat::Png => SelectionExportFormat::Png,
                DocPagesExportFormat::Jpeg => SelectionExportFormat::Jpeg,
            },
        ).1,
        spec_doc_pages_export_filter(format).2 == spec_selection_export_filter(
            match format {
                DocPagesExportFormat::Svg => SelectionExportFormat::Svg,
                DocPagesExportFormat::Png => SelectionExportFormat::Png,
                DocPagesExportFormat::Jpeg => SelectionExportFormat::Jpeg,
            },
        ).2,
{
    let f = spec_doc_pages_export_filter(format);
    assert(f.1.drop_first() =~= spec_selection_export_filter(
        match format {
            DocPagesExportFormat::Svg => SelectionExportFormat::Svg,
            DocPagesExportFormat::Png => SelectionExportFormat::Png,
            DocPagesExportFormat::Jpeg => SelectionExportFormat::Jpeg,
        },
    ).1);
}

} // verus!
