use rnote_ui::export::{
    doc_export_filter, doc_pages_bitmap_options, doc_pages_export_filter, engine_json_filter,
    export_messages, export_response, save_doc_filter, selection_bitmap_options,
    selection_export_filter, suggested_file_name, BitmapOptions, DocExportFormat,
    DocPagesExportFormat, ExportDialogKind, ExportDialogState, ExportResponse,
    SelectionExportFormat,
};

#[test]
fn doc_export_filters() {
    let f = doc_export_filter(DocExportFormat::Svg);
    assert_eq!(f.name, "Svg");
    assert_eq!(f.mime_types, vec!["image/svg+xml"]);
    assert_eq!(f.suffixes, vec!["svg"]);
    let f = doc_export_filter(DocExportFormat::Pdf);
    assert_eq!(f.name, "Pdf");
    assert_eq!(f.mime_types, vec!["application/pdf"]);
    assert_eq!(f.suffixes, vec!["pdf"]);
    let f = doc_export_filter(DocExportFormat::Xopp);
    assert_eq!(f.name, "Xopp");
    assert_eq!(f.mime_types, vec!["application/x-xopp"]);
    assert_eq!(f.suffixes, vec!["xopp"]);
}

#[test]
fn selection_export_filters() {
    let f = selection_export_filter(SelectionExportFormat::Png);
    assert_eq!(f.name, "Png");
    assert_eq!(f.mime_types, vec!["image/png"]);
    assert_eq!(f.suffixes, vec!["png"]);
    let f = selection_export_filter(SelectionExportFormat::Jpeg);
    assert_eq!(f.name, "Jpeg");
    assert_eq!(f.mime_types, vec!["image/jpeg"]);
    assert_eq!(f.suffixes, vec!["jpg", "jpeg"]);
    let f = selection_export_filter(SelectionExportFormat::Svg);
    assert_eq!(f.suffixes, vec!["svg"]);
}

#[test]
fn pages_filters_accept_directories() {
    for (pages, selection) in [
        (DocPagesExportFormat::Svg, SelectionExportFormat::Svg),
        (DocPagesExportFormat::Png, SelectionExportFormat::Png),
        (DocPagesExportFormat::Jpeg, SelectionExportFormat::Jpeg),
    ] {
        let p = doc_pages_export_filter(pages);
        let s = selection_export_filter(selection);
        assert_eq!(p.mime_types[0], "inode/directory");
        assert_eq!(p.mime_types[1..], s.mime_types[..]);
        assert_eq!(p.suffixes, s.suffixes);
        assert_eq!(p.name, s.name);
    }
}

#[test]
fn json_and_rnote_filters() {
    let f = engine_json_filter();
    assert_eq!((f.name, f.mime_types, f.suffixes), ("JSON", vec!["application/json"], vec!["json"]));
    let f = save_doc_filter();
    assert_eq!(
        (f.name, f.mime_types, f.suffixes),
        (".rnote file", vec!["application/rnote"], vec!["rnote"])
    );
}

#[test]
fn bitmap_options_per_format() {
    assert_eq!(
        doc_pages_bitmap_options(DocPagesExportFormat::Svg),
        BitmapOptions { scalefactor_sensitive: false, jpeg_quality_sensitive: false }
    );
    assert_eq!(
        doc_pages_bitmap_options(DocPagesExportFormat::Png),
        BitmapOptions { scalefactor_sensitive: true, jpeg_quality_sensitive: false }
    );
    assert_eq!(
        doc_pages_bitmap_options(DocPagesExportFormat::Jpeg),
        BitmapOptions { scalefactor_sensitive: true, jpeg_quality_sensitive: true }
    );
    assert_eq!(
        selection_bitmap_options(SelectionExportFormat::Svg),
        BitmapOptions { scalefactor_sensitive: false, jpeg_quality_sensitive: false }
    );
    assert_eq!(
        selection_bitmap_options(SelectionExportFormat::Jpeg),
        BitmapOptions { scalefactor_sensitive: true, jpeg_quality_sensitive: true }
    );
}

#[test]
fn file_dialog_opens_with_chooser_file() {
    let s = ExportDialogState::new(ExportDialogKind::Doc, Some(String::from("/tmp/a.pdf")));
    assert_eq!(s.target, Some(String::from("/tmp/a.pdf")));
    assert!(s.confirm_sensitive);
    let s = ExportDialogState::new(ExportDialogKind::Selection, None);
    assert_eq!(s.target, None);
    assert!(!s.confirm_sensitive);
}

#[test]
fn pages_dialog_opens_without_directory() {
    let s = ExportDialogState::new(ExportDialogKind::DocPages, Some(String::from("/tmp")));
    assert_eq!(s.target, None);
    assert!(!s.confirm_sensitive);
}

#[test]
fn chooser_response_updates_target() {
    let mut s = ExportDialogState::new(ExportDialogKind::Doc, None);
    s.chooser_response(true, Some(String::from("/tmp/b.svg")));
    assert_eq!(s.target, Some(String::from("/tmp/b.svg")));
    assert!(s.confirm_sensitive);
    // a cancelled chooser changes nothing
    s.chooser_response(false, None);
    assert_eq!(s.target, Some(String::from("/tmp/b.svg")));
    assert!(s.confirm_sensitive);
    // an accepted chooser without a path drops the target
    s.chooser_response(true, None);
    assert_eq!(s.target, None);
    assert!(!s.confirm_sensitive);
}

#[test]
fn format_change_drops_file_target() {
    let mut s = ExportDialogState::new(ExportDialogKind::Selection, Some(String::from("/x.png")));
    s.format_changed();
    assert_eq!(s.target, None);
    assert!(!s.confirm_sensitive);
    let mut p = ExportDialogState::new(ExportDialogKind::DocPages, None);
    p.chooser_response(true, Some(String::from("/dir")));
    p.format_changed();
    assert_eq!(p.target, Some(String::from("/dir")));
    assert!(p.confirm_sensitive);
}

#[test]
fn stem_name_controls_pages_confirm() {
    let mut p = ExportDialogState::new(ExportDialogKind::DocPages, None);
    p.stem_name_changed("page");
    assert!(p.confirm_sensitive);
    p.stem_name_changed("");
    assert!(!p.confirm_sensitive);
    let mut d = ExportDialogState::new(ExportDialogKind::Doc, None);
    d.stem_name_changed("page");
    assert!(!d.confirm_sensitive);
}

#[test]
fn export_responses() {
    assert_eq!(export_response(true, true), ExportResponse::Export);
    assert_eq!(export_response(true, false), ExportResponse::NoTarget);
    assert_eq!(export_response(false, true), ExportResponse::Close);
    assert_eq!(export_response(false, false), ExportResponse::Close);
}

#[test]
fn export_message_texts() {
    let m = export_messages(ExportDialogKind::Doc);
    assert_eq!(m.no_target_label, "- no file selected -");
    assert_eq!(m.no_target, "Export document failed, no file selected.");
    let m = export_messages(ExportDialogKind::DocPages);
    assert_eq!(m.no_target_label, "- no directory selected -");
    assert_eq!(m.succeeded, "Exported document pages successfully.");
    let m = export_messages(ExportDialogKind::Selection);
    assert_eq!(m.failed, "Export selection failed.");
}

#[test]
fn suggested_file_names() {
    assert_eq!(suggested_file_name("Notes", "pdf"), "Notes.pdf");
    assert_eq!(suggested_file_name("Notes - Selection", "svg"), "Notes - Selection.svg");
    assert_eq!(suggested_file_name("", "json"), ".json");
}
