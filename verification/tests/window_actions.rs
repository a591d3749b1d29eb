use rnote_ui::window::{
    app_accels, doc_folderpath_display, doc_title_display, file_name_search_step,
    handle_widget_flags, is_devel_profile, load_plan, open_file_action, paste_source,
    postfixed_title_string, save_file_name_string, toggle_devel_mode, window_accels,
    window_title, DevelModeToggle, DisplayText, FileType, FlagEffects, LoadPlan, Loader,
    OpenFileAction, PasteSource, WidgetFlags,
};

#[test]
fn open_rnote_files() {
    assert_eq!(open_file_action(FileType::RnoteFile, true, true, true), OpenFileAction::SwitchToTab);
    assert_eq!(open_file_action(FileType::RnoteFile, true, false, true), OpenFileAction::LoadInNewTab);
    assert_eq!(open_file_action(FileType::RnoteFile, true, false, false), OpenFileAction::LoadInActiveTab);
    assert_eq!(open_file_action(FileType::RnoteFile, false, false, true), OpenFileAction::NoPath);
}

#[test]
fn open_other_files() {
    assert_eq!(open_file_action(FileType::VectorImageFile, true, false, true), OpenFileAction::LoadInActiveTab);
    assert_eq!(open_file_action(FileType::BitmapImageFile, false, false, false), OpenFileAction::LoadInActiveTab);
    assert_eq!(open_file_action(FileType::XoppFile, true, false, false), OpenFileAction::ImportXoppInNewTab);
    assert_eq!(open_file_action(FileType::PdfFile, true, false, false), OpenFileAction::ImportPdf);
    assert_eq!(open_file_action(FileType::Folder, true, false, false), OpenFileAction::SelectWorkspaceDir);
    assert_eq!(open_file_action(FileType::Folder, false, false, false), OpenFileAction::NoPath);
    assert_eq!(open_file_action(FileType::Unsupported, true, false, false), OpenFileAction::Unsupported);
}

fn plan(t: FileType) -> (Option<Loader>, &'static str) {
    match load_plan(t) {
        LoadPlan::Load { loader, failure_msgid } => (Some(loader), failure_msgid),
        LoadPlan::Refuse { msgid } => (None, msgid),
    }
}

#[test]
fn load_plans() {
    assert_eq!(plan(FileType::RnoteFile), (Some(Loader::Rnote), "Opening .rnote file failed."));
    assert_eq!(plan(FileType::PdfFile), (Some(Loader::Pdf), "Opening PDF file failed."));
    assert_eq!(plan(FileType::XoppFile), (Some(Loader::Xopp), "Opening Xournal++ file failed."));
    assert_eq!(plan(FileType::Folder), (None, "Error: Tried opening folder as file"));
    assert_eq!(plan(FileType::Unsupported), (None, "Failed to open file: Unsupported file type."));
}

#[test]
fn opened_files_have_loaders() {
    let types = [
        FileType::RnoteFile,
        FileType::VectorImageFile,
        FileType::BitmapImageFile,
        FileType::XoppFile,
        FileType::PdfFile,
        FileType::Folder,
        FileType::Unsupported,
    ];
    for t in types {
        for flags in [(true, false, true), (true, false, false), (false, true, true)] {
            let a = open_file_action(t, flags.0, flags.1, flags.2);
            if a == OpenFileAction::LoadInNewTab || a == OpenFileAction::LoadInActiveTab {
                assert!(plan(t).0.is_some());
            }
        }
    }
}

#[test]
fn save_file_names() {
    assert_eq!(postfixed_title_string("Notes", 0), "Notes");
    assert_eq!(postfixed_title_string("Notes", 3), "Notes - 3");
    assert_eq!(save_file_name_string("Notes", 0), "Notes.rnote");
    assert_eq!(save_file_name_string("Notes", 12), "Notes - 12.rnote");
}

#[test]
fn file_name_search() {
    assert_eq!(file_name_search_step(0, true), Some(1));
    assert_eq!(file_name_search_step(4, false), None);
}

#[test]
fn window_titles() {
    assert_eq!(window_title("Notes", "Rnote"), "Notes - Rnote");
}

fn text(t: DisplayText) -> Result<String, &'static str> {
    match t {
        DisplayText::Text(s) => Ok(s),
        DisplayText::Message(m) => Err(m),
    }
}

#[test]
fn doc_titles_and_folders() {
    assert_eq!(text(doc_title_display(None)), Err("New Document"));
    assert_eq!(text(doc_title_display(Some(None))), Err("- invalid file name -"));
    assert_eq!(text(doc_title_display(Some(Some(String::from("Notes"))))), Ok(String::from("Notes")));
    assert_eq!(text(doc_folderpath_display(None)), Err("Draft"));
    assert_eq!(text(doc_folderpath_display(Some(None))), Err("- invalid folder path -"));
    assert_eq!(
        text(doc_folderpath_display(Some(Some(String::from("/home/u"))))),
        Ok(String::from("/home/u"))
    );
}

#[test]
fn widget_flag_effects() {
    let f = WidgetFlags {
        redraw: true,
        resize: false,
        refresh_ui: true,
        store_modified: true,
        update_view: false,
        hide_undo: Some(true),
        hide_redo: Some(false),
        enable_text_preprocessing: None,
    };
    assert_eq!(
        handle_widget_flags(f),
        FlagEffects {
            queue_draw: true,
            queue_resize: false,
            refresh_ui: true,
            mark_modified: true,
            update_camera_offset: false,
            undo_sensitive: Some(false),
            redo_sensitive: Some(true),
            text_preprocessing: None,
        }
    );
}

fn formats(v: &[&str]) -> Vec<String> {
    v.iter().map(|s| String::from(*s)).collect()
}

#[test]
fn paste_sources() {
    assert_eq!(paste_source(&formats(&["image/png", "image/svg+xml"])), PasteSource::Svg);
    assert_eq!(paste_source(&formats(&["image/png", "text/uri-list"])), PasteSource::UriList);
    assert_eq!(paste_source(&formats(&["text/plain", "image/png"])), PasteSource::Png);
    assert_eq!(paste_source(&formats(&["text/plain"])), PasteSource::Unsupported);
    assert_eq!(paste_source(&formats(&[])), PasteSource::Unsupported);
}

#[test]
fn devel_mode_toggle() {
    assert_eq!(
        toggle_devel_mode(false),
        DevelModeToggle { devel_mode: true, devel_menu_enabled: true, disable_visual_debug: false }
    );
    assert_eq!(
        toggle_devel_mode(true),
        DevelModeToggle { devel_mode: false, devel_menu_enabled: false, disable_visual_debug: true }
    );
}

#[test]
fn devel_profile_ignores_case() {
    assert!(is_devel_profile("devel"));
    assert!(is_devel_profile("Devel"));
    assert!(is_devel_profile("DEVEL"));
    assert!(!is_devel_profile("default"));
    assert!(!is_devel_profile("devel "));
}

#[test]
fn accelerators() {
    let w = window_accels(false);
    assert_eq!(w.len(), 22);
    assert_eq!(w[0].action, "win.close-active");
    assert_eq!(w[0].accels, vec!["<Ctrl>w"]);
    assert!(w.iter().any(|a| a.action == "win.save-doc-as" && a.accels == vec!["<Ctrl><Shift>s"]));
    assert!(!w.iter().any(|a| a.action == "win.visual-debug"));
    let d = window_accels(true);
    assert_eq!(d.len(), 23);
    assert_eq!(d[22].action, "win.visual-debug");
    assert_eq!(d[22].accels, vec!["<Ctrl><Shift>v"]);
    let a = app_accels();
    assert_eq!(a.len(), 1);
    assert_eq!(a[0].action, "app.quit");
    assert_eq!(a[0].accels, vec!["<Ctrl>q"]);
}
