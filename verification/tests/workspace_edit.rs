use rnote_ui::workspace::{DirChoice, WorkspaceEdit, WorkspaceEntry};

fn entry() -> WorkspaceEntry<u32> {
    WorkspaceEntry {
        name: String::from("Notes"),
        icon: String::from("workspacelistentryicon-folder-symbolic"),
        color: 0xff0000ff,
        dir: String::from("/home/u/notes"),
    }
}

#[test]
fn nothing_to_edit_without_selection() {
    assert!(WorkspaceEdit::<u32>::open(None).is_none());
}

#[test]
fn open_shows_the_selected_workspace() {
    let d = WorkspaceEdit::open(Some(entry())).unwrap();
    assert_eq!(d.preview.name, "Notes");
    assert_eq!(d.dir_label, Some(String::from("/home/u/notes")));
    assert_eq!(d.icon_button, "workspacelistentryicon-folder-symbolic");
}

#[test]
fn edits_apply_to_preview_only() {
    let mut d = WorkspaceEdit::open(Some(entry())).unwrap();
    d.name_changed("Work");
    d.color_changed(0x00ff00ff);
    d.icon_picked(Some(String::from("workspacelistentryicon-gear-symbolic")));
    d.icon_picked(None);
    assert_eq!(d.initial.name, "Notes");
    assert_eq!(d.initial.color, 0xff0000ff);
    assert_eq!(d.preview.name, "Work");
    assert_eq!(d.preview.color, 0x00ff00ff);
    assert_eq!(d.preview.icon, "workspacelistentryicon-gear-symbolic");
    assert_eq!(d.icon_button, "workspacelistentryicon-gear-symbolic");
    let stored = d.respond(true).unwrap();
    assert_eq!(stored.name, "Work");
    assert_eq!(stored.dir, "/home/u/notes");
}

#[test]
fn choosing_a_directory_renames() {
    let mut d = WorkspaceEdit::open(Some(entry())).unwrap();
    d.dir_chosen(DirChoice::Path {
        path: String::from("/home/u/projects"),
        file_name: Some(String::from("projects")),
    });
    assert_eq!(d.preview.dir, "/home/u/projects");
    assert_eq!(d.preview.name, "projects");
    assert_eq!(d.dir_label, Some(String::from("/home/u/projects")));
    d.dir_chosen(DirChoice::Path { path: String::from("/"), file_name: None });
    assert_eq!(d.preview.dir, "/");
    assert_eq!(d.preview.name, "projects");
}

#[test]
fn directory_without_path_or_dismissed() {
    let mut d = WorkspaceEdit::open(Some(entry())).unwrap();
    d.dir_chosen(DirChoice::Dismissed);
    assert_eq!(d.dir_label, Some(String::from("/home/u/notes")));
    d.dir_chosen(DirChoice::NoPath);
    assert_eq!(d.dir_label, None);
    assert_eq!(d.preview.dir, "/home/u/notes");
}

#[test]
fn cancel_stores_nothing() {
    let mut d = WorkspaceEdit::open(Some(entry())).unwrap();
    d.name_changed("Changed");
    assert!(d.respond(false).is_none());
}
