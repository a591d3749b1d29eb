use rnote_ui::icons::{workspacelistentry_icons_list_to_display_name, picked_at, selection_for, workspace_icons, INVALID_LIST_POSITION};

#[test]
fn workspace_icon_list() {
    let icons = workspace_icons();
    assert_eq!(icons.len(), 51);
    assert_eq!(icons[0], "workspacelistentryicon-bandaid-symbolic");
    assert_eq!(icons[50], "workspacelistentryicon-weight-symbolic");
    assert!(icons.contains(&"workspacelistentryicon-folder-symbolic"));
}

#[test]
fn every_workspace_icon_has_a_label() {
    for icon in workspace_icons() {
        let label = workspacelistentry_icons_list_to_display_name(icon);
        assert!(!label.msgid.is_empty(), "{icon} has no label");
    }
}

#[test]
fn icon_labels_exact() {
    let l = workspacelistentry_icons_list_to_display_name("workspacelistentryicon-math-symbolic");
    assert_eq!(l.context, None);
    assert_eq!(l.msgid, "Mathematics");
    let l = workspacelistentry_icons_list_to_display_name("workspacelistentryicon-chip-symbolic");
    assert_eq!(l.context, Some("as in computer chip"));
    assert_eq!(l.msgid, "Chip");
    let l = workspacelistentry_icons_list_to_display_name("workspacelistentryicon-crop-symbolic");
    assert_eq!(l.context, Some("as in plant"));
    assert_eq!(l.msgid, "Crop");
    let l = workspacelistentry_icons_list_to_display_name("workspacelistentryicon-terminal-symbolic");
    assert_eq!(l.context, Some("as in terminal software"));
    let l = workspacelistentry_icons_list_to_display_name("workspacelistentryicon-pencilandpaper-symbolic");
    assert_eq!(l.msgid, "Pencil and Paper");
    let l = workspacelistentry_icons_list_to_display_name("workspacelistentryicon-weight-symbolic");
    assert_eq!((l.context, l.msgid), (None, "Weight"));
    let l = workspacelistentry_icons_list_to_display_name("workspacelistentryicon-weather-symbolic");
    assert_eq!((l.context, l.msgid), (None, "Weather"));
}

fn list() -> Vec<String> {
    vec![String::from("a"), String::from("b"), String::from("a"), String::from("c")]
}

#[test]
fn invalid_position_is_max() {
    assert_eq!(INVALID_LIST_POSITION, u32::MAX);
}

#[test]
fn picked_at_positions() {
    assert_eq!(picked_at(&list(), 1), Some(String::from("b")));
    assert_eq!(picked_at(&list(), 3), Some(String::from("c")));
    assert_eq!(picked_at(&list(), 4), None);
    assert_eq!(picked_at(&list(), INVALID_LIST_POSITION), None);
}

#[test]
fn selection_for_first_position() {
    assert_eq!(selection_for(&list(), Some("a")), 0);
    assert_eq!(selection_for(&list(), Some("c")), 3);
    assert_eq!(selection_for(&list(), Some("z")), INVALID_LIST_POSITION);
    assert_eq!(selection_for(&list(), None), INVALID_LIST_POSITION);
}

#[test]
fn pick_round_trip() {
    let l = list();
    for name in ["a", "b", "c"] {
        let pos = selection_for(&l, Some(name));
        assert_eq!(picked_at(&l, pos), Some(String::from(name)));
    }
    let pos = selection_for(&l, Some("q"));
    assert_eq!(picked_at(&l, pos), None);
}

#[test]
fn workspace_icon_labels_are_distinct() {
    let labels: Vec<&str> = workspace_icons()
        .into_iter()
        .map(|icon| workspacelistentry_icons_list_to_display_name(icon).msgid)
        .collect();
    assert_eq!(labels.len(), 51);
    for (i, a) in labels.iter().enumerate() {
        assert!(!a.is_empty());
        for b in &labels[i + 1..] {
            assert_ne!(a, b);
        }
    }
}
