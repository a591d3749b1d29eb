use rnote_ui::closing::{
    rows_for_tabs, FreeNameSearch,
    clear_doc_response, close_tab_response, close_window_response, guarded_action_request,
    guarded_action_response, parse_response, proceed_after_save, rows_to_save, save_folder, save_row,
    CloseTabStep, CloseWindowStep, DialogResponse, GuardedStep, WindowSaveNaming,
};
use rnote_ui::window::{file_name_search_step, save_file_name_string};

#[test]
fn responses() {
    assert_eq!(parse_response("discard"), DialogResponse::Discard);
    assert_eq!(parse_response("save"), DialogResponse::Save);
    assert_eq!(parse_response("clear"), DialogResponse::Clear);
    assert_eq!(parse_response("cancel"), DialogResponse::Cancel);
    assert_eq!(parse_response("close"), DialogResponse::Cancel);
    assert_eq!(parse_response(""), DialogResponse::Cancel);
}

#[test]
fn guarded_action_flow() {
    assert_eq!(guarded_action_request(false), GuardedStep::Proceed);
    assert_eq!(guarded_action_request(true), GuardedStep::Ask);
    assert_eq!(guarded_action_response(DialogResponse::Discard, true), GuardedStep::Proceed);
    assert_eq!(guarded_action_response(DialogResponse::Save, true), GuardedStep::SaveThenProceed);
    assert_eq!(guarded_action_response(DialogResponse::Save, false), GuardedStep::SaveAs);
    assert_eq!(guarded_action_response(DialogResponse::Cancel, true), GuardedStep::Nothing);
    assert!(proceed_after_save(false));
    assert!(!proceed_after_save(true));
}

#[test]
fn clear_flow() {
    assert!(clear_doc_response(DialogResponse::Clear));
    assert!(!clear_doc_response(DialogResponse::Cancel));
    assert!(!clear_doc_response(DialogResponse::Discard));
}

#[test]
fn close_tab_flow() {
    assert_eq!(close_tab_response(DialogResponse::Discard), CloseTabStep::Close);
    assert_eq!(close_tab_response(DialogResponse::Save), CloseTabStep::SaveThenClose);
    assert_eq!(close_tab_response(DialogResponse::Cancel), CloseTabStep::KeepOpen);
}

#[test]
fn close_window_flow() {
    assert_eq!(close_window_response(DialogResponse::Discard), CloseWindowStep::Close);
    assert_eq!(close_window_response(DialogResponse::Save), CloseWindowStep::SaveCheckedThenClose);
    assert_eq!(close_window_response(DialogResponse::Cancel), CloseWindowStep::Cancel);
}

#[test]
fn save_folders() {
    assert_eq!(
        save_folder(Some(String::from("/docs")), Some(String::from("/ws"))),
        Some(String::from("/docs"))
    );
    assert_eq!(save_folder(None, Some(String::from("/ws"))), Some(String::from("/ws")));
    assert_eq!(save_folder(None, None), None);
}

#[test]
fn save_rows() {
    let r = save_row("Notes", 0, Some(String::from("/docs")), false);
    assert_eq!(r.file_name, "Notes.rnote");
    assert!(r.checked && r.row_sensitive && r.check_sensitive);
    let r = save_row("Notes", 2, None, true);
    assert_eq!(r.file_name, "Notes - 2.rnote");
    assert_eq!(r.folder, None);
    assert!(!r.checked && !r.row_sensitive && !r.check_sensitive);
}

#[test]
fn rows_to_save_picks_checked_with_folder() {
    let checked = vec![true, false, true, true];
    let has_folder = vec![true, true, false, true];
    assert_eq!(rows_to_save(&checked, &has_folder), vec![0, 3]);
    assert_eq!(rows_to_save(&vec![], &vec![]), Vec::<usize>::new());
}

/// Runs the name search of one document against the names that exist.
fn search(existing: &[String], title: &str, start: u64) -> u64 {
    let mut postfix = start;
    loop {
        let exists = existing.contains(&save_file_name_string(title, postfix));
        match file_name_search_step(postfix, exists) {
            Some(next) => postfix = next,
            None => return postfix,
        }
    }
}

#[test]
fn window_naming_gives_distinct_names() {
    let existing = vec![String::from("Notes.rnote"), String::from("Notes - 2.rnote")];
    let mut naming = WindowSaveNaming::new();
    let mut names = Vec::new();
    for _ in 0..3 {
        let found = search(&existing, "Notes", naming.next_postfix);
        let p = naming.take(found);
        names.push(save_file_name_string("Notes", p));
    }
    assert_eq!(names, vec!["Notes - 1.rnote", "Notes - 3.rnote", "Notes - 4.rnote"]);
}

#[test]
fn window_naming_starts_plain() {
    let mut naming = WindowSaveNaming::new();
    let found = search(&[], "Draft", naming.next_postfix);
    assert_eq!(naming.take(found), 0);
    assert_eq!(naming.next_postfix, 1);
    let found = search(&[], "Other", naming.next_postfix);
    assert_eq!(save_file_name_string("Other", naming.take(found)), "Other - 1.rnote");
}

use rnote_ui::document::{DocumentState, SaveStart};

#[test]
fn tab_closes_only_after_successful_write() {
    for write_ok in [true, false] {
        let mut d: DocumentState<&str> = DocumentState::new();
        d.loaded(Some("a.rnote"));
        d.mark_modified();
        assert_eq!(d.save_start(true, true), SaveStart::Proceed);
        d.save_commit("a.rnote", true);
        d.save_finish(write_ok);
        assert_eq!(proceed_after_save(d.unsaved_changes), write_ok);
    }
}

/// Runs a search against the names that exist.
fn run_search(existing: &[String], title: &str, start: u64) -> u64 {
    let mut search = FreeNameSearch::new(start);
    loop {
        if let Some(found) = search.found() {
            return found;
        }
        let exists = existing.contains(&search.candidate_name(title));
        search.answer(exists);
    }
}

#[test]
fn close_tab_takes_least_free_postfix() {
    let existing = vec![
        String::from("Notes.rnote"),
        String::from("Notes - 1.rnote"),
        String::from("Notes - 3.rnote"),
    ];
    assert_eq!(run_search(&existing, "Notes", 0), 2);
    assert_eq!(run_search(&existing, "Other", 0), 0);
    assert_eq!(run_search(&existing, "Notes", 3), 4);
    let mut search = FreeNameSearch::new(0);
    assert_eq!(search.candidate_name("Notes"), "Notes.rnote");
    search.answer(true);
    assert_eq!(search.candidate(), 1);
    assert_eq!(search.candidate_name("Notes"), "Notes - 1.rnote");
    search.answer(false);
    assert_eq!(search.found(), Some(1));
}

#[test]
fn close_window_rows_are_tabs_with_unsaved_changes() {
    assert_eq!(rows_for_tabs(&vec![true, false, true, true, false]), vec![0, 2, 3]);
    assert_eq!(rows_for_tabs(&vec![false, false]), Vec::<usize>::new());
    assert_eq!(rows_for_tabs(&vec![]), Vec::<usize>::new());
}
