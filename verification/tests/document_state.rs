use rnote_ui::document::{
    close_request, tabs_any_unsaved_changes, CloseRequest, DocumentState, MonitorEvent,
    MonitorReaction, SaveStart,
};

fn doc() -> DocumentState<&'static str> {
    DocumentState::new()
}

#[test]
fn new_document_state() {
    let d = doc();
    assert_eq!(d.output_file, None);
    assert!(!d.unsaved_changes);
    assert!(d.empty);
    assert!(!d.expect_write);
    assert!(!d.save_in_progress);
}

#[test]
fn emptying_drops_unsaved_changes() {
    let mut d = doc();
    d.mark_modified();
    assert!(d.unsaved_changes);
    assert!(!d.empty);
    d.set_empty(true);
    assert!(d.empty);
    assert!(!d.unsaved_changes);
}

#[test]
fn clear_leaves_empty_and_saved() {
    let mut d = doc();
    d.set_output_file(Some("a.rnote"));
    d.mark_modified();
    d.clear();
    assert!(d.empty);
    assert!(!d.unsaved_changes);
    assert_eq!(d.output_file, Some("a.rnote"));
}

#[test]
fn new_document_drops_file() {
    let mut d = doc();
    d.loaded(Some("a.rnote"));
    d.mark_modified();
    d.new_document();
    assert!(d.empty);
    assert!(!d.unsaved_changes);
    assert_eq!(d.output_file, None);
}

#[test]
fn loading_sets_output_file() {
    let mut d = doc();
    d.loaded(Some("a.rnote"));
    assert_eq!(d.output_file, Some("a.rnote"));
    assert!(!d.empty);
    assert!(!d.unsaved_changes);
    d.loaded(None);
    assert_eq!(d.output_file, Some("a.rnote"));
}

#[test]
fn save_cycle_to_new_file() {
    let mut d = doc();
    d.mark_modified();
    assert_eq!(d.save_start(true, true), SaveStart::Proceed);
    assert!(d.save_in_progress);
    d.save_commit("b.rnote", false);
    assert_eq!(d.output_file, Some("b.rnote"));
    assert!(d.expect_write);
    assert!(d.save_finish(true));
    assert!(!d.unsaved_changes);
    assert!(!d.save_in_progress);
    // the write of our own save is swallowed by the monitor
    assert_eq!(d.handle_monitor_event(MonitorEvent::Changed), MonitorReaction::Nothing);
    assert!(!d.expect_write);
    assert!(!d.unsaved_changes);
}

#[test]
fn save_to_same_file_keeps_output_file() {
    let mut d = doc();
    d.set_output_file(Some("a.rnote"));
    assert_eq!(d.save_start(true, true), SaveStart::Proceed);
    d.save_commit("a-again.rnote", true);
    assert_eq!(d.output_file, Some("a.rnote"));
}

#[test]
fn concurrent_save_is_skipped() {
    let mut d = doc();
    assert_eq!(d.save_start(true, true), SaveStart::Proceed);
    assert_eq!(d.save_start(true, true), SaveStart::Skipped);
    assert!(d.save_in_progress);
}

#[test]
fn save_without_path_or_name_fails() {
    let mut d = doc();
    assert_eq!(d.save_start(false, true), SaveStart::Failed);
    assert_eq!(d.save_start(true, false), SaveStart::Failed);
    assert!(!d.save_in_progress);
}

#[test]
fn serialize_failure_ends_save() {
    let mut d = doc();
    d.save_start(true, true);
    d.save_serialize_failed();
    assert!(!d.save_in_progress);
}

#[test]
fn failed_write_keeps_monitor_reporting() {
    let mut d = doc();
    d.set_output_file(Some("a.rnote"));
    d.mark_modified();
    d.save_start(true, true);
    d.save_commit("a.rnote", true);
    assert!(!d.save_finish(false));
    assert!(!d.expect_write);
    assert!(d.unsaved_changes);
    assert_eq!(
        d.handle_monitor_event(MonitorEvent::Changed),
        MonitorReaction::ToastReloadModified
    );
}

#[test]
fn external_change_offers_reload() {
    let mut d = doc();
    d.set_output_file(Some("a.rnote"));
    assert_eq!(
        d.handle_monitor_event(MonitorEvent::Changed),
        MonitorReaction::ToastReloadModified
    );
    assert!(d.unsaved_changes);
}

#[test]
fn replacement_through_goutputstream_offers_reload() {
    let mut d = doc();
    d.set_output_file(Some("a.rnote"));
    let r = d.handle_monitor_event(MonitorEvent::Renamed {
        goutputstream: true,
        other_file: Some("a.rnote"),
    });
    assert_eq!(r, MonitorReaction::ToastReloadModified);
    assert!(d.unsaved_changes);
    assert_eq!(d.output_file, Some("a.rnote"));
}

#[test]
fn rename_follows_the_file() {
    let mut d = doc();
    d.set_output_file(Some("a.rnote"));
    let r = d.handle_monitor_event(MonitorEvent::Renamed {
        goutputstream: false,
        other_file: Some("b.rnote"),
    });
    assert_eq!(r, MonitorReaction::ToastRenamed);
    assert_eq!(d.output_file, Some("b.rnote"));
    assert!(!d.unsaved_changes);
}

#[test]
fn rename_without_new_file_detaches() {
    let mut d = doc();
    d.set_output_file(Some("a.rnote"));
    let r = d.handle_monitor_event(MonitorEvent::Renamed { goutputstream: false, other_file: None });
    assert_eq!(r, MonitorReaction::ToastRenamed);
    assert_eq!(d.output_file, None);
    assert!(d.unsaved_changes);
}

#[test]
fn deletion_and_move_detach() {
    let mut d = doc();
    d.set_output_file(Some("a.rnote"));
    assert_eq!(
        d.handle_monitor_event(MonitorEvent::Deleted),
        MonitorReaction::ToastMovedOrDeleted
    );
    assert_eq!(d.output_file, None);
    assert!(d.unsaved_changes);
    let mut d = doc();
    d.set_output_file(Some("a.rnote"));
    assert_eq!(
        d.handle_monitor_event(MonitorEvent::MovedOut),
        MonitorReaction::ToastMovedOrDeleted
    );
    assert_eq!(d.output_file, None);
}

#[test]
fn other_events_change_nothing() {
    let mut d = doc();
    d.set_output_file(Some("a.rnote"));
    d.save_commit("a.rnote", true);
    assert_eq!(d.handle_monitor_event(MonitorEvent::Other), MonitorReaction::Nothing);
    // the expectation of our own write is still pending
    assert!(d.expect_write);
    assert_eq!(d.output_file, Some("a.rnote"));
}

#[test]
fn any_unsaved_changes() {
    assert!(!tabs_any_unsaved_changes(&vec![]));
    assert!(!tabs_any_unsaved_changes(&vec![false, false]));
    assert!(tabs_any_unsaved_changes(&vec![false, true, false]));
}

#[test]
fn close_request_asks_with_unsaved_changes() {
    assert_eq!(close_request(&vec![false, true]), CloseRequest::AskToSave);
    assert_eq!(close_request(&vec![false, false]), CloseRequest::CloseNow);
    assert_eq!(close_request(&vec![]), CloseRequest::CloseNow);
}

use rnote_ui::document::{
    first_match, is_same_output_file, same_file_outcome, tabs_query_file_opened, SameFileAnswer,
};

fn answer(first: &str, second: &str, outcome: Result<bool, ()>) -> SameFileAnswer {
    SameFileAnswer { first: String::from(first), second: String::from(second), outcome }
}

#[test]
fn same_file_outcomes() {
    assert!(same_file_outcome(&Ok(true)));
    assert!(!same_file_outcome(&Ok(false)));
    assert!(!same_file_outcome(&Err(())));
}

#[test]
fn same_output_file_on_disk() {
    assert_eq!(is_same_output_file(Some("/"), "/."), (true, Some(answer("/", "/.", Ok(true)))));
    assert_eq!(is_same_output_file(Some("/"), "/tmp"), (false, Some(answer("/", "/tmp", Ok(false)))));
    assert_eq!(is_same_output_file(None, "/"), (false, None));
    let (same, a) = is_same_output_file(Some("/no/such/path/here"), "/");
    assert!(!same);
    let a = a.unwrap();
    assert_eq!((a.first.as_str(), a.second.as_str(), a.outcome.is_err()), ("/no/such/path/here", "/", true));
}

#[test]
fn first_matching_tab() {
    assert_eq!(first_match(&vec![false, true, true]), Some(1));
    assert_eq!(first_match(&vec![false, false]), None);
    assert_eq!(first_match(&vec![]), None);
}

#[test]
fn query_file_opened_in_tabs() {
    let tabs = vec![None, Some(String::from("/tmp")), Some(String::from("/"))];
    let (found, answers) = tabs_query_file_opened(&tabs, "/.");
    assert_eq!(found, Some(2));
    assert_eq!(
        answers,
        vec![None, Some(answer("/tmp", "/.", Ok(false))), Some(answer("/", "/.", Ok(true)))]
    );
    assert_eq!(tabs_query_file_opened(&tabs, "/tmp/.").0, Some(1));
    let (found, answers) = tabs_query_file_opened(&tabs, "/no/such/file");
    assert_eq!(found, None);
    assert_eq!(answers.len(), 3);
    assert!(answers[1].as_ref().unwrap().outcome.is_err());
    assert_eq!(tabs_query_file_opened(&vec![None, None], "/"), (None, vec![None, None]));
}

#[test]
fn commit_to_path_follows_the_disk() {
    let mut d: DocumentState<&str> = DocumentState::new();
    assert_eq!(d.commit_to_path("target", None, "/tmp"), None);
    assert_eq!(d.output_file, Some("target"));
    assert!(d.expect_write);
    let mut d: DocumentState<&str> = DocumentState::new();
    d.set_output_file(Some("current"));
    assert_eq!(d.commit_to_path("target", Some("/"), "/."), Some(answer("/", "/.", Ok(true))));
    assert_eq!(d.output_file, Some("current"));
    assert_eq!(d.commit_to_path("target", Some("/"), "/tmp"), Some(answer("/", "/tmp", Ok(false))));
    assert_eq!(d.output_file, Some("target"));
}
