//! The file state of a document tab: which file it is saved to, whether it
//! holds unsaved changes, whether it is empty, and how it reacts to saving
//! and to changes of its file on disk.

use vstd::prelude::*;

verus! {

/// An event of the monitor that watches the output file.
#[derive(Debug)]
pub enum MonitorEvent<F> {
    /// The file's contents changed.
    Changed,
    /// The file was renamed. `goutputstream` tells whether the old name was a
    /// temporary `.goutputstream-*` file, which means the file was replaced;
    /// `other_file` is the new file.
    Renamed { goutputstream: bool, other_file: Option<F> },
    /// The file was deleted.
    Deleted,
    /// The file was moved out of the watched location.
    MovedOut,
    /// Any other event.
    Other,
}

/// What the canvas tells the user after a monitor event.
#[derive(Clone, Copy, Debug, PartialEq, Eq, Structural)]
pub enum MonitorReaction {
    /// Nothing.
    Nothing,
    /// A toast that offers to reload the file that was modified on disk.
    ToastReloadModified,
    /// A toast that the file was renamed on disk.
    ToastRenamed,
    /// A toast that the file was moved or deleted on disk.
    ToastMovedOrDeleted,
}

/// How a save request starts.
#[derive(Clone, Copy, Debug, PartialEq, Eq, Structural)]
pub enum SaveStart {
    /// A save is already in progress: nothing is done and the request
    /// reports that nothing was saved.
    Skipped,
    /// The target has no path or no file name: the request fails.
    Failed,
    /// The save goes ahead.
    Proceed,
}

/// The file state of a document.
#[derive(Debug)]
pub struct DocumentState<F> {
    /// The file the document is saved to.
    pub output_file: Option<F>,
    /// The document changed since it was last saved or loaded.
    pub unsaved_changes: bool,
    /// The document holds no content.
    pub empty: bool,
    /// A write of our own to the output file is under way, so the next event
    /// of the file monitor comes from it.
    pub expect_write: bool,
    /// A save is running.
    pub save_in_progress: bool,
}

impl<F> DocumentState<F> {
    /// A new, empty document without a file.
    pub fn new() -> (s: Self)
        ensures
            s.output_file is None,
            !s.unsaved_changes,
            s.empty,
            !s.expect_write,
            !s.save_in_progress,
    {
        DocumentState {
            output_file: None,
            unsaved_changes: false,
            empty: true,
            expect_write: false,
            save_in_progress: false,
        }
    }

    /// Sets whether the document is empty; an empty document has no unsaved
    /// changes.
    pub fn set_empty(&mut self, empty: bool)
        ensures
            final(self).empty == empty,
            final(self).unsaved_changes == (old(self).unsaved_changes && !empty),
            final(self).output_file == old(self).output_file,
            final(self).expect_write == old(self).expect_write,
            final(self).save_in_progress == old(self).save_in_progress,
    {
        self.empty = empty;
        if empty {
            self.unsaved_changes = false;
        }
    }

    /// Sets whether the document has unsaved changes.
    pub fn set_unsaved_changes(&mut self, unsaved_changes: bool)
        ensures
            final(self).unsaved_changes == unsaved_changes,
            final(self).empty == old(self).empty,
            final(self).output_file == old(self).output_file,
            final(self).expect_write == old(self).expect_write,
            final(self).save_in_progress == old(self).save_in_progress,
    {
        self.unsaved_changes = unsaved_changes;
    }

    /// Sets the output file.
    pub fn set_output_file(&mut self, output_file: Option<F>)
        ensures
            final(self).output_file == output_file,
            final(self).unsaved_changes == old(self).unsaved_changes,
            final(self).empty == old(self).empty,
            final(self).expect_write == old(self).expect_write,
            final(self).save_in_progress == old(self).save_in_progress,
    {
        self.output_file = output_file;
    }

    /// The engine reported that the stored content changed.
    pub fn mark_modified(&mut self)
        ensures
            final(self).unsaved_changes,
            !final(self).empty,
            final(self).output_file == old(self).output_file,
            final(self).expect_write == old(self).expect_write,
            final(self).save_in_progress == old(self).save_in_progress,
    {
        self.unsaved_changes = true;
        self.set_empty(false);
    }

    /// The document was cleared: it is empty, and since emptying drops the
    /// unsaved changes that clearing a non-empty document raises, it holds no
    /// unsaved changes either.
    pub fn clear(&mut self)
        ensures
            final(self).empty,
            !final(self).unsaved_changes,
            final(self).output_file == old(self).output_file,
            final(self).expect_write == old(self).expect_write,
            final(self).save_in_progress == old(self).save_in_progress,
    {
        let prev_empty = self.empty;
        if !prev_empty {
            self.set_unsaved_changes(true);
        }
        self.set_empty(true);
    }

    /// A new document replaces the current one: empty, unsaved changes
    /// dropped, no output file.
    pub fn new_document(&mut self)
        ensures
            final(self).empty,
            !final(self).unsaved_changes,
            final(self).output_file is None,
            final(self).expect_write == old(self).expect_write,
            final(self).save_in_progress == old(self).save_in_progress,
    {
        self.set_unsaved_changes(false);
        self.set_empty(true);
        self.set_output_file(None);
    }

    /// A document was loaded from a file: the file becomes the output file
    /// when its path is known, and the document is neither empty nor changed.
    pub fn loaded(&mut self, file: Option<F>)
        ensures
            !final(self).empty,
            !final(self).unsaved_changes,
            final(self).output_file == (match file {
                Some(f) => Some(f),
                None => old(self).output_file,
            }),
            final(self).expect_write == old(self).expect_write,
            final(self).save_in_progress == old(self).save_in_progress,
    {
        if let Some(f) = file {
            self.set_output_file(Some(f));
        }
        self.set_unsaved_changes(false);
        self.set_empty(false);
    }

    /// The state after `save_start`.
    pub open spec fn spec_save_start(self, has_path: bool, has_basename: bool) -> (Self, SaveStart) {
        if self.save_in_progress {
            (self, SaveStart::Skipped)
        } else if !has_path || !has_basename {
            (self, SaveStart::Failed)
        } else {
            (DocumentState { save_in_progress: true, ..self }, SaveStart::Proceed)
        }
    }

    /// Starts a save, given whether the target file has a path and a file
    /// name. A running save makes the request a no-op.
    pub fn save_start(&mut self, has_path: bool, has_basename: bool) -> (r: SaveStart)
        ensures
            (*final(self), r) == old(self).spec_save_start(has_path, has_basename),
    {
        if self.save_in_progress {
            return SaveStart::Skipped;
        }
        if !has_path || !has_basename {
            return SaveStart::Failed;
        }
        self.save_in_progress = true;
        SaveStart::Proceed
    }

    /// The engine could not serialize the document: the save ends.
    pub fn save_serialize_failed(&mut self)
        ensures
            *final(self) == (DocumentState { save_in_progress: false, ..*old(self) }),
    {
        self.save_in_progress = false;
    }

    /// The state after `save_commit`.
    pub open spec fn spec_save_commit(self, target: F, same_as_output_file: bool) -> Self {
        DocumentState {
            output_file: if same_as_output_file {
                self.output_file
            } else {
                Some(target)
            },
            expect_write: true,
            ..self
        }
    }

    /// The document is about to be written to `target`. Unless the target is
    /// the same file as the current output file, it becomes the output file;
    /// the next monitor event is expected to come from this write.
    pub fn save_commit(&mut self, target: F, same_as_output_file: bool)
        ensures
            *final(self) == old(self).spec_save_commit(target, same_as_output_file),
    {
        if !same_as_output_file {
            self.output_file = Some(target);
        }
        self.expect_write = true;
    }

    /// The document is about to be written to the file at `target_path`.
    /// The disk is asked whether the current output file's path, if it has
    /// one, and the target path lead to the same file; the target stays out
    /// of the output file exactly when the disk answered that they do.
    /// Returns the disk's answer, if it was asked.
    pub fn commit_to_path(&mut self, target: F, current_path: Option<&str>, target_path: &str) -> (answer:
        Option<SameFileAnswer>)
        ensures
            answer is None <==> current_path is None,
            current_path is Some ==> answer_asks(
                answer.unwrap(),
                current_path.unwrap()@,
                target_path@,
            ),
            *final(self) == old(self).spec_save_commit(target, answer_says_same(answer)),
    {
        let (same, answer) = is_same_output_file(current_path, target_path);
        self.save_commit(target, same);
        answer
    }

    /// The state after `save_finish`.
    pub open spec fn spec_save_finish(self, write_ok: bool) -> Self {
        if write_ok {
            DocumentState { unsaved_changes: false, save_in_progress: false, ..self }
        } else {
            DocumentState { expect_write: false, save_in_progress: false, ..self }
        }
    }

    /// The write ended. A successful write leaves no unsaved changes; a failed
    /// one clears the expectation of a write event, since the monitor may not
    /// see one. Returns whether the write succeeded.
    pub fn save_finish(&mut self, write_ok: bool) -> (saved: bool)
        ensures
            saved == write_ok,
            *final(self) == old(self).spec_save_finish(write_ok),
    {
        if !write_ok {
            self.save_in_progress = false;
            self.expect_write = false;
            return false;
        }
        self.unsaved_changes = false;
        self.save_in_progress = false;
        true
    }

    /// The state and the reaction after a monitor event. An event that our
    /// own write caused is swallowed and clears the expectation; otherwise a
    /// change marks the document as changed and offers a reload, a rename
    /// follows the file to its new name (a rename without a new file leaves
    /// the document detached and changed), and a deletion or a move out
    /// detaches the document from its file and marks it as changed.
    pub open spec fn spec_monitor_event(self, event: MonitorEvent<F>) -> (Self, MonitorReaction) {
        match event {
            MonitorEvent::Other => (self, MonitorReaction::Nothing),
            _ => if self.expect_write {
                (DocumentState { expect_write: false, ..self }, MonitorReaction::Nothing)
            } else {
                match event {
                    MonitorEvent::Changed => (
                        DocumentState { unsaved_changes: true, ..self },
                        MonitorReaction::ToastReloadModified,
                    ),
                    MonitorEvent::Renamed { goutputstream, other_file } => if goutputstream {
                        (
                            DocumentState { unsaved_changes: true, ..self },
                            MonitorReaction::ToastReloadModified,
                        )
                    } else {
                        (
                            DocumentState {
                                unsaved_changes: self.unsaved_changes || other_file is None,
                                output_file: other_file,
                                ..self
                            },
                            MonitorReaction::ToastRenamed,
                        )
                    },
                    _ => (
                        DocumentState { unsaved_changes: true, output_file: None, ..self },
                        MonitorReaction::ToastMovedOrDeleted,
                    ),
                }
            },
        }
    }

    /// Handles an event of the output-file monitor.
    pub fn handle_monitor_event(&mut self, event: MonitorEvent<F>) -> (r: MonitorReaction)
        ensures
            (*final(self), r) == old(self).spec_monitor_event(event),
    {
        match event {
            MonitorEvent::Changed => {
                if self.expect_write {
                    self.expect_write = false;
                    return MonitorReaction::Nothing;
                }
                self.unsaved_changes = true;
                MonitorReaction::ToastReloadModified
            },
            MonitorEvent::Renamed { goutputstream, other_file } => {
                if self.expect_write {
                    self.expect_write = false;
                    return MonitorReaction::Nothing;
                }
                if goutputstream {
                    self.unsaved_changes = true;
                    MonitorReaction::ToastReloadModified
                } else {
                    if other_file.is_none() {
                        self.unsaved_changes = true;
                    }
                    self.output_file = other_file;
                    MonitorReaction::ToastRenamed
                }
            },
            MonitorEvent::Deleted | MonitorEvent::MovedOut => {
                if self.expect_write {
                    self.expect_write = false;
                    return MonitorReaction::Nothing;
                }
                self.unsaved_changes = true;
                self.output_file = None;
                MonitorReaction::ToastMovedOrDeleted
            },
            MonitorEvent::Other => MonitorReaction::Nothing,
        }
    }
}

/// What the disk answered when asked whether two paths lead to the same
/// file: the two paths as they were asked, and the answer (an error when one
/// of them could not be opened).
#[derive(Debug, PartialEq, Eq)]
pub struct SameFileAnswer {
    pub first: String,
    pub second: String,
    pub outcome: Result<bool, ()>,
}

/// The answer was asked about `first` and `second`, in that order.
pub open spec fn answer_asks(a: SameFileAnswer, first: Seq<char>, second: Seq<char>) -> bool {
    a.first@ == first && a.second@ == second
}

/// An answer, if one was asked, says that both paths lead to the same file.
pub open spec fn answer_says_same(a: Option<SameFileAnswer>) -> bool {
    match a {
        Some(x) => x.outcome == Ok::<bool, ()>(true),
        None => false,
    }
}

/// Calls `same_file::is_same_file` on the two paths, which opens both and
/// compares the files they lead to; an error means that one of them could
/// not be opened. The answer is handed back with the two paths it was asked
/// about. What the answer is depends on the disk, so nothing is stated of
/// it.
#[verifier::external_body]
fn same_file_on_disk(a: &str, b: &str) -> (r: SameFileAnswer)
    ensures
        answer_asks(r, a@, b@),
{
    SameFileAnswer {
        first: a.to_owned(),
        second: b.to_owned(),
        outcome: same_file::is_same_file(a, b).map_err(|_| ()),
    }
}

/// How the answer of the disk decides that two paths are the same file: a
/// failed check counts as different files.
pub fn same_file_outcome(outcome: &Result<bool, ()>) -> (r: bool)
    ensures
        r == (*outcome == Ok::<bool, ()>(true)),
{
    match outcome {
        Ok(same) => *same,
        Err(_) => false,
    }
}

/// Whether the current output file, if it has a path, is the same file on
/// disk as the target path: the disk is asked about the current path and the
/// target path, in that order, and the result is what it answered, a failed
/// check counting as different files. Without a current path nothing is
/// asked and the result is false. Returns the result and the answer.
pub fn is_same_output_file(current_path: Option<&str>, target_path: &str) -> (r: (
    bool,
    Option<SameFileAnswer>,
))
    ensures
        r.1 is None <==> current_path is None,
        current_path is Some ==> answer_asks(r.1.unwrap(), current_path.unwrap()@, target_path@),
        r.0 == answer_says_same(r.1),
{
    match current_path {
        Some(current) => {
            let answer = same_file_on_disk(current, target_path);
            let same = same_file_outcome(&answer.outcome);
            (same, Some(answer))
        },
        None => (false, None),
    }
}

/// The first tab, by position, whose check found the file open in it.
pub fn first_match(matches: &Vec<bool>) -> (r: Option<usize>)
    ensures
        match r {
            Some(i) => i < matches@.len() && matches@[i as int] && forall|j: int|
                0 <= j < i ==> !matches@[j],
            None => forall|j: int| 0 <= j < matches@.len() ==> !matches@[j],
        },
{
    let mut i: usize = 0;
    while i < matches.len()
        invariant
            i <= matches@.len(),
            forall|j: int| 0 <= j < i ==> !matches@[j],
        decreases matches@.len() - i,
    {
        if matches[i] {
            return Some(i);
        }
        i = i + 1;
    }
    None
}

/// Whether each tab matched: it has an output path and the disk answered
/// that it is the same file.
pub open spec fn tab_matches(answers: Seq<Option<SameFileAnswer>>) -> Seq<bool> {
    answers.map_values(|a: Option<SameFileAnswer>| answer_says_same(a))
}

/// The tab that has the file at `input_path` open. For each tab with an
/// output path, in order, the disk is asked about that path and the input
/// path; tabs without a path are not asked and never match. The result is
/// the first tab whose answer says it is the same file. Returns the result
/// and the answers, one per tab.
pub fn tabs_query_file_opened(tab_paths: &Vec<Option<String>>, input_path: &str) -> (r: (
    Option<usize>,
    Vec<Option<SameFileAnswer>>,
))
    ensures
        r.1@.len() == tab_paths@.len(),
        forall|j: int| 0 <= j < tab_paths@.len() ==> (#[trigger] r.1@[j] is None <==> tab_paths@[j] is None),
        forall|j: int|
            0 <= j < tab_paths@.len() && tab_paths@[j] is Some ==> answer_asks(
                #[trigger] r.1@[j].unwrap(),
                tab_paths@[j].unwrap()@,
                input_path@,
            ),
        match r.0 {
            Some(i) => i < tab_paths@.len() && tab_matches(r.1@)[i as int] && forall|j: int|
                0 <= j < i ==> !tab_matches(r.1@)[j],
            None => forall|j: int| 0 <= j < tab_paths@.len() ==> !tab_matches(r.1@)[j],
        },
{
    let mut matches: Vec<bool> = Vec::new();
    let mut answers: Vec<Option<SameFileAnswer>> = Vec::new();
    let mut i: usize = 0;
    while i < tab_paths.len()
        invariant
            i <= tab_paths@.len(),
            matches@.len() == i,
            answers@.len() == i,
            forall|j: int| 0 <= j < i ==> (#[trigger] answers@[j] is None <==> tab_paths@[j] is None),
            forall|j: int|
                0 <= j < i && tab_paths@[j] is Some ==> answer_asks(
                    #[trigger] answers@[j].unwrap(),
                    tab_paths@[j].unwrap()@,
                    input_path@,
                ),
            forall|j: int| 0 <= j < i ==> #[trigger] matches@[j] == answer_says_same(answers@[j]),
        decreases tab_paths@.len() - i,
    {
        let (same, answer) = match &tab_paths[i] {
            Some(p) => is_same_output_file(Some(p.as_str()), input_path),
            None => (false, None),
        };
        matches.push(same);
        answers.push(answer);
        i = i + 1;
    }
    let found = first_match(&matches);
    proof {
        assert(tab_matches(answers@) =~= matches@);
    }
    (found, answers)
}

/// Whether any of the tabs holds unsaved changes.
pub fn tabs_any_unsaved_changes(unsaved: &Vec<bool>) -> (r: bool)
    ensures
        r == exists|i: int| 0 <= i < unsaved@.len() && unsaved@[i],
{
    let mut i: usize = 0;
    while i < unsaved.len()
        invariant
            i <= unsaved@.len(),
            forall|j: int| 0 <= j < i ==> !unsaved@[j],
        decreases unsaved@.len() - i,
    {
        if unsaved[i] {
            return true;
        }
        i = i + 1;
    }
    false
}

/// What closing the window does.
#[derive(Clone, Copy, Debug, PartialEq, Eq, Structural)]
pub enum CloseRequest {
    /// Ask what to do with the unsaved documents.
    AskToSave,
    /// Save the settings and close right away.
    CloseNow,
}

/// A window with unsaved documents asks before it closes.
pub fn close_request(unsaved: &Vec<bool>) -> (r: CloseRequest)
    ensures
        r == (if exists|i: int| 0 <= i < unsaved@.len() && unsaved@[i] {
            CloseRequest::AskToSave
        } else {
            CloseRequest::CloseNow
        }),
{
    if tabs_any_unsaved_changes(unsaved) {
        CloseRequest::AskToSave
    } else {
        CloseRequest::CloseNow
    }
}

/// A file change that our own save caused raises no toast: after a save
/// commits to its target and finishes writing, the next monitor event (of a
/// kind the canvas handles) is swallowed, and the document stays saved to the
/// file the save chose, with no unsaved changes.
pub proof fn lemma_own_save_is_not_reported<F>(
    s: DocumentState<F>,
    target: F,
    same_as_output_file: bool,
    event: MonitorEvent<F>,
)
    requires
        !(event is Other),
        s.spec_save_start(true, true).1 == SaveStart::Proceed,
    ensures
        ({
            let started = s.spec_save_start(true, true).0;
            let written = started.spec_save_commit(target, same_as_output_file).spec_save_finish(
                true,
            );
            let (after, reaction) = written.spec_monitor_event(event);
            &&& reaction == MonitorReaction::Nothing
            &&& !after.unsaved_changes
            &&& !after.save_in_progress
            &&& !after.expect_write
            &&& after.output_file == (if same_as_output_file {
                s.output_file
            } else {
                Some(target)
            })
        }),
{
}

/// A save that fails to write leaves the monitor reporting again: the next
/// change on disk raises the reload toast.
pub proof fn lemma_failed_write_keeps_monitor_reporting<F>(
    s: DocumentState<F>,
    target: F,
    same_as_output_file: bool,
)
    requires
        s.spec_save_start(true, true).1 == SaveStart::Proceed,
    ensures
        ({
            let started = s.spec_save_start(true, true).0;
            let failed = started.spec_save_commit(target, same_as_output_file).spec_save_finish(
                false,
            );
            &&& !failed.save_in_progress
            &&& failed.spec_monitor_event(MonitorEvent::Changed).1
                == MonitorReaction::ToastReloadModified
        }),
{
}

/// A save requested while another runs changes nothing.
pub proof fn lemma_concurrent_save_is_skipped<F>(s: DocumentState<F>, has_path: bool, has_basename: bool)
    requires
        s.save_in_progress,
    ensures
        s.spec_save_start(has_path, has_basename) == (s, SaveStart::Skipped),
{
}

/// A change on disk never makes unsaved edits count as saved: whatever the
/// event, a document with unsaved changes still has them afterwards. A
/// rename to another file, outside our own write, follows the file and
/// marks the document changed only when no new file is known.
pub proof fn lemma_monitor_keeps_unsaved_changes<F>(s: DocumentState<F>, event: MonitorEvent<F>)
    ensures
        s.unsaved_changes ==> s.spec_monitor_event(event).0.unsaved_changes,
        s.spec_monitor_event(event).0.save_in_progress == s.save_in_progress,
        s.spec_monitor_event(event).0.empty == s.empty,
        !s.expect_write ==> (event matches MonitorEvent::Renamed { goutputstream, other_file }
            ==> (!goutputstream ==> ({
            let (after, reaction) = s.spec_monitor_event(event);
            &&& reaction == MonitorReaction::ToastRenamed
            &&& after.unsaved_changes == (s.unsaved_changes || other_file is None)
            &&& after.output_file == other_file
        }))),
{
}

/// Outside our own write, a change of the file on disk offers a reload and
/// marks the document changed, and a deletion or a move detaches it from
/// the file and marks it changed; the event that our own write causes only
/// clears the expectation and changes nothing else.
pub proof fn lemma_monitor_reports_external_changes<F>(s: DocumentState<F>, event: MonitorEvent<F>)
    ensures
        (!s.expect_write && event is Changed) ==> ({
            let (after, reaction) = s.spec_monitor_event(event);
            reaction == MonitorReaction::ToastReloadModified && after.unsaved_changes
                && after.output_file == s.output_file
        }),
        (!s.expect_write && (event is Deleted || event is MovedOut)) ==> ({
            let (after, reaction) = s.spec_monitor_event(event);
            reaction == MonitorReaction::ToastMovedOrDeleted && after.unsaved_changes
                && after.output_file is None
        }),
        (s.expect_write && !(event is Other)) ==> ({
            let (after, reaction) = s.spec_monitor_event(event);
            reaction == MonitorReaction::Nothing && !after.expect_write && after.unsaved_changes
                == s.unsaved_changes && after.output_file == s.output_file
        }),
{
}

} // verus!
