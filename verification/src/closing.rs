//! The dialogs that guard unsaved changes: before a new document or an
//! opened file replaces the current one, before the application quits,
//! before the document is cleared, before a tab closes and before the window
//! closes. Each offers to save, to discard or to cancel.

use vstd::prelude::*;
use crate::document::{DocumentState, SaveStart};
use crate::text::{decimal, digit_char, str_eq};
use crate::window::{postfixed_title, save_file_name, save_file_name_string};

verus! {

/// The response of a message dialog, by its identifier.
#[derive(Clone, Copy, Debug, PartialEq, Eq, Structural)]
pub enum DialogResponse {
    Discard,
    Save,
    Clear,
    /// Any other response, the close button included.
    Cancel,
}

/// The response that an identifier names.
pub open spec fn spec_parse_response(id: Seq<char>) -> DialogResponse {
    if id == "discard"@ {
        DialogResponse::Discard
    } else if id == "save"@ {
        DialogResponse::Save
    } else if id == "clear"@ {
        DialogResponse::Clear
    } else {
        DialogResponse::Cancel
    }
}

/// Reads the identifier of a dialog's response.
pub fn parse_response(id: &str) -> (r: DialogResponse)
    ensures
        r == spec_parse_response(id@),
{
    if str_eq(id, "discard") {
        DialogResponse::Discard
    } else if str_eq(id, "save") {
        DialogResponse::Save
    } else if str_eq(id, "clear") {
        DialogResponse::Clear
    } else {
        DialogResponse::Cancel
    }
}

/// What an action that replaces the document does next: starting a new
/// document, opening a file over the current one, or quitting.
#[derive(Clone, Copy, Debug, PartialEq, Eq, Structural)]
pub enum GuardedStep {
    /// Go ahead with the action.
    Proceed,
    /// Ask what to do with the unsaved changes.
    Ask,
    /// Save to the output file, and go ahead if that left no unsaved
    /// changes.
    SaveThenProceed,
    /// Let the user choose where to save.
    SaveAs,
    /// Do nothing.
    Nothing,
}

/// The action replaces a document without unsaved changes right away; else
/// the user is asked.
pub fn guarded_action_request(unsaved_changes: bool) -> (s: GuardedStep)
    ensures
        s == (if unsaved_changes {
            GuardedStep::Ask
        } else {
            GuardedStep::Proceed
        }),
{
    if unsaved_changes {
        GuardedStep::Ask
    } else {
        GuardedStep::Proceed
    }
}

/// The answer to the dialog that guards the action: discarding goes ahead,
/// saving saves to the output file (or lets the user choose one when there
/// is none), anything else does nothing.
pub open spec fn spec_guarded_action_response(response: DialogResponse, has_output_file: bool) -> GuardedStep {
    match response {
        DialogResponse::Discard => GuardedStep::Proceed,
        DialogResponse::Save => if has_output_file {
            GuardedStep::SaveThenProceed
        } else {
            GuardedStep::SaveAs
        },
        _ => GuardedStep::Nothing,
    }
}

/// Returns what the answer to the dialog that guards the action does.
pub fn guarded_action_response(response: DialogResponse, has_output_file: bool) -> (s: GuardedStep)
    ensures
        s == spec_guarded_action_response(response, has_output_file),
{
    match response {
        DialogResponse::Discard => GuardedStep::Proceed,
        DialogResponse::Save => {
            if has_output_file {
                GuardedStep::SaveThenProceed
            } else {
                GuardedStep::SaveAs
            }
        },
        _ => GuardedStep::Nothing,
    }
}

/// After a save that guards an action, the action goes ahead only if the
/// save left no unsaved changes.
pub fn proceed_after_save(unsaved_changes: bool) -> (r: bool)
    ensures
        r == !unsaved_changes,
{
    !unsaved_changes
}

/// The clear dialog clears the document only on its clear response.
pub fn clear_doc_response(response: DialogResponse) -> (r: bool)
    ensures
        r == (response == DialogResponse::Clear),
{
    matches!(response, DialogResponse::Clear)
}

/// What the close-tab dialog does.
#[derive(Clone, Copy, Debug, PartialEq, Eq, Structural)]
pub enum CloseTabStep {
    /// Finish closing the tab, confirmed.
    Close,
    /// Save the document, then close the tab if that left no unsaved changes.
    SaveThenClose,
    /// Finish closing the tab, refused: the tab stays.
    KeepOpen,
}

/// The answer to the close-tab dialog.
pub fn close_tab_response(response: DialogResponse) -> (s: CloseTabStep)
    ensures
        s == (match response {
            DialogResponse::Discard => CloseTabStep::Close,
            DialogResponse::Save => CloseTabStep::SaveThenClose,
            _ => CloseTabStep::KeepOpen,
        }),
{
    match response {
        DialogResponse::Discard => CloseTabStep::Close,
        DialogResponse::Save => CloseTabStep::SaveThenClose,
        _ => CloseTabStep::KeepOpen,
    }
}

/// What the close-window dialog does.
#[derive(Clone, Copy, Debug, PartialEq, Eq, Structural)]
pub enum CloseWindowStep {
    /// Close the window without saving.
    Close,
    /// Save the checked documents, then close the window.
    SaveCheckedThenClose,
    /// Keep the window open.
    Cancel,
}

/// The answer to the close-window dialog.
pub fn close_window_response(response: DialogResponse) -> (s: CloseWindowStep)
    ensures
        s == (match response {
            DialogResponse::Discard => CloseWindowStep::Close,
            DialogResponse::Save => CloseWindowStep::SaveCheckedThenClose,
            _ => CloseWindowStep::Cancel,
        }),
{
    match response {
        DialogResponse::Discard => CloseWindowStep::Close,
        DialogResponse::Save => CloseWindowStep::SaveCheckedThenClose,
        _ => CloseWindowStep::Cancel,
    }
}

/// The folder a document is saved to on closing: the folder of its output
/// file, else the directory of the workspace, if there is one.
pub fn save_folder(output_parent: Option<String>, workspace_dir: Option<String>) -> (r: Option<
    String,
>)
    ensures
        r == (if output_parent is Some {
            output_parent
        } else {
            workspace_dir
        }),
{
    match output_parent {
        Some(p) => Some(p),
        None => workspace_dir,
    }
}

/// The row of a document in a dialog that asks to save before closing: the
/// file name it would be saved under, its folder (`None` when no folder was
/// found, which the dialog says in words), whether its check button is
/// active and can be toggled, and whether the row is usable at all.
pub struct SaveRow {
    pub file_name: String,
    pub folder: Option<String>,
    pub checked: bool,
    pub check_sensitive: bool,
    pub row_sensitive: bool,
}

/// Builds the row of a document with the title and the postfix that the
/// name search found. A document without a folder cannot be saved: its row
/// is unchecked and unusable. In the close-tab dialog the check button is
/// locked (`lock_check`), since discarding is a response of its own.
pub fn save_row(doc_title: &str, postfix: u64, folder: Option<String>, lock_check: bool) -> (r:
    SaveRow)
    ensures
        r.file_name@ == save_file_name(doc_title@, postfix as nat),
        r.folder == folder,
        r.checked == folder is Some,
        r.row_sensitive == folder is Some,
        r.check_sensitive == !lock_check,
{
    let has_folder = folder.is_some();
    SaveRow {
        file_name: save_file_name_string(doc_title, postfix),
        folder,
        checked: has_folder,
        check_sensitive: !lock_check,
        row_sensitive: has_folder,
    }
}

/// The documents that the close-window dialog saves: those whose check is
/// active and that have a folder.
pub fn rows_to_save(checked: &Vec<bool>, has_folder: &Vec<bool>) -> (r: Vec<usize>)
    requires
        checked@.len() == has_folder@.len(),
    ensures
        forall|k: int| 0 <= k < r@.len() ==> #[trigger] r@[k] < checked@.len() && checked@[r@[k] as int]
            && has_folder@[r@[k] as int],
        forall|i: int|
            0 <= i < checked@.len() && checked@[i] && has_folder@[i] ==> r@.contains(i as usize),
        forall|k: int, l: int| 0 <= k < l < r@.len() ==> r@[k] < r@[l],
{
    let mut r: Vec<usize> = Vec::new();
    let mut i: usize = 0;
    while i < checked.len()
        invariant
            checked@.len() == has_folder@.len(),
            i <= checked@.len(),
            forall|k: int| 0 <= k < r@.len() ==> #[trigger] r@[k] < i && checked@[r@[k] as int]
                && has_folder@[r@[k] as int],
            forall|j: int| 0 <= j < i && checked@[j] && has_folder@[j] ==> r@.contains(j as usize),
            forall|k: int, l: int| 0 <= k < l < r@.len() ==> r@[k] < r@[l],
        decreases checked@.len() - i,
    {
        if checked[i] && has_folder[i] {
            let ghost before = r@;
            r.push(i);
            proof {
                assert(r@[before.len() as int] == i);
                assert forall|j: int| 0 <= j < i + 1 && checked@[j] && has_folder@[j] implies r@.contains(
                    j as usize,
                ) by {
                    if j < i {
                        assert(before.contains(j as usize));
                        let k = choose|k: int| 0 <= k < before.len() && before[k] == j as usize;
                        assert(r@[k] == j as usize);
                    } else {
                        assert(r@[before.len() as int] == j as usize);
                    }
                }
            }
        }
        i = i + 1;
    }
    r
}

/// The tabs that get a row in the close-window dialog: those with unsaved
/// changes, in tab order.
pub fn rows_for_tabs(unsaved: &Vec<bool>) -> (r: Vec<usize>)
    ensures
        forall|k: int| 0 <= k < r@.len() ==> #[trigger] r@[k] < unsaved@.len() && unsaved@[r@[k] as int],
        forall|i: int| 0 <= i < unsaved@.len() && unsaved@[i] ==> r@.contains(i as usize),
        forall|k: int, l: int| 0 <= k < l < r@.len() ==> r@[k] < r@[l],
{
    let mut r: Vec<usize> = Vec::new();
    let mut i: usize = 0;
    while i < unsaved.len()
        invariant
            i <= unsaved@.len(),
            forall|k: int| 0 <= k < r@.len() ==> #[trigger] r@[k] < i && unsaved@[r@[k] as int],
            forall|j: int| 0 <= j < i && unsaved@[j] ==> r@.contains(j as usize),
            forall|k: int, l: int| 0 <= k < l < r@.len() ==> r@[k] < r@[l],
        decreases unsaved@.len() - i,
    {
        if unsaved[i] {
            let ghost before = r@;
            r.push(i);
            proof {
                assert(r@[before.len() as int] == i);
                assert forall|j: int| 0 <= j < i + 1 && unsaved@[j] implies r@.contains(j as usize) by {
                    if j < i {
                        assert(before.contains(j as usize));
                        let k = choose|k: int| 0 <= k < before.len() && before[k] == j as usize;
                        assert(r@[k] == j as usize);
                    } else {
                        assert(r@[before.len() as int] == j as usize);
                    }
                }
            }
        }
        i = i + 1;
    }
    r
}

/// The search for a free file name, as the dialogs that save before closing
/// run it: starting at a postfix, the name for each postfix is tried in turn
/// (the caller asks the disk whether a file of that name exists) until one
/// is free. The search keeps the answers it was given.
pub struct FreeNameSearch {
    start: u64,
    candidate: u64,
    found: Option<u64>,
    answers: Ghost<Seq<bool>>,
}

impl FreeNameSearch {
    /// The postfix the search started at.
    pub closed spec fn start_view(self) -> nat {
        self.start as nat
    }

    /// The postfix whose name is to be tried next.
    pub closed spec fn candidate_view(self) -> nat {
        self.candidate as nat
    }

    /// The free postfix, once the search found one.
    pub closed spec fn found_view(self) -> Option<u64> {
        self.found
    }

    /// Whether a file existed under the name of each postfix tried, from the
    /// start on.
    pub closed spec fn answers_view(self) -> Seq<bool> {
        self.answers@
    }

    /// The postfixes tried are the ones from the start on, one per answer;
    /// every name tried was taken, but for the last one once the search found
    /// a free name.
    pub closed spec fn wf(self) -> bool {
        &&& self.found is None ==> {
            &&& self.candidate == self.start + self.answers@.len()
            &&& forall|k: int| 0 <= k < self.answers@.len() ==> #[trigger] self.answers@[k]
        }
        &&& self.found matches Some(p) ==> {
            &&& self.answers@.len() >= 1
            &&& p == self.start + self.answers@.len() - 1
            &&& p == self.candidate
            &&& !self.answers@.last()
            &&& forall|k: int| 0 <= k < self.answers@.len() - 1 ==> #[trigger] self.answers@[k]
        }
    }

    /// A search that starts at `start`.
    pub fn new(start: u64) -> (s: Self)
        ensures
            s.wf(),
            s.start_view() == start,
            s.candidate_view() == start,
            s.found_view() is None,
            s.answers_view() == Seq::<bool>::empty(),
    {
        FreeNameSearch { start, candidate: start, found: None, answers: Ghost(Seq::empty()) }
    }

    /// The postfix whose name is to be tried next.
    pub fn candidate(&self) -> (p: u64)
        ensures
            p == self.candidate_view(),
    {
        self.candidate
    }

    /// The free postfix, once found.
    pub fn found(&self) -> (p: Option<u64>)
        ensures
            p == self.found_view(),
    {
        self.found
    }

    /// The name to try next: the title with the candidate postfix.
    pub fn candidate_name(&self, title: &str) -> (n: String)
        ensures
            n@ == save_file_name(title@, self.candidate_view()),
    {
        save_file_name_string(title, self.candidate)
    }

    /// The disk answered whether a file exists under the candidate's name: a
    /// taken name moves on to the next postfix, a free one ends the search.
    pub fn answer(&mut self, exists: bool)
        requires
            old(self).wf(),
            old(self).found_view() is None,
            old(self).candidate_view() < u64::MAX,
        ensures
            final(self).wf(),
            final(self).start_view() == old(self).start_view(),
            final(self).answers_view() == old(self).answers_view().push(exists),
            final(self).found_view() == (if exists {
                None
            } else {
                Some(old(self).candidate_view() as u64)
            }),
            final(self).candidate_view() == (if exists {
                old(self).candidate_view() + 1
            } else {
                old(self).candidate_view()
            }),
    {
        let ghost before = self.answers@;
        self.answers = Ghost(before.push(exists));
        if exists {
            self.candidate = self.candidate + 1;
        } else {
            self.found = Some(self.candidate);
        }
        proof {
            assert forall|k: int| 0 <= k < before.len() implies #[trigger] self.answers@[k] by {
                assert(self.answers@[k] == before[k]);
            }
        }
    }
}

/// A search that found a postfix found the least one from its start whose
/// name was free: the name of every postfix before it was taken.
pub proof fn lemma_found_is_least_free(s: FreeNameSearch)
    requires
        s.wf(),
        s.found_view() is Some,
    ensures
        s.found_view().unwrap() >= s.start_view(),
        s.answers_view().len() == s.found_view().unwrap() - s.start_view() + 1,
        !s.answers_view()[s.found_view().unwrap() - s.start_view()],
        forall|k: int| 0 <= k < s.found_view().unwrap() - s.start_view() ==> #[trigger] s.answers_view()[k],
{
}

/// The postfixes of the documents saved when the window closes: one
/// counter runs over all documents that have a folder, so that each gets a
/// postfix above the ones before it. The search for a free name of a
/// document starts at the counter.
pub struct WindowSaveNaming {
    pub next_postfix: u64,
}

impl WindowSaveNaming {
    /// The counter before the first document.
    pub fn new() -> (n: Self)
        ensures
            n.next_postfix == 0,
    {
        WindowSaveNaming { next_postfix: 0 }
    }

    /// The search for a document ended on `found` (never below the counter,
    /// since the search only counts up): the document takes it, and the next
    /// document's search starts above it.
    pub fn take(&mut self, found: u64) -> (postfix: u64)
        requires
            old(self).next_postfix <= found < u64::MAX,
        ensures
            postfix == found,
            final(self).next_postfix == found + 1,
    {
        self.next_postfix = found + 1;
        found
    }
}

/// Two numbers with the same decimal text are the same number.
pub proof fn lemma_decimal_injective(a: nat, b: nat)
    requires
        decimal(a) == decimal(b),
    ensures
        a == b,
    decreases a,
{
    lemma_decimal_len(a);
    lemma_decimal_len(b);
    if a < 10 && b < 10 {
        assert(decimal(a)[0] == digit_char(a));
        assert(decimal(b)[0] == digit_char(b));
    } else if a >= 10 && b >= 10 {
        let da = decimal(a / 10);
        let db = decimal(b / 10);
        assert(decimal(a) == da.push(digit_char(a % 10)));
        assert(decimal(b) == db.push(digit_char(b % 10)));
        assert(decimal(a).last() == digit_char(a % 10));
        assert(decimal(b).last() == digit_char(b % 10));
        assert(da =~= decimal(a).drop_last());
        assert(db =~= decimal(b).drop_last());
        lemma_decimal_injective(a / 10, b / 10);
    }
}

/// The decimal text of a number below ten has one digit; of a larger number,
/// at least two.
pub proof fn lemma_decimal_len(n: nat)
    ensures
        n < 10 ==> decimal(n).len() == 1,
        n >= 10 ==> decimal(n).len() >= 2,
    decreases n,
{
    if n >= 10 {
        lemma_decimal_len(n / 10);
    }
}

/// Documents with the same title get different file names when the window
/// closes: their postfixes differ, and so do the names.
pub proof fn lemma_postfixes_give_distinct_names(title: Seq<char>, p: nat, q: nat)
    requires
        p < q,
    ensures
        save_file_name(title, p) != save_file_name(title, q),
{
    let sep = " - "@;
    if p == 0 {
        lemma_decimal_len(q);
        assert(postfixed_title(title, q).len() > postfixed_title(title, p).len());
        assert(save_file_name(title, p).len() != save_file_name(title, q).len());
    } else {
        if save_file_name(title, p) == save_file_name(title, q) {
            let ext = ".rnote"@;
            assert(save_file_name(title, p).subrange(
                0,
                save_file_name(title, p).len() - ext.len(),
            ) =~= postfixed_title(title, p));
            assert(save_file_name(title, q).subrange(
                0,
                save_file_name(title, q).len() - ext.len(),
            ) =~= postfixed_title(title, q));
            let tp = title + sep;
            assert(postfixed_title(title, p) == tp + decimal(p));
            assert(postfixed_title(title, q) == tp + decimal(q));
            assert((tp + decimal(p)).subrange(tp.len() as int, (tp + decimal(p)).len() as int)
                =~= decimal(p));
            assert((tp + decimal(q)).subrange(tp.len() as int, (tp + decimal(q)).len() as int)
                =~= decimal(q));
            lemma_decimal_injective(p, q);
        }
    }
}

/// A document with unsaved changes that is saved before its tab closes, or
/// before a new document replaces it, lets the action go ahead exactly when
/// the write succeeded.
pub proof fn lemma_guarded_action_follows_write<F>(
    s: DocumentState<F>,
    target: F,
    same_as_output_file: bool,
    write_ok: bool,
)
    requires
        s.unsaved_changes,
        s.spec_save_start(true, true).1 == SaveStart::Proceed,
    ensures
        ({
            let after = s.spec_save_start(true, true).0.spec_save_commit(
                target,
                same_as_output_file,
            ).spec_save_finish(write_ok);
            !after.unsaved_changes == write_ok
        }),
{
}

/// Discarding always lets the guarded action go ahead, whether or not the
/// document has a file; saving goes ahead through the output file when
/// there is one and through the save-as dialog otherwise; any other answer
/// does nothing.
pub proof fn lemma_guarded_responses(has_output_file: bool)
    ensures
        spec_guarded_action_response(DialogResponse::Discard, has_output_file)
            == GuardedStep::Proceed,
        spec_guarded_action_response(DialogResponse::Save, true) == GuardedStep::SaveThenProceed,
        spec_guarded_action_response(DialogResponse::Save, false) == GuardedStep::SaveAs,
        spec_guarded_action_response(DialogResponse::Cancel, has_output_file)
            == GuardedStep::Nothing,
        spec_guarded_action_response(DialogResponse::Clear, has_output_file)
            == GuardedStep::Nothing,
{
}

} // verus!
