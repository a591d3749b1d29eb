//! Editing the selected workspace: the dialog works on a preview of the
//! workspace's entry and writes it back only when applied.

use vstd::prelude::*;

verus! {

/// A workspace as the workspace bar lists it: its name, icon, color and
/// directory.
pub struct WorkspaceEntry<C> {
    pub name: String,
    pub icon: String,
    pub color: C,
    pub dir: String,
}

/// A workspace entry as its texts and its color.
pub open spec fn entry_view<C>(e: WorkspaceEntry<C>) -> (Seq<char>, Seq<char>, C, Seq<char>) {
    (e.name@, e.icon@, e.color, e.dir@)
}

/// The result of choosing a new directory for the workspace.
pub enum DirChoice {
    /// A directory with a local path was chosen; `file_name` is the last
    /// component of the path, if it has one.
    Path { path: String, file_name: Option<String> },
    /// The chosen directory has no local path.
    NoPath,
    /// The choice failed or was dismissed.
    Dismissed,
}

/// The dialog that edits the selected workspace: the entry as it was, the
/// preview being edited, the directory label (`None` while it shows that no
/// directory is selected) and the icon shown on the icon button.
pub struct WorkspaceEdit<C> {
    pub initial: WorkspaceEntry<C>,
    pub preview: WorkspaceEntry<C>,
    pub dir_label: Option<String>,
    pub icon_button: String,
}

impl<C: Copy> WorkspaceEdit<C> {
    /// Opens the dialog on the selected workspace; without a selected
    /// workspace there is nothing to edit.
    pub fn open(selected: Option<WorkspaceEntry<C>>) -> (r: Option<Self>)
        ensures
            selected is None ==> r is None,
            selected is Some ==> r is Some,
            selected is Some ==> entry_view(r.unwrap().initial) == entry_view(selected.unwrap()),
            selected is Some ==> entry_view(r.unwrap().preview) == entry_view(selected.unwrap()),
            selected is Some ==> r.unwrap().dir_label is Some && r.unwrap().dir_label.unwrap()@
                == selected.unwrap().dir@,
            selected is Some ==> r.unwrap().icon_button@ == selected.unwrap().icon@,
    {
        match selected {
            None => None,
            Some(e) => {
                let preview = WorkspaceEntry {
                    name: e.name.clone(),
                    icon: e.icon.clone(),
                    color: e.color,
                    dir: e.dir.clone(),
                };
                let label = e.dir.clone();
                let icon_button = e.icon.clone();
                Some(WorkspaceEdit { initial: e, preview, dir_label: Some(label), icon_button })
            },
        }
    }

    /// The name was edited: the preview takes it.
    pub fn name_changed(&mut self, name: &str)
        ensures
            entry_view(final(self).preview) == (name@, old(self).preview.icon@, old(
                self,
            ).preview.color, old(self).preview.dir@),
            entry_view(final(self).initial) == entry_view(old(self).initial),
            final(self).dir_label == old(self).dir_label,
            final(self).icon_button@ == old(self).icon_button@,
    {
        self.preview.name = name.to_owned();
    }

    /// The icon picker changed: a picked icon goes to the preview and the
    /// icon button; a cleared pick changes nothing.
    pub fn icon_picked(&mut self, picked: Option<String>)
        ensures
            entry_view(final(self).initial) == entry_view(old(self).initial),
            final(self).dir_label == old(self).dir_label,
            picked is None ==> entry_view(final(self).preview) == entry_view(old(self).preview)
                && final(self).icon_button@ == old(self).icon_button@,
            picked matches Some(p) ==> entry_view(final(self).preview) == (old(
                self,
            ).preview.name@, p@, old(self).preview.color, old(self).preview.dir@)
                && final(self).icon_button@ == p@,
    {
        if let Some(p) = picked {
            self.icon_button = p.clone();
            self.preview.icon = p;
        }
    }

    /// The color was changed: the preview takes it.
    pub fn color_changed(&mut self, color: C)
        ensures
            entry_view(final(self).preview) == (old(self).preview.name@, old(
                self,
            ).preview.icon@, color, old(self).preview.dir@),
            entry_view(final(self).initial) == entry_view(old(self).initial),
            final(self).dir_label == old(self).dir_label,
            final(self).icon_button@ == old(self).icon_button@,
    {
        self.preview.color = color;
    }

    /// A directory was chosen. With a path, the preview moves to it and is
    /// renamed after the directory, when the path has a last component; the
    /// label shows the path. Without a path the label shows that no
    /// directory is selected; a dismissed choice changes nothing.
    pub fn dir_chosen(&mut self, choice: DirChoice)
        ensures
            entry_view(final(self).initial) == entry_view(old(self).initial),
            final(self).icon_button@ == old(self).icon_button@,
            final(self).preview.icon@ == old(self).preview.icon@,
            final(self).preview.color == old(self).preview.color,
            match choice {
                DirChoice::Path { path, file_name } => {
                    &&& final(self).preview.dir@ == path@
                    &&& final(self).dir_label is Some
                    &&& final(self).dir_label.unwrap()@ == path@
                    &&& final(self).preview.name@ == (match file_name {
                        Some(n) => n@,
                        None => old(self).preview.name@,
                    })
                },
                DirChoice::NoPath => final(self).dir_label is None && entry_view(
                    final(self).preview,
                ) == entry_view(old(self).preview),
                DirChoice::Dismissed => final(self).dir_label == old(self).dir_label && entry_view(
                    final(self).preview,
                ) == entry_view(old(self).preview),
            },
    {
        match choice {
            DirChoice::Path { path, file_name } => {
                self.dir_label = Some(path.clone());
                self.preview.dir = path;
                if let Some(n) = file_name {
                    self.preview.name = n;
                }
            },
            DirChoice::NoPath => {
                self.dir_label = None;
            },
            DirChoice::Dismissed => {},
        }
    }

    /// The dialog closed: applied, the preview replaces the selected
    /// workspace and is returned to be stored; otherwise nothing is stored.
    pub fn respond(self, apply: bool) -> (stored: Option<WorkspaceEntry<C>>)
        ensures
            !apply ==> stored is None,
            apply ==> stored is Some && entry_view(stored.unwrap()) == entry_view(self.preview),
    {
        if apply {
            Some(self.preview)
        } else {
            None
        }
    }
}

} // verus!
