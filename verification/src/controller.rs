//! The interaction state machine of the browser.
//!
//! An [`App`] owns the current path, the listing of that directory, and
//! an optional modal overlay ([`Popup`]): either the delete confirmation
//! or the rename input.  Key handlers interpret one discrete command
//! against the current mode.  Handlers that need the filesystem return
//! an [`Effect`] describing the request and leave the state untouched;
//! the host performs the request and commits the outcome through
//! [`App::apply_listing`] or [`App::apply_rename`].  A failed request is
//! simply never committed, so the browser stays usable at its prior
//! state.

use crate::listing::{ChildEntry, File, Files, State};
use crate::paths::{lemma_enter_then_up, lemma_parent_keeps_root, parent_of, parent_path};
use vstd::prelude::*;
use vstd::pervasive::unreached;
use vstd::string::StringExecFns;

verus! {

/// Which kind of modal overlay a [`Popup`] is.
pub enum PopupType {
    /// The placeholder of a popup that has never been opened.
    Default,
    /// The delete confirmation dialog.
    DeleteFile,
    /// The rename input dialog.
    RenameFile,
}

/// The modal overlay.  `state.selected` is the binary choice cursor of
/// the delete confirmation (0 = cancel, 1 = proceed); `input` is the
/// rename text buffer; `title` and `choices` are display labels.
pub struct Popup {
    pub title: &'static str,
    pub choices: [&'static str; 2],
    pub popup_type: PopupType,
    pub visible: bool,
    pub state: State,
    pub input: String,
}

impl Popup {
    pub fn new(
        title: &'static str,
        popup_type: PopupType,
        visible: bool,
        state: State,
        choices: [&'static str; 2],
        input: String,
    ) -> (p: Popup)
        ensures
            p == (Popup { title, popup_type, visible, state, choices, input }),
    {
        Popup { title, popup_type, visible, state, choices, input }
    }
}

/// A freshly opened overlay of kind `kind`: visible, the choice cursor
/// on the first (cancel) entry, an empty input buffer, and the given
/// display labels.
pub open spec fn opened_popup(
    p: Popup,
    kind: PopupType,
    title: &'static str,
    choice0: &'static str,
    choice1: &'static str,
) -> bool {
    &&& p.visible
    &&& p.popup_type == kind
    &&& p.state.selected == 0
    &&& p.input@ == Seq::<char>::empty()
    &&& p.title@ == title@
    &&& p.choices@[0]@ == choice0@
    &&& p.choices@[1]@ == choice1@
}

/// What the host must do on the filesystem after a command, if
/// anything.
pub enum Effect {
    /// Nothing to do.
    Idle,
    /// Enumerate the directory at `path`; on success hand its children
    /// to [`App::apply_listing`], on failure change nothing.
    ReadDir { path: String },
    /// Delete the file at `path` (recursively, if it is a directory),
    /// then re-enumerate the current directory and hand its children to
    /// [`App::apply_listing`] so the listing matches the filesystem
    /// again.
    DeleteEntry { path: String, is_dir: bool },
    /// Rename the entry at `from` to `to`; on success call
    /// [`App::apply_rename`], on failure change nothing, so the dialog
    /// and the typed name are kept for a retry.
    RenameEntry { from: String, to: String },
}

/// The whole browser state: current path, listing, overlay, and the
/// quit flag observed by the host loop.
pub struct App {
    pub title: &'static str,
    pub should_quit: bool,
    pub root: String,
    pub path: String,
    pub popup: Popup,
    pub files: Files,
}

impl App {
    /// No overlay is open.
    pub open spec fn browsing(self) -> bool {
        !self.popup.visible
    }

    /// The delete confirmation is open.
    pub open spec fn confirming_delete(self) -> bool {
        self.popup.visible && self.popup.popup_type is DeleteFile
    }

    /// The rename input is open.
    pub open spec fn entering_rename(self) -> bool {
        self.popup.visible && self.popup.popup_type is RenameFile
    }

    /// The entry under the listing cursor.
    pub open spec fn selected_file(self) -> File {
        self.files.files@[self.files.state.selected as int]
    }

    /// The same state with the overlay closed.
    pub open spec fn with_closed_popup(self) -> App {
        App { popup: Popup { visible: false, ..self.popup }, ..self }
    }

    /// The same state with another listing cursor.
    pub open spec fn with_selection(self, i: int) -> App {
        App { files: self.files.with_selected(i), ..self }
    }

    /// The same state with another choice cursor in the overlay.
    pub open spec fn with_choice(self, i: int) -> App {
        App { popup: Popup { state: State { selected: i as usize }, ..self.popup }, ..self }
    }

    /// `post` is `pre` with at most the overlay changed.
    pub open spec fn eq_except_popup(pre: App, post: App) -> bool {
        post == (App { popup: post.popup, ..pre })
    }

    /// `post` is `pre` with the character `c` appended to the rename
    /// buffer and nothing else changed.
    pub open spec fn types_into_buffer(pre: App, post: App, c: char) -> bool {
        &&& post == (App { popup: Popup { input: post.popup.input, ..pre.popup }, ..pre })
        &&& post.popup.input@ == pre.popup.input@.push(c)
    }

    /// `post` is `pre` with the last character of the rename buffer
    /// removed (nothing else changed); an empty buffer stays empty.
    pub open spec fn erases_from_buffer(pre: App, post: App) -> bool {
        &&& post == (App { popup: Popup { input: post.popup.input, ..pre.popup }, ..pre })
        &&& post.popup.input@ == if pre.popup.input@.len() == 0 {
            pre.popup.input@
        } else {
            pre.popup.input@.drop_last()
        }
    }

    /// The invariant of the browser state:
    /// - the listing cursor stays inside the listing;
    /// - the configured root ends with the separator and is a prefix of
    ///   the current path, which also ends with the separator;
    /// - every listed entry is well-formed for the current path;
    /// - an open overlay is the delete or the rename dialog, targets an
    ///   existing selection, and keeps its choice cursor binary.
    pub open spec fn wf(self) -> bool {
        &&& self.files.wf()
        &&& self.root@.len() > 0
        &&& self.root@.last() == '/'
        &&& self.path@.len() >= self.root@.len()
        &&& self.path@.subrange(0, self.root@.len() as int) == self.root@
        &&& self.path@.last() == '/'
        &&& self.files.entries_wf(self.path@)
        &&& (self.popup.visible ==> {
            &&& !(self.popup.popup_type is Default)
            &&& self.files.files@.len() > 0
            &&& self.popup.state.selected <= 1
        })
    }

    /// A fresh browser at the configured root directory, whose children
    /// the host has enumerated: no overlay, no quit request, selection
    /// on the first entry.
    pub fn new(title: &'static str, root: String, children: Vec<ChildEntry>) -> (app: App)
        requires
            root@.len() > 0,
            root@.last() == '/',
        ensures
            app.wf(),
            app.title == title,
            !app.should_quit,
            app.root == root,
            app.path == root,
            app.browsing(),
            app.files.state.selected == 0,
            app.files.files@.len() == children@.len(),
            forall|i: int|
                0 <= i < children@.len() ==> Files::entry_matches(
                    #[trigger] app.files.files@[i],
                    children@[i],
                    root@,
                ),
    {
        let path = root.clone();
        let files = Files::new(&path, children);
        let app = App {
            title,
            should_quit: false,
            root,
            path,
            popup: Popup::new(
                "default",
                PopupType::Default,
                false,
                State::new(),
                ["default", "default"],
                String::new(),
            ),
            files,
        };
        proof {
            assert(app.path@.subrange(0, app.root@.len() as int) =~= app.root@);
        }
        app
    }

    /// Moves the listing selection one entry up (with wrap-around)
    /// while browsing; in the delete confirmation it toggles the
    /// choice; the rename input ignores it.
    pub fn on_up(&mut self)
        requires
            old(self).wf(),
        ensures
            final(self).wf(),
            old(self).browsing() ==> *final(self) == old(self).with_selection(
                old(self).files.prev_selected(),
            ),
            old(self).confirming_delete() ==> *final(self) == old(self).with_choice(
                1 - old(self).popup.state.selected,
            ),
            old(self).entering_rename() ==> *final(self) == *old(self),
    {
        if self.popup.visible {
            if matches!(self.popup.popup_type, PopupType::DeleteFile) {
                let choice: usize = if self.popup.state.selected == 0 {
                    1
                } else {
                    0
                };
                self.popup.state.select(choice);
            }
        } else {
            self.files.previous();
        }
    }

    /// Moves the listing selection one entry down (with wrap-around)
    /// while browsing; in the delete confirmation it toggles the
    /// choice; the rename input ignores it.
    pub fn on_down(&mut self)
        requires
            old(self).wf(),
        ensures
            final(self).wf(),
            old(self).browsing() ==> *final(self) == old(self).with_selection(
                old(self).files.next_selected(),
            ),
            old(self).confirming_delete() ==> *final(self) == old(self).with_choice(
                1 - old(self).popup.state.selected,
            ),
            old(self).entering_rename() ==> *final(self) == *old(self),
    {
        if self.popup.visible {
            if matches!(self.popup.popup_type, PopupType::DeleteFile) {
                let choice: usize = if self.popup.state.selected == 0 {
                    1
                } else {
                    0
                };
                self.popup.state.select(choice);
            }
        } else {
            self.files.next();
        }
    }

    /// Ignored; the browser has no horizontal movement.
    pub fn on_right(&mut self)
        ensures
            *final(self) == *old(self),
    {
    }

    /// Ignored; the browser has no horizontal movement.
    pub fn on_left(&mut self)
        ensures
            *final(self) == *old(self),
    {
    }

    /// Handles a typed character.  While browsing, `q` requests quit,
    /// `d` opens the delete confirmation and `r` the rename input (both
    /// only when an entry is selected, and the choice cursor starts on
    /// cancel); while the rename input is open every character goes
    /// into the buffer; the delete confirmation ignores characters.
    ///
    /// The quit flag is only ever set while no overlay is open, so an
    /// open dialog can never be bypassed by a quit.
    pub fn on_key(&mut self, c: char)
        requires
            old(self).wf(),
        ensures
            final(self).wf(),
            final(self).should_quit == (old(self).should_quit || (old(self).browsing() && c
                == 'q')),
            old(self).confirming_delete() ==> *final(self) == *old(self),
            old(self).entering_rename() ==> Self::types_into_buffer(*old(self), *final(self), c),
            (old(self).browsing() && c == 'q') ==> *final(self) == (App {
                should_quit: true,
                ..*old(self)
            }),
            (old(self).browsing() && c == 'd' && old(self).files.files@.len() > 0) ==> ({
                &&& Self::eq_except_popup(*old(self), *final(self))
                &&& opened_popup(
                    final(self).popup,
                    PopupType::DeleteFile,
                    "Delete file",
                    "Cancel",
                    "Delete",
                )
            }),
            (old(self).browsing() && c == 'r' && old(self).files.files@.len() > 0) ==> ({
                &&& Self::eq_except_popup(*old(self), *final(self))
                &&& opened_popup(
                    final(self).popup,
                    PopupType::RenameFile,
                    "Rename file",
                    "Cancel",
                    "Confirm",
                )
            }),
            (old(self).browsing() && c != 'q' && (old(self).files.files@.len() == 0 || (c != 'd'
                && c != 'r'))) ==> *final(self) == *old(self),
    {
        if self.popup.visible {
            if matches!(self.popup.popup_type, PopupType::RenameFile) {
                self.popup.input.push(c);
            }
        } else {
            match c {
                'q' => {
                    self.should_quit = true;
                },
                'd' => {
                    if self.files.files.len() > 0 {
                        self.popup = Popup::new(
                            "Delete file",
                            PopupType::DeleteFile,
                            true,
                            State::new(),
                            ["Cancel", "Delete"],
                            String::new(),
                        );
                    }
                },
                'r' => {
                    if self.files.files.len() > 0 {
                        self.popup = Popup::new(
                            "Rename file",
                            PopupType::RenameFile,
                            true,
                            State::new(),
                            ["Cancel", "Confirm"],
                            String::new(),
                        );
                    }
                },
                _ => {},
            }
        }
    }

    /// Interprets the confirm key.
    ///
    /// While browsing it requests entry into the selected directory
    /// (the state waits unchanged until the host commits the new
    /// listing); on a non-directory selection, or an empty listing, it
    /// changes nothing.  In the delete confirmation it closes the
    /// dialog, and requests the deletion if the proceed choice was
    /// selected.  In the rename input it requests the rename and keeps
    /// the dialog open until the host reports success through
    /// [`App::apply_rename`].
    pub fn on_enter(&mut self) -> (effect: Effect)
        requires
            old(self).wf(),
        ensures
            final(self).wf(),
            (old(self).browsing() && (old(self).files.files@.len() == 0 || !old(
                self,
            ).selected_file().is_dir)) ==> *final(self) == *old(self) && effect is Idle,
            (old(self).browsing() && old(self).files.files@.len() > 0 && old(
                self,
            ).selected_file().is_dir) ==> *final(self) == *old(self) && (effect matches
                Effect::ReadDir { path } && path@ == old(self).path@ + old(
                self,
            ).selected_file().name@),
            (old(self).confirming_delete() && old(self).popup.state.selected == 0) ==> *final(self)
                == old(self).with_closed_popup() && effect is Idle,
            (old(self).confirming_delete() && old(self).popup.state.selected == 1) ==> *final(self)
                == old(self).with_closed_popup() && (effect matches Effect::DeleteEntry {
                path,
                is_dir,
            } && path == old(self).selected_file().path && is_dir == old(
                self,
            ).selected_file().is_dir),
            old(self).entering_rename() ==> *final(self) == *old(self) && (effect matches
                Effect::RenameEntry { from, to } && from == old(self).selected_file().path && to@
                == old(self).path@ + old(self).popup.input@),
    {
        if !self.popup.visible {
            if self.files.files.len() == 0 {
                return Effect::Idle;
            }
            let sel: usize = self.files.state.selected;
            if self.files.files[sel].is_dir {
                let new_path = self.path.clone().concat(self.files.files[sel].name.as_str());
                Effect::ReadDir { path: new_path }
            } else {
                Effect::Idle
            }
        } else {
            match self.popup.popup_type {
                PopupType::DeleteFile => {
                    self.popup.visible = false;
                    if self.popup.state.selected == 0 {
                        Effect::Idle
                    } else {
                        let sel: usize = self.files.state.selected;
                        Effect::DeleteEntry {
                            path: self.files.files[sel].path.clone(),
                            is_dir: self.files.files[sel].is_dir,
                        }
                    }
                },
                PopupType::RenameFile => {
                    let sel: usize = self.files.state.selected;
                    let to = self.path.clone().concat(self.popup.input.as_str());
                    Effect::RenameEntry { from: self.files.files[sel].path.clone(), to }
                },
                PopupType::Default => unreached(),
            }
        }
    }

    /// Interprets the escape key: an open overlay is closed and its
    /// input discarded; otherwise, away from the root, going up one
    /// directory is requested (the state waits unchanged until the host
    /// commits the parent's listing); at the configured root nothing
    /// happens.
    pub fn on_esc(&mut self) -> (effect: Effect)
        requires
            old(self).wf(),
        ensures
            final(self).wf(),
            old(self).popup.visible ==> *final(self) == old(self).with_closed_popup() && effect
                is Idle,
            (old(self).browsing() && old(self).path@ == old(self).root@) ==> *final(self) == *old(
                self,
            ) && effect is Idle,
            (old(self).browsing() && old(self).path@ != old(self).root@) ==> *final(self) == *old(
                self,
            ) && (effect matches Effect::ReadDir { path } && path@ == parent_of(old(self).path@)
                && old(self).root@.len() <= path@.len() < old(self).path@.len() && path@.subrange(
                0,
                old(self).root@.len() as int,
            ) == old(self).root@ && path@.last() == '/'),
    {
        if self.popup.visible {
            self.popup.visible = false;
            return Effect::Idle;
        }
        if self.path == self.root {
            return Effect::Idle;
        }
        proof {
            if self.path@.len() == self.root@.len() {
                assert(self.path@.subrange(0, self.root@.len() as int) =~= self.path@);
            }
            assert(self.path@[self.root@.len() - 1] == self.path@.subrange(
                0,
                self.root@.len() as int,
            )[self.root@.len() - 1]);
            assert(self.path@[self.root@.len() - 1] == '/');
            lemma_parent_keeps_root(self.root@, self.path@);
        }
        let parent = parent_path(&self.path);
        Effect::ReadDir { path: parent }
    }

    /// Removes the last character of the rename buffer; outside the
    /// rename input, or with an empty buffer, nothing happens.
    pub fn on_backspace(&mut self)
        requires
            old(self).wf(),
        ensures
            final(self).wf(),
            old(self).entering_rename() ==> Self::erases_from_buffer(*old(self), *final(self)),
            !old(self).entering_rename() ==> *final(self) == *old(self),
    {
        if self.popup.visible {
            if matches!(self.popup.popup_type, PopupType::RenameFile) {
                let _ = self.popup.input.pop();
            }
        }
    }

    /// Commits a navigation or a refresh: the host enumerated the
    /// directory at `path` — the target of a `ReadDir` effect, or the
    /// current path again after a deletion — and hands in its children.
    /// The browser moves to `path` with a fresh listing and the
    /// selection back on the first entry.  After a failed enumeration
    /// the host does not call this, which leaves the browser at its
    /// prior path with its prior listing.
    pub fn apply_listing(&mut self, path: String, children: Vec<ChildEntry>)
        requires
            old(self).wf(),
            old(self).browsing(),
            path@.len() >= old(self).root@.len(),
            path@.subrange(0, old(self).root@.len() as int) == old(self).root@,
            path@.last() == '/',
        ensures
            final(self).wf(),
            final(self).browsing(),
            final(self).title == old(self).title,
            final(self).should_quit == old(self).should_quit,
            final(self).root == old(self).root,
            final(self).popup == old(self).popup,
            final(self).path == path,
            final(self).files.state.selected == 0,
            final(self).files.files@.len() == children@.len(),
            forall|i: int|
                0 <= i < children@.len() ==> Files::entry_matches(
                    #[trigger] final(self).files.files@[i],
                    children@[i],
                    path@,
                ),
    {
        proof {
            assert(path@.len() > 0);
            assert(path@.subrange(0, old(self).root@.len() as int)[0] == path@[0]);
        }
        let files = Files::new(&path, children);
        self.files = files;
        self.path = path;
    }

    /// Commits a successful rename: the filesystem entry was renamed to
    /// the buffer's contents, so the selected entry's display name and
    /// path are updated to match — directory-ness preserved, separator
    /// re-appended for a directory — and the dialog closes.  After a
    /// failed rename the host does not call this: the dialog and the
    /// typed name stay, so the user can retry.
    pub fn apply_rename(&mut self)
        requires
            old(self).wf(),
            old(self).entering_rename(),
        ensures
            final(self).wf(),
            final(self).popup == (Popup { visible: false, ..old(self).popup }),
            final(self).title == old(self).title,
            final(self).should_quit == old(self).should_quit,
            final(self).root == old(self).root,
            final(self).path == old(self).path,
            final(self).files.state == old(self).files.state,
            final(self).files.files@.len() == old(self).files.files@.len(),
            forall|i: int|
                0 <= i < old(self).files.files@.len() && i != old(self).files.state.selected as int
                    ==> final(self).files.files@[i] == old(self).files.files@[i],
            final(self).selected_file().is_dir == old(self).selected_file().is_dir,
            final(self).selected_file().size == old(self).selected_file().size,
            final(self).selected_file().name@ == if old(self).selected_file().is_dir {
                old(self).popup.input@ + seq!['/']
            } else {
                old(self).popup.input@
            },
            final(self).selected_file().path@ == old(self).path@ + old(self).popup.input@,
    {
        let sel: usize = self.files.state.selected;
        let is_dir = self.files.files[sel].is_dir;
        let size = self.files.files[sel].size;
        let mut name = self.popup.input.clone();
        let new_path = self.path.clone().concat(self.popup.input.as_str());
        if is_dir {
            name.push('/');
        }
        let renamed = File::new(name, is_dir, size, new_path);
        proof {
            if is_dir {
                assert(self.popup.input@.push('/') =~= self.popup.input@ + seq!['/']);
                assert((self.popup.input@ + seq!['/']).drop_last() =~= self.popup.input@);
            }
            assert(renamed.wf_in(self.path@));
        }
        self.files.files[sel] = renamed;
        self.popup.visible = false;
    }
}

/// Navigating into a listed subdirectory and then going up returns to
/// where the browser was: the `ReadDir` target that `on_enter` requests
/// for a directory entry — the current path followed by the entry's
/// display name — has the current path as its parent again.  This holds
/// for every entry whose base name is nonempty and free of separators,
/// which is true of every name a directory enumeration reports.
pub proof fn lemma_navigation_round_trip(app: App)
    requires
        app.wf(),
        app.browsing(),
        app.files.files@.len() > 0,
        app.selected_file().is_dir,
        app.selected_file().base().len() > 0,
        forall|i: int|
            0 <= i < app.selected_file().base().len() ==> app.selected_file().base()[i] != '/',
    ensures
        parent_of(app.path@ + app.selected_file().name@) == app.path@,
{
    let f = app.selected_file();
    assert(f.wf_in(app.path@));
    assert(f.name@ =~= f.base() + seq!['/']);
    lemma_enter_then_up(app.path@, f.base());
    assert(app.path@ + f.name@ =~= (app.path@ + f.base()) + seq!['/']);
}

} // verus!
