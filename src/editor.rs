//! The decisions around unsaved changes: when a new, open or exit request runs
//! at once and when it waits behind the unsaved-changes dialog.
use vstd::prelude::*;

verus! {

/// A request that waits for the unsaved-changes dialog to be answered.
#[derive(Clone, Copy, PartialEq, Eq, Debug, Structural)]
pub enum PendingAction {
    New,
    Open,
    Exit,
}

/// An answer to the unsaved-changes dialog.
#[derive(Clone, Copy, PartialEq, Eq, Debug, Structural)]
pub enum DialogChoice {
    /// Save was pressed and the save has been attempted.
    Save,
    /// Go on without saving.
    DontSave,
    /// Keep editing.
    Cancel,
}

/// The state of the document that these decisions read and change.
#[derive(Clone, Copy, PartialEq, Eq, Debug, Structural)]
pub struct UnsavedGuard {
    /// The text has changes that are not saved.
    pub dirty: bool,
    /// The unsaved-changes dialog is shown.
    pub show_unsaved_dialog: bool,
    /// The request that the dialog holds back.
    pub pending_action: Option<PendingAction>,
}

impl UnsavedGuard {
    /// A clean document with no dialog.
    pub fn new() -> (g: Self)
        ensures
            !g.dirty,
            !g.show_unsaved_dialog,
            g.pending_action == None::<PendingAction>,
    {
        UnsavedGuard { dirty: false, show_unsaved_dialog: false, pending_action: None }
    }

    /// Records that the text was changed.
    pub fn mark_edited(&mut self)
        ensures
            *final(self) == (UnsavedGuard { dirty: true, ..*old(self) }),
    {
        self.dirty = true;
    }

    /// Records that the text now matches a file or a fresh document.
    pub fn mark_clean(&mut self)
        ensures
            *final(self) == (UnsavedGuard { dirty: false, ..*old(self) }),
    {
        self.dirty = false;
    }

    /// A new, open or exit request. With unsaved changes it is held back and
    /// the dialog is shown; otherwise it runs at once (returns true).
    pub fn request(&mut self, action: PendingAction) -> (run_now: bool)
        ensures
            run_now == !old(self).dirty,
            run_now ==> *final(self) == *old(self),
            !run_now ==> *final(self) == (UnsavedGuard {
                dirty: true,
                show_unsaved_dialog: true,
                pending_action: Some(action),
            }),
    {
        if self.dirty {
            self.show_unsaved_dialog = true;
            self.pending_action = Some(action);
            false
        } else {
            true
        }
    }

    /// The window is asked to close. Returns whether to cancel the close:
    /// unsaved changes show the dialog with an exit held back, and an open
    /// dialog keeps the window as well.
    pub fn close_requested(&mut self) -> (cancel: bool)
        ensures
            old(self).dirty && !old(self).show_unsaved_dialog ==> cancel && *final(self) == (
            UnsavedGuard {
                dirty: true,
                show_unsaved_dialog: true,
                pending_action: Some(PendingAction::Exit),
            }),
            !(old(self).dirty && !old(self).show_unsaved_dialog) ==> cancel
                == old(self).show_unsaved_dialog && *final(self) == *old(self),
    {
        if self.dirty && !self.show_unsaved_dialog {
            self.show_unsaved_dialog = true;
            self.pending_action = Some(PendingAction::Exit);
            true
        } else {
            self.show_unsaved_dialog
        }
    }

    /// Answers the dialog and returns the held-back request to run now, if
    /// any. Save closes the dialog only once the document is clean; a failed
    /// save keeps it open. Without a dialog nothing happens.
    pub fn resolve_dialog(&mut self, choice: DialogChoice) -> (run: Option<PendingAction>)
        ensures
            ({
                let closes = old(self).show_unsaved_dialog && match choice {
                    DialogChoice::Save => !old(self).dirty,
                    _ => true,
                };
                &&& closes ==> *final(self) == (UnsavedGuard {
                    dirty: old(self).dirty,
                    show_unsaved_dialog: false,
                    pending_action: None,
                })
                &&& !closes ==> *final(self) == *old(self)
                &&& run == if closes && choice != DialogChoice::Cancel {
                    old(self).pending_action
                } else {
                    None
                }
            }),
    {
        if !self.show_unsaved_dialog {
            return None;
        }
        let run = match choice {
            DialogChoice::Save => {
                if self.dirty {
                    return None;
                }
                self.pending_action
            },
            DialogChoice::DontSave => self.pending_action,
            DialogChoice::Cancel => None,
        };
        self.show_unsaved_dialog = false;
        self.pending_action = None;
        run
    }
}

} // verus!
