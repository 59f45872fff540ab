//! The document slot and its state machine: at most one document is bound at
//! a time, and every open / save / save-as outcome maps to one transition.
//!
//! The surrounding UI layer performs the file dialogs and the reads and
//! writes; it reports each outcome here as a [`DocEvent`], and this module
//! alone decides what the slot becomes. A failed read or write, or a
//! cancelled dialog, leaves the slot exactly as it was.

use vstd::prelude::*;
use crate::fingerprint::sha3_of;
use crate::metadata::Metadata;
use crate::metadata::dirty_against;

verus! {

/// What a save request must do next, decided from the slot alone.
pub enum SavePlan {
    /// A plain save of a bound document: write to this path, then report
    /// `DocEvent::Persisted`.
    WriteBound(String),
    /// Save-as, or a plain save with nothing bound: prompt the user for a
    /// path before anything is written.
    AskForPath,
}

/// The outcome of one user action, reported by the I/O layer after it ran.
pub enum DocEvent {
    /// A file was read in full.
    Loaded { path: String, content: Vec<u8> },
    /// The read failed; nothing was loaded.
    LoadFailed,
    /// The content was written to the already-bound path.
    Persisted { content: Vec<u8> },
    /// The content was written to a newly chosen path.
    PersistedAt { path: String, content: Vec<u8> },
    /// The user dismissed the path dialog; nothing was written.
    DialogCancelled,
    /// The write failed; nothing reached the disk.
    WriteFailed,
}

/// The shared slot: empty until a file is first opened or saved, then bound.
pub struct DocumentSlot {
    current: Option<Metadata>,
}

impl DocumentSlot {
    /// Whether a document is bound.
    pub closed spec fn bound(&self) -> bool {
        self.current is Some
    }

    /// The bound document's path.
    pub closed spec fn path_model(&self) -> Seq<char>
        recommends
            self.bound(),
    {
        self.current->0.path_spec()
    }

    /// The bound document's last-persisted fingerprint.
    pub closed spec fn hash_model(&self) -> Seq<u8>
        recommends
            self.bound(),
    {
        self.current->0.hash_spec()
    }

    /// Whether `content` counts as unsaved against this slot: no document is
    /// bound, or the bound fingerprint differs from the content's.
    pub open spec fn dirty_model(&self, content: Seq<u8>) -> bool {
        !self.bound() || dirty_against(self.hash_model(), content)
    }

    /// The empty, untitled state.
    pub fn new() -> (r: Self)
        ensures
            !r.bound(),
    {
        DocumentSlot { current: None }
    }

    /// Whether a document is bound.
    pub fn is_bound(&self) -> (r: bool)
        ensures
            r == self.bound(),
    {
        self.current.is_some()
    }

    /// The bound path, for display in the title region; `None` when untitled.
    pub fn bound_path(&self) -> (r: Option<&String>)
        ensures
            match r {
                Some(p) => self.bound() && p@ == self.path_model(),
                None => !self.bound(),
            },
    {
        match &self.current {
            Some(m) => Some(m.get_path()),
            None => None,
        }
    }

    /// Whether `content` is unsaved, consulted on every edit to set the
    /// save affordance.
    pub fn is_dirty(&self, content: &[u8]) -> (r: bool)
        ensures
            r == self.dirty_model(content@),
    {
        match &self.current {
            Some(m) => !m.is_same_as(content),
            None => true,
        }
    }

    /// Decide what a save request does: write straight to the bound path, or
    /// prompt for one (save-as always prompts; so does an untitled save).
    pub fn plan_save(&self, save_as: bool) -> (p: SavePlan)
        ensures
            match p {
                SavePlan::WriteBound(path) => !save_as && self.bound() && path@
                    == self.path_model(),
                SavePlan::AskForPath => save_as || !self.bound(),
            },
    {
        if !save_as {
            match &self.current {
                Some(m) => {
                    return SavePlan::WriteBound(m.get_path().clone());
                },
                None => {},
            }
        }
        SavePlan::AskForPath
    }

    /// Apply one outcome to the slot. A successful load or a save at a new
    /// path binds (replacing whatever was bound, unsaved or not); a
    /// successful save at the bound path refreshes the fingerprint and keeps
    /// the path; a failure or a cancelled dialog changes nothing.
    pub fn handle_event(&mut self, ev: DocEvent)
        ensures
            match ev {
                DocEvent::Loaded { path, content } => final(self).bound()
                    && final(self).path_model() == path@
                    && final(self).hash_model() == sha3_of(content@),
                DocEvent::LoadFailed => *final(self) == *old(self),
                DocEvent::Persisted { content } => if old(self).bound() {
                    final(self).bound() && final(self).path_model() == old(self).path_model()
                        && final(self).hash_model() == sha3_of(content@)
                } else {
                    *final(self) == *old(self)
                },
                DocEvent::PersistedAt { path, content } => final(self).bound()
                    && final(self).path_model() == path@
                    && final(self).hash_model() == sha3_of(content@),
                DocEvent::DialogCancelled => *final(self) == *old(self),
                DocEvent::WriteFailed => *final(self) == *old(self),
            },
    {
        match ev {
            DocEvent::Loaded { path, content } => {
                self.current = Some(Metadata::new(path, content.as_slice()));
            },
            DocEvent::LoadFailed => {},
            DocEvent::Persisted { content } => {
                match self.current.take() {
                    Some(mut m) => {
                        m.set_data(content.as_slice());
                        self.current = Some(m);
                    },
                    None => {},
                }
            },
            DocEvent::PersistedAt { path, content } => {
                self.current = Some(Metadata::new(path, content.as_slice()));
            },
            DocEvent::DialogCancelled => {},
            DocEvent::WriteFailed => {},
        }
    }
}

/// A slot freshly bound to `content` is not dirty against `content`, whatever
/// path it was bound at.
pub proof fn lemma_bound_slot_clean(s: DocumentSlot, content: Seq<u8>)
    requires
        s.bound(),
        s.hash_model() == sha3_of(content),
    ensures
        !s.dirty_model(content),
{
}

/// An event that reports a failure or a cancellation leaves the dirty status
/// of any content exactly as it was.
pub proof fn lemma_unchanged_slot_same_dirty(before: DocumentSlot, after: DocumentSlot, content: Seq<u8>)
    requires
        after == before,
    ensures
        after.dirty_model(content) == before.dirty_model(content),
{
}

} // verus!
