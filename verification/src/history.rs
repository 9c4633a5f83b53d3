//! Linear undo history: a list of snapshots and a position in it.

use vstd::prelude::*;
use vstd::string::StringExecFns;

use crate::bounded_usize::BoundedUsize;

verus! {

/// What a [`History`] holds, as mathematical values: the snapshots from the
/// oldest to the newest, and the index of the current one.
pub struct HistoryView<V> {
    /// The snapshots, oldest first.
    pub entries: Seq<V>,
    /// The index of the current snapshot.
    pub position: nat,
}

impl<V> HistoryView<V> {
    /// The position points at a snapshot, and no two successive snapshots are
    /// equal.
    pub open spec fn wf(self) -> bool {
        &&& self.position < self.entries.len()
        &&& forall|i: int|
            0 <= i < self.entries.len() - 1 ==> self.entries[i] != #[trigger] self.entries[i + 1]
    }

    /// The snapshot at the position.
    pub open spec fn current(self) -> V {
        self.entries[self.position as int]
    }

    /// Whether there is an older snapshot to go back to.
    pub open spec fn can_undo(self) -> bool {
        self.position > 0
    }

    /// Whether there is a newer snapshot to go forward to.
    pub open spec fn can_redo(self) -> bool {
        self.position + 1 < self.entries.len()
    }

    /// One step back, or the same history where there is no older snapshot.
    pub open spec fn undo(self) -> Self {
        if self.can_undo() {
            HistoryView { entries: self.entries, position: (self.position - 1) as nat }
        } else {
            self
        }
    }

    /// One step forward, or the same history where there is no newer snapshot.
    pub open spec fn redo(self) -> Self {
        if self.can_redo() {
            HistoryView { entries: self.entries, position: self.position + 1 }
        } else {
            self
        }
    }

    /// Records `entry`: nothing changes where it equals the current snapshot;
    /// otherwise the snapshots after the position are dropped, `entry` is
    /// appended and becomes the current one.
    pub open spec fn save(self, entry: V) -> Self {
        if entry == self.current() {
            self
        } else {
            HistoryView {
                entries: self.entries.take((self.position + 1) as int).push(entry),
                position: self.position + 1,
            }
        }
    }

    /// Saving keeps a history well formed.
    pub proof fn lemma_save_wf(self, entry: V)
        requires
            self.wf(),
        ensures
            self.save(entry).wf(),
            self.save(entry).current() == entry,
            !self.save(entry).can_redo() || entry == self.current(),
    {
        if entry != self.current() {
            let after = self.save(entry);
            assert forall|i: int| 0 <= i < after.entries.len() - 1 implies after.entries[i]
                != #[trigger] after.entries[i + 1] by {
                if i + 1 < self.position + 1 {
                    assert(after.entries[i] == self.entries[i]);
                    assert(after.entries[i + 1] == self.entries[i + 1]);
                } else {
                    assert(after.entries[i] == self.current());
                }
            }
        }
    }

    /// Undoing right after a snapshot was recorded brings back the snapshot
    /// that was current before: the nearest older snapshot that differs.
    pub proof fn lemma_undo_after_save(self, entry: V)
        requires
            self.wf(),
            entry != self.current(),
        ensures
            self.save(entry).can_undo(),
            self.save(entry).undo().current() == self.current(),
            self.save(entry).undo().position == self.position,
    {
    }

    /// At the oldest snapshot, undoing changes nothing, however often it is
    /// repeated.
    pub proof fn lemma_undo_at_oldest(self)
        requires
            self.wf(),
            self.position == 0,
        ensures
            self.undo() == self,
            self.undo().undo() == self,
    {
    }

    /// Redoing after undoing restores exactly the history that was undone.
    pub proof fn lemma_redo_after_undo(self)
        requires
            self.wf(),
            self.can_undo(),
        ensures
            self.undo().can_redo(),
            self.undo().redo() == self,
    {
    }

    /// Redoing changes nothing where no undo has occurred since the last
    /// snapshot was recorded.
    pub proof fn lemma_redo_after_save(self, entry: V)
        requires
            self.wf(),
            entry != self.current(),
        ensures
            !self.save(entry).can_redo(),
            self.save(entry).redo() == self.save(entry),
    {
    }

    /// Redoing changes nothing once redoing has reached the newest snapshot.
    pub proof fn lemma_redo_at_newest(self)
        requires
            self.wf(),
            !self.can_redo(),
        ensures
            self.redo() == self,
    {
    }

    /// Undoing and redoing keep a history well formed.
    pub proof fn lemma_moves_wf(self)
        requires
            self.wf(),
        ensures
            self.undo().wf(),
            self.redo().wf(),
    {
    }
}

/// Holds the history of the buffer, with the following invariant: there are
/// never 2 successive entries that are equal.
#[derive(Debug)]
pub struct History<T> {
    /// The snapshots, oldest first.
    entries: Vec<T>,
    /// The index of the current snapshot; its maximum is the last index.
    cursor: BoundedUsize,
}

impl<T: View> View for History<T> {
    type V = HistoryView<T::V>;

    closed spec fn view(&self) -> HistoryView<T::V> {
        HistoryView {
            entries: Seq::new(self.entries@.len(), |i: int| self.entries@[i]@),
            position: self.cursor.spec_value(),
        }
    }
}

impl<T: View> History<T> {
    /// The position can reach the last snapshot and no further.
    pub closed spec fn bounded(&self) -> bool {
        &&& self.cursor.wf()
        &&& self.cursor.spec_max() + 1 == self.entries@.len()
    }

    /// The invariant of the type.
    pub open spec fn wf(&self) -> bool {
        &&& self@.wf()
        &&& self.bounded()
    }

    /// Returns the entry at the current position.
    pub fn as_cursor_entry(&self) -> (entry: &T)
        requires
            self.wf(),
        ensures
            entry@ == self@.current(),
    {
        &self.entries[self.cursor.as_value()]
    }

    /// Returns `true` if the position is at the end of the history. This
    /// means that you can't redo.
    pub fn is_cursor_at_end(&self) -> (at_end: bool)
        requires
            self.wf(),
        ensures
            at_end == !self@.can_redo(),
            self@.entries.len() <= usize::MAX,
    {
        self.cursor.as_value() == self.entries.len() - 1
    }

    /// Moves forward into the history, and returns the entry that becomes
    /// current, or `None` at the newest entry.
    pub fn redo(&mut self) -> (entry: Option<&T>)
        requires
            old(self).wf(),
        ensures
            final(self).wf(),
            final(self)@ == old(self)@.redo(),
            entry is Some == old(self)@.can_redo(),
            entry is Some ==> entry->0@ == final(self)@.current(),
    {
        if self.cursor.increment() {
            Some(self.as_cursor_entry())
        } else {
            None
        }
    }

    /// Moves backward into the history, and returns the entry that becomes
    /// current, or `None` at the oldest entry.
    pub fn undo(&mut self) -> (entry: Option<&T>)
        requires
            old(self).wf(),
        ensures
            final(self).wf(),
            final(self)@ == old(self)@.undo(),
            entry is Some == old(self)@.can_undo(),
            entry is Some ==> entry->0@ == final(self)@.current(),
    {
        if self.cursor.decrement() {
            Some(self.as_cursor_entry())
        } else {
            None
        }
    }

    /// Creates a new [`History`], starting with the given value.
    pub fn with_initial_value(value: T) -> (history: Self)
        ensures
            history.wf(),
            history@ == (HistoryView { entries: seq![value@], position: 0 }),
    {
        let mut entries = Vec::new();
        entries.push(value);
        let history = History { entries, cursor: BoundedUsize::default() };
        assert(history@.entries =~= seq![value@]);
        history
    }

    /// Saves `entry` if it is different from the current one, which
    /// `is_entry_same_as_cursor` tells: the entries after the current one are
    /// dropped, and `entry` becomes the newest and the current one.
    pub fn save_clone(&mut self, entry: T, is_entry_same_as_cursor: bool)
        requires
            old(self).wf(),
            is_entry_same_as_cursor == (entry@ == old(self)@.current()),
        ensures
            final(self).wf(),
            final(self)@ == old(self)@.save(entry@),
    {
        if !is_entry_same_as_cursor {
            proof {
                old(self)@.lemma_save_wf(entry@);
            }
            if self.is_cursor_at_end() {
                self.entries.push(entry);
                self.cursor.increment_with_capacity_unchecked();
            } else {
                let kept = self.cursor.as_value() + 1;
                self.entries.truncate(kept);
                self.entries.push(entry);
                self.cursor.set_max(kept);
                self.cursor.set_to_max();
            }
            assert(self@.entries =~= old(self)@.save(entry@).entries);
        }
    }
}

impl History<String> {
    /// Saves the given text in the history, if it is different from the
    /// current entry.
    pub fn save(&mut self, entry: &str)
        requires
            old(self).wf(),
        ensures
            final(self).wf(),
            final(self)@ == old(self)@.save(entry@),
    {
        let owned = String::from_str(entry);
        let same = owned == *self.as_cursor_entry();
        self.save_clone(owned, same);
    }
}

} // verus!
