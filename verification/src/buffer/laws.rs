//! What holds of the buffer whatever the keys that were pressed.

use vstd::prelude::*;

use crate::buffer::api::BufferView;
use crate::buffer::motion::{lemma_first_from, lemma_last_before, CharTest};
use crate::event::{KeyCode, KeyEvent, KeyModifiers};
use crate::keymaps::{Action, GoToAction, OPending};
use crate::mode::Mode;

verus! {

impl BufferView {
    /// The key of undo: the press of `u` with no modifier.
    pub open spec fn undo_key() -> KeyEvent {
        KeyEvent::new(KeyCode::Char('u'), KeyModifiers::none())
    }

    /// The key of redo: the press of `r` with control alone.
    pub open spec fn redo_key() -> KeyEvent {
        KeyEvent::new(KeyCode::Char('r'), KeyModifiers::control())
    }

    /// The buffer is at rest: in normal mode, with no command pending, and
    /// its content is the current snapshot of its history.
    pub open spec fn at_rest(self) -> bool {
        &&& self.mode == Mode::Normal
        &&& self.pending is None
        &&& self.content == self.history.current()
    }

    /// Whether none of `actions` moves in the history.
    pub open spec fn no_history_move(actions: Seq<Action>) -> bool {
        forall|i: int|
            0 <= i < actions.len() ==> #[trigger] actions[i] != Action::Undo && actions[i]
                != Action::Redo
    }

    /// Whether the events of `events` from the index `from` on make one
    /// editing session: none of them stands for an undo or a redo, and the
    /// buffer is in insert mode between any two of them.
    pub open spec fn one_session_from(self, events: Seq<KeyEvent>, from: int) -> bool
        decreases events.len() - from,
    {
        if from < 0 || from >= events.len() {
            true
        } else {
            let after = self.update(events[from]).0;
            &&& Self::no_history_move(self.bindings(events[from]).0)
            &&& from + 1 < events.len() ==> after.mode == Mode::Insert
            &&& after.one_session_from(events, from + 1)
        }
    }

    /// A motion fails only where it looks for a char that does not occur:
    /// after the cursor for [`GoToAction::NextOccurrenceOf`], before it for
    /// [`GoToAction::PreviousOccurrenceOf`]. A motion that fails leaves the
    /// content and the cursor, and all the rest of the buffer, as they are.
    pub proof fn lemma_failed_motion(self, goto: GoToAction)
        requires
            self.wf(),
        ensures
            !self.go_to(goto).1 ==> self.go_to(goto).0 == self,
            !self.go_to(goto).1 ==> self.apply(Action::GoTo(goto)) == (self, false),
            !self.go_to(goto).1 <==> match goto {
                GoToAction::NextOccurrenceOf(ch) => forall|i: int|
                    self.cursor < i < self.content.len() ==> self.content[i] != ch,
                GoToAction::PreviousOccurrenceOf(ch) => forall|i: int|
                    0 <= i < self.cursor ==> self.content[i] != ch,
                _ => false,
            },
    {
        match goto {
            GoToAction::NextOccurrenceOf(ch) => {
                if self.cursor < self.content.len() {
                    lemma_first_from(self.content, (self.cursor + 1) as int, CharTest::Is(ch));
                }
            },
            GoToAction::PreviousOccurrenceOf(ch) => {
                lemma_last_before(self.content, self.cursor as int, CharTest::Is(ch));
            },
            _ => {},
        }
    }

    /// From any text and through any key events, the cursor stays within the
    /// content or right after it.
    pub proof fn lemma_cursor_in_content(content: Seq<char>, events: Seq<KeyEvent>)
        ensures
            Self::starting_with(content).replay(events).wf(),
            Self::starting_with(content).replay(events).cursor <= Self::starting_with(
                content,
            ).replay(events).content.len(),
    {
        Self::starting_with(content).lemma_replay_from_wf(events, 0);
    }

    /// After a key event that leaves the buffer in normal mode, the content
    /// is the current snapshot of the history.
    pub proof fn lemma_update_records_content(self, event: KeyEvent)
        requires
            self.wf(),
        ensures
            self.update(event).0.mode == Mode::Normal ==> self.update(event).0.history.current()
                == self.update(event).0.content,
    {
        self.lemma_update_wf(event);
        let before = self.update_no_save(event).0;
        before.history.lemma_save_wf(before.content);
    }

    /// Actions that do not move in the history leave it as it is.
    pub proof fn lemma_apply_from_keeps_history(self, actions: Seq<Action>, from: int)
        requires
            Self::no_history_move(actions),
        ensures
            self.apply_from(actions, from).0.history == self.history,
        decreases actions.len() - from,
    {
        if 0 <= from < actions.len() {
            assert(actions[from] != Action::Undo && actions[from] != Action::Redo);
            if self.apply(actions[from]).1 {
                self.apply(actions[from]).0.lemma_apply_from_keeps_history(actions, from + 1);
            }
        }
    }

    /// The press of `u` at rest, where an older snapshot exists: the content
    /// becomes the snapshot right before the current one, which differs from
    /// the content that is left, and the buffer is at rest there.
    pub proof fn lemma_undo_restores_previous_snapshot(self)
        requires
            self.wf(),
            self.at_rest(),
            self.history.can_undo(),
        ensures
            self.update(Self::undo_key()).1,
            self.update(Self::undo_key()).0.content == self.history.entries[self.history.position
                - 1],
            self.update(Self::undo_key()).0.content != self.content,
            self.update(Self::undo_key()).0.history == self.history.undo(),
            self.update(Self::undo_key()).0.at_rest(),
    {
        let actions = seq![Action::Undo];
        assert(self.bindings(Self::undo_key()) == (actions, None::<OPending>));
        let (undone, _) = self.apply(Action::Undo);
        assert(self.apply_from(actions, 0) == undone.apply_from(actions, 1));
        let older = self.history.position - 1;
        assert(self.history.entries[older] != self.history.entries[older + 1]);
    }

    /// The press of `u` at rest at the oldest snapshot changes nothing,
    /// however often it is repeated.
    pub proof fn lemma_undo_at_oldest_snapshot(self)
        requires
            self.wf(),
            self.at_rest(),
            !self.history.can_undo(),
        ensures
            self.update(Self::undo_key()) == (self, false),
            self.update(Self::undo_key()).0.update(Self::undo_key()) == (self, false),
    {
        let actions = seq![Action::Undo];
        assert(self.bindings(Self::undo_key()) == (actions, None::<OPending>));
        assert(self.apply_from(actions, 0) == (self, false));
    }

    /// After the events of one editing session the history holds at most one
    /// snapshot more: where the session ends in normal mode, its content is
    /// recorded after the snapshot that was current before the session.
    pub proof fn lemma_session_history(self, events: Seq<KeyEvent>, from: int)
        requires
            self.wf(),
            0 <= from < events.len(),
            self.one_session_from(events, from),
        ensures
            self.replay_from(events, from).history == match self.replay_from(events, from).mode {
                Mode::Normal => self.history.save(self.replay_from(events, from).content),
                Mode::Insert => self.history,
            },
        decreases events.len() - from,
    {
        let event = events[from];
        let (actions, pending) = self.bindings(event);
        let start = BufferView { pending, ..self };
        start.lemma_apply_from_keeps_history(actions, 0);
        self.lemma_update_wf(event);
        let after = self.update(event).0;
        if from + 1 < events.len() {
            after.lemma_session_history(events, from + 1);
        } else {
            assert(after.replay_from(events, from + 1) == after);
        }
    }

    /// Undo after one editing session that ends at rest and has changed the
    /// content: the press of `u` restores the snapshot that was current
    /// before the session, and the press of the key of redo does nothing, as
    /// no undo has occurred since the edit.
    pub proof fn lemma_undo_after_session(self, events: Seq<KeyEvent>)
        requires
            self.wf(),
            events.len() > 0,
            self.one_session_from(events, 0),
            self.replay(events).mode == Mode::Normal,
            self.replay(events).pending is None,
            self.replay(events).content != self.history.current(),
        ensures
            self.replay(events).at_rest(),
            self.replay(events).update(Self::undo_key()).1,
            self.replay(events).update(Self::undo_key()).0.content == self.history.current(),
            self.replay(events).update(Self::redo_key()) == (self.replay(events), false),
    {
        self.lemma_session_history(events, 0);
        self.lemma_replay_from_wf(events, 0);
        let after = self.replay(events);
        self.history.lemma_save_wf(after.content);
        self.history.lemma_undo_after_save(after.content);
        self.history.lemma_redo_after_save(after.content);
        after.lemma_undo_restores_previous_snapshot();
        after.lemma_redo_at_newest_snapshot();
    }

    /// Redo after undo, both at rest: the press of the key of redo restores
    /// exactly the content and the history that the press of `u` had left.
    pub proof fn lemma_redo_restores_undone_snapshot(self)
        requires
            self.wf(),
            self.at_rest(),
            self.history.can_undo(),
        ensures
            self.update(Self::undo_key()).0.update(Self::redo_key()).1,
            self.update(Self::undo_key()).0.update(Self::redo_key()).0.content == self.content,
            self.update(Self::undo_key()).0.update(Self::redo_key()).0.history == self.history,
            self.update(Self::undo_key()).0.update(Self::redo_key()).0.at_rest(),
    {
        self.lemma_undo_restores_previous_snapshot();
        self.lemma_update_wf(Self::undo_key());
        let undone = self.update(Self::undo_key()).0;
        let actions = seq![Action::Redo];
        assert(undone.bindings(Self::redo_key()) == (actions, None::<OPending>));
        let (redone, _) = undone.apply(Action::Redo);
        assert(undone.apply_from(actions, 0) == redone.apply_from(actions, 1));
        self.history.lemma_redo_after_undo();
    }

    /// The press of the key of redo changes nothing where the history is at
    /// its newest snapshot: where no undo has occurred since the last
    /// snapshot was recorded, or redo has come back to the newest one.
    pub proof fn lemma_redo_at_newest_snapshot(self)
        requires
            self.wf(),
            self.pending is None,
            self.mode == Mode::Normal ==> self.content == self.history.current(),
            !self.history.can_redo(),
        ensures
            self.update(Self::redo_key()) == (self, false),
    {
        let actions = seq![Action::Redo];
        assert(self.bindings(Self::redo_key()) == (actions, None::<OPending>));
        assert(self.apply_from(actions, 0) == (self, false));
    }
}

} // verus!
