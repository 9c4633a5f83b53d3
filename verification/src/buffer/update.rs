//! How actions and key events change the buffer.

use vstd::prelude::*;

use crate::bounded_usize::BoundedUsize;
use crate::buffer::api::{Buffer, BufferView};
use crate::buffer::motion::{
    find_before,
    find_from,
    goto_target,
    lemma_goto_target_in_range,
    CharTest,
};
use crate::event::{KeyCode, KeyEvent, KeyModifiers};
use crate::event_parser::state::EventParsingError;
use crate::event_parser::{parse_events, spec_parse_events};
use crate::history::HistoryView;
use crate::keymaps::{Action, GoToAction, OPending};
use crate::mode::Mode;
use crate::text::{insert_char, remove_char, replace_char, to_chars};

verus! {

impl BufferView {
    /// The buffer at another place of its history: `history` in the place of
    /// its history, the current snapshot of `history` as its content, and the
    /// cursor brought back to the end of that content where it would stand
    /// beyond.
    pub open spec fn restored(self, history: HistoryView<Seq<char>>) -> Self {
        let content = history.current();
        BufferView {
            content,
            cursor: if self.cursor <= content.len() {
                self.cursor
            } else {
                content.len()
            },
            history,
            ..self
        }
    }

    /// The buffer after the motion `goto`, and whether the motion succeeded.
    /// A motion that fails leaves the buffer as it is.
    pub open spec fn go_to(self, goto: GoToAction) -> (Self, bool) {
        match goto_target(self.content, self.cursor as int, goto) {
            Some(target) => (BufferView { cursor: target as nat, ..self }, true),
            None => (self, false),
        }
    }

    /// The buffer after `action`, and whether the action succeeded. An action
    /// that fails leaves the buffer as it is.
    pub open spec fn apply(self, action: Action) -> (Self, bool) {
        match action {
            Action::InsertChar(ch) => (
                BufferView {
                    content: self.content.insert(self.cursor as int, ch),
                    cursor: self.cursor + 1,
                    ..self
                },
                true,
            ),
            Action::SelectMode(mode) => (BufferView { mode, ..self }, true),
            Action::DeleteNextChar => if self.cursor < self.content.len() {
                (
                    BufferView {
                        content: self.content.remove(self.cursor as int),
                        cursor: if self.cursor > 0 {
                            (self.cursor - 1) as nat
                        } else {
                            0
                        },
                        ..self
                    },
                    true,
                )
            } else {
                (self, false)
            },
            Action::DeletePreviousChar => if self.cursor > 0 {
                (
                    BufferView {
                        content: self.content.remove(self.cursor - 1),
                        cursor: (self.cursor - 1) as nat,
                        ..self
                    },
                    true,
                )
            } else {
                (self, false)
            },
            Action::DeleteLine => (BufferView { content: Seq::empty(), cursor: 0, ..self }, true),
            Action::ReplaceWith(ch) => if self.cursor < self.content.len() {
                (BufferView { content: self.content.update(self.cursor as int, ch), ..self }, true)
            } else {
                (self, false)
            },
            Action::Undo => if self.history.can_undo() {
                (self.restored(self.history.undo()), true)
            } else {
                (self, false)
            },
            Action::Redo => if self.history.can_redo() {
                (self.restored(self.history.redo()), true)
            } else {
                (self, false)
            },
            Action::GoTo(goto) => self.go_to(goto),
        }
    }

    /// The buffer after the actions of `actions` from the index `from` on,
    /// in order, and whether all of them succeeded. The first action that
    /// fails ends the run: those after it are not applied.
    pub open spec fn apply_from(self, actions: Seq<Action>, from: int) -> (Self, bool)
        decreases actions.len() - from,
    {
        if from < 0 || from >= actions.len() {
            (self, true)
        } else {
            let (after, success) = self.apply(actions[from]);
            if success {
                after.apply_from(actions, from + 1)
            } else {
                (self, false)
            }
        }
    }

    /// Whether `event` is the key of redo: the press of `r` with control
    /// alone.
    pub open spec fn is_redo_key(event: KeyEvent) -> bool {
        &&& event.is_press
        &&& event.code == KeyCode::Char('r')
        &&& event.modifiers == KeyModifiers::control()
    }

    /// The actions that `event` stands for in this buffer, and the command
    /// that is pending afterwards. While no command is pending, the key of
    /// redo stands for [`Action::Redo`] in every mode; any other event goes by
    /// the bindings of the mode.
    pub open spec fn bindings(self, event: KeyEvent) -> (Seq<Action>, Option<OPending>) {
        if self.pending is None && Self::is_redo_key(event) {
            (seq![Action::Redo], None)
        } else {
            self.mode.spec_handle_event(event, self.pending)
        }
    }

    /// The buffer after `event`, before its content is recorded in the
    /// history, and whether the buffer took the event: whether the event
    /// stands for at least one action and all its actions succeeded.
    pub open spec fn update_no_save(self, event: KeyEvent) -> (Self, bool) {
        let (actions, pending) = self.bindings(event);
        let (after, success) = (BufferView { pending, ..self }).apply_from(actions, 0);
        (after, success && actions.len() > 0)
    }

    /// The buffer with its content recorded in the history, which happens in
    /// normal mode only.
    pub open spec fn save_to_history(self) -> Self {
        match self.mode {
            Mode::Normal => BufferView { history: self.history.save(self.content), ..self },
            Mode::Insert => self,
        }
    }

    /// The buffer after `event`, and whether the buffer took the event.
    pub open spec fn update(self, event: KeyEvent) -> (Self, bool) {
        let (after, success) = self.update_no_save(event);
        (after.save_to_history(), success)
    }

    /// The buffer after the events of `events` from the index `from` on, one
    /// by one and in order.
    pub open spec fn replay_from(self, events: Seq<KeyEvent>, from: int) -> Self
        decreases events.len() - from,
    {
        if from < 0 || from >= events.len() {
            self
        } else {
            self.update(events[from]).0.replay_from(events, from + 1)
        }
    }

    /// The buffer after the events of `events`, one by one and in order.
    pub open spec fn replay(self, events: Seq<KeyEvent>) -> Self {
        self.replay_from(events, 0)
    }

    /// An action keeps the cursor within the content and the history well
    /// formed; one that fails changes nothing.
    pub proof fn lemma_apply_wf(self, action: Action)
        requires
            self.wf(),
        ensures
            self.apply(action).0.wf(),
            !self.apply(action).1 ==> self.apply(action).0 == self,
    {
        self.history.lemma_moves_wf();
        match action {
            Action::GoTo(goto) => {
                lemma_goto_target_in_range(self.content, self.cursor as int, goto);
            },
            _ => {},
        }
    }

    /// A run of actions keeps the cursor within the content and the history
    /// well formed.
    pub proof fn lemma_apply_from_wf(self, actions: Seq<Action>, from: int)
        requires
            self.wf(),
        ensures
            self.apply_from(actions, from).0.wf(),
        decreases actions.len() - from,
    {
        if 0 <= from < actions.len() {
            self.lemma_apply_wf(actions[from]);
            if self.apply(actions[from]).1 {
                self.apply(actions[from]).0.lemma_apply_from_wf(actions, from + 1);
            }
        }
    }

    /// Whatever the event, the cursor stays within the content and the
    /// history stays well formed.
    pub proof fn lemma_update_wf(self, event: KeyEvent)
        requires
            self.wf(),
        ensures
            self.update_no_save(event).0.wf(),
            self.update(event).0.wf(),
            self.update(event).0.cursor <= self.update(event).0.content.len(),
    {
        let (actions, pending) = self.bindings(event);
        let start = BufferView { pending, ..self };
        start.lemma_apply_from_wf(actions, 0);
        let after = self.update_no_save(event).0;
        after.history.lemma_save_wf(after.content);
    }

    /// Whatever the events, the cursor stays within the content and the
    /// history stays well formed.
    pub proof fn lemma_replay_from_wf(self, events: Seq<KeyEvent>, from: int)
        requires
            self.wf(),
        ensures
            self.replay_from(events, from).wf(),
        decreases events.len() - from,
    {
        if 0 <= from < events.len() {
            self.lemma_update_wf(events[from]);
            self.update(events[from]).0.lemma_replay_from_wf(events, from + 1);
        }
    }
}

impl Buffer {
    /// Moves the cursor to the beginning of the next WORD.
    #[allow(non_snake_case)]
    pub fn goto_next_WORD(&mut self)
        requires
            old(self).wf(),
        ensures
            final(self).wf(),
            final(self)@ == old(self)@.go_to(GoToAction::NextWORD).0,
    {
        let chars = to_chars(self.content.as_str());
        let space = find_from(&chars, self.cursor.as_value(), CharTest::Space);
        self.cursor.set(find_from(&chars, space, CharTest::NonSpace));
    }

    /// Moves the cursor to the beginning of the next word.
    pub fn goto_next_word(&mut self)
        requires
            old(self).wf(),
        ensures
            final(self).wf(),
            final(self)@ == old(self)@.go_to(GoToAction::NextWord).0,
    {
        let chars = to_chars(self.content.as_str());
        let cursor = self.cursor.as_value();
        if cursor < chars.len() {
            let boundary = find_from(&chars, cursor + 1, CharTest::XorIdent(chars[cursor]));
            self.cursor.set(find_from(&chars, boundary, CharTest::NonSpace));
        } else {
            self.cursor.set_to_max();
        }
    }

    /// Moves the cursor to the beginning of the previous WORD.
    #[allow(non_snake_case)]
    pub fn goto_previous_WORD(&mut self)
        requires
            old(self).wf(),
        ensures
            final(self).wf(),
            final(self)@ == old(self)@.go_to(GoToAction::PreviousWORD).0,
    {
        let chars = to_chars(self.content.as_str());
        let target = match find_before(&chars, self.cursor.as_value(), CharTest::NonSpace) {
            Some(end) => match find_before(&chars, end, CharTest::Space) {
                Some(space) => space + 1,
                None => 0,
            },
            None => 0,
        };
        self.cursor.set(target);
    }

    /// Moves the cursor to the beginning of the previous word.
    pub fn goto_previous_word(&mut self)
        requires
            old(self).wf(),
        ensures
            final(self).wf(),
            final(self)@ == old(self)@.go_to(GoToAction::PreviousWord).0,
    {
        let chars = to_chars(self.content.as_str());
        let target = match find_before(&chars, self.cursor.as_value(), CharTest::NonSpace) {
            Some(end) => match find_before(&chars, end, CharTest::XorIdent(chars[end])) {
                Some(other) => other + 1,
                None => 0,
            },
            None => 0,
        };
        self.cursor.set(target);
    }

    /// Goes one step back in the history and restores the content found
    /// there. Returns `false`, and changes nothing, at the oldest snapshot.
    pub fn pop_from_history(&mut self) -> (restored: bool)
        requires
            old(self).wf(),
        ensures
            final(self).wf(),
            (final(self)@, restored) == old(self)@.apply(Action::Undo),
    {
        proof {
            old(self)@.lemma_apply_wf(Action::Undo);
        }
        if let Some(previous) = self.history.undo() {
            self.content = previous.clone();
            self.cursor.set_max(self.len());
            true
        } else {
            false
        }
    }

    /// Goes one step forward in the history and restores the content found
    /// there. Returns `false`, and changes nothing, at the newest snapshot.
    pub fn push_from_history(&mut self) -> (restored: bool)
        requires
            old(self).wf(),
        ensures
            final(self).wf(),
            (final(self)@, restored) == old(self)@.apply(Action::Redo),
    {
        proof {
            old(self)@.lemma_apply_wf(Action::Redo);
        }
        if let Some(next) = self.history.redo() {
            self.content = next.clone();
            self.cursor.set_max(self.len());
            true
        } else {
            false
        }
    }

    /// Adds the current content to the history, if the buffer is in normal
    /// mode and the content is different from the current snapshot.
    pub fn save_to_history(&mut self)
        requires
            old(self).wf(),
        ensures
            final(self).wf(),
            final(self)@ == old(self)@.save_to_history(),
    {
        match self.mode {
            Mode::Normal => {
                self.history.save(self.content.as_str());
            },
            Mode::Insert => {},
        }
    }

    /// Updates the buffer with a key event, and records the content in the
    /// history if the buffer is in normal mode afterwards.
    ///
    /// Returns `true` if the buffer took the event: if the event stands for
    /// at least one action, and every action succeeded. An action fails where
    /// it has nothing to act on: a deletion with no char to delete, a search
    /// for a char that is not found, an undo at the oldest snapshot. The
    /// actions after one that fails are not applied.
    pub fn update(&mut self, event: &KeyEvent) -> (changed: bool)
        requires
            old(self).wf(),
        ensures
            final(self).wf(),
            (final(self)@, changed) == old(self)@.update(*event),
            final(self)@.cursor <= final(self)@.content.len(),
    {
        let success = self.update_no_save(event);
        self.save_to_history();
        success
    }

    /// Updates the cursor position with a [`GoToAction`].
    ///
    /// Returns `true` if the motion succeeded. The two motions that look for
    /// a char fail where the char is not found, and then leave the buffer as
    /// it is. Every other motion succeeds.
    pub fn update_cursor(&mut self, goto_action: GoToAction) -> (moved: bool)
        requires
            old(self).wf(),
        ensures
            final(self).wf(),
            (final(self)@, moved) == old(self)@.go_to(goto_action),
            moved == (goto_target(old(self)@.content, old(self)@.cursor as int, goto_action)
                is Some),
            !moved ==> final(self)@ == old(self)@,
            final(self)@.content == old(self)@.content,
    {
        proof {
            lemma_goto_target_in_range(old(self)@.content, old(self)@.cursor as int, goto_action);
        }
        match goto_action {
            GoToAction::Right => {
                self.cursor.increment();
            },
            GoToAction::Left => {
                self.cursor.decrement();
            },
            GoToAction::Bol => {
                self.cursor.set(0);
            },
            GoToAction::Eol => {
                self.cursor.set_to_max();
            },
            GoToAction::FirstNonSpace => {
                let chars = to_chars(self.content.as_str());
                self.cursor.set(find_from(&chars, 0, CharTest::NonSpace));
            },
            GoToAction::NextOccurrenceOf(ch) => {
                let chars = to_chars(self.content.as_str());
                let cursor = self.cursor.as_value();
                if cursor >= chars.len() {
                    return false;
                }
                let found = find_from(&chars, cursor + 1, CharTest::Is(ch));
                if found >= chars.len() {
                    return false;
                }
                self.cursor.set(found);
            },
            GoToAction::PreviousOccurrenceOf(ch) => {
                let chars = to_chars(self.content.as_str());
                match find_before(&chars, self.cursor.as_value(), CharTest::Is(ch)) {
                    Some(found) => {
                        self.cursor.set(found);
                    },
                    None => {
                        return false;
                    },
                }
            },
            GoToAction::NextWORD => {
                self.goto_next_WORD();
            },
            GoToAction::NextWord => {
                self.goto_next_word();
            },
            GoToAction::PreviousWORD => {
                self.goto_previous_WORD();
            },
            GoToAction::PreviousWord => {
                self.goto_previous_word();
            },
        }
        true
    }

    /// Returns `true` iff `event` is the key of redo: the press of `r` with
    /// control alone.
    fn is_redo_key(event: &KeyEvent) -> (redo: bool)
        ensures
            redo == BufferView::is_redo_key(*event),
    {
        let is_r = match event.code {
            KeyCode::Char('r') => true,
            _ => false,
        };
        event.is_press && is_r && event.modifiers.same_as(KeyModifiers::control())
    }

    /// Updates the buffer using a string with all the keymaps, such as
    /// `"iHello<Esc>0x"`.
    ///
    /// The string is parsed in full first. Where it is valid, the key events
    /// that it stands for are handed to [`Self::update`] one by one, in
    /// order. Where it is not, the error is returned and the buffer is left as
    /// it is.
    pub fn update_from_string(&mut self, keymaps: &str) -> (updated: Result<
        (),
        EventParsingError,
    >)
        requires
            old(self).wf(),
        ensures
            final(self).wf(),
            match spec_parse_events(keymaps@) {
                Ok(events) => updated is Ok && final(self)@ == old(self)@.replay(events),
                Err(error) => updated == Err::<(), _>(error) && final(self)@ == old(self)@,
            },
            final(self)@.cursor <= final(self)@.content.len(),
    {
        let events = match parse_events(keymaps) {
            Ok(events) => events,
            Err(error) => {
                return Err(error);
            },
        };
        let mut index: usize = 0;
        while index < events.len()
            invariant
                index <= events@.len(),
                self.wf(),
                old(self)@.replay(events@) == self@.replay_from(events@, index as int),
            decreases events@.len() - index,
        {
            self.update(&events[index]);
            index = index + 1;
        }
        Ok(())
    }

    /// Same as [`Self::update`] but without updating the history.
    pub fn update_no_save(&mut self, event: &KeyEvent) -> (changed: bool)
        requires
            old(self).wf(),
        ensures
            final(self).wf(),
            (final(self)@, changed) == old(self)@.update_no_save(*event),
    {
        let actions = if self.pending.is_none() && Self::is_redo_key(event) {
            let mut redo = Vec::new();
            redo.push(Action::Redo);
            redo
        } else {
            self.mode.handle_event(event, &mut self.pending)
        };
        let ghost start = self@;
        assert(actions@ =~= old(self)@.bindings(*event).0);
        let mut index: usize = 0;
        while index < actions.len()
            invariant
                index <= actions@.len(),
                self.wf(),
                old(self)@.update_no_save(*event) == (
                    start.apply_from(actions@, 0).0,
                    start.apply_from(actions@, 0).1 && actions@.len() > 0,
                ),
                start.apply_from(actions@, 0) == self@.apply_from(actions@, index as int),
            decreases actions@.len() - index,
        {
            let ghost before = self@;
            let success = self.update_once(actions[index]);
            assert(before.apply_from(actions@, index as int) == if success {
                self@.apply_from(actions@, index + 1)
            } else {
                (before, false)
            });
            if !success {
                return false;
            }
            index = index + 1;
        }
        actions.len() > 0
    }

    /// Updates the buffer with one [`Action`].
    ///
    /// Returns `true` iff the action succeeded. One that fails leaves the
    /// buffer as it is.
    pub fn update_once(&mut self, action: Action) -> (success: bool)
        requires
            old(self).wf(),
        ensures
            final(self).wf(),
            (final(self)@, success) == old(self)@.apply(action),
            !success ==> final(self)@ == old(self)@,
            final(self)@.cursor <= final(self)@.content.len(),
    {
        proof {
            old(self)@.lemma_apply_wf(action);
        }
        match action {
            Action::InsertChar(ch) => {
                let cursor = self.cursor.as_value();
                self.content = insert_char(self.content.as_str(), cursor, ch);
                self.cursor.set_max(self.len());
                self.cursor.set(cursor + 1);
                true
            },
            Action::SelectMode(mode) => {
                self.mode = mode;
                true
            },
            Action::DeleteNextChar => {
                let cursor = self.cursor.as_value();
                if cursor < self.cursor.as_max() {
                    self.content = remove_char(self.content.as_str(), cursor);
                    self.cursor.decrement_with_capacity();
                    true
                } else {
                    false
                }
            },
            Action::DeletePreviousChar => {
                if self.cursor.as_value() != 0 {
                    self.cursor.decrement_with_capacity();
                    self.content = remove_char(self.content.as_str(), self.cursor.as_value());
                    true
                } else {
                    false
                }
            },
            Action::DeleteLine => {
                self.content = String::new();
                self.cursor = BoundedUsize::default();
                true
            },
            Action::ReplaceWith(ch) => {
                let cursor = self.cursor.as_value();
                if cursor < self.cursor.as_max() {
                    self.content = replace_char(self.content.as_str(), cursor, ch);
                    true
                } else {
                    false
                }
            },
            Action::Undo => self.pop_from_history(),
            Action::Redo => self.push_from_history(),
            Action::GoTo(goto_action) => self.update_cursor(goto_action),
        }
    }
}

} // verus!
