//! The buffer and what can be read of it.

use vstd::prelude::*;
use vstd::string::{StrSliceExecFns, StringExecFns};

use crate::bounded_usize::BoundedUsize;
use crate::history::{History, HistoryView};
use crate::keymaps::OPending;
use crate::mode::Mode;

verus! {

/// What a [`Buffer`] holds, as mathematical values.
pub struct BufferView {
    /// The chars of the content.
    pub content: Seq<char>,
    /// The index of the char on which the cursor stands; the length of the
    /// content where it stands after the last char.
    pub cursor: nat,
    /// The snapshots of the content that can be restored.
    pub history: HistoryView<Seq<char>>,
    /// The mode.
    pub mode: Mode,
    /// The command that waits for one more key, if there is one.
    pub pending: Option<OPending>,
}

impl BufferView {
    /// The cursor stands within the content or right after it, and the
    /// history is well formed.
    pub open spec fn wf(self) -> bool {
        &&& self.cursor <= self.content.len()
        &&& self.history.wf()
    }

    /// The buffer that is made from the text `content`: in normal mode, the
    /// cursor at the start, the text as the only snapshot.
    pub open spec fn starting_with(content: Seq<char>) -> Self {
        BufferView {
            content,
            cursor: 0,
            history: HistoryView { entries: seq![content], position: 0 },
            mode: Mode::Normal,
            pending: None,
        }
    }
}

/// Buffer that supports vim keymaps.
#[derive(Debug)]
pub struct Buffer {
    /// Content of the buffer.
    pub(super) content: String,
    /// Position of the cursor within the buffer, counted in chars.
    pub(super) cursor: BoundedUsize,
    /// Buffer history to restore old versions.
    pub(super) history: History<String>,
    /// Vim mode of the buffer.
    pub(super) mode: Mode,
    /// Pending command that requires one more key.
    pub(super) pending: Option<OPending>,
}

impl View for Buffer {
    type V = BufferView;

    open(super) spec fn view(&self) -> BufferView {
        BufferView {
            content: self.content@,
            cursor: self.cursor.spec_value(),
            history: self.history@,
            mode: self.mode,
            pending: self.pending,
        }
    }
}

impl Buffer {
    /// The cursor cannot go beyond the length of the content, nor the
    /// position in the history beyond the last snapshot.
    pub open(super) spec fn bounded(&self) -> bool {
        &&& self.cursor.wf()
        &&& self.cursor.spec_max() == self.content@.len()
        &&& self.history.bounded()
    }

    /// The invariant of the type.
    pub open spec fn wf(&self) -> bool {
        &&& self@.wf()
        &&& self.bounded()
    }

    /// Returns the inner text content of the buffer.
    pub fn as_content(&self) -> (content: &String)
        ensures
            content@ == self@.content,
    {
        &self.content
    }

    /// Returns the cursor position in the buffer, counted in chars.
    pub fn as_cursor(&self) -> (cursor: usize)
        ensures
            cursor == self@.cursor,
    {
        self.cursor.as_value()
    }

    /// Returns the vim mode of the buffer (insert, normal).
    pub fn as_mode(&self) -> (mode: Mode)
        ensures
            mode == self@.mode,
    {
        self.mode
    }

    /// Returns `true` if the buffer is empty, and `false` otherwise.
    pub fn is_empty(&self) -> (empty: bool)
        ensures
            empty == (self@.content.len() == 0),
    {
        self.content.as_str().is_empty()
    }

    /// Returns the length of the buffer, counted in chars.
    pub fn len(&self) -> (len: usize)
        ensures
            len == self@.content.len(),
    {
        self.content.as_str().unicode_len()
    }

    /// Returns the number of chars from the cursor to the end of the content.
    pub fn as_end_index(&self) -> (index: usize)
        requires
            self.wf(),
        ensures
            index == self@.content.len() - self@.cursor,
    {
        self.len() - self.as_cursor()
    }
}

impl From<String> for Buffer {
    /// The buffer that holds `value`: in normal mode, the cursor at the
    /// start, `value` as the only snapshot of its history.
    fn from(value: String) -> (buffer: Self)
        ensures
            buffer.wf(),
            buffer@ == BufferView::starting_with(value@),
    {
        let len = value.as_str().unicode_len();
        Buffer {
            cursor: BoundedUsize::with_capacity(len),
            history: History::with_initial_value(value.clone()),
            content: value,
            mode: Mode::Normal,
            pending: None,
        }
    }
}

impl vstd::std_specs::convert::FromSpecImpl<String> for Buffer {
    open spec fn obeys_from_spec() -> bool {
        false
    }

    open spec fn from_spec(value: String) -> Self {
        arbitrary()
    }
}

impl<'a> From<&'a str> for Buffer {
    /// The buffer that holds `value`: in normal mode, the cursor at the
    /// start, `value` as the only snapshot of its history.
    fn from(value: &'a str) -> (buffer: Self)
        ensures
            buffer.wf(),
            buffer@ == BufferView::starting_with(value@),
    {
        Buffer::from(String::from_str(value))
    }
}

impl<'a> vstd::std_specs::convert::FromSpecImpl<&'a str> for Buffer {
    open spec fn obeys_from_spec() -> bool {
        false
    }

    open spec fn from_spec(value: &'a str) -> Self {
        arbitrary()
    }
}

impl Default for Buffer {
    /// The empty buffer.
    fn default() -> (buffer: Self)
        ensures
            buffer.wf(),
            buffer@ == BufferView::starting_with(Seq::empty()),
    {
        Buffer::from(String::new())
    }
}

} // verus!
