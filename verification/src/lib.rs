//! A small modal text-editing engine: a text buffer with a cursor, an editing
//! mode and an undo history, driven by key presses or by a keymap string such
//! as `"iHello<Esc>0x"`.

pub mod bounded_usize;
pub mod buffer;
pub mod chars;
pub mod event;
pub mod event_parser;
pub mod history;
pub mod keymaps;
pub mod mode;
pub mod text;

pub use buffer::api::{Buffer, BufferView};
pub use event::{KeyCode, KeyEvent, KeyModifiers};
pub use event_parser::chevron_parser::modified_key::ModifiedKeyError;
pub use event_parser::chevron_parser::ChevronGroupError;
pub use event_parser::parse_events;
pub use event_parser::state::EventParsingError;
pub use keymaps::{Action, GoToAction, OPending};
pub use mode::Mode;
