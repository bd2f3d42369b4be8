//! State and view model of a small two-pane terminal chat demo: a saturating
//! counter, a quit flag and an append-only list of messages, driven by key
//! presses, plus the layout and auto-scroll rules of its screen.

pub mod label;
pub mod laws;
pub mod screen;
pub mod state;

pub use label::{decimal, message_label};
pub use screen::{scroll_offset, Pane, Screen, CHAT_PERCENT, SIDE_PERCENT};
pub use state::{App, Key, KeyKind};
