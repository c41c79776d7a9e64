//! Synthetic keyboard and mouse input for an X11 automation engine.
//!
//! The crate models the thin layer between an abstract key/button
//! vocabulary and the wire format of an external window-automation
//! engine: translating keys and buttons to their wire codes, holding
//! the mutable target-window and inter-event-delay configuration, and
//! building the exact engine call that each operation issues.  The
//! engine itself is reached over a C boundary by the surrounding
//! application; this crate decides, and proves, what is sent.

pub mod dispatch;
pub mod keys;
pub mod numerals;
pub mod search;

pub use dispatch::{EngineCall, Enigo, InputError, CURRENT_WINDOW, DEFAULT_DELAY};
pub use keys::{keysequence, mousebutton, Key, MouseButton};
pub use search::Search;
