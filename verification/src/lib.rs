//! The core of the LiveSplit One desktop application: its configuration, the hotkeys, the
//! commands that go to the window, and the replies that come back.
//!
//! What touches files, the keyboard or the window is left to the caller. A procedure that
//! needs such work says what to do next ([`next::Next`]), and is resumed with what came of it.

pub mod channel;
pub mod config;
pub mod hotkeys;
pub mod logging;
pub mod next;
pub mod protocol;
pub mod sink;
pub mod state;
pub mod timer;
pub mod updates;
