//! The interaction engine of a small console application: key transitions
//! between frames, the paired command/response logs, the interleaved
//! scrollback over them, and the persisted user preferences.

pub mod keys;
pub mod session;
pub mod scrollback;
pub mod prefs;
pub mod console;
