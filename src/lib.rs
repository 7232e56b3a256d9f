//! Folder synchronization engine of a folder-backed launcher.
//!
//! The library keeps an ordered list of entries in step with a monitored
//! directory: it assembles the list from a directory listing, classifies raw
//! filesystem notifications into three intents, applies those intents to the
//! list, and turns a platform icon's BGRA pixel buffer into an RGBA bitmap.
pub mod bitmap;
pub mod laws;
pub mod queue;
pub mod state;
pub mod watch;
