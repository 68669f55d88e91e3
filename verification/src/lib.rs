//! A non-blocking file-loading contract with two backends.
//!
//! A caller asks a loader for a file by path and gets back a pollable handle
//! at once; the load itself runs in the background. Polling the handle yields
//! the file's bytes or a [`error::FileError`] exactly once. The
//! [`worker`] backend funnels requests to a dedicated worker in dispatch
//! order; the [`callback`] backend wraps an already-asynchronous platform
//! primitive around the same handle.

pub mod callback;
pub mod error;
pub mod handle;
pub mod slot;
pub mod text;
pub mod worker;
