use vstd::prelude::*;

use crate::handle::BackgroundFileHandle;

verus! {

/// The inline-callback backend: the platform's read primitive is itself
/// asynchronous, so the loader keeps no state of its own. `load_file`
/// registers the platform callback against the handle's slot and returns;
/// the platform's event loop fills the slot at some later turn — possibly
/// before the first poll, which the slot tolerates by construction.
pub struct BackgroundLoader {
}

impl BackgroundLoader {
    /// A fresh loader. There is nothing to initialize.
    pub fn new() -> Self {
        BackgroundLoader {}
    }

    /// Dispatch a load: return a pending handle for `path` at once. The
    /// platform callback completes the handle whenever it fires; until then
    /// every poll is pending.
    pub fn load_file(&mut self, path: &str) -> (h: BackgroundFileHandle)
        ensures
            h.path@ == path@,
            h.slot is Empty,
    {
        BackgroundFileHandle::pending(path)
    }
}

} // verus!
