use vstd::prelude::*;

use crate::error::{LoadResult, RawOutcome, resolves_to};
use crate::slot::ResultSlot;

verus! {

/// The pollable future both backends return from `load_file`: the requested
/// path, kept for error reporting, and the slot the producing side fills.
pub struct BackgroundFileHandle {
    pub path: String,
    pub slot: ResultSlot,
}

/// The outcome of one poll: the terminal value has arrived, or the caller
/// must poll again later.
pub enum Poll {
    Pending,
    Ready(LoadResult),
}

/// The slot state a poll leaves behind: polling consumes a waiting outcome
/// and changes nothing else.
pub open spec fn slot_after_poll(s: ResultSlot) -> ResultSlot {
    match s {
        ResultSlot::Empty => ResultSlot::Empty,
        ResultSlot::Filled(_) => ResultSlot::Consumed,
        ResultSlot::Consumed => ResultSlot::Consumed,
    }
}

/// What one poll of a handle in slot state `s` for `path` yields: pending
/// until an outcome waits, and that outcome, resolved against the path,
/// exactly when one does.
pub open spec fn poll_yields(s: ResultSlot, path: Seq<char>, r: Poll) -> bool {
    match s {
        ResultSlot::Empty => r is Pending,
        ResultSlot::Filled(o) => r matches Poll::Ready(res) && resolves_to(o, path, res),
        ResultSlot::Consumed => r is Pending,
    }
}

impl BackgroundFileHandle {
    /// A fresh handle for `path`, not yet resolved. Both backends hand this
    /// to the caller before any outcome exists.
    pub fn pending(path: &str) -> (h: Self)
        ensures
            h.path@ == path@,
            h.slot is Empty,
    {
        BackgroundFileHandle { path: path.to_owned(), slot: ResultSlot::Empty }
    }

    /// The producing side — the worker's reply or the platform's callback —
    /// stores the raw outcome. It happens exactly once per handle, while the
    /// slot is still empty.
    pub fn complete(&mut self, outcome: RawOutcome)
        requires
            old(self).slot is Empty,
        ensures
            final(self).path@ == old(self).path@,
            final(self).slot == ResultSlot::Filled(outcome),
    {
        self.slot.fill(outcome);
    }

    /// One non-blocking check whether the load has finished. A waiting
    /// outcome comes out as `Ready`, resolved against the handle's path, and
    /// is consumed; otherwise the poll is `Pending` and changes nothing.
    pub fn poll(&mut self) -> (r: Poll)
        ensures
            final(self).path@ == old(self).path@,
            final(self).slot == slot_after_poll(old(self).slot),
            poll_yields(old(self).slot, old(self).path@, r),
    {
        match self.slot.take() {
            Some(outcome) => Poll::Ready(crate::error::resolve(outcome, self.path.as_str())),
            None => Poll::Pending,
        }
    }
}

/// The terminal value a poll hands out is the raw platform outcome resolved
/// against the handle's path: a load whose read succeeded yields exactly the
/// file's bytes, and one whose read failed yields an error that keeps the
/// failure's kind and names the requested path.
pub proof fn lemma_ready_value_is_outcome(o: RawOutcome, path: Seq<char>, r: Poll)
    requires
        poll_yields(ResultSlot::Filled(o), path, r),
    ensures
        r matches Poll::Ready(res) && resolves_to(o, path, res),
        o matches Ok(data) ==> r matches Poll::Ready(res)
            && res matches Ok(bytes) && bytes@ == data@,
        o matches Err(kind) ==> r matches Poll::Ready(res)
            && res matches Err(e) && e.kind == kind && e.path@ == path,
{
}

/// A handle yields at most one terminal value: once a poll has returned
/// `Ready`, every later poll of the same handle is `Pending`, so no second,
/// possibly different, result is ever observed.
pub proof fn lemma_at_most_once(s: ResultSlot, path: Seq<char>, r1: Poll, r2: Poll)
    requires
        poll_yields(s, path, r1),
        r1 is Ready,
        poll_yields(slot_after_poll(s), path, r2),
    ensures
        r2 is Pending,
        slot_after_poll(slot_after_poll(s)) is Consumed,
{
}

} // verus!
