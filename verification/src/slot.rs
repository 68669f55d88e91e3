use vstd::prelude::*;

use crate::error::RawOutcome;

verus! {

/// The three states of a result slot: nothing has arrived yet, one raw
/// outcome is waiting, or the one outcome has already been handed out.
/// Every handle owns one slot, whatever backend produced it.
pub enum ResultSlot {
    Empty,
    Filled(RawOutcome),
    Consumed,
}

impl ResultSlot {
    /// The producing side stores the platform's outcome. It runs at most once
    /// per slot: a slot is filled only while it is still empty.
    pub fn fill(&mut self, outcome: RawOutcome)
        requires
            *old(self) is Empty,
        ensures
            *final(self) == ResultSlot::Filled(outcome),
    {
        *self = ResultSlot::Filled(outcome);
    }

    /// A non-blocking attempt to take the outcome. A waiting outcome is handed
    /// out and the slot moves to `Consumed`, so the same outcome can never be
    /// observed twice; an empty or consumed slot yields nothing and keeps its
    /// state.
    pub fn take(&mut self) -> (r: Option<RawOutcome>)
        ensures
            *old(self) is Empty ==> r is None && *final(self) is Empty,
            *old(self) matches ResultSlot::Filled(o) ==> r == Some(o) && *final(self) is Consumed,
            *old(self) is Consumed ==> r is None && *final(self) is Consumed,
    {
        let mut taken = ResultSlot::Consumed;
        core::mem::swap(self, &mut taken);
        match taken {
            ResultSlot::Empty => {
                *self = ResultSlot::Empty;
                None
            },
            ResultSlot::Filled(outcome) => Some(outcome),
            ResultSlot::Consumed => None,
        }
    }
}

} // verus!
