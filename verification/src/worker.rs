use vstd::prelude::*;

use crate::error::{LoadResult, RawOutcome, resolves_to};
use crate::handle::BackgroundFileHandle;

verus! {

/// One queued load: a dispatch number, taken in increasing order, and the
/// requested path. The worker serves requests by position, so the number
/// records dispatch order and pairs each reply with its request.
pub struct Request {
    pub id: u64,
    pub path: String,
}

/// The worker-thread backend: requests are funneled to a single worker,
/// which serves them strictly one at a time, in dispatch order. The queue is
/// unbounded; dispatch never blocks.
pub struct BackgroundLoader {
    pub requests: Vec<Request>,
    pub next_id: u64,
}

/// What the poll of a worker-backed handle sees on its private reply
/// channel: the worker's outcome, nothing yet, or a worker that went away
/// without replying.
pub enum ChannelEvent {
    Message(RawOutcome),
    Empty,
    Disconnected,
}

/// What a poll must do with a channel event. `Fatal` is not an error value
/// for the caller: the worker may not exit while a reply is owed, and the
/// process must abort rather than hang or answer wrongly.
pub enum PollStep {
    Ready(LoadResult),
    Pending,
    Fatal,
}

impl BackgroundLoader {
    /// Queued requests carry strictly increasing dispatch numbers, all below
    /// the next number to be handed out.
    pub open spec fn well_formed(self) -> bool {
        &&& forall|i: int, j: int|
                0 <= i < j < self.requests@.len()
                    ==> #[trigger] self.requests@[i].id < #[trigger] self.requests@[j].id
        &&& forall|i: int|
                0 <= i < self.requests@.len() ==> #[trigger] self.requests@[i].id < self.next_id
    }

    /// A fresh loader: no request queued, numbering from zero.
    pub fn new() -> (loader: Self)
        ensures
            loader.requests@.len() == 0,
            loader.next_id == 0,
            loader.well_formed(),
    {
        BackgroundLoader { requests: Vec::new(), next_id: 0 }
    }

    /// Dispatch a load: append a request for `path` to the queue and return
    /// a pending handle at once. The call never blocks and never reorders
    /// what is already queued.
    pub fn load_file(&mut self, path: &str) -> (h: BackgroundFileHandle)
        requires
            old(self).well_formed(),
            old(self).next_id < u64::MAX,
        ensures
            final(self).well_formed(),
            final(self).next_id == old(self).next_id + 1,
            final(self).requests@.len() == old(self).requests@.len() + 1,
            forall|i: int|
                0 <= i < old(self).requests@.len()
                    ==> final(self).requests@[i] == old(self).requests@[i],
            final(self).requests@.last().id == old(self).next_id,
            final(self).requests@.last().path@ == path@,
            h.path@ == path@,
            h.slot is Empty,
    {
        let request = Request { id: self.next_id, path: path.to_owned() };
        self.requests.push(request);
        self.next_id = self.next_id + 1;
        BackgroundFileHandle::pending(path)
    }

    /// The worker takes the oldest queued request, or nothing when the queue
    /// is idle. Requests leave the queue one at a time, from the front, so
    /// serve order is dispatch order.
    pub fn next_request(&mut self) -> (r: Option<Request>)
        requires
            old(self).well_formed(),
        ensures
            final(self).well_formed(),
            final(self).next_id == old(self).next_id,
            old(self).requests@.len() == 0 ==> r is None && final(self).requests@.len() == 0,
            old(self).requests@.len() > 0 ==> {
                &&& r == Some(old(self).requests@[0])
                &&& final(self).requests@ == old(self).requests@.drop_first()
            },
    {
        if self.requests.len() == 0 {
            None
        } else {
            let request = self.requests.remove(0);
            proof {
                assert(self.requests@ =~= old(self).requests@.drop_first());
            }
            Some(request)
        }
    }
}

/// What a worker-backed poll does with what its reply channel shows: an
/// arrived outcome is resolved against the handle's path, an empty channel
/// means poll again, and a worker that died still owing a reply is fatal.
pub fn decide_poll(event: ChannelEvent, path: &str) -> (s: PollStep)
    ensures
        event matches ChannelEvent::Message(o)
            ==> s matches PollStep::Ready(r) && resolves_to(o, path@, r),
        event is Empty ==> s is Pending,
        event is Disconnected ==> s is Fatal,
{
    match event {
        ChannelEvent::Message(outcome) => PollStep::Ready(crate::error::resolve(outcome, path)),
        ChannelEvent::Empty => PollStep::Pending,
        ChannelEvent::Disconnected => PollStep::Fatal,
    }
}

/// Serialization: the request the worker serves next was dispatched before
/// every other queued request, so of two loads dispatched in order, the
/// first reaches the platform before the second.
pub proof fn lemma_next_request_is_oldest(loader: BackgroundLoader, i: int)
    requires
        loader.well_formed(),
        0 < i < loader.requests@.len(),
    ensures
        loader.requests@[0].id < loader.requests@[i].id,
{
}

/// No cross-talk: distinct queued requests carry distinct dispatch numbers,
/// so a reply can never be credited to two requests.
pub proof fn lemma_requests_distinct(loader: BackgroundLoader, i: int, j: int)
    requires
        loader.well_formed(),
        0 <= i < loader.requests@.len(),
        0 <= j < loader.requests@.len(),
        i != j,
    ensures
        loader.requests@[i].id != loader.requests@[j].id,
{
}

} // verus!
