//! The inbound request queue: what the API collaborator produces and the
//! ingestion pipe drains.

use vstd::prelude::*;
use crate::reply::ReplyHandle;
use crate::types::Transaction;

verus! {

/// One client request, consumed exactly once by the ingestion pipe.
#[derive(Debug)]
pub enum InboundRequest {
    /// Submit a transaction; the handle answers with the admission outcome.
    Submit(Transaction, ReplyHandle),
    /// Look a pending transaction up by hash; the handle answers with it.
    Query(u64, ReplyHandle),
}

/// FIFO queue of inbound requests with a permanent-closure flag. An empty
/// open queue stands for a quiescent producer: draining it ends the tick
/// the way an elapsed per-item deadline does.
#[derive(Debug)]
pub struct InboundQueue {
    items: Vec<InboundRequest>,
    closed: bool,
}

impl View for InboundQueue {
    type V = Seq<InboundRequest>;

    closed spec fn view(&self) -> Seq<InboundRequest> {
        self.items@
    }
}

impl InboundQueue {
    /// Whether the producer reported permanent closure.
    pub closed spec fn is_closed(self) -> bool {
        self.closed
    }

    /// An open, empty queue.
    pub fn new() -> (r: InboundQueue)
        ensures
            r@ == Seq::<InboundRequest>::empty(),
            !r.is_closed(),
    {
        InboundQueue { items: Vec::new(), closed: false }
    }

    /// Producer side: append a request. Refused, without mutation, once the
    /// queue is closed.
    pub fn enqueue(&mut self, req: InboundRequest) -> (ok: bool)
        ensures
            final(self).is_closed() == old(self).is_closed(),
            old(self).is_closed() ==> !ok && final(self)@ == old(self)@,
            !old(self).is_closed() ==> ok && final(self)@ == old(self)@.push(req),
    {
        if self.closed {
            false
        } else {
            self.items.push(req);
            true
        }
    }

    /// Producer side: report that no request will ever arrive again.
    pub fn close(&mut self)
        ensures
            final(self).is_closed(),
            final(self)@ == old(self)@,
    {
        self.closed = true;
    }

    /// Pipe side: take the oldest request, if any.
    pub fn dequeue(&mut self) -> (r: Option<InboundRequest>)
        ensures
            final(self).is_closed() == old(self).is_closed(),
            old(self)@.len() == 0 ==> (r matches None && final(self)@ == old(self)@),
            old(self)@.len() > 0 ==> (r matches Some(req) && req == old(self)@[0]
                && final(self)@ == old(self)@.subrange(1, old(self)@.len() as int)),
    {
        if self.items.len() == 0 {
            None
        } else {
            let req = self.items.remove(0);
            proof {
                assert(self.items@ =~= old(self)@.subrange(1, old(self)@.len() as int));
            }
            Some(req)
        }
    }

    /// Number of queued requests.
    pub fn len(&self) -> (r: usize)
        ensures
            r == self@.len(),
    {
        self.items.len()
    }
}

} // verus!
