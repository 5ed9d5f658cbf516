//! The forward channel: ordered, unbounded hand-off of admitted transactions
//! towards the block-assembly consumer.

use vstd::prelude::*;
use crate::errors::TickError;
use crate::types::Transaction;

verus! {

/// In-order queue between the ingestion pipe and the downstream consumer.
/// Publishing never blocks; it fails only once the consumer has permanently
/// detached.
#[derive(Debug)]
pub struct ForwardChannel {
    queue: Vec<Transaction>,
    closed: bool,
}

impl View for ForwardChannel {
    type V = Seq<Transaction>;

    closed spec fn view(&self) -> Seq<Transaction> {
        self.queue@
    }
}

impl ForwardChannel {
    /// Whether the consumer has permanently detached.
    pub closed spec fn is_closed(self) -> bool {
        self.closed
    }

    /// An open channel holding nothing.
    pub fn new() -> (r: ForwardChannel)
        ensures
            r@ == Seq::<Transaction>::empty(),
            !r.is_closed(),
    {
        ForwardChannel { queue: Vec::new(), closed: false }
    }

    /// Enqueue `tx` behind everything published earlier. Fails with
    /// `ChannelClosed`, leaving the queue unchanged, exactly when the
    /// consumer has detached.
    pub fn publish(&mut self, tx: Transaction) -> (r: Result<(), TickError>)
        ensures
            final(self).is_closed() == old(self).is_closed(),
            old(self).is_closed() ==> r == Err::<(), TickError>(TickError::ChannelClosed)
                && final(self)@ == old(self)@,
            !old(self).is_closed() ==> r == Ok::<(), TickError>(())
                && final(self)@ == old(self)@.push(tx),
    {
        if self.closed {
            Err(TickError::ChannelClosed)
        } else {
            self.queue.push(tx);
            Ok(())
        }
    }

    /// Consumer side: take the oldest published transaction, if any.
    pub fn recv(&mut self) -> (r: Option<Transaction>)
        ensures
            final(self).is_closed() == old(self).is_closed(),
            old(self)@.len() == 0 ==> r == None::<Transaction> && final(self)@ == old(self)@,
            old(self)@.len() > 0 ==> r == Some(old(self)@[0])
                && final(self)@ == old(self)@.subrange(1, old(self)@.len() as int),
    {
        if self.queue.len() == 0 {
            None
        } else {
            let tx = self.queue.remove(0);
            proof {
                assert(self.queue@ =~= old(self)@.subrange(1, old(self)@.len() as int));
            }
            Some(tx)
        }
    }

    /// Consumer side: detach permanently. Later publishes fail.
    pub fn close(&mut self)
        ensures
            final(self).is_closed(),
            final(self)@ == old(self)@,
    {
        self.closed = true;
    }

    /// Number of published, not yet consumed transactions.
    pub fn len(&self) -> (r: usize)
        ensures
            r == self@.len(),
    {
        self.queue.len()
    }
}

} // verus!
