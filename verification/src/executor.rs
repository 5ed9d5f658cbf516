//! The executor: one value owning the ingestion pipe and the
//! block-execution coordinator of a node.

use vstd::prelude::*;
use crate::channel::ForwardChannel;
use crate::coordinator::{execute_committed_spec, execute_result_spec, BlockExecutionCoordinator};
use crate::errors::{ExecuteError, TickError, VmError};
use crate::pipe::{drain_spec, TransactionPipe, MAX_TICK_ITEMS};
use crate::reply::DeliveredReply;
use crate::types::{Block, CheckpointOutput, PendingRecord, Transaction};
use crate::inbound::InboundRequest;

verus! {

/// The ingestion and sequencing core of one node.
#[derive(Debug)]
pub struct Executor {
    /// Drains inbound requests into the admission cache and the forward
    /// channel.
    pub pipe: TransactionPipe,
    /// Enforces parent chaining and owns the committed-chain pointer.
    pub coordinator: BlockExecutionCoordinator,
}

impl Executor {
    /// A fresh executor: empty cache of the given capacity, open inbound
    /// queue, chain starting at `genesis_id`.
    pub fn new(capacity: usize, genesis_id: u64) -> (r: Executor)
        ensures
            r.pipe.cache@ == Seq::<PendingRecord>::empty(),
            r.pipe.cache.capacity() == capacity as nat,
            r.pipe.cache.wf(),
            r.pipe.inbound@ == Seq::<InboundRequest>::empty(),
            !r.pipe.inbound.is_closed(),
            r.coordinator.committed_id() == genesis_id,
    {
        Executor {
            pipe: TransactionPipe::new(capacity),
            coordinator: BlockExecutionCoordinator::new(genesis_id),
        }
    }

    /// One drain cycle of the ingestion pipe; see `TransactionPipe::tick`.
    pub fn tick_transaction_pipe(
        &mut self,
        channel: &mut ForwardChannel,
        delivered: &mut Vec<DeliveredReply>,
    ) -> (r: Result<(), TickError>)
        requires
            old(self).pipe.cache.wf(),
        ensures
            final(self).coordinator == old(self).coordinator,
            ({
                let d = drain_spec(
                    old(self).pipe.cache@,
                    old(self).pipe.cache.capacity(),
                    old(self).pipe.inbound@,
                    old(channel)@,
                    old(channel).is_closed(),
                    MAX_TICK_ITEMS as nat,
                );
                &&& final(self).pipe.cache.wf()
                &&& final(self).pipe.cache.capacity() == old(self).pipe.cache.capacity()
                &&& final(self).pipe.cache@ == d.entries
                &&& final(self).pipe.inbound@ == d.remaining
                &&& final(self).pipe.inbound.is_closed() == old(self).pipe.inbound.is_closed()
                &&& final(channel)@ == d.channel
                &&& final(channel).is_closed() == old(channel).is_closed()
                &&& final(delivered)@ == old(delivered)@ + d.delivered
                &&& r == (match d.failure {
                    None => Ok::<(), TickError>(()),
                    Some(e) => Err::<(), TickError>(e),
                })
            }),
    {
        self.pipe.tick(channel, delivered)
    }

    /// Execute a block against the committed state; see
    /// `BlockExecutionCoordinator::execute_block`.
    pub fn execute_block(
        &mut self,
        block: &Block,
        vm_outcome: Result<CheckpointOutput, VmError>,
    ) -> (r: Result<CheckpointOutput, ExecuteError>)
        ensures
            final(self).pipe == old(self).pipe,
            r == execute_result_spec(old(self).coordinator.committed_id(), *block, vm_outcome),
            final(self).coordinator.committed_id() == execute_committed_spec(
                old(self).coordinator.committed_id(),
                *block,
                vm_outcome,
            ),
    {
        self.coordinator.execute_block(block, vm_outcome)
    }

    /// Read-only status query against the pending-transaction cache.
    pub fn lookup_by_hash(&self, hash: u64) -> (r: Option<Transaction>)
        ensures
            r == crate::cache::lookup_spec(self.pipe.cache@, hash),
    {
        self.pipe.cache.lookup_by_hash(hash)
    }

    /// Provisional sequence number for an incoming transaction: the
    /// wall-clock milliseconds, reinterpreted as unsigned. The value depends
    /// on the clock, so nothing further is promised of it.
    pub fn get_transaction_sequence_number(&self) -> u64 {
        let ms = crate::time::now_timestamp_millis();
        crate::time::millis_to_sequence_number(ms)
    }
}

} // verus!
