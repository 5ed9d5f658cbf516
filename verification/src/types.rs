//! Plain-value data model: transactions, pending records, blocks, checkpoints.

use vstd::prelude::*;

verus! {

/// A transaction as this core reads it: the sender-derived identity
/// (sender address and account sequence number) and the content hash.
/// Payload bytes are carried by the surrounding process, not by this core.
#[derive(Clone, Copy, Debug, PartialEq, Eq, Structural)]
pub struct Transaction {
    /// Sender account address.
    pub sender: u64,
    /// Account sequence number of the sender.
    pub sequence_number: u64,
    /// Content hash, used by the query path.
    pub hash: u64,
}

impl Transaction {
    /// Two transactions collide in the admission cache exactly when both
    /// identity components agree.
    pub open spec fn same_key(self, other: Transaction) -> bool {
        self.sender == other.sender && self.sequence_number == other.sequence_number
    }
}

/// One pending entry of the admission cache.
#[derive(Clone, Copy, Debug, PartialEq, Eq, Structural)]
pub struct PendingRecord {
    /// The admitted transaction.
    pub transaction: Transaction,
    /// Admission order: the number of entries the cache held when this one
    /// was admitted.
    pub admitted_at: u64,
}

/// A block as handed to the execution coordinator by block assembly.
#[derive(Debug, PartialEq, Eq)]
pub struct Block {
    /// Identifier of this block.
    pub id: u64,
    /// Identifier of the block this one chains onto.
    pub parent_id: u64,
    /// The transactions of the block, in forward-channel order.
    pub transactions: Vec<Transaction>,
}

/// The verifiable summary produced after a block executes.
#[derive(Clone, Copy, Debug, PartialEq, Eq, Structural)]
pub struct CheckpointOutput {
    /// Digest of the resulting state.
    pub root_state_digest: u64,
    /// Index of the last executed transaction.
    pub last_executed_index: u64,
}

} // verus!
