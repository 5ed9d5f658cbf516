//! The block-execution coordinator: strict parent chaining over a single,
//! non-forking chain, one checkpoint per committed block.

use vstd::prelude::*;
use crate::errors::{ExecuteError, VmError};
use crate::types::{Block, CheckpointOutput};

verus! {

/// What `execute_block` returns, given the committed pointer before the
/// call, the block, and the virtual machine's verdict on it.
pub open spec fn execute_result_spec(
    committed: u64,
    block: Block,
    vm_outcome: Result<CheckpointOutput, VmError>,
) -> Result<CheckpointOutput, ExecuteError> {
    if block.parent_id != committed {
        Err(ExecuteError::ParentMismatch)
    } else {
        match vm_outcome {
            Ok(checkpoint) => Ok(checkpoint),
            Err(e) => Err(ExecuteError::Vm(e)),
        }
    }
}

/// The committed pointer after `execute_block`: it advances to the block's
/// id exactly when the call succeeds.
pub open spec fn execute_committed_spec(
    committed: u64,
    block: Block,
    vm_outcome: Result<CheckpointOutput, VmError>,
) -> u64 {
    if block.parent_id == committed && vm_outcome is Ok {
        block.id
    } else {
        committed
    }
}

/// Exclusive owner of the committed-chain pointer. External collaborators
/// read the pointer through `last_committed_block_id`; only `execute_block`
/// writes it.
#[derive(Debug)]
pub struct BlockExecutionCoordinator {
    last_committed: u64,
}

impl BlockExecutionCoordinator {
    /// The last committed block id.
    pub closed spec fn committed_id(self) -> u64 {
        self.last_committed
    }

    /// A coordinator whose chain starts at the durably stored identifier
    /// `genesis_id`.
    pub fn new(genesis_id: u64) -> (r: BlockExecutionCoordinator)
        ensures
            r.committed_id() == genesis_id,
    {
        BlockExecutionCoordinator { last_committed: genesis_id }
    }

    /// Read accessor for status queries.
    pub fn last_committed_block_id(&self) -> (r: u64)
        ensures
            r == self.committed_id(),
    {
        self.last_committed
    }

    /// Whether `block` chains onto the last committed block. The caller
    /// consults this before spending virtual-machine work on the block.
    pub fn parent_matches(&self, block: &Block) -> (r: bool)
        ensures
            r == (block.parent_id == self.committed_id()),
    {
        block.parent_id == self.last_committed
    }

    /// Execute `block` against the committed state.
    ///
    /// `vm_outcome` is the virtual-machine collaborator's verdict on the
    /// block's ordered transactions against the current committed snapshot;
    /// the surrounding process obtains it and hands it in. A block whose
    /// parent is not the last committed block is refused with
    /// `ParentMismatch` before any verdict matters; a virtual-machine
    /// failure propagates verbatim. The committed pointer advances to
    /// `block.id` exactly when the call returns the checkpoint.
    pub fn execute_block(
        &mut self,
        block: &Block,
        vm_outcome: Result<CheckpointOutput, VmError>,
    ) -> (r: Result<CheckpointOutput, ExecuteError>)
        ensures
            r == execute_result_spec(old(self).committed_id(), *block, vm_outcome),
            final(self).committed_id()
                == execute_committed_spec(old(self).committed_id(), *block, vm_outcome),
    {
        if block.parent_id != self.last_committed {
            return Err(ExecuteError::ParentMismatch);
        }
        match vm_outcome {
            Ok(checkpoint) => {
                self.last_committed = block.id;
                Ok(checkpoint)
            },
            Err(e) => Err(ExecuteError::Vm(e)),
        }
    }
}

/// A block that does not chain onto the committed pointer is refused with
/// `ParentMismatch`, whatever the virtual machine would have said, and the
/// pointer is unchanged.
pub proof fn lemma_parent_mismatch_leaves_state(
    committed: u64,
    block: Block,
    vm_outcome: Result<CheckpointOutput, VmError>,
)
    requires
        block.parent_id != committed,
    ensures
        execute_result_spec(committed, block, vm_outcome) == Err::<
            CheckpointOutput,
            ExecuteError,
        >(ExecuteError::ParentMismatch),
        execute_committed_spec(committed, block, vm_outcome) == committed,
{
}

/// After a successful execution the committed pointer is the executed
/// block's id, and any block chaining onto that id passes the parent check
/// of a subsequent execution.
pub proof fn lemma_successful_execute_advances_chain(
    committed: u64,
    block: Block,
    checkpoint: CheckpointOutput,
    next: Block,
)
    requires
        block.parent_id == committed,
        next.parent_id == block.id,
    ensures
        execute_result_spec(committed, block, Ok(checkpoint)) == Ok::<
            CheckpointOutput,
            ExecuteError,
        >(checkpoint),
        execute_committed_spec(committed, block, Ok(checkpoint)) == block.id,
        execute_result_spec(
            execute_committed_spec(committed, block, Ok(checkpoint)),
            next,
            Ok(checkpoint),
        ) != Err::<CheckpointOutput, ExecuteError>(ExecuteError::ParentMismatch),
{
}

/// A failing virtual machine leaves the committed pointer unchanged and its
/// error is propagated verbatim: the block is not committed.
pub proof fn lemma_vm_failure_leaves_state(committed: u64, block: Block, e: VmError)
    ensures
        execute_committed_spec(committed, block, Err(e)) == committed,
        block.parent_id == committed ==> execute_result_spec(committed, block, Err(e)) == Err::<
            CheckpointOutput,
            ExecuteError,
        >(ExecuteError::Vm(e)),
{
}

} // verus!
