//! Error taxonomy of the core.

use vstd::prelude::*;

verus! {

/// Why the admission cache refused a transaction.
#[derive(Clone, Copy, Debug, PartialEq, Eq, Structural)]
pub enum RejectReason {
    /// An entry with the same (sender, sequence number) identity is pending.
    DuplicatePending,
    /// The cache holds as many entries as it was configured for.
    CacheFull,
    /// External validation refused the transaction before admission.
    Malformed,
}

/// Outcome of an admission attempt, reported back to the submitter.
#[derive(Clone, Copy, Debug, PartialEq, Eq, Structural)]
pub enum AdmissionOutcome {
    /// The transaction is now pending and will be forwarded.
    Accepted,
    /// The transaction was refused for the given reason.
    Rejected(RejectReason),
}

/// Failure to complete a reply handle: the requester detached before the
/// answer was ready.
#[derive(Clone, Copy, Debug, PartialEq, Eq, Structural)]
pub enum ReplyError {
    /// The receiving end of the reply was discarded.
    Unavailable,
}

/// A failure that aborts the current tick of the ingestion pipe.
#[derive(Clone, Copy, Debug, PartialEq, Eq, Structural)]
pub enum TickError {
    /// The forward channel's consumer has permanently detached.
    ChannelClosed,
    /// A requester detached before its reply could be delivered.
    ReplyUnavailable,
}

/// A failure of the virtual-machine collaborator, carried through verbatim.
#[derive(Clone, Copy, Debug, PartialEq, Eq, Structural)]
pub struct VmError {
    /// Collaborator-defined failure code.
    pub code: u64,
}

/// A failure of `execute_block`.
#[derive(Clone, Copy, Debug, PartialEq, Eq, Structural)]
pub enum ExecuteError {
    /// The block does not chain onto the last committed block.
    ParentMismatch,
    /// The virtual machine failed; the block is not committed.
    Vm(VmError),
}

} // verus!
