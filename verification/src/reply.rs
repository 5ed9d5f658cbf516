//! Single-use reply completion for inbound requests.

use vstd::prelude::*;
use crate::errors::{AdmissionOutcome, ReplyError};
use crate::types::Transaction;

verus! {

/// The value a reply carries back to the requester.
#[derive(Clone, Copy, Debug, PartialEq, Eq)]
pub enum ReplyValue {
    /// Answer to a submission: the admission outcome.
    Submitted(AdmissionOutcome),
    /// Answer to a hash query: the pending transaction, if any.
    Queried(Option<Transaction>),
}

/// A delivered reply, as observed by the requester's side.
#[derive(Clone, Copy, Debug, PartialEq, Eq)]
pub struct DeliveredReply {
    /// The value that was delivered.
    pub value: ReplyValue,
}

/// A single-use completion token bound to one inbound request.
///
/// The handle is consumed by `complete`, so a second completion of the same
/// request is impossible by construction: exactly-once delivery holds as long
/// as the holder neither drops the handle nor forgets to call `complete`.
#[derive(Debug)]
pub struct ReplyHandle {
    listening: bool,
}

impl ReplyHandle {
    /// Whether the requester's receiving end is still attached.
    pub closed spec fn is_listening(self) -> bool {
        self.listening
    }

    /// A handle whose requester is waiting for the answer.
    pub fn attached() -> (r: ReplyHandle)
        ensures
            r.is_listening(),
    {
        ReplyHandle { listening: true }
    }

    /// A handle whose requester has already discarded its receiving end.
    pub fn detached() -> (r: ReplyHandle)
        ensures
            !r.is_listening(),
    {
        ReplyHandle { listening: false }
    }

    /// Consume the handle and deliver `value` to the requester.
    ///
    /// Delivery succeeds exactly when the requester still listens; a detached
    /// requester yields `ReplyError::Unavailable` and nothing is delivered.
    pub fn complete(self, value: ReplyValue) -> (r: Result<DeliveredReply, ReplyError>)
        ensures
            self.is_listening() ==> r == Ok::<DeliveredReply, ReplyError>(DeliveredReply { value }),
            !self.is_listening() ==> r == Err::<DeliveredReply, ReplyError>(ReplyError::Unavailable),
    {
        if self.listening {
            Ok(DeliveredReply { value })
        } else {
            Err(ReplyError::Unavailable)
        }
    }
}

} // verus!
