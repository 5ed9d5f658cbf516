//! The admission cache: pending transactions, deduplicated by the
//! (sender, sequence number) identity.

use vstd::prelude::*;
use crate::errors::{AdmissionOutcome, RejectReason};
use crate::types::{PendingRecord, Transaction};

verus! {

/// Whether `entries` already holds a record with `tx`'s identity.
pub open spec fn cache_has_key(entries: Seq<PendingRecord>, tx: Transaction) -> bool {
    exists|i: int| 0 <= i < entries.len() && entries[i].transaction.same_key(tx)
}

/// No two entries share a (sender, sequence number) identity.
pub open spec fn keys_unique(entries: Seq<PendingRecord>) -> bool {
    forall|i: int, j: int|
        0 <= i < entries.len() && 0 <= j < entries.len() && i != j
            ==> !(#[trigger] entries[i]).transaction.same_key(#[trigger] entries[j].transaction)
}

/// Well-formedness of a cache state with the given capacity: identities are
/// unique, the capacity bounds the size, and each record carries the number
/// of entries present when it was admitted.
pub open spec fn cache_wf(entries: Seq<PendingRecord>, capacity: nat) -> bool {
    &&& keys_unique(entries)
    &&& entries.len() <= capacity
    &&& capacity <= usize::MAX
    &&& forall|i: int| 0 <= i < entries.len() ==> (#[trigger] entries[i]).admitted_at == i as u64
}

/// The outcome `admit_transaction` reports for `tx` against the state `entries`:
/// a pending duplicate wins over a full cache; otherwise the transaction
/// is accepted.
pub open spec fn admit_outcome_spec(
    entries: Seq<PendingRecord>,
    capacity: nat,
    tx: Transaction,
) -> AdmissionOutcome {
    if cache_has_key(entries, tx) {
        AdmissionOutcome::Rejected(RejectReason::DuplicatePending)
    } else if entries.len() >= capacity {
        AdmissionOutcome::Rejected(RejectReason::CacheFull)
    } else {
        AdmissionOutcome::Accepted
    }
}

/// The cache state after `admit`: unchanged on rejection, extended by one
/// record on acceptance.
pub open spec fn admit_entries_spec(
    entries: Seq<PendingRecord>,
    capacity: nat,
    tx: Transaction,
) -> Seq<PendingRecord> {
    if admit_outcome_spec(entries, capacity, tx) == AdmissionOutcome::Accepted {
        entries.push(PendingRecord { transaction: tx, admitted_at: entries.len() as u64 })
    } else {
        entries
    }
}

/// First pending record whose transaction hashes to `hash`, if any.
pub open spec fn lookup_spec(entries: Seq<PendingRecord>, hash: u64) -> Option<Transaction>
    decreases entries.len(),
{
    if entries.len() == 0 {
        None
    } else if entries[0].transaction.hash == hash {
        Some(entries[0].transaction)
    } else {
        lookup_spec(entries.subrange(1, entries.len() as int), hash)
    }
}

/// Pending transactions keyed by sender identity, bounded by a fixed
/// capacity. Owned by the ingestion pipe; readable by status queries.
#[derive(Debug)]
pub struct AdmissionCache {
    entries: Vec<PendingRecord>,
    capacity: usize,
}

impl View for AdmissionCache {
    type V = Seq<PendingRecord>;

    closed spec fn view(&self) -> Seq<PendingRecord> {
        self.entries@
    }
}

impl AdmissionCache {
    /// The configured capacity.
    pub closed spec fn capacity(self) -> nat {
        self.capacity as nat
    }

    /// The cache's invariant.
    pub open spec fn wf(self) -> bool {
        cache_wf(self@, self.capacity())
    }

    /// An empty cache that will hold at most `capacity` pending entries.
    pub fn new(capacity: usize) -> (r: AdmissionCache)
        ensures
            r@ == Seq::<PendingRecord>::empty(),
            r.capacity() == capacity as nat,
            r.wf(),
    {
        AdmissionCache { entries: Vec::new(), capacity }
    }

    /// Number of pending entries.
    pub fn len(&self) -> (r: usize)
        ensures
            r == self@.len(),
    {
        self.entries.len()
    }

    /// Admit `tx`: refuse a duplicate identity without mutation, refuse on a
    /// full cache, otherwise insert a pending record.
    pub fn admit_transaction(&mut self, tx: Transaction) -> (r: AdmissionOutcome)
        requires
            old(self).wf(),
        ensures
            final(self).wf(),
            final(self).capacity() == old(self).capacity(),
            r == admit_outcome_spec(old(self)@, old(self).capacity(), tx),
            final(self)@ == admit_entries_spec(old(self)@, old(self).capacity(), tx),
    {
        let n = self.entries.len();
        for i in 0..n
            invariant
                n == self@.len(),
                forall|j: int|
                    0 <= j < i ==> !(#[trigger] self@[j]).transaction.same_key(tx),
                self.wf(),
        {
            let candidate = &self.entries[i];
            if candidate.transaction.sender == tx.sender
                && candidate.transaction.sequence_number == tx.sequence_number {
                assert(cache_has_key(self@, tx));
                return AdmissionOutcome::Rejected(RejectReason::DuplicatePending);
            }
        }
        assert(!cache_has_key(self@, tx));
        if self.entries.len() >= self.capacity {
            return AdmissionOutcome::Rejected(RejectReason::CacheFull);
        }
        let record = PendingRecord { transaction: tx, admitted_at: self.entries.len() as u64 };
        self.entries.push(record);
        AdmissionOutcome::Accepted
    }

    /// Read-only lookup of the first pending transaction with this hash.
    pub fn lookup_by_hash(&self, hash: u64) -> (r: Option<Transaction>)
        ensures
            r == lookup_spec(self@, hash),
    {
        let n = self.entries.len();
        proof {
            assert(self@.subrange(0, n as int) =~= self@);
        }
        for i in 0..n
            invariant
                n == self@.len(),
                lookup_spec(self@.subrange(i as int, n as int), hash) == lookup_spec(self@, hash),
        {
            let candidate = &self.entries[i];
            if candidate.transaction.hash == hash {
                assert(self@.subrange(i as int, n as int)[0] == self@[i as int]);
                return Some(candidate.transaction);
            }
            proof {
                let sub = self@.subrange(i as int, n as int);
                assert(sub[0] == self@[i as int]);
                assert(sub.subrange(1, sub.len() as int)
                    =~= self@.subrange(i + 1, n as int));
            }
        }
        proof {
            assert(self@.subrange(n as int, n as int).len() == 0);
        }
        None
    }
}

} // verus!
