//! The ingestion pipe: a bounded drain cycle that moves inbound requests
//! through admission, forwarding, and reply completion.

use vstd::prelude::*;
use crate::cache::{admit_entries_spec, admit_outcome_spec, lookup_spec, AdmissionCache};
use crate::channel::ForwardChannel;
use crate::errors::{AdmissionOutcome, TickError};
use crate::inbound::{InboundQueue, InboundRequest};
use crate::reply::{DeliveredReply, ReplyValue};
use crate::types::{PendingRecord, Transaction};

verus! {

/// Most requests one tick will drain.
pub const MAX_TICK_ITEMS: usize = 256;

/// Everything one tick changes or produces, as computed by `drain_spec`.
#[verifier::ext_equal]
pub struct DrainOut {
    /// Cache entries after the tick.
    pub entries: Seq<PendingRecord>,
    /// Forward-channel contents after the tick.
    pub channel: Seq<Transaction>,
    /// Replies delivered during the tick, oldest first.
    pub delivered: Seq<DeliveredReply>,
    /// Inbound requests the tick did not consume.
    pub remaining: Seq<InboundRequest>,
    /// `None` when the tick ends successfully; otherwise the error that
    /// aborted it.
    pub failure: Option<TickError>,
}

/// The functional model of one tick: process the inbound requests front to
/// back, up to `fuel` of them, each one admitted, forwarded, and answered
/// before the next is taken.
///
/// A `Submit` whose transaction is accepted but cannot be forwarded aborts
/// the tick with `ChannelClosed`; the admission stays (the cache mutation
/// already happened) and the reply is lost. A request whose requester has
/// detached aborts the tick with `ReplyUnavailable` after its other effects.
/// Running out of requests or out of fuel ends the tick successfully.
pub open spec fn drain_spec(
    entries: Seq<PendingRecord>,
    capacity: nat,
    inbound: Seq<InboundRequest>,
    channel: Seq<Transaction>,
    channel_closed: bool,
    fuel: nat,
) -> DrainOut
    decreases fuel,
{
    if fuel == 0 || inbound.len() == 0 {
        DrainOut {
            entries,
            channel,
            delivered: Seq::empty(),
            remaining: inbound,
            failure: None,
        }
    } else {
        let rest = inbound.subrange(1, inbound.len() as int);
        match inbound[0] {
            InboundRequest::Submit(tx, reply) => {
                let outcome = admit_outcome_spec(entries, capacity, tx);
                let entries2 = admit_entries_spec(entries, capacity, tx);
                if outcome == AdmissionOutcome::Accepted && channel_closed {
                    DrainOut {
                        entries: entries2,
                        channel,
                        delivered: Seq::empty(),
                        remaining: rest,
                        failure: Some(TickError::ChannelClosed),
                    }
                } else {
                    let channel2 = if outcome == AdmissionOutcome::Accepted {
                        channel.push(tx)
                    } else {
                        channel
                    };
                    if reply.is_listening() {
                        let sub = drain_spec(
                            entries2,
                            capacity,
                            rest,
                            channel2,
                            channel_closed,
                            (fuel - 1) as nat,
                        );
                        DrainOut {
                            entries: sub.entries,
                            channel: sub.channel,
                            delivered: seq![
                                DeliveredReply { value: ReplyValue::Submitted(outcome) },
                            ] + sub.delivered,
                            remaining: sub.remaining,
                            failure: sub.failure,
                        }
                    } else {
                        DrainOut {
                            entries: entries2,
                            channel: channel2,
                            delivered: Seq::empty(),
                            remaining: rest,
                            failure: Some(TickError::ReplyUnavailable),
                        }
                    }
                }
            },
            InboundRequest::Query(hash, reply) => {
                if reply.is_listening() {
                    let sub = drain_spec(
                        entries,
                        capacity,
                        rest,
                        channel,
                        channel_closed,
                        (fuel - 1) as nat,
                    );
                    DrainOut {
                        entries: sub.entries,
                        channel: sub.channel,
                        delivered: seq![
                            DeliveredReply { value: ReplyValue::Queried(lookup_spec(entries, hash)) },
                        ] + sub.delivered,
                        remaining: sub.remaining,
                        failure: sub.failure,
                    }
                } else {
                    DrainOut {
                        entries,
                        channel,
                        delivered: Seq::empty(),
                        remaining: rest,
                        failure: Some(TickError::ReplyUnavailable),
                    }
                }
            },
        }
    }
}

/// The ingestion pipe: owns the admission cache and the inbound queue it
/// drains. The forward channel belongs to the downstream consumer and is
/// handed in per tick.
#[derive(Debug)]
pub struct TransactionPipe {
    /// Pending-transaction cache, also the query path for status APIs.
    pub cache: AdmissionCache,
    /// The queue of requests the API collaborator produces.
    pub inbound: InboundQueue,
}

impl TransactionPipe {
    /// A pipe with an empty cache of the given capacity and an open, empty
    /// inbound queue.
    pub fn new(capacity: usize) -> (r: TransactionPipe)
        ensures
            r.cache@ == Seq::<PendingRecord>::empty(),
            r.cache.capacity() == capacity as nat,
            r.cache.wf(),
            r.inbound@ == Seq::<InboundRequest>::empty(),
            !r.inbound.is_closed(),
    {
        TransactionPipe { cache: AdmissionCache::new(capacity), inbound: InboundQueue::new() }
    }

    /// Drain up to `MAX_TICK_ITEMS` inbound requests, each one admitted,
    /// forwarded on acceptance, and answered before the next is taken.
    ///
    /// The whole effect equals `drain_spec` on the starting state: cache and
    /// inbound queue advance to its `entries` and `remaining`, the channel
    /// to its `channel`, the delivered replies are appended to `delivered`,
    /// and the result is `Ok` exactly when it reports no failure. An empty
    /// inbound queue — the quiescent case — therefore ends the tick at once,
    /// successfully and without effect.
    #[verifier::loop_isolation(false)]
    pub fn tick(
        &mut self,
        channel: &mut ForwardChannel,
        delivered: &mut Vec<DeliveredReply>,
    ) -> (r: Result<(), TickError>)
        requires
            old(self).cache.wf(),
        ensures
            ({
                let d = drain_spec(
                    old(self).cache@,
                    old(self).cache.capacity(),
                    old(self).inbound@,
                    old(channel)@,
                    old(channel).is_closed(),
                    MAX_TICK_ITEMS as nat,
                );
                &&& final(self).cache.wf()
                &&& final(self).cache.capacity() == old(self).cache.capacity()
                &&& final(self).cache@ == d.entries
                &&& final(self).inbound@ == d.remaining
                &&& final(self).inbound.is_closed() == old(self).inbound.is_closed()
                &&& final(channel)@ == d.channel
                &&& final(channel).is_closed() == old(channel).is_closed()
                &&& final(delivered)@ == old(delivered)@ + d.delivered
                &&& r == (match d.failure {
                    None => Ok::<(), TickError>(()),
                    Some(e) => Err::<(), TickError>(e),
                })
            }),
    {
        let ghost cap = old(self).cache.capacity();
        let ghost closed = old(channel).is_closed();
        let ghost g = drain_spec(
            old(self).cache@,
            cap,
            old(self).inbound@,
            old(channel)@,
            closed,
            MAX_TICK_ITEMS as nat,
        );
        let mut i: usize = 0;
        while i < MAX_TICK_ITEMS
            invariant
                i <= MAX_TICK_ITEMS,
                self.cache.wf(),
                self.cache.capacity() == cap,
                self.inbound.is_closed() == old(self).inbound.is_closed(),
                channel.is_closed() == closed,
                ({
                    let sub = drain_spec(
                        self.cache@,
                        cap,
                        self.inbound@,
                        channel@,
                        closed,
                        (MAX_TICK_ITEMS - i) as nat,
                    );
                    &&& g.entries == sub.entries
                    &&& g.channel == sub.channel
                    &&& g.remaining == sub.remaining
                    &&& g.failure == sub.failure
                    &&& old(delivered)@ + g.delivered == delivered@ + sub.delivered
                }),
            decreases MAX_TICK_ITEMS - i,
        {
            let ghost pre_entries = self.cache@;
            let ghost pre_inbound = self.inbound@;
            let ghost pre_channel = channel@;
            let ghost fuel = (MAX_TICK_ITEMS - i) as nat;
            let next = self.inbound.dequeue();
            match next {
                None => {
                    proof {
                        assert(delivered@ =~= old(delivered)@ + g.delivered);
                    }
                    return Ok(());
                },
                Some(req) => {
                    match req {
                        InboundRequest::Submit(tx, reply) => {
                            let outcome = self.cache.admit_transaction(tx);
                            let forwarded = match outcome {
                                AdmissionOutcome::Accepted => channel.publish(tx),
                                AdmissionOutcome::Rejected(_) => Ok(()),
                            };
                            match forwarded {
                                Err(e) => {
                                    proof {
                                        assert(delivered@ =~= old(delivered)@ + g.delivered);
                                    }
                                    return Err(e);
                                },
                                Ok(()) => {},
                            }
                            match reply.complete(ReplyValue::Submitted(outcome)) {
                                Ok(d) => {
                                    delivered.push(d);
                                    proof {
                                        let sub2 = drain_spec(
                                            self.cache@,
                                            cap,
                                            self.inbound@,
                                            channel@,
                                            closed,
                                            (fuel - 1) as nat,
                                        );
                                        assert(old(delivered)@ + g.delivered
                                            =~= delivered@ + sub2.delivered);
                                    }
                                },
                                Err(_) => {
                                    proof {
                                        assert(delivered@ =~= old(delivered)@ + g.delivered);
                                    }
                                    return Err(TickError::ReplyUnavailable);
                                },
                            }
                        },
                        InboundRequest::Query(hash, reply) => {
                            let result = self.cache.lookup_by_hash(hash);
                            match reply.complete(ReplyValue::Queried(result)) {
                                Ok(d) => {
                                    delivered.push(d);
                                    proof {
                                        let sub2 = drain_spec(
                                            self.cache@,
                                            cap,
                                            self.inbound@,
                                            channel@,
                                            closed,
                                            (fuel - 1) as nat,
                                        );
                                        assert(old(delivered)@ + g.delivered
                                            =~= delivered@ + sub2.delivered);
                                    }
                                },
                                Err(_) => {
                                    proof {
                                        assert(delivered@ =~= old(delivered)@ + g.delivered);
                                    }
                                    return Err(TickError::ReplyUnavailable);
                                },
                            }
                        },
                    }
                },
            }
            i = i + 1;
        }
        proof {
            assert(delivered@ =~= old(delivered)@ + g.delivered);
        }
        Ok(())
    }
}

/// The transactions of the `Submit` requests in `reqs`, in request order.
pub open spec fn submitted_txs(reqs: Seq<InboundRequest>) -> Seq<Transaction>
    decreases reqs.len(),
{
    if reqs.len() == 0 {
        Seq::empty()
    } else {
        let rest = submitted_txs(reqs.subrange(1, reqs.len() as int));
        match reqs[0] {
            InboundRequest::Submit(tx, _) => seq![tx] + rest,
            InboundRequest::Query(_, _) => rest,
        }
    }
}

/// A batch of requests that nothing rejects or aborts: every request is a
/// `Submit` with a listening requester, its identity neither pending nor
/// repeated later in the batch, and the cache never runs out of room.
pub open spec fn all_accepted_submits(
    entries: Seq<PendingRecord>,
    capacity: nat,
    reqs: Seq<InboundRequest>,
) -> bool
    decreases reqs.len(),
{
    if reqs.len() == 0 {
        true
    } else {
        match reqs[0] {
            InboundRequest::Submit(tx, reply) => {
                &&& reply.is_listening()
                &&& !crate::cache::cache_has_key(entries, tx)
                &&& entries.len() < capacity
                &&& all_accepted_submits(
                    admit_entries_spec(entries, capacity, tx),
                    capacity,
                    reqs.subrange(1, reqs.len() as int),
                )
            },
            InboundRequest::Query(_, _) => false,
        }
    }
}

/// Ordering law of a single tick: a batch of submissions that are all
/// accepted is forwarded completely, in exactly the order the requests were
/// admitted, and the tick succeeds with no request left behind.
pub proof fn lemma_tick_forwards_in_order(
    entries: Seq<PendingRecord>,
    capacity: nat,
    reqs: Seq<InboundRequest>,
    channel: Seq<Transaction>,
    fuel: nat,
)
    requires
        all_accepted_submits(entries, capacity, reqs),
        reqs.len() <= fuel,
    ensures
        drain_spec(entries, capacity, reqs, channel, false, fuel).channel
            == channel + submitted_txs(reqs),
        drain_spec(entries, capacity, reqs, channel, false, fuel).failure is None,
        drain_spec(entries, capacity, reqs, channel, false, fuel).remaining
            == Seq::<InboundRequest>::empty(),
    decreases reqs.len(),
{
    let d = drain_spec(entries, capacity, reqs, channel, false, fuel);
    if reqs.len() == 0 {
        assert(d.channel =~= channel + submitted_txs(reqs));
        assert(d.remaining =~= Seq::<InboundRequest>::empty());
    } else {
        let rest = reqs.subrange(1, reqs.len() as int);
        match reqs[0] {
            InboundRequest::Submit(tx, reply) => {
                let entries2 = admit_entries_spec(entries, capacity, tx);
                lemma_tick_forwards_in_order(
                    entries2,
                    capacity,
                    rest,
                    channel.push(tx),
                    (fuel - 1) as nat,
                );
                assert(channel.push(tx) + submitted_txs(rest)
                    =~= channel + (seq![tx] + submitted_txs(rest)));
            },
            InboundRequest::Query(_, _) => {},
        }
    }
}

/// Forwarding is append-only: whatever a tick does — rejections, aborts,
/// partial drains included — what was on the forward channel before stays
/// there, in place, and new transactions only follow it.
pub proof fn lemma_drain_extends_channel(
    entries: Seq<PendingRecord>,
    capacity: nat,
    reqs: Seq<InboundRequest>,
    channel: Seq<Transaction>,
    channel_closed: bool,
    fuel: nat,
)
    ensures
        drain_spec(entries, capacity, reqs, channel, channel_closed, fuel).channel.len()
            >= channel.len(),
        drain_spec(entries, capacity, reqs, channel, channel_closed, fuel).channel.subrange(
            0,
            channel.len() as int,
        ) == channel,
    decreases fuel,
{
    let d = drain_spec(entries, capacity, reqs, channel, channel_closed, fuel);
    if fuel == 0 || reqs.len() == 0 {
        assert(d.channel.subrange(0, channel.len() as int) =~= channel);
    } else {
        let rest = reqs.subrange(1, reqs.len() as int);
        match reqs[0] {
            InboundRequest::Submit(tx, reply) => {
                let outcome = admit_outcome_spec(entries, capacity, tx);
                let entries2 = admit_entries_spec(entries, capacity, tx);
                if outcome == AdmissionOutcome::Accepted && channel_closed {
                    assert(d.channel.subrange(0, channel.len() as int) =~= channel);
                } else {
                    let channel2 = if outcome == AdmissionOutcome::Accepted {
                        channel.push(tx)
                    } else {
                        channel
                    };
                    if reply.is_listening() {
                        lemma_drain_extends_channel(
                            entries2,
                            capacity,
                            rest,
                            channel2,
                            channel_closed,
                            (fuel - 1) as nat,
                        );
                        assert(channel2.subrange(0, channel.len() as int) =~= channel);
                        assert(d.channel.subrange(0, channel.len() as int) =~= channel2.subrange(
                            0,
                            channel2.len() as int,
                        ).subrange(0, channel.len() as int));
                        assert(d.channel.subrange(0, channel.len() as int) =~= channel);
                    } else {
                        assert(d.channel.subrange(0, channel.len() as int) =~= channel);
                    }
                }
            },
            InboundRequest::Query(_, reply) => {
                if reply.is_listening() {
                    lemma_drain_extends_channel(
                        entries,
                        capacity,
                        rest,
                        channel,
                        channel_closed,
                        (fuel - 1) as nat,
                    );
                } else {
                    assert(d.channel.subrange(0, channel.len() as int) =~= channel);
                }
            },
        }
    }
}

/// Quiescence law: a tick over an empty inbound queue ends successfully and
/// at once — nothing is admitted, forwarded, or delivered.
pub proof fn lemma_tick_on_empty_queue(
    entries: Seq<PendingRecord>,
    capacity: nat,
    channel: Seq<Transaction>,
    channel_closed: bool,
    fuel: nat,
)
    ensures
        drain_spec(entries, capacity, Seq::empty(), channel, channel_closed, fuel) == (DrainOut {
            entries,
            channel,
            delivered: Seq::<DeliveredReply>::empty(),
            remaining: Seq::<InboundRequest>::empty(),
            failure: None,
        }),
{
    assert(drain_spec(entries, capacity, Seq::empty(), channel, channel_closed, fuel)
        =~= DrainOut {
        entries,
        channel,
        delivered: Seq::<DeliveredReply>::empty(),
        remaining: Seq::<InboundRequest>::empty(),
        failure: None,
    });
}

/// Duplicate law: while a transaction's identity is pending, a second
/// submission with the same identity is answered `Rejected(DuplicatePending)`
/// and nothing reaches the forward channel; the cache is untouched.
pub proof fn lemma_duplicate_submit_not_forwarded(
    entries: Seq<PendingRecord>,
    capacity: nat,
    tx: Transaction,
    reply: crate::reply::ReplyHandle,
    channel: Seq<Transaction>,
    channel_closed: bool,
    fuel: nat,
)
    requires
        crate::cache::cache_has_key(entries, tx),
        reply.is_listening(),
        fuel >= 1,
    ensures
        ({
            let d = drain_spec(
                entries,
                capacity,
                seq![InboundRequest::Submit(tx, reply)],
                channel,
                channel_closed,
                fuel,
            );
            &&& d.channel == channel
            &&& d.entries == entries
            &&& d.delivered == seq![
                DeliveredReply {
                    value: ReplyValue::Submitted(
                        AdmissionOutcome::Rejected(crate::errors::RejectReason::DuplicatePending),
                    ),
                },
            ]
            &&& d.failure is None
        }),
{
    let reqs = seq![InboundRequest::Submit(tx, reply)];
    let rest = reqs.subrange(1, reqs.len() as int);
    assert(rest =~= Seq::<InboundRequest>::empty());
    lemma_tick_on_empty_queue(entries, capacity, channel, channel_closed, (fuel - 1) as nat);
    let d = drain_spec(entries, capacity, reqs, channel, channel_closed, fuel);
    assert(d.delivered =~= seq![
        DeliveredReply {
            value: ReplyValue::Submitted(
                AdmissionOutcome::Rejected(crate::errors::RejectReason::DuplicatePending),
            ),
        },
    ]);
}

} // verus!
