use opt_executor::cache::AdmissionCache;
use opt_executor::channel::ForwardChannel;
use opt_executor::coordinator::BlockExecutionCoordinator;
use opt_executor::errors::{AdmissionOutcome, ExecuteError, RejectReason, TickError, VmError};
use opt_executor::executor::Executor;
use opt_executor::inbound::InboundRequest;
use opt_executor::keys::bootstrap_key_material;
use opt_executor::pipe::TransactionPipe;
use opt_executor::reply::{DeliveredReply, ReplyHandle, ReplyValue};
use opt_executor::time::millis_to_sequence_number;
use opt_executor::types::{Block, CheckpointOutput, Transaction};

fn tx(sender: u64, sequence_number: u64, hash: u64) -> Transaction {
    Transaction { sender, sequence_number, hash }
}

fn submit(pipe: &mut TransactionPipe, t: Transaction) {
    assert!(pipe.inbound.enqueue(InboundRequest::Submit(t, ReplyHandle::attached())));
}

#[test]
fn test_execute_block() {
    let mut executor = Executor::new(16, 0);
    let block = Block { id: 7, parent_id: 0, transactions: vec![tx(1, 0, 11)] };
    let checkpoint = CheckpointOutput { root_state_digest: 99, last_executed_index: 0 };
    let result = executor.execute_block(&block, Ok(checkpoint));
    assert_eq!(result, Ok(checkpoint));
    assert_eq!(executor.coordinator.last_committed_block_id(), 7);
}

#[test]
fn test_pipe_mempool() {
    let mut executor = Executor::new(16, 0);
    let user_transaction = tx(1, 0, 11);
    submit(&mut executor.pipe, user_transaction);

    let mut channel = ForwardChannel::new();
    let mut delivered: Vec<DeliveredReply> = Vec::new();
    executor.tick_transaction_pipe(&mut channel, &mut delivered).unwrap();

    // the callback arrived, exactly once, with the admission outcome
    assert_eq!(delivered.len(), 1);
    assert_eq!(delivered[0].value, ReplyValue::Submitted(AdmissionOutcome::Accepted));

    // the transaction arrived on the forward channel
    let received_transaction = channel.recv().unwrap();
    assert_eq!(received_transaction, user_transaction);
    assert_eq!(channel.recv(), None);
}

#[test]
fn test_repeated_pipe_mempool_from_api() {
    let mut executor = Executor::new(64, 0);
    let mut channel = ForwardChannel::new();
    let mut submitted: Vec<Transaction> = Vec::new();
    let mut received: Vec<Transaction> = Vec::new();

    for i in 0..25u64 {
        let user_transaction = tx(i, 0, 1000 + i);
        submitted.push(user_transaction);
        submit(&mut executor.pipe, user_transaction);

        let mut delivered: Vec<DeliveredReply> = Vec::new();
        executor.tick_transaction_pipe(&mut channel, &mut delivered).unwrap();
        assert_eq!(delivered.len(), 1);

        received.push(channel.recv().unwrap());
    }

    assert_eq!(submitted.len(), received.len());
    // no duplicates, no omissions: the received set equals the submitted set
    let mut submitted_sorted = submitted.clone();
    submitted_sorted.sort_by_key(|t| (t.sender, t.sequence_number, t.hash));
    let mut received_sorted = received.clone();
    received_sorted.sort_by_key(|t| (t.sender, t.sequence_number, t.hash));
    assert_eq!(submitted_sorted, received_sorted);
}

#[test]
fn forward_order_matches_admission_order() {
    let mut pipe = TransactionPipe::new(16);
    let a = tx(1, 0, 11);
    let b = tx(2, 0, 12);
    let c = tx(3, 0, 13);
    submit(&mut pipe, a);
    submit(&mut pipe, b);
    submit(&mut pipe, c);

    let mut channel = ForwardChannel::new();
    let mut delivered: Vec<DeliveredReply> = Vec::new();
    pipe.tick(&mut channel, &mut delivered).unwrap();

    assert_eq!(channel.recv(), Some(a));
    assert_eq!(channel.recv(), Some(b));
    assert_eq!(channel.recv(), Some(c));
    assert_eq!(channel.recv(), None);
    assert_eq!(delivered.len(), 3);
    for d in &delivered {
        assert_eq!(d.value, ReplyValue::Submitted(AdmissionOutcome::Accepted));
    }
}

#[test]
fn duplicate_pending_identity_is_rejected_and_not_forwarded() {
    let mut pipe = TransactionPipe::new(16);
    let first = tx(1, 5, 11);
    let second = tx(1, 5, 99); // same (sender, sequence) identity, other content
    submit(&mut pipe, first);
    submit(&mut pipe, second);

    let mut channel = ForwardChannel::new();
    let mut delivered: Vec<DeliveredReply> = Vec::new();
    pipe.tick(&mut channel, &mut delivered).unwrap();

    assert_eq!(delivered.len(), 2);
    assert_eq!(delivered[0].value, ReplyValue::Submitted(AdmissionOutcome::Accepted));
    assert_eq!(
        delivered[1].value,
        ReplyValue::Submitted(AdmissionOutcome::Rejected(RejectReason::DuplicatePending)),
    );
    assert_eq!(channel.recv(), Some(first));
    assert_eq!(channel.recv(), None);
}

#[test]
fn tick_on_empty_open_queue_returns_at_once() {
    let mut pipe = TransactionPipe::new(16);
    let mut channel = ForwardChannel::new();
    let mut delivered: Vec<DeliveredReply> = Vec::new();
    assert_eq!(pipe.tick(&mut channel, &mut delivered), Ok(()));
    assert!(delivered.is_empty());
    assert_eq!(channel.len(), 0);
    assert_eq!(pipe.cache.len(), 0);
}

#[test]
fn parent_mismatch_leaves_committed_pointer_unchanged() {
    let mut coordinator = BlockExecutionCoordinator::new(3);
    let block = Block { id: 9, parent_id: 8, transactions: vec![] };
    let checkpoint = CheckpointOutput { root_state_digest: 1, last_executed_index: 0 };
    assert_eq!(coordinator.last_committed_block_id(), 3);
    let result = coordinator.execute_block(&block, Ok(checkpoint));
    assert_eq!(result, Err(ExecuteError::ParentMismatch));
    assert_eq!(coordinator.last_committed_block_id(), 3);
}

#[test]
fn successful_execute_advances_chain() {
    let mut coordinator = BlockExecutionCoordinator::new(0);
    let first = Block { id: 5, parent_id: 0, transactions: vec![] };
    let checkpoint = CheckpointOutput { root_state_digest: 1, last_executed_index: 0 };
    assert_eq!(coordinator.execute_block(&first, Ok(checkpoint)), Ok(checkpoint));
    assert_eq!(coordinator.last_committed_block_id(), 5);

    // a block chaining onto the new pointer passes the parent check
    let second = Block { id: 6, parent_id: 5, transactions: vec![] };
    assert!(coordinator.parent_matches(&second));
    assert_eq!(coordinator.execute_block(&second, Ok(checkpoint)), Ok(checkpoint));
    assert_eq!(coordinator.last_committed_block_id(), 6);
}

#[test]
fn vm_failure_propagates_and_leaves_state() {
    let mut coordinator = BlockExecutionCoordinator::new(0);
    let block = Block { id: 5, parent_id: 0, transactions: vec![] };
    let e = VmError { code: 42 };
    assert_eq!(coordinator.execute_block(&block, Err(e)), Err(ExecuteError::Vm(e)));
    assert_eq!(coordinator.last_committed_block_id(), 0);
}

#[test]
fn cache_at_capacity_rejects() {
    let mut pipe = TransactionPipe::new(1);
    submit(&mut pipe, tx(1, 0, 11));
    submit(&mut pipe, tx(2, 0, 12));

    let mut channel = ForwardChannel::new();
    let mut delivered: Vec<DeliveredReply> = Vec::new();
    pipe.tick(&mut channel, &mut delivered).unwrap();

    assert_eq!(delivered.len(), 2);
    assert_eq!(delivered[0].value, ReplyValue::Submitted(AdmissionOutcome::Accepted));
    assert_eq!(
        delivered[1].value,
        ReplyValue::Submitted(AdmissionOutcome::Rejected(RejectReason::CacheFull)),
    );
    assert_eq!(channel.recv(), Some(tx(1, 0, 11)));
    assert_eq!(channel.recv(), None);
}

#[test]
fn detached_requester_aborts_tick_with_reply_unavailable() {
    let mut pipe = TransactionPipe::new(16);
    let a = tx(1, 0, 11);
    let b = tx(2, 0, 12);
    assert!(pipe.inbound.enqueue(InboundRequest::Submit(a, ReplyHandle::detached())));
    submit(&mut pipe, b);

    let mut channel = ForwardChannel::new();
    let mut delivered: Vec<DeliveredReply> = Vec::new();
    let result = pipe.tick(&mut channel, &mut delivered);
    assert_eq!(result, Err(TickError::ReplyUnavailable));

    // the aborted item was already admitted and forwarded; the rest waits
    assert_eq!(channel.recv(), Some(a));
    assert_eq!(channel.recv(), None);
    assert!(delivered.is_empty());
    assert_eq!(pipe.inbound.len(), 1);
}

#[test]
fn closed_channel_aborts_tick() {
    let mut pipe = TransactionPipe::new(16);
    submit(&mut pipe, tx(1, 0, 11));

    let mut channel = ForwardChannel::new();
    channel.close();
    let mut delivered: Vec<DeliveredReply> = Vec::new();
    let result = pipe.tick(&mut channel, &mut delivered);
    assert_eq!(result, Err(TickError::ChannelClosed));
    assert_eq!(channel.len(), 0);
    assert!(delivered.is_empty());
    // the admission itself happened before the forward failed
    assert_eq!(pipe.cache.len(), 1);
}

#[test]
fn query_answers_from_pending_cache() {
    let mut pipe = TransactionPipe::new(16);
    let a = tx(1, 0, 11);
    submit(&mut pipe, a);
    assert!(pipe.inbound.enqueue(InboundRequest::Query(11, ReplyHandle::attached())));
    assert!(pipe.inbound.enqueue(InboundRequest::Query(999, ReplyHandle::attached())));

    let mut channel = ForwardChannel::new();
    let mut delivered: Vec<DeliveredReply> = Vec::new();
    pipe.tick(&mut channel, &mut delivered).unwrap();

    assert_eq!(delivered.len(), 3);
    assert_eq!(delivered[1].value, ReplyValue::Queried(Some(a)));
    assert_eq!(delivered[2].value, ReplyValue::Queried(None));
}

#[test]
fn lookup_by_hash_reads_without_mutation() {
    let mut cache = AdmissionCache::new(8);
    let a = tx(1, 0, 11);
    assert_eq!(cache.admit_transaction(a), AdmissionOutcome::Accepted);
    assert_eq!(cache.lookup_by_hash(11), Some(a));
    assert_eq!(cache.lookup_by_hash(12), None);
    assert_eq!(cache.len(), 1);
}

#[test]
fn executor_lookup_by_hash() {
    let mut executor = Executor::new(8, 0);
    let a = tx(4, 2, 77);
    submit(&mut executor.pipe, a);
    let mut channel = ForwardChannel::new();
    let mut delivered: Vec<DeliveredReply> = Vec::new();
    executor.tick_transaction_pipe(&mut channel, &mut delivered).unwrap();
    assert_eq!(executor.lookup_by_hash(77), Some(a));
    assert_eq!(executor.lookup_by_hash(78), None);
}

#[test]
fn reply_handle_completes_exactly_once() {
    let handle = ReplyHandle::attached();
    let delivered = handle.complete(ReplyValue::Submitted(AdmissionOutcome::Accepted));
    assert_eq!(
        delivered.unwrap().value,
        ReplyValue::Submitted(AdmissionOutcome::Accepted),
    );
    // `complete` consumes the handle: a second completion does not compile.

    let detached = ReplyHandle::detached();
    assert!(detached.complete(ReplyValue::Queried(None)).is_err());
}

#[test]
fn key_material_is_lowercase_hex() {
    let private_key = vec![0x00u8, 0xff, 0x10];
    let public_key = vec![0xabu8, 0x01];
    let material = bootstrap_key_material(&private_key, &public_key, 10);
    assert_eq!(material.private_key_hex, "00ff10");
    assert_eq!(material.public_key_hex, "ab01");
    assert_eq!(material.chain_id, 10);

    let empty: Vec<u8> = Vec::new();
    let material = bootstrap_key_material(&empty, &empty, 4);
    assert_eq!(material.private_key_hex, "");
    assert_eq!(material.public_key_hex, "");
}

#[test]
fn sequence_number_from_millis() {
    assert_eq!(millis_to_sequence_number(0), 0);
    assert_eq!(millis_to_sequence_number(5), 5);
    assert_eq!(millis_to_sequence_number(i64::MAX), i64::MAX as u64);
    assert_eq!(millis_to_sequence_number(-1), u64::MAX);
}

#[test]
fn enqueue_refused_after_close() {
    let mut pipe = TransactionPipe::new(4);
    pipe.inbound.close();
    assert!(!pipe.inbound.enqueue(InboundRequest::Query(1, ReplyHandle::attached())));
    assert_eq!(pipe.inbound.len(), 0);

    // a closed inbound queue still ends the tick successfully
    let mut channel = ForwardChannel::new();
    let mut delivered: Vec<DeliveredReply> = Vec::new();
    assert_eq!(pipe.tick(&mut channel, &mut delivered), Ok(()));
}
