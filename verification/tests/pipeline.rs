use chunk_executor::chunk::{ChunkToUpdateLedger, ExecutedChunk};
use chunk_executor::commit_queue::ChunkCommitQueue;
use chunk_executor::error::{Error, ErrorKind};
use chunk_executor::executor::{
    ChunkExecutorInner, FinalizedLedgerUpdate, LedgerUpdateWork, StagingWork, StateViewId,
};
use chunk_executor::types::{
    AccumulatorSummary, ContractEvent, EpochState, ExecutedTrees, ExecutionStatus, HashValue,
    LedgerInfoWithSignatures, LedgerUpdateOutput, StateCheckpointOutput, StateDelta, Transaction,
    TransactionInfo, TransactionInfoListWithProof, TransactionListWithProof, TransactionOutput,
    TransactionOutputListWithProof, TransactionStatus, TransactionToCommit, WriteSet,
};

fn hash(n: u128) -> HashValue {
    HashValue::new(0, n)
}

fn state(next_version: u64) -> StateDelta {
    StateDelta { base_version: None, next_version, root_hash: hash(1000 + next_version as u128) }
}

fn accumulator(num_leaves: u64) -> AccumulatorSummary {
    AccumulatorSummary { num_leaves, root_hash: hash(2000 + num_leaves as u128) }
}

fn summary(version: u64) -> ExecutedTrees {
    ExecutedTrees::new(state(version), accumulator(version))
}

fn txn(version: u64) -> Transaction {
    Transaction { hash: hash(version as u128) }
}

fn info(version: u64) -> TransactionInfo {
    TransactionInfo {
        gas_used: 7,
        status: ExecutionStatus::Success,
        transaction_hash: hash(version as u128),
        event_root_hash: hash(3000 + version as u128),
        state_change_hash: hash(4000 + version as u128),
        state_checkpoint_hash: None,
    }
}

fn infos(begin: u64, end: u64) -> Vec<TransactionInfo> {
    (begin..end).map(info).collect()
}

fn to_commit(version: u64) -> TransactionToCommit {
    TransactionToCommit {
        transaction: txn(version),
        transaction_info: info(version),
        write_set: WriteSet { hash: hash(5000 + version as u128) },
        events: vec![],
    }
}

fn target(version: u64) -> LedgerInfoWithSignatures {
    LedgerInfoWithSignatures {
        epoch: 1,
        version,
        transaction_accumulator_hash: accumulator(version + 1).root_hash,
        next_epoch_state: None,
    }
}

fn chunk(begin: u64, end: u64) -> TransactionListWithProof {
    TransactionListWithProof {
        transactions: (begin..end).map(txn).collect(),
        first_transaction_version: Some(begin),
        proof: TransactionInfoListWithProof { transaction_infos: infos(begin, end) },
    }
}

fn staged(end: u64) -> StagingWork {
    StagingWork::Staged {
        result_state: state(end),
        next_epoch_state: None,
        state_checkpoint_output: StateCheckpointOutput { handle: end },
    }
}

fn finalized(begin: u64, end: u64) -> LedgerUpdateWork {
    LedgerUpdateWork::Extended {
        num_overlap: 0,
        finalized: Ok(FinalizedLedgerUpdate {
            ledger_update_output: LedgerUpdateOutput {
                to_commit: (begin..end).map(to_commit).collect(),
                transaction_accumulator: accumulator(end),
            },
            to_discard: vec![],
            to_retry: vec![],
        }),
    }
}

fn inner_at(version: u64) -> ChunkExecutorInner {
    ChunkExecutorInner::new(summary(version)).unwrap()
}

fn stage(inner: &mut ChunkExecutorInner, begin: u64, end: u64, target_version: u64) {
    inner
        .enqueue_chunk_by_execution(chunk(begin, end), &target(target_version), None, staged(end))
        .unwrap();
}

#[test]
fn new_pipeline_starts_at_the_store() {
    let inner = inner_at(10);
    let queue = inner.commit_queue();
    assert_eq!(queue.latest_staged_version(), 10);
    assert_eq!(queue.committed_version(), 10);
    assert_eq!(queue.num_to_update_ledger(), 0);
    assert_eq!(queue.num_to_commit(), 0);
    assert_eq!(queue.latest_state(), state(10));
    assert_eq!(queue.persisted_state(), state(10));
}

#[test]
fn new_pipeline_refuses_inconsistent_summary() {
    let store = ExecutedTrees::new(state(10), accumulator(11));
    assert!(matches!(ChunkExecutorInner::new(store), Err(Error::InconsistentLedgerSummary)));
    assert!(matches!(ChunkCommitQueue::new(store), Err(Error::InconsistentLedgerSummary)));
}

#[test]
fn latest_state_view_starts_at_next_version() {
    let inner = inner_at(10);
    let request = inner.latest_state_view(&state(10));
    assert_eq!(request.first_version, 10);
    assert_eq!(request.id, StateViewId::ChunkExecution { first_version: 10 });
    assert_eq!(request.state, state(10));
}

#[test]
fn check_chunk_request_gives_first_version() {
    let inner = inner_at(10);
    assert_eq!(inner.check_chunk_request(3, Some(10)), Ok(10));
}

#[test]
fn empty_chunk_is_refused() {
    let mut inner = inner_at(10);
    let r = inner.enqueue_chunk_by_execution(chunk(10, 10), &target(12), None, staged(10));
    assert_eq!(r, Err(Error::EmptyChunk));
    assert_eq!(Error::EmptyChunk.kind(), ErrorKind::InputValidation);
    assert_eq!(inner.commit_queue().num_to_update_ledger(), 0);
}

#[test]
fn chunk_without_first_version_is_refused() {
    let mut inner = inner_at(10);
    let mut list = chunk(10, 13);
    list.first_transaction_version = None;
    let r = inner.enqueue_chunk_by_execution(list, &target(12), None, staged(13));
    assert_eq!(r, Err(Error::MissingFirstVersion));
    assert_eq!(inner.commit_queue().num_to_update_ledger(), 0);
    assert_eq!(inner.commit_queue().latest_staged_version(), 10);
}

#[test]
fn discontinuous_chunk_is_refused_and_queue_unchanged() {
    let mut inner = inner_at(10);
    stage(&mut inner, 10, 13, 20);
    for first in [0u64, 9, 10, 12, 14, u64::MAX] {
        let mut list = chunk(0, 2);
        list.first_transaction_version = Some(first);
        let r = inner.enqueue_chunk_by_execution(list, &target(20), None, staged(15));
        let e = r.unwrap_err();
        assert_eq!(
            e,
            Error::UnexpectedChunk { version_in_request: first, expected_version: 13 }
        );
        assert_eq!(e.kind(), ErrorKind::InputValidation);
        assert_eq!(inner.commit_queue().num_to_update_ledger(), 1);
        assert_eq!(inner.commit_queue().num_to_commit(), 0);
        assert_eq!(inner.commit_queue().latest_staged_version(), 13);
        assert_eq!(inner.commit_queue().latest_state(), state(13));
    }
}

#[test]
fn discontinuous_output_chunk_is_refused() {
    let mut inner = inner_at(10);
    let output = TransactionOutput::new(
        WriteSet { hash: hash(1) },
        vec![],
        7,
        TransactionStatus::Keep(ExecutionStatus::Success),
    );
    let list = TransactionOutputListWithProof {
        transactions_and_outputs: vec![(txn(11), output)],
        first_transaction_output_version: Some(11),
        proof: TransactionInfoListWithProof { transaction_infos: infos(11, 12) },
    };
    let r = inner.enqueue_chunk_by_transaction_outputs(list, &target(20), None, staged(12));
    assert_eq!(
        r,
        Err(Error::UnexpectedChunk { version_in_request: 11, expected_version: 10 })
    );
    assert_eq!(inner.commit_queue().num_to_update_ledger(), 0);
}

#[test]
fn output_chunk_is_staged() {
    let mut inner = inner_at(10);
    let output = TransactionOutput::new(
        WriteSet { hash: hash(1) },
        vec![],
        7,
        TransactionStatus::Keep(ExecutionStatus::Success),
    );
    let list = TransactionOutputListWithProof {
        transactions_and_outputs: vec![(txn(10), output)],
        first_transaction_output_version: Some(10),
        proof: TransactionInfoListWithProof { transaction_infos: infos(10, 11) },
    };
    inner.enqueue_chunk_by_transaction_outputs(list, &target(20), None, staged(11)).unwrap();
    assert_eq!(inner.commit_queue().num_to_update_ledger(), 1);
    assert_eq!(inner.commit_queue().latest_staged_version(), 11);
    assert_eq!(inner.commit_queue().committed_version(), 10);
}

#[test]
fn rejected_proof_is_an_input_error() {
    let mut inner = inner_at(10);
    let r = inner.enqueue_chunk_by_execution(
        chunk(10, 13),
        &target(12),
        None,
        StagingWork::ProofRejected("bad proof".to_string()),
    );
    assert_eq!(r, Err(Error::ProofVerification("bad proof".to_string())));
    assert_eq!(r.unwrap_err().kind(), ErrorKind::InputValidation);
    assert_eq!(inner.commit_queue().num_to_update_ledger(), 0);
}

#[test]
fn failed_execution_and_checkpoint_are_collaborator_errors() {
    let mut inner = inner_at(10);
    let r = inner.enqueue_chunk_by_execution(
        chunk(10, 13),
        &target(12),
        None,
        StagingWork::ExecutionFailed("vm".to_string()),
    );
    assert_eq!(r, Err(Error::ExecutionFailed("vm".to_string())));
    assert_eq!(r.unwrap_err().kind(), ErrorKind::Collaborator);
    let r = inner.enqueue_chunk_by_execution(
        chunk(10, 13),
        &target(12),
        None,
        StagingWork::CheckpointFailed("smt".to_string()),
    );
    assert_eq!(r, Err(Error::CheckpointFailed("smt".to_string())));
    assert_eq!(inner.commit_queue().num_to_update_ledger(), 0);
}

#[test]
fn validation_comes_before_the_outside_work() {
    let mut inner = inner_at(10);
    let r = inner.enqueue_chunk_by_execution(
        chunk(11, 13),
        &target(12),
        None,
        StagingWork::ProofRejected("bad proof".to_string()),
    );
    assert_eq!(
        r,
        Err(Error::UnexpectedChunk { version_in_request: 11, expected_version: 10 })
    );
}

#[test]
fn staged_state_may_not_go_back() {
    let mut inner = inner_at(10);
    let r = inner.enqueue_chunk_by_execution(chunk(10, 13), &target(12), None, staged(9));
    assert_eq!(r, Err(Error::VersionRegression { found: 9, expected_version: 10 }));
    assert_eq!(r.unwrap_err().kind(), ErrorKind::ConsistencyViolation);
    assert_eq!(inner.commit_queue().num_to_update_ledger(), 0);
}

#[test]
fn update_ledger_without_chunk_fails() {
    let mut inner = inner_at(10);
    let r = inner.update_ledger(finalized(10, 13));
    assert_eq!(r, Err(Error::NoChunkToUpdateLedger));
    assert_eq!(r.unwrap_err().kind(), ErrorKind::OutOfSequence);
}

#[test]
fn update_ledger_moves_chunk_to_second_stage() {
    let mut inner = inner_at(10);
    stage(&mut inner, 10, 13, 20);
    inner.update_ledger(finalized(10, 13)).unwrap();
    let queue = inner.commit_queue();
    assert_eq!(queue.num_to_update_ledger(), 0);
    assert_eq!(queue.num_to_commit(), 1);
    assert_eq!(queue.latest_staged_version(), 13);
    assert_eq!(queue.committed_version(), 10);
    let (persisted, chunk) = queue.next_chunk_to_commit().unwrap();
    assert_eq!(persisted, state(10));
    assert_eq!(chunk.result_state, state(13));
    assert_eq!(chunk.ledger_info, None);
    assert_eq!(chunk.transactions_to_commit().len(), 3);
}

fn assert_update_fails(work: LedgerUpdateWork, expected: Error, kind: ErrorKind) {
    let mut inner = inner_at(10);
    stage(&mut inner, 10, 13, 20);
    let r = inner.update_ledger(work);
    assert_eq!(r, Err(expected));
    assert_eq!(r.unwrap_err().kind(), kind);
    assert_eq!(inner.commit_queue().num_to_update_ledger(), 1);
    assert_eq!(inner.commit_queue().num_to_commit(), 0);
    inner.update_ledger(finalized(10, 13)).unwrap();
    assert_eq!(inner.commit_queue().num_to_commit(), 1);
}

fn finalized_with(
    to_commit_range: (u64, u64),
    leaves: u64,
    to_discard: Vec<Transaction>,
    to_retry: Vec<Transaction>,
) -> LedgerUpdateWork {
    LedgerUpdateWork::Extended {
        num_overlap: 0,
        finalized: Ok(FinalizedLedgerUpdate {
            ledger_update_output: LedgerUpdateOutput {
                to_commit: (to_commit_range.0..to_commit_range.1).map(to_commit).collect(),
                transaction_accumulator: accumulator(leaves),
            },
            to_discard,
            to_retry,
        }),
    }
}

#[test]
fn update_ledger_refuses_rejected_extension() {
    assert_update_fails(
        LedgerUpdateWork::ExtensionRejected("root".to_string()),
        Error::ProofVerification("root".to_string()),
        ErrorKind::InputValidation,
    );
}

#[test]
fn update_ledger_refuses_overlap() {
    let work = match finalized(10, 13) {
        LedgerUpdateWork::Extended { finalized, .. } => {
            LedgerUpdateWork::Extended { num_overlap: 2, finalized }
        },
        other => other,
    };
    assert_update_fails(
        work,
        Error::OverlappedChunks { num_overlap: 2 },
        ErrorKind::ConsistencyViolation,
    );
}

#[test]
fn update_ledger_reports_failed_finalization() {
    assert_update_fails(
        LedgerUpdateWork::Extended { num_overlap: 0, finalized: Err("io".to_string()) },
        Error::LedgerUpdateFailed("io".to_string()),
        ErrorKind::Collaborator,
    );
}

#[test]
fn update_ledger_refuses_discard() {
    assert_update_fails(
        finalized_with((10, 12), 12, vec![txn(12)], vec![]),
        Error::UnexpectedDiscard,
        ErrorKind::ConsistencyViolation,
    );
}

#[test]
fn update_ledger_refuses_retry() {
    assert_update_fails(
        finalized_with((10, 13), 13, vec![], vec![txn(13)]),
        Error::UnexpectedRetry,
        ErrorKind::ConsistencyViolation,
    );
}

#[test]
fn discard_is_reported_before_retry() {
    assert_update_fails(
        finalized_with((10, 13), 13, vec![txn(1)], vec![txn(2)]),
        Error::UnexpectedDiscard,
        ErrorKind::ConsistencyViolation,
    );
}

#[test]
fn update_ledger_refuses_other_info_count() {
    assert_update_fails(
        finalized_with((10, 12), 12, vec![], vec![]),
        Error::TransactionInfoCountMismatch { produced: 2, expected: 3 },
        ErrorKind::ConsistencyViolation,
    );
}

#[test]
fn update_ledger_refuses_other_infos() {
    let mut txns: Vec<TransactionToCommit> = (10..13).map(to_commit).collect();
    txns[1].transaction_info.gas_used = 8;
    txns[2].transaction_info.gas_used = 9;
    let work = LedgerUpdateWork::Extended {
        num_overlap: 0,
        finalized: Ok(FinalizedLedgerUpdate {
            ledger_update_output: LedgerUpdateOutput {
                to_commit: txns,
                transaction_accumulator: accumulator(13),
            },
            to_discard: vec![],
            to_retry: vec![],
        }),
    };
    assert_update_fails(
        work,
        Error::TransactionInfoMismatch { index: 1 },
        ErrorKind::ConsistencyViolation,
    );
}

#[test]
fn update_ledger_refuses_accumulator_at_other_version() {
    assert_update_fails(
        finalized_with((10, 13), 14, vec![], vec![]),
        Error::InconsistentChunk,
        ErrorKind::ConsistencyViolation,
    );
}

#[test]
fn chunk_that_reaches_target_ends_on_it() {
    let mut inner = inner_at(10);
    stage(&mut inner, 10, 13, 12);
    inner.update_ledger(finalized(10, 13)).unwrap();
    let (_, chunk) = inner.commit_queue().next_chunk_to_commit().unwrap();
    assert_eq!(chunk.ledger_info, Some(target(12)));
}

#[test]
fn target_with_other_root_is_refused() {
    let mut inner = inner_at(10);
    let mut li = target(12);
    li.transaction_accumulator_hash = hash(1);
    inner.enqueue_chunk_by_execution(chunk(10, 13), &li, None, staged(13)).unwrap();
    let r = inner.update_ledger(finalized(10, 13));
    assert_eq!(r, Err(Error::TargetRootHashMismatch));
    assert_eq!(inner.commit_queue().num_to_update_ledger(), 1);
}

fn epoch_change(version: u64, next: Option<EpochState>) -> LedgerInfoWithSignatures {
    LedgerInfoWithSignatures {
        epoch: 1,
        version,
        transaction_accumulator_hash: accumulator(version + 1).root_hash,
        next_epoch_state: next,
    }
}

fn next_epoch() -> EpochState {
    EpochState { epoch: 2, verifier: hash(77) }
}

fn update_with_epoch_change(
    li: Option<LedgerInfoWithSignatures>,
    computed: Option<EpochState>,
) -> (Result<(), Error>, ChunkExecutorInner) {
    let mut inner = inner_at(10);
    let work = StagingWork::Staged {
        result_state: state(13),
        next_epoch_state: computed,
        state_checkpoint_output: StateCheckpointOutput { handle: 1 },
    };
    inner.enqueue_chunk_by_execution(chunk(10, 13), &target(20), li.as_ref(), work).unwrap();
    let r = inner.update_ledger(finalized(10, 13));
    (r, inner)
}

#[test]
fn chunk_that_ends_epoch_ends_on_epoch_change() {
    let li = epoch_change(12, Some(next_epoch()));
    let (r, inner) = update_with_epoch_change(Some(li), Some(next_epoch()));
    assert_eq!(r, Ok(()));
    let (_, chunk) = inner.commit_queue().next_chunk_to_commit().unwrap();
    assert_eq!(chunk.ledger_info, Some(li));
    assert_eq!(chunk.next_epoch_state, Some(next_epoch()));
}

#[test]
fn epoch_change_at_other_version_is_refused() {
    let li = epoch_change(11, Some(next_epoch()));
    let (r, _) = update_with_epoch_change(Some(li), Some(next_epoch()));
    assert_eq!(r, Err(Error::EpochChangeVersionMismatch));
}

#[test]
fn epoch_change_with_other_root_is_refused() {
    let mut li = epoch_change(12, Some(next_epoch()));
    li.transaction_accumulator_hash = hash(1);
    let (r, _) = update_with_epoch_change(Some(li), Some(next_epoch()));
    assert_eq!(r, Err(Error::EpochChangeRootHashMismatch));
}

#[test]
fn epoch_change_that_ends_no_epoch_is_refused() {
    let li = epoch_change(12, None);
    let (r, _) = update_with_epoch_change(Some(li), Some(next_epoch()));
    assert_eq!(r, Err(Error::EpochChangeWithoutNextEpoch));
}

#[test]
fn epoch_change_with_other_next_epoch_is_refused() {
    let li = epoch_change(12, Some(EpochState { epoch: 3, verifier: hash(77) }));
    let (r, _) = update_with_epoch_change(Some(li), Some(next_epoch()));
    assert_eq!(r, Err(Error::EpochChangeStateMismatch));
    let (r, _) = update_with_epoch_change(Some(epoch_change(12, Some(next_epoch()))), None);
    assert_eq!(r, Err(Error::EpochChangeStateMismatch));
}

#[test]
fn ending_epoch_without_epoch_change_is_refused() {
    let (r, inner) = update_with_epoch_change(None, Some(next_epoch()));
    assert_eq!(r, Err(Error::MissingEpochChange));
    assert_eq!(r.unwrap_err().kind(), ErrorKind::ConsistencyViolation);
    assert_eq!(inner.commit_queue().num_to_update_ledger(), 1);
}

#[test]
fn chunk_short_of_target_ends_on_nothing() {
    let (r, inner) = update_with_epoch_change(None, None);
    assert_eq!(r, Ok(()));
    let (_, chunk) = inner.commit_queue().next_chunk_to_commit().unwrap();
    assert_eq!(chunk.ledger_info, None);
}

#[test]
fn commit_without_chunk_fails() {
    let mut inner = inner_at(10);
    assert!(matches!(inner.commit_chunk(Ok(())), Err(Error::NoChunkToCommit)));
    assert!(matches!(inner.chunk_to_persist(), Err(Error::NoChunkToCommit)));
    stage(&mut inner, 10, 13, 20);
    assert!(matches!(inner.commit_chunk_impl(Ok(())), Err(Error::NoChunkToCommit)));
}

#[test]
fn commits_come_in_ascending_order_without_gaps() {
    let mut inner = inner_at(10);
    let bounds = [(10u64, 13u64), (13, 14), (14, 20)];
    for (begin, end) in bounds {
        stage(&mut inner, begin, end, 100);
    }
    assert_eq!(inner.commit_queue().latest_staged_version(), 20);
    for (begin, end) in bounds {
        inner.update_ledger(finalized(begin, end)).unwrap();
    }
    let mut expected_first = 10;
    for (begin, end) in bounds {
        assert_eq!(inner.commit_queue().committed_version(), expected_first);
        let chunk = inner.commit_chunk_impl(Ok(())).unwrap();
        let txns: Vec<Transaction> =
            chunk.transactions_to_commit().iter().map(|t| t.transaction).collect();
        let expected: Vec<Transaction> = (begin..end).map(txn).collect();
        assert_eq!(txns, expected);
        assert_eq!(begin, expected_first);
        assert_eq!(chunk.result_state.next_version(), end);
        expected_first = end;
    }
    assert_eq!(inner.commit_queue().committed_version(), 20);
    assert_eq!(inner.commit_queue().num_to_commit(), 0);
    assert_eq!(inner.commit_queue().persisted_state(), state(20));
}

#[test]
fn stages_may_interleave() {
    let mut inner = inner_at(0);
    stage(&mut inner, 0, 2, 100);
    inner.update_ledger(finalized(0, 2)).unwrap();
    stage(&mut inner, 2, 5, 100);
    let first = inner.commit_chunk_impl(Ok(())).unwrap();
    assert_eq!(first.transactions_to_commit().len(), 2);
    assert_eq!(inner.commit_queue().committed_version(), 2);
    assert_eq!(inner.commit_queue().latest_staged_version(), 5);
    inner.update_ledger(finalized(2, 5)).unwrap();
    let second = inner.commit(Ok(())).unwrap();
    assert_eq!(second.transactions_to_commit().len(), 3);
    assert_eq!(inner.commit_queue().committed_version(), 5);
}

#[test]
fn failed_write_leaves_chunk_for_retry() {
    let mut inner = inner_at(10);
    stage(&mut inner, 10, 13, 20);
    inner.update_ledger(finalized(10, 13)).unwrap();
    let r = inner.commit_chunk(Err("disk".to_string()));
    let e = r.unwrap_err();
    assert_eq!(e, Error::Storage("disk".to_string()));
    assert_eq!(e.kind(), ErrorKind::Storage);
    assert_eq!(inner.commit_queue().num_to_commit(), 1);
    assert_eq!(inner.commit_queue().committed_version(), 10);
    let notification = inner.commit_chunk(Ok(())).unwrap();
    assert_eq!(notification.committed_transactions, vec![txn(10), txn(11), txn(12)]);
    assert_eq!(inner.commit_queue().committed_version(), 13);
}

#[test]
fn chunk_to_persist_names_what_is_written() {
    let mut inner = inner_at(10);
    stage(&mut inner, 10, 13, 20);
    inner.update_ledger(finalized(10, 13)).unwrap();
    let (persisted, chunk) = inner.chunk_to_persist().unwrap().unwrap();
    assert_eq!(persisted, state(10));
    assert_eq!(chunk.transactions_to_commit().len(), 3);
    assert!(chunk.needs_persisting());
}

#[test]
fn notification_holds_reconfiguration_events_only() {
    let mut inner = inner_at(10);
    stage(&mut inner, 10, 12, 20);
    let plain = ContractEvent { hash: hash(1), reconfiguration: false };
    let reconfig_a = ContractEvent { hash: hash(2), reconfiguration: true };
    let reconfig_b = ContractEvent { hash: hash(3), reconfiguration: true };
    let mut first = to_commit(10);
    first.events = vec![plain, reconfig_a];
    let mut second = to_commit(11);
    second.events = vec![reconfig_b, plain];
    let work = LedgerUpdateWork::Extended {
        num_overlap: 0,
        finalized: Ok(FinalizedLedgerUpdate {
            ledger_update_output: LedgerUpdateOutput {
                to_commit: vec![first, second],
                transaction_accumulator: accumulator(12),
            },
            to_discard: vec![],
            to_retry: vec![],
        }),
    };
    inner.update_ledger(work).unwrap();
    let notification = inner.commit_chunk(Ok(())).unwrap();
    assert_eq!(notification.committed_transactions, vec![txn(10), txn(11)]);
    assert_eq!(notification.reconfiguration_events, vec![reconfig_a, reconfig_b]);
}

#[test]
fn queue_operations_follow_the_stages() {
    let mut queue = ChunkCommitQueue::new(summary(5)).unwrap();
    assert!(matches!(queue.next_chunk_to_update_ledger(), Err(Error::NoChunkToUpdateLedger)));
    assert!(matches!(queue.next_chunk_to_commit(), Err(Error::NoChunkToCommit)));
    assert!(matches!(queue.dequeue_committed(state(5)), Err(Error::NoChunkToCommit)));
    assert_eq!(queue.expect_latest_view(), Ok(summary(5)));
    let record = ChunkToUpdateLedger {
        result_state: state(7),
        state_checkpoint_output: StateCheckpointOutput { handle: 1 },
        next_epoch_state: None,
        verified_target_li: target(20),
        epoch_change_li: None,
        txn_infos_with_proof: TransactionInfoListWithProof { transaction_infos: infos(5, 7) },
    };
    queue.enqueue_for_ledger_update(record).unwrap();
    assert_eq!(queue.expect_latest_view(), Err(Error::PendingLedgerUpdate));
    let (parent, head) = queue.next_chunk_to_update_ledger().unwrap();
    assert_eq!(parent, accumulator(5));
    assert_eq!(head.result_state, state(7));
    let executed = ExecutedChunk {
        result_state: state(7),
        ledger_info: None,
        next_epoch_state: None,
        ledger_update_output: LedgerUpdateOutput {
            to_commit: (5..7).map(to_commit).collect(),
            transaction_accumulator: accumulator(7),
        },
    };
    let mut other = executed.clone();
    other.result_state = state(8);
    assert_eq!(queue.save_ledger_update_output(other), Err(Error::ResultStateMismatch));
    queue.save_ledger_update_output(executed.clone()).unwrap();
    assert_eq!(
        queue.save_ledger_update_output(executed.clone()),
        Err(Error::NoChunkToUpdateLedger)
    );
    assert_eq!(queue.expect_latest_view(), Ok(summary(7)));
    assert_eq!(queue.dequeue_committed(state(6)).unwrap_err(), Error::ResultStateMismatch);
    let chunk = queue.dequeue_committed(state(7)).unwrap();
    assert_eq!(chunk.transactions_to_commit().len(), 2);
    assert_eq!(queue.committed_version(), 7);
}

#[test]
fn direct_enqueue_checks_the_order() {
    let mut queue = ChunkCommitQueue::new(summary(5)).unwrap();
    let executed = |begin: u64, end: u64| ExecutedChunk {
        result_state: state(end),
        ledger_info: None,
        next_epoch_state: None,
        ledger_update_output: LedgerUpdateOutput {
            to_commit: (begin..end).map(to_commit).collect(),
            transaction_accumulator: accumulator(end),
        },
    };
    assert_eq!(
        queue.enqueue_chunk_to_commit_directly(executed(6, 8)),
        Err(Error::OutOfOrderChunk { expected_version: 5 })
    );
    let mut broken = executed(5, 8);
    broken.result_state = state(9);
    assert_eq!(queue.enqueue_chunk_to_commit_directly(broken), Err(Error::InconsistentChunk));
    queue.enqueue_chunk_to_commit_directly(executed(5, 8)).unwrap();
    queue.enqueue_chunk_to_commit_directly(executed(8, 9)).unwrap();
    assert_eq!(queue.latest_staged_version(), 9);
    assert_eq!(queue.num_to_commit(), 2);
    let record = ChunkToUpdateLedger {
        result_state: state(10),
        state_checkpoint_output: StateCheckpointOutput { handle: 1 },
        next_epoch_state: None,
        verified_target_li: target(20),
        epoch_change_li: None,
        txn_infos_with_proof: TransactionInfoListWithProof { transaction_infos: infos(9, 10) },
    };
    queue.enqueue_for_ledger_update(record).unwrap();
    assert_eq!(
        queue.enqueue_chunk_to_commit_directly(executed(9, 10)),
        Err(Error::PendingLedgerUpdate)
    );
}
