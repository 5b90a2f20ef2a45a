use chunk_executor::chunk::ExecutedChunk;
use chunk_executor::epochs::{is_epoch_ending, partition_epochs};
use chunk_executor::error::{Error, ErrorKind};
use chunk_executor::executor::{ChunkExecutorInner, FinalizedLedgerUpdate, LedgerUpdateWork,
    StagingWork};
use chunk_executor::replay::{ApplyWork, Replay, ReplayStep};
use chunk_executor::types::{
    AccumulatorSummary, ContractEvent, ExecutedTrees, ExecutionStatus, HashValue,
    LedgerInfoWithSignatures, LedgerUpdateOutput, StateCheckpointOutput, StateDelta, Transaction,
    TransactionInfo, TransactionInfoListWithProof, TransactionListWithProof, TransactionStatus,
    TransactionToCommit, WriteSet,
};
use chunk_executor::verify_mode::VerifyExecutionMode;

fn hash(n: u128) -> HashValue {
    HashValue::new(0, n)
}

fn state(next_version: u64) -> StateDelta {
    StateDelta { base_version: None, next_version, root_hash: hash(1000 + next_version as u128) }
}

fn accumulator(num_leaves: u64) -> AccumulatorSummary {
    AccumulatorSummary { num_leaves, root_hash: hash(2000 + num_leaves as u128) }
}

fn summary(version: u64) -> ExecutedTrees {
    ExecutedTrees::new(state(version), accumulator(version))
}

fn txn(version: u64) -> Transaction {
    Transaction { hash: hash(version as u128) }
}

fn info(version: u64) -> TransactionInfo {
    TransactionInfo {
        gas_used: version,
        status: if version % 2 == 0 { ExecutionStatus::Success } else { ExecutionStatus::OutOfGas },
        transaction_hash: hash(version as u128),
        event_root_hash: hash(3000 + version as u128),
        state_change_hash: hash(4000 + version as u128),
        state_checkpoint_hash: if version % 3 == 0 { Some(hash(6000 + version as u128)) } else { None },
    }
}

fn write_set(version: u64) -> WriteSet {
    WriteSet { hash: hash(5000 + version as u128) }
}

fn plain_event(version: u64) -> ContractEvent {
    ContractEvent { hash: hash(7000 + version as u128), reconfiguration: false }
}

fn reconfig_event(version: u64) -> ContractEvent {
    ContractEvent { hash: hash(8000 + version as u128), reconfiguration: true }
}

fn events(version: u64, reconfigs: &[u64]) -> Vec<ContractEvent> {
    if reconfigs.contains(&version) {
        vec![plain_event(version), reconfig_event(version)]
    } else {
        vec![plain_event(version)]
    }
}

fn to_commit(version: u64, reconfigs: &[u64]) -> TransactionToCommit {
    TransactionToCommit {
        transaction: txn(version),
        transaction_info: info(version),
        write_set: write_set(version),
        events: events(version, reconfigs),
    }
}

fn batch(begin: u64, end: u64, reconfigs: &[u64]) -> ExecutedChunk {
    ExecutedChunk {
        result_state: state(end),
        ledger_info: None,
        next_epoch_state: None,
        ledger_update_output: LedgerUpdateOutput {
            to_commit: (begin..end).map(|v| to_commit(v, reconfigs)).collect(),
            transaction_accumulator: accumulator(end),
        },
    }
}

fn applied(begin: u64, end: u64, reconfigs: &[u64]) -> ApplyWork {
    ApplyWork::Applied {
        executed_batch: batch(begin, end, reconfigs),
        to_discard: vec![],
        to_retry: vec![],
    }
}

fn replay_of(begin: u64, end: u64, reconfigs: &[u64], mode: VerifyExecutionMode) -> Replay {
    Replay::new(
        summary(begin),
        (begin..end).map(txn).collect(),
        (begin..end).map(info).collect(),
        (begin..end).map(write_set).collect(),
        (begin..end).map(|v| events(v, reconfigs)).collect(),
        mode,
    )
    .unwrap()
}

fn all_match(n: usize) -> Result<Vec<Result<(), String>>, String> {
    Ok((0..n).map(|_| Ok(())).collect())
}

/// Drives a replay to its end: every batch that is run again matches its
/// records, every batch applies. Gives the steps that were taken.
fn run(replay: &mut Replay, reconfigs: &[u64]) -> Vec<ReplayStep> {
    let mut steps = vec![];
    loop {
        let step = replay.next_step();
        steps.push(step);
        match step {
            ReplayStep::Verify { begin, end } => {
                let until = replay.verify_execution(all_match((end - begin) as usize)).unwrap();
                assert_eq!(until, end);
            },
            ReplayStep::Apply { begin, end } => {
                replay.remove_and_apply(applied(begin, end, reconfigs)).unwrap();
                assert_eq!(replay.latest_view(), summary(end));
            },
            ReplayStep::Finished => return steps,
        }
    }
}

#[test]
fn epoch_ending_is_seen_in_events() {
    assert!(!is_epoch_ending(&vec![]));
    assert!(!is_epoch_ending(&vec![plain_event(1), plain_event(2)]));
    assert!(is_epoch_ending(&vec![plain_event(1), reconfig_event(2)]));
    assert!(is_epoch_ending(&vec![reconfig_event(1), plain_event(2)]));
}

#[test]
fn one_reconfiguration_gives_two_epochs() {
    let event_vecs: Vec<Vec<ContractEvent>> = (100..110).map(|v| events(v, &[104])).collect();
    assert_eq!(partition_epochs(100, &event_vecs), vec![(100, 105), (105, 110)]);
}

#[test]
fn no_reconfiguration_gives_one_epoch() {
    let event_vecs: Vec<Vec<ContractEvent>> = (100..110).map(|v| events(v, &[])).collect();
    assert_eq!(partition_epochs(100, &event_vecs), vec![(100, 110)]);
}

#[test]
fn reconfiguration_at_the_last_version_gives_one_epoch() {
    let event_vecs: Vec<Vec<ContractEvent>> = (100..110).map(|v| events(v, &[109])).collect();
    assert_eq!(partition_epochs(100, &event_vecs), vec![(100, 110)]);
}

#[test]
fn reconfiguration_at_the_first_version_gives_an_epoch_of_one() {
    let event_vecs: Vec<Vec<ContractEvent>> = (100..103).map(|v| events(v, &[100])).collect();
    assert_eq!(partition_epochs(100, &event_vecs), vec![(100, 101), (101, 103)]);
}

#[test]
fn every_reconfiguration_ends_an_epoch() {
    let event_vecs: Vec<Vec<ContractEvent>> =
        (0..8).map(|v| events(v, &[1, 2, 5, 7])).collect();
    assert_eq!(partition_epochs(0, &event_vecs), vec![(0, 2), (2, 3), (3, 6), (6, 8)]);
}

#[test]
fn no_versions_give_no_epochs() {
    assert_eq!(partition_epochs(5, &vec![]), vec![]);
}

#[test]
fn epochs_reach_the_last_version_there_is() {
    let event_vecs: Vec<Vec<ContractEvent>> = vec![vec![], vec![reconfig_event(0)], vec![]];
    assert_eq!(
        partition_epochs(u64::MAX - 3, &event_vecs),
        vec![(u64::MAX - 3, u64::MAX - 1), (u64::MAX - 1, u64::MAX)]
    );
}

#[test]
fn replay_without_verification_applies_epoch_by_epoch() {
    let reconfigs = [12];
    let mut replay = replay_of(10, 16, &reconfigs, VerifyExecutionMode::verify_nothing());
    let steps = run(&mut replay, &reconfigs);
    assert_eq!(
        steps,
        vec![
            ReplayStep::Apply { begin: 10, end: 13 },
            ReplayStep::Apply { begin: 13, end: 16 },
            ReplayStep::Finished,
        ]
    );
    assert!(!replay.seen_error());
    let (chunk, mode) = replay.finish().unwrap();
    assert_eq!(chunk.transactions_to_commit().len(), 6);
    assert_eq!(chunk.result_state, state(16));
    assert!(!mode.seen_error());
}

#[test]
fn strict_replay_of_matching_outputs_reports_no_error() {
    let reconfigs = [12];
    let mut replay = replay_of(10, 16, &reconfigs, VerifyExecutionMode::verify_all());
    let steps = run(&mut replay, &reconfigs);
    assert_eq!(
        steps,
        vec![
            ReplayStep::Verify { begin: 10, end: 13 },
            ReplayStep::Apply { begin: 10, end: 13 },
            ReplayStep::Verify { begin: 13, end: 16 },
            ReplayStep::Apply { begin: 13, end: 16 },
            ReplayStep::Finished,
        ]
    );
    assert!(!replay.seen_error());
    assert_eq!(replay.num_errors(), 0);
    let (chunk, mode) = replay.finish().unwrap();
    assert!(!mode.seen_error());
    assert_eq!(mode.num_errors(), 0);
    let infos: Vec<TransactionInfo> =
        chunk.transactions_to_commit().iter().map(|t| t.transaction_info).collect();
    let expected: Vec<TransactionInfo> = (10..16).map(info).collect();
    assert_eq!(infos, expected);
}

#[test]
fn lazy_replay_of_matching_outputs_reports_no_error() {
    let mode = VerifyExecutionMode::verify_all().set_lazy_quit(true);
    let mut replay = replay_of(10, 16, &[], mode);
    let steps = run(&mut replay, &[]);
    assert_eq!(
        steps,
        vec![
            ReplayStep::Verify { begin: 10, end: 16 },
            ReplayStep::Apply { begin: 10, end: 16 },
            ReplayStep::Finished,
        ]
    );
    assert!(!replay.seen_error());
}

#[test]
fn skipped_versions_are_applied_alone_and_never_run_again() {
    let reconfigs = [14];
    let skip = vec![12, 10, 15, 16, 12, 99, 3];
    let mut replay = replay_of(10, 20, &reconfigs, VerifyExecutionMode::verify_except(skip.clone()));
    let steps = run(&mut replay, &reconfigs);
    assert_eq!(
        steps,
        vec![
            ReplayStep::Apply { begin: 10, end: 11 },
            ReplayStep::Verify { begin: 11, end: 12 },
            ReplayStep::Apply { begin: 11, end: 12 },
            ReplayStep::Apply { begin: 12, end: 13 },
            ReplayStep::Verify { begin: 13, end: 15 },
            ReplayStep::Apply { begin: 13, end: 15 },
            ReplayStep::Apply { begin: 15, end: 16 },
            ReplayStep::Apply { begin: 16, end: 17 },
            ReplayStep::Verify { begin: 17, end: 20 },
            ReplayStep::Apply { begin: 17, end: 20 },
            ReplayStep::Finished,
        ]
    );
    for step in steps {
        match step {
            ReplayStep::Verify { begin, end } => {
                assert!(skip.iter().all(|v| !(begin <= *v && *v < end)));
            },
            ReplayStep::Apply { begin, end } => {
                for v in &skip {
                    if begin <= *v && *v < end {
                        assert_eq!((begin, end), (*v, *v + 1));
                    }
                }
            },
            ReplayStep::Finished => {},
        }
    }
}

#[test]
fn skipped_version_before_an_epoch_end_is_alone() {
    let reconfigs = [11];
    let mut replay =
        replay_of(10, 14, &reconfigs, VerifyExecutionMode::verify_except(vec![11]));
    let steps = run(&mut replay, &reconfigs);
    assert_eq!(
        steps,
        vec![
            ReplayStep::Verify { begin: 10, end: 11 },
            ReplayStep::Apply { begin: 10, end: 11 },
            ReplayStep::Apply { begin: 11, end: 12 },
            ReplayStep::Verify { begin: 12, end: 14 },
            ReplayStep::Apply { begin: 12, end: 14 },
            ReplayStep::Finished,
        ]
    );
}

#[test]
fn strict_replay_fails_at_the_first_mismatch() {
    let mut replay = replay_of(10, 16, &[], VerifyExecutionMode::verify_all());
    assert_eq!(replay.next_step(), ReplayStep::Verify { begin: 10, end: 16 });
    let verdicts = vec![
        Ok(()),
        Ok(()),
        Err("gas differs".to_string()),
        Ok(()),
        Err("status differs".to_string()),
        Ok(()),
    ];
    let r = replay.verify_execution(Ok(verdicts));
    let e = r.unwrap_err();
    assert_eq!(e, Error::ReplayMismatch { version: 12, message: "gas differs".to_string() });
    assert_eq!(e.kind(), ErrorKind::ReplayVerification);
    assert_eq!(replay.next_step(), ReplayStep::Verify { begin: 10, end: 16 });
    assert!(!replay.seen_error());
}

#[test]
fn lazy_replay_notes_the_mismatch_and_resumes_one_version_later() {
    let mode = VerifyExecutionMode::verify_all().set_lazy_quit(true);
    let mut replay = replay_of(10, 16, &[], mode);
    assert_eq!(replay.next_step(), ReplayStep::Verify { begin: 10, end: 16 });
    let verdicts = vec![Ok(()), Ok(()), Err("gas differs".to_string()), Ok(()), Ok(()), Ok(())];
    assert_eq!(replay.verify_execution(Ok(verdicts)), Ok(13));
    assert!(replay.seen_error());
    assert_eq!(replay.next_step(), ReplayStep::Apply { begin: 10, end: 13 });
    replay.remove_and_apply(applied(10, 13, &[])).unwrap();
    assert_eq!(replay.next_step(), ReplayStep::Verify { begin: 13, end: 16 });
    assert_eq!(replay.verify_execution(all_match(3)), Ok(16));
    assert_eq!(replay.next_step(), ReplayStep::Apply { begin: 13, end: 16 });
    replay.remove_and_apply(applied(13, 16, &[])).unwrap();
    assert_eq!(replay.next_step(), ReplayStep::Finished);
    let (chunk, mode) = replay.finish().unwrap();
    assert!(mode.seen_error());
    assert_eq!(mode.num_errors(), 1);
    assert_eq!(chunk.transactions_to_commit().len(), 6);
}

#[test]
fn lazy_replay_counts_its_mismatches() {
    let mode = VerifyExecutionMode::verify_all().set_lazy_quit(true);
    let mut replay = replay_of(10, 14, &[], mode);
    assert_eq!(replay.num_errors(), 0);
    let verdicts = vec![Err("a".to_string()), Err("b".to_string()), Ok(()), Ok(())];
    assert_eq!(replay.verify_execution(Ok(verdicts)), Ok(11));
    assert_eq!(replay.num_errors(), 1);
    replay.remove_and_apply(applied(10, 11, &[])).unwrap();
    assert_eq!(replay.next_step(), ReplayStep::Verify { begin: 11, end: 14 });
    let verdicts = vec![Err("b".to_string()), Ok(()), Ok(())];
    assert_eq!(replay.verify_execution(Ok(verdicts)), Ok(12));
    assert_eq!(replay.num_errors(), 2);
    replay.remove_and_apply(applied(11, 12, &[])).unwrap();
    assert_eq!(replay.verify_execution(all_match(2)), Ok(14));
    replay.remove_and_apply(applied(12, 14, &[])).unwrap();
    assert_eq!(replay.num_errors(), 2);
    let (_, mode) = replay.finish().unwrap();
    assert_eq!(mode.num_errors(), 2);
    assert!(mode.seen_error());
}

#[test]
fn lazy_mismatch_at_the_last_version_of_a_batch() {
    let mode = VerifyExecutionMode::verify_except(vec![13]).set_lazy_quit(true);
    let mut replay = replay_of(10, 16, &[], mode);
    assert_eq!(replay.next_step(), ReplayStep::Verify { begin: 10, end: 13 });
    let verdicts = vec![Ok(()), Ok(()), Err("differs".to_string())];
    assert_eq!(replay.verify_execution(Ok(verdicts)), Ok(13));
    replay.remove_and_apply(applied(10, 13, &[])).unwrap();
    assert_eq!(replay.next_step(), ReplayStep::Apply { begin: 13, end: 14 });
    assert!(replay.seen_error());
}

#[test]
fn outputs_are_compared_as_far_as_there_are_outputs() {
    let mut replay = replay_of(10, 16, &[], VerifyExecutionMode::verify_all());
    assert_eq!(replay.verify_execution(all_match(2)), Ok(16));
    assert_eq!(replay.next_step(), ReplayStep::Apply { begin: 10, end: 16 });
    let mut replay = replay_of(10, 12, &[], VerifyExecutionMode::verify_all());
    let verdicts = vec![Ok(()), Ok(()), Err("beyond the batch".to_string())];
    assert_eq!(replay.verify_execution(Ok(verdicts)), Ok(12));
    assert!(!replay.seen_error());
}

#[test]
fn failed_run_is_reported() {
    let mut replay = replay_of(10, 16, &[], VerifyExecutionMode::verify_all());
    let r = replay.verify_execution(Err("no state view".to_string()));
    assert_eq!(r, Err(Error::ExecutionFailed("no state view".to_string())));
    assert_eq!(replay.next_step(), ReplayStep::Verify { begin: 10, end: 16 });
}

#[test]
fn calls_out_of_step_are_refused() {
    let mut replay = replay_of(10, 16, &[], VerifyExecutionMode::verify_all());
    let r = replay.remove_and_apply(applied(10, 16, &[]));
    assert_eq!(r, Err(Error::OutOfStep));
    assert_eq!(Error::OutOfStep.kind(), ErrorKind::OutOfSequence);
    let mut replay = replay_of(10, 16, &[], VerifyExecutionMode::verify_nothing());
    assert_eq!(replay.verify_execution(all_match(6)), Err(Error::OutOfStep));
    assert!(matches!(replay.finish(), Err(Error::ReplayUnfinished)));
}

#[test]
fn batch_to_apply_takes_outputs_from_the_records() {
    let replay = replay_of(10, 16, &[12], VerifyExecutionMode::verify_nothing());
    let (txns_and_outputs, checkpoints) = replay.batch_to_apply(11, 14);
    assert_eq!(txns_and_outputs.len(), 3);
    for (i, (transaction, output)) in txns_and_outputs.iter().enumerate() {
        let version = 11 + i as u64;
        assert_eq!(*transaction, txn(version));
        assert_eq!(output.write_set, write_set(version));
        assert_eq!(output.events, events(version, &[12]));
        assert_eq!(output.gas_used, version);
        assert_eq!(output.status, TransactionStatus::Keep(info(version).status));
    }
    assert_eq!(checkpoints, vec![None, Some(hash(6012)), None]);
    assert_eq!(replay.batch_to_verify(11, 14), vec![txn(11), txn(12), txn(13)]);
    assert_eq!(replay.batch_to_verify(12, 12), vec![]);
}

fn assert_apply_fails(work: ApplyWork, expected: Error) {
    let mut replay = replay_of(10, 13, &[], VerifyExecutionMode::verify_nothing());
    let r = replay.remove_and_apply(work);
    assert_eq!(r, Err(expected));
    assert_eq!(replay.next_step(), ReplayStep::Apply { begin: 10, end: 13 });
    assert_eq!(replay.latest_view(), summary(10));
    replay.remove_and_apply(applied(10, 13, &[])).unwrap();
    assert_eq!(replay.next_step(), ReplayStep::Finished);
}

#[test]
fn apply_failures_leave_the_replay_as_it_was() {
    assert_apply_fails(
        ApplyWork::OutputsNotApplied("state".to_string()),
        Error::ExecutionFailed("state".to_string()),
    );
    assert_apply_fails(
        ApplyWork::LedgerNotUpdated("ledger".to_string()),
        Error::LedgerUpdateFailed("ledger".to_string()),
    );
    assert_apply_fails(
        ApplyWork::Applied {
            executed_batch: batch(10, 13, &[]),
            to_discard: vec![txn(11)],
            to_retry: vec![],
        },
        Error::UnexpectedDiscard,
    );
    assert_apply_fails(
        ApplyWork::Applied {
            executed_batch: batch(10, 13, &[]),
            to_discard: vec![],
            to_retry: vec![txn(12)],
        },
        Error::UnexpectedRetry,
    );
    assert_apply_fails(
        applied(10, 12, &[]),
        Error::TransactionInfoCountMismatch { produced: 2, expected: 3 },
    );
    assert_apply_fails(applied(11, 14, &[]), Error::TransactionInfoMismatch { index: 0 });
    let mut shifted = batch(10, 13, &[]);
    shifted.ledger_update_output.transaction_accumulator = accumulator(14);
    shifted.result_state = state(14);
    assert_apply_fails(
        ApplyWork::Applied { executed_batch: shifted, to_discard: vec![], to_retry: vec![] },
        Error::OutOfOrderChunk { expected_version: 10 },
    );
    let mut broken = batch(10, 13, &[]);
    broken.result_state = state(12);
    assert_apply_fails(
        ApplyWork::Applied { executed_batch: broken, to_discard: vec![], to_retry: vec![] },
        Error::InconsistentChunk,
    );
}

#[test]
fn replay_input_is_checked() {
    let new = |view: ExecutedTrees, infos: usize, write_sets: usize, event_vecs: usize| {
        Replay::new(
            view,
            (0..3).map(txn).collect(),
            (0..infos as u64).map(info).collect(),
            (0..write_sets as u64).map(write_set).collect(),
            (0..event_vecs as u64).map(|_| vec![]).collect(),
            VerifyExecutionMode::verify_nothing(),
        )
    };
    assert!(matches!(new(summary(0), 2, 3, 3), Err(Error::ReplayInputTooShort)));
    assert!(matches!(new(summary(0), 3, 2, 3), Err(Error::ReplayInputTooShort)));
    assert!(matches!(new(summary(0), 3, 3, 2), Err(Error::ReplayInputTooShort)));
    assert!(matches!(new(summary(u64::MAX - 2), 3, 3, 3), Err(Error::VersionOverflow)));
    assert!(matches!(
        new(ExecutedTrees::new(state(1), accumulator(2)), 3, 3, 3),
        Err(Error::InconsistentLedgerSummary)
    ));
    let mut replay = new(summary(u64::MAX - 3), 5, 4, 3).unwrap();
    assert_eq!(
        replay.next_step(),
        ReplayStep::Apply { begin: u64::MAX - 3, end: u64::MAX }
    );
    assert_eq!(replay.batch_to_apply(u64::MAX - 3, u64::MAX).0.len(), 3);
    let r = replay.remove_and_apply(ApplyWork::OutputsNotApplied("x".to_string()));
    assert_eq!(r, Err(Error::ExecutionFailed("x".to_string())));
}

#[test]
fn replay_of_nothing_has_nothing_to_commit() {
    let mut replay = Replay::new(
        summary(4),
        vec![],
        vec![],
        vec![],
        vec![],
        VerifyExecutionMode::verify_all(),
    )
    .unwrap();
    assert_eq!(replay.next_step(), ReplayStep::Finished);
    assert_eq!(replay.remove_and_apply(applied(4, 4, &[])), Err(Error::OutOfStep));
    assert!(matches!(replay.finish(), Err(Error::NothingToCommit)));
}

#[test]
fn replayed_chunk_enters_the_second_stage() {
    let mut inner = ChunkExecutorInner::new(summary(10)).unwrap();
    let reconfigs = [12];
    let mut replay = inner
        .replay(
            (10..16).map(txn).collect(),
            (10..16).map(info).collect(),
            (10..16).map(write_set).collect(),
            (10..16).map(|v| events(v, &reconfigs)).collect(),
            VerifyExecutionMode::verify_all(),
        )
        .unwrap();
    run(&mut replay, &reconfigs);
    let mode = inner.finish_replay(replay).unwrap();
    assert!(!mode.seen_error());
    assert_eq!(inner.commit_queue().num_to_commit(), 1);
    assert_eq!(inner.commit_queue().latest_staged_version(), 16);
    assert_eq!(inner.commit_queue().committed_version(), 10);
    let chunk = inner.commit(Ok(())).unwrap();
    let txns: Vec<Transaction> =
        chunk.transactions_to_commit().iter().map(|t| t.transaction).collect();
    let expected: Vec<Transaction> = (10..16).map(txn).collect();
    assert_eq!(txns, expected);
    assert_eq!(inner.commit_queue().committed_version(), 16);
}

#[test]
fn replay_does_not_start_while_a_ledger_update_is_pending() {
    let mut inner = ChunkExecutorInner::new(summary(10)).unwrap();
    let list = TransactionListWithProof {
        transactions: vec![txn(10)],
        first_transaction_version: Some(10),
        proof: TransactionInfoListWithProof { transaction_infos: vec![info(10)] },
    };
    let target = LedgerInfoWithSignatures {
        epoch: 1,
        version: 50,
        transaction_accumulator_hash: hash(1),
        next_epoch_state: None,
    };
    let work = StagingWork::Staged {
        result_state: state(11),
        next_epoch_state: None,
        state_checkpoint_output: StateCheckpointOutput { handle: 1 },
    };
    inner.enqueue_chunk_by_execution(list, &target, None, work).unwrap();
    let r = inner.replay(vec![], vec![], vec![], vec![], VerifyExecutionMode::verify_nothing());
    assert!(matches!(r, Err(Error::PendingLedgerUpdate)));
}

#[test]
fn replay_result_has_to_fit_the_queue() {
    let mut inner = ChunkExecutorInner::new(summary(10)).unwrap();
    let start = |inner: &ChunkExecutorInner| {
        inner
            .replay(
                (10..12).map(txn).collect(),
                (10..12).map(info).collect(),
                (10..12).map(write_set).collect(),
                (10..12).map(|v| events(v, &[])).collect(),
                VerifyExecutionMode::verify_nothing(),
            )
            .unwrap()
    };
    let unfinished = start(&inner);
    assert!(matches!(inner.finish_replay(unfinished), Err(Error::ReplayUnfinished)));
    let mut first = start(&inner);
    let mut second = start(&inner);
    run(&mut first, &[]);
    run(&mut second, &[]);
    inner.finish_replay(first).unwrap();
    let r = inner.finish_replay(second);
    assert!(matches!(r, Err(Error::OutOfOrderChunk { expected_version: 12 })));
    assert_eq!(inner.commit_queue().num_to_commit(), 1);
    let list = TransactionListWithProof {
        transactions: vec![txn(12)],
        first_transaction_version: Some(12),
        proof: TransactionInfoListWithProof { transaction_infos: vec![info(12)] },
    };
    let target = LedgerInfoWithSignatures {
        epoch: 1,
        version: 50,
        transaction_accumulator_hash: hash(1),
        next_epoch_state: None,
    };
    let mut third = inner
        .replay(
            vec![txn(12)],
            vec![info(12)],
            vec![write_set(12)],
            vec![vec![]],
            VerifyExecutionMode::verify_nothing(),
        )
        .unwrap();
    run(&mut third, &[]);
    let work = StagingWork::Staged {
        result_state: state(13),
        next_epoch_state: None,
        state_checkpoint_output: StateCheckpointOutput { handle: 1 },
    };
    inner.enqueue_chunk_by_execution(list, &target, None, work).unwrap();
    assert!(matches!(inner.finish_replay(third), Err(Error::PendingLedgerUpdate)));
    let nothing = inner.update_ledger(LedgerUpdateWork::Extended {
        num_overlap: 0,
        finalized: Ok(FinalizedLedgerUpdate {
            ledger_update_output: LedgerUpdateOutput {
                to_commit: vec![to_commit(12, &[])],
                transaction_accumulator: accumulator(13),
            },
            to_discard: vec![],
            to_retry: vec![],
        }),
    });
    assert_eq!(nothing, Ok(()));
}

#[test]
fn verify_modes() {
    let nothing = VerifyExecutionMode::verify_nothing();
    assert!(!nothing.should_verify());
    assert!(!nothing.is_lazy_quit());
    assert!(!nothing.seen_error());
    assert!(!nothing.skips(3));
    assert_eq!(nothing.batch_end(3, 9), 9);
    let nothing = nothing.set_lazy_quit(true);
    assert!(!nothing.is_lazy_quit());
    let all = VerifyExecutionMode::verify_all();
    assert!(all.should_verify());
    assert!(!all.is_lazy_quit());
    assert!(!all.skips(3));
    assert_eq!(all.batch_end(3, 9), 9);
    let mut except = VerifyExecutionMode::verify_except(vec![7, 3, 5, 3]).set_lazy_quit(true);
    assert!(except.should_verify());
    assert!(except.is_lazy_quit());
    assert!(except.skips(3) && except.skips(5) && except.skips(7));
    assert!(!except.skips(4));
    assert_eq!(except.batch_end(0, 9), 3);
    assert_eq!(except.batch_end(3, 9), 3);
    assert_eq!(except.batch_end(4, 9), 5);
    assert_eq!(except.batch_end(6, 7), 7);
    assert_eq!(except.batch_end(6, 8), 7);
    assert_eq!(except.batch_end(8, 9), 9);
    assert_eq!(except.batch_end(8, 8), 8);
    assert!(!except.seen_error());
    assert_eq!(except.num_errors(), 0);
    except.mark_seen_error();
    assert!(except.seen_error());
    assert_eq!(except.num_errors(), 1);
    except.mark_seen_error();
    assert_eq!(except.num_errors(), 2);
    assert!(except.is_lazy_quit());
    assert!(except.skips(5));
    let strict = except.set_lazy_quit(false);
    assert!(!strict.is_lazy_quit());
    assert!(strict.seen_error());
}
