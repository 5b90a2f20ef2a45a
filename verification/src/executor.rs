//! The pipeline: chunks are staged, get their ledger update, and are
//! committed, in version order.
//!
//! The pipeline itself runs no transaction, computes no checkpoint and writes
//! nothing to a store. Whoever drives it has that work done, and hands in
//! what came of it: each operation takes the outcome of the outside work as
//! a value and decides what becomes of the queue.

use crate::chunk::{
    infos_match, lemma_infos_match_iff_equal, reconfiguration_events_of,
    select_chunk_ending_ledger_info, ChunkToUpdateLedger, ExecutedChunk,
};
use crate::commit_queue::{ChunkCommitQueue, CommitQueueView};
use crate::error::{Error, ErrorKind};
use crate::replay::{new_replay, Replay, ReplayView};
use crate::types::{
    ChunkCommitNotification, ContractEvent, EpochState, ExecutedTrees, LedgerInfoWithSignatures,
    LedgerUpdateOutput, StateCheckpointOutput, StateDelta, Transaction, TransactionInfo,
    TransactionInfoListWithProof, TransactionListWithProof, TransactionOutputListWithProof,
    Version, WriteSet,
};
use crate::verify_mode::VerifyExecutionMode;
use vstd::prelude::*;

verus! {

/// How far the outside work on a chunk that is to be staged got: the proof
/// check, then running the chunk or applying its outputs, then the checkpoint
/// computation.
#[derive(Debug)]
pub enum StagingWork {
    /// The proof verifier refused the chunk.
    ProofRejected(String),
    /// The chunk could not be run, or its outputs could not be applied.
    ExecutionFailed(String),
    /// The state checkpoint could not be computed.
    CheckpointFailed(String),
    /// The chunk is staged.
    Staged {
        result_state: StateDelta,
        next_epoch_state: Option<EpochState>,
        state_checkpoint_output: StateCheckpointOutput,
    },
}

/// A finalized ledger update, with the transactions that did not make it.
#[derive(Debug)]
pub struct FinalizedLedgerUpdate {
    pub ledger_update_output: LedgerUpdateOutput,
    pub to_discard: Vec<Transaction>,
    pub to_retry: Vec<Transaction>,
}

/// How far the outside work on a ledger update got: the check that the
/// chunk's infos extend the ledger, then the finalization.
#[derive(Debug)]
pub enum LedgerUpdateWork {
    /// The chunk's infos do not extend the ledger.
    ExtensionRejected(String),
    /// The infos extend the ledger and overlap it in `num_overlap` places.
    Extended { num_overlap: u64, finalized: Result<FinalizedLedgerUpdate, String> },
}

/// Names the state view that a caller builds to run a chunk.
#[derive(Clone, Copy, Debug, PartialEq, Eq, Structural)]
pub enum StateViewId {
    ChunkExecution { first_version: Version },
}

/// What a state view over the latest state is built from.
#[derive(Clone, Copy, Debug, PartialEq, Eq, Structural)]
pub struct StateViewRequest {
    pub id: StateViewId,
    /// The version of the first transaction that runs on the view.
    pub first_version: Version,
    /// The state that the view reads.
    pub state: StateDelta,
}

/// What a chunk request has to meet before any work is done on it: it holds a
/// transaction, says where it starts, and starts where the queue expects it.
pub open spec fn check_chunk_request(
    q: CommitQueueView,
    num_txns: nat,
    first_version: Option<Version>,
) -> Result<Version, Error> {
    if num_txns == 0 {
        Err(Error::EmptyChunk)
    } else {
        match first_version {
            None => Err(Error::MissingFirstVersion),
            Some(version) => if version != q.latest_staged_version() {
                Err(
                    Error::UnexpectedChunk {
                        version_in_request: version,
                        expected_version: q.latest_staged_version(),
                    },
                )
            } else {
                Ok(version)
            },
        }
    }
}

/// The record that the outside work on a chunk leads to, or its failure.
pub open spec fn staged_record(
    work: StagingWork,
    verified_target_li: LedgerInfoWithSignatures,
    epoch_change_li: Option<LedgerInfoWithSignatures>,
    txn_infos_with_proof: TransactionInfoListWithProof,
) -> Result<ChunkToUpdateLedger, Error> {
    match work {
        StagingWork::ProofRejected(e) => Err(Error::ProofVerification(e)),
        StagingWork::ExecutionFailed(e) => Err(Error::ExecutionFailed(e)),
        StagingWork::CheckpointFailed(e) => Err(Error::CheckpointFailed(e)),
        StagingWork::Staged { result_state, next_epoch_state, state_checkpoint_output } => Ok(
            ChunkToUpdateLedger {
                result_state,
                state_checkpoint_output,
                next_epoch_state,
                verified_target_li,
                epoch_change_li,
                txn_infos_with_proof,
            },
        ),
    }
}

/// What enqueuing a chunk does to the queue: the request is checked, then the
/// outside work decides, then the record enters the first stage.
pub open spec fn enqueue_chunk(
    q: CommitQueueView,
    num_txns: nat,
    first_version: Option<Version>,
    txn_infos_with_proof: TransactionInfoListWithProof,
    verified_target_li: LedgerInfoWithSignatures,
    epoch_change_li: Option<LedgerInfoWithSignatures>,
    work: StagingWork,
) -> Result<CommitQueueView, Error> {
    match check_chunk_request(q, num_txns, first_version) {
        Err(e) => Err(e),
        Ok(_) => match staged_record(
            work,
            verified_target_li,
            epoch_change_li,
            txn_infos_with_proof,
        ) {
            Err(e) => Err(e),
            Ok(record) => q.enqueue_for_ledger_update(record),
        },
    }
}

/// The executed chunk that the outside work on a ledger update leads to, or
/// its failure. Nothing may overlap, nothing may be discarded or retried, the
/// infos have to be those of the proof, and the chunk has to end on the
/// checkpoint that its versions call for.
pub open spec fn executed_chunk_of(record: ChunkToUpdateLedger, work: LedgerUpdateWork) -> Result<
    ExecutedChunk,
    Error,
> {
    match work {
        LedgerUpdateWork::ExtensionRejected(e) => Err(Error::ProofVerification(e)),
        LedgerUpdateWork::Extended { num_overlap, finalized } => if num_overlap != 0 {
            Err(Error::OverlappedChunks { num_overlap })
        } else {
            match finalized {
                Err(e) => Err(Error::LedgerUpdateFailed(e)),
                Ok(update) => {
                    let matched = infos_match(
                        update.ledger_update_output.transaction_infos(),
                        record.txn_infos_with_proof.transaction_infos@,
                    );
                    let selected = select_chunk_ending_ledger_info(
                        update.ledger_update_output.transaction_accumulator,
                        record.verified_target_li,
                        record.epoch_change_li,
                        record.next_epoch_state,
                    );
                    if update.to_discard@.len() > 0 {
                        Err(Error::UnexpectedDiscard)
                    } else if update.to_retry@.len() > 0 {
                        Err(Error::UnexpectedRetry)
                    } else if matched is Err {
                        Err(matched->Err_0)
                    } else if selected is Err {
                        Err(selected->Err_0)
                    } else {
                        Ok(
                            ExecutedChunk {
                                result_state: record.result_state,
                                ledger_info: selected->Ok_0,
                                next_epoch_state: record.next_epoch_state,
                                ledger_update_output: update.ledger_update_output,
                            },
                        )
                    }
                },
            }
        },
    }
}

/// What a ledger update does to the queue: the oldest staged record is
/// finalized and moves to the second stage.
pub open spec fn update_ledger(q: CommitQueueView, work: LedgerUpdateWork) -> Result<
    CommitQueueView,
    Error,
> {
    match q.next_chunk_to_update_ledger() {
        Err(e) => Err(e),
        Ok((_, record)) => match executed_chunk_of(record, work) {
            Err(e) => Err(e),
            Ok(chunk) => q.save_ledger_update_output(chunk),
        },
    }
}

/// What a commit does to the queue, given how the write to the store ended:
/// the oldest chunk of the second stage leaves the queue, unless it had to be
/// written and the write failed.
pub open spec fn commit_chunk(q: CommitQueueView, written: Result<(), String>) -> Result<
    (CommitQueueView, ExecutedChunk),
    Error,
> {
    match q.next_chunk_to_commit() {
        Err(e) => Err(e),
        Ok((_, chunk)) => if chunk.needs_persisting() && written is Err {
            Err(Error::Storage(written->Err_0))
        } else {
            q.dequeue_committed(chunk.result_state)
        },
    }
}

/// Why the result of a replay cannot enter the queue, if it cannot: the
/// replay has to be finished and to have applied something, nothing may
/// await its ledger update, and the replayed chunk has to begin where the
/// queue's accumulator ends.
pub open spec fn finish_replay_error(q: CommitQueueView, replay: ReplayView) -> Option<Error> {
    if !(replay.step() is Finished) {
        Some(Error::ReplayUnfinished)
    } else if replay.executed_chunk is None {
        Some(Error::NothingToCommit)
    } else if q.to_update_ledger.len() > 0 {
        Some(Error::PendingLedgerUpdate)
    } else if replay.chunk_begin != q.latest_txn_accumulator.num_leaves {
        Some(Error::OutOfOrderChunk { expected_version: q.latest_txn_accumulator.num_leaves })
    } else {
        None
    }
}

/// A chunk that does not start at the version that the queue expects is
/// refused as invalid input, whatever the outside work came to.
pub proof fn lemma_discontinuous_chunk_is_refused(
    q: CommitQueueView,
    num_txns: nat,
    first_version: Option<Version>,
    txn_infos_with_proof: TransactionInfoListWithProof,
    verified_target_li: LedgerInfoWithSignatures,
    epoch_change_li: Option<LedgerInfoWithSignatures>,
    work: StagingWork,
)
    requires
        first_version != Some(q.latest_staged_version()),
    ensures
        enqueue_chunk(
            q,
            num_txns,
            first_version,
            txn_infos_with_proof,
            verified_target_li,
            epoch_change_li,
            work,
        ) is Err,
        enqueue_chunk(
            q,
            num_txns,
            first_version,
            txn_infos_with_proof,
            verified_target_li,
            epoch_change_li,
            work,
        )->Err_0.kind() == ErrorKind::InputValidation,
{
}

/// A ledger update that succeeds had nothing discarded and nothing to retry,
/// and produced exactly the infos that the chunk's proof carries.
pub proof fn lemma_ledger_update_keeps_every_transaction(
    q: CommitQueueView,
    work: LedgerUpdateWork,
)
    requires
        update_ledger(q, work) is Ok,
    ensures
        work matches LedgerUpdateWork::Extended { num_overlap, finalized: Ok(update) }
            && num_overlap == 0 && update.to_discard@.len() == 0 && update.to_retry@.len() == 0
            && update.ledger_update_output.transaction_infos()
            == q.to_update_ledger[0].txn_infos_with_proof.transaction_infos@,
{
    let record = q.to_update_ledger[0];
    match work {
        LedgerUpdateWork::ExtensionRejected(e) => {},
        LedgerUpdateWork::Extended { num_overlap, finalized } => {
            match finalized {
                Err(e) => {},
                Ok(update) => {
                    lemma_infos_match_iff_equal(
                        update.ledger_update_output.transaction_infos(),
                        record.txn_infos_with_proof.transaction_infos@,
                    );
                },
            }
        },
    }
}

/// The pipeline over one commit queue.
pub struct ChunkExecutorInner {
    commit_queue: ChunkCommitQueue,
}

impl ChunkExecutorInner {
    /// What the commit queue holds.
    pub closed spec fn queue(&self) -> CommitQueueView {
        self.commit_queue@
    }

    pub open spec fn wf(&self) -> bool {
        self.queue().wf()
    }

    /// A pipeline on top of a store that holds `persisted`, with nothing staged.
    pub fn new(persisted: ExecutedTrees) -> (r: Result<Self, Error>)
        ensures
            match r {
                Ok(inner) => persisted.is_consistent() && inner.queue() == CommitQueueView::fresh(
                    persisted,
                ) && inner.wf(),
                Err(e) => !persisted.is_consistent() && e == Error::InconsistentLedgerSummary,
            },
    {
        match ChunkCommitQueue::new(persisted) {
            Ok(commit_queue) => Ok(ChunkExecutorInner { commit_queue }),
            Err(e) => Err(e),
        }
    }

    /// The commit queue, to look at.
    pub fn commit_queue(&self) -> (q: &ChunkCommitQueue)
        ensures
            q@ == self.queue(),
    {
        &self.commit_queue
    }

    /// What the state view for the next chunk is built from.
    pub fn latest_state_view(&self, latest_state: &StateDelta) -> (request: StateViewRequest)
        ensures
            request == (StateViewRequest {
                id: StateViewId::ChunkExecution { first_version: latest_state.next_version },
                first_version: latest_state.next_version,
                state: *latest_state,
            }),
    {
        let first_version: Version = latest_state.next_version();
        StateViewRequest {
            id: StateViewId::ChunkExecution { first_version },
            first_version,
            state: *latest_state,
        }
    }

    /// Checks a chunk request before any work is done on it, and gives the
    /// version that the chunk starts at.
    pub fn check_chunk_request(&self, num_txns: usize, first_version: Option<Version>) -> (r:
        Result<Version, Error>)
        ensures
            r == check_chunk_request(self.queue(), num_txns as nat, first_version),
    {
        if num_txns == 0 {
            return Err(Error::EmptyChunk);
        }
        let version_in_request: Version = match first_version {
            Some(version) => version,
            None => { return Err(Error::MissingFirstVersion); },
        };
        let expected_version: Version = self.commit_queue.latest_staged_version();
        if version_in_request != expected_version {
            return Err(Error::UnexpectedChunk { version_in_request, expected_version });
        }
        Ok(version_in_request)
    }

    fn enqueue_chunk(
        &mut self,
        num_txns: usize,
        first_version: Option<Version>,
        txn_infos_with_proof: TransactionInfoListWithProof,
        verified_target_li: &LedgerInfoWithSignatures,
        epoch_change_li: Option<&LedgerInfoWithSignatures>,
        work: StagingWork,
    ) -> (r: Result<(), Error>)
        requires
            old(self).wf(),
        ensures
            final(self).wf(),
            match enqueue_chunk(
                old(self).queue(),
                num_txns as nat,
                first_version,
                txn_infos_with_proof,
                *verified_target_li,
                match epoch_change_li {
                    Some(li) => Some(*li),
                    None => None,
                },
                work,
            ) {
                Ok(next) => r is Ok && final(self).queue() == next,
                Err(e) => r == Err::<(), Error>(e) && final(self).queue() == old(self).queue(),
            },
    {
        match self.check_chunk_request(num_txns, first_version) {
            Err(e) => { return Err(e); },
            Ok(_) => {},
        }
        let epoch_change_li: Option<LedgerInfoWithSignatures> = match epoch_change_li {
            Some(li) => Some(*li),
            None => None,
        };
        let record = match work {
            StagingWork::ProofRejected(e) => { return Err(Error::ProofVerification(e)); },
            StagingWork::ExecutionFailed(e) => { return Err(Error::ExecutionFailed(e)); },
            StagingWork::CheckpointFailed(e) => { return Err(Error::CheckpointFailed(e)); },
            StagingWork::Staged { result_state, next_epoch_state, state_checkpoint_output } => {
                ChunkToUpdateLedger {
                    result_state,
                    state_checkpoint_output,
                    next_epoch_state,
                    verified_target_li: *verified_target_li,
                    epoch_change_li,
                    txn_infos_with_proof,
                }
            },
        };
        self.commit_queue.enqueue_for_ledger_update(record)
    }

    /// Stages a chunk of transactions that were run on the latest state.
    ///
    /// The chunk has to hold a transaction and to start at the version that
    /// the queue expects; else it is refused and `work` is not looked at.
    pub fn enqueue_chunk_by_execution(
        &mut self,
        txn_list_with_proof: TransactionListWithProof,
        verified_target_li: &LedgerInfoWithSignatures,
        epoch_change_li: Option<&LedgerInfoWithSignatures>,
        work: StagingWork,
    ) -> (r: Result<(), Error>)
        requires
            old(self).wf(),
        ensures
            final(self).wf(),
            match enqueue_chunk(
                old(self).queue(),
                txn_list_with_proof.transactions@.len(),
                txn_list_with_proof.first_transaction_version,
                txn_list_with_proof.proof,
                *verified_target_li,
                match epoch_change_li {
                    Some(li) => Some(*li),
                    None => None,
                },
                work,
            ) {
                Ok(next) => r is Ok && final(self).queue() == next,
                Err(e) => r == Err::<(), Error>(e) && final(self).queue() == old(self).queue(),
            },
            txn_list_with_proof.first_transaction_version != Some(
                old(self).queue().latest_staged_version(),
            ) ==> r is Err && r->Err_0.kind() == ErrorKind::InputValidation && final(self).queue()
                == old(self).queue(),
    {
        let num_txns: usize = txn_list_with_proof.transactions.len();
        let TransactionListWithProof { transactions: _, first_transaction_version, proof } =
            txn_list_with_proof;
        self.enqueue_chunk(
            num_txns,
            first_transaction_version,
            proof,
            verified_target_li,
            epoch_change_li,
            work,
        )
    }

    /// Stages a chunk of transactions whose outputs were applied to the
    /// latest state.
    ///
    /// The chunk has to hold a transaction and to start at the version that
    /// the queue expects; else it is refused and `work` is not looked at.
    pub fn enqueue_chunk_by_transaction_outputs(
        &mut self,
        txn_output_list_with_proof: TransactionOutputListWithProof,
        verified_target_li: &LedgerInfoWithSignatures,
        epoch_change_li: Option<&LedgerInfoWithSignatures>,
        work: StagingWork,
    ) -> (r: Result<(), Error>)
        requires
            old(self).wf(),
        ensures
            final(self).wf(),
            match enqueue_chunk(
                old(self).queue(),
                txn_output_list_with_proof.transactions_and_outputs@.len(),
                txn_output_list_with_proof.first_transaction_output_version,
                txn_output_list_with_proof.proof,
                *verified_target_li,
                match epoch_change_li {
                    Some(li) => Some(*li),
                    None => None,
                },
                work,
            ) {
                Ok(next) => r is Ok && final(self).queue() == next,
                Err(e) => r == Err::<(), Error>(e) && final(self).queue() == old(self).queue(),
            },
            txn_output_list_with_proof.first_transaction_output_version != Some(
                old(self).queue().latest_staged_version(),
            ) ==> r is Err && r->Err_0.kind() == ErrorKind::InputValidation && final(self).queue()
                == old(self).queue(),
    {
        let num_txns: usize = txn_output_list_with_proof.transactions_and_outputs.len();
        let TransactionOutputListWithProof {
            transactions_and_outputs: _,
            first_transaction_output_version,
            proof,
        } = txn_output_list_with_proof;
        self.enqueue_chunk(
            num_txns,
            first_transaction_output_version,
            proof,
            verified_target_li,
            epoch_change_li,
            work,
        )
    }

    /// Finalizes the oldest staged chunk and moves it to the second stage.
    ///
    /// On any failure the queue stays as it was.
    pub fn update_ledger(&mut self, work: LedgerUpdateWork) -> (r: Result<(), Error>)
        requires
            old(self).wf(),
        ensures
            final(self).wf(),
            match update_ledger(old(self).queue(), work) {
                Ok(next) => r is Ok && final(self).queue() == next,
                Err(e) => r == Err::<(), Error>(e) && final(self).queue() == old(self).queue(),
            },
    {
        let executed_chunk = {
            let (_, record) = match self.commit_queue.next_chunk_to_update_ledger() {
                Ok(next) => next,
                Err(e) => { return Err(e); },
            };
            let update = match work {
                LedgerUpdateWork::ExtensionRejected(e) => {
                    return Err(Error::ProofVerification(e));
                },
                LedgerUpdateWork::Extended { num_overlap, finalized } => {
                    if num_overlap != 0 {
                        return Err(Error::OverlappedChunks { num_overlap });
                    }
                    match finalized {
                        Err(e) => { return Err(Error::LedgerUpdateFailed(e)); },
                        Ok(update) => update,
                    }
                },
            };
            let FinalizedLedgerUpdate { ledger_update_output, to_discard, to_retry } = update;
            if to_discard.len() > 0 {
                return Err(Error::UnexpectedDiscard);
            }
            if to_retry.len() > 0 {
                return Err(Error::UnexpectedRetry);
            }
            match ledger_update_output.ensure_transaction_infos_match(
                &record.txn_infos_with_proof.transaction_infos,
            ) {
                Err(e) => { return Err(e); },
                Ok(_) => {},
            }
            let ledger_info = match ledger_update_output.maybe_select_chunk_ending_ledger_info(
                &record.verified_target_li,
                record.epoch_change_li.as_ref(),
                record.next_epoch_state.as_ref(),
            ) {
                Err(e) => { return Err(e); },
                Ok(ledger_info) => ledger_info,
            };
            ExecutedChunk {
                result_state: record.result_state,
                ledger_info,
                next_epoch_state: record.next_epoch_state,
                ledger_update_output,
            }
        };
        self.commit_queue.save_ledger_update_output(executed_chunk)
    }

    /// The chunk that the next commit writes to the store, with the persisted
    /// state that it is written on top of; `None` where the oldest chunk
    /// holds nothing to write.
    pub fn chunk_to_persist(&self) -> (r: Result<Option<(StateDelta, &ExecutedChunk)>, Error>)
        ensures
            match self.queue().next_chunk_to_commit() {
                Err(e) => r is Err && r->Err_0 == e,
                Ok((persisted, chunk)) => r is Ok && if chunk.needs_persisting() {
                    r->Ok_0 is Some && r->Ok_0->Some_0.0 == persisted && *r->Ok_0->Some_0.1
                        == chunk
                } else {
                    r->Ok_0 is None
                },
            },
    {
        let (persisted_state, chunk) = match self.commit_queue.next_chunk_to_commit() {
            Ok(next) => next,
            Err(e) => { return Err(e); },
        };
        if chunk.needs_persisting() {
            Ok(Some((persisted_state, chunk)))
        } else {
            Ok(None)
        }
    }

    /// Commits the oldest chunk of the second stage, given how its write to
    /// the store ended (`Ok` where nothing had to be written).
    ///
    /// Where the write failed, the chunk stays in the queue and the commit
    /// may be tried again.
    pub fn commit_chunk_impl(&mut self, written: Result<(), String>) -> (r: Result<
        ExecutedChunk,
        Error,
    >)
        requires
            old(self).wf(),
        ensures
            final(self).wf(),
            match commit_chunk(old(self).queue(), written) {
                Ok((next, chunk)) => r == Ok::<ExecutedChunk, Error>(chunk) && final(self).queue()
                    == next && chunk.wf() && chunk.first_version()
                    == old(self).queue().committed_version()
                    && final(self).queue().committed_version() == chunk.next_version(),
                Err(e) => r == Err::<ExecutedChunk, Error>(e) && final(self).queue() == old(
                    self,
                ).queue(),
            },
    {
        let result_state = {
            let (_, chunk) = match self.commit_queue.next_chunk_to_commit() {
                Ok(next) => next,
                Err(e) => { return Err(e); },
            };
            if chunk.needs_persisting() {
                match written {
                    Err(e) => { return Err(Error::Storage(e)); },
                    Ok(_) => {},
                }
            }
            chunk.result_state
        };
        self.commit_queue.dequeue_committed(result_state)
    }

    /// Starts a replay of recorded transactions on top of everything staged.
    /// Nothing may await its ledger update.
    pub fn replay(
        &self,
        transactions: Vec<Transaction>,
        transaction_infos: Vec<TransactionInfo>,
        write_sets: Vec<WriteSet>,
        event_vecs: Vec<Vec<ContractEvent>>,
        verify_execution_mode: VerifyExecutionMode,
    ) -> (r: Result<Replay, Error>)
        requires
            self.wf(),
        ensures
            match self.queue().expect_latest_view() {
                Err(e) => r is Err && r->Err_0 == e,
                Ok(latest_view) => match new_replay(
                    latest_view,
                    transactions@,
                    transaction_infos@,
                    write_sets@,
                    event_vecs@,
                    verify_execution_mode,
                ) {
                    Ok(view) => r is Ok && r->Ok_0@ == view && r->Ok_0.wf(),
                    Err(e) => r is Err && r->Err_0 == e,
                },
            },
    {
        let latest_view = match self.commit_queue.expect_latest_view() {
            Ok(latest_view) => latest_view,
            Err(e) => { return Err(e); },
        };
        Replay::new(
            latest_view,
            transactions,
            transaction_infos,
            write_sets,
            event_vecs,
            verify_execution_mode,
        )
    }

    /// Takes the result of a finished replay into the second stage, as one
    /// chunk, and hands back the mode with what it noted.
    pub fn finish_replay(&mut self, replay: Replay) -> (r: Result<VerifyExecutionMode, Error>)
        requires
            old(self).wf(),
            replay.wf(),
        ensures
            final(self).wf(),
            match finish_replay_error(old(self).queue(), replay@) {
                Some(e) => r is Err && r->Err_0 == e && final(self).queue() == old(self).queue(),
                None => r is Ok && r->Ok_0.spec_num_errors() == replay@.num_errors
                    && final(self).queue().to_commit.len() == old(self).queue().to_commit.len() + 1
                    && final(self).queue().to_commit.last()@ == replay@.executed_chunk->Some_0
                    && old(self).queue().enqueue_chunk_to_commit_directly(
                    final(self).queue().to_commit.last(),
                ) == Ok::<CommitQueueView, Error>(final(self).queue()),
            },
    {
        let (chunk, mode) = match replay.finish() {
            Ok(finished) => finished,
            Err(e) => { return Err(e); },
        };
        match self.commit_queue.enqueue_chunk_to_commit_directly(chunk) {
            Ok(_) => Ok(mode),
            Err(e) => Err(e),
        }
    }

    /// Commits the oldest chunk of the second stage and hands it out.
    pub fn commit(&mut self, written: Result<(), String>) -> (r: Result<ExecutedChunk, Error>)
        requires
            old(self).wf(),
        ensures
            final(self).wf(),
            match commit_chunk(old(self).queue(), written) {
                Ok((next, chunk)) => r == Ok::<ExecutedChunk, Error>(chunk) && final(self).queue()
                    == next && chunk.wf() && chunk.first_version()
                    == old(self).queue().committed_version()
                    && final(self).queue().committed_version() == chunk.next_version(),
                Err(e) => r == Err::<ExecutedChunk, Error>(e) && final(self).queue() == old(
                    self,
                ).queue(),
            },
    {
        self.commit_chunk_impl(written)
    }

    /// Commits the oldest chunk of the second stage and says what was committed.
    pub fn commit_chunk(&mut self, written: Result<(), String>) -> (r: Result<
        ChunkCommitNotification,
        Error,
    >)
        requires
            old(self).wf(),
        ensures
            final(self).wf(),
            match commit_chunk(old(self).queue(), written) {
                Ok((next, chunk)) => r is Ok && final(self).queue() == next
                    && r->Ok_0.committed_transactions@ == chunk.transactions()
                    && r->Ok_0.reconfiguration_events@ == reconfiguration_events_of(
                    chunk.ledger_update_output.to_commit@,
                ) && chunk.first_version() == old(self).queue().committed_version()
                    && final(self).queue().committed_version() == chunk.first_version()
                    + chunk.transactions().len(),
                Err(e) => r == Err::<ChunkCommitNotification, Error>(e) && final(self).queue()
                    == old(self).queue(),
            },
    {
        match self.commit_chunk_impl(written) {
            Ok(executed_chunk) => Ok(executed_chunk.into_chunk_commit_notification()),
            Err(e) => Err(e),
        }
    }
}

} // verus!
