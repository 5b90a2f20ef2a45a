//! The chunk executor that callers hold: a pipeline that comes into being on
//! first use, can be thrown away and built anew, and can be finished.

use crate::chunk::{reconfiguration_events_of, ExecutedChunk};
use crate::commit_queue::CommitQueueView;
use crate::error::{Error, ErrorKind};
use crate::executor::{
    commit_chunk, enqueue_chunk, finish_replay_error, update_ledger, ChunkExecutorInner,
    LedgerUpdateWork, StagingWork,
};
use crate::replay::{new_replay, Replay};
use crate::types::{
    ChunkCommitNotification, ContractEvent, ExecutedTrees, LedgerInfoWithSignatures, StateDelta,
    Transaction, TransactionInfo, TransactionListWithProof, TransactionOutputListWithProof,
    WriteSet,
};
use crate::verify_mode::VerifyExecutionMode;
use vstd::prelude::*;

verus! {

/// How the proofs of chunks are judged.
#[derive(Clone, Copy, Debug, PartialEq, Eq, Structural)]
pub enum ProofVerifier {
    /// A chunk is as good as the check of its proof says.
    Strict,
    /// Every chunk passes. For callers that trust their source.
    Permissive,
}

impl ProofVerifier {
    pub open spec fn spec_verify_chunk(&self, checked: Result<(), String>) -> Result<(), String> {
        match self {
            ProofVerifier::Strict => checked,
            ProofVerifier::Permissive => Ok(()),
        }
    }

    /// The verdict on a chunk, given what the check of its proof said.
    #[verifier::when_used_as_spec(spec_verify_chunk)]
    pub fn verify_chunk(&self, checked: Result<(), String>) -> (verdict: Result<(), String>)
        ensures
            verdict == self.spec_verify_chunk(checked),
    {
        match self {
            ProofVerifier::Strict => checked,
            ProofVerifier::Permissive => Ok(()),
        }
    }
}

/// The three states of a chunk executor, as mathematical values.
pub enum ExecutorState {
    /// No pipeline was built yet. The first call builds one.
    Uninitialized,
    /// A pipeline is in place, with this queue.
    Active(CommitQueueView),
    /// The pipeline was given up. Only a reset brings one back.
    Finished,
}

impl ExecutorState {
    /// The queue that a call works on: the one in place, or a fresh one on
    /// top of `store` where none was built yet. A finished executor has none.
    pub open spec fn initialized(self, store: ExecutedTrees) -> Result<CommitQueueView, Error> {
        match self {
            ExecutorState::Finished => Err(Error::NotInitialized),
            ExecutorState::Active(q) => Ok(q),
            ExecutorState::Uninitialized => if store.is_consistent() {
                Ok(CommitQueueView::fresh(store))
            } else {
                Err(Error::InconsistentLedgerSummary)
            },
        }
    }

    /// The state after a reset on top of `store`.
    pub open spec fn reset(self, store: ExecutedTrees) -> ExecutorState {
        if store.is_consistent() {
            ExecutorState::Active(CommitQueueView::fresh(store))
        } else {
            self
        }
    }

    pub open spec fn wf(self) -> bool {
        self matches ExecutorState::Active(q) ==> q.wf()
    }
}

/// A finished executor refuses every call that needs a pipeline, whatever
/// the store holds; and after a reset on a consistent store a pipeline is in
/// place again, with nothing staged and the versions of the store.
pub proof fn lemma_finish_then_reset(store: ExecutedTrees, later: ExecutedTrees)
    ensures
        ExecutorState::Finished.initialized(store) == Err::<CommitQueueView, Error>(
            Error::NotInitialized,
        ),
        Error::NotInitialized.kind() == ErrorKind::NotInitialized,
        later.is_consistent() ==> ExecutorState::Finished.reset(later).initialized(store) == Ok::<
            CommitQueueView,
            Error,
        >(CommitQueueView::fresh(later)) && CommitQueueView::fresh(later).wf()
            && CommitQueueView::fresh(later).committed_version() == later.state.next_version
            && CommitQueueView::fresh(later).latest_staged_version() == later.state.next_version,
{
}

enum Lifecycle {
    Uninitialized,
    Active(ChunkExecutorInner),
    Finished,
}

/// The chunk executor.
pub struct ChunkExecutor {
    proof_verifier: ProofVerifier,
    inner: Lifecycle,
}

impl View for ChunkExecutor {
    type V = ExecutorState;

    closed spec fn view(&self) -> ExecutorState {
        match self.inner {
            Lifecycle::Uninitialized => ExecutorState::Uninitialized,
            Lifecycle::Active(inner) => ExecutorState::Active(inner.queue()),
            Lifecycle::Finished => ExecutorState::Finished,
        }
    }
}

impl ChunkExecutor {
    pub open spec fn wf(&self) -> bool {
        self@.wf()
    }

    /// How this executor judges proofs.
    pub closed spec fn spec_proof_verifier(&self) -> ProofVerifier {
        self.proof_verifier
    }

    /// An executor that has built no pipeline yet.
    pub fn new(proof_verifier: ProofVerifier) -> (executor: Self)
        ensures
            executor@ == ExecutorState::Uninitialized,
            executor.spec_proof_verifier() == proof_verifier,
            executor.wf(),
    {
        ChunkExecutor { proof_verifier, inner: Lifecycle::Uninitialized }
    }

    #[verifier::when_used_as_spec(spec_proof_verifier)]
    pub fn proof_verifier(&self) -> (verifier: ProofVerifier)
        ensures
            verifier == self.spec_proof_verifier(),
    {
        self.proof_verifier
    }

    /// The verdict of this executor on a chunk, given what the check of its
    /// proof said.
    pub fn verify_chunk(&self, checked: Result<(), String>) -> (verdict: Result<(), String>)
        ensures
            verdict == self.spec_proof_verifier().spec_verify_chunk(checked),
    {
        self.proof_verifier.verify_chunk(checked)
    }

    /// The pipeline that is in place, if one is.
    pub fn inner(&self) -> (inner: Option<&ChunkExecutorInner>)
        ensures
            match inner {
                Some(inner) => self@ == ExecutorState::Active(inner.queue()),
                None => !(self@ is Active),
            },
    {
        match &self.inner {
            Lifecycle::Active(inner) => Some(inner),
            _ => None,
        }
    }

    /// Builds the pipeline on top of `store` where none was built yet.
    fn maybe_initialize(&mut self, store: &ExecutedTrees) -> (r: Result<(), Error>)
        requires
            old(self).wf(),
        ensures
            final(self).wf(),
            final(self).spec_proof_verifier() == old(self).spec_proof_verifier(),
            match old(self)@.initialized(*store) {
                Ok(q) => r is Ok && final(self)@ == ExecutorState::Active(q),
                Err(e) => r == Err::<(), Error>(e) && final(self)@ == old(self)@,
            },
    {
        match &self.inner {
            Lifecycle::Finished => Err(Error::NotInitialized),
            Lifecycle::Active(_) => Ok(()),
            Lifecycle::Uninitialized => self.reset(store),
        }
    }

    /// Throws the pipeline away, with everything that is not committed, and
    /// builds a new one on top of `store`.
    pub fn reset(&mut self, store: &ExecutedTrees) -> (r: Result<(), Error>)
        requires
            old(self).wf(),
        ensures
            final(self).wf(),
            final(self).spec_proof_verifier() == old(self).spec_proof_verifier(),
            final(self)@ == old(self)@.reset(*store),
            r == if store.is_consistent() {
                Ok::<(), Error>(())
            } else {
                Err::<(), Error>(Error::InconsistentLedgerSummary)
            },
    {
        match ChunkExecutorInner::new(*store) {
            Ok(inner) => {
                self.inner = Lifecycle::Active(inner);
                Ok(())
            },
            Err(e) => Err(e),
        }
    }

    /// Gives the pipeline up. Every call but `reset` fails from now on.
    pub fn finish(&mut self)
        ensures
            final(self)@ == ExecutorState::Finished,
            final(self).spec_proof_verifier() == old(self).spec_proof_verifier(),
            final(self).wf(),
    {
        self.inner = Lifecycle::Finished;
    }

    /// The state that the next chunk is run on, and the version that the
    /// chunk has to start at.
    pub fn latest_state(&mut self, store: &ExecutedTrees) -> (r: Result<StateDelta, Error>)
        requires
            old(self).wf(),
        ensures
            final(self).wf(),
            final(self).spec_proof_verifier() == old(self).spec_proof_verifier(),
            match old(self)@.initialized(*store) {
                Ok(q) => r == Ok::<StateDelta, Error>(q.latest_state) && final(self)@
                    == ExecutorState::Active(q),
                Err(e) => r == Err::<StateDelta, Error>(e) && final(self)@ == old(self)@,
            },
    {
        match self.maybe_initialize(store) {
            Err(e) => { return Err(e); },
            Ok(_) => {},
        }
        match &self.inner {
            Lifecycle::Active(inner) => Ok(inner.commit_queue().latest_state()),
            _ => Err(Error::NotInitialized),
        }
    }

    /// Stages a chunk of transactions that were run on the latest state.
    pub fn enqueue_chunk_by_execution(
        &mut self,
        store: &ExecutedTrees,
        txn_list_with_proof: TransactionListWithProof,
        verified_target_li: &LedgerInfoWithSignatures,
        epoch_change_li: Option<&LedgerInfoWithSignatures>,
        work: StagingWork,
    ) -> (r: Result<(), Error>)
        requires
            old(self).wf(),
        ensures
            final(self).wf(),
            final(self).spec_proof_verifier() == old(self).spec_proof_verifier(),
            match old(self)@.initialized(*store) {
                Err(e) => r == Err::<(), Error>(e) && final(self)@ == old(self)@,
                Ok(q) => match enqueue_chunk(
                    q,
                    txn_list_with_proof.transactions@.len(),
                    txn_list_with_proof.first_transaction_version,
                    txn_list_with_proof.proof,
                    *verified_target_li,
                    match epoch_change_li {
                        Some(li) => Some(*li),
                        None => None,
                    },
                    work,
                ) {
                    Ok(next) => r is Ok && final(self)@ == ExecutorState::Active(next),
                    Err(e) => r == Err::<(), Error>(e) && final(self)@ == ExecutorState::Active(
                        q,
                    ),
                },
            },
    {
        match self.maybe_initialize(store) {
            Err(e) => { return Err(e); },
            Ok(_) => {},
        }
        match &mut self.inner {
            Lifecycle::Active(inner) => inner.enqueue_chunk_by_execution(
                txn_list_with_proof,
                verified_target_li,
                epoch_change_li,
                work,
            ),
            _ => Err(Error::NotInitialized),
        }
    }

    /// Stages a chunk of transactions whose outputs were applied to the
    /// latest state.
    pub fn enqueue_chunk_by_transaction_outputs(
        &mut self,
        store: &ExecutedTrees,
        txn_output_list_with_proof: TransactionOutputListWithProof,
        verified_target_li: &LedgerInfoWithSignatures,
        epoch_change_li: Option<&LedgerInfoWithSignatures>,
        work: StagingWork,
    ) -> (r: Result<(), Error>)
        requires
            old(self).wf(),
        ensures
            final(self).wf(),
            final(self).spec_proof_verifier() == old(self).spec_proof_verifier(),
            match old(self)@.initialized(*store) {
                Err(e) => r == Err::<(), Error>(e) && final(self)@ == old(self)@,
                Ok(q) => match enqueue_chunk(
                    q,
                    txn_output_list_with_proof.transactions_and_outputs@.len(),
                    txn_output_list_with_proof.first_transaction_output_version,
                    txn_output_list_with_proof.proof,
                    *verified_target_li,
                    match epoch_change_li {
                        Some(li) => Some(*li),
                        None => None,
                    },
                    work,
                ) {
                    Ok(next) => r is Ok && final(self)@ == ExecutorState::Active(next),
                    Err(e) => r == Err::<(), Error>(e) && final(self)@ == ExecutorState::Active(
                        q,
                    ),
                },
            },
    {
        match self.maybe_initialize(store) {
            Err(e) => { return Err(e); },
            Ok(_) => {},
        }
        match &mut self.inner {
            Lifecycle::Active(inner) => inner.enqueue_chunk_by_transaction_outputs(
                txn_output_list_with_proof,
                verified_target_li,
                epoch_change_li,
                work,
            ),
            _ => Err(Error::NotInitialized),
        }
    }

    /// Finalizes the oldest staged chunk and moves it to the second stage.
    pub fn update_ledger(&mut self, store: &ExecutedTrees, work: LedgerUpdateWork) -> (r: Result<
        (),
        Error,
    >)
        requires
            old(self).wf(),
        ensures
            final(self).wf(),
            final(self).spec_proof_verifier() == old(self).spec_proof_verifier(),
            match old(self)@.initialized(*store) {
                Err(e) => r == Err::<(), Error>(e) && final(self)@ == old(self)@,
                Ok(q) => match update_ledger(q, work) {
                    Ok(next) => r is Ok && final(self)@ == ExecutorState::Active(next),
                    Err(e) => r == Err::<(), Error>(e) && final(self)@ == ExecutorState::Active(
                        q,
                    ),
                },
            },
    {
        match self.maybe_initialize(store) {
            Err(e) => { return Err(e); },
            Ok(_) => {},
        }
        match &mut self.inner {
            Lifecycle::Active(inner) => inner.update_ledger(work),
            _ => Err(Error::NotInitialized),
        }
    }

    /// Commits the oldest chunk of the second stage, given how its write to
    /// the store ended, and says what was committed.
    pub fn commit_chunk(&mut self, store: &ExecutedTrees, written: Result<(), String>) -> (r:
        Result<ChunkCommitNotification, Error>)
        requires
            old(self).wf(),
        ensures
            final(self).wf(),
            final(self).spec_proof_verifier() == old(self).spec_proof_verifier(),
            match old(self)@.initialized(*store) {
                Err(e) => r == Err::<ChunkCommitNotification, Error>(e) && final(self)@ == old(
                    self,
                )@,
                Ok(q) => match commit_chunk(q, written) {
                    Ok((next, chunk)) => r is Ok && final(self)@ == ExecutorState::Active(next)
                        && r->Ok_0.committed_transactions@ == chunk.transactions()
                        && r->Ok_0.reconfiguration_events@ == reconfiguration_events_of(
                        chunk.ledger_update_output.to_commit@,
                    ) && chunk.first_version() == q.committed_version()
                        && next.committed_version() == chunk.first_version()
                        + chunk.transactions().len(),
                    Err(e) => r == Err::<ChunkCommitNotification, Error>(e) && final(self)@
                        == ExecutorState::Active(q),
                },
            },
    {
        match self.maybe_initialize(store) {
            Err(e) => { return Err(e); },
            Ok(_) => {},
        }
        match &mut self.inner {
            Lifecycle::Active(inner) => inner.commit_chunk(written),
            _ => Err(Error::NotInitialized),
        }
    }

    /// Starts a replay of recorded transactions on top of everything staged.
    pub fn replay(
        &mut self,
        store: &ExecutedTrees,
        transactions: Vec<Transaction>,
        transaction_infos: Vec<TransactionInfo>,
        write_sets: Vec<WriteSet>,
        event_vecs: Vec<Vec<ContractEvent>>,
        verify_execution_mode: VerifyExecutionMode,
    ) -> (r: Result<Replay, Error>)
        requires
            old(self).wf(),
        ensures
            final(self).wf(),
            final(self).spec_proof_verifier() == old(self).spec_proof_verifier(),
            match old(self)@.initialized(*store) {
                Err(e) => r is Err && r->Err_0 == e && final(self)@ == old(self)@,
                Ok(q) => final(self)@ == ExecutorState::Active(q) && match q.expect_latest_view() {
                    Err(e) => r is Err && r->Err_0 == e,
                    Ok(latest_view) => match new_replay(
                        latest_view,
                        transactions@,
                        transaction_infos@,
                        write_sets@,
                        event_vecs@,
                        verify_execution_mode,
                    ) {
                        Ok(view) => r is Ok && r->Ok_0@ == view && r->Ok_0.wf(),
                        Err(e) => r is Err && r->Err_0 == e,
                    },
                },
            },
    {
        match self.maybe_initialize(store) {
            Err(e) => { return Err(e); },
            Ok(_) => {},
        }
        match &self.inner {
            Lifecycle::Active(inner) => inner.replay(
                transactions,
                transaction_infos,
                write_sets,
                event_vecs,
                verify_execution_mode,
            ),
            _ => Err(Error::NotInitialized),
        }
    }

    /// Takes the result of a finished replay into the second stage.
    pub fn finish_replay(&mut self, store: &ExecutedTrees, replay: Replay) -> (r: Result<
        VerifyExecutionMode,
        Error,
    >)
        requires
            old(self).wf(),
            replay.wf(),
        ensures
            final(self).wf(),
            final(self).spec_proof_verifier() == old(self).spec_proof_verifier(),
            match old(self)@.initialized(*store) {
                Err(e) => r is Err && r->Err_0 == e && final(self)@ == old(self)@,
                Ok(q) => match finish_replay_error(q, replay@) {
                    Some(e) => r is Err && r->Err_0 == e && final(self)@ == ExecutorState::Active(
                        q,
                    ),
                    None => r is Ok && r->Ok_0.spec_num_errors() == replay@.num_errors
                        && final(self)@ is Active && final(self)@->Active_0.to_commit.len()
                        == q.to_commit.len() + 1 && final(self)@->Active_0.to_commit.last()@
                        == replay@.executed_chunk->Some_0 && q.enqueue_chunk_to_commit_directly(
                        final(self)@->Active_0.to_commit.last(),
                    ) == Ok::<CommitQueueView, Error>(final(self)@->Active_0),
                },
            },
    {
        match self.maybe_initialize(store) {
            Err(e) => { return Err(e); },
            Ok(_) => {},
        }
        match &mut self.inner {
            Lifecycle::Active(inner) => inner.finish_replay(replay),
            _ => Err(Error::NotInitialized),
        }
    }

    /// Commits the oldest chunk of the second stage, given how its write to
    /// the store ended, and hands the chunk out.
    pub fn commit(&mut self, store: &ExecutedTrees, written: Result<(), String>) -> (r: Result<
        ExecutedChunk,
        Error,
    >)
        requires
            old(self).wf(),
        ensures
            final(self).wf(),
            final(self).spec_proof_verifier() == old(self).spec_proof_verifier(),
            match old(self)@.initialized(*store) {
                Err(e) => r == Err::<ExecutedChunk, Error>(e) && final(self)@ == old(self)@,
                Ok(q) => match commit_chunk(q, written) {
                    Ok((next, chunk)) => r == Ok::<ExecutedChunk, Error>(chunk) && final(self)@
                        == ExecutorState::Active(next) && chunk.first_version()
                        == q.committed_version() && next.committed_version()
                        == chunk.next_version(),
                    Err(e) => r == Err::<ExecutedChunk, Error>(e) && final(self)@
                        == ExecutorState::Active(q),
                },
            },
    {
        match self.maybe_initialize(store) {
            Err(e) => { return Err(e); },
            Ok(_) => {},
        }
        match &mut self.inner {
            Lifecycle::Active(inner) => inner.commit(written),
            _ => Err(Error::NotInitialized),
        }
    }
}

} // verus!
