//! The commit queue: the chunks that await their ledger update, the chunks
//! that await commit, and the three versions that the pipeline has reached
//! (persisted, ledger-updated, staged).

use crate::chunk::{ChunkToUpdateLedger, ExecutedChunk};
use crate::error::Error;
use crate::types::{AccumulatorSummary, ExecutedTrees, StateDelta, Version};
use std::collections::VecDeque;
use vstd::prelude::*;

verus! {

/// What a commit queue holds, as mathematical values.
pub struct CommitQueueView {
    /// The state that the store holds.
    pub persisted_state: StateDelta,
    /// The state after everything that was staged.
    pub latest_state: StateDelta,
    /// The transaction accumulator after everything whose ledger update is done.
    pub latest_txn_accumulator: AccumulatorSummary,
    /// The chunks that await commit, oldest first.
    pub to_commit: Seq<ExecutedChunk>,
    /// The records that await their ledger update, oldest first.
    pub to_update_ledger: Seq<ChunkToUpdateLedger>,
}

impl CommitQueueView {
    /// The queue of a store that holds `summary`, with nothing staged.
    pub open spec fn fresh(summary: ExecutedTrees) -> CommitQueueView {
        CommitQueueView {
            persisted_state: summary.state,
            latest_state: summary.state,
            latest_txn_accumulator: summary.transaction_accumulator,
            to_commit: Seq::empty(),
            to_update_ledger: Seq::empty(),
        }
    }

    /// The chunks that await commit are consistent, begin at the persisted
    /// version, follow each other without a gap, and end at the accumulator.
    pub open spec fn commit_chain_wf(self) -> bool {
        &&& forall|i: int| 0 <= i < self.to_commit.len() ==> (#[trigger] self.to_commit[i]).wf()
        &&& self.to_commit.len() > 0 ==> self.to_commit[0].first_version()
            == self.persisted_state.next_version
        &&& forall|i: int, j: int|
            0 <= i && j == i + 1 && j < self.to_commit.len() ==> (
            #[trigger] self.to_commit[i]).next_version()
                == (#[trigger] self.to_commit[j]).first_version()
        &&& if self.to_commit.len() > 0 {
            self.latest_txn_accumulator
                == self.to_commit.last().ledger_update_output.transaction_accumulator
        } else {
            self.latest_txn_accumulator.num_leaves == self.persisted_state.next_version
        }
    }

    /// The records that await their ledger update are in version order, from
    /// the accumulator on.
    pub open spec fn update_chain_wf(self) -> bool {
        &&& self.to_update_ledger.len() > 0 ==> self.latest_txn_accumulator.num_leaves
            <= self.to_update_ledger[0].result_state.next_version
        &&& forall|i: int, j: int|
            0 <= i <= j < self.to_update_ledger.len() ==> (
            #[trigger] self.to_update_ledger[i]).result_state.next_version
                <= (#[trigger] self.to_update_ledger[j]).result_state.next_version
    }

    /// The latest state is the state after the last thing that was staged.
    pub open spec fn latest_state_wf(self) -> bool {
        self.latest_state == if self.to_update_ledger.len() > 0 {
            self.to_update_ledger.last().result_state
        } else if self.to_commit.len() > 0 {
            self.to_commit.last().result_state
        } else {
            self.persisted_state
        }
    }

    pub open spec fn wf(self) -> bool {
        &&& self.commit_chain_wf()
        &&& self.update_chain_wf()
        &&& self.latest_state_wf()
    }

    /// The version that the next chunk has to start at.
    pub open spec fn latest_staged_version(self) -> Version {
        self.latest_state.next_version
    }

    /// The version after the last committed chunk.
    pub open spec fn committed_version(self) -> Version {
        self.persisted_state.next_version
    }

    pub open spec fn expect_latest_view(self) -> Result<ExecutedTrees, Error> {
        if self.to_update_ledger.len() > 0 {
            Err(Error::PendingLedgerUpdate)
        } else {
            Ok(
                ExecutedTrees {
                    state: self.latest_state,
                    transaction_accumulator: self.latest_txn_accumulator,
                },
            )
        }
    }

    pub open spec fn enqueue_for_ledger_update(self, chunk: ChunkToUpdateLedger) -> Result<
        CommitQueueView,
        Error,
    > {
        if chunk.result_state.next_version < self.latest_state.next_version {
            Err(
                Error::VersionRegression {
                    found: chunk.result_state.next_version,
                    expected_version: self.latest_state.next_version,
                },
            )
        } else {
            Ok(
                CommitQueueView {
                    latest_state: chunk.result_state,
                    to_update_ledger: self.to_update_ledger.push(chunk),
                    ..self
                },
            )
        }
    }

    pub open spec fn next_chunk_to_update_ledger(self) -> Result<
        (AccumulatorSummary, ChunkToUpdateLedger),
        Error,
    > {
        if self.to_update_ledger.len() == 0 {
            Err(Error::NoChunkToUpdateLedger)
        } else {
            Ok((self.latest_txn_accumulator, self.to_update_ledger[0]))
        }
    }

    /// Whether `chunk` may follow the chunks whose ledger update is done.
    pub open spec fn check_chunk_to_commit(self, chunk: ExecutedChunk) -> Result<(), Error> {
        if !chunk.wf() {
            Err(Error::InconsistentChunk)
        } else if chunk.first_version() != self.latest_txn_accumulator.num_leaves {
            Err(Error::OutOfOrderChunk { expected_version: self.latest_txn_accumulator.num_leaves })
        } else {
            Ok(())
        }
    }

    pub open spec fn save_ledger_update_output(self, chunk: ExecutedChunk) -> Result<
        CommitQueueView,
        Error,
    > {
        if self.to_update_ledger.len() == 0 {
            Err(Error::NoChunkToUpdateLedger)
        } else if chunk.result_state != self.to_update_ledger[0].result_state {
            Err(Error::ResultStateMismatch)
        } else if self.check_chunk_to_commit(chunk) is Err {
            Err(self.check_chunk_to_commit(chunk)->Err_0)
        } else {
            Ok(
                CommitQueueView {
                    latest_txn_accumulator: chunk.ledger_update_output.transaction_accumulator,
                    to_update_ledger: self.to_update_ledger.drop_first(),
                    to_commit: self.to_commit.push(chunk),
                    ..self
                },
            )
        }
    }

    pub open spec fn next_chunk_to_commit(self) -> Result<(StateDelta, ExecutedChunk), Error> {
        if self.to_commit.len() == 0 {
            Err(Error::NoChunkToCommit)
        } else {
            Ok((self.persisted_state, self.to_commit[0]))
        }
    }

    pub open spec fn enqueue_chunk_to_commit_directly(self, chunk: ExecutedChunk) -> Result<
        CommitQueueView,
        Error,
    > {
        if self.to_update_ledger.len() > 0 {
            Err(Error::PendingLedgerUpdate)
        } else if self.check_chunk_to_commit(chunk) is Err {
            Err(self.check_chunk_to_commit(chunk)->Err_0)
        } else {
            Ok(
                CommitQueueView {
                    latest_state: chunk.result_state,
                    latest_txn_accumulator: chunk.ledger_update_output.transaction_accumulator,
                    to_commit: self.to_commit.push(chunk),
                    ..self
                },
            )
        }
    }

    pub open spec fn dequeue_committed(self, latest_state: StateDelta) -> Result<
        (CommitQueueView, ExecutedChunk),
        Error,
    > {
        if self.to_commit.len() == 0 {
            Err(Error::NoChunkToCommit)
        } else if latest_state != self.to_commit[0].result_state {
            Err(Error::ResultStateMismatch)
        } else {
            Ok(
                (
                    CommitQueueView {
                        persisted_state: latest_state,
                        to_commit: self.to_commit.drop_first(),
                        ..self
                    },
                    self.to_commit[0],
                ),
            )
        }
    }
}

/// Every step of a well-formed queue leads to a well-formed queue.
pub proof fn lemma_steps_keep_wf(
    q: CommitQueueView,
    record: ChunkToUpdateLedger,
    chunk: ExecutedChunk,
    state: StateDelta,
)
    requires
        q.wf(),
    ensures
        q.enqueue_for_ledger_update(record) is Ok ==> q.enqueue_for_ledger_update(
            record,
        )->Ok_0.wf(),
        q.save_ledger_update_output(chunk) is Ok ==> q.save_ledger_update_output(chunk)->Ok_0.wf(),
        q.enqueue_chunk_to_commit_directly(chunk) is Ok ==> q.enqueue_chunk_to_commit_directly(
            chunk,
        )->Ok_0.wf(),
        q.dequeue_committed(state) is Ok ==> q.dequeue_committed(state)->Ok_0.0.wf(),
{
    if q.enqueue_for_ledger_update(record) is Ok {
        let next = q.enqueue_for_ledger_update(record)->Ok_0;
        assert(next.to_update_ledger.last() == record);
        assert(forall|i: int|
            0 <= i < q.to_update_ledger.len() ==> next.to_update_ledger[i]
                == q.to_update_ledger[i]);
        if q.to_update_ledger.len() == 0 {
            if q.to_commit.len() > 0 {
                assert(q.to_commit.last().wf());
            }
        }
        assert(next.update_chain_wf());
        assert(next.wf());
    }
    if q.save_ledger_update_output(chunk) is Ok {
        let next = q.save_ledger_update_output(chunk)->Ok_0;
        assert(next.to_commit.last() == chunk);
        assert(forall|i: int| 0 <= i < q.to_commit.len() ==> next.to_commit[i] == q.to_commit[i]);
        assert(forall|i: int|
            0 <= i < next.to_update_ledger.len() ==> next.to_update_ledger[i]
                == q.to_update_ledger[i + 1]);
        if q.to_commit.len() > 0 {
            assert(q.to_commit.last().wf());
            assert(q.to_commit[q.to_commit.len() - 1].next_version() == chunk.first_version());
        }
        assert(next.commit_chain_wf());
        if next.to_update_ledger.len() > 0 {
            assert(q.to_update_ledger[0].result_state.next_version
                <= q.to_update_ledger[1].result_state.next_version);
            assert(next.to_update_ledger.last() == q.to_update_ledger.last());
        }
        assert(next.update_chain_wf());
        assert(next.latest_state_wf());
    }
    if q.enqueue_chunk_to_commit_directly(chunk) is Ok {
        let next = q.enqueue_chunk_to_commit_directly(chunk)->Ok_0;
        assert(next.to_commit.last() == chunk);
        assert(forall|i: int| 0 <= i < q.to_commit.len() ==> next.to_commit[i] == q.to_commit[i]);
        if q.to_commit.len() > 0 {
            assert(q.to_commit.last().wf());
            assert(q.to_commit[q.to_commit.len() - 1].next_version() == chunk.first_version());
        }
        assert(next.commit_chain_wf());
        assert(next.wf());
    }
    if q.dequeue_committed(state) is Ok {
        let next = q.dequeue_committed(state)->Ok_0.0;
        assert(q.to_commit[0].wf());
        assert(forall|i: int|
            0 <= i < next.to_commit.len() ==> next.to_commit[i] == q.to_commit[i + 1]);
        if next.to_commit.len() > 0 {
            assert(q.to_commit[0].next_version() == q.to_commit[1].first_version());
            assert(next.to_commit.last() == q.to_commit.last());
        } else {
            assert(q.to_commit.last() == q.to_commit[0]);
        }
        assert(next.commit_chain_wf());
        if next.to_update_ledger.len() > 0 {
            assert(next.update_chain_wf());
        }
        assert(next.wf());
    }
}

/// The chunks that await commit lie in ascending version order without a gap:
/// each begins where the one before it ends, and the first begins at the
/// committed version.
pub proof fn lemma_commit_order(q: CommitQueueView, i: int, j: int)
    requires
        q.wf(),
        0 <= i <= j < q.to_commit.len(),
    ensures
        q.committed_version() <= q.to_commit[i].first_version(),
        q.to_commit[i].first_version() <= q.to_commit[j].first_version(),
        i < j ==> q.to_commit[i].next_version() <= q.to_commit[j].first_version(),
        j == i + 1 ==> q.to_commit[i].next_version() == q.to_commit[j].first_version(),
        i == 0 ==> q.to_commit[i].first_version() == q.committed_version(),
        q.to_commit[i].first_version() + q.to_commit[i].transactions().len()
            == q.to_commit[i].next_version(),
    decreases j,
{
    assert(q.to_commit[i].wf());
    assert(q.to_commit[j].wf());
    if j == 0 {
    } else if i == j {
        lemma_commit_order(q, i - 1, j - 1);
        assert(q.to_commit[j - 1].next_version() == q.to_commit[j].first_version());
    } else {
        lemma_commit_order(q, i, j - 1);
        assert(q.to_commit[j - 1].wf());
        assert(q.to_commit[j - 1].next_version() == q.to_commit[j].first_version());
    }
}

/// Two commits in a row hand out chunks that follow each other: the second
/// chunk begins at the version at which the first one ends.
pub proof fn lemma_successive_commits(q: CommitQueueView)
    requires
        q.wf(),
        q.to_commit.len() >= 2,
    ensures
        ({
            let first = q.dequeue_committed(q.to_commit[0].result_state);
            let second = first->Ok_0.0.dequeue_committed(q.to_commit[1].result_state);
            &&& first is Ok
            &&& second is Ok
            &&& first->Ok_0.1 == q.to_commit[0]
            &&& second->Ok_0.1 == q.to_commit[1]
            &&& first->Ok_0.1.first_version() == q.committed_version()
            &&& second->Ok_0.1.first_version() == first->Ok_0.1.next_version()
            &&& second->Ok_0.0.committed_version() == second->Ok_0.1.next_version()
        }),
{
    lemma_commit_order(q, 0, 1);
    assert(q.to_commit[0].wf());
    assert(q.to_commit[1].wf());
    let first = q.dequeue_committed(q.to_commit[0].result_state);
    assert(first->Ok_0.0.to_commit[0] == q.to_commit[1]);
}

/// The queue after its `n` oldest chunks were committed, one after the other.
pub open spec fn after_commits(q: CommitQueueView, n: nat) -> CommitQueueView
    decreases n,
{
    if n == 0 || q.to_commit.len() == 0 {
        q
    } else {
        after_commits(q.dequeue_committed(q.to_commit[0].result_state)->Ok_0.0, (n - 1) as nat)
    }
}

/// Commits hand the chunks out in the order in which they entered the second
/// stage. After `n` of them, the chunks that are left are the ones that
/// entered later, and the committed version is where the last chunk handed
/// out ends: where the next one begins.
pub proof fn lemma_commits_in_order(q: CommitQueueView, n: nat)
    requires
        q.wf(),
        n <= q.to_commit.len(),
    ensures
        after_commits(q, n).wf(),
        after_commits(q, n).to_commit == q.to_commit.skip(n as int),
        after_commits(q, n).to_update_ledger == q.to_update_ledger,
        after_commits(q, n).latest_state == q.latest_state,
        n > 0 ==> after_commits(q, n).committed_version() == q.to_commit[n - 1].next_version(),
        n < q.to_commit.len() ==> after_commits(q, n).committed_version()
            == q.to_commit[n as int].first_version(),
    decreases n,
{
    if n == 0 {
        assert(q.to_commit.skip(0) == q.to_commit);
    } else {
        let head = q.to_commit[0];
        let next = q.dequeue_committed(head.result_state)->Ok_0.0;
        lemma_steps_keep_wf(q, arbitrary(), arbitrary(), head.result_state);
        assert(head.wf());
        assert(next.to_commit == q.to_commit.skip(1));
        lemma_commits_in_order(next, (n - 1) as nat);
        assert(q.to_commit.skip(1).skip(n - 1) == q.to_commit.skip(n as int));
        if n - 1 > 0 {
            assert(next.to_commit[n - 2] == q.to_commit[n - 1]);
        }
        if n < q.to_commit.len() {
            assert(next.to_commit[n - 1] == q.to_commit[n as int]);
        }
    }
}

/// The chunks on their way to the ledger, in two stages, and the versions
/// that the pipeline has reached.
pub struct ChunkCommitQueue {
    persisted_state: StateDelta,
    latest_state: StateDelta,
    latest_txn_accumulator: AccumulatorSummary,
    to_commit: VecDeque<ExecutedChunk>,
    to_update_ledger: VecDeque<ChunkToUpdateLedger>,
}

impl View for ChunkCommitQueue {
    type V = CommitQueueView;

    closed spec fn view(&self) -> CommitQueueView {
        CommitQueueView {
            persisted_state: self.persisted_state,
            latest_state: self.latest_state,
            latest_txn_accumulator: self.latest_txn_accumulator,
            to_commit: self.to_commit@,
            to_update_ledger: self.to_update_ledger@,
        }
    }
}

impl ChunkCommitQueue {
    pub open spec fn wf(&self) -> bool {
        self@.wf()
    }

    /// The queue of a store that holds `summary`, with nothing staged.
    pub fn new(summary: ExecutedTrees) -> (r: Result<Self, Error>)
        ensures
            match r {
                Ok(q) => summary.is_consistent() && q@ == CommitQueueView::fresh(summary) && q.wf(),
                Err(e) => !summary.is_consistent() && e == Error::InconsistentLedgerSummary,
            },
    {
        if !summary.is_consistent() {
            return Err(Error::InconsistentLedgerSummary);
        }
        let q = ChunkCommitQueue {
            persisted_state: summary.state,
            latest_state: summary.state,
            latest_txn_accumulator: summary.transaction_accumulator,
            to_commit: VecDeque::new(),
            to_update_ledger: VecDeque::new(),
        };
        assert(q@ == CommitQueueView::fresh(summary));
        Ok(q)
    }

    /// The state after everything that was staged.
    pub fn latest_state(&self) -> (s: StateDelta)
        ensures
            s == self@.latest_state,
    {
        self.latest_state
    }

    /// The state that the store holds.
    pub fn persisted_state(&self) -> (s: StateDelta)
        ensures
            s == self@.persisted_state,
    {
        self.persisted_state
    }

    /// The version that the next chunk has to start at.
    pub fn latest_staged_version(&self) -> (v: Version)
        ensures
            v == self@.latest_staged_version(),
    {
        self.latest_state.next_version()
    }

    /// The version after the last committed chunk.
    pub fn committed_version(&self) -> (v: Version)
        ensures
            v == self@.committed_version(),
    {
        self.persisted_state.next_version()
    }

    /// The number of records that await their ledger update.
    pub fn num_to_update_ledger(&self) -> (n: usize)
        ensures
            n == self@.to_update_ledger.len(),
    {
        self.to_update_ledger.len()
    }

    /// The number of chunks that await commit.
    pub fn num_to_commit(&self) -> (n: usize)
        ensures
            n == self@.to_commit.len(),
    {
        self.to_commit.len()
    }

    /// State and accumulator after everything staged, where no ledger update is pending.
    pub fn expect_latest_view(&self) -> (r: Result<ExecutedTrees, Error>)
        ensures
            r == self@.expect_latest_view(),
            self.wf() && r is Ok ==> r->Ok_0.is_consistent(),
    {
        if self.to_update_ledger.len() > 0 {
            return Err(Error::PendingLedgerUpdate);
        }
        proof {
            if self.wf() && self@.to_commit.len() > 0 {
                assert(self@.to_commit.last().wf());
            }
        }
        Ok(ExecutedTrees::new(self.latest_state, self.latest_txn_accumulator))
    }

    /// Appends a record to the first stage.
    pub fn enqueue_for_ledger_update(&mut self, chunk_to_update_ledger: ChunkToUpdateLedger) -> (r:
        Result<(), Error>)
        requires
            old(self).wf(),
        ensures
            final(self).wf(),
            match old(self)@.enqueue_for_ledger_update(chunk_to_update_ledger) {
                Ok(next) => r is Ok && final(self)@ == next,
                Err(e) => r == Err::<(), Error>(e) && final(self)@ == old(self)@,
            },
    {
        let found: Version = chunk_to_update_ledger.result_state.next_version();
        let expected_version: Version = self.latest_state.next_version();
        if found < expected_version {
            return Err(Error::VersionRegression { found, expected_version });
        }
        proof {
            lemma_steps_keep_wf(
                self@,
                chunk_to_update_ledger,
                arbitrary(),
                arbitrary(),
            );
        }
        self.latest_state = chunk_to_update_ledger.result_state;
        self.to_update_ledger.push_back(chunk_to_update_ledger);
        Ok(())
    }

    /// The oldest record of the first stage, with the accumulator that its
    /// ledger update starts from. The record stays until its output is saved.
    pub fn next_chunk_to_update_ledger(&self) -> (r: Result<
        (AccumulatorSummary, &ChunkToUpdateLedger),
        Error,
    >)
        ensures
            match self@.next_chunk_to_update_ledger() {
                Ok((accumulator, chunk)) => r is Ok && r->Ok_0.0 == accumulator && *r->Ok_0.1
                    == chunk,
                Err(e) => r is Err && r->Err_0 == e,
            },
    {
        if self.to_update_ledger.len() == 0 {
            return Err(Error::NoChunkToUpdateLedger);
        }
        Ok((self.latest_txn_accumulator, &self.to_update_ledger[0]))
    }

    /// Moves the oldest record of the first stage on: its finalized chunk
    /// enters the second stage.
    pub fn save_ledger_update_output(&mut self, chunk: ExecutedChunk) -> (r: Result<(), Error>)
        requires
            old(self).wf(),
        ensures
            final(self).wf(),
            match old(self)@.save_ledger_update_output(chunk) {
                Ok(next) => r is Ok && final(self)@ == next,
                Err(e) => r == Err::<(), Error>(e) && final(self)@ == old(self)@,
            },
    {
        if self.to_update_ledger.len() == 0 {
            return Err(Error::NoChunkToUpdateLedger);
        }
        if chunk.result_state != self.to_update_ledger[0].result_state {
            return Err(Error::ResultStateMismatch);
        }
        if !chunk.is_consistent() {
            return Err(Error::InconsistentChunk);
        }
        let expected_version: Version = self.latest_txn_accumulator.num_leaves;
        if !chunk.begins_at(expected_version) {
            return Err(Error::OutOfOrderChunk { expected_version });
        }
        proof {
            lemma_steps_keep_wf(self@, arbitrary(), chunk, arbitrary());
        }
        self.latest_txn_accumulator = chunk.ledger_update_output.transaction_accumulator;
        let _ = self.to_update_ledger.pop_front();
        self.to_commit.push_back(chunk);
        proof {
            assert(self@.to_update_ledger == old(self)@.to_update_ledger.drop_first());
        }
        Ok(())
    }

    /// The oldest chunk of the second stage, with the persisted state that it
    /// is written on top of. The chunk stays until it is dequeued.
    pub fn next_chunk_to_commit(&self) -> (r: Result<(StateDelta, &ExecutedChunk), Error>)
        ensures
            match self@.next_chunk_to_commit() {
                Ok((persisted, chunk)) => r is Ok && r->Ok_0.0 == persisted && *r->Ok_0.1 == chunk,
                Err(e) => r is Err && r->Err_0 == e,
            },
            self.wf() && r is Ok ==> r->Ok_0.1.wf() && r->Ok_0.1.first_version()
                == self@.committed_version(),
    {
        if self.to_commit.len() == 0 {
            return Err(Error::NoChunkToCommit);
        }
        proof {
            if self.wf() {
                assert(self@.to_commit[0].wf());
            }
        }
        Ok((self.persisted_state, &self.to_commit[0]))
    }

    /// Puts a chunk into the second stage at once. For chunks whose ledger
    /// update is already done, while nothing awaits its ledger update.
    pub fn enqueue_chunk_to_commit_directly(&mut self, chunk: ExecutedChunk) -> (r: Result<
        (),
        Error,
    >)
        requires
            old(self).wf(),
        ensures
            final(self).wf(),
            match old(self)@.enqueue_chunk_to_commit_directly(chunk) {
                Ok(next) => r is Ok && final(self)@ == next,
                Err(e) => r == Err::<(), Error>(e) && final(self)@ == old(self)@,
            },
    {
        if self.to_update_ledger.len() > 0 {
            return Err(Error::PendingLedgerUpdate);
        }
        if !chunk.is_consistent() {
            return Err(Error::InconsistentChunk);
        }
        let expected_version: Version = self.latest_txn_accumulator.num_leaves;
        if !chunk.begins_at(expected_version) {
            return Err(Error::OutOfOrderChunk { expected_version });
        }
        proof {
            lemma_steps_keep_wf(self@, arbitrary(), chunk, arbitrary());
        }
        self.latest_state = chunk.result_state;
        self.latest_txn_accumulator = chunk.ledger_update_output.transaction_accumulator;
        self.to_commit.push_back(chunk);
        Ok(())
    }

    /// Takes the oldest chunk out of the second stage after it was written,
    /// and moves the committed version to its end.
    pub fn dequeue_committed(&mut self, latest_state: StateDelta) -> (r: Result<
        ExecutedChunk,
        Error,
    >)
        requires
            old(self).wf(),
        ensures
            final(self).wf(),
            match old(self)@.dequeue_committed(latest_state) {
                Ok((next, chunk)) => r == Ok::<ExecutedChunk, Error>(chunk) && final(self)@ == next
                    && chunk.wf() && chunk.first_version() == old(self)@.committed_version()
                    && final(self)@.committed_version() == chunk.next_version(),
                Err(e) => r == Err::<ExecutedChunk, Error>(e) && final(self)@ == old(self)@,
            },
    {
        if self.to_commit.len() == 0 {
            return Err(Error::NoChunkToCommit);
        }
        if latest_state != self.to_commit[0].result_state {
            return Err(Error::ResultStateMismatch);
        }
        proof {
            lemma_steps_keep_wf(self@, arbitrary(), arbitrary(), latest_state);
            assert(self@.to_commit[0].wf());
        }
        let chunk = self.to_commit.pop_front().unwrap();
        self.persisted_state = latest_state;
        proof {
            assert(self@.to_commit == old(self)@.to_commit.drop_first());
        }
        Ok(chunk)
    }
}

} // verus!
