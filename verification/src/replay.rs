//! Replay of recorded history, epoch by epoch and batch by batch.
//!
//! A replay is a machine that is driven from outside. It says what the next
//! step is (run a batch again and compare, or apply a batch from its
//! records); the caller has the step done and hands in what came of it. No
//! batch crosses the end of an epoch, and a version that is marked to skip
//! is a batch of its own that is never run again.

use crate::chunk::{
    infos_match, lemma_combine, lemma_infos_match_iff_equal, ExecutedChunk, ExecutedChunkView,
};
use crate::epochs::{epoch_flags, epochs_of, lemma_epochs_of_is_partition, partition_epochs};
use crate::error::Error;
use crate::outside::zip_versions;
use crate::types::{
    known_state_checkpoints_of, ContractEvent, ExecutedTrees, HashValue, Transaction,
    TransactionInfo, TransactionOutput, TransactionStatus, Version, WriteSet,
};
use crate::verify_mode::{batch_end, lemma_batch_end, VerifyExecutionMode};
use vstd::prelude::*;

verus! {

/// What a replay does next.
#[derive(Clone, Copy, Debug, PartialEq, Eq, Structural)]
pub enum ReplayStep {
    /// Run the transactions of `begin..end` again on the latest view, and
    /// compare each output with the record of its version.
    Verify { begin: Version, end: Version },
    /// Apply the recorded outputs of `begin..end` to the latest view.
    Apply { begin: Version, end: Version },
    /// Nothing is left to replay.
    Finished,
}

/// What came of applying a batch of recorded outputs to the ledger.
#[derive(Debug)]
pub enum ApplyWork {
    /// The outputs could not be applied to the state.
    OutputsNotApplied(String),
    /// The ledger update could not be computed.
    LedgerNotUpdated(String),
    /// The batch was applied.
    Applied { executed_batch: ExecutedChunk, to_discard: Vec<Transaction>, to_retry: Vec<Transaction> },
}

/// The first place from `from` on, below `limit`, at which a verdict reports
/// a mismatch; or the place at which the verdicts or the limit end.
pub open spec fn first_mismatch_from(verdicts: Seq<Result<(), String>>, limit: int, from: int) -> int
    decreases limit - from,
{
    if from >= limit || from >= verdicts.len() || verdicts[from] is Err {
        from
    } else {
        first_mismatch_from(verdicts, limit, from + 1)
    }
}

/// The first mismatch lies at or after `from`, below the limit and the end
/// of the verdicts, and no verdict before it reports one.
pub proof fn lemma_first_mismatch(verdicts: Seq<Result<(), String>>, limit: int, from: int)
    requires
        0 <= from <= limit,
        from <= verdicts.len(),
    ensures
        from <= first_mismatch_from(verdicts, limit, from) <= limit,
        first_mismatch_from(verdicts, limit, from) <= verdicts.len(),
        forall|i: int| from <= i < first_mismatch_from(verdicts, limit, from) ==> verdicts[i] is Ok,
        first_mismatch_from(verdicts, limit, from) < limit && first_mismatch_from(
            verdicts,
            limit,
            from,
        ) < verdicts.len() ==> verdicts[first_mismatch_from(verdicts, limit, from)] is Err,
    decreases limit - from,
{
    if from >= limit || from >= verdicts.len() || verdicts[from] is Err {
    } else {
        lemma_first_mismatch(verdicts, limit, from + 1);
    }
}

/// Where no verdict reports a mismatch, the first mismatch is where the
/// verdicts or the limit end.
pub proof fn lemma_no_mismatch(verdicts: Seq<Result<(), String>>, limit: int, from: int)
    requires
        0 <= from <= limit,
        from <= verdicts.len(),
        forall|i: int| 0 <= i < verdicts.len() ==> verdicts[i] is Ok,
    ensures
        first_mismatch_from(verdicts, limit, from) == if limit <= verdicts.len() {
            limit
        } else {
            verdicts.len() as int
        },
    decreases limit - from,
{
    if from >= limit || from >= verdicts.len() {
    } else {
        lemma_no_mismatch(verdicts, limit, from + 1);
    }
}

/// A replay in progress, as mathematical values.
pub struct ReplayView {
    /// The recorded transactions, the first of them at `chunk_begin`.
    pub transactions: Seq<Transaction>,
    /// The recorded info of each transaction.
    pub transaction_infos: Seq<TransactionInfo>,
    /// The recorded writes of each transaction.
    pub write_sets: Seq<WriteSet>,
    /// The recorded events of each transaction.
    pub event_vecs: Seq<Vec<ContractEvent>>,
    /// The version of the first transaction.
    pub chunk_begin: Version,
    /// The epochs that the versions fall into.
    pub epochs: Seq<(Version, Version)>,
    /// The epoch that the replay is in.
    pub epoch_index: nat,
    /// The first version that is not applied yet.
    pub batch_begin: Version,
    /// Where the batch at `batch_begin` ends, once it was run again.
    pub verified_until: Option<Version>,
    /// The versions that are not run again.
    pub txns_to_skip: Set<Version>,
    /// Whether batches are run again before they are applied.
    pub should_verify: bool,
    /// Whether a mismatch is only noted.
    pub lazy_quit: bool,
    /// The number of mismatches that were noted.
    pub num_errors: u64,
    /// Everything applied so far, as one chunk.
    pub executed_chunk: Option<ExecutedChunkView>,
    /// State and accumulator after everything applied so far.
    pub latest_view: ExecutedTrees,
}

impl ReplayView {
    /// The version after the last recorded transaction.
    pub open spec fn chunk_end(self) -> int {
        self.chunk_begin + self.transactions.len()
    }

    /// The recorded infos of the versions `begin..end`.
    pub open spec fn infos_of(self, begin: int, end: int) -> Seq<TransactionInfo> {
        self.transaction_infos.subrange(begin - self.chunk_begin, end - self.chunk_begin)
    }

    /// Where the epoch that the replay is in ends.
    pub open spec fn epoch_end(self) -> Version {
        self.epochs[self.epoch_index as int].1
    }

    pub open spec fn wf(self) -> bool {
        &&& self.transaction_infos.len() == self.transactions.len()
        &&& self.write_sets.len() == self.transactions.len()
        &&& self.event_vecs.len() == self.transactions.len()
        &&& self.chunk_end() <= u64::MAX
        &&& self.epochs == epochs_of(self.chunk_begin, epoch_flags(self.event_vecs))
        &&& self.epoch_index <= self.epochs.len()
        &&& self.chunk_begin <= self.batch_begin <= self.chunk_end()
        &&& if self.epoch_index < self.epochs.len() {
            self.epochs[self.epoch_index as int].0 <= self.batch_begin < self.epoch_end()
        } else {
            self.batch_begin == self.chunk_end()
        }
        &&& self.should_verify || self.txns_to_skip == Set::<Version>::empty()
        &&& self.lazy_quit ==> self.should_verify
        &&& match self.verified_until {
            Some(until) => self.should_verify && self.epoch_index < self.epochs.len()
                && !self.txns_to_skip.contains(self.batch_begin) && self.batch_begin < until
                <= batch_end(self.txns_to_skip, self.batch_begin, self.epoch_end()),
            None => true,
        }
        &&& self.latest_view.is_consistent()
        &&& self.latest_view.num_transactions() == self.batch_begin
        &&& match self.executed_chunk {
            Some(chunk) => chunk.wf() && chunk.first_version() == self.chunk_begin
                && chunk.result_view() == self.latest_view && chunk.transaction_infos()
                == self.infos_of(self.chunk_begin as int, self.batch_begin as int),
            None => self.batch_begin == self.chunk_begin,
        }
    }

    /// What the replay does next.
    ///
    /// A version to skip is applied alone. Any other batch runs to the next
    /// version to skip or to the end of the epoch; where batches are
    /// verified, it is first run again, and then applied as far as the
    /// verification went.
    pub open spec fn step(self) -> ReplayStep {
        if self.epoch_index >= self.epochs.len() {
            ReplayStep::Finished
        } else if self.txns_to_skip.contains(self.batch_begin) {
            ReplayStep::Apply {
                begin: self.batch_begin,
                end: (self.batch_begin + 1) as Version,
            }
        } else if self.should_verify {
            match self.verified_until {
                Some(until) => ReplayStep::Apply { begin: self.batch_begin, end: until },
                None => ReplayStep::Verify {
                    begin: self.batch_begin,
                    end: batch_end(self.txns_to_skip, self.batch_begin, self.epoch_end()),
                },
            }
        } else {
            ReplayStep::Apply {
                begin: self.batch_begin,
                end: batch_end(self.txns_to_skip, self.batch_begin, self.epoch_end()),
            }
        }
    }

    /// The replay after a batch was run again, and the version up to which
    /// the batch is to be applied.
    ///
    /// The outputs are compared as far as there are outputs. Where none
    /// differs from its record, the whole batch is applied. At the first that
    /// differs, a strict replay fails; a lazy one notes the error and applies
    /// the batch up to and with that version.
    pub open spec fn verify_execution(
        self,
        executed: Result<Vec<Result<(), String>>, String>,
    ) -> Result<(ReplayView, Version), Error> {
        match self.step() {
            ReplayStep::Verify { begin, end } => match executed {
                Err(e) => Err(Error::ExecutionFailed(e)),
                Ok(verdicts) => {
                    let at = first_mismatch_from(verdicts@, end - begin, 0);
                    if at < end - begin && at < verdicts@.len() {
                        if self.lazy_quit {
                            Ok(
                                (
                                    ReplayView {
                                        verified_until: Some((begin + at + 1) as Version),
                                        num_errors: if self.num_errors < u64::MAX {
                                            (self.num_errors + 1) as u64
                                        } else {
                                            u64::MAX
                                        },
                                        ..self
                                    },
                                    (begin + at + 1) as Version,
                                ),
                            )
                        } else {
                            Err(
                                Error::ReplayMismatch {
                                    version: (begin + at) as Version,
                                    message: verdicts@[at]->Err_0,
                                },
                            )
                        }
                    } else {
                        Ok((ReplayView { verified_until: Some(end), ..self }, end))
                    }
                },
            },
            _ => Err(Error::OutOfStep),
        }
    }

    /// The batch that applying `begin..end` led to, or why there is none.
    /// Nothing may be discarded or retried, the infos have to be the recorded
    /// ones, and the batch has to begin at `begin`.
    pub open spec fn applied_batch(self, begin: Version, end: Version, work: ApplyWork) -> Result<
        ExecutedChunk,
        Error,
    > {
        match work {
            ApplyWork::OutputsNotApplied(e) => Err(Error::ExecutionFailed(e)),
            ApplyWork::LedgerNotUpdated(e) => Err(Error::LedgerUpdateFailed(e)),
            ApplyWork::Applied { executed_batch, to_discard, to_retry } => {
                let matched = infos_match(
                    executed_batch@.transaction_infos(),
                    self.infos_of(begin as int, end as int),
                );
                if to_discard@.len() > 0 {
                    Err(Error::UnexpectedDiscard)
                } else if to_retry@.len() > 0 {
                    Err(Error::UnexpectedRetry)
                } else if matched is Err {
                    Err(matched->Err_0)
                } else if !executed_batch.wf() {
                    Err(Error::InconsistentChunk)
                } else if executed_batch.first_version() != begin {
                    Err(Error::OutOfOrderChunk { expected_version: begin })
                } else {
                    Ok(executed_batch)
                }
            },
        }
    }

    /// The replay after a batch was applied.
    pub open spec fn remove_and_apply(self, work: ApplyWork) -> Result<ReplayView, Error> {
        match self.step() {
            ReplayStep::Apply { begin, end } => match self.applied_batch(begin, end, work) {
                Err(e) => Err(e),
                Ok(batch) => Ok(
                    ReplayView {
                        executed_chunk: Some(
                            match self.executed_chunk {
                                Some(chunk) => chunk.combine(batch@),
                                None => batch@,
                            },
                        ),
                        latest_view: batch@.result_view(),
                        batch_begin: end,
                        verified_until: None,
                        epoch_index: if end == self.epoch_end() {
                            self.epoch_index + 1
                        } else {
                            self.epoch_index
                        },
                        ..self
                    },
                ),
            },
            _ => Err(Error::OutOfStep),
        }
    }

    /// The versions that are not applied yet.
    pub open spec fn remaining(self) -> int {
        self.chunk_end() - self.batch_begin
    }
}

/// The next step of a replay lies in the epoch that the replay is in, and
/// is not empty.
pub proof fn lemma_step_in_epoch(v: ReplayView)
    requires
        v.wf(),
    ensures
        match v.step() {
            ReplayStep::Verify { begin, end } => begin == v.batch_begin && begin < end
                <= v.epoch_end() && v.epoch_end() <= v.chunk_end(),
            ReplayStep::Apply { begin, end } => begin == v.batch_begin && begin < end
                <= v.epoch_end() && v.epoch_end() <= v.chunk_end(),
            ReplayStep::Finished => v.batch_begin == v.chunk_end(),
        },
{
    if v.epoch_index < v.epochs.len() {
        lemma_epochs_of_is_partition(v.chunk_begin, epoch_flags(v.event_vecs));
        let epoch = v.epochs[v.epoch_index as int];
        assert(v.chunk_begin <= epoch.0 < epoch.1 <= v.chunk_end());
        lemma_batch_end(v.txns_to_skip, v.batch_begin, v.epoch_end());
    }
}

/// A version that is marked to skip is never run again, and is applied as a
/// batch that holds nothing else.
pub proof fn lemma_skipped_versions_are_isolated(v: ReplayView, version: Version)
    requires
        v.wf(),
        v.txns_to_skip.contains(version),
    ensures
        match v.step() {
            ReplayStep::Verify { begin, end } => !(begin <= version < end),
            ReplayStep::Apply { begin, end } => begin <= version < end ==> begin == version && end
                == version + 1,
            ReplayStep::Finished => true,
        },
{
    if v.epoch_index < v.epochs.len() {
        lemma_step_in_epoch(v);
        lemma_batch_end(v.txns_to_skip, v.batch_begin, v.epoch_end());
    }
}

/// Where every output that was produced matches its record, the replay
/// reports no error, strict or lazy: the whole batch is to be applied, and
/// no error is noted that was not noted before.
pub proof fn lemma_matching_outputs_report_no_error(v: ReplayView, verdicts: Vec<Result<(), String>>)
    requires
        v.wf(),
        v.step() is Verify,
        forall|i: int| 0 <= i < verdicts@.len() ==> verdicts@[i] is Ok,
    ensures
        v.verify_execution(Ok(verdicts)) is Ok,
        v.verify_execution(Ok(verdicts))->Ok_0.1 == v.step()->Verify_end,
        v.verify_execution(Ok(verdicts))->Ok_0.0.num_errors == v.num_errors,
{
    lemma_step_in_epoch(v);
    let begin = v.step()->Verify_begin;
    let end = v.step()->Verify_end;
    lemma_no_mismatch(verdicts@, end - begin, 0);
}

/// A batch that is applied had nothing discarded and nothing to retry, and
/// produced exactly the recorded infos of its versions.
pub proof fn lemma_applied_batch_keeps_every_transaction(v: ReplayView, work: ApplyWork)
    requires
        v.remove_and_apply(work) is Ok,
    ensures
        v.step() matches ReplayStep::Apply { begin, end } && work matches ApplyWork::Applied {
            executed_batch,
            to_discard,
            to_retry,
        } && to_discard@.len() == 0 && to_retry@.len() == 0 && executed_batch@.transaction_infos()
            == v.infos_of(begin as int, end as int),
{
    match (v.step(), work) {
        (
            ReplayStep::Apply { begin, end },
            ApplyWork::Applied { executed_batch, to_discard, to_retry },
        ) => {
            lemma_infos_match_iff_equal(
                executed_batch@.transaction_infos(),
                v.infos_of(begin as int, end as int),
            );
        },
        _ => {},
    }
}

/// Every step of a well-formed replay leads to a well-formed replay, and
/// applying a batch brings the replay closer to its end.
pub proof fn lemma_steps_keep_wf(
    v: ReplayView,
    executed: Result<Vec<Result<(), String>>, String>,
    work: ApplyWork,
)
    requires
        v.wf(),
    ensures
        v.verify_execution(executed) is Ok ==> v.verify_execution(executed)->Ok_0.0.wf()
            && v.verify_execution(executed)->Ok_0.0.step() == (ReplayStep::Apply {
            begin: v.batch_begin,
            end: v.verify_execution(executed)->Ok_0.1,
        }),
        v.remove_and_apply(work) is Ok ==> v.remove_and_apply(work)->Ok_0.wf()
            && v.remove_and_apply(work)->Ok_0.remaining() < v.remaining(),
{
    lemma_step_in_epoch(v);
    if v.verify_execution(executed) is Ok {
        let begin = v.step()->Verify_begin;
        let end = v.step()->Verify_end;
        lemma_first_mismatch(executed->Ok_0@, end - begin, 0);
    }
    if v.remove_and_apply(work) is Ok {
        let next = v.remove_and_apply(work)->Ok_0;
        let begin = v.step()->Apply_begin;
        let end = v.step()->Apply_end;
        let batch = v.applied_batch(begin, end, work)->Ok_0;
        let expected = v.infos_of(begin as int, end as int);
        lemma_infos_match_iff_equal(batch@.transaction_infos(), expected);
        assert(batch@.to_commit.len() == batch@.transaction_infos().len());
        assert(batch@.next_version() == end);
        lemma_epochs_of_is_partition(v.chunk_begin, epoch_flags(v.event_vecs));
        if end == v.epoch_end() {
            if v.epoch_index + 1 < v.epochs.len() {
                assert(v.epochs[v.epoch_index as int].1 == v.epochs[(v.epoch_index + 1) as int].0);
                assert(v.epochs[(v.epoch_index + 1) as int].0 < v.epochs[(v.epoch_index + 1) as int].1);
            } else {
                assert(v.epochs.last() == v.epochs[v.epoch_index as int]);
            }
        }
        match v.executed_chunk {
            Some(chunk) => {
                lemma_combine(chunk, batch@);
                assert(v.infos_of(v.chunk_begin as int, begin as int) + expected =~= v.infos_of(
                    v.chunk_begin as int,
                    end as int,
                ));
            },
            None => {},
        }
        assert(next.wf());
    }
}

/// A replay of recorded transactions on top of a ledger.
pub struct Replay {
    transactions: Vec<Transaction>,
    transaction_infos: Vec<TransactionInfo>,
    write_sets: Vec<WriteSet>,
    event_vecs: Vec<Vec<ContractEvent>>,
    chunk_begin: Version,
    epochs: Vec<(Version, Version)>,
    epoch_index: usize,
    batch_begin: Version,
    verified_until: Option<Version>,
    mode: VerifyExecutionMode,
    executed_chunk: Option<ExecutedChunk>,
    latest_view: ExecutedTrees,
}

impl View for Replay {
    type V = ReplayView;

    closed spec fn view(&self) -> ReplayView {
        ReplayView {
            transactions: self.transactions@,
            transaction_infos: self.transaction_infos@,
            write_sets: self.write_sets@,
            event_vecs: self.event_vecs@,
            chunk_begin: self.chunk_begin,
            epochs: self.epochs@,
            epoch_index: self.epoch_index as nat,
            batch_begin: self.batch_begin,
            verified_until: self.verified_until,
            txns_to_skip: self.mode.spec_txns_to_skip(),
            should_verify: self.mode.spec_should_verify(),
            lazy_quit: self.mode.spec_is_lazy_quit(),
            num_errors: self.mode.spec_num_errors(),
            executed_chunk: match self.executed_chunk {
                Some(chunk) => Some(chunk@),
                None => None,
            },
            latest_view: self.latest_view,
        }
    }
}

/// The replay that `Replay::new` starts, or why it starts none. Each record
/// list has to reach as far as the transactions do; what it holds beyond
/// them is left aside.
pub open spec fn new_replay(
    latest_view: ExecutedTrees,
    transactions: Seq<Transaction>,
    transaction_infos: Seq<TransactionInfo>,
    write_sets: Seq<WriteSet>,
    event_vecs: Seq<Vec<ContractEvent>>,
    mode: VerifyExecutionMode,
) -> Result<ReplayView, Error> {
    let n = transactions.len() as int;
    if !latest_view.is_consistent() {
        Err(Error::InconsistentLedgerSummary)
    } else if transaction_infos.len() < n || write_sets.len() < n || event_vecs.len() < n {
        Err(Error::ReplayInputTooShort)
    } else if latest_view.num_transactions() + n > u64::MAX {
        Err(Error::VersionOverflow)
    } else {
        Ok(
            ReplayView {
                transactions,
                transaction_infos: transaction_infos.take(n),
                write_sets: write_sets.take(n),
                event_vecs: event_vecs.take(n),
                chunk_begin: latest_view.num_transactions(),
                epochs: epochs_of(latest_view.num_transactions(), epoch_flags(event_vecs.take(n))),
                epoch_index: 0,
                batch_begin: latest_view.num_transactions(),
                verified_until: None,
                txns_to_skip: mode.spec_txns_to_skip(),
                should_verify: mode.spec_should_verify(),
                lazy_quit: mode.spec_is_lazy_quit(),
                num_errors: mode.spec_num_errors(),
                executed_chunk: None,
                latest_view,
            },
        )
    }
}

impl Replay {
    pub open spec fn wf(&self) -> bool {
        self@.wf()
    }

    /// Starts the replay of recorded transactions on top of `latest_view`.
    pub fn new(
        latest_view: ExecutedTrees,
        transactions: Vec<Transaction>,
        transaction_infos: Vec<TransactionInfo>,
        write_sets: Vec<WriteSet>,
        event_vecs: Vec<Vec<ContractEvent>>,
        mode: VerifyExecutionMode,
    ) -> (r: Result<Replay, Error>)
        ensures
            match new_replay(
                latest_view,
                transactions@,
                transaction_infos@,
                write_sets@,
                event_vecs@,
                mode,
            ) {
                Ok(view) => r is Ok && r->Ok_0@ == view && r->Ok_0.wf(),
                Err(e) => r is Err && r->Err_0 == e,
            },
    {
        let n: usize = transactions.len();
        if !latest_view.is_consistent() {
            return Err(Error::InconsistentLedgerSummary);
        }
        if transaction_infos.len() < n || write_sets.len() < n || event_vecs.len() < n {
            return Err(Error::ReplayInputTooShort);
        }
        let chunk_begin: Version = latest_view.num_transactions();
        if n as u64 > u64::MAX - chunk_begin {
            return Err(Error::VersionOverflow);
        }
        let mut transaction_infos = transaction_infos;
        let mut write_sets = write_sets;
        let mut event_vecs = event_vecs;
        transaction_infos.truncate(n);
        write_sets.truncate(n);
        event_vecs.truncate(n);
        let epochs = partition_epochs(chunk_begin, &event_vecs);
        proof {
            let flags = epoch_flags(event_vecs@);
            assert(flags.len() == n);
            if epochs@.len() > 0 {
                assert(epochs@[0].0 < epochs@[0].1);
            }
        }
        if !mode.should_verify() {
            assert(mode.spec_txns_to_skip() == Set::<Version>::empty());
        }
        let replay = Replay {
            transactions,
            transaction_infos,
            write_sets,
            event_vecs,
            chunk_begin,
            epochs,
            epoch_index: 0,
            batch_begin: chunk_begin,
            verified_until: None,
            mode,
            executed_chunk: None,
            latest_view,
        };
        Ok(replay)
    }

    /// What the replay does next.
    pub fn next_step(&self) -> (step: ReplayStep)
        requires
            self.wf(),
        ensures
            step == self@.step(),
    {
        if self.epoch_index >= self.epochs.len() {
            return ReplayStep::Finished;
        }
        proof {
            lemma_step_in_epoch(self@);
        }
        let begin: Version = self.batch_begin;
        let epoch_end: Version = self.epochs[self.epoch_index].1;
        if self.mode.skips(begin) {
            return ReplayStep::Apply { begin, end: begin + 1 };
        }
        if self.mode.should_verify() {
            match self.verified_until {
                Some(until) => ReplayStep::Apply { begin, end: until },
                None => ReplayStep::Verify { begin, end: self.mode.batch_end(begin, epoch_end) },
            }
        } else {
            ReplayStep::Apply { begin, end: self.mode.batch_end(begin, epoch_end) }
        }
    }

    /// State and accumulator after everything applied so far.
    pub fn latest_view(&self) -> (view: ExecutedTrees)
        ensures
            view == self@.latest_view,
    {
        self.latest_view
    }

    /// The number of mismatches that were noted.
    pub fn num_errors(&self) -> (n: u64)
        ensures
            n == self@.num_errors,
    {
        self.mode.num_errors()
    }

    /// Whether a mismatch was noted.
    pub fn seen_error(&self) -> (b: bool)
        ensures
            b == (self@.num_errors > 0),
    {
        self.mode.seen_error()
    }

    /// The transactions of `begin..end`, to be run again.
    pub fn batch_to_verify(&self, begin: Version, end: Version) -> (batch: Vec<Transaction>)
        requires
            self.wf(),
            self@.chunk_begin <= begin <= end <= self@.chunk_end(),
        ensures
            batch@ == self@.transactions.subrange(
                begin - self@.chunk_begin,
                end - self@.chunk_begin,
            ),
    {
        assert(end - self.chunk_begin <= self.transactions.len());
        let from: usize = (begin - self.chunk_begin) as usize;
        let to: usize = (end - self.chunk_begin) as usize;
        let mut batch: Vec<Transaction> = Vec::new();
        let mut i: usize = from;
        while i < to
            invariant
                from <= i <= to <= self.transactions@.len(),
                batch@ == self.transactions@.subrange(from as int, i as int),
            decreases to - i,
        {
            batch.push(self.transactions[i]);
            proof {
                assert(self.transactions@.subrange(from as int, i + 1)
                    == self.transactions@.subrange(from as int, i as int).push(
                    self.transactions@[i as int],
                ));
            }
            i += 1;
        }
        batch
    }

    /// The transactions of `begin..end` with their recorded outputs, and the
    /// state checkpoints that their infos vouch for: what is applied for the
    /// batch. Every output says that its transaction is kept.
    pub fn batch_to_apply(&self, begin: Version, end: Version) -> (batch: (
        Vec<(Transaction, TransactionOutput)>,
        Vec<Option<HashValue>>,
    ))
        requires
            self.wf(),
            self@.chunk_begin <= begin <= end <= self@.chunk_end(),
        ensures
            batch.0@.len() == end - begin,
            forall|i: int|
                0 <= i < end - begin ==> (#[trigger] batch.0@[i]).0 == self@.transactions[begin
                    - self@.chunk_begin + i] && batch.0@[i].1.write_set == self@.write_sets[begin
                    - self@.chunk_begin + i] && batch.0@[i].1.events@ == self@.event_vecs[begin
                    - self@.chunk_begin + i]@ && batch.0@[i].1.gas_used
                    == self@.transaction_infos[begin - self@.chunk_begin + i].gas_used
                    && batch.0@[i].1.status == TransactionStatus::Keep(
                    self@.transaction_infos[begin - self@.chunk_begin + i].status,
                ),
            batch.1@ == known_state_checkpoints_of(self@.infos_of(begin as int, end as int)),
    {
        assert(end - self.chunk_begin <= self.transactions.len());
        let from: usize = (begin - self.chunk_begin) as usize;
        let to: usize = (end - self.chunk_begin) as usize;
        let mut txns_and_outputs: Vec<(Transaction, TransactionOutput)> = Vec::new();
        let mut known_checkpoints: Vec<Option<HashValue>> = Vec::new();
        let ghost infos = self.transaction_infos@.subrange(from as int, to as int);
        let mut i: usize = from;
        while i < to
            invariant
                from <= i <= to,
                to <= self.transactions@.len(),
                self.transaction_infos@.len() == self.transactions@.len(),
                self.write_sets@.len() == self.transactions@.len(),
                self.event_vecs@.len() == self.transactions@.len(),
                infos == self.transaction_infos@.subrange(from as int, to as int),
                txns_and_outputs@.len() == i - from,
                forall|k: int|
                    0 <= k < i - from ==> (#[trigger] txns_and_outputs@[k]).0
                        == self.transactions@[from + k] && txns_and_outputs@[k].1.write_set
                        == self.write_sets@[from + k] && txns_and_outputs@[k].1.events@
                        == self.event_vecs@[from + k]@ && txns_and_outputs@[k].1.gas_used
                        == self.transaction_infos@[from + k].gas_used
                        && txns_and_outputs@[k].1.status == TransactionStatus::Keep(
                        self.transaction_infos@[from + k].status,
                    ),
                known_checkpoints@ == known_state_checkpoints_of(infos.take(i - from)),
            decreases to - i,
        {
            let info = self.transaction_infos[i];
            let events = copy_events(&self.event_vecs[i]);
            let output = TransactionOutput::new(
                self.write_sets[i],
                events,
                info.gas_used,
                TransactionStatus::Keep(info.status),
            );
            txns_and_outputs.push((self.transactions[i], output));
            known_checkpoints.push(info.state_checkpoint_hash);
            proof {
                assert(infos.take(i - from + 1) == infos.take(i - from).push(info));
            }
            i += 1;
        }
        proof {
            assert(infos.take(to - from) == infos);
        }
        (txns_and_outputs, known_checkpoints)
    }

    /// Takes in what came of running the batch of the next step again: why
    /// it could not be run, or how each output that was produced compares
    /// with the record of its version. Gives the version up to which the
    /// batch is to be applied.
    #[verifier::loop_isolation(false)]
    pub fn verify_execution(&mut self, executed: Result<Vec<Result<(), String>>, String>) -> (r:
        Result<Version, Error>)
        requires
            old(self).wf(),
        ensures
            final(self).wf(),
            match old(self)@.verify_execution(executed) {
                Ok((next, until)) => r == Ok::<Version, Error>(until) && final(self)@ == next,
                Err(e) => r == Err::<Version, Error>(e) && final(self)@ == old(self)@,
            },
    {
        let (begin, end) = match self.next_step() {
            ReplayStep::Verify { begin, end } => (begin, end),
            _ => { return Err(Error::OutOfStep); },
        };
        let mut verdicts = match executed {
            Err(e) => { return Err(Error::ExecutionFailed(e)); },
            Ok(verdicts) => verdicts,
        };
        proof {
            lemma_steps_keep_wf(self@, executed, arbitrary());
            lemma_step_in_epoch(self@);
        }
        let mut flags: Vec<bool> = Vec::new();
        let mut i: usize = 0;
        while i < verdicts.len()
            invariant
                i <= verdicts@.len(),
                flags@.len() == i,
                forall|j: int| 0 <= j < i ==> flags@[j] == (verdicts@[j] is Err),
            decreases verdicts@.len() - i,
        {
            flags.push(verdicts[i].is_err());
            i += 1;
        }
        let pairs = zip_versions(begin, end, &flags);
        let ghost limit = end - begin;
        let mut k: usize = 0;
        while k < pairs.len()
            invariant
                k <= pairs@.len(),
                begin < end,
                limit == end - begin,
                pairs@.len() <= limit,
                pairs@.len() <= verdicts@.len(),
                pairs@.len() == limit || pairs@.len() == verdicts@.len(),
                flags@.len() == verdicts@.len(),
                forall|j: int| 0 <= j < flags@.len() ==> flags@[j] == (verdicts@[j] is Err),
                forall|j: int| 0 <= j < pairs@.len() ==> (#[trigger] pairs@[j]) == (
                    (begin + j) as Version,
                    flags@[j],
                ),
                first_mismatch_from(verdicts@, limit, 0) == first_mismatch_from(
                    verdicts@,
                    limit,
                    k as int,
                ),
                verdicts == executed->Ok_0,
                *self == *old(self),
            decreases pairs@.len() - k,
        {
            let (version, mismatch) = pairs[k];
            if mismatch {
                if self.mode.is_lazy_quit() {
                    self.mode.mark_seen_error();
                    self.verified_until = Some(version + 1);
                    return Ok(version + 1);
                } else {
                    let message = verdicts.remove(k).unwrap_err();
                    return Err(Error::ReplayMismatch { version, message });
                }
            }
            k += 1;
        }
        self.verified_until = Some(end);
        Ok(end)
    }

    /// Takes in what came of applying the batch of the next step, and moves
    /// the replay behind the batch.
    pub fn remove_and_apply(&mut self, work: ApplyWork) -> (r: Result<(), Error>)
        requires
            old(self).wf(),
        ensures
            final(self).wf(),
            match old(self)@.remove_and_apply(work) {
                Ok(next) => r is Ok && final(self)@ == next,
                Err(e) => r == Err::<(), Error>(e) && final(self)@ == old(self)@,
            },
    {
        let (begin, end) = match self.next_step() {
            ReplayStep::Apply { begin, end } => (begin, end),
            _ => { return Err(Error::OutOfStep); },
        };
        proof {
            lemma_step_in_epoch(self@);
            lemma_steps_keep_wf(self@, arbitrary(), work);
        }
        let executed_batch = match work {
            ApplyWork::OutputsNotApplied(e) => { return Err(Error::ExecutionFailed(e)); },
            ApplyWork::LedgerNotUpdated(e) => { return Err(Error::LedgerUpdateFailed(e)); },
            ApplyWork::Applied { executed_batch, to_discard, to_retry } => {
                if to_discard.len() > 0 {
                    return Err(Error::UnexpectedDiscard);
                }
                if to_retry.len() > 0 {
                    return Err(Error::UnexpectedRetry);
                }
                executed_batch
            },
        };
        assert(end - self.chunk_begin <= self.transactions.len());
        let from: usize = (begin - self.chunk_begin) as usize;
        let to: usize = (end - self.chunk_begin) as usize;
        let mut txn_infos: Vec<TransactionInfo> = Vec::new();
        let mut i: usize = from;
        while i < to
            invariant
                from <= i <= to <= self.transaction_infos@.len(),
                txn_infos@ == self.transaction_infos@.subrange(from as int, i as int),
            decreases to - i,
        {
            txn_infos.push(self.transaction_infos[i]);
            proof {
                assert(self.transaction_infos@.subrange(from as int, i + 1)
                    == self.transaction_infos@.subrange(from as int, i as int).push(
                    self.transaction_infos@[i as int],
                ));
            }
            i += 1;
        }
        match executed_batch.ledger_update_output.ensure_transaction_infos_match(&txn_infos) {
            Err(e) => { return Err(e); },
            Ok(_) => {},
        }
        if !executed_batch.is_consistent() {
            return Err(Error::InconsistentChunk);
        }
        if !executed_batch.begins_at(begin) {
            return Err(Error::OutOfOrderChunk { expected_version: begin });
        }
        self.latest_view = executed_batch.result_view();
        match self.executed_chunk.take() {
            Some(chunk) => {
                let mut chunk = chunk;
                chunk.combine(executed_batch);
                self.executed_chunk = Some(chunk);
            },
            None => {
                self.executed_chunk = Some(executed_batch);
            },
        }
        self.batch_begin = end;
        self.verified_until = None;
        if end == self.epochs[self.epoch_index].1 {
            assert(self.epoch_index < self.epochs.len());
            self.epoch_index = self.epoch_index + 1;
        }
        Ok(())
    }

    /// Ends a replay that has nothing left to do, and hands out everything
    /// that was applied as one chunk, with the mode and what it noted.
    pub fn finish(self) -> (r: Result<(ExecutedChunk, VerifyExecutionMode), Error>)
        requires
            self.wf(),
        ensures
            match r {
                Ok((chunk, mode)) => self@.step() is Finished && self@.executed_chunk == Some(
                    chunk@,
                ) && chunk.wf() && chunk.first_version() == self@.chunk_begin
                    && chunk.next_version() == self@.chunk_end() && chunk@.transaction_infos()
                    == self@.transaction_infos && mode.spec_num_errors() == self@.num_errors
                    && mode.spec_txns_to_skip() == self@.txns_to_skip && mode.spec_should_verify()
                    == self@.should_verify && mode.spec_is_lazy_quit() == self@.lazy_quit,
                Err(e) => if !(self@.step() is Finished) {
                    e == Error::ReplayUnfinished
                } else {
                    self@.executed_chunk is None && e == Error::NothingToCommit
                },
            },
    {
        match self.next_step() {
            ReplayStep::Finished => {},
            _ => { return Err(Error::ReplayUnfinished); },
        }
        proof {
            lemma_step_in_epoch(self@);
            assert(self@.infos_of(self@.chunk_begin as int, self@.chunk_end())
                == self@.transaction_infos);
        }
        let Replay { executed_chunk, mode, .. } = self;
        match executed_chunk {
            Some(chunk) => Ok((chunk, mode)),
            None => Err(Error::NothingToCommit),
        }
    }
}

/// A copy of a list of events.
fn copy_events(events: &Vec<ContractEvent>) -> (copy: Vec<ContractEvent>)
    ensures
        copy@ == events@,
{
    let mut copy: Vec<ContractEvent> = Vec::new();
    let mut i: usize = 0;
    while i < events.len()
        invariant
            i <= events.len(),
            copy@ == events@.take(i as int),
        decreases events.len() - i,
    {
        copy.push(events[i]);
        proof {
            assert(events@.take(i + 1) == events@.take(i as int).push(events@[i as int]));
        }
        i += 1;
    }
    proof {
        assert(events@.take(events.len() as int) == events@);
    }
    copy
}

} // verus!
