//! Chunks on their way through the pipeline: the record that awaits its
//! ledger update, and the executed chunk that awaits commit.

use crate::error::Error;
use crate::types::{
    AccumulatorSummary, ChunkCommitNotification, ContractEvent, EpochState, ExecutedTrees,
    LedgerInfoWithSignatures, LedgerUpdateOutput, StateCheckpointOutput, StateDelta, Transaction,
    TransactionInfo, TransactionInfoListWithProof, TransactionToCommit, Version,
};
use vstd::prelude::*;

verus! {

/// The first place from `from` on at which `produced` and `expected` differ,
/// or the place at which the shorter of them ends.
pub open spec fn first_difference_from(
    produced: Seq<TransactionInfo>,
    expected: Seq<TransactionInfo>,
    from: int,
) -> int
    decreases produced.len() - from,
{
    if from >= produced.len() || from >= expected.len() || produced[from] != expected[from] {
        from
    } else {
        first_difference_from(produced, expected, from + 1)
    }
}

/// What a comparison of produced infos with the expected ones reports.
pub open spec fn infos_match(produced: Seq<TransactionInfo>, expected: Seq<TransactionInfo>)
    -> Result<(), Error> {
    let first = first_difference_from(produced, expected, 0);
    if produced.len() != expected.len() {
        Err(
            Error::TransactionInfoCountMismatch {
                produced: produced.len() as u64,
                expected: expected.len() as u64,
            },
        )
    } else if first < produced.len() {
        Err(Error::TransactionInfoMismatch { index: first as u64 })
    } else {
        Ok(())
    }
}

/// From `from` on, the first difference lies at or after `from`, within the
/// shorter sequence, and nothing differs before it.
pub proof fn lemma_first_difference(
    produced: Seq<TransactionInfo>,
    expected: Seq<TransactionInfo>,
    from: int,
)
    requires
        0 <= from <= produced.len(),
        from <= expected.len(),
    ensures
        from <= first_difference_from(produced, expected, from) <= produced.len(),
        first_difference_from(produced, expected, from) <= expected.len(),
        forall|j: int|
            from <= j < first_difference_from(produced, expected, from) ==> produced[j]
                == expected[j],
        first_difference_from(produced, expected, from) < produced.len()
            && first_difference_from(produced, expected, from) < expected.len()
            ==> produced[first_difference_from(produced, expected, from)]
            != expected[first_difference_from(produced, expected, from)],
    decreases produced.len() - from,
{
    if from >= produced.len() || from >= expected.len() || produced[from] != expected[from] {
    } else {
        lemma_first_difference(produced, expected, from + 1);
    }
}

/// The comparison succeeds exactly when the two sequences are equal.
pub proof fn lemma_infos_match_iff_equal(
    produced: Seq<TransactionInfo>,
    expected: Seq<TransactionInfo>,
)
    ensures
        infos_match(produced, expected) is Ok <==> produced == expected,
{
    lemma_first_difference(produced, expected, 0);
    if infos_match(produced, expected) is Ok {
        assert(produced =~= expected);
    }
}

/// The checkpoint that a chunk ends on, if it ends on one: the target when the
/// chunk reaches it, else the epoch-change checkpoint when one is given. Either
/// has to agree with the accumulator after the chunk, and an epoch that ends
/// has to come with its epoch-change checkpoint.
pub open spec fn select_chunk_ending_ledger_info(
    accumulator: AccumulatorSummary,
    verified_target_li: LedgerInfoWithSignatures,
    epoch_change_li: Option<LedgerInfoWithSignatures>,
    next_epoch_state: Option<EpochState>,
) -> Result<Option<LedgerInfoWithSignatures>, Error> {
    if verified_target_li.version + 1 == accumulator.num_leaves {
        if verified_target_li.transaction_accumulator_hash == accumulator.root_hash {
            Ok(Some(verified_target_li))
        } else {
            Err(Error::TargetRootHashMismatch)
        }
    } else {
        match epoch_change_li {
            Some(li) => {
                if li.version + 1 != accumulator.num_leaves {
                    Err(Error::EpochChangeVersionMismatch)
                } else if li.transaction_accumulator_hash != accumulator.root_hash {
                    Err(Error::EpochChangeRootHashMismatch)
                } else if li.next_epoch_state is None {
                    Err(Error::EpochChangeWithoutNextEpoch)
                } else if li.next_epoch_state != next_epoch_state {
                    Err(Error::EpochChangeStateMismatch)
                } else {
                    Ok(Some(li))
                }
            },
            None => {
                if next_epoch_state is Some {
                    Err(Error::MissingEpochChange)
                } else {
                    Ok(None)
                }
            },
        }
    }
}

/// The committed events that announce a new epoch, in ledger order.
pub open spec fn reconfiguration_events_of(to_commit: Seq<TransactionToCommit>) -> Seq<
    ContractEvent,
> {
    to_commit.map_values(|t: TransactionToCommit| t.events@).flatten().filter(
        |e: ContractEvent| e.reconfiguration,
    )
}

/// The transactions of a chunk, in ledger order.
pub open spec fn transactions_of(to_commit: Seq<TransactionToCommit>) -> Seq<Transaction> {
    to_commit.map_values(|t: TransactionToCommit| t.transaction)
}

impl LedgerUpdateOutput {
    /// The infos of the transactions to commit, in order.
    pub open spec fn transaction_infos(&self) -> Seq<TransactionInfo> {
        self.to_commit@.map_values(|t: TransactionToCommit| t.transaction_info)
    }

    /// The accumulator holds at least the transactions of this update.
    pub open spec fn wf(&self) -> bool {
        self.to_commit@.len() <= self.transaction_accumulator.num_leaves
    }

    /// Version of the first transaction of this update.
    pub open spec fn first_version(&self) -> int {
        self.transaction_accumulator.num_leaves - self.to_commit@.len()
    }

    /// Compares the infos of this update with the expected ones, in order.
    pub fn ensure_transaction_infos_match(&self, transaction_infos: &Vec<TransactionInfo>) -> (r:
        Result<(), Error>)
        ensures
            r == infos_match(self.transaction_infos(), transaction_infos@),
    {
        let produced: usize = self.to_commit.len();
        let expected: usize = transaction_infos.len();
        if produced != expected {
            return Err(
                Error::TransactionInfoCountMismatch {
                    produced: produced as u64,
                    expected: expected as u64,
                },
            );
        }
        let mut i: usize = 0;
        while i < produced
            invariant
                i <= produced,
                produced == self.to_commit@.len(),
                produced == transaction_infos@.len(),
                first_difference_from(self.transaction_infos(), transaction_infos@, 0)
                    == first_difference_from(
                    self.transaction_infos(),
                    transaction_infos@,
                    i as int,
                ),
            decreases produced - i,
        {
            if self.to_commit[i].transaction_info != transaction_infos[i] {
                return Err(Error::TransactionInfoMismatch { index: i as u64 });
            }
            i += 1;
        }
        Ok(())
    }

    /// Picks the checkpoint that this update ends on, if it ends on one.
    pub fn maybe_select_chunk_ending_ledger_info(
        &self,
        verified_target_li: &LedgerInfoWithSignatures,
        epoch_change_li: Option<&LedgerInfoWithSignatures>,
        next_epoch_state: Option<&EpochState>,
    ) -> (r: Result<Option<LedgerInfoWithSignatures>, Error>)
        ensures
            r == select_chunk_ending_ledger_info(
                self.transaction_accumulator,
                *verified_target_li,
                match epoch_change_li {
                    Some(li) => Some(*li),
                    None => None,
                },
                match next_epoch_state {
                    Some(s) => Some(*s),
                    None => None,
                },
            ),
    {
        let num_leaves: u64 = self.transaction_accumulator.num_leaves;
        let root_hash = self.transaction_accumulator.root_hash;
        if verified_target_li.version < u64::MAX && verified_target_li.version + 1 == num_leaves {
            if verified_target_li.transaction_accumulator_hash == root_hash {
                Ok(Some(*verified_target_li))
            } else {
                Err(Error::TargetRootHashMismatch)
            }
        } else {
            match epoch_change_li {
                Some(li) => {
                    if !(li.version < u64::MAX && li.version + 1 == num_leaves) {
                        Err(Error::EpochChangeVersionMismatch)
                    } else if li.transaction_accumulator_hash != root_hash {
                        Err(Error::EpochChangeRootHashMismatch)
                    } else {
                        match (li.next_epoch_state, next_epoch_state) {
                            (None, _) => Err(Error::EpochChangeWithoutNextEpoch),
                            (Some(_), None) => Err(Error::EpochChangeStateMismatch),
                            (Some(announced), Some(computed)) => {
                                if announced == *computed {
                                    Ok(Some(*li))
                                } else {
                                    Err(Error::EpochChangeStateMismatch)
                                }
                            },
                        }
                    }
                },
                None => {
                    if next_epoch_state.is_some() {
                        Err(Error::MissingEpochChange)
                    } else {
                        Ok(None)
                    }
                },
            }
        }
    }
}

/// The result of the first stage for one chunk: what its ledger update needs.
#[derive(Clone, Debug)]
pub struct ChunkToUpdateLedger {
    /// The state after the chunk.
    pub result_state: StateDelta,
    /// The checkpoint computation that was staged for the chunk.
    pub state_checkpoint_output: StateCheckpointOutput,
    /// The next epoch, if the chunk ends one.
    pub next_epoch_state: Option<EpochState>,
    /// The checkpoint that the caller verified the chunk against.
    pub verified_target_li: LedgerInfoWithSignatures,
    /// The checkpoint of the epoch change, if the caller has one.
    pub epoch_change_li: Option<LedgerInfoWithSignatures>,
    /// The transaction infos that the chunk's proof carries.
    pub txn_infos_with_proof: TransactionInfoListWithProof,
}

/// The result of the second stage for one chunk: what is written at commit.
#[derive(Clone, Debug)]
pub struct ExecutedChunk {
    /// The state after the chunk.
    pub result_state: StateDelta,
    /// The checkpoint that the chunk ends on, if it reaches the target or ends an epoch.
    pub ledger_info: Option<LedgerInfoWithSignatures>,
    /// The next epoch, if the chunk ends one.
    pub next_epoch_state: Option<EpochState>,
    /// The finalized ledger update.
    pub ledger_update_output: LedgerUpdateOutput,
}

/// An executed chunk as mathematical values.
pub struct ExecutedChunkView {
    pub result_state: StateDelta,
    pub ledger_info: Option<LedgerInfoWithSignatures>,
    pub next_epoch_state: Option<EpochState>,
    pub to_commit: Seq<TransactionToCommit>,
    pub transaction_accumulator: AccumulatorSummary,
}

impl ExecutedChunkView {
    /// State and accumulator after the chunk speak of the same version, and
    /// the chunk's transactions fit below it.
    pub open spec fn wf(self) -> bool {
        &&& self.to_commit.len() <= self.transaction_accumulator.num_leaves
        &&& self.result_state.next_version == self.transaction_accumulator.num_leaves
    }

    /// Version of the chunk's first transaction.
    pub open spec fn first_version(self) -> int {
        self.transaction_accumulator.num_leaves - self.to_commit.len()
    }

    /// Version after the chunk's last transaction.
    pub open spec fn next_version(self) -> int {
        self.transaction_accumulator.num_leaves as int
    }

    /// The infos of the chunk's transactions, in ledger order.
    pub open spec fn transaction_infos(self) -> Seq<TransactionInfo> {
        self.to_commit.map_values(|t: TransactionToCommit| t.transaction_info)
    }

    /// State and accumulator after the chunk.
    pub open spec fn result_view(self) -> ExecutedTrees {
        ExecutedTrees {
            state: self.result_state,
            transaction_accumulator: self.transaction_accumulator,
        }
    }

    /// This chunk with the chunk `rhs` that follows it merged in: the
    /// transactions of both, ending as `rhs` ends.
    pub open spec fn combine(self, rhs: ExecutedChunkView) -> ExecutedChunkView {
        ExecutedChunkView {
            result_state: rhs.result_state,
            ledger_info: rhs.ledger_info,
            next_epoch_state: rhs.next_epoch_state,
            to_commit: self.to_commit + rhs.to_commit,
            transaction_accumulator: rhs.transaction_accumulator,
        }
    }
}

/// Merging a chunk with the one that follows it gives a consistent chunk
/// over both version ranges, with the infos of both.
pub proof fn lemma_combine(a: ExecutedChunkView, b: ExecutedChunkView)
    requires
        a.wf(),
        b.wf(),
        b.first_version() == a.next_version(),
    ensures
        a.combine(b).wf(),
        a.combine(b).first_version() == a.first_version(),
        a.combine(b).next_version() == b.next_version(),
        a.combine(b).transaction_infos() == a.transaction_infos() + b.transaction_infos(),
{
    assert(a.combine(b).transaction_infos() =~= a.transaction_infos() + b.transaction_infos());
}

impl View for ExecutedChunk {
    type V = ExecutedChunkView;

    open spec fn view(&self) -> ExecutedChunkView {
        ExecutedChunkView {
            result_state: self.result_state,
            ledger_info: self.ledger_info,
            next_epoch_state: self.next_epoch_state,
            to_commit: self.ledger_update_output.to_commit@,
            transaction_accumulator: self.ledger_update_output.transaction_accumulator,
        }
    }
}

impl ExecutedChunk {
    /// State and accumulator after the chunk speak of the same version, and
    /// the chunk's transactions fit below it.
    pub open spec fn wf(&self) -> bool {
        self@.wf()
    }

    /// Version of the chunk's first transaction.
    pub open spec fn first_version(&self) -> int {
        self@.first_version()
    }

    /// Version after the chunk's last transaction.
    pub open spec fn next_version(&self) -> int {
        self@.next_version()
    }

    /// The chunk's transactions, in ledger order.
    pub open spec fn transactions(&self) -> Seq<Transaction> {
        transactions_of(self.ledger_update_output.to_commit@)
    }

    pub fn transactions_to_commit(&self) -> (txns: &Vec<TransactionToCommit>)
        ensures
            txns == &self.ledger_update_output.to_commit,
    {
        &self.ledger_update_output.to_commit
    }

    pub open spec fn spec_is_consistent(&self) -> bool {
        self.wf()
    }

    /// Whether the chunk's own versions agree with each other.
    #[verifier::when_used_as_spec(spec_is_consistent)]
    pub fn is_consistent(&self) -> (b: bool)
        ensures
            b == self.wf(),
    {
        let num_leaves: u64 = self.ledger_update_output.transaction_accumulator.num_leaves;
        let len: usize = self.ledger_update_output.to_commit.len();
        self.result_state.next_version == num_leaves && (len as u128) <= (num_leaves as u128)
    }

    pub open spec fn spec_begins_at(&self, version: Version) -> bool {
        self.wf() && self.first_version() == version
    }

    /// Whether the chunk is consistent and its first transaction is at `version`.
    #[verifier::when_used_as_spec(spec_begins_at)]
    pub fn begins_at(&self, version: Version) -> (b: bool)
        ensures
            b == self.spec_begins_at(version),
    {
        let num_leaves: u64 = self.ledger_update_output.transaction_accumulator.num_leaves;
        let len: usize = self.ledger_update_output.to_commit.len();
        self.result_state.next_version == num_leaves && (len as u128) <= (num_leaves as u128)
            && (num_leaves as u128) - (len as u128) == (version as u128)
    }

    pub open spec fn spec_needs_persisting(&self) -> bool {
        self.ledger_info is Some || self.ledger_update_output.to_commit@.len() > 0
    }

    /// A chunk is written to the store if it holds a transaction or ends on a checkpoint.
    #[verifier::when_used_as_spec(spec_needs_persisting)]
    pub fn needs_persisting(&self) -> (b: bool)
        ensures
            b == self.spec_needs_persisting(),
    {
        self.ledger_info.is_some() || self.ledger_update_output.to_commit.len() > 0
    }

    /// State and accumulator after the chunk.
    pub fn result_view(&self) -> (view: ExecutedTrees)
        ensures
            view.state == self.result_state,
            view.transaction_accumulator == self.ledger_update_output.transaction_accumulator,
    {
        ExecutedTrees::new(self.result_state, self.ledger_update_output.transaction_accumulator)
    }

    /// Merges the chunk that follows this one into it. The merged chunk covers
    /// both version ranges and ends as `rhs` ends.
    pub fn combine(&mut self, rhs: ExecutedChunk)
        requires
            old(self).wf(),
            rhs.wf(),
            rhs.first_version() == old(self).next_version(),
        ensures
            final(self)@ == old(self)@.combine(rhs@),
            final(self).wf(),
            final(self).first_version() == old(self).first_version(),
            final(self).next_version() == rhs.next_version(),
    {
        let ExecutedChunk { result_state, ledger_info, next_epoch_state, ledger_update_output } =
            rhs;
        let LedgerUpdateOutput { to_commit, transaction_accumulator } = ledger_update_output;
        let mut to_commit = to_commit;
        self.result_state = result_state;
        self.ledger_info = ledger_info;
        self.next_epoch_state = next_epoch_state;
        self.ledger_update_output.to_commit.append(&mut to_commit);
        self.ledger_update_output.transaction_accumulator = transaction_accumulator;
    }

    /// Turns the committed chunk into what subscribers are told of it.
    pub fn into_chunk_commit_notification(self) -> (n: ChunkCommitNotification)
        ensures
            n.committed_transactions@ == self.transactions(),
            n.reconfiguration_events@ == reconfiguration_events_of(
                self.ledger_update_output.to_commit@,
            ),
    {
        let mut committed_transactions: Vec<Transaction> = Vec::new();
        let mut reconfiguration_events: Vec<ContractEvent> = Vec::new();
        let ghost all = self.ledger_update_output.to_commit@;
        let mut i: usize = 0;
        while i < self.ledger_update_output.to_commit.len()
            invariant
                i <= all.len(),
                all == self.ledger_update_output.to_commit@,
                committed_transactions@ == transactions_of(all.take(i as int)),
                reconfiguration_events@ == reconfiguration_events_of(all.take(i as int)),
            decreases all.len() - i,
        {
            let txn = &self.ledger_update_output.to_commit[i];
            committed_transactions.push(txn.transaction);
            let ghost before = reconfiguration_events@;
            let mut j: usize = 0;
            while j < txn.events.len()
                invariant
                    j <= txn.events@.len(),
                    reconfiguration_events@ == before + txn.events@.take(j as int).filter(
                        |e: ContractEvent| e.reconfiguration,
                    ),
                decreases txn.events@.len() - j,
            {
                let event = txn.events[j];
                proof {
                    let pred = |e: ContractEvent| e.reconfiguration;
                    assert(txn.events@.take(j + 1) == txn.events@.take(j as int).push(event));
                    txn.events@.take(j as int).lemma_filter_push(event, pred);
                }
                if event.reconfiguration {
                    reconfiguration_events.push(event);
                }
                j += 1;
            }
            proof {
                let pred = |e: ContractEvent| e.reconfiguration;
                let events_of = |t: TransactionToCommit| t.events@;
                let prefix = all.take(i as int);
                assert(txn.events@.take(txn.events@.len() as int) == txn.events@);
                assert(all.take(i + 1) == prefix.push(all[i as int]));
                prefix.lemma_push_map_commute(events_of, all[i as int]);
                prefix.map_values(events_of).lemma_flatten_push(txn.events@);
                Seq::filter_distributes_over_add(
                    prefix.map_values(events_of).flatten(),
                    txn.events@,
                    pred,
                );
                prefix.lemma_push_map_commute(|t: TransactionToCommit| t.transaction, all[i as int]);
            }
            i += 1;
        }
        proof {
            assert(all.take(all.len() as int) == all);
        }
        ChunkCommitNotification { committed_transactions, reconfiguration_events }
    }
}

} // verus!
