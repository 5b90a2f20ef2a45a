//! Plain models of the ledger values that flow through the pipeline.
//!
//! The pipeline never looks inside a transaction, a write set or an event:
//! it orders them, counts them and hands them on. Each of these is therefore
//! held by the digest that names it. What the pipeline does read (versions,
//! gas, statuses, checkpoint hashes, epoch markers) is held as plain fields.

use vstd::prelude::*;

verus! {

/// Position of a transaction in the ledger.
pub type Version = u64;

/// A 256-bit digest, held as two words.
#[derive(Clone, Copy, Debug, PartialEq, Eq, Hash, Structural)]
pub struct HashValue {
    pub hi: u128,
    pub lo: u128,
}

impl HashValue {
    pub fn new(hi: u128, lo: u128) -> (h: Self)
        ensures
            h == (HashValue { hi, lo }),
    {
        HashValue { hi, lo }
    }

    /// The all-zero digest.
    pub fn zero() -> (h: Self)
        ensures
            h == (HashValue { hi: 0, lo: 0 }),
    {
        HashValue { hi: 0, lo: 0 }
    }
}

/// A transaction, named by its digest.
#[derive(Clone, Copy, Debug, PartialEq, Eq, Hash, Structural)]
pub struct Transaction {
    pub hash: HashValue,
}

/// The set of state writes of one transaction, named by its digest.
#[derive(Clone, Copy, Debug, PartialEq, Eq, Hash, Structural)]
pub struct WriteSet {
    pub hash: HashValue,
}

/// An event emitted by a transaction.
#[derive(Clone, Copy, Debug, PartialEq, Eq, Hash, Structural)]
pub struct ContractEvent {
    pub hash: HashValue,
    /// Whether this event announces a new epoch.
    pub reconfiguration: bool,
}

/// How a transaction that was kept in the ledger ended.
#[derive(Clone, Copy, Debug, PartialEq, Eq, Hash, Structural)]
pub enum ExecutionStatus {
    Success,
    OutOfGas,
    MoveAbort { code: u64 },
    ExecutionFailure,
    MiscellaneousError,
}

/// What becomes of a transaction after execution.
#[derive(Clone, Copy, Debug, PartialEq, Eq, Hash, Structural)]
pub enum TransactionStatus {
    /// The transaction enters the ledger with the given outcome.
    Keep(ExecutionStatus),
    /// The transaction is dropped.
    Discard { code: u64 },
    /// The transaction has to be executed again later.
    Retry,
}

/// The ledger's record of one committed transaction.
#[derive(Clone, Copy, Debug, PartialEq, Eq, Hash, Structural)]
pub struct TransactionInfo {
    pub gas_used: u64,
    pub status: ExecutionStatus,
    pub transaction_hash: HashValue,
    pub event_root_hash: HashValue,
    pub state_change_hash: HashValue,
    pub state_checkpoint_hash: Option<HashValue>,
}

/// The effects of one transaction.
#[derive(Clone, Debug)]
pub struct TransactionOutput {
    pub write_set: WriteSet,
    pub events: Vec<ContractEvent>,
    pub gas_used: u64,
    pub status: TransactionStatus,
}

impl TransactionOutput {
    pub fn new(
        write_set: WriteSet,
        events: Vec<ContractEvent>,
        gas_used: u64,
        status: TransactionStatus,
    ) -> (out: Self)
        ensures
            out == (TransactionOutput { write_set, events, gas_used, status }),
    {
        TransactionOutput { write_set, events, gas_used, status }
    }
}

/// The validator configuration of an epoch.
#[derive(Clone, Copy, Debug, PartialEq, Eq, Hash, Structural)]
pub struct EpochState {
    pub epoch: u64,
    pub verifier: HashValue,
}

/// A signed ledger checkpoint: the ledger's committed state at a version.
#[derive(Clone, Copy, Debug, PartialEq, Eq, Hash, Structural)]
pub struct LedgerInfoWithSignatures {
    pub epoch: u64,
    pub version: Version,
    pub transaction_accumulator_hash: HashValue,
    /// Present exactly when this checkpoint ends its epoch.
    pub next_epoch_state: Option<EpochState>,
}

impl LedgerInfoWithSignatures {
    pub open spec fn spec_ends_epoch(&self) -> bool {
        self.next_epoch_state is Some
    }

    #[verifier::when_used_as_spec(spec_ends_epoch)]
    pub fn ends_epoch(&self) -> (b: bool)
        ensures
            b == self.spec_ends_epoch(),
    {
        self.next_epoch_state.is_some()
    }
}

/// A snapshot of ledger state: a persisted base and what was written on top.
#[derive(Clone, Copy, Debug, PartialEq, Eq, Hash, Structural)]
pub struct StateDelta {
    /// Version of the persisted base, if anything is persisted.
    pub base_version: Option<Version>,
    /// Version of the next transaction that is not yet reflected here.
    pub next_version: Version,
    /// Root digest of the state at `next_version`.
    pub root_hash: HashValue,
}

impl StateDelta {
    pub open spec fn spec_next_version(&self) -> Version {
        self.next_version
    }

    #[verifier::when_used_as_spec(spec_next_version)]
    pub fn next_version(&self) -> (v: Version)
        ensures
            v == self.next_version,
    {
        self.next_version
    }

    pub open spec fn spec_current_version(&self) -> Option<Version> {
        if self.next_version == 0 {
            None
        } else {
            Some((self.next_version - 1) as Version)
        }
    }

    /// Version of the last transaction reflected here, if there is one.
    #[verifier::when_used_as_spec(spec_current_version)]
    pub fn current_version(&self) -> (v: Option<Version>)
        ensures
            v == self.spec_current_version(),
    {
        if self.next_version == 0 {
            None
        } else {
            Some(self.next_version - 1)
        }
    }
}

/// The accumulator that authenticates the transaction history: its size and root.
#[derive(Clone, Copy, Debug, PartialEq, Eq, Hash, Structural)]
pub struct AccumulatorSummary {
    pub num_leaves: u64,
    pub root_hash: HashValue,
}

/// A state snapshot together with the transaction accumulator at the same version.
#[derive(Clone, Copy, Debug, PartialEq, Eq, Hash, Structural)]
pub struct ExecutedTrees {
    pub state: StateDelta,
    pub transaction_accumulator: AccumulatorSummary,
}

impl ExecutedTrees {
    pub fn new(state: StateDelta, transaction_accumulator: AccumulatorSummary) -> (t: Self)
        ensures
            t == (ExecutedTrees { state, transaction_accumulator }),
    {
        ExecutedTrees { state, transaction_accumulator }
    }

    /// State and accumulator speak of the same version.
    pub open spec fn spec_is_consistent(&self) -> bool {
        self.state.next_version == self.transaction_accumulator.num_leaves
    }

    #[verifier::when_used_as_spec(spec_is_consistent)]
    pub fn is_consistent(&self) -> (b: bool)
        ensures
            b == self.spec_is_consistent(),
    {
        self.state.next_version == self.transaction_accumulator.num_leaves
    }

    pub open spec fn spec_num_transactions(&self) -> u64 {
        self.transaction_accumulator.num_leaves
    }

    #[verifier::when_used_as_spec(spec_num_transactions)]
    pub fn num_transactions(&self) -> (n: u64)
        ensures
            n == self.spec_num_transactions(),
    {
        self.transaction_accumulator.num_leaves
    }
}

/// The transaction infos of a chunk, as carried by its proof.
#[derive(Clone, Debug)]
pub struct TransactionInfoListWithProof {
    pub transaction_infos: Vec<TransactionInfo>,
}

/// A chunk of transactions with the proof that ties them to the ledger.
#[derive(Clone, Debug)]
pub struct TransactionListWithProof {
    pub transactions: Vec<Transaction>,
    pub first_transaction_version: Option<Version>,
    pub proof: TransactionInfoListWithProof,
}

/// A chunk of transactions with their outputs, and its proof.
#[derive(Clone, Debug)]
pub struct TransactionOutputListWithProof {
    pub transactions_and_outputs: Vec<(Transaction, TransactionOutput)>,
    pub first_transaction_output_version: Option<Version>,
    pub proof: TransactionInfoListWithProof,
}

/// Handle on a checkpoint computation that was staged for a chunk. The
/// calculator that staged it finds the computation again by this handle.
#[derive(Clone, Copy, Debug, PartialEq, Eq, Hash, Structural)]
pub struct StateCheckpointOutput {
    pub handle: u64,
}

/// One transaction as it is written to the ledger.
#[derive(Clone, Debug)]
pub struct TransactionToCommit {
    pub transaction: Transaction,
    pub transaction_info: TransactionInfo,
    pub write_set: WriteSet,
    pub events: Vec<ContractEvent>,
}

/// The finalized ledger update of a chunk.
#[derive(Clone, Debug)]
pub struct LedgerUpdateOutput {
    pub to_commit: Vec<TransactionToCommit>,
    /// The transaction accumulator after the chunk.
    pub transaction_accumulator: AccumulatorSummary,
}

/// What subscribers learn of a committed chunk.
#[derive(Clone, Debug)]
pub struct ChunkCommitNotification {
    pub committed_transactions: Vec<Transaction>,
    /// The committed events that announce a new epoch, in ledger order.
    pub reconfiguration_events: Vec<ContractEvent>,
}

/// The state digests that a chunk's proof already vouches for, one per transaction.
pub open spec fn known_state_checkpoints_of(infos: Seq<TransactionInfo>) -> Seq<
    Option<HashValue>,
> {
    infos.map_values(|info: TransactionInfo| info.state_checkpoint_hash)
}

/// Collects the state checkpoint hash of every info, in order.
pub fn known_state_checkpoints(infos: &Vec<TransactionInfo>) -> (hashes: Vec<Option<HashValue>>)
    ensures
        hashes@ == known_state_checkpoints_of(infos@),
{
    let mut hashes: Vec<Option<HashValue>> = Vec::new();
    let mut i: usize = 0;
    while i < infos.len()
        invariant
            i <= infos.len(),
            hashes@ == known_state_checkpoints_of(infos@.take(i as int)),
        decreases infos.len() - i,
    {
        hashes.push(infos[i].state_checkpoint_hash);
        proof {
            assert(infos@.take(i + 1) == infos@.take(i as int).push(infos@[i as int]));
        }
        i += 1;
    }
    proof {
        assert(infos@.take(infos.len() as int) == infos@);
    }
    hashes
}

} // verus!
