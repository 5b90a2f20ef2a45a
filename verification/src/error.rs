//! The errors of the pipeline, and the classes they fall into.

use crate::types::Version;
use vstd::prelude::*;

verus! {

/// The class of an [`Error`]: who has to act on it, and how.
#[derive(Clone, Copy, Debug, PartialEq, Eq, Hash, Structural)]
pub enum ErrorKind {
    /// The input was refused. The caller has to supply corrected input.
    InputValidation,
    /// Values that should agree do not. The pipeline has to be reset.
    ConsistencyViolation,
    /// The ledger store failed. The call may be tried again.
    Storage,
    /// A replayed transaction did not reproduce its recorded outcome.
    ReplayVerification,
    /// The executor was finished and has not been reset since.
    NotInitialized,
    /// A collaborator could not do its work.
    Collaborator,
    /// The call does not fit the state of the queue.
    OutOfSequence,
}

#[derive(Clone, Debug, PartialEq, Eq)]
pub enum Error {
    /// The chunk holds no transaction.
    EmptyChunk,
    /// The chunk holds transactions and does not say where they start.
    MissingFirstVersion,
    /// The chunk does not start at the version that the queue expects next.
    UnexpectedChunk { version_in_request: Version, expected_version: Version },
    /// The proof verifier refused the chunk; its words.
    ProofVerification(String),
    /// A replay list is shorter than the list of transactions.
    ReplayInputTooShort,
    /// The versions of the input do not fit in a `Version`.
    VersionOverflow,
    /// A transaction was discarded where every one had to be kept.
    UnexpectedDiscard,
    /// A transaction was marked for retry where every one had to be kept.
    UnexpectedRetry,
    /// The ledger update holds another number of transactions than was expected.
    TransactionInfoCountMismatch { produced: u64, expected: u64 },
    /// The info at this place in the chunk differs from the expected one.
    TransactionInfoMismatch { index: u64 },
    /// The chunk overlaps what the ledger already holds.
    OverlappedChunks { num_overlap: u64 },
    /// State and accumulator of a ledger summary speak of different versions.
    InconsistentLedgerSummary,
    /// The versions that a chunk holds disagree with each other.
    InconsistentChunk,
    /// The chunk does not begin where the chunks before it end.
    OutOfOrderChunk { expected_version: Version },
    /// The state after a chunk lies before the state that the chunk started from.
    VersionRegression { found: Version, expected_version: Version },
    /// The state after a chunk is not the state that was staged or written for it.
    ResultStateMismatch,
    /// The target checkpoint's accumulator root differs from the computed one.
    TargetRootHashMismatch,
    /// The epoch-change checkpoint is not at the chunk's last version.
    EpochChangeVersionMismatch,
    /// The epoch-change checkpoint's accumulator root differs from the computed one.
    EpochChangeRootHashMismatch,
    /// The epoch-change checkpoint does not end its epoch.
    EpochChangeWithoutNextEpoch,
    /// The epoch-change checkpoint names another next epoch than was computed.
    EpochChangeStateMismatch,
    /// The chunk ends an epoch and no epoch-change checkpoint was given.
    MissingEpochChange,
    /// The ledger store refused the write; its words.
    Storage(String),
    /// Re-execution at this version did not match the record; the comparison's words.
    ReplayMismatch { version: Version, message: String },
    /// The executor was finished and has not been reset since.
    NotInitialized,
    /// The executor or the state view could not run the chunk; its words.
    ExecutionFailed(String),
    /// The checkpoint calculator could not stage the chunk; its words.
    CheckpointFailed(String),
    /// The checkpoint calculator could not finalize the ledger update; its words.
    LedgerUpdateFailed(String),
    /// No chunk awaits its ledger update.
    NoChunkToUpdateLedger,
    /// No chunk awaits commit.
    NoChunkToCommit,
    /// A chunk still awaits its ledger update, so there is no latest view.
    PendingLedgerUpdate,
    /// Nothing was replayed, so there is nothing to commit.
    NothingToCommit,
    /// The replay has batches left.
    ReplayUnfinished,
    /// The replay is at another step than the one that this call belongs to.
    OutOfStep,
}

impl Error {
    pub open spec fn spec_kind(&self) -> ErrorKind {
        match self {
            Error::EmptyChunk
            | Error::MissingFirstVersion
            | Error::UnexpectedChunk { .. }
            | Error::ProofVerification(_)
            | Error::ReplayInputTooShort
            | Error::VersionOverflow => ErrorKind::InputValidation,
            Error::UnexpectedDiscard
            | Error::UnexpectedRetry
            | Error::TransactionInfoCountMismatch { .. }
            | Error::TransactionInfoMismatch { .. }
            | Error::OverlappedChunks { .. }
            | Error::InconsistentLedgerSummary
            | Error::InconsistentChunk
            | Error::OutOfOrderChunk { .. }
            | Error::VersionRegression { .. }
            | Error::ResultStateMismatch
            | Error::TargetRootHashMismatch
            | Error::EpochChangeVersionMismatch
            | Error::EpochChangeRootHashMismatch
            | Error::EpochChangeWithoutNextEpoch
            | Error::EpochChangeStateMismatch
            | Error::MissingEpochChange => ErrorKind::ConsistencyViolation,
            Error::Storage(_) => ErrorKind::Storage,
            Error::ReplayMismatch { .. } => ErrorKind::ReplayVerification,
            Error::NotInitialized => ErrorKind::NotInitialized,
            Error::ExecutionFailed(_)
            | Error::CheckpointFailed(_)
            | Error::LedgerUpdateFailed(_) => ErrorKind::Collaborator,
            Error::NoChunkToUpdateLedger
            | Error::NoChunkToCommit
            | Error::PendingLedgerUpdate
            | Error::NothingToCommit
            | Error::ReplayUnfinished
            | Error::OutOfStep => ErrorKind::OutOfSequence,
        }
    }

    /// The class this error falls into.
    #[verifier::when_used_as_spec(spec_kind)]
    pub fn kind(&self) -> (k: ErrorKind)
        ensures
            k == self.spec_kind(),
    {
        match self {
            Error::EmptyChunk
            | Error::MissingFirstVersion
            | Error::UnexpectedChunk { .. }
            | Error::ProofVerification(_)
            | Error::ReplayInputTooShort
            | Error::VersionOverflow => ErrorKind::InputValidation,
            Error::UnexpectedDiscard
            | Error::UnexpectedRetry
            | Error::TransactionInfoCountMismatch { .. }
            | Error::TransactionInfoMismatch { .. }
            | Error::OverlappedChunks { .. }
            | Error::InconsistentLedgerSummary
            | Error::InconsistentChunk
            | Error::OutOfOrderChunk { .. }
            | Error::VersionRegression { .. }
            | Error::ResultStateMismatch
            | Error::TargetRootHashMismatch
            | Error::EpochChangeVersionMismatch
            | Error::EpochChangeRootHashMismatch
            | Error::EpochChangeWithoutNextEpoch
            | Error::EpochChangeStateMismatch
            | Error::MissingEpochChange => ErrorKind::ConsistencyViolation,
            Error::Storage(_) => ErrorKind::Storage,
            Error::ReplayMismatch { .. } => ErrorKind::ReplayVerification,
            Error::NotInitialized => ErrorKind::NotInitialized,
            Error::ExecutionFailed(_)
            | Error::CheckpointFailed(_)
            | Error::LedgerUpdateFailed(_) => ErrorKind::Collaborator,
            Error::NoChunkToUpdateLedger
            | Error::NoChunkToCommit
            | Error::PendingLedgerUpdate
            | Error::NothingToCommit
            | Error::ReplayUnfinished
            | Error::OutOfStep => ErrorKind::OutOfSequence,
        }
    }
}

} // verus!
