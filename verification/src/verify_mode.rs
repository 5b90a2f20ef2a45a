//! How a replay checks what it replays.

use crate::outside::first_in_range;
use crate::types::Version;
use std::collections::BTreeSet;
use vstd::prelude::*;

verus! {

/// Where the batch that begins at `begin` ends: at the first version from
/// `begin` on that is in `skip`, or at `end` where there is none below it.
pub open spec fn batch_end(skip: Set<Version>, begin: Version, end: Version) -> Version
    decreases end - begin,
{
    if begin >= end {
        end
    } else if skip.contains(begin) {
        begin
    } else {
        batch_end(skip, (begin + 1) as Version, end)
    }
}

/// A batch ends within its range, on a version to skip unless it ends with
/// the range, and holds no version to skip.
pub proof fn lemma_batch_end(skip: Set<Version>, begin: Version, end: Version)
    requires
        begin <= end,
    ensures
        begin <= batch_end(skip, begin, end) <= end,
        batch_end(skip, begin, end) < end ==> skip.contains(batch_end(skip, begin, end)),
        forall|w: Version| begin <= w < batch_end(skip, begin, end) ==> !skip.contains(w),
    decreases end - begin,
{
    if begin < end && !skip.contains(begin) {
        lemma_batch_end(skip, (begin + 1) as Version, end);
    }
}

/// Whether replayed transactions are run again and compared with their
/// records, which versions are exempt, and what a mismatch leads to.
#[derive(Debug)]
pub enum VerifyExecutionMode {
    /// Nothing is run again.
    NoVerify,
    /// Everything is run again, but for the versions to skip.
    Verify {
        /// Versions that are known not to reproduce their record.
        txns_to_skip: BTreeSet<Version>,
        /// Whether a mismatch is only noted, and the replay goes on.
        lazy_quit: bool,
        /// The number of mismatches that were noted.
        num_errors: u64,
    },
}

impl VerifyExecutionMode {
    /// The versions that are exempt from verification.
    pub open spec fn spec_txns_to_skip(&self) -> Set<Version> {
        match self {
            VerifyExecutionMode::NoVerify => Set::empty(),
            VerifyExecutionMode::Verify { txns_to_skip, .. } => txns_to_skip@,
        }
    }

    pub open spec fn spec_should_verify(&self) -> bool {
        self is Verify
    }

    pub open spec fn spec_is_lazy_quit(&self) -> bool {
        match self {
            VerifyExecutionMode::NoVerify => false,
            VerifyExecutionMode::Verify { lazy_quit, .. } => *lazy_quit,
        }
    }

    pub open spec fn spec_num_errors(&self) -> u64 {
        match self {
            VerifyExecutionMode::NoVerify => 0,
            VerifyExecutionMode::Verify { num_errors, .. } => *num_errors,
        }
    }

    pub open spec fn spec_seen_error(&self) -> bool {
        self.spec_num_errors() > 0
    }

    pub fn verify_nothing() -> (mode: Self)
        ensures
            mode is NoVerify,
    {
        VerifyExecutionMode::NoVerify
    }

    /// Strict verification of every version.
    pub fn verify_all() -> (mode: Self)
        ensures
            mode.spec_should_verify(),
            mode.spec_txns_to_skip() == Set::<Version>::empty(),
            !mode.spec_is_lazy_quit(),
            mode.spec_num_errors() == 0,
    {
        VerifyExecutionMode::Verify { txns_to_skip: BTreeSet::new(), lazy_quit: false, num_errors: 0 }
    }

    /// Strict verification of every version that is not in `txns_to_skip`.
    pub fn verify_except(txns_to_skip: Vec<Version>) -> (mode: Self)
        ensures
            mode.spec_should_verify(),
            mode.spec_txns_to_skip() == txns_to_skip@.to_set(),
            !mode.spec_is_lazy_quit(),
            mode.spec_num_errors() == 0,
    {
        broadcast use vstd::std_specs::btree::group_btree_axioms;

        let mut set: BTreeSet<Version> = BTreeSet::new();
        let mut i: usize = 0;
        while i < txns_to_skip.len()
            invariant
                i <= txns_to_skip.len(),
                set@ == txns_to_skip@.take(i as int).to_set(),
            decreases txns_to_skip.len() - i,
        {
            let version: Version = txns_to_skip[i];
            set.insert(version);
            proof {
                let prefix = txns_to_skip@.take(i as int);
                assert(txns_to_skip@.take(i + 1) == prefix.push(version));
                prefix.lemma_push_to_set_commute(version);
            }
            i += 1;
        }
        proof {
            assert(txns_to_skip@.take(txns_to_skip.len() as int) == txns_to_skip@);
        }
        VerifyExecutionMode::Verify { txns_to_skip: set, lazy_quit: false, num_errors: 0 }
    }

    /// The same mode, lazy or strict about a mismatch as `is_lazy_quit` says.
    /// Where nothing is verified, nothing changes.
    pub fn set_lazy_quit(self, is_lazy_quit: bool) -> (mode: Self)
        ensures
            mode.spec_should_verify() == self.spec_should_verify(),
            mode.spec_txns_to_skip() == self.spec_txns_to_skip(),
            mode.spec_num_errors() == self.spec_num_errors(),
            mode.spec_is_lazy_quit() == (self.spec_should_verify() && is_lazy_quit),
    {
        match self {
            VerifyExecutionMode::NoVerify => VerifyExecutionMode::NoVerify,
            VerifyExecutionMode::Verify { txns_to_skip, lazy_quit: _, num_errors } => {
                VerifyExecutionMode::Verify { txns_to_skip, lazy_quit: is_lazy_quit, num_errors }
            },
        }
    }

    #[verifier::when_used_as_spec(spec_is_lazy_quit)]
    pub fn is_lazy_quit(&self) -> (b: bool)
        ensures
            b == self.spec_is_lazy_quit(),
    {
        match self {
            VerifyExecutionMode::NoVerify => false,
            VerifyExecutionMode::Verify { lazy_quit, .. } => *lazy_quit,
        }
    }

    #[verifier::when_used_as_spec(spec_should_verify)]
    pub fn should_verify(&self) -> (b: bool)
        ensures
            b == self.spec_should_verify(),
    {
        match self {
            VerifyExecutionMode::NoVerify => false,
            VerifyExecutionMode::Verify { .. } => true,
        }
    }

    /// The number of mismatches that were noted.
    #[verifier::when_used_as_spec(spec_num_errors)]
    pub fn num_errors(&self) -> (n: u64)
        ensures
            n == self.spec_num_errors(),
    {
        match self {
            VerifyExecutionMode::NoVerify => 0,
            VerifyExecutionMode::Verify { num_errors, .. } => *num_errors,
        }
    }

    /// Whether a mismatch was noted.
    #[verifier::when_used_as_spec(spec_seen_error)]
    pub fn seen_error(&self) -> (b: bool)
        ensures
            b == self.spec_seen_error(),
    {
        self.num_errors() > 0
    }

    /// Whether `version` is exempt from verification.
    pub fn skips(&self, version: Version) -> (b: bool)
        ensures
            b == self.spec_txns_to_skip().contains(version),
    {
        broadcast use vstd::std_specs::btree::group_btree_axioms;

        match self {
            VerifyExecutionMode::NoVerify => false,
            VerifyExecutionMode::Verify { txns_to_skip, .. } => txns_to_skip.contains(&version),
        }
    }

    /// Where the batch that begins at `begin` ends, in a range that ends at `end`.
    pub fn batch_end(&self, begin: Version, end: Version) -> (r: Version)
        requires
            begin <= end,
        ensures
            r == batch_end(self.spec_txns_to_skip(), begin, end),
    {
        proof {
            lemma_batch_end(self.spec_txns_to_skip(), begin, end);
        }
        match self {
            VerifyExecutionMode::NoVerify => end,
            VerifyExecutionMode::Verify { txns_to_skip, .. } => {
                match first_in_range(txns_to_skip, begin, end) {
                    Some(version) => version,
                    None => end,
                }
            },
        }
    }

    /// Notes that a mismatch was seen: one more, as far as the count goes.
    pub fn mark_seen_error(&mut self)
        requires
            old(self).spec_should_verify(),
        ensures
            final(self).spec_num_errors() == if old(self).spec_num_errors() < u64::MAX {
                (old(self).spec_num_errors() + 1) as u64
            } else {
                u64::MAX
            },
            final(self).spec_seen_error(),
            final(self).spec_should_verify(),
            final(self).spec_txns_to_skip() == old(self).spec_txns_to_skip(),
            final(self).spec_is_lazy_quit() == old(self).spec_is_lazy_quit(),
    {
        match self {
            VerifyExecutionMode::NoVerify => {},
            VerifyExecutionMode::Verify { num_errors, .. } => {
                *num_errors = num_errors.saturating_add(1);
            },
        }
    }
}

} // verus!
