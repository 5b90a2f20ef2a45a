//! The calls that leave this library, each with the contract that the
//! library takes on trust.

use crate::gas_log::valid_identifier;
use crate::types::Version;
use move_core_types::identifier::Identifier;
use std::collections::BTreeSet;
use vstd::prelude::*;

verus! {

/// `itertools::multizip`, on the versions `begin..end` and a list of flags.
///
/// The zip runs its iterators in lockstep and stops as soon as one of them is
/// exhausted: the result pairs the first versions with the first flags, and
/// is as long as the shorter of the two.
#[verifier::external_body]
pub(crate) fn zip_versions(begin: Version, end: Version, flags: &Vec<bool>) -> (pairs: Vec<
    (Version, bool),
>)
    ensures
        begin <= end ==> pairs@.len() == if end - begin <= flags@.len() {
            end - begin
        } else {
            flags@.len() as int
        },
        begin > end ==> pairs@.len() == 0,
        forall|i: int| 0 <= i < pairs@.len() ==> (#[trigger] pairs@[i]) == (
            (begin + i) as Version,
            flags@[i],
        ),
{
    itertools::multizip((begin..end, flags.iter().copied())).collect()
}

/// `BTreeSet::range` of std, on `begin..end`: the members of the set within
/// the range come in ascending order, so the first of them is the least.
/// `None` where the set has no member in the range.
#[verifier::external_body]
pub(crate) fn first_in_range(set: &BTreeSet<Version>, begin: Version, end: Version) -> (first:
    Option<Version>)
    requires
        begin <= end,
    ensures
        match first {
            Some(v) => set@.contains(v) && begin <= v < end && forall|w: Version|
                set@.contains(w) && begin <= w < end ==> v <= w,
            None => forall|w: Version| set@.contains(w) ==> !(begin <= w < end),
        },
{
    set.range(begin..end).next().copied()
}

/// `Identifier::new` of move_core_types, asked whether it accepts `name`.
///
/// It accepts the strings that its module describes as identifiers: a
/// letter, or an underscore with one character more at least, followed by
/// letters, digits and underscores only; and the one name `<SELF>`.
#[verifier::external_body]
pub(crate) fn is_identifier(name: &str) -> (accepted: bool)
    ensures
        accepted == valid_identifier(name@),
{
    Identifier::new(name).is_ok()
}

} // verus!
