//! Epochs: a range of versions is cut behind every version that announces a
//! new epoch.

use crate::outside::zip_versions;
use crate::types::{ContractEvent, Version};
use vstd::prelude::*;

verus! {

/// Whether one of the events announces a new epoch.
pub open spec fn ends_epoch(events: Seq<ContractEvent>) -> bool {
    exists|i: int| 0 <= i < events.len() && (#[trigger] events[i]).reconfiguration
}

/// For each list of events, whether it ends an epoch.
pub open spec fn epoch_flags(event_vecs: Seq<Vec<ContractEvent>>) -> Seq<bool> {
    event_vecs.map_values(|events: Vec<ContractEvent>| ends_epoch(events@))
}

/// Where the epoch begins that is still open after the first `n` versions.
pub open spec fn open_epoch_begin(begin: int, flags: Seq<bool>, n: int) -> int
    decreases n,
{
    if n <= 0 {
        begin
    } else if flags[n - 1] {
        begin + n
    } else {
        open_epoch_begin(begin, flags, n - 1)
    }
}

/// The epochs that have ended within the first `n` versions.
pub open spec fn closed_epochs(begin: int, flags: Seq<bool>, n: int) -> Seq<(Version, Version)>
    decreases n,
{
    if n <= 0 {
        Seq::empty()
    } else if flags[n - 1] {
        closed_epochs(begin, flags, n - 1).push(
            (open_epoch_begin(begin, flags, n - 1) as Version, (begin + n) as Version),
        )
    } else {
        closed_epochs(begin, flags, n - 1)
    }
}

/// The epochs of the versions from `begin` on, where `flags` says of each
/// version whether it ends an epoch. Each epoch is a pair of its first
/// version and the version after its last.
pub open spec fn epochs_of(begin: Version, flags: Seq<bool>) -> Seq<(Version, Version)> {
    let closed = closed_epochs(begin as int, flags, flags.len() as int);
    let open = open_epoch_begin(begin as int, flags, flags.len() as int);
    if open < begin + flags.len() {
        closed.push((open as Version, (begin + flags.len()) as Version))
    } else {
        closed
    }
}

/// `epochs` cuts the versions from `begin` on into epochs: the epochs are not
/// empty, follow each other and cover the range; each but the last ends on a
/// version that ends an epoch; and no version before the last of an epoch
/// ends one.
pub open spec fn is_epoch_partition(
    epochs: Seq<(Version, Version)>,
    begin: Version,
    flags: Seq<bool>,
) -> bool {
    &&& forall|k: int|
        0 <= k < epochs.len() ==> begin <= (#[trigger] epochs[k]).0 < epochs[k].1 <= begin
            + flags.len()
    &&& epochs.len() == 0 ==> flags.len() == 0
    &&& epochs.len() > 0 ==> epochs[0].0 == begin && epochs.last().1 == begin + flags.len()
    &&& forall|k: int, l: int|
        0 <= k && l == k + 1 && l < epochs.len() ==> (#[trigger] epochs[k]).1
            == (#[trigger] epochs[l]).0
    &&& forall|k: int| 0 <= k < epochs.len() - 1 ==> flags[(#[trigger] epochs[k]).1 - 1 - begin]
    &&& forall|k: int, i: int|
        0 <= k < epochs.len() && (#[trigger] epochs[k]).0 <= begin + i < epochs[k].1 - 1
            ==> !#[trigger] flags[i]
}

/// What holds of the closed epochs and the open one after `n` versions.
spec fn scanned(begin: Version, flags: Seq<bool>, n: int) -> bool {
    let closed = closed_epochs(begin as int, flags, n);
    let open = open_epoch_begin(begin as int, flags, n);
    &&& begin <= open <= begin + n
    &&& n > 0 && flags[n - 1] ==> open == begin + n
    &&& forall|k: int|
        0 <= k < closed.len() ==> begin <= (#[trigger] closed[k]).0 < closed[k].1 <= begin + n
    &&& closed.len() == 0 ==> open == begin
    &&& closed.len() > 0 ==> closed[0].0 == begin && closed.last().1 == open
    &&& forall|k: int, l: int|
        0 <= k && l == k + 1 && l < closed.len() ==> (#[trigger] closed[k]).1
            == (#[trigger] closed[l]).0
    &&& forall|k: int| 0 <= k < closed.len() ==> flags[(#[trigger] closed[k]).1 - 1 - begin]
    &&& forall|k: int, i: int|
        0 <= k < closed.len() && (#[trigger] closed[k]).0 <= begin + i < closed[k].1 - 1
            ==> !#[trigger] flags[i]
    &&& forall|i: int| open <= begin + i < begin + n ==> !#[trigger] flags[i]
}

proof fn lemma_scanned(begin: Version, flags: Seq<bool>, n: int)
    requires
        0 <= n <= flags.len(),
        begin + flags.len() <= u64::MAX,
    ensures
        scanned(begin, flags, n),
    decreases n,
{
    if n > 0 {
        lemma_scanned(begin, flags, n - 1);
        let before = closed_epochs(begin as int, flags, n - 1);
        let open_before = open_epoch_begin(begin as int, flags, n - 1);
        let closed = closed_epochs(begin as int, flags, n);
        if flags[n - 1] {
            let added = (open_before as Version, (begin + n) as Version);
            assert(closed == before.push(added));
            assert(forall|k: int| 0 <= k < before.len() ==> closed[k] == before[k]);
            assert(closed[before.len() as int] == added);
            assert forall|k: int, i: int|
                0 <= k < closed.len() && (#[trigger] closed[k]).0 <= begin + i < closed[k].1
                    - 1 implies !#[trigger] flags[i] by {
                if k < before.len() {
                    assert(before[k].0 <= begin + i < before[k].1 - 1);
                }
            }
            assert forall|k: int, l: int|
                0 <= k && l == k + 1 && l < closed.len() implies (#[trigger] closed[k]).1 == (
            #[trigger] closed[l]).0 by {
                if l < before.len() {
                    assert(before[k].1 == before[l].0);
                } else {
                    assert(before.last() == before[k]);
                }
            }
        } else {
            assert(closed == before);
        }
    }
}

/// The epochs of a range cut it as `is_epoch_partition` says.
pub proof fn lemma_epochs_of_is_partition(begin: Version, flags: Seq<bool>)
    requires
        begin + flags.len() <= u64::MAX,
    ensures
        is_epoch_partition(epochs_of(begin, flags), begin, flags),
{
    let n = flags.len() as int;
    lemma_scanned(begin, flags, n);
    let closed = closed_epochs(begin as int, flags, n);
    let open = open_epoch_begin(begin as int, flags, n);
    let epochs = epochs_of(begin, flags);
    if open < begin + n {
        let added = (open as Version, (begin + n) as Version);
        assert(epochs == closed.push(added));
        assert(forall|k: int| 0 <= k < closed.len() ==> epochs[k] == closed[k]);
        assert(epochs[closed.len() as int] == added);
        assert forall|k: int, l: int|
            0 <= k && l == k + 1 && l < epochs.len() implies (#[trigger] epochs[k]).1 == (
        #[trigger] epochs[l]).0 by {
            if l < closed.len() {
                assert(closed[k].1 == closed[l].0);
            } else {
                assert(closed.last() == closed[k]);
            }
        }
        assert forall|k: int, i: int|
            0 <= k < epochs.len() && (#[trigger] epochs[k]).0 <= begin + i < epochs[k].1
                - 1 implies !#[trigger] flags[i] by {
            if k < closed.len() {
                assert(closed[k].0 <= begin + i < closed[k].1 - 1);
            }
        }
    } else {
        assert(epochs == closed);
        if n > 0 && !flags[n - 1] {
            assert(open <= begin + (n - 1) < begin + n);
        }
    }
}

/// Where no version from `from` on (below `n`) ends an epoch, the scan does
/// not move between `from` and `n`.
proof fn lemma_scan_rests(begin: int, flags: Seq<bool>, from: int, n: int)
    requires
        0 <= from <= n <= flags.len(),
        forall|i: int| from <= i < n ==> !flags[i],
    ensures
        closed_epochs(begin, flags, n) == closed_epochs(begin, flags, from),
        open_epoch_begin(begin, flags, n) == open_epoch_begin(begin, flags, from),
    decreases n - from,
{
    if from < n {
        lemma_scan_rests(begin, flags, from, n - 1);
    }
}

/// Where exactly one version ends an epoch and it is not the last of the
/// range, the range falls into two epochs: up to and with that version, and
/// from the next version on.
pub proof fn lemma_one_reconfiguration_two_epochs(
    begin: Version,
    flags: Seq<bool>,
    version: Version,
)
    requires
        begin + flags.len() <= u64::MAX,
        begin <= version,
        version + 1 < begin + flags.len(),
        forall|i: int| 0 <= i < flags.len() ==> (flags[i] <==> i == version - begin),
    ensures
        epochs_of(begin, flags) == seq![
            (begin, (version + 1) as Version),
            ((version + 1) as Version, (begin + flags.len()) as Version),
        ],
{
    let at = version - begin;
    let n = flags.len() as int;
    lemma_scan_rests(begin as int, flags, 0, at);
    assert(closed_epochs(begin as int, flags, 0) == Seq::<(Version, Version)>::empty());
    assert(open_epoch_begin(begin as int, flags, 0) == begin);
    assert(flags[at]);
    assert(closed_epochs(begin as int, flags, at + 1) == closed_epochs(begin as int, flags, at).push(
        (begin, (version + 1) as Version),
    ));
    assert(open_epoch_begin(begin as int, flags, at + 1) == version + 1);
    lemma_scan_rests(begin as int, flags, at + 1, n);
    assert(epochs_of(begin, flags) =~= seq![
        (begin, (version + 1) as Version),
        ((version + 1) as Version, (begin + flags.len()) as Version),
    ]);
}

/// Whether one of the events announces a new epoch.
pub fn is_epoch_ending(events: &Vec<ContractEvent>) -> (b: bool)
    ensures
        b == ends_epoch(events@),
{
    let mut i: usize = 0;
    while i < events.len()
        invariant
            i <= events.len(),
            forall|j: int| 0 <= j < i ==> !(#[trigger] events@[j]).reconfiguration,
        decreases events.len() - i,
    {
        if events[i].reconfiguration {
            return true;
        }
        i += 1;
    }
    false
}

/// Cuts the versions from `begin` on into epochs. There are as many versions
/// as there are lists of events, and a version ends an epoch where one of
/// its events announces a new one.
pub fn partition_epochs(begin: Version, event_vecs: &Vec<Vec<ContractEvent>>) -> (epochs: Vec<
    (Version, Version),
>)
    requires
        begin + event_vecs@.len() <= u64::MAX,
    ensures
        epochs@ == epochs_of(begin, epoch_flags(event_vecs@)),
        is_epoch_partition(epochs@, begin, epoch_flags(event_vecs@)),
{
    let n: usize = event_vecs.len();
    let ghost flags_spec = epoch_flags(event_vecs@);
    let mut flags: Vec<bool> = Vec::new();
    let mut i: usize = 0;
    while i < n
        invariant
            i <= n,
            n == event_vecs@.len(),
            flags@.len() == i,
            forall|j: int| 0 <= j < i ==> flags@[j] == ends_epoch(#[trigger] event_vecs@[j]@),
        decreases n - i,
    {
        flags.push(is_epoch_ending(&event_vecs[i]));
        i += 1;
    }
    assert(flags@ =~= flags_spec);
    let end: Version = begin + (n as u64);
    let pairs = zip_versions(begin, end, &flags);
    let mut epochs: Vec<(Version, Version)> = Vec::new();
    let mut epoch_begin: Version = begin;
    let mut k: usize = 0;
    while k < pairs.len()
        invariant
            k <= pairs@.len(),
            pairs@.len() == n,
            flags@ == flags_spec,
            flags_spec.len() == n,
            begin + n <= u64::MAX,
            forall|i: int| 0 <= i < pairs@.len() ==> (#[trigger] pairs@[i]) == (
                (begin + i) as Version,
                flags@[i],
            ),
            epochs@ == closed_epochs(begin as int, flags_spec, k as int),
            epoch_begin == open_epoch_begin(begin as int, flags_spec, k as int),
        decreases pairs@.len() - k,
    {
        let (version, is_epoch_ending) = pairs[k];
        proof {
            lemma_scanned(begin, flags_spec, k as int);
        }
        if is_epoch_ending {
            epochs.push((epoch_begin, version + 1));
            epoch_begin = version + 1;
        }
        k += 1;
    }
    proof {
        lemma_scanned(begin, flags_spec, n as int);
        lemma_epochs_of_is_partition(begin, flags_spec);
    }
    if epoch_begin < end {
        epochs.push((epoch_begin, end));
    }
    epochs
}

} // verus!
