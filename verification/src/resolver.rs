//! Inode-based resolution: pick the first candidate whose probed inode
//! equals the device's recorded backing inode, or fall back to the
//! sysfs-rooted candidate when none matches.
//!
//! Probing is the caller's: `probes[i]` is the inode the filesystem reported
//! for candidate `i`, or `None` where its metadata was unreadable — the
//! expected, silent outcome for most candidates. Bind mounts preserve inode
//! numbers for the same underlying file, so inode equality distinguishes
//! "this candidate is the same file" from "this candidate happens to exist".

use vstd::prelude::*;

use crate::bytes::copy_bytes;

verus! {

/// Some probe reported exactly the target inode.
pub open spec fn has_probe_match(probes: Seq<Option<u64>>, target: u64) -> bool {
    exists|i: int| 0 <= i < probes.len() && probes[i] == Some(target)
}

/// The index of the first probe that reported exactly the target inode, or
/// `probes.len()` when none did.
pub open spec fn first_probe_index(probes: Seq<Option<u64>>, target: u64) -> int
    decreases probes.len(),
{
    if probes.len() == 0 {
        0
    } else if probes[0] == Some(target) {
        0
    } else {
        1 + first_probe_index(probes.drop_first(), target)
    }
}

/// The index of the candidate that resolution yields: the first match when
/// one exists, else the sysfs-rooted candidate at index 1.
pub open spec fn resolved_index(probes: Seq<Option<u64>>, target: u64) -> int {
    if has_probe_match(probes, target) {
        first_probe_index(probes, target)
    } else {
        1
    }
}

/// `first_probe_index` is in range, nothing before it matches, and the probe
/// at it (when in range) matches.
pub proof fn lemma_first_probe_index(probes: Seq<Option<u64>>, target: u64)
    ensures
        0 <= first_probe_index(probes, target) <= probes.len(),
        forall|j: int| 0 <= j < first_probe_index(probes, target) ==> probes[j] != Some(target),
        first_probe_index(probes, target) < probes.len() ==> probes[first_probe_index(
            probes,
            target,
        )] == Some(target),
    decreases probes.len(),
{
    if probes.len() == 0 {
    } else if probes[0] == Some(target) {
    } else {
        lemma_first_probe_index(probes.drop_first(), target);
        assert forall|j: int|
            0 <= j < first_probe_index(probes, target) implies probes[j] != Some(target) by {
            if j >= 1 {
                assert(probes.drop_first()[j - 1] != Some(target));
            }
        }
    }
}

/// Any index with `first_probe_index`'s characteristic properties is
/// `first_probe_index`.
pub proof fn lemma_first_probe_index_unique(probes: Seq<Option<u64>>, target: u64, i: int)
    requires
        0 <= i <= probes.len(),
        forall|j: int| 0 <= j < i ==> probes[j] != Some(target),
        i < probes.len() ==> probes[i] == Some(target),
    ensures
        i == first_probe_index(probes, target),
{
    lemma_first_probe_index(probes, target);
    if i < first_probe_index(probes, target) {
        assert(probes[i] != Some(target));
    }
    if first_probe_index(probes, target) < i {
        assert(probes[first_probe_index(probes, target)] != Some(target));
    }
}

/// Returns the index of the first probe that reported exactly the target
/// inode, or `None` when no probe did.
pub fn first_match(probes: &Vec<Option<u64>>, target: u64) -> (r: Option<usize>)
    ensures
        match r {
            Some(i) => 0 <= i < probes@.len() && i == first_probe_index(probes@, target)
                && has_probe_match(probes@, target),
            None => !has_probe_match(probes@, target),
        },
{
    let mut i: usize = 0;
    while i < probes.len()
        invariant
            i <= probes@.len(),
            forall|j: int| 0 <= j < i ==> probes@[j] != Some(target),
        decreases probes@.len() - i,
    {
        let hit: bool = match probes[i] {
            Some(ino) => ino == target,
            None => false,
        };
        if hit {
            proof {
                lemma_first_probe_index_unique(probes@, target, i as int);
            }
            return Some(i);
        }
        i = i + 1;
    }
    proof {
        assert(!has_probe_match(probes@, target));
    }
    None
}

/// Resolves one device's backing path: the first candidate whose probe
/// reported exactly the target inode, else — unconditionally — the
/// sysfs-rooted candidate at index 1. Resolution always yields a path.
pub fn resolve_backing(candidates: &Vec<Vec<u8>>, probes: &Vec<Option<u64>>, target: u64) -> (r: Vec<
    u8,
>)
    requires
        probes@.len() == candidates@.len(),
        candidates@.len() >= 2,
    ensures
        r@ == candidates@[resolved_index(probes@, target)]@,
        0 <= resolved_index(probes@, target) < candidates@.len(),
{
    match first_match(probes, target) {
        Some(i) => copy_bytes(&candidates[i]),
        None => copy_bytes(&candidates[1]),
    }
}

/// Law: whenever some candidate's probe reports the recorded backing inode,
/// the resolved candidate's probe reports exactly that inode — and no
/// earlier candidate's probe does.
pub proof fn lemma_resolution_verified(probes: Seq<Option<u64>>, target: u64)
    requires
        has_probe_match(probes, target),
    ensures
        0 <= resolved_index(probes, target) < probes.len(),
        probes[resolved_index(probes, target)] == Some(target),
        forall|j: int| 0 <= j < resolved_index(probes, target) ==> probes[j] != Some(target),
{
    lemma_first_probe_index(probes, target);
    let w = choose|i: int| 0 <= i < probes.len() && probes[i] == Some(target);
    if first_probe_index(probes, target) == probes.len() {
        assert(probes[w] != Some(target));
    }
}

/// Law: priority is deterministic — when the raw-name candidate at index 0
/// matches, it is resolved, whatever the later probes report.
pub proof fn lemma_resolution_priority(probes: Seq<Option<u64>>, target: u64)
    requires
        probes.len() > 0,
        probes[0] == Some(target),
    ensures
        resolved_index(probes, target) == 0,
{
    assert(has_probe_match(probes, target));
}

/// Law: when no candidate's probe matches, resolution yields exactly the
/// sysfs-rooted candidate at index 1, unmodified.
pub proof fn lemma_resolution_fallback(probes: Seq<Option<u64>>, target: u64)
    requires
        forall|j: int| 0 <= j < probes.len() ==> probes[j] != Some(target),
    ensures
        resolved_index(probes, target) == 1,
{
}

} // verus!
