//! Candidate generation: the ordered list of paths that may refer to a loop
//! device's backing file from the current mount namespace.
//!
//! The order is fixed and is the resolution priority: first the raw name
//! from the kernel's status record taken as a path as-is, then the
//! sysfs-reported path rooted at `/`, then one candidate per configured
//! alternate root, each root joined with the sysfs path's relative tail.
//! Duplicates are not removed; the first inode match wins and probing is
//! idempotent, so they are harmless.

use vstd::prelude::*;

use crate::bytes::copy_bytes;
use crate::bytes::extend_bytes;

verus! {

/// A base path joined with a relative tail: a `/` separates them unless the
/// base already ends in one.
pub open spec fn join_spec(base: Seq<u8>, tail: Seq<u8>) -> Seq<u8> {
    if base.len() > 0 && base[base.len() - 1] == 47u8 {
        base + tail
    } else {
        base + seq![47u8] + tail
    }
}

/// A relative tail rooted at the filesystem root `/`.
pub open spec fn rooted_spec(tail: Seq<u8>) -> Seq<u8> {
    seq![47u8] + tail
}

/// Joins a base path with a relative tail, inserting a `/` separator unless
/// the base already ends in one.
pub fn join_path(base: &Vec<u8>, tail: &Vec<u8>) -> (r: Vec<u8>)
    ensures
        r@ == join_spec(base@, tail@),
{
    let mut r = copy_bytes(base);
    if base.len() == 0 || base[base.len() - 1] != 47 {
        r.push(47);
    }
    extend_bytes(&mut r, tail);
    proof {
        assert(r@ =~= join_spec(base@, tail@));
    }
    r
}

/// Prefixes a relative tail with the filesystem root `/`.
pub fn rooted_path(tail: &Vec<u8>) -> (r: Vec<u8>)
    ensures
        r@ == rooted_spec(tail@),
{
    let mut r: Vec<u8> = Vec::new();
    r.push(47);
    extend_bytes(&mut r, tail);
    proof {
        assert(r@ =~= rooted_spec(tail@));
    }
    r
}

/// Generates the ordered candidate list for one device: the raw status name
/// as-is, the sysfs tail rooted at `/`, and the sysfs tail under each
/// configured alternate root, in configured order. With no alternate roots
/// there are exactly two candidates.
pub fn generate_candidates(raw_name: &Vec<u8>, sysfs_tail: &Vec<u8>, extra_roots: &Vec<Vec<u8>>) -> (c: Vec<
    Vec<u8>,
>)
    ensures
        c@.len() == 2 + extra_roots@.len(),
        c@[0]@ == raw_name@,
        c@[1]@ == rooted_spec(sysfs_tail@),
        forall|i: int|
            0 <= i < extra_roots@.len() ==> #[trigger] c@[2 + i]@ == join_spec(
                extra_roots@[i]@,
                sysfs_tail@,
            ),
{
    let mut c: Vec<Vec<u8>> = Vec::new();
    c.push(copy_bytes(raw_name));
    c.push(rooted_path(sysfs_tail));
    let mut k: usize = 0;
    while k < extra_roots.len()
        invariant
            k <= extra_roots@.len(),
            c@.len() == 2 + k,
            c@[0]@ == raw_name@,
            c@[1]@ == rooted_spec(sysfs_tail@),
            forall|i: int|
                0 <= i < k ==> #[trigger] c@[2 + i]@ == join_spec(extra_roots@[i]@, sysfs_tail@),
        decreases extra_roots@.len() - k,
    {
        let joined = join_path(&extra_roots[k], sysfs_tail);
        c.push(joined);
        k = k + 1;
    }
    c
}

} // verus!
