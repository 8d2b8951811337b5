//! Bind-mount configuration: the list of alternate root prefixes under which
//! the sysfs-reported backing path may also appear.
//!
//! The configuration arrives as one byte string of newline-separated path
//! prefixes; empty lines are ignored, and an absent or empty value yields an
//! empty list. It is read once at process start and never mutated during a
//! run.

use vstd::prelude::*;

use crate::bytes::copy_range;
use crate::bytes::find_byte_from;
use crate::bytes::first_byte;
use crate::bytes::lemma_first_byte;
use crate::bytes::lemma_first_byte_unique;

verus! {

/// The views of a sequence of byte vectors.
pub open spec fn views_of(rs: Seq<Vec<u8>>) -> Seq<Seq<u8>> {
    Seq::new(rs.len(), |i: int| rs[i]@)
}

/// The non-empty lines of `s`, split at newline bytes, in order.
pub open spec fn config_roots(s: Seq<u8>) -> Seq<Seq<u8>>
    decreases s.len()
        via config_roots_decreases
{
    if s.len() == 0 {
        Seq::empty()
    } else {
        let e = first_byte(s, 10u8);
        let head = s.take(e);
        let rest = if e < s.len() {
            config_roots(s.skip(e + 1))
        } else {
            Seq::<Seq<u8>>::empty()
        };
        if head.len() == 0 {
            rest
        } else {
            seq![head] + rest
        }
    }
}

#[via_fn]
proof fn config_roots_decreases(s: Seq<u8>) {
    if s.len() != 0 {
        lemma_first_byte(s, 10u8);
    }
}

/// Splits a raw configuration value at newline bytes and keeps the non-empty
/// lines, in order. An empty value yields an empty list.
pub fn parse_bind_mounts(raw: &Vec<u8>) -> (roots: Vec<Vec<u8>>)
    ensures
        roots@.len() == config_roots(raw@).len(),
        forall|i: int| 0 <= i < roots@.len() ==> roots@[i]@ == config_roots(raw@)[i],
{
    let mut roots: Vec<Vec<u8>> = Vec::new();
    let mut start: usize = 0;
    proof {
        assert(raw@.skip(0) =~= raw@);
        assert(views_of(roots@) + config_roots(raw@) =~= config_roots(raw@));
    }
    while start < raw.len()
        invariant
            start <= raw@.len(),
            views_of(roots@) + config_roots(raw@.skip(start as int)) == config_roots(raw@),
        decreases raw@.len() - start,
    {
        let ghost prev = roots@;
        let ghost s_sub = raw@.skip(start as int);
        let e = find_byte_from(raw, start, 10u8);
        proof {
            assert forall|j: int| 0 <= j < e - start implies s_sub[j] != 10u8 by {
                assert(raw@[start + j] != 10u8);
            }
            if e < raw@.len() {
                assert(s_sub[e - start] == raw@[e as int]);
            }
            lemma_first_byte_unique(s_sub, 10u8, e - start);
            assert(s_sub.take(e - start) =~= raw@.subrange(start as int, e as int));
        }
        if e > start {
            let seg = copy_range(raw, start, e);
            roots.push(seg);
            proof {
                assert(views_of(roots@) =~= views_of(prev) + seq![s_sub.take(e - start)]);
            }
        }
        proof {
            if e < raw@.len() {
                assert(s_sub.skip((e - start) + 1) =~= raw@.skip(e + 1));
            }
        }
        if e < raw.len() {
            start = e + 1;
        } else {
            start = e;
        }
        proof {
            assert(views_of(roots@) + config_roots(raw@.skip(start as int)) =~= config_roots(
                raw@,
            ));
        }
    }
    proof {
        assert(raw@.skip(start as int) =~= Seq::<u8>::empty());
        assert(config_roots(raw@.skip(start as int)) =~= Seq::<Seq<u8>>::empty());
        assert(views_of(roots@) =~= config_roots(raw@));
    }
    roots
}

} // verus!
