//! Helpers on byte vectors. Unix paths, argument tokens and file contents are
//! all byte strings here, modelled as `Seq<u8>` in specifications.

use vstd::prelude::*;

verus! {

/// The bytes of an ASCII string, one byte per character.
pub open spec fn bytes_of(s: &str) -> Seq<u8> {
    Seq::new(s@.len(), |i: int| s@[i] as u8)
}

/// The index of the first occurrence of `d` in `s`, or `s.len()` if `d` does
/// not occur.
pub open spec fn first_byte(s: Seq<u8>, d: u8) -> int
    decreases s.len(),
{
    if s.len() == 0 {
        0
    } else if s[0] == d {
        0
    } else {
        1 + first_byte(s.drop_first(), d)
    }
}

/// `first_byte` is in range, nothing before it equals `d`, and the byte at it
/// (when in range) equals `d`.
pub proof fn lemma_first_byte(s: Seq<u8>, d: u8)
    ensures
        0 <= first_byte(s, d) <= s.len(),
        forall|j: int| 0 <= j < first_byte(s, d) ==> s[j] != d,
        first_byte(s, d) < s.len() ==> s[first_byte(s, d)] == d,
    decreases s.len(),
{
    if s.len() == 0 {
    } else if s[0] == d {
    } else {
        lemma_first_byte(s.drop_first(), d);
        assert forall|j: int| 0 <= j < first_byte(s, d) implies s[j] != d by {
            if j >= 1 {
                assert(s.drop_first()[j - 1] != d);
            }
        }
    }
}

/// Any index with `first_byte`'s characteristic properties is `first_byte`.
pub proof fn lemma_first_byte_unique(s: Seq<u8>, d: u8, i: int)
    requires
        0 <= i <= s.len(),
        forall|j: int| 0 <= j < i ==> s[j] != d,
        i < s.len() ==> s[i] == d,
    ensures
        i == first_byte(s, d),
{
    lemma_first_byte(s, d);
    if i < first_byte(s, d) {
        assert(s[i] != d);
    }
    if first_byte(s, d) < i {
        assert(s[first_byte(s, d)] != d);
    }
}

/// Turns an ASCII string into its byte vector.
pub fn ascii_bytes(s: &str) -> (r: Vec<u8>)
    requires
        s.is_ascii(),
    ensures
        r@ == bytes_of(s),
{
    let b: &[u8] = s.as_bytes();
    proof {
        vstd::string::is_ascii_spec_bytes(s);
        assert(b@ =~= bytes_of(s));
    }
    vstd::slice::slice_to_vec(b)
}

/// Copies a byte vector.
pub fn copy_bytes(src: &Vec<u8>) -> (r: Vec<u8>)
    ensures
        r@ == src@,
{
    let mut r: Vec<u8> = Vec::new();
    let mut i: usize = 0;
    while i < src.len()
        invariant
            i <= src@.len(),
            r@ == src@.take(i as int),
        decreases src@.len() - i,
    {
        let b: u8 = src[i];
        r.push(b);
        i = i + 1;
        proof {
            assert(r@ =~= src@.take(i as int));
        }
    }
    proof {
        assert(r@ =~= src@);
    }
    r
}

/// Copies the bytes of `src` at indices `from..to`.
pub fn copy_range(src: &Vec<u8>, from: usize, to: usize) -> (r: Vec<u8>)
    requires
        from <= to <= src@.len(),
    ensures
        r@ == src@.subrange(from as int, to as int),
{
    let mut r: Vec<u8> = Vec::new();
    let mut i: usize = from;
    while i < to
        invariant
            from <= i <= to <= src@.len(),
            r@ == src@.subrange(from as int, i as int),
        decreases to - i,
    {
        let b: u8 = src[i];
        r.push(b);
        i = i + 1;
        proof {
            assert(r@ =~= src@.subrange(from as int, i as int));
        }
    }
    r
}

/// Appends all of `src` to `dst`.
pub fn extend_bytes(dst: &mut Vec<u8>, src: &Vec<u8>)
    ensures
        final(dst)@ == old(dst)@ + src@,
{
    proof {
        assert(dst@ =~= old(dst)@ + src@.take(0));
    }
    let mut i: usize = 0;
    while i < src.len()
        invariant
            i <= src@.len(),
            dst@ == old(dst)@ + src@.take(i as int),
        decreases src@.len() - i,
    {
        let b: u8 = src[i];
        dst.push(b);
        i = i + 1;
        proof {
            assert(dst@ =~= old(dst)@ + src@.take(i as int));
        }
    }
    proof {
        assert(old(dst)@ + src@.take(src@.len() as int) =~= old(dst)@ + src@);
    }
}

/// Byte-for-byte equality of two byte vectors.
pub fn bytes_eq(a: &Vec<u8>, b: &Vec<u8>) -> (r: bool)
    ensures
        r == (a@ == b@),
{
    if a.len() != b.len() {
        return false;
    }
    let mut i: usize = 0;
    while i < a.len()
        invariant
            a@.len() == b@.len(),
            i <= a@.len(),
            forall|j: int| 0 <= j < i ==> a@[j] == b@[j],
        decreases a@.len() - i,
    {
        if a[i] != b[i] {
            return false;
        }
        i = i + 1;
    }
    proof {
        assert(a@ =~= b@);
    }
    true
}

/// Finds the first occurrence of `d` in `v` at or after `start`; returns
/// `v.len()` when `d` does not occur there.
pub fn find_byte_from(v: &Vec<u8>, start: usize, d: u8) -> (r: usize)
    requires
        start <= v@.len(),
    ensures
        start <= r <= v@.len(),
        forall|j: int| start <= j < r ==> v@[j] != d,
        r < v@.len() ==> v@[r as int] == d,
{
    let mut i: usize = start;
    while i < v.len() && v[i] != d
        invariant
            start <= i <= v@.len(),
            forall|j: int| start <= j < i ==> v@[j] != d,
        decreases v@.len() - i,
    {
        i = i + 1;
    }
    i
}

} // verus!
