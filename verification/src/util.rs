//! Byte-level helpers for the string bridge: finding the terminating nul
//! byte of a C buffer and scanning host text for interior nul bytes.

use vstd::prelude::*;

verus! {

/// Whether the byte sequence holds a nul byte anywhere.
pub open spec fn contains_nul(s: Seq<u8>) -> bool {
    exists|i: int| 0 <= i < s.len() && s[i] == 0
}

/// The index of the first nul byte of `s`; meaningful only when
/// `contains_nul(s)` holds.
pub open spec fn first_nul_index(s: Seq<u8>) -> int
    decreases s.len(),
{
    if s.len() == 0 {
        0
    } else if s[0] == 0 {
        0
    } else {
        1 + first_nul_index(s.skip(1))
    }
}

/// What `first_nul_index` finds: a nul byte, with nothing but non-nul
/// bytes before it.
pub proof fn lemma_first_nul_index(s: Seq<u8>)
    requires
        contains_nul(s),
    ensures
        0 <= first_nul_index(s) < s.len(),
        s[first_nul_index(s)] == 0,
        forall|j: int| 0 <= j < first_nul_index(s) ==> s[j] != 0,
    decreases s.len(),
{
    if s.len() == 0 {
    } else if s[0] == 0 {
    } else {
        let i = choose|i: int| 0 <= i < s.len() && s[i] == 0;
        assert(s.skip(1)[i - 1] == 0);
        lemma_first_nul_index(s.skip(1));
        let f = first_nul_index(s.skip(1));
        assert(s[1 + f] == s.skip(1)[f]);
        assert forall|j: int| 0 <= j < first_nul_index(s) implies s[j] != 0 by {
            if j > 0 {
                assert(s[j] == s.skip(1)[j - 1]);
            }
        }
    }
}

/// Whether `s` holds a nul byte, found by a linear scan.
pub fn has_nul_byte(s: &Vec<u8>) -> (r: bool)
    ensures
        r == contains_nul(s@),
{
    let n: usize = s.len();
    let mut i: usize = 0;
    while i < n
        invariant
            i <= n,
            n == s@.len(),
            forall|j: int| 0 <= j < i ==> s@[j] != 0,
        decreases n - i,
    {
        if s[i] == 0 {
            return true;
        }
        i = i + 1;
    }
    false
}

/// A byte-for-byte copy of `v`.
pub fn clone_bytes(v: &Vec<u8>) -> (r: Vec<u8>)
    ensures
        r@ == v@,
{
    let n: usize = v.len();
    let mut r: Vec<u8> = Vec::new();
    let mut i: usize = 0;
    while i < n
        invariant
            i <= n,
            n == v@.len(),
            r@ == v@.take(i as int),
        decreases n - i,
    {
        r.push(v[i]);
        i = i + 1;
        proof {
            assert(r@ =~= v@.take(i as int));
        }
    }
    proof {
        assert(v@.take(n as int) =~= v@);
    }
    r
}

/// One full eight-byte chunk starting at `off`, checked through the
/// low-seven-bits mask: when every byte keeps some of its low seven bits,
/// no byte of the chunk is nul.  (A byte whose low seven bits are clear
/// need not be nul; the caller then falls back to the linear scan.)
fn chunk_has_no_nul(s: &Vec<u8>, off: usize) -> (r: bool)
    requires
        off + 8 <= s@.len(),
    ensures
        r ==> forall|j: int| off <= j < off + 8 ==> s@[j] != 0,
{
    let n: usize = s.len();
    let mut k: usize = 0;
    while k < 8
        invariant
            k <= 8,
            n == s@.len(),
            off + 8 <= n,
            forall|j: int| off <= j < off + k ==> s@[j] != 0,
        decreases 8 - k,
    {
        let b = s[off + k];
        if (b & 0x7f) == 0 {
            return false;
        }
        proof {
            assert(b != 0) by (bit_vector)
                requires
                    b & 0x7f != 0,
            ;
        }
        k = k + 1;
    }
    true
}

/// The number of bytes before the first nul: the `strlen` of a
/// null-terminated buffer.  Skips ahead in eight-byte chunks through the
/// low-seven-bits mask, then finishes with a linear scan, as the classic
/// optimized scan does.
pub fn strlen(s: &Vec<u8>) -> (len: usize)
    requires
        contains_nul(s@),
    ensures
        len == first_nul_index(s@),
        len < s@.len(),
        s@[len as int] == 0,
        forall|j: int| 0 <= j < len ==> s@[j] != 0,
{
    proof {
        lemma_first_nul_index(s@);
    }
    let ghost fni = first_nul_index(s@);
    let n: usize = s.len();
    let mut len: usize = 0;
    while n - len >= 8 && chunk_has_no_nul(s, len)
        invariant
            n == s@.len(),
            len <= n,
            forall|j: int| 0 <= j < len ==> s@[j] != 0,
        decreases n - len,
    {
        len = len + 8;
    }
    while s[len] != 0
        invariant
            n == s@.len(),
            0 <= fni < n,
            fni == first_nul_index(s@),
            s@[fni] == 0,
            forall|j: int| 0 <= j < fni ==> s@[j] != 0,
            len <= fni,
        decreases n - len,
    {
        len = len + 1;
    }
    len
}

} // verus!
