//! Small byte-string helpers shared by the message, identity and ledger code.
use vstd::prelude::*;

verus! {

/// Appends the bytes of `src` to `out`.
pub fn append_bytes(out: &mut Vec<u8>, src: &[u8])
    ensures
        final(out)@ == old(out)@ + src@,
{
    let ghost start = out@;
    let mut i: usize = 0;
    while i < src.len()
        invariant
            i <= src@.len(),
            out@ == start + src@.subrange(0, i as int),
        decreases src@.len() - i,
    {
        out.push(src[i]);
        i = i + 1;
        assert(out@ =~= start + src@.subrange(0, i as int));
    }
    assert(src@.subrange(0, i as int) =~= src@);
}

/// The first `n` bytes of `src`.
pub fn prefix_bytes(src: &[u8], n: usize) -> (r: Vec<u8>)
    requires
        n <= src@.len(),
    ensures
        r@ == src@.take(n as int),
{
    let mut out: Vec<u8> = Vec::new();
    let mut i: usize = 0;
    while i < n
        invariant
            i <= n <= src@.len(),
            out@ == src@.take(i as int),
        decreases n - i,
    {
        out.push(src[i]);
        i = i + 1;
        assert(out@ =~= src@.take(i as int));
    }
    out
}

/// Whether two byte strings are equal.
pub fn bytes_equal(a: &[u8], b: &[u8]) -> (r: bool)
    ensures
        r == (a@ == b@),
{
    if a.len() != b.len() {
        return false;
    }
    let mut i: usize = 0;
    while i < a.len()
        invariant
            i <= a@.len(),
            a@.len() == b@.len(),
            forall|j: int| 0 <= j < i ==> a@[j] == b@[j],
        decreases a@.len() - i,
    {
        if a[i] != b[i] {
            return false;
        }
        i = i + 1;
    }
    assert(a@ =~= b@);
    true
}

} // verus!
