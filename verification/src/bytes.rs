//! Fixed-width byte fields: reading them out of a buffer, appending them to
//! one, and comparing them.

use vstd::prelude::*;

verus! {

/// The `width` bytes of `bytes` that start at `offset`.
pub open spec fn field(bytes: Seq<u8>, offset: int, width: int) -> Seq<u8> {
    bytes.subrange(offset, offset + width)
}

/// Copies the `N` bytes of `bytes` that start at `offset` into an array.
pub(crate) fn read_array<const N: usize>(bytes: &[u8], offset: usize) -> (out: [u8; N])
    requires
        offset + N <= bytes@.len(),
    ensures
        out@ == field(bytes@, offset as int, N as int),
{
    let len: usize = bytes.len();
    let mut out = [0u8; N];
    let mut i: usize = 0;
    while i < N
        invariant
            i <= N,
            offset + N <= len,
            len == bytes@.len(),
            forall|j: int| 0 <= j < i ==> out@[j] == bytes@[offset + j],
        decreases N - i,
    {
        out[i] = bytes[offset + i];
        i += 1;
    }
    assert(out@ =~= field(bytes@, offset as int, N as int));
    out
}

/// Appends every byte of `field` to `out`.
pub fn append(out: &mut Vec<u8>, field: &[u8])
    ensures
        final(out)@ == old(out)@ + field@,
{
    let mut i: usize = 0;
    while i < field.len()
        invariant
            i <= field@.len(),
            out@ == old(out)@ + field@.subrange(0, i as int),
        decreases field@.len() - i,
    {
        out.push(field[i]);
        i += 1;
        assert(out@ =~= old(out)@ + field@.subrange(0, i as int));
    }
    assert(field@.subrange(0, field@.len() as int) =~= field@);
}

/// Whether two byte strings are the same, byte for byte.
///
/// Strings of one length are scanned to their end: the scan does not stop at
/// the first difference.
pub fn equal(a: &[u8], b: &[u8]) -> (same: bool)
    ensures
        same == (a@ == b@),
{
    if a.len() != b.len() {
        return false;
    }
    let mut same = true;
    let mut i: usize = 0;
    assert(a@.subrange(0, 0) =~= b@.subrange(0, 0));
    while i < a.len()
        invariant
            i <= a@.len(),
            a@.len() == b@.len(),
            same == (a@.subrange(0, i as int) == b@.subrange(0, i as int)),
        decreases a@.len() - i,
    {
        if a[i] != b[i] {
            same = false;
        }
        i += 1;
        proof {
            let a0 = a@.subrange(0, i - 1);
            let b0 = b@.subrange(0, i - 1);
            let a1 = a@.subrange(0, i as int);
            let b1 = b@.subrange(0, i as int);
            assert(a0 =~= a1.subrange(0, i - 1));
            assert(b0 =~= b1.subrange(0, i - 1));
            assert(a1[i - 1] == a@[i - 1] && b1[i - 1] == b@[i - 1]);
            if a0 == b0 && a@[i - 1] == b@[i - 1] {
                assert(a1 =~= b1);
            }
        }
    }
    assert(a@.subrange(0, a@.len() as int) =~= a@);
    assert(b@.subrange(0, b@.len() as int) =~= b@);
    same
}

} // verus!
