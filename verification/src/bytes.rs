//! Byte-buffer steps shared by the endpoints: copying into a destination
//! window and moving a prefix out of a pending buffer.

use vstd::prelude::*;

verus! {

/// The smaller of two lengths.
pub open spec fn min_len(a: int, b: int) -> int {
    if a <= b {
        a
    } else {
        b
    }
}

/// A destination after `delivered` has been written over its front: the
/// bytes behind stay as they were.
pub open spec fn filled(before: Seq<u8>, delivered: Seq<u8>) -> Seq<u8> {
    delivered + before.skip(delivered.len() as int)
}

/// Copies `src[from .. from + count]` over `dest[at .. at + count]` and leaves
/// every other byte of `dest` as it was.
pub fn copy_into(dest: &mut [u8], at: usize, src: &[u8], from: usize, count: usize)
    requires
        at + count <= old(dest)@.len(),
        from + count <= src@.len(),
    ensures
        final(dest)@ == old(dest)@.subrange(0, at as int) + src@.subrange(
            from as int,
            from + count,
        ) + old(dest)@.subrange(at + count, old(dest)@.len() as int),
{
    let mut i: usize = 0;
    let dest_len = dest.len();
    let src_len = src.len();
    while i < count
        invariant
            i <= count,
            old(dest)@.len() == dest_len,
            src@.len() == src_len,
            at + count <= old(dest)@.len(),
            from + count <= src@.len(),
            dest@.len() == old(dest)@.len(),
            dest@ == old(dest)@.subrange(0, at as int) + src@.subrange(from as int, from + i)
                + old(dest)@.subrange(at + i, old(dest)@.len() as int),
        decreases count - i,
    {
        dest[at + i] = src[from + i];
        i += 1;
    }
}

} // verus!
