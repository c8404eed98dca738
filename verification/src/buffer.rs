//! Moving bytes between a chunk and a caller's buffer of another size.

use vstd::prelude::*;

verus! {

/// Number of bytes that move when `available` bytes are offered to a place
/// with room for `room` bytes: the smaller of the two.
pub open spec fn fitting(available: nat, room: nat) -> nat {
    if available <= room {
        available
    } else {
        room
    }
}

/// Copies into the front of `buf` as much of `src[start..]` as fits, and
/// returns how many bytes that was. The rest of `buf` keeps its contents.
pub fn copy_from(buf: &mut [u8], src: &[u8], start: usize) -> (n: usize)
    requires
        start <= src@.len(),
    ensures
        n == fitting((src@.len() - start) as nat, old(buf)@.len()),
        final(buf)@ == src@.subrange(start as int, start + n) + old(buf)@.skip(n as int),
{
    let total: usize = src.len();
    let available: usize = total - start;
    let n: usize = if available <= buf.len() { available } else { buf.len() };
    let mut i: usize = 0;
    while i < n
        invariant
            i <= n,
            total == src@.len(),
            start + n <= total,
            n <= buf@.len(),
            buf@.len() == old(buf)@.len(),
            buf@ == src@.subrange(start as int, start + i) + old(buf)@.skip(i as int),
        decreases n - i,
    {
        buf[i] = src[start + i];
        i = i + 1;
    }
    n
}

} // verus!
