//! Small helpers shared by the readers.

use vstd::prelude::*;

verus! {

/// Advance the read position over `count` bytes without interpreting them,
/// failing when fewer than `count` bytes remain.
pub fn skip(bytes: &[u8], pos: usize, count: usize) -> (r: Option<usize>)
    ensures
        pos + count <= bytes@.len() ==> r == Some((pos + count) as usize),
        pos + count > bytes@.len() ==> r is None,
{
    let n = bytes.len();
    if pos > n || n - pos < count {
        return None;
    }
    Some(pos + count)
}

/// Copy the byte range `[from, to)` of `bytes` into an owned vector.
pub fn copy_bytes(bytes: &[u8], from: usize, to: usize) -> (r: Vec<u8>)
    requires
        from <= to <= bytes@.len(),
    ensures
        r@ == bytes@.subrange(from as int, to as int),
{
    let mut r: Vec<u8> = Vec::new();
    let mut i = from;
    while i < to
        invariant
            from <= i <= to <= bytes@.len(),
            r@ == bytes@.subrange(from as int, i as int),
        decreases to - i,
    {
        r.push(bytes[i]);
        proof {
            assert(r@ =~= bytes@.subrange(from as int, i + 1));
        }
        i = i + 1;
    }
    r
}

/// Append every byte of `src` to `out`.
pub fn append_bytes(out: &mut Vec<u8>, src: &[u8])
    ensures
        final(out)@ == old(out)@ + src@,
{
    let ghost out0 = out@;
    let mut i: usize = 0;
    while i < src.len()
        invariant
            i <= src@.len(),
            out@ == out0 + src@.subrange(0, i as int),
        decreases src@.len() - i,
    {
        out.push(src[i]);
        proof {
            assert(out@ =~= out0 + src@.subrange(0, i + 1));
        }
        i = i + 1;
    }
    proof {
        assert(src@.subrange(0, src@.len() as int) =~= src@);
    }
}

} // verus!
