//! Small helpers shared by the parsers.

use vstd::prelude::*;

verus! {

/// Advance the read position over `count` bytes without interpreting them,
/// failing when fewer than `count` bytes remain.
pub fn skip(bytes: &[u8], pos: usize, count: usize) -> (r: Option<usize>)
    ensures
        pos + count <= bytes@.len() ==> r == Some((pos + count) as usize),
        pos + count > bytes@.len() ==> r is None,
{
    let n = bytes.len();
    if pos > n || n - pos < count {
        return None;
    }
    Some(pos + count)
}

} // verus!
