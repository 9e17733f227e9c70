//! Helpers for the buffers that packets travel in.

use vstd::prelude::*;

verus! {

/// Returns `data` without the zero bytes at its end: the shortest front part
/// of `data` behind which every byte is zero.
pub fn trim_trailing_zeros(data: &[u8]) -> (out: &[u8])
    ensures
        out@.len() <= data@.len(),
        out@ == data@.take(out@.len() as int),
        out@.len() == 0 || out@.last() != 0,
        forall|i: int| out@.len() <= i < data@.len() ==> data@[i] == 0,
{
    let mut end: usize = data.len();
    while end > 0 && data[end - 1] == 0
        invariant
            end <= data@.len(),
            forall|i: int| end <= i < data@.len() ==> data@[i] == 0,
        decreases end,
    {
        end = end - 1;
    }
    let out: &[u8] = vstd::slice::slice_subrange(data, 0, end);
    assert(out@ =~= data@.take(end as int));
    out
}

} // verus!
