//! Byte-buffer helpers for staging data that is handed to a GPU queue: a
//! zero-filled buffer of a given size, and an in-place write of one byte
//! slice at an offset.

use vstd::prelude::*;

verus! {

/// A zero-filled buffer of `size` bytes.
pub fn create_buffer(size: usize) -> (r: Vec<u8>)
    ensures
        r@.len() == size,
        forall|i: int| 0 <= i < size ==> r@[i] == 0u8,
{
    let mut temp: Vec<u8> = Vec::new();
    let mut i: usize = 0;
    while i < size
        invariant
            i <= size,
            temp@.len() == i,
            forall|j: int| 0 <= j < i ==> temp@[j] == 0u8,
        decreases size - i,
    {
        temp.push(0);
        i = i + 1;
    }
    temp
}

/// Copy `data` into `buf` starting at `offset`; everything outside the
/// written window keeps its value. The window must lie inside the buffer.
pub fn write_buffer(buf: &mut Vec<u8>, offset: usize, data: &[u8])
    requires
        offset + data@.len() <= old(buf)@.len(),
    ensures
        final(buf)@.len() == old(buf)@.len(),
        final(buf)@.subrange(offset as int, offset + data@.len()) == data@,
        forall|i: int| 0 <= i < offset ==> final(buf)@[i] == old(buf)@[i],
        forall|i: int|
            offset + data@.len() <= i < old(buf)@.len() ==> final(buf)@[i] == old(buf)@[i],
{
    let buf_len = buf.len();
    let mut i: usize = 0;
    while i < data.len()
        invariant
            i <= data@.len(),
            offset + data@.len() <= buf_len,
            buf_len == buf@.len(),
            buf@.len() == old(buf)@.len(),
            forall|j: int| 0 <= j < i ==> buf@[offset + j] == data@[j],
            forall|j: int| 0 <= j < offset ==> buf@[j] == old(buf)@[j],
            forall|j: int| offset + data@.len() <= j < buf@.len() ==> buf@[j] == old(buf)@[j],
        decreases data@.len() - i,
    {
        buf.set(offset + i, data[i]);
        i = i + 1;
    }
    assert(buf@.subrange(offset as int, offset + data@.len()) =~= data@);
}

} // verus!
