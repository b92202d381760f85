//! Small helpers for talking to the native interface.

use vstd::layout::size_of;
use vstd::prelude::*;

verus! {

/// Allocates the buffer that receives a native text of `len` bytes: `len`
/// spaces, none of them a terminator.
pub fn alloc_cstring_len(len: usize) -> (buffer: Vec<u8>)
    ensures
        buffer@.len() == len,
        forall|i: int| 0 <= i < len ==> buffer@[i] == 32u8,
{
    let mut buffer: Vec<u8> = Vec::new();
    let mut i: usize = 0;
    while i < len
        invariant
            0 <= i <= len,
            buffer@.len() == i,
            forall|j: int| 0 <= j < i ==> buffer@[j] == 32u8,
        decreases len - i,
    {
        buffer.push(32u8);
        i += 1;
    }
    buffer
}

/// Size in bytes of the elements of `vet`.
pub fn sizeof<T>(vet: &Vec<T>) -> (bytes: usize)
    requires
        vet@.len() * size_of::<T>() <= usize::MAX,
    ensures
        bytes == vet@.len() * size_of::<T>(),
{
    vet.len() * core::mem::size_of::<T>()
}

} // verus!
