//! Indexed reads of a slice that report a bad index instead of panicking.

use vstd::prelude::*;

verus! {

/// Why an indexed read produced no element.
#[derive(Debug, Clone, Copy, PartialEq, Eq, Structural)]
pub enum IndexError {
    /// The requested index, then the length of the sequence.
    OutOfBounds(usize, usize),
}

/// Returns the element of `seq` at `index`, or `OutOfBounds(index, len)`
/// when `index` is not below the length.
pub fn get<T>(seq: &[T], index: usize) -> (r: Result<&T, IndexError>)
    ensures
        index < seq@.len() ==> r == Ok::<&T, IndexError>(&seq@[index as int]),
        index >= seq@.len() ==> r == Err::<&T, IndexError>(
            IndexError::OutOfBounds(index, seq@.len() as usize),
        ),
{
    if index < seq.len() {
        Ok(&seq[index])
    } else {
        Err(IndexError::OutOfBounds(index, seq.len()))
    }
}

/// Reads `arr[index]` as a copy, or reports `OutOfBounds(index, len)` when
/// `index` is not below the length.
pub fn unsafe_access(arr: &[i32], index: usize) -> (r: Result<i32, IndexError>)
    ensures
        index < arr@.len() ==> r == Ok::<i32, IndexError>(arr@[index as int]),
        index >= arr@.len() ==> r == Err::<i32, IndexError>(
            IndexError::OutOfBounds(index, arr@.len() as usize),
        ),
{
    match get(arr, index) {
        Ok(v) => Ok(*v),
        Err(e) => Err(e),
    }
}

} // verus!
