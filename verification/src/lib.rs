use vstd::prelude::*;

pub mod render;
pub mod request;
pub mod response;
pub mod state;
pub mod text;
pub mod video;

verus! {

/// Successor of a task-handle identifier, wrapping at the top of the range.
pub open spec fn succ_id(i: u64) -> u64 {
    if i == u64::MAX {
        0u64
    } else {
        (i + 1) as u64
    }
}

/// Allocate the next task-handle identifier.
pub fn next_handle(i: u64) -> (r: u64)
    ensures
        r == succ_id(i),
{
    if i == u64::MAX {
        0
    } else {
        i + 1
    }
}

} // verus!
