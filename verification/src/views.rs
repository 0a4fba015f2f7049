//! How views of one buffer may follow each other.
//!
//! At any point a buffer has no view, any number of shared views, or exactly
//! one exclusive view. A view is over at its last use, so a new one can be
//! taken after that even inside the same block. Each function here owns the
//! buffer, takes views in an order that this rule admits, reads the text
//! through each, and reports what every reader saw.

use vstd::prelude::*;

verus! {

/// Takes a single exclusive view of the buffer and reads the text through it.
pub fn exclusive_view(buffer: String) -> (seen: String)
    ensures
        seen@ == buffer@,
{
    let mut s = buffer;
    let r1 = &mut s;
    r1.clone()
}

/// Takes two exclusive views one after the other. The first lives in a block
/// of its own and is gone when the block closes; only then is the second
/// taken. Both readers see the buffer's text.
pub fn sequential_exclusive_views(buffer: String) -> (seen: (String, String))
    ensures
        seen.0@ == buffer@,
        seen.1@ == buffer@,
{
    let mut s = buffer;
    let first = {
        let r1 = &mut s;
        r1.clone()
    };
    let r2 = &mut s;
    let second = r2.clone();
    (first, second)
}

/// Takes two shared views, reads through both, and only after their last use
/// takes an exclusive view. Every reader sees the text that the buffer held
/// before any view existed.
pub fn shared_then_exclusive_views(buffer: String) -> (seen: (String, String, String))
    ensures
        seen.0@ == buffer@,
        seen.1@ == buffer@,
        seen.2@ == buffer@,
{
    let mut s = buffer;
    let r1 = &s;
    let r2 = &s;
    let first = r1.clone();
    let second = r2.clone();
    let r3 = &mut s;
    let third = r3.clone();
    (first, second, third)
}

} // verus!
