//! Reading and changing a text buffer through views that do not own it.
//!
//! A buffer is a `String`; its model is the sequence of its characters, `s@`.

use vstd::prelude::*;
use vstd::string::*;

verus! {

/// The text that a freshly built buffer holds: `Hello`.
pub open spec fn greeting() -> Seq<char> {
    seq!['H', 'e', 'l', 'l', 'o']
}

/// The text that [`change`] puts behind a buffer's content: `, world`.
pub open spec fn suffix() -> Seq<char> {
    seq![',', ' ', 'w', 'o', 'r', 'l', 'd']
}

/// Counts the characters of `s` through a shared view. The view owns nothing,
/// so the caller's buffer is still there, unchanged, after the call.
pub fn calculate_length(s: &String) -> (n: usize)
    ensures
        n as nat == s@.len(),
{
    s.as_str().unicode_len()
}

/// Appends `, world` to the buffer behind an exclusive view. Nothing is copied:
/// the owner reads the longer text from the very buffer it lent out.
pub fn change(some_string: &mut String)
    ensures
        final(some_string)@ == old(some_string)@ + suffix(),
{
    some_string.append(", world");
    proof {
        reveal_strlit(", world");
    }
}

/// What the owner reads after [`change`]: whatever text the buffer held, it
/// is now seven characters longer, still begins with all it held before, and
/// ends with `, world`. So [`calculate_length`] then returns seven more.
pub proof fn lemma_change_extends(before: Seq<char>)
    ensures
        (before + suffix()).len() == before.len() + 7,
        (before + suffix()).take(before.len() as int) == before,
        (before + suffix()).skip(before.len() as int) == suffix(),
{
}

/// Builds a buffer that holds `Hello` and moves it out to the caller, who
/// becomes its owner. Handing out a view of the local buffer instead would be
/// refused: the buffer is gone once the function returns.
pub fn no_dangle() -> (s: String)
    ensures
        s@ == greeting(),
{
    let s = "Hello".to_owned();
    proof {
        reveal_strlit("Hello");
    }
    s
}

} // verus!
