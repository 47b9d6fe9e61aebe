//! Writing out the operators and operands of scopes: how they are drawn.

use vstd::prelude::*;

verus! {

/// How an entry is drawn: what stands before its children, and what before
/// itself.
pub open spec fn entry_text(last: bool) -> (Seq<char>, Seq<char>) {
    if last {
        ("   "@, "`- "@)
    } else {
        ("|  "@, "|- "@)
    }
}

/// Picks what is drawn before the children of an entry and before the entry.
pub fn entry(last: bool) -> (r: (&'static str, &'static str))
    ensures
        (r.0@, r.1@) == entry_text(last),
{
    if last {
        ("   ", "`- ")
    } else {
        ("|  ", "|- ")
    }
}

} // verus!
