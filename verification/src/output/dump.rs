//! Writing out a syntax tree: which nodes, and how they are drawn.

use vstd::prelude::*;

verus! {

/// Configuration options for dumping the `AST` of a code.
#[derive(Debug)]
pub struct DumpCfg {
    /// The first line of code to dump
    ///
    /// If `None`, the code is dumped from the first line of code
    /// in a file
    pub line_start: Option<usize>,
    /// The last line of code to dump
    ///
    /// If `None`, the code is dumped until the last line of code
    /// in a file
    pub line_end: Option<usize>,
}

/// The action that writes out a syntax tree.
#[derive(Debug)]
pub struct Dump {
    _guard: (),
}

/// Whether a node that starts on `row`, counted from one, lies in the range of lines.
pub open spec fn in_range(row: usize, line_start: Option<usize>, line_end: Option<usize>) -> bool {
    &&& (line_start is Some ==> row >= line_start->0)
    &&& (line_end is Some ==> row <= line_end->0)
}

impl DumpCfg {
    /// Tells whether a node that starts on `row`, counted from one, is written out.
    pub fn displays(&self, row: usize) -> (r: bool)
        ensures
            r == in_range(row, self.line_start, self.line_end),
    {
        let mut display = true;
        if let Some(line_start) = self.line_start {
            display = row >= line_start;
        }
        if let Some(line_end) = self.line_end {
            display = display && row <= line_end;
        }
        display
    }
}

/// How a node is drawn: what stands before its children, and what before
/// itself. The root has neither; the last child of a node ends the branch.
pub open spec fn branch_text(is_root: bool, last: bool) -> (Seq<char>, Seq<char>) {
    if is_root {
        (""@, ""@)
    } else if last {
        ("   "@, "\u{256e}\u{2500} "@)
    } else {
        ("\u{2502}  "@, "\u{251c}\u{2500} "@)
    }
}

/// Picks what is drawn before the children of a node and before the node.
pub fn branch(is_root: bool, last: bool) -> (r: (&'static str, &'static str))
    ensures
        (r.0@, r.1@) == branch_text(is_root, last),
{
    if is_root {
        ("", "")
    } else if last {
        ("   ", "\u{256e}\u{2500} ")
    } else {
        ("\u{2502}  ", "\u{251c}\u{2500} ")
    }
}

} // verus!
