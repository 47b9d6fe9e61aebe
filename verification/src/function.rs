//! The functions of a source and the lines they span.

use vstd::prelude::*;
use crate::checker::{func_kind, is_func};
use crate::getter::{func_space_name, get_func_name};
use crate::langs::LANG;
use crate::node::{fits, node_ok, Node, Tree};

verus! {

/// Function span data.
#[derive(Debug)]
pub struct FunctionSpan {
    /// The function name
    pub name: String,
    /// The first line of a function
    pub start_line: usize,
    /// The last line of a function
    pub end_line: usize,
    /// If `true`, an error is occurred in determining the span
    /// of a function
    pub error: bool,
}

/// What a `FunctionSpan` stands for.
pub struct FunctionSpanView {
    /// The function name
    pub name: Seq<char>,
    /// The first line of a function
    pub start_line: usize,
    /// The last line of a function
    pub end_line: usize,
    /// Whether the name could not be determined
    pub error: bool,
}

impl View for FunctionSpan {
    type V = FunctionSpanView;

    open spec fn view(&self) -> FunctionSpanView {
        FunctionSpanView {
            name: self.name@,
            start_line: self.start_line,
            end_line: self.end_line,
            error: self.error,
        }
    }
}

/// The span of the function at `i`: its lines counted from one, and its
/// name; where it has no name, an empty name and the error mark.
pub open spec fn span_of(lang: LANG, nodes: Seq<Node>, i: int, code: Seq<u8>) -> FunctionSpanView {
    let name = func_space_name(lang, nodes, i, code);
    FunctionSpanView {
        name: match name {
            Some(n) => n,
            None => Seq::empty(),
        },
        start_line: (nodes[i].start_row + 1) as usize,
        end_line: (nodes[i].end_row + 1) as usize,
        error: name is None,
    }
}

/// The spans of the functions among the first `n` nodes, in the order of the source.
pub open spec fn spans_of(lang: LANG, nodes: Seq<Node>, code: Seq<u8>, n: nat) -> Seq<
    FunctionSpanView,
>
    decreases n,
{
    if n == 0 {
        Seq::empty()
    } else {
        let rest = spans_of(lang, nodes, code, (n - 1) as nat);
        if func_kind(lang, nodes[n - 1].kind_id) {
            rest.push(span_of(lang, nodes, n - 1, code))
        } else {
            rest
        }
    }
}

/// The views of a list of spans.
pub open spec fn spans_view(spans: Seq<FunctionSpan>) -> Seq<FunctionSpanView> {
    spans.map_values(|s: FunctionSpan| s@)
}

/// Detects the span of each function in a code.
///
/// Returns a vector containing the [`FunctionSpan`] of each function
pub fn function(lang: LANG, tree: &Tree, code: &[u8]) -> (spans: Vec<FunctionSpan>)
    requires
        tree.wf(),
        fits(tree@, code@.len()),
    ensures
        spans_view(spans@) == spans_of(lang, tree@, code@, tree@.len()),
{
    let mut spans: Vec<FunctionSpan> = Vec::new();
    let n = tree.len();
    let mut i: usize = 0;
    assert(spans_view(spans@) =~= spans_of(lang, tree@, code@, 0));
    while i < n
        invariant
            tree.wf(),
            fits(tree@, code@.len()),
            n == tree@.len(),
            i <= n,
            spans_view(spans@) == spans_of(lang, tree@, code@, i as nat),
        decreases n - i,
    {
        if is_func(lang, tree, i) {
            let node = tree.node(i);
            assert(node_ok(tree@, i as int));
            let start_line = node.start_row + 1;
            let end_line = node.end_row + 1;
            let ghost before = spans@;
            let span = match get_func_name(lang, tree, i, code) {
                Some(name) => FunctionSpan { name, start_line, end_line, error: false },
                None => FunctionSpan { name: String::new(), start_line, end_line, error: true },
            };
            spans.push(span);
            assert(spans_view(spans@) =~= spans_view(before).push(
                span_of(lang, tree@, i as int, code@),
            ));
        }
        i += 1;
    }
    spans
}

} // verus!
