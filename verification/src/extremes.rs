//! The extremes of a scope tree: every minimum and maximum of a scope
//! covers the scope's own value and the extremes of the scopes directly
//! inside it, and so every scope of its subtree.

use vstd::prelude::*;
use crate::langs::LANG;
use crate::metrics::{max_of, min_of, NO_MIN};
use crate::node::Node;
use crate::spaces::{new_state, CodeMetricsView, FuncSpaceView, StateView};

verus! {

/// A least and a most value for each quantity that has extremes.
pub struct Extremes {
    /// The least and the most cyclomatic complexity.
    pub cyclomatic: (u64, u64),
    /// The least and the most exit points.
    pub exits: (u64, u64),
    /// The least and the most functions.
    pub functions: (u64, u64),
    /// The least and the most closures.
    pub closures: (u64, u64),
    /// The least and the most assignments.
    pub assignments: (u64, u64),
    /// The least and the most branches.
    pub branches: (u64, u64),
    /// The least and the most conditions.
    pub conditions: (u64, u64),
    /// The least and the most source lines.
    pub sloc: (u64, u64),
    /// The least and the most rows of code.
    pub ploc: (u64, u64),
    /// The least and the most comment lines.
    pub cloc: (u64, u64),
    /// The least and the most logical lines.
    pub lloc: (u64, u64),
    /// The least and the most blank lines.
    pub blank: (u64, u64),
}

/// The extremes before any value was seen: the sentinel and zero.
pub open spec fn no_extremes() -> Extremes {
    Extremes {
        cyclomatic: (NO_MIN, 0),
        exits: (NO_MIN, 0),
        functions: (NO_MIN, 0),
        closures: (NO_MIN, 0),
        assignments: (NO_MIN, 0),
        branches: (NO_MIN, 0),
        conditions: (NO_MIN, 0),
        sloc: (NO_MIN, 0),
        ploc: (NO_MIN, 0),
        cloc: (NO_MIN, 0),
        lloc: (NO_MIN, 0),
        blank: (NO_MIN, 0),
    }
}

/// The extremes a scope reports.
pub open spec fn reported(m: CodeMetricsView) -> Extremes {
    Extremes {
        cyclomatic: (m.cyclomatic.cyclomatic_min, m.cyclomatic.cyclomatic_max),
        exits: (m.nexits.exit_min, m.nexits.exit_max),
        functions: (m.nom.functions_min, m.nom.functions_max),
        closures: (m.nom.closures_min, m.nom.closures_max),
        assignments: (m.abc.assignments_min, m.abc.assignments_max),
        branches: (m.abc.branches_min, m.abc.branches_max),
        conditions: (m.abc.conditions_min, m.abc.conditions_max),
        sloc: (m.loc.sloc.sloc_min, m.loc.sloc.sloc_max),
        ploc: (m.loc.ploc.ploc_min, m.loc.ploc.ploc_max),
        cloc: (m.loc.cloc.cloc_min, m.loc.cloc.cloc_max),
        lloc: (m.loc.lloc.lloc_min, m.loc.lloc.lloc_max),
        blank: (m.loc.blank_min, m.loc.blank_max),
    }
}

/// The own value of a scope, as least and as most.
pub open spec fn own_values(m: CodeMetricsView) -> Extremes {
    Extremes {
        cyclomatic: (m.cyclomatic.cyclomatic, m.cyclomatic.cyclomatic),
        exits: (m.nexits.exit, m.nexits.exit),
        functions: (m.nom.functions, m.nom.functions),
        closures: (m.nom.closures, m.nom.closures),
        assignments: (m.abc.assignments, m.abc.assignments),
        branches: (m.abc.branches, m.abc.branches),
        conditions: (m.abc.conditions, m.abc.conditions),
        sloc: (m.loc.sloc.value(), m.loc.sloc.value()),
        ploc: (m.loc.ploc.value(), m.loc.ploc.value()),
        cloc: (m.loc.cloc.value(), m.loc.cloc.value()),
        lloc: (m.loc.lloc.logical_lines, m.loc.lloc.logical_lines),
        blank: (m.loc.blank_floor(), m.loc.blank_floor()),
    }
}

/// The extremes over two: the smaller minimum and the larger maximum.
pub open spec fn join(a: Extremes, b: Extremes) -> Extremes {
    Extremes {
        cyclomatic: (min_of(a.cyclomatic.0, b.cyclomatic.0), max_of(a.cyclomatic.1, b.cyclomatic.1)),
        exits: (min_of(a.exits.0, b.exits.0), max_of(a.exits.1, b.exits.1)),
        functions: (min_of(a.functions.0, b.functions.0), max_of(a.functions.1, b.functions.1)),
        closures: (min_of(a.closures.0, b.closures.0), max_of(a.closures.1, b.closures.1)),
        assignments: (min_of(a.assignments.0, b.assignments.0), max_of(a.assignments.1, b.assignments.1)),
        branches: (min_of(a.branches.0, b.branches.0), max_of(a.branches.1, b.branches.1)),
        conditions: (min_of(a.conditions.0, b.conditions.0), max_of(a.conditions.1, b.conditions.1)),
        sloc: (min_of(a.sloc.0, b.sloc.0), max_of(a.sloc.1, b.sloc.1)),
        ploc: (min_of(a.ploc.0, b.ploc.0), max_of(a.ploc.1, b.ploc.1)),
        cloc: (min_of(a.cloc.0, b.cloc.0), max_of(a.cloc.1, b.cloc.1)),
        lloc: (min_of(a.lloc.0, b.lloc.0), max_of(a.lloc.1, b.lloc.1)),
        blank: (min_of(a.blank.0, b.blank.0), max_of(a.blank.1, b.blank.1)),
    }
}

/// The extremes over what a list of scopes reports.
pub open spec fn children_extremes(spaces: Seq<FuncSpaceView>) -> Extremes
    decreases spaces.len(),
{
    if spaces.len() == 0 {
        no_extremes()
    } else {
        join(children_extremes(spaces.drop_last()), reported(spaces.last().metrics))
    }
}

/// Whether in `s`, and in every scope inside it, the extremes are those
/// over the scope's own values and the extremes of the scopes directly inside it.
pub open spec fn extremes_hold(s: FuncSpaceView) -> bool
    decreases s,
{
    &&& reported(s.metrics) == join(own_values(s.metrics), children_extremes(s.spaces))
    &&& forall|i: int| 0 <= i < s.spaces.len() ==> extremes_hold(#[trigger] s.spaces[i])
}

/// Whether in an open scope the extremes are those over the scopes sealed
/// inside it so far, and the extremes hold in each of those.
pub open spec fn open_extremes_hold(f: StateView) -> bool {
    &&& reported(f.space.metrics) == children_extremes(f.space.spaces)
    &&& forall|i: int|
        0 <= i < f.space.spaces.len() ==> extremes_hold(#[trigger] f.space.spaces[i])
}

/// A scope just opened has seen no value.
pub proof fn lemma_new_extremes(lang: LANG, nodes: Seq<Node>, i: int, code: Seq<u8>)
    ensures
        open_extremes_hold(new_state(lang, nodes, i, code)),
{
}

/// Seeing a node changes no extreme.
pub proof fn lemma_visited_extremes(
    f: StateView,
    lang: LANG,
    nodes: Seq<Node>,
    i: int,
    code: Seq<u8>,
)
    requires
        open_extremes_hold(f),
    ensures
        open_extremes_hold(f.visited(lang, nodes, i, code)),
{
    reveal(CodeMetricsView::visited);
}

/// Sealing a scope folds its own values into the extremes over the scopes inside it.
pub proof fn lemma_sealed_extremes(f: StateView)
    requires
        open_extremes_hold(f),
    ensures
        extremes_hold(f.sealed()),
        reported(f.sealed().metrics) == join(own_values(f.space.metrics), reported(f.space.metrics)),
{
    reveal(CodeMetricsView::sealed);
}

/// Taking in a sealed scope folds its extremes into those of the scope around it.
pub proof fn lemma_absorbed_extremes(p: StateView, c: StateView)
    requires
        open_extremes_hold(p),
        open_extremes_hold(c),
    ensures
        open_extremes_hold(p.absorbed(c)),
{
    lemma_sealed_extremes(c);
    reveal(CodeMetricsView::merged);
    let q = p.absorbed(c);
    assert(q.space.spaces.drop_last() =~= p.space.spaces);
    assert forall|i: int| 0 <= i < q.space.spaces.len() implies extremes_hold(
        #[trigger] q.space.spaces[i],
    ) by {
        if i < p.space.spaces.len() {
            assert(q.space.spaces[i] == p.space.spaces[i]);
        }
    }
}

} // verus!
