//! The sums of a scope tree: every sum of a scope is the scope's own value
//! plus the sums of the scopes directly inside it.

use vstd::prelude::*;
use crate::langs::LANG;
use crate::node::{Node, MAX_NODES};
use crate::spaces::{CodeMetricsView, FuncSpaceView, StateView, new_state};

verus! {

/// One value for each quantity that is summed over scopes.
pub struct Sums {
    /// The cyclomatic complexity.
    pub cyclomatic: int,
    /// The exit points.
    pub exits: int,
    /// The functions.
    pub functions: int,
    /// The closures.
    pub closures: int,
    /// The assignments.
    pub assignments: int,
    /// The branches.
    pub branches: int,
    /// The conditions.
    pub conditions: int,
    /// The public methods of classes.
    pub class_npm: int,
    /// The public methods of interfaces.
    pub interface_npm: int,
    /// The methods of classes.
    pub class_nm: int,
    /// The methods of interfaces.
    pub interface_nm: int,
    /// The public attributes of classes.
    pub class_npa: int,
    /// The public attributes of interfaces.
    pub interface_npa: int,
    /// The attributes of classes.
    pub class_na: int,
    /// The attributes of interfaces.
    pub interface_na: int,
    /// The weighted methods of classes.
    pub class_wmc: int,
    /// The weighted methods of interfaces.
    pub interface_wmc: int,
}

/// All zero.
pub open spec fn no_sums() -> Sums {
    Sums {
        cyclomatic: 0,
        exits: 0,
        functions: 0,
        closures: 0,
        assignments: 0,
        branches: 0,
        conditions: 0,
        class_npm: 0,
        interface_npm: 0,
        class_nm: 0,
        interface_nm: 0,
        class_npa: 0,
        interface_npa: 0,
        class_na: 0,
        interface_na: 0,
        class_wmc: 0,
        interface_wmc: 0,
    }
}

/// What a scope contributes by itself.
pub open spec fn own_values(m: CodeMetricsView) -> Sums {
    Sums {
        cyclomatic: m.cyclomatic.cyclomatic as int,
        exits: m.nexits.exit as int,
        functions: m.nom.functions as int,
        closures: m.nom.closures as int,
        assignments: m.abc.assignments as int,
        branches: m.abc.branches as int,
        conditions: m.abc.conditions as int,
        class_npm: m.npm.class_npm as int,
        interface_npm: m.npm.interface_npm as int,
        class_nm: m.npm.class_nm as int,
        interface_nm: m.npm.interface_nm as int,
        class_npa: m.npa.class_npa as int,
        interface_npa: m.npa.interface_npa as int,
        class_na: m.npa.class_na as int,
        interface_na: m.npa.interface_na as int,
        class_wmc: m.wmc.class_wmc as int,
        interface_wmc: m.wmc.interface_wmc as int,
    }
}

/// The sums a scope reports.
pub open spec fn sum_values(m: CodeMetricsView) -> Sums {
    Sums {
        cyclomatic: m.cyclomatic.cyclomatic_sum as int,
        exits: m.nexits.exit_sum as int,
        functions: m.nom.functions_sum as int,
        closures: m.nom.closures_sum as int,
        assignments: m.abc.assignments_sum as int,
        branches: m.abc.branches_sum as int,
        conditions: m.abc.conditions_sum as int,
        class_npm: m.npm.class_npm_sum as int,
        interface_npm: m.npm.interface_npm_sum as int,
        class_nm: m.npm.class_nm_sum as int,
        interface_nm: m.npm.interface_nm_sum as int,
        class_npa: m.npa.class_npa_sum as int,
        interface_npa: m.npa.interface_npa_sum as int,
        class_na: m.npa.class_na_sum as int,
        interface_na: m.npa.interface_na_sum as int,
        class_wmc: m.wmc.class_wmc_sum as int,
        interface_wmc: m.wmc.interface_wmc_sum as int,
    }
}

/// The sum of two, quantity by quantity.
pub open spec fn plus(a: Sums, b: Sums) -> Sums {
    Sums {
        cyclomatic: a.cyclomatic + b.cyclomatic,
        exits: a.exits + b.exits,
        functions: a.functions + b.functions,
        closures: a.closures + b.closures,
        assignments: a.assignments + b.assignments,
        branches: a.branches + b.branches,
        conditions: a.conditions + b.conditions,
        class_npm: a.class_npm + b.class_npm,
        interface_npm: a.interface_npm + b.interface_npm,
        class_nm: a.class_nm + b.class_nm,
        interface_nm: a.interface_nm + b.interface_nm,
        class_npa: a.class_npa + b.class_npa,
        interface_npa: a.interface_npa + b.interface_npa,
        class_na: a.class_na + b.class_na,
        interface_na: a.interface_na + b.interface_na,
        class_wmc: a.class_wmc + b.class_wmc,
        interface_wmc: a.interface_wmc + b.interface_wmc,
    }
}

/// The sums that a list of scopes reports, added up.
pub open spec fn children_sums(spaces: Seq<FuncSpaceView>) -> Sums
    decreases spaces.len(),
{
    if spaces.len() == 0 {
        no_sums()
    } else {
        plus(children_sums(spaces.drop_last()), sum_values(spaces.last().metrics))
    }
}

/// Whether in `s`, and in every scope inside it, each sum is the scope's own
/// value plus the sums of the scopes directly inside it.
pub open spec fn sums_hold(s: FuncSpaceView) -> bool
    decreases s,
{
    &&& sum_values(s.metrics) == plus(own_values(s.metrics), children_sums(s.spaces))
    &&& forall|i: int| 0 <= i < s.spaces.len() ==> sums_hold(#[trigger] s.spaces[i])
}

/// Whether in an open scope each sum is the sum over the scopes sealed
/// inside it so far, and the sums hold in each of those.
pub open spec fn open_sums_hold(f: StateView) -> bool {
    &&& sum_values(f.space.metrics) == children_sums(f.space.spaces)
    &&& forall|i: int| 0 <= i < f.space.spaces.len() ==> sums_hold(#[trigger] f.space.spaces[i])
}

/// In a scope just opened all sums are zero.
pub proof fn lemma_new_sums(lang: LANG, nodes: Seq<Node>, i: int, code: Seq<u8>)
    ensures
        open_sums_hold(new_state(lang, nodes, i, code)),
{
}

/// Seeing a node changes no sum.
pub proof fn lemma_visited_sums(f: StateView, lang: LANG, nodes: Seq<Node>, i: int, code: Seq<u8>)
    requires
        open_sums_hold(f),
    ensures
        open_sums_hold(f.visited(lang, nodes, i, code)),
{
    reveal(CodeMetricsView::visited);
}

/// Sealing a scope adds its own values to the sums over the scopes inside it.
pub proof fn lemma_sealed_sums(f: StateView, m: nat)
    requires
        open_sums_hold(f),
        f.within(m),
        m <= MAX_NODES,
    ensures
        sums_hold(f.sealed()),
        sum_values(f.sealed().metrics) == plus(own_values(f.space.metrics), sum_values(f.space.metrics)),
{
    reveal(CodeMetricsView::sealed);
    reveal(CodeMetricsView::open_within);
    assert(4 * m * m <= 4 * MAX_NODES * MAX_NODES) by (nonlinear_arith)
        requires
            m <= MAX_NODES,
    ;
}

/// Taking in a sealed scope adds its sums to those of the scope around it.
pub proof fn lemma_absorbed_sums(p: StateView, c: StateView, mp: nat, mc: nat)
    requires
        open_sums_hold(p),
        open_sums_hold(c),
        p.within(mp),
        c.within(mc),
        mp >= 1,
        mp + mc <= MAX_NODES,
    ensures
        open_sums_hold(p.absorbed(c)),
{
    lemma_sealed_sums(c, mc);
    reveal(CodeMetricsView::merged);
    reveal(CodeMetricsView::sealed);
    reveal(CodeMetricsView::open_within);
    assert(4 * mp * mp <= 4 * MAX_NODES * MAX_NODES) by (nonlinear_arith)
        requires
            mp <= MAX_NODES,
    ;
    assert(4 * mc * mc <= 4 * MAX_NODES * MAX_NODES) by (nonlinear_arith)
        requires
            mc <= MAX_NODES,
    ;
    let q = p.absorbed(c);
    assert(q.space.spaces.drop_last() =~= p.space.spaces);
    assert forall|i: int| 0 <= i < q.space.spaces.len() implies sums_hold(
        #[trigger] q.space.spaces[i],
    ) by {
        if i < p.space.spaces.len() {
            assert(q.space.spaces[i] == p.space.spaces[i]);
        }
    }
}

} // verus!
