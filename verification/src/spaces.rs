//! Scopes, the tree they form, and the walk that builds it.

use vstd::prelude::*;
use vstd::multiset::*;
use crate::getter::{func_space_name, get_func_space_name, get_space_kind, space_kind};
use crate::langs::LANG;
use crate::metrics::abc;
use crate::metrics::cyclomatic;
use crate::metrics::exit;
use crate::metrics::halstead;
use crate::metrics::halstead::{HalsteadMaps, HalsteadMapsView};
use crate::metrics::loc;
use crate::metrics::nom;
use crate::metrics::npa;
use crate::metrics::npm;
use crate::metrics::wmc;
use crate::node::{fits, node_ok, Node, Tree, MAX_NODES};
use crate::extremes::{
    extremes_hold, lemma_absorbed_extremes, lemma_new_extremes, lemma_sealed_extremes,
    lemma_visited_extremes, open_extremes_hold,
};
use crate::sums::{
    lemma_absorbed_sums, lemma_new_sums, lemma_sealed_sums, lemma_visited_sums, open_sums_hold,
    sums_hold,
};

verus! {

/// The role of a scope, whatever the language.
#[derive(Clone, Copy, Debug, PartialEq, Eq, Structural)]
pub enum SpaceKind {
    /// Not a scope
    Unknown,
    /// A function, method or closure
    Function,
    /// A class
    Class,
    /// A trait
    Trait,
    /// An implementation block
    Impl,
    /// A whole file
    Unit,
    /// An interface
    Interface,
}

/// All metrics of a scope.
#[derive(Debug)]
pub struct CodeMetrics {
    /// `Cyclomatic` data
    pub cyclomatic: cyclomatic::Stats,
    /// `Halstead` data
    pub halstead: halstead::Stats,
    /// `Loc` data
    pub loc: loc::Stats,
    /// `Nom` data
    pub nom: nom::Stats,
    /// `NExits` data
    pub nexits: exit::Stats,
    /// `Abc` data
    pub abc: abc::Stats,
    /// `Npm` data
    pub npm: npm::Stats,
    /// `Npa` data
    pub npa: npa::Stats,
    /// `Wmc` data
    pub wmc: wmc::Stats,
}

/// What a `CodeMetrics` stands for.
pub struct CodeMetricsView {
    /// `Cyclomatic` data
    pub cyclomatic: cyclomatic::Stats,
    /// `Halstead` data
    pub halstead: halstead::Stats,
    /// `Loc` data
    pub loc: loc::StatsView,
    /// `Nom` data
    pub nom: nom::Stats,
    /// `NExits` data
    pub nexits: exit::Stats,
    /// `Abc` data
    pub abc: abc::Stats,
    /// `Npm` data
    pub npm: npm::Stats,
    /// `Npa` data
    pub npa: npa::Stats,
    /// `Wmc` data
    pub wmc: wmc::Stats,
}

impl View for CodeMetrics {
    type V = CodeMetricsView;

    open spec fn view(&self) -> CodeMetricsView {
        CodeMetricsView {
            cyclomatic: self.cyclomatic,
            halstead: self.halstead,
            loc: self.loc@,
            nom: self.nom,
            nexits: self.nexits,
            abc: self.abc,
            npm: self.npm,
            npa: self.npa,
            wmc: self.wmc,
        }
    }
}

/// The metrics of a scope in which nothing was seen yet.
pub open spec fn initial_metrics() -> CodeMetricsView {
    CodeMetricsView {
        cyclomatic: cyclomatic::initial(),
        halstead: halstead::Stats { u_operators: 0, operators: 0, u_operands: 0, operands: 0 },
        loc: loc::initial(),
        nom: nom::initial(),
        nexits: exit::initial(),
        abc: abc::initial(),
        npm: npm::initial(),
        npa: npa::initial(),
        wmc: wmc::initial(),
    }
}

impl Default for CodeMetrics {
    fn default() -> (m: Self)
        ensures
            m.loc.wf(),
            m@ == initial_metrics(),
    {
        CodeMetrics {
            cyclomatic: cyclomatic::Stats::default(),
            halstead: halstead::Stats { u_operators: 0, operators: 0, u_operands: 0, operands: 0 },
            loc: loc::Stats::default(),
            nom: nom::Stats::default(),
            nexits: exit::Stats::default(),
            abc: abc::Stats::default(),
            npm: npm::Stats::default(),
            npa: npa::Stats::default(),
            wmc: wmc::Stats::default(),
        }
    }
}

impl CodeMetricsView {
    /// The metrics after those of a sealed scope were merged in. The
    /// Halstead counts stay: they follow from the tables of the scope.
    #[verifier::opaque]
    pub open spec fn merged(self, other: CodeMetricsView) -> CodeMetricsView {
        CodeMetricsView {
            cyclomatic: self.cyclomatic.merged(other.cyclomatic),
            halstead: self.halstead,
            loc: self.loc.merged(other.loc),
            nom: self.nom.merged(other.nom),
            nexits: self.nexits.merged(other.nexits),
            abc: self.abc.merged(other.abc),
            npm: self.npm.merged(other.npm),
            npa: self.npa.merged(other.npa),
            wmc: self.wmc.merged(other.wmc),
        }
    }

    /// Whether `other` can be merged in without leaving the range of the counters.
    #[verifier::opaque]
    pub open spec fn can_merge(self, other: CodeMetricsView) -> bool {
        &&& self.cyclomatic.can_merge(other.cyclomatic)
        &&& self.loc.can_merge(other.loc)
        &&& self.nom.can_merge(other.nom)
        &&& self.nexits.can_merge(other.nexits)
        &&& self.abc.can_merge(other.abc)
        &&& self.npm.can_merge(other.npm)
        &&& self.npa.can_merge(other.npa)
        &&& self.wmc.can_merge(other.wmc)
    }

    /// Whether the counters of an open scope stay within what `m` nodes can add.
    #[verifier::opaque]
    pub open spec fn open_within(self, m: nat) -> bool {
        &&& self.cyclomatic.open_within(m)
        &&& self.loc.within(m)
        &&& self.nom.open_within(m)
        &&& self.nexits.open_within(m)
        &&& self.abc.open_within(m)
        &&& self.npm.open_within(m)
        &&& self.npa.open_within(m)
        &&& self.wmc.open_within(m)
    }

    /// Whether the counters of a sealed scope stay within what `m` nodes can add.
    #[verifier::opaque]
    pub open spec fn sealed_within(self, m: nat) -> bool {
        &&& self.cyclomatic.sealed_within(m)
        &&& self.loc.within(m)
        &&& self.nom.sealed_within(m)
        &&& self.nexits.sealed_within(m)
        &&& self.abc.sealed_within(m)
        &&& self.npm.sealed_within(m)
        &&& self.npa.sealed_within(m)
        &&& self.wmc.sealed_within(m)
    }

    /// The metrics after the node at `i` was seen.
    #[verifier::opaque]
    pub open spec fn visited(self, lang: LANG, nodes: Seq<Node>, i: int) -> CodeMetricsView {
        let kind = space_kind(lang, nodes, i);
        CodeMetricsView {
            cyclomatic: self.cyclomatic.visited(lang, nodes, i),
            halstead: self.halstead,
            loc: self.loc.visited(
                lang,
                nodes,
                i,
                kind != SpaceKind::Unknown,
                kind == SpaceKind::Unit,
            ),
            nom: self.nom.visited(lang, nodes, i),
            nexits: self.nexits.visited(lang, nodes, i),
            abc: self.abc.visited(lang, nodes, i),
            npm: self.npm.visited(lang, nodes, i),
            npa: self.npa.visited(lang, nodes, i),
            wmc: self.wmc,
        }
    }

    /// The metrics of a scope of kind `kind` after it was sealed with the
    /// tables `maps`: own values enter sums and extremes, the Halstead counts
    /// are read off the tables, and the exit points are averaged over the
    /// functions and closures of the scope.
    #[verifier::opaque]
    pub open spec fn sealed(self, kind: SpaceKind, maps: HalsteadMapsView) -> CodeMetricsView {
        let cyclomatic = self.cyclomatic.sealed();
        let nom = self.nom.sealed();
        CodeMetricsView {
            cyclomatic,
            halstead: maps.stats(),
            loc: self.loc.sealed(),
            nom,
            nexits: exit::Stats {
                total_space_functions: (nom.functions_sum + nom.closures_sum) as u64,
                ..self.nexits.sealed()
            },
            abc: self.abc.sealed(),
            npm: self.npm.sealed(),
            npa: self.npa.sealed(),
            wmc: self.wmc.sealed().noted(kind, cyclomatic),
        }
    }
}

impl CodeMetrics {
    /// Whether the parts are well formed.
    pub open spec fn wf(&self) -> bool {
        self.loc.wf()
    }

    /// Merges the metrics of a sealed scope into these.
    pub fn merge(&mut self, other: &CodeMetrics)
        requires
            old(self).wf(),
            other.wf(),
            old(self)@.can_merge(other@),
        ensures
            final(self).wf(),
            final(self)@ == old(self)@.merged(other@),
    {
        reveal(CodeMetricsView::merged);
        reveal(CodeMetricsView::can_merge);
        self.cyclomatic.merge(&other.cyclomatic);
        self.halstead.merge(&other.halstead);
        self.loc.merge(&other.loc);
        self.nom.merge(&other.nom);
        self.nexits.merge(&other.nexits);
        self.abc.merge(&other.abc);
        self.npm.merge(&other.npm);
        self.npa.merge(&other.npa);
        self.wmc.merge(&other.wmc);
    }
}

/// Function space data.
#[derive(Debug)]
pub struct FuncSpace {
    /// The name of a function space
    ///
    /// If `None`, the scope has no name of its own
    pub name: Option<String>,
    /// The first line of a function space
    pub start_line: usize,
    /// The last line of a function space
    pub end_line: usize,
    /// The space kind
    pub kind: SpaceKind,
    /// All subspaces contained in a function space
    pub spaces: Vec<FuncSpace>,
    /// All metrics of a function space
    pub metrics: CodeMetrics,
}

/// What a `FuncSpace` stands for.
pub struct FuncSpaceView {
    /// The name of the scope.
    pub name: Option<Seq<char>>,
    /// The first line of the scope.
    pub start_line: usize,
    /// The last line of the scope.
    pub end_line: usize,
    /// The kind of the scope.
    pub kind: SpaceKind,
    /// The scopes inside it, in the order of the source.
    pub spaces: Seq<FuncSpaceView>,
    /// The metrics of the scope.
    pub metrics: CodeMetricsView,
}

/// The views of a list of scopes.
pub open spec fn spaces_view(spaces: Seq<FuncSpace>) -> Seq<FuncSpaceView>
    decreases spaces,
{
    if spaces.len() == 0 {
        Seq::empty()
    } else {
        spaces_view(spaces.drop_last()).push(space_view(spaces.last()))
    }
}

/// The view of a scope.
pub open spec fn space_view(s: FuncSpace) -> FuncSpaceView
    decreases s,
{
    FuncSpaceView {
        name: match s.name {
            Some(n) => Some(n@),
            None => None,
        },
        start_line: s.start_line,
        end_line: s.end_line,
        kind: s.kind,
        spaces: spaces_view(s.spaces@),
        metrics: s.metrics@,
    }
}

impl View for FuncSpace {
    type V = FuncSpaceView;

    open spec fn view(&self) -> FuncSpaceView {
        space_view(*self)
    }
}

/// Whether the metrics of a scope, and of every scope inside it, are well formed.
pub open spec fn well_formed(s: FuncSpace) -> bool
    decreases s,
{
    &&& s.metrics.wf()
    &&& forall|i: int| 0 <= i < s.spaces@.len() ==> well_formed(#[trigger] s.spaces@[i])
}

/// The name a scope is shown under when it has none of its own.
pub open spec fn anonymous() -> Seq<char> {
    "<anonymous>"@
}

impl FuncSpace {
    /// The name of the scope as it is shown.
    pub fn display_name(&self) -> (r: String)
        ensures
            r@ == (match self.name {
                Some(n) => n@,
                None => anonymous(),
            }),
    {
        match &self.name {
            Some(n) => n.clone(),
            None => "<anonymous>".to_owned(),
        }
    }
}

/// A scope that is still open during the walk.
#[derive(Debug)]
pub struct State {
    /// The scope as far as it is known.
    pub space: FuncSpace,
    /// The operators and operands seen in the scope and in the scopes sealed inside it.
    pub halstead_maps: HalsteadMaps,
    /// Position of the node that opened the scope.
    pub start: usize,
    /// Position one past the last node of the scope.
    pub end: usize,
}

/// What a `State` stands for.
pub struct StateView {
    /// The scope as far as it is known.
    pub space: FuncSpaceView,
    /// The operators and operands seen so far.
    pub maps: HalsteadMapsView,
    /// Position of the node that opened the scope.
    pub start: usize,
    /// Position one past the last node of the scope.
    pub end: usize,
}

impl View for State {
    type V = StateView;

    open spec fn view(&self) -> StateView {
        StateView {
            space: self.space@,
            maps: self.halstead_maps@,
            start: self.start,
            end: self.end,
        }
    }
}

/// The views of a stack of open scopes.
pub open spec fn states_view(stack: Seq<State>) -> Seq<StateView> {
    stack.map_values(|f: State| f@)
}

/// The scope that the node at `i` opens, before any node was seen in it.
pub open spec fn new_state(lang: LANG, nodes: Seq<Node>, i: int, code: Seq<u8>) -> StateView {
    let kind = space_kind(lang, nodes, i);
    StateView {
        space: FuncSpaceView {
            name: func_space_name(lang, nodes, i, code),
            start_line: (nodes[i].start_row + 1) as usize,
            end_line: (nodes[i].end_row + 1) as usize,
            kind,
            spaces: Seq::empty(),
            metrics: CodeMetricsView {
                wmc: wmc::initial().noted(kind, cyclomatic::initial()),
                ..initial_metrics()
            },
        },
        maps: HalsteadMapsView { operators: Multiset::empty(), operands: Multiset::empty() },
        start: i as usize,
        end: nodes[i].end,
    }
}

impl StateView {
    /// Whether the counters of the scope stay within what `m` nodes can add.
    pub open spec fn within(self, m: nat) -> bool {
        &&& self.space.metrics.open_within(m)
        &&& self.maps.operators.len() <= m
        &&& self.maps.operands.len() <= m
    }

    /// Whether one more node can be seen without leaving the range of the counters.
    pub open spec fn has_room(self) -> bool {
        let m = self.space.metrics;
        &&& m.cyclomatic.cyclomatic < u64::MAX
        &&& m.nexits.exit < u64::MAX
        &&& m.nom.functions < u64::MAX
        &&& m.nom.closures < u64::MAX
        &&& m.loc.lloc.logical_lines < u64::MAX
        &&& m.loc.cloc.only_comment_lines + m.loc.cloc.code_comment_lines + loc::MAX_SPAN
            <= u64::MAX
        &&& self.maps.operators.len() < u64::MAX
        &&& self.maps.operands.len() < u64::MAX
    }

    /// Whether the scope can be sealed without leaving the range of the counters.
    pub open spec fn can_seal(self) -> bool {
        let m = self.space.metrics;
        &&& m.cyclomatic.cyclomatic_sum + m.cyclomatic.cyclomatic <= u64::MAX
        &&& m.nexits.exit_sum + m.nexits.exit <= u64::MAX
        &&& m.nom.can_seal()
        &&& m.nom.functions_sum + m.nom.functions + m.nom.closures_sum + m.nom.closures
            <= u64::MAX
        &&& m.abc.can_seal()
        &&& m.npm.can_seal()
        &&& m.npa.can_seal()
        &&& m.wmc.can_seal()
    }

    /// The scope after the node at `i` was seen in it.
    pub open spec fn visited(self, lang: LANG, nodes: Seq<Node>, i: int, code: Seq<u8>) -> StateView {
        StateView {
            space: FuncSpaceView {
                metrics: self.space.metrics.visited(lang, nodes, i),
                ..self.space
            },
            maps: self.maps.visited(lang, nodes, i, code),
            ..self
        }
    }

    /// The scope as it is when sealed.
    pub open spec fn sealed(self) -> FuncSpaceView {
        FuncSpaceView {
            metrics: self.space.metrics.sealed(self.space.kind, self.maps),
            ..self.space
        }
    }

    /// Whether the sealed scope `child` can be taken in without leaving the
    /// range of the counters.
    pub open spec fn can_absorb(self, child: StateView) -> bool {
        &&& child.can_seal()
        &&& self.space.metrics.can_merge(child.sealed().metrics)
        &&& self.maps.operators.len() + child.maps.operators.len() <= u64::MAX
        &&& self.maps.operands.len() + child.maps.operands.len() <= u64::MAX
    }

    /// The scope after `child`, a scope inside it, was sealed and taken in:
    /// the child's tables and metrics are merged in, and the child becomes
    /// the last of the scopes inside.
    pub open spec fn absorbed(self, child: StateView) -> StateView {
        let c = child.sealed();
        StateView {
            space: FuncSpaceView {
                spaces: self.space.spaces.push(c),
                metrics: self.space.metrics.merged(c.metrics),
                ..self.space
            },
            maps: self.maps.merged(child.maps),
            ..self
        }
    }
}

/// The stack after every scope that ends at or before the node at `i` was
/// sealed and taken in by the scope around it. The outermost scope stays open.
pub open spec fn close_until(stack: Seq<StateView>, i: int) -> Seq<StateView>
    decreases stack.len(),
{
    if stack.len() > 1 && stack.last().end <= i {
        let parent = stack[stack.len() - 2];
        close_until(stack.drop_last().drop_last().push(parent.absorbed(stack.last())), i)
    } else {
        stack
    }
}

/// The stack after the node at `i` was seen: the node opens its scope if it
/// is one, and it is seen in the innermost open scope.
pub open spec fn seen(closed: Seq<StateView>, lang: LANG, nodes: Seq<Node>, code: Seq<u8>, i: int) -> Seq<
    StateView,
> {
    if space_kind(lang, nodes, i) != SpaceKind::Unknown {
        closed.push(new_state(lang, nodes, i, code).visited(lang, nodes, i, code))
    } else if closed.len() > 0 {
        closed.drop_last().push(closed.last().visited(lang, nodes, i, code))
    } else {
        closed
    }
}

/// The stack after the node at `i` was visited: scopes that ended are
/// closed, and then the node is seen.
pub open spec fn step(stack: Seq<StateView>, lang: LANG, nodes: Seq<Node>, code: Seq<u8>, i: int) -> Seq<
    StateView,
> {
    seen(close_until(stack, i), lang, nodes, code, i)
}

/// The stack after the first `n` nodes were visited.
pub open spec fn run(lang: LANG, nodes: Seq<Node>, code: Seq<u8>, n: nat) -> Seq<StateView>
    decreases n,
{
    if n == 0 {
        Seq::empty()
    } else {
        step(run(lang, nodes, code, (n - 1) as nat), lang, nodes, code, n - 1)
    }
}

/// The scope tree of a source: the file's scope after all nodes were visited
/// and all scopes sealed, named by the path of the file.
pub open spec fn analysis(lang: LANG, nodes: Seq<Node>, code: Seq<u8>, path: Seq<char>) -> FuncSpaceView {
    let stack = close_until(run(lang, nodes, code, nodes.len()), nodes.len() as int);
    FuncSpaceView { name: Some(path), ..stack[0].sealed() }
}

impl State {
    /// Whether the parts are well formed.
    pub open spec fn wf(&self) -> bool {
        well_formed(self.space) && self.halstead_maps.wf()
    }
}

/// Opens the scope of the node at `i`.
fn open_state(lang: LANG, tree: &Tree, i: usize, code: &[u8], kind: SpaceKind) -> (f: State)
    requires
        tree.wf(),
        i < tree@.len(),
        fits(tree@, code@.len()),
        kind == space_kind(lang, tree@, i as int),
    ensures
        f.wf(),
        f@ == new_state(lang, tree@, i as int, code@),
{
    let node = tree.node(i);
    assert(node_ok(tree@, i as int));
    let mut metrics = CodeMetrics::default();
    wmc::compute(kind, &metrics.cyclomatic, &mut metrics.wmc);
    let space = FuncSpace {
        name: get_func_space_name(lang, tree, i, code),
        start_line: node.start_row + 1,
        end_line: node.end_row + 1,
        kind,
        spaces: Vec::new(),
        metrics,
    };
    let f = State { space, halstead_maps: HalsteadMaps::new(), start: i, end: node.end };
    assert(f@.space.name == func_space_name(lang, tree@, i as int, code@));
    f
}

/// Sees the node at `i` in an open scope.
fn visit(frame: &mut State, lang: LANG, tree: &Tree, i: usize, code: &[u8])
    requires
        tree.wf(),
        i < tree@.len(),
        fits(tree@, code@.len()),
        old(frame).wf(),
        old(frame)@.has_room(),
    ensures
        final(frame).wf(),
        final(frame)@ == old(frame)@.visited(lang, tree@, i as int, code@),
{
    reveal(CodeMetricsView::visited);
    let kind = get_space_kind(lang, tree, i);
    cyclomatic::compute(lang, tree, i, &mut frame.space.metrics.cyclomatic);
    halstead::compute(lang, tree, i, code, &mut frame.halstead_maps);
    loc::compute(
        lang,
        tree,
        i,
        &mut frame.space.metrics.loc,
        kind != SpaceKind::Unknown,
        kind == SpaceKind::Unit,
    );
    nom::compute(lang, tree, i, &mut frame.space.metrics.nom);
    exit::compute(lang, tree, i, &mut frame.space.metrics.nexits);
    abc::compute(lang, tree, i, &mut frame.space.metrics.abc);
    npm::compute(lang, tree, i, &mut frame.space.metrics.npm);
    npa::compute(lang, tree, i, &mut frame.space.metrics.npa);
}

/// Seals a scope: its own values enter the sums and extremes, and the
/// derived values are computed.
fn seal(frame: &mut State)
    requires
        old(frame).wf(),
        old(frame)@.can_seal(),
    ensures
        final(frame).wf(),
        final(frame).space@ == old(frame)@.sealed(),
        final(frame).halstead_maps == old(frame).halstead_maps,
        final(frame).start == old(frame).start,
        final(frame).end == old(frame).end,
{
    reveal(CodeMetricsView::sealed);
    frame.space.metrics.cyclomatic.compute_minmax();
    frame.space.metrics.nexits.compute_minmax();
    frame.space.metrics.nom.compute_minmax();
    frame.space.metrics.loc.compute_minmax();
    frame.space.metrics.abc.compute_minmax();
    frame.space.metrics.wmc.compute_sum();
    frame.space.metrics.npm.compute_sum();
    frame.space.metrics.npa.compute_sum();
    frame.halstead_maps.finalize(&mut frame.space.metrics.halstead);
    let cyclomatic = frame.space.metrics.cyclomatic;
    wmc::compute(frame.space.kind, &cyclomatic, &mut frame.space.metrics.wmc);
    let nom_total = frame.space.metrics.nom.functions_sum + frame.space.metrics.nom.closures_sum;
    frame.space.metrics.nexits.finalize(nom_total);
}

/// Seals `child` and takes it into `parent`, the scope around it.
fn absorb(parent: &mut State, child: State)
    requires
        old(parent).wf(),
        child.wf(),
        old(parent)@.can_absorb(child@),
    ensures
        final(parent).wf(),
        final(parent)@ == old(parent)@.absorbed(child@),
{
    let mut child = child;
    seal(&mut child);
    parent.halstead_maps.merge(&child.halstead_maps);
    parent.space.metrics.merge(&child.space.metrics);
    proof {
        assert(parent.space.spaces@.push(child.space).drop_last() =~= parent.space.spaces@);
    }
    parent.space.spaces.push(child.space);
}

/// Whether the scope at depth `j` of the stack is consistent once `i` of
/// `n` nodes were visited: it was opened before the scope above it, at
/// least one node was seen in it, its counters stay within what the
/// nodes seen in it can add, and its sums and extremes are those of the
/// scopes sealed in it.
pub open spec fn state_ok(stack: Seq<State>, j: int, i: int, n: int) -> bool {
    let next = if j + 1 < stack.len() {
        stack[j + 1].start as int
    } else {
        i
    };
    &&& stack[j].wf()
    &&& stack[j].start < next
    &&& stack[j].end <= n
    &&& stack[j]@.within((next - stack[j].start) as nat)
    &&& open_sums_hold(stack[j]@)
    &&& open_extremes_hold(stack[j]@)
}

/// Whether the stack is consistent once `i` of `n` nodes were visited.
pub open spec fn stack_ok(stack: Seq<State>, i: int, n: int) -> bool {
    &&& 0 <= i <= n <= MAX_NODES
    &&& forall|j: int| 0 <= j < stack.len() ==> #[trigger] state_ok(stack, j, i, n)
}

/// A scope whose counters stay within what the nodes of a tree can add has
/// room for one more node, and can be sealed.
pub proof fn lemma_within_room(f: StateView, m: nat)
    requires
        f.within(m),
        m <= MAX_NODES,
    ensures
        f.has_room(),
        f.can_seal(),
{
    reveal(CodeMetricsView::merged);
    reveal(CodeMetricsView::can_merge);
    reveal(CodeMetricsView::open_within);
    reveal(CodeMetricsView::sealed_within);
    reveal(CodeMetricsView::visited);
    reveal(CodeMetricsView::sealed);
    assert(4 * m * m <= 4 * MAX_NODES * MAX_NODES) by (nonlinear_arith)
        requires
            m <= MAX_NODES,
    ;
    assert(loc::MAX_SPAN * m <= loc::MAX_SPAN * MAX_NODES) by (nonlinear_arith)
        requires
            m <= MAX_NODES,
    ;
}

/// Seeing one more node keeps the counters within what the nodes seen can add.
pub proof fn lemma_visit_within(f: StateView, m: nat, lang: LANG, nodes: Seq<Node>, i: int, code: Seq<u8>)
    requires
        f.within(m),
        f.space.metrics.loc.wf(),
        0 <= i < nodes.len(),
        node_ok(nodes, i),
    ensures
        f.visited(lang, nodes, i, code).within(m + 1),
{
    reveal(CodeMetricsView::merged);
    reveal(CodeMetricsView::can_merge);
    reveal(CodeMetricsView::open_within);
    reveal(CodeMetricsView::sealed_within);
    reveal(CodeMetricsView::visited);
    reveal(CodeMetricsView::sealed);
    let g = f.visited(lang, nodes, i, code);
    assert(loc::MAX_SPAN * (m + 1) == loc::MAX_SPAN * m + loc::MAX_SPAN) by (nonlinear_arith);
    assert(4 * m * m <= 4 * (m + 1) * (m + 1)) by (nonlinear_arith);
    vstd::multiset::lemma_insert_len(f.maps.operators, nodes[i].kind_id);
    vstd::multiset::lemma_insert_len(
        f.maps.operands,
        code.subrange(nodes[i].start_byte as int, nodes[i].end_byte as int),
    );
    assert(g.space.metrics.loc.within(m + 1));
}

/// A scope just opened has room for its first node, and after that node its
/// counters stay within what one node can add.
pub proof fn lemma_new_state(lang: LANG, nodes: Seq<Node>, i: int, code: Seq<u8>)
    requires
        0 <= i < nodes.len(),
        node_ok(nodes, i),
    ensures
        new_state(lang, nodes, i, code).has_room(),
        new_state(lang, nodes, i, code).visited(lang, nodes, i, code).within(1),
{
    reveal(CodeMetricsView::merged);
    reveal(CodeMetricsView::can_merge);
    reveal(CodeMetricsView::open_within);
    reveal(CodeMetricsView::sealed_within);
    reveal(CodeMetricsView::visited);
    reveal(CodeMetricsView::sealed);
    let f = new_state(lang, nodes, i, code);
    let g = f.visited(lang, nodes, i, code);
    vstd::multiset::lemma_insert_len(f.maps.operators, nodes[i].kind_id);
    vstd::multiset::lemma_insert_len(
        f.maps.operands,
        code.subrange(nodes[i].start_byte as int, nodes[i].end_byte as int),
    );
    assert(g.space.metrics.loc.within(1));
}

/// A scope can take in a scope inside it, and its counters then stay within
/// what the nodes of both can add.
pub proof fn lemma_absorb_within(p: StateView, c: StateView, mp: nat, mc: nat)
    requires
        p.within(mp),
        c.within(mc),
        mp >= 1,
        mc >= 1,
        mp + mc <= MAX_NODES,
    ensures
        p.can_absorb(c),
        p.absorbed(c).within(mp + mc),
{
    reveal(CodeMetricsView::merged);
    reveal(CodeMetricsView::can_merge);
    reveal(CodeMetricsView::open_within);
    reveal(CodeMetricsView::sealed_within);
    reveal(CodeMetricsView::visited);
    reveal(CodeMetricsView::sealed);
    lemma_within_room(c, mc);
    assert(4 * mp * mp + 2 * mc + 4 * mc * mc <= 4 * (mp + mc) * (mp + mc)) by (nonlinear_arith)
        requires
            mp >= 1,
    ;
    assert(4 * (mp + mc) * (mp + mc) <= 4 * MAX_NODES * MAX_NODES) by (nonlinear_arith)
        requires
            mp + mc <= MAX_NODES,
    ;
    assert(loc::MAX_SPAN * (mp + mc) == loc::MAX_SPAN * mp + loc::MAX_SPAN * mc)
        by (nonlinear_arith);
    assert(loc::MAX_SPAN * (mp + mc) <= loc::MAX_SPAN * MAX_NODES) by (nonlinear_arith)
        requires
            mp + mc <= MAX_NODES,
    ;
    let s = c.sealed().metrics;
    assert(s.sealed_within(mc));
    assert(p.space.metrics.can_merge(s));
    assert(p.absorbed(c).space.metrics.open_within(mp + mc));
}

/// Closes every scope that ends at or before the node at `i`.
fn close(stack: &mut Vec<State>, i: usize, Ghost(n): Ghost<int>)
    requires
        stack_ok(old(stack)@, i as int, n),
    ensures
        stack_ok(final(stack)@, i as int, n),
        states_view(final(stack)@) == close_until(states_view(old(stack)@), i as int),
        old(stack)@.len() >= 1 ==> final(stack)@.len() >= 1,
        final(stack)@.len() <= 1 || final(stack)@.last().end > i,
        final(stack)@.len() >= 1 ==> final(stack)@[0].end == old(stack)@[0].end,
{
    while stack.len() > 1 && stack[stack.len() - 1].end <= i
        invariant
            stack_ok(stack@, i as int, n),
            close_until(states_view(stack@), i as int) == close_until(
                states_view(old(stack)@),
                i as int,
            ),
            old(stack)@.len() >= 1 ==> stack@.len() >= 1,
            stack@.len() >= 1 ==> stack@[0].end == old(stack)@[0].end,
        decreases stack@.len(),
    {
        let ghost before = stack@;
        let ghost len = stack@.len() as int;
        assert(state_ok(before, len - 1, i as int, n));
        assert(state_ok(before, len - 2, i as int, n));
        let child = stack.pop().unwrap();
        let mut parent = stack.pop().unwrap();
        proof {
            lemma_absorb_within(
                parent@,
                child@,
                (child.start - parent.start) as nat,
                (i - child.start) as nat,
            );
            lemma_absorbed_sums(
                parent@,
                child@,
                (child.start - parent.start) as nat,
                (i - child.start) as nat,
            );
            lemma_absorbed_extremes(parent@, child@);
        }
        absorb(&mut parent, child);
        stack.push(parent);
        proof {
            let v = states_view(before);
            assert(states_view(stack@) =~= v.drop_last().drop_last().push(
                v[len - 2].absorbed(v.last()),
            ));
            assert forall|j: int| 0 <= j < stack@.len() implies #[trigger] state_ok(
                stack@,
                j,
                i as int,
                n,
            ) by {
                assert(state_ok(before, j, i as int, n));
            }
        }
    }
}

/// Sees the node at `i`: opens its scope if it is one, and accounts for it
/// in the innermost open scope.
fn advance(stack: &mut Vec<State>, lang: LANG, tree: &Tree, code: &[u8], i: usize)
    requires
        tree.wf(),
        fits(tree@, code@.len()),
        i < tree@.len(),
        stack_ok(old(stack)@, i as int, tree@.len() as int),
        old(stack)@.len() >= 1 || space_kind(lang, tree@, i as int) != SpaceKind::Unknown,
    ensures
        stack_ok(final(stack)@, i + 1, tree@.len() as int),
        states_view(final(stack)@) == seen(states_view(old(stack)@), lang, tree@, code@, i as int),
        final(stack)@.len() >= 1,
        old(stack)@.len() >= 1 ==> final(stack)@[0].end == old(stack)@[0].end,
        old(stack)@.len() == 0 ==> final(stack)@[0].end == tree@[i as int].end,
{
    let ghost n = tree@.len() as int;
    let ghost closed = stack@;
    assert(node_ok(tree@, i as int));
    let kind = get_space_kind(lang, tree, i);
    if kind != SpaceKind::Unknown {
        let mut frame = open_state(lang, tree, i, code, kind);
        proof {
            lemma_new_state(lang, tree@, i as int, code@);
            lemma_new_sums(lang, tree@, i as int, code@);
            lemma_new_extremes(lang, tree@, i as int, code@);
            lemma_visited_extremes(
                new_state(lang, tree@, i as int, code@),
                lang,
                tree@,
                i as int,
                code@,
            );
            lemma_visited_sums(
                new_state(lang, tree@, i as int, code@),
                lang,
                tree@,
                i as int,
                code@,
            );
        }
        visit(&mut frame, lang, tree, i, code);
        stack.push(frame);
        proof {
            assert(states_view(stack@) =~= states_view(closed).push(
                new_state(lang, tree@, i as int, code@).visited(lang, tree@, i as int, code@),
            ));
            assert forall|j: int| 0 <= j < stack@.len() implies #[trigger] state_ok(
                stack@,
                j,
                i + 1,
                n,
            ) by {
                if j < closed.len() {
                    assert(state_ok(closed, j, i as int, n));
                }
            }
        }
    } else {
        let ghost top = closed.len() - 1;
        assert(state_ok(closed, top, i as int, n));
        let mut frame = stack.pop().unwrap();
        proof {
            lemma_within_room(frame@, (i - frame.start) as nat);
            lemma_visit_within(frame@, (i - frame.start) as nat, lang, tree@, i as int, code@);
            lemma_visited_sums(frame@, lang, tree@, i as int, code@);
            lemma_visited_extremes(frame@, lang, tree@, i as int, code@);
        }
        visit(&mut frame, lang, tree, i, code);
        stack.push(frame);
        proof {
            assert(states_view(stack@) =~= states_view(closed).drop_last().push(
                states_view(closed).last().visited(lang, tree@, i as int, code@),
            ));
            assert forall|j: int| 0 <= j < stack@.len() implies #[trigger] state_ok(
                stack@,
                j,
                i + 1,
                n,
            ) by {
                assert(state_ok(closed, j, i as int, n));
            }
        }
    }
}

/// Computes the scope tree of a source, with all metrics of every scope.
///
/// Returns `None` when the root of the tree opens no scope: then the tree
/// is not that of a whole file.
pub fn metrics(lang: LANG, tree: &Tree, code: &[u8], path: &str) -> (r: Option<FuncSpace>)
    requires
        tree.wf(),
        fits(tree@, code@.len()),
    ensures
        r is Some <==> space_kind(lang, tree@, 0) != SpaceKind::Unknown,
        r is Some ==> r->0@ == analysis(lang, tree@, code@, path@),
        r is Some ==> sums_hold(r->0@),
        r is Some ==> extremes_hold(r->0@),
        r is Some ==> well_formed(r->0),
{
    if get_space_kind(lang, tree, 0) == SpaceKind::Unknown {
        return None;
    }
    let n = tree.len();
    let mut stack: Vec<State> = Vec::new();
    let mut i: usize = 0;
    assert(states_view(stack@) =~= run(lang, tree@, code@, 0));
    assert(node_ok(tree@, 0));
    while i < n
        invariant
            tree.wf(),
            fits(tree@, code@.len()),
            n == tree@.len(),
            tree@[0].end == n,
            space_kind(lang, tree@, 0) != SpaceKind::Unknown,
            stack_ok(stack@, i as int, n as int),
            states_view(stack@) == run(lang, tree@, code@, i as nat),
            i > 0 ==> stack@.len() >= 1 && stack@[0].end == n,
            i == 0 ==> stack@.len() == 0,
        decreases n - i,
    {
        close(&mut stack, i, Ghost(n as int));
        advance(&mut stack, lang, tree, code, i);
        i += 1;
    }
    close(&mut stack, n, Ghost(n as int));
    let ghost last = stack@;
    assert(last.len() >= 1);
    assert(state_ok(last, last.len() - 1, n as int, n as int));
    assert(last.len() == 1);
    assert(states_view(last)[0] == last[0]@);
    let mut root = stack.pop().unwrap();
    assert(root == last[0]);
    proof {
        lemma_within_room(root@, (n - root.start) as nat);
        lemma_sealed_sums(root@, (n - root.start) as nat);
        lemma_sealed_extremes(root@);
    }
    seal(&mut root);
    let mut space = root.space;
    space.name = Some(path.to_owned());
    Some(space)
}

/// The scope tree depends on the language, the tree, the source and the
/// path alone: the same input gives the same tree.
pub proof fn lemma_same_input_same_tree(
    lang: LANG,
    nodes1: Seq<Node>,
    code1: Seq<u8>,
    path1: Seq<char>,
    nodes2: Seq<Node>,
    code2: Seq<u8>,
    path2: Seq<char>,
)
    requires
        nodes1 =~= nodes2,
        code1 =~= code2,
        path1 =~= path2,
    ensures
        analysis(lang, nodes1, code1, path1) == analysis(lang, nodes2, code2, path2),
{
}

/// Merging the metrics of two sealed scopes into those of a third gives the
/// same metrics in either order.
pub proof fn lemma_merge_commutes(m: CodeMetricsView, a: CodeMetricsView, b: CodeMetricsView)
    requires
        m.can_merge(a),
        m.can_merge(b),
        m.merged(a).can_merge(b),
        m.merged(b).can_merge(a),
    ensures
        m.merged(a).merged(b) == m.merged(b).merged(a),
{
    reveal(CodeMetricsView::merged);
    reveal(CodeMetricsView::can_merge);
    cyclomatic::lemma_merge_commutes(m.cyclomatic, a.cyclomatic, b.cyclomatic);
    loc::lemma_merge_commutes(m.loc, a.loc, b.loc);
    nom::lemma_merge_commutes(m.nom, a.nom, b.nom);
    exit::lemma_merge_commutes(m.nexits, a.nexits, b.nexits);
    abc::lemma_merge_commutes(m.abc, a.abc, b.abc);
    npm::lemma_merge_commutes(m.npm, a.npm, b.npm);
    npa::lemma_merge_commutes(m.npa, a.npa, b.npa);
    wmc::lemma_merge_commutes(m.wmc, a.wmc, b.wmc);
}

/// Whichever of two scopes inside it a scope takes in first, its metrics
/// and its tables come out the same.
pub proof fn lemma_absorb_order(p: StateView, a: StateView, b: StateView)
    requires
        p.can_absorb(a),
        p.can_absorb(b),
        p.absorbed(a).can_absorb(b),
        p.absorbed(b).can_absorb(a),
    ensures
        p.absorbed(a).absorbed(b).space.metrics == p.absorbed(b).absorbed(a).space.metrics,
        p.absorbed(a).absorbed(b).maps == p.absorbed(b).absorbed(a).maps,
{
    lemma_merge_commutes(p.space.metrics, a.sealed().metrics, b.sealed().metrics);
    halstead::lemma_merge_commutes(p.maps, a.maps, b.maps);
}

} // verus!
