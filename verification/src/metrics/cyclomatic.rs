//! Cyclomatic complexity: one per scope, plus one per branching point.

use vstd::prelude::*;
use crate::langs::LANG;
use crate::languages::language_go;
use crate::languages::language_python;
use crate::languages::language_rust;
use crate::languages::language_tsx;
use crate::languages::language_typescript;
use crate::metrics::{max_of, max_u64, min_of, min_u64, quotient, ratio, report_min, reported_min, Ratio, NO_MIN};
use crate::node::{Node, Tree};

verus! {

/// The `Cyclomatic` metric.
#[derive(Debug, Clone, Copy)]
pub struct Stats {
    /// Complexity of this scope and of the scopes inside it.
    pub cyclomatic_sum: u64,
    /// Complexity of this scope alone.
    pub cyclomatic: u64,
    /// Number of scopes counted in the sum.
    pub n: u64,
    /// Largest complexity of a single scope.
    pub cyclomatic_max: u64,
    /// Smallest complexity of a single scope.
    pub cyclomatic_min: u64,
}

/// The statistics of a scope in which nothing was seen yet.
pub open spec fn initial() -> Stats {
    Stats { cyclomatic_sum: 0, cyclomatic: 1, n: 1, cyclomatic_max: 0, cyclomatic_min: NO_MIN }
}

impl Default for Stats {
    fn default() -> (s: Self)
        ensures
            s == initial(),
    {
        Stats { cyclomatic_sum: 0, cyclomatic: 1, n: 1, cyclomatic_max: 0, cyclomatic_min: NO_MIN }
    }
}

/// Kinds of the Python grammar that always open a new path.
pub open spec fn python_branch(k: u16) -> bool {
    k == language_python::IF || k == language_python::ELIF || k == language_python::FOR || k
        == language_python::WHILE || k == language_python::EXCEPT || k == language_python::WITH || k
        == language_python::ASSERT || k == language_python::AND || k == language_python::OR
}

/// Kinds of the TypeScript grammar that open a new path.
pub open spec fn typescript_branch(k: u16) -> bool {
    k == language_typescript::IF || k == language_typescript::FOR || k == language_typescript::WHILE
        || k == language_typescript::CASE || k == language_typescript::CATCH || k
        == language_typescript::TERNARY_EXPRESSION || k == language_typescript::AMPAMP || k
        == language_typescript::PIPEPIPE
}

/// Kinds of the TSX grammar that open a new path.
pub open spec fn tsx_branch(k: u16) -> bool {
    k == language_tsx::IF || k == language_tsx::FOR || k == language_tsx::WHILE || k
        == language_tsx::CASE || k == language_tsx::CATCH || k == language_tsx::TERNARY_EXPRESSION
        || k == language_tsx::AMPAMP || k == language_tsx::PIPEPIPE
}

/// Kinds of the Rust grammar that open a new path.
pub open spec fn rust_branch(k: u16) -> bool {
    k == language_rust::IF || k == language_rust::FOR || k == language_rust::WHILE || k
        == language_rust::LOOP || k == language_rust::MATCH_ARM || k == language_rust::MATCH_ARM2
        || k == language_rust::TRY_EXPRESSION || k == language_rust::AMPAMP || k
        == language_rust::PIPEPIPE
}

/// Kinds of the Go grammar that open a new path.
pub open spec fn go_branch(k: u16) -> bool {
    k == language_go::IF || k == language_go::FOR || k == language_go::EXPRESSION_CASE || k
        == language_go::DEFAULT_CASE || k == language_go::TYPE_CASE || k
        == language_go::COMMUNICATION_CASE || k == language_go::AMPAMP || k == language_go::PIPEPIPE
}

/// Whether the node at `i` is the `else` of a loop: its parent is an else
/// clause, and that clause belongs to a `for` or a `while` statement.
pub open spec fn python_loop_else(nodes: Seq<Node>, i: int) -> bool {
    &&& nodes[i].kind_id == language_python::ELSE
    &&& nodes[i].parent is Some
    &&& {
        let p = nodes[i].parent->0 as int;
        &&& nodes[p].kind_id == language_python::ELSE_CLAUSE
        &&& nodes[p].parent is Some
        &&& {
            let g = nodes[nodes[p].parent->0 as int].kind_id;
            g == language_python::FOR_STATEMENT || g == language_python::WHILE_STATEMENT
        }
    }
}

/// Whether the node at `i` adds one to the complexity of its scope.
pub open spec fn is_branch(lang: LANG, nodes: Seq<Node>, i: int) -> bool {
    match lang {
        LANG::Python => python_branch(nodes[i].kind_id) || python_loop_else(nodes, i),
        LANG::Typescript => typescript_branch(nodes[i].kind_id),
        LANG::Tsx => tsx_branch(nodes[i].kind_id),
        LANG::Rust => rust_branch(nodes[i].kind_id),
        LANG::Go => go_branch(nodes[i].kind_id),
    }
}

impl Stats {
    /// The statistics after a sealed scope `other` was merged in.
    pub open spec fn merged(self, other: Stats) -> Stats {
        Stats {
            cyclomatic_sum: (self.cyclomatic_sum + other.cyclomatic_sum) as u64,
            cyclomatic: self.cyclomatic,
            n: (self.n + other.n) as u64,
            cyclomatic_max: max_of(self.cyclomatic_max, other.cyclomatic_max),
            cyclomatic_min: min_of(self.cyclomatic_min, other.cyclomatic_min),
        }
    }

    /// Whether `other` can be merged in without leaving the range of the counters.
    pub open spec fn can_merge(self, other: Stats) -> bool {
        self.cyclomatic_sum + other.cyclomatic_sum <= u64::MAX && self.n + other.n <= u64::MAX
    }

    /// The statistics after the scope was sealed: its own complexity has
    /// entered the sum and the extremes.
    pub open spec fn sealed(self) -> Stats {
        Stats {
            cyclomatic_sum: (self.cyclomatic_sum + self.cyclomatic) as u64,
            cyclomatic: self.cyclomatic,
            n: self.n,
            cyclomatic_max: max_of(self.cyclomatic_max, self.cyclomatic),
            cyclomatic_min: min_of(self.cyclomatic_min, self.cyclomatic),
        }
    }

    /// The statistics after the node at `i` was seen.
    pub open spec fn visited(self, lang: LANG, nodes: Seq<Node>, i: int) -> Stats {
        if is_branch(lang, nodes, i) {
            Stats { cyclomatic: (self.cyclomatic + 1) as u64, ..self }
        } else {
            self
        }
    }

    /// Whether the counters of an open scope stay within what `m` nodes can add.
    pub open spec fn open_within(self, m: nat) -> bool {
        self.cyclomatic + self.cyclomatic_sum <= 2 * m && self.n <= 2 * m
    }

    /// Whether the counters of a sealed scope stay within what `m` nodes can add.
    pub open spec fn sealed_within(self, m: nat) -> bool {
        self.cyclomatic_sum <= 2 * m && self.n <= 2 * m
    }

    /// Merges a second `Cyclomatic` metric into the first one
    pub fn merge(&mut self, other: &Stats)
        requires
            old(self).can_merge(*other),
        ensures
            *final(self) == old(self).merged(*other),
            final(self).cyclomatic_sum == old(self).cyclomatic_sum + other.cyclomatic_sum,
            final(self).cyclomatic_max == max_of(old(self).cyclomatic_max, other.cyclomatic_max),
            final(self).cyclomatic_min == min_of(old(self).cyclomatic_min, other.cyclomatic_min),
            final(self).n == old(self).n + other.n,
            final(self).cyclomatic == old(self).cyclomatic,
    {
        self.cyclomatic_max = max_u64(self.cyclomatic_max, other.cyclomatic_max);
        self.cyclomatic_min = min_u64(self.cyclomatic_min, other.cyclomatic_min);
        self.cyclomatic_sum = self.cyclomatic_sum + other.cyclomatic_sum;
        self.n = self.n + other.n;
    }

    /// Returns the `Cyclomatic` metric value
    pub fn cyclomatic(&self) -> (r: u64)
        ensures
            r == self.cyclomatic,
    {
        self.cyclomatic
    }

    /// Returns the sum
    pub fn cyclomatic_sum(&self) -> (r: u64)
        ensures
            r == self.cyclomatic_sum,
    {
        self.cyclomatic_sum
    }

    /// Returns the `Cyclomatic` metric average value
    ///
    /// This value is computed dividing the `Cyclomatic` value for the
    /// number of spaces.
    pub fn cyclomatic_average(&self) -> (r: Option<Ratio>)
        ensures
            r == quotient(self.cyclomatic_sum, self.n),
    {
        ratio(self.cyclomatic_sum, self.n)
    }

    /// Returns the `Cyclomatic` maximum value
    pub fn cyclomatic_max(&self) -> (r: u64)
        ensures
            r == self.cyclomatic_max,
    {
        self.cyclomatic_max
    }

    /// Returns the `Cyclomatic` minimum value, if any scope was sealed
    pub fn cyclomatic_min(&self) -> (r: Option<u64>)
        ensures
            r == reported_min(self.cyclomatic_min),
    {
        report_min(self.cyclomatic_min)
    }

    /// Adds the scope's own complexity to the sum.
    pub fn compute_sum(&mut self)
        requires
            old(self).cyclomatic_sum + old(self).cyclomatic <= u64::MAX,
        ensures
            *final(self) == (Stats {
                cyclomatic_sum: (old(self).cyclomatic_sum + old(self).cyclomatic) as u64,
                ..*old(self)
            }),
    {
        self.cyclomatic_sum = self.cyclomatic_sum + self.cyclomatic;
    }

    /// Seals the scope: folds its own complexity into the extremes and the sum.
    pub fn compute_minmax(&mut self)
        requires
            old(self).cyclomatic_sum + old(self).cyclomatic <= u64::MAX,
        ensures
            *final(self) == old(self).sealed(),
            final(self).cyclomatic_sum == old(self).cyclomatic_sum + old(self).cyclomatic,
            final(self).cyclomatic_max == max_of(old(self).cyclomatic_max, old(self).cyclomatic),
            final(self).cyclomatic_min == min_of(old(self).cyclomatic_min, old(self).cyclomatic),
            final(self).cyclomatic == old(self).cyclomatic,
            final(self).n == old(self).n,
    {
        self.cyclomatic_max = max_u64(self.cyclomatic_max, self.cyclomatic);
        self.cyclomatic_min = min_u64(self.cyclomatic_min, self.cyclomatic);
        self.compute_sum();
    }
}

/// Whether `k` is a kind of the Python grammar that always opens a new path.
fn is_python_branch(k: u16) -> (r: bool)
    ensures
        r == python_branch(k),
{
    k == language_python::IF || k == language_python::ELIF || k == language_python::FOR || k
        == language_python::WHILE || k == language_python::EXCEPT || k == language_python::WITH || k
        == language_python::ASSERT || k == language_python::AND || k == language_python::OR
}

/// Whether `k` is a kind of the TypeScript grammar that opens a new path.
fn is_typescript_branch(k: u16) -> (r: bool)
    ensures
        r == typescript_branch(k),
{
    k == language_typescript::IF || k == language_typescript::FOR || k == language_typescript::WHILE
        || k == language_typescript::CASE || k == language_typescript::CATCH || k
        == language_typescript::TERNARY_EXPRESSION || k == language_typescript::AMPAMP || k
        == language_typescript::PIPEPIPE
}

/// Whether `k` is a kind of the TSX grammar that opens a new path.
fn is_tsx_branch(k: u16) -> (r: bool)
    ensures
        r == tsx_branch(k),
{
    k == language_tsx::IF || k == language_tsx::FOR || k == language_tsx::WHILE || k
        == language_tsx::CASE || k == language_tsx::CATCH || k == language_tsx::TERNARY_EXPRESSION
        || k == language_tsx::AMPAMP || k == language_tsx::PIPEPIPE
}

/// Whether `k` is a kind of the Rust grammar that opens a new path.
fn is_rust_branch(k: u16) -> (r: bool)
    ensures
        r == rust_branch(k),
{
    k == language_rust::IF || k == language_rust::FOR || k == language_rust::WHILE || k
        == language_rust::LOOP || k == language_rust::MATCH_ARM || k == language_rust::MATCH_ARM2
        || k == language_rust::TRY_EXPRESSION || k == language_rust::AMPAMP || k
        == language_rust::PIPEPIPE
}

/// Whether `k` is a kind of the Go grammar that opens a new path.
fn is_go_branch(k: u16) -> (r: bool)
    ensures
        r == go_branch(k),
{
    k == language_go::IF || k == language_go::FOR || k == language_go::EXPRESSION_CASE || k
        == language_go::DEFAULT_CASE || k == language_go::TYPE_CASE || k
        == language_go::COMMUNICATION_CASE || k == language_go::AMPAMP || k == language_go::PIPEPIPE
}

/// Whether the node at `i` is the `else` of a `for` or `while` loop.
fn is_python_loop_else(tree: &Tree, i: usize) -> (r: bool)
    requires
        tree.wf(),
        i < tree@.len(),
    ensures
        r == python_loop_else(tree@, i as int),
{
    if tree.node(i).kind_id != language_python::ELSE {
        return false;
    }
    match tree.parent(i) {
        None => false,
        Some(p) => {
            if tree.node(p).kind_id != language_python::ELSE_CLAUSE {
                return false;
            }
            match tree.parent(p) {
                None => false,
                Some(g) => {
                    let k = tree.node(g).kind_id;
                    k == language_python::FOR_STATEMENT || k == language_python::WHILE_STATEMENT
                },
            }
        },
    }
}

/// Whether the node at `i` adds one to the complexity of its scope.
pub fn adds_path(lang: LANG, tree: &Tree, i: usize) -> (r: bool)
    requires
        tree.wf(),
        i < tree@.len(),
    ensures
        r == is_branch(lang, tree@, i as int),
{
    let k = tree.node(i).kind_id;
    match lang {
        LANG::Python => is_python_branch(k) || is_python_loop_else(tree, i),
        LANG::Typescript => is_typescript_branch(k),
        LANG::Tsx => is_tsx_branch(k),
        LANG::Rust => is_rust_branch(k),
        LANG::Go => is_go_branch(k),
    }
}

/// Accounts for the node at `i` in the complexity of the open scope.
pub fn compute(lang: LANG, tree: &Tree, i: usize, stats: &mut Stats)
    requires
        tree.wf(),
        i < tree@.len(),
        old(stats).cyclomatic < u64::MAX,
    ensures
        *final(stats) == old(stats).visited(lang, tree@, i as int),
        is_branch(lang, tree@, i as int) ==> final(stats).cyclomatic == old(stats).cyclomatic + 1,
        !is_branch(lang, tree@, i as int) ==> final(stats).cyclomatic == old(stats).cyclomatic,
        final(stats).cyclomatic_sum == old(stats).cyclomatic_sum,
        final(stats).cyclomatic_min == old(stats).cyclomatic_min,
        final(stats).cyclomatic_max == old(stats).cyclomatic_max,
        final(stats).n == old(stats).n,
{
    if adds_path(lang, tree, i) {
        stats.cyclomatic = stats.cyclomatic + 1;
    }
}

/// A scope in which no node opens a new path has complexity one: it starts
/// with one, a node that opens no path leaves the complexity as it is, and
/// so does merging in or sealing a scope.
pub proof fn lemma_base_case(s: Stats, other: Stats, lang: LANG, nodes: Seq<Node>, i: int)
    ensures
        initial().cyclomatic == 1,
        !is_branch(lang, nodes, i) ==> s.visited(lang, nodes, i).cyclomatic == s.cyclomatic,
        is_branch(lang, nodes, i) && s.cyclomatic < u64::MAX ==> s.visited(
            lang,
            nodes,
            i,
        ).cyclomatic == s.cyclomatic + 1,
        s.merged(other).cyclomatic == s.cyclomatic,
        s.sealed().cyclomatic == s.cyclomatic,
{
}

/// Merging two sealed scopes into a third gives the same statistics in
/// either order: the same sum, extremes, count and average.
pub proof fn lemma_merge_commutes(s: Stats, a: Stats, b: Stats)
    requires
        s.cyclomatic_sum + a.cyclomatic_sum + b.cyclomatic_sum <= u64::MAX,
        s.n + a.n + b.n <= u64::MAX,
    ensures
        s.merged(a).merged(b) == s.merged(b).merged(a),
        s.merged(a).merged(b).cyclomatic_sum == s.cyclomatic_sum + a.cyclomatic_sum
            + b.cyclomatic_sum,
        quotient(s.merged(a).merged(b).cyclomatic_sum, s.merged(a).merged(b).n) == quotient(
            s.merged(b).merged(a).cyclomatic_sum,
            s.merged(b).merged(a).n,
        ),
{
}

/// Sealing a scope after the scopes inside it were merged in gives a sum
/// that is the scope's own complexity plus the sums of those scopes.
pub proof fn lemma_sum_rule(s: Stats, a: Stats, b: Stats)
    requires
        s.cyclomatic_sum == 0,
        s.cyclomatic + a.cyclomatic_sum + b.cyclomatic_sum <= u64::MAX,
        s.n + a.n + b.n <= u64::MAX,
    ensures
        s.merged(a).merged(b).sealed().cyclomatic_sum == s.cyclomatic + a.cyclomatic_sum
            + b.cyclomatic_sum,
        s.merged(a).merged(b).sealed().cyclomatic_max == max_of(
            max_of(max_of(s.cyclomatic_max, a.cyclomatic_max), b.cyclomatic_max),
            s.cyclomatic,
        ),
        s.merged(a).merged(b).sealed().cyclomatic_min == min_of(
            min_of(min_of(s.cyclomatic_min, a.cyclomatic_min), b.cyclomatic_min),
            s.cyclomatic,
        ),
{
}

/// Merging is associative: folding `b` into `a` first, or `a` and then `b`
/// into the scope, gives the same sum, count and extremes.
pub proof fn lemma_merge_associates(s: Stats, a: Stats, b: Stats)
    requires
        s.cyclomatic_sum + a.cyclomatic_sum + b.cyclomatic_sum <= u64::MAX,
        s.n + a.n + b.n <= u64::MAX,
    ensures
        s.merged(a).merged(b).cyclomatic_sum == s.merged(a.merged(b)).cyclomatic_sum,
        s.merged(a).merged(b).n == s.merged(a.merged(b)).n,
        s.merged(a).merged(b).cyclomatic_max == s.merged(a.merged(b)).cyclomatic_max,
        s.merged(a).merged(b).cyclomatic_min == s.merged(a.merged(b)).cyclomatic_min,
        quotient(s.merged(a).merged(b).cyclomatic_sum, s.merged(a).merged(b).n) == quotient(
            s.merged(a.merged(b)).cyclomatic_sum,
            s.merged(a.merged(b)).n,
        ),
{
}

} // verus!
