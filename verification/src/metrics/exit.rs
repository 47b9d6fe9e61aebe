//! Exit points: the places at which a scope can be left.

use vstd::prelude::*;
use crate::checker::{func_kind, is_func};
use crate::langs::LANG;
use crate::languages::language_go;
use crate::languages::language_python;
use crate::languages::language_rust;
use crate::languages::language_tsx;
use crate::languages::language_typescript;
use crate::metrics::{max_of, max_u64, min_of, min_u64, quotient, ratio, report_min, reported_min, Ratio, NO_MIN};
use crate::node::{find_field_from, Field, Node, Tree};

verus! {

/// The `NExit` metric.
///
/// This metric counts the number of possible exit points
/// from a function/method.
#[derive(Debug, Clone, Copy)]
pub struct Stats {
    /// Exit points of this scope alone.
    pub exit: u64,
    /// Exit points of this scope and of the scopes inside it.
    pub exit_sum: u64,
    /// Number of functions and closures the average is taken over.
    pub total_space_functions: u64,
    /// Fewest exit points of a single scope.
    pub exit_min: u64,
    /// Most exit points of a single scope.
    pub exit_max: u64,
}

/// The statistics of a scope in which nothing was seen yet.
pub open spec fn initial() -> Stats {
    Stats { exit: 0, exit_sum: 0, total_space_functions: 1, exit_min: NO_MIN, exit_max: 0 }
}

impl Default for Stats {
    fn default() -> (s: Self)
        ensures
            s == initial(),
    {
        Stats { exit: 0, exit_sum: 0, total_space_functions: 1, exit_min: NO_MIN, exit_max: 0 }
    }
}

/// Whether the node at `i` is an exit point: a return in every language; in
/// Rust also the `?` operator, and a function that declares a return type.
pub open spec fn is_exit(lang: LANG, nodes: Seq<Node>, i: int) -> bool {
    let k = nodes[i].kind_id;
    match lang {
        LANG::Python => k == language_python::RETURN_STATEMENT,
        LANG::Typescript => k == language_typescript::RETURN_STATEMENT,
        LANG::Tsx => k == language_tsx::RETURN_STATEMENT,
        LANG::Rust => k == language_rust::RETURN_EXPRESSION || k == language_rust::TRY_EXPRESSION
            || (func_kind(lang, k) && find_field_from(nodes, i, i + 1, Field::ReturnType) is Some),
        LANG::Go => k == language_go::RETURN_STATEMENT,
    }
}

impl Stats {
    /// The statistics after a sealed scope `other` was merged in.
    pub open spec fn merged(self, other: Stats) -> Stats {
        Stats {
            exit: self.exit,
            exit_sum: (self.exit_sum + other.exit_sum) as u64,
            total_space_functions: self.total_space_functions,
            exit_min: min_of(self.exit_min, other.exit_min),
            exit_max: max_of(self.exit_max, other.exit_max),
        }
    }

    /// Whether `other` can be merged in without leaving the range of the counters.
    pub open spec fn can_merge(self, other: Stats) -> bool {
        self.exit_sum + other.exit_sum <= u64::MAX
    }

    /// The statistics after the scope was sealed.
    pub open spec fn sealed(self) -> Stats {
        Stats {
            exit: self.exit,
            exit_sum: (self.exit_sum + self.exit) as u64,
            total_space_functions: self.total_space_functions,
            exit_min: min_of(self.exit_min, self.exit),
            exit_max: max_of(self.exit_max, self.exit),
        }
    }

    /// The statistics after the node at `i` was seen.
    pub open spec fn visited(self, lang: LANG, nodes: Seq<Node>, i: int) -> Stats {
        if is_exit(lang, nodes, i) {
            Stats { exit: (self.exit + 1) as u64, ..self }
        } else {
            self
        }
    }

    /// Whether the counters of an open scope stay within what `m` nodes can add.
    pub open spec fn open_within(self, m: nat) -> bool {
        self.exit + self.exit_sum <= 2 * m
    }

    /// Whether the counters of a sealed scope stay within what `m` nodes can add.
    pub open spec fn sealed_within(self, m: nat) -> bool {
        self.exit_sum <= 2 * m
    }

    /// Merges a second `NExit` metric into the first one
    pub fn merge(&mut self, other: &Self)
        requires
            old(self).can_merge(*other),
        ensures
            *final(self) == old(self).merged(*other),
    {
        self.exit_max = max_u64(self.exit_max, other.exit_max);
        self.exit_min = min_u64(self.exit_min, other.exit_min);
        self.exit_sum = self.exit_sum + other.exit_sum;
    }

    /// Returns the `NExit` metric value
    pub fn exit(&self) -> (r: u64)
        ensures
            r == self.exit,
    {
        self.exit
    }

    /// Returns the `NExit` metric sum value
    pub fn exit_sum(&self) -> (r: u64)
        ensures
            r == self.exit_sum,
    {
        self.exit_sum
    }

    /// Returns the `NExit` metric minimum value, if any scope was sealed
    pub fn exit_min(&self) -> (r: Option<u64>)
        ensures
            r == reported_min(self.exit_min),
    {
        report_min(self.exit_min)
    }

    /// Returns the `NExit` metric maximum value
    pub fn exit_max(&self) -> (r: u64)
        ensures
            r == self.exit_max,
    {
        self.exit_max
    }

    /// Returns the `NExit` metric average value
    ///
    /// This value is computed dividing the `NExit` value
    /// for the total number of functions/closures in a space.
    ///
    /// If there are no functions in a code, it has no value.
    pub fn exit_average(&self) -> (r: Option<Ratio>)
        ensures
            r == quotient(self.exit_sum, self.total_space_functions),
    {
        ratio(self.exit_sum, self.total_space_functions)
    }

    /// Adds the scope's own exit points to the sum.
    pub fn compute_sum(&mut self)
        requires
            old(self).exit_sum + old(self).exit <= u64::MAX,
        ensures
            *final(self) == (Stats {
                exit_sum: (old(self).exit_sum + old(self).exit) as u64,
                ..*old(self)
            }),
    {
        self.exit_sum = self.exit_sum + self.exit;
    }

    /// Seals the scope: folds its own exit points into the extremes and the sum.
    pub fn compute_minmax(&mut self)
        requires
            old(self).exit_sum + old(self).exit <= u64::MAX,
        ensures
            *final(self) == old(self).sealed(),
    {
        self.exit_max = max_u64(self.exit_max, self.exit);
        self.exit_min = min_u64(self.exit_min, self.exit);
        self.compute_sum();
    }

    /// Sets the number of functions and closures the average is taken over.
    pub fn finalize(&mut self, total_space_functions: u64)
        ensures
            *final(self) == (Stats { total_space_functions, ..*old(self) }),
    {
        self.total_space_functions = total_space_functions;
    }
}

/// Tells whether the node at `i` is an exit point.
pub fn leaves_scope(lang: LANG, tree: &Tree, i: usize) -> (r: bool)
    requires
        tree.wf(),
        i < tree@.len(),
    ensures
        r == is_exit(lang, tree@, i as int),
{
    let k = tree.node(i).kind_id;
    match lang {
        LANG::Python => k == language_python::RETURN_STATEMENT,
        LANG::Typescript => k == language_typescript::RETURN_STATEMENT,
        LANG::Tsx => k == language_tsx::RETURN_STATEMENT,
        LANG::Rust => k == language_rust::RETURN_EXPRESSION || k == language_rust::TRY_EXPRESSION
            || (is_func(lang, tree, i) && tree.child_by_field(i, Field::ReturnType).is_some()),
        LANG::Go => k == language_go::RETURN_STATEMENT,
    }
}

/// Accounts for the node at `i` in the exit points of the open scope.
pub fn compute(lang: LANG, tree: &Tree, i: usize, stats: &mut Stats)
    requires
        tree.wf(),
        i < tree@.len(),
        old(stats).exit < u64::MAX,
    ensures
        *final(stats) == old(stats).visited(lang, tree@, i as int),
{
    if leaves_scope(lang, tree, i) {
        stats.exit = stats.exit + 1;
    }
}

/// Merging two sealed scopes into a third gives the same statistics in
/// either order, and in either grouping the same sum and extremes.
pub proof fn lemma_merge_commutes(s: Stats, a: Stats, b: Stats)
    requires
        s.exit_sum + a.exit_sum + b.exit_sum <= u64::MAX,
    ensures
        s.merged(a).merged(b) == s.merged(b).merged(a),
        s.merged(a).merged(b).exit_sum == s.merged(a.merged(b)).exit_sum,
        s.merged(a).merged(b).exit_min == s.merged(a.merged(b)).exit_min,
        s.merged(a).merged(b).exit_max == s.merged(a.merged(b)).exit_max,
{
}

} // verus!
