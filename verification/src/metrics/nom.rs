//! Number of methods: the functions and the closures of a scope.

use vstd::prelude::*;
use crate::checker::{closure_kind, func_kind, is_closure, is_func};
use crate::langs::LANG;
use crate::metrics::{max_of, max_u64, min_of, min_u64, quotient, ratio, report_min, reported_min, Ratio, NO_MIN};
use crate::node::{Node, Tree};

verus! {

/// The `Nom` metric suite.
#[derive(Clone, Copy, Debug)]
pub struct Stats {
    /// Functions defined by this scope alone.
    pub functions: u64,
    /// Closures of this scope alone.
    pub closures: u64,
    /// Functions of this scope and of the scopes inside it.
    pub functions_sum: u64,
    /// Closures of this scope and of the scopes inside it.
    pub closures_sum: u64,
    /// Fewest functions of a single scope.
    pub functions_min: u64,
    /// Most functions of a single scope.
    pub functions_max: u64,
    /// Fewest closures of a single scope.
    pub closures_min: u64,
    /// Most closures of a single scope.
    pub closures_max: u64,
    /// Number of scopes counted.
    pub space_count: u64,
}

/// The statistics of a scope in which nothing was seen yet.
pub open spec fn initial() -> Stats {
    Stats {
        functions: 0,
        closures: 0,
        functions_sum: 0,
        closures_sum: 0,
        functions_min: NO_MIN,
        functions_max: 0,
        closures_min: NO_MIN,
        closures_max: 0,
        space_count: 1,
    }
}

impl Default for Stats {
    fn default() -> (s: Self)
        ensures
            s == initial(),
    {
        Stats {
            functions: 0,
            closures: 0,
            functions_sum: 0,
            closures_sum: 0,
            functions_min: NO_MIN,
            functions_max: 0,
            closures_min: NO_MIN,
            closures_max: 0,
            space_count: 1,
        }
    }
}

impl Stats {
    /// The statistics after a sealed scope `other` was merged in.
    pub open spec fn merged(self, other: Stats) -> Stats {
        Stats {
            functions: self.functions,
            closures: self.closures,
            functions_sum: (self.functions_sum + other.functions_sum) as u64,
            closures_sum: (self.closures_sum + other.closures_sum) as u64,
            functions_min: min_of(self.functions_min, other.functions_min),
            functions_max: max_of(self.functions_max, other.functions_max),
            closures_min: min_of(self.closures_min, other.closures_min),
            closures_max: max_of(self.closures_max, other.closures_max),
            space_count: (self.space_count + other.space_count) as u64,
        }
    }

    /// Whether `other` can be merged in without leaving the range of the counters.
    pub open spec fn can_merge(self, other: Stats) -> bool {
        &&& self.functions_sum + other.functions_sum <= u64::MAX
        &&& self.closures_sum + other.closures_sum <= u64::MAX
        &&& self.space_count + other.space_count <= u64::MAX
    }

    /// Whether the scope can be sealed without leaving the range of the counters.
    pub open spec fn can_seal(self) -> bool {
        &&& self.functions_sum + self.functions <= u64::MAX
        &&& self.closures_sum + self.closures <= u64::MAX
    }

    /// The statistics after the scope was sealed.
    pub open spec fn sealed(self) -> Stats {
        Stats {
            functions: self.functions,
            closures: self.closures,
            functions_sum: (self.functions_sum + self.functions) as u64,
            closures_sum: (self.closures_sum + self.closures) as u64,
            functions_min: min_of(self.functions_min, self.functions),
            functions_max: max_of(self.functions_max, self.functions),
            closures_min: min_of(self.closures_min, self.closures),
            closures_max: max_of(self.closures_max, self.closures),
            space_count: self.space_count,
        }
    }

    /// The statistics after the node at `i` was seen: a function definition
    /// counts as a function, any other function-like node as a closure.
    pub open spec fn visited(self, lang: LANG, nodes: Seq<Node>, i: int) -> Stats {
        if func_kind(lang, nodes[i].kind_id) {
            Stats { functions: (self.functions + 1) as u64, ..self }
        } else if closure_kind(lang, nodes[i].kind_id) {
            Stats { closures: (self.closures + 1) as u64, ..self }
        } else {
            self
        }
    }

    /// Whether the counters of an open scope stay within what `m` nodes can add.
    pub open spec fn open_within(self, m: nat) -> bool {
        &&& self.functions + self.functions_sum <= 2 * m
        &&& self.closures + self.closures_sum <= 2 * m
        &&& self.space_count <= 2 * m
    }

    /// Whether the counters of a sealed scope stay within what `m` nodes can add.
    pub open spec fn sealed_within(self, m: nat) -> bool {
        &&& self.functions_sum <= 2 * m
        &&& self.closures_sum <= 2 * m
        &&& self.space_count <= 2 * m
    }

    /// The number of functions and closures of this scope and of the scopes inside it.
    pub open spec fn total_value(self) -> nat {
        (self.functions_sum + self.closures_sum) as nat
    }

    /// Merges a second `Nom` metric suite into the first one
    pub fn merge(&mut self, other: &Self)
        requires
            old(self).can_merge(*other),
        ensures
            *final(self) == old(self).merged(*other),
    {
        self.functions_min = min_u64(self.functions_min, other.functions_min);
        self.functions_max = max_u64(self.functions_max, other.functions_max);
        self.closures_min = min_u64(self.closures_min, other.closures_min);
        self.closures_max = max_u64(self.closures_max, other.closures_max);
        self.functions_sum = self.functions_sum + other.functions_sum;
        self.closures_sum = self.closures_sum + other.closures_sum;
        self.space_count = self.space_count + other.space_count;
    }

    /// Counts the number of function definitions in a scope
    pub fn functions(&self) -> (r: u64)
        ensures
            r == self.functions,
    {
        self.functions
    }

    /// Counts the number of closures in a scope
    pub fn closures(&self) -> (r: u64)
        ensures
            r == self.closures,
    {
        self.closures
    }

    /// Return the sum metric for functions
    pub fn functions_sum(&self) -> (r: u64)
        ensures
            r == self.functions_sum,
    {
        self.functions_sum
    }

    /// Return the sum metric for closures
    pub fn closures_sum(&self) -> (r: u64)
        ensures
            r == self.closures_sum,
    {
        self.closures_sum
    }

    /// Returns the average number of function definitions over all spaces
    pub fn functions_average(&self) -> (r: Option<Ratio>)
        ensures
            r == quotient(self.functions_sum, self.space_count),
    {
        ratio(self.functions_sum, self.space_count)
    }

    /// Returns the average number of closures over all spaces
    pub fn closures_average(&self) -> (r: Option<Ratio>)
        ensures
            r == quotient(self.closures_sum, self.space_count),
    {
        ratio(self.closures_sum, self.space_count)
    }

    /// Returns the average number of function definitions and closures over all spaces
    pub fn average(&self) -> (r: Option<Ratio>)
        ensures
            r == (if self.space_count == 0 {
                None
            } else {
                Some(Ratio { num: self.total_value() as u128, den: self.space_count as u128 })
            }),
    {
        if self.space_count == 0 {
            None
        } else {
            Some(Ratio { num: self.total(), den: self.space_count as u128 })
        }
    }

    /// Fewest function definitions of a single scope, if any scope was sealed
    pub fn functions_min(&self) -> (r: Option<u64>)
        ensures
            r == reported_min(self.functions_min),
    {
        report_min(self.functions_min)
    }

    /// Fewest closures of a single scope, if any scope was sealed
    pub fn closures_min(&self) -> (r: Option<u64>)
        ensures
            r == reported_min(self.closures_min),
    {
        report_min(self.closures_min)
    }

    /// Most function definitions of a single scope
    pub fn functions_max(&self) -> (r: u64)
        ensures
            r == self.functions_max,
    {
        self.functions_max
    }

    /// Most closures of a single scope
    pub fn closures_max(&self) -> (r: u64)
        ensures
            r == self.closures_max,
    {
        self.closures_max
    }

    /// Returns the total number of function definitions and
    /// closures in a scope
    pub fn total(&self) -> (r: u128)
        ensures
            r == self.total_value(),
    {
        self.functions_sum as u128 + self.closures_sum as u128
    }

    /// Adds the scope's own counts to the sums.
    pub fn compute_sum(&mut self)
        requires
            old(self).can_seal(),
        ensures
            *final(self) == (Stats {
                functions_sum: (old(self).functions_sum + old(self).functions) as u64,
                closures_sum: (old(self).closures_sum + old(self).closures) as u64,
                ..*old(self)
            }),
    {
        self.functions_sum = self.functions_sum + self.functions;
        self.closures_sum = self.closures_sum + self.closures;
    }

    /// Seals the scope: folds its own counts into the extremes and the sums.
    pub fn compute_minmax(&mut self)
        requires
            old(self).can_seal(),
        ensures
            *final(self) == old(self).sealed(),
    {
        self.functions_min = min_u64(self.functions_min, self.functions);
        self.functions_max = max_u64(self.functions_max, self.functions);
        self.closures_min = min_u64(self.closures_min, self.closures);
        self.closures_max = max_u64(self.closures_max, self.closures);
        self.compute_sum();
    }
}

/// Accounts for the node at `i` in the counts of the open scope.
pub fn compute(lang: LANG, tree: &Tree, i: usize, stats: &mut Stats)
    requires
        i < tree@.len(),
        old(stats).functions < u64::MAX,
        old(stats).closures < u64::MAX,
    ensures
        *final(stats) == old(stats).visited(lang, tree@, i as int),
{
    if is_func(lang, tree, i) {
        stats.functions = stats.functions + 1;
        return ;
    }
    if is_closure(lang, tree, i) {
        stats.closures = stats.closures + 1;
    }
}

/// Merging two sealed scopes into a third gives the same statistics in
/// either order, and in either grouping the same sums, count and extremes.
pub proof fn lemma_merge_commutes(s: Stats, a: Stats, b: Stats)
    requires
        s.functions_sum + a.functions_sum + b.functions_sum <= u64::MAX,
        s.closures_sum + a.closures_sum + b.closures_sum <= u64::MAX,
        s.space_count + a.space_count + b.space_count <= u64::MAX,
    ensures
        s.merged(a).merged(b) == s.merged(b).merged(a),
        s.merged(a).merged(b) == (Stats {
            functions: s.functions,
            closures: s.closures,
            ..s.merged(a.merged(b))
        }),
{
}

} // verus!
