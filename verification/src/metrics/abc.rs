//! The ABC metric: assignments, branches and conditions.

use vstd::prelude::*;
use crate::langs::LANG;
use crate::metrics::{max_of, max_u64, min_of, min_u64, quotient, ratio, report_min, reported_min, Ratio, NO_MIN};
use crate::node::{Node, Tree};

verus! {

/// The `ABC` metric.
///
/// The `ABC` metric measures the size of a source code by counting
/// the number of Assignments (`A`), Branches (`B`) and Conditions (`C`).
/// The metric defines an ABC score as a vector of three elements (`<A,B,C>`).
/// The ABC score can be represented by its individual components (`A`, `B` and `C`)
/// or by the magnitude of the vector (`|<A,B,C>| = sqrt(A^2 + B^2 + C^2)`).
#[derive(Debug, Clone, Copy)]
pub struct Stats {
    /// Number of assignments of this scope alone.
    pub assignments: u64,
    /// Number of assignments of this scope and of the scopes inside it.
    pub assignments_sum: u64,
    /// Fewest assignments of a single scope.
    pub assignments_min: u64,
    /// Most assignments of a single scope.
    pub assignments_max: u64,
    /// Number of branches of this scope alone.
    pub branches: u64,
    /// Number of branches of this scope and of the scopes inside it.
    pub branches_sum: u64,
    /// Fewest branches of a single scope.
    pub branches_min: u64,
    /// Most branches of a single scope.
    pub branches_max: u64,
    /// Number of conditions of this scope alone.
    pub conditions: u64,
    /// Number of conditions of this scope and of the scopes inside it.
    pub conditions_sum: u64,
    /// Fewest conditions of a single scope.
    pub conditions_min: u64,
    /// Most conditions of a single scope.
    pub conditions_max: u64,
    /// Number of scopes counted.
    pub space_count: u64,
}

/// The statistics of a scope in which nothing was seen yet.
pub open spec fn initial() -> Stats {
    Stats {
        assignments: 0,
        assignments_sum: 0,
        assignments_min: NO_MIN,
        assignments_max: 0,
        branches: 0,
        branches_sum: 0,
        branches_min: NO_MIN,
        branches_max: 0,
        conditions: 0,
        conditions_sum: 0,
        conditions_min: NO_MIN,
        conditions_max: 0,
        space_count: 1,
    }
}

impl Default for Stats {
    fn default() -> (s: Self)
        ensures
            s == initial(),
    {
        Stats {
            assignments: 0,
            assignments_sum: 0,
            assignments_min: NO_MIN,
            assignments_max: 0,
            branches: 0,
            branches_sum: 0,
            branches_min: NO_MIN,
            branches_max: 0,
            conditions: 0,
            conditions_sum: 0,
            conditions_min: NO_MIN,
            conditions_max: 0,
            space_count: 1,
        }
    }
}

impl Stats {
    /// The statistics after a sealed scope `other` was merged in.
    pub open spec fn merged(self, other: Stats) -> Stats {
        Stats {
            assignments: self.assignments,
            assignments_sum: (self.assignments_sum + other.assignments_sum) as u64,
            assignments_min: min_of(self.assignments_min, other.assignments_min),
            assignments_max: max_of(self.assignments_max, other.assignments_max),
            branches: self.branches,
            branches_sum: (self.branches_sum + other.branches_sum) as u64,
            branches_min: min_of(self.branches_min, other.branches_min),
            branches_max: max_of(self.branches_max, other.branches_max),
            conditions: self.conditions,
            conditions_sum: (self.conditions_sum + other.conditions_sum) as u64,
            conditions_min: min_of(self.conditions_min, other.conditions_min),
            conditions_max: max_of(self.conditions_max, other.conditions_max),
            space_count: (self.space_count + other.space_count) as u64,
        }
    }

    /// Whether `other` can be merged in without leaving the range of the counters.
    pub open spec fn can_merge(self, other: Stats) -> bool {
        &&& self.assignments_sum + other.assignments_sum <= u64::MAX
        &&& self.branches_sum + other.branches_sum <= u64::MAX
        &&& self.conditions_sum + other.conditions_sum <= u64::MAX
        &&& self.space_count + other.space_count <= u64::MAX
    }

    /// Whether the scope can be sealed without leaving the range of the counters.
    pub open spec fn can_seal(self) -> bool {
        &&& self.assignments_sum + self.assignments <= u64::MAX
        &&& self.branches_sum + self.branches <= u64::MAX
        &&& self.conditions_sum + self.conditions <= u64::MAX
    }

    /// The statistics after the scope was sealed.
    pub open spec fn sealed(self) -> Stats {
        Stats {
            assignments: self.assignments,
            assignments_sum: (self.assignments_sum + self.assignments) as u64,
            assignments_min: min_of(self.assignments_min, self.assignments),
            assignments_max: max_of(self.assignments_max, self.assignments),
            branches: self.branches,
            branches_sum: (self.branches_sum + self.branches) as u64,
            branches_min: min_of(self.branches_min, self.branches),
            branches_max: max_of(self.branches_max, self.branches),
            conditions: self.conditions,
            conditions_sum: (self.conditions_sum + self.conditions) as u64,
            conditions_min: min_of(self.conditions_min, self.conditions),
            conditions_max: max_of(self.conditions_max, self.conditions),
            space_count: self.space_count,
        }
    }

    /// The statistics after the node at `i` was seen. None of the supported
    /// grammars has a node that counts here.
    pub open spec fn visited(self, lang: LANG, nodes: Seq<Node>, i: int) -> Stats {
        self
    }

    /// Whether the counters of an open scope stay within what `m` nodes can add.
    pub open spec fn open_within(self, m: nat) -> bool {
        &&& self.assignments + self.assignments_sum <= 2 * m
        &&& self.branches + self.branches_sum <= 2 * m
        &&& self.conditions + self.conditions_sum <= 2 * m
        &&& self.space_count <= 2 * m
    }

    /// Whether the counters of a sealed scope stay within what `m` nodes can add.
    pub open spec fn sealed_within(self, m: nat) -> bool {
        &&& self.assignments_sum <= 2 * m
        &&& self.branches_sum <= 2 * m
        &&& self.conditions_sum <= 2 * m
        &&& self.space_count <= 2 * m
    }

    /// Merges a second `Abc` metric into the first one.
    pub fn merge(&mut self, other: &Self)
        requires
            old(self).can_merge(*other),
        ensures
            *final(self) == old(self).merged(*other),
    {
        self.assignments_min = min_u64(self.assignments_min, other.assignments_min);
        self.assignments_max = max_u64(self.assignments_max, other.assignments_max);
        self.branches_min = min_u64(self.branches_min, other.branches_min);
        self.branches_max = max_u64(self.branches_max, other.branches_max);
        self.conditions_min = min_u64(self.conditions_min, other.conditions_min);
        self.conditions_max = max_u64(self.conditions_max, other.conditions_max);
        self.assignments_sum = self.assignments_sum + other.assignments_sum;
        self.branches_sum = self.branches_sum + other.branches_sum;
        self.conditions_sum = self.conditions_sum + other.conditions_sum;
        self.space_count = self.space_count + other.space_count;
    }

    /// Returns the `Abc` assignments metric value.
    pub fn assignments(&self) -> (r: u64)
        ensures
            r == self.assignments,
    {
        self.assignments
    }

    /// Returns the `Abc` assignments sum metric value.
    pub fn assignments_sum(&self) -> (r: u64)
        ensures
            r == self.assignments_sum,
    {
        self.assignments_sum
    }

    /// Returns the `Abc` assignments average value.
    ///
    /// This value is computed dividing the `Abc`
    /// assignments value for the number of spaces.
    pub fn assignments_average(&self) -> (r: Option<Ratio>)
        ensures
            r == quotient(self.assignments_sum, self.space_count),
    {
        ratio(self.assignments_sum, self.space_count)
    }

    /// Returns the `Abc` assignments minimum value, if any scope was sealed.
    pub fn assignments_min(&self) -> (r: Option<u64>)
        ensures
            r == reported_min(self.assignments_min),
    {
        report_min(self.assignments_min)
    }

    /// Returns the `Abc` assignments maximum value.
    pub fn assignments_max(&self) -> (r: u64)
        ensures
            r == self.assignments_max,
    {
        self.assignments_max
    }

    /// Returns the `Abc` branches metric value.
    pub fn branches(&self) -> (r: u64)
        ensures
            r == self.branches,
    {
        self.branches
    }

    /// Returns the `Abc` branches sum metric value.
    pub fn branches_sum(&self) -> (r: u64)
        ensures
            r == self.branches_sum,
    {
        self.branches_sum
    }

    /// Returns the `Abc` branches average value.
    ///
    /// This value is computed dividing the `Abc`
    /// branches value for the number of spaces.
    pub fn branches_average(&self) -> (r: Option<Ratio>)
        ensures
            r == quotient(self.branches_sum, self.space_count),
    {
        ratio(self.branches_sum, self.space_count)
    }

    /// Returns the `Abc` branches minimum value, if any scope was sealed.
    pub fn branches_min(&self) -> (r: Option<u64>)
        ensures
            r == reported_min(self.branches_min),
    {
        report_min(self.branches_min)
    }

    /// Returns the `Abc` branches maximum value.
    pub fn branches_max(&self) -> (r: u64)
        ensures
            r == self.branches_max,
    {
        self.branches_max
    }

    /// Returns the `Abc` conditions metric value.
    pub fn conditions(&self) -> (r: u64)
        ensures
            r == self.conditions,
    {
        self.conditions
    }

    /// Returns the `Abc` conditions sum metric value.
    pub fn conditions_sum(&self) -> (r: u64)
        ensures
            r == self.conditions_sum,
    {
        self.conditions_sum
    }

    /// Returns the `Abc` conditions average value.
    ///
    /// This value is computed dividing the `Abc`
    /// conditions value for the number of spaces.
    pub fn conditions_average(&self) -> (r: Option<Ratio>)
        ensures
            r == quotient(self.conditions_sum, self.space_count),
    {
        ratio(self.conditions_sum, self.space_count)
    }

    /// Returns the `Abc` conditions minimum value, if any scope was sealed.
    pub fn conditions_min(&self) -> (r: Option<u64>)
        ensures
            r == reported_min(self.conditions_min),
    {
        report_min(self.conditions_min)
    }

    /// Returns the `Abc` conditions maximum value.
    pub fn conditions_max(&self) -> (r: u64)
        ensures
            r == self.conditions_max,
    {
        self.conditions_max
    }

    /// Adds the scope's own counts to the sums.
    pub fn compute_sum(&mut self)
        requires
            old(self).can_seal(),
        ensures
            *final(self) == (Stats {
                assignments_sum: (old(self).assignments_sum + old(self).assignments) as u64,
                branches_sum: (old(self).branches_sum + old(self).branches) as u64,
                conditions_sum: (old(self).conditions_sum + old(self).conditions) as u64,
                ..*old(self)
            }),
    {
        self.assignments_sum = self.assignments_sum + self.assignments;
        self.branches_sum = self.branches_sum + self.branches;
        self.conditions_sum = self.conditions_sum + self.conditions;
    }

    /// Seals the scope: folds its own counts into the extremes and the sums.
    pub fn compute_minmax(&mut self)
        requires
            old(self).can_seal(),
        ensures
            *final(self) == old(self).sealed(),
    {
        self.assignments_min = min_u64(self.assignments_min, self.assignments);
        self.assignments_max = max_u64(self.assignments_max, self.assignments);
        self.branches_min = min_u64(self.branches_min, self.branches);
        self.branches_max = max_u64(self.branches_max, self.branches);
        self.conditions_min = min_u64(self.conditions_min, self.conditions);
        self.conditions_max = max_u64(self.conditions_max, self.conditions);
        self.compute_sum();
    }
}

/// Accounts for the node at `i` in the counts of the open scope.
pub fn compute(lang: LANG, tree: &Tree, i: usize, stats: &mut Stats)
    requires
        i < tree@.len(),
    ensures
        *final(stats) == old(stats).visited(lang, tree@, i as int),
{
}

/// Merging two sealed scopes into a third gives the same statistics in either order.
pub proof fn lemma_merge_commutes(s: Stats, a: Stats, b: Stats)
    requires
        s.assignments_sum + a.assignments_sum + b.assignments_sum <= u64::MAX,
        s.branches_sum + a.branches_sum + b.branches_sum <= u64::MAX,
        s.conditions_sum + a.conditions_sum + b.conditions_sum <= u64::MAX,
        s.space_count + a.space_count + b.space_count <= u64::MAX,
    ensures
        s.merged(a).merged(b) == s.merged(b).merged(a),
{
}

} // verus!
