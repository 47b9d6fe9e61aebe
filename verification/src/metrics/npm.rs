//! Npm: the public methods of classes and interfaces, among all their methods.

use vstd::prelude::*;
use crate::langs::LANG;
use crate::metrics::{quotient, ratio, Ratio};
use crate::node::{Node, Tree};

verus! {

/// The `Npm` metric.
///
/// This metric counts the number of public methods
/// of classes/interfaces.
#[derive(Clone, Copy, Debug)]
pub struct Stats {
    /// Public methods of the class this scope is.
    pub class_npm: u64,
    /// Public methods of the interface this scope is.
    pub interface_npm: u64,
    /// All methods of the class this scope is.
    pub class_nm: u64,
    /// All methods of the interface this scope is.
    pub interface_nm: u64,
    /// Public methods of the class this scope is, and of those inside it.
    pub class_npm_sum: u64,
    /// Public methods of the interface this scope is, and of those inside it.
    pub interface_npm_sum: u64,
    /// All methods of the class this scope is, and of those inside it.
    pub class_nm_sum: u64,
    /// All methods of the interface this scope is, and of those inside it.
    pub interface_nm_sum: u64,
    /// Whether this scope is a class or an interface.
    pub is_class_space: bool,
}

/// The statistics of a scope in which nothing was seen yet.
pub open spec fn initial() -> Stats {
    Stats {
        class_npm: 0,
        interface_npm: 0,
        class_nm: 0,
        interface_nm: 0,
        class_npm_sum: 0,
        interface_npm_sum: 0,
        class_nm_sum: 0,
        interface_nm_sum: 0,
        is_class_space: false,
    }
}

impl Default for Stats {
    fn default() -> (s: Self)
        ensures
            s == initial(),
    {
        Stats {
            class_npm: 0,
            interface_npm: 0,
            class_nm: 0,
            interface_nm: 0,
            class_npm_sum: 0,
            interface_npm_sum: 0,
            class_nm_sum: 0,
            interface_nm_sum: 0,
            is_class_space: false,
        }
    }
}

impl Stats {
    /// The statistics after a sealed scope `other` was merged in.
    pub open spec fn merged(self, other: Stats) -> Stats {
        Stats {
            class_npm_sum: (self.class_npm_sum + other.class_npm_sum) as u64,
            interface_npm_sum: (self.interface_npm_sum + other.interface_npm_sum) as u64,
            class_nm_sum: (self.class_nm_sum + other.class_nm_sum) as u64,
            interface_nm_sum: (self.interface_nm_sum + other.interface_nm_sum) as u64,
            ..self
        }
    }

    /// Whether `other` can be merged in without leaving the range of the counters.
    pub open spec fn can_merge(self, other: Stats) -> bool {
        &&& self.class_npm_sum + other.class_npm_sum <= u64::MAX
        &&& self.interface_npm_sum + other.interface_npm_sum <= u64::MAX
        &&& self.class_nm_sum + other.class_nm_sum <= u64::MAX
        &&& self.interface_nm_sum + other.interface_nm_sum <= u64::MAX
    }

    /// Whether the scope can be sealed without leaving the range of the counters.
    pub open spec fn can_seal(self) -> bool {
        &&& self.class_npm_sum + self.class_npm <= u64::MAX
        &&& self.interface_npm_sum + self.interface_npm <= u64::MAX
        &&& self.class_nm_sum + self.class_nm <= u64::MAX
        &&& self.interface_nm_sum + self.interface_nm <= u64::MAX
    }

    /// The statistics after the scope was sealed.
    pub open spec fn sealed(self) -> Stats {
        Stats {
            class_npm_sum: (self.class_npm_sum + self.class_npm) as u64,
            interface_npm_sum: (self.interface_npm_sum + self.interface_npm) as u64,
            class_nm_sum: (self.class_nm_sum + self.class_nm) as u64,
            interface_nm_sum: (self.interface_nm_sum + self.interface_nm) as u64,
            ..self
        }
    }

    /// The statistics after the node at `i` was seen. None of the supported
    /// grammars marks the visibility of methods, so no node counts here.
    pub open spec fn visited(self, lang: LANG, nodes: Seq<Node>, i: int) -> Stats {
        self
    }

    /// Whether the counters of an open scope stay within what `m` nodes can add.
    pub open spec fn open_within(self, m: nat) -> bool {
        &&& self.class_npm + self.class_npm_sum <= 2 * m
        &&& self.interface_npm + self.interface_npm_sum <= 2 * m
        &&& self.class_nm + self.class_nm_sum <= 2 * m
        &&& self.interface_nm + self.interface_nm_sum <= 2 * m
    }

    /// Whether the counters of a sealed scope stay within what `m` nodes can add.
    pub open spec fn sealed_within(self, m: nat) -> bool {
        &&& self.class_npm_sum <= 2 * m
        &&& self.interface_npm_sum <= 2 * m
        &&& self.class_nm_sum <= 2 * m
        &&& self.interface_nm_sum <= 2 * m
    }

    /// The total number of public methods in a space.
    pub open spec fn total_npm_value(self) -> nat {
        (self.class_npm_sum + self.interface_npm_sum) as nat
    }

    /// The total number of methods in a space.
    pub open spec fn total_nm_value(self) -> nat {
        (self.class_nm_sum + self.interface_nm_sum) as nat
    }

    /// The accessibility of the interfaces in a space: one where all of
    /// their methods are public, else public over all; undefined without methods.
    pub open spec fn interface_coa_value(self) -> Option<Ratio> {
        if self.interface_npm_sum == self.interface_nm_sum && self.interface_npm_sum != 0 {
            Some(Ratio { num: 1, den: 1 })
        } else {
            quotient(self.interface_npm_sum, self.interface_nm_sum)
        }
    }

    /// Merges a second `Npm` metric into the first one
    pub fn merge(&mut self, other: &Self)
        requires
            old(self).can_merge(*other),
        ensures
            *final(self) == old(self).merged(*other),
    {
        self.class_npm_sum = self.class_npm_sum + other.class_npm_sum;
        self.interface_npm_sum = self.interface_npm_sum + other.interface_npm_sum;
        self.class_nm_sum = self.class_nm_sum + other.class_nm_sum;
        self.interface_nm_sum = self.interface_nm_sum + other.interface_nm_sum;
    }

    /// Returns the number of class public methods in a space.
    pub fn class_npm(&self) -> (r: u64)
        ensures
            r == self.class_npm,
    {
        self.class_npm
    }

    /// Returns the number of interface public methods in a space.
    pub fn interface_npm(&self) -> (r: u64)
        ensures
            r == self.interface_npm,
    {
        self.interface_npm
    }

    /// Returns the number of class methods in a space.
    pub fn class_nm(&self) -> (r: u64)
        ensures
            r == self.class_nm,
    {
        self.class_nm
    }

    /// Returns the number of interface methods in a space.
    pub fn interface_nm(&self) -> (r: u64)
        ensures
            r == self.interface_nm,
    {
        self.interface_nm
    }

    /// Returns the number of class public methods sum in a space.
    pub fn class_npm_sum(&self) -> (r: u64)
        ensures
            r == self.class_npm_sum,
    {
        self.class_npm_sum
    }

    /// Returns the number of interface public methods sum in a space.
    pub fn interface_npm_sum(&self) -> (r: u64)
        ensures
            r == self.interface_npm_sum,
    {
        self.interface_npm_sum
    }

    /// Returns the number of class methods sum in a space.
    pub fn class_nm_sum(&self) -> (r: u64)
        ensures
            r == self.class_nm_sum,
    {
        self.class_nm_sum
    }

    /// Returns the number of interface methods sum in a space.
    pub fn interface_nm_sum(&self) -> (r: u64)
        ensures
            r == self.interface_nm_sum,
    {
        self.interface_nm_sum
    }

    /// Returns the class `Coa` metric value
    ///
    /// The `Class Operation Accessibility` metric value for a class
    /// is computed by dividing the `Npm` value of the class
    /// by the total number of methods defined in the class.
    pub fn class_coa(&self) -> (r: Option<Ratio>)
        ensures
            r == quotient(self.class_npm_sum, self.class_nm_sum),
    {
        ratio(self.class_npm_sum, self.class_nm_sum)
    }

    /// Returns the interface `Coa` metric value
    ///
    /// The `Class Operation Accessibility` metric value for an interface
    /// is computed by dividing the `Npm` value of the interface
    /// by the total number of methods defined in the interface.
    pub fn interface_coa(&self) -> (r: Option<Ratio>)
        ensures
            r == self.interface_coa_value(),
    {
        if self.interface_npm_sum == self.interface_nm_sum && self.interface_npm_sum != 0 {
            Some(Ratio { num: 1, den: 1 })
        } else {
            ratio(self.interface_npm_sum, self.interface_nm_sum)
        }
    }

    /// Returns the total `Coa` metric value
    ///
    /// The total `Class Operation Accessibility` metric value
    /// is computed by dividing the total `Npm` value
    /// by the total number of methods.
    pub fn total_coa(&self) -> (r: Option<Ratio>)
        ensures
            r == (if self.total_nm_value() == 0 {
                None
            } else {
                Some(Ratio { num: self.total_npm_value() as u128, den: self.total_nm_value() as u128 })
            }),
    {
        let den = self.total_nm();
        if den == 0 {
            None
        } else {
            Some(Ratio { num: self.total_npm(), den })
        }
    }

    /// Returns the total number of public methods in a space.
    pub fn total_npm(&self) -> (r: u128)
        ensures
            r == self.total_npm_value(),
    {
        self.class_npm_sum as u128 + self.interface_npm_sum as u128
    }

    /// Returns the total number of methods in a space.
    pub fn total_nm(&self) -> (r: u128)
        ensures
            r == self.total_nm_value(),
    {
        self.class_nm_sum as u128 + self.interface_nm_sum as u128
    }

    /// Accumulates the number of class and interface
    /// public and not public methods into the sums
    pub fn compute_sum(&mut self)
        requires
            old(self).can_seal(),
        ensures
            *final(self) == old(self).sealed(),
    {
        self.class_npm_sum = self.class_npm_sum + self.class_npm;
        self.interface_npm_sum = self.interface_npm_sum + self.interface_npm;
        self.class_nm_sum = self.class_nm_sum + self.class_nm;
        self.interface_nm_sum = self.interface_nm_sum + self.interface_nm;
    }

    /// Checks if the `Npm` metric is disabled
    pub fn is_disabled(&self) -> (r: bool)
        ensures
            r == !self.is_class_space,
    {
        !self.is_class_space
    }
}

/// Accounts for the node at `i` in the counts of the open scope.
pub fn compute(lang: LANG, tree: &Tree, i: usize, stats: &mut Stats)
    requires
        i < tree@.len(),
    ensures
        *final(stats) == old(stats).visited(lang, tree@, i as int),
{
}

/// Merging two sealed scopes into a third gives the same statistics in
/// either order and in either grouping.
pub proof fn lemma_merge_commutes(s: Stats, a: Stats, b: Stats)
    requires
        s.class_npm_sum + a.class_npm_sum + b.class_npm_sum <= u64::MAX,
        s.interface_npm_sum + a.interface_npm_sum + b.interface_npm_sum <= u64::MAX,
        s.class_nm_sum + a.class_nm_sum + b.class_nm_sum <= u64::MAX,
        s.interface_nm_sum + a.interface_nm_sum + b.interface_nm_sum <= u64::MAX,
    ensures
        s.merged(a).merged(b) == s.merged(b).merged(a),
        s.merged(a).merged(b) == s.merged(a.merged(b)),
{
}

} // verus!
