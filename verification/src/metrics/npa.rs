//! Npa: the public attributes of classes and interfaces, among all their attributes.

use vstd::prelude::*;
use crate::langs::LANG;
use crate::metrics::{quotient, ratio, Ratio};
use crate::node::{Node, Tree};

verus! {

/// The `Npa` metric.
///
/// This metric counts the number of public attributes
/// of classes/interfaces.
#[derive(Clone, Copy, Debug)]
pub struct Stats {
    /// Public attributes of the class this scope is.
    pub class_npa: u64,
    /// Public attributes of the interface this scope is.
    pub interface_npa: u64,
    /// All attributes of the class this scope is.
    pub class_na: u64,
    /// All attributes of the interface this scope is.
    pub interface_na: u64,
    /// Public attributes of the class this scope is, and of those inside it.
    pub class_npa_sum: u64,
    /// Public attributes of the interface this scope is, and of those inside it.
    pub interface_npa_sum: u64,
    /// All attributes of the class this scope is, and of those inside it.
    pub class_na_sum: u64,
    /// All attributes of the interface this scope is, and of those inside it.
    pub interface_na_sum: u64,
    /// Whether this scope is a class or an interface.
    pub is_class_space: bool,
}

/// The statistics of a scope in which nothing was seen yet.
pub open spec fn initial() -> Stats {
    Stats {
        class_npa: 0,
        interface_npa: 0,
        class_na: 0,
        interface_na: 0,
        class_npa_sum: 0,
        interface_npa_sum: 0,
        class_na_sum: 0,
        interface_na_sum: 0,
        is_class_space: false,
    }
}

impl Default for Stats {
    fn default() -> (s: Self)
        ensures
            s == initial(),
    {
        Stats {
            class_npa: 0,
            interface_npa: 0,
            class_na: 0,
            interface_na: 0,
            class_npa_sum: 0,
            interface_npa_sum: 0,
            class_na_sum: 0,
            interface_na_sum: 0,
            is_class_space: false,
        }
    }
}

impl Stats {
    /// The statistics after a sealed scope `other` was merged in.
    pub open spec fn merged(self, other: Stats) -> Stats {
        Stats {
            class_npa_sum: (self.class_npa_sum + other.class_npa_sum) as u64,
            interface_npa_sum: (self.interface_npa_sum + other.interface_npa_sum) as u64,
            class_na_sum: (self.class_na_sum + other.class_na_sum) as u64,
            interface_na_sum: (self.interface_na_sum + other.interface_na_sum) as u64,
            ..self
        }
    }

    /// Whether `other` can be merged in without leaving the range of the counters.
    pub open spec fn can_merge(self, other: Stats) -> bool {
        &&& self.class_npa_sum + other.class_npa_sum <= u64::MAX
        &&& self.interface_npa_sum + other.interface_npa_sum <= u64::MAX
        &&& self.class_na_sum + other.class_na_sum <= u64::MAX
        &&& self.interface_na_sum + other.interface_na_sum <= u64::MAX
    }

    /// Whether the scope can be sealed without leaving the range of the counters.
    pub open spec fn can_seal(self) -> bool {
        &&& self.class_npa_sum + self.class_npa <= u64::MAX
        &&& self.interface_npa_sum + self.interface_npa <= u64::MAX
        &&& self.class_na_sum + self.class_na <= u64::MAX
        &&& self.interface_na_sum + self.interface_na <= u64::MAX
    }

    /// The statistics after the scope was sealed.
    pub open spec fn sealed(self) -> Stats {
        Stats {
            class_npa_sum: (self.class_npa_sum + self.class_npa) as u64,
            interface_npa_sum: (self.interface_npa_sum + self.interface_npa) as u64,
            class_na_sum: (self.class_na_sum + self.class_na) as u64,
            interface_na_sum: (self.interface_na_sum + self.interface_na) as u64,
            ..self
        }
    }

    /// The statistics after the node at `i` was seen. None of the supported
    /// grammars marks the visibility of attributes, so no node counts here.
    pub open spec fn visited(self, lang: LANG, nodes: Seq<Node>, i: int) -> Stats {
        self
    }

    /// Whether the counters of an open scope stay within what `m` nodes can add.
    pub open spec fn open_within(self, m: nat) -> bool {
        &&& self.class_npa + self.class_npa_sum <= 2 * m
        &&& self.interface_npa + self.interface_npa_sum <= 2 * m
        &&& self.class_na + self.class_na_sum <= 2 * m
        &&& self.interface_na + self.interface_na_sum <= 2 * m
    }

    /// Whether the counters of a sealed scope stay within what `m` nodes can add.
    pub open spec fn sealed_within(self, m: nat) -> bool {
        &&& self.class_npa_sum <= 2 * m
        &&& self.interface_npa_sum <= 2 * m
        &&& self.class_na_sum <= 2 * m
        &&& self.interface_na_sum <= 2 * m
    }

    /// The total number of public attributes in a space.
    pub open spec fn total_npa_value(self) -> nat {
        (self.class_npa_sum + self.interface_npa_sum) as nat
    }

    /// The total number of attributes in a space.
    pub open spec fn total_na_value(self) -> nat {
        (self.class_na_sum + self.interface_na_sum) as nat
    }

    /// The accessibility of the interfaces in a space: one where all of
    /// their attributes are public, else public over all; undefined without attributes.
    pub open spec fn interface_cda_value(self) -> Option<Ratio> {
        if self.interface_npa_sum == self.interface_na_sum && self.interface_npa_sum != 0 {
            Some(Ratio { num: 1, den: 1 })
        } else {
            quotient(self.interface_npa_sum, self.interface_na_sum)
        }
    }

    /// Merges a second `Npa` metric into the first one
    pub fn merge(&mut self, other: &Self)
        requires
            old(self).can_merge(*other),
        ensures
            *final(self) == old(self).merged(*other),
    {
        self.class_npa_sum = self.class_npa_sum + other.class_npa_sum;
        self.interface_npa_sum = self.interface_npa_sum + other.interface_npa_sum;
        self.class_na_sum = self.class_na_sum + other.class_na_sum;
        self.interface_na_sum = self.interface_na_sum + other.interface_na_sum;
    }

    /// Returns the number of class public attributes in a space.
    pub fn class_npa(&self) -> (r: u64)
        ensures
            r == self.class_npa,
    {
        self.class_npa
    }

    /// Returns the number of interface public attributes in a space.
    pub fn interface_npa(&self) -> (r: u64)
        ensures
            r == self.interface_npa,
    {
        self.interface_npa
    }

    /// Returns the number of class attributes in a space.
    pub fn class_na(&self) -> (r: u64)
        ensures
            r == self.class_na,
    {
        self.class_na
    }

    /// Returns the number of interface attributes in a space.
    pub fn interface_na(&self) -> (r: u64)
        ensures
            r == self.interface_na,
    {
        self.interface_na
    }

    /// Returns the number of class public attributes sum in a space.
    pub fn class_npa_sum(&self) -> (r: u64)
        ensures
            r == self.class_npa_sum,
    {
        self.class_npa_sum
    }

    /// Returns the number of interface public attributes sum in a space.
    pub fn interface_npa_sum(&self) -> (r: u64)
        ensures
            r == self.interface_npa_sum,
    {
        self.interface_npa_sum
    }

    /// Returns the number of class attributes sum in a space.
    pub fn class_na_sum(&self) -> (r: u64)
        ensures
            r == self.class_na_sum,
    {
        self.class_na_sum
    }

    /// Returns the number of interface attributes sum in a space.
    pub fn interface_na_sum(&self) -> (r: u64)
        ensures
            r == self.interface_na_sum,
    {
        self.interface_na_sum
    }

    /// Returns the class `Cda` metric value
    ///
    /// The `Class Data Accessibility` metric value for a class
    /// is computed by dividing the `Npa` value of the class
    /// by the total number of attributes defined in the class.
    pub fn class_cda(&self) -> (r: Option<Ratio>)
        ensures
            r == quotient(self.class_npa_sum, self.class_na_sum),
    {
        ratio(self.class_npa_sum, self.class_na_sum)
    }

    /// Returns the interface `Cda` metric value
    ///
    /// The `Class Data Accessibility` metric value for an interface
    /// is computed by dividing the `Npa` value of the interface
    /// by the total number of attributes defined in the interface.
    pub fn interface_cda(&self) -> (r: Option<Ratio>)
        ensures
            r == self.interface_cda_value(),
    {
        if self.interface_npa_sum == self.interface_na_sum && self.interface_npa_sum != 0 {
            Some(Ratio { num: 1, den: 1 })
        } else {
            ratio(self.interface_npa_sum, self.interface_na_sum)
        }
    }

    /// Returns the total `Cda` metric value
    ///
    /// The total `Class Data Accessibility` metric value
    /// is computed by dividing the total `Npa` value
    /// by the total number of attributes.
    pub fn total_cda(&self) -> (r: Option<Ratio>)
        ensures
            r == (if self.total_na_value() == 0 {
                None
            } else {
                Some(Ratio { num: self.total_npa_value() as u128, den: self.total_na_value() as u128 })
            }),
    {
        let den = self.total_na();
        if den == 0 {
            None
        } else {
            Some(Ratio { num: self.total_npa(), den })
        }
    }

    /// Returns the total number of public attributes in a space.
    pub fn total_npa(&self) -> (r: u128)
        ensures
            r == self.total_npa_value(),
    {
        self.class_npa_sum as u128 + self.interface_npa_sum as u128
    }

    /// Returns the total number of attributes in a space.
    pub fn total_na(&self) -> (r: u128)
        ensures
            r == self.total_na_value(),
    {
        self.class_na_sum as u128 + self.interface_na_sum as u128
    }

    /// Accumulates the number of class and interface
    /// public and not public attributes into the sums
    pub fn compute_sum(&mut self)
        requires
            old(self).can_seal(),
        ensures
            *final(self) == old(self).sealed(),
    {
        self.class_npa_sum = self.class_npa_sum + self.class_npa;
        self.interface_npa_sum = self.interface_npa_sum + self.interface_npa;
        self.class_na_sum = self.class_na_sum + self.class_na;
        self.interface_na_sum = self.interface_na_sum + self.interface_na;
    }

    /// Checks if the `Npa` metric is disabled
    pub fn is_disabled(&self) -> (r: bool)
        ensures
            r == !self.is_class_space,
    {
        !self.is_class_space
    }
}

/// Accounts for the node at `i` in the counts of the open scope.
pub fn compute(lang: LANG, tree: &Tree, i: usize, stats: &mut Stats)
    requires
        i < tree@.len(),
    ensures
        *final(stats) == old(stats).visited(lang, tree@, i as int),
{
}

/// Merging two sealed scopes into a third gives the same statistics in
/// either order and in either grouping.
pub proof fn lemma_merge_commutes(s: Stats, a: Stats, b: Stats)
    requires
        s.class_npa_sum + a.class_npa_sum + b.class_npa_sum <= u64::MAX,
        s.interface_npa_sum + a.interface_npa_sum + b.interface_npa_sum <= u64::MAX,
        s.class_na_sum + a.class_na_sum + b.class_na_sum <= u64::MAX,
        s.interface_na_sum + a.interface_na_sum + b.interface_na_sum <= u64::MAX,
    ensures
        s.merged(a).merged(b) == s.merged(b).merged(a),
        s.merged(a).merged(b) == s.merged(a.merged(b)),
{
}

} // verus!
