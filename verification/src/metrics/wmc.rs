//! Weighted methods per class: the complexity of the methods of a class or
//! an interface, added up.

use vstd::prelude::*;
use crate::metrics::cyclomatic;
use crate::spaces::SpaceKind;

verus! {

/// The `Wmc` metric.
///
/// This metric sums the cyclomatic complexities of all the methods defined in a class.
/// The `Wmc` (Weighted Methods per Class) is an object-oriented metric for classes.
#[derive(Debug, Clone, Copy)]
pub struct Stats {
    /// Complexity of this scope, where it is a function.
    pub cyclomatic: u64,
    /// Complexity of the methods directly in this scope, where it is a class.
    pub class_wmc: u64,
    /// Complexity of the methods directly in this scope, where it is an interface.
    pub interface_wmc: u64,
    /// `class_wmc` of this scope and of the scopes inside it.
    pub class_wmc_sum: u64,
    /// `interface_wmc` of this scope and of the scopes inside it.
    pub interface_wmc_sum: u64,
    /// The kind of this scope.
    pub space_kind: SpaceKind,
}

/// The statistics of a scope in which nothing was seen yet.
pub open spec fn initial() -> Stats {
    Stats {
        cyclomatic: 0,
        class_wmc: 0,
        interface_wmc: 0,
        class_wmc_sum: 0,
        interface_wmc_sum: 0,
        space_kind: SpaceKind::Unknown,
    }
}

impl Default for Stats {
    fn default() -> (s: Self)
        ensures
            s == initial(),
    {
        Stats {
            cyclomatic: 0,
            class_wmc: 0,
            interface_wmc: 0,
            class_wmc_sum: 0,
            interface_wmc_sum: 0,
            space_kind: SpaceKind::Unknown,
        }
    }
}

impl Stats {
    /// The statistics after a sealed scope `other` was merged in: a function
    /// adds its complexity to a class or an interface it stands directly in,
    /// and to no other scope.
    pub open spec fn merged(self, other: Stats) -> Stats {
        Stats {
            cyclomatic: self.cyclomatic,
            class_wmc: if other.space_kind == SpaceKind::Function && self.space_kind
                == SpaceKind::Class {
                (self.class_wmc + other.cyclomatic) as u64
            } else {
                self.class_wmc
            },
            interface_wmc: if other.space_kind == SpaceKind::Function && self.space_kind
                == SpaceKind::Interface {
                (self.interface_wmc + other.cyclomatic) as u64
            } else {
                self.interface_wmc
            },
            class_wmc_sum: (self.class_wmc_sum + other.class_wmc_sum) as u64,
            interface_wmc_sum: (self.interface_wmc_sum + other.interface_wmc_sum) as u64,
            space_kind: self.space_kind,
        }
    }

    /// Whether `other` can be merged in without leaving the range of the counters.
    pub open spec fn can_merge(self, other: Stats) -> bool {
        &&& self.class_wmc + other.cyclomatic <= u64::MAX
        &&& self.interface_wmc + other.cyclomatic <= u64::MAX
        &&& self.class_wmc_sum + other.class_wmc_sum <= u64::MAX
        &&& self.interface_wmc_sum + other.interface_wmc_sum <= u64::MAX
    }

    /// Whether the scope can be sealed without leaving the range of the counters.
    pub open spec fn can_seal(self) -> bool {
        &&& self.class_wmc_sum + self.class_wmc <= u64::MAX
        &&& self.interface_wmc_sum + self.interface_wmc <= u64::MAX
    }

    /// The statistics after the scope's own values entered the sums.
    pub open spec fn sealed(self) -> Stats {
        Stats {
            class_wmc_sum: (self.class_wmc_sum + self.class_wmc) as u64,
            interface_wmc_sum: (self.interface_wmc_sum + self.interface_wmc) as u64,
            ..self
        }
    }

    /// The statistics after the scope's kind and complexity were noted: a
    /// file, class, interface or function keeps its kind, and a function its
    /// own complexity, without that of the scopes inside it.
    pub open spec fn noted(self, space_kind: SpaceKind, cyclomatic: cyclomatic::Stats) -> Stats {
        if space_kind == SpaceKind::Unit || space_kind == SpaceKind::Class || space_kind
            == SpaceKind::Interface || space_kind == SpaceKind::Function {
            Stats {
                space_kind: if self.space_kind == SpaceKind::Unknown {
                    space_kind
                } else {
                    self.space_kind
                },
                cyclomatic: if space_kind == SpaceKind::Function {
                    cyclomatic.cyclomatic
                } else {
                    self.cyclomatic
                },
                ..self
            }
        } else {
            self
        }
    }

    /// Whether the counters of an open scope stay within what `m` nodes can add.
    pub open spec fn open_within(self, m: nat) -> bool {
        &&& self.class_wmc + self.class_wmc_sum <= 4 * m * m
        &&& self.interface_wmc + self.interface_wmc_sum <= 4 * m * m
        &&& self.cyclomatic <= 1
    }

    /// Whether the counters of a sealed scope stay within what `m` nodes can add.
    pub open spec fn sealed_within(self, m: nat) -> bool {
        &&& self.class_wmc_sum <= 4 * m * m
        &&& self.interface_wmc_sum <= 4 * m * m
        &&& self.cyclomatic <= 2 * m
    }

    /// The total `Wmc` metric value in a space.
    pub open spec fn total_value(self) -> nat {
        (self.class_wmc_sum + self.interface_wmc_sum) as nat
    }

    /// Merges a second `Wmc` metric into the first one
    pub fn merge(&mut self, other: &Stats)
        requires
            old(self).can_merge(*other),
        ensures
            *final(self) == old(self).merged(*other),
            other.space_kind == SpaceKind::Function && old(self).space_kind == SpaceKind::Class
                ==> final(self).class_wmc == old(self).class_wmc + other.cyclomatic,
            other.space_kind == SpaceKind::Function && old(self).space_kind == SpaceKind::Class
                ==> final(self).interface_wmc == old(self).interface_wmc,
            other.space_kind == SpaceKind::Function && old(self).space_kind
                == SpaceKind::Interface ==> final(self).interface_wmc == old(self).interface_wmc
                + other.cyclomatic,
            other.space_kind == SpaceKind::Function && old(self).space_kind
                == SpaceKind::Interface ==> final(self).class_wmc == old(self).class_wmc,
            old(self).space_kind != SpaceKind::Class && old(self).space_kind
                != SpaceKind::Interface ==> final(self).class_wmc == old(self).class_wmc,
            old(self).space_kind != SpaceKind::Class && old(self).space_kind
                != SpaceKind::Interface ==> final(self).interface_wmc == old(self).interface_wmc,
            final(self).class_wmc_sum == old(self).class_wmc_sum + other.class_wmc_sum,
            final(self).interface_wmc_sum == old(self).interface_wmc_sum
                + other.interface_wmc_sum,
    {
        // Merges the cyclomatic complexity of a method
        // into the `Wmc` metric value of a class or interface
        if other.space_kind == SpaceKind::Function {
            if self.space_kind == SpaceKind::Class {
                self.class_wmc = self.class_wmc + other.cyclomatic;
            } else if self.space_kind == SpaceKind::Interface {
                self.interface_wmc = self.interface_wmc + other.cyclomatic;
            }
        }
        self.class_wmc_sum = self.class_wmc_sum + other.class_wmc_sum;
        self.interface_wmc_sum = self.interface_wmc_sum + other.interface_wmc_sum;
    }

    /// Returns the `Wmc` metric value of the classes in a space.
    pub fn class_wmc(&self) -> (r: u64)
        ensures
            r == self.class_wmc,
    {
        self.class_wmc
    }

    /// Returns the `Wmc` metric value of the interfaces in a space.
    pub fn interface_wmc(&self) -> (r: u64)
        ensures
            r == self.interface_wmc,
    {
        self.interface_wmc
    }

    /// Returns the sum of the `Wmc` metric values of the classes in a space.
    pub fn class_wmc_sum(&self) -> (r: u64)
        ensures
            r == self.class_wmc_sum,
    {
        self.class_wmc_sum
    }

    /// Returns the sum of the `Wmc` metric values of the interfaces in a space.
    pub fn interface_wmc_sum(&self) -> (r: u64)
        ensures
            r == self.interface_wmc_sum,
    {
        self.interface_wmc_sum
    }

    /// Returns the total `Wmc` metric value in a space.
    pub fn total_wmc(&self) -> (r: u128)
        ensures
            r == self.total_value(),
    {
        self.class_wmc_sum as u128 + self.interface_wmc_sum as u128
    }

    /// Accumulates the `Wmc` metric values
    /// of classes and interfaces into the sums
    pub fn compute_sum(&mut self)
        requires
            old(self).can_seal(),
        ensures
            *final(self) == old(self).sealed(),
    {
        self.class_wmc_sum = self.class_wmc_sum + self.class_wmc;
        self.interface_wmc_sum = self.interface_wmc_sum + self.interface_wmc;
    }

    /// Checks if the `Wmc` metric is disabled
    pub fn is_disabled(&self) -> (r: bool)
        ensures
            r == (self.space_kind == SpaceKind::Function || self.space_kind == SpaceKind::Unknown),
    {
        self.space_kind == SpaceKind::Function || self.space_kind == SpaceKind::Unknown
    }
}

/// Notes the kind of a scope and, for a function, its own complexity.
pub fn compute(space_kind: SpaceKind, cyclomatic: &cyclomatic::Stats, stats: &mut Stats)
    ensures
        *final(stats) == old(stats).noted(space_kind, *cyclomatic),
{
    if space_kind == SpaceKind::Unit || space_kind == SpaceKind::Class || space_kind
        == SpaceKind::Interface || space_kind == SpaceKind::Function {
        if stats.space_kind == SpaceKind::Unknown {
            stats.space_kind = space_kind;
        }
        if space_kind == SpaceKind::Function {
            // The complexity of the function alone: what is nested in it
            // weighs on no class
            stats.cyclomatic = cyclomatic.cyclomatic;
        }
    }
}

/// Merging two sealed scopes into a third gives the same statistics in either order.
pub proof fn lemma_merge_commutes(s: Stats, a: Stats, b: Stats)
    requires
        s.can_merge(a),
        s.can_merge(b),
        s.merged(a).can_merge(b),
        s.merged(b).can_merge(a),
    ensures
        s.merged(a).merged(b) == s.merged(b).merged(a),
{
}

/// A function directly in a class adds its complexity to that class; merged
/// into a function, or any scope that is no class or interface, it adds to
/// the methods of none.
pub proof fn lemma_scoping(parent: Stats, child: Stats)
    requires
        child.space_kind == SpaceKind::Function,
        parent.can_merge(child),
    ensures
        parent.space_kind == SpaceKind::Class ==> parent.merged(child).class_wmc
            == parent.class_wmc + child.cyclomatic,
        parent.space_kind == SpaceKind::Interface ==> parent.merged(child).interface_wmc
            == parent.interface_wmc + child.cyclomatic,
        parent.space_kind != SpaceKind::Class && parent.space_kind != SpaceKind::Interface
            ==> parent.merged(child).class_wmc == parent.class_wmc && parent.merged(
            child,
        ).interface_wmc == parent.interface_wmc,
{
}

/// What a function hands on to the class around it is its own
/// complexity: whatever the scopes nested in the function add to its sum,
/// the class gets the same.
pub proof fn lemma_nested_adds_nothing(
    class: Stats,
    method: Stats,
    own: cyclomatic::Stats,
    nested: cyclomatic::Stats,
)
    requires
        class.space_kind == SpaceKind::Class,
        method.space_kind == SpaceKind::Function,
        own.can_merge(nested),
        class.class_wmc + own.cyclomatic <= u64::MAX,
    ensures
        method.noted(SpaceKind::Function, own.merged(nested)) == method.noted(
            SpaceKind::Function,
            own,
        ),
        class.merged(method.noted(SpaceKind::Function, own.merged(nested).sealed())).class_wmc
            == class.class_wmc + own.cyclomatic,
{
}

} // verus!
