//! The Halstead suite: how many operators and operands a scope holds, and how
//! many different ones.

use vstd::prelude::*;
use std::collections::HashMap;
use vstd::std_specs::iter::IteratorSpec;
use vstd::multiset::*;
use vstd::utf8::valid_utf8;
use vstd::slice::slice_subrange;
use crate::getter::{get_op_type, op_type};
use crate::langs::LANG;
use crate::metrics::tally::{
    bag, distinct, lemma_add_commutes, lemma_bag_len, lemma_bag_of_map, lemma_bag_push,
    lemma_bag_raise,
    lemma_count_le_total, lemma_repeat_one, lemma_total_take, lemma_unique, lemma_update, repeat,
    total,
};
use crate::metrics::Ratio;
use crate::getter::node_text;
use crate::node::{fits, node_ok, Node, Tree};
use crate::tools::{bytes_equal, is_utf8};

verus! {

/// The `Halstead` metric suite.
#[derive(Default, Clone, Copy, Debug)]
pub struct Stats {
    /// `η1`, the number of distinct operators
    pub u_operators: u64,
    /// `N1`, the number of total operators
    pub operators: u64,
    /// `η2`, the number of distinct operands
    pub u_operands: u64,
    /// `N2`, the number of total operands
    pub operands: u64,
}

/// Specifies the type of nodes accepted by the `Halstead` metric.
#[derive(Clone, Copy, Debug, PartialEq, Eq, Structural)]
pub enum HalsteadType {
    /// The node is an `Halstead` operator
    Operator,
    /// The node is an `Halstead` operand
    Operand,
    /// The node is unknown to the `Halstead` metric
    Unknown,
}

/// The operators and operands seen in a scope, each kind or text once, with
/// the number of times it occurred.
#[derive(Debug)]
pub struct HalsteadMaps {
    /// Operator kinds and how often each occurred.
    pub operators: HashMap<u16, u64>,
    /// Operand texts and how often each occurred.
    pub operands: Vec<(Vec<u8>, u64)>,
}

/// What a `HalsteadMaps` stands for: every occurrence of an operator kind, and
/// every occurrence of an operand text.
pub struct HalsteadMapsView {
    /// One item per operator occurrence: its kind.
    pub operators: Multiset<u16>,
    /// One item per operand occurrence: its text.
    pub operands: Multiset<Seq<u8>>,
}

/// The counts of a table of operators.
pub open spec fn operator_counts(m: Map<u16, u64>) -> Map<u16, nat> {
    Map::new(|k: u16| m.contains_key(k), |k: u16| m[k] as nat)
}

/// The bag a table of operators stands for: each kind as often as it is counted.
pub open spec fn operator_bag(m: Map<u16, u64>) -> Multiset<u16> {
    Multiset::from_map(operator_counts(m))
}

/// Whether a walk over a table yields each kind once, with its count, and
/// leaves out none.
pub open spec fn walks(v: Seq<(&u16, &u64)>, m: Map<u16, u64>) -> bool {
    &&& v.no_duplicates()
    &&& forall|i: int|
        0 <= i < v.len() ==> m.contains_key(*(#[trigger] v[i]).0) && m[*v[i].0] == *v[i].1
    &&& forall|k: u16| #[trigger] m.contains_key(k) ==> v.contains((&k, &m[k]))
}

/// A walk over a table stands for the bag of the table.
pub proof fn lemma_walk_bag(v: Seq<(&u16, &u64)>, m: Map<u16, u64>)
    requires
        walks(v, m),
        m.dom().finite(),
    ensures
        bag(operator_entries(v.unref())) == operator_bag(m),
        total(operator_entries(v.unref())) == operator_bag(m).len(),
        forall|i: int| 0 <= i < v.len() ==> m.contains_key(*(#[trigger] v[i]).0) && m[*v[i].0] == *v[i].1,
{
    let s = operator_entries(v.unref());
    let c = operator_counts(m);
    assert(c.dom() =~= m.dom());
    assert forall|a: int, b: int| 0 <= a < b < s.len() implies s[a].0 != s[b].0 by {
        if s[a].0 == s[b].0 {
            assert(m[*v[a].0] == *v[a].1 && m[*v[b].0] == *v[b].1);
            assert(v[a] == v[b]);
        }
    }
    assert forall|i: int| 0 <= i < s.len() implies c.contains_key(#[trigger] s[i].0) && c[s[i].0]
        == s[i].1 by {
        assert(m.contains_key(*v[i].0));
    }
    assert forall|k: u16| c.contains_key(k) implies exists|i: int|
        0 <= i < s.len() && #[trigger] s[i].0 == k by {
        assert(m.contains_key(k));
        let i = choose|i: int| 0 <= i < v.len() && v[i] == (&k, &m[k]);
        assert(s[i].0 == k);
    }
    lemma_bag_of_map(s, c);
    lemma_bag_len(s);
}

/// The operator list as keys and counts.
pub open spec fn operator_entries(v: Seq<(u16, u64)>) -> Seq<(u16, nat)> {
    Seq::new(v.len(), |i: int| (v[i].0, v[i].1 as nat))
}

/// The operand list as keys and counts.
pub open spec fn operand_entries(v: Seq<(Vec<u8>, u64)>) -> Seq<(Seq<u8>, nat)> {
    Seq::new(v.len(), |i: int| (v[i].0@, v[i].1 as nat))
}

impl View for HalsteadMaps {
    type V = HalsteadMapsView;

    open spec fn view(&self) -> HalsteadMapsView {
        HalsteadMapsView {
            operators: operator_bag(self.operators@),
            operands: bag(operand_entries(self.operands@)),
        }
    }
}

impl HalsteadMapsView {
    /// The tables after one more occurrence of the operator `id`.
    pub open spec fn with_operator(self, id: u16) -> HalsteadMapsView {
        HalsteadMapsView { operators: self.operators.insert(id), operands: self.operands }
    }

    /// The tables after one more occurrence of the operand `text`.
    pub open spec fn with_operand(self, text: Seq<u8>) -> HalsteadMapsView {
        HalsteadMapsView { operators: self.operators, operands: self.operands.insert(text) }
    }

    /// The tables of a scope after those of a scope inside it were added.
    pub open spec fn merged(self, other: HalsteadMapsView) -> HalsteadMapsView {
        HalsteadMapsView {
            operators: self.operators.add(other.operators),
            operands: self.operands.add(other.operands),
        }
    }

    /// The counts the tables amount to, where they fit the counters.
    pub open spec fn stats(self) -> Stats {
        Stats {
            u_operators: self.operators.dom().len() as u64,
            operators: self.operators.len() as u64,
            u_operands: self.operands.dom().len() as u64,
            operands: self.operands.len() as u64,
        }
    }

    /// The tables after the node at `i` was seen: an operator counts by its
    /// kind, an operand by its text if that is well-formed UTF-8.
    pub open spec fn visited(self, lang: LANG, nodes: Seq<Node>, i: int, code: Seq<u8>) -> HalsteadMapsView {
        match op_type(lang, nodes, i) {
            HalsteadType::Operator => self.with_operator(nodes[i].kind_id),
            HalsteadType::Operand => {
                let text = node_text(nodes, i, code);
                if valid_utf8(text) {
                    self.with_operand(text)
                } else {
                    self
                }
            },
            HalsteadType::Unknown => self,
        }
    }
}

impl HalsteadMaps {
    /// Whether each key stands once, with a count above zero, and the counts
    /// fit the counters.
    pub open spec fn wf(&self) -> bool {
        &&& forall|k: u16| self.operators@.contains_key(k) ==> #[trigger] self.operators@[k] > 0
        &&& distinct(operand_entries(self.operands@))
        &&& operator_bag(self.operators@).len() <= u64::MAX
        &&& total(operand_entries(self.operands@)) <= u64::MAX
    }

    /// Empty tables.
    pub fn new() -> (m: Self)
        ensures
            m.wf(),
            m@.operators == Multiset::<u16>::empty(),
            m@.operands == Multiset::<Seq<u8>>::empty(),
            m.operands@.len() == 0,
    {
        broadcast use vstd::std_specs::hash::group_hash_axioms;

        let m = HalsteadMaps { operators: HashMap::new(), operands: Vec::new() };
        proof {
            assert(operator_counts(m.operators@).dom() =~= Set::<u16>::empty());
            assert(operator_bag(m.operators@) =~= Multiset::<u16>::empty());
        }
        m
    }

    /// Counts `n` more occurrences of the operator `id`.
    fn add_operator(&mut self, id: u16, n: u64)
        requires
            old(self).wf(),
            n > 0,
            old(self)@.operators.len() + n <= u64::MAX,
        ensures
            final(self).wf(),
            final(self)@.operators == old(self)@.operators.add(repeat(id, n as nat)),
            final(self)@.operands == old(self)@.operands,
            final(self).operands == old(self).operands,
    {
        broadcast use vstd::std_specs::hash::group_hash_axioms;

        let ghost before = self.operators@;
        proof {
            assert(operator_counts(before).dom() =~= before.dom());
            vstd::multiset::axiom_count_le_len(operator_bag(before), id);
        }
        let c: u64 = match self.operators.get(&id) {
            Some(v) => *v,
            None => 0,
        };
        assert(c == operator_bag(before).count(id));
        self.operators.insert(id, c + n);
        proof {
            let after = self.operators@;
            assert(operator_counts(after).dom() =~= after.dom());
            crate::metrics::tally::lemma_repeat(id, n as nat);
            assert forall|x: u16| operator_bag(after).count(x) == operator_bag(before).add(
                repeat(id, n as nat),
            ).count(x) by {
                if x != id {
                    assert(after.contains_key(x) == before.contains_key(x));
                }
            }
            assert(operator_bag(after) =~= operator_bag(before).add(repeat(id, n as nat)));
        }
    }

    /// Counts `n` more occurrences of the operand `text`.
    fn add_operand(&mut self, text: &[u8], n: u64)
        requires
            old(self).wf(),
            n > 0,
            old(self)@.operands.len() + n <= u64::MAX,
        ensures
            final(self).wf(),
            final(self)@.operands == old(self)@.operands.add(repeat(text@, n as nat)),
            final(self)@.operators == old(self)@.operators,
            final(self).operators == old(self).operators,
    {
        let ghost s = operand_entries(self.operands@);
        proof {
            lemma_bag_len(s);
        }
        let len = self.operands.len();
        let mut j: usize = 0;
        while j < len
            invariant
                len == self.operands.len(),
                j <= len,
                *self == *old(self),
                old(self).wf(),
                distinct(s),
                total(s) + n <= u64::MAX,
                n > 0,
                forall|i: int| 0 <= i < j ==> (#[trigger] s[i]).0 != text@,
                s == operand_entries(self.operands@),
            decreases len - j,
        {
            assert(s[j as int].0 == self.operands[j as int].0@);
            if bytes_equal(self.operands[j].0.as_slice(), text) {
                let c = self.operands[j].1;
                proof {
                    lemma_count_le_total(s, j as int);
                    lemma_update(s, j as int, (c + n) as nat, text@);
                    lemma_bag_raise(s, j as int, n as nat);
                }
                self.operands[j].1 = c + n;
                proof {
                    let t = operand_entries(self.operands@);
                    assert(t =~= s.update(j as int, (s[j as int].0, s[j as int].1 + n as nat)));
                    assert forall|a: int, b: int| 0 <= a < b < t.len() implies t[a].0 != t[b].0 by {
                        assert(t[a].0 == s[a].0 && t[b].0 == s[b].0);
                    }
                    assert forall|a: int| 0 <= a < t.len() implies (#[trigger] t[a]).1 > 0 by {
                        assert(s[a].1 > 0);
                    }
                }
                return ;
            }
            j += 1;
        }
        proof {
            lemma_bag_push(s, text@, n as nat);
        }
        self.operands.push((vstd::slice::slice_to_vec(text), n));
        proof {
            let t = operand_entries(self.operands@);
            assert(t =~= s.push((text@, n as nat)));
        }
    }
}

impl HalsteadMaps {
    /// Counts one more occurrence of the operator `id`.
    pub fn record_operator(&mut self, id: u16)
        requires
            old(self).wf(),
            old(self)@.operators.len() < u64::MAX,
        ensures
            final(self).wf(),
            final(self)@ == old(self)@.with_operator(id),
    {
        proof {
            lemma_repeat_one(self@.operators, id);
        }
        self.add_operator(id, 1);
    }

    /// Counts one more occurrence of the operand `text`.
    pub fn record_operand(&mut self, text: &[u8])
        requires
            old(self).wf(),
            old(self)@.operands.len() < u64::MAX,
        ensures
            final(self).wf(),
            final(self)@ == old(self)@.with_operand(text@),
    {
        proof {
            lemma_repeat_one(self@.operands, text@);
        }
        self.add_operand(text, 1);
    }

    /// Adds the tables of a scope inside this one: every occurrence counted
    /// there is counted here as well.
    pub fn merge(&mut self, other: &Self)
        requires
            old(self).wf(),
            other.wf(),
            old(self)@.operators.len() + other@.operators.len() <= u64::MAX,
            old(self)@.operands.len() + other@.operands.len() <= u64::MAX,
        ensures
            final(self).wf(),
            final(self)@ == old(self)@.merged(other@),
    {
        broadcast use vstd::std_specs::hash::group_hash_axioms;

        let ghost ands = operand_entries(other.operands@);
        proof {
            lemma_bag_len(ands);
            assert(ands.take(0) =~= Seq::<(Seq<u8>, nat)>::empty());
            assert(Seq::<(u16, u64)>::empty().take(0) =~= Seq::<(u16, u64)>::empty());
            assert(forall|q: Seq<(u16, u64)>| #[trigger] q.take(q.len() as int) =~= q);
            assert(forall|q: Seq<(u16, u64)>|
                #[trigger] operator_entries(q.take(0)) =~= Seq::<(u16, nat)>::empty());
            assert(self@.operators.add(Multiset::<u16>::empty()) =~= self@.operators);
            vstd::std_specs::hash::axiom_spec_hash_map_iter(&other.operators);
        }
        let walk = other.operators.iter();
        let ghost all_ops = walk.remaining();
        proof {
            assert(walks(all_ops, other.operators@));
            lemma_walk_bag(all_ops, other.operators@);
        }
        for entry in it: walk
            invariant
                self.wf(),
                other.wf(),
                it.seq() == all_ops,
                walks(all_ops, other.operators@),
                bag(operator_entries(all_ops.unref())) == other@.operators,
                self@.operators == old(self)@.operators.add(
                    bag(operator_entries(it.seq().unref().take(it.index()))),
                ),
                self@.operands == old(self)@.operands,
                self.operands == old(self).operands,
                old(self)@.operators.len() + other@.operators.len() <= u64::MAX,
                it.seq().unref().take(it.seq().len() as int) == it.seq().unref(),
        {
            let (k, v) = entry;
            proof {
                let all = operator_entries(it.seq().unref());
                let j = it.index();
                lemma_walk_bag(it.seq(), other.operators@);
                assert(operator_entries(it.seq().unref().take(j)) =~= all.take(j));
                assert(operator_entries(it.seq().unref().take(j + 1)) =~= all.take(j + 1));
                lemma_total_take(all, j);
                lemma_total_take(all, j + 1);
                lemma_bag_len(all.take(j));
                assert(all[j] == (*k, *v as nat));
                assert(other.operators@.contains_key(*k));
                lemma_add_commutes(old(self)@.operators, bag(all.take(j)), repeat(*k, *v as nat));
            }
            self.add_operator(*k, *v);
        }
        proof {
            assert(self@.operands.add(bag(ands.take(0))) =~= self@.operands);
        }
        let m = other.operands.len();
        let mut j: usize = 0;
        while j < m
            invariant
                m == other.operands@.len(),
                j <= m,
                self.wf(),
                other.wf(),
                ands == operand_entries(other.operands@),
                self@.operators == old(self)@.operators.add(other@.operators),
                self@.operands == old(self)@.operands.add(bag(ands.take(j as int))),
                old(self)@.operands.len() + total(ands) <= u64::MAX,
            decreases m - j,
        {
            proof {
                lemma_total_take(ands, j as int);
                lemma_total_take(ands, j + 1);
                lemma_bag_len(ands.take(j as int));
                assert(ands[j as int] == (other.operands[j as int].0@, other.operands[j as int].1 as nat));
                assert(ands[j as int].1 > 0);
                lemma_add_commutes(
                    old(self)@.operands,
                    bag(ands.take(j as int)),
                    repeat(ands[j as int].0, ands[j as int].1),
                );
            }
            self.add_operand(other.operands[j].0.as_slice(), other.operands[j].1);
            j += 1;
        }
        proof {
            assert(ands.take(m as int) =~= ands);
        }
    }

    /// Writes the counts the tables amount to into `stats`.
    pub fn finalize(&self, stats: &mut Stats)
        requires
            self.wf(),
        ensures
            *final(stats) == self@.stats(),
            final(stats).u_operators == self@.operators.dom().len(),
            final(stats).operators == self@.operators.len(),
            final(stats).u_operands == self@.operands.dom().len(),
            final(stats).operands == self@.operands.len(),
    {
        broadcast use vstd::std_specs::hash::group_hash_axioms;

        let ghost ands = operand_entries(self.operands@);
        proof {
            lemma_unique(ands);
            lemma_bag_len(ands);
            assert(ands.take(0) =~= Seq::<(Seq<u8>, nat)>::empty());
            assert(forall|q: Seq<(u16, u64)>| #[trigger] q.take(q.len() as int) =~= q);
            assert(forall|q: Seq<(u16, u64)>|
                #[trigger] operator_entries(q.take(0)) =~= Seq::<(u16, nat)>::empty());
            assert(operator_counts(self.operators@).dom() =~= self.operators@.dom());
            assert(operator_bag(self.operators@).dom() =~= self.operators@.dom());
            vstd::std_specs::hash::axiom_spec_hash_map_iter(&self.operators);
        }
        let n = self.operators.len();
        let mut sum: u64 = 0;
        let walk = self.operators.iter();
        let ghost all_ops = walk.remaining();
        proof {
            assert(walks(all_ops, self.operators@));
            lemma_walk_bag(all_ops, self.operators@);
        }
        for entry in it: walk
            invariant
                self.wf(),
                it.seq() == all_ops,
                walks(all_ops, self.operators@),
                total(operator_entries(all_ops.unref())) == operator_bag(self.operators@).len(),
                sum == total(operator_entries(it.seq().unref().take(it.index()))),
                it.seq().unref().take(it.seq().len() as int) == it.seq().unref(),
        {
            let (_k, v) = entry;
            proof {
                let all = operator_entries(it.seq().unref());
                let j = it.index();
                lemma_walk_bag(it.seq(), self.operators@);
                assert(operator_entries(it.seq().unref().take(j)) =~= all.take(j));
                assert(operator_entries(it.seq().unref().take(j + 1)) =~= all.take(j + 1));
                lemma_total_take(all, j);
                lemma_total_take(all, j + 1);
                assert(all[j].1 == *v as nat);
            }
            sum = sum + *v;
        }
        let m = self.operands.len();
        let mut sum2: u64 = 0;
        let mut j: usize = 0;
        while j < m
            invariant
                m == self.operands@.len(),
                j <= m,
                ands == operand_entries(self.operands@),
                total(ands) <= u64::MAX,
                sum2 == total(ands.take(j as int)),
            decreases m - j,
        {
            proof {
                lemma_total_take(ands, j as int);
                lemma_total_take(ands, j + 1);
            }
            sum2 = sum2 + self.operands[j].1;
            j += 1;
        }
        proof {
            assert(ands.take(m as int) =~= ands);
        }
        stats.u_operators = n as u64;
        stats.operators = sum;
        stats.u_operands = m as u64;
        stats.operands = sum2;
    }
}

impl Stats {
    /// Whether the estimated program length `η1·log2(η1) + η2·log2(η2)` has
    /// a value: the logarithm of zero has none.
    pub open spec fn estimated_length_defined(self) -> bool {
        self.u_operators > 0 && self.u_operands > 0
    }

    /// Whether the purity ratio, the estimated length over the length, has a value.
    pub open spec fn purity_ratio_defined(self) -> bool {
        self.estimated_length_defined() && self.operators + self.operands > 0
    }

    /// Whether the volume `N·log2(η)` has a value: it has none for an empty vocabulary.
    pub open spec fn volume_defined(self) -> bool {
        self.u_operators + self.u_operands > 0
    }

    /// The difficulty `(η1 / 2) · (N2 / η2)` as an exact quotient, undefined
    /// without operands.
    pub open spec fn difficulty_value(self) -> Option<Ratio> {
        if self.u_operands > 0 {
            Some(
                Ratio {
                    num: (self.u_operators * self.operands) as u128,
                    den: (2 * self.u_operands) as u128,
                },
            )
        } else {
            None
        }
    }

    /// The level, the inverse of the difficulty, as an exact quotient:
    /// undefined where the difficulty is undefined or zero.
    pub open spec fn level_value(self) -> Option<Ratio> {
        if self.u_operands > 0 && self.u_operators > 0 && self.operands > 0 {
            Some(
                Ratio {
                    num: (2 * self.u_operands) as u128,
                    den: (self.u_operators * self.operands) as u128,
                },
            )
        } else {
            None
        }
    }

    /// Whether the effort, difficulty times volume, has a value; the time
    /// and the number of bugs, which follow from the effort, have one with it.
    pub open spec fn effort_defined(self) -> bool {
        self.difficulty_value() is Some && self.volume_defined()
    }

    /// The counts of a scope are those of its tables: a scope inside it adds nothing more.
    pub fn merge(&self, _other: &Self) {
    }

    /// Returns `η1`, the number of distinct operators
    pub fn u_operators(&self) -> (r: u64)
        ensures
            r == self.u_operators,
    {
        self.u_operators
    }

    /// Returns `N1`, the number of total operators
    pub fn operators(&self) -> (r: u64)
        ensures
            r == self.operators,
    {
        self.operators
    }

    /// Returns `η2`, the number of distinct operands
    pub fn u_operands(&self) -> (r: u64)
        ensures
            r == self.u_operands,
    {
        self.u_operands
    }

    /// Returns `N2`, the number of total operands
    pub fn operands(&self) -> (r: u64)
        ensures
            r == self.operands,
    {
        self.operands
    }

    /// Returns the program length
    pub fn length(&self) -> (r: u128)
        ensures
            r == self.operands + self.operators,
    {
        self.operands as u128 + self.operators as u128
    }

    /// Returns the program vocabulary
    pub fn vocabulary(&self) -> (r: u128)
        ensures
            r == self.u_operands + self.u_operators,
    {
        self.u_operands as u128 + self.u_operators as u128
    }

    /// Tells whether the estimated program length has a value.
    pub fn has_estimated_program_length(&self) -> (r: bool)
        ensures
            r == self.estimated_length_defined(),
    {
        self.u_operators > 0 && self.u_operands > 0
    }

    /// Tells whether the purity ratio has a value.
    pub fn has_purity_ratio(&self) -> (r: bool)
        ensures
            r == self.purity_ratio_defined(),
    {
        self.has_estimated_program_length() && (self.operators > 0 || self.operands > 0)
    }

    /// Tells whether the volume has a value.
    pub fn has_volume(&self) -> (r: bool)
        ensures
            r == self.volume_defined(),
    {
        self.u_operators > 0 || self.u_operands > 0
    }

    /// Tells whether the effort has a value, and with it the time and the
    /// number of bugs.
    pub fn has_effort(&self) -> (r: bool)
        ensures
            r == self.effort_defined(),
    {
        self.u_operands > 0 && self.has_volume()
    }

    /// Returns the estimated difficulty required to program
    pub fn difficulty(&self) -> (r: Option<Ratio>)
        ensures
            r == self.difficulty_value(),
    {
        if self.u_operands > 0 {
            assert(self.u_operators * self.operands <= u64::MAX * u64::MAX) by (nonlinear_arith)
                requires
                    self.u_operators <= u64::MAX,
                    self.operands <= u64::MAX,
            ;
            Some(
                Ratio {
                    num: (self.u_operators as u128) * (self.operands as u128),
                    den: 2 * (self.u_operands as u128),
                },
            )
        } else {
            None
        }
    }

    /// Returns the estimated level of difficulty required to program
    pub fn level(&self) -> (r: Option<Ratio>)
        ensures
            r == self.level_value(),
    {
        if self.u_operands > 0 && self.u_operators > 0 && self.operands > 0 {
            assert(self.u_operators * self.operands <= u64::MAX * u64::MAX) by (nonlinear_arith)
                requires
                    self.u_operators <= u64::MAX,
                    self.operands <= u64::MAX,
            ;
            Some(
                Ratio {
                    num: 2 * (self.u_operands as u128),
                    den: (self.u_operators as u128) * (self.operands as u128),
                },
            )
        } else {
            None
        }
    }
}

/// Accounts for the node at `i` in the tables of the open scope.
pub fn compute_halstead(lang: LANG, tree: &Tree, i: usize, code: &[u8], maps: &mut HalsteadMaps)
    requires
        tree.wf(),
        i < tree@.len(),
        fits(tree@, code@.len()),
        old(maps).wf(),
        old(maps)@.operators.len() < u64::MAX,
        old(maps)@.operands.len() < u64::MAX,
    ensures
        final(maps).wf(),
        final(maps)@ == old(maps)@.visited(lang, tree@, i as int, code@),
{
    match get_op_type(lang, tree, i) {
        HalsteadType::Operator => {
            maps.record_operator(tree.node(i).kind_id);
        },
        HalsteadType::Operand => {
            let node = tree.node(i);
            assert(node_ok(tree@, i as int));
            let text = slice_subrange(code, node.start_byte, node.end_byte);
            if is_utf8(text) {
                maps.record_operand(text);
            }
        },
        HalsteadType::Unknown => {},
    }
}

/// Accounts for the node at `i` in the tables of the open scope.
pub fn compute(lang: LANG, tree: &Tree, i: usize, code: &[u8], maps: &mut HalsteadMaps)
    requires
        tree.wf(),
        i < tree@.len(),
        fits(tree@, code@.len()),
        old(maps).wf(),
        old(maps)@.operators.len() < u64::MAX,
        old(maps)@.operands.len() < u64::MAX,
    ensures
        final(maps).wf(),
        final(maps)@ == old(maps)@.visited(lang, tree@, i as int, code@),
{
    compute_halstead(lang, tree, i, code, maps)
}

/// Merging the tables of two scopes into a third gives the same tables, and
/// so the same counts, in either order and in either grouping.
pub proof fn lemma_merge_commutes(m: HalsteadMapsView, a: HalsteadMapsView, b: HalsteadMapsView)
    ensures
        m.merged(a).merged(b) == m.merged(b).merged(a),
        m.merged(a).merged(b) == m.merged(a.merged(b)),
        m.merged(a).merged(b).stats() == m.merged(b).merged(a).stats(),
{
    lemma_add_commutes(m.operators, a.operators, b.operators);
    lemma_add_commutes(m.operands, a.operands, b.operands);
}

/// A scope without operators and without operands has none of the derived
/// values, while its length and vocabulary are the plain sums of its counts.
pub proof fn lemma_degenerate(s: Stats)
    requires
        s.u_operators == 0,
        s.u_operands == 0,
    ensures
        !s.estimated_length_defined(),
        !s.purity_ratio_defined(),
        !s.volume_defined(),
        s.difficulty_value() is None,
        s.level_value() is None,
        !s.effort_defined(),
{
}

/// A scope without operands has no estimated length, no difficulty, no
/// level and no effort; one without operators has no estimated length and no level.
pub proof fn lemma_one_sided(s: Stats)
    ensures
        s.u_operands == 0 ==> !s.estimated_length_defined() && s.difficulty_value() is None
            && s.level_value() is None && !s.effort_defined(),
        s.u_operators == 0 ==> !s.estimated_length_defined() && s.level_value() is None,
{
}

/// Merging in the tables of a scope adds its occurrences of operators and
/// of operands to those of the scope.
pub proof fn lemma_merge_adds(m: HalsteadMapsView, other: HalsteadMapsView)
    ensures
        m.merged(other).operators.len() == m.operators.len() + other.operators.len(),
        m.merged(other).operands.len() == m.operands.len() + other.operands.len(),
        forall|id: u16|
            m.merged(other).operators.count(id) == m.operators.count(id) + other.operators.count(
                id,
            ),
        forall|text: Seq<u8>|
            m.merged(other).operands.count(text) == m.operands.count(text) + other.operands.count(
                text,
            ),
{
}

} // verus!
