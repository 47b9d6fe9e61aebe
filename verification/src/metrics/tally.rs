//! Occurrence counts kept as a list of distinct keys, and the bag they stand for.

use vstd::prelude::*;
use vstd::multiset::*;
use vstd::set_lib::*;

verus! {

/// The bag that holds `n` copies of `k`.
pub open spec fn repeat<K>(k: K, n: nat) -> Multiset<K>
    decreases n,
{
    if n == 0 {
        Multiset::empty()
    } else {
        repeat(k, (n - 1) as nat).insert(k)
    }
}

/// The bag a list of keys with their counts stands for.
pub open spec fn bag<K>(s: Seq<(K, nat)>) -> Multiset<K>
    decreases s.len(),
{
    if s.len() == 0 {
        Multiset::empty()
    } else {
        bag(s.drop_last()).add(repeat(s.last().0, s.last().1))
    }
}

/// How often `k` is counted in the list.
pub open spec fn count_of<K>(s: Seq<(K, nat)>, k: K) -> nat
    decreases s.len(),
{
    if s.len() == 0 {
        0
    } else {
        count_of(s.drop_last(), k) + if s.last().0 == k {
            s.last().1
        } else {
            0
        }
    }
}

/// The sum of all counts in the list.
pub open spec fn total<K>(s: Seq<(K, nat)>) -> nat
    decreases s.len(),
{
    if s.len() == 0 {
        0
    } else {
        total(s.drop_last()) + s.last().1
    }
}

/// Whether no key stands twice in the list and no count is zero.
pub open spec fn distinct<K>(s: Seq<(K, nat)>) -> bool {
    &&& forall|i: int, j: int| 0 <= i < j < s.len() ==> s[i].0 != s[j].0
    &&& forall|i: int| 0 <= i < s.len() ==> (#[trigger] s[i]).1 > 0
}

/// What `repeat` holds.
pub proof fn lemma_repeat<K>(k: K, n: nat)
    ensures
        repeat(k, n).count(k) == n,
        forall|x: K| x != k ==> repeat(k, n).count(x) == 0,
        repeat(k, n).len() == n,
    decreases n,
{
    if n > 0 {
        lemma_repeat(k, (n - 1) as nat);
    }
}

/// The bag counts a key as often as the list does.
pub proof fn lemma_bag_count<K>(s: Seq<(K, nat)>, x: K)
    ensures
        bag(s).count(x) == count_of(s, x),
    decreases s.len(),
{
    if s.len() > 0 {
        lemma_bag_count(s.drop_last(), x);
        lemma_repeat(s.last().0, s.last().1);
    }
}

/// The bag holds as many items as the counts add up to.
pub proof fn lemma_bag_len<K>(s: Seq<(K, nat)>)
    ensures
        bag(s).len() == total(s),
    decreases s.len(),
{
    if s.len() > 0 {
        lemma_bag_len(s.drop_last());
        lemma_repeat(s.last().0, s.last().1);
    }
}

/// A key that stands nowhere in the list is not counted.
pub proof fn lemma_count_absent<K>(s: Seq<(K, nat)>, k: K)
    requires
        forall|i: int| 0 <= i < s.len() ==> (#[trigger] s[i]).0 != k,
    ensures
        count_of(s, k) == 0,
    decreases s.len(),
{
    if s.len() > 0 {
        lemma_count_absent(s.drop_last(), k);
    }
}

/// No count exceeds the sum of all counts.
pub proof fn lemma_count_le_total<K>(s: Seq<(K, nat)>, j: int)
    requires
        0 <= j < s.len(),
    ensures
        s[j].1 <= total(s),
    decreases s.len(),
{
    if j < s.len() - 1 {
        lemma_count_le_total(s.drop_last(), j);
    }
}

/// Replacing the count at `j` changes the counts of that key, and the sum, by the difference.
pub proof fn lemma_update<K>(s: Seq<(K, nat)>, j: int, c: nat, x: K)
    requires
        0 <= j < s.len(),
    ensures
        count_of(s.update(j, (s[j].0, c)), x) + (if s[j].0 == x {
            s[j].1
        } else {
            0
        }) == count_of(s, x) + (if s[j].0 == x {
            c
        } else {
            0
        }),
        total(s.update(j, (s[j].0, c))) + s[j].1 == total(s) + c,
    decreases s.len(),
{
    let t = s.update(j, (s[j].0, c));
    if j == s.len() - 1 {
        assert(t.drop_last() =~= s.drop_last());
    } else {
        assert(t.drop_last() =~= s.drop_last().update(j, (s[j].0, c)));
        lemma_update(s.drop_last(), j, c, x);
    }
}

/// Raising the count of the key at `j` by `d` adds `d` copies of that key to the bag.
pub proof fn lemma_bag_raise<K>(s: Seq<(K, nat)>, j: int, d: nat)
    requires
        0 <= j < s.len(),
    ensures
        bag(s.update(j, (s[j].0, s[j].1 + d))) == bag(s).add(repeat(s[j].0, d)),
{
    let t = s.update(j, (s[j].0, s[j].1 + d));
    assert forall|x: K| bag(t).count(x) == bag(s).add(repeat(s[j].0, d)).count(x) by {
        lemma_bag_count(t, x);
        lemma_bag_count(s, x);
        lemma_update(s, j, s[j].1 + d, x);
        lemma_repeat(s[j].0, d);
    }
    assert(bag(t) =~= bag(s).add(repeat(s[j].0, d)));
}

/// Appending a key with its count adds that many copies of the key to the bag.
pub proof fn lemma_bag_push<K>(s: Seq<(K, nat)>, k: K, d: nat)
    ensures
        bag(s.push((k, d))) == bag(s).add(repeat(k, d)),
        total(s.push((k, d))) == total(s) + d,
{
    assert(s.push((k, d)).drop_last() =~= s);
}

/// One copy of a key is the bag with that key alone.
pub proof fn lemma_repeat_one<K>(m: Multiset<K>, k: K)
    ensures
        m.add(repeat(k, 1)) == m.insert(k),
{
    lemma_repeat(k, 1);
    assert(repeat(k, 1) =~= Multiset::singleton(k));
}

/// In a list without repeated keys and without zero counts, the number of
/// entries is the number of different items in the bag.
pub proof fn lemma_unique<K>(s: Seq<(K, nat)>)
    requires
        distinct(s),
    ensures
        bag(s).dom().finite(),
        bag(s).dom().len() == s.len(),
    decreases s.len(),
{
    if s.len() == 0 {
        assert(bag(s).dom() =~= Set::empty());
    } else {
        let r = s.drop_last();
        let k = s.last().0;
        lemma_unique(r);
        lemma_repeat(k, s.last().1);
        lemma_bag_count(r, k);
        lemma_count_absent(r, k);
        assert(s.last().1 > 0);
        assert forall|x: K| bag(s).dom().contains(x) == bag(r).dom().insert(k).contains(x) by {
            lemma_bag_count(r, x);
        }
        assert(bag(s).dom() =~= bag(r).dom().insert(k));
        assert(!bag(r).dom().contains(k));
    }
}

/// The counts of the first `j` entries add up to no more than all counts, and
/// grow by the count at `j` with the next entry.
pub proof fn lemma_total_take<K>(s: Seq<(K, nat)>, j: int)
    requires
        0 <= j <= s.len(),
    ensures
        total(s.take(j)) <= total(s),
        j < s.len() ==> total(s.take(j + 1)) == total(s.take(j)) + s[j].1,
        j < s.len() ==> bag(s.take(j + 1)) == bag(s.take(j)).add(repeat(s[j].0, s[j].1)),
    decreases s.len() - j,
{
    if j < s.len() {
        assert(s.take(j + 1).drop_last() =~= s.take(j));
        lemma_total_take(s, j + 1);
    } else {
        assert(s.take(j) =~= s);
    }
}

/// Adding two bags to a third gives the same bag in either order.
pub proof fn lemma_add_commutes<K>(m: Multiset<K>, a: Multiset<K>, b: Multiset<K>)
    ensures
        m.add(a).add(b) == m.add(b).add(a),
        m.add(a).add(b) == m.add(a.add(b)),
{
    assert(m.add(a).add(b) =~= m.add(b).add(a));
    assert(m.add(a).add(b) =~= m.add(a.add(b)));
}

/// In a list without repeated keys each key is counted as its entry says.
pub proof fn lemma_count_at<K>(s: Seq<(K, nat)>, i: int)
    requires
        0 <= i < s.len(),
        forall|a: int, b: int| 0 <= a < b < s.len() ==> s[a].0 != s[b].0,
    ensures
        count_of(s, s[i].0) == s[i].1,
    decreases s.len(),
{
    let r = s.drop_last();
    if i == s.len() - 1 {
        lemma_count_absent(r, s[i].0);
    } else {
        lemma_count_at(r, i);
    }
}

/// A list without repeated keys that holds the entries of a map, and all
/// of them, stands for the bag that the map describes.
pub proof fn lemma_bag_of_map<K>(s: Seq<(K, nat)>, m: Map<K, nat>)
    requires
        m.dom().finite(),
        forall|a: int, b: int| 0 <= a < b < s.len() ==> s[a].0 != s[b].0,
        forall|i: int| 0 <= i < s.len() ==> m.contains_key(#[trigger] s[i].0) && m[s[i].0] == s[i].1,
        forall|k: K| m.contains_key(k) ==> exists|i: int| 0 <= i < s.len() && #[trigger] s[i].0 == k,
    ensures
        bag(s) == Multiset::from_map(m),
{
    assert forall|x: K| bag(s).count(x) == Multiset::from_map(m).count(x) by {
        lemma_bag_count(s, x);
        if m.contains_key(x) {
            let i = choose|i: int| 0 <= i < s.len() && #[trigger] s[i].0 == x;
            lemma_count_at(s, i);
        } else {
            lemma_count_absent(s, x);
        }
    }
    assert(bag(s) =~= Multiset::from_map(m));
}

} // verus!
