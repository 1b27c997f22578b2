//! An insertion-ordered lookup table: the keyed registries of the game
//! (achievements by id, upgrades by id, tile definitions by map character)
//! live in it.
use vstd::prelude::*;
use crate::text::{clone_string, str_eq};

verus! {

/// A key type of a [`Table`]: keys are compared by their views.
pub trait TableKey: View + Sized {
    /// Whether the two keys are the same key.
    fn same_key(&self, other: &Self) -> (same: bool)
        ensures
            same == (self@ == other@);

    /// A copy of the key.
    fn copy_key(&self) -> (copy: Self)
        ensures
            copy@ == self@;
}

impl TableKey for String {
    fn same_key(&self, other: &Self) -> (same: bool) {
        str_eq(self.as_str(), other.as_str())
    }

    fn copy_key(&self) -> (copy: Self) {
        clone_string(self)
    }
}

impl TableKey for u32 {
    fn same_key(&self, other: &Self) -> (same: bool) {
        *self == *other
    }

    fn copy_key(&self) -> (copy: Self) {
        *self
    }
}

impl TableKey for usize {
    fn same_key(&self, other: &Self) -> (same: bool) {
        *self == *other
    }

    fn copy_key(&self) -> (copy: Self) {
        *self
    }
}

impl TableKey for char {
    fn same_key(&self, other: &Self) -> (same: bool) {
        *self == *other
    }

    fn copy_key(&self) -> (copy: Self) {
        *self
    }
}

/// A finite map from keys to values that remembers the order in which keys
/// were first inserted. Each key occurs at most once.
pub struct Table<K: TableKey, T> {
    entries: Vec<(K, T)>,
}

impl<K: TableKey, T> Table<K, T> {
    /// The view of the key at position `i`.
    pub closed spec fn key_at(&self, i: int) -> K::V {
        self.entries@[i].0@
    }

    /// The value at position `i`.
    pub closed spec fn value_at(&self, i: int) -> T {
        self.entries@[i].1
    }

    /// The keys, in insertion order.
    pub closed spec fn keys(&self) -> Seq<K::V> {
        Seq::new(self.entries@.len(), |i: int| self.key_at(i))
    }

    /// The values, in the order of their keys.
    pub closed spec fn values(&self) -> Seq<T> {
        Seq::new(self.entries@.len(), |i: int| self.value_at(i))
    }

    #[verifier::type_invariant]
    closed spec fn keys_distinct(&self) -> bool {
        forall|i: int, j: int|
            0 <= i < j < self.entries@.len() ==> #[trigger] self.key_at(i) != #[trigger] self.key_at(j)
    }

    /// The table as a map from key views to values.
    pub closed spec fn as_map(&self) -> Map<K::V, T> {
        Map::new(
            |k: K::V| exists|i: int| 0 <= i < self.entries@.len() && self.key_at(i) == k,
            |k: K::V| self.value_at(choose|i: int| 0 <= i < self.entries@.len() && self.key_at(i) == k),
        )
    }

    /// Every position holds a distinct key, and the map agrees with the
    /// positions: the key at `i` maps to the value at `i`.
    proof fn lemma_positions(&self)
        requires
            self.keys_distinct(),
        ensures
            self.keys().len() == self.values().len(),
            forall|i: int| 0 <= i < self.keys().len() ==> #[trigger] self.as_map().contains_key(self.keys()[i])
                && self.as_map()[self.keys()[i]] == self.values()[i],
            forall|k: K::V| #[trigger] self.as_map().contains_key(k) <==> self.keys().contains(k),
            forall|i: int, j: int| 0 <= i < j < self.keys().len() ==> self.keys()[i] != self.keys()[j],
    {
        assert forall|i: int| 0 <= i < self.keys().len() implies #[trigger] self.as_map().contains_key(self.keys()[i])
            && self.as_map()[self.keys()[i]] == self.values()[i] by {
            assert(self.key_at(i) == self.keys()[i]);
            let j = choose|j: int| 0 <= j < self.entries@.len() && self.key_at(j) == self.key_at(i);
            if j < i {
                assert(self.key_at(j) != self.key_at(i));
            } else if i < j {
                assert(self.key_at(i) != self.key_at(j));
            }
        }
        assert forall|k: K::V| #[trigger] self.as_map().contains_key(k) <==> self.keys().contains(k) by {
            if self.as_map().contains_key(k) {
                let j = choose|j: int| 0 <= j < self.entries@.len() && self.key_at(j) == k;
                assert(self.keys()[j] == k);
            }
            if self.keys().contains(k) {
                let j = choose|j: int| 0 <= j < self.keys().len() && self.keys()[j] == k;
                assert(self.key_at(j) == k);
            }
        }
        assert forall|i: int, j: int| 0 <= i < j < self.keys().len() implies self.keys()[i] != self.keys()[j] by {
            assert(self.key_at(i) != self.key_at(j));
        }
    }

    /// An empty table.
    pub fn new() -> (t: Self)
        ensures
            t.as_map() == Map::<K::V, T>::empty(),
            t.keys() == Seq::<K::V>::empty(),
    {
        let t = Table { entries: Vec::new() };
        assert(t.as_map() =~= Map::<K::V, T>::empty());
        assert(t.keys() =~= Seq::<K::V>::empty());
        t
    }

    /// Number of keys.
    pub fn len(&self) -> (n: usize)
        ensures
            n == self.keys().len(),
            n == self.values().len(),
            forall|i: int, j: int| 0 <= i < j < n ==> self.keys()[i] != self.keys()[j],
            forall|i: int| 0 <= i < n ==> #[trigger] self.as_map().contains_key(self.keys()[i])
                && self.as_map()[self.keys()[i]] == self.values()[i],
            forall|k: K::V| #[trigger] self.as_map().contains_key(k) <==> self.keys().contains(k),
    {
        proof {
            use_type_invariant(self);
            self.lemma_positions();
        }
        self.entries.len()
    }

    /// The key at position `i`.
    pub fn key(&self, i: usize) -> (k: &K)
        requires
            i < self.keys().len(),
        ensures
            k@ == self.keys()[i as int],
    {
        &self.entries[i].0
    }

    /// The keys and the values line up one to one.
    pub proof fn lemma_lengths(&self)
        ensures
            self.keys().len() == self.values().len(),
    {
    }

    /// The value at position `i`.
    pub fn value(&self, i: usize) -> (v: &T)
        requires
            i < self.keys().len(),
        ensures
            *v == self.values()[i as int],
            self.as_map().contains_key(self.keys()[i as int]),
            self.as_map()[self.keys()[i as int]] == *v,
    {
        proof {
            use_type_invariant(self);
            self.lemma_positions();
        }
        &self.entries[i].1
    }

    /// The position of `k`, if the table holds it.
    pub fn position(&self, k: &K) -> (pos: Option<usize>)
        ensures
            match pos {
                Some(i) => i < self.keys().len() && self.keys()[i as int] == k@
                    && self.as_map()[k@] == self.values()[i as int],
                None => !self.keys().contains(k@),
            },
            pos is Some <==> self.as_map().contains_key(k@),
    {
        proof {
            use_type_invariant(self);
            self.lemma_positions();
        }
        let mut i: usize = 0;
        while i < self.entries.len()
            invariant
                i <= self.entries@.len(),
                forall|j: int| 0 <= j < i ==> self.key_at(j) != k@,
            decreases self.entries@.len() - i,
        {
            if self.entries[i].0.same_key(k) {
                proof {
                    use_type_invariant(self);
                    self.lemma_positions();
                    assert(self.keys()[i as int] == k@);
                    assert(self.as_map().contains_key(self.keys()[i as int]));
                }
                return Some(i);
            }
            i = i + 1;
        }
        proof {
            if self.keys().contains(k@) {
                let j = choose|j: int| 0 <= j < self.keys().len() && self.keys()[j] == k@;
                assert(self.key_at(j) == k@);
            }
        }
        None
    }

    /// The value stored under `k`.
    pub fn get(&self, k: &K) -> (v: Option<&T>)
        ensures
            match v {
                Some(v) => self.as_map().contains_key(k@) && *v == self.as_map()[k@],
                None => !self.as_map().contains_key(k@),
            },
    {
        proof {
            use_type_invariant(self);
            self.lemma_positions();
        }
        match self.position(k) {
            Some(i) => Some(&self.entries[i].1),
            None => None,
        }
    }

    /// Stores `v` under `k`. A key already present keeps its position and
    /// takes the new value; a new key goes last.
    pub fn insert(&mut self, k: K, v: T)
        ensures
            final(self).as_map() == old(self).as_map().insert(k@, v),
            old(self).keys().contains(k@) ==> final(self).keys() == old(self).keys(),
            !old(self).keys().contains(k@) ==> final(self).keys() == old(self).keys().push(k@),
            forall|i: int| 0 <= i < old(self).keys().len() && old(self).keys()[i] == k@
                ==> final(self).values() == old(self).values().update(i, v),
            !old(self).keys().contains(k@) ==> final(self).values() == old(self).values().push(v),
    {
        proof {
            use_type_invariant(&*self);
            self.lemma_positions();
        }
        let pos = self.position(&k);
        let ghost old_self = *self;
        match pos {
            Some(i) => {
                let mut entries = Vec::new();
                std::mem::swap(&mut entries, &mut self.entries);
                entries.set(i, (k, v));
                let ghost new_entries = entries@;
                proof {
                    assert forall|a: int, b: int| 0 <= a < b < new_entries.len() implies
                        #[trigger] new_entries[a].0@ != #[trigger] new_entries[b].0@ by {
                        assert(old_self.key_at(a) != old_self.key_at(b));
                        if a == i {
                            assert(old_self.key_at(i as int) != old_self.key_at(b));
                        }
                    }
                }
                self.entries = entries;
                proof {
                    assert(self.values() =~= old_self.values().update(i as int, v));
                    assert forall|j: int| 0 <= j < old_self.keys().len() && old_self.keys()[j] == k@
                        implies j == i as int by {
                        if j != i as int {
                            assert(old_self.key_at(j) != old_self.key_at(i as int));
                        }
                    }
                    assert(self.keys() =~= old_self.keys()) by {
                        assert forall|j: int| 0 <= j < self.keys().len() implies self.keys()[j] == old_self.keys()[j] by {
                            assert(self.key_at(j) == old_self.key_at(j));
                        }
                    }
                    self.lemma_positions();
                    assert(self.as_map() =~= old_self.as_map().insert(k@, v)) by {
                        assert forall|key: K::V| #[trigger] self.as_map().contains_key(key) implies
                            self.as_map()[key] == old_self.as_map().insert(k@, v)[key] by {
                            let j = choose|j: int| 0 <= j < self.keys().len() && self.keys()[j] == key;
                            assert(self.keys().contains(key));
                            assert(old_self.keys()[j] == key);
                            if j != i as int {
                                assert(self.values()[j] == old_self.values()[j]);
                            }
                        }
                        assert forall|key: K::V| #[trigger] old_self.as_map().insert(k@, v).contains_key(key) implies
                            self.as_map().contains_key(key) by {
                            if key != k@ {
                                assert(old_self.keys().contains(key));
                            }
                        }
                    }
                }
            },
            None => {
                let mut entries = Vec::new();
                std::mem::swap(&mut entries, &mut self.entries);
                entries.push((k, v));
                let ghost new_entries = entries@;
                proof {
                    assert forall|a: int, b: int| 0 <= a < b < new_entries.len() implies
                        #[trigger] new_entries[a].0@ != #[trigger] new_entries[b].0@ by {
                        if b == new_entries.len() - 1 {
                            assert(old_self.keys()[a] == old_self.key_at(a));
                        } else {
                            assert(old_self.key_at(a) != old_self.key_at(b));
                        }
                    }
                }
                self.entries = entries;
                proof {
                    assert(self.values() =~= old_self.values().push(v));
                    assert(self.keys() =~= old_self.keys().push(k@)) by {
                        assert forall|j: int| 0 <= j < old_self.keys().len() implies self.keys()[j] == old_self.keys()[j] by {
                            assert(self.key_at(j) == old_self.key_at(j));
                        }
                    }
                    self.lemma_positions();
                    assert(self.as_map() =~= old_self.as_map().insert(k@, v)) by {
                        assert forall|key: K::V| #[trigger] self.as_map().contains_key(key) implies
                            self.as_map()[key] == old_self.as_map().insert(k@, v)[key] by {
                            let j = choose|j: int| 0 <= j < self.keys().len() && self.keys()[j] == key;
                            assert(self.keys().contains(key));
                            if j < old_self.keys().len() {
                                assert(old_self.keys()[j] == key);
                                assert(old_self.keys().contains(key));
                                assert(self.values()[j] == old_self.values()[j]);
                            }
                        }
                        assert forall|key: K::V| #[trigger] old_self.as_map().insert(k@, v).contains_key(key) implies
                            self.as_map().contains_key(key) by {
                            if key != k@ {
                                let j = choose|j: int| 0 <= j < old_self.keys().len() && old_self.keys()[j] == key;
                                assert(self.keys()[j] == key);
                            } else {
                                assert(self.keys()[old_self.keys().len() as int] == key);
                            }
                        }
                    }
                }
            },
        }
    }
}

} // verus!

verus! {

/// What a lookup gives back after an insert: the inserted key maps to the
/// inserted value, and every other key keeps whatever it had (or stays absent).
pub proof fn lemma_get_after_insert<K, T>(before: Map<K, T>, after: Map<K, T>, k: K, v: T, other: K)
    requires
        after == before.insert(k, v),
    ensures
        after.contains_key(k),
        after[k] == v,
        other != k ==> (after.contains_key(other) <==> before.contains_key(other)),
        other != k && before.contains_key(other) ==> after[other] == before[other],
{
}

/// Sum of a sequence of counts.
pub open spec fn spec_sum(s: Seq<u32>) -> int
    decreases s.len(),
{
    if s.len() == 0 { 0 } else { spec_sum(s.drop_last()) + s.last() }
}

/// Appending a count adds it to the sum.
pub proof fn lemma_sum_push(s: Seq<u32>, v: u32)
    ensures
        spec_sum(s.push(v)) == spec_sum(s) + v,
{
    assert(s.push(v).drop_last() =~= s);
}

/// Replacing one count changes the sum by the difference.
pub proof fn lemma_sum_update(s: Seq<u32>, i: int, v: u32)
    requires
        0 <= i < s.len(),
    ensures
        spec_sum(s.update(i, v)) == spec_sum(s) - s[i] + v,
    decreases s.len(),
{
    if i == s.len() - 1 {
        assert(s.update(i, v).drop_last() =~= s.drop_last());
    } else {
        lemma_sum_update(s.drop_last(), i, v);
        assert(s.update(i, v).drop_last() =~= s.drop_last().update(i, v));
    }
}

/// Every count is at most the sum.
pub proof fn lemma_sum_bounds(s: Seq<u32>, i: int)
    requires
        0 <= i < s.len(),
    ensures
        s[i] <= spec_sum(s),
        spec_sum(s) >= 0,
    decreases s.len(),
{
    lemma_sum_nonneg(s.drop_last());
    if i < s.len() - 1 {
        lemma_sum_bounds(s.drop_last(), i);
    }
}

/// Sums of counts are never negative.
pub proof fn lemma_sum_nonneg(s: Seq<u32>)
    ensures
        spec_sum(s) >= 0,
    decreases s.len(),
{
    if s.len() > 0 {
        lemma_sum_nonneg(s.drop_last());
    }
}

/// Adds up a table's counts; `None` when the total does not fit in a `u32`.
pub fn checked_total<K: TableKey>(t: &Table<K, u32>) -> (total: Option<u32>)
    ensures
        match total {
            Some(n) => n == spec_sum(t.values()),
            None => spec_sum(t.values()) > u32::MAX,
        },
{
    let mut acc: u32 = 0;
    let mut i: usize = 0;
    while i < t.len()
        invariant
            i <= t.values().len(),
            t.keys().len() == t.values().len(),
            acc == spec_sum(t.values().take(i as int)),
        decreases t.values().len() - i,
    {
        let v = *t.value(i);
        assert(t.values().take(i + 1).drop_last() =~= t.values().take(i as int));
        if acc > u32::MAX - v {
            proof {
                lemma_sum_prefix_grows(t.values(), i as int + 1);
            }
            return None;
        }
        acc = acc + v;
        i = i + 1;
    }
    assert(t.values().take(i as int) =~= t.values());
    Some(acc)
}

/// The sum of a prefix never exceeds the sum of the whole sequence.
pub proof fn lemma_sum_prefix_grows(s: Seq<u32>, n: int)
    requires
        0 <= n <= s.len(),
    ensures
        spec_sum(s.take(n)) <= spec_sum(s),
    decreases s.len() - n,
{
    if n < s.len() {
        lemma_sum_prefix_grows(s, n + 1);
        assert(s.take(n + 1).drop_last() =~= s.take(n));
    } else {
        assert(s.take(n) =~= s);
    }
}

} // verus!

verus! {

/// Extending a prefix by one element adds that element to the prefix's set.
pub proof fn lemma_prefix_set_step<A>(s: Seq<A>, i: int)
    requires
        0 <= i < s.len(),
    ensures
        s.take(i + 1).to_set() == s.take(i).to_set().insert(s[i]),
{
    assert(s.take(i + 1) =~= s.take(i).push(s[i]));
    s.take(i).lemma_push_to_set_commute(s[i]);
}

/// In a sequence without repeats, the element at `i` is not in the prefix before it.
pub proof fn lemma_not_in_prefix<A>(s: Seq<A>, i: int)
    requires
        0 <= i < s.len(),
        forall|a: int, b: int| 0 <= a < b < s.len() ==> s[a] != s[b],
    ensures
        !s.take(i).contains(s[i]),
        !s.take(i).to_set().contains(s[i]),
{
    if s.take(i).contains(s[i]) {
        let j = choose|j: int| 0 <= j < s.take(i).len() && s.take(i)[j] == s[i];
        assert(s[j] == s[i]);
    }
}

/// The whole sequence is its longest prefix.
pub proof fn lemma_full_prefix<A>(s: Seq<A>)
    ensures
        s.take(s.len() as int) == s,
{
    assert(s.take(s.len() as int) =~= s);
}

} // verus!
