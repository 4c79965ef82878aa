//! A small map kept as a list of entries with distinct keys.
//!
//! Its abstract view is a `Map` from the keys' views to the values.
use vstd::prelude::*;

verus! {

/// A key that can be compared and copied by its view.
pub trait MapKey: View + Sized {
    /// Whether two keys are the same.
    fn same_key(&self, other: &Self) -> (r: bool)
        ensures
            r == (self@ == other@),
    ;

    /// A copy of the key.
    fn copy_key(&self) -> (r: Self)
        ensures
            r@ == self@,
    ;
}

impl MapKey for String {
    fn same_key(&self, other: &Self) -> (r: bool) {
        *self == *other
    }

    fn copy_key(&self) -> (r: Self) {
        self.clone()
    }
}

impl MapKey for u32 {
    fn same_key(&self, other: &Self) -> (r: bool) {
        *self == *other
    }

    fn copy_key(&self) -> (r: Self) {
        *self
    }
}

impl MapKey for u16 {
    fn same_key(&self, other: &Self) -> (r: bool) {
        *self == *other
    }

    fn copy_key(&self) -> (r: Self) {
        *self
    }
}

/// The views of the keys of a list of entries, in order.
pub open spec fn keys_of<K: View, V>(s: Seq<(K, V)>) -> Seq<K::V> {
    Seq::new(s.len(), |i: int| s[i].0@)
}

/// The values of a list of entries, in order.
pub open spec fn values_of<K, V>(s: Seq<(K, V)>) -> Seq<V> {
    Seq::new(s.len(), |i: int| s[i].1)
}

/// No two entries have the same key.
pub open spec fn distinct_keys<K: View, V>(s: Seq<(K, V)>) -> bool {
    forall|i: int, j: int|
        0 <= i < s.len() && 0 <= j < s.len() && i != j ==> s[i].0@ != s[j].0@
}

/// The map that a list of entries stands for; a later entry wins over an earlier one.
pub open spec fn map_of<K: View, V>(s: Seq<(K, V)>) -> Map<K::V, V>
    decreases s.len(),
{
    if s.len() == 0 {
        Map::empty()
    } else {
        map_of(s.drop_last()).insert(s.last().0@, s.last().1)
    }
}

/// A key is in the map of a list exactly when some entry carries it.
pub proof fn lemma_map_of_dom<K: View, V>(s: Seq<(K, V)>, k: K::V)
    ensures
        map_of(s).contains_key(k) <==> exists|i: int| 0 <= i < s.len() && s[i].0@ == k,
    decreases s.len(),
{
    if s.len() > 0 {
        lemma_map_of_dom(s.drop_last(), k);
        if map_of(s).contains_key(k) && k != s.last().0@ {
            let i = choose|i: int| 0 <= i < s.drop_last().len() && s.drop_last()[i].0@ == k;
            assert(s[i].0@ == k);
        }
        if exists|i: int| 0 <= i < s.len() && s[i].0@ == k {
            let i = choose|i: int| 0 <= i < s.len() && s[i].0@ == k;
            if i < s.len() - 1 {
                assert(s.drop_last()[i].0@ == k);
            }
        }
    }
}

/// Each entry of a list with distinct keys is what its map holds.
pub proof fn lemma_map_of_index<K: View, V>(s: Seq<(K, V)>, i: int)
    requires
        distinct_keys(s),
        0 <= i < s.len(),
    ensures
        map_of(s).contains_key(s[i].0@),
        map_of(s)[s[i].0@] == s[i].1,
    decreases s.len(),
{
    if i < s.len() - 1 {
        assert(s.drop_last()[i] == s[i]);
        lemma_map_of_index(s.drop_last(), i);
        assert(s[i].0@ != s[s.len() - 1].0@);
    }
}

/// Appending an entry inserts it.
pub proof fn lemma_map_of_push<K: View, V>(s: Seq<(K, V)>, e: (K, V))
    ensures
        map_of(s.push(e)) == map_of(s).insert(e.0@, e.1),
{
    assert(s.push(e).drop_last() =~= s);
}

/// Replacing the value of an entry in place inserts it.
pub proof fn lemma_map_of_update<K: View, V>(s: Seq<(K, V)>, i: int, e: (K, V))
    requires
        distinct_keys(s),
        0 <= i < s.len(),
        e.0@ == s[i].0@,
    ensures
        map_of(s.update(i, e)) =~= map_of(s).insert(e.0@, e.1),
    decreases s.len(),
{
    let t = s.update(i, e);
    if i == s.len() - 1 {
        assert(t.drop_last() =~= s.drop_last());
    } else {
        assert(t.drop_last() =~= s.drop_last().update(i, e));
        lemma_map_of_update(s.drop_last(), i, e);
        assert(s[i].0@ != s[s.len() - 1].0@);
    }
}

/// Removing an entry of a list with distinct keys removes its key.
pub proof fn lemma_map_of_remove<K: View, V>(s: Seq<(K, V)>, i: int)
    requires
        distinct_keys(s),
        0 <= i < s.len(),
    ensures
        map_of(s.remove(i)) =~= map_of(s).remove(s[i].0@),
    decreases s.len(),
{
    let t = s.remove(i);
    if i == s.len() - 1 {
        assert(t =~= s.drop_last());
        lemma_map_of_dom(s.drop_last(), s[i].0@);
        if map_of(s.drop_last()).contains_key(s[i].0@) {
            let j = choose|j: int| 0 <= j < s.drop_last().len() && s.drop_last()[j].0@ == s[i].0@;
            assert(s[j].0@ == s[i].0@);
        }
    } else {
        assert(t.drop_last() =~= s.drop_last().remove(i));
        assert(t.last() == s.last());
        lemma_map_of_remove(s.drop_last(), i);
        assert(s[i].0@ != s[s.len() - 1].0@);
    }
}

/// The map of a list with distinct keys has as many keys as the list has entries.
pub proof fn lemma_map_of_len<K: View, V>(s: Seq<(K, V)>)
    requires
        distinct_keys(s),
    ensures
        map_of(s).dom().finite(),
        map_of(s).len() == s.len(),
    decreases s.len(),
{
    if s.len() > 0 {
        lemma_map_of_len(s.drop_last());
        lemma_map_of_dom(s.drop_last(), s.last().0@);
        if map_of(s.drop_last()).contains_key(s.last().0@) {
            let j = choose|j: int|
                0 <= j < s.drop_last().len() && s.drop_last()[j].0@ == s.last().0@;
            assert(s[j].0@ == s[s.len() - 1].0@);
        }
    }
}

/// Two lists with the same key views and values, in the same order, stand for the same map.
pub proof fn lemma_map_of_same<K: View, V>(s: Seq<(K, V)>, t: Seq<(K, V)>)
    requires
        keys_of(s) == keys_of(t),
        values_of(s) == values_of(t),
    ensures
        map_of(s) == map_of(t),
    decreases s.len(),
{
    assert(s.len() == keys_of(s).len());
    assert(t.len() == keys_of(t).len());
    if s.len() > 0 {
        assert(keys_of(s.drop_last()) =~= keys_of(s).drop_last());
        assert(keys_of(t.drop_last()) =~= keys_of(t).drop_last());
        assert(values_of(s.drop_last()) =~= values_of(s).drop_last());
        assert(values_of(t.drop_last()) =~= values_of(t).drop_last());
        lemma_map_of_same(s.drop_last(), t.drop_last());
        assert(keys_of(s)[s.len() - 1] == keys_of(t)[t.len() - 1]);
        assert(values_of(s)[s.len() - 1] == values_of(t)[t.len() - 1]);
    }
}

/// A map from keys to values, kept as a list of entries whose keys are distinct.
#[derive(Debug)]
pub struct KeyedList<K: MapKey, V> {
    entries: Vec<(K, V)>,
}

impl<K: MapKey, V> View for KeyedList<K, V> {
    type V = Map<K::V, V>;

    closed spec fn view(&self) -> Map<K::V, V> {
        map_of(self.entries@)
    }
}

impl<K: MapKey, V> KeyedList<K, V> {
    #[verifier::type_invariant]
    closed spec fn inv(&self) -> bool {
        distinct_keys(self.entries@)
    }

    /// The views of the keys, in the order in which the entries are kept.
    pub closed spec fn key_seq(&self) -> Seq<K::V> {
        keys_of(self.entries@)
    }

    /// The values, in the order in which the entries are kept.
    pub closed spec fn value_seq(&self) -> Seq<V> {
        values_of(self.entries@)
    }

    /// An empty map.
    pub fn new() -> (r: Self)
        ensures
            r@ == Map::<K::V, V>::empty(),
            r.key_seq().len() == 0,
    {
        let r = KeyedList { entries: Vec::new() };
        proof {
            assert(map_of(r.entries@) =~= Map::<K::V, V>::empty());
        }
        r
    }

    /// The number of keys, together with how the ordered entries relate to the map.
    pub fn len(&self) -> (r: usize)
        ensures
            r == self@.len(),
            r == self.key_seq().len(),
            r == self.value_seq().len(),
            self@.dom().finite(),
            self.key_seq().no_duplicates(),
            forall|k: K::V| self@.contains_key(k) <==> self.key_seq().contains(k),
            forall|i: int|
                0 <= i < r ==> #[trigger] self@[self.key_seq()[i]] == self.value_seq()[i],
            forall|i: int| 0 <= i < r ==> self@.contains_key(#[trigger] self.key_seq()[i]),
    {
        proof {
            use_type_invariant(self);
            self.lemma_facts();
        }
        self.entries.len()
    }

    proof fn lemma_facts(&self)
        requires
            distinct_keys(self.entries@),
        ensures
            self@.dom().finite(),
            self@.len() == self.entries@.len(),
            self.key_seq().len() == self.entries@.len(),
            self.value_seq().len() == self.entries@.len(),
            self.key_seq().no_duplicates(),
            forall|k: K::V| self@.contains_key(k) <==> self.key_seq().contains(k),
            forall|i: int|
                0 <= i < self.entries@.len() ==> #[trigger] self@[self.key_seq()[i]]
                    == self.value_seq()[i],
            forall|i: int|
                0 <= i < self.entries@.len() ==> self@.contains_key(#[trigger] self.key_seq()[i]),
    {
        lemma_map_of_len(self.entries@);
        assert forall|k: K::V| self@.contains_key(k) <==> self.key_seq().contains(k) by {
            lemma_map_of_dom(self.entries@, k);
            if self.key_seq().contains(k) {
                let i = choose|i: int| 0 <= i < self.key_seq().len() && self.key_seq()[i] == k;
                assert(self.entries@[i].0@ == k);
            }
            if self@.contains_key(k) {
                let i = choose|i: int| 0 <= i < self.entries@.len() && self.entries@[i].0@ == k;
                assert(self.key_seq()[i] == k);
            }
        }
        assert forall|i: int| 0 <= i < self.entries@.len() implies #[trigger] self@[self.key_seq()[i]]
            == self.value_seq()[i] by {
            lemma_map_of_index(self.entries@, i);
        }
        assert forall|i: int| 0 <= i < self.entries@.len() implies self@.contains_key(
            #[trigger] self.key_seq()[i],
        ) by {
            lemma_map_of_index(self.entries@, i);
        }
        assert forall|i: int, j: int|
            0 <= i < self.key_seq().len() && 0 <= j < self.key_seq().len() && i != j
            implies self.key_seq()[i] != self.key_seq()[j] by {
            assert(self.entries@[i].0@ != self.entries@[j].0@);
        }
    }

    /// Whether the map is empty.
    pub fn is_empty(&self) -> (r: bool)
        ensures
            r == (self@.len() == 0),
            r == (self@ == Map::<K::V, V>::empty()),
    {
        let n = self.len();
        proof {
            if n == 0 {
                assert(self@ =~= Map::<K::V, V>::empty());
            } else {
                assert(self@.contains_key(self.key_seq()[0]));
            }
        }
        n == 0
    }

    fn find(&self, k: &K) -> (r: Option<usize>)
        ensures
            match r {
                Some(i) => i < self.entries@.len() && self.entries@[i as int].0@ == k@,
                None => !self@.contains_key(k@),
            },
    {
        let mut i: usize = 0;
        while i < self.entries.len()
            invariant
                i <= self.entries@.len(),
                forall|j: int| 0 <= j < i ==> self.entries@[j].0@ != k@,
            decreases self.entries@.len() - i,
        {
            if self.entries[i].0.same_key(k) {
                return Some(i);
            }
            i = i + 1;
        }
        proof {
            lemma_map_of_dom(self.entries@, k@);
        }
        None
    }

    /// Whether the key is present.
    pub fn contains_key(&self, k: &K) -> (r: bool)
        ensures
            r == self@.contains_key(k@),
    {
        proof {
            use_type_invariant(self);
        }
        match self.find(k) {
            Some(i) => {
                proof {
                    lemma_map_of_index(self.entries@, i as int);
                }
                true
            },
            None => false,
        }
    }

    /// The value kept under the key, if any.
    pub fn get(&self, k: &K) -> (r: Option<&V>)
        ensures
            match r {
                Some(v) => self@.contains_key(k@) && *v == self@[k@],
                None => !self@.contains_key(k@),
            },
    {
        proof {
            use_type_invariant(self);
        }
        match self.find(k) {
            Some(i) => {
                proof {
                    lemma_map_of_index(self.entries@, i as int);
                }
                Some(&self.entries[i].1)
            },
            None => None,
        }
    }

    /// The key of the entry at a position.
    pub fn key_at(&self, i: usize) -> (r: &K)
        requires
            i < self.key_seq().len(),
        ensures
            r@ == self.key_seq()[i as int],
            self@.contains_key(r@),
    {
        proof {
            use_type_invariant(self);
            lemma_map_of_index(self.entries@, i as int);
        }
        &self.entries[i].0
    }

    /// The value of the entry at a position.
    pub fn value_at(&self, i: usize) -> (r: &V)
        requires
            i < self.key_seq().len(),
        ensures
            *r == self.value_seq()[i as int],
            *r == self@[self.key_seq()[i as int]],
    {
        proof {
            use_type_invariant(self);
            lemma_map_of_index(self.entries@, i as int);
        }
        &self.entries[i].1
    }

    /// Puts a value under a key and hands back the value it replaces.
    pub fn insert(&mut self, k: K, v: V) -> (r: Option<V>)
        ensures
            final(self)@ == old(self)@.insert(k@, v),
            match r {
                Some(o) => old(self)@.contains_key(k@) && o == old(self)@[k@],
                None => !old(self)@.contains_key(k@),
            },
    {
        proof {
            use_type_invariant(&*self);
        }
        let found = self.find(&k);
        let mut entries = Vec::new();
        std::mem::swap(&mut entries, &mut self.entries);
        let ghost old_entries = entries@;
        match found {
            Some(i) => {
                proof {
                    lemma_map_of_index(old_entries, i as int);
                    lemma_map_of_update(old_entries, i as int, (k, v));
                }
                let (_, o) = entries.remove(i);
                entries.insert(i, (k, v));
                proof {
                    assert(entries@ =~= old_entries.update(i as int, (k, v)));
                    assert forall|a: int, b: int|
                        0 <= a < entries@.len() && 0 <= b < entries@.len() && a != b
                        implies entries@[a].0@ != entries@[b].0@ by {
                        assert(old_entries[a].0@ != old_entries[b].0@);
                    }
                }
                self.entries = entries;
                Some(o)
            },
            None => {
                proof {
                    lemma_map_of_push(old_entries, (k, v));
                    assert forall|a: int| 0 <= a < old_entries.len() implies old_entries[a].0@
                        != k@ by {
                        lemma_map_of_dom(old_entries, k@);
                    }
                }
                entries.push((k, v));
                self.entries = entries;
                None
            },
        }
    }

    /// Takes the value kept under a key out of the map.
    pub fn remove(&mut self, k: &K) -> (r: Option<V>)
        ensures
            final(self)@ == old(self)@.remove(k@),
            match r {
                Some(o) => old(self)@.contains_key(k@) && o == old(self)@[k@],
                None => !old(self)@.contains_key(k@),
            },
    {
        proof {
            use_type_invariant(&*self);
        }
        let found = self.find(k);
        match found {
            Some(i) => {
                let mut entries = Vec::new();
                std::mem::swap(&mut entries, &mut self.entries);
                let ghost old_entries = entries@;
                proof {
                    lemma_map_of_index(old_entries, i as int);
                    lemma_map_of_remove(old_entries, i as int);
                }
                let (_, o) = entries.remove(i);
                proof {
                    assert forall|a: int, b: int|
                        0 <= a < entries@.len() && 0 <= b < entries@.len() && a != b
                        implies entries@[a].0@ != entries@[b].0@ by {
                        let a2 = if a < i { a } else { a + 1 };
                        let b2 = if b < i { b } else { b + 1 };
                        assert(old_entries[a2].0@ != old_entries[b2].0@);
                    }
                }
                self.entries = entries;
                Some(o)
            },
            None => {
                proof {
                    assert(old(self)@.remove(k@) =~= old(self)@);
                }
                None
            },
        }
    }

    /// Removes every entry.
    pub fn clear(&mut self)
        ensures
            final(self)@ == Map::<K::V, V>::empty(),
            final(self).key_seq().len() == 0,
    {
        self.entries = Vec::new();
        proof {
            assert(map_of(self.entries@) =~= Map::<K::V, V>::empty());
        }
    }

    /// Two maps whose entries have the same keys and values in the same order are equal.
    pub proof fn lemma_same_entries_same_view(&self, other: &Self)
        requires
            self.key_seq() == other.key_seq(),
            self.value_seq() == other.value_seq(),
        ensures
            self@ == other@,
    {
        lemma_map_of_same(self.entries@, other.entries@);
    }

    /// Copies of the keys, in the order in which the entries are kept.
    pub fn keys(&self) -> (r: Vec<K>)
        ensures
            r@.len() == self.key_seq().len(),
            forall|i: int| #![trigger r@[i]] 0 <= i < r@.len() ==> r@[i]@ == self.key_seq()[i],
    {
        let mut out: Vec<K> = Vec::new();
        let mut i: usize = 0;
        while i < self.entries.len()
            invariant
                i <= self.entries@.len(),
                out@.len() == i,
                forall|j: int| #![trigger out@[j]] 0 <= j < i ==> out@[j]@ == self.key_seq()[j],
            decreases self.entries@.len() - i,
        {
            out.push(self.entries[i].0.copy_key());
            i = i + 1;
        }
        out
    }
}

impl<K: MapKey, V: Clone> Clone for KeyedList<K, V> {
    /// A copy with the same keys, in the same order, and clones of the values.
    fn clone(&self) -> (r: Self)
        ensures
            r.key_seq() == self.key_seq(),
            r.value_seq().len() == self.value_seq().len(),
            r@.dom() == self@.dom(),
            forall|i: int|
                0 <= i < self.value_seq().len() ==> cloned::<V>(
                    self.value_seq()[i],
                    #[trigger] r.value_seq()[i],
                ),
    {
        proof {
            use_type_invariant(self);
        }
        let mut entries: Vec<(K, V)> = Vec::new();
        let mut i: usize = 0;
        while i < self.entries.len()
            invariant
                i <= self.entries@.len(),
                entries@.len() == i,
                forall|j: int| 0 <= j < i ==> #[trigger] entries@[j].0@ == self.entries@[j].0@,
                forall|j: int|
                    0 <= j < i ==> cloned::<V>(self.entries@[j].1, #[trigger] entries@[j].1),
                distinct_keys(self.entries@),
            decreases self.entries@.len() - i,
        {
            let k = self.entries[i].0.copy_key();
            let v = self.entries[i].1.clone();
            entries.push((k, v));
            i = i + 1;
        }
        proof {
            assert forall|a: int, b: int|
                0 <= a < entries@.len() && 0 <= b < entries@.len() && a != b
                implies entries@[a].0@ != entries@[b].0@ by {
                assert(self.entries@[a].0@ != self.entries@[b].0@);
            }
        }
        let r = KeyedList { entries };
        proof {
            assert(r.key_seq() =~= self.key_seq());
            assert(r.value_seq().len() == self.value_seq().len());
            assert forall|k: K::V| r@.contains_key(k) <==> self@.contains_key(k) by {
                lemma_map_of_dom(r.entries@, k);
                lemma_map_of_dom(self.entries@, k);
                if r@.contains_key(k) {
                    let j = choose|j: int| 0 <= j < r.entries@.len() && r.entries@[j].0@ == k;
                    assert(self.entries@[j].0@ == k);
                }
                if self@.contains_key(k) {
                    let j = choose|j: int| 0 <= j < self.entries@.len() && self.entries@[j].0@ == k;
                    assert(r.entries@[j].0@ == k);
                }
            }
            assert(r@.dom() =~= self@.dom());
        }
        r
    }
}

} // verus!
