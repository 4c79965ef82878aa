//! Indexes that group session identifiers under a text key (a name or a connection key), and
//! what it means for such an index to list exactly the entries of each key.
use vstd::prelude::*;

use crate::keyed::KeyedList;

verus! {

/// The lists of an index, by key.
pub open spec fn lists(idx: KeyedList<String, Vec<u128>>) -> Map<Seq<char>, Seq<u128>> {
    Map::new(|k: Seq<char>| idx@.contains_key(k), |k: Seq<char>| idx@[k]@)
}

/// The list kept under a key, or the empty list.
pub open spec fn list_of(m: Map<Seq<char>, Seq<u128>>, k: Seq<char>) -> Seq<u128> {
    if m.contains_key(k) {
        m[k]
    } else {
        Seq::empty()
    }
}

/// The lists after an identifier is appended to the list of a key.
pub open spec fn index_add(m: Map<Seq<char>, Seq<u128>>, k: Seq<char>, id: u128) -> Map<
    Seq<char>,
    Seq<u128>,
> {
    m.insert(k, list_of(m, k).push(id))
}

/// A list without any occurrence of an identifier, in the same order.
pub open spec fn without(s: Seq<u128>, id: u128) -> Seq<u128>
    decreases s.len(),
{
    if s.len() == 0 {
        s
    } else if s.last() == id {
        without(s.drop_last(), id)
    } else {
        without(s.drop_last(), id).push(s.last())
    }
}

/// The lists after an identifier is taken out of the list of a key; a list left empty goes.
pub open spec fn index_remove(m: Map<Seq<char>, Seq<u128>>, k: Seq<char>, id: u128) -> Map<
    Seq<char>,
    Seq<u128>,
> {
    if m.contains_key(k) {
        if without(m[k], id).len() == 0 {
            m.remove(k)
        } else {
            m.insert(k, without(m[k], id))
        }
    } else {
        m
    }
}

/// Whether the lists hold exactly the identifiers of the entries under each entry's key: no
/// list is empty or repeats an identifier, every listed identifier has an entry with that key,
/// and every entry is listed under its key.
pub open spec fn indexes<V>(
    m: Map<Seq<char>, Seq<u128>>,
    entries: Map<u128, V>,
    key_of: spec_fn(V) -> Seq<char>,
) -> bool {
    &&& forall|k: Seq<char>| #[trigger]
        m.contains_key(k) ==> m[k].len() > 0 && m[k].no_duplicates()
    &&& forall|k: Seq<char>, j: int|
        m.contains_key(k) && 0 <= j < m[k].len() ==> entries.contains_key(#[trigger] m[k][j])
            && key_of(entries[m[k][j]]) == k
    &&& forall|id: u128| #[trigger]
        entries.contains_key(id) ==> m.contains_key(key_of(entries[id])) && m[key_of(
            entries[id],
        )].contains(id)
}

/// What a list with one more element holds.
pub proof fn lemma_push_contains(t: Seq<u128>, e: u128, x: u128)
    ensures
        t.push(e).contains(x) <==> t.contains(x) || x == e,
{
    if t.push(e).contains(x) {
        let j = choose|j: int| 0 <= j < t.push(e).len() && t.push(e)[j] == x;
        if j < t.len() {
            assert(t[j] == x);
        }
    }
    if t.contains(x) {
        let j = choose|j: int| 0 <= j < t.len() && t[j] == x;
        assert(t.push(e)[j] == x);
    }
    if x == e {
        assert(t.push(e)[t.len() as int] == x);
    }
}

proof fn lemma_push_no_duplicates(t: Seq<u128>, e: u128)
    requires
        t.no_duplicates(),
        !t.contains(e),
    ensures
        t.push(e).no_duplicates(),
{
    let u = t.push(e);
    assert forall|a: int, b: int| 0 <= a < u.len() && 0 <= b < u.len() && a != b implies u[a]
        != u[b] by {
        if a < t.len() && b < t.len() {
            assert(u[a] == t[a] && u[b] == t[b]);
        } else if a == t.len() {
            assert(u[b] == t[b]);
            assert(t.contains(t[b]));
        } else {
            assert(u[a] == t[a]);
            assert(t.contains(t[a]));
        }
    }
}

/// What `without` keeps: every other identifier, and no repetition where there was none.
pub proof fn lemma_without(s: Seq<u128>, id: u128)
    ensures
        forall|x: u128| #[trigger] without(s, id).contains(x) <==> s.contains(x) && x != id,
        s.no_duplicates() ==> without(s, id).no_duplicates(),
        !s.contains(id) ==> without(s, id) == s,
        without(s, id).len() <= s.len(),
    decreases s.len(),
{
    if s.len() > 0 {
        let t = s.drop_last();
        let e = s.last();
        lemma_without(t, id);
        assert(s =~= t.push(e));
        let w = without(t, id);
        assert forall|x: u128| #[trigger] without(s, id).contains(x) <==> s.contains(x) && x != id by {
            lemma_push_contains(t, e, x);
            if e != id {
                lemma_push_contains(w, e, x);
            }
        }
        if s.no_duplicates() {
            assert(t.no_duplicates()) by {
                assert forall|a: int, b: int| 0 <= a < t.len() && 0 <= b < t.len() && a != b implies t[a]
                    != t[b] by {
                    assert(s[a] == t[a] && s[b] == t[b]);
                }
            }
            if e != id {
                assert(!t.contains(e)) by {
                    if t.contains(e) {
                        let j = choose|j: int| 0 <= j < t.len() && t[j] == e;
                        assert(s[j] == s[s.len() - 1]);
                    }
                }
                assert(!w.contains(e));
                lemma_push_no_duplicates(w, e);
            }
        }
        if !s.contains(id) {
            lemma_push_contains(t, e, id);
        }
    }
}

/// Filtering a list without repetition gives a list without repetition, of its elements.
pub proof fn lemma_filter_distinct(s: Seq<u128>, p: spec_fn(u128) -> bool)
    requires
        s.no_duplicates(),
    ensures
        s.filter(p).no_duplicates(),
        forall|x: u128| #[trigger] s.filter(p).contains(x) ==> s.contains(x),
    decreases s.len(),
{
    if s.len() > 0 {
        let t = s.drop_last();
        let e = s.last();
        assert(s =~= t.push(e));
        assert(t.no_duplicates()) by {
            assert forall|a: int, b: int| 0 <= a < t.len() && 0 <= b < t.len() && a != b implies t[a]
                != t[b] by {
                assert(s[a] == t[a] && s[b] == t[b]);
            }
        }
        lemma_filter_distinct(t, p);
        t.lemma_filter_push(e, p);
        assert forall|x: u128| #[trigger] s.filter(p).contains(x) implies s.contains(x) by {
            lemma_push_contains(t, e, x);
            if p(e) {
                lemma_push_contains(t.filter(p), e, x);
            }
        }
        if p(e) {
            assert(!t.contains(e)) by {
                if t.contains(e) {
                    let j = choose|j: int| 0 <= j < t.len() && t[j] == e;
                    assert(s[j] == s[s.len() - 1]);
                }
            }
            assert(!t.filter(p).contains(e));
            lemma_push_no_duplicates(t.filter(p), e);
        }
    } else {
        reveal(Seq::filter);
    }
}

/// Adding an entry under a new identifier and appending it to its key's list keeps the lists
/// exact.
pub proof fn lemma_indexes_add<V>(
    m: Map<Seq<char>, Seq<u128>>,
    entries: Map<u128, V>,
    key_of: spec_fn(V) -> Seq<char>,
    id: u128,
    v: V,
)
    requires
        indexes(m, entries, key_of),
        !entries.contains_key(id),
    ensures
        indexes(index_add(m, key_of(v), id), entries.insert(id, v), key_of),
{
    let k = key_of(v);
    let m2 = index_add(m, k, id);
    let e2 = entries.insert(id, v);
    let old_list = list_of(m, k);
    assert(!old_list.contains(id)) by {
        if old_list.contains(id) {
            let j = choose|j: int| 0 <= j < old_list.len() && old_list[j] == id;
            assert(entries.contains_key(m[k][j]));
        }
    }
    assert forall|kk: Seq<char>| #[trigger] m2.contains_key(kk) implies m2[kk].len() > 0
        && m2[kk].no_duplicates() by {
        if kk == k {
            assert forall|a: int, b: int|
                0 <= a < m2[kk].len() && 0 <= b < m2[kk].len() && a != b implies m2[kk][a]
                != m2[kk][b] by {
                if a < old_list.len() && b < old_list.len() {
                    assert(m.contains_key(k));
                } else if a == old_list.len() {
                    assert(old_list.contains(old_list[b]));
                } else {
                    assert(old_list.contains(old_list[a]));
                }
            }
        }
    }
    assert forall|kk: Seq<char>, j: int|
        m2.contains_key(kk) && 0 <= j < m2[kk].len() implies e2.contains_key(#[trigger] m2[kk][j])
        && key_of(e2[m2[kk][j]]) == kk by {
        if kk == k {
            if j < old_list.len() {
                assert(m.contains_key(k));
                assert(m2[kk][j] == m[k][j]);
                assert(m2[kk][j] != id);
            }
        } else {
            assert(m2[kk][j] == m[kk][j]);
            assert(m[kk][j] != id) by {
                assert(entries.contains_key(m[kk][j]));
            }
        }
    }
    assert forall|x: u128| #[trigger] e2.contains_key(x) implies m2.contains_key(key_of(e2[x]))
        && m2[key_of(e2[x])].contains(x) by {
        if x == id {
            assert(m2[k][old_list.len() as int] == id);
        } else {
            let kx = key_of(entries[x]);
            assert(m[kx].contains(x));
            if kx == k {
                let j = choose|j: int| 0 <= j < m[kx].len() && m[kx][j] == x;
                assert(m2[k][j] == x);
            }
        }
    }
}

/// Removing an entry and taking its identifier out of its key's list keeps the lists exact.
pub proof fn lemma_indexes_remove<V>(
    m: Map<Seq<char>, Seq<u128>>,
    entries: Map<u128, V>,
    key_of: spec_fn(V) -> Seq<char>,
    id: u128,
)
    requires
        indexes(m, entries, key_of),
        entries.contains_key(id),
    ensures
        indexes(index_remove(m, key_of(entries[id]), id), entries.remove(id), key_of),
{
    let k = key_of(entries[id]);
    let m2 = index_remove(m, k, id);
    let e2 = entries.remove(id);
    assert(m.contains_key(k));
    let w = without(m[k], id);
    lemma_without(m[k], id);
    assert forall|kk: Seq<char>| #[trigger] m2.contains_key(kk) implies m2[kk].len() > 0
        && m2[kk].no_duplicates() by {
        if kk != k {
            assert(m.contains_key(kk));
        }
    }
    assert forall|kk: Seq<char>, j: int|
        m2.contains_key(kk) && 0 <= j < m2[kk].len() implies e2.contains_key(#[trigger] m2[kk][j])
        && key_of(e2[m2[kk][j]]) == kk by {
        if kk == k {
            assert(w.contains(w[j]));
            assert(m[k].contains(w[j]));
            let i = choose|i: int| 0 <= i < m[k].len() && m[k][i] == w[j];
            assert(entries.contains_key(m[k][i]));
        } else {
            assert(m.contains_key(kk));
            assert(entries.contains_key(m[kk][j]));
            if m[kk][j] == id {
                assert(key_of(entries[id]) == kk);
            }
        }
    }
    assert forall|x: u128| #[trigger] e2.contains_key(x) implies m2.contains_key(key_of(e2[x]))
        && m2[key_of(e2[x])].contains(x) by {
        assert(entries.contains_key(x));
        let kx = key_of(entries[x]);
        assert(m[kx].contains(x));
        if kx == k {
            assert(w.contains(x));
            assert(w.len() > 0);
        }
    }
}

/// Replacing an entry by one with the same key leaves the lists exact.
pub proof fn lemma_indexes_same_key<V>(
    m: Map<Seq<char>, Seq<u128>>,
    entries: Map<u128, V>,
    key_of: spec_fn(V) -> Seq<char>,
    id: u128,
    v: V,
)
    requires
        indexes(m, entries, key_of),
        entries.contains_key(id),
        key_of(v) == key_of(entries[id]),
    ensures
        indexes(m, entries.insert(id, v), key_of),
{
    let e2 = entries.insert(id, v);
    assert forall|kk: Seq<char>, j: int|
        m.contains_key(kk) && 0 <= j < m[kk].len() implies e2.contains_key(#[trigger] m[kk][j])
        && key_of(e2[m[kk][j]]) == kk by {
        assert(entries.contains_key(m[kk][j]));
    }
    assert forall|x: u128| #[trigger] e2.contains_key(x) implies m.contains_key(key_of(e2[x]))
        && m[key_of(e2[x])].contains(x) by {
        assert(entries.contains_key(x));
    }
}

/// Replacing an entry by one with another key, moving its identifier from the old key's list
/// to the end of the new key's list, leaves the lists exact.
pub proof fn lemma_indexes_move<V>(
    m: Map<Seq<char>, Seq<u128>>,
    entries: Map<u128, V>,
    key_of: spec_fn(V) -> Seq<char>,
    id: u128,
    v: V,
)
    requires
        indexes(m, entries, key_of),
        entries.contains_key(id),
    ensures
        indexes(
            index_add(index_remove(m, key_of(entries[id]), id), key_of(v), id),
            entries.insert(id, v),
            key_of,
        ),
{
    lemma_indexes_remove(m, entries, key_of, id);
    lemma_indexes_add(index_remove(m, key_of(entries[id]), id), entries.remove(id), key_of, id, v);
    assert(entries.remove(id).insert(id, v) =~= entries.insert(id, v));
}

/// Where the lists are exact, the list of a key holds exactly the identifiers of the entries
/// with that key, each once.
pub proof fn lemma_indexes_list<V>(
    m: Map<Seq<char>, Seq<u128>>,
    entries: Map<u128, V>,
    key_of: spec_fn(V) -> Seq<char>,
    k: Seq<char>,
)
    requires
        indexes(m, entries, key_of),
    ensures
        list_of(m, k).no_duplicates(),
        forall|id: u128| #[trigger]
            list_of(m, k).contains(id) <==> entries.contains_key(id) && key_of(entries[id]) == k,
{
    assert forall|id: u128| #[trigger]
        list_of(m, k).contains(id) <==> entries.contains_key(id) && key_of(entries[id]) == k by {
        if list_of(m, k).contains(id) {
            let j = choose|j: int| 0 <= j < list_of(m, k).len() && list_of(m, k)[j] == id;
            assert(entries.contains_key(m[k][j]));
        }
        if entries.contains_key(id) && key_of(entries[id]) == k {
            assert(m[key_of(entries[id])].contains(id));
        }
    }
    if m.contains_key(k) {
        assert(m[k].no_duplicates());
    }
}

/// A copy of a list without any occurrence of an identifier.
pub fn without_vec(v: &Vec<u128>, id: u128) -> (r: Vec<u128>)
    ensures
        r@ == without(v@, id),
{
    let mut out: Vec<u128> = Vec::new();
    let mut i: usize = 0;
    while i < v.len()
        invariant
            i <= v@.len(),
            out@ == without(v@.take(i as int), id),
        decreases v@.len() - i,
    {
        let x = v[i];
        proof {
            assert(v@.take(i + 1).drop_last() =~= v@.take(i as int));
            assert(v@.take(i + 1).last() == x);
        }
        if x != id {
            out.push(x);
        }
        i = i + 1;
    }
    proof {
        assert(v@.take(v@.len() as int) =~= v@);
    }
    out
}

/// Appends an identifier to the list of a key.
pub fn index_push(idx: &mut KeyedList<String, Vec<u128>>, key: String, id: u128)
    ensures
        lists(*final(idx)) == index_add(lists(*old(idx)), key@, id),
{
    let ghost before = lists(*idx);
    match idx.remove(&key) {
        Some(mut ids) => {
            ids.push(id);
            idx.insert(key, ids);
        },
        None => {
            let mut ids: Vec<u128> = Vec::new();
            ids.push(id);
            idx.insert(key, ids);
        },
    }
    proof {
        assert(lists(*idx) =~= index_add(before, key@, id));
    }
}

/// Takes an identifier out of the list of a key; a list left empty goes.
pub fn index_drop(idx: &mut KeyedList<String, Vec<u128>>, key: &String, id: u128)
    ensures
        lists(*final(idx)) == index_remove(lists(*old(idx)), key@, id),
{
    let ghost before = lists(*idx);
    match idx.remove(key) {
        Some(ids) => {
            let kept = without_vec(&ids, id);
            if kept.len() > 0 {
                idx.insert(key.clone(), kept);
            }
        },
        None => {},
    }
    proof {
        assert(lists(*idx) =~= index_remove(before, key@, id));
    }
}

} // verus!
