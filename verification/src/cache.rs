//! The cache store: a mapping from query keys to entries.

use vstd::prelude::*;
use crate::key::QueryKey;
use crate::query::Query;

verus! {

/// A way to store query entries.
///
/// The contract is backend-agnostic: every backend represents a finite
/// mapping from key views to entries, all operations are total over the
/// key space, and two backends satisfying this trait are interchangeable
/// without any observable difference.
pub trait QueryCache: Sized {
    /// The mapping this store represents.
    spec fn view(&self) -> Map<(Seq<char>, u64), Query>;

    /// The backend's internal invariant.
    spec fn inv(&self) -> bool;

    /// Constructs an empty store.
    fn empty() -> (r: Self)
        ensures
            r.inv(),
            r.view() == Map::<(Seq<char>, u64), Query>::empty(),
    ;

    /// Returns the entry with the given key.
    fn get(&self, key: &QueryKey) -> (r: Option<&Query>)
        requires
            self.inv(),
        ensures
            r is Some <==> self.view().contains_key(key@),
            r matches Some(q) ==> *q == self.view()[key@],
    ;

    /// Inserts or replaces the entry with the given key.
    fn set(&mut self, key: QueryKey, entry: Query)
        requires
            old(self).inv(),
        ensures
            final(self).inv(),
            final(self).view() == old(self).view().insert(key@, entry),
    ;

    /// Removes and returns the entry with the given key.
    fn remove(&mut self, key: &QueryKey) -> (r: Option<Query>)
        requires
            old(self).inv(),
        ensures
            final(self).inv(),
            final(self).view() == old(self).view().remove(key@),
            r is Some <==> old(self).view().contains_key(key@),
            r matches Some(q) ==> q == old(self).view()[key@],
    ;

    /// Returns `true` if the given key is in the store.
    fn has(&self, key: &QueryKey) -> (r: bool)
        requires
            self.inv(),
        ensures
            r == self.view().contains_key(key@),
    ;

    /// Removes all entries.
    fn clear(&mut self)
        requires
            old(self).inv(),
        ensures
            final(self).inv(),
            final(self).view() == Map::<(Seq<char>, u64), Query>::empty(),
    ;
}

/// The mapping represented by an association list, later pairs winning.
pub open spec fn entries_map(s: Seq<(QueryKey, Query)>) -> Map<(Seq<char>, u64), Query>
    decreases s.len(),
{
    if s.len() == 0 {
        Map::empty()
    } else {
        entries_map(s.drop_last()).insert(s.last().0@, s.last().1)
    }
}

/// Whether the pairs of an association list carry pairwise distinct keys.
pub open spec fn distinct_keys(s: Seq<(QueryKey, Query)>) -> bool {
    forall|i: int, j: int|
        #![trigger s[i], s[j]]
        0 <= i < j < s.len() ==> s[i].0@ != s[j].0@
}

/// A key is in the mapping exactly when some pair carries it.
proof fn lemma_em_contains(s: Seq<(QueryKey, Query)>, k: (Seq<char>, u64))
    ensures
        entries_map(s).contains_key(k) <==> exists|i: int| 0 <= i < s.len() && s[i].0@ == k,
    decreases s.len(),
{
    if s.len() == 0 {
    } else {
        lemma_em_contains(s.drop_last(), k);
        if k == s.last().0@ {
            assert(s[s.len() - 1].0@ == k);
        } else {
            if entries_map(s).contains_key(k) {
                let i = choose|i: int|
                    0 <= i < s.drop_last().len() && s.drop_last()[i].0@ == k;
                assert(s[i].0@ == k);
            }
            if exists|i: int| 0 <= i < s.len() && s[i].0@ == k {
                let i = choose|i: int| 0 <= i < s.len() && s[i].0@ == k;
                assert(s.drop_last()[i].0@ == k);
            }
        }
    }
}

/// Dropping the last pair keeps the keys pairwise distinct.
proof fn lemma_distinct_drop_last(s: Seq<(QueryKey, Query)>)
    requires
        distinct_keys(s),
        s.len() > 0,
    ensures
        distinct_keys(s.drop_last()),
{
    assert forall|i: int, j: int|
        #![trigger s.drop_last()[i], s.drop_last()[j]]
        0 <= i < j < s.drop_last().len() implies s.drop_last()[i].0@ != s.drop_last()[j].0@ by {
        assert(s.drop_last()[i] == s[i]);
        assert(s.drop_last()[j] == s[j]);
    }
}

/// With distinct keys, the mapping sends each pair's key to its entry.
proof fn lemma_em_index(s: Seq<(QueryKey, Query)>, i: int)
    requires
        distinct_keys(s),
        0 <= i < s.len(),
    ensures
        entries_map(s).contains_key(s[i].0@),
        entries_map(s)[s[i].0@] == s[i].1,
    decreases s.len(),
{
    if i == s.len() - 1 {
    } else {
        lemma_distinct_drop_last(s);
        lemma_em_index(s.drop_last(), i);
        assert(s.drop_last()[i] == s[i]);
        assert(s[i].0@ != s.last().0@);
    }
}

/// With distinct keys, removing a pair removes exactly its key.
proof fn lemma_em_remove(s: Seq<(QueryKey, Query)>, i: int)
    requires
        distinct_keys(s),
        0 <= i < s.len(),
    ensures
        entries_map(s.remove(i)) == entries_map(s).remove(s[i].0@),
        distinct_keys(s.remove(i)),
    decreases s.len(),
{
    s.remove_ensures(i);
    assert forall|a: int, b: int|
        #![trigger s.remove(i)[a], s.remove(i)[b]]
        0 <= a < b < s.remove(i).len() implies s.remove(i)[a].0@ != s.remove(i)[b].0@ by {
        let a0 = if a < i { a } else { a + 1 };
        let b0 = if b < i { b } else { b + 1 };
        assert(s.remove(i)[a] == s[a0]);
        assert(s.remove(i)[b] == s[b0]);
    }
    if i == s.len() - 1 {
        assert(s.remove(i) =~= s.drop_last());
        lemma_distinct_drop_last(s);
        lemma_em_contains(s.drop_last(), s[i].0@);
        assert forall|j: int| 0 <= j < s.drop_last().len() implies s.drop_last()[j].0@
            != s[i].0@ by {
            assert(s.drop_last()[j] == s[j]);
        }
        assert(!entries_map(s.drop_last()).contains_key(s[i].0@));
        assert(entries_map(s.remove(i)) =~= entries_map(s).remove(s[i].0@));
    } else {
        let t = s.remove(i);
        assert(t.drop_last() =~= s.drop_last().remove(i)) by {
            s.drop_last().remove_ensures(i);
        }
        assert(t.last() == s.last());
        lemma_distinct_drop_last(s);
        lemma_em_remove(s.drop_last(), i);
        assert(s.drop_last()[i] == s[i]);
        assert(s[i].0@ != s.last().0@);
        assert(entries_map(t) =~= entries_map(s).remove(s[i].0@));
    }
}

/// With distinct keys, replacing a pair in place, key view kept, is an
/// insertion into the mapping.
proof fn lemma_em_update(s: Seq<(QueryKey, Query)>, i: int, p: (QueryKey, Query))
    requires
        distinct_keys(s),
        0 <= i < s.len(),
        p.0@ == s[i].0@,
    ensures
        entries_map(s.update(i, p)) == entries_map(s).insert(p.0@, p.1),
        distinct_keys(s.update(i, p)),
    decreases s.len(),
{
    let t = s.update(i, p);
    assert forall|a: int, b: int|
        #![trigger t[a], t[b]]
        0 <= a < b < t.len() implies t[a].0@ != t[b].0@ by {
        assert(t[a] == if a == i { p } else { s[a] });
        assert(t[b] == if b == i { p } else { s[b] });
    }
    if i == s.len() - 1 {
        assert(t.drop_last() =~= s.drop_last());
        assert(t.last() == p);
        assert(entries_map(t) =~= entries_map(s).insert(p.0@, p.1));
    } else {
        assert(t.drop_last() =~= s.drop_last().update(i, p));
        assert(t.last() == s.last());
        lemma_distinct_drop_last(s);
        assert(s.drop_last()[i] == s[i]);
        lemma_em_update(s.drop_last(), i, p);
        assert(s[i].0@ != s.last().0@);
        assert(entries_map(t) =~= entries_map(s).insert(p.0@, p.1));
    }
}

/// A store over a plain vector of key/entry pairs, scanned linearly.
#[derive(Debug)]
pub struct VecCache {
    entries: Vec<(QueryKey, Query)>,
}

impl VecCache {
    /// Constructs an empty store.
    pub fn new() -> (r: VecCache)
        ensures
            r.inv(),
            r.view() == Map::<(Seq<char>, u64), Query>::empty(),
    {
        VecCache { entries: Vec::new() }
    }

    /// Finds the position of the pair carrying the given key.
    fn find(&self, key: &QueryKey) -> (r: Option<usize>)
        ensures
            r matches Some(i) ==> i < self.entries@.len() && self.entries@[i as int].0@ == key@,
            r is None ==> forall|j: int|
                0 <= j < self.entries@.len() ==> self.entries@[j].0@ != key@,
    {
        let n = self.entries.len();
        let mut i: usize = 0;
        while i < n
            invariant
                n == self.entries@.len(),
                i <= n,
                forall|j: int| 0 <= j < i ==> self.entries@[j].0@ != key@,
            decreases n - i,
        {
            if self.entries[i].0 == *key {
                return Some(i);
            }
            i = i + 1;
        }
        None
    }
}

impl QueryCache for VecCache {
    closed spec fn view(&self) -> Map<(Seq<char>, u64), Query> {
        entries_map(self.entries@)
    }

    closed spec fn inv(&self) -> bool {
        distinct_keys(self.entries@)
    }

    fn empty() -> (r: Self) {
        VecCache::new()
    }

    fn get(&self, key: &QueryKey) -> (r: Option<&Query>) {
        match self.find(key) {
            Some(i) => {
                proof {
                    lemma_em_contains(self.entries@, key@);
                    lemma_em_index(self.entries@, i as int);
                }
                Some(&self.entries[i].1)
            },
            None => {
                proof {
                    lemma_em_contains(self.entries@, key@);
                }
                None
            },
        }
    }

    fn set(&mut self, key: QueryKey, entry: Query) {
        match self.find(&key) {
            Some(i) => {
                proof {
                    lemma_em_update(self.entries@, i as int, (key, entry));
                }
                self.entries.set(i, (key, entry));
            },
            None => {
                proof {
                    let s = self.entries@;
                    let t = s.push((key, entry));
                    assert(t.drop_last() =~= s);
                    assert forall|a: int, b: int|
                        #![trigger t[a], t[b]]
                        0 <= a < b < t.len() implies t[a].0@ != t[b].0@ by {
                        assert(t[a] == s[a]);
                        assert(t[b] == if b == s.len() { (key, entry) } else { s[b] });
                    }
                }
                self.entries.push((key, entry));
            },
        }
    }

    fn remove(&mut self, key: &QueryKey) -> (r: Option<Query>) {
        match self.find(key) {
            Some(i) => {
                proof {
                    lemma_em_contains(self.entries@, key@);
                    lemma_em_index(self.entries@, i as int);
                    lemma_em_remove(self.entries@, i as int);
                }
                let pair = self.entries.remove(i);
                Some(pair.1)
            },
            None => {
                proof {
                    lemma_em_contains(self.entries@, key@);
                    assert(entries_map(self.entries@).remove(key@) =~= entries_map(
                        self.entries@,
                    ));
                }
                None
            },
        }
    }

    fn has(&self, key: &QueryKey) -> (r: bool) {
        proof {
            lemma_em_contains(self.entries@, key@);
        }
        match self.find(key) {
            Some(i) => {
                proof {
                    lemma_em_index(self.entries@, i as int);
                }
                true
            },
            None => false,
        }
    }

    fn clear(&mut self) {
        self.entries.clear();
    }
}

} // verus!
