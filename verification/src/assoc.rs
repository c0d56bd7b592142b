//! A map keyed by strings, kept as a list of distinct-key pairs.

use vstd::prelude::*;
use crate::iam::engine::lemma_pairs_map_dom;
use crate::json::{distinct_keys, pairs_map};

verus! {

/// The value the last pair with a key gives it.
pub proof fn lemma_pairs_map_index<V>(s: Seq<(String, V)>, i: int)
    requires
        distinct_keys(s),
        0 <= i < s.len(),
    ensures
        pairs_map(s).dom().contains(s[i].0@),
        pairs_map(s)[s[i].0@] == s[i].1,
    decreases s.len(),
{
    if i < s.len() - 1 {
        let t = s.drop_last();
        assert(t[i] == s[i]);
        assert forall|a: int, b: int| 0 <= a < b < t.len() implies (#[trigger] t[a]).0@ != (#[trigger] t[b]).0@ by {
            assert(t[a] == s[a] && t[b] == s[b]);
        }
        lemma_pairs_map_index(t, i);
        assert(s[i].0@ != s[s.len() - 1].0@);
    }
}

/// Removing a pair from a list with distinct keys removes its key from the map.
pub proof fn lemma_pairs_map_remove<V>(s: Seq<(String, V)>, i: int)
    requires
        distinct_keys(s),
        0 <= i < s.len(),
    ensures
        distinct_keys(s.remove(i)),
        pairs_map(s.remove(i)) == pairs_map(s).remove(s[i].0@),
    decreases s.len(),
{
    let r = s.remove(i);
    assert forall|a: int, b: int| 0 <= a < b < r.len() implies (#[trigger] r[a]).0@ != (#[trigger] r[b]).0@ by {
        let a2 = if a < i { a } else { a + 1 };
        let b2 = if b < i { b } else { b + 1 };
        assert(r[a] == s[a2] && r[b] == s[b2]);
    }
    let t = s.drop_last();
    assert forall|a: int, b: int| 0 <= a < b < t.len() implies (#[trigger] t[a]).0@ != (#[trigger] t[b]).0@ by {
        assert(t[a] == s[a] && t[b] == s[b]);
    }
    let n = s.len() - 1;
    if i == n {
        assert(r =~= t);
        lemma_pairs_map_dom(t, s[i].0@);
        if pairs_map(t).dom().contains(s[i].0@) {
            let j = choose|j: int| 0 <= j < t.len() && (#[trigger] t[j]).0@ == s[i].0@;
            assert(t[j] == s[j]);
        }
        assert(pairs_map(r) =~= pairs_map(s).remove(s[i].0@));
    } else {
        lemma_pairs_map_remove(t, i);
        assert(r.drop_last() =~= t.remove(i));
        assert(r.last() == s.last());
        assert(s[i].0@ != s[n].0@);
        assert(t[i] == s[i]);
        assert(pairs_map(r) =~= pairs_map(s).remove(s[i].0@));
    }
}

/// A list of pairs with distinct keys denotes a finite map with one key per pair.
pub proof fn lemma_pairs_map_len<V>(s: Seq<(String, V)>)
    requires
        distinct_keys(s),
    ensures
        pairs_map(s).dom().finite(),
        pairs_map(s).dom().len() == s.len(),
    decreases s.len(),
{
    if s.len() > 0 {
        let t = s.drop_last();
        assert forall|a: int, b: int| 0 <= a < b < t.len() implies (#[trigger] t[a]).0@ != (#[trigger] t[b]).0@ by {
            assert(t[a] == s[a] && t[b] == s[b]);
        }
        lemma_pairs_map_len(t);
        lemma_pairs_map_dom(t, s.last().0@);
        if pairs_map(t).dom().contains(s.last().0@) {
            let j = choose|j: int| 0 <= j < t.len() && (#[trigger] t[j]).0@ == s.last().0@;
            assert(t[j] == s[j]);
        }
    }
}

/// A map keyed by strings.
#[derive(Debug)]
pub struct NamedMap<V> {
    entries: Vec<(String, V)>,
}

impl<V> NamedMap<V> {
    #[verifier::type_invariant]
    spec fn keys_distinct(self) -> bool {
        distinct_keys(self.entries@)
    }

    /// The map's contents.
    pub closed spec fn view(&self) -> Map<Seq<char>, V> {
        pairs_map(self.entries@)
    }

    /// The pairs, in the map's order.
    pub closed spec fn pairs(&self) -> Seq<(String, V)> {
        self.entries@
    }

    /// The number of keys.
    pub fn len(&self) -> (r: usize)
        ensures
            r == self.view().dom().len(),
            self.view().dom().finite(),
    {
        proof {
            use_type_invariant(self);
            lemma_pairs_map_len(self.entries@);
        }
        self.entries.len()
    }

    /// An empty map.
    pub fn new() -> (r: Self)
        ensures
            r.view() == Map::<Seq<char>, V>::empty(),
            r.pairs().len() == 0,
    {
        let r = NamedMap { entries: Vec::new() };
        assert(r.view() =~= Map::<Seq<char>, V>::empty());
        r
    }

    /// Where the pair with key `k` stands.
    fn find(&self, k: &str) -> (r: Option<usize>)
        ensures
            match r {
                Some(i) => i < self.entries@.len() && self.entries@[i as int].0@ == k@,
                None => forall|j: int| 0 <= j < self.entries@.len() ==> (#[trigger] self.entries@[j]).0@ != k@,
            },
    {
        self.find_in(&self.entries, k)
    }

    /// Where the pair with key `k` stands in a list of pairs.
    fn find_in(&self, entries: &Vec<(String, V)>, k: &str) -> (r: Option<usize>)
        ensures
            match r {
                Some(i) => i < entries@.len() && entries@[i as int].0@ == k@,
                None => forall|j: int| 0 <= j < entries@.len() ==> (#[trigger] entries@[j]).0@ != k@,
            },
    {
        let n = entries.len();
        let mut i: usize = 0;
        while i < n
            invariant
                n == entries@.len(),
                i <= n,
                forall|j: int| 0 <= j < i ==> (#[trigger] entries@[j]).0@ != k@,
            decreases n - i,
        {
            if crate::text::str_eq(entries[i].0.as_str(), k) {
                return Some(i);
            }
            i += 1;
        }
        None
    }

    /// The value of key `k`.
    pub fn get(&self, k: &str) -> (r: Option<&V>)
        ensures
            match r {
                Some(v) => self.view().dom().contains(k@) && *v == self.view()[k@],
                None => !self.view().dom().contains(k@),
            },
    {
        proof {
            use_type_invariant(self);
            lemma_pairs_map_dom(self.entries@, k@);
        }
        match self.find(k) {
            Some(i) => {
                proof {
                    lemma_pairs_map_index(self.entries@, i as int);
                }
                Some(&self.entries[i].1)
            },
            None => None,
        }
    }

    /// Whether the map has key `k`.
    pub fn contains_key(&self, k: &str) -> (r: bool)
        ensures
            r == self.view().dom().contains(k@),
    {
        proof {
            use_type_invariant(self);
            lemma_pairs_map_dom(self.entries@, k@);
        }
        self.find(k).is_some()
    }

    /// Sets key `k` to `v`, handing back its previous value.
    pub fn insert(&mut self, k: String, v: V) -> (r: Option<V>)
        ensures
            final(self).view() == old(self).view().insert(k@, v),
            match r {
                Some(p) => old(self).view().dom().contains(k@) && p == old(self).view()[k@],
                None => !old(self).view().dom().contains(k@),
            },
    {
        proof {
            use_type_invariant(&*self);
            lemma_pairs_map_dom(self.entries@, k@);
        }
        let ghost before = self.entries@;
        let mut entries: Vec<(String, V)> = Vec::new();
        std::mem::swap(&mut entries, &mut self.entries);
        assert(entries@ == before);
        let prev = match self.find_in(&entries, k.as_str()) {
            Some(i) => {
                proof {
                    lemma_pairs_map_index(before, i as int);
                    lemma_pairs_map_remove(before, i as int);
                }
                let (_, old_v) = entries.remove(i);
                Some(old_v)
            },
            None => None,
        };
        let ghost mid = entries@;
        proof {
            lemma_pairs_map_dom(mid, k@);
            assert(!pairs_map(mid).dom().contains(k@));
            assert forall|j: int| 0 <= j < mid.len() implies (#[trigger] mid[j]).0@ != k@ by {
                if mid[j].0@ == k@ {
                    assert(pairs_map(mid).dom().contains(k@));
                }
            }
        }
        entries.push((k, v));
        proof {
            let after = entries@;
            assert(after.drop_last() =~= mid);
            assert forall|a: int, b: int| 0 <= a < b < after.len() implies (#[trigger] after[a]).0@ != (#[trigger] after[b]).0@ by {
                if b == after.len() - 1 {
                    assert(after[a] == mid[a]);
                } else {
                    assert(after[a] == mid[a] && after[b] == mid[b]);
                }
            }
            assert(pairs_map(after) =~= pairs_map(before).insert(k@, v));
        }
        self.entries = entries;
        prev
    }

    /// Removes key `k`, handing back its value.
    pub fn remove(&mut self, k: &str) -> (r: Option<V>)
        ensures
            final(self).view() == old(self).view().remove(k@),
            match r {
                Some(p) => old(self).view().dom().contains(k@) && p == old(self).view()[k@],
                None => !old(self).view().dom().contains(k@),
            },
    {
        proof {
            use_type_invariant(&*self);
            lemma_pairs_map_dom(self.entries@, k@);
        }
        let ghost before = self.entries@;
        let mut entries: Vec<(String, V)> = Vec::new();
        std::mem::swap(&mut entries, &mut self.entries);
        let r = match self.find_in(&entries, k) {
            Some(i) => {
                proof {
                    lemma_pairs_map_index(before, i as int);
                    lemma_pairs_map_remove(before, i as int);
                }
                let (_, old_v) = entries.remove(i);
                Some(old_v)
            },
            None => {
                assert(pairs_map(before) =~= pairs_map(before).remove(k@));
                None
            },
        };
        self.entries = entries;
        r
    }

    /// The keys, in the map's order, each once.
    pub fn keys(&self) -> (r: Vec<String>)
        ensures
            r@.len() == self.pairs().len(),
            forall|i: int| 0 <= i < r@.len() ==> (#[trigger] r@[i]) == self.pairs()[i].0,
            forall|i: int, j: int| 0 <= i < j < r@.len() ==> (#[trigger] r@[i])@ != (#[trigger] r@[j])@,
            forall|i: int| 0 <= i < r@.len() ==> self.view().dom().contains((#[trigger] r@[i])@),
            forall|k: Seq<char>| #[trigger] self.view().dom().contains(k) ==> exists|i: int| 0 <= i < r@.len() && (#[trigger] r@[i])@ == k,
    {
        proof {
            use_type_invariant(self);
        }
        let mut out: Vec<String> = Vec::new();
        let n = self.entries.len();
        let mut i: usize = 0;
        while i < n
            invariant
                n == self.entries@.len(),
                i <= n,
                out@.len() == i,
                forall|j: int| 0 <= j < i ==> (#[trigger] out@[j]) == self.entries@[j].0,
            decreases n - i,
        {
            out.push(self.entries[i].0.clone());
            i += 1;
        }
        proof {
            assert forall|j: int| 0 <= j < out@.len() implies self.view().dom().contains((#[trigger] out@[j])@) by {
                lemma_pairs_map_index(self.entries@, j);
            }
            assert forall|k: Seq<char>| #[trigger] self.view().dom().contains(k) implies exists|j: int| 0 <= j < out@.len() && (#[trigger] out@[j])@ == k by {
                lemma_pairs_map_dom(self.entries@, k);
                let j = choose|j: int| 0 <= j < self.entries@.len() && (#[trigger] self.entries@[j]).0@ == k;
                assert(out@[j]@ == k);
            }
        }
        out
    }

    /// The pairs, in the map's order.
    pub fn entries(&self) -> (r: &Vec<(String, V)>)
        ensures
            r@ == self.pairs(),
            distinct_keys(r@),
            pairs_map(r@) == self.view(),
    {
        proof {
            use_type_invariant(self);
        }
        &self.entries
    }

    /// The pairs, in the map's order, taking the map apart.
    pub fn into_entries(self) -> (r: Vec<(String, V)>)
        ensures
            r@ == self.pairs(),
            distinct_keys(r@),
            pairs_map(r@) == self.view(),
    {
        proof {
            use_type_invariant(&self);
        }
        self.entries
    }
}

} // verus!
