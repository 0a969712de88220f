//! A small map keyed by strings, kept as a vector of distinct keys.
//!
//! The server has to drop every entry whose value matches a condition;
//! vstd's `StringHashMap` has no way to visit its entries, and its
//! specification of `std::collections::HashMap` gives nothing for `String`
//! keys, so the map is kept as a vector whose view is a `Map`.
use vstd::prelude::*;
use vstd::string::*;

use crate::text::str_equal;

verus! {

/// Entries of the map in insertion order; no key occurs twice.
pub struct StrMap<V> {
    entries: Vec<(String, V)>,
}

/// No key occurs twice in `s`.
pub open spec fn keys_unique<V>(s: Seq<(String, V)>) -> bool {
    forall|i: int, j: int| 0 <= i < s.len() && 0 <= j < s.len() && i != j ==> s[i].0@ != s[j].0@
}

/// Some entry of `s` has key `k`.
pub open spec fn seq_has_key<V>(s: Seq<(String, V)>, k: Seq<char>) -> bool {
    exists|i: int| 0 <= i < s.len() && s[i].0@ == k
}

/// The map that a sequence of entries stands for.
pub open spec fn seq_view<V: View>(s: Seq<(String, V)>) -> Map<Seq<char>, V::V> {
    Map::new(
        |k: Seq<char>| seq_has_key(s, k),
        |k: Seq<char>| s[choose|i: int| 0 <= i < s.len() && s[i].0@ == k].1@,
    )
}

/// The entries of `m` whose values satisfy `keep`.
pub open spec fn map_retain<K, W>(m: Map<K, W>, keep: spec_fn(W) -> bool) -> Map<K, W> {
    Map::new(|k: K| m.contains_key(k) && keep(m[k]), |k: K| m[k])
}

/// With distinct keys, the entry at index `i` is what the map holds for its key.
pub proof fn lemma_seq_view_at<V: View>(s: Seq<(String, V)>, i: int)
    requires
        keys_unique(s),
        0 <= i < s.len(),
    ensures
        seq_view(s).contains_key(s[i].0@),
        seq_view(s)[s[i].0@] == s[i].1@,
{
    let k = s[i].0@;
    assert(seq_has_key(s, k));
    let j = choose|j: int| 0 <= j < s.len() && s[j].0@ == k;
    assert(j == i);
}

impl<V: View> View for StrMap<V> {
    type V = Map<Seq<char>, V::V>;

    closed spec fn view(&self) -> Map<Seq<char>, V::V> {
        seq_view(self.entries@)
    }
}

impl<V: View> StrMap<V> {
    /// Well-formedness: keys are distinct.
    pub closed spec fn wf(&self) -> bool {
        keys_unique(self.entries@)
    }

    /// The empty map.
    pub fn new() -> (r: Self)
        ensures
            r.wf(),
            r@ == Map::<Seq<char>, V::V>::empty(),
    {
        let r = StrMap { entries: Vec::new() };
        assert(r@ =~= Map::<Seq<char>, V::V>::empty());
        r
    }

    /// Index of the entry with key `k`, if any.
    fn find(&self, k: &str) -> (r: Option<usize>)
        requires
            self.wf(),
        ensures
            match r {
                Some(i) => i < self.entries@.len() && self.entries@[i as int].0@ == k@,
                None => !self@.contains_key(k@),
            },
    {
        let mut i: usize = 0;
        while i < self.entries.len()
            invariant
                i <= self.entries@.len(),
                forall|j: int| 0 <= j < i ==> self.entries@[j].0@ != k@,
            decreases self.entries@.len() - i,
        {
            if str_equal(self.entries[i].0.as_str(), k) {
                return Some(i);
            }
            i = i + 1;
        }
        None
    }

    /// Whether the map has key `k`.
    pub fn contains_key(&self, k: &str) -> (r: bool)
        requires
            self.wf(),
        ensures
            r == self@.contains_key(k@),
    {
        match self.find(k) {
            Some(i) => {
                proof {
                    lemma_seq_view_at(self.entries@, i as int);
                }
                true
            },
            None => false,
        }
    }

    /// The value under key `k`, if any.
    pub fn get(&self, k: &str) -> (r: Option<&V>)
        requires
            self.wf(),
        ensures
            match r {
                Some(v) => self@.contains_key(k@) && v@ == self@[k@],
                None => !self@.contains_key(k@),
            },
    {
        match self.find(k) {
            Some(i) => {
                proof {
                    lemma_seq_view_at(self.entries@, i as int);
                }
                Some(&self.entries[i].1)
            },
            None => None,
        }
    }

    /// Puts `v` under key `k`, replacing what was there.
    pub fn insert(&mut self, k: String, v: V)
        requires
            old(self).wf(),
        ensures
            final(self).wf(),
            final(self)@ == old(self)@.insert(k@, v@),
    {
        let ghost old_entries = self.entries@;
        let ghost key = k@;
        let ghost val = v@;
        match self.find(k.as_str()) {
            Some(i) => {
                self.entries.set(i, (k, v));
                proof {
                    let s = self.entries@;
                    assert(s == old_entries.update(i as int, s[i as int]));
                    assert(keys_unique(s));
                    assert forall|q: Seq<char>|
                        #![trigger seq_view(s).contains_key(q)]
                        seq_view(s).contains_key(q) == seq_view(old_entries).insert(key, val).contains_key(q)
                        && (seq_view(s).contains_key(q) ==> seq_view(s)[q] == seq_view(old_entries).insert(key, val)[q])
                    by {
                        if seq_has_key(s, q) {
                            let j = choose|j: int| 0 <= j < s.len() && s[j].0@ == q;
                            lemma_seq_view_at(s, j);
                            if j != i {
                                lemma_seq_view_at(old_entries, j);
                            }
                        }
                        if seq_has_key(old_entries, q) {
                            let j = choose|j: int| 0 <= j < old_entries.len() && old_entries[j].0@ == q;
                            assert(s[j].0@ == q);
                        }
                        lemma_seq_view_at(s, i as int);
                    }
                    assert(seq_view(s) =~= seq_view(old_entries).insert(key, val));
                }
            },
            None => {
                self.entries.push((k, v));
                proof {
                    let s = self.entries@;
                    let n = old_entries.len() as int;
                    assert(s == old_entries.push(s[n]));
                    assert forall|j: int| 0 <= j < n implies old_entries[j].0@ != key by {
                        assert(seq_has_key(old_entries, old_entries[j].0@));
                    }
                    assert(keys_unique(s));
                    assert forall|q: Seq<char>|
                        #![trigger seq_view(s).contains_key(q)]
                        seq_view(s).contains_key(q) == seq_view(old_entries).insert(key, val).contains_key(q)
                        && (seq_view(s).contains_key(q) ==> seq_view(s)[q] == seq_view(old_entries).insert(key, val)[q])
                    by {
                        if seq_has_key(s, q) {
                            let j = choose|j: int| 0 <= j < s.len() && s[j].0@ == q;
                            lemma_seq_view_at(s, j);
                            if j != n {
                                lemma_seq_view_at(old_entries, j);
                            }
                        }
                        if seq_has_key(old_entries, q) {
                            let j = choose|j: int| 0 <= j < old_entries.len() && old_entries[j].0@ == q;
                            assert(s[j].0@ == q);
                        }
                        lemma_seq_view_at(s, n);
                    }
                    assert(seq_view(s) =~= seq_view(old_entries).insert(key, val));
                }
            },
        }
    }

    /// Takes the entry with key `k` out of the map.
    pub fn remove(&mut self, k: &str) -> (r: Option<V>)
        requires
            old(self).wf(),
        ensures
            final(self).wf(),
            final(self)@ == old(self)@.remove(k@),
            match r {
                Some(v) => old(self)@.contains_key(k@) && v@ == old(self)@[k@],
                None => !old(self)@.contains_key(k@),
            },
    {
        let ghost old_entries = self.entries@;
        match self.find(k) {
            Some(i) => {
                proof {
                    lemma_seq_view_at(old_entries, i as int);
                }
                let e = self.entries.remove(i);
                proof {
                    let s = self.entries@;
                    assert(s == old_entries.remove(i as int));
                    assert(keys_unique(s));
                    assert forall|q: Seq<char>|
                        #![trigger seq_view(s).contains_key(q)]
                        seq_view(s).contains_key(q) == seq_view(old_entries).remove(k@).contains_key(q)
                        && (seq_view(s).contains_key(q) ==> seq_view(s)[q] == seq_view(old_entries).remove(k@)[q])
                    by {
                        if seq_has_key(s, q) {
                            let j = choose|j: int| 0 <= j < s.len() && s[j].0@ == q;
                            lemma_seq_view_at(s, j);
                            if j < i {
                                lemma_seq_view_at(old_entries, j);
                            } else {
                                lemma_seq_view_at(old_entries, j + 1);
                            }
                        }
                        if seq_has_key(old_entries, q) && q != k@ {
                            let j = choose|j: int| 0 <= j < old_entries.len() && old_entries[j].0@ == q;
                            if j < i {
                                assert(s[j].0@ == q);
                            } else {
                                assert(j != i);
                                assert(s[j - 1].0@ == q);
                            }
                        }
                    }
                    assert(seq_view(s) =~= seq_view(old_entries).remove(k@));
                }
                Some(e.1)
            },
            None => {
                assert(seq_view(old_entries).remove(k@) =~= seq_view(old_entries));
                None
            },
        }
    }

    /// Keeps the entries whose values `keep` accepts; `pred` is what `keep` computes.
    pub fn retain<F: Fn(&V) -> bool>(&mut self, keep: F, Ghost(pred): Ghost<spec_fn(V::V) -> bool>)
        requires
            old(self).wf(),
            forall|v: &V| #[trigger] keep.requires((v,)),
            forall|v: &V, b: bool| keep.ensures((v,), b) ==> b == pred(v@),
        ensures
            final(self).wf(),
            final(self)@ == map_retain(old(self)@, pred),
    {
        let ghost orig = self.entries@;
        let mut rest: Vec<(String, V)> = Vec::new();
        std::mem::swap(&mut rest, &mut self.entries);
        let mut kept: Vec<(String, V)> = Vec::new();
        let ghost mut src: Seq<int> = Seq::empty();
        while rest.len() > 0
            invariant
                keys_unique(orig),
                rest@ == orig.take(rest@.len() as int),
                rest@.len() <= orig.len(),
                keys_unique(kept@),
                src.len() == kept@.len(),
                forall|v: &V| #[trigger] keep.requires((v,)),
                forall|v: &V, b: bool| keep.ensures((v,), b) ==> b == pred(v@),
                forall|j: int|
                    0 <= j < kept@.len() ==> rest@.len() <= #[trigger] src[j] < orig.len()
                        && kept@[j] == orig[src[j]] && pred(orig[src[j]].1@),
                forall|t: int|
                    rest@.len() <= t < orig.len() && pred(#[trigger] orig[t].1@) ==> seq_has_key(
                        kept@,
                        orig[t].0@,
                    ),
            decreases rest@.len(),
        {
            let ghost m = (rest@.len() - 1) as int;
            let e = rest.pop().unwrap();
            assert(e == orig[m]);
            let b = keep(&e.1);
            if b {
                let ghost before = kept@;
                proof {
                    assert forall|j: int| 0 <= j < before.len() implies before[j].0@ != e.0@ by {
                        assert(src[j] != m);
                    }
                }
                kept.push(e);
                proof {
                    src = src.push(m);
                    assert(kept@[before.len() as int] == orig[m]);
                    assert forall|j: int| 0 <= j < kept@.len() implies rest@.len() <= #[trigger] src[j]
                        < orig.len() && kept@[j] == orig[src[j]] && pred(orig[src[j]].1@) by {
                        if j < before.len() {
                            assert(kept@[j] == before[j]);
                        }
                    }
                    assert forall|t: int|
                        rest@.len() <= t < orig.len() && pred(#[trigger] orig[t].1@) implies seq_has_key(
                        kept@,
                        orig[t].0@,
                    ) by {
                        if t == m {
                            assert(kept@[before.len() as int] == orig[t]);
                        } else {
                            let j = choose|j: int| 0 <= j < before.len() && before[j].0@ == orig[t].0@;
                            assert(kept@[j] == before[j]);
                        }
                    }
                }
            }
            proof {
                assert(rest@ =~= orig.take(rest@.len() as int));
            }
        }
        self.entries = kept;
        proof {
            let s = self.entries@;
            let om = seq_view(orig);
            assert forall|q: Seq<char>|
                #![trigger seq_view(s).contains_key(q)]
                seq_view(s).contains_key(q) == map_retain(om, pred).contains_key(q)
                && (seq_view(s).contains_key(q) ==> seq_view(s)[q] == map_retain(om, pred)[q])
            by {
                if seq_has_key(s, q) {
                    let j = choose|j: int| 0 <= j < s.len() && s[j].0@ == q;
                    lemma_seq_view_at(s, j);
                    lemma_seq_view_at(orig, src[j]);
                }
                if seq_has_key(orig, q) {
                    let t = choose|t: int| 0 <= t < orig.len() && orig[t].0@ == q;
                    lemma_seq_view_at(orig, t);
                    if pred(orig[t].1@) {
                        assert(seq_has_key(s, q));
                    }
                }
            }
            assert(seq_view(s) =~= map_retain(om, pred));
        }
    }
}

} // verus!
