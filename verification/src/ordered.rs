//! Strings in their natural order, and a map keyed by strings that keeps its
//! entries in that order.

use vstd::prelude::*;

verus! {

/// Lexicographic order of character sequences by code point, the order of
/// `str`.
pub open spec fn seq_lt(a: Seq<char>, b: Seq<char>) -> bool
    decreases a.len(),
{
    if a.len() == 0 {
        b.len() > 0
    } else if b.len() == 0 {
        false
    } else if a[0] < b[0] {
        true
    } else if a[0] == b[0] {
        seq_lt(a.drop_first(), b.drop_first())
    } else {
        false
    }
}

/// `seq_lt` never relates a sequence to itself.
pub proof fn lemma_lt_irreflexive(a: Seq<char>)
    ensures
        !seq_lt(a, a),
    decreases a.len(),
{
    if a.len() > 0 {
        lemma_lt_irreflexive(a.drop_first());
    }
}

/// `seq_lt` is transitive.
pub proof fn lemma_lt_transitive(a: Seq<char>, b: Seq<char>, c: Seq<char>)
    requires
        seq_lt(a, b),
        seq_lt(b, c),
    ensures
        seq_lt(a, c),
    decreases a.len(),
{
    if a.len() > 0 && b.len() > 0 && c.len() > 0 && a[0] == b[0] && b[0] == c[0] {
        lemma_lt_transitive(a.drop_first(), b.drop_first(), c.drop_first());
    }
}

/// Any two sequences are equal or related one way by `seq_lt`.
pub proof fn lemma_lt_total(a: Seq<char>, b: Seq<char>)
    ensures
        a == b || seq_lt(a, b) || seq_lt(b, a),
    decreases a.len(),
{
    if a.len() > 0 && b.len() > 0 && a[0] == b[0] {
        lemma_lt_total(a.drop_first(), b.drop_first());
        if a.drop_first() == b.drop_first() {
            assert(a =~= seq![a[0]] + a.drop_first());
            assert(b =~= seq![b[0]] + b.drop_first());
        }
    } else if a.len() > 0 && b.len() > 0 {
    } else if a.len() == 0 && b.len() == 0 {
        assert(a =~= b);
    }
}

/// Decides `seq_lt`.
pub fn chars_lt(a: &[char], b: &[char]) -> (r: bool)
    ensures
        r == seq_lt(a@, b@),
{
    let mut i: usize = 0;
    assert(a@.skip(0) =~= a@ && b@.skip(0) =~= b@);
    while i < a.len() && i < b.len() && a[i] == b[i]
        invariant
            i <= a.len(),
            i <= b.len(),
            seq_lt(a@, b@) == seq_lt(a@.skip(i as int), b@.skip(i as int)),
        decreases a.len() - i,
    {
        assert(a@.skip(i as int).drop_first() =~= a@.skip(i + 1));
        assert(b@.skip(i as int).drop_first() =~= b@.skip(i + 1));
        i = i + 1;
    }
    if i == a.len() {
        i < b.len()
    } else if i == b.len() {
        false
    } else {
        a[i] < b[i]
    }
}

/// Whether a list of keys is strictly increasing.
pub open spec fn strictly_sorted(keys: Seq<Seq<char>>) -> bool {
    forall|i: int, j: int| 0 <= i < j < keys.len() ==> seq_lt(#[trigger] keys[i], #[trigger] keys[j])
}

/// The keys of a list of entries.
pub open spec fn entry_keys<V>(entries: Seq<(String, V)>) -> Seq<Seq<char>> {
    entries.map_values(|e: (String, V)| e.0@)
}

/// A map from strings to values, its entries kept in key order.
#[derive(Debug)]
pub struct StrMap<V> {
    entries: Vec<(String, V)>,
}

proof fn lemma_sorted_unique(keys: Seq<Seq<char>>, i: int, j: int)
    requires
        strictly_sorted(keys),
        0 <= i < keys.len(),
        0 <= j < keys.len(),
        keys[i] == keys[j],
    ensures
        i == j,
{
    if i < j {
        lemma_lt_irreflexive(keys[i]);
    } else if j < i {
        lemma_lt_irreflexive(keys[i]);
    }
}

impl<V> StrMap<V> {
    /// The keys are strictly increasing.
    #[verifier::type_invariant]
    pub closed spec fn well_ordered(&self) -> bool {
        strictly_sorted(entry_keys(self.entries@))
    }

    /// The keys, in increasing order.
    pub closed spec fn keys(&self) -> Seq<Seq<char>> {
        entry_keys(self.entries@)
    }

    /// The values, in the order of their keys.
    pub closed spec fn values(&self) -> Seq<V> {
        self.entries@.map_values(|e: (String, V)| e.1)
    }

    /// The map the entries make up.
    pub closed spec fn view(&self) -> Map<Seq<char>, V> {
        Map::new(
            |k: Seq<char>| self.keys().contains(k),
            |k: Seq<char>| self.values()[self.keys().index_of(k)],
        )
    }

    /// The keys are strictly increasing, the map's domain is exactly the
    /// keys, and each key maps to the value at its position.
    pub proof fn lemma_layout(&self)
        requires
            self.well_ordered(),
        ensures
            strictly_sorted(self.keys()),
            self.keys().len() == self.values().len(),
            forall|k: Seq<char>| #[trigger] self.view().contains_key(k) <==> self.keys().contains(k),
            forall|i: int| 0 <= i < self.keys().len() ==> #[trigger] self.view()[self.keys()[i]] == self.values()[i],
    {
        assert forall|i: int| 0 <= i < self.keys().len() implies #[trigger] self.view()[self.keys()[i]] == self.values()[i] by {
            let k = self.keys()[i];
            assert(self.keys().contains(k));
            let j = self.keys().index_of(k);
            lemma_sorted_unique(self.keys(), i, j);
        }
    }

    /// An empty map.
    pub fn new() -> (m: StrMap<V>)
        ensures
            m.view() == Map::<Seq<char>, V>::empty(),
            m.keys().len() == 0,
    {
        let m = StrMap { entries: Vec::new() };
        assert(m.view() =~= Map::<Seq<char>, V>::empty());
        m
    }

    /// The number of entries.
    pub fn len(&self) -> (n: usize)
        ensures
            n == self.keys().len(),
            n == self.values().len(),
    {
        self.entries.len()
    }

    /// The position of `key` among the keys, or where it would go.
    fn locate(&self, key: &[char]) -> (r: (usize, bool))
        ensures
            r.0 <= self.keys().len(),
            r.1 ==> r.0 < self.keys().len() && self.keys()[r.0 as int] == key@,
            !r.1 ==> (forall|i: int| 0 <= i < r.0 ==> seq_lt(#[trigger] self.keys()[i], key@))
                && (forall|i: int| r.0 <= i < self.keys().len() ==> seq_lt(key@, #[trigger] self.keys()[i])),
    {
        proof {
            use_type_invariant(&*self);
        }
        let mut i: usize = 0;
        while i < self.entries.len()
            invariant
                i <= self.entries.len(),
                strictly_sorted(self.keys()),
                self.keys().len() == self.entries@.len(),
                forall|j: int| 0 <= j < i ==> seq_lt(#[trigger] self.keys()[j], key@),
            decreases self.entries.len() - i,
        {
            let k = crate::text::chars_of(self.entries[i].0.as_str());
            assert(k@ == self.keys()[i as int]);
            if !chars_lt(&k, key) {
                proof {
                    lemma_lt_total(k@, key@);
                }
                if chars_lt(key, &k) {
                    assert forall|j: int| i <= j < self.keys().len() implies seq_lt(key@, #[trigger] self.keys()[j]) by {
                        if j > i {
                            lemma_lt_transitive(key@, k@, self.keys()[j]);
                        }
                    }
                    return (i, false);
                }
                return (i, true);
            }
            i = i + 1;
        }
        (i, false)
    }

    /// The value of `key`, if present.
    pub fn get(&self, key: &str) -> (r: Option<&V>)
        ensures
            match r {
                Some(v) => self.view().contains_key(key@) && self.view()[key@] == *v,
                None => !self.view().contains_key(key@),
            },
    {
        proof {
            use_type_invariant(&*self);
            self.lemma_layout();
        }
        let (i, found) = self.locate(&crate::text::chars_of(key));
        if found {
            assert(self.keys()[i as int] == key@);
            Some(&self.entries[i].1)
        } else {
            assert(!self.keys().contains(key@)) by {
                if self.keys().contains(key@) {
                    let j = self.keys().index_of(key@);
                    if j < i {
                        lemma_lt_irreflexive(key@);
                    } else {
                        lemma_lt_irreflexive(key@);
                    }
                }
            }
            None
        }
    }

    /// Sets `key` to `value`, replacing any earlier value; the old value is
    /// returned.
    pub fn insert(&mut self, key: String, value: V) -> (prev: Option<V>)
        ensures
            final(self).view() == old(self).view().insert(key@, value),
            match prev {
                Some(v) => old(self).view().contains_key(key@) && old(self).view()[key@] == v,
                None => !old(self).view().contains_key(key@),
            },
    {
        proof {
            use_type_invariant(&*self);
            self.lemma_layout();
        }
        let ghost old_map = self.view();
        let ghost old_keys = self.keys();
        let ghost old_vals = self.values();
        let kc = crate::text::chars_of(key.as_str());
        let (i, found) = self.locate(&kc);
        let mut entries: Vec<(String, V)> = Vec::new();
        std::mem::swap(&mut entries, &mut self.entries);
        assert(entry_keys(entries@) == old_keys);
        assert(entries@.map_values(|e: (String, V)| e.1) == old_vals);
        let prev;
        if found {
            let (k0, v0) = entries.remove(i);
            assert(v0 == old_vals[i as int]);
            assert(old_keys[i as int] == key@);
            assert(old_map.contains_key(key@) && old_map[key@] == v0);
            entries.insert(i, (key, value));
            prev = Some(v0);
            proof {
                assert(entry_keys(entries@) =~= old_keys.update(i as int, kc@));
                assert(old_keys.update(i as int, kc@) =~= old_keys);
            }
        } else {
            assert(!old_keys.contains(kc@)) by {
                if old_keys.contains(kc@) {
                    lemma_lt_irreflexive(kc@);
                }
            }
            entries.insert(i, (key, value));
            prev = None;
            proof {
                assert(entry_keys(entries@) =~= old_keys.insert(i as int, kc@));
                assert forall|a: int, b: int| 0 <= a < b < entry_keys(entries@).len()
                    implies seq_lt(#[trigger] entry_keys(entries@)[a], #[trigger] entry_keys(entries@)[b]) by {
                    let ks = entry_keys(entries@);
                    if b < i {
                    } else if a == i as int {
                        assert(ks[b] == old_keys[b - 1]);
                    } else if b == i as int {
                        assert(ks[a] == old_keys[a]);
                    } else if a < i {
                        assert(ks[b] == old_keys[b - 1]);
                        assert(ks[a] == old_keys[a]);
                    } else {
                        assert(ks[b] == old_keys[b - 1]);
                        assert(ks[a] == old_keys[a - 1]);
                    }
                }
            }
        }
        self.entries = entries;
        proof {
            use_type_invariant(&*self);
            self.lemma_layout();
            let ks = self.keys();
            let vs = self.values();
            if found {
                assert(vs =~= old_vals.update(i as int, value));
            } else {
                assert(vs =~= old_vals.insert(i as int, value));
            }
            assert forall|k: Seq<char>| #[trigger] self.view().contains_key(k)
                == old_map.insert(key@, value).contains_key(k) by {
                if k != key@ && old_keys.contains(k) {
                    let j = old_keys.index_of(k);
                    if found || j < i {
                        assert(ks[j] == k);
                    } else {
                        assert(ks[j + 1] == k);
                    }
                }
                if k != key@ && ks.contains(k) {
                    let j = ks.index_of(k);
                    if found || j < i {
                        assert(old_keys[j] == k);
                    } else {
                        assert(old_keys[j - 1] == k);
                    }
                }
                if k == key@ {
                    assert(ks[i as int] == k);
                }
            }
            assert forall|k: Seq<char>| #[trigger] self.view().contains_key(k)
                implies self.view()[k] == old_map.insert(key@, value)[k] by {
                let j = ks.index_of(k);
                assert(self.view()[ks[j]] == vs[j]);
                if k == key@ {
                    lemma_sorted_unique(ks, j, i as int);
                } else {
                    if found || j < i {
                        assert(old_keys[j] == k);
                        assert(old_map[old_keys[j]] == old_vals[j]);
                    } else {
                        assert(old_keys[j - 1] == k);
                        assert(old_map[old_keys[j - 1]] == old_vals[j - 1]);
                    }
                }
            }
            assert(self.view() =~= old_map.insert(key@, value));
            if found {
                assert(prev matches Some(v) && old_map.contains_key(key@) && old_map[key@] == v);
            }
        }
        prev
    }

    /// Applies `f` to the value of `key`, if present (`get_mut`).
    pub fn get_index(&self, key: &str) -> (r: Option<usize>)
        ensures
            match r {
                Some(i) => i < self.keys().len() && self.keys()[i as int] == key@,
                None => !self.view().contains_key(key@),
            },
    {
        proof {
            use_type_invariant(&*self);
            self.lemma_layout();
        }
        let (i, found) = self.locate(&crate::text::chars_of(key));
        if found {
            Some(i)
        } else {
            assert(!self.keys().contains(key@)) by {
                if self.keys().contains(key@) {
                    lemma_lt_irreflexive(key@);
                }
            }
            None
        }
    }

    /// The value at position `i` in key order.
    pub fn value_at(&self, i: usize) -> (v: &V)
        requires
            i < self.keys().len(),
        ensures
            *v == self.values()[i as int],
    {
        proof {
            use_type_invariant(&*self);
            self.lemma_layout();
        }
        &self.entries[i].1
    }

    /// Replaces the value at position `i` in key order, returning the old one.
    pub fn set_value_at(&mut self, i: usize, value: V) -> (prev: V)
        requires
            i < old(self).keys().len(),
        ensures
            final(self).keys() == old(self).keys(),
            final(self).values() == old(self).values().update(i as int, value),
            prev == old(self).values()[i as int],
            final(self).view() == old(self).view().insert(old(self).keys()[i as int], value),
    {
        proof {
            use_type_invariant(&*self);
            self.lemma_layout();
        }
        let ghost old_map = self.view();
        let ghost old_keys = self.keys();
        let ghost old_vals = self.values();
        let mut entries: Vec<(String, V)> = Vec::new();
        std::mem::swap(&mut entries, &mut self.entries);
        let (k, v0) = entries.remove(i);
        entries.insert(i, (k, value));
        assert(entry_keys(entries@) =~= old_keys);
        self.entries = entries;
        proof {
            use_type_invariant(&*self);
            self.lemma_layout();
            assert(self.values() =~= old_vals.update(i as int, value));
            let key = old_keys[i as int];
            assert forall|k: Seq<char>| #[trigger] self.view().contains_key(k)
                implies self.view()[k] == old_map.insert(key, value)[k] by {
                let j = self.keys().index_of(k);
                assert(self.view()[self.keys()[j]] == self.values()[j]);
                if j != i {
                    assert(old_map[old_keys[j]] == old_vals[j]);
                    if k == key {
                        lemma_sorted_unique(old_keys, i as int, j);
                    }
                }
            }
            assert(self.view() =~= old_map.insert(key, value));
        }
        v0
    }
}

impl<V: Clone> Clone for StrMap<V> {
    /// A copy with the same keys, each value cloned.
    fn clone(&self) -> (r: Self)
        ensures
            r.keys() == self.keys(),
            forall|i: int| 0 <= i < r.values().len() ==> cloned(self.values()[i], #[trigger] r.values()[i]),
    {
        proof {
            use_type_invariant(self);
        }
        let mut entries: Vec<(String, V)> = Vec::new();
        let mut i: usize = 0;
        while i < self.entries.len()
            invariant
                i <= self.entries.len(),
                strictly_sorted(entry_keys(self.entries@)),
                entry_keys(entries@) == entry_keys(self.entries@).subrange(0, i as int),
                entries@.len() == i,
                forall|j: int| 0 <= j < i ==> cloned(self.entries@[j].1, #[trigger] entries@[j].1),
            decreases self.entries.len() - i,
        {
            let key = self.entries[i].0.clone();
            let value = self.entries[i].1.clone();
            let ghost before = entries@;
            entries.push((key, value));
            assert(entry_keys(entries@) =~= entry_keys(self.entries@).subrange(0, i + 1));
            i = i + 1;
        }
        assert(entry_keys(self.entries@).subrange(0, i as int) =~= entry_keys(self.entries@));
        StrMap { entries }
    }
}

} // verus!
