//! A small map from text keys to values, kept as a list of entries with
//! distinct keys.

use vstd::prelude::*;
use crate::utils::text::str_equal;

verus! {

/// The entries of a table, keys taken by their characters.
pub open spec fn entry_views<V>(s: Seq<(String, V)>) -> Seq<(Seq<char>, V)> {
    s.map_values(|e: (String, V)| (e.0@, e.1))
}

/// The map an entry list stands for (a later entry overrides an earlier one).
pub open spec fn entries_map<V>(s: Seq<(Seq<char>, V)>) -> Map<Seq<char>, V>
    decreases s.len(),
{
    if s.len() == 0 {
        Map::empty()
    } else {
        entries_map(s.drop_last()).insert(s.last().0, s.last().1)
    }
}

/// No key occurs twice.
pub open spec fn keys_distinct<V>(s: Seq<(Seq<char>, V)>) -> bool {
    forall|i: int, j: int| 0 <= i < s.len() && 0 <= j < s.len() && i != j ==> #[trigger] s[i].0 != #[trigger] s[j].0
}

/// A key is in the map exactly when some entry carries it.
pub proof fn lemma_entries_map_dom<V>(s: Seq<(Seq<char>, V)>, k: Seq<char>)
    ensures
        entries_map(s).contains_key(k) <==> exists|j: int| 0 <= j < s.len() && #[trigger] s[j].0 == k,
    decreases s.len(),
{
    if s.len() > 0 {
        lemma_entries_map_dom(s.drop_last(), k);
        if exists|j: int| 0 <= j < s.len() && #[trigger] s[j].0 == k {
            let j = choose|j: int| 0 <= j < s.len() && #[trigger] s[j].0 == k;
            if j < s.len() - 1 {
                assert(s.drop_last()[j].0 == k);
            }
        }
        if exists|j: int| 0 <= j < s.drop_last().len() && #[trigger] s.drop_last()[j].0 == k {
            let j = choose|j: int| 0 <= j < s.drop_last().len() && #[trigger] s.drop_last()[j].0 == k;
            assert(s[j].0 == k);
        }
    }
}

/// With distinct keys, the map gives each entry's value under its key.
pub proof fn lemma_entries_map_value<V>(s: Seq<(Seq<char>, V)>, i: int)
    requires
        keys_distinct(s),
        0 <= i < s.len(),
    ensures
        entries_map(s).contains_key(s[i].0),
        entries_map(s)[s[i].0] == s[i].1,
    decreases s.len(),
{
    if i < s.len() - 1 {
        let t = s.drop_last();
        assert(t[i] == s[i]);
        assert(keys_distinct(t)) by {
            assert forall|a: int, b: int| 0 <= a < t.len() && 0 <= b < t.len() && a != b implies #[trigger] t[a].0 != #[trigger] t[b].0 by {
                assert(t[a] == s[a] && t[b] == s[b]);
            }
        }
        lemma_entries_map_value(t, i);
        assert(s[i].0 != s[s.len() - 1].0);
    }
}

/// Replacing the value of an existing entry replaces it in the map.
pub proof fn lemma_entries_map_update<V>(s: Seq<(Seq<char>, V)>, i: int, v: V)
    requires
        keys_distinct(s),
        0 <= i < s.len(),
    ensures
        keys_distinct(s.update(i, (s[i].0, v))),
        entries_map(s.update(i, (s[i].0, v))) == entries_map(s).insert(s[i].0, v),
    decreases s.len(),
{
    let k = s[i].0;
    let u = s.update(i, (k, v));
    assert forall|a: int, b: int| 0 <= a < u.len() && 0 <= b < u.len() && a != b implies #[trigger] u[a].0 != #[trigger] u[b].0 by {
        assert(u[a].0 == s[a].0 && u[b].0 == s[b].0);
    }
    if i == s.len() - 1 {
        assert(u.drop_last() =~= s.drop_last());
        assert(entries_map(u) =~= entries_map(s).insert(k, v));
    } else {
        let t = s.drop_last();
        assert(keys_distinct(t)) by {
            assert forall|a: int, b: int| 0 <= a < t.len() && 0 <= b < t.len() && a != b implies #[trigger] t[a].0 != #[trigger] t[b].0 by {
                assert(t[a] == s[a] && t[b] == s[b]);
            }
        }
        assert(t[i] == s[i]);
        lemma_entries_map_update(t, i, v);
        assert(u.drop_last() =~= t.update(i, (k, v)));
        assert(s.last().0 != k);
        assert(entries_map(u) =~= entries_map(s).insert(k, v));
    }
}

/// A table keyed by text.
pub struct TextTable<V> {
    entries: Vec<(String, V)>,
}

impl<V> View for TextTable<V> {
    type V = Map<Seq<char>, V>;

    closed spec fn view(&self) -> Map<Seq<char>, V> {
        entries_map(entry_views(self.entries@))
    }
}

impl<V: Copy> TextTable<V> {
    /// The table's well-formedness: keys are distinct.
    pub closed spec fn wf(&self) -> bool {
        keys_distinct(entry_views(self.entries@))
    }

    /// An empty table.
    pub fn new() -> (t: TextTable<V>)
        ensures
            t.wf(),
            t@ == Map::<Seq<char>, V>::empty(),
    {
        let t = TextTable { entries: Vec::new() };
        assert(entry_views(t.entries@) =~= Seq::<(Seq<char>, V)>::empty());
        t
    }

    /// The index of the entry with the given key, if any.
    fn position(&self, key: &str) -> (r: Option<usize>)
        requires
            self.wf(),
        ensures
            match r {
                Some(i) => i < self.entries@.len() && self.entries@[i as int].0@ == key@
                    && self@.contains_key(key@) && self@[key@] == self.entries@[i as int].1,
                None => !self@.contains_key(key@),
            },
    {
        let ghost ev = entry_views(self.entries@);
        let mut i: usize = 0;
        while i < self.entries.len()
            invariant
                ev == entry_views(self.entries@),
                keys_distinct(ev),
                0 <= i <= self.entries@.len(),
                forall|j: int| 0 <= j < i ==> #[trigger] ev[j].0 != key@,
            decreases self.entries.len() - i,
        {
            if str_equal(self.entries[i].0.as_str(), key) {
                proof {
                    lemma_entries_map_value(ev, i as int);
                }
                return Some(i);
            }
            i = i + 1;
        }
        proof {
            lemma_entries_map_dom(ev, key@);
        }
        None
    }

    /// The value stored under `key`, if any.
    pub fn get(&self, key: &str) -> (r: Option<V>)
        requires
            self.wf(),
        ensures
            match r {
                Some(v) => self@.contains_key(key@) && self@[key@] == v,
                None => !self@.contains_key(key@),
            },
    {
        match self.position(key) {
            Some(i) => Some(self.entries[i].1),
            None => None,
        }
    }

    /// Whether `key` is present.
    pub fn contains_key(&self, key: &str) -> (r: bool)
        requires
            self.wf(),
        ensures
            r == self@.contains_key(key@),
    {
        self.position(key).is_some()
    }

    /// Stores `value` under `key`, replacing any earlier value.
    pub fn insert(&mut self, key: &str, value: V)
        requires
            old(self).wf(),
        ensures
            final(self).wf(),
            final(self)@ == old(self)@.insert(key@, value),
    {
        let ghost ev = entry_views(self.entries@);
        match self.position(key) {
            Some(i) => {
                let k = self.entries[i].0.clone();
                self.entries.set(i, (k, value));
                proof {
                    lemma_entries_map_update(ev, i as int, value);
                    assert(entry_views(self.entries@) =~= ev.update(i as int, (ev[i as int].0, value)));
                }
            },
            None => {
                self.entries.push((key.to_owned(), value));
                proof {
                    lemma_entries_map_dom(ev, key@);
                    let nv = entry_views(self.entries@);
                    assert(nv =~= ev.push((key@, value)));
                    assert(nv.drop_last() =~= ev);
                    assert forall|a: int, b: int| 0 <= a < nv.len() && 0 <= b < nv.len() && a != b implies #[trigger] nv[a].0 != #[trigger] nv[b].0 by {
                        if a < ev.len() && b < ev.len() {
                            assert(nv[a] == ev[a] && nv[b] == ev[b]);
                        } else if a < ev.len() {
                            assert(nv[a] == ev[a]);
                        } else {
                            assert(nv[b] == ev[b]);
                        }
                    }
                }
            },
        }
    }
}


/// The entries of `m` whose value exceeds `bound`.
pub open spec fn entries_above(m: Map<Seq<char>, i64>, bound: i64) -> Map<Seq<char>, i64> {
    Map::new(|k: Seq<char>| m.contains_key(k) && m[k] > bound, |k: Seq<char>| m[k])
}

impl TextTable<i64> {
    /// Drops every entry whose value is at most `bound`.
    pub fn retain_above(&mut self, bound: i64)
        requires
            old(self).wf(),
        ensures
            final(self).wf(),
            final(self)@ == entries_above(old(self)@, bound),
    {
        let ghost ev = entry_views(self.entries@);
        let mut kept: Vec<(String, i64)> = Vec::new();
        let mut i: usize = 0;
        proof {
            assert(ev.take(0) =~= Seq::<(Seq<char>, i64)>::empty());
            assert(entry_views(kept@) =~= Seq::<(Seq<char>, i64)>::empty());
            assert(entries_map(entry_views(kept@)) =~= entries_above(entries_map(ev.take(0)), bound));
        }
        while i < self.entries.len()
            invariant
                ev == entry_views(self.entries@),
                keys_distinct(ev),
                0 <= i <= self.entries@.len(),
                keys_distinct(entry_views(kept@)),
                entries_map(entry_views(kept@)) == entries_above(entries_map(ev.take(i as int)), bound),
            decreases self.entries.len() - i,
        {
            let ghost before = entry_views(kept@);
            let ghost prefix = ev.take(i as int);
            let ghost k = ev[i as int].0;
            proof {
                assert(ev.take(i + 1).drop_last() =~= prefix);
                assert(ev.take(i + 1).last() == ev[i as int]);
                lemma_entries_map_dom(prefix, k);
                assert forall|j: int| 0 <= j < prefix.len() implies #[trigger] prefix[j].0 != k by {
                    assert(prefix[j] == ev[j]);
                }
                lemma_entries_map_dom(before, k);
            }
            if self.entries[i].1 > bound {
                let key = self.entries[i].0.clone();
                kept.push((key, self.entries[i].1));
                proof {
                    let after = entry_views(kept@);
                    assert(after =~= before.push(ev[i as int]));
                    assert(after.drop_last() =~= before);
                    assert forall|a: int, b: int| 0 <= a < after.len() && 0 <= b < after.len() && a != b implies #[trigger] after[a].0 != #[trigger] after[b].0 by {
                        if a < before.len() && b < before.len() {
                            assert(after[a] == before[a] && after[b] == before[b]);
                        } else if a < before.len() {
                            assert(after[a] == before[a]);
                            if before[a].0 == k {
                                assert(entries_map(before).contains_key(k));
                            }
                        } else {
                            assert(after[b] == before[b]);
                            if before[b].0 == k {
                                assert(entries_map(before).contains_key(k));
                            }
                        }
                    }
                    assert(entries_map(after) =~= entries_above(entries_map(ev.take(i + 1)), bound));
                }
            } else {
                proof {
                    assert(entries_map(before) =~= entries_above(entries_map(ev.take(i + 1)), bound));
                }
            }
            i = i + 1;
        }
        proof {
            assert(ev.take(i as int) =~= ev);
        }
        self.entries = kept;
    }
}

} // verus!
