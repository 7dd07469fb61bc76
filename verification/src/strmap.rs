//! A map keyed by strings that keeps its entries in insertion order.
//!
//! Entries are modelled as a sequence of `(key, value)` pairs. Lookups find
//! the last entry with the key; inserting a present key replaces that entry's
//! value in place, and inserting a new key appends an entry.
use vstd::prelude::*;
use vstd::string::*;

verus! {

/// The position of the last entry of `s` whose key is `k`.
pub open spec fn key_position<V>(s: Seq<(Seq<char>, V)>, k: Seq<char>) -> Option<nat>
    decreases s.len(),
{
    if s.len() == 0 {
        None
    } else if s.last().0 == k {
        Some((s.len() - 1) as nat)
    } else {
        key_position(s.drop_last(), k)
    }
}

/// The value of the last entry of `s` whose key is `k`.
pub open spec fn entry_lookup<V>(s: Seq<(Seq<char>, V)>, k: Seq<char>) -> Option<V> {
    match key_position(s, k) {
        Some(i) => Some(s[i as int].1),
        None => None,
    }
}

/// Whether some entry of `s` has the key `k`.
pub open spec fn has_key<V>(s: Seq<(Seq<char>, V)>, k: Seq<char>) -> bool {
    exists|i: int| 0 <= i < s.len() && #[trigger] s[i].0 == k
}

/// No two entries of `s` share a key.
pub open spec fn keys_distinct<V>(s: Seq<(Seq<char>, V)>) -> bool {
    forall|i: int, j: int| 0 <= i < s.len() && 0 <= j < s.len() && i != j ==> #[trigger] s[i].0 != #[trigger] s[j].0
}

/// `s` after inserting `v` under `k`: the entry with key `k` gets the value
/// `v` in place, or a new entry is appended when there is none.
pub open spec fn seq_insert<V>(s: Seq<(Seq<char>, V)>, k: Seq<char>, v: V) -> Seq<(Seq<char>, V)> {
    match key_position(s, k) {
        Some(i) => s.update(i as int, (k, v)),
        None => s.push((k, v)),
    }
}

/// What `key_position` finds: the last entry with the key, or none at all.
pub proof fn lemma_key_position<V>(s: Seq<(Seq<char>, V)>, k: Seq<char>)
    ensures
        match key_position(s, k) {
            Some(i) => i < s.len() && s[i as int].0 == k && forall|j: int|
                i < j < s.len() ==> #[trigger] s[j].0 != k,
            None => forall|j: int| 0 <= j < s.len() ==> #[trigger] s[j].0 != k,
        },
        key_position(s, k) is Some <==> has_key(s, k),
    decreases s.len(),
{
    if s.len() > 0 {
        lemma_key_position(s.drop_last(), k);
        if s.last().0 != k {
            assert forall|j: int| 0 <= j < s.len() - 1 implies #[trigger] s[j].0 == s.drop_last()[j].0 by {}
        }
    }
    if has_key(s, k) {
        let i = choose|i: int| 0 <= i < s.len() && #[trigger] s[i].0 == k;
        assert(s[i].0 == k);
    }
}

/// Looking a key up after an insertion sees the inserted value under the
/// inserted key and the earlier value under every other key.
pub proof fn lemma_lookup_insert<V>(s: Seq<(Seq<char>, V)>, k: Seq<char>, v: V, k2: Seq<char>)
    ensures
        entry_lookup(seq_insert(s, k, v), k2) == if k2 == k {
            Some(v)
        } else {
            entry_lookup(s, k2)
        },
        has_key(seq_insert(s, k, v), k2) == (k2 == k || has_key(s, k2)),
{
    let t = seq_insert(s, k, v);
    lemma_key_position(s, k);
    lemma_key_position(s, k2);
    lemma_key_position(t, k2);
    assert forall|j: int| 0 <= j < s.len() implies #[trigger] t[j].0 == s[j].0 by {}
    match key_position(t, k2) {
        Some(i) => {
            if k2 != k {
                assert(i < s.len());
                assert(t[i as int] == s[i as int]);
                match key_position(s, k2) {
                    Some(i2) => {
                        assert(t[i2 as int].0 == k2);
                        assert(i2 == i);
                    },
                    None => {
                        assert(s[i as int].0 == k2);
                    },
                }
            } else {
                match key_position(s, k) {
                    Some(p) => {
                        assert(t[p as int].0 == k);
                        assert(p == i);
                    },
                    None => {
                        assert(t[t.len() - 1].0 == k);
                        assert(i == t.len() - 1);
                    },
                }
            }
        },
        None => {
            if k2 == k {
                match key_position(s, k) {
                    Some(p) => {
                        assert(t[p as int].0 == k);
                    },
                    None => {
                        assert(t[t.len() - 1].0 == k);
                    },
                }
            }
        },
    }
    if has_key(s, k2) {
        let j = choose|j: int| 0 <= j < s.len() && #[trigger] s[j].0 == k2;
        assert(t[j].0 == k2);
    }
    if k2 == k {
        match key_position(s, k) {
            Some(p) => {
                assert(t[p as int].0 == k);
            },
            None => {
                assert(t[t.len() - 1].0 == k);
            },
        }
    }
}

/// Insertion keeps keys distinct.
pub proof fn lemma_insert_distinct<V>(s: Seq<(Seq<char>, V)>, k: Seq<char>, v: V)
    requires
        keys_distinct(s),
    ensures
        keys_distinct(seq_insert(s, k, v)),
{
    lemma_key_position(s, k);
}

/// `s` after inserting each entry of `e`, in order.
pub open spec fn insert_all<V>(s: Seq<(Seq<char>, V)>, e: Seq<(Seq<char>, V)>) -> Seq<(Seq<char>, V)>
    decreases e.len(),
{
    if e.len() == 0 {
        s
    } else {
        seq_insert(insert_all(s, e.drop_last()), e.last().0, e.last().1)
    }
}

/// After inserting the entries of `e`, a key of `e` reads as in `e`, and any
/// other key reads as before.
pub proof fn lemma_lookup_insert_all<V>(s: Seq<(Seq<char>, V)>, e: Seq<(Seq<char>, V)>, k: Seq<char>)
    ensures
        entry_lookup(insert_all(s, e), k) == if has_key(e, k) {
            entry_lookup(e, k)
        } else {
            entry_lookup(s, k)
        },
        has_key(insert_all(s, e), k) == (has_key(e, k) || has_key(s, k)),
    decreases e.len(),
{
    if e.len() > 0 {
        let d = e.drop_last();
        lemma_lookup_insert_all(s, d, k);
        lemma_lookup_insert(insert_all(s, d), e.last().0, e.last().1, k);
        lemma_key_position(e, k);
        lemma_key_position(d, k);
        if e.last().0 != k {
            assert(has_key(e, k) == has_key(d, k)) by {
                if has_key(e, k) {
                    let j = choose|j: int| 0 <= j < e.len() && #[trigger] e[j].0 == k;
                    assert(d[j].0 == k);
                }
                if has_key(d, k) {
                    let j = choose|j: int| 0 <= j < d.len() && #[trigger] d[j].0 == k;
                    assert(e[j].0 == k);
                }
            }
        } else {
            assert(e[e.len() - 1].0 == k);
        }
    }
}

/// Keys are found at the same places once the values are mapped.
pub proof fn lemma_key_position_map<V, W>(s: Seq<(Seq<char>, V)>, f: spec_fn(V) -> W, k: Seq<char>)
    ensures
        key_position(s.map_values(|e: (Seq<char>, V)| (e.0, f(e.1))), k) == key_position(s, k),
    decreases s.len(),
{
    let t = s.map_values(|e: (Seq<char>, V)| (e.0, f(e.1)));
    if s.len() > 0 {
        lemma_key_position_map(s.drop_last(), f, k);
        assert(t.drop_last() =~= s.drop_last().map_values(|e: (Seq<char>, V)| (e.0, f(e.1))));
    }
}

/// Inserting and then mapping the values is mapping and then inserting.
pub proof fn lemma_insert_map<V, W>(s: Seq<(Seq<char>, V)>, f: spec_fn(V) -> W, k: Seq<char>, v: V)
    ensures
        seq_insert(s, k, v).map_values(|e: (Seq<char>, V)| (e.0, f(e.1))) == seq_insert(
            s.map_values(|e: (Seq<char>, V)| (e.0, f(e.1))),
            k,
            f(v),
        ),
{
    lemma_key_position_map(s, f, k);
    lemma_key_position(s, k);
    assert(seq_insert(s, k, v).map_values(|e: (Seq<char>, V)| (e.0, f(e.1))) =~= seq_insert(
        s.map_values(|e: (Seq<char>, V)| (e.0, f(e.1))),
        k,
        f(v),
    ));
}

/// A map from strings to values whose entries keep the order of insertion.
pub struct StrMap<V> {
    entries: Vec<(String, V)>,
}

impl<V> StrMap<V> {
    /// The entries, keys taken by their characters, in insertion order.
    pub closed spec fn view(&self) -> Seq<(Seq<char>, V)> {
        self.entries@.map_values(|e: (String, V)| (e.0@, e.1))
    }

    #[verifier::type_invariant]
    closed spec fn distinct_keys(&self) -> bool {
        keys_distinct(self@)
    }

    /// An empty map.
    pub fn new() -> (m: Self)
        ensures
            m@ == Seq::<(Seq<char>, V)>::empty(),
    {
        let m = StrMap { entries: Vec::new() };
        assert(m@ =~= Seq::<(Seq<char>, V)>::empty());
        m
    }

    /// The number of entries.
    pub fn len(&self) -> (n: usize)
        ensures
            n == self@.len(),
    {
        self.entries.len()
    }

    /// Whether the map has no entry.
    pub fn is_empty(&self) -> (b: bool)
        ensures
            b == (self@.len() == 0),
    {
        self.entries.len() == 0
    }

    fn position(&self, key: &String) -> (r: Option<usize>)
        ensures
            match r {
                Some(i) => key_position(self@, key@) == Some(i as nat) && i < self@.len(),
                None => key_position(self@, key@) is None,
            },
    {
        proof {
            lemma_key_position(self@, key@);
        }
        let mut i = self.entries.len();
        assert(self@.take(i as int) =~= self@);
        while i > 0
            invariant
                i <= self.entries@.len(),
                key_position(self@, key@) == key_position(self@.take(i as int), key@),
            decreases i,
        {
            assert(self@.take(i as int).drop_last() =~= self@.take(i - 1));
            if self.entries[i - 1].0 == *key {
                return Some(i - 1);
            }
            i = i - 1;
        }
        None
    }

    /// The value stored under `key`, if any.
    pub fn get(&self, key: &str) -> (r: Option<&V>)
        ensures
            match r {
                Some(v) => entry_lookup(self@, key@) == Some(*v),
                None => entry_lookup(self@, key@) is None,
            },
    {
        let k = String::from_str(key);
        match self.position(&k) {
            Some(i) => Some(&self.entries[i].1),
            None => None,
        }
    }

    /// Whether some entry has the key `key`.
    pub fn contains_key(&self, key: &str) -> (b: bool)
        ensures
            b == has_key(self@, key@),
    {
        proof {
            lemma_key_position(self@, key@);
        }
        let k = String::from_str(key);
        self.position(&k).is_some()
    }

    /// Stores `value` under `key`, replacing the value of an entry with that
    /// key in place, or appending a new entry.
    pub fn insert(&mut self, key: String, value: V)
        ensures
            final(self)@ == seq_insert(old(self)@, key@, value),
    {
        proof {
            use_type_invariant(&*self);
        }
        let pos = self.position(&key);
        let ghost old_view = self@;
        let mut entries: Vec<(String, V)> = Vec::new();
        std::mem::swap(&mut entries, &mut self.entries);
        let ghost k = key@;
        match pos {
            Some(i) => {
                assert(entries@.map_values(|e: (String, V)| (e.0@, e.1)) == old_view);
                entries.set(i, (key, value));
            },
            None => {
                entries.push((key, value));
            },
        }
        proof {
            lemma_insert_distinct(old_view, k, value);
            let new_view = entries@.map_values(|e: (String, V)| (e.0@, e.1));
            assert(new_view =~= seq_insert(old_view, k, value));
        }
        self.entries = entries;
    }

    /// The entries as stored, in insertion order.
    pub fn entries(&self) -> (r: &Vec<(String, V)>)
        ensures
            r@.map_values(|e: (String, V)| (e.0@, e.1)) == self@,
    {
        &self.entries
    }

    /// Gives up the map for its entries, in insertion order.
    pub fn into_entries(self) -> (r: Vec<(String, V)>)
        ensures
            r@.map_values(|e: (String, V)| (e.0@, e.1)) == self@,
    {
        self.entries
    }
}

} // verus!
