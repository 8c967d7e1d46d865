//! A monotone map from type-identity keys to stored entries.
//!
//! Keys are type identities, represented as plain `u64` values; each key owns
//! at most one entry. The map offers no removal and no overwrite: once a key
//! holds a value, a later insertion attempt for the same key is a no-op that
//! discards the newly supplied value. [`committed`] and [`commit_result`] are
//! the mathematical statement of that discipline, and the proof functions at
//! the bottom of the module state the laws the stores built on it enjoy.

use vstd::prelude::*;

verus! {

/// One stored entry: a value tagged with the identity key of its owning type.
struct Entry<V> {
    key: u64,
    value: V,
}

/// The map a key's entry lands in after an insertion attempt: unchanged when
/// the key is already bound, extended by the new value otherwise.
pub open spec fn committed<V>(m: Map<u64, V>, key: u64, value: V) -> Map<u64, V> {
    if m.contains_key(key) {
        m
    } else {
        m.insert(key, value)
    }
}

/// The value an insertion attempt hands back: the entry that was already
/// bound to the key when there was one, the newly supplied value otherwise.
pub open spec fn commit_result<V>(m: Map<u64, V>, key: u64, value: V) -> V {
    if m.contains_key(key) {
        m[key]
    } else {
        value
    }
}

/// The map after a whole sequence of insertion attempts for one key, applied
/// in order, each bringing its own value.
pub open spec fn committed_all<V>(m: Map<u64, V>, key: u64, values: Seq<V>) -> Map<u64, V>
    decreases values.len(),
{
    if values.len() == 0 {
        m
    } else {
        committed_all(committed(m, key, values[0]), key, values.skip(1))
    }
}

/// What each of a sequence of insertion attempts for one key hands back, in
/// the order the attempts run.
pub open spec fn commit_results<V>(m: Map<u64, V>, key: u64, values: Seq<V>) -> Seq<V>
    decreases values.len(),
{
    if values.len() == 0 {
        Seq::empty()
    } else {
        seq![commit_result(m, key, values[0])] + commit_results(
            committed(m, key, values[0]),
            key,
            values.skip(1),
        )
    }
}

/// Idempotence of insertion: once a key holds an entry, a later insertion
/// attempt for the same key changes nothing and hands back that entry, no
/// matter what value it brings. Repeated `get_or_init` calls for one type
/// therefore all observe the instance the first call installed.
pub proof fn lemma_insertion_idempotent<V>(m: Map<u64, V>, key: u64, first: V, second: V)
    ensures
        committed(committed(m, key, first), key, second) == committed(m, key, first),
        commit_result(committed(m, key, first), key, second) == commit_result(m, key, first),
{
}

/// Per-type isolation: an insertion attempt for one key neither adds, removes
/// nor changes the entry of any other key.
pub proof fn lemma_per_key_isolation<V>(m: Map<u64, V>, key: u64, value: V, other: u64)
    requires
        other != key,
    ensures
        committed(m, key, value).contains_key(other) == m.contains_key(other),
        m.contains_key(other) ==> committed(m, key, value)[other] == m[other],
{
}

/// Insertion is monotone: an insertion attempt never removes an entry and
/// never changes what an already bound key holds — entries are only ever
/// added, and a second insertion attempt discards its value rather than
/// overwrite.
pub proof fn lemma_insertion_monotone<V>(m: Map<u64, V>, key: u64, value: V)
    ensures
        m.dom().subset_of(committed(m, key, value).dom()),
        forall|k: u64| #[trigger]
            m.contains_key(k) ==> committed(m, key, value)[k] == m[k],
{
}

/// First writer wins: when several insertion attempts race on one absent key,
/// each bringing a distinguishable value, the first attempt's value is the one
/// installed, and it is the one every attempt — winner and losers alike —
/// hands back. Exactly one value is ever observed; the others are discarded.
pub proof fn lemma_first_writer_wins<V>(m: Map<u64, V>, key: u64, values: Seq<V>)
    requires
        !m.contains_key(key),
        values.len() > 0,
    ensures
        committed_all(m, key, values) == committed(m, key, values[0]),
        committed_all(m, key, values)[key] == values[0],
        commit_results(m, key, values).len() == values.len(),
        forall|i: int|
            0 <= i < values.len() ==> commit_results(m, key, values)[i] == values[0],
{
    let after = committed(m, key, values[0]);
    lemma_absorbed_all(after, key, values.skip(1));
}

/// Once a key is bound, any further sequence of insertion attempts leaves the
/// map as it is, and every attempt hands back the bound entry.
proof fn lemma_absorbed_all<V>(m: Map<u64, V>, key: u64, values: Seq<V>)
    requires
        m.contains_key(key),
    ensures
        committed_all(m, key, values) == m,
        commit_results(m, key, values).len() == values.len(),
        forall|i: int| 0 <= i < values.len() ==> commit_results(m, key, values)[i] == m[key],
    decreases values.len(),
{
    if values.len() > 0 {
        lemma_absorbed_all(m, key, values.skip(1));
    }
}

/// Reentrant initialization does not wedge the map and installs exactly one
/// instance: when an initializer for an absent key itself completes an
/// insertion for that key, the outer attempt discards its own value and hands
/// back the instance the inner insertion installed.
pub proof fn lemma_reentrant_insertion<V>(m: Map<u64, V>, key: u64, inner: V, outer: V)
    requires
        !m.contains_key(key),
    ensures
        committed(committed(m, key, inner), key, outer) == committed(m, key, inner),
        commit_result(committed(m, key, inner), key, outer) == inner,
{
}

spec fn keys_distinct<V>(s: Seq<Entry<V>>) -> bool {
    forall|i: int, j: int| 0 <= i < j < s.len() ==> s[i].key != s[j].key
}

spec fn m_of<V>(s: Seq<Entry<V>>) -> Map<u64, V>
    decreases s.len(),
{
    if s.len() == 0 {
        Map::empty()
    } else {
        m_of(s.drop_last()).insert(s.last().key, s.last().value)
    }
}

proof fn lemma_m_of_domain<V>(s: Seq<Entry<V>>, key: u64)
    ensures
        m_of(s).contains_key(key) <==> exists|i: int| 0 <= i < s.len() && s[i].key == key,
    decreases s.len(),
{
    if s.len() > 0 {
        lemma_m_of_domain(s.drop_last(), key);
        assert(forall|i: int| 0 <= i < s.len() - 1 ==> s.drop_last()[i] == s[i]);
        if s.last().key == key {
            assert(s[s.len() - 1].key == key);
        }
    }
}

proof fn lemma_m_of_get<V>(s: Seq<Entry<V>>, i: int)
    requires
        keys_distinct(s),
        0 <= i < s.len(),
    ensures
        m_of(s).contains_key(s[i].key),
        m_of(s)[s[i].key] == s[i].value,
    decreases s.len(),
{
    if i < s.len() - 1 {
        assert(keys_distinct(s.drop_last())) by {
            assert(forall|p: int| 0 <= p < s.len() - 1 ==> s.drop_last()[p] == s[p]);
        }
        lemma_m_of_get(s.drop_last(), i);
        assert(s[i].key != s.last().key);
    }
}

/// A heterogeneous container in the small: a map keyed by type identity,
/// holding at most one entry per key, where entries are only ever added and
/// never removed, moved or replaced.
pub struct TypeKeyedMap<V> {
    entries: Vec<Entry<V>>,
}

impl<V> TypeKeyedMap<V> {
    /// Well-formedness: no key is bound twice. Constructors establish it and
    /// every method preserves it.
    pub closed spec fn wf(&self) -> bool {
        keys_distinct(self.entries@)
    }

    /// The mathematical content of the map: which key is bound to which value.
    pub closed spec fn view(&self) -> Map<u64, V> {
        m_of(self.entries@)
    }

    /// An empty map, with no key bound.
    pub fn new() -> (r: Self)
        ensures
            r.wf(),
            r@ == Map::<u64, V>::empty(),
    {
        TypeKeyedMap { entries: Vec::new() }
    }

    fn find(&self, key: u64) -> (r: Option<usize>)
        requires
            self.wf(),
        ensures
            match r {
                Some(i) => {
                    &&& self@.contains_key(key)
                    &&& i < self.entries@.len()
                    &&& self.entries@[i as int].key == key
                    &&& self.entries@[i as int].value == self@[key]
                },
                None => !self@.contains_key(key),
            },
    {
        let n = self.entries.len();
        let mut i: usize = 0;
        while i < n
            invariant
                n == self.entries@.len(),
                i <= n,
                keys_distinct(self.entries@),
                forall|j: int| 0 <= j < i ==> self.entries@[j].key != key,
            decreases n - i,
        {
            if self.entries[i].key == key {
                proof {
                    lemma_m_of_get(self.entries@, i as int);
                }
                return Some(i);
            }
            i += 1;
        }
        proof {
            lemma_m_of_domain(self.entries@, key);
        }
        None
    }

    /// Whether the map already holds an entry for the given key.
    pub fn contains(&self, key: u64) -> (b: bool)
        requires
            self.wf(),
        ensures
            b == self@.contains_key(key),
    {
        self.find(key).is_some()
    }

    /// The entry bound to the given key, when there is one.
    pub fn get(&self, key: u64) -> (r: Option<&V>)
        requires
            self.wf(),
        ensures
            match r {
                Some(v) => self@.contains_key(key) && *v == self@[key],
                None => !self@.contains_key(key),
            },
    {
        match self.find(key) {
            Some(i) => Some(&self.entries[i].value),
            None => None,
        }
    }

    /// Insert a value for a key unless the key is already bound, and hand back
    /// the entry the key holds afterwards. When the key was already bound the
    /// supplied value is discarded, never an overwrite: insertion is
    /// idempotent, which is what makes it safe to attempt redundantly.
    pub fn insert_if_absent(&mut self, key: u64, value: V) -> (r: &V)
        requires
            old(self).wf(),
        ensures
            final(self).wf(),
            final(self)@ == committed(old(self)@, key, value),
            *r == commit_result(old(self)@, key, value),
            final(self)@.contains_key(key),
            *r == final(self)@[key],
    {
        match self.find(key) {
            Some(i) => &self.entries[i].value,
            None => {
                let n = self.entries.len();
                self.entries.push(Entry { key, value });
                proof {
                    lemma_m_of_domain(old(self).entries@, key);
                    assert(self.entries@.drop_last() =~= old(self).entries@);
                    assert(keys_distinct(self.entries@)) by {
                        assert(forall|i: int, j: int|
                            0 <= i < j < self.entries@.len() && j < n ==> self.entries@[i].key
                                != self.entries@[j].key);
                        assert(forall|i: int| 0 <= i < n ==> self.entries@[i].key != key);
                    }
                    assert(self@ =~= committed(old(self)@, key, value));
                }
                &self.entries[n].value
            },
        }
    }

    /// The store algorithm in the small, for one key of this map: hand back
    /// the entry the key holds, running the initializer and installing its
    /// result first when the key is absent. The initializer runs exactly on
    /// the miss path, never on a hit, and what it produced is exactly what
    /// the key holds afterwards. Every later call for the same key is a hit
    /// and observes the entry the first call installed, whatever initializer
    /// it brings.
    pub fn get_or_init<F: FnOnce() -> V>(&mut self, key: u64, init: F) -> (r: &V)
        requires
            old(self).wf(),
            call_requires(init, ()),
        ensures
            final(self).wf(),
            old(self)@.contains_key(key) ==> {
                &&& final(self)@ == old(self)@
                &&& *r == old(self)@[key]
            },
            !old(self)@.contains_key(key) ==> exists|v: V|
                {
                    &&& #[trigger] call_ensures(init, (), v)
                    &&& final(self)@ == old(self)@.insert(key, v)
                    &&& *r == v
                },
            final(self)@.contains_key(key),
            *r == final(self)@[key],
    {
        if self.contains(key) {
            match self.get(key) {
                Some(v) => v,
                None => unreached(),
            }
        } else {
            let value = init();
            self.insert_if_absent(key, value)
        }
    }
}

} // verus!
