//! A keyed store over `u64` keys, viewed in specifications as a map.

use vstd::prelude::*;

verus! {

/// Whether no key occurs twice among `entries`.
pub open spec fn unique_keys<V>(entries: Seq<(u64, V)>) -> bool {
    forall|i: int, j: int|
        0 <= i < j < entries.len() ==> (#[trigger] entries[i]).0 != (#[trigger] entries[j]).0
}

/// The map that a sequence of key-value entries stands for. With unique
/// keys, the order of the entries does not matter.
pub open spec fn entries_map<V>(entries: Seq<(u64, V)>) -> Map<u64, V>
    decreases entries.len(),
{
    if entries.len() == 0 {
        Map::empty()
    } else {
        entries_map(entries.drop_last()).insert(entries.last().0, entries.last().1)
    }
}

/// A key is in the map exactly when some entry carries it.
pub proof fn lemma_entries_map_dom<V>(entries: Seq<(u64, V)>, k: u64)
    ensures
        entries_map(entries).contains_key(k) <==> exists|i: int|
            0 <= i < entries.len() && (#[trigger] entries[i]).0 == k,
    decreases entries.len(),
{
    if entries.len() > 0 {
        lemma_entries_map_dom(entries.drop_last(), k);
        if entries.last().0 == k {
            assert(entries[entries.len() - 1].0 == k);
        } else if entries_map(entries).contains_key(k) {
            let i = choose|i: int|
                0 <= i < entries.drop_last().len() && (#[trigger] entries.drop_last()[i]).0 == k;
            assert(entries[i].0 == k);
        } else {
            assert forall|i: int| 0 <= i < entries.len() implies (#[trigger] entries[i]).0 != k by {
                if i < entries.len() - 1 {
                    assert(entries.drop_last()[i] == entries[i]);
                }
            }
        }
    }
}

/// With unique keys, the entry that carries a key gives its value in the map.
pub proof fn lemma_entries_map_at<V>(entries: Seq<(u64, V)>, i: int)
    requires
        unique_keys(entries),
        0 <= i < entries.len(),
    ensures
        entries_map(entries).contains_key(entries[i].0),
        entries_map(entries)[entries[i].0] == entries[i].1,
    decreases entries.len(),
{
    if i < entries.len() - 1 {
        lemma_entries_map_at(entries.drop_last(), i);
        assert(entries.drop_last()[i] == entries[i]);
        assert(entries.last().0 != entries[i].0);
    }
}

/// Updating the entry that carries a key updates the map at that key.
pub proof fn lemma_entries_map_update<V>(entries: Seq<(u64, V)>, i: int, v: V)
    requires
        unique_keys(entries),
        0 <= i < entries.len(),
    ensures
        entries_map(entries.update(i, (entries[i].0, v)))
            =~= entries_map(entries).insert(entries[i].0, v),
    decreases entries.len(),
{
    let k = entries[i].0;
    let updated = entries.update(i, (k, v));
    if i == entries.len() - 1 {
        assert(updated.drop_last() =~= entries.drop_last());
    } else {
        lemma_entries_map_update(entries.drop_last(), i, v);
        assert(updated.drop_last() =~= entries.drop_last().update(i, (k, v)));
        assert(updated.last() == entries.last());
        assert(entries.last().0 != k);
    }
}

/// Appending an entry with a fresh key inserts it into the map.
pub proof fn lemma_entries_map_push<V>(entries: Seq<(u64, V)>, k: u64, v: V)
    ensures
        entries_map(entries.push((k, v))) =~= entries_map(entries).insert(k, v),
{
    assert(entries.push((k, v)).drop_last() =~= entries);
}

/// A keyed store mapping `u64` keys to values. Inserting an existing key
/// overwrites its value; nothing is ever removed.
pub struct KeyedStore<V> {
    entries: Vec<(u64, V)>,
}

impl<V> KeyedStore<V> {
    /// No key occurs twice among the entries.
    #[verifier::type_invariant]
    spec fn wf(self) -> bool {
        unique_keys(self.entries@)
    }

    /// The map this store holds.
    pub closed spec fn view(self) -> Map<u64, V> {
        entries_map(self.entries@)
    }
}

impl<V: Copy> KeyedStore<V> {
    /// An empty store.
    pub fn new() -> (r: KeyedStore<V>)
        ensures
            r@ == Map::<u64, V>::empty(),
    {
        KeyedStore { entries: Vec::new() }
    }

    /// The value under `k`, if the key is present.
    pub fn get(&self, k: u64) -> (r: Option<V>)
        ensures
            r == if self@.contains_key(k) {
                Some(self@[k])
            } else {
                Option::<V>::None
            },
    {
        proof {
            use_type_invariant(self);
        }
        let n = self.entries.len();
        let mut i: usize = 0;
        while i < n
            invariant
                unique_keys(self.entries@),
                n == self.entries@.len(),
                0 <= i <= n,
                forall|j: int| 0 <= j < i ==> (#[trigger] self.entries@[j]).0 != k,
            decreases n - i,
        {
            let entry = self.entries[i];
            if entry.0 == k {
                proof {
                    lemma_entries_map_at(self.entries@, i as int);
                }
                return Some(entry.1);
            }
            i = i + 1;
        }
        proof {
            lemma_entries_map_dom(self.entries@, k);
        }
        None
    }

    /// Puts `v` under `k`, overwriting any value already there.
    pub fn insert(&mut self, k: u64, v: V)
        ensures
            final(self)@ == old(self)@.insert(k, v),
    {
        proof {
            use_type_invariant(&*self);
        }
        let ghost old_entries = self.entries@;
        let mut entries: Vec<(u64, V)> = Vec::new();
        std::mem::swap(&mut entries, &mut self.entries);
        let n = entries.len();
        let mut i: usize = 0;
        while i < n
            invariant
                old_entries == old(self).entries@,
                unique_keys(old_entries),
                entries@ == old_entries,
                n == entries@.len(),
                0 <= i <= n,
                forall|j: int| 0 <= j < i ==> (#[trigger] entries@[j]).0 != k,
            decreases n - i,
        {
            if entries[i].0 == k {
                entries[i] = (k, v);
                proof {
                    assert(entries@ =~= old_entries.update(i as int, (k, v)));
                    lemma_entries_map_update(old_entries, i as int, v);
                    assert(entries_map(entries@) == entries_map(old_entries).insert(k, v));
                }
                assert(unique_keys(entries@)) by {
                    assert forall|a: int, b: int|
                        0 <= a < b < entries@.len() implies (#[trigger] entries@[a]).0
                        != (#[trigger] entries@[b]).0 by {
                        assert(old_entries[a].0 == entries@[a].0);
                        assert(old_entries[b].0 == entries@[b].0);
                    }
                }
                self.entries = entries;
                return ;
            }
            i = i + 1;
        }
        proof {
            lemma_entries_map_push(old_entries, k, v);
            lemma_entries_map_dom(old_entries, k);
        }
        entries.push((k, v));
        assert(unique_keys(entries@)) by {
            assert forall|a: int, b: int|
                0 <= a < b < entries@.len() implies (#[trigger] entries@[a]).0
                != (#[trigger] entries@[b]).0 by {
                if b < entries@.len() - 1 {
                    assert(old_entries[a].0 == entries@[a].0);
                    assert(old_entries[b].0 == entries@[b].0);
                } else {
                    assert(old_entries[a].0 == entries@[a].0);
                }
            }
        }
        self.entries = entries;
    }
}

} // verus!
