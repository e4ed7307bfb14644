//! Basic in-memory key-value database.

use vstd::prelude::*;
use vstd::slice::slice_to_vec;

use crate::bytes::bytes_eq;
use crate::kv::{KvMap, KvStore, apply_batch, batch_view};

verus! {

/// The entries of a store hold no key twice.
pub open spec fn unique_keys(s: Seq<(Vec<u8>, Vec<u8>)>) -> bool {
    forall|i: int, j: int|
        0 <= i < s.len() && 0 <= j < s.len() && i != j ==> #[trigger] s[i].0@ != #[trigger] s[j].0@
}

/// Some entry of `s` has key `k`.
pub open spec fn has_key(s: Seq<(Vec<u8>, Vec<u8>)>, k: Seq<u8>) -> bool {
    exists|i: int| 0 <= i < s.len() && #[trigger] s[i].0@ == k
}

/// The map that a list of entries stands for.
pub open spec fn entries_map(s: Seq<(Vec<u8>, Vec<u8>)>) -> KvMap
    decreases s.len(),
{
    if s.len() == 0 {
        Map::empty()
    } else {
        entries_map(s.drop_last()).insert(s.last().0@, s.last().1@)
    }
}

/// With unique keys, the map holds exactly the keys of the entries, each
/// with the value of its entry.
proof fn lemma_entries_map(s: Seq<(Vec<u8>, Vec<u8>)>)
    requires
        unique_keys(s),
    ensures
        forall|k: Seq<u8>| #[trigger] entries_map(s).contains_key(k) <==> has_key(s, k),
        forall|i: int| 0 <= i < s.len() ==> entries_map(s)[#[trigger] s[i].0@] == s[i].1@,
    decreases s.len(),
{
    if s.len() > 0 {
        let t = s.drop_last();
        let n = s.len() - 1;
        assert forall|i: int, j: int|
            0 <= i < t.len() && 0 <= j < t.len() && i != j implies #[trigger] t[i].0@ != #[trigger] t[j].0@ by {
            assert(t[i] == s[i] && t[j] == s[j]);
        }
        lemma_entries_map(t);
        assert forall|k: Seq<u8>| #[trigger] entries_map(s).contains_key(k) <==> has_key(s, k) by {
            if entries_map(s).contains_key(k) && k != s[n].0@ {
                assert(entries_map(t).contains_key(k));
                let i = choose|i: int| 0 <= i < t.len() && #[trigger] t[i].0@ == k;
                assert(s[i] == t[i]);
            }
            if has_key(s, k) && k != s[n].0@ {
                let i = choose|i: int| 0 <= i < s.len() && #[trigger] s[i].0@ == k;
                assert(t[i] == s[i]);
                assert(has_key(t, k));
            }
        }
        assert forall|i: int| 0 <= i < s.len() implies entries_map(s)[#[trigger] s[i].0@] == s[i].1@ by {
            if i < n {
                assert(t[i] == s[i]);
                assert(s[i].0@ != s[n].0@);
            }
        }
    }
}

/// Removing the entry with key `s[i].0` removes that key from the map.
proof fn lemma_entries_map_remove(s: Seq<(Vec<u8>, Vec<u8>)>, i: int)
    requires
        unique_keys(s),
        0 <= i < s.len(),
    ensures
        unique_keys(s.remove(i)),
        entries_map(s.remove(i)) == entries_map(s).remove(s[i].0@),
{
    let r = s.remove(i);
    let k = s[i].0@;
    assert forall|a: int, b: int|
        0 <= a < r.len() && 0 <= b < r.len() && a != b implies #[trigger] r[a].0@ != #[trigger] r[b].0@ by {
        let a2 = if a < i { a } else { a + 1 };
        let b2 = if b < i { b } else { b + 1 };
        assert(r[a] == s[a2] && r[b] == s[b2]);
    }
    lemma_entries_map(s);
    lemma_entries_map(r);
    assert forall|key: Seq<u8>| #[trigger] entries_map(r).contains_key(key) <==> entries_map(s).remove(k).contains_key(key) by {
        if has_key(r, key) {
            let a = choose|a: int| 0 <= a < r.len() && #[trigger] r[a].0@ == key;
            let a2 = if a < i { a } else { a + 1 };
            assert(r[a] == s[a2]);
            assert(has_key(s, key));
        }
        if has_key(s, key) && key != k {
            let a = choose|a: int| 0 <= a < s.len() && #[trigger] s[a].0@ == key;
            let a2 = if a < i { a } else { a - 1 };
            assert(r[a2] == s[a]);
            assert(has_key(r, key));
        }
    }
    assert forall|key: Seq<u8>| #[trigger] entries_map(r).contains_key(key) implies entries_map(r)[key] == entries_map(s)[key] by {
        let a = choose|a: int| 0 <= a < r.len() && #[trigger] r[a].0@ == key;
        let a2 = if a < i { a } else { a + 1 };
        assert(r[a] == s[a2]);
    }
    assert(entries_map(r) =~= entries_map(s).remove(k));
}

/// Basic in-memory KV database.
pub struct MemoryDatabase {
    entries: Vec<(Vec<u8>, Vec<u8>)>,
}

impl MemoryDatabase {
    #[verifier::type_invariant]
    spec fn inv(self) -> bool {
        unique_keys(self.entries@)
    }

    /// Creates an empty database.
    pub fn new() -> (db: Self)
        ensures
            db.contents() == Map::<Seq<u8>, Seq<u8>>::empty(),
    {
        MemoryDatabase { entries: Vec::new() }
    }

    /// The position of the entry with key `key`, if there is one.
    fn find(&self, key: &[u8]) -> (r: Option<usize>)
        ensures
            match r {
                Some(i) => i < self.entries@.len() && self.entries@[i as int].0@ == key@,
                None => !has_key(self.entries@, key@),
            },
    {
        let mut i: usize = 0;
        while i < self.entries.len()
            invariant
                i <= self.entries@.len(),
                forall|j: int| 0 <= j < i ==> #[trigger] self.entries@[j].0@ != key@,
            decreases self.entries@.len() - i,
        {
            if bytes_eq(self.entries[i].0.as_slice(), key) {
                return Some(i);
            }
            i = i + 1;
        }
        None
    }

    /// Writes one key-value pair.
    fn insert(&mut self, key: &[u8], value: &[u8])
        ensures
            final(self).contents() == old(self).contents().insert(key@, value@),
    {
        proof {
            use_type_invariant(&*self);
        }
        let found = self.find(key);
        let mut entries: Vec<(Vec<u8>, Vec<u8>)> = Vec::new();
        std::mem::swap(&mut entries, &mut self.entries);
        let ghost s0 = entries@;
        let ghost m0 = entries_map(s0);
        match found {
            Some(i) => {
                proof {
                    lemma_entries_map_remove(s0, i as int);
                }
                entries.remove(i);
            },
            None => {
                proof {
                    lemma_entries_map(s0);
                }
            },
        }
        let ghost s1 = entries@;
        assert(entries_map(s1) == m0.remove(key@));
        assert(!has_key(s1, key@)) by {
            lemma_entries_map(s1);
        }
        entries.push((slice_to_vec(key), slice_to_vec(value)));
        let ghost s2 = entries@;
        assert(s2.drop_last() =~= s1);
        assert(unique_keys(s2)) by {
            assert forall|a: int, b: int|
                0 <= a < s2.len() && 0 <= b < s2.len() && a != b implies #[trigger] s2[a].0@ != #[trigger] s2[b].0@ by {
                if a < s1.len() && b < s1.len() {
                    assert(s2[a] == s1[a] && s2[b] == s1[b]);
                } else if a < s1.len() {
                    assert(s2[a] == s1[a]);
                } else {
                    assert(s2[b] == s1[b]);
                }
            }
        }
        assert(entries_map(s2) =~= m0.insert(key@, value@));
        self.entries = entries;
    }
}

impl Default for MemoryDatabase {
    fn default() -> (db: Self)
        ensures
            db.contents() == Map::<Seq<u8>, Seq<u8>>::empty(),
    {
        MemoryDatabase::new()
    }
}

impl KvStore for MemoryDatabase {
    closed spec fn contents(&self) -> KvMap {
        entries_map(self.entries@)
    }

    fn get(&self, key: &[u8]) -> (r: Option<Vec<u8>>) {
        proof {
            use_type_invariant(self);
            lemma_entries_map(self.entries@);
        }
        match self.find(key) {
            Some(i) => Some(slice_to_vec(self.entries[i].1.as_slice())),
            None => None,
        }
    }

    fn batch_put(&mut self, items: &[(&[u8], &[u8])]) {
        let ghost m0 = self.contents();
        let mut i: usize = 0;
        while i < items.len()
            invariant
                i <= items@.len(),
                self.contents() == apply_batch(m0, batch_view(items@).take(i as int)),
            decreases items@.len() - i,
        {
            let (key, value) = items[i];
            self.insert(key, value);
            proof {
                let b = batch_view(items@);
                assert(b.take(i + 1).drop_last() =~= b.take(i as int));
            }
            i = i + 1;
        }
        proof {
            let b = batch_view(items@);
            assert(b.take(items@.len() as int) =~= b);
        }
    }

    fn delete(&mut self, key: &[u8]) {
        proof {
            use_type_invariant(&*self);
        }
        match self.find(key) {
            Some(i) => {
                let mut entries: Vec<(Vec<u8>, Vec<u8>)> = Vec::new();
                std::mem::swap(&mut entries, &mut self.entries);
                proof {
                    lemma_entries_map_remove(entries@, i as int);
                }
                entries.remove(i);
                self.entries = entries;
            },
            None => {
                proof {
                    lemma_entries_map(self.entries@);
                    assert(self.contents() =~= self.contents().remove(key@));
                }
            },
        }
    }
}

} // verus!
