//! Key-value storage abstraction and its in-memory backend.

use vstd::prelude::*;

pub mod memory;

verus! {

/// The abstract contents of a key-value store: a finite map from keys to
/// values, both byte strings.
pub type KvMap = Map<Seq<u8>, Seq<u8>>;

/// The byte-level view of a batch of key-value pairs.
pub open spec fn batch_view(items: Seq<(&[u8], &[u8])>) -> Seq<(Seq<u8>, Seq<u8>)> {
    items.map_values(|p: (&[u8], &[u8])| (p.0@, p.1@))
}

/// The store `m` after writing the pairs of `items` one after the other, so
/// that of two pairs with the same key the later one wins.
pub open spec fn apply_batch(m: KvMap, items: Seq<(Seq<u8>, Seq<u8>)>) -> KvMap
    decreases items.len(),
{
    if items.len() == 0 {
        m
    } else {
        apply_batch(m, items.drop_last()).insert(items.last().0, items.last().1)
    }
}

/// Generic key-value store interface. Abstracts over different storage
/// backends selected by SDK consumers.
pub trait KvStore {
    /// The current contents of the store.
    spec fn contents(&self) -> KvMap;

    /// Get the value associated with the given key.
    fn get(&self, key: &[u8]) -> (r: Option<Vec<u8>>)
        ensures
            match r {
                Some(v) => self.contents().contains_key(key@) && v@ == self.contents()[key@],
                None => !self.contents().contains_key(key@),
            },
    ;

    /// Puts the value associated with the given key.
    fn put(&mut self, key: &[u8], value: &[u8])
        ensures
            final(self).contents() == old(self).contents().insert(key@, value@),
    {
        let mut items: Vec<(&[u8], &[u8])> = Vec::new();
        items.push((key, value));
        let ghost before = self.contents();
        let slice = items.as_slice();
        self.batch_put(slice);
        proof {
            let b = batch_view(slice@);
            assert(b.len() == 1 && b.last() == (key@, value@));
            assert(b.drop_last() =~= Seq::<(Seq<u8>, Seq<u8>)>::empty());
            assert(apply_batch(before, b.drop_last()) == before);
        }
    }

    /// Puts multiple key-value pairs in a batch operation. The batch is
    /// atomic: after the call every pair has been written, in order.
    fn batch_put(&mut self, items: &[(&[u8], &[u8])])
        ensures
            final(self).contents() == apply_batch(old(self).contents(), batch_view(items@)),
    ;

    /// Deletes the value associated with the given key.
    fn delete(&mut self, key: &[u8])
        ensures
            final(self).contents() == old(self).contents().remove(key@),
    ;
}

/// The value that the last pair with key `k` in `items` carries, if any.
pub open spec fn last_value(items: Seq<(Seq<u8>, Seq<u8>)>, k: Seq<u8>) -> Option<Seq<u8>>
    decreases items.len(),
{
    if items.len() == 0 {
        None
    } else if items.last().0 == k {
        Some(items.last().1)
    } else {
        last_value(items.drop_last(), k)
    }
}

/// A read after a write of `k` gives back the value written, and a write of
/// `k` leaves every other key as it was.
pub proof fn law_get_after_put(before: KvMap, key: Seq<u8>, value: Seq<u8>, other: Seq<u8>)
    requires
        other != key,
    ensures
        before.insert(key, value).contains_key(key),
        before.insert(key, value)[key] == value,
        before.insert(key, value).contains_key(other) == before.contains_key(other),
        before.contains_key(other) ==> before.insert(key, value)[other] == before[other],
{
}

/// A batch write is all-or-nothing in effect: afterwards every key of the
/// batch holds the value of its last pair in the batch, and every key outside
/// the batch is as it was.
pub proof fn law_batch_put(before: KvMap, items: Seq<(Seq<u8>, Seq<u8>)>, k: Seq<u8>)
    ensures
        match last_value(items, k) {
            Some(v) => apply_batch(before, items).contains_key(k) && apply_batch(before, items)[k] == v,
            None => apply_batch(before, items).contains_key(k) == before.contains_key(k)
                && (before.contains_key(k) ==> apply_batch(before, items)[k] == before[k]),
        },
    decreases items.len(),
{
    if items.len() > 0 {
        law_batch_put(before, items.drop_last(), k);
    }
}

/// Writing one pair is a batch of that one pair.
pub proof fn law_put_is_single_batch(before: KvMap, key: Seq<u8>, value: Seq<u8>)
    ensures
        apply_batch(before, seq![(key, value)]) == before.insert(key, value),
{
    let b = seq![(key, value)];
    assert(b.len() == 1 && b.last() == (key, value));
    assert(b.drop_last() =~= Seq::<(Seq<u8>, Seq<u8>)>::empty());
    assert(apply_batch(before, b.drop_last()) == before);
}

/// After a delete of `k` a read of `k` finds nothing, and every other key is
/// as it was.
pub proof fn law_get_after_delete(before: KvMap, key: Seq<u8>, other: Seq<u8>)
    requires
        other != key,
    ensures
        !before.remove(key).contains_key(key),
        before.remove(key).contains_key(other) == before.contains_key(other),
        before.contains_key(other) ==> before.remove(key)[other] == before[other],
{
}

/// The key under which the indexer state is stored: the bytes of `indexer`.
pub open spec fn spec_indexer_key() -> Seq<u8> {
    seq![105u8, 110u8, 100u8, 101u8, 120u8, 101u8, 114u8]
}

/// The key under which the indexer state is stored.
pub fn indexer_key() -> (k: Vec<u8>)
    ensures
        k@ == spec_indexer_key(),
{
    let k: Vec<u8> = vec![105u8, 110u8, 100u8, 101u8, 120u8, 101u8, 114u8];
    assert(k@ =~= spec_indexer_key());
    k
}

/// Stores the serialized indexer state.
pub fn set_indexer<T: KvStore>(db: &mut T, serialized: &[u8])
    ensures
        final(db).contents() == old(db).contents().insert(spec_indexer_key(), serialized@),
{
    let key = indexer_key();
    db.put(key.as_slice(), serialized);
}

/// Loads the serialized indexer state, if one was stored.
pub fn load_indexer<T: KvStore>(db: &T) -> (r: Option<Vec<u8>>)
    ensures
        match r {
            Some(v) => db.contents().contains_key(spec_indexer_key())
                && v@ == db.contents()[spec_indexer_key()],
            None => !db.contents().contains_key(spec_indexer_key()),
        },
{
    let key = indexer_key();
    db.get(key.as_slice())
}

/// Loading the indexer state after storing it gives back what was stored.
pub proof fn law_load_after_set_indexer(before: KvMap, serialized: Seq<u8>)
    ensures
        before.insert(spec_indexer_key(), serialized).contains_key(spec_indexer_key()),
        before.insert(spec_indexer_key(), serialized)[spec_indexer_key()] == serialized,
{
}

} // verus!
