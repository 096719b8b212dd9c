//! The catalog index: every leaf record of the catalog under the raw bytes
//! of its key.
//!
//! The index keeps its entries in a vector in ascending order of key, keys
//! compared byte by byte and a key before every longer key that starts with
//! it, and finds a key by bisection.

use vstd::prelude::*;
use crate::catalog::{CatalogLeafRecord, LeafRecordModel};

verus! {

/// Whether `a` comes before `b`: at the first byte in which they differ `a`
/// has the smaller one, or `a` ends there and `b` does not.
pub open spec fn key_less(a: Seq<u8>, b: Seq<u8>) -> bool
    decreases a.len(),
{
    if b.len() == 0 {
        false
    } else if a.len() == 0 {
        true
    } else if a[0] != b[0] {
        a[0] < b[0]
    } else {
        key_less(a.skip(1), b.skip(1))
    }
}

/// No key comes before itself.
pub proof fn lemma_key_less_irreflexive(a: Seq<u8>)
    ensures
        !key_less(a, a),
    decreases a.len(),
{
    if a.len() > 0 {
        lemma_key_less_irreflexive(a.skip(1));
    }
}

/// A key that comes before a second, which comes before a third, comes
/// before the third.
pub proof fn lemma_key_less_transitive(a: Seq<u8>, b: Seq<u8>, c: Seq<u8>)
    requires
        key_less(a, b),
        key_less(b, c),
    ensures
        key_less(a, c),
    decreases a.len(),
{
    if a.len() > 0 && a[0] == b[0] && b[0] == c[0] {
        lemma_key_less_transitive(a.skip(1), b.skip(1), c.skip(1));
    }
}

/// Of two keys one comes before the other, or they are the same key.
pub proof fn lemma_key_less_total(a: Seq<u8>, b: Seq<u8>)
    ensures
        key_less(a, b) || key_less(b, a) || a == b,
    decreases a.len(),
{
    if a.len() > 0 && b.len() > 0 && a[0] == b[0] {
        lemma_key_less_total(a.skip(1), b.skip(1));
        if a.skip(1) == b.skip(1) {
            assert(a =~= seq![a[0]] + a.skip(1));
            assert(b =~= seq![b[0]] + b.skip(1));
        }
    } else if a.len() == 0 && b.len() == 0 {
        assert(a =~= b);
    }
}

/// Keys that agree in their first `n` bytes are in the order of what
/// follows those bytes.
pub proof fn lemma_key_less_behind_common_start(a: Seq<u8>, b: Seq<u8>, n: int)
    requires
        0 <= n <= a.len(),
        n <= b.len(),
        forall|j: int| 0 <= j < n ==> a[j] == b[j],
    ensures
        key_less(a, b) == key_less(a.skip(n), b.skip(n)),
    decreases n,
{
    if n == 0 {
        assert(a.skip(0) =~= a);
        assert(b.skip(0) =~= b);
    } else {
        assert forall|j: int| 0 <= j < n - 1 implies a.skip(1)[j] == b.skip(1)[j] by {
            assert(a[j + 1] == b[j + 1]);
        }
        lemma_key_less_behind_common_start(a.skip(1), b.skip(1), n - 1);
        assert(a.skip(1).skip(n - 1) =~= a.skip(n));
        assert(b.skip(1).skip(n - 1) =~= b.skip(n));
    }
}

/// How one key stands to another.
#[derive(Debug, Clone, Copy, PartialEq, Eq, Structural)]
pub enum KeyOrder {
    Before,
    Same,
    After,
}

/// Tells how the key `a` stands to the key `b`.
pub fn order_keys(a: &[u8], b: &[u8]) -> (o: KeyOrder)
    ensures
        o == KeyOrder::Before <==> key_less(a@, b@),
        o == KeyOrder::Same <==> a@ == b@,
        o == KeyOrder::After <==> key_less(b@, a@),
{
    let mut i: usize = 0;
    while i < a.len() && i < b.len()
        invariant
            i <= a.len(),
            i <= b.len(),
            forall|j: int| 0 <= j < i ==> a@[j] == b@[j],
        decreases a.len() - i,
    {
        if a[i] != b[i] {
            proof {
                lemma_key_less_behind_common_start(a@, b@, i as int);
                lemma_key_less_behind_common_start(b@, a@, i as int);
                assert(a@.skip(i as int)[0] == a@[i as int]);
                assert(b@.skip(i as int)[0] == b@[i as int]);
            }
            if a[i] < b[i] {
                return KeyOrder::Before;
            } else {
                return KeyOrder::After;
            }
        }
        i += 1;
    }
    proof {
        lemma_key_less_behind_common_start(a@, b@, i as int);
        lemma_key_less_behind_common_start(b@, a@, i as int);
        lemma_key_less_irreflexive(a@);
    }
    if a.len() < b.len() {
        KeyOrder::Before
    } else if a.len() > b.len() {
        KeyOrder::After
    } else {
        assert(a@ =~= b@);
        KeyOrder::Same
    }
}

/// Whether the keys of the pairs ascend strictly.
pub open spec fn ascending(pairs: Seq<(Seq<u8>, LeafRecordModel)>) -> bool {
    forall|i: int, j: int|
        0 <= i < j < pairs.len() ==> key_less((#[trigger] pairs[i]).0, (#[trigger] pairs[j]).0)
}

/// Whether the pairs are the entries of the map: every pair is a key of the
/// map with its record, and every key of the map is the key of a pair.
pub open spec fn lists_map(
    pairs: Seq<(Seq<u8>, LeafRecordModel)>,
    map: Map<Seq<u8>, LeafRecordModel>,
) -> bool {
    &&& forall|i: int|
        0 <= i < pairs.len() ==> map.contains_key((#[trigger] pairs[i]).0) && map[pairs[i].0]
            == pairs[i].1
    &&& forall|key: Seq<u8>|
        map.contains_key(key) ==> exists|i: int|
            0 <= i < pairs.len() && (#[trigger] pairs[i]).0 == key
}

/// A key of the index with the record that is filed under it.
#[derive(Debug)]
pub struct IndexEntry {
    pub key: Vec<u8>,
    pub record: CatalogLeafRecord,
}

impl IndexEntry {
    /// The key and the record, each by its view.
    pub open spec fn pair(&self) -> (Seq<u8>, LeafRecordModel) {
        (self.key@, self.record@)
    }
}

/// Whether the keys of the entries ascend strictly.
spec fn keys_ascend(entries: Seq<IndexEntry>) -> bool {
    forall|i: int, j: int|
        0 <= i < j < entries.len() ==> key_less(
            (#[trigger] entries[i]).key@,
            (#[trigger] entries[j]).key@,
        )
}

/// Whether some entry has the key `key`.
spec fn has_key(entries: Seq<IndexEntry>, key: Seq<u8>) -> bool {
    exists|i: int| 0 <= i < entries.len() && (#[trigger] entries[i]).key@ == key
}

/// The place of an entry with the key `key`.
spec fn place_of(entries: Seq<IndexEntry>, key: Seq<u8>) -> int {
    choose|i: int| 0 <= i < entries.len() && (#[trigger] entries[i]).key@ == key
}

/// The map that the entries stand for: each key of an entry to the record of
/// that entry.
spec fn map_of(entries: Seq<IndexEntry>) -> Map<Seq<u8>, LeafRecordModel> {
    Map::new(
        |key: Seq<u8>| has_key(entries, key),
        |key: Seq<u8>| entries[place_of(entries, key)].record@,
    )
}

/// In entries whose keys ascend, the entry at place `i` is the one that the
/// map has for its key.
proof fn lemma_map_of_entry(entries: Seq<IndexEntry>, i: int)
    requires
        keys_ascend(entries),
        0 <= i < entries.len(),
    ensures
        map_of(entries).contains_key(entries[i].key@),
        map_of(entries)[entries[i].key@] == entries[i].record@,
{
    let key = entries[i].key@;
    assert(has_key(entries, key));
    let p = place_of(entries, key);
    lemma_key_less_irreflexive(key);
    if p < i {
        assert(key_less(entries[p].key@, entries[i].key@));
    } else if i < p {
        assert(key_less(entries[i].key@, entries[p].key@));
    }
}

/// The keys of the entries, in order.
spec fn keys_of(entries: Seq<IndexEntry>) -> Seq<Seq<u8>> {
    Seq::new(entries.len(), |i: int| entries[i].key@)
}

/// Entries whose keys ascend stand for a map with as many keys as there are
/// entries.
proof fn lemma_map_of_size(entries: Seq<IndexEntry>)
    requires
        keys_ascend(entries),
    ensures
        map_of(entries).dom().finite(),
        map_of(entries).dom().len() == entries.len(),
{
    let keys = keys_of(entries);
    assert forall|i: int, j: int| 0 <= i < keys.len() && 0 <= j < keys.len() && i != j implies keys[i]
        != keys[j] by {
        lemma_key_less_irreflexive(keys[i]);
        if i < j {
            assert(key_less(entries[i].key@, entries[j].key@));
        } else {
            assert(key_less(entries[j].key@, entries[i].key@));
        }
    }
    keys.unique_seq_to_set();
    assert(map_of(entries).dom() =~= keys.to_set()) by {
        assert forall|key: Seq<u8>| has_key(entries, key) implies keys.to_set().contains(key) by {
            let p = place_of(entries, key);
            assert(keys[p] == key);
        }
        assert forall|key: Seq<u8>| keys.to_set().contains(key) implies has_key(entries, key) by {
            let p = choose|p: int| 0 <= p < keys.len() && keys[p] == key;
            assert(entries[p].key@ == key);
        }
    }
}

/// The catalog index: a map from the raw bytes of a key to the leaf record
/// that was filed under it last.
pub struct CatalogIndex {
    entries: Vec<IndexEntry>,
}

impl View for CatalogIndex {
    type V = Map<Seq<u8>, LeafRecordModel>;

    closed spec fn view(&self) -> Map<Seq<u8>, LeafRecordModel> {
        map_of(self.entries@)
    }
}

impl CatalogIndex {
    #[verifier::type_invariant]
    spec fn keys_in_order(&self) -> bool {
        keys_ascend(self.entries@)
    }

    /// The entries in ascending order of key, each as the pair of its key
    /// and its record.
    pub closed spec fn pairs(&self) -> Seq<(Seq<u8>, LeafRecordModel)> {
        Seq::new(self.entries@.len(), |i: int| self.entries@[i].pair())
    }

    /// The number of entries.
    pub open spec fn count(&self) -> nat {
        self.pairs().len()
    }

    /// An index without entries.
    pub fn new() -> (index: CatalogIndex)
        ensures
            index@ == Map::<Seq<u8>, LeafRecordModel>::empty(),
            index.pairs() == Seq::<(Seq<u8>, LeafRecordModel)>::empty(),
    {
        let index = CatalogIndex { entries: Vec::new() };
        assert(index@ =~= Map::<Seq<u8>, LeafRecordModel>::empty());
        assert(index.pairs() =~= Seq::<(Seq<u8>, LeafRecordModel)>::empty());
        index
    }

    /// The number of entries. Every index lists its entries in ascending
    /// order of key, and they are the entries of the map that it stands for,
    /// which has as many keys as the index has entries.
    pub fn len(&self) -> (n: usize)
        ensures
            n == self.count(),
            ascending(self.pairs()),
            lists_map(self.pairs(), self@),
            self@.dom().finite(),
            self@.dom().len() == n,
    {
        proof {
            use_type_invariant(self);
            lemma_map_of_size(self.entries@);
            let pairs = self.pairs();
            assert forall|i: int, j: int| 0 <= i < j < pairs.len() implies key_less(
                (#[trigger] pairs[i]).0,
                (#[trigger] pairs[j]).0,
            ) by {
                assert(key_less(self.entries@[i].key@, self.entries@[j].key@));
            }
            assert forall|i: int| 0 <= i < pairs.len() implies self@.contains_key(
                (#[trigger] pairs[i]).0,
            ) && self@[pairs[i].0] == pairs[i].1 by {
                lemma_map_of_entry(self.entries@, i);
            }
            assert forall|key: Seq<u8>| self@.contains_key(key) implies exists|i: int|
                0 <= i < pairs.len() && (#[trigger] pairs[i]).0 == key by {
                let p = place_of(self.entries@, key);
                assert(pairs[p].0 == key);
            }
        }
        self.entries.len()
    }

    /// Whether the index has no entries.
    pub fn is_empty(&self) -> (empty: bool)
        ensures
            empty <==> self.count() == 0,
    {
        self.entries.len() == 0
    }

    /// Finds the place of `key` by bisection: whether an entry has the key,
    /// and the place at which it stands or would have to stand.
    fn find(&self, key: &[u8]) -> (r: (bool, usize))
        ensures
            r.1 <= self.entries@.len(),
            r.0 ==> r.1 < self.entries@.len() && self.entries@[r.1 as int].key@ == key@,
            !r.0 ==> !has_key(self.entries@, key@),
            !r.0 ==> forall|i: int| 0 <= i < r.1 ==> key_less(
                (#[trigger] self.entries@[i]).key@,
                key@,
            ),
            !r.0 ==> forall|i: int|
                r.1 <= i < self.entries@.len() ==> key_less(
                    key@,
                    (#[trigger] self.entries@[i]).key@,
                ),
    {
        proof {
            use_type_invariant(self);
        }
        let mut lo: usize = 0;
        let mut hi: usize = self.entries.len();
        while lo < hi
            invariant
                lo <= hi <= self.entries@.len(),
                keys_ascend(self.entries@),
                forall|i: int| 0 <= i < lo ==> key_less((#[trigger] self.entries@[i]).key@, key@),
                forall|i: int|
                    hi <= i < self.entries@.len() ==> key_less(
                        key@,
                        (#[trigger] self.entries@[i]).key@,
                    ),
            decreases hi - lo,
        {
            let mid: usize = lo + (hi - lo) / 2;
            match order_keys(self.entries[mid].key.as_slice(), key) {
                KeyOrder::Same => {
                    return (true, mid);
                },
                KeyOrder::Before => {
                    assert forall|i: int| 0 <= i < mid + 1 implies key_less(
                        (#[trigger] self.entries@[i]).key@,
                        key@,
                    ) by {
                        if i < mid {
                            assert(key_less(self.entries@[i].key@, self.entries@[mid as int].key@));
                            lemma_key_less_transitive(
                                self.entries@[i].key@,
                                self.entries@[mid as int].key@,
                                key@,
                            );
                        }
                    }
                    lo = mid + 1;
                },
                KeyOrder::After => {
                    assert forall|i: int| mid <= i < self.entries@.len() implies key_less(
                        key@,
                        (#[trigger] self.entries@[i]).key@,
                    ) by {
                        if mid < i {
                            assert(key_less(self.entries@[mid as int].key@, self.entries@[i].key@));
                            lemma_key_less_transitive(
                                key@,
                                self.entries@[mid as int].key@,
                                self.entries@[i].key@,
                            );
                        }
                    }
                    hi = mid;
                },
            }
        }
        proof {
            lemma_key_less_irreflexive(key@);
            if has_key(self.entries@, key@) {
                let p = place_of(self.entries@, key@);
                if p < lo {
                    assert(key_less(self.entries@[p].key@, key@));
                } else {
                    assert(key_less(key@, self.entries@[p].key@));
                }
            }
        }
        (false, lo)
    }

    /// The record that is filed under `key`; `None` where there is none.
    pub fn get(&self, key: &[u8]) -> (r: Option<&CatalogLeafRecord>)
        ensures
            match r {
                Some(record) => self@.contains_key(key@) && self@[key@] == record@,
                None => !self@.contains_key(key@),
            },
    {
        proof {
            use_type_invariant(self);
        }
        let (found, place) = self.find(key);
        if found {
            proof {
                lemma_map_of_entry(self.entries@, place as int);
            }
            Some(&self.entries[place].record)
        } else {
            None
        }
    }

    /// Whether a record is filed under `key`.
    pub fn contains_key(&self, key: &[u8]) -> (found: bool)
        ensures
            found == self@.contains_key(key@),
    {
        let (found, _) = self.find(key);
        found
    }

    /// The entry at place `i` in ascending order of key.
    pub fn entry(&self, i: usize) -> (e: &IndexEntry)
        requires
            i < self.count(),
        ensures
            e.pair() == self.pairs()[i as int],
            self@.contains_key(e.key@),
            self@[e.key@] == e.record@,
    {
        proof {
            use_type_invariant(self);
            lemma_map_of_entry(self.entries@, i as int);
        }
        &self.entries[i]
    }

    /// Files `record` under `key`. A record that was filed under the same key
    /// before gives way to the new one.
    pub fn insert(&mut self, key: Vec<u8>, record: CatalogLeafRecord)
        ensures
            final(self)@ == old(self)@.insert(key@, record@),
            final(self).count() == if old(self)@.contains_key(key@) {
                old(self).count()
            } else {
                old(self).count() + 1
            },
    {
        proof {
            use_type_invariant(&*self);
        }
        let (found, place) = self.find(key.as_slice());
        let ghost before = self.entries@;
        let ghost k = key@;
        let ghost r = record@;
        let entry = IndexEntry { key, record };
        let mut entries: Vec<IndexEntry> = Vec::new();
        core::mem::swap(&mut self.entries, &mut entries);
        if found {
            entries.set(place, entry);
            proof {
                let after = entries@;
                assert forall|i: int, j: int| 0 <= i < j < after.len() implies key_less(
                    (#[trigger] after[i]).key@,
                    (#[trigger] after[j]).key@,
                ) by {
                    assert(key_less(before[i].key@, before[j].key@));
                }
                assert forall|key: Seq<u8>| has_key(after, key) == (key == k || has_key(
                    before,
                    key,
                )) by {
                    if has_key(after, key) {
                        let p = place_of(after, key);
                        assert(before[p].key@ == key);
                    }
                    if has_key(before, key) {
                        let p = place_of(before, key);
                        assert(after[p].key@ == key);
                    }
                    if key == k {
                        assert(after[place as int].key@ == key);
                    }
                }
                assert forall|key: Seq<u8>| has_key(after, key) implies #[trigger] map_of(
                    after,
                )[key] == map_of(before).insert(k, r)[key] by {
                    let p = place_of(after, key);
                    lemma_map_of_entry(after, p);
                    if key != k {
                        assert(before[p].key@ == key);
                        lemma_map_of_entry(before, p);
                    } else {
                        lemma_map_of_entry(after, place as int);
                    }
                }
                assert(map_of(after) =~= map_of(before).insert(k, r));
                assert(has_key(before, k));
            }
        } else {
            entries.insert(place, entry);
            proof {
                let after = entries@;
                assert forall|i: int, j: int| 0 <= i < j < after.len() implies key_less(
                    (#[trigger] after[i]).key@,
                    (#[trigger] after[j]).key@,
                ) by {
                    if j < place {
                        assert(key_less(before[i].key@, before[j].key@));
                    } else if j == place {
                        assert(key_less(before[i].key@, k));
                    } else if i < place {
                        assert(key_less(before[i].key@, before[j - 1].key@));
                    } else if i == place {
                        assert(key_less(k, before[j - 1].key@));
                    } else {
                        assert(key_less(before[i - 1].key@, before[j - 1].key@));
                    }
                }
                assert forall|key: Seq<u8>| has_key(after, key) == (key == k || has_key(
                    before,
                    key,
                )) by {
                    if has_key(after, key) {
                        let p = place_of(after, key);
                        if p < place {
                            assert(before[p].key@ == key);
                        } else if p > place {
                            assert(before[p - 1].key@ == key);
                        }
                    }
                    if has_key(before, key) {
                        let p = place_of(before, key);
                        if p < place {
                            assert(after[p].key@ == key);
                        } else {
                            assert(after[p + 1].key@ == key);
                        }
                    }
                    if key == k {
                        assert(after[place as int].key@ == key);
                    }
                }
                assert forall|key: Seq<u8>| has_key(after, key) implies #[trigger] map_of(
                    after,
                )[key] == map_of(before).insert(k, r)[key] by {
                    let p = place_of(after, key);
                    lemma_map_of_entry(after, p);
                    if p < place {
                        assert(before[p].key@ == key);
                        lemma_map_of_entry(before, p);
                    } else if p > place {
                        assert(before[p - 1].key@ == key);
                        lemma_map_of_entry(before, p - 1);
                    } else {
                        lemma_map_of_entry(after, place as int);
                    }
                }
                assert(map_of(after) =~= map_of(before).insert(k, r));
            }
        }
        core::mem::swap(&mut self.entries, &mut entries);
    }
}

} // verus!
