//! A flat store of timestamped values, keyed by strings.
//!
//! The store is a mapping from keys to entries. It is held as a list of
//! entries, each filed under a key, in which no key occurs twice; the list
//! is what is written out and read back.

use vstd::prelude::*;

verus! {

/// One stored entry.
#[derive(Clone, Debug, PartialEq, Eq)]
pub struct StorageData {
    pub key: String,
    pub value: String,
    /// Seconds since the epoch at which the entry was written.
    pub timestamp: u64,
}

pub struct StorageDataView {
    pub key: Seq<char>,
    pub value: Seq<char>,
    pub timestamp: u64,
}

impl View for StorageData {
    type V = StorageDataView;

    open spec fn view(&self) -> StorageDataView {
        StorageDataView { key: self.key@, value: self.value@, timestamp: self.timestamp }
    }
}

impl StorageData {
    /// A second entry with the same content.
    pub fn duplicate(&self) -> (r: StorageData)
        ensures
            r@ == self@,
    {
        StorageData {
            key: self.key.clone(),
            value: self.value.clone(),
            timestamp: self.timestamp,
        }
    }
}

/// An entry and the key under which the store files it. An entry that the
/// store wrote is filed under its own key; one that was read from a file is
/// filed under the key that the file gave it.
#[derive(Clone, Debug, PartialEq, Eq)]
pub struct Filed {
    pub under: String,
    pub entry: StorageData,
}

pub struct FiledView {
    pub under: Seq<char>,
    pub entry: StorageDataView,
}

impl View for Filed {
    type V = FiledView;

    open spec fn view(&self) -> FiledView {
        FiledView { under: self.under@, entry: self.entry@ }
    }
}

impl Filed {
    /// A second filed entry with the same content.
    pub fn duplicate(&self) -> (r: Filed)
        ensures
            r@ == self@,
    {
        Filed { under: self.under.clone(), entry: self.entry.duplicate() }
    }
}

/// The mapping that a list of filed entries stands for. Where a key occurs
/// more than once, the entry that comes last counts.
pub open spec fn mapping_of(entries: Seq<FiledView>) -> Map<Seq<char>, StorageDataView>
    decreases entries.len(),
{
    if entries.len() == 0 {
        Map::empty()
    } else {
        mapping_of(entries.drop_last()).insert(entries.last().under, entries.last().entry)
    }
}

/// No key occurs twice in the list.
pub open spec fn distinct_keys(entries: Seq<FiledView>) -> bool {
    forall|i: int, j: int| 0 <= i < j < entries.len() ==> entries[i].under != entries[j].under
}

/// The keys of a list of filed entries, in its order.
pub open spec fn keys_of(entries: Seq<FiledView>) -> Seq<Seq<char>> {
    entries.map_values(|e: FiledView| e.under)
}

/// A key is in the mapping exactly where some entry of the list is filed
/// under it.
pub proof fn lemma_mapping_keys(entries: Seq<FiledView>, key: Seq<char>)
    ensures
        mapping_of(entries).contains_key(key) <==> exists|i: int|
            0 <= i < entries.len() && #[trigger] entries[i].under == key,
    decreases entries.len(),
{
    if entries.len() > 0 {
        let front = entries.drop_last();
        lemma_mapping_keys(front, key);
        if entries.last().under != key {
            if mapping_of(entries).contains_key(key) {
                let i = choose|i: int| 0 <= i < front.len() && #[trigger] front[i].under == key;
                assert(entries[i].under == key);
            }
            if exists|i: int| 0 <= i < entries.len() && #[trigger] entries[i].under == key {
                let i = choose|i: int| 0 <= i < entries.len() && #[trigger] entries[i].under == key;
                assert(front[i].under == key);
            }
        } else {
            assert(entries[entries.len() - 1].under == key);
        }
    }
}

/// In a list without repeated keys, the mapping holds each entry of the list
/// under its key.
pub proof fn lemma_mapping_entry(entries: Seq<FiledView>, i: int)
    requires
        distinct_keys(entries),
        0 <= i < entries.len(),
    ensures
        mapping_of(entries).contains_key(entries[i].under),
        mapping_of(entries)[entries[i].under] == entries[i].entry,
    decreases entries.len(),
{
    if i < entries.len() - 1 {
        let front = entries.drop_last();
        assert(front[i] == entries[i]);
        lemma_mapping_entry(front, i);
    }
}

/// Replacing the entry of a key in place is the mapping's `insert`, and it
/// keeps the keys distinct.
pub proof fn lemma_mapping_replace(entries: Seq<FiledView>, i: int, entry: FiledView)
    requires
        distinct_keys(entries),
        0 <= i < entries.len(),
        entries[i].under == entry.under,
    ensures
        distinct_keys(entries.update(i, entry)),
        mapping_of(entries.update(i, entry)) == mapping_of(entries).insert(entry.under, entry.entry),
    decreases entries.len(),
{
    let changed = entries.update(i, entry);
    let front = entries.drop_last();
    if i == entries.len() - 1 {
        assert(changed.drop_last() =~= front);
        assert(mapping_of(changed) =~= mapping_of(entries).insert(entry.under, entry.entry));
    } else {
        assert(front[i] == entries[i]);
        lemma_mapping_replace(front, i, entry);
        assert(changed.drop_last() =~= front.update(i, entry));
        assert(changed.last() == entries.last());
        assert(entries[i].under != entries[entries.len() - 1].under);
        assert(mapping_of(changed) =~= mapping_of(entries).insert(entry.under, entry.entry));
    }
}

/// Adding an entry under a key that the list does not have is the mapping's
/// `insert`, and it keeps the keys distinct.
pub proof fn lemma_mapping_append(entries: Seq<FiledView>, entry: FiledView)
    requires
        distinct_keys(entries),
        forall|i: int| 0 <= i < entries.len() ==> (#[trigger] entries[i]).under != entry.under,
    ensures
        distinct_keys(entries.push(entry)),
        mapping_of(entries.push(entry)) == mapping_of(entries).insert(entry.under, entry.entry),
{
    assert(entries.push(entry).drop_last() =~= entries);
}

/// In a list without repeated keys, the keys are as many as the mapping
/// has, none is listed twice, and they are the mapping's keys.
pub proof fn lemma_keys_of_distinct(entries: Seq<FiledView>)
    requires
        distinct_keys(entries),
    ensures
        keys_of(entries).no_duplicates(),
        keys_of(entries).to_set() == mapping_of(entries).dom(),
{
    let keys = keys_of(entries);
    assert forall|k: Seq<char>| keys.to_set().contains(k) <==> mapping_of(entries).dom().contains(
        k,
    ) by {
        lemma_mapping_keys(entries, k);
        if keys.contains(k) {
            let i = choose|i: int| 0 <= i < keys.len() && keys[i] == k;
            assert(entries[i].under == k);
        }
        if mapping_of(entries).contains_key(k) {
            let i = choose|i: int| 0 <= i < entries.len() && #[trigger] entries[i].under == k;
            assert(keys[i] == k);
        }
    }
    assert(keys.to_set() =~= mapping_of(entries).dom());
}

/// The store: a mapping from keys to entries.
pub struct Store {
    entries: Vec<Filed>,
}

impl Store {
    #[verifier::type_invariant]
    spec fn keys_are_distinct(self) -> bool {
        distinct_keys(self.listing())
    }

    /// The entries as the store holds them, each key once.
    pub closed spec fn listing(self) -> Seq<FiledView> {
        self.entries@.map_values(|e: Filed| e@)
    }

    /// The mapping that the store holds.
    pub open spec fn view(self) -> Map<Seq<char>, StorageDataView> {
        mapping_of(self.listing())
    }

    /// A store that holds nothing.
    pub fn new() -> (s: Store)
        ensures
            s@ == Map::<Seq<char>, StorageDataView>::empty(),
            s.listing() == Seq::<FiledView>::empty(),
    {
        let s = Store { entries: Vec::new() };
        assert(s.listing() =~= Seq::<FiledView>::empty());
        s
    }

    /// The place of `key` in the list, if an entry has it.
    fn position(&self, key: &String) -> (r: Option<usize>)
        ensures
            r matches Some(i) ==> i < self.listing().len() && self.listing()[i as int].under == key@,
            r is None ==> forall|i: int|
                0 <= i < self.listing().len() ==> (#[trigger] self.listing()[i]).under != key@,
    {
        let mut i: usize = 0;
        while i < self.entries.len()
            invariant
                i <= self.entries.len(),
                forall|j: int| 0 <= j < i ==> (#[trigger] self.listing()[j]).under != key@,
            decreases self.entries.len() - i,
        {
            if self.entries[i].under == *key {
                return Some(i);
            }
            i = i + 1;
        }
        None
    }

    /// Files an entry under its filing key. What the key already had is
    /// replaced; everything else stays.
    fn file(&mut self, filed: Filed)
        ensures
            final(self)@ == old(self)@.insert(filed.under@, filed.entry@),
    {
        proof {
            use_type_invariant(&*self);
        }
        let ghost before = self.listing();
        let found = self.position(&filed.under);
        let mut list: Vec<Filed> = Vec::new();
        core::mem::swap(&mut self.entries, &mut list);
        assert(self.listing() =~= Seq::<FiledView>::empty());
        match found {
            Some(i) => {
                proof {
                    lemma_mapping_replace(before, i as int, filed@);
                }
                list.set(i, filed);
                assert(list@.map_values(|e: Filed| e@) =~= before.update(i as int, filed@));
            },
            None => {
                proof {
                    lemma_mapping_append(before, filed@);
                }
                list.push(filed);
                assert(list@.map_values(|e: Filed| e@) =~= before.push(filed@));
            },
        }
        core::mem::swap(&mut self.entries, &mut list);
    }

    /// Writes `value` under `key` with the given time of writing. An entry
    /// that the key already had is replaced; every other entry stays.
    pub fn put(&mut self, key: String, value: String, timestamp: u64)
        ensures
            final(self)@ == old(self)@.insert(
                key@,
                StorageDataView { key: key@, value: value@, timestamp },
            ),
    {
        let under = key.clone();
        self.file(Filed { under, entry: StorageData { key, value, timestamp } });
    }

    /// The entry filed under `key`, as it is stored, or `None` where the
    /// store has nothing under the key.
    pub fn get(&self, key: &str) -> (r: Option<StorageData>)
        ensures
            r is Some <==> self@.contains_key(key@),
            r matches Some(e) ==> e@ == self@[key@],
    {
        proof {
            use_type_invariant(self);
            lemma_mapping_keys(self.listing(), key@);
        }
        let wanted = key.to_owned();
        match self.position(&wanted) {
            Some(i) => {
                proof {
                    lemma_mapping_entry(self.listing(), i as int);
                }
                Some(self.entries[i].entry.duplicate())
            },
            None => None,
        }
    }

    /// The keys of the store, each once.
    pub fn keys(&self) -> (r: Vec<String>)
        ensures
            r@.map_values(|k: String| k@) == keys_of(self.listing()),
            r@.map_values(|k: String| k@).no_duplicates(),
            r@.map_values(|k: String| k@).to_set() == self@.dom(),
            r@.len() == self@.len(),
    {
        proof {
            use_type_invariant(self);
            lemma_keys_of_distinct(self.listing());
            keys_of(self.listing()).unique_seq_to_set();
        }
        let mut out: Vec<String> = Vec::new();
        let mut i: usize = 0;
        while i < self.entries.len()
            invariant
                i <= self.entries.len(),
                out@.map_values(|k: String| k@) == keys_of(self.listing()).take(i as int),
            decreases self.entries.len() - i,
        {
            let ghost before = out@.map_values(|k: String| k@);
            out.push(self.entries[i].under.clone());
            assert(out@.map_values(|k: String| k@) =~= before.push(self.entries[i as int].under@));
            assert(out@.map_values(|k: String| k@) =~= keys_of(self.listing()).take(i + 1));
            i = i + 1;
        }
        assert(keys_of(self.listing()).take(i as int) =~= keys_of(self.listing()));
        out
    }

    /// The entries of the store as a list to be written out: no key occurs
    /// twice in it, and it stands for the mapping that the store holds.
    pub fn entries(&self) -> (r: Vec<Filed>)
        ensures
            r@.map_values(|e: Filed| e@) == self.listing(),
            distinct_keys(r@.map_values(|e: Filed| e@)),
            mapping_of(r@.map_values(|e: Filed| e@)) == self@,
    {
        proof {
            use_type_invariant(self);
        }
        let mut out: Vec<Filed> = Vec::new();
        let mut i: usize = 0;
        while i < self.entries.len()
            invariant
                i <= self.entries.len(),
                out@.map_values(|e: Filed| e@) == self.listing().take(i as int),
            decreases self.entries.len() - i,
        {
            let ghost before = out@.map_values(|e: Filed| e@);
            out.push(self.entries[i].duplicate());
            assert(out@.map_values(|e: Filed| e@) =~= before.push(self.entries[i as int]@));
            assert(out@.map_values(|e: Filed| e@) =~= self.listing().take(i + 1));
            i = i + 1;
        }
        assert(self.listing().take(i as int) =~= self.listing());
        out
    }

    /// The store that a list of entries stands for. Where the list has a key
    /// more than once, the entry that comes last counts.
    pub fn from_entries(entries: &Vec<Filed>) -> (s: Store)
        ensures
            s@ == mapping_of(entries@.map_values(|e: Filed| e@)),
    {
        let ghost all = entries@.map_values(|e: Filed| e@);
        let mut s = Store::new();
        let mut i: usize = 0;
        assert(all.take(0) =~= Seq::<FiledView>::empty());
        while i < entries.len()
            invariant
                i <= entries.len(),
                all == entries@.map_values(|e: Filed| e@),
                s@ == mapping_of(all.take(i as int)),
            decreases entries.len() - i,
        {
            let e = entries[i].duplicate();
            proof {
                assert(all.take(i + 1).drop_last() =~= all.take(i as int));
                assert(all.take(i + 1).last() == e@);
            }
            s.file(e);
            i = i + 1;
        }
        assert(all.take(i as int) =~= all);
        s
    }
}

/// What is written under a key is what is read under it afterwards.
pub proof fn lemma_get_after_put(
    store: Map<Seq<char>, StorageDataView>,
    key: Seq<char>,
    entry: StorageDataView,
)
    ensures
        store.insert(key, entry).contains_key(key),
        store.insert(key, entry)[key] == entry,
{
}

/// A second write under a key replaces the first: the store is as if only
/// the second had been made, and it has the key once.
pub proof fn lemma_put_overwrites(
    store: Map<Seq<char>, StorageDataView>,
    key: Seq<char>,
    first: StorageDataView,
    second: StorageDataView,
)
    ensures
        store.insert(key, first).insert(key, second) == store.insert(key, second),
        store.insert(key, first).insert(key, second)[key] == second,
        store.insert(key, first).insert(key, second).dom() == store.dom().insert(key),
{
    assert(store.insert(key, first).insert(key, second) =~= store.insert(key, second));
    assert(store.insert(key, second).dom() =~= store.dom().insert(key));
}

/// A write under one key leaves what is under every other key as it was.
pub proof fn lemma_put_keeps_others(
    store: Map<Seq<char>, StorageDataView>,
    key: Seq<char>,
    entry: StorageDataView,
    other: Seq<char>,
)
    requires
        other != key,
    ensures
        store.insert(key, entry).contains_key(other) == store.contains_key(other),
        store.contains_key(other) ==> store.insert(key, entry)[other] == store[other],
{
}

/// Two writes under different keys, made one after the other in either
/// order, give the same store, and both entries can be read from it.
pub proof fn lemma_puts_on_distinct_keys(
    store: Map<Seq<char>, StorageDataView>,
    key_a: Seq<char>,
    entry_a: StorageDataView,
    key_b: Seq<char>,
    entry_b: StorageDataView,
)
    requires
        key_a != key_b,
    ensures
        store.insert(key_a, entry_a).insert(key_b, entry_b) == store.insert(key_b, entry_b).insert(
            key_a,
            entry_a,
        ),
        store.insert(key_a, entry_a).insert(key_b, entry_b).contains_key(key_a),
        store.insert(key_a, entry_a).insert(key_b, entry_b).contains_key(key_b),
        store.insert(key_a, entry_a).insert(key_b, entry_b)[key_a] == entry_a,
        store.insert(key_a, entry_a).insert(key_b, entry_b)[key_b] == entry_b,
{
    assert(store.insert(key_a, entry_a).insert(key_b, entry_b) =~= store.insert(
        key_b,
        entry_b,
    ).insert(key_a, entry_a));
}

} // verus!
