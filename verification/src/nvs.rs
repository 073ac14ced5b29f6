//! The non-volatile configuration store.
//!
//! The device keeps its configuration and the last shown page under fixed
//! keys in a key-value store.  This module is the store's verified core: a
//! keyed map of byte strings with exact put/get semantics.  An absent key
//! is a normal condition (first boot), reported as `Missing`; bytes that do
//! not decode are reported as `Invalid`.  The flash persistence behind the
//! map is hardware work done outside the library, which hands the entries
//! in and out as plain values.

use vstd::prelude::*;
use crate::codec::Persist;
use crate::server::ConfigData;

verus! {

/// Why a load from the store failed.
#[derive(Debug, Clone, Copy, PartialEq, Eq, Structural)]
pub enum StoreError {
    /// The key has never been written: a normal first-boot condition.
    Missing,
    /// The key exists but its bytes do not decode as the requested type.
    Invalid,
}

/// The mathematical content of a sequence of store entries: later entries
/// override earlier ones with the same key.
pub open spec fn entries_map(s: Seq<(String, Vec<u8>)>) -> Map<Seq<char>, Seq<u8>>
    decreases s.len(),
{
    if s.len() == 0 {
        Map::empty()
    } else {
        entries_map(s.drop_last()).insert(s.last().0@, s.last().1@)
    }
}

/// The verified core of the non-volatile store: a keyed map of byte
/// strings.
pub struct NvsController {
    entries: Vec<(String, Vec<u8>)>,
}

impl View for NvsController {
    type V = Map<Seq<char>, Seq<u8>>;

    closed spec fn view(&self) -> Map<Seq<char>, Seq<u8>> {
        entries_map(self.entries@)
    }
}

/// No two entries share a key.
spec fn unique_keys(s: Seq<(String, Vec<u8>)>) -> bool {
    forall|i: int, j: int| 0 <= i < j < s.len() ==> s[i].0@ != s[j].0@
}

/// A key held by no entry is not in the map.
proof fn lemma_entries_map_absent(s: Seq<(String, Vec<u8>)>, k: Seq<char>)
    requires
        forall|i: int| 0 <= i < s.len() ==> s[i].0@ != k,
    ensures
        !entries_map(s).contains_key(k),
    decreases s.len(),
{
    if s.len() > 0 {
        lemma_entries_map_absent(s.drop_last(), k);
    }
}

/// With unique keys, the entry holding a key gives the map's value there.
proof fn lemma_entries_map_found(s: Seq<(String, Vec<u8>)>, i: int)
    requires
        unique_keys(s),
        0 <= i < s.len(),
    ensures
        entries_map(s).contains_key(s[i].0@),
        entries_map(s)[s[i].0@] == s[i].1@,
    decreases s.len(),
{
    if i < s.len() - 1 {
        lemma_entries_map_found(s.drop_last(), i);
    }
}

impl NvsController {
    /// Every value of this type built by its constructor satisfies this;
    /// it carries the store's internal uniqueness of keys.
    pub closed spec fn wf(&self) -> bool {
        unique_keys(self.entries@)
    }

    /// An empty store: every key is absent.
    pub fn new() -> (r: Self)
        ensures
            r.wf(),
            r@ == Map::<Seq<char>, Seq<u8>>::empty(),
    {
        NvsController { entries: Vec::new() }
    }

    /// The index of the entry holding `k`, if any.
    fn find(&self, k: &String) -> (r: Option<usize>)
        ensures
            match r {
                Some(i) => i < self.entries@.len() && self.entries@[i as int].0@ == k@,
                None => forall|i: int| 0 <= i < self.entries@.len() ==> self.entries@[i].0@ != k@,
            },
    {
        let mut i: usize = 0;
        while i < self.entries.len()
            invariant
                i <= self.entries@.len(),
                forall|j: int| 0 <= j < i ==> self.entries@[j].0@ != k@,
            decreases self.entries@.len() - i,
        {
            let pair = &self.entries[i];
            if pair.0 == *k {
                return Some(i);
            }
            i = i + 1;
        }
        None
    }

    /// Writes `value` under `key`: the store maps `key` to the value's
    /// encoding, and every other key keeps its bytes.
    pub fn store<T: Persist>(&mut self, key: &str, value: &T)
        requires
            old(self).wf(),
        ensures
            final(self).wf(),
            final(self)@ == old(self)@.insert(key@, value.spec_encoded()),
    {
        let k = key.to_owned();
        let bytes = value.encoded();
        let found = self.find(&k);
        match found {
            Some(i) => {
                let ghost orig = self.entries@;
                self.entries[i] = (k, bytes);
                proof {
                    lemma_store_update(orig, self.entries@, i as int, key@, value.spec_encoded());
                }
            },
            None => {
                let ghost orig = self.entries@;
                self.entries.push((k, bytes));
                proof {
                    assert(self.entries@.drop_last() =~= orig);
                }
            },
        }
    }

    /// Reads the value under `key`.  Returns the decoded value when the key
    /// is present and its bytes decode; says `Missing` or `Invalid`
    /// otherwise, exactly in those cases.
    pub fn get<T: Persist>(&self, key: &str) -> (r: Result<T, StoreError>)
        requires
            self.wf(),
        ensures
            match r {
                Ok(v) => self@.contains_key(key@) && T::spec_decodable(self@[key@])
                    && T::spec_matches(self@[key@], &v),
                Err(StoreError::Missing) => !self@.contains_key(key@),
                Err(StoreError::Invalid) => self@.contains_key(key@) && !T::spec_decodable(
                    self@[key@],
                ),
            },
    {
        let k = key.to_owned();
        let found = self.find(&k);
        match found {
            Some(i) => {
                proof {
                    lemma_entries_map_found(self.entries@, i as int);
                }
                match T::decoded(&self.entries[i].1) {
                    Some(v) => Ok(v),
                    None => Err(StoreError::Invalid),
                }
            },
            None => {
                proof {
                    lemma_entries_map_absent(self.entries@, key@);
                }
                Err(StoreError::Missing)
            },
        }
    }

    /// Writes a configuration record under its own fixed key.
    pub fn store_config<T: ConfigData>(&mut self, config: &T)
        requires
            old(self).wf(),
        ensures
            final(self).wf(),
            final(self)@ == old(self)@.insert(T::spec_key(), config.spec_encoded()),
    {
        let key = T::key();
        self.store(key, config);
    }

    /// Reads the configuration record of type `T` from its own fixed key.
    pub fn get_config<T: ConfigData>(&self) -> (r: Result<T, StoreError>)
        requires
            self.wf(),
        ensures
            match r {
                Ok(v) => self@.contains_key(T::spec_key()) && T::spec_decodable(
                    self@[T::spec_key()],
                ) && T::spec_matches(self@[T::spec_key()], &v),
                Err(StoreError::Missing) => !self@.contains_key(T::spec_key()),
                Err(StoreError::Invalid) => self@.contains_key(T::spec_key())
                    && !T::spec_decodable(self@[T::spec_key()]),
            },
    {
        self.get::<T>(T::key())
    }
}

/// Law (round trip): after a configuration record is stored, its key is
/// present, its bytes decode, and whatever they decode to carries the
/// stored record's content — so a load right after a store yields the
/// value that was stored.  The one proviso is that the record's fields fit
/// their length frames, which every record an executing program can hold
/// does.
pub proof fn lemma_store_then_load<T: ConfigData>(m: Map<Seq<char>, Seq<u8>>, v: T)
    requires
        v.spec_fits(),
    ensures
        ({
            let stored = m.insert(T::spec_key(), v.spec_encoded());
            &&& stored.contains_key(T::spec_key())
            &&& T::spec_decodable(stored[T::spec_key()])
            &&& forall|w: T|
                #[trigger] T::spec_matches(stored[T::spec_key()], &w) ==> v.spec_same(&w)
        }),
{
    v.lemma_round_trip();
}

/// Replacing the entry that held `k` updates the map at `k` and nowhere
/// else.
proof fn lemma_store_update(
    orig: Seq<(String, Vec<u8>)>,
    upd: Seq<(String, Vec<u8>)>,
    i: int,
    k: Seq<char>,
    bytes: Seq<u8>,
)
    requires
        unique_keys(orig),
        0 <= i < orig.len(),
        orig[i].0@ == k,
        upd.len() == orig.len(),
        upd[i].0@ == k,
        upd[i].1@ == bytes,
        forall|j: int| 0 <= j < orig.len() && j != i ==> upd[j] == orig[j],
    ensures
        unique_keys(upd),
        entries_map(upd) == entries_map(orig).insert(k, bytes),
    decreases orig.len(),
{
    assert forall|a: int, b: int| 0 <= a < b < upd.len() implies upd[a].0@ != upd[b].0@ by {
        assert(orig[a].0@ != orig[b].0@);
        assert(upd[a].0@ == orig[a].0@);
        assert(upd[b].0@ == orig[b].0@);
    }
    if i == orig.len() - 1 {
        assert(upd.drop_last() =~= orig.drop_last());
        assert(entries_map(upd) =~= entries_map(orig).insert(k, bytes));
    } else {
        lemma_store_update(orig.drop_last(), upd.drop_last(), i, k, bytes);
        assert(upd.last() == orig.last());
        assert(entries_map(upd) == entries_map(upd.drop_last()).insert(
            upd.last().0@,
            upd.last().1@,
        ));
        assert(entries_map(orig).insert(k, bytes) =~= entries_map(orig.drop_last()).insert(
            k,
            bytes,
        ).insert(orig.last().0@, orig.last().1@));
        assert(entries_map(upd) =~= entries_map(orig).insert(k, bytes));
    }
}

} // verus!
