//! A map keyed by paths: one entry per path, found by path equality.

use crate::path::{components, path_key, raw};
use std::path::PathBuf;
use vstd::prelude::*;

verus! {

/// Values found by path. Two spellings of one path are one key.
#[derive(Debug)]
pub struct PathMap<V> {
    entries: Vec<(PathBuf, V)>,
}

/// No two entries share a key.
pub open spec fn keys_distinct<V>(entries: Seq<(PathBuf, V)>) -> bool {
    forall|i: int, j: int|
        0 <= i < j < entries.len() ==> path_key(#[trigger] entries[i].0) != path_key(
            #[trigger] entries[j].0,
        )
}

pub open spec fn has_key<V>(entries: Seq<(PathBuf, V)>, key: Seq<Seq<u8>>) -> bool {
    exists|i: int| 0 <= i < entries.len() && path_key(#[trigger] entries[i].0) == key
}

pub open spec fn value_of<V>(entries: Seq<(PathBuf, V)>, key: Seq<Seq<u8>>) -> V {
    entries[choose|i: int| 0 <= i < entries.len() && path_key(#[trigger] entries[i].0) == key].1
}

/// The entry under a key is the one whose value the key has.
proof fn lemma_found<V>(entries: Seq<(PathBuf, V)>, at: int)
    requires
        keys_distinct(entries),
        0 <= at < entries.len(),
    ensures
        has_key(entries, path_key(entries[at].0)),
        value_of(entries, path_key(entries[at].0)) == entries[at].1,
{
    let key = path_key(entries[at].0);
    let chosen = choose|i: int| 0 <= i < entries.len() && path_key(#[trigger] entries[i].0) == key;
    assert(path_key(entries[chosen].0) == key);
    if chosen < at {
        assert(path_key(entries[chosen].0) != path_key(entries[at].0));
    } else if at < chosen {
        assert(path_key(entries[at].0) != path_key(entries[chosen].0));
    }
}

/// Giving the entry at `at` another value changes what its key has, and no
/// other key.
proof fn lemma_replaced<V>(
    before: Seq<(PathBuf, V)>,
    after: Seq<(PathBuf, V)>,
    at: int,
    value: V,
)
    requires
        keys_distinct(before),
        0 <= at < before.len(),
        after == before.update(at, (before[at].0, value)),
    ensures
        keys_distinct(after),
        forall|key: Seq<Seq<u8>>| #[trigger] has_key(after, key) == has_key(before, key),
        forall|key: Seq<Seq<u8>>|
            has_key(before, key) ==> #[trigger] value_of(after, key) == (if key == path_key(
                before[at].0,
            ) {
                value
            } else {
                value_of(before, key)
            }),
{
    assert forall|i: int, j: int| 0 <= i < j < after.len() implies path_key(
        #[trigger] after[i].0,
    ) != path_key(#[trigger] after[j].0) by {
        assert(after[i].0 == before[i].0 && after[j].0 == before[j].0);
    }
    assert forall|key: Seq<Seq<u8>>| #[trigger] has_key(after, key) == has_key(before, key) by {
        if has_key(after, key) {
            let i = choose|i: int| 0 <= i < after.len() && path_key(#[trigger] after[i].0) == key;
            assert(path_key(before[i].0) == key);
        }
        if has_key(before, key) {
            let i = choose|i: int|
                0 <= i < before.len() && path_key(#[trigger] before[i].0) == key;
            assert(path_key(after[i].0) == key);
        }
    }
    assert forall|key: Seq<Seq<u8>>| has_key(before, key) implies #[trigger] value_of(after, key)
        == (if key == path_key(before[at].0) {
        value
    } else {
        value_of(before, key)
    }) by {
        let i = choose|i: int| 0 <= i < before.len() && path_key(#[trigger] before[i].0) == key;
        lemma_found(before, i);
        assert(after[i].0 == before[i].0);
        lemma_found(after, i);
        if key == path_key(before[at].0) {
            lemma_found(after, at);
        }
    }
}

/// Appending an entry under a new key adds that key and changes no other.
proof fn lemma_appended<V>(before: Seq<(PathBuf, V)>, path: PathBuf, value: V)
    requires
        keys_distinct(before),
        !has_key(before, path_key(path)),
    ensures
        keys_distinct(before.push((path, value))),
        forall|key: Seq<Seq<u8>>| #[trigger]
            has_key(before.push((path, value)), key) == (has_key(before, key) || key == path_key(
                path,
            )),
        forall|key: Seq<Seq<u8>>|
            has_key(before, key) ==> #[trigger] value_of(before.push((path, value)), key)
                == value_of(before, key),
        value_of(before.push((path, value)), path_key(path)) == value,
{
    let after = before.push((path, value));
    assert forall|i: int, j: int| 0 <= i < j < after.len() implies path_key(
        #[trigger] after[i].0,
    ) != path_key(#[trigger] after[j].0) by {
        assert(after[i] == before[i]);
        if j < before.len() {
            assert(after[j] == before[j]);
            assert(path_key(before[i].0) != path_key(before[j].0));
        } else {
            assert(after[j].0 == path);
            assert(path_key(before[i].0) != path_key(path));
        }
    }
    assert forall|key: Seq<Seq<u8>>| #[trigger] has_key(after, key) == (has_key(before, key) || key
        == path_key(path)) by {
        if has_key(after, key) {
            let i = choose|i: int| 0 <= i < after.len() && path_key(#[trigger] after[i].0) == key;
            if i < before.len() {
                assert(path_key(before[i].0) == key);
            }
        }
        if has_key(before, key) {
            let i = choose|i: int|
                0 <= i < before.len() && path_key(#[trigger] before[i].0) == key;
            assert(path_key(after[i].0) == key);
        }
        if key == path_key(path) {
            assert(path_key(after[before.len() as int].0) == key);
        }
    }
    assert forall|key: Seq<Seq<u8>>| has_key(before, key) implies #[trigger] value_of(after, key)
        == value_of(before, key) by {
        let i = choose|i: int| 0 <= i < before.len() && path_key(#[trigger] before[i].0) == key;
        lemma_found(before, i);
        assert(after[i] == before[i]);
        lemma_found(after, i);
    }
    lemma_found(after, before.len() as int);
}

impl<V> View for PathMap<V> {
    type V = Map<Seq<Seq<u8>>, V>;

    closed spec fn view(&self) -> Map<Seq<Seq<u8>>, V> {
        Map::new(
            |key: Seq<Seq<u8>>| has_key(self.entries@, key),
            |key: Seq<Seq<u8>>| value_of(self.entries@, key),
        )
    }
}

/// What a lookup in a map gives.
pub open spec fn lookup<V>(map: Map<Seq<Seq<u8>>, V>, path: PathBuf) -> Option<V> {
    if map.dom().contains(path_key(path)) {
        Some(map[path_key(path)])
    } else {
        None
    }
}

impl<V> PathMap<V> {
    #[verifier::type_invariant]
    closed spec fn one_entry_per_path(self) -> bool {
        keys_distinct(self.entries@)
    }

    /// The entries, one for each path.
    pub fn entries(&self) -> (entries: &Vec<(PathBuf, V)>)
        ensures
            keys_distinct(entries@),
            forall|key: Seq<Seq<u8>>| #[trigger]
                self@.dom().contains(key) == has_key(entries@, key),
            forall|i: int|
                0 <= i < entries@.len() ==> self@[path_key(#[trigger] entries@[i].0)]
                    == entries@[i].1,
    {
        proof {
            use_type_invariant(self);
            assert forall|i: int| 0 <= i < self.entries@.len() implies self@[path_key(
                #[trigger] self.entries@[i].0,
            )] == self.entries@[i].1 by {
                lemma_found(self.entries@, i);
            }
        }
        &self.entries
    }
}

impl<V: Copy> PathMap<V> {
    /// The map with nothing in it.
    pub fn new() -> (map: Self)
        ensures
            map@ == Map::<Seq<Seq<u8>>, V>::empty(),
    {
        let map = PathMap { entries: Vec::new() };
        assert(map@ =~= Map::<Seq<Seq<u8>>, V>::empty());
        map
    }

    /// The place of the entry for `path`.
    fn position(&self, path: &PathBuf) -> (found: Option<usize>)
        ensures
            match found {
                Some(at) => at < self.entries@.len() && path_key(self.entries@[at as int].0)
                    == path_key(*path),
                None => !has_key(self.entries@, path_key(*path)),
            },
    {
        let mut at: usize = 0;
        while at < self.entries.len()
            invariant
                at <= self.entries@.len(),
                forall|i: int|
                    0 <= i < at ==> path_key(#[trigger] self.entries@[i].0) != path_key(*path),
            decreases self.entries@.len() - at,
        {
            if self.entries[at].0 == *path {
                return Some(at);
            }
            at += 1;
        }
        None
    }

    /// The value kept for `path`, whatever its spelling.
    pub fn get(&self, path: &PathBuf) -> (value: Option<V>)
        ensures
            value == lookup(self@, *path),
    {
        match self.position(path) {
            Some(at) => {
                proof {
                    use_type_invariant(self);
                    lemma_found(self.entries@, at as int);
                }
                Some(self.entries[at].1)
            },
            None => None,
        }
    }

    /// A map that holds the same.
    pub fn copy(&self) -> (copy: Self)
        ensures
            copy@ == self@,
    {
        proof {
            use_type_invariant(self);
        }
        let mut entries: Vec<(PathBuf, V)> = Vec::new();
        let mut at: usize = 0;
        while at < self.entries.len()
            invariant
                at <= self.entries@.len(),
                entries@ == self.entries@.take(at as int),
            decreases self.entries@.len() - at,
        {
            entries.push((self.entries[at].0.clone(), self.entries[at].1));
            at += 1;
        }
        assert(entries@ =~= self.entries@);
        PathMap { entries }
    }

    /// Keeps `value` for `path`, in place of what was kept for it before.
    pub fn insert(&mut self, path: PathBuf, value: V)
        ensures
            final(self)@ == old(self)@.insert(path_key(path), value),
    {
        let found = self.position(&path);
        proof {
            use_type_invariant(&*self);
        }
        let ghost before = self.entries@;
        let ghost key = path_key(path);
        let mut entries: Vec<(PathBuf, V)> = Vec::new();
        std::mem::swap(&mut entries, &mut self.entries);
        match found {
            Some(at) => {
                let kept = entries[at].0.clone();
                entries.set(at, (kept, value));
                proof {
                    lemma_found(before, at as int);
                    lemma_replaced(before, entries@, at as int, value);
                }
            },
            None => {
                entries.push((path, value));
                proof {
                    lemma_appended(before, path, value);
                }
            },
        }
        self.entries = entries;
        proof {
            assert(self@ =~= old(self)@.insert(key, value));
        }
    }
}

/// What is kept for a path is found under every spelling of it until something
/// else is kept for it, and what is kept for other paths stays.
pub proof fn law_what_is_kept_is_found<V>(
    map: Map<Seq<Seq<u8>>, V>,
    path: PathBuf,
    value: V,
    asked: PathBuf,
)
    ensures
        components(raw(asked)) == components(raw(path)) ==> lookup(
            map.insert(path_key(path), value),
            asked,
        ) == Some(value),
        components(raw(asked)) != components(raw(path)) ==> lookup(
            map.insert(path_key(path), value),
            asked,
        ) == lookup(map, asked),
        lookup(Map::<Seq<Seq<u8>>, V>::empty(), asked) is None,
{
}

} // verus!
