//! A map from text to text, kept as a list in which no key occurs twice.

use vstd::prelude::*;

verus! {

/// One entry of a text map.
#[derive(Debug)]
pub struct SharedEntry {
    pub key: String,
    pub value: String,
}

/// Whether no key occurs twice in `entries`.
pub open spec fn keys_distinct(entries: Seq<SharedEntry>) -> bool {
    forall|i: int, j: int| 0 <= i < j < entries.len() ==> entries[i].key@ != entries[j].key@
}

/// Whether `entries` holds an entry for `key`.
pub open spec fn has_key(entries: Seq<SharedEntry>, key: Seq<char>) -> bool {
    exists|i: int| 0 <= i < entries.len() && #[trigger] entries[i].key@ == key
}

/// The index of an entry for `key`.
pub open spec fn index_of(entries: Seq<SharedEntry>, key: Seq<char>) -> int {
    choose|i: int| 0 <= i < entries.len() && #[trigger] entries[i].key@ == key
}

/// The map that `entries` stand for: each key goes to the value of its
/// entry.
pub open spec fn entries_map(entries: Seq<SharedEntry>) -> Map<Seq<char>, Seq<char>> {
    Map::new(
        |key: Seq<char>| has_key(entries, key),
        |key: Seq<char>| entries[index_of(entries, key)].value@,
    )
}

/// A map from text to text. To a key it holds at most one value; a value
/// inserted for a key that is there takes the place of the old one.
#[derive(Debug)]
pub struct TextMap {
    entries: Vec<SharedEntry>,
}

impl View for TextMap {
    type V = Map<Seq<char>, Seq<char>>;

    closed spec fn view(&self) -> Map<Seq<char>, Seq<char>> {
        entries_map(self.entries@)
    }
}

proof fn lemma_entry_found(entries: Seq<SharedEntry>, i: int)
    requires
        keys_distinct(entries),
        0 <= i < entries.len(),
    ensures
        has_key(entries, entries[i].key@),
        index_of(entries, entries[i].key@) == i,
        entries_map(entries).contains_key(entries[i].key@),
        entries_map(entries)[entries[i].key@] == entries[i].value@,
{
    let j = index_of(entries, entries[i].key@);
    assert(0 <= j < entries.len() && entries[j].key@ == entries[i].key@);
    if j < i {
        assert(entries[j].key@ != entries[i].key@);
    }
    if i < j {
        assert(entries[i].key@ != entries[j].key@);
    }
}

impl TextMap {
    #[verifier::type_invariant]
    closed spec fn inv(&self) -> bool {
        keys_distinct(self.entries@)
    }

    /// The empty map.
    pub fn new() -> (r: TextMap)
        ensures
            r@ == Map::<Seq<char>, Seq<char>>::empty(),
    {
        let r = TextMap { entries: Vec::new() };
        assert(r@ =~= Map::<Seq<char>, Seq<char>>::empty());
        r
    }

    /// Whether the map holds no key.
    pub fn is_empty(&self) -> (r: bool)
        ensures
            r == (self@ == Map::<Seq<char>, Seq<char>>::empty()),
    {
        proof {
            use_type_invariant(self);
            if self.entries@.len() > 0 {
                lemma_entry_found(self.entries@, 0);
                assert(!Map::<Seq<char>, Seq<char>>::empty().contains_key(self.entries@[0].key@));
            } else {
                assert(self@ =~= Map::<Seq<char>, Seq<char>>::empty());
            }
        }
        self.entries.len() == 0
    }

    fn find(&self, key: &String) -> (r: Option<usize>)
        ensures
            match r {
                Some(i) => i < self.entries@.len() && self.entries@[i as int].key@ == key@,
                None => !has_key(self.entries@, key@),
            },
    {
        let mut i: usize = 0;
        while i < self.entries.len()
            invariant
                i <= self.entries.len(),
                forall|j: int| 0 <= j < i ==> self.entries@[j].key@ != key@,
            decreases self.entries.len() - i,
        {
            if self.entries[i].key == *key {
                return Some(i);
            }
            i += 1;
        }
        None
    }

    /// The value for `key`, if the map has one.
    pub fn get(&self, key: &str) -> (r: Option<&String>)
        ensures
            match r {
                Some(value) => self@.contains_key(key@) && self@[key@] == value@,
                None => !self@.contains_key(key@),
            },
    {
        proof {
            use_type_invariant(self);
        }
        let wanted = key.to_owned();
        match self.find(&wanted) {
            Some(i) => {
                proof {
                    lemma_entry_found(self.entries@, i as int);
                }
                Some(&self.entries[i].value)
            },
            None => None,
        }
    }

    /// Sets the value for `key`. Returns the value that was there before,
    /// if there was one.
    pub fn insert(&mut self, key: String, value: String) -> (r: Option<String>)
        ensures
            final(self)@ == old(self)@.insert(key@, value@),
            match r {
                Some(before) => old(self)@.contains_key(key@) && old(self)@[key@] == before@,
                None => !old(self)@.contains_key(key@),
            },
    {
        proof {
            use_type_invariant(&*self);
        }
        let ghost before = self.entries@;
        let found = self.find(&key);
        let mut entries: Vec<SharedEntry> = Vec::new();
        let mut replaced: Option<String> = None;
        let mut i: usize = 0;
        while i < self.entries.len()
            invariant
                i <= self.entries.len(),
                before == self.entries@,
                keys_distinct(before),
                entries@.len() == i,
                match found {
                    Some(at) => at < before.len() && before[at as int].key@ == key@,
                    None => !has_key(before, key@),
                },
                forall|j: int| 0 <= j < i ==> (#[trigger] entries@[j]).key@ == before[j].key@,
                forall|j: int|
                    0 <= j < i ==> (#[trigger] entries@[j]).value@ == (if found == Some(j as usize) {
                        value@
                    } else {
                        before[j].value@
                    }),
                match replaced {
                    Some(text) => found is Some && found->0 < i && text@ == before[found->0 as int].value@,
                    None => found is Some ==> i <= found->0,
                },
            decreases self.entries.len() - i,
        {
            let entry_key = self.entries[i].key.clone();
            if found == Some(i) {
                replaced = Some(self.entries[i].value.clone());
                entries.push(SharedEntry { key: entry_key, value: value.clone() });
            } else {
                entries.push(SharedEntry { key: entry_key, value: self.entries[i].value.clone() });
            }
            i += 1;
        }
        if found.is_none() {
            entries.push(SharedEntry { key, value });
        }
        proof {
            let after = entries@;
            assert forall|a: int, b: int| 0 <= a < b < after.len() implies after[a].key@
                != after[b].key@ by {
                if b < before.len() {
                    assert(before[a].key@ != before[b].key@);
                } else {
                    assert(before[a].key@ != key@);
                }
            }
            assert forall|k: Seq<char>| has_key(after, k) <==> (has_key(before, k) || k
                == key@) by {
                if has_key(after, k) {
                    let a = index_of(after, k);
                    if a < before.len() {
                        assert(before[a].key@ == k);
                    }
                }
                if has_key(before, k) {
                    let a = index_of(before, k);
                    assert(after[a].key@ == k);
                }
                if k == key@ {
                    match found {
                        Some(at) => {
                            assert(after[at as int].key@ == k);
                        },
                        None => {
                            assert(after[before.len() as int].key@ == k);
                        },
                    }
                }
            }
            assert forall|k: Seq<char>| has_key(after, k) implies entries_map(after)[k]
                == entries_map(before).insert(key@, value@)[k] by {
                let a = index_of(after, k);
                lemma_entry_found(after, a);
                if k != key@ {
                    assert(a < before.len());
                    lemma_entry_found(before, a);
                }
            }
            assert(entries_map(after) =~= entries_map(before).insert(key@, value@));
            match found {
                Some(at) => {
                    lemma_entry_found(before, at as int);
                },
                None => {},
            }
        }
        self.entries = entries;
        replaced
    }
}

} // verus!
