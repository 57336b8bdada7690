//! Maps from texts to texts, as Kubernetes has them for labels and annotations.

use crate::text::same_text;
use vstd::prelude::*;

verus! {

/// A map from texts to texts.
#[derive(Debug)]
pub struct StringMap {
    /// Every key once.
    entries: Vec<(String, String)>,
}

/// The map that a list of entries makes. An entry replaces an earlier one of the same key.
pub open spec fn map_of(entries: Seq<(String, String)>) -> Map<Seq<char>, Seq<char>>
    decreases entries.len(),
{
    if entries.len() == 0 {
        Map::empty()
    } else {
        map_of(entries.drop_last()).insert(entries.last().0@, entries.last().1@)
    }
}

/// The keys of a list of entries.
pub open spec fn keys(entries: Seq<(String, String)>) -> Seq<Seq<char>> {
    entries.map_values(|e: (String, String)| e.0@)
}

impl View for StringMap {
    type V = Map<Seq<char>, Seq<char>>;

    closed spec fn view(&self) -> Map<Seq<char>, Seq<char>> {
        map_of(self.entries@)
    }
}

/// A key is in the map exactly if some entry has it.
proof fn lemma_keys(entries: Seq<(String, String)>)
    ensures
        forall|key: Seq<char>| #[trigger]
            map_of(entries).contains_key(key) <==> exists|i: int|
                0 <= i < entries.len() && (#[trigger] entries[i]).0@ == key,
    decreases entries.len(),
{
    if entries.len() > 0 {
        let shorter = entries.drop_last();
        lemma_keys(shorter);
        assert forall|key: Seq<char>| #[trigger]
            map_of(entries).contains_key(key) <==> exists|i: int|
                0 <= i < entries.len() && (#[trigger] entries[i]).0@ == key by {
            if map_of(entries).contains_key(key) {
                if key == entries.last().0@ {
                    assert(entries[entries.len() - 1].0@ == key);
                } else {
                    assert(map_of(shorter).contains_key(key));
                    let i = choose|i: int|
                        0 <= i < shorter.len() && (#[trigger] shorter[i]).0@ == key;
                    assert(entries[i].0@ == key);
                }
            }
            if exists|i: int| 0 <= i < entries.len() && (#[trigger] entries[i]).0@ == key {
                let i = choose|i: int| 0 <= i < entries.len() && (#[trigger] entries[i]).0@ == key;
                if i < shorter.len() {
                    assert(shorter[i].0@ == key);
                    assert(map_of(shorter).contains_key(key));
                }
            }
        }
    }
}

/// Where every key is there once, the map gives every entry back.
proof fn lemma_lookup(entries: Seq<(String, String)>, i: int)
    requires
        keys(entries).no_duplicates(),
        0 <= i < entries.len(),
    ensures
        map_of(entries).contains_key(entries[i].0@),
        map_of(entries)[entries[i].0@] == entries[i].1@,
    decreases entries.len(),
{
    let shorter = entries.drop_last();
    assert(keys(shorter) =~= keys(entries).drop_last());
    if i < shorter.len() {
        lemma_lookup(shorter, i);
        assert(keys(entries)[i] != keys(entries)[entries.len() - 1]);
    }
}

/// Replacing the value of an entry.
proof fn lemma_update(entries: Seq<(String, String)>, i: int, entry: (String, String))
    requires
        keys(entries).no_duplicates(),
        0 <= i < entries.len(),
        entry.0@ == entries[i].0@,
    ensures
        map_of(entries.update(i, entry)) == map_of(entries).insert(entry.0@, entry.1@),
    decreases entries.len(),
{
    let shorter = entries.drop_last();
    assert(keys(shorter) =~= keys(entries).drop_last());
    if i < shorter.len() {
        lemma_update(shorter, i, entry);
        assert(entries.update(i, entry).drop_last() =~= shorter.update(i, entry));
        assert(keys(entries)[i] != keys(entries)[entries.len() - 1]);
        assert(map_of(entries.update(i, entry)) =~= map_of(entries).insert(entry.0@, entry.1@));
    } else {
        assert(entries.update(i, entry).drop_last() =~= shorter);
        assert(map_of(entries.update(i, entry)) =~= map_of(entries).insert(entry.0@, entry.1@));
    }
}

impl StringMap {
    #[verifier::type_invariant]
    spec fn well_formed(self) -> bool {
        keys(self.entries@).no_duplicates()
    }

    pub fn new() -> (r: StringMap)
        ensures
            r@ == Map::<Seq<char>, Seq<char>>::empty(),
    {
        StringMap { entries: Vec::new() }
    }

    /// The entries, in the order in which their keys were added.
    pub fn entries(&self) -> (r: &Vec<(String, String)>)
        ensures
            map_of(r@) == self@,
            keys(r@).no_duplicates(),
    {
        proof {
            use_type_invariant(self);
        }
        &self.entries
    }

    /// Where the entry of a key stands.
    fn position(&self, key: &str) -> (r: Option<usize>)
        ensures
            match r {
                Some(i) => i < self.entries@.len() && self.entries@[i as int].0@ == key@,
                None => forall|i: int|
                    0 <= i < self.entries@.len() ==> (#[trigger] self.entries@[i]).0@ != key@,
            },
    {
        let mut i: usize = 0;
        while i < self.entries.len()
            invariant
                i <= self.entries.len(),
                forall|j: int| 0 <= j < i ==> (#[trigger] self.entries@[j]).0@ != key@,
            decreases self.entries.len() - i,
        {
            if same_text(self.entries[i].0.as_str(), key) {
                return Some(i);
            }
            i = i + 1;
        }
        None
    }

    /// The value of a key.
    pub fn get(&self, key: &str) -> (r: Option<&String>)
        ensures
            match r {
                Some(value) => self@.contains_key(key@) && value@ == self@[key@],
                None => !self@.contains_key(key@),
            },
    {
        proof {
            use_type_invariant(self);
            lemma_keys(self.entries@);
        }
        match self.position(key) {
            Some(i) => {
                proof {
                    lemma_lookup(self.entries@, i as int);
                }
                Some(&self.entries[i].1)
            },
            None => None,
        }
    }

    /// Sets the value of a key.
    pub fn insert(&mut self, key: String, value: String)
        ensures
            final(self)@ == old(self)@.insert(key@, value@),
    {
        proof {
            use_type_invariant(&*self);
        }
        let at = self.position(key.as_str());
        let mut entries: Vec<(String, String)> = Vec::new();
        std::mem::swap(&mut entries, &mut self.entries);
        let ghost before = entries@;
        match at {
            Some(i) => {
                let ghost entry = (key, value);
                entries.set(i, (key, value));
                proof {
                    lemma_update(before, i as int, entry);
                    assert(keys(entries@) =~= keys(before));
                }
            },
            None => {
                let ghost entry = (key, value);
                entries.push((key, value));
                proof {
                    assert(entries@.drop_last() =~= before);
                    assert(keys(entries@) =~= keys(before).push(entry.0@));
                    assert forall|i: int, j: int|
                        0 <= i < keys(entries@).len() && 0 <= j < keys(entries@).len() && i
                            != j implies keys(entries@)[i] != keys(entries@)[j] by {
                        if i < before.len() && j < before.len() {
                            assert(keys(before)[i] != keys(before)[j]);
                        } else if i < before.len() {
                            assert(before[i].0@ != entry.0@);
                        } else {
                            assert(before[j].0@ != entry.0@);
                        }
                    }
                }
            },
        }
        self.entries = entries;
    }

    /// Sets all entries of another map.
    pub fn extend(&mut self, other: &StringMap)
        ensures
            final(self)@ == old(self)@.union_prefer_right(other@),
    {
        let entries = other.entries();
        let mut i: usize = 0;
        assert(entries@.take(0) =~= Seq::empty());
        assert(self@ =~= old(self)@.union_prefer_right(map_of(entries@.take(0))));
        while i < entries.len()
            invariant
                i <= entries.len(),
                self@ == old(self)@.union_prefer_right(map_of(entries@.take(i as int))),
            decreases entries.len() - i,
        {
            self.insert(entries[i].0.clone(), entries[i].1.clone());
            assert(entries@.take(i + 1).drop_last() =~= entries@.take(i as int));
            assert(self@ =~= old(self)@.union_prefer_right(map_of(entries@.take(i + 1))));
            i = i + 1;
        }
        assert(entries@.take(i as int) =~= entries@);
    }
}

impl Clone for StringMap {
    fn clone(&self) -> (r: StringMap)
        ensures
            r@ == self@,
    {
        let mut r = StringMap::new();
        r.extend(self);
        assert(r@ =~= self@);
        r
    }
}

/// What is set is what is found: after an entry was set, its key has its value, and all other
/// keys have what they had. Setting all entries of another map does so for each of them.
pub proof fn law_what_is_set_is_found(
    map: &mut StringMap,
    key: String,
    value: String,
    later: StringMap,
    asked: &str,
    found: Option<&String>,
    filled: &mut StringMap,
    other: StringMap,
)
    requires
        call_ensures(StringMap::insert, (map, key, value), ()),
        later@ == final(map)@,
        call_ensures(StringMap::get, (&later, asked), found),
        call_ensures(StringMap::extend, (filled, &other), ()),
    ensures
        asked@ == key@ ==> (found matches Some(text) && text@ == value@),
        asked@ != key@ ==> (found is Some <==> old(map)@.contains_key(asked@)),
        asked@ != key@ ==> (found matches Some(text) ==> text@ == old(map)@[asked@]),
        final(filled)@.contains_key(asked@) <==> old(filled)@.contains_key(asked@)
            || other@.contains_key(asked@),
        other@.contains_key(asked@) ==> final(filled)@[asked@] == other@[asked@],
        !other@.contains_key(asked@) && old(filled)@.contains_key(asked@)
            ==> final(filled)@[asked@] == old(filled)@[asked@],
{
}

} // verus!
