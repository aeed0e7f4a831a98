//! The annotations of a service: a finite map from key to value.

use vstd::prelude::*;
use vstd::string::StringExecFns;

verus! {

/// One annotation as it is stored: the key, then the value.
type Entry = (String, String);

/// No key occurs at two positions.
spec fn distinct_keys(entries: Seq<Entry>) -> bool {
    forall|i: int, j: int|
        0 <= i < j < entries.len() ==> (#[trigger] entries[i]).0@ != (#[trigger] entries[j]).0@
}

/// Some entry carries the key.
spec fn holds_key(entries: Seq<Entry>, key: Seq<char>) -> bool {
    exists|i: int| 0 <= i < entries.len() && (#[trigger] entries[i]).0@ == key
}

/// A position at which the key stands, if there is one.
spec fn position_of(entries: Seq<Entry>, key: Seq<char>) -> int {
    choose|i: int| 0 <= i < entries.len() && (#[trigger] entries[i]).0@ == key
}

/// The map that a list of entries with distinct keys stands for.
spec fn entries_map(entries: Seq<Entry>) -> Map<Seq<char>, Seq<char>> {
    Map::new(
        |key: Seq<char>| holds_key(entries, key),
        |key: Seq<char>| entries[position_of(entries, key)].1@,
    )
}

/// With distinct keys, the entry at a position is the one that its key is
/// looked up to.
proof fn lemma_position(entries: Seq<Entry>, i: int)
    requires
        distinct_keys(entries),
        0 <= i < entries.len(),
    ensures
        holds_key(entries, entries[i].0@),
        position_of(entries, entries[i].0@) == i,
        entries_map(entries).contains_key(entries[i].0@),
        entries_map(entries)[entries[i].0@] == entries[i].1@,
{
    let key = entries[i].0@;
    let p = position_of(entries, key);
    assert(0 <= p < entries.len() && entries[p].0@ == key);
    if p < i {
        assert(entries[p].0@ != entries[i].0@);
    } else if i < p {
        assert(entries[i].0@ != entries[p].0@);
    }
}

/// Putting a new value where the key stands is an insertion into the map.
proof fn lemma_replace(before: Seq<Entry>, i: int, entry: Entry)
    requires
        distinct_keys(before),
        0 <= i < before.len(),
        before[i].0@ == entry.0@,
    ensures
        distinct_keys(before.update(i, entry)),
        entries_map(before.update(i, entry)) == entries_map(before).insert(entry.0@, entry.1@),
{
    let after = before.update(i, entry);
    assert forall|a: int, b: int| 0 <= a < b < after.len() implies (#[trigger] after[a]).0@ != (
    #[trigger] after[b]).0@ by {
        assert(before[a].0@ != before[b].0@);
    }
    assert forall|key: Seq<char>| holds_key(after, key) <==> holds_key(before, key) by {
        if holds_key(after, key) {
            assert(before[position_of(after, key)].0@ == key);
        }
        if holds_key(before, key) {
            assert(after[position_of(before, key)].0@ == key);
        }
    }
    lemma_position(before, i);
    assert forall|key: Seq<char>| holds_key(after, key) implies entries_map(after)[key]
        == entries_map(before).insert(entry.0@, entry.1@)[key] by {
        let p = position_of(after, key);
        lemma_position(after, p);
        if p != i {
            lemma_position(before, p);
        }
    }
    assert(entries_map(after) =~= entries_map(before).insert(entry.0@, entry.1@));
}

/// Appending an entry under a key that is not present is an insertion into the
/// map.
proof fn lemma_append(before: Seq<Entry>, entry: Entry)
    requires
        distinct_keys(before),
        !holds_key(before, entry.0@),
    ensures
        distinct_keys(before.push(entry)),
        entries_map(before.push(entry)) == entries_map(before).insert(entry.0@, entry.1@),
{
    let after = before.push(entry);
    let n = before.len() as int;
    assert forall|a: int, b: int| 0 <= a < b < after.len() implies (#[trigger] after[a]).0@ != (
    #[trigger] after[b]).0@ by {
        if b < n {
            assert(before[a].0@ != before[b].0@);
        } else {
            assert(before[a].0@ != entry.0@);
        }
    }
    assert forall|key: Seq<char>|
        holds_key(after, key) <==> (key == entry.0@ || holds_key(before, key)) by {
        if holds_key(after, key) {
            let p = position_of(after, key);
            if p < n {
                assert(before[p].0@ == key);
            }
        }
        if holds_key(before, key) {
            assert(after[position_of(before, key)].0@ == key);
        }
        if key == entry.0@ {
            assert(after[n].0@ == key);
        }
    }
    assert forall|key: Seq<char>| holds_key(after, key) implies entries_map(after)[key]
        == entries_map(before).insert(entry.0@, entry.1@)[key] by {
        let p = position_of(after, key);
        lemma_position(after, p);
        if p < n {
            lemma_position(before, p);
        }
    }
    assert(entries_map(after) =~= entries_map(before).insert(entry.0@, entry.1@));
}

/// Taking out the entry at a position is a removal of its key from the map.
proof fn lemma_take_out(before: Seq<Entry>, i: int)
    requires
        distinct_keys(before),
        0 <= i < before.len(),
    ensures
        distinct_keys(before.remove(i)),
        entries_map(before.remove(i)) == entries_map(before).remove(before[i].0@),
{
    let after = before.remove(i);
    let gone = before[i].0@;
    // Where an entry of the shorter list stood in the longer one.
    let origin = |p: int|
        if p < i {
            p
        } else {
            p + 1
        };
    assert forall|p: int| 0 <= p < after.len() implies #[trigger] after[p] == before[origin(
        p,
    )] by {}
    assert forall|a: int, b: int| 0 <= a < b < after.len() implies (#[trigger] after[a]).0@ != (
    #[trigger] after[b]).0@ by {
        assert(before[origin(a)].0@ != before[origin(b)].0@);
    }
    lemma_position(before, i);
    assert forall|key: Seq<char>|
        holds_key(after, key) <==> (key != gone && holds_key(before, key)) by {
        if holds_key(after, key) {
            let p = position_of(after, key);
            assert(before[origin(p)].0@ == key);
            lemma_position(before, origin(p));
        }
        if key != gone && holds_key(before, key) {
            let q = position_of(before, key);
            let p = if q < i {
                q
            } else {
                q - 1
            };
            assert(after[p].0@ == key);
        }
    }
    assert forall|key: Seq<char>| holds_key(after, key) implies entries_map(after)[key]
        == entries_map(before).remove(gone)[key] by {
        let p = position_of(after, key);
        lemma_position(after, p);
        lemma_position(before, origin(p));
    }
    assert(entries_map(after) =~= entries_map(before).remove(gone));
}

/// The annotations of a service. Each key occurs once.
#[derive(Debug)]
pub struct Annotations {
    entries: Vec<Entry>,
}

impl View for Annotations {
    type V = Map<Seq<char>, Seq<char>>;

    /// The annotations as a map from key to value.
    closed spec fn view(&self) -> Map<Seq<char>, Seq<char>> {
        entries_map(self.entries@)
    }
}

impl Clone for Annotations {
    fn clone(&self) -> (copy: Self)
        ensures
            copy@ == self@,
    {
        proof {
            use_type_invariant(self);
        }
        let mut entries: Vec<Entry> = Vec::new();
        let mut i: usize = 0;
        while i < self.entries.len()
            invariant
                i <= self.entries.len(),
                entries@ == self.entries@.take(i as int),
            decreases self.entries.len() - i,
        {
            let entry = &self.entries[i];
            entries.push((entry.0.clone(), entry.1.clone()));
            i += 1;
            assert(entries@ =~= self.entries@.take(i as int));
        }
        assert(entries@ =~= self.entries@);
        Annotations { entries }
    }
}

impl Annotations {
    #[verifier::type_invariant]
    spec fn well_formed(self) -> bool {
        distinct_keys(self.entries@)
    }

    /// No annotations.
    pub fn new() -> (annotations: Self)
        ensures
            annotations@ == Map::<Seq<char>, Seq<char>>::empty(),
    {
        let annotations = Annotations { entries: Vec::new() };
        assert(annotations@ =~= Map::<Seq<char>, Seq<char>>::empty());
        annotations
    }

    /// Where the key stands among the entries.
    fn find(entries: &Vec<Entry>, key: &String) -> (found: Option<usize>)
        ensures
            (match found {
                Some(i) => i < entries.len() && entries[i as int].0@ == key@,
                None => !holds_key(entries@, key@),
            }),
    {
        let mut i: usize = 0;
        while i < entries.len()
            invariant
                i <= entries.len(),
                forall|j: int| 0 <= j < i ==> (#[trigger] entries[j]).0@ != key@,
            decreases entries.len() - i,
        {
            if entries[i].0 == *key {
                return Some(i);
            }
            i += 1;
        }
        None
    }

    /// The value under a key.
    pub fn get(&self, key: &str) -> (found: Option<&String>)
        ensures
            (match found {
                Some(value) => self@.contains_key(key@) && value@ == self@[key@],
                None => !self@.contains_key(key@),
            }),
    {
        proof {
            use_type_invariant(self);
        }
        let wanted = String::from_str(key);
        match Self::find(&self.entries, &wanted) {
            Some(i) => {
                proof {
                    lemma_position(self.entries@, i as int);
                }
                Some(&self.entries[i].1)
            },
            None => None,
        }
    }

    /// Whether the key is present with exactly this value.
    pub fn has_value(&self, key: &str, value: &str) -> (held: bool)
        ensures
            held == (self@.contains_key(key@) && self@[key@] == value@),
    {
        match self.get(key) {
            Some(found) => {
                let expected = String::from_str(value);
                *found == expected
            },
            None => false,
        }
    }

    /// Sets the value under a key, whether or not the key was present.
    pub fn insert(&mut self, key: String, value: String)
        ensures
            final(self)@ == old(self)@.insert(key@, value@),
    {
        proof {
            use_type_invariant(&*self);
        }
        let mut entries: Vec<Entry> = Vec::new();
        std::mem::swap(&mut entries, &mut self.entries);
        match Self::find(&entries, &key) {
            Some(i) => {
                proof {
                    lemma_replace(entries@, i as int, (key, value));
                }
                entries.set(i, (key, value));
            },
            None => {
                proof {
                    lemma_append(entries@, (key, value));
                }
                entries.push((key, value));
            },
        }
        self.entries = entries;
    }

    /// Takes the key out, if it was present.
    pub fn remove(&mut self, key: &str)
        ensures
            final(self)@ == old(self)@.remove(key@),
    {
        proof {
            use_type_invariant(&*self);
        }
        let mut entries: Vec<Entry> = Vec::new();
        std::mem::swap(&mut entries, &mut self.entries);
        let wanted = String::from_str(key);
        match Self::find(&entries, &wanted) {
            Some(i) => {
                proof {
                    lemma_take_out(entries@, i as int);
                }
                entries.remove(i);
            },
            None => {
                assert(entries_map(entries@).remove(key@) =~= entries_map(entries@));
            },
        }
        self.entries = entries;
    }
}

} // verus!
