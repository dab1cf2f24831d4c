//! A map keyed by text, kept as a list of entries whose keys are pairwise
//! distinct.

use crate::text::same_text;
use vstd::prelude::*;

verus! {

/// True when entry `i` of `entries` is stored under `key`.
spec fn holds_at<V>(entries: Seq<(String, V)>, i: int, key: Seq<char>) -> bool {
    0 <= i < entries.len() && entries[i].0@ == key
}

/// True when no two entries share a key.
spec fn distinct_keys<V>(entries: Seq<(String, V)>) -> bool {
    forall|i: int, j: int|
        0 <= i < j < entries.len() ==> (#[trigger] entries[i]).0@ != (#[trigger] entries[j]).0@
}

/// The finite map that a list of entries denotes.
spec fn assoc<V>(entries: Seq<(String, V)>) -> Map<Seq<char>, V> {
    Map::new(
        |key: Seq<char>| exists|i: int| holds_at(entries, i, key),
        |key: Seq<char>| entries[choose|i: int| holds_at(entries, i, key)].1,
    )
}

/// With distinct keys, every entry is found under its own key.
proof fn lemma_assoc_entry<V>(entries: Seq<(String, V)>, i: int)
    requires
        distinct_keys(entries),
        0 <= i < entries.len(),
    ensures
        assoc(entries).contains_key(entries[i].0@),
        assoc(entries)[entries[i].0@] == entries[i].1,
{
    let key = entries[i].0@;
    assert(holds_at(entries, i, key));
    let j = choose|j: int| holds_at(entries, j, key);
    assert(holds_at(entries, j, key));
    if j < i {
        assert(entries[j].0@ != entries[i].0@);
    } else if i < j {
        assert(entries[i].0@ != entries[j].0@);
    }
}

/// Appending an entry under a fresh key inserts it into the denoted map.
proof fn lemma_assoc_push<V>(entries: Seq<(String, V)>, key: String, value: V)
    requires
        distinct_keys(entries),
        !assoc(entries).contains_key(key@),
    ensures
        distinct_keys(entries.push((key, value))),
        assoc(entries.push((key, value))) == assoc(entries).insert(key@, value),
{
    let grown = entries.push((key, value));
    let last = entries.len() as int;
    assert forall|i: int, j: int| 0 <= i < j < grown.len() implies (#[trigger] grown[i]).0@ != (
    #[trigger] grown[j]).0@ by {
        if j == last {
            assert(holds_at(entries, i, grown[i].0@));
        } else {
            assert(grown[i] == entries[i] && grown[j] == entries[j]);
        }
    }
    assert forall|k: Seq<char>| #[trigger]
        assoc(grown).contains_key(k) == assoc(entries).insert(key@, value).contains_key(k) by {
        if assoc(grown).contains_key(k) {
            let i = choose|i: int| holds_at(grown, i, k);
            if i != last {
                assert(holds_at(entries, i, k));
            }
        }
        if assoc(entries).contains_key(k) {
            let i = choose|i: int| holds_at(entries, i, k);
            assert(holds_at(grown, i, k));
        }
        if k == key@ {
            assert(holds_at(grown, last, k));
        }
    }
    assert forall|k: Seq<char>| #[trigger]
        assoc(grown).contains_key(k) implies assoc(grown)[k] == assoc(entries).insert(
        key@,
        value,
    )[k] by {
        let i = choose|i: int| holds_at(grown, i, k);
        lemma_assoc_entry(grown, i);
        if i != last {
            assert(grown[i] == entries[i]);
            lemma_assoc_entry(entries, i);
        }
    }
    assert(assoc(grown) =~= assoc(entries).insert(key@, value));
}

/// Dropping entry `i` removes its key from the denoted map.
proof fn lemma_assoc_remove<V>(entries: Seq<(String, V)>, i: int)
    requires
        distinct_keys(entries),
        0 <= i < entries.len(),
    ensures
        distinct_keys(entries.remove(i)),
        assoc(entries.remove(i)) == assoc(entries).remove(entries[i].0@),
{
    let rest = entries.remove(i);
    let key = entries[i].0@;
    assert forall|j: int| 0 <= j < rest.len() implies #[trigger] rest[j] == entries[if j < i {
        j
    } else {
        j + 1
    }] by {}
    assert forall|a: int, b: int| 0 <= a < b < rest.len() implies (#[trigger] rest[a]).0@ != (
    #[trigger] rest[b]).0@ by {
        let a0 = if a < i { a } else { a + 1 };
        let b0 = if b < i { b } else { b + 1 };
        assert(rest[a] == entries[a0] && rest[b] == entries[b0]);
        assert(entries[a0].0@ != entries[b0].0@);
    }
    assert forall|k: Seq<char>| #[trigger]
        assoc(rest).contains_key(k) == assoc(entries).remove(key).contains_key(k) by {
        if assoc(rest).contains_key(k) {
            let j = choose|j: int| holds_at(rest, j, k);
            let j0 = if j < i { j } else { j + 1 };
            assert(rest[j] == entries[j0]);
            assert(holds_at(entries, j0, k));
            if j0 < i {
                assert(entries[j0].0@ != entries[i].0@);
            } else {
                assert(entries[i].0@ != entries[j0].0@);
            }
        }
        if assoc(entries).remove(key).contains_key(k) {
            let j0 = choose|j: int| holds_at(entries, j, k);
            assert(j0 != i);
            let j = if j0 < i { j0 } else { j0 - 1 };
            assert(rest[j] == entries[j0]);
            assert(holds_at(rest, j, k));
        }
    }
    assert forall|k: Seq<char>| #[trigger]
        assoc(rest).contains_key(k) implies assoc(rest)[k] == assoc(entries).remove(key)[k] by {
        let j = choose|j: int| holds_at(rest, j, k);
        let j0 = if j < i { j } else { j + 1 };
        assert(rest[j] == entries[j0]);
        lemma_assoc_entry(rest, j);
        lemma_assoc_entry(entries, j0);
    }
    assert(assoc(rest) =~= assoc(entries).remove(key));
}

/// With distinct keys, the denoted map has as many keys as there are entries.
proof fn lemma_assoc_len<V>(entries: Seq<(String, V)>)
    requires
        distinct_keys(entries),
    ensures
        assoc(entries).dom().finite(),
        assoc(entries).len() == entries.len(),
    decreases entries.len(),
{
    if entries.len() == 0 {
        assert(assoc(entries) =~= Map::<Seq<char>, V>::empty());
    } else {
        let last = entries.len() - 1;
        let front = entries.remove(last);
        lemma_assoc_remove(entries, last);
        lemma_assoc_len(front);
        lemma_assoc_entry(entries, last);
        let key = entries[last].0@;
        assert(assoc(entries).dom() =~= assoc(front).dom().insert(key));
    }
}

/// The index of the entry stored under `key`, if there is one.
fn position<V>(entries: &Vec<(String, V)>, key: &str) -> (at: Option<usize>)
    ensures
        match at {
            Some(i) => holds_at(entries@, i as int, key@),
            None => !assoc(entries@).contains_key(key@),
        },
{
    let mut i: usize = 0;
    while i < entries.len()
        invariant
            i <= entries@.len(),
            forall|j: int| 0 <= j < i ==> !holds_at(entries@, j, key@),
        decreases entries@.len() - i,
    {
        if same_text(entries[i].0.as_str(), key) {
            return Some(i);
        }
        i += 1;
    }
    None
}

/// Drops the entry stored under `key`, if there is one, and hands its value back.
fn take_out<V>(entries: &mut Vec<(String, V)>, key: &str) -> (removed: Option<V>)
    requires
        distinct_keys(old(entries)@),
    ensures
        distinct_keys(final(entries)@),
        assoc(final(entries)@) == assoc(old(entries)@).remove(key@),
        match removed {
            Some(before) => assoc(old(entries)@).contains_key(key@) && before == assoc(
                old(entries)@,
            )[key@],
            None => !assoc(old(entries)@).contains_key(key@),
        },
{
    match position(entries, key) {
        Some(i) => {
            proof {
                lemma_assoc_entry(entries@, i as int);
                lemma_assoc_remove(entries@, i as int);
            }
            let entry = entries.remove(i);
            Some(entry.1)
        },
        None => {
            assert(assoc(entries@).remove(key@) =~= assoc(entries@));
            None
        },
    }
}

/// A finite map from text to `V`.
pub struct TextMap<V> {
    entries: Vec<(String, V)>,
}

impl<V> View for TextMap<V> {
    type V = Map<Seq<char>, V>;

    closed spec fn view(&self) -> Map<Seq<char>, V> {
        assoc(self.entries@)
    }
}

impl<V> TextMap<V> {
    #[verifier::type_invariant]
    spec fn well_formed(self) -> bool {
        distinct_keys(self.entries@)
    }

    /// The map without any key.
    pub fn new() -> (map: Self)
        ensures
            map@ == Map::<Seq<char>, V>::empty(),
    {
        let map = TextMap { entries: Vec::new() };
        assert(map@ =~= Map::<Seq<char>, V>::empty());
        map
    }

    /// Moves the entries out and leaves the map empty.
    fn unload(&mut self) -> (entries: Vec<(String, V)>)
        ensures
            distinct_keys(entries@),
            assoc(entries@) == old(self)@,
    {
        proof {
            use_type_invariant(&*self);
        }
        let mut entries: Vec<(String, V)> = Vec::new();
        core::mem::swap(&mut self.entries, &mut entries);
        entries
    }

    /// The number of keys.
    pub fn len(&self) -> (n: usize)
        ensures
            self@.dom().finite(),
            n == self@.len(),
    {
        proof {
            use_type_invariant(self);
            lemma_assoc_len(self.entries@);
        }
        self.entries.len()
    }

    /// The keys, each once, in no particular order.
    pub fn keys(&self) -> (names: Vec<String>)
        ensures
            self@.dom().finite(),
            names@.len() == self@.len(),
            forall|i: int, j: int|
                0 <= i < j < names@.len() ==> (#[trigger] names@[i])@ != (#[trigger] names@[j])@,
            forall|i: int| 0 <= i < names@.len() ==> self@.contains_key((#[trigger] names@[i])@),
            forall|key: Seq<char>|
                self@.contains_key(key) ==> exists|i: int|
                    0 <= i < names@.len() && (#[trigger] names@[i])@ == key,
    {
        proof {
            use_type_invariant(self);
            lemma_assoc_len(self.entries@);
        }
        let mut names: Vec<String> = Vec::new();
        let mut i: usize = 0;
        while i < self.entries.len()
            invariant
                i <= self.entries@.len(),
                names@.len() == i,
                forall|j: int| 0 <= j < i ==> (#[trigger] names@[j])@ == self.entries@[j].0@,
            decreases self.entries@.len() - i,
        {
            names.push(self.entries[i].0.clone());
            i += 1;
        }
        proof {
            assert forall|a: int, b: int| 0 <= a < b < names@.len() implies (#[trigger] names@[a])@
                != (#[trigger] names@[b])@ by {
                assert(self.entries@[a].0@ != self.entries@[b].0@);
            }
            assert forall|a: int| 0 <= a < names@.len() implies self@.contains_key(
                (#[trigger] names@[a])@,
            ) by {
                lemma_assoc_entry(self.entries@, a);
            }
            assert forall|key: Seq<char>| self@.contains_key(key) implies exists|a: int|
                0 <= a < names@.len() && (#[trigger] names@[a])@ == key by {
                let a = choose|a: int| holds_at(self.entries@, a, key);
                assert(names@[a]@ == key);
            }
        }
        names
    }

    /// Whether a value is stored under `key`.
    pub fn contains_key(&self, key: &str) -> (present: bool)
        ensures
            present == self@.contains_key(key@),
    {
        match position(&self.entries, key) {
            Some(i) => {
                proof {
                    use_type_invariant(self);
                    lemma_assoc_entry(self.entries@, i as int);
                }
                true
            },
            None => false,
        }
    }

    /// The value stored under `key`, if there is one.
    pub fn get(&self, key: &str) -> (found: Option<&V>)
        ensures
            match found {
                Some(value) => self@.contains_key(key@) && *value == self@[key@],
                None => !self@.contains_key(key@),
            },
    {
        match position(&self.entries, key) {
            Some(i) => {
                proof {
                    use_type_invariant(self);
                    lemma_assoc_entry(self.entries@, i as int);
                }
                Some(&self.entries[i].1)
            },
            None => None,
        }
    }

    /// Stores `value` under `key` and hands back what was stored there before.
    pub fn insert(&mut self, key: String, value: V) -> (previous: Option<V>)
        ensures
            final(self)@ == old(self)@.insert(key@, value),
            match previous {
                Some(before) => old(self)@.contains_key(key@) && before == old(self)@[key@],
                None => !old(self)@.contains_key(key@),
            },
    {
        let mut entries = self.unload();
        let previous = take_out(&mut entries, key.as_str());
        proof {
            lemma_assoc_push(entries@, key, value);
            assert(old(self)@.remove(key@).insert(key@, value) =~= old(self)@.insert(key@, value));
        }
        entries.push((key, value));
        self.entries = entries;
        previous
    }

    /// Drops `key` and hands back what was stored under it.
    pub fn remove(&mut self, key: &str) -> (removed: Option<V>)
        ensures
            final(self)@ == old(self)@.remove(key@),
            match removed {
                Some(before) => old(self)@.contains_key(key@) && before == old(self)@[key@],
                None => !old(self)@.contains_key(key@),
            },
    {
        let mut entries = self.unload();
        let removed = take_out(&mut entries, key);
        self.entries = entries;
        removed
    }
}

} // verus!
