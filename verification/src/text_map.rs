//! A map from texts to values, for few entries: it is walked from its first
//! entry to its last.
use crate::text::same_text;
use vstd::prelude::*;

verus! {

/// A map from texts to values. No text stands in it twice.
#[derive(Debug)]
pub struct TextMap<V> {
    keys: Vec<String>,
    values: Vec<V>,
}

/// No key stands in the sequence twice.
pub open spec fn keys_are_unique<V>(entries: Seq<(Seq<char>, V)>) -> bool {
    forall|i: int, j: int| 0 <= i < j < entries.len() ==> (#[trigger] entries[i]).0 != (#[trigger] entries[j]).0
}

/// The position of a key, or -1.
pub open spec fn position<V>(entries: Seq<(Seq<char>, V)>, key: Seq<char>) -> int
    decreases entries.len(),
{
    if entries.len() == 0 {
        -1
    } else if entries.last().0 == key {
        entries.len() - 1
    } else {
        position(entries.drop_last(), key)
    }
}

/// The value under a key.
pub open spec fn lookup<V>(entries: Seq<(Seq<char>, V)>, key: Seq<char>) -> Option<V> {
    let at = position(entries, key);
    if at < 0 {
        None
    } else {
        Some(entries[at].1)
    }
}

/// What a map of texts says, apart from its order.
pub open spec fn as_texts(entries: Seq<(Seq<char>, String)>) -> Map<Seq<char>, Seq<char>> {
    Map::new(|key: Seq<char>| lookup(entries, key) is Some, |key: Seq<char>| lookup(entries, key)->0@)
}

/// How many entries a test holds of.
pub open spec fn count_where<V>(entries: Seq<(Seq<char>, V)>, test: spec_fn(V) -> bool) -> nat
    decreases entries.len(),
{
    if entries.len() == 0 {
        0
    } else {
        count_where(entries.drop_last(), test) + (if test(entries.last().1) {
            1nat
        } else {
            0nat
        })
    }
}

/// A key that stands somewhere is found there.
pub proof fn lemma_position<V>(entries: Seq<(Seq<char>, V)>, key: Seq<char>)
    ensures
        -1 <= position(entries, key) < entries.len(),
        position(entries, key) >= 0 ==> entries[position(entries, key)].0 == key,
        position(entries, key) < 0 ==> forall|i: int| 0 <= i < entries.len() ==> (#[trigger] entries[i]).0 != key,
    decreases entries.len(),
{
    if entries.len() > 0 && entries.last().0 != key {
        lemma_position(entries.drop_last(), key);
        assert forall|i: int| position(entries, key) < 0 && 0 <= i < entries.len() implies (
        #[trigger] entries[i]).0 != key by {
            if i < entries.len() - 1 {
                assert(entries.drop_last()[i] == entries[i]);
            }
        }
    }
}

/// Where keys are unique, a key that stands at a position is found there.
pub proof fn lemma_unique_position<V>(entries: Seq<(Seq<char>, V)>, at: int)
    requires
        keys_are_unique(entries),
        0 <= at < entries.len(),
    ensures
        position(entries, entries[at].0) == at,
{
    lemma_position(entries, entries[at].0);
    let found = position(entries, entries[at].0);
    assert(entries[found].0 == entries[at].0);
    if found < at {
        assert(entries[found].0 != entries[at].0);
    }
    if at < found {
        assert(entries[at].0 != entries[found].0);
    }
}

/// Taking an entry out takes its key out and leaves the others.
pub proof fn lemma_removed<V>(entries: Seq<(Seq<char>, V)>, at: int)
    requires
        keys_are_unique(entries),
        0 <= at < entries.len(),
    ensures
        keys_are_unique(entries.remove(at)),
        lookup(entries.remove(at), entries[at].0) is None,
        forall|key: Seq<char>|
            key != entries[at].0 ==> #[trigger] lookup(entries.remove(at), key) == lookup(entries, key),
{
    let rest = entries.remove(at);
    let gone = entries[at].0;
    assert forall|i: int, j: int| 0 <= i < j < rest.len() implies (#[trigger] rest[i]).0 != (
    #[trigger] rest[j]).0 by {
        let a = if i < at {
            i
        } else {
            i + 1
        };
        let b = if j < at {
            j
        } else {
            j + 1
        };
        assert(rest[i] == entries[a]);
        assert(rest[j] == entries[b]);
    }
    lemma_position(rest, gone);
    if position(rest, gone) >= 0 {
        let p = position(rest, gone);
        if p < at {
            assert(rest[p] == entries[p]);
            assert(entries[p].0 != entries[at].0);
        } else {
            assert(rest[p] == entries[p + 1]);
            assert(entries[at].0 != entries[p + 1].0);
        }
    }
    assert forall|key: Seq<char>| key != gone implies #[trigger] lookup(rest, key) == lookup(entries, key) by {
        lemma_position(rest, key);
        lemma_position(entries, key);
        if position(entries, key) >= 0 {
            let p = position(entries, key);
            let q = if p < at {
                p
            } else {
                p - 1
            };
            assert(rest[q] == entries[p]);
            lemma_unique_position(rest, q);
        } else if position(rest, key) >= 0 {
            let q = position(rest, key);
            let p = if q < at {
                q
            } else {
                q + 1
            };
            assert(rest[q] == entries[p]);
        }
    }
}

/// Putting a new entry behind the others gives its key a value and leaves the
/// others.
pub proof fn lemma_pushed<V>(entries: Seq<(Seq<char>, V)>, key: Seq<char>, value: V)
    requires
        keys_are_unique(entries),
        lookup(entries, key) is None,
    ensures
        keys_are_unique(entries.push((key, value))),
        lookup(entries.push((key, value)), key) == Some(value),
        forall|other: Seq<char>|
            other != key ==> #[trigger] lookup(entries.push((key, value)), other) == lookup(entries, other),
{
    let all = entries.push((key, value));
    lemma_position(entries, key);
    assert(all.drop_last() =~= entries);
    assert forall|i: int, j: int| 0 <= i < j < all.len() implies (#[trigger] all[i]).0 != (#[trigger] all[j]).0 by {
        if j == all.len() - 1 {
            assert(entries[i].0 != key);
        } else {
            assert(entries[i].0 != entries[j].0);
        }
    }
    assert forall|other: Seq<char>| other != key implies #[trigger] lookup(all, other) == lookup(entries, other) by {
        lemma_position(entries, other);
        let p = position(entries, other);
        if p >= 0 {
            assert(all[p] == entries[p]);
        }
    }
}

/// Taking an entry out lowers a count by one where the test holds of it.
pub proof fn lemma_count_removed<V>(entries: Seq<(Seq<char>, V)>, at: int, test: spec_fn(V) -> bool)
    requires
        0 <= at < entries.len(),
    ensures
        count_where(entries, test) == count_where(entries.remove(at), test) + (if test(entries[at].1) {
            1nat
        } else {
            0nat
        }),
    decreases entries.len(),
{
    if at == entries.len() - 1 {
        assert(entries.remove(at) =~= entries.drop_last());
    } else {
        lemma_count_removed(entries.drop_last(), at, test);
        assert(entries.remove(at).drop_last() =~= entries.drop_last().remove(at));
        assert(entries.remove(at).last() == entries.last());
        assert(entries.drop_last()[at] == entries[at]);
    }
}

/// A count is never more than there are entries, and an entry that the test
/// holds of is counted.
pub proof fn lemma_count_bound<V>(entries: Seq<(Seq<char>, V)>, test: spec_fn(V) -> bool)
    ensures
        count_where(entries, test) <= entries.len(),
        count_where(entries, test) == 0 <==> forall|i: int|
            0 <= i < entries.len() ==> !test((#[trigger] entries[i]).1),
    decreases entries.len(),
{
    if entries.len() > 0 {
        lemma_count_bound(entries.drop_last(), test);
        let front = entries.drop_last();
        if count_where(entries, test) == 0 {
            assert forall|i: int| 0 <= i < entries.len() implies !test((#[trigger] entries[i]).1) by {
                if i < front.len() {
                    assert(front[i] == entries[i]);
                }
            }
        }
        if forall|i: int| 0 <= i < entries.len() ==> !test((#[trigger] entries[i]).1) {
            assert forall|i: int| 0 <= i < front.len() implies !test((#[trigger] front[i]).1) by {
                assert(front[i] == entries[i]);
            }
            assert(!test(entries[entries.len() - 1].1));
        }
    }
}

impl<V> TextMap<V> {
    #[verifier::type_invariant]
    spec fn well_formed(self) -> bool {
        self.keys@.len() == self.values@.len() && keys_are_unique(self.spec_entries())
    }

    spec fn spec_entries(self) -> Seq<(Seq<char>, V)> {
        Seq::new(self.keys@.len(), |i: int| (self.keys@[i]@, self.values@[i]))
    }

    /// The entries, in the order in which their keys came.
    pub closed spec fn entries(&self) -> Seq<(Seq<char>, V)> {
        self.spec_entries()
    }

    /// A map without entries.
    pub fn new() -> (map: TextMap<V>)
        ensures
            map.entries() == Seq::<(Seq<char>, V)>::empty(),
    {
        let keys: Vec<String> = Vec::new();
        let values: Vec<V> = Vec::new();
        let map = TextMap { keys, values };
        assert(map.entries() =~= Seq::<(Seq<char>, V)>::empty());
        map
    }

    /// How many entries there are.
    pub fn len(&self) -> (count: usize)
        ensures
            count == self.entries().len(),
            keys_are_unique(self.entries()),
    {
        proof {
            use_type_invariant(&*self);
        }
        self.keys.len()
    }

    /// The key at a position.
    pub fn key_at(&self, at: usize) -> (key: &str)
        requires
            at < self.entries().len(),
        ensures
            key@ == self.entries()[at as int].0,
    {
        proof {
            use_type_invariant(&*self);
        }
        self.keys[at].as_str()
    }

    /// The value at a position.
    pub fn value_at(&self, at: usize) -> (value: &V)
        requires
            at < self.entries().len(),
        ensures
            *value == self.entries()[at as int].1,
    {
        proof {
            use_type_invariant(&*self);
        }
        &self.values[at]
    }

    fn find(&self, key: &str) -> (at: Option<usize>)
        ensures
            match at {
                Some(found) => found == position(self.entries(), key@) && found < self.entries().len()
                    && self.entries()[found as int].0 == key@,
                None => position(self.entries(), key@) < 0,
            },
    {
        proof {
            use_type_invariant(&*self);
        }
        let mut i: usize = 0;
        while i < self.keys.len()
            invariant
                i <= self.keys@.len(),
                self.entries().len() == self.keys@.len(),
                keys_are_unique(self.entries()),
                forall|j: int| 0 <= j < self.keys@.len() ==> (#[trigger] self.entries()[j]).0 == self.keys@[j]@,
                forall|j: int| 0 <= j < i ==> (#[trigger] self.entries()[j]).0 != key@,
            decreases self.keys@.len() - i,
        {
            if same_text(self.keys[i].as_str(), key) {
                proof {
                    lemma_unique_position(self.entries(), i as int);
                }
                return Some(i);
            }
            i = i + 1;
        }
        proof {
            lemma_position(self.entries(), key@);
        }
        None
    }

    /// The value under a key.
    pub fn get(&self, key: &str) -> (value: Option<&V>)
        ensures
            match value {
                Some(found) => lookup(self.entries(), key@) == Some(*found),
                None => lookup(self.entries(), key@) is None,
            },
    {
        proof {
            use_type_invariant(&*self);
        }
        match self.find(key) {
            Some(at) => {
                assert(self.entries()[at as int].1 == self.values@[at as int]);
                Some(&self.values[at])
            },
            None => None,
        }
    }

    /// Says whether a key has a value.
    pub fn contains(&self, key: &str) -> (found: bool)
        ensures
            found == (lookup(self.entries(), key@) is Some),
    {
        self.find(key).is_some()
    }

    /// Takes an entry out.
    pub fn remove(&mut self, key: &str) -> (value: Option<V>)
        ensures
            value == lookup(old(self).entries(), key@),
            match value {
                Some(_) => final(self).entries() == old(self).entries().remove(
                    position(old(self).entries(), key@),
                ),
                None => final(self).entries() == old(self).entries(),
            },
            lookup(final(self).entries(), key@) is None,
            forall|other: Seq<char>|
                other != key@ ==> #[trigger] lookup(final(self).entries(), other) == lookup(
                    old(self).entries(),
                    other,
                ),
    {
        proof {
            use_type_invariant(&*self);
        }
        match self.find(key) {
            Some(at) => {
                let ghost before = self.entries();
                let empty: TextMap<V> = TextMap::new();
                let mut taken = empty;
                core::mem::swap(self, &mut taken);
                let TextMap { keys: mut all_keys, values: mut all_values } = taken;
                let _gone = all_keys.remove(at);
                let value = all_values.remove(at);
                proof {
                    lemma_removed(before, at as int);
                    let after = Seq::new(all_keys@.len(), |i: int| (all_keys@[i]@, all_values@[i]));
                    assert(after =~= before.remove(at as int));
                }
                *self = TextMap { keys: all_keys, values: all_values };
                assert(self.entries() =~= before.remove(at as int));
                Some(value)
            },
            None => None,
        }
    }

    /// Puts a value under a key: behind the other entries, also where the key
    /// had a value before.
    pub fn insert(&mut self, key: String, value: V) -> (before: Option<V>)
        ensures
            before == lookup(old(self).entries(), key@),
            final(self).entries() == (match before {
                Some(_) => old(self).entries().remove(position(old(self).entries(), key@)),
                None => old(self).entries(),
            }).push((key@, value)),
            lookup(final(self).entries(), key@) == Some(value),
            forall|other: Seq<char>|
                other != key@ ==> #[trigger] lookup(final(self).entries(), other) == lookup(
                    old(self).entries(),
                    other,
                ),
    {
        let earlier = self.remove(key.as_str());
        proof {
            use_type_invariant(&*self);
        }
        let ghost rest = self.entries();
        let empty: TextMap<V> = TextMap::new();
        let mut taken = empty;
        core::mem::swap(self, &mut taken);
        let TextMap { keys: mut all_keys, values: mut all_values } = taken;
        let ghost name = key@;
        all_keys.push(key);
        all_values.push(value);
        proof {
            lemma_pushed(rest, name, value);
            let after = Seq::new(all_keys@.len(), |i: int| (all_keys@[i]@, all_values@[i]));
            assert(after =~= rest.push((name, value)));
        }
        *self = TextMap { keys: all_keys, values: all_values };
        assert(self.entries() =~= rest.push((name, value)));
        earlier
    }
}

/// A map of texts says of a key what stands under it, and nothing of a key under
/// which nothing stands.
pub proof fn maps_say_what_stands_under_a_key(entries: Seq<(Seq<char>, String)>, at: int, key: Seq<char>)
    requires
        keys_are_unique(entries),
        0 <= at < entries.len(),
    ensures
        as_texts(entries).contains_key(entries[at].0),
        as_texts(entries)[entries[at].0] == entries[at].1@,
        as_texts(entries).contains_key(key) ==> exists|i: int| 0 <= i < entries.len() && (#[trigger] entries[i]).0 == key,
{
    lemma_unique_position(entries, at);
    lemma_position(entries, key);
    if as_texts(entries).contains_key(key) {
        assert(entries[position(entries, key)].0 == key);
    }
}

} // verus!
