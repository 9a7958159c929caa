//! Small maps and sets keyed by text.

use vstd::prelude::*;

use crate::text::{text_eq, texts};

verus! {

/// The value of the first entry with a key.
pub open spec fn lookup<V>(entries: Seq<(String, V)>, key: Seq<char>) -> Option<V>
    decreases entries.len(),
{
    if entries.len() == 0 {
        None
    } else if entries[0].0@ == key {
        Some(entries[0].1)
    } else {
        lookup(entries.drop_first(), key)
    }
}

/// The place of the first entry with a key, or the number of entries.
pub open spec fn place_of<V>(entries: Seq<(String, V)>, key: Seq<char>) -> int
    decreases entries.len(),
{
    if entries.len() == 0 || entries[0].0@ == key {
        0
    } else {
        1 + place_of(entries.drop_first(), key)
    }
}

proof fn place_is_first<V>(entries: Seq<(String, V)>, key: Seq<char>)
    ensures
        0 <= place_of(entries, key) <= entries.len(),
        place_of(entries, key) < entries.len() ==> entries[place_of(entries, key)].0@ == key
            && lookup(entries, key) == Some(entries[place_of(entries, key)].1),
        place_of(entries, key) == entries.len() ==> lookup(entries, key) is None,
        forall|j: int| 0 <= j < place_of(entries, key) ==> entries[j].0@ != key,
    decreases entries.len(),
{
    if entries.len() > 0 && entries[0].0@ != key {
        let rest = entries.drop_first();
        place_is_first(rest, key);
        assert forall|j: int| 0 <= j < place_of(entries, key) implies entries[j].0@ != key by {
            if j > 0 {
                assert(entries[j] == rest[j - 1]);
            }
        }
    }
}

proof fn lookup_by_place<V>(entries: Seq<(String, V)>, key: Seq<char>, at: int)
    requires
        0 <= at <= entries.len(),
        at < entries.len() ==> entries[at].0@ == key,
        forall|j: int| 0 <= j < at ==> entries[j].0@ != key,
    ensures
        lookup(entries, key) == (if at < entries.len() {
            Some(entries[at].1)
        } else {
            None
        }),
    decreases at,
{
    if at > 0 {
        let rest = entries.drop_first();
        assert forall|j: int| 0 <= j < at - 1 implies rest[j].0@ != key by {
            assert(rest[j] == entries[j + 1]);
        }
        lookup_by_place(rest, key, at - 1);
    }
}

proof fn lookup_after_push<V>(entries: Seq<(String, V)>, key: String, value: V, other: Seq<char>)
    requires
        lookup(entries, key@) is None,
    ensures
        lookup(entries.push((key, value)), other) == (if other == key@ {
            Some(value)
        } else {
            lookup(entries, other)
        }),
{
    place_is_first(entries, other);
    let all = entries.push((key, value));
    let at = place_of(entries, other);
    if at < entries.len() {
        lookup_by_place(all, other, at);
    } else if other == key@ {
        lookup_by_place(all, other, entries.len() as int);
    } else {
        lookup_by_place(all, other, all.len() as int);
    }
}

/// A map from texts to values.
#[derive(Debug)]
pub struct TextMap<V> {
    pub entries: Vec<(String, V)>,
}

impl<V> TextMap<V> {
    /// What the map holds under a key.
    pub open spec fn at(self, key: Seq<char>) -> Option<V> {
        lookup(self.entries@, key)
    }

    pub open spec fn has(self, key: Seq<char>) -> bool {
        self.at(key) is Some
    }

    pub fn new() -> (r: Self)
        ensures
            forall|k: Seq<char>| #[trigger] r.at(k) is None,
    {
        TextMap { entries: Vec::new() }
    }

    fn place(&self, key: &str) -> (r: usize)
        ensures
            r == place_of(self.entries@, key@),
            0 <= r <= self.entries@.len(),
            r < self.entries@.len() ==> self.entries@[r as int].0@ == key@ && self.at(key@) == Some(
                self.entries@[r as int].1,
            ),
            r == self.entries@.len() ==> self.at(key@) is None,
            forall|j: int| 0 <= j < r ==> self.entries@[j].0@ != key@,
    {
        let mut i: usize = 0;
        proof {
            place_is_first(self.entries@, key@);
        }
        while i < self.entries.len()
            invariant
                i <= self.entries@.len(),
                forall|j: int| 0 <= j < i ==> self.entries@[j].0@ != key@,
                place_of(self.entries@, key@) <= self.entries@.len(),
                place_of(self.entries@, key@) < self.entries@.len() ==> self.entries@[place_of(
                    self.entries@,
                    key@,
                )].0@ == key@ && self.at(key@) == Some(
                    self.entries@[place_of(self.entries@, key@)].1,
                ),
                place_of(self.entries@, key@) == self.entries@.len() ==> self.at(key@) is None,
                forall|j: int|
                    0 <= j < place_of(self.entries@, key@) ==> self.entries@[j].0@ != key@,
                place_of(self.entries@, key@) >= i,
            decreases self.entries@.len() - i,
        {
            if text_eq(self.entries[i].0.as_str(), key) {
                return i;
            }
            i = i + 1;
        }
        i
    }

    pub fn get(&self, key: &str) -> (r: Option<&V>)
        ensures
            match r {
                Some(v) => self.at(key@) == Some(*v),
                None => self.at(key@) is None,
            },
    {
        let at = self.place(key);
        if at < self.entries.len() {
            Some(&self.entries[at].1)
        } else {
            None
        }
    }

    pub fn contains(&self, key: &str) -> (r: bool)
        ensures
            r == self.has(key@),
    {
        self.place(key) < self.entries.len()
    }

    /// Takes what is under a key out of the map.
    pub fn remove(&mut self, key: &str) -> (r: Option<V>)
        ensures
            r == old(self).at(key@),
            final(self).at(key@) is None,
            forall|k: Seq<char>| k != key@ ==> #[trigger] final(self).at(k) == old(self).at(k),
            final(self).entries@.len() <= old(self).entries@.len(),
            !old(self).has(key@) ==> *final(self) == *old(self),
        decreases old(self).entries@.len(),
    {
        let at = self.place(key);
        if at >= self.entries.len() {
            return None;
        }
        let ghost before = self.entries@;
        let (_, value) = self.entries.remove(at);
        let ghost middle = self.entries@;
        let _ = self.remove(key);
        proof {
            assert forall|k: Seq<char>| k != key@ implies #[trigger] self.at(k) == lookup(
                before,
                k,
            ) by {
                place_is_first(before, k);
                let p = place_of(before, k);
                if p < before.len() {
                    if p < at {
                        assert(middle[p] == before[p]);
                        assert forall|j: int| 0 <= j < p implies middle[j].0@ != k by {
                            assert(middle[j] == before[j]);
                        }
                        lookup_by_place(middle, k, p);
                    } else {
                        assert(p != at);
                        assert(middle[p - 1] == before[p]);
                        assert forall|j: int| 0 <= j < p - 1 implies middle[j].0@ != k by {
                            if j < at {
                                assert(middle[j] == before[j]);
                            } else {
                                assert(middle[j] == before[j + 1]);
                            }
                        }
                        lookup_by_place(middle, k, p - 1);
                    }
                } else {
                    assert forall|j: int| 0 <= j < middle.len() implies middle[j].0@ != k by {
                        if j < at {
                            assert(middle[j] == before[j]);
                        } else {
                            assert(middle[j] == before[j + 1]);
                        }
                    }
                    lookup_by_place(middle, k, middle.len() as int);
                }
            }
        }
        Some(value)
    }

    /// Puts a value under a key, in the place of the one that was there.
    pub fn insert(&mut self, key: String, value: V)
        ensures
            final(self).at(key@) == Some(value),
            forall|k: Seq<char>| k != key@ ==> #[trigger] final(self).at(k) == old(self).at(k),
    {
        let _ = self.remove(key.as_str());
        let ghost middle = *self;
        self.entries.push((key, value));
        proof {
            lookup_after_push(middle.entries@, key, value, key@);
            assert forall|k: Seq<char>| k != key@ implies #[trigger] self.at(k) == old(self).at(
                k,
            ) by {
                lookup_after_push(middle.entries@, key, value, k);
                assert(middle.at(k) == old(self).at(k));
            }
        }
    }
}

impl<V> TextMap<V> {
    /// Keeps what is under some keys, and drops the rest.
    pub fn retain(&mut self, keep: &Vec<String>)
        ensures
            forall|k: Seq<char>| #[trigger]
                final(self).at(k) == (if texts(keep@).contains(k) {
                    old(self).at(k)
                } else {
                    None
                }),
    {
        let mut kept: TextMap<V> = TextMap::new();
        let mut i: usize = 0;
        assert(forall|k: Seq<char>| !#[trigger] texts(keep@).take(0).contains(k));
        while i < keep.len()
            invariant
                i <= keep@.len(),
                forall|k: Seq<char>| #[trigger]
                    kept.at(k) == (if texts(keep@).take(i as int).contains(k) {
                        old(self).at(k)
                    } else {
                        None
                    }),
                forall|k: Seq<char>| #[trigger]
                    self.at(k) == (if texts(keep@).take(i as int).contains(k) {
                        None
                    } else {
                        old(self).at(k)
                    }),
            decreases keep@.len() - i,
        {
            let ghost before = *self;
            let ghost kept_before = kept;
            let ghost key = keep@[i as int]@;
            let ghost seen = texts(keep@).take(i as int);
            assert(texts(keep@).take(i + 1) =~= seen.push(key));
            assert forall|k: Seq<char>| #[trigger] texts(keep@).take(i + 1).contains(k) == (
            seen.contains(k) || k == key) by {
                if seen.contains(k) {
                    let j = choose|j: int| 0 <= j < seen.len() && seen[j] == k;
                    assert(seen.push(key)[j] == k);
                }
                if k == key {
                    assert(seen.push(key)[seen.len() as int] == k);
                }
            }
            if let Some(value) = self.remove(keep[i].as_str()) {
                kept.insert(keep[i].clone(), value);
            }
            assert forall|k: Seq<char>| #[trigger]
                kept.at(k) == (if texts(keep@).take(i + 1).contains(k) {
                    old(self).at(k)
                } else {
                    None
                }) by {
                assert(kept_before.at(k) == (if seen.contains(k) {
                    old(self).at(k)
                } else {
                    None
                }));
                assert(before.at(key) == (if seen.contains(key) {
                    None
                } else {
                    old(self).at(key)
                }));
            }
            assert forall|k: Seq<char>| #[trigger]
                self.at(k) == (if texts(keep@).take(i + 1).contains(k) {
                    None
                } else {
                    old(self).at(k)
                }) by {
                assert(before.at(k) == (if seen.contains(k) {
                    None
                } else {
                    old(self).at(k)
                }));
            }
            i = i + 1;
        }
        assert(texts(keep@).take(i as int) =~= texts(keep@));
        *self = kept;
    }
}

/// A set of texts.
#[derive(Debug)]
pub struct TextSet {
    pub entries: TextMap<bool>,
}

impl TextSet {
    pub open spec fn has(self, key: Seq<char>) -> bool {
        self.entries.has(key)
    }

    pub fn new() -> (r: Self)
        ensures
            forall|k: Seq<char>| !#[trigger] r.has(k),
    {
        let entries: TextMap<bool> = TextMap::new();
        assert forall|k: Seq<char>| !#[trigger] entries.has(k) by {
            assert(entries.at(k) is None);
        }
        TextSet { entries }
    }

    pub fn contains(&self, key: &str) -> (r: bool)
        ensures
            r == self.has(key@),
    {
        self.entries.contains(key)
    }

    /// Adds a text, and says whether it was new.
    pub fn insert(&mut self, key: String) -> (r: bool)
        ensures
            r == !old(self).has(key@),
            final(self).has(key@),
            forall|k: Seq<char>| k != key@ ==> #[trigger] final(self).has(k) == old(self).has(k),
    {
        let new = !self.entries.contains(key.as_str());
        self.entries.insert(key, true);
        assert forall|k: Seq<char>| k != key@ implies #[trigger] self.has(k) == old(self).has(
            k,
        ) by {
            assert(self.entries.at(k) == old(self).entries.at(k));
        }
        new
    }

    /// Takes a text out, and says whether it was there.
    pub fn remove(&mut self, key: &str) -> (r: bool)
        ensures
            r == old(self).has(key@),
            !final(self).has(key@),
            forall|k: Seq<char>| k != key@ ==> #[trigger] final(self).has(k) == old(self).has(k),
    {
        let had = self.entries.remove(key).is_some();
        assert forall|k: Seq<char>| k != key@ implies #[trigger] self.has(k) == old(self).has(
            k,
        ) by {
            assert(self.entries.at(k) == old(self).entries.at(k));
        }
        had
    }
}

} // verus!
