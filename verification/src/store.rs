//! The record set of one backend: at most one snippet under each key, kept in
//! the order in which the keys first arrived.

use vstd::prelude::*;
use crate::record::{Record, Snippet};

verus! {

/// The record set as a sequence of keys with their records.
pub type Entries = Seq<(Seq<char>, Record)>;

/// Some entry of `s` stands under `key`.
pub open spec fn has_key(s: Entries, key: Seq<char>) -> bool {
    exists|i: int| 0 <= i < s.len() && (#[trigger] s[i]).0 == key
}

/// A position of `s` that holds `key`, where there is one.
pub open spec fn key_index(s: Entries, key: Seq<char>) -> int {
    choose|i: int| 0 <= i < s.len() && (#[trigger] s[i]).0 == key
}

/// No key stands at two positions of `s`.
pub open spec fn distinct_keys(s: Entries) -> bool {
    forall|i: int, j: int| 0 <= i < j < s.len() ==> (#[trigger] s[i]).0 != (#[trigger] s[j]).0
}

/// The record under `key`, if any.
pub open spec fn lookup(s: Entries, key: Seq<char>) -> Option<Record> {
    if has_key(s, key) {
        Some(s[key_index(s, key)].1)
    } else {
        None
    }
}

/// `s` with `record` under `key`: in the place of the entry that held the key,
/// or at the end where none did.
pub open spec fn upsert(s: Entries, key: Seq<char>, record: Record) -> Entries {
    if has_key(s, key) {
        s.update(key_index(s, key), (key, record))
    } else {
        s.push((key, record))
    }
}

/// `s` without the entry under `key`; `s` itself where there is none.
pub open spec fn erase(s: Entries, key: Seq<char>) -> Entries {
    if has_key(s, key) {
        s.remove(key_index(s, key))
    } else {
        s
    }
}

/// In a sequence of distinct keys the position of a key is the only one that holds it.
pub proof fn lemma_key_index_unique(s: Entries, key: Seq<char>, i: int)
    requires
        distinct_keys(s),
        0 <= i < s.len(),
        s[i].0 == key,
    ensures
        has_key(s, key),
        key_index(s, key) == i,
{
    let c = key_index(s, key);
    assert(0 <= c < s.len() && s[c].0 == key);
    if c < i {
        assert(s[c].0 != s[i].0);
    } else if i < c {
        assert(s[i].0 != s[c].0);
    }
}

/// One key with its snippet.
pub struct Entry {
    pub key: String,
    pub snippet: Snippet,
}

impl View for Entry {
    type V = (Seq<char>, Record);

    open spec fn view(&self) -> (Seq<char>, Record) {
        (self.key@, self.snippet@)
    }
}

/// A mapping from keys to snippets.
pub struct SnippetMap {
    entries: Vec<Entry>,
}

impl View for SnippetMap {
    type V = Entries;

    closed spec fn view(&self) -> Entries {
        self.entries@.map_values(|e: Entry| e@)
    }
}

impl SnippetMap {
    /// The invariant of the type: no key occurs twice.
    pub open spec fn wf(&self) -> bool {
        distinct_keys(self@)
    }

    /// The mapping without entries.
    pub fn new() -> (r: SnippetMap)
        ensures
            r.wf(),
            r@ == Seq::<(Seq<char>, Record)>::empty(),
    {
        let r = SnippetMap { entries: Vec::new() };
        assert(r@ =~= Seq::<(Seq<char>, Record)>::empty());
        r
    }

    /// The number of entries.
    pub fn len(&self) -> (n: usize)
        ensures
            n == self@.len(),
    {
        self.entries.len()
    }

    /// The entry at position `i`.
    pub fn entry(&self, i: usize) -> (e: &Entry)
        requires
            i < self@.len(),
        ensures
            e@ == self@[i as int],
    {
        &self.entries[i]
    }

    /// The position of `key`, if an entry holds it.
    pub fn find(&self, key: &String) -> (r: Option<usize>)
        requires
            self.wf(),
        ensures
            match r {
                Some(i) => i < self@.len() && has_key(self@, key@) && key_index(self@, key@) == i,
                None => !has_key(self@, key@),
            },
    {
        let mut i: usize = 0;
        while i < self.entries.len()
            invariant
                self.wf(),
                i <= self.entries.len(),
                forall|j: int| 0 <= j < i ==> (#[trigger] self@[j]).0 != key@,
            decreases self.entries.len() - i,
        {
            if self.entries[i].key == *key {
                proof {
                    lemma_key_index_unique(self@, key@, i as int);
                }
                return Some(i);
            }
            i += 1;
        }
        None
    }

    /// The snippet under `key`, if any.
    pub fn get(&self, key: &str) -> (r: Option<Snippet>)
        requires
            self.wf(),
        ensures
            match r {
                Some(snippet) => lookup(self@, key@) == Some(snippet@),
                None => lookup(self@, key@) is None,
            },
    {
        let owned = key.to_owned();
        match self.find(&owned) {
            Some(i) => Some(self.entries[i].snippet.clone()),
            None => None,
        }
    }

    /// Puts `snippet` under `key`, in the place of the entry that held the key before.
    pub fn insert(&mut self, key: String, snippet: Snippet)
        requires
            old(self).wf(),
        ensures
            final(self).wf(),
            final(self)@ == upsert(old(self)@, key@, snippet@),
    {
        match self.find(&key) {
            Some(i) => {
                self.entries.set(i, Entry { key, snippet });
                proof {
                    lemma_upsert_distinct(old(self)@, key@, snippet@);
                    assert(self@ =~= upsert(old(self)@, key@, snippet@));
                }
            },
            None => {
                self.entries.push(Entry { key, snippet });
                proof {
                    lemma_upsert_distinct(old(self)@, key@, snippet@);
                    assert(self@ =~= upsert(old(self)@, key@, snippet@));
                }
            },
        }
    }

    /// Takes out the entry under `key`; nothing changes where there is none.
    pub fn remove(&mut self, key: &str)
        requires
            old(self).wf(),
        ensures
            final(self).wf(),
            final(self)@ == erase(old(self)@, key@),
    {
        let owned = key.to_owned();
        match self.find(&owned) {
            Some(i) => {
                self.entries.remove(i);
                proof {
                    lemma_erase_distinct(old(self)@, key@);
                    assert(self@ =~= erase(old(self)@, key@));
                }
            },
            None => {},
        }
    }
}

/// Putting a record under a key keeps the keys distinct.
pub proof fn lemma_upsert_distinct(s: Entries, key: Seq<char>, record: Record)
    requires
        distinct_keys(s),
    ensures
        distinct_keys(upsert(s, key, record)),
{
    let t = upsert(s, key, record);
    if has_key(s, key) {
        assert forall|i: int, j: int| 0 <= i < j < t.len() implies (#[trigger] t[i]).0 != (
        #[trigger] t[j]).0 by {
            assert(t[i].0 == s[i].0);
            assert(t[j].0 == s[j].0);
        }
    } else {
        assert forall|i: int, j: int| 0 <= i < j < t.len() implies (#[trigger] t[i]).0 != (
        #[trigger] t[j]).0 by {
            if j < s.len() {
                assert(t[i] == s[i] && t[j] == s[j]);
            } else {
                assert(t[i] == s[i]);
                assert(t[j].0 == key);
            }
        }
    }
}

/// Taking a key out keeps the keys distinct.
pub proof fn lemma_erase_distinct(s: Entries, key: Seq<char>)
    requires
        distinct_keys(s),
    ensures
        distinct_keys(erase(s, key)),
{
    let t = erase(s, key);
    if has_key(s, key) {
        let c = key_index(s, key);
        assert forall|i: int, j: int| 0 <= i < j < t.len() implies (#[trigger] t[i]).0 != (
        #[trigger] t[j]).0 by {
            let a = if i < c { i } else { i + 1 };
            let b = if j < c { j } else { j + 1 };
            assert(t[i] == s[a]);
            assert(t[j] == s[b]);
        }
    }
}

/// A record put under a key is the one found there afterwards, whatever stood
/// there before, and the records under all other keys stay as they were.
pub proof fn lemma_lookup_upsert(s: Entries, key: Seq<char>, record: Record, other: Seq<char>)
    requires
        distinct_keys(s),
    ensures
        lookup(upsert(s, key, record), key) == Some(record),
        other != key ==> lookup(upsert(s, key, record), other) == lookup(s, other),
{
    let t = upsert(s, key, record);
    lemma_upsert_distinct(s, key, record);
    let c = if has_key(s, key) { key_index(s, key) } else { s.len() as int };
    assert(t[c] == (key, record));
    lemma_key_index_unique(t, key, c);
    if other != key {
        if has_key(s, other) {
            let d = key_index(s, other);
            assert(t[d] == s[d]);
            lemma_key_index_unique(t, other, d);
        } else if has_key(t, other) {
            let e = key_index(t, other);
            assert(t[e] == s[e]);
        }
    }
}

/// After a key is taken out nothing is found under it, and the records under
/// all other keys stay as they were.
pub proof fn lemma_lookup_erase(s: Entries, key: Seq<char>, other: Seq<char>)
    requires
        distinct_keys(s),
    ensures
        lookup(erase(s, key), key) is None,
        other != key ==> lookup(erase(s, key), other) == lookup(s, other),
{
    let t = erase(s, key);
    lemma_erase_distinct(s, key);
    if has_key(s, key) {
        let c = key_index(s, key);
        if has_key(t, key) {
            let e = key_index(t, key);
            let a = if e < c { e } else { e + 1 };
            assert(t[e] == s[a]);
            lemma_key_index_unique(s, key, a);
        }
        if other != key {
            if has_key(s, other) {
                let d = key_index(s, other);
                let b = if d < c { d } else { d - 1 };
                assert(t[b] == s[d]);
                lemma_key_index_unique(t, other, b);
            } else if has_key(t, other) {
                let e = key_index(t, other);
                let a = if e < c { e } else { e + 1 };
                assert(t[e] == s[a]);
            }
        }
    }
}

} // verus!
