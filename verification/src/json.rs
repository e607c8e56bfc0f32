//! The persisted layout of the file backend: one JSON object whose keys are
//! record names and whose values are objects with the text members `name`,
//! `code` and `created_at`.
//!
//! Reading and printing JSON text is `serde_json`'s work; which documents
//! stand for a record set, and for which one, is decided here.

use vstd::prelude::*;
use std::collections::BTreeMap;
use crate::error::StorageError;
use crate::record::{Record, Snippet};
use crate::store::{
    distinct_keys, has_key, key_index, lemma_key_index_unique, lookup, upsert, Entries, SnippetMap,
};

verus! {

/// The members of a JSON object that was read: each name with its text, or
/// with `None` where the member is no JSON string.
pub type Members = Seq<(Seq<char>, Option<Seq<char>>)>;

/// A JSON object of objects that was read.
pub type Document = Seq<(Seq<char>, Members)>;

/// A JSON object of objects of text members, to be printed.
pub type Outline = Seq<(Seq<char>, Seq<(Seq<char>, Seq<char>)>)>;

/// `serde_json::Error`, the failure that `serde_json` reports. Nothing is
/// claimed of what it holds.
#[verifier::external_type_specification]
#[verifier::external_body]
pub struct ExJsonError(serde_json::Error);

/// What `serde_json::from_str` makes of `text` when asked for an object of
/// objects: the members in the order of their names, or `None` where it
/// reports an error.
pub uninterp spec fn json_document(text: Seq<char>) -> Option<Document>;

/// What `serde_json::to_string_pretty` prints for an object of objects of
/// text members, or `None` where it reports an error.
pub uninterp spec fn json_pretty(outline: Outline) -> Option<Seq<char>>;

/// No name stands at two positions of `s`.
pub open spec fn distinct_names<T>(s: Seq<(Seq<char>, T)>) -> bool {
    forall|i: int, j: int| 0 <= i < j < s.len() ==> (#[trigger] s[i]).0 != (#[trigger] s[j]).0
}

/// Calls `serde_json::from_str` for a map of maps of JSON values and hands
/// the maps over as vectors, each value as its text where
/// `serde_json::Value::as_str` gives one. Not proved, but taken from the
/// library: the outcome depends on the text alone, so it is `json_document`
/// of the text.
#[verifier::external_body]
fn parse_document(text: &str) -> (r: Result<
    Vec<(String, Vec<(String, Option<String>)>)>,
    serde_json::Error,
>)
    ensures
        match r {
            Ok(doc) => json_document(text@) == Some(doc.deep_view()),
            Err(_) => json_document(text@) is None,
        },
{
    let root: BTreeMap<String, BTreeMap<String, serde_json::Value>> = serde_json::from_str(text)?;
    Ok(
        root.into_iter().map(
            |(key, object)|
                (
                    key,
                    object.into_iter().map(
                        |(name, value)| (name, value.as_str().map(str::to_owned)),
                    ).collect(),
                ),
        ).collect(),
    )
}

/// Calls `serde_json::to_string_pretty` on the outline as a map of maps of
/// strings; no name may occur twice, so that the maps hold all of it. Not
/// proved, but taken from the library: the outcome depends on the outline
/// alone, so it is `json_pretty` of the outline.
#[verifier::external_body]
fn print_outline(outline: &Vec<(String, Vec<(String, String)>)>) -> (r: Result<
    String,
    serde_json::Error,
>)
    requires
        distinct_names(outline.deep_view()),
        forall|i: int|
            0 <= i < outline.len() ==> distinct_names((#[trigger] outline.deep_view()[i]).1),
    ensures
        match r {
            Ok(text) => json_pretty(outline.deep_view()) == Some(text@),
            Err(_) => json_pretty(outline.deep_view()) is None,
        },
{
    let root: BTreeMap<&String, BTreeMap<&String, &String>> = outline.iter().map(
        |(key, object)| (key, object.iter().map(|(name, text)| (name, text)).collect()),
    ).collect();
    serde_json::to_string_pretty(&root)
}

/// The text of the first member called `name`; `None` where there is no such
/// member or where it is no JSON string.
pub open spec fn member_text(members: Members, name: Seq<char>) -> Option<Seq<char>>
    decreases members.len(),
{
    if members.len() == 0 {
        None
    } else if members[0].0 == name {
        members[0].1
    } else {
        member_text(members.drop_first(), name)
    }
}

/// The record that an object stands for: its three text members, where it
/// has all of them.
pub open spec fn record_of(members: Members) -> Option<Record> {
    match (
        member_text(members, "name"@),
        member_text(members, "code"@),
        member_text(members, "created_at"@),
    ) {
        (Some(name), Some(code), Some(created_at)) => Some(Record { name, code, created_at }),
        _ => None,
    }
}

/// The record set that a document stands for: each object's record under the
/// object's key, or `None` where an object stands for no record.
pub open spec fn decode(doc: Document) -> Option<Entries>
    decreases doc.len(),
{
    if doc.len() == 0 {
        Some(Seq::empty())
    } else {
        match (decode(doc.drop_last()), record_of(doc.last().1)) {
            (Some(entries), Some(record)) => Some(upsert(entries, doc.last().0, record)),
            _ => None,
        }
    }
}

/// The object that is printed for a record.
pub open spec fn object_of(record: Record) -> Seq<(Seq<char>, Seq<char>)> {
    seq![("name"@, record.name), ("code"@, record.code), ("created_at"@, record.created_at)]
}

/// The outline that is printed for a record set.
pub open spec fn encode(entries: Entries) -> Outline {
    Seq::new(entries.len(), |i: int| (entries[i].0, object_of(entries[i].1)))
}

/// A document of which a part stands for no record set stands for none itself.
pub proof fn lemma_decode_prefix(doc: Document, n: int)
    requires
        0 <= n <= doc.len(),
        decode(doc.take(n)) is None,
    ensures
        decode(doc) is None,
    decreases doc.len() - n,
{
    if n < doc.len() {
        assert(doc.take(n + 1).drop_last() =~= doc.take(n));
        lemma_decode_prefix(doc, n + 1);
    } else {
        assert(doc.take(n) =~= doc);
    }
}

/// The text of the first member called `name`, if it is a JSON string.
pub fn find_text(members: &Vec<(String, Option<String>)>, name: &str) -> (r: Option<String>)
    ensures
        r.deep_view() == member_text(members.deep_view(), name@),
{
    let wanted = name.to_owned();
    let ghost all = members.deep_view();
    let mut i: usize = 0;
    proof {
        assert(all.skip(0) =~= all);
    }
    while i < members.len()
        invariant
            i <= members.len(),
            all == members.deep_view(),
            wanted@ == name@,
            member_text(all, name@) == member_text(all.skip(i as int), name@),
        decreases members.len() - i,
    {
        proof {
            assert(all.skip(i as int).drop_first() =~= all.skip(i + 1));
            assert(all.skip(i as int)[0] == all[i as int]);
            assert(all[i as int] == members@[i as int].deep_view());
        }
        if members[i].0 == wanted {
            return members[i].1.clone();
        }
        i += 1;
    }
    None
}

/// The snippet that an object stands for, if it stands for one.
pub fn read_record(members: &Vec<(String, Option<String>)>) -> (r: Option<Snippet>)
    ensures
        match r {
            Some(snippet) => record_of(members.deep_view()) == Some(snippet@),
            None => record_of(members.deep_view()) is None,
        },
{
    match (find_text(members, "name"), find_text(members, "code"), find_text(members, "created_at")) {
        (Some(name), Some(code), Some(created_at)) => Some(Snippet { name, code, created_at }),
        _ => None,
    }
}

/// The record set that a document stands for; a deserialization error where
/// one of its objects stands for no record.
pub fn decode_document(doc: &Vec<(String, Vec<(String, Option<String>)>)>) -> (r: Result<
    SnippetMap,
    StorageError,
>)
    ensures
        match r {
            Ok(map) => map.wf() && decode(doc.deep_view()) == Some(map@),
            Err(e) => e == StorageError::Deserialization && decode(doc.deep_view()) is None,
        },
{
    let ghost all = doc.deep_view();
    let mut map = SnippetMap::new();
    let mut i: usize = 0;
    proof {
        assert(all.take(0) =~= Seq::<(Seq<char>, Members)>::empty());
    }
    while i < doc.len()
        invariant
            i <= doc.len(),
            all == doc.deep_view(),
            map.wf(),
            decode(all.take(i as int)) == Some(map@),
        decreases doc.len() - i,
    {
        proof {
            assert(all.take(i + 1).drop_last() =~= all.take(i as int));
            assert(all.take(i + 1).last() == all[i as int]);
            assert(all[i as int] == doc@[i as int].deep_view());
        }
        match read_record(&doc[i].1) {
            Some(snippet) => {
                map.insert(doc[i].0.clone(), snippet);
            },
            None => {
                proof {
                    lemma_decode_prefix(all, i + 1);
                }
                return Err(StorageError::Deserialization);
            },
        }
        i += 1;
    }
    proof {
        assert(all.take(i as int) =~= all);
    }
    Ok(map)
}

/// The keys of an encoded record set are those of the record set, and the
/// three member names of each object differ.
pub proof fn lemma_encode_distinct(entries: Entries)
    requires
        distinct_keys(entries),
    ensures
        distinct_names(encode(entries)),
        forall|i: int| 0 <= i < encode(entries).len() ==> distinct_names((#[trigger] encode(entries)[i]).1),
{
    reveal_strlit("name");
    reveal_strlit("code");
    reveal_strlit("created_at");
    assert("name"@.len() == 4 && "code"@.len() == 4 && "created_at"@.len() == 10);
    assert("name"@[0] == 'n' && "code"@[0] == 'c');
    let out = encode(entries);
    assert forall|i: int, j: int| 0 <= i < j < out.len() implies (#[trigger] out[i]).0 != (
    #[trigger] out[j]).0 by {
        assert(entries[i].0 != entries[j].0);
    }
}

/// The outline that is printed for `map`.
pub fn encode_outline(map: &SnippetMap) -> (r: Vec<(String, Vec<(String, String)>)>)
    ensures
        r.deep_view() == encode(map@),
{
    let mut out: Vec<(String, Vec<(String, String)>)> = Vec::new();
    let mut i: usize = 0;
    while i < map.len()
        invariant
            i <= map@.len(),
            out.len() == i,
            forall|j: int| 0 <= j < i ==> (#[trigger] out@[j]).deep_view() == encode(map@)[j],
        decreases map@.len() - i,
    {
        let entry = map.entry(i);
        let mut object: Vec<(String, String)> = Vec::new();
        object.push(("name".to_owned(), entry.snippet.name.clone()));
        object.push(("code".to_owned(), entry.snippet.code.clone()));
        object.push(("created_at".to_owned(), entry.snippet.created_at.clone()));
        proof {
            assert(object.deep_view() =~= object_of(entry.snippet@));
        }
        out.push((entry.key.clone(), object));
        i += 1;
    }
    proof {
        assert(out.deep_view() =~= encode(map@));
    }
    out
}

/// The record set that stored text stands for: the one its document decodes
/// to, or `None` where the text is no JSON object of objects or the document
/// stands for no record set.
pub open spec fn parsed(text: Seq<char>) -> Option<Entries> {
    match json_document(text) {
        Some(doc) => decode(doc),
        None => None,
    }
}

/// The text that is stored for a record set, or `None` where printing fails.
pub open spec fn printed(entries: Entries) -> Option<Seq<char>> {
    json_pretty(encode(entries))
}

/// Reads stored text as a record set; a deserialization error where it
/// stands for none.
pub fn parse_store(text: &str) -> (r: Result<SnippetMap, StorageError>)
    ensures
        match r {
            Ok(map) => map.wf() && parsed(text@) == Some(map@),
            Err(e) => e == StorageError::Deserialization && parsed(text@) is None,
        },
{
    match parse_document(text) {
        Ok(doc) => decode_document(&doc),
        Err(_) => Err(StorageError::Deserialization),
    }
}

/// Prints the text to store for `map`; a serialization error where printing
/// fails.
pub fn print_store(map: &SnippetMap) -> (r: Result<String, StorageError>)
    requires
        map.wf(),
    ensures
        match r {
            Ok(text) => printed(map@) == Some(text@),
            Err(e) => e == StorageError::Serialization && printed(map@) is None,
        },
{
    let outline = encode_outline(map);
    proof {
        lemma_encode_distinct(map@);
    }
    match print_outline(&outline) {
        Ok(text) => Ok(text),
        Err(_) => Err(StorageError::Serialization),
    }
}

/// The first member of a name decides the text under that name.
pub proof fn lemma_member_text_at(members: Members, name: Seq<char>, i: int)
    requires
        0 <= i < members.len(),
        members[i].0 == name,
        forall|j: int| 0 <= j < i ==> (#[trigger] members[j]).0 != name,
    ensures
        member_text(members, name) == members[i].1,
    decreases i,
{
    if i > 0 {
        let rest = members.drop_first();
        assert(members[0].0 != name);
        assert(rest[i - 1] == members[i]);
        assert forall|j: int| 0 <= j < i - 1 implies (#[trigger] rest[j]).0 != name by {
            assert(rest[j] == members[j + 1]);
        }
        lemma_member_text_at(rest, name, i - 1);
    }
}

/// An object whose member names differ stands for a record in whatever
/// order it holds the record's three texts.
pub proof fn lemma_record_in_any_order(members: Members, record: Record, n: int, c: int, t: int)
    requires
        distinct_names(members),
        0 <= n < members.len() && members[n] == ("name"@, Some(record.name)),
        0 <= c < members.len() && members[c] == ("code"@, Some(record.code)),
        0 <= t < members.len() && members[t] == ("created_at"@, Some(record.created_at)),
    ensures
        record_of(members) == Some(record),
{
    assert forall|j: int| 0 <= j < n implies (#[trigger] members[j]).0 != "name"@ by {
        assert(members[j].0 != members[n].0);
    }
    assert forall|j: int| 0 <= j < c implies (#[trigger] members[j]).0 != "code"@ by {
        assert(members[j].0 != members[c].0);
    }
    assert forall|j: int| 0 <= j < t implies (#[trigger] members[j]).0 != "created_at"@ by {
        assert(members[j].0 != members[t].0);
    }
    lemma_member_text_at(members, "name"@, n);
    lemma_member_text_at(members, "code"@, c);
    lemma_member_text_at(members, "created_at"@, t);
}

/// The record set of a document whose keys differ and whose objects all
/// stand for records: each object's record under the object's key, in the
/// document's order.
pub open spec fn records_of(doc: Document) -> Entries {
    Seq::new(doc.len(), |i: int| (doc[i].0, record_of(doc[i].1).unwrap()))
}

/// A document whose keys differ and whose objects all stand for records
/// decodes to exactly these records under these keys.
pub proof fn lemma_decode_distinct(doc: Document)
    requires
        distinct_names(doc),
        forall|i: int| 0 <= i < doc.len() ==> record_of((#[trigger] doc[i]).1) is Some,
    ensures
        decode(doc) == Some(records_of(doc)),
        distinct_keys(records_of(doc)),
    decreases doc.len(),
{
    let all = records_of(doc);
    assert forall|i: int, j: int| 0 <= i < j < all.len() implies (#[trigger] all[i]).0 != (
    #[trigger] all[j]).0 by {
        assert(doc[i].0 != doc[j].0);
    }
    if doc.len() == 0 {
        assert(all =~= Seq::empty());
    } else {
        let front = doc.drop_last();
        assert forall|i: int, j: int| 0 <= i < j < front.len() implies (#[trigger] front[i]).0 != (
        #[trigger] front[j]).0 by {
            assert(front[i] == doc[i] && front[j] == doc[j]);
        }
        assert forall|i: int| 0 <= i < front.len() implies record_of((#[trigger] front[i]).1)
            is Some by {
            assert(front[i] == doc[i]);
        }
        lemma_decode_distinct(front);
        let held = records_of(front);
        let key = doc.last().0;
        assert(!has_key(held, key)) by {
            if has_key(held, key) {
                let c = key_index(held, key);
                assert(doc[c].0 != doc[doc.len() - 1].0);
            }
        }
        assert(upsert(held, key, record_of(doc.last().1).unwrap()) =~= all);
    }
}

/// An object as it is read when nothing is changed on the way: every member
/// with its text.
pub open spec fn members_as_read(object: Seq<(Seq<char>, Seq<char>)>) -> Members {
    Seq::new(object.len(), |j: int| (object[j].0, Some(object[j].1)))
}

/// An outline as it is read when nothing is changed on the way.
pub open spec fn as_read(outline: Outline) -> Document {
    Seq::new(outline.len(), |i: int| (outline[i].0, members_as_read(outline[i].1)))
}

/// A record set that is laid out for printing and read from that layout as
/// it stands is found again, entry by entry.
pub proof fn lemma_decode_encode(entries: Entries)
    requires
        distinct_keys(entries),
    ensures
        decode(as_read(encode(entries))) == Some(entries),
{
    let doc = as_read(encode(entries));
    lemma_encode_distinct(entries);
    assert forall|i: int| 0 <= i < doc.len() implies record_of((#[trigger] doc[i]).1) == Some(
        entries[i].1,
    ) by {
        let members = doc[i].1;
        let object = encode(entries)[i].1;
        assert(distinct_names(object));
        assert forall|a: int, b: int| 0 <= a < b < members.len() implies (#[trigger] members[a]).0
            != (#[trigger] members[b]).0 by {
            assert(object[a].0 != object[b].0);
        }
        lemma_record_in_any_order(members, entries[i].1, 0, 1, 2);
    }
    assert forall|i: int, j: int| 0 <= i < j < doc.len() implies (#[trigger] doc[i]).0 != (
    #[trigger] doc[j]).0 by {
        assert(entries[i].0 != entries[j].0);
    }
    lemma_decode_distinct(doc);
    assert(records_of(doc) =~= entries);
}

/// Some object of `doc` stands under `key` for `record`.
pub open spec fn holds_entry(doc: Document, key: Seq<char>, record: Record) -> bool {
    exists|j: int|
        0 <= j < doc.len() && (#[trigger] doc[j]).0 == key && record_of(doc[j].1) == Some(record)
}

/// `doc` holds the entries of `entries` and no other keys, in any order.
pub open spec fn rearranges(doc: Document, entries: Entries) -> bool {
    &&& distinct_names(doc)
    &&& forall|i: int|
        0 <= i < entries.len() ==> holds_entry(doc, (#[trigger] entries[i]).0, entries[i].1)
    &&& forall|j: int| 0 <= j < doc.len() ==> has_key(entries, (#[trigger] doc[j]).0)
}

/// In whatever order a document holds the entries of a record set, it
/// decodes to a record set in which every name finds what it found before.
pub proof fn lemma_decode_rearranged(entries: Entries, doc: Document, key: Seq<char>)
    requires
        distinct_keys(entries),
        rearranges(doc, entries),
    ensures
        decode(doc) is Some,
        distinct_keys(decode(doc).unwrap()),
        lookup(decode(doc).unwrap(), key) == lookup(entries, key),
{
    assert forall|j: int| 0 <= j < doc.len() implies record_of((#[trigger] doc[j]).1) is Some by {
        let i = key_index(entries, doc[j].0);
        assert(holds_entry(doc, entries[i].0, entries[i].1));
        let w = choose|w: int|
            0 <= w < doc.len() && (#[trigger] doc[w]).0 == entries[i].0 && record_of(doc[w].1)
                == Some(entries[i].1);
        if w < j {
            assert(doc[w].0 != doc[j].0);
        } else if j < w {
            assert(doc[j].0 != doc[w].0);
        }
    }
    lemma_decode_distinct(doc);
    let read = records_of(doc);
    if has_key(entries, key) {
        let i = key_index(entries, key);
        assert(holds_entry(doc, entries[i].0, entries[i].1));
        let w = choose|w: int|
            0 <= w < doc.len() && (#[trigger] doc[w]).0 == entries[i].0 && record_of(doc[w].1)
                == Some(entries[i].1);
        assert(read[w] == (key, entries[i].1));
        lemma_key_index_unique(read, key, w);
    } else if has_key(read, key) {
        let j = key_index(read, key);
        assert(doc[j].0 == key);
    }
}

} // verus!
