//! The whole-file JSON backend: every operation reads the entire mapping
//! from the text of the file, changes it, and gives the text to put in the
//! file's place.
//!
//! Reading and writing the location is the caller's part. Two processes
//! that race on one location can lose one writer's update: the last writer
//! wins for the whole record set.

use vstd::prelude::*;
use vstd::string::StringExecFns;
use crate::error::{Access, StorageError};
use crate::json::{parse_store, parsed, print_store, printed};
use crate::record::Snippet;
use crate::store::{erase, lookup, upsert, Entries, SnippetMap};
use crate::text::{blank, is_blank};

verus! {

/// What was found at a location, as text: `None` where nothing exists there.
pub open spec fn content_view(content: Option<&str>) -> Option<Seq<char>> {
    match content {
        Some(text) => Some(text@),
        None => None,
    }
}

/// The record set held at a location: empty where nothing exists there or
/// the text is blank, else what the text stands for; `None` where it stands
/// for no record set.
pub open spec fn stored(content: Option<Seq<char>>) -> Option<Entries> {
    match content {
        None => Some(Seq::empty()),
        Some(text) => if is_blank(text) {
            Some(Seq::empty())
        } else {
            parsed(text)
        },
    }
}

/// A record store in one JSON file.
#[derive(Debug)]
pub struct JsonStorage {
    path: String,
}

impl JsonStorage {
    /// The location of the file.
    pub closed spec fn location(&self) -> Seq<char> {
        self.path@
    }

    /// A store in the file at `path`.
    pub fn new(path: String) -> (r: JsonStorage)
        ensures
            r.location() == path@,
    {
        JsonStorage { path }
    }

    /// The location of the file.
    pub fn path(&self) -> (r: &str)
        ensures
            r@ == self.location(),
    {
        self.path.as_str()
    }

    /// The sibling location to write new content to before it is moved over
    /// the file in one step, so that a reader sees the old content or the
    /// new, never a part of either.
    pub fn staging_path(&self) -> (r: String)
        ensures
            r@ == self.location() + ".tmp"@,
    {
        self.path.clone().concat(".tmp")
    }

    /// The failure to report when the file could not be read or written.
    pub fn io_error(&self, access: Access) -> (r: StorageError)
        ensures
            r is Io,
            r->Io_0 == access,
            r->Io_1@ == self.location(),
    {
        StorageError::Io(access, self.path.clone())
    }

    /// The mapping that the file holds, given what was found at its location.
    pub fn load_map(&self, content: Option<&str>) -> (r: Result<SnippetMap, StorageError>)
        ensures
            match r {
                Ok(map) => map.wf() && stored(content_view(content)) == Some(map@),
                Err(e) => e == StorageError::Deserialization && stored(content_view(content))
                    is None,
            },
    {
        match content {
            None => Ok(SnippetMap::new()),
            Some(text) => {
                if blank(text) {
                    Ok(SnippetMap::new())
                } else {
                    parse_store(text)
                }
            },
        }
    }

    /// The text that replaces the file's content to make it hold `map`.
    pub fn save_map(&self, map: &SnippetMap) -> (r: Result<String, StorageError>)
        requires
            map.wf(),
        ensures
            match r {
                Ok(text) => printed(map@) == Some(text@),
                Err(e) => e == StorageError::Serialization && printed(map@) is None,
            },
    {
        print_store(map)
    }

    /// Saves `snippet` under its name: the text to write back, which holds
    /// the mapping found with the snippet put in place of any entry of that
    /// name.
    pub fn save(&self, content: Option<&str>, snippet: &Snippet) -> (r: Result<
        String,
        StorageError,
    >)
        ensures
            match r {
                Ok(text) => stored(content_view(content)) is Some && printed(
                    upsert(stored(content_view(content)).unwrap(), snippet.name@, snippet@),
                ) == Some(text@),
                Err(e) => match stored(content_view(content)) {
                    None => e == StorageError::Deserialization,
                    Some(entries) => e == StorageError::Serialization && printed(
                        upsert(entries, snippet.name@, snippet@),
                    ) is None,
                },
            },
    {
        match self.load_map(content) {
            Ok(map) => {
                let mut map = map;
                map.insert(snippet.name.clone(), snippet.clone());
                self.save_map(&map)
            },
            Err(e) => Err(e),
        }
    }

    /// The snippet under `name` in the mapping found, or `None` where the
    /// mapping has no such entry.
    pub fn get(&self, content: Option<&str>, name: &str) -> (r: Result<
        Option<Snippet>,
        StorageError,
    >)
        ensures
            match r {
                Ok(Some(snippet)) => stored(content_view(content)) is Some && lookup(
                    stored(content_view(content)).unwrap(),
                    name@,
                ) == Some(snippet@),
                Ok(None) => stored(content_view(content)) is Some && lookup(
                    stored(content_view(content)).unwrap(),
                    name@,
                ) is None,
                Err(e) => e == StorageError::Deserialization && stored(content_view(content))
                    is None,
            },
    {
        match self.load_map(content) {
            Ok(map) => Ok(map.get(name)),
            Err(e) => Err(e),
        }
    }

    /// Deletes the entry under `name`: the text to write back, which holds
    /// the mapping found without that entry, or as it was where there was
    /// none.
    pub fn delete(&self, content: Option<&str>, name: &str) -> (r: Result<String, StorageError>)
        ensures
            match r {
                Ok(text) => stored(content_view(content)) is Some && printed(
                    erase(stored(content_view(content)).unwrap(), name@),
                ) == Some(text@),
                Err(e) => match stored(content_view(content)) {
                    None => e == StorageError::Deserialization,
                    Some(entries) => e == StorageError::Serialization && printed(
                        erase(entries, name@),
                    ) is None,
                },
            },
    {
        match self.load_map(content) {
            Ok(map) => {
                let mut map = map;
                map.remove(name);
                self.save_map(&map)
            },
            Err(e) => Err(e),
        }
    }
}

} // verus!
