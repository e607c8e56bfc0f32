//! Choosing the backend from a storage specifier of the form `KIND:location`.

use vstd::prelude::*;
use vstd::string::{StrSliceExecFns, StringExecFns};
use crate::error::StorageError;
use crate::file::JsonStorage;
use crate::sqlite::SqliteStorage;
use crate::text::{find_char, first_index, lemma_first_index};

verus! {

/// The backend that a specifier chose, with its location.
#[derive(Debug)]
pub enum Backend {
    /// The whole-file JSON store, chosen by the kind `JSON`.
    Json(JsonStorage),
    /// The relational store, chosen by the kind `SQLITE`.
    Sqlite(SqliteStorage),
}

/// The specifier that is used where none is configured.
pub open spec fn default_specifier() -> Seq<char> {
    "JSON:snippets.json"@
}

/// The part of a specifier before its first `:`.
pub open spec fn kind_of(specifier: Seq<char>) -> Seq<char> {
    specifier.take(first_index(specifier, ':'))
}

/// The part of a specifier after its first `:`.
pub open spec fn location_of(specifier: Seq<char>) -> Seq<char> {
    specifier.skip(first_index(specifier, ':') + 1)
}

/// Whether a specifier holds a `:` at all.
pub open spec fn has_separator(specifier: Seq<char>) -> bool {
    first_index(specifier, ':') < specifier.len()
}

/// What a specifier selects: the backend of its kind at its location, a
/// malformed-specifier error where it has no `:`, and an unsupported-kind
/// error that carries the kind where the kind is neither `JSON` nor `SQLITE`.
pub open spec fn selects(specifier: Seq<char>, r: Result<Backend, StorageError>) -> bool {
    if !has_separator(specifier) {
        r == Err::<Backend, StorageError>(StorageError::MalformedSpecifier)
    } else if kind_of(specifier) == "JSON"@ {
        r is Ok && r.unwrap() is Json && r.unwrap()->Json_0.location() == location_of(specifier)
    } else if kind_of(specifier) == "SQLITE"@ {
        r is Ok && r.unwrap() is Sqlite && r.unwrap()->Sqlite_0.location() == location_of(
            specifier,
        )
    } else {
        r is Err && r.unwrap_err() is UnsupportedKind && r.unwrap_err()->UnsupportedKind_0@
            == kind_of(specifier)
    }
}

/// Splits `specifier` at its first `:` and builds the backend that the kind
/// names, with the rest as its location. Kinds are matched exactly.
pub fn build_storage(specifier: &str) -> (r: Result<Backend, StorageError>)
    ensures
        selects(specifier@, r),
{
    proof {
        lemma_first_index(specifier@, ':');
    }
    match find_char(specifier, ':') {
        None => Err(StorageError::MalformedSpecifier),
        Some(i) => {
            let n: usize = specifier.unicode_len();
            let kind = String::from_str(specifier.substring_char(0, i));
            let location = String::from_str(specifier.substring_char(i + 1, n));
            assert(kind@ == kind_of(specifier@));
            assert(location@ == location_of(specifier@));
            if kind == String::from_str("JSON") {
                Ok(Backend::Json(JsonStorage::new(location)))
            } else if kind == String::from_str("SQLITE") {
                Ok(Backend::Sqlite(SqliteStorage::new(location)))
            } else {
                Err(StorageError::UnsupportedKind(kind))
            }
        },
    }
}

/// Builds the backend from the configured specifier, or from
/// `JSON:snippets.json` where none is configured.
pub fn build_storage_from_env(env_value: Option<&str>) -> (r: Result<Backend, StorageError>)
    ensures
        match env_value {
            Some(specifier) => selects(specifier@, r),
            None => selects(default_specifier(), r),
        },
{
    match env_value {
        Some(specifier) => build_storage(specifier),
        None => build_storage("JSON:snippets.json"),
    }
}

} // verus!
