//! The failures that the storage layer reports.

use vstd::prelude::*;
use vstd::string::StringExecFns;

verus! {

/// What was being done to a medium when it failed.
#[derive(Debug, Clone, Copy, PartialEq, Eq)]
pub enum Access {
    Read,
    Write,
}

/// Why a backend could not be chosen or set up, its medium could not be
/// used, or stored content could not be used.
#[derive(Debug, PartialEq, Eq)]
pub enum StorageError {
    /// The storage specifier holds no `:` between kind and location.
    MalformedSpecifier,
    /// The storage specifier names a kind that is none of the known ones.
    UnsupportedKind(String),
    /// The backend at this location could not be set up.
    Initialization(String),
    /// The medium at this location could not be read or written.
    Io(Access, String),
    /// Stored content is not the encoding of a record set.
    Deserialization,
    /// The record set could not be encoded.
    Serialization,
}

impl StorageError {
    /// The text of the failure's message.
    pub open spec fn spec_message(&self) -> Seq<char> {
        match self {
            StorageError::MalformedSpecifier => "malformed storage specifier: expected KIND:location"@,
            StorageError::UnsupportedKind(kind) => "Unsupported storage type: "@ + kind@,
            StorageError::Initialization(location) => "Failed to initialize storage at "@
                + location@,
            StorageError::Io(Access::Read, location) => "Failed to read storage at "@ + location@,
            StorageError::Io(Access::Write, location) => "Failed to write storage at "@
                + location@,
            StorageError::Deserialization => "Failed to parse stored snippets"@,
            StorageError::Serialization => "Failed to serialize snippets"@,
        }
    }

    /// The failure in words; an unknown kind is named in it.
    pub fn message(&self) -> (r: String)
        ensures
            r@ == self.spec_message(),
    {
        match self {
            StorageError::MalformedSpecifier => String::from_str(
                "malformed storage specifier: expected KIND:location",
            ),
            StorageError::UnsupportedKind(kind) => String::from_str(
                "Unsupported storage type: ",
            ).concat(kind.as_str()),
            StorageError::Initialization(location) => String::from_str(
                "Failed to initialize storage at ",
            ).concat(location.as_str()),
            StorageError::Io(Access::Read, location) => String::from_str(
                "Failed to read storage at ",
            ).concat(location.as_str()),
            StorageError::Io(Access::Write, location) => String::from_str(
                "Failed to write storage at ",
            ).concat(location.as_str()),
            StorageError::Deserialization => String::from_str("Failed to parse stored snippets"),
            StorageError::Serialization => String::from_str("Failed to serialize snippets"),
        }
    }

    /// Whether the failure lies in the configuration, not in stored content.
    pub fn is_configuration(&self) -> (r: bool)
        ensures
            r == (self is MalformedSpecifier || self is UnsupportedKind),
    {
        match self {
            StorageError::MalformedSpecifier => true,
            StorageError::UnsupportedKind(_) => true,
            _ => false,
        }
    }
}

} // verus!
