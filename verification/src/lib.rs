//! Persistence of named text snippets behind one storage contract, with a
//! whole-file JSON backend and a relational backend chosen by a
//! `KIND:location` specifier.
//!
//! The backends decide; they do not touch a file or a database. The file
//! backend takes the text found at its location and gives the text to put
//! there, the relational backend gives the statements to run and reads the
//! rows that come back. `contract` states what a caller can rely on.
//!
//! Beside the store stand three small data models: `config`, the settings
//! of an application with their defaults, `post`, a post whose stage is part
//! of its type, and `request`, the shape of a stream request.

pub mod config;
pub mod contract;
pub mod error;
pub mod file;
pub mod json;
pub mod post;
pub mod record;
pub mod request;
pub mod selector;
pub mod sqlite;
pub mod store;
pub mod text;
