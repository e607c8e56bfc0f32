//! What every backend owes its caller, stated over the record set that a
//! backend holds, and proved for both backends.
//!
//! The file backend is taken at the record set that its text stands for,
//! the relational backend at the table that its statements act on by the
//! meaning of their SQL. That a text which was printed reads back as the
//! record set it was printed for is the JSON library's part, and that the
//! engine runs the SQL as written is the engine's.

use vstd::prelude::*;
use crate::record::{Record, Snippet};
use crate::sqlite::{record_of_row, Statement};
use crate::store::{
    distinct_keys, erase, lemma_erase_distinct, lemma_lookup_erase, lemma_lookup_upsert,
    lemma_upsert_distinct, lookup, upsert, Entries,
};

verus! {

/// One call on a backend.
#[derive(Debug, PartialEq, Eq)]
pub enum Call {
    /// Save the snippet under its name.
    Save(Snippet),
    /// Get the snippet under a name.
    Get(String),
    /// Delete the snippet under a name.
    Delete(String),
}

/// The record set of the file backend after `call`.
pub open spec fn file_after(entries: Entries, call: Call) -> Entries {
    match call {
        Call::Save(snippet) => upsert(entries, snippet.name@, snippet@),
        Call::Get(_) => entries,
        Call::Delete(name) => erase(entries, name@),
    }
}

/// What the file backend finds for `call`.
pub open spec fn file_answer(entries: Entries, call: Call) -> Option<Record> {
    match call {
        Call::Get(name) => lookup(entries, name@),
        _ => None,
    }
}

/// The statement that the relational backend issues for `call`.
pub open spec fn statement_of(call: Call) -> Statement {
    match call {
        Call::Save(snippet) => Statement::Upsert(snippet),
        Call::Get(name) => Statement::Select(name),
        Call::Delete(name) => Statement::Delete(name),
    }
}

/// The table of the relational backend after `call`.
pub open spec fn table_after(table: Entries, call: Call) -> Entries {
    statement_of(call).effect(table)
}

/// What the relational backend finds for `call`: the record of the row that
/// its statement yields.
pub open spec fn table_answer(table: Entries, call: Call) -> Option<Record> {
    match statement_of(call).first_row(table) {
        Some(row) => record_of_row(row),
        None => None,
    }
}

/// The record set of the file backend after `calls` on a fresh location,
/// and what its `Get` calls found, in their order.
pub open spec fn file_run(calls: Seq<Call>) -> (Entries, Seq<Option<Record>>)
    decreases calls.len(),
{
    if calls.len() == 0 {
        (Seq::empty(), Seq::empty())
    } else {
        let before = file_run(calls.drop_last());
        let call = calls.last();
        (
            file_after(before.0, call),
            if call is Get {
                before.1.push(file_answer(before.0, call))
            } else {
                before.1
            },
        )
    }
}

/// The table of the relational backend after `calls` on a fresh database,
/// and what its `Get` calls found, in their order.
pub open spec fn table_run(calls: Seq<Call>) -> (Entries, Seq<Option<Record>>)
    decreases calls.len(),
{
    if calls.len() == 0 {
        (Seq::empty(), Seq::empty())
    } else {
        let before = table_run(calls.drop_last());
        let call = calls.last();
        (
            table_after(before.0, call),
            if call is Get {
                before.1.push(table_answer(before.0, call))
            } else {
                before.1
            },
        )
    }
}

/// Round trip: right after a snippet was saved, a get with its name finds a
/// record equal to it in all fields, in the file backend and in the
/// relational one.
pub proof fn save_then_get(entries: Entries, snippet: Snippet, name: String)
    requires
        distinct_keys(entries),
        name@ == snippet.name@,
    ensures
        file_answer(file_after(entries, Call::Save(snippet)), Call::Get(name)) == Some(snippet@),
        table_answer(table_after(entries, Call::Save(snippet)), Call::Get(name)) == Some(
            snippet@,
        ),
{
    lemma_lookup_upsert(entries, snippet.name@, snippet@, snippet.name@);
}

/// Overwrite: after two saves under one name a get finds the second
/// snippet whole, and nothing of the first.
pub proof fn save_twice_then_get(entries: Entries, first: Snippet, second: Snippet, name: String)
    requires
        distinct_keys(entries),
        first.name@ == second.name@,
        name@ == second.name@,
    ensures
        file_answer(
            file_after(file_after(entries, Call::Save(first)), Call::Save(second)),
            Call::Get(name),
        ) == Some(second@),
        table_answer(
            table_after(table_after(entries, Call::Save(first)), Call::Save(second)),
            Call::Get(name),
        ) == Some(second@),
{
    let once = upsert(entries, first.name@, first@);
    lemma_upsert_distinct(entries, first.name@, first@);
    lemma_lookup_upsert(once, second.name@, second@, second.name@);
}

/// A save changes what is found under its own name only.
pub proof fn save_keeps_others(entries: Entries, snippet: Snippet, other: String)
    requires
        distinct_keys(entries),
        other@ != snippet.name@,
    ensures
        file_answer(file_after(entries, Call::Save(snippet)), Call::Get(other)) == file_answer(
            entries,
            Call::Get(other),
        ),
        table_answer(table_after(entries, Call::Save(snippet)), Call::Get(other))
            == table_answer(entries, Call::Get(other)),
{
    lemma_lookup_upsert(entries, snippet.name@, snippet@, other@);
}

/// Delete idempotence: after one delete of a name and after a second one a
/// get finds nothing, and the second delete changes nothing.
pub proof fn delete_twice(entries: Entries, name: String)
    requires
        distinct_keys(entries),
    ensures
        file_answer(file_after(entries, Call::Delete(name)), Call::Get(name)) is None,
        file_after(file_after(entries, Call::Delete(name)), Call::Delete(name)) == file_after(
            entries,
            Call::Delete(name),
        ),
        table_answer(table_after(entries, Call::Delete(name)), Call::Get(name)) is None,
        table_after(table_after(entries, Call::Delete(name)), Call::Delete(name)) == table_after(
            entries,
            Call::Delete(name),
        ),
{
    lemma_lookup_erase(entries, name@, name@);
}

/// Absence on an empty store: a get on a store that was never saved to
/// finds nothing.
pub proof fn get_on_empty(name: String)
    ensures
        file_answer(Seq::empty(), Call::Get(name)) is None,
        table_answer(Seq::empty(), Call::Get(name)) is None,
{
}

/// Every call keeps the invariant that no name occurs twice.
pub proof fn call_keeps_distinct(entries: Entries, call: Call)
    requires
        distinct_keys(entries),
    ensures
        distinct_keys(file_after(entries, call)),
        distinct_keys(table_after(entries, call)),
{
    match call {
        Call::Save(snippet) => lemma_upsert_distinct(entries, snippet.name@, snippet@),
        Call::Get(_) => {},
        Call::Delete(name) => lemma_erase_distinct(entries, name@),
    }
}

/// Both backends hold the same records after the same calls, and their
/// `Get` calls find the same.
pub proof fn backends_agree(calls: Seq<Call>)
    ensures
        file_run(calls) == table_run(calls),
    decreases calls.len(),
{
    if calls.len() > 0 {
        backends_agree(calls.drop_last());
    }
}

} // verus!
