//! The persisted unit: a uniquely named text body with its creation time.

use vstd::prelude::*;

verus! {

/// The mathematical value of a snippet: its three texts as character sequences.
pub struct Record {
    pub name: Seq<char>,
    pub code: Seq<char>,
    pub created_at: Seq<char>,
}

/// A named text body and the time it was created, as the caller gave them.
#[derive(Debug, PartialEq, Eq)]
pub struct Snippet {
    pub name: String,
    pub code: String,
    pub created_at: String,
}

impl View for Snippet {
    type V = Record;

    open spec fn view(&self) -> Record {
        Record { name: self.name@, code: self.code@, created_at: self.created_at@ }
    }
}

impl Clone for Snippet {
    fn clone(&self) -> (r: Snippet)
        ensures
            r == *self,
    {
        Snippet {
            name: self.name.clone(),
            code: self.code.clone(),
            created_at: self.created_at.clone(),
        }
    }
}

} // verus!
