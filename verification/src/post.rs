//! A post whose stage of moderation is part of its type.

use vstd::prelude::*;
use vstd::std_specs::convert::IntoSpec;
use std::marker::PhantomData;

verus! {

/// A post that was just written.
pub struct New;

/// A post that waits for moderation.
pub struct Unmoderated;

/// A post that readers can see.
pub struct Published;

/// A post that was taken down.
pub struct Deleted;

/// A title and a body in the stage `State`.
pub struct Post<State> {
    title: String,
    body: String,
    _state: PhantomData<State>,
}

impl<State> Post<State> {
    /// The title as text.
    pub closed spec fn title_text(&self) -> Seq<char> {
        self.title@
    }

    /// The body as text.
    pub closed spec fn body_text(&self) -> Seq<char> {
        self.body@
    }

    /// The title.
    pub fn title(&self) -> (r: &str)
        ensures
            r@ == self.title_text(),
    {
        self.title.as_str()
    }

    /// The body.
    pub fn body(&self) -> (r: &str)
        ensures
            r@ == self.body_text(),
    {
        self.body.as_str()
    }
}

impl Post<New> {
    /// A new post with the title and the body that the arguments convert
    /// to. What a conversion gives is known only as far as it is specified;
    /// `from_text` says what is made of its outcome.
    pub fn new<T: Into<String>, B: Into<String>>(title: T, body: B) -> (r: Post<New>)
        ensures
            <T as IntoSpec<String>>::obeys_into_spec() ==> r.title_text() == title.into_spec()@,
            <B as IntoSpec<String>>::obeys_into_spec() ==> r.body_text() == body.into_spec()@,
    {
        Post::from_text(title.into(), body.into())
    }

    /// A new post with this title and this body.
    pub fn from_text(title: String, body: String) -> (r: Post<New>)
        ensures
            r.title_text() == title@,
            r.body_text() == body@,
    {
        Post { title, body, _state: PhantomData }
    }
}

} // verus!
