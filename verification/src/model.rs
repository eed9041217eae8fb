//! The data model of the storage layer: posts and authors, each minted with
//! a fresh random identifier.

use vstd::prelude::*;
use crate::table::TableRow;

verus! {

/// Relies on uuid's `Uuid::new_v4` for a fresh random identifier; the value
/// is random, so nothing is promised of it.
#[verifier::external_body]
fn uuid_v4() -> u128 {
    uuid::Uuid::new_v4().as_u128()
}

/// Identifier of a post.  The field is private on purpose: one is minted
/// only by `Post::new`, never written by hand.
#[derive(Clone, Copy, Debug)]
pub struct PostId(u128);

impl PostId {
    /// The numeric value of the identifier.
    pub closed spec fn spec_value(self) -> u128 {
        self.0
    }

    /// Read the numeric value of the identifier.
    pub fn value(&self) -> (v: u128)
        ensures
            v == self.spec_value(),
    {
        self.0
    }
}

/// Identifier of an author.  A newtype, so that a post identifier and an
/// author identifier cannot be swapped accidentally.
#[derive(Clone, Copy, Debug, PartialEq, Eq, Structural)]
pub struct AuthorId(pub u128);

/// Title of a post.
pub struct Title(pub String);

/// Body of a post.
pub struct Body(pub String);

/// A post, keyed by its own identifier.
pub struct Post {
    pub post_id: PostId,
    pub author_id: AuthorId,
    pub title: Title,
    pub body: Body,
}

impl Post {
    /// A new post under a fresh random identifier.
    pub fn new(author_id: AuthorId, title: Title, body: Body) -> (p: Post)
        ensures
            p.author_id == author_id,
            p.title.0@ == title.0@,
            p.body.0@ == body.0@,
    {
        Post { post_id: PostId(uuid_v4()), author_id, title, body }
    }
}

impl TableRow for Post {
    open spec fn spec_key(&self) -> u128 {
        self.post_id.spec_value()
    }

    fn primary_key(&self) -> (k: u128)
        ensures
            k == self.spec_key(),
    {
        self.post_id.value()
    }
}

/// An author.  The fields are private: the identifier is minted at
/// construction and never mutated.
pub struct Author {
    id: u128,
    name: String,
}

impl Author {
    /// The author's identifier.
    pub closed spec fn spec_id(self) -> u128 {
        self.id
    }

    /// The author's display name.
    pub closed spec fn spec_name(self) -> Seq<char> {
        self.name@
    }

    /// A new author under a fresh random identifier.
    pub fn new(name: String) -> (a: Author)
        ensures
            a.spec_name() == name@,
    {
        Author { id: uuid_v4(), name }
    }

    /// Read the author's identifier.
    pub fn id(&self) -> (v: u128)
        ensures
            v == self.spec_id(),
    {
        self.id
    }

    /// Read the author's display name.
    pub fn name(&self) -> (s: &str)
        ensures
            s@ == self.spec_name(),
    {
        self.name.as_str()
    }
}

impl TableRow for Author {
    open spec fn spec_key(&self) -> u128 {
        self.spec_id()
    }

    fn primary_key(&self) -> (k: u128)
        ensures
            k == self.spec_key(),
    {
        self.id
    }
}

} // verus!
