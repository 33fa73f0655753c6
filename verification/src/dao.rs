//! The post as it goes over the wire.

use vstd::prelude::*;

verus! {

/// What a wire post is, as mathematical values.
pub struct WirePost {
    pub id: int,
    pub title: Seq<char>,
    pub body: Seq<char>,
}

/// The projection of a stored post that clients see.
///
/// It borrows its texts from the post it was made from, and it has no
/// `published` field: that flag only selects rows and is never sent.
#[derive(Debug)]
pub struct Post<'a> {
    pub id: i64,
    pub title: &'a str,
    pub body: &'a str,
}

impl<'a> View for Post<'a> {
    type V = WirePost;

    open spec fn view(&self) -> WirePost {
        WirePost { id: self.id as int, title: self.title@, body: self.body@ }
    }
}

impl<'a> Post<'a> {
    /// A wire post of these three values.
    pub fn new(id: i64, title: &'a str, body: &'a str) -> (post: Self)
        ensures
            post.id == id,
            post.title@ == title@,
            post.body@ == body@,
    {
        Self { id, title, body }
    }
}

} // verus!
