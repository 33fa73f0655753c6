//! The stored post and the data a new post is made from.

use vstd::prelude::*;

verus! {

/// What a stored post is, as mathematical values.
pub struct PostView {
    pub id: int,
    pub title: Seq<char>,
    pub body: Seq<char>,
    pub published: bool,
}

/// A row of the posts table.
///
/// The store assigns `id` when the row is created and never changes it.
/// `published` starts as `false` and only ever becomes `true`.
#[derive(Debug)]
pub struct Post {
    pub id: i32,
    pub title: String,
    pub body: String,
    pub published: bool,
}

impl View for Post {
    type V = PostView;

    open spec fn view(&self) -> PostView {
        PostView {
            id: self.id as int,
            title: self.title@,
            body: self.body@,
            published: self.published,
        }
    }
}

impl Clone for Post {
    fn clone(&self) -> (copy: Self)
        ensures
            copy@ == self@,
    {
        Post {
            id: self.id,
            title: self.title.clone(),
            body: self.body.clone(),
            published: self.published,
        }
    }
}

/// The views of a sequence of posts, in the same order.
pub open spec fn views(posts: Seq<Post>) -> Seq<PostView> {
    posts.map_values(|p: Post| p@)
}

/// The client's part of a post: the store adds the identifier and the flag.
#[derive(Debug)]
pub struct NewPost {
    pub title: String,
    pub body: String,
}

impl View for NewPost {
    type V = (Seq<char>, Seq<char>);

    open spec fn view(&self) -> (Seq<char>, Seq<char>) {
        (self.title@, self.body@)
    }
}

} // verus!
