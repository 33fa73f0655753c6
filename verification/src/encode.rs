//! From stored posts to wire posts.

use vstd::prelude::*;
use crate::dao;
use crate::models;

verus! {

/// The wire form of a stored post: the same identifier and texts, without
/// the `published` flag.
pub open spec fn wire(post: models::PostView) -> dao::WirePost {
    dao::WirePost { id: post.id, title: post.title, body: post.body }
}

/// The wire forms of a sequence of stored posts, in the same order.
pub open spec fn wire_all(posts: Seq<models::PostView>) -> Seq<dao::WirePost> {
    posts.map_values(|p: models::PostView| wire(p))
}

/// The views of a sequence of wire posts, in the same order.
pub open spec fn wire_views(posts: Seq<dao::Post>) -> Seq<dao::WirePost> {
    posts.map_values(|p: dao::Post| p@)
}

/// The wire form of a stored post. It borrows the texts of the post.
pub fn encode_post<'a>(post: &'a models::Post) -> (encoded: dao::Post<'a>)
    ensures
        encoded@ == wire(post@),
{
    dao::Post { id: post.id as i64, title: post.title.as_str(), body: post.body.as_str() }
}

/// The wire forms of stored posts, in the same order.
pub fn encode_posts<'a>(posts: &'a Vec<models::Post>) -> (encoded: Vec<dao::Post<'a>>)
    ensures
        wire_views(encoded@) == wire_all(models::views(posts@)),
{
    let mut v: Vec<dao::Post<'a>> = Vec::new();
    let mut i: usize = 0;
    while i < posts.len()
        invariant
            i <= posts.len(),
            v@.len() == i,
            forall|j: int| 0 <= j < i ==> (#[trigger] v@[j])@ == wire(posts@[j]@),
        decreases posts.len() - i,
    {
        v.push(encode_post(&posts[i]));
        i += 1;
    }
    v
}

} // verus!
