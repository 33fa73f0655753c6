//! The table of posts and the three operations on it.
//!
//! The table keeps its rows in the order in which they were created. The
//! first row gets the identifier 1, each later row the next integer, and no
//! row is ever removed: the row with identifier `id` is the `id`-th row.

use vstd::prelude::*;
use crate::models::{views, NewPost, Post, PostView};
use crate::text::{chars_of, contains_chars, is_substring};

verus! {

/// The rule of the table: the `i`-th row, counted from one, has identifier `i`,
/// and the identifiers fit in an `i32`.
pub open spec fn valid_table(table: Seq<PostView>) -> bool {
    &&& table.len() <= i32::MAX
    &&& forall|i: int| 0 <= i < table.len() ==> (#[trigger] table[i]).id == i + 1
}

/// The table can take one more row.
pub open spec fn has_room(table: Seq<PostView>) -> bool {
    table.len() < i32::MAX
}

/// The row that a new post becomes: the next identifier, not published.
pub open spec fn new_row(table: Seq<PostView>, title: Seq<char>, body: Seq<char>) -> PostView {
    PostView { id: table.len() as int + 1, title, body, published: false }
}

/// The table after a post was created.
pub open spec fn created(table: Seq<PostView>, title: Seq<char>, body: Seq<char>) -> Seq<PostView> {
    table.push(new_row(table, title, body))
}

/// The table holds a row with this identifier.
pub open spec fn holds(table: Seq<PostView>, id: int) -> bool {
    1 <= id <= table.len()
}

/// The row with this identifier.
pub open spec fn row(table: Seq<PostView>, id: int) -> PostView {
    table[id - 1]
}

/// The post with its flag set, and nothing else changed.
pub open spec fn publish_row(post: PostView) -> PostView {
    PostView { published: true, ..post }
}

/// The table after the row with this identifier was published: that row has
/// its flag set, and nothing else differs.
pub open spec fn published(table: Seq<PostView>, id: int) -> Seq<PostView> {
    table.update(id - 1, publish_row(table[id - 1]))
}

/// The post is published and its title contains `substring`.
pub open spec fn is_match(post: PostView, substring: Seq<char>) -> bool {
    post.published && is_substring(substring, post.title)
}

/// The rows that a search by title gives: the matches, in table order, which
/// is the order of their identifiers.
pub open spec fn search(table: Seq<PostView>, substring: Seq<char>) -> Seq<PostView> {
    table.filter(|post: PostView| is_match(post, substring))
}

/// The published rows, in table order.
pub open spec fn published_rows(table: Seq<PostView>) -> Seq<PostView> {
    table.filter(|post: PostView| post.published)
}

/// One operation on the table, as a value.
#[derive(Debug)]
pub enum StoreCall {
    /// Create a post.
    Create(NewPost),
    /// Publish the post with this identifier.
    Publish(i32),
    /// Search the published posts by a part of their title.
    Search(String),
}

/// What a `StoreCall` is, as mathematical values.
pub enum CallView {
    Create { title: Seq<char>, body: Seq<char> },
    Publish { id: int },
    Search { title: Seq<char> },
}

impl View for StoreCall {
    type V = CallView;

    open spec fn view(&self) -> CallView {
        match *self {
            StoreCall::Create(post) => CallView::Create { title: post.title@, body: post.body@ },
            StoreCall::Publish(id) => CallView::Publish { id: id as int },
            StoreCall::Search(title) => CallView::Search { title: title@ },
        }
    }
}

/// What the table answers to a `StoreCall`.
#[derive(Debug)]
pub enum StoreAnswer {
    /// The row that was created or published.
    Row(Post),
    /// The rows that a search found.
    Rows(Vec<Post>),
    /// The operation could not be done.
    Failed,
}

/// What a `StoreAnswer` is, as mathematical values.
pub enum AnswerView {
    Row(PostView),
    Rows(Seq<PostView>),
    Failed,
}

impl View for StoreAnswer {
    type V = AnswerView;

    open spec fn view(&self) -> AnswerView {
        match *self {
            StoreAnswer::Row(post) => AnswerView::Row(post@),
            StoreAnswer::Rows(posts) => AnswerView::Rows(views(posts@)),
            StoreAnswer::Failed => AnswerView::Failed,
        }
    }
}

/// The table after an operation. A post is not created where the table is
/// full, and none is published where no row has the identifier: the table
/// then stays as it is.
pub open spec fn table_after(table: Seq<PostView>, call: CallView) -> Seq<PostView> {
    match call {
        CallView::Create { title, body } => if has_room(table) {
            created(table, title, body)
        } else {
            table
        },
        CallView::Publish { id } => if holds(table, id) {
            published(table, id)
        } else {
            table
        },
        CallView::Search { title } => table,
    }
}

/// The answer of the table to an operation.
pub open spec fn answer_to(table: Seq<PostView>, call: CallView) -> AnswerView {
    match call {
        CallView::Create { title, body } => if has_room(table) {
            AnswerView::Row(new_row(table, title, body))
        } else {
            AnswerView::Failed
        },
        CallView::Publish { id } => if holds(table, id) {
            AnswerView::Row(row(published(table, id), id))
        } else {
            AnswerView::Failed
        },
        CallView::Search { title } => AnswerView::Rows(search(table, title)),
    }
}

/// The posts, held in memory.
pub struct Persistence {
    rows: Vec<Post>,
}

impl View for Persistence {
    type V = Seq<PostView>;

    closed spec fn view(&self) -> Seq<PostView> {
        views(self.rows@)
    }
}

impl Persistence {
    /// The table obeys its rule.
    pub open spec fn wf(&self) -> bool {
        valid_table(self@)
    }

    /// An empty table.
    pub fn new() -> (db: Self)
        ensures
            db.wf(),
            db@ == Seq::<PostView>::empty(),
    {
        let db = Persistence { rows: Vec::new() };
        db
    }

    /// The number of rows.
    pub fn len(&self) -> (n: usize)
        ensures
            n == self@.len(),
    {
        self.rows.len()
    }

    /// Whether one more post can be stored.
    pub fn has_room(&self) -> (room: bool)
        ensures
            room == has_room(self@),
    {
        self.rows.len() < 2147483647
    }

    /// Whether a row has this identifier.
    pub fn holds(&self, post_id: i32) -> (found: bool)
        ensures
            found == holds(self@, post_id as int),
    {
        1 <= post_id && post_id as usize <= self.rows.len()
    }

    /// Creates a post from a title and a body. It is not published, and it
    /// gets the identifier after the last one given out.
    pub fn store_post(&mut self, title: &str, body: &str) -> (post: Post)
        requires
            old(self).wf(),
            has_room(old(self)@),
        ensures
            final(self).wf(),
            final(self)@ == created(old(self)@, title@, body@),
            post@ == new_row(old(self)@, title@, body@),
    {
        let id: i32 = (self.rows.len() + 1) as i32;
        let post = Post { id, title: title.to_owned(), body: body.to_owned(), published: false };
        let copy = post.clone();
        self.rows.push(post);
        assert(self@ =~= created(old(self)@, title@, body@));
        copy
    }

    /// Publishes the post with this identifier and returns its row. A post
    /// that is published already stays as it is.
    pub fn publish_post(&mut self, post_id: i32) -> (post: Post)
        requires
            old(self).wf(),
            holds(old(self)@, post_id as int),
        ensures
            final(self).wf(),
            final(self)@ == published(old(self)@, post_id as int),
            post@ == row(final(self)@, post_id as int),
    {
        let at: usize = (post_id - 1) as usize;
        let mut post = self.rows[at].clone();
        post.published = true;
        let copy = post.clone();
        self.rows.set(at, post);
        assert(self@ =~= published(old(self)@, post_id as int));
        copy
    }

    /// The published posts whose title contains `tit`, in the order of their
    /// identifiers. The table stays as it is.
    pub fn get_posts_by_title(&mut self, tit: &str) -> (posts: Vec<Post>)
        ensures
            final(self)@ == old(self)@,
            views(posts@) == search(old(self)@, tit@),
    {
        let needle = chars_of(tit);
        let mut list_of_posts: Vec<Post> = Vec::new();
        let mut i: usize = 0;
        while i < self.rows.len()
            invariant
                i <= self.rows.len(),
                self@ == old(self)@,
                needle@ == tit@,
                views(list_of_posts@) == search(self@.take(i as int), tit@),
            decreases self.rows.len() - i,
        {
            let result = &self.rows[i];
            proof {
                reveal(Seq::filter);
                assert(self@.take(i + 1).drop_last() == self@.take(i as int));
            }
            if result.published {
                let title = chars_of(result.title.as_str());
                if contains_chars(&title, &needle) {
                    list_of_posts.push(result.clone());
                }
            }
            i += 1;
        }
        assert(self@.take(self.rows.len() as int) == self@);
        list_of_posts
    }

    /// Does one operation, whatever the state of the table: where a post
    /// cannot be created or published, the answer is `Failed`.
    pub fn run(&mut self, call: &StoreCall) -> (answer: StoreAnswer)
        requires
            old(self).wf(),
        ensures
            final(self).wf(),
            final(self)@ == table_after(old(self)@, call@),
            answer@ == answer_to(old(self)@, call@),
    {
        match call {
            StoreCall::Create(post) => {
                if self.has_room() {
                    StoreAnswer::Row(self.store_post(post.title.as_str(), post.body.as_str()))
                } else {
                    StoreAnswer::Failed
                }
            },
            StoreCall::Publish(id) => {
                if self.holds(*id) {
                    StoreAnswer::Row(self.publish_post(*id))
                } else {
                    StoreAnswer::Failed
                }
            },
            StoreCall::Search(title) => StoreAnswer::Rows(self.get_posts_by_title(title.as_str())),
        }
    }
}

/// A search never gives a post that is not published or whose title does not
/// contain the text searched for, and it gives every row that is both.
pub proof fn law_search_gives_the_matches(table: Seq<PostView>, substring: Seq<char>)
    ensures
        forall|i: int|
            0 <= i < search(table, substring).len() ==> ({
                &&& (#[trigger] search(table, substring)[i]).published
                &&& is_substring(substring, search(table, substring)[i].title)
                &&& table.contains(search(table, substring)[i])
            }),
        forall|i: int|
            0 <= i < table.len() && is_match(#[trigger] table[i], substring) ==> search(
                table,
                substring,
            ).contains(table[i]),
    decreases table.len(),
{
    reveal(Seq::filter);
    if table.len() > 0 {
        let rest = table.drop_last();
        let found = search(table, substring);
        law_search_gives_the_matches(rest, substring);
        assert forall|i: int| 0 <= i < found.len() implies table.contains(#[trigger] found[i]) by {
            if i < search(rest, substring).len() {
                let at = choose|at: int| 0 <= at < rest.len() && rest[at] == search(rest, substring)[i];
                assert(table[at] == found[i]);
            } else {
                assert(table.last() == found[i]);
            }
        }
        assert forall|i: int| 0 <= i < table.len() && is_match(#[trigger] table[i], substring) implies found.contains(
            table[i],
        ) by {
            if i < rest.len() {
                let at = choose|at: int|
                    0 <= at < search(rest, substring).len() && search(rest, substring)[at] == rest[i];
                assert(found[at] == table[i]);
            } else {
                assert(found.last() == table[i]);
            }
        }
    }
}

/// A post that was created and not yet published changes no search.
pub proof fn law_new_post_is_hidden(
    table: Seq<PostView>,
    title: Seq<char>,
    body: Seq<char>,
    substring: Seq<char>,
)
    ensures
        search(created(table, title, body), substring) == search(table, substring),
{
    reveal(Seq::filter);
    assert(created(table, title, body).drop_last() == table);
}

/// Publishing a row puts it into the searches that its title answers and
/// changes no other search result.
proof fn lemma_search_after_publishing_last(table: Seq<PostView>, substring: Seq<char>)
    requires
        table.len() > 0,
    ensures
        is_substring(substring, table.last().title) ==> search(
            published(table, table.len() as int),
            substring,
        ) == search(table.drop_last(), substring).push(publish_row(table.last())),
        !is_substring(substring, table.last().title) ==> search(
            published(table, table.len() as int),
            substring,
        ) == search(table.drop_last(), substring),
{
    reveal(Seq::filter);
    let after = published(table, table.len() as int);
    assert(after.drop_last() == table.drop_last());
}

/// Once a post that was created is published, a search for its own title
/// gives what it gave before the post was created, and then this post.
pub proof fn law_published_post_is_found(table: Seq<PostView>, title: Seq<char>, body: Seq<char>)
    ensures
        search(published(created(table, title, body), new_row(table, title, body).id), title)
            == search(table, title).push(publish_row(new_row(table, title, body))),
{
    let after = created(table, title, body);
    assert(after.drop_last() == table);
    lemma_search_after_publishing_last(after, title);
    assert(title.subrange(0, title.len() as int) == title);
    assert(crate::text::occurs_at(title, title, 0));
}

/// Where no published post answers a search for `title`, a post created with
/// that title is not found either, until it is published: then the search
/// gives this post and no other.
pub proof fn law_created_post_appears_once_published(
    table: Seq<PostView>,
    title: Seq<char>,
    body: Seq<char>,
)
    requires
        search(table, title).len() == 0,
    ensures
        search(created(table, title, body), title).len() == 0,
        search(published(created(table, title, body), new_row(table, title, body).id), title)
            == seq![publish_row(new_row(table, title, body))],
{
    law_new_post_is_hidden(table, title, body, title);
    law_published_post_is_found(table, title, body);
    assert(Seq::<PostView>::empty().push(publish_row(new_row(table, title, body))) == seq![
        publish_row(new_row(table, title, body)),
    ]);
}

/// Publishing a post twice leaves the table, and the row given back, as
/// publishing it once does; that row is published.
pub proof fn law_publishing_twice_is_publishing_once(table: Seq<PostView>, id: int)
    requires
        holds(table, id),
    ensures
        holds(published(table, id), id),
        published(published(table, id), id) == published(table, id),
        row(published(published(table, id), id), id) == row(published(table, id), id),
        row(published(table, id), id).published,
        row(published(table, id), id) == publish_row(row(table, id)),
{
}

/// A search for the empty text gives all the published posts.
pub proof fn law_empty_search_gives_all_published(table: Seq<PostView>)
    ensures
        search(table, Seq::<char>::empty()) == published_rows(table),
    decreases table.len(),
{
    reveal(Seq::filter);
    if table.len() > 0 {
        law_empty_search_gives_all_published(table.drop_last());
        let title = table.last().title;
        assert(title.subrange(0, 0) == Seq::<char>::empty());
        assert(crate::text::occurs_at(Seq::<char>::empty(), title, 0));
    }
}

/// No two rows of a table share an identifier, and a post that is created
/// gets an identifier that no row has yet. This holds for every table that
/// the operations can reach, in whatever order callers take their turns.
pub proof fn law_identifiers_are_distinct(table: Seq<PostView>, title: Seq<char>, body: Seq<char>)
    requires
        valid_table(table),
    ensures
        forall|i: int, j: int|
            0 <= i < table.len() && 0 <= j < table.len() && i != j ==> (#[trigger] table[i]).id != (
            #[trigger] table[j]).id,
        forall|i: int| 0 <= i < table.len() ==> (#[trigger] table[i]).id != new_row(table, title, body).id,
        has_room(table) ==> valid_table(created(table, title, body)),
{
}

/// Every operation keeps the rule of the table and keeps the rows that were
/// there, in their places, with their identifiers, titles and bodies. A
/// publication is never taken back, and a row is published by no operation
/// but the one that names it.
pub proof fn law_rows_persist(table: Seq<PostView>, call: CallView)
    requires
        valid_table(table),
    ensures
        valid_table(table_after(table, call)),
        table.len() <= table_after(table, call).len(),
        forall|i: int|
            0 <= i < table.len() ==> ({
                &&& (#[trigger] table_after(table, call)[i]).id == table[i].id
                &&& table_after(table, call)[i].title == table[i].title
                &&& table_after(table, call)[i].body == table[i].body
                &&& table[i].published ==> table_after(table, call)[i].published
                &&& call != (CallView::Publish { id: table[i].id }) ==> table_after(
                    table,
                    call,
                )[i].published == table[i].published
            }),
{
}

} // verus!
