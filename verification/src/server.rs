//! The service: requests answered on a table of posts.
//!
//! A request is first planned; the plan is either a reply that needs no
//! table, or one operation on the table, whose answer is then shown as the
//! reply. `Api` does all of this on a table that it owns. A caller that
//! keeps the table elsewhere calls `plan` and `reply` around its own
//! operation.

use vstd::prelude::*;
use vstd::hash_map::StringHashMap;
use crate::db::{
    answer_to, created, has_room, holds, new_row, published, row, search, table_after,
    valid_table, AnswerView, CallView, Persistence, StoreAnswer,
};
use crate::encode::{encode_post, encode_posts, wire, wire_all};
use crate::json::{new_post_of, post_document, posts_document, render_post, render_posts};
use crate::models::PostView;
use crate::number::i32_of;
use crate::query::{query_params, texts_of};
use crate::response::{
    add_content_type, bad_request_view, dumb, dumb_view, failure, failure_view, not_found,
    not_found_view, ok, plain, with_content_type, Response, ResponseView,
};
use crate::route::{
    get_posts_by_title_step, is_route, option_str, plan, plan_get_posts_by_title,
    plan_publish_post, plan_store_post, planned, publish_post_step, store_post_step, Step,
    StepView,
};

verus! {

/// The response that shows an answer of the table, without headers: a row
/// as a JSON object, rows as a JSON array, each with status 200.
pub open spec fn rendered(answer: AnswerView) -> ResponseView {
    match answer {
        AnswerView::Row(post) => match post_document(wire(post)) {
            Ok(text) => plain(200, text),
            Err(_) => failure_view(),
        },
        AnswerView::Rows(posts) => match posts_document(wire_all(posts)) {
            Ok(text) => plain(200, text),
            Err(_) => failure_view(),
        },
        AnswerView::Failed => failure_view(),
    }
}

/// The table after a step.
pub open spec fn table_after_step(table: Seq<PostView>, step: StepView) -> Seq<PostView> {
    match step {
        StepView::Reply(_) => table,
        StepView::Call(call) => table_after(table, call),
    }
}

/// The response to a step on a table, without more headers than the step has.
pub open spec fn response_to(table: Seq<PostView>, step: StepView) -> ResponseView {
    match step {
        StepView::Reply(response) => response,
        StepView::Call(call) => rendered(answer_to(table, call)),
    }
}

/// Shows an answer of the table as a response, without headers.
pub fn render(answer: &StoreAnswer) -> (response: Response)
    ensures
        response@ == rendered(answer@),
{
    match answer {
        StoreAnswer::Row(post) => match render_post(&encode_post(post)) {
            Ok(text) => ok(text),
            Err(_) => failure(),
        },
        StoreAnswer::Rows(posts) => match render_posts(&encode_posts(posts)) {
            Ok(text) => ok(text),
            Err(_) => failure(),
        },
        StoreAnswer::Failed => failure(),
    }
}

/// The response that shows an answer of the table, with the common header.
pub open spec fn replied(answer: AnswerView) -> ResponseView {
    with_content_type(rendered(answer))
}

/// Shows an answer of the table as the response to send.
pub fn reply(answer: &StoreAnswer) -> (response: Response)
    ensures
        response@ == replied(answer@),
{
    add_content_type(render(answer))
}

/// The response to a planned request on a table.
pub open spec fn served(table: Seq<PostView>, step: StepView) -> ResponseView {
    match step {
        StepView::Reply(response) => response,
        StepView::Call(call) => replied(answer_to(table, call)),
    }
}

/// The three operations of the service, on a table that it owns.
pub struct Api {
    db: Persistence,
}

impl View for Api {
    type V = Seq<PostView>;

    closed spec fn view(&self) -> Seq<PostView> {
        self.db@
    }
}

impl Api {
    /// The table obeys its rule.
    pub open spec fn wf(&self) -> bool {
        valid_table(self@)
    }

    /// The service on this table.
    pub fn new(db: Persistence) -> (api: Self)
        ensures
            api@ == db@,
    {
        Self { db }
    }

    /// Carries a step out, without adding a header.
    fn finish(&mut self, step: Step) -> (response: Response)
        requires
            old(self).wf(),
        ensures
            final(self).wf(),
            final(self)@ == table_after_step(old(self)@, step@),
            response@ == response_to(old(self)@, step@),
    {
        match step {
            Step::Reply(response) => response,
            Step::Call(call) => {
                let answer = self.db.run(&call);
                render(&answer)
            },
        }
    }

    /// Creates a post from a request body that holds its title and body as
    /// JSON, and answers with the new row. A body that holds no new post is
    /// answered with status 400, and the table stays as it is.
    pub fn store_post(&mut self, body: &[u8]) -> (response: Response)
        requires
            old(self).wf(),
        ensures
            final(self).wf(),
            final(self)@ == table_after_step(old(self)@, store_post_step(body@)),
            response@ == response_to(old(self)@, store_post_step(body@)),
            new_post_of(body@) is Err ==> response@ == bad_request_view() && final(self)@ == old(
                self,
            )@,
            new_post_of(body@) matches Ok((title, text)) ==> (has_room(old(self)@) ==> ({
                &&& final(self)@ == created(old(self)@, title, text)
                &&& response@ == rendered(AnswerView::Row(new_row(old(self)@, title, text)))
            })),
    {
        self.finish(plan_store_post(body))
    }

    /// Publishes the post that the parameter `id` names and answers with
    /// its row. Without the parameter, or where it is no `i32`, the answer
    /// has status 400 and the table stays as it is.
    pub fn publish_post(&mut self, query_params: StringHashMap<String>) -> (response: Response)
        requires
            old(self).wf(),
        ensures
            final(self).wf(),
            final(self)@ == table_after_step(
                old(self)@,
                publish_post_step(texts_of(query_params@)),
            ),
            response@ == response_to(old(self)@, publish_post_step(texts_of(query_params@))),
            !texts_of(query_params@).contains_key("id"@) || i32_of(texts_of(query_params@)["id"@])
                is None ==> response@ == bad_request_view() && final(self)@ == old(self)@,
            i32_of(texts_of(query_params@)["id"@]) matches Some(id) ==> (texts_of(
                query_params@,
            ).contains_key("id"@) && holds(old(self)@, id as int) ==> ({
                &&& final(self)@ == published(old(self)@, id as int)
                &&& response@ == rendered(AnswerView::Row(row(final(self)@, id as int)))
            })),
    {
        self.finish(plan_publish_post(&query_params))
    }

    /// Answers with the published posts whose title contains the parameter
    /// `title`. Without the parameter the answer has status 400. The table
    /// stays as it is.
    pub fn get_posts_by_title(&mut self, query_params: StringHashMap<String>) -> (response:
        Response)
        requires
            old(self).wf(),
        ensures
            final(self)@ == old(self)@,
            response@ == response_to(old(self)@, get_posts_by_title_step(texts_of(query_params@))),
            !texts_of(query_params@).contains_key("title"@) ==> response@ == bad_request_view(),
            texts_of(query_params@).contains_key("title"@) ==> response@ == rendered(
                AnswerView::Rows(search(old(self)@, texts_of(query_params@)["title"@])),
            ),
    {
        self.finish(plan_get_posts_by_title(&query_params))
    }

    /// The reply of the diagnostic route: status 404 with a text of its own.
    pub fn handle_dumb(&self) -> (response: Response)
        ensures
            response@ == dumb_view(),
    {
        dumb()
    }

    /// The reply to a request that no route takes.
    pub fn handler_not_found() -> (response: Response)
        ensures
            response@ == not_found_view(),
    {
        not_found()
    }

    /// Answers one request: plans it, does the planned operation on the
    /// table, and shows the answer. A request that no route takes is
    /// answered with status 404 and leaves the table as it is.
    pub fn handle(&mut self, method: &str, path: &str, query: Option<&str>, body: &[u8]) -> (response:
        Response)
        requires
            old(self).wf(),
        ensures
            final(self).wf(),
            final(self)@ == table_after_step(
                old(self)@,
                planned(method@, path@, option_str(query), body@),
            ),
            response@ == served(old(self)@, planned(method@, path@, option_str(query), body@)),
            !is_route(method@, path@) && (query matches Some(q) ==> crate::query::well_formed(q@))
                ==> response@ == with_content_type(not_found_view()) && final(self)@ == old(self)@,
    {
        match plan(method, path, query, body) {
            Step::Reply(response) => response,
            Step::Call(call) => {
                let answer = self.db.run(&call);
                reply(&answer)
            },
        }
    }
}

/// A request to create a post whose body holds no new post is answered with
/// status 400, and the table stays as it is.
pub proof fn law_malformed_create_is_refused(
    table: Seq<PostView>,
    query: Option<Seq<char>>,
    body: Seq<u8>,
)
    requires
        new_post_of(body) is Err,
        query matches Some(q) ==> crate::query::well_formed(q),
    ensures
        served(table, planned("POST"@, "/post"@, query, body)) == with_content_type(
            bad_request_view(),
        ),
        served(table, planned("POST"@, "/post"@, query, body)).status == 400,
        table_after_step(table, planned("POST"@, "/post"@, query, body)) == table,
{
}

/// A request to publish that names no `id` is answered with status 400, and
/// the table stays as it is.
pub proof fn law_publish_without_id_is_refused(
    table: Seq<PostView>,
    query: Option<Seq<char>>,
    body: Seq<u8>,
)
    requires
        query matches Some(q) ==> crate::query::well_formed(q) && !query_params(q).contains_key(
            "id"@,
        ),
    ensures
        served(table, planned("GET"@, "/publish"@, query, body)) == with_content_type(
            bad_request_view(),
        ),
        served(table, planned("GET"@, "/publish"@, query, body)).status == 400,
        table_after_step(table, planned("GET"@, "/publish"@, query, body)) == table,
{
    reveal_strlit("GET");
    reveal_strlit("POST");
    assert("GET"@.len() != "POST"@.len());
}

/// A search whose `title` is empty is answered with all the published posts,
/// and the table stays as it is.
pub proof fn law_empty_title_lists_all_published(table: Seq<PostView>, body: Seq<u8>)
    ensures
        planned("GET"@, "/posts"@, Some("title="@), body) == StepView::Call(
            CallView::Search { title: Seq::empty() },
        ),
        served(table, planned("GET"@, "/posts"@, Some("title="@), body)) == replied(
            AnswerView::Rows(crate::db::published_rows(table)),
        ),
        table_after_step(table, planned("GET"@, "/posts"@, Some("title="@), body)) == table,
{
    reveal_strlit("GET");
    reveal_strlit("POST");
    reveal_strlit("/posts");
    reveal_strlit("/post");
    reveal_strlit("/publish");
    reveal_strlit("title=");
    reveal_strlit("title");
    assert("/posts"@.len() != "/publish"@.len());
    let query = "title="@;
    let name = "title"@;
    assert(query == name.push('=') + Seq::<char>::empty());
    lemma_one_pair(query, name, Seq::empty());
    crate::db::law_empty_search_gives_all_published(table);
}

/// A query string that is one pair without `&` gives that one parameter.
proof fn lemma_one_pair(query: Seq<char>, key: Seq<char>, value: Seq<char>)
    requires
        query == key.push('=') + value,
        !key.contains('='),
        !key.contains('&'),
        !value.contains('&'),
    ensures
        crate::query::well_formed(query),
        query_params(query) == Map::<Seq<char>, Seq<char>>::empty().insert(key, value),
{
    crate::query::lemma_unsplit(query, '&');
    crate::query::lemma_first(query, '=', key.len() as int);
    assert(query.take(key.len() as int) == key);
    assert(query.skip(key.len() as int + 1) == value);
    let pairs = seq![query];
    assert(crate::query::params_of(pairs.drop_last()) == Map::<Seq<char>, Seq<char>>::empty());
}

/// A request that no route takes is answered with status 404, and the table
/// stays as it is.
pub proof fn law_unknown_route_is_not_found(
    table: Seq<PostView>,
    method: Seq<char>,
    path: Seq<char>,
    query: Option<Seq<char>>,
    body: Seq<u8>,
)
    requires
        !is_route(method, path),
        query matches Some(q) ==> crate::query::well_formed(q),
    ensures
        served(table, planned(method, path, query, body)) == with_content_type(not_found_view()),
        served(table, planned(method, path, query, body)).status == 404,
        table_after_step(table, planned(method, path, query, body)) == table,
{
}

} // verus!
