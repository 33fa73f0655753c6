//! From a request to what is to be done for it.
//!
//! | method | path       | what is planned                          |
//! |--------|------------|------------------------------------------|
//! | POST   | `/post`    | create the post that the body holds      |
//! | GET    | `/publish` | publish the post that `id` names         |
//! | GET    | `/posts`   | search the published posts by `title`    |
//! | GET    | `/dumb`    | a fixed reply with status 404            |
//! | any    | any other  | the reply "not found", status 404        |

use vstd::prelude::*;
use vstd::hash_map::StringHashMap;
use crate::db::{CallView, StoreCall};
use crate::json::{decode_new_post, new_post_of};
use crate::number::{i32_of, parse_i32};
use crate::query::{query_params, texts_of, try_parse_query_params};
use crate::response::{
    add_content_type, bad_request, bad_request_view, dumb, dumb_view, failure, failure_view,
    not_found, not_found_view, with_content_type, Response, ResponseView,
};
use crate::text::same_text;

verus! {

/// What is to be done for a request.
#[derive(Debug)]
pub enum Step {
    /// Send this response; the table is not touched.
    Reply(Response),
    /// Do this operation on the table and send what `reply` makes of its answer.
    Call(StoreCall),
}

/// What a `Step` is, as mathematical values.
pub enum StepView {
    Reply(ResponseView),
    Call(CallView),
}

impl View for Step {
    type V = StepView;

    open spec fn view(&self) -> StepView {
        match *self {
            Step::Reply(response) => StepView::Reply(response@),
            Step::Call(call) => StepView::Call(call@),
        }
    }
}

/// Creating a post: the body must hold a new post.
pub open spec fn store_post_step(body: Seq<u8>) -> StepView {
    match new_post_of(body) {
        Ok((title, text)) => StepView::Call(CallView::Create { title, body: text }),
        Err(_) => StepView::Reply(bad_request_view()),
    }
}

/// Publishing a post: the parameter `id` must be there and denote an `i32`.
pub open spec fn publish_post_step(params: Map<Seq<char>, Seq<char>>) -> StepView {
    if params.contains_key("id"@) {
        match i32_of(params["id"@]) {
            Some(id) => StepView::Call(CallView::Publish { id: id as int }),
            None => StepView::Reply(bad_request_view()),
        }
    } else {
        StepView::Reply(bad_request_view())
    }
}

/// Searching posts: the parameter `title` must be there; it may be empty.
pub open spec fn get_posts_by_title_step(params: Map<Seq<char>, Seq<char>>) -> StepView {
    if params.contains_key("title"@) {
        StepView::Call(CallView::Search { title: params["title"@] })
    } else {
        StepView::Reply(bad_request_view())
    }
}

/// The routes: the method and the path must both be exactly as given here.
pub open spec fn routed(
    method: Seq<char>,
    path: Seq<char>,
    query: Option<Seq<char>>,
    body: Seq<u8>,
) -> StepView {
    let params = match query {
        Some(q) => query_params(q),
        None => Map::empty(),
    };
    if query is Some && !crate::query::well_formed(query->0) {
        StepView::Reply(failure_view())
    } else if method == "POST"@ && path == "/post"@ {
        store_post_step(body)
    } else if method == "GET"@ && path == "/publish"@ {
        publish_post_step(params)
    } else if method == "GET"@ && path == "/posts"@ {
        get_posts_by_title_step(params)
    } else if method == "GET"@ && path == "/dumb"@ {
        StepView::Reply(dumb_view())
    } else {
        StepView::Reply(not_found_view())
    }
}

/// The plan for a request: its route's step, a reply carrying the header.
pub open spec fn planned(
    method: Seq<char>,
    path: Seq<char>,
    query: Option<Seq<char>>,
    body: Seq<u8>,
) -> StepView {
    match routed(method, path, query, body) {
        StepView::Reply(response) => StepView::Reply(with_content_type(response)),
        StepView::Call(call) => StepView::Call(call),
    }
}

/// A method and a path that a route takes.
pub open spec fn is_route(method: Seq<char>, path: Seq<char>) -> bool {
    ||| method == "POST"@ && path == "/post"@
    ||| method == "GET"@ && path == "/publish"@
    ||| method == "GET"@ && path == "/posts"@
    ||| method == "GET"@ && path == "/dumb"@
}

/// The text of a string that may be missing.
pub open spec fn option_str(text: Option<&str>) -> Option<Seq<char>> {
    match text {
        Some(t) => Some(t@),
        None => None,
    }
}

/// Plans the creation of a post from a request body.
pub fn plan_store_post(body: &[u8]) -> (step: Step)
    ensures
        step@ == store_post_step(body@),
{
    match decode_new_post(body) {
        Ok(post) => Step::Call(StoreCall::Create(post)),
        Err(_) => Step::Reply(bad_request()),
    }
}

/// Plans the publication of a post from the query parameters.
pub fn plan_publish_post(query_params: &StringHashMap<String>) -> (step: Step)
    ensures
        step@ == publish_post_step(texts_of(query_params@)),
{
    match query_params.get("id") {
        Some(post_id) => match parse_i32(post_id.as_str()) {
            Some(id) => Step::Call(StoreCall::Publish(id)),
            None => Step::Reply(bad_request()),
        },
        None => Step::Reply(bad_request()),
    }
}

/// Plans a search from the query parameters.
pub fn plan_get_posts_by_title(query_params: &StringHashMap<String>) -> (step: Step)
    ensures
        step@ == get_posts_by_title_step(texts_of(query_params@)),
{
    match query_params.get("title") {
        Some(post_title) => Step::Call(StoreCall::Search(post_title.clone())),
        None => Step::Reply(bad_request()),
    }
}

/// Finds the route of a request and plans it, without the common header.
fn route(method: &str, path: &str, query: Option<&str>, body: &[u8]) -> (step: Step)
    ensures
        step@ == routed(method@, path@, option_str(query), body@),
{
    let query_params = match query {
        Some(q) => match try_parse_query_params(q) {
            Some(params) => params,
            None => {
                return Step::Reply(failure());
            },
        },
        None => {
            let params = StringHashMap::new();
            params
        },
    };
    if same_text(method, "POST") && same_text(path, "/post") {
        plan_store_post(body)
    } else if same_text(method, "GET") && same_text(path, "/publish") {
        plan_publish_post(&query_params)
    } else if same_text(method, "GET") && same_text(path, "/posts") {
        plan_get_posts_by_title(&query_params)
    } else if same_text(method, "GET") && same_text(path, "/dumb") {
        Step::Reply(dumb())
    } else {
        Step::Reply(not_found())
    }
}

/// Plans a request: a malformed query string is answered with status 500
/// whatever the route; then the route decides; a request that no route
/// takes is answered with status 404. Every reply carries the common header.
pub fn plan(method: &str, path: &str, query: Option<&str>, body: &[u8]) -> (step: Step)
    ensures
        step@ == planned(method@, path@, option_str(query), body@),
{
    match route(method, path, query, body) {
        Step::Reply(response) => Step::Reply(add_content_type(response)),
        Step::Call(call) => Step::Call(call),
    }
}

} // verus!
