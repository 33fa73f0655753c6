//! Responses, and the replies that are always the same.

use vstd::prelude::*;
use vstd::string::StringExecFns;

verus! {

/// What a response is, as mathematical values.
pub struct ResponseView {
    pub status: int,
    pub headers: Seq<(Seq<char>, Seq<char>)>,
    pub body: Seq<char>,
}

/// A response: the status code, the headers as names and values, the body.
#[derive(Debug)]
pub struct Response {
    pub status: u16,
    pub headers: Vec<(String, String)>,
    pub body: String,
}

impl View for Response {
    type V = ResponseView;

    open spec fn view(&self) -> ResponseView {
        ResponseView {
            status: self.status as int,
            headers: self.headers@.map_values(|h: (String, String)| (h.0@, h.1@)),
            body: self.body@,
        }
    }
}

/// A response without headers.
pub open spec fn plain(status: int, body: Seq<char>) -> ResponseView {
    ResponseView { status, headers: Seq::empty(), body }
}

/// The reply to a request whose input cannot be used.
pub open spec fn bad_request_view() -> ResponseView {
    plain(400, "post some data please"@)
}

/// The reply to a request that no route takes.
pub open spec fn not_found_view() -> ResponseView {
    plain(404, "look somewhere else"@)
}

/// The reply of the diagnostic route.
pub open spec fn dumb_view() -> ResponseView {
    plain(404, "your rust code actually worked damn it"@)
}

/// The reply where the request was in order and the work failed.
pub open spec fn failure_view() -> ResponseView {
    plain(500, "something went wrong"@)
}

/// The response with the header that every response gets, whatever its body.
pub open spec fn with_content_type(response: ResponseView) -> ResponseView {
    ResponseView {
        headers: response.headers.push(("Content-Type"@, "application/json"@)),
        ..response
    }
}

/// A response without headers.
fn plain_response(status: u16, body: &str) -> (response: Response)
    ensures
        response@ == plain(status as int, body@),
{
    let response = Response { status, headers: Vec::new(), body: String::from_str(body) };
    assert(response@.headers =~= Seq::empty());
    response
}

/// The reply that carries a result.
pub fn ok(body: String) -> (response: Response)
    ensures
        response@ == plain(200, body@),
{
    let response = Response { status: 200, headers: Vec::new(), body };
    assert(response@.headers =~= Seq::empty());
    response
}

/// The reply to a request whose input cannot be used.
pub fn bad_request() -> (response: Response)
    ensures
        response@ == bad_request_view(),
{
    plain_response(400, "post some data please")
}

/// The reply where the request was in order and the work failed.
pub fn failure() -> (response: Response)
    ensures
        response@ == failure_view(),
{
    plain_response(500, "something went wrong")
}

/// Adds the header that every response gets.
pub fn add_content_type(response: Response) -> (sent: Response)
    ensures
        sent@ == with_content_type(response@),
{
    let mut sent = response;
    sent.headers.push((String::from_str("Content-Type"), String::from_str("application/json")));
    assert(sent@.headers =~= response@.headers.push(("Content-Type"@, "application/json"@)));
    sent
}

/// The reply of the diagnostic route.
pub fn dumb() -> (response: Response)
    ensures
        response@ == dumb_view(),
{
    plain_response(404, "your rust code actually worked damn it")
}

/// The reply to a request that no route takes.
pub fn not_found() -> (response: Response)
    ensures
        response@ == not_found_view(),
{
    plain_response(404, "look somewhere else")
}

} // verus!
