//! The JSON forms of the request and response bodies.
//!
//! `serde_json` reads documents and writes string literals; the objects and
//! arrays that go out are put together here, around those literals.

use vstd::prelude::*;
use vstd::string::StringExecFns;
use crate::dao;
use crate::encode::wire_views;
use crate::models::NewPost;
use crate::number::{decimal, decimal_text};

verus! {

/// A parsed JSON document, `serde_json::Value`. Verified code only carries
/// it from the parser to the member lookup.
#[verifier::external_type_specification]
#[verifier::external_body]
pub struct ExValue(serde_json::Value);

/// The error of `serde_json`. Verified code only tells it from success.
#[verifier::external_type_specification]
#[verifier::external_body]
pub struct ExError(serde_json::Error);

/// What `serde_json::to_string` gives for a string: its JSON string literal,
/// or nothing where the call fails.
pub uninterp spec fn json_string(text: Seq<char>) -> Option<Seq<char>>;

/// The members of a parsed document that are strings, by key. A document
/// that is not an object has none.
pub uninterp spec fn text_members(document: serde_json::Value) -> Map<Seq<char>, Seq<char>>;

/// What `serde_json::from_slice` makes of `bytes`: the string members of the
/// document read, or nothing where the bytes are not one JSON document.
pub uninterp spec fn json_document(bytes: Seq<u8>) -> Option<Map<Seq<char>, Seq<char>>>;

/// Calls `serde_json::to_string` on a string. The result depends on the text
/// alone and is named `json_string`; nothing is claimed of what it holds.
#[verifier::external_body]
fn quote(text: &str) -> (quoted: Result<String, serde_json::Error>)
    ensures
        quoted is Ok <==> json_string(text@) is Some,
        quoted matches Ok(literal) ==> json_string(text@) == Some(literal@),
{
    serde_json::to_string(text)
}

/// Calls `serde_json::from_slice` to read `bytes` as one JSON value. The
/// result depends on the bytes alone; `json_document` names it, by the
/// string members of the value that comes back.
#[verifier::external_body]
fn parse_document(bytes: &[u8]) -> (parsed: Result<serde_json::Value, serde_json::Error>)
    ensures
        parsed is Ok <==> json_document(bytes@) is Some,
        parsed matches Ok(document) ==> json_document(bytes@) == Some(text_members(document)),
{
    serde_json::from_slice::<serde_json::Value>(bytes)
}

/// Calls `serde_json::Value::get` with a string key and copies the member
/// out where it is a string: `Some` exactly for the keys of `text_members`.
#[verifier::external_body]
fn member_text(document: &serde_json::Value, key: &str) -> (member: Option<String>)
    ensures
        member is Some <==> text_members(*document).contains_key(key@),
        member matches Some(text) ==> text@ == text_members(*document)[key@],
{
    match document.get(key) {
        Some(serde_json::Value::String(text)) => Some(text.clone()),
        _ => None,
    }
}

/// Why a post could not be written as JSON.
#[derive(Debug, PartialEq, Eq, Structural)]
pub enum EncodeError {
    /// The title has no JSON string literal.
    Title,
    /// The body has no JSON string literal.
    Body,
}

/// Why a request body is not a new post.
#[derive(Debug, PartialEq, Eq, Structural)]
pub enum DecodeError {
    /// The bytes are not one JSON document.
    Syntax,
    /// The document has no string member `title`.
    MissingTitle,
    /// The document has no string member `body`.
    MissingBody,
}

/// The JSON object of a post, given the string literals of its two texts:
/// the members `id`, `title` and `body`, in this order and without spaces.
pub open spec fn post_json(id: int, title: Seq<char>, body: Seq<char>) -> Seq<char> {
    "{\"id\":"@ + decimal_text(id) + ",\"title\":"@ + title + ",\"body\":"@ + body + "}"@
}

/// The items, separated by commas.
pub open spec fn comma_separated(items: Seq<Seq<char>>) -> Seq<char>
    decreases items.len(),
{
    if items.len() == 0 {
        Seq::empty()
    } else if items.len() == 1 {
        items[0]
    } else {
        comma_separated(items.drop_last()) + ","@ + items.last()
    }
}

/// The JSON array of the items, without spaces.
pub open spec fn list_json(items: Seq<Seq<char>>) -> Seq<char> {
    "["@ + comma_separated(items) + "]"@
}

/// The texts of a sequence of strings, in the same order.
pub open spec fn texts(items: Seq<String>) -> Seq<Seq<char>> {
    items.map_values(|item: String| item@)
}

/// The JSON document of one wire post, or the text that cannot be written.
pub open spec fn post_document(post: dao::WirePost) -> Result<Seq<char>, EncodeError> {
    match json_string(post.title) {
        None => Err(EncodeError::Title),
        Some(title) => match json_string(post.body) {
            None => Err(EncodeError::Body),
            Some(body) => Ok(post_json(post.id, title, body)),
        },
    }
}

/// The JSON documents of the posts, in order, or the first error among them.
pub open spec fn post_documents(posts: Seq<dao::WirePost>) -> Result<Seq<Seq<char>>, EncodeError>
    decreases posts.len(),
{
    if posts.len() == 0 {
        Ok(Seq::empty())
    } else {
        match post_documents(posts.drop_last()) {
            Err(e) => Err(e),
            Ok(items) => match post_document(posts.last()) {
                Err(e) => Err(e),
                Ok(item) => Ok(items.push(item)),
            },
        }
    }
}

/// The JSON array of the posts, or the first error among them.
pub open spec fn posts_document(posts: Seq<dao::WirePost>) -> Result<Seq<char>, EncodeError> {
    match post_documents(posts) {
        Err(e) => Err(e),
        Ok(items) => Ok(list_json(items)),
    }
}

/// The new post that a request body holds: the string members `title` and
/// `body` of a JSON document. Other members, an `id` among them, are ignored.
pub open spec fn new_post_of(bytes: Seq<u8>) -> Result<(Seq<char>, Seq<char>), DecodeError> {
    match json_document(bytes) {
        None => Err(DecodeError::Syntax),
        Some(members) => new_post_from(
            if members.contains_key("title"@) { Some(members["title"@]) } else { None },
            if members.contains_key("body"@) { Some(members["body"@]) } else { None },
        ),
    }
}

/// The new post made of the two members, where both are there.
pub open spec fn new_post_from(title: Option<Seq<char>>, body: Option<Seq<char>>) -> Result<
    (Seq<char>, Seq<char>),
    DecodeError,
> {
    match (title, body) {
        (None, _) => Err(DecodeError::MissingTitle),
        (Some(_), None) => Err(DecodeError::MissingBody),
        (Some(t), Some(b)) => Ok((t, b)),
    }
}

/// The text of a string that may be missing.
pub open spec fn option_text(text: Option<String>) -> Option<Seq<char>> {
    match text {
        Some(t) => Some(t@),
        None => None,
    }
}

/// The text that a result holds, or its error.
pub open spec fn result_text(result: Result<String, EncodeError>) -> Result<
    Seq<char>,
    EncodeError,
> {
    match result {
        Ok(text) => Ok(text@),
        Err(e) => Err(e),
    }
}

/// The title and body of the new post that a result holds, or its error.
pub open spec fn result_post(result: Result<NewPost, DecodeError>) -> Result<
    (Seq<char>, Seq<char>),
    DecodeError,
> {
    match result {
        Ok(post) => Ok(post@),
        Err(e) => Err(e),
    }
}

/// Puts the JSON object of a post together from its identifier and the
/// string literals of its texts.
pub fn frame_post(id: i64, title: &str, body: &str) -> (object: String)
    ensures
        object@ == post_json(id as int, title@, body@),
{
    let mut out = String::from_str("{\"id\":");
    out.append(decimal(id).as_str());
    out.append(",\"title\":");
    out.append(title);
    out.append(",\"body\":");
    out.append(body);
    out.append("}");
    out
}

/// Puts the JSON array of the items together.
pub fn frame_list(items: &Vec<String>) -> (array: String)
    ensures
        array@ == list_json(texts(items@)),
{
    let mut out = String::from_str("[");
    let mut i: usize = 0;
    while i < items.len()
        invariant
            i <= items.len(),
            out@ == "["@ + comma_separated(texts(items@).take(i as int)),
        decreases items.len() - i,
    {
        assert(texts(items@).take(i + 1).drop_last() == texts(items@).take(i as int));
        if i > 0 {
            out.append(",");
        }
        out.append(items[i].as_str());
        i += 1;
    }
    assert(texts(items@).take(items.len() as int) == texts(items@));
    out.append("]");
    out
}

/// Writes one wire post as a JSON object.
pub fn render_post(post: &dao::Post) -> (rendered: Result<String, EncodeError>)
    ensures
        result_text(rendered) == post_document(post@),
{
    let title = match quote(post.title) {
        Ok(literal) => literal,
        Err(_) => { return Err(EncodeError::Title); },
    };
    let body = match quote(post.body) {
        Ok(literal) => literal,
        Err(_) => { return Err(EncodeError::Body); },
    };
    Ok(frame_post(post.id, title.as_str(), body.as_str()))
}

/// Writes the wire posts as a JSON array of objects, in the order given.
pub fn render_posts(posts: &Vec<dao::Post>) -> (rendered: Result<String, EncodeError>)
    ensures
        result_text(rendered) == posts_document(wire_views(posts@)),
{
    let mut items: Vec<String> = Vec::new();
    let mut i: usize = 0;
    assert(texts(items@) == Seq::<Seq<char>>::empty());
    while i < posts.len()
        invariant
            i <= posts.len(),
            post_documents(wire_views(posts@).take(i as int)) == Ok::<Seq<Seq<char>>, EncodeError>(
                texts(items@),
            ),
        decreases posts.len() - i,
    {
        assert(wire_views(posts@).take(i + 1).drop_last() == wire_views(posts@).take(i as int));
        match render_post(&posts[i]) {
            Ok(text) => {
                assert(texts(items@.push(text)) == texts(items@).push(text@));
                items.push(text);
            },
            Err(e) => {
                proof {
                    lemma_first_error_stays(wire_views(posts@), i + 1);
                }
                return Err(e);
            },
        }
        i += 1;
    }
    assert(wire_views(posts@).take(posts.len() as int) == wire_views(posts@));
    Ok(frame_list(&items))
}

/// Once a prefix of the posts fails, the whole sequence fails in the same way.
proof fn lemma_first_error_stays(posts: Seq<dao::WirePost>, k: int)
    requires
        0 <= k <= posts.len(),
        post_documents(posts.take(k)) is Err,
    ensures
        post_documents(posts) == post_documents(posts.take(k)),
    decreases posts.len(),
{
    if k == posts.len() {
        assert(posts.take(k) == posts);
    } else {
        assert(posts.drop_last().take(k) == posts.take(k));
        lemma_first_error_stays(posts.drop_last(), k);
    }
}

/// Makes the new post of the two members that were looked up.
pub fn new_post_from_members(title: Option<String>, body: Option<String>) -> (made: Result<
    NewPost,
    DecodeError,
>)
    ensures
        result_post(made) == new_post_from(option_text(title), option_text(body)),
{
    match title {
        None => Err(DecodeError::MissingTitle),
        Some(title) => match body {
            None => Err(DecodeError::MissingBody),
            Some(body) => Ok(NewPost { title, body }),
        },
    }
}

/// Reads a request body as a new post.
pub fn decode_new_post(bytes: &[u8]) -> (decoded: Result<NewPost, DecodeError>)
    ensures
        result_post(decoded) == new_post_of(bytes@),
{
    match parse_document(bytes) {
        Err(_) => Err(DecodeError::Syntax),
        Ok(document) => {
            let title = member_text(&document, "title");
            let body = member_text(&document, "body");
            new_post_from_members(title, body)
        },
    }
}

} // verus!
