use blog_api::dao::Post;
use blog_api::json::{
    decode_new_post, frame_list, frame_post, new_post_from_members, render_post, render_posts,
    DecodeError,
};

#[test]
fn frame_post_writes_the_members_in_order() {
    assert_eq!(
        frame_post(7, "\"t\"", "\"b\""),
        "{\"id\":7,\"title\":\"t\",\"body\":\"b\"}"
    );
}

#[test]
fn frame_post_writes_negative_and_extreme_ids() {
    assert_eq!(frame_post(-3, "1", "2"), "{\"id\":-3,\"title\":1,\"body\":2}");
    assert_eq!(
        frame_post(i64::MIN, "1", "2"),
        "{\"id\":-9223372036854775808,\"title\":1,\"body\":2}"
    );
    assert_eq!(
        frame_post(i64::MAX, "1", "2"),
        "{\"id\":9223372036854775807,\"title\":1,\"body\":2}"
    );
}

#[test]
fn frame_list_separates_by_commas() {
    assert_eq!(frame_list(&vec![]), "[]");
    assert_eq!(frame_list(&vec!["1".to_string()]), "[1]");
    assert_eq!(frame_list(&vec!["1".to_string(), "2".to_string()]), "[1,2]");
    assert_eq!(
        frame_list(&vec!["{}".to_string(), "".to_string(), "x".to_string()]),
        "[{},,x]"
    );
}

#[test]
fn render_post_escapes_the_texts() {
    let post = Post::new(12, "a\"b\\c", "line\nbreak\ttab\u{1}");
    assert_eq!(
        render_post(&post).unwrap(),
        "{\"id\":12,\"title\":\"a\\\"b\\\\c\",\"body\":\"line\\nbreak\\ttab\\u0001\"}"
    );
}

#[test]
fn render_post_keeps_other_characters_as_they_are() {
    let post = Post::new(1, "caf\u{e9} \u{1f600}", "");
    assert_eq!(
        render_post(&post).unwrap(),
        "{\"id\":1,\"title\":\"caf\u{e9} \u{1f600}\",\"body\":\"\"}"
    );
}

#[test]
fn render_post_agrees_with_serde_json_on_what_it_reads_back() {
    let post = Post::new(5, "quote \" and \\ slash", "two\nlines");
    let text = render_post(&post).unwrap();
    let value: serde_json::Value = serde_json::from_str(&text).unwrap();
    assert_eq!(value.get("id").unwrap().as_i64(), Some(5));
    assert_eq!(value.get("title").unwrap().as_str(), Some("quote \" and \\ slash"));
    assert_eq!(value.get("body").unwrap().as_str(), Some("two\nlines"));
    assert!(value.get("published").is_none());
}

#[test]
fn render_posts_writes_an_array_in_the_order_given() {
    let posts = vec![Post::new(1, "a", "b"), Post::new(2, "c", "d")];
    assert_eq!(
        render_posts(&posts).unwrap(),
        "[{\"id\":1,\"title\":\"a\",\"body\":\"b\"},{\"id\":2,\"title\":\"c\",\"body\":\"d\"}]"
    );
    assert_eq!(render_posts(&vec![]).unwrap(), "[]");
}

#[test]
fn decode_new_post_reads_title_and_body() {
    let post = decode_new_post(b"{\"title\": \"hello\", \"body\": \"wor\\nld\"}").unwrap();
    assert_eq!(post.title, "hello");
    assert_eq!(post.body, "wor\nld");
}

#[test]
fn decode_new_post_ignores_an_id_and_other_members() {
    let post =
        decode_new_post(b"{\"id\": 9, \"title\": \"t\", \"body\": \"b\", \"extra\": [1, 2]}")
            .unwrap();
    assert_eq!(post.title, "t");
    assert_eq!(post.body, "b");
}

#[test]
fn decode_new_post_rejects_what_is_not_json() {
    assert_eq!(decode_new_post(b"not json").unwrap_err(), DecodeError::Syntax);
    assert_eq!(decode_new_post(b"").unwrap_err(), DecodeError::Syntax);
    assert_eq!(
        decode_new_post(b"{\"title\": \"t\", \"body\": \"b\"} trailing").unwrap_err(),
        DecodeError::Syntax
    );
}

#[test]
fn decode_new_post_wants_a_title() {
    assert_eq!(decode_new_post(b"{\"body\": \"b\"}").unwrap_err(), DecodeError::MissingTitle);
    assert_eq!(
        decode_new_post(b"{\"title\": 3, \"body\": \"b\"}").unwrap_err(),
        DecodeError::MissingTitle
    );
    assert_eq!(decode_new_post(b"[\"t\", \"b\"]").unwrap_err(), DecodeError::MissingTitle);
    assert_eq!(decode_new_post(b"{}").unwrap_err(), DecodeError::MissingTitle);
}

#[test]
fn decode_new_post_wants_a_body() {
    assert_eq!(decode_new_post(b"{\"title\": \"t\"}").unwrap_err(), DecodeError::MissingBody);
    assert_eq!(
        decode_new_post(b"{\"title\": \"t\", \"body\": null}").unwrap_err(),
        DecodeError::MissingBody
    );
}

#[test]
fn new_post_from_members_wants_both() {
    assert_eq!(new_post_from_members(None, None).unwrap_err(), DecodeError::MissingTitle);
    assert_eq!(
        new_post_from_members(None, Some("b".to_string())).unwrap_err(),
        DecodeError::MissingTitle
    );
    assert_eq!(
        new_post_from_members(Some("t".to_string()), None).unwrap_err(),
        DecodeError::MissingBody
    );
    let post = new_post_from_members(Some("t".to_string()), Some("b".to_string())).unwrap();
    assert_eq!(post.title, "t");
    assert_eq!(post.body, "b");
}
