use blog_api::dao;
use blog_api::encode::{encode_post, encode_posts};
use blog_api::models::Post;

fn row(id: i32, title: &str, body: &str, published: bool) -> Post {
    Post { id, title: title.to_string(), body: body.to_string(), published }
}

#[test]
fn post_new_keeps_its_arguments() {
    let post = dao::Post::new(9, "title", "body");
    assert_eq!(post.id, 9);
    assert_eq!(post.title, "title");
    assert_eq!(post.body, "body");
}

#[test]
fn encode_post_keeps_identifier_and_texts() {
    let stored = row(3, "a title", "a body", true);
    let wire = encode_post(&stored);
    assert_eq!(wire.id, 3i64);
    assert_eq!(wire.title, "a title");
    assert_eq!(wire.body, "a body");
}

#[test]
fn encode_post_borrows_the_texts_of_the_stored_post() {
    let stored = row(1, "t", "b", false);
    let wire = encode_post(&stored);
    assert_eq!(wire.title.as_ptr(), stored.title.as_ptr());
    assert_eq!(wire.body.as_ptr(), stored.body.as_ptr());
}

#[test]
fn encode_post_widens_the_whole_range_of_identifiers() {
    assert_eq!(encode_post(&row(i32::MAX, "", "", false)).id, 2147483647i64);
    assert_eq!(encode_post(&row(i32::MIN, "", "", false)).id, -2147483648i64);
}

#[test]
fn encode_posts_keeps_the_order() {
    let stored = vec![row(2, "b", "2", true), row(1, "a", "1", false), row(5, "e", "5", true)];
    let wire = encode_posts(&stored);
    assert_eq!(wire.len(), 3);
    assert_eq!((wire[0].id, wire[0].title, wire[0].body), (2, "b", "2"));
    assert_eq!((wire[1].id, wire[1].title, wire[1].body), (1, "a", "1"));
    assert_eq!((wire[2].id, wire[2].title, wire[2].body), (5, "e", "5"));
}

#[test]
fn encode_posts_of_nothing_is_nothing() {
    assert!(encode_posts(&vec![]).is_empty());
}

#[test]
fn a_copy_of_a_post_has_the_same_fields() {
    let stored = row(4, "t", "b", true);
    let copy = stored.clone();
    assert_eq!((copy.id, copy.title, copy.body, copy.published), (4, "t".to_string(), "b".to_string(), true));
}
