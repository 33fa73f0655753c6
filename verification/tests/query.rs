use blog_api::query::{parse_query_params, try_parse_query_params};

#[test]
fn parse_query_params_reads_one_pair() {
    let params = parse_query_params("id=7");
    assert_eq!(params.len(), 1);
    assert_eq!(params.get("id"), Some(&"7".to_string()));
    assert_eq!(params.get("title"), None);
}

#[test]
fn parse_query_params_reads_several_pairs() {
    let params = parse_query_params("title=rust&id=3&x=");
    assert_eq!(params.len(), 3);
    assert_eq!(params.get("title"), Some(&"rust".to_string()));
    assert_eq!(params.get("id"), Some(&"3".to_string()));
    assert_eq!(params.get("x"), Some(&"".to_string()));
}

#[test]
fn parse_query_params_splits_a_pair_at_its_first_equals_sign() {
    let params = parse_query_params("a=b=c&=v&k==");
    assert_eq!(params.len(), 3);
    assert_eq!(params.get("a"), Some(&"b=c".to_string()));
    assert_eq!(params.get(""), Some(&"v".to_string()));
    assert_eq!(params.get("k"), Some(&"=".to_string()));
}

#[test]
fn parse_query_params_lets_the_last_pair_of_a_key_win() {
    let params = parse_query_params("id=1&id=2&other=x&id=3");
    assert_eq!(params.len(), 2);
    assert_eq!(params.get("id"), Some(&"3".to_string()));
    assert_eq!(params.get("other"), Some(&"x".to_string()));
}

#[test]
fn parse_query_params_decodes_nothing() {
    let params = parse_query_params("title=a%20b+c");
    assert_eq!(params.get("title"), Some(&"a%20b+c".to_string()));
    let params = parse_query_params("t\u{ef}tle=caf\u{e9}");
    assert_eq!(params.get("t\u{ef}tle"), Some(&"caf\u{e9}".to_string()));
}

#[test]
fn try_parse_query_params_accepts_what_is_well_formed() {
    let params = try_parse_query_params("title=").unwrap();
    assert_eq!(params.len(), 1);
    assert_eq!(params.get("title"), Some(&"".to_string()));
    assert!(try_parse_query_params("=").is_some());
    assert!(try_parse_query_params("a=1&b=2").is_some());
}

#[test]
fn try_parse_query_params_rejects_a_piece_without_equals_sign() {
    assert!(try_parse_query_params("").is_none());
    assert!(try_parse_query_params("id").is_none());
    assert!(try_parse_query_params("id=1&").is_none());
    assert!(try_parse_query_params("&id=1").is_none());
    assert!(try_parse_query_params("id=1&&title=x").is_none());
    assert!(try_parse_query_params("id=1&flag&title=x").is_none());
    assert!(try_parse_query_params("a=1&b").is_none());
}
