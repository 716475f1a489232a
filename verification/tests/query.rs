use ebts::query::Query;
use ebts::query::QUERY_KEY;
use ebts::uri::RequestUri;

fn uri(path: &str, query: Option<&str>) -> RequestUri {
    RequestUri {
        path: path.to_string(),
        query: query.map(|q| q.to_string()),
    }
}

fn text(query: &str) -> Option<String> {
    Query::parse(&uri("/search", Some(query))).map(|q| q.query)
}

fn pair(name: &str, value: &str) -> (String, String) {
    (name.to_string(), value.to_string())
}

#[test]
fn query_key_is_q() {
    assert_eq!(QUERY_KEY, "q");
}

#[test]
fn parse_returns_the_value_of_q() {
    assert_eq!(text("q=hello"), Some("hello".to_string()));
}

#[test]
fn parse_decodes_percent_escapes() {
    assert_eq!(text("q=a%20b"), Some("a b".to_string()));
    assert_eq!(text("q=%23first"), Some("#first".to_string()));
    assert_eq!(text("q=%25try%25"), Some("%try%".to_string()));
    assert_eq!(text("q=caf%C3%A9"), Some("caf\u{e9}".to_string()));
}

#[test]
fn parse_decodes_plus_as_space() {
    assert_eq!(text("q=rust+verus"), Some("rust verus".to_string()));
    assert_eq!(text("q=1%2B1"), Some("1+1".to_string()));
}

#[test]
fn parse_takes_the_first_q() {
    assert_eq!(text("q=one&q=two"), Some("one".to_string()));
    assert_eq!(text("q=&q=two"), Some(String::new()));
}

#[test]
fn parse_skips_pairs_with_other_names() {
    assert_eq!(text("a=1&q=x&b=2"), Some("x".to_string()));
    assert_eq!(text("lang=en&page=2&q=last"), Some("last".to_string()));
}

#[test]
fn parse_without_query_string_finds_nothing() {
    assert_eq!(Query::parse(&uri("/search", None)), None);
    assert_eq!(Query::parse(&uri("/", None)), None);
}

#[test]
fn parse_without_q_finds_nothing() {
    assert_eq!(text("a=1&b=2"), None);
    assert_eq!(text("query=x"), None);
    assert_eq!(text("qq=x"), None);
}

#[test]
fn parse_of_empty_query_string_finds_nothing() {
    assert_eq!(text(""), None);
    assert_eq!(text("&&&"), None);
}

#[test]
fn parse_name_is_case_sensitive() {
    assert_eq!(text("Q=x"), None);
}

#[test]
fn parse_q_without_value_is_empty_text() {
    assert_eq!(text("q"), Some(String::new()));
    assert_eq!(text("q="), Some(String::new()));
}

#[test]
fn parse_decodes_the_name_too() {
    assert_eq!(text("%71=x"), Some("x".to_string()));
}

#[test]
fn parse_splits_at_the_first_equals_sign() {
    assert_eq!(text("q=a=b"), Some("a=b".to_string()));
}

#[test]
fn parse_ignores_empty_segments() {
    assert_eq!(text("&&q=x&&"), Some("x".to_string()));
}

#[test]
fn parse_keeps_malformed_escapes_as_they_are() {
    assert_eq!(text("q=%zz"), Some("%zz".to_string()));
    assert_eq!(text("q=100%"), Some("100%".to_string()));
    assert_eq!(text("q=%4"), Some("%4".to_string()));
}

#[test]
fn parse_replaces_bytes_that_are_not_utf8() {
    assert_eq!(text("q=%FF"), Some("\u{fffd}".to_string()));
}

#[test]
fn parse_does_not_depend_on_the_path() {
    assert_eq!(
        Query::parse(&uri("/", Some("q=x"))),
        Some(Query { query: "x".to_string() })
    );
    assert_eq!(
        Query::parse(&uri("/elsewhere", Some("q=x"))),
        Some(Query { query: "x".to_string() })
    );
}

#[test]
fn from_pairs_takes_the_first_pair_named_q() {
    let pairs = vec![pair("a", "1"), pair("q", "x"), pair("q", "y")];
    assert_eq!(
        Query::from_pairs(&pairs),
        Some(Query { query: "x".to_string() })
    );
}

#[test]
fn from_pairs_is_unchanged_by_what_follows_the_first_q() {
    let short = vec![pair("q", "x")];
    let long = vec![pair("q", "x"), pair("q", "y"), pair("z", "q")];
    assert_eq!(Query::from_pairs(&short), Query::from_pairs(&long));
}

#[test]
fn from_pairs_without_q_finds_nothing() {
    let pairs = vec![pair("a", "q"), pair("Q", "x"), pair("", "q")];
    assert_eq!(Query::from_pairs(&pairs), None);
    let none: Vec<(String, String)> = Vec::new();
    assert_eq!(Query::from_pairs(&none), None);
}

#[test]
fn from_pairs_matches_the_name_not_the_value() {
    let pairs = vec![pair("x", "q"), pair("q", "")];
    assert_eq!(Query::from_pairs(&pairs), Some(Query { query: String::new() }));
}
