use ding_rs::{
    BookmarkRequest, BookmarksRequest, DingClient, DingError, HttpRequest, JsonField, JsonValue,
    Link, Method, RequestFailure, TagRequest, TagsRequest,
};

fn client(base: &str, token: &str) -> DingClient {
    DingClient::new(Link::parse(base).unwrap(), token.to_string())
}

fn pair(name: &str, value: &str) -> (String, String) {
    (name.to_string(), value.to_string())
}

fn text_field(name: &str, value: &str) -> JsonField {
    JsonField { name: name.to_string(), value: JsonValue::Text(value.to_string()) }
}

fn every_request(c: &DingClient) -> Vec<HttpRequest> {
    let url = || Link::parse("https://saved.example/page").unwrap();
    vec![
        c.bookmarks(BookmarksRequest { query: Some("rust".to_string()), limit: Some(3), offset: None })
            .unwrap(),
        c.archived(BookmarksRequest::default()).unwrap(),
        c.bookmark(1).unwrap(),
        c.create_bookmark(BookmarkRequest::new(url())).unwrap(),
        c.reset_bookmark(2, BookmarkRequest::new(url())).unwrap(),
        c.update_bookmark(3, BookmarkRequest::default()).unwrap(),
        c.archive_bookmark(4).unwrap(),
        c.unarchive_bookmark(5).unwrap(),
        c.delete_bookmark(6).unwrap(),
        c.tags(TagsRequest { limit: Some(9), offset: Some(9) }).unwrap(),
        c.tag(7).unwrap(),
        c.create_tag(TagRequest { name: "x".to_string() }).unwrap(),
        c.user_profile().unwrap(),
    ]
}

#[test]
fn request_url_is_base_joined_with_path() {
    let c = client("https://example.com", "t");
    assert_eq!(c.bookmarks(BookmarksRequest::default()).unwrap().url.as_str(), "https://example.com/api/bookmarks/");
    assert_eq!(c.user_profile().unwrap().url.as_str(), "https://example.com/api/user/profile/");
    let nested = client("https://example.com/ding/", "t");
    assert_eq!(nested.tags(TagsRequest::default()).unwrap().url.as_str(), "https://example.com/ding/api/tags");
    let no_slash = client("https://example.com/ding", "t");
    assert_eq!(no_slash.tags(TagsRequest::default()).unwrap().url.as_str(), "https://example.com/api/tags");
}

#[test]
fn request_on_base_that_cannot_be_joined_is_url_error() {
    let c = client("mailto:someone@example.com", "t");
    let err = c.tags(TagsRequest::default()).unwrap_err();
    assert!(err.is_url_error());
    assert!(matches!(err, DingError::Url { source: url::ParseError::RelativeUrlWithCannotBeABaseBase }));
    assert!(c.bookmark(1).unwrap_err().is_url_error());
    assert!(c.create_tag(TagRequest { name: "a".to_string() }).unwrap_err().is_url_error());
    assert!(c.bookmarks(BookmarksRequest::default()).unwrap_err().is_url_error());
}

#[test]
fn link_parse_rejects_relative_text() {
    let err = Link::parse("not a url").unwrap_err();
    assert!(matches!(err, DingError::Url { source: url::ParseError::RelativeUrlWithoutBase }));
    assert_eq!(err.status_code(), None);
}

#[test]
fn link_parse_normalises_text() {
    assert_eq!(Link::parse("HTTPS://Example.COM").unwrap().as_str(), "https://example.com/");
    assert_eq!(Link::parse("https://example.com/a/../b").unwrap().into_string(), "https://example.com/b");
}

#[test]
fn link_join_resolves_like_a_browser() {
    let base = Link::parse("https://alice.com/a").unwrap();
    assert_eq!(base.join("/v1/meta").unwrap().as_str(), "https://alice.com/v1/meta");
    assert_eq!(base.join("http://eve.com/b").unwrap().as_str(), "http://eve.com/b");
    assert_eq!(base.clone().as_str(), "https://alice.com/a");
}

#[test]
fn every_operation_carries_the_token_header() {
    for token in ["abc", "", "s3cr3t token"] {
        let c = client("https://example.com/", token);
        let requests = every_request(&c);
        assert_eq!(requests.len(), 13);
        for request in requests {
            assert_eq!(request.authorization, format!("Token {}", token));
        }
    }
}

#[test]
fn methods_and_paths_follow_the_wire_table() {
    let c = client("https://example.com/", "t");
    let got: Vec<(Method, String)> =
        every_request(&c).into_iter().map(|r| (r.method, r.url.into_string())).collect();
    let want = vec![
        (Method::Get, "https://example.com/api/bookmarks/"),
        (Method::Get, "https://example.com/api/bookmarks/archived/"),
        (Method::Get, "https://example.com/api/bookmarks/1/"),
        (Method::Post, "https://example.com/api/bookmarks/"),
        (Method::Put, "https://example.com/api/bookmarks/2/"),
        (Method::Patch, "https://example.com/api/bookmarks/3/"),
        (Method::Post, "https://example.com/api/bookmarks/4/archive/"),
        (Method::Post, "https://example.com/api/bookmarks/5/unarchive/"),
        (Method::Delete, "https://example.com/api/bookmarks/6/"),
        (Method::Get, "https://example.com/api/tags"),
        (Method::Get, "https://example.com/api/tags/7/"),
        (Method::Post, "https://example.com/api/tags/"),
        (Method::Get, "https://example.com/api/user/profile/"),
    ];
    assert_eq!(got.len(), want.len());
    for (g, w) in got.iter().zip(want.iter()) {
        assert_eq!(g.0, w.0);
        assert_eq!(g.1, w.1);
    }
}

#[test]
fn ids_are_written_in_decimal() {
    let c = client("https://example.com/", "t");
    assert_eq!(c.bookmark(0).unwrap().url.as_str(), "https://example.com/api/bookmarks/0/");
    assert_eq!(c.tag(10).unwrap().url.as_str(), "https://example.com/api/tags/10/");
    assert_eq!(c.bookmark(907).unwrap().url.as_str(), "https://example.com/api/bookmarks/907/");
    assert_eq!(
        c.delete_bookmark(u64::MAX).unwrap().url.as_str(),
        "https://example.com/api/bookmarks/18446744073709551615/"
    );
}

#[test]
fn bookmarks_query_omits_absent_parameters() {
    let c = client("https://example.com/", "t");
    assert!(c.bookmarks(BookmarksRequest::default()).unwrap().query.is_empty());
    let only_q = c
        .bookmarks(BookmarksRequest { query: Some("rust lang".to_string()), limit: None, offset: None })
        .unwrap();
    assert_eq!(only_q.query, vec![pair("q", "rust lang")]);
    let all = c
        .archived(BookmarksRequest { query: Some("".to_string()), limit: Some(100), offset: Some(20) })
        .unwrap();
    assert_eq!(all.query, vec![pair("q", ""), pair("limit", "100"), pair("offset", "20")]);
    let paging = c.bookmarks(BookmarksRequest { query: None, limit: None, offset: Some(7) }).unwrap();
    assert_eq!(paging.query, vec![pair("offset", "7")]);
    assert!(all.body.is_none());
}

#[test]
fn tags_query_omits_absent_parameters() {
    let c = client("https://example.com/", "t");
    assert!(c.tags(TagsRequest::default()).unwrap().query.is_empty());
    let limit = c.tags(TagsRequest { limit: Some(5), offset: None }).unwrap();
    assert_eq!(limit.query, vec![pair("limit", "5")]);
    let both = c.tags(TagsRequest { limit: Some(2), offset: Some(0) }).unwrap();
    assert_eq!(both.query, vec![pair("limit", "2"), pair("offset", "0")]);
}

#[test]
fn create_bookmark_sends_only_the_fields_that_are_set() {
    let c = client("https://example.com/", "t");
    let request =
        c.create_bookmark(BookmarkRequest::new(Link::parse("https://rust-lang.org").unwrap())).unwrap();
    assert_eq!(request.body, Some(vec![text_field("url", "https://rust-lang.org/")]));
    assert!(request.query.is_empty());
}

#[test]
fn bookmark_payload_keeps_field_order_and_explicit_values() {
    let c = client("https://example.com/", "t");
    let params = BookmarkRequest {
        url: Some(Link::parse("https://a.example/x").unwrap()),
        title: Some("".to_string()),
        description: Some("d".to_string()),
        notes: Some("n".to_string()),
        is_archived: Some(false),
        unread: Some(true),
        shared: Some(false),
        tag_names: Some(vec!["one".to_string(), "two".to_string()]),
    };
    let request = c.reset_bookmark(12, params).unwrap();
    let want = vec![
        text_field("url", "https://a.example/x"),
        text_field("title", ""),
        text_field("description", "d"),
        text_field("notes", "n"),
        JsonField { name: "is_archived".to_string(), value: JsonValue::Flag(false) },
        JsonField { name: "unread".to_string(), value: JsonValue::Flag(true) },
        JsonField { name: "shared".to_string(), value: JsonValue::Flag(false) },
        JsonField {
            name: "tag_names".to_string(),
            value: JsonValue::List(vec!["one".to_string(), "two".to_string()]),
        },
    ];
    assert_eq!(request.body, Some(want));
}

#[test]
fn update_bookmark_accepts_any_subset_of_fields() {
    let c = client("https://example.com/", "t");
    let blank = c.update_bookmark(1, BookmarkRequest::default()).unwrap();
    assert_eq!(blank.body, Some(vec![]));
    let mut params = BookmarkRequest::default();
    params.unread = Some(false);
    params.tag_names = Some(vec![]);
    let some = c.update_bookmark(1, params).unwrap();
    assert_eq!(
        some.body,
        Some(vec![
            JsonField { name: "unread".to_string(), value: JsonValue::Flag(false) },
            JsonField { name: "tag_names".to_string(), value: JsonValue::List(vec![]) },
        ])
    );
}

#[test]
fn create_tag_sends_the_name() {
    let c = client("https://example.com/", "t");
    let request = c.create_tag(TagRequest { name: "reading".to_string() }).unwrap();
    assert_eq!(request.body, Some(vec![text_field("name", "reading")]));
    assert_eq!(TagRequest { name: "a".to_string() }.into_payload(), vec![text_field("name", "a")]);
}

#[test]
fn requests_without_payload_have_no_body() {
    let c = client("https://example.com/", "t");
    assert!(c.bookmark(1).unwrap().body.is_none());
    assert!(c.archive_bookmark(1).unwrap().body.is_none());
    assert!(c.unarchive_bookmark(1).unwrap().body.is_none());
    assert!(c.delete_bookmark(1).unwrap().body.is_none());
    assert!(c.tag(1).unwrap().body.is_none());
    assert!(c.user_profile().unwrap().body.is_none());
}

#[test]
fn only_2xx_statuses_may_be_decoded() {
    for status in [200u16, 201, 204, 250, 299] {
        assert!(DingClient::check_status(status).is_ok());
    }
    for status in [0u16, 100, 199, 300, 301, 304, 400, 401, 404, 500, 503, 599, 600, u16::MAX] {
        let err = DingClient::check_status(status).unwrap_err();
        assert!(matches!(err, DingError::Request { source: RequestFailure::Status { code } } if code == status));
        assert_eq!(err.status_code(), Some(status));
        assert!(!err.is_url_error());
    }
}

#[test]
fn error_kinds_are_told_apart() {
    let transport = DingError::Request { source: RequestFailure::Transport };
    assert!(!transport.is_url_error());
    assert_eq!(transport.status_code(), None);
    let decode = DingError::Request { source: RequestFailure::Decode };
    assert_eq!(decode.status_code(), None);
    let url = Link::parse("").unwrap_err();
    assert!(url.is_url_error());
}

#[test]
fn new_bookmark_request_sets_only_the_url() {
    let r = BookmarkRequest::new(Link::parse("https://example.com/a").unwrap());
    assert_eq!(r.url.as_ref().unwrap().as_str(), "https://example.com/a");
    assert!(r.title.is_none() && r.description.is_none() && r.notes.is_none());
    assert!(r.is_archived.is_none() && r.unread.is_none() && r.shared.is_none());
    assert!(r.tag_names.is_none());
    assert_eq!(BookmarkRequest::default().into_payload(), vec![]);
}
