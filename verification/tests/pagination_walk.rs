use ding_rs::{
    Bookmark, BookmarksRequest, BookmarksResponse, DingClient, IterableRequest, IterableResponse,
    Link, PageWalk, Tag, TagsRequest, TagsResponse, Timestamp, WalkStep,
};

fn tag(id: u64) -> Tag {
    Tag { id, name: format!("tag-{}", id), date_added: Timestamp { seconds: id as i64, nanos: 0 } }
}

fn bookmark(id: u64) -> Bookmark {
    Bookmark {
        id,
        url: Link::parse(&format!("https://example.com/{}", id)).unwrap(),
        title: format!("title {}", id),
        description: String::new(),
        notes: String::new(),
        website_title: None,
        website_description: None,
        web_archive_snapshot_url: None,
        favicon_url: None,
        preview_image_url: None,
        is_archived: false,
        unread: false,
        shared: false,
        tag_names: vec![],
        date_added: Timestamp { seconds: 1, nanos: 0 },
        date_modified: Timestamp { seconds: 2, nanos: 0 },
    }
}

fn next_link(more: bool) -> Option<Link> {
    if more {
        Some(Link::parse("https://example.com/api/next").unwrap())
    } else {
        None
    }
}

fn serve_bookmarks(collection: &[Bookmark], per_page: usize, params: &BookmarksRequest) -> BookmarksResponse {
    let start = (params.offset.unwrap_or(0) as usize).min(collection.len());
    let end = (start + per_page).min(collection.len());
    BookmarksResponse {
        count: collection.len() as u64,
        next: next_link(end < collection.len()),
        previous: None,
        results: collection[start..end].to_vec(),
    }
}

fn drain_bookmarks(n: u64, per_page: usize) -> (Vec<Bookmark>, Vec<BookmarksRequest>) {
    let collection: Vec<Bookmark> = (0..n).map(bookmark).collect();
    let c = DingClient::new(Link::parse("https://example.com/").unwrap(), "abc".to_string());
    let asked = BookmarksRequest { query: Some("q".to_string()), limit: Some(1), offset: Some(3) };
    let (mut walk, mut request) = c.all_bookmarks(asked);
    let mut requests = vec![];
    loop {
        requests.push(request.clone());
        assert!(requests.len() <= n as usize + 1);
        match walk.accept(serve_bookmarks(&collection, per_page, &request)) {
            WalkStep::Fetch { walk: w, request: r } => {
                walk = w;
                request = r;
            }
            WalkStep::Done { results } => return (results, requests),
        }
    }
}

#[test]
fn walk_returns_every_record_in_server_order() {
    for (n, m) in [(1u64, 1usize), (5, 2), (6, 2), (7, 3), (3, 10), (10, 10), (11, 10), (25, 4)] {
        let (results, requests) = drain_bookmarks(n, m);
        let ids: Vec<u64> = results.iter().map(|b| b.id).collect();
        assert_eq!(ids, (0..n).collect::<Vec<u64>>());
        assert_eq!(results, (0..n).map(bookmark).collect::<Vec<Bookmark>>());
        let pages = (n as usize + m - 1) / m;
        assert_eq!(requests.len(), pages);
        for (i, r) in requests.iter().enumerate() {
            assert_eq!(r.offset, Some((i * m) as u64));
            assert_eq!(r.limit, None);
            assert_eq!(r.query, Some("q".to_string()));
        }
    }
}

#[test]
fn walk_of_five_records_two_per_page_makes_three_requests() {
    let (results, requests) = drain_bookmarks(5, 2);
    assert_eq!(results.len(), 5);
    let offsets: Vec<Option<u64>> = requests.iter().map(|r| r.offset).collect();
    assert_eq!(offsets, vec![Some(0), Some(2), Some(4)]);
}

#[test]
fn walk_of_empty_collection_makes_one_request() {
    let (results, requests) = drain_bookmarks(0, 3);
    assert!(results.is_empty());
    assert_eq!(requests.len(), 1);
    assert_eq!(requests[0].offset, Some(0));
    assert_eq!(requests[0].limit, None);
}

#[test]
fn walk_advances_by_records_received_not_by_page_size() {
    let c = DingClient::new(Link::parse("https://example.com/").unwrap(), "abc".to_string());
    let (walk, first) = c.all_tags(TagsRequest { limit: Some(50), offset: Some(9) });
    assert_eq!(first, TagsRequest { limit: None, offset: Some(0) });
    let page = |ids: &[u64], more: bool| TagsResponse {
        count: 6,
        next: next_link(more),
        previous: None,
        results: ids.iter().map(|i| tag(*i)).collect(),
    };
    let (walk, second) = match walk.accept(page(&[1, 2, 3], true)) {
        WalkStep::Fetch { walk, request } => (walk, request),
        WalkStep::Done { .. } => panic!("a page with a next link ends no walk"),
    };
    assert_eq!(second.offset, Some(3));
    let (walk, third) = match walk.accept(page(&[4], true)) {
        WalkStep::Fetch { walk, request } => (walk, request),
        WalkStep::Done { .. } => panic!("a page with a next link ends no walk"),
    };
    assert_eq!(third.offset, Some(4));
    let (walk, fourth) = match walk.accept(page(&[], true)) {
        WalkStep::Fetch { walk, request } => (walk, request),
        WalkStep::Done { .. } => panic!("a page with a next link ends no walk"),
    };
    assert_eq!(fourth, TagsRequest { limit: None, offset: Some(4) });
    match walk.accept(page(&[5, 6], false)) {
        WalkStep::Done { results } => {
            assert_eq!(results, vec![tag(1), tag(2), tag(3), tag(4), tag(5), tag(6)]);
        }
        WalkStep::Fetch { .. } => panic!("a page without a next link ends the walk"),
    }
}

#[test]
fn archived_walk_starts_like_the_bookmark_walk() {
    let c = DingClient::new(Link::parse("https://example.com/").unwrap(), "abc".to_string());
    let asked = BookmarksRequest { query: Some("rust".to_string()), limit: Some(5), offset: Some(5) };
    let (walk, first) = c.all_archived(asked);
    assert_eq!(first, BookmarksRequest { query: Some("rust".to_string()), limit: None, offset: Some(0) });
    let only = BookmarksResponse { count: 1, next: None, previous: None, results: vec![bookmark(8)] };
    match walk.accept(only) {
        WalkStep::Done { results } => assert_eq!(results, vec![bookmark(8)]),
        WalkStep::Fetch { .. } => panic!("a page without a next link ends the walk"),
    }
}

#[test]
fn generic_walk_can_be_started_directly() {
    let (walk, first) = PageWalk::<TagsRequest, Tag>::start(&TagsRequest { limit: Some(1), offset: None });
    assert_eq!(first, TagsRequest { limit: None, offset: Some(0) });
    let empty = TagsResponse { count: 0, next: None, previous: None, results: vec![] };
    match walk.accept(empty) {
        WalkStep::Done { results } => assert!(results.is_empty()),
        WalkStep::Fetch { .. } => panic!("a page without a next link ends the walk"),
    }
}

#[test]
fn limit_and_offset_replace_one_field_each() {
    let t = TagsRequest { limit: Some(1), offset: Some(2) };
    assert_eq!(t.limit(None), TagsRequest { limit: None, offset: Some(2) });
    assert_eq!(t.offset(Some(9)), TagsRequest { limit: Some(1), offset: Some(9) });
    let b = BookmarksRequest { query: Some("x".to_string()), limit: None, offset: Some(4) };
    assert_eq!(b.limit(Some(3)), BookmarksRequest { query: Some("x".to_string()), limit: Some(3), offset: Some(4) });
    assert_eq!(b.offset(None), BookmarksRequest { query: Some("x".to_string()), limit: None, offset: None });
    assert_eq!(TagsRequest::default(), TagsRequest { limit: None, offset: None });
    assert_eq!(BookmarksRequest::default(), BookmarksRequest { query: None, limit: None, offset: None });
}

#[test]
fn responses_hand_out_next_and_results() {
    let page = TagsResponse { count: 2, next: next_link(true), previous: None, results: vec![tag(1), tag(2)] };
    assert_eq!(page.next().unwrap().as_str(), "https://example.com/api/next");
    assert_eq!(page.results(), vec![tag(1), tag(2)]);
    let last = BookmarksResponse { count: 1, next: None, previous: next_link(true), results: vec![bookmark(1)] };
    assert!(last.next().is_none());
    assert_eq!(last.results(), vec![bookmark(1)]);
}
