//! The API client: it turns each operation into the request to send, and
//! says which response statuses may be decoded.

use vstd::prelude::*;
use crate::errors::{DingError, RequestFailure};
use crate::link::{url_join_result, Link};
use crate::pagination::{is_page_request, PageWalk};
use crate::request::{
    bookmark_payload, bookmarks_query, payload_view, tag_payload, tags_query, HttpRequest,
    JsonField, JsonModel, Method, RequestModel,
};
use crate::text::{append, decimal_digits, joined, write_decimal};
use crate::types::{
    Bookmark, BookmarkRequest, BookmarksRequest, IterableRequest, Tag, TagRequest, TagsRequest,
};

verus! {

/// The path of one bookmark.
pub open spec fn bookmark_path(id: u64) -> Seq<char> {
    "api/bookmarks/"@ + decimal_digits(id as nat) + "/"@
}

/// The path that archives one bookmark.
pub open spec fn archive_path(id: u64) -> Seq<char> {
    "api/bookmarks/"@ + decimal_digits(id as nat) + "/archive/"@
}

/// The path that unarchives one bookmark.
pub open spec fn unarchive_path(id: u64) -> Seq<char> {
    "api/bookmarks/"@ + decimal_digits(id as nat) + "/unarchive/"@
}

/// The path of one tag.
pub open spec fn tag_path(id: u64) -> Seq<char> {
    "api/tags/"@ + decimal_digits(id as nat) + "/"@
}

/// Whether a response status is in the 2xx range.
pub open spec fn is_success(status: u16) -> bool {
    200 <= status <= 299
}

fn id_path(prefix: &str, id: u64, suffix: &str) -> (path: String)
    ensures
        path@ == prefix@ + decimal_digits(id as nat) + suffix@,
{
    let mut path = String::new();
    append(&mut path, prefix);
    write_decimal(&mut path, id);
    append(&mut path, suffix);
    assert(path@ =~= prefix@ + decimal_digits(id as nat) + suffix@);
    path
}

/// The authenticated gateway to the service: a base URL and a token, both
/// fixed for the client's lifetime.
#[derive(Debug)]
pub struct DingClient {
    base_url: Link,
    api_token: String,
}

impl DingClient {
    /// The text of the base URL.
    pub closed spec fn base(&self) -> Seq<char> {
        self.base_url@
    }

    /// The token.
    pub closed spec fn token(&self) -> Seq<char> {
        self.api_token@
    }

    /// The value of the `Authorization` header of every request.
    pub open spec fn authorization(&self) -> Seq<char> {
        "Token "@ + self.token()
    }

    /// The request that this client makes of a method, a path relative to
    /// the base URL, a query and a body; `None` where the base URL and the
    /// path do not join into an absolute URL.
    pub open spec fn plan(
        &self,
        method: Method,
        path: Seq<char>,
        query: Seq<(Seq<char>, Seq<char>)>,
        body: Option<Seq<(Seq<char>, JsonModel)>>,
    ) -> Option<RequestModel> {
        match url_join_result(self.base(), path) {
            Some(url) => Some(
                RequestModel { method, url, authorization: self.authorization(), query, body },
            ),
            None => None,
        }
    }

    /// Whether `r` is the outcome of planning that request: the request
    /// itself, or the `Url` error where there is none.
    pub open spec fn planned(
        &self,
        r: Result<HttpRequest, DingError>,
        method: Method,
        path: Seq<char>,
        query: Seq<(Seq<char>, Seq<char>)>,
        body: Option<Seq<(Seq<char>, JsonModel)>>,
    ) -> bool {
        match r {
            Ok(request) => self.plan(method, path, query, body) == Some(request@),
            Err(e) => self.plan(method, path, query, body) is None && e is Url,
        }
    }

    /// Whatever is asked of a client, the request it plans goes to the
    /// base URL joined with the path, and where the two do not join the
    /// outcome is the `Url` error.
    pub proof fn lemma_request_url_is_join(
        &self,
        r: Result<HttpRequest, DingError>,
        method: Method,
        path: Seq<char>,
        query: Seq<(Seq<char>, Seq<char>)>,
        body: Option<Seq<(Seq<char>, JsonModel)>>,
    )
        requires
            self.planned(r, method, path, query, body),
        ensures
            match r {
                Ok(request) => url_join_result(self.base(), path) == Some(request@.url),
                Err(e) => url_join_result(self.base(), path) is None && e is Url,
            },
    {
    }

    /// Every request that a client plans carries the header value made of
    /// `Token`, a space and the client's token, whatever the method, the
    /// path, the query and the body are.
    pub proof fn lemma_request_carries_token(
        &self,
        r: Result<HttpRequest, DingError>,
        method: Method,
        path: Seq<char>,
        query: Seq<(Seq<char>, Seq<char>)>,
        body: Option<Seq<(Seq<char>, JsonModel)>>,
    )
        requires
            self.planned(r, method, path, query, body),
        ensures
            r matches Ok(request) ==> request@.authorization == "Token "@ + self.token(),
    {
    }

    /// A client for the service at `base_url`, authenticating with
    /// `api_token`.
    pub fn new(base_url: Link, api_token: String) -> (client: Self)
        ensures
            client.base() == base_url@,
            client.token() == api_token@,
    {
        DingClient { base_url, api_token }
    }

    /// Begins draining the bookmark collection. Each request of the walk is
    /// to be sent through `bookmarks`.
    pub fn all_bookmarks(&self, params: BookmarksRequest) -> (r: (
        PageWalk<BookmarksRequest, Bookmark>,
        BookmarksRequest,
    ))
        ensures
            r.0.collected() == Seq::<Bookmark>::empty(),
            r.0.filter() == params.filter(),
            is_page_request(r.1, params.filter(), 0),
    {
        PageWalk::start(&params)
    }

    /// The request for one page of the bookmark collection.
    pub fn bookmarks(&self, params: BookmarksRequest) -> (r: Result<HttpRequest, DingError>)
        ensures
            self.planned(r, Method::Get, "api/bookmarks/"@, bookmarks_query(params), None),
    {
        self._bookmarks_request_builder("api/bookmarks/", params)
    }

    /// Begins draining the archived bookmarks. Each request of the walk is
    /// to be sent through `archived`.
    pub fn all_archived(&self, params: BookmarksRequest) -> (r: (
        PageWalk<BookmarksRequest, Bookmark>,
        BookmarksRequest,
    ))
        ensures
            r.0.collected() == Seq::<Bookmark>::empty(),
            r.0.filter() == params.filter(),
            is_page_request(r.1, params.filter(), 0),
    {
        PageWalk::start(&params)
    }

    /// The request for one page of the archived bookmarks.
    pub fn archived(&self, params: BookmarksRequest) -> (r: Result<HttpRequest, DingError>)
        ensures
            self.planned(
                r,
                Method::Get,
                "api/bookmarks/archived/"@,
                bookmarks_query(params),
                None,
            ),
    {
        self._bookmarks_request_builder("api/bookmarks/archived/", params)
    }

    /// The request for one bookmark.
    pub fn bookmark(&self, id: u64) -> (r: Result<HttpRequest, DingError>)
        ensures
            self.planned(r, Method::Get, bookmark_path(id), Seq::empty(), None),
    {
        let path = id_path("api/bookmarks/", id, "/");
        self._request_builder(Method::Get, path.as_str())
    }

    /// The request that creates a bookmark. The URL must be set.
    pub fn create_bookmark(&self, params: BookmarkRequest) -> (r: Result<HttpRequest, DingError>)
        requires
            params.url is Some,
        ensures
            self.planned(
                r,
                Method::Post,
                "api/bookmarks/"@,
                Seq::empty(),
                Some(bookmark_payload(params)),
            ),
    {
        self._json_request(Method::Post, "api/bookmarks/", params.into_payload())
    }

    /// The request that replaces a bookmark. The URL must be set.
    pub fn reset_bookmark(&self, id: u64, params: BookmarkRequest) -> (r: Result<
        HttpRequest,
        DingError,
    >)
        requires
            params.url is Some,
        ensures
            self.planned(
                r,
                Method::Put,
                bookmark_path(id),
                Seq::empty(),
                Some(bookmark_payload(params)),
            ),
    {
        let path = id_path("api/bookmarks/", id, "/");
        self._json_request(Method::Put, path.as_str(), params.into_payload())
    }

    /// The request that changes the fields of a bookmark that `params`
    /// sets, and no others.
    pub fn update_bookmark(&self, id: u64, params: BookmarkRequest) -> (r: Result<
        HttpRequest,
        DingError,
    >)
        ensures
            self.planned(
                r,
                Method::Patch,
                bookmark_path(id),
                Seq::empty(),
                Some(bookmark_payload(params)),
            ),
    {
        let path = id_path("api/bookmarks/", id, "/");
        self._json_request(Method::Patch, path.as_str(), params.into_payload())
    }

    /// The request that archives a bookmark.
    pub fn archive_bookmark(&self, id: u64) -> (r: Result<HttpRequest, DingError>)
        ensures
            self.planned(r, Method::Post, archive_path(id), Seq::empty(), None),
    {
        let path = id_path("api/bookmarks/", id, "/archive/");
        self._request_builder(Method::Post, path.as_str())
    }

    /// The request that unarchives a bookmark.
    pub fn unarchive_bookmark(&self, id: u64) -> (r: Result<HttpRequest, DingError>)
        ensures
            self.planned(r, Method::Post, unarchive_path(id), Seq::empty(), None),
    {
        let path = id_path("api/bookmarks/", id, "/unarchive/");
        self._request_builder(Method::Post, path.as_str())
    }

    /// The request that deletes a bookmark.
    pub fn delete_bookmark(&self, id: u64) -> (r: Result<HttpRequest, DingError>)
        ensures
            self.planned(r, Method::Delete, bookmark_path(id), Seq::empty(), None),
    {
        let path = id_path("api/bookmarks/", id, "/");
        self._request_builder(Method::Delete, path.as_str())
    }

    /// Begins draining the tag collection. Each request of the walk is to
    /// be sent through `tags`.
    pub fn all_tags(&self, params: TagsRequest) -> (r: (PageWalk<TagsRequest, Tag>, TagsRequest))
        ensures
            r.0.collected() == Seq::<Tag>::empty(),
            r.0.filter() == params.filter(),
            is_page_request(r.1, params.filter(), 0),
    {
        PageWalk::start(&params)
    }

    /// The request for one page of the tag collection.
    pub fn tags(&self, params: TagsRequest) -> (r: Result<HttpRequest, DingError>)
        ensures
            self.planned(r, Method::Get, "api/tags"@, tags_query(params), None),
    {
        match self._request_builder(Method::Get, "api/tags") {
            Ok(mut request) => {
                request.query = params.into_query();
                Ok(request)
            },
            Err(e) => Err(e),
        }
    }

    /// The request for one tag.
    pub fn tag(&self, id: u64) -> (r: Result<HttpRequest, DingError>)
        ensures
            self.planned(r, Method::Get, tag_path(id), Seq::empty(), None),
    {
        let path = id_path("api/tags/", id, "/");
        self._request_builder(Method::Get, path.as_str())
    }

    /// The request that creates a tag.
    pub fn create_tag(&self, params: TagRequest) -> (r: Result<HttpRequest, DingError>)
        ensures
            self.planned(r, Method::Post, "api/tags/"@, Seq::empty(), Some(tag_payload(params))),
    {
        self._json_request(Method::Post, "api/tags/", params.into_payload())
    }

    /// The request for the account's profile.
    pub fn user_profile(&self) -> (r: Result<HttpRequest, DingError>)
        ensures
            self.planned(r, Method::Get, "api/user/profile/"@, Seq::empty(), None),
    {
        self._request_builder(Method::Get, "api/user/profile/")
    }

    /// Decides from the status alone whether a response may be decoded:
    /// a status in the 2xx range may, and any other is a request failure
    /// that carries the status, whatever the body holds.
    pub fn check_status(status: u16) -> (r: Result<(), DingError>)
        ensures
            match r {
                Ok(_) => is_success(status),
                Err(e) => !is_success(status) && e.is_status(status),
            },
    {
        if 200 <= status && status <= 299 {
            Ok(())
        } else {
            Err(DingError::Request { source: RequestFailure::Status { code: status } })
        }
    }

    fn _request_builder(&self, method: Method, api_path: &str) -> (r: Result<
        HttpRequest,
        DingError,
    >)
        ensures
            self.planned(r, method, api_path@, Seq::empty(), None),
    {
        match self.base_url.join(api_path) {
            Ok(url) => {
                let request = HttpRequest {
                    method,
                    url,
                    authorization: joined("Token ", self.api_token.as_str()),
                    query: Vec::new(),
                    body: None,
                };
                assert(request@.query =~= Seq::empty());
                Ok(request)
            },
            Err(e) => Err(e),
        }
    }

    fn _bookmarks_request_builder(&self, api_path: &str, params: BookmarksRequest) -> (r: Result<
        HttpRequest,
        DingError,
    >)
        ensures
            self.planned(r, Method::Get, api_path@, bookmarks_query(params), None),
    {
        match self._request_builder(Method::Get, api_path) {
            Ok(mut request) => {
                request.query = params.into_query();
                Ok(request)
            },
            Err(e) => Err(e),
        }
    }

    fn _json_request(&self, method: Method, api_path: &str, fields: Vec<JsonField>) -> (r: Result<
        HttpRequest,
        DingError,
    >)
        ensures
            self.planned(r, method, api_path@, Seq::empty(), Some(payload_view(fields@))),
    {
        match self._request_builder(method, api_path) {
            Ok(mut request) => {
                request.body = Some(fields);
                Ok(request)
            },
            Err(e) => Err(e),
        }
    }
}

} // verus!
