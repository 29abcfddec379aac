//! The domain model: bookmarks, tags, the account profile, the request
//! shapes that create or filter them, and the two paging capabilities.

use vstd::prelude::*;
use crate::link::Link;
use crate::timestamp::Timestamp;

verus! {

/// The text of an optional link, for use in contracts.
pub open spec fn link_view(link: Option<Link>) -> Option<Seq<char>> {
    match link {
        Some(l) => Some(l@),
        None => None,
    }
}

/// The text of an optional string, for use in contracts.
pub open spec fn text_view(text: Option<String>) -> Option<Seq<char>> {
    match text {
        Some(t) => Some(t@),
        None => None,
    }
}

/// The payload that creates a tag.
#[derive(Clone, Debug, PartialEq, Eq)]
pub struct TagRequest {
    pub name: String,
}

/// Paging parameters for the tag collection.
#[derive(Clone, Debug, PartialEq, Eq)]
pub struct TagsRequest {
    pub limit: Option<u64>,
    pub offset: Option<u64>,
}

/// Filter and paging parameters for a bookmark collection.
#[derive(Clone, Debug, PartialEq, Eq)]
pub struct BookmarksRequest {
    pub query: Option<String>,
    pub limit: Option<u64>,
    pub offset: Option<u64>,
}

/// The fields of a bookmark that a caller may set. A field left at `None`
/// is unset, which is not the same as empty or `false`.
#[derive(Clone, Debug, PartialEq, Eq)]
pub struct BookmarkRequest {
    pub url: Option<Link>,
    pub title: Option<String>,
    pub description: Option<String>,
    pub notes: Option<String>,
    pub is_archived: Option<bool>,
    pub unread: Option<bool>,
    pub shared: Option<bool>,
    pub tag_names: Option<Vec<String>>,
}

/// One page of the tag collection.
#[derive(Clone, Debug, PartialEq, Eq)]
pub struct TagsResponse {
    pub count: u64,
    pub next: Option<Link>,
    pub previous: Option<Link>,
    pub results: Vec<Tag>,
}

/// A named label.
#[derive(Clone, Debug, PartialEq, Eq)]
pub struct Tag {
    pub id: u64,
    pub name: String,
    pub date_added: Timestamp,
}

/// One page of a bookmark collection.
#[derive(Clone, Debug, PartialEq, Eq)]
pub struct BookmarksResponse {
    pub count: u64,
    pub next: Option<Link>,
    pub previous: Option<Link>,
    pub results: Vec<Bookmark>,
}

/// A saved URL with the user's and the server's metadata.
#[derive(Clone, Debug, PartialEq, Eq)]
pub struct Bookmark {
    pub id: u64,
    pub url: Link,
    pub title: String,
    pub description: String,
    pub notes: String,
    pub website_title: Option<String>,
    pub website_description: Option<String>,
    pub web_archive_snapshot_url: Option<Link>,
    pub favicon_url: Option<Link>,
    pub preview_image_url: Option<Link>,
    pub is_archived: bool,
    pub unread: bool,
    pub shared: bool,
    pub tag_names: Vec<String>,
    pub date_added: Timestamp,
    pub date_modified: Timestamp,
}

/// A snapshot of the account's preferences.
#[derive(Clone, Debug, PartialEq, Eq)]
pub struct UserProfile {
    pub theme: String,
    pub bookmark_date_display: String,
    pub bookmark_link_target: String,
    pub web_archive_integration: String,
    pub tag_search: String,
    pub enable_sharing: bool,
    pub enable_public_sharing: bool,
    pub enable_favicons: bool,
    pub display_url: bool,
    pub permanent_notes: bool,
    pub search_preferences: SearchPreferences,
}

/// The search settings inside a `UserProfile`.
#[derive(Clone, Debug, PartialEq, Eq)]
pub struct SearchPreferences {
    pub sort: String,
    pub shared: String,
    pub unread: String,
}

impl Default for TagsRequest {
    fn default() -> (r: Self)
        ensures
            r.limit is None,
            r.offset is None,
    {
        TagsRequest { limit: None, offset: None }
    }
}

impl Default for BookmarksRequest {
    fn default() -> (r: Self)
        ensures
            r.query is None,
            r.limit is None,
            r.offset is None,
    {
        BookmarksRequest { query: None, limit: None, offset: None }
    }
}

impl BookmarkRequest {
    /// Whether every field is unset.
    pub open spec fn is_blank(&self) -> bool {
        &&& self.url is None
        &&& self.title is None
        &&& self.description is None
        &&& self.notes is None
        &&& self.is_archived is None
        &&& self.unread is None
        &&& self.shared is None
        &&& self.tag_names is None
    }

    /// A request that sets the URL and nothing else.
    pub fn new(url: Link) -> (r: Self)
        ensures
            r.url == Some(url),
            r.title is None,
            r.description is None,
            r.notes is None,
            r.is_archived is None,
            r.unread is None,
            r.shared is None,
            r.tag_names is None,
    {
        BookmarkRequest {
            url: Some(url),
            title: None,
            description: None,
            notes: None,
            is_archived: None,
            unread: None,
            shared: None,
            tag_names: None,
        }
    }
}

impl Default for BookmarkRequest {
    fn default() -> (r: Self)
        ensures
            r.is_blank(),
    {
        BookmarkRequest {
            url: None,
            title: None,
            description: None,
            notes: None,
            is_archived: None,
            unread: None,
            shared: None,
            tag_names: None,
        }
    }
}

/// A parameter bundle whose paging fields can be replaced while its other
/// filters stay as they are.
pub trait IterableRequest: Sized {
    /// What the bundle filters by, apart from paging.
    type Filter;

    /// The filters that paging leaves alone.
    spec fn filter(&self) -> Self::Filter;

    /// The page size asked for, if any.
    spec fn page_limit(&self) -> Option<u64>;

    /// The number of records to skip, if any.
    spec fn page_offset(&self) -> Option<u64>;

    /// The same bundle with its page size replaced.
    fn limit(&self, limit: Option<u64>) -> (r: Self)
        ensures
            r.page_limit() == limit,
            r.page_offset() == self.page_offset(),
            r.filter() == self.filter(),
    ;

    /// The same bundle with its offset replaced.
    fn offset(&self, offset: Option<u64>) -> (r: Self)
        ensures
            r.page_offset() == offset,
            r.page_limit() == self.page_limit(),
            r.filter() == self.filter(),
    ;
}

impl IterableRequest for TagsRequest {
    type Filter = ();

    open spec fn filter(&self) -> () {
        ()
    }

    open spec fn page_limit(&self) -> Option<u64> {
        self.limit
    }

    open spec fn page_offset(&self) -> Option<u64> {
        self.offset
    }

    fn limit(&self, limit: Option<u64>) -> (r: TagsRequest) {
        TagsRequest { offset: self.offset, limit }
    }

    fn offset(&self, offset: Option<u64>) -> (r: TagsRequest) {
        TagsRequest { offset, limit: self.limit }
    }
}

impl BookmarksRequest {
    fn query_copy(&self) -> (q: Option<String>)
        ensures
            q == self.query,
    {
        match &self.query {
            Some(text) => Some(text.clone()),
            None => None,
        }
    }
}

impl IterableRequest for BookmarksRequest {
    type Filter = Option<Seq<char>>;

    open spec fn filter(&self) -> Option<Seq<char>> {
        text_view(self.query)
    }

    open spec fn page_limit(&self) -> Option<u64> {
        self.limit
    }

    open spec fn page_offset(&self) -> Option<u64> {
        self.offset
    }

    fn limit(&self, limit: Option<u64>) -> (r: BookmarksRequest) {
        BookmarksRequest { query: self.query_copy(), offset: self.offset, limit }
    }

    fn offset(&self, offset: Option<u64>) -> (r: BookmarksRequest) {
        BookmarksRequest { query: self.query_copy(), offset, limit: self.limit }
    }
}

/// A page envelope that says whether another page follows and hands out
/// its records.
pub trait IterableResponse<T>: Sized {
    /// The continuation link, if another page follows.
    spec fn next_link(&self) -> Option<Seq<char>>;

    /// The records of this page, in the server's order.
    spec fn records(&self) -> Seq<T>;

    /// The continuation link: present exactly when another page follows.
    fn next(&self) -> (r: Option<Link>)
        ensures
            link_view(r) == self.next_link(),
    ;

    /// The records of this page, in the server's order.
    fn results(self) -> (r: Vec<T>)
        ensures
            r@ == self.records(),
    ;
}

/// A copy of an optional link.
pub fn copy_link(link: &Option<Link>) -> (r: Option<Link>)
    ensures
        link_view(r) == link_view(*link),
{
    match link {
        Some(l) => Some(l.clone()),
        None => None,
    }
}

impl IterableResponse<Tag> for TagsResponse {
    open spec fn next_link(&self) -> Option<Seq<char>> {
        link_view(self.next)
    }

    open spec fn records(&self) -> Seq<Tag> {
        self.results@
    }

    fn next(&self) -> (r: Option<Link>) {
        copy_link(&self.next)
    }

    fn results(self) -> (r: Vec<Tag>) {
        self.results
    }
}

impl IterableResponse<Bookmark> for BookmarksResponse {
    open spec fn next_link(&self) -> Option<Seq<char>> {
        link_view(self.next)
    }

    open spec fn records(&self) -> Seq<Bookmark> {
        self.results@
    }

    fn next(&self) -> (r: Option<Link>) {
        copy_link(&self.next)
    }

    fn results(self) -> (r: Vec<Bookmark>) {
        self.results
    }
}

} // verus!
