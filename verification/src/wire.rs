//! Records as the server writes them, and their validation into the
//! domain model.
//!
//! A wire record holds URLs and dates as text. Decoding parses each of
//! them; a record with a field that does not parse is a decode failure.

use vstd::prelude::*;
use crate::errors::{DingError, RequestFailure};
use crate::link::{url_parse_result, Link};
use crate::timestamp::{rfc3339_instant, Timestamp};
use crate::types::{
    link_view, text_view, Bookmark, BookmarksResponse, Tag, TagsResponse,
};

verus! {

/// A tag as the server writes it.
#[derive(Clone, Debug, PartialEq, Eq)]
pub struct TagRecord {
    pub id: u64,
    pub name: String,
    pub date_added: String,
}

/// A page of tags as the server writes it.
#[derive(Clone, Debug, PartialEq, Eq)]
pub struct TagsPage {
    pub count: u64,
    pub next: Option<String>,
    pub previous: Option<String>,
    pub results: Vec<TagRecord>,
}

/// A bookmark as the server writes it. The archive snapshot URL is always
/// a string, empty where there is no snapshot.
#[derive(Clone, Debug, PartialEq, Eq)]
pub struct BookmarkRecord {
    pub id: u64,
    pub url: String,
    pub title: String,
    pub description: String,
    pub notes: String,
    pub website_title: Option<String>,
    pub website_description: Option<String>,
    pub web_archive_snapshot_url: String,
    pub favicon_url: Option<String>,
    pub preview_image_url: Option<String>,
    pub is_archived: bool,
    pub unread: bool,
    pub shared: bool,
    pub tag_names: Vec<String>,
    pub date_added: String,
    pub date_modified: String,
}

/// A page of bookmarks as the server writes it.
#[derive(Clone, Debug, PartialEq, Eq)]
pub struct BookmarksPage {
    pub count: u64,
    pub next: Option<String>,
    pub previous: Option<String>,
    pub results: Vec<BookmarkRecord>,
}

/// What a URL field that may be the empty string decodes to: no value for
/// the empty string, the parsed URL for any other text that is a URL, and
/// nothing at all (`None`) for text that is neither.
pub open spec fn empty_url_result(text: Seq<char>) -> Option<Option<Seq<char>>> {
    if text.len() == 0 {
        Some(None)
    } else {
        match url_parse_result(text) {
            Some(url) => Some(Some(url)),
            None => None,
        }
    }
}

/// What a URL field that may be absent decodes to: no value where it is
/// absent, the parsed URL where it is a URL, and nothing at all (`None`)
/// where it is present and not a URL.
pub open spec fn optional_url_result(text: Option<Seq<char>>) -> Option<Option<Seq<char>>> {
    match text {
        None => Some(None),
        Some(t) => match url_parse_result(t) {
            Some(url) => Some(Some(url)),
            None => None,
        },
    }
}

fn decode_failure() -> (e: DingError)
    ensures
        e.is_decode(),
{
    DingError::Request { source: RequestFailure::Decode }
}

/// Decodes a URL field that is required.
pub fn required_url(text: &str) -> (r: Result<Link, DingError>)
    ensures
        match r {
            Ok(link) => url_parse_result(text@) == Some(link@),
            Err(e) => url_parse_result(text@) is None && e.is_decode(),
        },
{
    match Link::parse(text) {
        Ok(link) => Ok(link),
        Err(_) => Err(decode_failure()),
    }
}

/// Decodes a URL field that the server writes as the empty string where it
/// has no value.
pub fn empty_url(text: &str) -> (r: Result<Option<Link>, DingError>)
    ensures
        match r {
            Ok(link) => empty_url_result(text@) == Some(link_view(link)),
            Err(e) => empty_url_result(text@) is None && e.is_decode(),
        },
{
    if text.is_empty() {
        Ok(None)
    } else {
        match required_url(text) {
            Ok(link) => Ok(Some(link)),
            Err(e) => Err(e),
        }
    }
}

/// Decodes a URL field that the server leaves out where it has no value.
pub fn optional_url(text: &Option<String>) -> (r: Result<Option<Link>, DingError>)
    ensures
        match r {
            Ok(link) => optional_url_result(text_view(*text)) == Some(link_view(link)),
            Err(e) => optional_url_result(text_view(*text)) is None && e.is_decode(),
        },
{
    match text {
        None => Ok(None),
        Some(t) => match required_url(t.as_str()) {
            Ok(link) => Ok(Some(link)),
            Err(e) => Err(e),
        },
    }
}

fn copy_text(text: &Option<String>) -> (r: Option<String>)
    ensures
        r == *text,
{
    match text {
        Some(t) => Some(t.clone()),
        None => None,
    }
}

fn copy_names(names: &Vec<String>) -> (r: Vec<String>)
    ensures
        r@ == names@,
{
    let mut r: Vec<String> = Vec::new();
    let mut i: usize = 0;
    while i < names.len()
        invariant
            i <= names.len(),
            r@ == names@.subrange(0, i as int),
        decreases names.len() - i,
    {
        r.push(names[i].clone());
        assert(r@ =~= names@.subrange(0, i + 1));
        i = i + 1;
    }
    assert(r@ =~= names@);
    r
}

impl TagRecord {
    /// Whether the record holds a tag: its date is one.
    pub open spec fn decodes(&self) -> bool {
        rfc3339_instant(self.date_added@) is Some
    }

    /// Whether `tag` is the tag that the record holds.
    pub open spec fn decodes_to(&self, tag: Tag) -> bool {
        &&& tag.id == self.id
        &&& tag.name@ == self.name@
        &&& rfc3339_instant(self.date_added@) == Some(
            (tag.date_added.seconds, tag.date_added.nanos),
        )
    }
}

impl Tag {
    /// Validates a tag record. Fails with a decode failure exactly when
    /// the record's date does not parse.
    pub fn decode(record: &TagRecord) -> (r: Result<Tag, DingError>)
        ensures
            match r {
                Ok(tag) => record.decodes_to(tag),
                Err(e) => !record.decodes() && e.is_decode(),
            },
    {
        match Timestamp::parse(record.date_added.as_str()) {
            Ok(date_added) => Ok(Tag { id: record.id, name: record.name.clone(), date_added }),
            Err(e) => Err(e),
        }
    }
}

impl BookmarkRecord {
    /// Whether the record holds a bookmark: its URLs are URLs, where it
    /// has them, and its dates are dates.
    pub open spec fn decodes(&self) -> bool {
        &&& url_parse_result(self.url@) is Some
        &&& empty_url_result(self.web_archive_snapshot_url@) is Some
        &&& optional_url_result(text_view(self.favicon_url)) is Some
        &&& optional_url_result(text_view(self.preview_image_url)) is Some
        &&& rfc3339_instant(self.date_added@) is Some
        &&& rfc3339_instant(self.date_modified@) is Some
    }

    /// Whether `b` is the bookmark that the record holds.
    pub open spec fn decodes_to(&self, b: Bookmark) -> bool {
        &&& b.id == self.id
        &&& url_parse_result(self.url@) == Some(b.url@)
        &&& b.title@ == self.title@
        &&& b.description@ == self.description@
        &&& b.notes@ == self.notes@
        &&& text_view(b.website_title) == text_view(self.website_title)
        &&& text_view(b.website_description) == text_view(self.website_description)
        &&& empty_url_result(self.web_archive_snapshot_url@) == Some(
            link_view(b.web_archive_snapshot_url),
        )
        &&& optional_url_result(text_view(self.favicon_url)) == Some(link_view(b.favicon_url))
        &&& optional_url_result(text_view(self.preview_image_url)) == Some(
            link_view(b.preview_image_url),
        )
        &&& b.is_archived == self.is_archived
        &&& b.unread == self.unread
        &&& b.shared == self.shared
        &&& b.tag_names@ == self.tag_names@
        &&& rfc3339_instant(self.date_added@) == Some((b.date_added.seconds, b.date_added.nanos))
        &&& rfc3339_instant(self.date_modified@) == Some(
            (b.date_modified.seconds, b.date_modified.nanos),
        )
    }
}

impl Bookmark {
    /// Validates a bookmark record. An empty archive snapshot URL becomes
    /// no value. Fails with a decode failure exactly when a URL or a date
    /// of the record does not parse.
    pub fn decode(record: &BookmarkRecord) -> (r: Result<Bookmark, DingError>)
        ensures
            match r {
                Ok(b) => record.decodes_to(b),
                Err(e) => !record.decodes() && e.is_decode(),
            },
    {
        let url = match required_url(record.url.as_str()) {
            Ok(v) => v,
            Err(e) => {
                return Err(e);
            },
        };
        let web_archive_snapshot_url = match empty_url(record.web_archive_snapshot_url.as_str()) {
            Ok(v) => v,
            Err(e) => {
                return Err(e);
            },
        };
        let favicon_url = match optional_url(&record.favicon_url) {
            Ok(v) => v,
            Err(e) => {
                return Err(e);
            },
        };
        let preview_image_url = match optional_url(&record.preview_image_url) {
            Ok(v) => v,
            Err(e) => {
                return Err(e);
            },
        };
        let date_added = match Timestamp::parse(record.date_added.as_str()) {
            Ok(v) => v,
            Err(e) => {
                return Err(e);
            },
        };
        let date_modified = match Timestamp::parse(record.date_modified.as_str()) {
            Ok(v) => v,
            Err(e) => {
                return Err(e);
            },
        };
        Ok(
            Bookmark {
                id: record.id,
                url,
                title: record.title.clone(),
                description: record.description.clone(),
                notes: record.notes.clone(),
                website_title: copy_text(&record.website_title),
                website_description: copy_text(&record.website_description),
                web_archive_snapshot_url,
                favicon_url,
                preview_image_url,
                is_archived: record.is_archived,
                unread: record.unread,
                shared: record.shared,
                tag_names: copy_names(&record.tag_names),
                date_added,
                date_modified,
            },
        )
    }
}

impl TagsPage {
    /// Whether the page holds a page of tags: its links are URLs, where
    /// it has them, and each of its records holds a tag.
    pub open spec fn decodes(&self) -> bool {
        &&& optional_url_result(text_view(self.next)) is Some
        &&& optional_url_result(text_view(self.previous)) is Some
        &&& forall|i: int| 0 <= i < self.results@.len() ==> (#[trigger] self.results@[i]).decodes()
    }

    /// Whether `page` is the page of tags that this page holds: the same
    /// count and links, and the same tags in the same order.
    pub open spec fn decodes_to(&self, page: TagsResponse) -> bool {
        &&& page.count == self.count
        &&& optional_url_result(text_view(self.next)) == Some(link_view(page.next))
        &&& optional_url_result(text_view(self.previous)) == Some(link_view(page.previous))
        &&& page.results@.len() == self.results@.len()
        &&& forall|i: int|
            0 <= i < self.results@.len() ==> (#[trigger] self.results@[i]).decodes_to(
                page.results@[i],
            )
    }
}

impl TagsResponse {
    /// Validates a page of tags, record by record and in order. Fails with
    /// a decode failure exactly when a link or a record does not decode.
    pub fn decode(page: &TagsPage) -> (r: Result<TagsResponse, DingError>)
        ensures
            match r {
                Ok(decoded) => page.decodes_to(decoded),
                Err(e) => !page.decodes() && e.is_decode(),
            },
    {
        let next = match optional_url(&page.next) {
            Ok(v) => v,
            Err(e) => {
                return Err(e);
            },
        };
        let previous = match optional_url(&page.previous) {
            Ok(v) => v,
            Err(e) => {
                return Err(e);
            },
        };
        let mut results: Vec<Tag> = Vec::new();
        let mut i: usize = 0;
        while i < page.results.len()
            invariant
                i <= page.results@.len(),
                results@.len() == i,
                forall|j: int| 0 <= j < i ==> (#[trigger] page.results@[j]).decodes_to(results@[j]),
            decreases page.results.len() - i,
        {
            match Tag::decode(&page.results[i]) {
                Ok(tag) => {
                    results.push(tag);
                },
                Err(e) => {
                    assert(!page.results@[i as int].decodes());
                    return Err(e);
                },
            }
            i = i + 1;
        }
        Ok(TagsResponse { count: page.count, next, previous, results })
    }
}

impl BookmarksPage {
    /// Whether the page holds a page of bookmarks: its links are URLs,
    /// where it has them, and each of its records holds a bookmark.
    pub open spec fn decodes(&self) -> bool {
        &&& optional_url_result(text_view(self.next)) is Some
        &&& optional_url_result(text_view(self.previous)) is Some
        &&& forall|i: int| 0 <= i < self.results@.len() ==> (#[trigger] self.results@[i]).decodes()
    }

    /// Whether `page` is the page of bookmarks that this page holds: the
    /// same count and links, and the same bookmarks in the same order.
    pub open spec fn decodes_to(&self, page: BookmarksResponse) -> bool {
        &&& page.count == self.count
        &&& optional_url_result(text_view(self.next)) == Some(link_view(page.next))
        &&& optional_url_result(text_view(self.previous)) == Some(link_view(page.previous))
        &&& page.results@.len() == self.results@.len()
        &&& forall|i: int|
            0 <= i < self.results@.len() ==> (#[trigger] self.results@[i]).decodes_to(
                page.results@[i],
            )
    }
}

impl BookmarksResponse {
    /// Validates a page of bookmarks, record by record and in order. Fails
    /// with a decode failure exactly when a link or a record does not
    /// decode.
    pub fn decode(page: &BookmarksPage) -> (r: Result<BookmarksResponse, DingError>)
        ensures
            match r {
                Ok(decoded) => page.decodes_to(decoded),
                Err(e) => !page.decodes() && e.is_decode(),
            },
    {
        let next = match optional_url(&page.next) {
            Ok(v) => v,
            Err(e) => {
                return Err(e);
            },
        };
        let previous = match optional_url(&page.previous) {
            Ok(v) => v,
            Err(e) => {
                return Err(e);
            },
        };
        let mut results: Vec<Bookmark> = Vec::new();
        let mut i: usize = 0;
        while i < page.results.len()
            invariant
                i <= page.results@.len(),
                results@.len() == i,
                forall|j: int| 0 <= j < i ==> (#[trigger] page.results@[j]).decodes_to(results@[j]),
            decreases page.results.len() - i,
        {
            match Bookmark::decode(&page.results[i]) {
                Ok(bookmark) => {
                    results.push(bookmark);
                },
                Err(e) => {
                    assert(!page.results@[i as int].decodes());
                    return Err(e);
                },
            }
            i = i + 1;
        }
        Ok(BookmarksResponse { count: page.count, next, previous, results })
    }
}

} // verus!
