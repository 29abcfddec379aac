//! Typed client core for a bookmark service's REST API.
//!
//! The crate builds authenticated request descriptions, classifies response
//! statuses, validates decoded records and drives offset-based pagination.
//! Sending a request and reading a response body are left to the caller.

pub mod client;
pub mod errors;
pub mod link;
pub mod pagination;
pub mod request;
pub mod text;
pub mod timestamp;
pub mod types;
pub mod wire;

pub use client::DingClient;
pub use errors::{DingError, RequestFailure};
pub use link::Link;
pub use pagination::{PageWalk, WalkStep};
pub use request::{HttpRequest, JsonField, JsonValue, Method};
pub use timestamp::Timestamp;
pub use types::{
    Bookmark, BookmarkRequest, BookmarksRequest, BookmarksResponse, IterableRequest,
    IterableResponse, SearchPreferences, Tag, TagRequest, TagsRequest, TagsResponse, UserProfile,
};
pub use wire::{empty_url, BookmarkRecord, BookmarksPage, TagRecord, TagsPage};
