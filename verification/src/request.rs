//! Request descriptions: what is to be sent, in plain values.

use vstd::prelude::*;
use crate::link::Link;
use crate::text::{decimal, decimal_digits};
use crate::types::{link_view, text_view, BookmarkRequest, BookmarksRequest, TagRequest, TagsRequest};

verus! {

/// The HTTP methods that the service's API uses.
#[derive(Debug, Clone, Copy, PartialEq, Eq, Structural)]
pub enum Method {
    Get,
    Post,
    Put,
    Patch,
    Delete,
}

/// A value of a JSON payload's field.
#[derive(Debug, Clone, PartialEq, Eq)]
pub enum JsonValue {
    Text(String),
    Flag(bool),
    List(Vec<String>),
}

/// A `JsonValue` as a mathematical value.
pub enum JsonModel {
    Text(Seq<char>),
    Flag(bool),
    List(Seq<Seq<char>>),
}

impl View for JsonValue {
    type V = JsonModel;

    open spec fn view(&self) -> JsonModel {
        match *self {
            JsonValue::Text(s) => JsonModel::Text(s@),
            JsonValue::Flag(b) => JsonModel::Flag(b),
            JsonValue::List(v) => JsonModel::List(v.deep_view()),
        }
    }
}

/// One field of a JSON object payload.
#[derive(Debug, Clone, PartialEq, Eq)]
pub struct JsonField {
    pub name: String,
    pub value: JsonValue,
}

impl View for JsonField {
    type V = (Seq<char>, JsonModel);

    open spec fn view(&self) -> (Seq<char>, JsonModel) {
        (self.name@, self.value@)
    }
}

/// The fields of a payload as mathematical values, in order.
pub open spec fn payload_view(fields: Seq<JsonField>) -> Seq<(Seq<char>, JsonModel)> {
    Seq::new(fields.len(), |i: int| fields[i]@)
}

/// The pairs of a query string as mathematical values, in order.
pub open spec fn query_view(pairs: Seq<(String, String)>) -> Seq<(Seq<char>, Seq<char>)> {
    Seq::new(pairs.len(), |i: int| (pairs[i].0@, pairs[i].1@))
}

/// A request as a mathematical value.
pub struct RequestModel {
    pub method: Method,
    pub url: Seq<char>,
    pub authorization: Seq<char>,
    pub query: Seq<(Seq<char>, Seq<char>)>,
    pub body: Option<Seq<(Seq<char>, JsonModel)>>,
}

/// A request that is ready to be sent: the method, the absolute URL, the
/// value of the `Authorization` header, the query pairs in order, and the
/// fields of the JSON object to send as the body, if there is one.
#[derive(Debug)]
pub struct HttpRequest {
    pub method: Method,
    pub url: Link,
    pub authorization: String,
    pub query: Vec<(String, String)>,
    pub body: Option<Vec<JsonField>>,
}

impl View for HttpRequest {
    type V = RequestModel;

    open spec fn view(&self) -> RequestModel {
        RequestModel {
            method: self.method,
            url: self.url@,
            authorization: self.authorization@,
            query: query_view(self.query@),
            body: match self.body {
                Some(fields) => Some(payload_view(fields@)),
                None => None,
            },
        }
    }
}

/// No element where the value is absent, else the one pair of name and value.
pub open spec fn optional_entry<V>(name: Seq<char>, value: Option<V>) -> Seq<(Seq<char>, V)> {
    match value {
        Some(v) => seq![(name, v)],
        None => Seq::empty(),
    }
}

/// The decimal numeral of an optional number.
pub open spec fn optional_decimal(n: Option<u64>) -> Option<Seq<char>> {
    match n {
        Some(v) => Some(decimal_digits(v as nat)),
        None => None,
    }
}

/// The query of a bookmark listing: `q`, `limit` and `offset`, in that
/// order, each left out where its parameter is absent.
pub open spec fn bookmarks_query(params: BookmarksRequest) -> Seq<(Seq<char>, Seq<char>)> {
    optional_entry("q"@, text_view(params.query)) + optional_entry(
        "limit"@,
        optional_decimal(params.limit),
    ) + optional_entry("offset"@, optional_decimal(params.offset))
}

/// The query of a tag listing: `limit` and `offset`, in that order, each
/// left out where its parameter is absent.
pub open spec fn tags_query(params: TagsRequest) -> Seq<(Seq<char>, Seq<char>)> {
    optional_entry("limit"@, optional_decimal(params.limit)) + optional_entry(
        "offset"@,
        optional_decimal(params.offset),
    )
}

/// An optional text as an optional JSON value.
pub open spec fn optional_text(value: Option<Seq<char>>) -> Option<JsonModel> {
    match value {
        Some(v) => Some(JsonModel::Text(v)),
        None => None,
    }
}

/// An optional flag as an optional JSON value.
pub open spec fn optional_flag(value: Option<bool>) -> Option<JsonModel> {
    match value {
        Some(v) => Some(JsonModel::Flag(v)),
        None => None,
    }
}

/// An optional list of names as an optional JSON value.
pub open spec fn optional_list(value: Option<Vec<String>>) -> Option<JsonModel> {
    match value {
        Some(v) => Some(JsonModel::List(v.deep_view())),
        None => None,
    }
}

/// The payload of a bookmark request: one field for each field that is
/// set, in the order of the record, and none for a field that is unset.
pub open spec fn bookmark_payload(params: BookmarkRequest) -> Seq<(Seq<char>, JsonModel)> {
    optional_entry("url"@, optional_text(link_view(params.url))) + optional_entry(
        "title"@,
        optional_text(text_view(params.title)),
    ) + optional_entry("description"@, optional_text(text_view(params.description)))
        + optional_entry("notes"@, optional_text(text_view(params.notes))) + optional_entry(
        "is_archived"@,
        optional_flag(params.is_archived),
    ) + optional_entry("unread"@, optional_flag(params.unread)) + optional_entry(
        "shared"@,
        optional_flag(params.shared),
    ) + optional_entry("tag_names"@, optional_list(params.tag_names))
}

/// A request that sets nothing sends no field at all.
pub proof fn lemma_blank_payload_is_empty(params: BookmarkRequest)
    requires
        params.is_blank(),
    ensures
        bookmark_payload(params) == Seq::<(Seq<char>, JsonModel)>::empty(),
{
    assert(bookmark_payload(params) =~= Seq::<(Seq<char>, JsonModel)>::empty());
}

/// A request that sets the URL and nothing else sends the one field `url`,
/// holding the URL's text.
pub proof fn lemma_url_only_payload(params: BookmarkRequest)
    requires
        params.url is Some,
        params.title is None,
        params.description is None,
        params.notes is None,
        params.is_archived is None,
        params.unread is None,
        params.shared is None,
        params.tag_names is None,
    ensures
        bookmark_payload(params) == seq![("url"@, JsonModel::Text(params.url.unwrap()@))],
{
    assert(bookmark_payload(params) =~= seq![("url"@, JsonModel::Text(params.url.unwrap()@))]);
}

/// The payload of a tag request: its name.
pub open spec fn tag_payload(params: TagRequest) -> Seq<(Seq<char>, JsonModel)> {
    seq![("name"@, JsonModel::Text(params.name@))]
}

/// An optional JSON value as a mathematical value.
pub open spec fn value_view(value: Option<JsonValue>) -> Option<JsonModel> {
    match value {
        Some(v) => Some(v@),
        None => None,
    }
}

fn push_pair(pairs: &mut Vec<(String, String)>, name: &str, value: Option<String>)
    ensures
        query_view(final(pairs)@) == query_view(old(pairs)@) + optional_entry(
            name@,
            text_view(value),
        ),
{
    match value {
        Some(v) => {
            pairs.push((name.to_owned(), v));
        },
        None => {},
    }
    assert(query_view(pairs@) =~= query_view(old(pairs)@) + optional_entry(
        name@,
        text_view(value),
    ));
}

fn push_field(fields: &mut Vec<JsonField>, name: &str, value: Option<JsonValue>)
    ensures
        payload_view(final(fields)@) == payload_view(old(fields)@) + optional_entry(
            name@,
            value_view(value),
        ),
{
    let ghost model: Option<JsonModel> = value_view(value);
    match value {
        Some(v) => {
            fields.push(JsonField { name: name.to_owned(), value: v });
        },
        None => {},
    }
    assert(payload_view(fields@) =~= payload_view(old(fields)@) + optional_entry(name@, model));
}

fn decimal_of(n: Option<u64>) -> (r: Option<String>)
    ensures
        text_view(r) == optional_decimal(n),
{
    match n {
        Some(v) => Some(decimal(v)),
        None => None,
    }
}

fn text_value(text: Option<String>) -> (r: Option<JsonValue>)
    ensures
        value_view(r) == optional_text(text_view(text)),
{
    match text {
        Some(t) => Some(JsonValue::Text(t)),
        None => None,
    }
}

fn flag_value(flag: Option<bool>) -> (r: Option<JsonValue>)
    ensures
        value_view(r) == optional_flag(flag),
{
    match flag {
        Some(b) => Some(JsonValue::Flag(b)),
        None => None,
    }
}

impl BookmarksRequest {
    /// The query pairs of this listing.
    pub fn into_query(self) -> (pairs: Vec<(String, String)>)
        ensures
            query_view(pairs@) == bookmarks_query(self),
    {
        let mut pairs: Vec<(String, String)> = Vec::new();
        assert(query_view(pairs@) =~= Seq::empty());
        push_pair(&mut pairs, "q", self.query);
        push_pair(&mut pairs, "limit", decimal_of(self.limit));
        push_pair(&mut pairs, "offset", decimal_of(self.offset));
        assert(query_view(pairs@) =~= bookmarks_query(self));
        pairs
    }
}

impl TagsRequest {
    /// The query pairs of this listing.
    pub fn into_query(self) -> (pairs: Vec<(String, String)>)
        ensures
            query_view(pairs@) == tags_query(self),
    {
        let mut pairs: Vec<(String, String)> = Vec::new();
        assert(query_view(pairs@) =~= Seq::empty());
        push_pair(&mut pairs, "limit", decimal_of(self.limit));
        push_pair(&mut pairs, "offset", decimal_of(self.offset));
        assert(query_view(pairs@) =~= tags_query(self));
        pairs
    }
}

impl BookmarkRequest {
    /// The fields to send for this request: those that are set, and no
    /// others.
    pub fn into_payload(self) -> (fields: Vec<JsonField>)
        ensures
            payload_view(fields@) == bookmark_payload(self),
    {
        let mut fields: Vec<JsonField> = Vec::new();
        assert(payload_view(fields@) =~= Seq::empty());
        let url = match self.url {
            Some(link) => Some(link.into_string()),
            None => None,
        };
        push_field(&mut fields, "url", text_value(url));
        push_field(&mut fields, "title", text_value(self.title));
        push_field(&mut fields, "description", text_value(self.description));
        push_field(&mut fields, "notes", text_value(self.notes));
        push_field(&mut fields, "is_archived", flag_value(self.is_archived));
        push_field(&mut fields, "unread", flag_value(self.unread));
        push_field(&mut fields, "shared", flag_value(self.shared));
        let names = match self.tag_names {
            Some(list) => Some(JsonValue::List(list)),
            None => None,
        };
        push_field(&mut fields, "tag_names", names);
        assert(payload_view(fields@) =~= bookmark_payload(self));
        fields
    }
}

impl TagRequest {
    /// The fields to send for this request.
    pub fn into_payload(self) -> (fields: Vec<JsonField>)
        ensures
            payload_view(fields@) == tag_payload(self),
    {
        let mut fields: Vec<JsonField> = Vec::new();
        assert(payload_view(fields@) =~= Seq::empty());
        push_field(&mut fields, "name", Some(JsonValue::Text(self.name)));
        assert(payload_view(fields@) =~= tag_payload(self));
        fields
    }
}

} // verus!
