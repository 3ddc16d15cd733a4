//! The response envelope protocol: structural decoding of the wire envelope,
//! its tri-state resolution (payload, application error, or neither), and the
//! generic machinery that turns a response body into a typed value or page.
pub mod models;

use crate::api::rest::models::{Candle, CandleV, Cursor, CursorV, Exchange, Market, MarketSummary,
    Orderbook, Pair, Price, Trade};
use crate::json::{
    bool_field, field_of, get_bool, get_field, get_str, jv, map_entries, parse_json, parsed_json,
    str_field, value_as_number, value_as_object, value_as_str, JsonV,
};
use vstd::prelude::*;
use vstd::string::StringExecFns;

verus! {

/// The error taxonomy: one terminal error kind per failure mode.
#[derive(Debug)]
pub enum ApiError {
    /// Connection, I/O or HTTP-status failure, reported by the transport.
    Transport(String),
    /// The body does not parse as the four-field envelope shape.
    MalformedEnvelope,
    /// The envelope's `result` is present but does not have the statically
    /// expected shape; carries the raw JSON for diagnostics.
    UnexpectedShape(serde_json::Value),
    /// The remote service's own error channel was populated.
    ApplicationError(String),
    /// Neither `result` nor `error` is present.
    EmptyEnvelope,
}

/// Spec-level view of `ApiError`.
pub enum ApiErrorV {
    Transport(Seq<char>),
    MalformedEnvelope,
    UnexpectedShape(JsonV),
    ApplicationError(Seq<char>),
    EmptyEnvelope,
}

impl View for ApiError {
    type V = ApiErrorV;

    open spec fn view(&self) -> ApiErrorV {
        match self {
            ApiError::Transport(m) => ApiErrorV::Transport(m@),
            ApiError::MalformedEnvelope => ApiErrorV::MalformedEnvelope,
            ApiError::UnexpectedShape(v) => ApiErrorV::UnexpectedShape(jv(*v)),
            ApiError::ApplicationError(m) => ApiErrorV::ApplicationError(m@),
            ApiError::EmptyEnvelope => ApiErrorV::EmptyEnvelope,
        }
    }
}

/// The wire-level wrapper every response uses: an optional untyped payload,
/// an optional error message, an optional pagination cursor, and opaque
/// quota metadata.  Constructed fresh per response and discarded once
/// resolved.
pub struct RESTResponse {
    pub allowance: Option<serde_json::Value>,
    pub cursor: Option<Cursor>,
    pub error: Option<String>,
    pub result: Option<serde_json::Value>,
}

/// Spec-level view of `RESTResponse`.
pub struct EnvelopeV {
    pub allowance: Option<JsonV>,
    pub cursor: Option<CursorV>,
    pub error: Option<Seq<char>>,
    pub result: Option<JsonV>,
}

/// The JSON model of an optional raw value.
pub open spec fn opt_jv(o: Option<serde_json::Value>) -> Option<JsonV> {
    match o {
        Some(v) => Some(jv(v)),
        None => None,
    }
}

/// The view of an optional message.
pub open spec fn opt_str_view(o: Option<String>) -> Option<Seq<char>> {
    match o {
        Some(s) => Some(s@),
        None => None,
    }
}

/// The view of an optional cursor.
pub open spec fn cursor_view_of(o: Option<Cursor>) -> Option<CursorV> {
    match o {
        Some(c) => Some(c@),
        None => None,
    }
}

impl View for RESTResponse {
    type V = EnvelopeV;

    open spec fn view(&self) -> EnvelopeV {
        EnvelopeV {
            allowance: opt_jv(self.allowance),
            cursor: cursor_view_of(self.cursor),
            error: opt_str_view(self.error),
            result: opt_jv(self.result),
        }
    }
}

/// The `error` field of an envelope: absent, a message, or (outer `None`)
/// structurally malformed.
pub open spec fn error_field_of(j: JsonV) -> Option<Option<Seq<char>>> {
    match field_of(j, "error"@) {
        None => Some(None),
        Some(JsonV::Str(s)) => Some(Some(s)),
        Some(_) => None,
    }
}

/// The `cursor` field of an envelope: absent, a token-and-flag pair, or
/// (outer `None`) structurally malformed.  A present cursor must carry a
/// string `last` and a boolean `hasMore`.
pub open spec fn cursor_field_of(j: JsonV) -> Option<Option<CursorV>> {
    match field_of(j, "cursor"@) {
        None => Some(None),
        Some(c) => match (str_field(c, "last"@), bool_field(c, "hasMore"@)) {
            (Some(l), Some(h)) => Some(Some(CursorV { last: l, has_more: h })),
            _ => None,
        },
    }
}

/// Structural decode of a parsed document into the envelope: the document
/// must be an object, its `error` a string if present, its `cursor` a
/// well-formed token pair if present; `result` and `allowance` are kept
/// untyped.  `None` is the malformed case.
pub open spec fn envelope_of(j: JsonV) -> Option<EnvelopeV> {
    if !(j is Obj) {
        None
    } else {
        match (error_field_of(j), cursor_field_of(j)) {
            (Some(err), Some(cur)) => Some(
                EnvelopeV {
                    allowance: field_of(j, "allowance"@),
                    cursor: cur,
                    error: err,
                    result: field_of(j, "result"@),
                },
            ),
            _ => None,
        }
    }
}

/// What parsing a body as an envelope yields: `None` exactly when the body
/// is not valid JSON or not a well-formed envelope.
pub open spec fn envelope_spec(s: Seq<char>) -> Option<EnvelopeV> {
    match parsed_json(s) {
        None => None,
        Some(j) => envelope_of(j),
    }
}

/// Structural decode of a response body into the envelope.  Fails with
/// `MalformedEnvelope` exactly when the body is not a well-formed envelope;
/// this is distinct from a transport failure, which never reaches here.
pub fn parse_envelope(body: &str) -> (r: Result<RESTResponse, ApiError>)
    ensures
        match r {
            Ok(env) => envelope_spec(body@) == Some(env@),
            Err(e) => envelope_spec(body@) is None && e@ == ApiErrorV::MalformedEnvelope,
        },
{
    let root = match parse_json(body) {
        Some(v) => v,
        None => {
            return Err(ApiError::MalformedEnvelope);
        },
    };
    if value_as_object(&root).is_none() {
        return Err(ApiError::MalformedEnvelope);
    }
    let error: Option<String> = match get_field(&root, "error") {
        None => None,
        Some(w) => match value_as_str(w) {
            Some(s) => Some(s.to_owned()),
            None => {
                return Err(ApiError::MalformedEnvelope);
            },
        },
    };
    let cursor: Option<Cursor> = match get_field(&root, "cursor") {
        None => None,
        Some(c) => {
            let last = match get_str(c, "last") {
                Some(s) => s,
                None => {
                    return Err(ApiError::MalformedEnvelope);
                },
            };
            let has_more = match get_bool(c, "hasMore") {
                Some(b) => b,
                None => {
                    return Err(ApiError::MalformedEnvelope);
                },
            };
            Some(Cursor { last, has_more })
        },
    };
    let result: Option<serde_json::Value> = match get_field(&root, "result") {
        None => None,
        Some(w) => Some(w.clone()),
    };
    let allowance: Option<serde_json::Value> = match get_field(&root, "allowance") {
        None => None,
        Some(w) => Some(w.clone()),
    };
    Ok(RESTResponse { allowance, cursor, error, result })
}

/// Tri-state resolution of an envelope: a present payload wins outright; an
/// error message is surfaced only when no payload is present; both absent is
/// the distinct `EmptyEnvelope` failure.
pub open spec fn unwrap_spec(result: Option<JsonV>, error: Option<Seq<char>>) -> Result<
    JsonV,
    ApiErrorV,
> {
    match result {
        Some(j) => Ok(j),
        None => match error {
            Some(m) => Err(ApiErrorV::ApplicationError(m)),
            None => Err(ApiErrorV::EmptyEnvelope),
        },
    }
}

/// Resolves the two meaningful envelope channels into a payload or an error.
pub fn resolve_envelope(result: Option<serde_json::Value>, error: Option<String>) -> (r: Result<
    serde_json::Value,
    ApiError,
>)
    ensures
        match r {
            Ok(v) => unwrap_spec(opt_jv(result), opt_str_view(error)) == Ok::<JsonV, ApiErrorV>(
                jv(v),
            ),
            Err(e) => unwrap_spec(opt_jv(result), opt_str_view(error)) == Err::<JsonV, ApiErrorV>(
                e@,
            ),
        },
{
    match result {
        Some(v) => Ok(v),
        None => match error {
            Some(m) => Err(ApiError::ApplicationError(m)),
            None => Err(ApiError::EmptyEnvelope),
        },
    }
}

/// A decode target: a typed value with a spec-level account of exactly which
/// JSON documents decode into it, and to what.
pub trait FromJson: View + Sized {
    /// Which documents decode into this type, and the view of the value each
    /// one yields.
    spec fn of_json(j: JsonV) -> Option<Self::V>;

    /// Decodes a raw value, succeeding exactly on the documents `of_json`
    /// accepts.
    fn from_json(v: &serde_json::Value) -> (r: Option<Self>)
        ensures
            match r {
                Some(t) => Self::of_json(jv(*v)) == Some(t@),
                None => Self::of_json(jv(*v)) is None,
            },
    ;
}

/// The outcome of decoding a body as a single value of the given target
/// type: the envelope is decoded structurally, resolved tri-state, and the
/// payload decoded into the target shape.
pub open spec fn decode_one_spec<T: FromJson>(s: Seq<char>) -> Result<T::V, ApiErrorV> {
    match envelope_spec(s) {
        None => Err(ApiErrorV::MalformedEnvelope),
        Some(e) => match unwrap_spec(e.result, e.error) {
            Err(err) => Err(err),
            Ok(j) => match T::of_json(j) {
                Some(t) => Ok(t),
                None => Err(ApiErrorV::UnexpectedShape(j)),
            },
        },
    }
}

/// Decodes a response body into a single typed value, or the exact error
/// kind the body calls for.  Pure: a function of the body alone.
pub fn decode_one<T: FromJson>(body: &str) -> (r: Result<T, ApiError>)
    ensures
        match r {
            Ok(t) => decode_one_spec::<T>(body@) == Ok::<T::V, ApiErrorV>(t@),
            Err(e) => decode_one_spec::<T>(body@) == Err::<T::V, ApiErrorV>(e@),
        },
{
    let env = match parse_envelope(body) {
        Ok(e) => e,
        Err(e) => {
            return Err(e);
        },
    };
    let RESTResponse { result, error, .. } = env;
    let v = match resolve_envelope(result, error) {
        Ok(v) => v,
        Err(e) => {
            return Err(e);
        },
    };
    match T::from_json(&v) {
        Some(t) => Ok(t),
        None => Err(ApiError::UnexpectedShape(v)),
    }
}

/// An optional typed substructure under a key: absent (or `null`) is a
/// present `None`; a present field must decode into the target, else the
/// whole decode fails (outer `None`).
pub open spec fn opt_field_spec<T: FromJson>(j: JsonV, key: Seq<char>) -> Option<Option<T::V>> {
    match field_of(j, key) {
        None => Some(None),
        Some(c) => match T::of_json(c) {
            Some(t) => Some(Some(t)),
            None => None,
        },
    }
}

/// Reads an optional typed substructure under a key.
pub fn get_opt<T: FromJson>(v: &serde_json::Value, key: &str) -> (r: Option<Option<T>>)
    ensures
        match r {
            Some(Some(t)) => opt_field_spec::<T>(jv(*v), key@) == Some(Some(t@)),
            Some(None) => opt_field_spec::<T>(jv(*v), key@) == Some(None::<T::V>),
            None => opt_field_spec::<T>(jv(*v), key@) is None,
        },
{
    match get_field(v, key) {
        None => Some(None),
        Some(w) => match T::from_json(w) {
            Some(t) => Some(Some(t)),
            None => None,
        },
    }
}

/// Elementwise decoding of an array's documents: defined exactly when every
/// element decodes.
pub open spec fn decode_elems<T: FromJson>(els: Seq<JsonV>) -> Option<Seq<T::V>> {
    if forall|i: int| 0 <= i < els.len() ==> T::of_json(els[i]) is Some {
        Some(Seq::new(els.len(), |i: int| T::of_json(els[i])->0))
    } else {
        None
    }
}

/// Decoding of a document as an array of the target type.
pub open spec fn decode_seq_spec<T: FromJson>(j: JsonV) -> Option<Seq<T::V>> {
    if j is Arr {
        decode_elems::<T>(j->Arr_0)
    } else {
        None
    }
}

/// Decodes a raw value as an array of typed values, succeeding exactly when
/// the value is an array whose every element decodes.
pub fn from_json_vec<T: FromJson>(v: &serde_json::Value) -> (r: Option<Vec<T>>)
    ensures
        match r {
            Some(ts) => decode_seq_spec::<T>(jv(*v)) == Some(ts@.map_values(|t: T| t@)),
            None => decode_seq_spec::<T>(jv(*v)) is None,
        },
{
    let arr = match crate::json::value_as_array(v) {
        Some(a) => a,
        None => {
            return None;
        },
    };
    let ghost els: Seq<JsonV> = jv(*v)->Arr_0;
    let mut out: Vec<T> = Vec::new();
    let mut i: usize = 0;
    while i < arr.len()
        invariant
            i <= arr.len(),
            out@.len() == i,
            jv(*v) is Arr,
            els == jv(*v)->Arr_0,
            els == arr@.map_values(|x: serde_json::Value| jv(x)),
            forall|k: int| 0 <= k < i ==> T::of_json(els[k]) is Some,
            forall|k: int| 0 <= k < i ==> out@[k]@ == T::of_json(els[k])->0,
        decreases arr.len() - i,
    {
        assert(els[i as int] == jv(arr@[i as int]));
        let t = match T::from_json(&arr[i]) {
            Some(t) => t,
            None => {
                assert(T::of_json(els[i as int]) is None);
                return None;
            },
        };
        assert(T::of_json(els[i as int]) == Some(t@));
        out.push(t);
        i += 1;
    }
    assert(out@.map_values(|t: T| t@) =~= Seq::new(els.len(), |k: int| T::of_json(els[k])->0));
    Some(out)
}

/// A required array-of-target field under a key.
pub open spec fn seq_field_spec<T: FromJson>(j: JsonV, key: Seq<char>) -> Option<Seq<T::V>> {
    match field_of(j, key) {
        Some(a) => decode_seq_spec::<T>(a),
        None => None,
    }
}

/// Reads a required array-of-target field under a key.
pub fn get_vec<T: FromJson>(v: &serde_json::Value, key: &str) -> (r: Option<Vec<T>>)
    ensures
        match r {
            Some(ts) => seq_field_spec::<T>(jv(*v), key@) == Some(ts@.map_values(|t: T| t@)),
            None => seq_field_spec::<T>(jv(*v), key@) is None,
        },
{
    match get_field(v, key) {
        None => None,
        Some(w) => from_json_vec::<T>(w),
    }
}

/// A decoded page: the payload together with the continuation cursor the
/// envelope carried, returned unmodified to the caller, who owns
/// continuation.
#[derive(Debug)]
pub struct PagedResult<T> {
    pub cursor: Option<Cursor>,
    pub result: T,
}

/// Spec-level view of a decoded page of items.
pub struct PageV<V0> {
    pub cursor: Option<CursorV>,
    pub items: Seq<V0>,
}

/// The outcome of decoding a body as a page: the envelope's payload decoded
/// as an array of the target type, paired with the envelope's cursor.
pub open spec fn decode_page_spec<T: FromJson>(s: Seq<char>) -> Result<PageV<T::V>, ApiErrorV> {
    match envelope_spec(s) {
        None => Err(ApiErrorV::MalformedEnvelope),
        Some(e) => match unwrap_spec(e.result, e.error) {
            Err(err) => Err(err),
            Ok(j) => match decode_seq_spec::<T>(j) {
                None => Err(ApiErrorV::UnexpectedShape(j)),
                Some(items) => Ok(PageV { cursor: e.cursor, items }),
            },
        },
    }
}

/// Decodes a response body into a page of typed values plus the next cursor,
/// or the exact error kind the body calls for.  Pure: a function of the body
/// alone.
pub fn decode_page<T: FromJson>(body: &str) -> (r: Result<PagedResult<Vec<T>>, ApiError>)
    ensures
        match r {
            Ok(p) => decode_page_spec::<T>(body@) matches Ok(pv) && p.result@.map_values(|t: T| t@)
                == pv.items && cursor_view_of(p.cursor) == pv.cursor,
            Err(e) => decode_page_spec::<T>(body@) matches Err(ev) && ev == e@,
        },
{
    let env = match parse_envelope(body) {
        Ok(e) => e,
        Err(e) => {
            return Err(e);
        },
    };
    let RESTResponse { result, error, cursor, .. } = env;
    let v = match resolve_envelope(result, error) {
        Ok(v) => v,
        Err(e) => {
            return Err(e);
        },
    };
    match from_json_vec::<T>(&v) {
        Some(ts) => Ok(PagedResult { cursor, result: ts }),
        None => Err(ApiError::UnexpectedShape(v)),
    }
}

/// A resource client names the URI fragment of its collection.
pub trait HasURI {
    /// The URI fragment, at spec level.
    spec fn uri_spec(&self) -> Seq<char>;

    /// The URI fragment identifying the resource collection.
    fn uri(&self) -> (r: String)
        ensures
            r@ == self.uri_spec(),
    ;
}

/// The one step a paginated listing takes: either the page is already known
/// without a request, or a request URL to fetch.
pub enum ListStart<P> {
    Done(P),
    Fetch(String),
}

/// The URL a listing requests: the collection itself for the first page, or
/// the collection with the continuation token appended.
pub open spec fn list_url_spec(base: Seq<char>, uri: Seq<char>, cursor: Option<CursorV>) -> Seq<
    char,
> {
    match cursor {
        None => base + "/"@ + uri,
        Some(c) => base + "/"@ + uri + "?cursor="@ + c.last,
    }
}

/// Builds the first-page URL for a collection.
pub fn page_url(base: &str, uri: &str) -> (r: String)
    ensures
        r@ == base@ + "/"@ + uri@,
{
    let mut url = base.to_owned();
    url.append("/");
    url.append(uri);
    url
}

/// Builds the continuation URL for a collection.
pub fn page_url_with(base: &str, uri: &str, last: &str) -> (r: String)
    ensures
        r@ == base@ + "/"@ + uri@ + "?cursor="@ + last@,
{
    let mut url = base.to_owned();
    url.append("/");
    url.append(uri);
    url.append("?cursor=");
    url.append(last);
    url
}

/// Decides the step a listing takes.  A cursor whose `has_more` flag is
/// false must not be used to request a further page: the empty page is
/// returned outright, with no continuation, and no request URL is produced.
/// Otherwise the request targets the first page (no cursor) or the
/// continuation named by the token.
pub fn plan_list<T: FromJson>(base: &str, uri: &str, cursor: Option<Cursor>) -> (r: ListStart<
    PagedResult<Vec<T>>,
>)
    ensures
        match r {
            ListStart::Done(p) => cursor_view_of(cursor) matches Some(c) && !c.has_more
                && p.result@.len() == 0 && p.cursor is None,
            ListStart::Fetch(u) => (match cursor_view_of(cursor) {
                Some(c) => c.has_more,
                None => true,
            }) && u@ == list_url_spec(base@, uri@, cursor_view_of(cursor)),
        },
{
    match cursor {
        None => ListStart::Fetch(page_url(base, uri)),
        Some(c) => {
            if c.has_more {
                ListStart::Fetch(page_url_with(base, uri, c.last.as_str()))
            } else {
                ListStart::Done(PagedResult { cursor: None, result: Vec::new() })
            }
        },
    }
}

/// A paged collection of results: `list_plan` decides the request (or
/// resolves the listing without one), `list_decode` turns the fetched body
/// into the page.
pub trait List<T: FromJson>: HasURI {
    /// Decides the step listing this collection takes, optionally starting
    /// from the given cursor.
    fn list_plan(&self, base: &str, cursor: Option<Cursor>) -> (r: ListStart<PagedResult<Vec<T>>>)
        ensures
            match r {
                ListStart::Done(p) => cursor_view_of(cursor) matches Some(c) && !c.has_more
                    && p.result@.len() == 0 && p.cursor is None,
                ListStart::Fetch(u) => (match cursor_view_of(cursor) {
                    Some(c) => c.has_more,
                    None => true,
                }) && u@ == list_url_spec(base@, self.uri_spec(), cursor_view_of(cursor)),
            },
    {
        let uri = self.uri();
        plan_list::<T>(base, uri.as_str(), cursor)
    }

    /// Decodes a fetched body into a page of this collection.
    fn list_decode(&self, body: &str) -> (r: Result<PagedResult<Vec<T>>, ApiError>)
        ensures
            match r {
                Ok(p) => decode_page_spec::<T>(body@) matches Ok(pv) && p.result@.map_values(
                    |t: T| t@,
                ) == pv.items && cursor_view_of(p.cursor) == pv.cursor,
                Err(e) => decode_page_spec::<T>(body@) matches Err(ev) && ev == e@,
            },
    {
        decode_page::<T>(body)
    }
}

/// A keyed resource: `details_url` names one member, `details_decode` turns
/// the fetched body into it.
pub trait Details<T: FromJson>: HasURI {
    /// The URL of one member of the collection.  The key must be non-empty;
    /// its format is not validated here — an unknown key is the remote
    /// service's application error.
    fn details_url(&self, base: &str, key: &str) -> (r: String)
        requires
            key@.len() > 0,
        ensures
            r@ == base@ + "/"@ + self.uri_spec() + "/"@ + key@,
    {
        let uri = self.uri();
        member_url(base, uri.as_str(), key)
    }

    /// Decodes a fetched body into one member of the collection.
    fn details_decode(&self, body: &str) -> (r: Result<T, ApiError>)
        ensures
            match r {
                Ok(t) => decode_one_spec::<T>(body@) == Ok::<T::V, ApiErrorV>(t@),
                Err(e) => decode_one_spec::<T>(body@) == Err::<T::V, ApiErrorV>(e@),
            },
    {
        decode_one::<T>(body)
    }
}

/// Builds the URL of one member of a collection.
pub fn member_url(base: &str, uri: &str, key: &str) -> (r: String)
    ensures
        r@ == base@ + "/"@ + uri@ + "/"@ + key@,
{
    let mut url = base.to_owned();
    url.append("/");
    url.append(uri);
    url.append("/");
    url.append(key);
    url
}

/// Elementwise decoding of an object's entries as interval-keyed candle
/// arrays: defined exactly when every value is an array of candles; every
/// key is kept, in order.
pub open spec fn ohlc_entries_spec(ps: Seq<(Seq<char>, JsonV)>) -> Option<
    Seq<(Seq<char>, Seq<CandleV>)>,
> {
    if forall|i: int| 0 <= i < ps.len() ==> decode_seq_spec::<Candle>(ps[i].1) is Some {
        Some(Seq::new(ps.len(), |i: int| (ps[i].0, decode_seq_spec::<Candle>(ps[i].1)->0)))
    } else {
        None
    }
}

/// Decoding of a document as an interval-keyed candle map.  The interval
/// keys are not enumerated: any key the server includes round-trips.
pub open spec fn ohlc_of(j: JsonV) -> Option<Seq<(Seq<char>, Seq<CandleV>)>> {
    if j is Obj {
        ohlc_entries_spec(j->Obj_0)
    } else {
        None
    }
}

/// The view of decoded interval entries.
pub open spec fn ohlc_view(es: Seq<(String, Vec<Candle>)>) -> Seq<(Seq<char>, Seq<CandleV>)> {
    es.map_values(|p: (String, Vec<Candle>)| (p.0@, p.1@.map_values(|c: Candle| c@)))
}

/// Decodes a raw value as an interval-keyed candle map, keeping every key
/// the document carries, in order.
pub fn ohlc_from_value(v: &serde_json::Value) -> (r: Option<Vec<(String, Vec<Candle>)>>)
    ensures
        match r {
            Some(es) => ohlc_of(jv(*v)) == Some(ohlc_view(es@)),
            None => ohlc_of(jv(*v)) is None,
        },
{
    let m = match value_as_object(v) {
        Some(m) => m,
        None => {
            return None;
        },
    };
    let entries = map_entries(m);
    let ghost ps: Seq<(Seq<char>, JsonV)> = jv(*v)->Obj_0;
    assert(entries@.map_values(|p: (&String, &serde_json::Value)| (p.0@, jv(*p.1))) == ps);
    let mut out: Vec<(String, Vec<Candle>)> = Vec::new();
    let mut i: usize = 0;
    while i < entries.len()
        invariant
            i <= entries.len(),
            out@.len() == i,
            jv(*v) is Obj,
            ps == jv(*v)->Obj_0,
            entries@.map_values(|p: (&String, &serde_json::Value)| (p.0@, jv(*p.1))) == ps,
            forall|k: int| 0 <= k < i ==> decode_seq_spec::<Candle>(ps[k].1) is Some,
            forall|k: int| 0 <= k < i ==> out@[k].0@ == ps[k].0,
            forall|k: int|
                0 <= k < i ==> out@[k].1@.map_values(|c: Candle| c@) == decode_seq_spec::<
                Candle,
            >(ps[k].1)->0,
        decreases entries.len() - i,
    {
        assert(ps[i as int] == (entries@[i as int].0@, jv(*entries@[i as int].1)));
        let (key, val) = entries[i];
        let candles = match from_json_vec::<Candle>(val) {
            Some(cs) => cs,
            None => {
                assert(decode_seq_spec::<Candle>(ps[i as int].1) is None);
                return None;
            },
        };
        out.push((key.clone(), candles));
        i += 1;
    }
    assert(ohlc_view(out@) =~= Seq::new(
        ps.len(),
        |k: int| (ps[k].0, decode_seq_spec::<Candle>(ps[k].1)->0),
    ));
    Some(out)
}

/// The outcome of decoding a body as an interval-keyed candle map.
pub open spec fn ohlc_decode_spec(s: Seq<char>) -> Result<
    Seq<(Seq<char>, Seq<CandleV>)>,
    ApiErrorV,
> {
    match envelope_spec(s) {
        None => Err(ApiErrorV::MalformedEnvelope),
        Some(e) => match unwrap_spec(e.result, e.error) {
            Err(err) => Err(err),
            Ok(j) => match ohlc_of(j) {
                None => Err(ApiErrorV::UnexpectedShape(j)),
                Some(m) => Ok(m),
            },
        },
    }
}

/// Elementwise decoding of an object's entries as prices: defined exactly
/// when every value is a number.
pub open spec fn prices_entries_spec(ps: Seq<(Seq<char>, JsonV)>) -> Option<
    Seq<(Seq<char>, serde_json::Number)>,
> {
    if forall|i: int| 0 <= i < ps.len() ==> ps[i].1 is Num {
        Some(Seq::new(ps.len(), |i: int| (ps[i].0, ps[i].1->Num_0)))
    } else {
        None
    }
}

/// Decoding of a document as a market-keyed price map.
pub open spec fn prices_of(j: JsonV) -> Option<Seq<(Seq<char>, serde_json::Number)>> {
    if j is Obj {
        prices_entries_spec(j->Obj_0)
    } else {
        None
    }
}

/// The view of decoded price entries.
pub open spec fn prices_view(es: Seq<(String, serde_json::Number)>) -> Seq<
    (Seq<char>, serde_json::Number),
> {
    es.map_values(|p: (String, serde_json::Number)| (p.0@, p.1))
}

/// Decodes a raw value as a market-keyed price map, keeping every key the
/// document carries, in order.
pub fn prices_from_value(v: &serde_json::Value) -> (r: Option<Vec<(String, serde_json::Number)>>)
    ensures
        match r {
            Some(es) => prices_of(jv(*v)) == Some(prices_view(es@)),
            None => prices_of(jv(*v)) is None,
        },
{
    let m = match value_as_object(v) {
        Some(m) => m,
        None => {
            return None;
        },
    };
    let entries = map_entries(m);
    let ghost ps: Seq<(Seq<char>, JsonV)> = jv(*v)->Obj_0;
    assert(entries@.map_values(|p: (&String, &serde_json::Value)| (p.0@, jv(*p.1))) == ps);
    let mut out: Vec<(String, serde_json::Number)> = Vec::new();
    let mut i: usize = 0;
    while i < entries.len()
        invariant
            i <= entries.len(),
            out@.len() == i,
            jv(*v) is Obj,
            ps == jv(*v)->Obj_0,
            entries@.map_values(|p: (&String, &serde_json::Value)| (p.0@, jv(*p.1))) == ps,
            forall|k: int| 0 <= k < i ==> ps[k].1 is Num,
            forall|k: int| 0 <= k < i ==> out@[k].0@ == ps[k].0,
            forall|k: int| 0 <= k < i ==> out@[k].1 == ps[k].1->Num_0,
        decreases entries.len() - i,
    {
        assert(ps[i as int] == (entries@[i as int].0@, jv(*entries@[i as int].1)));
        let (key, val) = entries[i];
        let n = match value_as_number(val) {
            Some(n) => n,
            None => {
                assert(!(ps[i as int].1 is Num));
                return None;
            },
        };
        out.push((key.clone(), n.clone()));
        i += 1;
    }
    assert(prices_view(out@) =~= Seq::new(ps.len(), |k: int| (ps[k].0, ps[k].1->Num_0)));
    Some(out)
}

/// The outcome of decoding a body as a page of market-keyed prices.
pub open spec fn prices_decode_spec(s: Seq<char>) -> Result<
    (Seq<(Seq<char>, serde_json::Number)>, Option<CursorV>),
    ApiErrorV,
> {
    match envelope_spec(s) {
        None => Err(ApiErrorV::MalformedEnvelope),
        Some(e) => match unwrap_spec(e.result, e.error) {
            Err(err) => Err(err),
            Ok(j) => match prices_of(j) {
                None => Err(ApiErrorV::UnexpectedShape(j)),
                Some(m) => Ok((m, e.cursor)),
            },
        },
    }
}

/// A wrapper for the Asset resource and its operations.
pub struct AssetsAPI {}

/// A wrapper for the Pair resource and its operations.
pub struct PairsAPI {}

/// A wrapper for the Market resource and its operations.
pub struct MarketAPI {}

/// A wrapper for the Exchange resource and its operations.
pub struct ExchangeAPI {}

impl HasURI for PairsAPI {
    open spec fn uri_spec(&self) -> Seq<char> {
        "pairs"@
    }

    fn uri(&self) -> (r: String) {
        "pairs".to_owned()
    }
}

impl List<Pair> for PairsAPI {
}

impl Details<Pair> for PairsAPI {
}

impl HasURI for MarketAPI {
    open spec fn uri_spec(&self) -> Seq<char> {
        "markets"@
    }

    fn uri(&self) -> (r: String) {
        "markets".to_owned()
    }
}

impl List<Market> for MarketAPI {
}

impl Details<Market> for MarketAPI {
}

impl HasURI for ExchangeAPI {
    open spec fn uri_spec(&self) -> Seq<char> {
        "exchanges"@
    }

    fn uri(&self) -> (r: String) {
        "exchanges".to_owned()
    }
}

impl List<Exchange> for ExchangeAPI {
}

impl Details<Exchange> for ExchangeAPI {
}

impl ExchangeAPI {
    /// The URL of the markets listed on one exchange.
    pub fn markets_url(&self, base: &str, name: &str) -> (r: String)
        ensures
            r@ == base@ + "/markets/"@ + name@,
    {
        let mut url = base.to_owned();
        url.append("/markets/");
        url.append(name);
        url
    }

    /// Decodes a fetched body into the markets of one exchange.
    pub fn markets_decode(&self, body: &str) -> (r: Result<Vec<Market>, ApiError>)
        ensures
            match r {
                Ok(ms) => decode_page_spec::<Market>(body@) matches Ok(pv) && ms@.map_values(
                    |m: Market| m@,
                ) == pv.items,
                Err(e) => decode_page_spec::<Market>(body@) matches Err(ev) && ev == e@,
            },
    {
        match decode_page::<Market>(body) {
            Ok(p) => Ok(p.result),
            Err(e) => Err(e),
        }
    }
}

/// A page of markets, as a named result shape.
#[derive(Debug)]
pub struct MarketsResultPage {
    pub cursor: Option<Cursor>,
    pub markets: Vec<Market>,
}

/// A page of market-keyed prices.
#[derive(Debug)]
pub struct PricesResultPage {
    pub cursor: Option<Cursor>,
    pub prices: Vec<(String, serde_json::Number)>,
}

impl MarketAPI {
    pub fn new() -> (r: Self) {
        Self {  }
    }

    /// The URL of one market's 24-hour summary.
    pub fn summary_url(&self, base: &str, exchange: &str, pair: &str) -> (r: String)
        ensures
            r@ == base@ + "/markets/"@ + exchange@ + "/"@ + pair@ + "/summary"@,
    {
        let mut url = base.to_owned();
        url.append("/markets/");
        url.append(exchange);
        url.append("/");
        url.append(pair);
        url.append("/summary");
        url
    }

    /// Decodes a fetched body into a market summary.
    pub fn summary_decode(&self, body: &str) -> (r: Result<MarketSummary, ApiError>)
        ensures
            match r {
                Ok(t) => decode_one_spec::<MarketSummary>(body@) == Ok::<
                    <MarketSummary as View>::V,
                    ApiErrorV,
                >(t@),
                Err(e) => decode_one_spec::<MarketSummary>(body@) == Err::<
                    <MarketSummary as View>::V,
                    ApiErrorV,
                >(e@),
            },
    {
        decode_one::<MarketSummary>(body)
    }

    /// The URL of one market's details.
    pub fn details_url(&self, base: &str, exchange: &str, pair: &str) -> (r: String)
        ensures
            r@ == base@ + "/markets/"@ + exchange@ + "/"@ + pair@,
    {
        let mut url = base.to_owned();
        url.append("/markets/");
        url.append(exchange);
        url.append("/");
        url.append(pair);
        url
    }

    /// The URL of one market's current price.
    pub fn price_url(&self, base: &str, exchange: &str, pair: &str) -> (r: String)
        ensures
            r@ == base@ + "/markets/"@ + exchange@ + "/"@ + pair@ + "/price"@,
    {
        let mut url = base.to_owned();
        url.append("/markets/");
        url.append(exchange);
        url.append("/");
        url.append(pair);
        url.append("/price");
        url
    }

    /// Decodes a fetched body into a price.
    pub fn price_decode(&self, body: &str) -> (r: Result<Price, ApiError>)
        ensures
            match r {
                Ok(t) => decode_one_spec::<Price>(body@) == Ok::<
                    <Price as View>::V,
                    ApiErrorV,
                >(t@),
                Err(e) => decode_one_spec::<Price>(body@) == Err::<
                    <Price as View>::V,
                    ApiErrorV,
                >(e@),
            },
    {
        decode_one::<Price>(body)
    }

    /// Decides the step listing all market prices takes, optionally starting
    /// from the given cursor.  As with any listing, a cursor with no further
    /// page resolves to the empty page without a request.
    pub fn prices_plan(&self, base: &str, cursor: Option<Cursor>) -> (r: ListStart<
        PricesResultPage,
    >)
        ensures
            match r {
                ListStart::Done(p) => cursor_view_of(cursor) matches Some(c) && !c.has_more
                    && p.prices@.len() == 0 && p.cursor is None,
                ListStart::Fetch(u) => (match cursor_view_of(cursor) {
                    Some(c) => c.has_more,
                    None => true,
                }) && u@ == list_url_spec(base@, "markets/prices"@, cursor_view_of(cursor)),
            },
    {
        match cursor {
            None => ListStart::Fetch(page_url(base, "markets/prices")),
            Some(c) => {
                if c.has_more {
                    ListStart::Fetch(page_url_with(base, "markets/prices", c.last.as_str()))
                } else {
                    ListStart::Done(PricesResultPage { cursor: None, prices: Vec::new() })
                }
            },
        }
    }

    /// Decodes a fetched body into a page of market-keyed prices.
    pub fn prices_decode(&self, body: &str) -> (r: Result<PricesResultPage, ApiError>)
        ensures
            match r {
                Ok(p) => prices_decode_spec(body@) matches Ok(pv) && prices_view(p.prices@)
                    == pv.0 && cursor_view_of(p.cursor) == pv.1,
                Err(e) => prices_decode_spec(body@) matches Err(ev) && ev == e@,
            },
    {
        let env = match parse_envelope(body) {
            Ok(e) => e,
            Err(e) => {
                return Err(e);
            },
        };
        let RESTResponse { result, error, cursor, .. } = env;
        let v = match resolve_envelope(result, error) {
            Ok(v) => v,
            Err(e) => {
                return Err(e);
            },
        };
        match prices_from_value(&v) {
            Some(prices) => Ok(PricesResultPage { cursor, prices }),
            None => Err(ApiError::UnexpectedShape(v)),
        }
    }

    /// The URL of one market's recent trades.
    pub fn trades_url(&self, base: &str, exchange: &str, pair: &str) -> (r: String)
        ensures
            r@ == base@ + "/markets/"@ + exchange@ + "/"@ + pair@ + "/trades"@,
    {
        let mut url = base.to_owned();
        url.append("/markets/");
        url.append(exchange);
        url.append("/");
        url.append(pair);
        url.append("/trades");
        url
    }

    /// Decodes a fetched body into the trades of one market, in the order
    /// the server returned them.
    pub fn trades_decode(&self, body: &str) -> (r: Result<Vec<Trade>, ApiError>)
        ensures
            match r {
                Ok(ts) => decode_page_spec::<Trade>(body@) matches Ok(pv) && ts@.map_values(
                    |t: Trade| t@,
                ) == pv.items,
                Err(e) => decode_page_spec::<Trade>(body@) matches Err(ev) && ev == e@,
            },
    {
        match decode_page::<Trade>(body) {
            Ok(p) => Ok(p.result),
            Err(e) => Err(e),
        }
    }

    /// The URL of one market's order book.
    pub fn orderbook_url(&self, base: &str, exchange: &str, pair: &str) -> (r: String)
        ensures
            r@ == base@ + "/markets/"@ + exchange@ + "/"@ + pair@ + "/orderbook"@,
    {
        let mut url = base.to_owned();
        url.append("/markets/");
        url.append(exchange);
        url.append("/");
        url.append(pair);
        url.append("/orderbook");
        url
    }

    /// Decodes a fetched body into an order book.
    pub fn orderbook_decode(&self, body: &str) -> (r: Result<Orderbook, ApiError>)
        ensures
            match r {
                Ok(t) => decode_one_spec::<Orderbook>(body@) == Ok::<
                    <Orderbook as View>::V,
                    ApiErrorV,
                >(t@),
                Err(e) => decode_one_spec::<Orderbook>(body@) == Err::<
                    <Orderbook as View>::V,
                    ApiErrorV,
                >(e@),
            },
    {
        decode_one::<Orderbook>(body)
    }

    /// The URL of one market's interval-keyed candles.
    pub fn ohlc_url(&self, base: &str, exchange: &str, pair: &str) -> (r: String)
        ensures
            r@ == base@ + "/markets/"@ + exchange@ + "/"@ + pair@ + "/ohlc"@,
    {
        let mut url = base.to_owned();
        url.append("/markets/");
        url.append(exchange);
        url.append("/");
        url.append(pair);
        url.append("/ohlc");
        url
    }

    /// Decodes a fetched body into an interval-keyed candle map; every
    /// interval key the server includes is kept.
    pub fn ohlc_decode(&self, body: &str) -> (r: Result<Vec<(String, Vec<Candle>)>, ApiError>)
        ensures
            match r {
                Ok(es) => ohlc_decode_spec(body@) matches Ok(m) && ohlc_view(es@) == m,
                Err(e) => ohlc_decode_spec(body@) matches Err(ev) && ev == e@,
            },
    {
        let env = match parse_envelope(body) {
            Ok(e) => e,
            Err(e) => {
                return Err(e);
            },
        };
        let RESTResponse { result, error, .. } = env;
        let v = match resolve_envelope(result, error) {
            Ok(v) => v,
            Err(e) => {
                return Err(e);
            },
        };
        match ohlc_from_value(&v) {
            Some(es) => Ok(es),
            None => Err(ApiError::UnexpectedShape(v)),
        }
    }
}

/// Law: a present payload resolves to itself, and the error channel is never
/// consulted once the payload is taken — envelopes that differ only in their
/// error field resolve alike.
pub proof fn lemma_result_takes_precedence(
    result: Option<JsonV>,
    error_a: Option<Seq<char>>,
    error_b: Option<Seq<char>>,
)
    requires
        result is Some,
    ensures
        unwrap_spec(result, error_a) == Ok::<JsonV, ApiErrorV>(result->0),
        unwrap_spec(result, error_a) == unwrap_spec(result, error_b),
{
}

/// Law: with the payload absent and the error channel set, resolution yields
/// the application error, message intact.
pub proof fn lemma_application_error_exact(error: Seq<char>)
    ensures
        unwrap_spec(None, Some(error)) == Err::<JsonV, ApiErrorV>(
            ApiErrorV::ApplicationError(error),
        ),
{
}

/// Law: with both channels absent, resolution is the distinct
/// `EmptyEnvelope` failure — for any list target, the outcome of a whole
/// page decode is that error, never an empty page.
pub proof fn lemma_empty_envelope_never_an_empty_page<T: FromJson>(s: Seq<char>)
    ensures
        (envelope_spec(s) matches Some(e) && e.result is None && e.error is None)
            ==> decode_page_spec::<T>(s) == Err::<PageV<T::V>, ApiErrorV>(ApiErrorV::EmptyEnvelope),
{
}

/// Law: a well-formed envelope whose payload decodes into the target yields
/// exactly that payload.
pub proof fn lemma_payload_decodes<T: FromJson>(s: Seq<char>, t: T::V)
    ensures
        (envelope_spec(s) matches Some(e) && e.result matches Some(j) && T::of_json(j) == Some(t))
            ==> decode_one_spec::<T>(s) == Ok::<T::V, ApiErrorV>(t),
{
}

/// Law: a well-formed envelope with no payload and an error message decodes
/// to the application error with exactly that message, for any target.
pub proof fn lemma_application_error_decodes<T: FromJson>(s: Seq<char>, m: Seq<char>)
    ensures
        (envelope_spec(s) matches Some(e) && e.result is None && e.error == Some(m))
            ==> decode_one_spec::<T>(s) == Err::<T::V, ApiErrorV>(ApiErrorV::ApplicationError(m)),
{
}

/// Law: a decoded page's continuation cursor is exactly the envelope's
/// cursor field, unmodified — the client never fabricates or guesses
/// continuation state.
pub proof fn lemma_cursor_passed_through<T: FromJson>(s: Seq<char>)
    ensures
        decode_page_spec::<T>(s) matches Ok(pv) ==> (envelope_spec(s) matches Some(e)
            && pv.cursor == e.cursor),
{
}

/// Law: when the first page's cursor says more pages exist, the follow-up
/// request names a different URL than the first request — the continuation
/// token is appended, so the listing never re-requests the page it started
/// from.  Which items the next page holds is the server's to decide; the
/// decoded page is exactly what the server returned (`list_decode`'s
/// contract), so distinct pages arrive distinct.
pub proof fn lemma_next_page_request_differs(base: Seq<char>, uri: Seq<char>, c: CursorV)
    requires
        c.has_more,
    ensures
        list_url_spec(base, uri, Some(c)) != list_url_spec(base, uri, None),
{
    reveal_strlit("?cursor=");
    assert(list_url_spec(base, uri, Some(c)).len() == base.len() + "/"@.len() + uri.len() + 8
        + c.last.len());
}

/// Law: a decoded interval-keyed candle map carries every key of the source
/// object, in order — any key the server includes round-trips.
pub proof fn lemma_ohlc_keys_round_trip(
    ps: Seq<(Seq<char>, JsonV)>,
    m: Seq<(Seq<char>, Seq<CandleV>)>,
)
    requires
        ohlc_entries_spec(ps) == Some(m),
    ensures
        m.len() == ps.len(),
        forall|i: int| 0 <= i < ps.len() ==> m[i].0 == ps[i].0,
{
}

} // verus!
