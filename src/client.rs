//! Requests to the service, and the classification of its responses.
use crate::error::{RaindropMcpError, Result};
use crate::json::{Json, JsonModel};
use crate::text::{bool_name, bool_text, decimal, decimal_text};
use crate::collection::CollectionRef;
use crate::search::{DateRange, SearchParams};
use crate::transfer::ExportOptions;
use crate::update::{BatchUpdate, BookmarkUpdate, CollectionUpdate};
use crate::wire::{entry, no_fields, object, push_field, push_skip, skip_entry, Wire};
use crate::json::entries_model;
use vstd::prelude::*;
use vstd::string::StringExecFns;

verus! {

/// The production endpoint of the service.
pub const BASE_URL: &'static str = "https://api.raindrop.io/rest/v1";

/// The collection id that stands for the trash.
pub const TRASH_COLLECTION_ID: i64 = -99;

/// The collection id that stands for unsorted bookmarks.
pub const UNSORTED_COLLECTION_ID: i64 = 0;

/// The message given when the access token holds a character that no HTTP header can carry.
pub const INVALID_TOKEN_MESSAGE: &'static str =
    "RAINDROP_ACCESS_TOKEN holds a character that an HTTP header cannot carry.";

/// The message given when no access token is configured.
pub const MISSING_TOKEN_MESSAGE: &'static str =
    "RAINDROP_ACCESS_TOKEN environment variable is required. Please check your .env file or environment settings.";

/// What `urlencoding::encode` makes of a text.
pub uninterp spec fn url_encoded(s: Seq<char>) -> Seq<char>;

/// A character that percent-encoding leaves as it is.
pub open spec fn is_unreserved(c: char) -> bool {
    ||| 'a' <= c <= 'z'
    ||| 'A' <= c <= 'Z'
    ||| '0' <= c <= '9'
    ||| c == '-'
    ||| c == '.'
    ||| c == '_'
    ||| c == '~'
}

/// Relies on `urlencoding::encode`: the result depends on the text alone, and
/// ASCII letters, digits, `-`, `.`, `_` and `~` are never encoded.
#[verifier::external_body]
fn url_encode(s: &str) -> (r: String)
    ensures
        r@ == url_encoded(s@),
        (forall|i: int| 0 <= i < s@.len() ==> is_unreserved(#[trigger] s@[i])) ==> r@ == s@,
{
    urlencoding::encode(s).into_owned()
}

/// The reason phrase that the `http` crate gives a status code.
pub uninterp spec fn reason_phrase(code: u16) -> Option<Seq<char>>;

/// Relies on `StatusCode::canonical_reason` (of `http`, as `reqwest` exports
/// it): the phrase depends on the code alone, and a number outside
/// `100..=999` is no status code.
#[verifier::external_body]
fn canonical_reason(code: u16) -> (r: Option<&'static str>)
    ensures
        match r {
            Some(p) => reason_phrase(code) == Some(p@),
            None => reason_phrase(code) is None,
        },
        !(100 <= code <= 999) ==> r is None,
{
    reqwest::StatusCode::from_u16(code).ok().and_then(|c| c.canonical_reason())
}

/// A status code as the service's errors quote it: the number, then the reason phrase.
pub open spec fn status_text(code: u16) -> Seq<char> {
    decimal(code as int) + " "@ + match reason_phrase(code) {
        Some(p) => p,
        None => "<unknown status code>"@,
    }
}

fn status_display(code: u16) -> (r: String)
    ensures
        r@ == status_text(code),
{
    let mut text = decimal_text(code as i64);
    text.append(" ");
    match canonical_reason(code) {
        Some(p) => text.append(p),
        None => text.append("<unknown status code>"),
    }
    text
}

/// The HTTP verbs the client uses.
#[derive(Debug, Clone, Copy, PartialEq, Eq, Structural)]
pub enum HttpMethod {
    Get,
    Post,
    Put,
    Delete,
}

/// One request to the service: verb, URL, query pairs in order, and JSON body.
///
/// Every key and value of `query` is already percent-encoded, once: the
/// request goes to [`ApiRequest::full_url`], and the service decodes each
/// pair back to the key and value it was built from.
#[derive(Debug)]
pub struct ApiRequest {
    pub method: HttpMethod,
    pub url: String,
    pub query: Vec<(String, String)>,
    pub body: Option<Json>,
}

/// The mathematical value of an [`ApiRequest`].
pub struct RequestModel {
    pub method: HttpMethod,
    pub url: Seq<char>,
    pub query: Seq<(Seq<char>, Seq<char>)>,
    pub body: Option<JsonModel>,
}

pub open spec fn pairs_model(q: Seq<(String, String)>) -> Seq<(Seq<char>, Seq<char>)> {
    Seq::new(q.len(), |i: int| (q[i].0@, q[i].1@))
}

impl View for ApiRequest {
    type V = RequestModel;

    open spec fn view(&self) -> RequestModel {
        RequestModel {
            method: self.method,
            url: self.url@,
            query: pairs_model(self.query@),
            body: match self.body {
                Some(j) => Some(j@),
                None => None,
            },
        }
    }
}

/// The URL a request is sent to: its URL, then `?` and the query text when
/// there are query pairs.
pub open spec fn spec_full_url(r: RequestModel) -> Seq<char> {
    if r.query.len() == 0 {
        r.url
    } else {
        r.url + "?"@ + query_text(r.query)
    }
}

impl ApiRequest {
    /// The URL the request is sent to, with its already-encoded query.
    pub fn full_url(&self) -> (r: String)
        ensures
            r@ == spec_full_url(self@),
    {
        let ghost q = pairs_model(self.query@);
        let mut text = self.url.clone();
        if self.query.len() == 0 {
            return text;
        }
        text.append("?");
        let ghost start = text@;
        let mut i: usize = 0;
        while i < self.query.len()
            invariant
                i <= self.query@.len(),
                q == pairs_model(self.query@),
                start == self.url@ + "?"@,
                text@ == start + query_text(q.take(i as int)),
            decreases self.query@.len() - i,
        {
            assert(q.take(i + 1).drop_last() =~= q.take(i as int));
            assert(q.take(i + 1).last() == q[i as int]);
            if i > 0 {
                text.append("&");
            } else {
                assert(q.take(0) =~= Seq::<(Seq<char>, Seq<char>)>::empty());
                assert(query_text(q.take(0)) =~= Seq::<char>::empty());
            }
            text.append(self.query[i].0.as_str());
            text.append("=");
            text.append(self.query[i].1.as_str());
            proof {
                if i == 0 {
                    assert(q.take(1)[0] == q[0]);
                }
            }
            assert(text@ =~= start + query_text(q.take(i + 1)));
            i = i + 1;
        }
        assert(q.take(q.len() as int) =~= q);
        text
    }
}

/// What came of reading a response body.
#[derive(Debug)]
pub enum ResponseBody {
    /// The body was read; `json` is the parsed value, or the parser's message.
    Read { text: String, json: core::result::Result<Json, String> },
    /// Reading failed; holds the transport's message.
    Unreadable(String),
}

/// A status whose body is decoded as the expected value.
pub open spec fn is_success(status: u16) -> bool {
    status == 200 || status == 201
}

/// A status that means the operation succeeded with nothing to return.
pub open spec fn is_empty_success(status: u16) -> bool {
    status == 200 || status == 204
}

/// The body text an error quotes.
pub open spec fn body_text(body: ResponseBody) -> Seq<char> {
    match body {
        ResponseBody::Read { text, .. } => text@,
        ResponseBody::Unreadable(_) => "Unknown error"@,
    }
}

/// `e` is the error for a response whose status is not a success.
pub open spec fn status_error_is(status: u16, url: Seq<char>, body: ResponseBody, e: RaindropMcpError) -> bool {
    if status == 401 {
        e matches RaindropMcpError::Unauthorized(m) && m@ == "Invalid or expired access token for "@ + url
    } else if status == 404 {
        e matches RaindropMcpError::NotFound(m) && m@ == "Resource not found: "@ + url
    } else {
        e matches RaindropMcpError::RaindropApi(m, None) && m@ == "API error ("@ + status_text(status)
            + "): "@ + body_text(body)
    }
}

/// `e` is the error for a success response whose body gave no JSON.
pub open spec fn body_error_is(body: ResponseBody, e: RaindropMcpError) -> bool {
    match body {
        ResponseBody::Read { json: Err(m), .. } => e matches RaindropMcpError::JsonSerialization(d)
            && d@ == m@,
        ResponseBody::Unreadable(m) => e matches RaindropMcpError::HttpRequest(d) && d@ == m@,
        _ => false,
    }
}

fn status_error(status: u16, url: &str, body: &ResponseBody) -> (e: RaindropMcpError)
    requires
        !is_success(status),
    ensures
        status_error_is(status, url@, *body, e),
{
    if status == 401 {
        let mut m = String::from_str("Invalid or expired access token for ");
        m.append(url);
        RaindropMcpError::Unauthorized(m)
    } else if status == 404 {
        let mut m = String::from_str("Resource not found: ");
        m.append(url);
        RaindropMcpError::NotFound(m)
    } else {
        let mut m = String::from_str("API error (");
        let status_part = status_display(status);
        m.append(status_part.as_str());
        m.append("): ");
        match body {
            ResponseBody::Read { text, .. } => m.append(text.as_str()),
            ResponseBody::Unreadable(_) => m.append("Unknown error"),
        }
        RaindropMcpError::RaindropApi(m, None)
    }
}

/// Classifies a response and decodes its body as a `T`.
///
/// `200` and `201` decode the body; `401` and `404` name the URL; any other
/// status quotes the body text.
pub fn handle_response<T: Wire>(status: u16, url: &str, body: &ResponseBody) -> (r: Result<T>)
    ensures
        !is_success(status) ==> (r matches Err(e) && status_error_is(status, url@, *body, e)),
        is_success(status) ==> match body {
            ResponseBody::Read { json: Ok(j), .. } => {
                &&& r is Ok <==> T::wire_ok(j@)
                &&& r matches Ok(x) ==> T::wire_is(j@, x)
                &&& r is Err ==> r matches Err(RaindropMcpError::JsonSerialization(_))
            },
            _ => (r matches Err(e) && body_error_is(*body, e)),
        },
{
    if !(status == 200 || status == 201) {
        return Err(status_error(status, url, body));
    }
    match body {
        ResponseBody::Read { json: Ok(j), .. } => match T::decode(j) {
            Ok(x) => Ok(x),
            Err(m) => Err(RaindropMcpError::JsonSerialization(m)),
        },
        ResponseBody::Read { json: Err(m), .. } => Err(
            RaindropMcpError::JsonSerialization(m.clone()),
        ),
        ResponseBody::Unreadable(m) => Err(RaindropMcpError::HttpRequest(m.clone())),
    }
}

/// Classifies the response to an operation that returns nothing.
///
/// `200` and `204` succeed at once; any other status is handled as by
/// [`handle_response`], with any JSON body accepted.
pub fn handle_empty_response(status: u16, url: &str, body: &ResponseBody) -> (r: Result<()>)
    ensures
        is_empty_success(status) ==> r is Ok,
        status == 201 ==> match body {
            ResponseBody::Read { json: Ok(_), .. } => r is Ok,
            _ => (r matches Err(e) && body_error_is(*body, e)),
        },
        !is_empty_success(status) && !is_success(status) ==> (r matches Err(e)
            && status_error_is(status, url@, *body, e)),
{
    if status == 200 || status == 204 {
        return Ok(());
    }
    match handle_response::<Json>(status, url, body) {
        Ok(_) => Ok(()),
        Err(e) => Err(e),
    }
}

/// A character an HTTP header value can carry: tab, or any character from
/// space on except DEL.
pub open spec fn is_header_char(c: char) -> bool {
    c == '\t' || (c as u32 >= 32 && c as u32 != 127)
}

/// A configured token: present, not empty, and fit for the `Authorization` header.
pub open spec fn usable_token(t: Option<String>) -> bool {
    t matches Some(s) && s@.len() > 0 && forall|i: int|
        0 <= i < s@.len() ==> is_header_char(#[trigger] s@[i])
}

/// The message given for a token that cannot be used: missing (or empty),
/// or holding a character no header can carry.
pub open spec fn token_error_message(t: Option<String>) -> Seq<char> {
    if t matches Some(s) && s@.len() > 0 {
        INVALID_TOKEN_MESSAGE@
    } else {
        MISSING_TOKEN_MESSAGE@
    }
}

fn header_safe(s: &str) -> (r: bool)
    ensures
        r == forall|i: int| 0 <= i < s@.len() ==> is_header_char(#[trigger] s@[i]),
{
    let n = s.unicode_len();
    let mut i: usize = 0;
    while i < n
        invariant
            n == s@.len(),
            i <= n,
            forall|k: int| 0 <= k < i ==> is_header_char(#[trigger] s@[k]),
        decreases n - i,
    {
        let c = s.get_char(i);
        if !(c == '\t' || (c as u32 >= 32 && c as u32 != 127)) {
            return false;
        }
        i = i + 1;
    }
    true
}

/// The value of an optional text.
pub open spec fn opt_view(v: Option<String>) -> Option<Seq<char>> {
    match v {
        Some(s) => Some(s@),
        None => None,
    }
}

/// The query pair for an optional value, key and value percent-encoded: none
/// when the value is absent.
pub open spec fn opt_pair(key: Seq<char>, v: Option<Seq<char>>) -> Seq<(Seq<char>, Seq<char>)> {
    match v {
        Some(x) => seq![(url_encoded(key), url_encoded(x))],
        None => seq![],
    }
}

/// An optional flag as `true` or `false`.
pub open spec fn opt_bool(v: Option<bool>) -> Option<Seq<char>> {
    match v {
        Some(b) => Some(bool_name(b)),
        None => None,
    }
}

/// An optional integer in decimal.
pub open spec fn opt_decimal(v: Option<i64>) -> Option<Seq<char>> {
    match v {
        Some(n) => Some(decimal(n as int)),
        None => None,
    }
}

/// An optional 32-bit integer in decimal.
pub open spec fn opt_decimal32(v: Option<i32>) -> Option<Seq<char>> {
    match v {
        Some(n) => Some(decimal(n as int)),
        None => None,
    }
}

/// One `tag` pair for each tag, in order.
pub open spec fn tag_pairs(tags: Option<Vec<String>>) -> Seq<(Seq<char>, Seq<char>)> {
    match tags {
        Some(ts) => Seq::new(ts@.len(), |i: int| (url_encoded("tag"@), url_encoded(ts@[i]@))),
        None => seq![],
    }
}

/// The query of a bookmark search, one pair for each filter that is given, in
/// this order: search text, collection, each tag as its own pair, page, page
/// size, sort key, importance flag, media type, word, `pleaseParse`,
/// `noparse`, `since`, and the bounds of the creation date range.
pub open spec fn search_query(p: SearchParams) -> Seq<(Seq<char>, Seq<char>)> {
    opt_pair("search"@, opt_view(p.search)) + opt_pair("collection"@, opt_decimal(p.collection))
        + tag_pairs(p.tags) + opt_pair("page"@, opt_decimal32(p.page)) + opt_pair(
        "perpage"@,
        opt_decimal32(p.per_page),
    ) + opt_pair("sort"@, opt_view(p.sort)) + opt_pair("important"@, opt_bool(p.important))
        + opt_pair(
        "media"@,
        match p.media {
            Some(m) => Some(m.spec_wire_name()),
            None => None,
        },
    ) + opt_pair("word"@, opt_view(p.word)) + opt_pair("pleaseParse"@, opt_bool(p.please_parse))
        + opt_pair("noparse"@, opt_bool(p.noparse)) + opt_pair("since"@, opt_view(p.since))
        + date_pairs(p.created)
}

/// The pairs of a creation date range: each bound that is given.
pub open spec fn date_pairs(range: Option<DateRange>) -> Seq<(Seq<char>, Seq<char>)> {
    match range {
        Some(r) => opt_pair("created[$gte]"@, opt_view(r.gte)) + opt_pair(
            "created[$lte]"@,
            opt_view(r.lte),
        ),
        None => seq![],
    }
}

/// Query pairs as the text after `?`: `key=value`, joined by `&`.
pub open spec fn query_text(q: Seq<(Seq<char>, Seq<char>)>) -> Seq<char>
    decreases q.len(),
{
    if q.len() == 0 {
        seq![]
    } else if q.len() == 1 {
        q[0].0 + "="@ + q[0].1
    } else {
        query_text(q.drop_last()) + "&"@ + q.last().0 + "="@ + q.last().1
    }
}

fn no_query() -> (r: Vec<(String, String)>)
    ensures
        pairs_model(r@) == Seq::<(Seq<char>, Seq<char>)>::empty(),
{
    let r: Vec<(String, String)> = Vec::new();
    assert(pairs_model(r@) =~= Seq::<(Seq<char>, Seq<char>)>::empty());
    r
}

fn push_opt_pair(q: &mut Vec<(String, String)>, key: &str, value: Option<String>)
    ensures
        pairs_model(final(q)@) == pairs_model(old(q)@) + opt_pair(key@, opt_view(value)),
{
    match value {
        Some(v) => q.push((url_encode(key), url_encode(v.as_str()))),
        None => {},
    }
    assert(pairs_model(q@) =~= pairs_model(old(q)@) + opt_pair(key@, opt_view(value)));
}

fn opt_copy(v: &Option<String>) -> (r: Option<String>)
    ensures
        opt_view(r) == opt_view(*v),
{
    match v {
        Some(s) => Some(s.clone()),
        None => None,
    }
}

fn opt_bool_text(v: Option<bool>) -> (r: Option<String>)
    ensures
        opt_view(r) == opt_bool(v),
{
    match v {
        Some(b) => Some(String::from_str(bool_text(b))),
        None => None,
    }
}

fn opt_decimal32_text(v: Option<i32>) -> (r: Option<String>)
    ensures
        opt_view(r) == opt_decimal32(v),
{
    match v {
        Some(n) => Some(decimal_text(n as i64)),
        None => None,
    }
}

fn opt_decimal_text(v: Option<i64>) -> (r: Option<String>)
    ensures
        opt_view(r) == opt_decimal(v),
{
    match v {
        Some(n) => Some(decimal_text(n)),
        None => None,
    }
}

/// The service's client configuration: endpoint and bearer credential.
#[derive(Debug)]
pub struct RaindropClient {
    base_url: String,
    access_token: String,
}

impl RaindropClient {
    /// The root URL that every request starts with.
    pub closed spec fn base(&self) -> Seq<char> {
        self.base_url@
    }

    /// The bearer credential.
    pub closed spec fn token(&self) -> Seq<char> {
        self.access_token@
    }

    /// `path` under the root URL.
    pub open spec fn at(&self, path: Seq<char>) -> Seq<char> {
        self.base() + path
    }

    /// `path`, then `/` and the collection id when one is given, under the root URL.
    pub open spec fn scoped(&self, path: Seq<char>, collection_id: Option<i64>) -> Seq<char> {
        match collection_id {
            Some(id) => self.base() + path + "/"@ + decimal(id as int),
            None => self.base() + path,
        }
    }

    /// A client of the production endpoint.
    pub fn new(access_token: Option<String>) -> (r: Result<Self>)
        ensures
            usable_token(access_token) ==> (r matches Ok(c) && c.base() == BASE_URL@ && Some(
                c.token(),
            ) == opt_view(access_token)),
            !usable_token(access_token) ==> (r matches Err(RaindropMcpError::EnvironmentVariable(m))
                && m@ == token_error_message(access_token)),
    {
        Self::with_base_url(String::from_str(BASE_URL), access_token)
    }

    /// A client of the endpoint `base_url`; fails without a usable token.
    pub fn with_base_url(base_url: String, access_token: Option<String>) -> (r: Result<Self>)
        ensures
            usable_token(access_token) ==> (r matches Ok(c) && c.base() == base_url@ && Some(
                c.token(),
            ) == opt_view(access_token)),
            !usable_token(access_token) ==> (r matches Err(RaindropMcpError::EnvironmentVariable(m))
                && m@ == token_error_message(access_token)),
    {
        match access_token {
            Some(token) => {
                if token.as_str().unicode_len() > 0 {
                    if header_safe(token.as_str()) {
                        return Ok(RaindropClient { base_url, access_token: token });
                    }
                    return Err(
                        RaindropMcpError::EnvironmentVariable(
                            String::from_str(INVALID_TOKEN_MESSAGE),
                        ),
                    );
                }
            },
            None => {},
        }
        Err(RaindropMcpError::EnvironmentVariable(String::from_str(MISSING_TOKEN_MESSAGE)))
    }

    /// The headers sent with every request: the bearer credential and the JSON content type.
    pub fn default_headers(&self) -> (r: Vec<(String, String)>)
        ensures
            pairs_model(r@) == seq![
                ("Authorization"@, "Bearer "@ + self.token()),
                ("Content-Type"@, "application/json"@),
            ],
    {
        let mut auth = String::from_str("Bearer ");
        auth.append(self.access_token.as_str());
        let mut r: Vec<(String, String)> = Vec::new();
        r.push((String::from_str("Authorization"), auth));
        r.push((String::from_str("Content-Type"), String::from_str("application/json")));
        assert(pairs_model(r@) =~= seq![
            ("Authorization"@, "Bearer "@ + self.token()),
            ("Content-Type"@, "application/json"@),
        ]);
        r
    }

    fn url(&self, path: &str) -> (r: String)
        ensures
            r@ == self.at(path@),
    {
        let mut r = self.base_url.clone();
        r.append(path);
        r
    }

    fn url_with_id(&self, prefix: &str, id: i64, suffix: &str) -> (r: String)
        ensures
            r@ == self.at(prefix@) + decimal(id as int) + suffix@,
    {
        let mut r = self.url(prefix);
        let digits = decimal_text(id);
        r.append(digits.as_str());
        r.append(suffix);
        r
    }

    fn scoped_url(&self, path: &str, collection_id: Option<i64>) -> (r: String)
        ensures
            r@ == self.scoped(path@, collection_id),
    {
        let mut r = self.url(path);
        match collection_id {
            Some(id) => {
                r.append("/");
                let digits = decimal_text(id);
                r.append(digits.as_str());
            },
            None => {},
        }
        r
    }

    fn get(&self, url: String) -> (r: ApiRequest)
        ensures
            r@ == (RequestModel { method: HttpMethod::Get, url: url@, query: seq![], body: None }),
    {
        ApiRequest { method: HttpMethod::Get, url, query: no_query(), body: None }
    }

    fn send(&self, method: HttpMethod, url: String, body: Option<Json>) -> (r: ApiRequest)
        ensures
            r@ == (RequestModel {
                method,
                url: url@,
                query: seq![],
                body: match body {
                    Some(j) => Some(j@),
                    None => None,
                },
            }),
    {
        ApiRequest { method, url, query: no_query(), body }
    }

    /// Lists the root collections.
    pub fn get_collections(&self) -> (r: ApiRequest)
        ensures
            r@ == (RequestModel {
                method: HttpMethod::Get,
                url: self.at("/collections"@),
                query: seq![],
                body: None,
            }),
    {
        self.get(self.url("/collections"))
    }

    /// Fetches the collection `id`.
    pub fn get_collection(&self, id: i64) -> (r: ApiRequest)
        ensures
            r@ == (RequestModel {
                method: HttpMethod::Get,
                url: self.at("/collection/"@) + decimal(id as int),
                query: seq![],
                body: None,
            }),
    {
        let url = self.url_with_id("/collection/", id, "");
        proof {
            reveal_strlit("");
        }
        assert(url@ =~= self.at("/collection/"@) + decimal(id as int));
        self.get(url)
    }

    /// Lists the child collections of `parent_id`.
    pub fn get_child_collections(&self, parent_id: i64) -> (r: ApiRequest)
        ensures
            r@ == (RequestModel {
                method: HttpMethod::Get,
                url: self.at("/collections/"@) + decimal(parent_id as int) + "/childrens"@,
                query: seq![],
                body: None,
            }),
    {
        self.get(self.url_with_id("/collections/", parent_id, "/childrens"))
    }

    /// Creates a collection titled `title`.
    pub fn create_collection(&self, title: String, is_public: bool) -> (r: ApiRequest)
        ensures
            r@ == (RequestModel {
                method: HttpMethod::Post,
                url: self.at("/collection"@),
                query: seq![],
                body: Some(
                    JsonModel::Object(
                        Seq::empty() + entry::<String>("title"@, title) + entry::<bool>(
                            "public"@,
                            is_public,
                        ),
                    ),
                ),
            }),
    {
        let mut fields = no_fields();
        push_field::<String>(&mut fields, "title", &title);
        push_field::<bool>(&mut fields, "public", &is_public);
        self.send(HttpMethod::Post, self.url("/collection"), Some(object(fields)))
    }

    /// Updates the collection `id` with the fields given in `updates` only.
    pub fn update_collection(&self, id: i64, updates: &CollectionUpdate) -> (r: ApiRequest)
        ensures
            r@ == (RequestModel {
                method: HttpMethod::Put,
                url: self.at("/collection/"@) + decimal(id as int),
                query: seq![],
                body: Some(CollectionUpdate::wire_of(*updates)),
            }),
    {
        let url = self.url_with_id("/collection/", id, "");
        proof {
            reveal_strlit("");
        }
        assert(url@ =~= self.at("/collection/"@) + decimal(id as int));
        self.send(HttpMethod::Put, url, Some(updates.encode()))
    }

    /// Deletes the collection `id`.
    pub fn delete_collection(&self, id: i64) -> (r: ApiRequest)
        ensures
            r@ == (RequestModel {
                method: HttpMethod::Delete,
                url: self.at("/collection/"@) + decimal(id as int),
                query: seq![],
                body: None,
            }),
    {
        let url = self.url_with_id("/collection/", id, "");
        proof {
            reveal_strlit("");
        }
        assert(url@ =~= self.at("/collection/"@) + decimal(id as int));
        self.send(HttpMethod::Delete, url, None)
    }

    /// Shares the collection `id` at access `level`, inviting `emails` when given.
    pub fn share_collection(&self, id: i64, level: &str, emails: Option<Vec<String>>) -> (r: ApiRequest)
        ensures
            r@ == (RequestModel {
                method: HttpMethod::Put,
                url: self.at("/collection/"@) + decimal(id as int) + "/sharing"@,
                query: seq![],
                body: Some(
                    JsonModel::Object(
                        Seq::empty() + seq![("level"@, JsonModel::Str(level@))]
                            + skip_entry::<Vec<String>>("emails"@, emails),
                    ),
                ),
            }),
    {
        let mut fields = no_fields();
        let level_text = String::from_str(level);
        push_field::<String>(&mut fields, "level", &level_text);
        push_skip::<Vec<String>>(&mut fields, "emails", &emails);
        self.send(
            HttpMethod::Put,
            self.url_with_id("/collection/", id, "/sharing"),
            Some(object(fields)),
        )
    }

    /// Searches bookmarks of the collection named in `params` (all unsorted
    /// bookmarks when none is), with `params` as the query.
    pub fn get_bookmarks(&self, params: &SearchParams) -> (r: ApiRequest)
        ensures
            r@ == (RequestModel {
                method: HttpMethod::Get,
                url: self.at("/raindrops/"@) + decimal(
                    match params.collection {
                        Some(c) => c as int,
                        None => UNSORTED_COLLECTION_ID as int,
                    },
                ),
                query: search_query(*params),
                body: None,
            }),
    {
        let mut q = no_query();
        push_opt_pair(&mut q, "search", opt_copy(&params.search));
        push_opt_pair(&mut q, "collection", opt_decimal_text(params.collection));
        let ghost before_tags = pairs_model(q@);
        match &params.tags {
            Some(tags) => {
                let mut i: usize = 0;
                while i < tags.len()
                    invariant
                        i <= tags@.len(),
                        pairs_model(q@) == before_tags + Seq::new(
                            i as nat,
                            |k: int| (url_encoded("tag"@), url_encoded(tags@[k]@)),
                        ),
                    decreases tags@.len() - i,
                {
                    let ghost prev = q@;
                    q.push((url_encode("tag"), url_encode(tags[i].as_str())));
                    let ghost pair = (url_encoded("tag"@), url_encoded(tags@[i as int]@));
                    assert(pairs_model(q@) =~= pairs_model(prev) + seq![pair]);
                    assert(Seq::new(
                        (i + 1) as nat,
                        |k: int| (url_encoded("tag"@), url_encoded(tags@[k]@)),
                    ) =~= Seq::new(
                        i as nat,
                        |k: int| (url_encoded("tag"@), url_encoded(tags@[k]@)),
                    ) + seq![pair]);
                    i = i + 1;
                }
                assert(Seq::new(i as nat, |k: int| (url_encoded("tag"@), url_encoded(tags@[k]@)))
                    =~= tag_pairs(params.tags));
            },
            None => {
                assert(pairs_model(q@) =~= before_tags + tag_pairs(params.tags));
            },
        }
        push_opt_pair(&mut q, "page", opt_decimal32_text(params.page));
        push_opt_pair(&mut q, "perpage", opt_decimal32_text(params.per_page));
        push_opt_pair(&mut q, "sort", opt_copy(&params.sort));
        push_opt_pair(&mut q, "important", opt_bool_text(params.important));
        let media = match params.media {
            Some(m) => Some(String::from_str(m.wire_name())),
            None => None,
        };
        push_opt_pair(&mut q, "media", media);
        push_opt_pair(&mut q, "word", opt_copy(&params.word));
        push_opt_pair(&mut q, "pleaseParse", opt_bool_text(params.please_parse));
        push_opt_pair(&mut q, "noparse", opt_bool_text(params.noparse));
        push_opt_pair(&mut q, "since", opt_copy(&params.since));
        let ghost before_dates = pairs_model(q@);
        match &params.created {
            Some(range) => {
                push_opt_pair(&mut q, "created[$gte]", opt_copy(&range.gte));
                push_opt_pair(&mut q, "created[$lte]", opt_copy(&range.lte));
                assert(pairs_model(q@) =~= before_dates + date_pairs(params.created));
            },
            None => {
                assert(pairs_model(q@) =~= before_dates + date_pairs(params.created));
            },
        }
        let collection_id = match params.collection {
            Some(c) => c,
            None => UNSORTED_COLLECTION_ID,
        };
        let url = self.url_with_id("/raindrops/", collection_id, "");
        proof {
            reveal_strlit("");
        }
        assert(url@ =~= self.at("/raindrops/"@) + decimal(collection_id as int));
        assert(pairs_model(q@) =~= search_query(*params));
        ApiRequest { method: HttpMethod::Get, url, query: q, body: None }
    }

    /// Fetches the bookmark `id`.
    pub fn get_bookmark(&self, id: i64) -> (r: ApiRequest)
        ensures
            r@ == (RequestModel {
                method: HttpMethod::Get,
                url: self.at("/raindrop/"@) + decimal(id as int),
                query: seq![],
                body: None,
            }),
    {
        let url = self.url_with_id("/raindrop/", id, "");
        proof {
            reveal_strlit("");
        }
        assert(url@ =~= self.at("/raindrop/"@) + decimal(id as int));
        self.get(url)
    }

    /// Saves `link` into the collection `collection_id` (the unsorted
    /// bookmarks when none is given), with the optional fields that are given.
    pub fn create_bookmark(
        &self,
        link: String,
        collection_id: Option<i64>,
        title: Option<String>,
        excerpt: Option<String>,
        tags: Option<Vec<String>>,
        important: Option<bool>,
    ) -> (r: ApiRequest)
        ensures
            r@ == (RequestModel {
                method: HttpMethod::Post,
                url: self.at("/raindrop"@),
                query: seq![],
                body: Some(
                    JsonModel::Object(
                        Seq::empty() + entry::<String>("link"@, link) + entry::<CollectionRef>(
                            "collection"@,
                            CollectionRef {
                                id: match collection_id {
                                    Some(c) => c,
                                    None => UNSORTED_COLLECTION_ID,
                                },
                            },
                        ) + skip_entry::<String>("title"@, title) + skip_entry::<String>(
                            "excerpt"@,
                            excerpt,
                        ) + skip_entry::<Vec<String>>("tags"@, tags) + skip_entry::<bool>(
                            "important"@,
                            important,
                        ),
                    ),
                ),
            }),
    {
        let mut fields = no_fields();
        push_field::<String>(&mut fields, "link", &link);
        let collection = CollectionRef {
            id: match collection_id {
                Some(c) => c,
                None => UNSORTED_COLLECTION_ID,
            },
        };
        push_field::<CollectionRef>(&mut fields, "collection", &collection);
        push_skip::<String>(&mut fields, "title", &title);
        push_skip::<String>(&mut fields, "excerpt", &excerpt);
        push_skip::<Vec<String>>(&mut fields, "tags", &tags);
        push_skip::<bool>(&mut fields, "important", &important);
        self.send(HttpMethod::Post, self.url("/raindrop"), Some(object(fields)))
    }

    /// Updates the bookmark `id` with the fields given in `updates` only.
    pub fn update_bookmark(&self, id: i64, updates: &BookmarkUpdate) -> (r: ApiRequest)
        ensures
            r@ == (RequestModel {
                method: HttpMethod::Put,
                url: self.at("/raindrop/"@) + decimal(id as int),
                query: seq![],
                body: Some(BookmarkUpdate::wire_of(*updates)),
            }),
    {
        let url = self.url_with_id("/raindrop/", id, "");
        proof {
            reveal_strlit("");
        }
        assert(url@ =~= self.at("/raindrop/"@) + decimal(id as int));
        self.send(HttpMethod::Put, url, Some(updates.encode()))
    }

    /// Deletes the bookmark `id`: erased at once when `permanent`, else moved to the trash.
    pub fn delete_bookmark(&self, id: i64, permanent: bool) -> (r: ApiRequest)
        ensures
            r@ == (RequestModel {
                method: HttpMethod::Delete,
                url: self.at("/raindrop/"@) + decimal(id as int) + if permanent {
                    ""@
                } else {
                    "/trash"@
                },
                query: seq![],
                body: None,
            }),
    {
        let url = if permanent {
            self.url_with_id("/raindrop/", id, "")
        } else {
            self.url_with_id("/raindrop/", id, "/trash")
        };
        self.send(HttpMethod::Delete, url, None)
    }

    /// Applies `updates` to every bookmark in `ids`.
    pub fn batch_update_bookmarks(&self, ids: &Vec<i64>, updates: &BatchUpdate) -> (r: ApiRequest)
        ensures
            r@ == (RequestModel {
                method: HttpMethod::Put,
                url: self.at("/raindrops"@),
                query: seq![],
                body: Some(
                    JsonModel::Object(
                        Seq::empty() + skip_entry::<i64>("collection"@, updates.collection)
                            + skip_entry::<Vec<String>>("tags"@, updates.tags) + skip_entry::<bool>(
                            "important"@,
                            updates.important,
                        ) + entry::<Vec<i64>>("ids"@, *ids),
                    ),
                ),
            }),
    {
        let mut fields = no_fields();
        push_skip::<i64>(&mut fields, "collection", &updates.collection);
        push_skip::<Vec<String>>(&mut fields, "tags", &updates.tags);
        push_skip::<bool>(&mut fields, "important", &updates.important);
        push_field::<Vec<i64>>(&mut fields, "ids", ids);
        self.send(HttpMethod::Put, self.url("/raindrops"), Some(object(fields)))
    }

    /// Deletes every bookmark in `ids`: erased at once when `permanent`, else
    /// moved to the trash.
    pub fn batch_delete_bookmarks(&self, ids: &Vec<i64>, permanent: bool) -> (r: ApiRequest)
        ensures
            r@ == (RequestModel {
                method: HttpMethod::Delete,
                url: self.at(
                    if permanent {
                        "/raindrops"@
                    } else {
                        "/raindrops/trash"@
                    },
                ),
                query: seq![],
                body: Some(JsonModel::Object(Seq::empty() + entry::<Vec<i64>>("ids"@, *ids))),
            }),
    {
        let mut fields = no_fields();
        push_field::<Vec<i64>>(&mut fields, "ids", ids);
        let url = if permanent {
            self.url("/raindrops")
        } else {
            self.url("/raindrops/trash")
        };
        self.send(HttpMethod::Delete, url, Some(object(fields)))
    }

    /// Lists the tags of the collection `collection_id`, or of all bookmarks.
    pub fn get_tags(&self, collection_id: Option<i64>) -> (r: ApiRequest)
        ensures
            r@ == (RequestModel {
                method: HttpMethod::Get,
                url: self.scoped("/tags"@, collection_id),
                query: seq![],
                body: None,
            }),
    {
        self.get(self.scoped_url("/tags", collection_id))
    }

    /// Renames the tag `old_name` to `new_name`, in one collection or everywhere.
    pub fn rename_tag(&self, old_name: String, new_name: String, collection_id: Option<i64>) -> (r:
        ApiRequest)
        ensures
            r@ == (RequestModel {
                method: HttpMethod::Put,
                url: self.scoped("/tags"@, collection_id),
                query: seq![],
                body: Some(
                    JsonModel::Object(
                        Seq::empty() + entry::<String>("replace"@, old_name) + entry::<String>(
                            "tag"@,
                            new_name,
                        ),
                    ),
                ),
            }),
    {
        let mut fields = no_fields();
        push_field::<String>(&mut fields, "replace", &old_name);
        push_field::<String>(&mut fields, "tag", &new_name);
        self.send(HttpMethod::Put, self.scoped_url("/tags", collection_id), Some(object(fields)))
    }

    /// Removes the tags named in `tags`, in one collection or everywhere.
    pub fn delete_tags(&self, tags: Vec<String>, collection_id: Option<i64>) -> (r: ApiRequest)
        ensures
            r@ == (RequestModel {
                method: HttpMethod::Delete,
                url: self.scoped("/tags"@, collection_id),
                query: seq![],
                body: Some(JsonModel::Object(Seq::empty() + entry::<Vec<String>>("tags"@, tags))),
            }),
    {
        let mut fields = no_fields();
        push_field::<Vec<String>>(&mut fields, "tags", &tags);
        self.send(HttpMethod::Delete, self.scoped_url("/tags", collection_id), Some(object(fields)))
    }

    /// Lists the highlights of the bookmark `raindrop_id`.
    pub fn get_highlights(&self, raindrop_id: i64) -> (r: ApiRequest)
        ensures
            r@ == (RequestModel {
                method: HttpMethod::Get,
                url: self.at("/raindrop/"@) + decimal(raindrop_id as int) + "/highlights"@,
                query: seq![],
                body: None,
            }),
    {
        self.get(self.url_with_id("/raindrop/", raindrop_id, "/highlights"))
    }

    /// Lists the highlights of all bookmarks, a page at a time.
    pub fn get_all_highlights(&self, page: Option<i32>, per_page: Option<i32>) -> (r: ApiRequest)
        ensures
            r@ == (RequestModel {
                method: HttpMethod::Get,
                url: self.at("/highlights"@),
                query: Seq::empty() + opt_pair("page"@, opt_decimal32(page)) + opt_pair(
                    "perpage"@,
                    opt_decimal32(per_page),
                ),
                body: None,
            }),
    {
        let mut q = no_query();
        push_opt_pair(&mut q, "page", opt_decimal32_text(page));
        push_opt_pair(&mut q, "perpage", opt_decimal32_text(per_page));
        ApiRequest { method: HttpMethod::Get, url: self.url("/highlights"), query: q, body: None }
    }

    /// Fetches the account of the token's owner.
    pub fn get_user_info(&self) -> (r: ApiRequest)
        ensures
            r@ == (RequestModel {
                method: HttpMethod::Get,
                url: self.at("/user"@),
                query: seq![],
                body: None,
            }),
    {
        self.get(self.url("/user"))
    }

    /// Fetches statistics of the collection `collection_id`, or of the account.
    pub fn get_user_stats(&self, collection_id: Option<i64>) -> (r: ApiRequest)
        ensures
            r@ == (RequestModel {
                method: HttpMethod::Get,
                url: match collection_id {
                    Some(id) => self.at("/stats/collection/"@) + decimal(id as int),
                    None => self.at("/user/stats"@),
                },
                query: seq![],
                body: None,
            }),
    {
        let url = match collection_id {
            Some(id) => {
                let u = self.url_with_id("/stats/collection/", id, "");
                proof {
                    reveal_strlit("");
                }
                assert(u@ =~= self.at("/stats/collection/"@) + decimal(id as int));
                u
            },
            None => self.url("/user/stats"),
        };
        self.get(url)
    }

    /// Erases every bookmark in the trash.
    pub fn empty_trash(&self) -> (r: ApiRequest)
        ensures
            r@ == (RequestModel {
                method: HttpMethod::Delete,
                url: self.at("/raindrops/"@) + decimal(TRASH_COLLECTION_ID as int),
                query: seq![],
                body: None,
            }),
    {
        let url = self.url_with_id("/raindrops/", TRASH_COLLECTION_ID, "");
        proof {
            reveal_strlit("");
        }
        assert(url@ =~= self.at("/raindrops/"@) + decimal(TRASH_COLLECTION_ID as int));
        self.send(HttpMethod::Delete, url, None)
    }

    /// Starts an export described by `options`.
    pub fn export_bookmarks(&self, options: &ExportOptions) -> (r: ApiRequest)
        ensures
            r@ == (RequestModel {
                method: HttpMethod::Post,
                url: self.at("/export"@),
                query: seq![],
                body: Some(ExportOptions::wire_of(*options)),
            }),
    {
        self.send(HttpMethod::Post, self.url("/export"), Some(options.encode()))
    }

    /// Fetches the progress of the current import.
    pub fn get_import_status(&self) -> (r: ApiRequest)
        ensures
            r@ == (RequestModel {
                method: HttpMethod::Get,
                url: self.at("/import"@),
                query: seq![],
                body: None,
            }),
    {
        self.get(self.url("/import"))
    }

    /// Fetches the progress of the current export.
    pub fn get_export_status(&self) -> (r: ApiRequest)
        ensures
            r@ == (RequestModel {
                method: HttpMethod::Get,
                url: self.at("/export"@),
                query: seq![],
                body: None,
            }),
    {
        self.get(self.url("/export"))
    }
}

} // verus!

