use crate::error::Error;
use crate::headers::{insert_all, pair_views, AsHeaders, HeaderName, HeaderValue, Headers};
use crate::json::{json_bytes_of, to_json};
use crate::request_content::RequestContent;
use vstd::prelude::*;
use vstd::string::*;

verus! {

#[verifier::external_type_specification]
#[verifier::external_body]
pub struct ExUrl(url::Url);

/// Relies on `url::Url::path`: the URL's path, percent-encoded, which depends
/// on the URL alone.
pub uninterp spec fn url_path_of(url: url::Url) -> Seq<char>;

/// Relies on `url::Url::query`: the URL's query, without the `?`, where it
/// has one; it depends on the URL alone.
pub uninterp spec fn url_query_of(url: url::Url) -> Option<Seq<char>>;

/// Relies on `url::Url::path`: the URL's path, percent-encoded.
#[verifier::external_body]
fn url_path(url: &url::Url) -> (r: String)
    ensures
        r@ == url_path_of(*url),
{
    url.path().to_owned()
}

/// Relies on `url::Url::query`: the URL's query, without the `?`, if it has one.
#[verifier::external_body]
fn url_query(url: &url::Url) -> (r: Option<String>)
    ensures
        match r {
            Some(q) => url_query_of(*url) == Some(q@),
            None => url_query_of(*url) is None,
        },
{
    url.query().map(|q| q.to_owned())
}

/// A request body.
#[derive(Clone, Debug)]
pub enum Body {
    Bytes(Vec<u8>),
}

impl View for Body {
    type V = Seq<u8>;

    open spec fn view(&self) -> Seq<u8> {
        match self {
            Body::Bytes(b) => b@,
        }
    }
}

impl Body {
    pub fn len(&self) -> (r: usize)
        ensures
            r == self@.len(),
    {
        match self {
            Body::Bytes(b) => b.len(),
        }
    }

    pub fn is_empty(&self) -> (r: bool)
        ensures
            r == (self@.len() == 0),
    {
        self.len() == 0
    }
}

impl From<Vec<u8>> for Body {
    fn from(bytes: Vec<u8>) -> (r: Body) {
        Body::Bytes(bytes)
    }
}

impl vstd::std_specs::convert::FromSpecImpl<Vec<u8>> for Body {
    open spec fn obeys_from_spec() -> bool {
        true
    }

    open spec fn from_spec(bytes: Vec<u8>) -> Body {
        Body::Bytes(bytes)
    }
}

impl<T> From<RequestContent<T>> for Body {
    fn from(content: RequestContent<T>) -> (r: Body) {
        Body::Bytes(content.into_bytes())
    }
}

impl<T> vstd::std_specs::convert::FromSpecImpl<RequestContent<T>> for Body {
    open spec fn obeys_from_spec() -> bool {
        false
    }

    open spec fn from_spec(content: RequestContent<T>) -> Body {
        arbitrary()
    }
}

/// What a request stands for.
pub ghost struct RequestView {
    pub url: url::Url,
    pub method: Seq<char>,
    pub headers: Map<Seq<char>, Seq<char>>,
    pub body: Seq<u8>,
}

/// The path followed by `?` and the query, where there is a query.
pub open spec fn path_and_query_text(path: Seq<char>, query: Option<Seq<char>>) -> Seq<char> {
    match query {
        Some(q) => path + "?"@ + q,
        None => path,
    }
}

/// Joins a path and an optional query as they stand in a request line.
pub fn join_path_and_query(path: &str, query: Option<&str>) -> (r: String)
    ensures
        r@ == path_and_query_text(
            path@,
            match query {
                Some(q) => Some(q@),
                None => None,
            },
        ),
{
    proof {
        reveal_strlit("?");
    }
    let mut result = path.to_owned();
    match query {
        Some(q) => {
            result.append("?");
            result.append(q);
        },
        None => {},
    }
    result
}

/// An outbound HTTP request: method, URL, headers and body.
#[derive(Debug)]
pub struct Request {
    url: url::Url,
    method: &'static str,
    headers: Headers,
    body: Body,
}

impl View for Request {
    type V = RequestView;

    closed spec fn view(&self) -> RequestView {
        RequestView { url: self.url, method: self.method@, headers: self.headers@, body: self.body@ }
    }
}

impl Request {
    /// A request with no headers and an empty body.
    pub fn new(url: url::Url, method: &'static str) -> (r: Request)
        ensures
            r@ == (RequestView {
                url,
                method: method@,
                headers: Map::empty(),
                body: Seq::empty(),
            }),
    {
        Request { url, method, headers: Headers::new(), body: Body::Bytes(Vec::new()) }
    }

    pub fn url(&self) -> (r: &url::Url)
        ensures
            *r == self@.url,
    {
        &self.url
    }

    /// The URL's path, then `?` and its query where it has one.
    pub fn path_and_query(&self) -> (r: String)
        ensures
            r@ == path_and_query_text(url_path_of(self@.url), url_query_of(self@.url)),
    {
        let path = url_path(&self.url);
        let query = url_query(&self.url);
        match &query {
            Some(q) => join_path_and_query(path.as_str(), Some(q.as_str())),
            None => join_path_and_query(path.as_str(), None),
        }
    }

    pub fn method(&self) -> (r: &'static str)
        ensures
            r@ == self@.method,
    {
        self.method
    }

    pub fn headers(&self) -> (r: &Headers)
        ensures
            r@ == self@.headers,
    {
        &self.headers
    }

    /// Stores a header, replacing one of the same name.
    pub fn insert_header(&mut self, key: HeaderName, value: HeaderValue)
        ensures
            final(self)@ == (RequestView {
                headers: old(self)@.headers.insert(key@, value@),
                ..old(self)@
            }),
    {
        self.headers.insert(key, value);
    }

    /// Stores each header that `headers` stands for, in order.
    pub fn insert_headers<T: AsHeaders>(&mut self, headers: &T)
        ensures
            exists|s: Seq<(Seq<char>, Seq<char>)>|
                final(self)@ == (RequestView {
                    headers: #[trigger] insert_all(old(self)@.headers, s),
                    ..old(self)@
                }),
    {
        let pairs = headers.as_headers();
        let ghost s = pair_views(pairs@);
        let ghost before = self@;
        self.headers.insert_pairs(pairs);
        assert(self@ == (RequestView { headers: insert_all(before.headers, s), ..before }));
    }

    pub fn body(&self) -> (r: &Body)
        ensures
            r@ == self@.body,
    {
        &self.body
    }

    pub fn set_body(&mut self, body: Body)
        ensures
            final(self)@ == (RequestView { body: body@, ..old(self)@ }),
    {
        self.body = body;
    }

    /// Makes the JSON encoding of `data` the body.
    pub fn set_json(&mut self, data: &serde_json::Value) -> (r: Result<(), Error>)
        ensures
            r is Ok,
            final(self)@ == (RequestView { body: json_bytes_of(*data), ..old(self)@ }),
    {
        match to_json(data) {
            Ok(bytes) => {
                self.set_body(Body::Bytes(bytes));
                Ok(())
            },
            Err(e) => Err(e),
        }
    }
}

} // verus!
