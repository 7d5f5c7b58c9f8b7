use crate::error::{Error, ErrorKind};
use crate::headers::{HeaderName, HeaderValue, Headers};
use crate::json::{from_json, json_accepts, json_value_of};
use crate::stream::BytesStream;
use vstd::prelude::*;

verus! {

/// What a response stands for: its status, its headers and the bytes of its
/// body that have not been read yet.
pub ghost struct ResponseView {
    pub status: u16,
    pub headers: Map<Seq<char>, Seq<char>>,
    pub body: Seq<u8>,
}

/// A response body: a lazy sequence of byte chunks, read at most once.
#[derive(Debug)]
pub struct ResponseBody(BytesStream);

impl View for ResponseBody {
    type V = Seq<u8>;

    closed spec fn view(&self) -> Seq<u8> {
        self.0.remaining()
    }
}

impl ResponseBody {
    /// A body that reads from `stream`.
    pub fn new(stream: BytesStream) -> (r: ResponseBody)
        ensures
            r@ == stream.remaining(),
    {
        ResponseBody(stream)
    }

    /// Drains every chunk into one buffer.
    pub fn collect(self) -> (r: Result<Vec<u8>, Error>)
        ensures
            r is Ok && r->Ok_0@ == self@,
    {
        let mut stream = self.0;
        let mut result: Vec<u8> = Vec::new();
        loop
            invariant
                result@ + stream.remaining() == self@,
            ensures
                result@ == self@,
            decreases stream.remaining().len(),
        {
            let ghost before = stream.remaining();
            match stream.next_chunk() {
                Some(mut chunk) => {
                    result.append(&mut chunk);
                },
                None => {
                    assert(result@ + stream.remaining() == result@);
                    break ;
                },
            }
            assert(before.len() > 0);
        }
        Ok(result)
    }

    /// Drains the body and decodes it as JSON. Malformed bytes are a
    /// `DataConversion` error.
    pub fn json(self) -> (r: Result<serde_json::Value, Error>)
        ensures
            r is Ok == json_accepts(self@),
            r is Ok ==> r->Ok_0 == json_value_of(self@),
            r is Err ==> r->Err_0.kind_spec() == ErrorKind::DataConversion,
    {
        match self.collect() {
            Ok(bytes) => from_json(bytes.as_slice()),
            Err(e) => Err(e),
        }
    }
}

/// An HTTP response whose body has not been read yet.
#[derive(Debug)]
pub struct Response {
    status: u16,
    headers: Headers,
    body: ResponseBody,
}

impl View for Response {
    type V = ResponseView;

    closed spec fn view(&self) -> ResponseView {
        ResponseView { status: self.status, headers: self.headers@, body: self.body@ }
    }
}

impl Response {
    pub fn new(status: u16, headers: Headers, stream: BytesStream) -> (r: Response)
        ensures
            r@ == (ResponseView { status, headers: headers@, body: stream.remaining() }),
    {
        Response { status, headers, body: ResponseBody::new(stream) }
    }

    pub fn status(&self) -> (r: u16)
        ensures
            r == self@.status,
    {
        self.status
    }

    pub fn headers(&self) -> (r: &Headers)
        ensures
            r@ == self@.headers,
    {
        &self.headers
    }

    /// Stores a header on the response, replacing one of the same name.
    pub fn insert_header(&mut self, key: HeaderName, value: HeaderValue)
        ensures
            final(self)@ == (ResponseView {
                headers: old(self)@.headers.insert(key@, value@),
                ..old(self)@
            }),
    {
        self.headers.insert(key, value);
    }

    /// The status, the headers and the body, taken apart.
    pub fn deconstruct(self) -> (r: (u16, Headers, ResponseBody))
        ensures
            r.0 == self@.status,
            r.1@ == self@.headers,
            r.2@ == self@.body,
    {
        (self.status, self.headers, self.body)
    }

    pub fn into_body(self) -> (r: ResponseBody)
        ensures
            r@ == self@.body,
    {
        self.body
    }

    /// Reads the body and decodes it as JSON. Malformed bytes are a
    /// `DataConversion` error.
    pub fn json(self) -> (r: Result<serde_json::Value, Error>)
        ensures
            r is Ok == json_accepts(self@.body),
            r is Ok ==> r->Ok_0 == json_value_of(self@.body),
            r is Err ==> r->Err_0.kind_spec() == ErrorKind::DataConversion,
    {
        self.into_body().json()
    }
}

/// A response whose body has been read into memory.
#[derive(Debug)]
pub struct CollectedResponse {
    status: u16,
    headers: Headers,
    body: Vec<u8>,
}

impl View for CollectedResponse {
    type V = ResponseView;

    closed spec fn view(&self) -> ResponseView {
        ResponseView { status: self.status, headers: self.headers@, body: self.body@ }
    }
}

impl CollectedResponse {
    pub fn new(status: u16, headers: Headers, body: Vec<u8>) -> (r: CollectedResponse)
        ensures
            r@ == (ResponseView { status, headers: headers@, body: body@ }),
    {
        CollectedResponse { status, headers, body }
    }

    pub fn status(&self) -> (r: u16)
        ensures
            r == self@.status,
    {
        self.status
    }

    pub fn headers(&self) -> (r: &Headers)
        ensures
            r@ == self@.headers,
    {
        &self.headers
    }

    pub fn body(&self) -> (r: &Vec<u8>)
        ensures
            r@ == self@.body,
    {
        &self.body
    }

    /// Reads the whole body of `response`.
    pub fn from_response(response: Response) -> (r: Result<CollectedResponse, Error>)
        ensures
            r is Ok && r->Ok_0@ == response@,
    {
        let (status, headers, body) = response.deconstruct();
        match body.collect() {
            Ok(bytes) => Ok(CollectedResponse::new(status, headers, bytes)),
            Err(e) => Err(e),
        }
    }

    /// Decodes the body as JSON: it succeeds exactly where the decoder accepts
    /// the bytes; bytes it rejects are a `DataConversion` error.
    pub fn json(&self) -> (r: Result<serde_json::Value, Error>)
        ensures
            r is Ok == json_accepts(self@.body),
            r is Ok ==> r->Ok_0 == json_value_of(self@.body),
            r is Err ==> r->Err_0.kind_spec() == ErrorKind::DataConversion,
    {
        from_json(self.body.as_slice())
    }
}

/// A typed result that can hand back the response it was decoded from.
pub trait RawResponse {
    fn raw_response(self) -> Option<CollectedResponse>;
}

} // verus!
