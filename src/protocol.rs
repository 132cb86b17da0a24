use vstd::prelude::*;

verus! {

/// One header of a request or a response.
#[derive(Clone, Debug, PartialEq, Eq)]
pub struct HttpHeader {
    pub name: String,
    pub value: String,
}

/// An HTTP request that the host is asked to perform.
#[derive(Clone, Debug, PartialEq, Eq)]
pub struct HttpRequest {
    pub method: String,
    pub url: String,
    pub headers: Vec<HttpHeader>,
    pub body: Vec<u8>,
}

/// What the host got back for an `HttpRequest`.
#[derive(Clone, Debug, PartialEq, Eq)]
pub struct HttpResponse {
    pub status: u16,
    pub headers: Vec<HttpHeader>,
    pub body: Vec<u8>,
}

/// Why the host could not complete an `HttpRequest`.
#[derive(Clone, Debug, PartialEq, Eq)]
pub enum HttpError {
    Url(String),
    Io(String),
    Timeout,
}

/// A request to the host's key-value store.
#[derive(Clone, Debug, PartialEq, Eq)]
pub enum KeyValueOperation {
    Read { key: String },
    Write { key: String, value: Vec<u8> },
}

} // verus!
