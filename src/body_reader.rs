//! The reader that wraps a response body with the response's headers, and
//! the error that a read or a decode of it gives.

use vstd::prelude::*;

verus! {

/// The `http` crate's response: its head and its body.
#[verifier::external_type_specification]
#[verifier::external_body]
#[verifier::reject_recursive_types(T)]
pub struct ExResponse<T>(http::Response<T>);

/// Relies on http::Response::into_parts: splits the response into its head,
/// whose headers are kept, and its body.
#[verifier::external_body]
fn split_response<B>(response: http::Response<B>) -> (r: (http::HeaderMap, B)) {
    let (parts, body) = response.into_parts();
    (parts.headers, body)
}

/// Relies on std's Display impl of `T`: the text it writes.
#[verifier::external_body]
fn display_text<T: std::fmt::Display>(value: &T) -> (r: String) {
    value.to_string()
}

/// Wraps a response body, with the response's headers, for reading it whole.
#[derive(Debug, Clone)]
pub struct BodyReader<B> {
    body: B,
    headers: http::HeaderMap,
}

/// Why reading a body failed.
#[derive(Debug)]
pub enum BodyReaderError<E, D> {
    /// An error occurred while reading the body.
    Read(E),
    /// An error occurred while decoding the body content.
    Decode(D),
}

impl<E, D> BodyReaderError<E, D> {
    /// The text of the error that occurred, as that error displays itself.
    pub fn to_string(&self) -> String
        where
            E: std::fmt::Display,
            D: std::fmt::Display,
    {
        match self {
            BodyReaderError::Read(e) => display_text(e),
            BodyReaderError::Decode(d) => display_text(d),
        }
    }
}

impl<B> BodyReader<B> {
    /// The wrapped body.
    pub closed spec fn body(&self) -> B {
        self.body
    }

    /// The headers of the response that the body came with.
    pub closed spec fn headers(&self) -> http::HeaderMap {
        self.headers
    }

    /// Splits a response into its headers and its body.
    pub fn from_response(response: http::Response<B>) -> (r: BodyReader<B>) {
        let (headers, body) = split_response(response);
        BodyReader { body, headers }
    }

    /// Hands over the wrapped body, to be drained.
    pub fn into_body(self) -> (r: B)
        ensures
            r == self.body(),
    {
        self.body
    }

    /// Replaces the body by what `f` makes of it; the headers stay as they are.
    pub fn map<F, T>(self, f: F) -> (r: BodyReader<T>)
        where
            F: FnOnce(B) -> T,
        requires
            f.requires((self.body(),)),
        ensures
            f.ensures((self.body(),), r.body()),
            r.headers() == self.headers(),
    {
        BodyReader { body: f(self.body), headers: self.headers }
    }
}

impl<B> From<http::Response<B>> for BodyReader<B> {
    fn from(response: http::Response<B>) -> (r: BodyReader<B>) {
        BodyReader::from_response(response)
    }
}

impl<B> vstd::std_specs::convert::FromSpecImpl<http::Response<B>> for BodyReader<B> {
    /// A response is opaque here, so no reader is named as its conversion.
    open spec fn obeys_from_spec() -> bool {
        false
    }

    open spec fn from_spec(v: http::Response<B>) -> BodyReader<B> {
        arbitrary()
    }
}

/// Turns a response into a reader of its body.
pub trait ResponseExt<T>: Sized {
    /// Consumes the response and returns a body reader wrapper.
    fn body_reader(self) -> BodyReader<T>;
}

impl<T> ResponseExt<T> for http::Response<T> {
    fn body_reader(self) -> BodyReader<T> {
        BodyReader::from_response(self)
    }
}

} // verus!
