//! Decoding a fully read body: as UTF-8 text, as JSON, or as URL-encoded
//! form data. A read error passes through as `Read`; a decoder's error comes
//! out as `Decode`.

use vstd::prelude::*;
use vstd::utf8::{decode_utf8, decode_utf8_encode_utf8, encode_utf8, valid_utf8};

use crate::body_reader::BodyReaderError;

verus! {

/// std's error for bytes that are not UTF-8.
#[verifier::external_type_specification]
#[verifier::external_body]
pub struct ExFromUtf8Error(std::string::FromUtf8Error);

/// serde_json's error for input that is not JSON or does not fit the target type.
#[verifier::external_type_specification]
#[verifier::external_body]
pub struct ExJsonError(serde_json::Error);

/// serde_urlencoded's error for form data that does not fit the target type.
#[verifier::external_type_specification]
#[verifier::external_body]
pub struct ExFormError(serde_urlencoded::de::Error);

/// Relies on String::from_utf8: it succeeds exactly on valid UTF-8 and the
/// string then holds the characters that the bytes encode.
#[verifier::external_body]
fn string_from_utf8(bytes: Vec<u8>) -> (r: Result<String, std::string::FromUtf8Error>)
    ensures
        r is Ok <==> valid_utf8(bytes@),
        r matches Ok(s) ==> s@ == decode_utf8(bytes@),
{
    String::from_utf8(bytes)
}

/// Relies on serde_json::from_slice: parses the bytes as JSON into a `T`.
/// What it yields depends on `T`'s Deserialize impl; nothing is stated of it.
#[verifier::external_body]
fn json_from_slice<T: serde::de::DeserializeOwned>(bytes: &[u8]) -> (r: Result<T, serde_json::Error>) {
    serde_json::from_slice(bytes)
}

/// Relies on serde_urlencoded::from_bytes: parses the bytes as form data into
/// a `T`. What it yields depends on `T`'s Deserialize impl; nothing is stated
/// of it.
#[verifier::external_body]
fn form_from_bytes<T: serde::de::DeserializeOwned>(bytes: &[u8]) -> (r: Result<T, serde_urlencoded::de::Error>) {
    serde_urlencoded::from_bytes(bytes)
}

/// Attributes a decoder's outcome: its value is kept, its error becomes a
/// `Decode` error.
pub fn decoded<E, T, D>(outcome: Result<T, D>) -> (r: Result<T, BodyReaderError<E, D>>)
    ensures
        match outcome {
            Ok(t) => r matches Ok(x) && x == t,
            Err(d) => r matches Err(BodyReaderError::Decode(x)) && x == d,
        },
{
    match outcome {
        Ok(t) => Ok(t),
        Err(d) => Err(BodyReaderError::Decode(d)),
    }
}

/// The body's text. A read error is a `Read` error; bytes that are not UTF-8
/// give a `Decode` error; otherwise the text is the one whose UTF-8 encoding
/// is exactly the body.
pub fn utf8_of<E>(read: Result<Vec<u8>, E>) -> (r: Result<String, BodyReaderError<E, std::string::FromUtf8Error>>)
    ensures
        match read {
            Err(e) => r matches Err(BodyReaderError::Read(x)) && x == e,
            Ok(b) => {
                &&& r is Ok <==> valid_utf8(b@)
                &&& r matches Ok(s) ==> encode_utf8(s@) == b@ && s@ == decode_utf8(b@)
                &&& r is Err ==> r matches Err(BodyReaderError::Decode(_))
            },
        },
{
    match read {
        Err(e) => Err(BodyReaderError::Read(e)),
        Ok(b) => {
            let ghost bytes = b@;
            let text = string_from_utf8(b);
            proof {
                if valid_utf8(bytes) {
                    decode_utf8_encode_utf8(bytes);
                }
            }
            decoded(text)
        },
    }
}

/// The body deserialized from JSON. A read error is a `Read` error and the
/// JSON decoder is not run; otherwise its outcome is returned, its error as a
/// `Decode` error.
pub fn json_of<E, T: serde::de::DeserializeOwned>(read: Result<Vec<u8>, E>) -> (r: Result<T, BodyReaderError<E, serde_json::Error>>)
    ensures
        match read {
            Err(e) => r matches Err(BodyReaderError::Read(x)) && x == e,
            Ok(_) => !(r matches Err(BodyReaderError::Read(_))),
        },
{
    match read {
        Err(e) => Err(BodyReaderError::Read(e)),
        Ok(b) => decoded(json_from_slice(b.as_slice())),
    }
}

/// The body deserialized from URL-encoded form data. A read error is a `Read`
/// error and the form decoder is not run; otherwise its outcome is returned,
/// its error as a `Decode` error.
pub fn form_of<E, T: serde::de::DeserializeOwned>(read: Result<Vec<u8>, E>) -> (r: Result<T, BodyReaderError<E, serde_urlencoded::de::Error>>)
    ensures
        match read {
            Err(e) => r matches Err(BodyReaderError::Read(x)) && x == e,
            Ok(_) => !(r matches Err(BodyReaderError::Read(_))),
        },
{
    match read {
        Err(e) => Err(BodyReaderError::Read(e)),
        Ok(b) => decoded(form_from_bytes(b.as_slice())),
    }
}

} // verus!
