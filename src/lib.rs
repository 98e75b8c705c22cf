//! Reading the body of an HTTP response: drain its frames into one buffer,
//! then decode that buffer as text, JSON or URL-encoded form data.

pub mod body_reader;
pub mod collect;
pub mod decode;

pub use body_reader::{BodyReader, BodyReaderError, ResponseExt};
pub use collect::{drain, BodyEvent, BodyFrame, Collector, Step};
pub use decode::{decoded, form_of, json_of, utf8_of};
