//! The failures that the conversation engine reports.
use vstd::prelude::*;

verus! {

/// Why an operation failed.
#[derive(Clone, Debug)]
pub enum ChatError {
    /// A local image could not be read.
    Io(String),
    /// The bytes of an image carry no magic number that is known.
    UnknownFileType,
    /// The service answered with a status outside 200 to 299.
    Api(u16),
    /// The request did not complete (network failure or timeout).
    Transport(String),
    /// The service answered with no choice.
    EmptyResponse,
    /// The body of a successful reply was not of the expected shape.
    Malformed(String),
}

} // verus!
