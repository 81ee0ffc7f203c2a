use vstd::prelude::*;
use crate::message::ErrorMessage;
use crate::path::ParseS3PathError;

verus! {

/// A request that could not be parsed or validated.
///
/// It renders as the failure it wraps, with nothing added.
#[derive(Debug)]
pub enum InvalidRequestError {
    /// The request path could not be parsed.
    ParsePath(ParseS3PathError),
}

impl ErrorMessage for InvalidRequestError {
    open spec fn renders_as(&self, text: Seq<char>) -> bool {
        match self {
            InvalidRequestError::ParsePath(p) => p.renders_as(text),
        }
    }

    fn message(&self) -> (r: String) {
        match self {
            InvalidRequestError::ParsePath(p) => p.message(),
        }
    }
}

impl From<ParseS3PathError> for InvalidRequestError {
    fn from(p: ParseS3PathError) -> (r: Self)
        ensures
            r == InvalidRequestError::ParsePath(p),
    {
        InvalidRequestError::ParsePath(p)
    }
}

impl vstd::std_specs::convert::FromSpecImpl<ParseS3PathError> for InvalidRequestError {
    open spec fn obeys_from_spec() -> bool {
        true
    }

    open spec fn from_spec(p: ParseS3PathError) -> Self {
        InvalidRequestError::ParsePath(p)
    }
}

} // verus!
