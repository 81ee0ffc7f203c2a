use vstd::prelude::*;
use crate::message::{after, join, ErrorMessage, Never};
use crate::output::InvalidOutputError;
use crate::request::InvalidRequestError;
use crate::storage::StorageError;

verus! {

/// Either a value, or the failure that kept an operation from producing it.
pub type S3Result<T, E = Never> = Result<T, S3Error<E>>;

/// A failure met while a storage request was handled, generic over the
/// backend's own error type `E`.
#[derive(Debug)]
pub enum S3Error<E = Never> {
    /// The backend failed in a way of its own while running an operation.
    Operation(E),
    /// The request could not be parsed or validated.
    InvalidRequest(InvalidRequestError),
    /// The backend's result could not be turned into a response.
    InvalidOutput(InvalidOutputError),
    /// The storage failed in a way that has no category of its own.
    Storage(StorageError),
    /// The operation is known but not implemented.
    NotSupported,
}

/// The failure that an [`S3Error`] wraps.
pub enum Cause<'a, E> {
    /// The backend's own error.
    Operation(&'a E),
    /// The request failure.
    InvalidRequest(&'a InvalidRequestError),
    /// The response failure.
    InvalidOutput(&'a InvalidOutputError),
    /// The storage failure.
    Storage(&'a StorageError),
}

impl<'a, E: ErrorMessage> ErrorMessage for Cause<'a, E> {
    open spec fn renders_as(&self, text: Seq<char>) -> bool {
        match *self {
            Cause::Operation(e) => e.renders_as(text),
            Cause::InvalidRequest(e) => e.renders_as(text),
            Cause::InvalidOutput(e) => e.renders_as(text),
            Cause::Storage(e) => e.renders_as(text),
        }
    }

    fn message(&self) -> (r: String) {
        match *self {
            Cause::Operation(e) => e.message(),
            Cause::InvalidRequest(e) => e.message(),
            Cause::InvalidOutput(e) => e.message(),
            Cause::Storage(e) => e.message(),
        }
    }
}

/// The label that a rendering of `Operation` begins with.
pub open spec fn operation_label() -> Seq<char> {
    "Operation: "@
}

/// The label that a rendering of `InvalidRequest` begins with.
pub open spec fn invalid_request_label() -> Seq<char> {
    "Invalid request: "@
}

/// The label that a rendering of `InvalidOutput` begins with.
pub open spec fn invalid_output_label() -> Seq<char> {
    "Invalid output: "@
}

/// The label that a rendering of `Storage` begins with.
pub open spec fn storage_label() -> Seq<char> {
    "Storage: "@
}

/// The whole rendering of `NotSupported`.
pub open spec fn not_supported_text() -> Seq<char> {
    "Not supported"@
}

impl<E> S3Error<E> {
    /// The category label that this failure's rendering begins with: all of
    /// it for `NotSupported`, which wraps nothing.
    pub open spec fn label(&self) -> Seq<char> {
        match self {
            S3Error::Operation(_) => operation_label(),
            S3Error::InvalidRequest(_) => invalid_request_label(),
            S3Error::InvalidOutput(_) => invalid_output_label(),
            S3Error::Storage(_) => storage_label(),
            S3Error::NotSupported => not_supported_text(),
        }
    }

    /// The failure that this one wraps; none for `NotSupported`.
    pub open spec fn cause(&self) -> Option<Cause<'_, E>> {
        match self {
            S3Error::Operation(e) => Some(Cause::Operation(e)),
            S3Error::InvalidRequest(e) => Some(Cause::InvalidRequest(e)),
            S3Error::InvalidOutput(e) => Some(Cause::InvalidOutput(e)),
            S3Error::Storage(e) => Some(Cause::Storage(e)),
            S3Error::NotSupported => None,
        }
    }

    /// The failure that this one wraps; none for `NotSupported`.
    pub fn source(&self) -> (r: Option<Cause<'_, E>>)
        ensures
            r == self.cause(),
    {
        match self {
            S3Error::Operation(e) => Some(Cause::Operation(e)),
            S3Error::InvalidRequest(e) => Some(Cause::InvalidRequest(e)),
            S3Error::InvalidOutput(e) => Some(Cause::InvalidOutput(e)),
            S3Error::Storage(e) => Some(Cause::Storage(e)),
            S3Error::NotSupported => None,
        }
    }

    /// The category label that this failure's rendering begins with.
    pub fn label_text(&self) -> (r: &'static str)
        ensures
            r@ == self.label(),
    {
        match self {
            S3Error::Operation(_) => "Operation: ",
            S3Error::InvalidRequest(_) => "Invalid request: ",
            S3Error::InvalidOutput(_) => "Invalid output: ",
            S3Error::Storage(_) => "Storage: ",
            S3Error::NotSupported => "Not supported",
        }
    }
}

impl<E: ErrorMessage> ErrorMessage for S3Error<E> {
    /// `NotSupported` renders as its label alone; every other failure as its
    /// label followed by a rendering of its cause.
    open spec fn renders_as(&self, text: Seq<char>) -> bool {
        match self.cause() {
            None => text == self.label(),
            Some(c) => self.label().is_prefix_of(text) && c.renders_as(after(self.label(), text)),
        }
    }

    fn message(&self) -> (r: String) {
        let label = self.label_text();
        match self.source() {
            None => String::from_str(label),
            Some(c) => {
                let cause = c.message();
                join(label, cause.as_str())
            },
        }
    }
}

impl<E: ErrorMessage> S3Error<E> {
    /// Renders this failure as text.
    pub fn to_string(&self) -> (r: String)
        ensures
            self.renders_as(r@),
    {
        self.message()
    }
}

} // verus!
