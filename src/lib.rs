//! Error taxonomy of an object-storage protocol server.
//!
//! Every failure met while a request is handled is one value of
//! [`S3Error`]: a failure of the backend's own kind, a request that could
//! not be parsed, a result that could not be encoded, an unclassified
//! storage failure, or an operation that is not supported.

mod error;
mod laws;
mod message;
mod output;
mod path;
mod request;
mod storage;

pub use error::{
    invalid_output_label, invalid_request_label, not_supported_text, operation_label,
    storage_label, Cause, S3Error, S3Result,
};
pub use message::{after, join, lemma_label_then, ErrorMessage, Never};
pub use output::{header_name_text, header_value_text, xml_writer_prefix, InvalidOutputError};
pub use path::ParseS3PathError;
pub use request::InvalidRequestError;
pub use storage::StorageError;
pub use laws::{
    lemma_cause_round_trip, lemma_conversions_exclusive, lemma_not_supported,
    lemma_operation_renders, lemma_output_failure_renders, lemma_path_failure_renders,
};
