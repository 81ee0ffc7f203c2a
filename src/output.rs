use vstd::prelude::*;
use crate::message::ErrorMessage;
use hyper::header::{InvalidHeaderName, InvalidHeaderValue};

verus! {

#[verifier::external_type_specification]
#[verifier::external_body]
pub struct ExInvalidHeaderName(InvalidHeaderName);

#[verifier::external_type_specification]
#[verifier::external_body]
pub struct ExInvalidHeaderValue(InvalidHeaderValue);

#[verifier::external_type_specification]
#[verifier::external_body]
pub struct ExXmlWriterError(xml::writer::Error);

/// How an invalid header name renders.
pub open spec fn header_name_text() -> Seq<char> {
    "invalid HTTP header name"@
}

/// How an invalid header value renders.
pub open spec fn header_value_text() -> Seq<char> {
    "failed to parse header value"@
}

/// What every rendering of an XML writer failure begins with.
pub open spec fn xml_writer_prefix() -> Seq<char> {
    "emitter error: "@
}

/// Relies on the `Display` impl of http's `InvalidHeaderName`, which writes
/// one fixed text.
#[verifier::external_body]
fn header_name_message(e: &InvalidHeaderName) -> (r: String)
    ensures
        r@ == header_name_text(),
{
    e.to_string()
}

/// Relies on the `Display` impl of http's `InvalidHeaderValue`, which writes
/// one fixed text.
#[verifier::external_body]
fn header_value_message(e: &InvalidHeaderValue) -> (r: String)
    ensures
        r@ == header_value_text(),
{
    e.to_string()
}

/// Relies on the `Display` impl of xml-rs's `EmitterError`, which writes a
/// fixed prefix and then a text that depends on the failure.
#[verifier::external_body]
fn xml_writer_message(e: &xml::writer::Error) -> (r: String)
    ensures
        xml_writer_prefix().is_prefix_of(r@),
{
    e.to_string()
}

/// A backend result that could not be turned into a response.
///
/// It renders as the failure it wraps, with nothing added.
#[derive(Debug)]
pub enum InvalidOutputError {
    /// A response header name was invalid.
    InvalidHeaderName(InvalidHeaderName),
    /// A response header value was invalid.
    InvalidHeaderValue(InvalidHeaderValue),
    /// An XML response body could not be written.
    XmlWriter(xml::writer::Error),
}

impl ErrorMessage for InvalidOutputError {
    open spec fn renders_as(&self, text: Seq<char>) -> bool {
        match self {
            InvalidOutputError::InvalidHeaderName(_) => text == header_name_text(),
            InvalidOutputError::InvalidHeaderValue(_) => text == header_value_text(),
            InvalidOutputError::XmlWriter(_) => xml_writer_prefix().is_prefix_of(text),
        }
    }

    fn message(&self) -> (r: String) {
        match self {
            InvalidOutputError::InvalidHeaderName(e) => header_name_message(e),
            InvalidOutputError::InvalidHeaderValue(e) => header_value_message(e),
            InvalidOutputError::XmlWriter(e) => xml_writer_message(e),
        }
    }
}

impl From<InvalidHeaderName> for InvalidOutputError {
    fn from(e: InvalidHeaderName) -> (r: Self)
        ensures
            r == InvalidOutputError::InvalidHeaderName(e),
    {
        InvalidOutputError::InvalidHeaderName(e)
    }
}

impl vstd::std_specs::convert::FromSpecImpl<InvalidHeaderName> for InvalidOutputError {
    open spec fn obeys_from_spec() -> bool {
        true
    }

    open spec fn from_spec(e: InvalidHeaderName) -> Self {
        InvalidOutputError::InvalidHeaderName(e)
    }
}

impl From<InvalidHeaderValue> for InvalidOutputError {
    fn from(e: InvalidHeaderValue) -> (r: Self)
        ensures
            r == InvalidOutputError::InvalidHeaderValue(e),
    {
        InvalidOutputError::InvalidHeaderValue(e)
    }
}

impl vstd::std_specs::convert::FromSpecImpl<InvalidHeaderValue> for InvalidOutputError {
    open spec fn obeys_from_spec() -> bool {
        true
    }

    open spec fn from_spec(e: InvalidHeaderValue) -> Self {
        InvalidOutputError::InvalidHeaderValue(e)
    }
}

impl From<xml::writer::Error> for InvalidOutputError {
    fn from(e: xml::writer::Error) -> (r: Self)
        ensures
            r == InvalidOutputError::XmlWriter(e),
    {
        InvalidOutputError::XmlWriter(e)
    }
}

impl vstd::std_specs::convert::FromSpecImpl<xml::writer::Error> for InvalidOutputError {
    open spec fn obeys_from_spec() -> bool {
        true
    }

    open spec fn from_spec(e: xml::writer::Error) -> Self {
        InvalidOutputError::XmlWriter(e)
    }
}

} // verus!
