use vstd::prelude::*;
use vstd::std_specs::convert::FromSpec;
use crate::error::{
    invalid_output_label, invalid_request_label, not_supported_text, operation_label, Cause,
    S3Error,
};
use crate::message::{after, lemma_label_then, ErrorMessage};
use crate::output::{header_name_text, header_value_text, xml_writer_prefix, InvalidOutputError};
use crate::path::ParseS3PathError;
use crate::request::InvalidRequestError;
use hyper::header::{InvalidHeaderName, InvalidHeaderValue};

verus! {

/// A path failure, converted into a request failure and wrapped as
/// `InvalidRequest`, renders as "Invalid request: " followed by the path
/// failure's own message, and its cause is the request failure, which renders
/// as the path failure does.
pub proof fn lemma_path_failure_renders<E: ErrorMessage>(p: ParseS3PathError, text: Seq<char>)
    ensures
        ({
            let r = <InvalidRequestError as FromSpec<ParseS3PathError>>::from_spec(p);
            &&& r == InvalidRequestError::ParsePath(p)
            &&& S3Error::<E>::InvalidRequest(r).renders_as(text) <==> text
                == invalid_request_label() + p.message@
            &&& S3Error::<E>::InvalidRequest(r).cause() == Some(Cause::<E>::InvalidRequest(&r))
            &&& r.renders_as(text) <==> p.renders_as(text)
        }),
{
    lemma_label_then(invalid_request_label(), text, p.message@);
}

/// A failure to build a response, wrapped as `InvalidOutput`, renders as
/// "Invalid output: " followed by the failure's own rendering, and has that
/// failure as its cause. For an invalid header name or value that rendering is
/// one fixed text.
pub proof fn lemma_output_failure_renders<E: ErrorMessage>(o: InvalidOutputError, text: Seq<char>)
    ensures
        S3Error::<E>::InvalidOutput(o).renders_as(text) <==> (invalid_output_label().is_prefix_of(
            text,
        ) && o.renders_as(after(invalid_output_label(), text))),
        S3Error::<E>::InvalidOutput(o).cause() == Some(Cause::<E>::InvalidOutput(&o)),
        o is InvalidHeaderName ==> (S3Error::<E>::InvalidOutput(o).renders_as(text) <==> text
            == invalid_output_label() + header_name_text()),
        o is InvalidHeaderValue ==> (S3Error::<E>::InvalidOutput(o).renders_as(text) <==> text
            == invalid_output_label() + header_value_text()),
        o is XmlWriter ==> (S3Error::<E>::InvalidOutput(o).renders_as(text) <==> (
        invalid_output_label() + xml_writer_prefix()).is_prefix_of(text)),
{
    lemma_label_then(invalid_output_label(), text, header_name_text());
    lemma_label_then(invalid_output_label(), text, header_value_text());
    let l = invalid_output_label();
    let x = xml_writer_prefix();
    if o is XmlWriter {
        if l.is_prefix_of(text) && x.is_prefix_of(after(l, text)) {
            assert((l + x) =~= text.subrange(0, (l + x).len() as int));
        }
        if (l + x).is_prefix_of(text) {
            let lx = text.subrange(0, (l + x).len() as int);
            assert(lx == l + x);
            assert forall|i: int| 0 <= i < l.len() implies text[i] == l[i] by {
                assert(lx[i] == (l + x)[i]);
            }
            assert(text.subrange(0, l.len() as int) =~= l);
            assert forall|i: int| 0 <= i < x.len() implies after(l, text)[i] == x[i] by {
                assert(lx[l.len() + i] == (l + x)[l.len() + i]);
            }
            assert(after(l, text).subrange(0, x.len() as int) =~= x);
        }
    }
}

/// A backend error `x` wrapped as `Operation` renders as "Operation: "
/// followed by a rendering of `x`, and nothing else; its cause is `x`.
pub proof fn lemma_operation_renders<E: ErrorMessage>(x: E, text: Seq<char>, c: Seq<char>)
    ensures
        x.renders_as(c) ==> S3Error::Operation(x).renders_as(operation_label() + c),
        S3Error::Operation(x).renders_as(text) ==> text == operation_label() + after(
            operation_label(),
            text,
        ) && x.renders_as(after(operation_label(), text)),
        S3Error::Operation(x).cause() == Some(Cause::Operation(&x)),
{
    lemma_label_then(operation_label(), operation_label() + c, c);
    lemma_label_then(operation_label(), text, after(operation_label(), text));
}

/// `NotSupported` renders as "Not supported" and nothing else, and has no
/// cause, whatever the backend error type.
pub proof fn lemma_not_supported<E: ErrorMessage>(text: Seq<char>)
    ensures
        S3Error::<E>::NotSupported.renders_as(text) <==> text == not_supported_text(),
        S3Error::<E>::NotSupported.cause() is None,
{
}

/// Wrapping loses nothing: a failure other than `NotSupported` renders as its
/// label followed by `c` exactly when its cause, rendered alone, renders as
/// `c`; and each of its renderings is its label followed by a rendering of
/// its cause.
pub proof fn lemma_cause_round_trip<E: ErrorMessage>(e: S3Error<E>, text: Seq<char>, c: Seq<char>)
    requires
        !(e is NotSupported),
    ensures
        e.cause() is Some,
        e.cause().unwrap().renders_as(c) <==> e.renders_as(e.label() + c),
        e.renders_as(text) ==> text == e.label() + after(e.label(), text)
            && e.cause().unwrap().renders_as(after(e.label(), text)),
{
    lemma_label_then(e.label(), e.label() + c, c);
    lemma_label_then(e.label(), text, after(e.label(), text));
}

/// Each failure type that a conversion accepts lands in one variant, and the
/// variants are apart.
pub proof fn lemma_conversions_exclusive(
    p: ParseS3PathError,
    n: InvalidHeaderName,
    v: InvalidHeaderValue,
    x: xml::writer::Error,
)
    ensures
        <InvalidRequestError as FromSpec<ParseS3PathError>>::from_spec(p) is ParsePath,
        ({
            let o = <InvalidOutputError as FromSpec<InvalidHeaderName>>::from_spec(n);
            o is InvalidHeaderName && !(o is InvalidHeaderValue) && !(o is XmlWriter)
        }),
        ({
            let o = <InvalidOutputError as FromSpec<InvalidHeaderValue>>::from_spec(v);
            !(o is InvalidHeaderName) && o is InvalidHeaderValue && !(o is XmlWriter)
        }),
        ({
            let o = <InvalidOutputError as FromSpec<xml::writer::Error>>::from_spec(x);
            !(o is InvalidHeaderName) && !(o is InvalidHeaderValue) && o is XmlWriter
        }),
{
}

} // verus!
