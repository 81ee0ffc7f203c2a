use hyper::header::{HeaderName, HeaderValue};
use s3_error::{
    Cause, ErrorMessage, InvalidOutputError, InvalidRequestError, Never, ParseS3PathError,
    S3Error, S3Result, StorageError,
};

fn no_such_bucket(bucket: &str) -> StorageError {
    StorageError::new(format!("bucket {} does not exist", bucket))
}

fn path_failure() -> ParseS3PathError {
    ParseS3PathError::new("The bucket name is invalid".to_string())
}

fn header_name_failure() -> hyper::header::InvalidHeaderName {
    HeaderName::from_bytes(b"bad name").unwrap_err()
}

fn header_value_failure() -> hyper::header::InvalidHeaderValue {
    HeaderValue::from_str("line\nbreak").unwrap_err()
}

fn xml_failure() -> xml::writer::Error {
    xml::writer::Error::from(std::io::Error::new(std::io::ErrorKind::Other, "disk full"))
}

#[test]
fn path_failure_renders_as_invalid_request() {
    let e: S3Error = S3Error::InvalidRequest(InvalidRequestError::from(path_failure()));
    assert_eq!(e.to_string(), "Invalid request: The bucket name is invalid");
}

#[test]
fn path_failure_is_the_cause() {
    let e: S3Error = S3Error::InvalidRequest(path_failure().into());
    match e.source() {
        Some(Cause::InvalidRequest(InvalidRequestError::ParsePath(p))) => {
            assert_eq!(p.message, "The bucket name is invalid");
        }
        _ => panic!("cause is not the path failure"),
    }
}

#[test]
fn request_failure_renders_as_its_path_failure() {
    let r = InvalidRequestError::from(path_failure());
    assert_eq!(r.message(), "The bucket name is invalid");
}

#[test]
fn header_name_failure_renders_as_invalid_output() {
    let e: S3Error = S3Error::InvalidOutput(header_name_failure().into());
    assert_eq!(e.to_string(), "Invalid output: invalid HTTP header name");
    assert!(matches!(e.source(), Some(Cause::InvalidOutput(InvalidOutputError::InvalidHeaderName(_)))));
}

#[test]
fn header_value_failure_renders_as_invalid_output() {
    let e: S3Error = S3Error::InvalidOutput(header_value_failure().into());
    assert_eq!(e.to_string(), "Invalid output: failed to parse header value");
    assert!(matches!(e.source(), Some(Cause::InvalidOutput(InvalidOutputError::InvalidHeaderValue(_)))));
}

#[test]
fn xml_failure_renders_as_invalid_output() {
    let e: S3Error = S3Error::InvalidOutput(InvalidOutputError::from(xml_failure()));
    assert_eq!(e.to_string(), "Invalid output: emitter error: I/O error: disk full");
    assert!(matches!(e.source(), Some(Cause::InvalidOutput(InvalidOutputError::XmlWriter(_)))));
}

#[test]
fn output_failure_renders_as_what_it_wraps() {
    assert_eq!(InvalidOutputError::from(header_name_failure()).message(), header_name_failure().to_string());
    assert_eq!(InvalidOutputError::from(header_value_failure()).message(), header_value_failure().to_string());
    assert_eq!(InvalidOutputError::from(xml_failure()).message(), xml_failure().to_string());
}

#[test]
fn operation_failure_renders_with_its_label() {
    let e = S3Error::Operation(no_such_bucket("photos"));
    assert_eq!(e.to_string(), "Operation: bucket photos does not exist");
    match e.source() {
        Some(Cause::Operation(b)) => assert_eq!(b.message, "bucket photos does not exist"),
        _ => panic!("cause is not the backend error"),
    }
}

#[test]
fn storage_failure_renders_with_its_label() {
    let inner = StorageError::new("connection reset".to_string());
    let e: S3Error = S3Error::Storage(StorageError::with_source("cannot read object".to_string(), inner));
    assert_eq!(e.to_string(), "Storage: cannot read object");
    match e.source() {
        Some(Cause::Storage(s)) => {
            assert_eq!(s.message(), "cannot read object");
            assert_eq!(s.source().map(|c| c.message()), Some("connection reset".to_string()));
            assert!(s.source().unwrap().source().is_none());
        }
        _ => panic!("cause is not the storage failure"),
    }
}

#[test]
fn not_supported_renders_as_fixed_text() {
    let e: S3Error = S3Error::NotSupported;
    assert_eq!(e.to_string(), "Not supported");
    assert!(e.source().is_none());
    let f: S3Error<StorageError> = S3Error::NotSupported;
    assert_eq!(f.to_string(), "Not supported");
    assert!(f.source().is_none());
}

#[test]
fn cause_rendering_follows_the_label() {
    let cases: Vec<S3Error<StorageError>> = vec![
        S3Error::Operation(no_such_bucket("b")),
        S3Error::InvalidRequest(path_failure().into()),
        S3Error::InvalidOutput(header_name_failure().into()),
        S3Error::InvalidOutput(header_value_failure().into()),
        S3Error::InvalidOutput(xml_failure().into()),
        S3Error::Storage(StorageError::new("gone".to_string())),
    ];
    for e in &cases {
        let whole = e.to_string();
        let label = e.label_text();
        let cause = e.source().unwrap().message();
        assert!(whole.starts_with(label));
        assert_eq!(&whole[label.len()..], cause);
    }
}

#[test]
fn labels_name_each_category() {
    assert_eq!(S3Error::Operation(no_such_bucket("")).label_text(), "Operation: ");
    let e: S3Error = S3Error::InvalidRequest(path_failure().into());
    assert_eq!(e.label_text(), "Invalid request: ");
    let e: S3Error = S3Error::InvalidOutput(header_name_failure().into());
    assert_eq!(e.label_text(), "Invalid output: ");
    let e: S3Error = S3Error::Storage(StorageError::new(String::new()));
    assert_eq!(e.label_text(), "Storage: ");
    let e: S3Error = S3Error::NotSupported;
    assert_eq!(e.label_text(), "Not supported");
}

#[test]
fn empty_messages_keep_the_label() {
    let e: S3Error = S3Error::InvalidRequest(ParseS3PathError::new(String::new()).into());
    assert_eq!(e.to_string(), "Invalid request: ");
    let e: S3Error = S3Error::Storage(StorageError::new(String::new()));
    assert_eq!(e.to_string(), "Storage: ");
}

#[test]
fn result_alias_carries_the_failure() {
    fn parse(ok: bool) -> S3Result<u32> {
        if ok {
            Ok(7)
        } else {
            Err(S3Error::InvalidRequest(path_failure().into()))
        }
    }
    assert_eq!(parse(true).unwrap(), 7);
    assert_eq!(parse(false).unwrap_err().to_string(), "Invalid request: The bucket name is invalid");
    let _unused: Option<Never> = None;
}

#[test]
fn join_puts_label_before_cause() {
    assert_eq!(s3_error::join("Storage: ", "gone"), "Storage: gone");
    assert_eq!(s3_error::join("", ""), "");
}
