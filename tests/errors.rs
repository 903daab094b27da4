use thumbnailer::api::{Error as HttpError, ErrorResponseBody};
use thumbnailer::service::{
    save_result, Error, ErrorCause, ErrorKind, FetchError, Image, IoError, IoErrorKind, ReadError, SaveError,
};
use thumbnailer::status::StatusCode;
use thumbnailer::text::{boundary, same_text, starts_with};

fn io(kind: IoErrorKind, message: &str) -> IoError {
    IoError { kind, message: message.to_string() }
}

#[test]
fn boundary_is_read_from_the_content_type() {
    assert_eq!(boundary("multipart/form-data; boundary=abc123"), Some("abc123"));
    assert_eq!(boundary("multipart/form-data; boundary=abc; charset=utf-8"), Some("abc"));
    assert_eq!(boundary("multipart/form-data;boundary=x;boundary=y"), Some("x"));
    assert_eq!(boundary("multipart/form-data"), None);
    assert_eq!(boundary(""), None);
}

#[test]
fn causes_render_with_their_subsystem() {
    assert_eq!(ErrorCause::IO(io(IoErrorKind::Other, "denied")).text(), "io: denied");
    assert_eq!(ErrorCause::Reqwest("timeout".to_string()).text(), "reqwest: timeout");
    assert_eq!(ErrorCause::Base64Decode("bad".to_string()).text(), "base64: bad");
    assert_eq!(ErrorCause::Libvips("broken".to_string()).text(), "libvips: broken");
}

#[test]
fn service_error_keeps_cause_under_context() {
    let e = Error::internal(ErrorCause::Libvips("x".to_string())).context("inner").context("outer");
    assert!(matches!(e.kind, ErrorKind::Internal));
    assert_eq!(e.trail, vec!["inner".to_string(), "outer".to_string()]);
    assert_eq!(e.text(), "outer: inner: libvips: x");
}

#[test]
fn invalid_argument_names_argument_and_details() {
    let e = Error::invalid_argument("uri", "failed", ErrorCause::Reqwest("dns".to_string()));
    match &e.kind {
        ErrorKind::InvalidArgument(a) => {
            assert_eq!(a.arg_name, "uri");
            assert_eq!(a.details, "failed");
        }
        _ => panic!("expected an invalid argument"),
    }
    let h = HttpError::from_service_error(e.context("load image"));
    assert_eq!(h.code, StatusCode::BadRequest);
    assert_eq!(h.cause, "uri: failed: reqwest: dns");
    assert_eq!(h.trail, vec!["load image".to_string()]);
}

#[test]
fn io_errors_map_by_kind() {
    let e = Error::map_io(io(IoErrorKind::NotFound, "gone"), IoErrorKind::NotFound, ErrorKind::NotFound);
    assert!(matches!(e.kind, ErrorKind::NotFound));
    let e = Error::map_io(io(IoErrorKind::Other, "denied"), IoErrorKind::NotFound, ErrorKind::NotFound);
    assert!(matches!(e.kind, ErrorKind::Internal));
    let h = HttpError::from_service_error(e);
    assert_eq!(h.code, StatusCode::InternalServerError);
    assert_eq!(h.cause, "io: denied");
}

#[test]
fn not_found_service_error_has_no_cause_text() {
    let e = Error::new(ErrorKind::NotFound, ErrorCause::IO(io(IoErrorKind::NotFound, "No such file")));
    let h = HttpError::from_service_error(e.context("open file"));
    assert_eq!(h.code, StatusCode::NotFound);
    assert_eq!(h.cause, "");
    assert_eq!(ErrorResponseBody::from_error(h).reason, "Not Found");
}

#[test]
fn sources_resolve_or_fail() {
    let img = Image::from_fetched("f".to_string(), Ok(vec![7u8])).ok().expect("fetched");
    assert_eq!(img.data, vec![7u8]);
    let e = Image::from_fetched("f".to_string(), Err(FetchError::Body("cut".to_string()))).err().expect("failed");
    assert!(matches!(e.kind, ErrorKind::Internal));
    assert_eq!(e.trail, vec!["get response bytes".to_string()]);
    let img = Image::from_storage("s".to_string(), Ok(vec![1u8, 2])).ok().expect("read");
    assert_eq!((img.filename.as_str(), img.data), ("s", vec![1u8, 2]));
    let e = Image::from_storage("s".to_string(), Err(ReadError::Open(io(IoErrorKind::NotFound, "no")))).err().expect("missing");
    assert!(matches!(e.kind, ErrorKind::NotFound));
    let img = Image::from_thumbnail("t".to_string(), Ok(vec![5u8])).ok().expect("thumb");
    assert_eq!(img.data, vec![5u8]);
    let e = Image::from_decoded("d".to_string(), Err("Invalid byte".to_string())).err().expect("bad");
    assert_eq!(e.text(), "base64: Invalid byte");
}

#[test]
fn save_outcomes_map_to_errors() {
    assert!(save_result(Ok(())).is_ok());
    let e = save_result(Err(SaveError::Create(io(IoErrorKind::Other, "ro")))).err().expect("failed");
    assert_eq!(e.text(), "create file: io: ro");
}

#[test]
fn text_comparisons() {
    assert!(same_text("abc", "abc"));
    assert!(!same_text("abc", "abd"));
    assert!(!same_text("abc", "ab"));
    assert!(starts_with("/images/x", "/images/"));
    assert!(!starts_with("/image", "/images/"));
}
