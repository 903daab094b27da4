use thumbnailer::api::{
    body_error, body_format, get_img, log_level, route, BodyError, BodyFormat, Error, ErrorResponseBody,
    ImageData, ImageRequest, LogLevel, Route, StoreImgRequestBody,
};
use thumbnailer::batch::{Action, Stage, StoreBatch};
use thumbnailer::service::{FetchError, Image, IoError, IoErrorKind, ReadError, SaveError};
use thumbnailer::status::{default_cause, StatusCode};
use thumbnailer::text::{media_type, render_trail};

fn bytes_item(name: &str, data: &[u8]) -> ImageRequest {
    ImageRequest { filename: name.to_string(), data: ImageData::Bytes(data.to_vec()) }
}

fn expect_transform(a: Action) -> Vec<u8> {
    match a {
        Action::Transform(d) => d,
        _ => panic!("expected a transform"),
    }
}

fn expect_save(a: Action) -> Image {
    match a {
        Action::Save(img) => img,
        _ => panic!("expected a save"),
    }
}

fn expect_acks(a: Action) -> Vec<String> {
    match a {
        Action::Reply(Ok(body)) => body.0.into_iter().map(|r| r.filename).collect(),
        _ => panic!("expected acknowledgments"),
    }
}

fn expect_error(a: Action) -> Error {
    match a {
        Action::Reply(Err(e)) => e,
        _ => panic!("expected an error"),
    }
}

/// Runs one item whose action is a transform through a made-up transform
/// and a successful save, and returns the next action.
fn transform_and_save(batch: &mut StoreBatch, a: Action, thumb: &[u8]) -> (Image, Action) {
    let _raw = expect_transform(a);
    let img = expect_save(batch.on_transformed(Ok(thumb.to_vec())));
    assert_eq!(batch.stage(), Stage::Saving);
    let next = batch.on_saved(Ok(()));
    (img, next)
}

fn io(kind: IoErrorKind, message: &str) -> IoError {
    IoError { kind, message: message.to_string() }
}

#[test]
fn json_bytes_item_is_stored_and_fetched_back() {
    let raw = vec![0x89u8, 0x50, 0x4e, 0x47];
    let body = StoreImgRequestBody(vec![bytes_item("a.png", &raw)]);
    let (mut batch, a) = StoreBatch::start(body);
    assert_eq!(batch.stage(), Stage::Transforming);
    let handed = expect_transform(a);
    assert_eq!(handed, raw);
    let thumb = vec![0xffu8, 0xd8, 0xff];
    let img = expect_save(batch.on_transformed(Ok(thumb.clone())));
    assert_eq!(img.filename, "a.png");
    assert_eq!(img.data, thumb);
    let acks = expect_acks(batch.on_saved(Ok(())));
    assert_eq!(acks, vec!["a.png".to_string()]);
    assert_eq!(batch.stage(), Stage::Finished);
    let fetched = get_img("a.png".to_string(), Ok(img.data.clone())).ok().expect("stored image");
    assert_eq!(fetched.data, thumb);
    assert_eq!(fetched.filename, "a.png");
}

#[test]
fn invalid_base64_is_a_bad_request() {
    let item = ImageRequest { filename: "b.jpg".to_string(), data: ImageData::Base64("not-valid!!".to_string()) };
    let (batch, a) = StoreBatch::start(StoreImgRequestBody(vec![item]));
    assert_eq!(batch.stage(), Stage::Finished);
    let e = expect_error(a);
    assert_eq!(e.code, StatusCode::BadRequest);
    assert_eq!(e.trail, vec!["load image".to_string()]);
    let body = ErrorResponseBody::from_error(e);
    assert_eq!(body.code, 400);
    assert!(body.reason.contains("base64"));
    assert!(body.reason.contains("failed to decode"));
    assert!(body.reason.starts_with("load image: base64: failed to decode: base64: "));
}

#[test]
fn valid_base64_is_decoded_before_the_transform() {
    let item = ImageRequest { filename: "h.png".to_string(), data: ImageData::Base64("aGVsbG8=".to_string()) };
    let (batch, a) = StoreBatch::start(StoreImgRequestBody(vec![item]));
    assert_eq!(batch.stage(), Stage::Transforming);
    assert_eq!(expect_transform(a), b"hello".to_vec());
}

#[test]
fn base64_source_resolves_to_decoded_bytes() {
    let img = Image::from_base64("x".to_string(), "AAEC").ok().expect("decoded");
    assert_eq!(img.data, vec![0u8, 1, 2]);
    assert!(Image::from_base64("x".to_string(), "@@").is_err());
}

#[test]
fn text_plain_is_unsupported_media_type() {
    for ct in ["text/plain", "", "application/xml; charset=utf-8", "application/jsonx", "image/png"] {
        let e = body_format(ct).err().expect("unsupported");
        assert_eq!(e.code, StatusCode::UnsupportedMediaType);
        let body = ErrorResponseBody::from_error(e);
        assert_eq!(body.code, 415);
        assert_eq!(body.reason, "parse request body: Unsupported Media Type");
    }
}

#[test]
fn json_and_multipart_content_types_are_taken() {
    assert!(matches!(body_format("application/json"), Ok(BodyFormat::Json)));
    assert!(matches!(body_format("application/json; charset=utf-8"), Ok(BodyFormat::Json)));
    assert!(matches!(body_format("multipart/form-data; boundary=xyz"), Ok(BodyFormat::Multipart)));
    assert!(matches!(body_format("multipart/form-data"), Ok(BodyFormat::Multipart)));
    assert_eq!(media_type("multipart/form-data; boundary=xyz"), "multipart/form-data");
    assert_eq!(media_type("text/plain"), "text/plain");
    assert_eq!(media_type(";x"), "");
}

#[test]
fn missing_stored_image_is_not_found() {
    let e = get_img("missing.jpeg".to_string(), Err(ReadError::Open(io(IoErrorKind::NotFound, "No such file"))))
        .err()
        .expect("missing");
    assert_eq!(e.code, StatusCode::NotFound);
    assert_eq!(e.cause, "");
    let body = ErrorResponseBody::from_error(e);
    assert_eq!(body.code, 404);
    assert_eq!(body.reason, "Not Found");
}

#[test]
fn unreadable_stored_image_is_internal() {
    let e = get_img("x".to_string(), Err(ReadError::Open(io(IoErrorKind::Other, "denied")))).err().expect("failed");
    assert_eq!(e.code, StatusCode::InternalServerError);
    assert_eq!(e.cause, "io: denied");
    assert_eq!(e.log_line(), Some("open file: io: denied".to_string()));
    let e = get_img("x".to_string(), Err(ReadError::Read(io(IoErrorKind::NotFound, "gone")))).err().expect("failed");
    assert_eq!(e.code, StatusCode::InternalServerError);
    assert_eq!(e.trail, vec!["read file".to_string()]);
}

#[test]
fn multipart_part_is_stored_under_its_name() {
    let uploaded = vec![1u8, 2, 3, 4, 5];
    let body = StoreImgRequestBody::from_parts(vec![("pic.jpg".to_string(), uploaded.clone())]);
    assert_eq!(body.0.len(), 1);
    let (mut batch, a) = StoreBatch::start(body);
    assert_eq!(expect_transform(a), uploaded);
    let img = expect_save(batch.on_transformed(Ok(vec![9u8, 9])));
    assert_eq!(img.filename, "pic.jpg");
    assert_eq!(img.data, vec![9u8, 9]);
    assert_eq!(expect_acks(batch.on_saved(Ok(()))), vec!["pic.jpg".to_string()]);
}

#[test]
fn parts_keep_their_order() {
    let body = StoreImgRequestBody::from_parts(vec![
        ("one".to_string(), vec![1u8]),
        ("two".to_string(), vec![2u8]),
        ("three".to_string(), vec![3u8]),
    ]);
    let names: Vec<&str> = body.0.iter().map(|i| i.filename.as_str()).collect();
    assert_eq!(names, vec!["one", "two", "three"]);
    assert!(matches!(&body.0[1].data, ImageData::Bytes(b) if b == &vec![2u8]));
}

#[test]
fn whole_batch_is_acknowledged_in_order() {
    let body = StoreImgRequestBody(vec![
        bytes_item("first.png", &[1]),
        ImageRequest { filename: "second.png".to_string(), data: ImageData::URI("http://example.com/x.png".to_string()) },
        bytes_item("third.png", &[3]),
    ]);
    let (mut batch, a) = StoreBatch::start(body);
    let (img, a) = transform_and_save(&mut batch, a, &[10]);
    assert_eq!(img.filename, "first.png");
    assert_eq!(batch.stage(), Stage::Fetching);
    match a {
        Action::Fetch(u) => assert_eq!(u, "http://example.com/x.png"),
        _ => panic!("expected a fetch"),
    }
    let a = batch.on_fetched(Ok(vec![2u8, 2]));
    let (img, a) = transform_and_save(&mut batch, a, &[20]);
    assert_eq!(img.filename, "second.png");
    let (img, a) = transform_and_save(&mut batch, a, &[30]);
    assert_eq!(img.filename, "third.png");
    assert_eq!(expect_acks(a), vec!["first.png".to_string(), "second.png".to_string(), "third.png".to_string()]);
}

#[test]
fn failure_mid_batch_gives_one_error_and_no_acknowledgments() {
    let body = StoreImgRequestBody(vec![
        bytes_item("first.png", &[1]),
        bytes_item("second.png", &[2]),
        bytes_item("third.png", &[3]),
    ]);
    let (mut batch, a) = StoreBatch::start(body);
    let (_, a) = transform_and_save(&mut batch, a, &[10]);
    let _ = expect_transform(a);
    let e = expect_error(batch.on_transformed(Err("vips_thumbnail_buffer failed".to_string())));
    assert_eq!(batch.stage(), Stage::Finished);
    assert_eq!(e.code, StatusCode::InternalServerError);
    assert_eq!(e.cause, "libvips: vips_thumbnail_buffer failed");
    assert_eq!(e.trail, vec!["thumbnail img".to_string()]);
    let body = ErrorResponseBody::from_error(e);
    assert_eq!(body.code, 500);
    assert_eq!(body.reason, "Internal Server Error");
}

#[test]
fn empty_batch_is_acknowledged_at_once() {
    let (batch, a) = StoreBatch::start(StoreImgRequestBody(Vec::new()));
    assert_eq!(batch.stage(), Stage::Finished);
    assert!(expect_acks(a).is_empty());
}

#[test]
fn failed_fetch_is_a_bad_request_on_the_uri() {
    let item = ImageRequest { filename: "r.png".to_string(), data: ImageData::URI("http://nowhere".to_string()) };
    let (mut batch, _) = StoreBatch::start(StoreImgRequestBody(vec![item]));
    let e = expect_error(batch.on_fetched(Err(FetchError::Request("refused".to_string()))));
    assert_eq!(e.code, StatusCode::BadRequest);
    assert_eq!(e.cause, "uri: failed to fetch specified file: reqwest: refused");
    let body = ErrorResponseBody::from_error(e);
    assert_eq!(body.reason, "load image: uri: failed to fetch specified file: reqwest: refused");
}

#[test]
fn unreadable_fetch_body_is_internal() {
    let item = ImageRequest { filename: "r.png".to_string(), data: ImageData::URI("http://x".to_string()) };
    let (mut batch, _) = StoreBatch::start(StoreImgRequestBody(vec![item]));
    let e = expect_error(batch.on_fetched(Err(FetchError::Body("reset".to_string()))));
    assert_eq!(e.code, StatusCode::InternalServerError);
    assert_eq!(e.trail, vec!["get response bytes".to_string(), "load image".to_string()]);
    assert_eq!(e.text(), "load image: get response bytes: reqwest: reset");
    assert_eq!(ErrorResponseBody::from_error(e).reason, "Internal Server Error");
}

#[test]
fn failed_save_is_internal() {
    let (mut batch, _) = StoreBatch::start(StoreImgRequestBody(vec![bytes_item("s.png", &[1])]));
    let _ = batch.on_transformed(Ok(vec![2u8]));
    let e = expect_error(batch.on_saved(Err(SaveError::Write(io(IoErrorKind::Other, "disk full")))));
    assert_eq!(e.code, StatusCode::InternalServerError);
    assert_eq!(e.text(), "save thumbnail: write file: io: disk full");
    let (mut batch, _) = StoreBatch::start(StoreImgRequestBody(vec![bytes_item("s.png", &[1])]));
    let _ = batch.on_transformed(Ok(vec![2u8]));
    let e = expect_error(batch.on_saved(Err(SaveError::Create(io(IoErrorKind::NotFound, "no dir")))));
    assert_eq!(e.trail, vec!["create file".to_string(), "save thumbnail".to_string()]);
}

#[test]
fn routes_are_dispatched() {
    assert!(matches!(route("POST", "/images"), Ok(Route::StoreImages)));
    match route("GET", "/images/img_thumb.jpeg") {
        Ok(Route::GetImage(n)) => assert_eq!(n, "img_thumb.jpeg"),
        _ => panic!("expected a fetch route"),
    }
}

#[test]
fn unmatched_routes_are_not_found() {
    let cases = [
        ("GET", "/images"),
        ("GET", "/images/"),
        ("GET", "/images/a/b"),
        ("POST", "/images/a.png"),
        ("DELETE", "/images"),
        ("PUT", "/images/a.png"),
        ("GET", "/"),
        ("GET", "/imagesx/a"),
    ];
    for (m, p) in cases {
        let e = route(m, p).err().expect("unknown route");
        assert_eq!(e.code, StatusCode::NotFound);
        let body = ErrorResponseBody::from_error(e);
        assert_eq!(body.code, 404);
        assert_eq!(body.reason, "unknown route");
    }
}

#[test]
fn client_error_reason_holds_trail_and_cause() {
    let e = Error::bad_request("oops".to_string()).context("inner").context("outer");
    assert_eq!(e.text(), "outer: inner: oops");
    assert_eq!(e.log_line(), None);
    let body = ErrorResponseBody::from_error(e);
    assert_eq!(body.code, 400);
    assert_eq!(body.reason, "outer: inner: oops");
}

#[test]
fn server_error_reason_hides_cause() {
    let e = Error::internal("secret path /var/x".to_string()).context("step");
    assert_eq!(e.log_line(), Some("step: secret path /var/x".to_string()));
    let body = ErrorResponseBody::from_error(e);
    assert_eq!(body.code, 500);
    assert!(!body.reason.contains("secret"));
    assert_eq!(body.reason, "Internal Server Error");
}

#[test]
fn body_errors_map_to_statuses() {
    let e = body_error(BodyError::InvalidJson("expected value".to_string()));
    assert_eq!(e.code, StatusCode::BadRequest);
    assert_eq!(ErrorResponseBody::from_error(e).reason, "parse request body: invalid json: expected value");
    let e = body_error(BodyError::InvalidMultipart);
    assert_eq!(e.cause, "invalid multipart form data");
    assert_eq!(body_error(BodyError::Read("eof".to_string())).code, StatusCode::InternalServerError);
    assert_eq!(body_error(BodyError::Part("eof".to_string())).code, StatusCode::InternalServerError);
}

#[test]
fn reason_phrases_come_from_the_status_table() {
    assert_eq!(default_cause(StatusCode::NotFound), "Not Found");
    assert_eq!(default_cause(StatusCode::BadRequest), "Bad Request");
    assert_eq!(default_cause(StatusCode::UnsupportedMediaType), "Unsupported Media Type");
    assert_eq!(default_cause(StatusCode::InternalServerError), "Internal Server Error");
    assert_eq!(default_cause(StatusCode::Created), "Created");
    assert_eq!(StatusCode::Created.as_u16(), 201);
    assert!(StatusCode::InternalServerError.is_server_error());
    assert!(!StatusCode::NotFound.is_server_error());
    let e = Error::unsupported_media_type();
    assert_eq!(e.cause, "Unsupported Media Type");
}

#[test]
fn log_levels_follow_status_ranges() {
    assert_eq!(log_level(100), LogLevel::Info);
    assert_eq!(log_level(201), LogLevel::Info);
    assert_eq!(log_level(299), LogLevel::Info);
    assert_eq!(log_level(300), LogLevel::Warn);
    assert_eq!(log_level(404), LogLevel::Warn);
    assert_eq!(log_level(499), LogLevel::Warn);
    assert_eq!(log_level(500), LogLevel::Error);
    assert_eq!(log_level(99), LogLevel::Error);
}

#[test]
fn trail_renders_outermost_first() {
    let t = vec!["a".to_string(), "b".to_string(), "c".to_string()];
    assert_eq!(render_trail(&t), "c: b: a: ");
    assert_eq!(render_trail(&Vec::new()), "");
}
