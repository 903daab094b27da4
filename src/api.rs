//! The HTTP face of the service: routes, request and response bodies, and
//! the HTTP-level error with its mapping onto a response.
use vstd::prelude::*;
use crate::service;
use crate::service::{cause_text, ErrorKind, Image, IoErrorKind, ReadError};
use crate::status::{code_number, default_cause, reason_phrase, StatusCode};
use crate::text::{contains_char, media_type, media_type_of, render_trail, rendered_trail, same_text, starts_with, views};

verus! {

/// A failure as the client sees it: a status code, the context frames
/// (innermost first) and the cause text.
pub struct Error {
    pub code: StatusCode,
    pub trail: Vec<String>,
    pub cause: String,
}

impl Error {
    /// The context frames, innermost first.
    pub open spec fn frames(&self) -> Seq<Seq<char>> {
        views(self.trail@)
    }

    pub fn new(code: StatusCode, cause: String) -> (r: Self)
        ensures
            r.code == code,
            r.cause == cause,
            r.frames() == Seq::<Seq<char>>::empty(),
    {
        let r = Error { code, trail: Vec::new(), cause };
        assert(r.frames() =~= Seq::<Seq<char>>::empty());
        r
    }

    pub fn bad_request(cause: String) -> (r: Self)
        ensures
            r.code == StatusCode::BadRequest,
            r.cause == cause,
            r.frames() == Seq::<Seq<char>>::empty(),
    {
        Self::new(StatusCode::BadRequest, cause)
    }

    pub fn internal(cause: String) -> (r: Self)
        ensures
            r.code == StatusCode::InternalServerError,
            r.cause == cause,
            r.frames() == Seq::<Seq<char>>::empty(),
    {
        Self::new(StatusCode::InternalServerError, cause)
    }

    pub fn not_found(cause: String) -> (r: Self)
        ensures
            r.code == StatusCode::NotFound,
            r.cause == cause,
            r.frames() == Seq::<Seq<char>>::empty(),
    {
        Self::new(StatusCode::NotFound, cause)
    }

    /// The error of a request body in a media type the service does not take.
    pub fn unsupported_media_type() -> (r: Self)
        ensures
            r.code == StatusCode::UnsupportedMediaType,
            r.cause@ == reason_phrase(415),
            r.frames() == Seq::<Seq<char>>::empty(),
    {
        let code = StatusCode::UnsupportedMediaType;
        Self::new(code, default_cause(code))
    }

    /// Adds an outer context frame, keeping the code and the cause.
    pub fn context(self, ctx: &str) -> (r: Self)
        ensures
            r.code == self.code,
            r.cause == self.cause,
            r.frames() == self.frames().push(ctx@),
    {
        let Error { code, mut trail, cause } = self;
        trail.push(String::from_str(ctx));
        let r = Error { code, trail, cause };
        assert(r.frames() =~= self.frames().push(ctx@));
        r
    }

    /// The context trail, outermost first, then the cause.
    pub fn text(&self) -> (r: String)
        ensures
            r@ == rendered_trail(self.frames()) + self.cause@,
    {
        render_trail(&self.trail).concat(self.cause.as_str())
    }

    /// The line for the operational log: only internal errors are written
    /// there, with their full context.
    pub fn log_line(&self) -> (r: Option<String>)
        ensures
            r is Some <==> self.code == StatusCode::InternalServerError,
            r matches Some(s) ==> s@ == rendered_trail(self.frames()) + self.cause@,
    {
        if self.code == StatusCode::InternalServerError {
            Some(self.text())
        } else {
            None
        }
    }

    /// The client-facing form of a service error. An invalid argument is a
    /// bad request that names the argument, the details and the cause; a
    /// missing resource carries no cause text; anything else is internal.
    /// The service error's context frames are kept.
    pub fn from_service_error(err: service::Error) -> (r: Self)
        ensures
            r.frames() == err.frames(),
            client_form(err, r),
    {
        let text = err.cause.text();
        let service::Error { kind, cause: _, trail } = err;
        let (code, cause) = match kind {
            ErrorKind::InvalidArgument(a) => {
                let c = a.arg_name.concat(": ").concat(a.details.as_str()).concat(": ").concat(
                    text.as_str(),
                );
                (StatusCode::BadRequest, c)
            },
            ErrorKind::Internal => (StatusCode::InternalServerError, text),
            ErrorKind::NotFound => (StatusCode::NotFound, String::new()),
        };
        Error { code, trail, cause }
    }
}

/// Whether `r` has the code and the cause text of the client-facing form
/// of the service error `err`.
pub open spec fn client_form(err: service::Error, r: Error) -> bool {
    &&& (err.kind matches ErrorKind::InvalidArgument(a) ==> r.code == StatusCode::BadRequest
        && r.cause@ == a.arg_name@ + ": "@ + a.details@ + ": "@ + cause_text(err.cause))
    &&& (err.kind is NotFound ==> r.code == StatusCode::NotFound && r.cause@ == Seq::<char>::empty())
    &&& (err.kind is Internal ==> r.code == StatusCode::InternalServerError && r.cause@ == cause_text(
        err.cause,
    ))
}

/// The body of an error response.
pub struct ErrorResponseBody {
    pub code: u16,
    pub reason: String,
}

/// Whether a response hides the cause of an error: a server error, or one
/// without cause text, shows only its code's generic phrase.
pub open spec fn hides_cause(err: Error) -> bool {
    err.code.is_server_error() || err.cause@.len() == 0
}

/// The reason that the response to an error gives.
pub open spec fn response_reason(err: Error) -> Seq<char> {
    if hides_cause(err) {
        reason_phrase(code_number(err.code))
    } else {
        rendered_trail(err.frames()) + err.cause@
    }
}

impl ErrorResponseBody {
    /// The response body of an error. A server error, or one without cause
    /// text, gives the status code's generic phrase; any other gives the
    /// context trail and the cause.
    pub fn from_error(err: Error) -> (r: Self)
        ensures
            r.code == code_number(err.code),
            r.reason@ == response_reason(err),
    {
        let reason = if err.code.is_server_error() || err.cause.as_str().unicode_len() == 0 {
            default_cause(err.code)
        } else {
            err.text()
        };
        ErrorResponseBody { code: err.code.as_u16(), reason }
    }
}

/// The reason of a server error's response is its code's generic phrase,
/// whatever its cause; the reason of a client error's response ends with
/// its cause text.
pub proof fn reason_shows_only_client_causes(err: Error)
    ensures
        err.code.is_server_error() ==> response_reason(err) == reason_phrase(code_number(err.code)),
        400 <= code_number(err.code) <= 499 ==> ({
            let r = response_reason(err);
            let c = err.cause@;
            c.len() <= r.len() && r.skip(r.len() - c.len()) == c
        }),
{
    let r = response_reason(err);
    let c = err.cause@;
    if 400 <= code_number(err.code) <= 499 {
        assert(r.skip(r.len() - c.len()) =~= c);
    }
}

/// The stored image of a name from the outcome of reading it: a missing
/// file is not found, with no cause text; any other failure is internal.
pub fn get_img(filename: String, read: Result<Vec<u8>, ReadError>) -> (r: Result<Image, Error>)
    ensures
        read is Ok ==> (r matches Ok(img) && img.filename == filename && img.data == read->Ok_0),
        read matches Err(ReadError::Open(io)) ==> (r matches Err(e) && e.frames() == seq!["open file"@]
            && (io.kind == IoErrorKind::NotFound ==> e.code == StatusCode::NotFound && e.cause@.len() == 0)
            && (io.kind != IoErrorKind::NotFound ==> e.code == StatusCode::InternalServerError
                && e.cause@ == cause_text(service::ErrorCause::IO(io)))),
        read matches Err(ReadError::Read(io)) ==> (r matches Err(e) && e.frames() == seq!["read file"@]
            && e.code == StatusCode::InternalServerError && e.cause@ == cause_text(service::ErrorCause::IO(io))),
{
    match Image::from_storage(filename, read) {
        Ok(img) => Ok(img),
        Err(e) => Err(Error::from_service_error(e)),
    }
}

/// Where a request goes.
pub enum Route {
    /// `POST /images`: store a batch of images.
    StoreImages,
    /// `GET /images/<name>`: fetch the stored image of that name.
    GetImage(String),
}

/// The name in a path of the form `/images/<name>`, where the name is not
/// empty and holds no `/`.
pub open spec fn image_name_of(path: Seq<char>) -> Option<Seq<char>> {
    let p = "/images/"@;
    if p.len() < path.len() && path.take(p.len() as int) == p && !path.skip(p.len() as int).contains('/') {
        Some(path.skip(p.len() as int))
    } else {
        None
    }
}

/// Dispatches on the method and the path of a request. Any other request
/// fails as not found.
pub fn route(method: &str, path: &str) -> (r: Result<Route, Error>)
    ensures
        (method@ == "POST"@ && path@ == "/images"@) ==> r matches Ok(Route::StoreImages),
        !(method@ == "POST"@ && path@ == "/images"@) && method@ == "GET"@ && image_name_of(path@) is Some
            ==> (r matches Ok(Route::GetImage(name)) && Some(name@) == image_name_of(path@)),
        !(method@ == "POST"@ && path@ == "/images"@) && !(method@ == "GET"@ && image_name_of(path@) is Some)
            ==> (r matches Err(e) && e.code == StatusCode::NotFound && e.cause@ == "unknown route"@
                && e.frames().len() == 0),
{
    if same_text(method, "POST") && same_text(path, "/images") {
        return Ok(Route::StoreImages);
    }
    if same_text(method, "GET") && starts_with(path, "/images/") {
        proof {
            reveal_strlit("/images/");
        }
        let n = path.unicode_len();
        if 8 < n {
            let name = path.substring_char(8, n);
            assert(name@ == path@.skip(8));
            if !contains_char(name, '/') {
                return Ok(Route::GetImage(String::from_str(name)));
            }
        }
    }
    proof {
        reveal_strlit("/images/");
    }
    Err(Error::not_found(String::from_str("unknown route")))
}

/// How a request body is encoded.
pub enum BodyFormat {
    Json,
    Multipart,
}

/// The encoding of a request body, from its content type (the primary
/// media type; parameters such as the boundary do not count). Any other
/// content type, or none, is unsupported.
pub fn body_format(content_type: &str) -> (r: Result<BodyFormat, Error>)
    ensures
        media_type_of(content_type@) == "application/json"@ ==> r matches Ok(BodyFormat::Json),
        media_type_of(content_type@) == "multipart/form-data"@ ==> r matches Ok(BodyFormat::Multipart),
        media_type_of(content_type@) != "application/json"@ && media_type_of(content_type@)
            != "multipart/form-data"@ ==> (r matches Err(e) && e.code == StatusCode::UnsupportedMediaType
            && e.cause@ == reason_phrase(415) && e.frames() == seq!["parse request body"@]),
{
    proof {
        reveal_strlit("application/json");
        reveal_strlit("multipart/form-data");
        assert("application/json"@[0] != "multipart/form-data"@[0]);
    }
    let m = media_type(content_type);
    if same_text(m, "application/json") {
        Ok(BodyFormat::Json)
    } else if same_text(m, "multipart/form-data") {
        Ok(BodyFormat::Multipart)
    } else {
        let e = Error::unsupported_media_type().context("parse request body");
        assert(e.frames() =~= seq!["parse request body"@]);
        Err(e)
    }
}

/// The level at which a response is written to the access log.
#[derive(Clone, Copy, Debug, PartialEq, Eq, Structural)]
pub enum LogLevel {
    Info,
    Warn,
    Error,
}

/// Statuses 100..=299 log at info, 300..=499 at warning, any other at error.
pub fn log_level(status: u16) -> (r: LogLevel)
    ensures
        100 <= status <= 299 ==> r == LogLevel::Info,
        300 <= status <= 499 ==> r == LogLevel::Warn,
        !(100 <= status <= 499) ==> r == LogLevel::Error,
{
    if 100 <= status && status <= 299 {
        LogLevel::Info
    } else if 300 <= status && status <= 499 {
        LogLevel::Warn
    } else {
        LogLevel::Error
    }
}

/// Where the bytes of a submitted image come from.
pub enum ImageData {
    /// A remote address to fetch.
    URI(String),
    /// Base64 text.
    Base64(String),
    /// The bytes themselves.
    Bytes(Vec<u8>),
}

/// One submitted image: the name to store it under and its source.
pub struct ImageRequest {
    pub filename: String,
    pub data: ImageData,
}

/// The names of a sequence of submissions, in order.
pub open spec fn request_names(items: Seq<ImageRequest>) -> Seq<Seq<char>> {
    items.map_values(|i: ImageRequest| i.filename@)
}

/// A batch of submissions, in the order they were sent.
pub struct StoreImgRequestBody(pub Vec<ImageRequest>);

impl StoreImgRequestBody {
    /// The batch of a multipart form: each part's name becomes a file name
    /// and its body a source of bytes, in the order of the parts.
    pub fn from_parts(parts: Vec<(String, Vec<u8>)>) -> (r: Self)
        ensures
            r.0@.len() == parts@.len(),
            forall|i: int| 0 <= i < parts@.len() ==> r.0@[i].filename == parts@[i].0
                && r.0@[i].data == ImageData::Bytes(parts@[i].1),
    {
        let mut parts = parts;
        let ghost all = parts@;
        let mut rev: Vec<ImageRequest> = Vec::new();
        while parts.len() > 0
            invariant
                parts@ == all.take(parts@.len() as int),
                rev@.len() == all.len() - parts@.len(),
                forall|k: int| 0 <= k < rev@.len() ==> rev@[k].filename == all[all.len() - 1 - k].0
                    && rev@[k].data == ImageData::Bytes(all[all.len() - 1 - k].1),
            decreases parts@.len(),
        {
            let (name, bytes) = parts.pop().unwrap();
            rev.push(ImageRequest { filename: name, data: ImageData::Bytes(bytes) });
        }
        let mut imgs: Vec<ImageRequest> = Vec::new();
        while rev.len() > 0
            invariant
                imgs@.len() + rev@.len() == all.len(),
                forall|k: int| 0 <= k < rev@.len() ==> rev@[k].filename == all[all.len() - 1 - k].0
                    && rev@[k].data == ImageData::Bytes(all[all.len() - 1 - k].1),
                forall|i: int| 0 <= i < imgs@.len() ==> imgs@[i].filename == all[i].0
                    && imgs@[i].data == ImageData::Bytes(all[i].1),
            decreases rev@.len(),
        {
            let img = rev.pop().unwrap();
            imgs.push(img);
        }
        StoreImgRequestBody(imgs)
    }
}

/// Why a request body could not be read into a batch.
pub enum BodyError {
    /// Reading the body failed.
    Read(String),
    /// The body is no JSON array of submissions; the parser's message.
    InvalidJson(String),
    /// The body is no multipart form.
    InvalidMultipart,
    /// Reading a part of the form failed.
    Part(String),
}

/// The error of a request body that could not be read into a batch: a
/// malformed body is a bad request, a failed read internal.
pub fn body_error(err: BodyError) -> (r: Error)
    ensures
        r.frames() == seq!["parse request body"@],
        err matches BodyError::Read(m) ==> r.code == StatusCode::InternalServerError && r.cause == m,
        err matches BodyError::InvalidJson(m) ==> r.code == StatusCode::BadRequest && r.cause@
            == "invalid json: "@ + m@,
        err is InvalidMultipart ==> r.code == StatusCode::BadRequest && r.cause@
            == "invalid multipart form data"@,
        err matches BodyError::Part(m) ==> r.code == StatusCode::InternalServerError && r.cause == m,
{
    let e = match err {
        BodyError::Read(m) => Error::internal(m),
        BodyError::InvalidJson(m) => Error::bad_request(String::from_str("invalid json: ").concat(m.as_str())),
        BodyError::InvalidMultipart => Error::bad_request(String::from_str("invalid multipart form data")),
        BodyError::Part(m) => Error::internal(m),
    };
    let r = e.context("parse request body");
    assert(r.frames() =~= seq!["parse request body"@]);
    r
}

/// The acknowledgment of one stored image.
pub struct ImageResponse {
    pub filename: String,
}

impl ImageResponse {
    pub fn new(filename: String) -> (r: Self)
        ensures
            r.filename == filename,
    {
        ImageResponse { filename }
    }
}

/// The names that a list of acknowledgments acknowledges, in order.
pub open spec fn response_names(acks: Seq<ImageResponse>) -> Seq<Seq<char>> {
    acks.map_values(|a: ImageResponse| a.filename@)
}

/// The answer to a stored batch: one acknowledgment per image, in order.
pub struct StoreImgResponseBody(pub Vec<ImageResponse>);

} // verus!
