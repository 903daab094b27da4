//! Images, the service-level error model, and the resolution of an image's
//! source into bytes.
use vstd::prelude::*;
use crate::text::{render_trail, rendered_trail, views};

verus! {

/// Which argument of a request was unusable, and how.
pub struct InvalidArgumentError {
    pub arg_name: String,
    pub details: String,
}

impl InvalidArgumentError {
    pub fn new(arg: &str, details: &str) -> (r: Self)
        ensures
            r.arg_name@ == arg@,
            r.details@ == details@,
    {
        InvalidArgumentError { arg_name: String::from_str(arg), details: String::from_str(details) }
    }
}

/// The class of a failure.
pub enum ErrorKind {
    InvalidArgument(InvalidArgumentError),
    NotFound,
    Internal,
}

/// Whether a failed file operation found nothing under the name.
#[derive(Clone, Copy, Debug, PartialEq, Eq, Structural)]
pub enum IoErrorKind {
    NotFound,
    Other,
}

/// A failed file operation: its kind and its message.
pub struct IoError {
    pub kind: IoErrorKind,
    pub message: String,
}

/// The underlying failure that an error carries.
pub enum ErrorCause {
    IO(IoError),
    Reqwest(String),
    Base64Decode(String),
    Libvips(String),
}

/// The text of a cause: the subsystem that failed, then its message.
pub open spec fn cause_text(c: ErrorCause) -> Seq<char> {
    match c {
        ErrorCause::IO(e) => "io: "@ + e.message@,
        ErrorCause::Reqwest(m) => "reqwest: "@ + m@,
        ErrorCause::Base64Decode(m) => "base64: "@ + m@,
        ErrorCause::Libvips(m) => "libvips: "@ + m@,
    }
}

impl ErrorCause {
    /// The text of the cause.
    pub fn text(&self) -> (r: String)
        ensures
            r@ == cause_text(*self),
    {
        match self {
            ErrorCause::IO(e) => String::from_str("io: ").concat(e.message.as_str()),
            ErrorCause::Reqwest(m) => String::from_str("reqwest: ").concat(m.as_str()),
            ErrorCause::Base64Decode(m) => String::from_str("base64: ").concat(m.as_str()),
            ErrorCause::Libvips(m) => String::from_str("libvips: ").concat(m.as_str()),
        }
    }
}

/// A failure: its class, its cause, and the context frames that enclosing
/// layers added, innermost first.
pub struct Error {
    pub kind: ErrorKind,
    pub cause: ErrorCause,
    pub trail: Vec<String>,
}

impl Error {
    /// The context frames, innermost first.
    pub open spec fn frames(&self) -> Seq<Seq<char>> {
        views(self.trail@)
    }

    /// Whether the error is of the given argument, with the given details.
    pub open spec fn is_invalid_argument(&self, arg: Seq<char>, details: Seq<char>) -> bool {
        &&& self.kind matches ErrorKind::InvalidArgument(a)
        &&& a.arg_name@ == arg
        &&& a.details@ == details
    }

    pub fn new(kind: ErrorKind, cause: ErrorCause) -> (r: Self)
        ensures
            r.kind == kind,
            r.cause == cause,
            r.frames() == Seq::<Seq<char>>::empty(),
    {
        let r = Error { kind, cause, trail: Vec::new() };
        assert(r.frames() =~= Seq::<Seq<char>>::empty());
        r
    }

    pub fn invalid_argument(arg: &str, details: &str, cause: ErrorCause) -> (r: Self)
        ensures
            r.is_invalid_argument(arg@, details@),
            r.cause == cause,
            r.frames() == Seq::<Seq<char>>::empty(),
    {
        Self::new(ErrorKind::InvalidArgument(InvalidArgumentError::new(arg, details)), cause)
    }

    pub fn internal(cause: ErrorCause) -> (r: Self)
        ensures
            r.kind is Internal,
            r.cause == cause,
            r.frames() == Seq::<Seq<char>>::empty(),
    {
        Self::new(ErrorKind::Internal, cause)
    }

    /// Adds an outer context frame, keeping the kind and the cause.
    pub fn context(self, ctx: &str) -> (r: Self)
        ensures
            r.kind == self.kind,
            r.cause == self.cause,
            r.frames() == self.frames().push(ctx@),
    {
        let Error { kind, cause, mut trail } = self;
        trail.push(String::from_str(ctx));
        let r = Error { kind, cause, trail };
        assert(r.frames() =~= self.frames().push(ctx@));
        r
    }

    /// An error of class `kind` where the file operation failed with
    /// `io_kind`, and an internal one otherwise.
    pub fn map_io(err: IoError, io_kind: IoErrorKind, kind: ErrorKind) -> (r: Self)
        ensures
            err.kind == io_kind ==> r.kind == kind,
            err.kind != io_kind ==> r.kind is Internal,
            r.cause == ErrorCause::IO(err),
            r.frames() == Seq::<Seq<char>>::empty(),
    {
        if err.kind == io_kind {
            return Error::new(kind, ErrorCause::IO(err));
        }
        Error::new(ErrorKind::Internal, ErrorCause::IO(err))
    }

    /// The context trail, outermost first, then the cause.
    pub fn text(&self) -> (r: String)
        ensures
            r@ == rendered_trail(self.frames()) + cause_text(self.cause),
    {
        let t = render_trail(&self.trail);
        let c = self.cause.text();
        t.concat(c.as_str())
    }
}

/// What base64 decoding of a text gives: the bytes, or nothing where the
/// text is not valid base64.
pub uninterp spec fn base64_decoded(s: Seq<char>) -> Option<Seq<u8>>;

/// Relies on `base64::decode` (standard alphabet): the decoded bytes, or a
/// `DecodeError`, whose message is kept.
#[verifier::external_body]
fn decode_base64(s: &str) -> (r: Result<Vec<u8>, String>)
    ensures
        r is Ok <==> base64_decoded(s@) is Some,
        r is Ok ==> Some(r->Ok_0@) == base64_decoded(s@),
{
    base64::decode(s).map_err(|e| e.to_string())
}

/// Why fetching a remote source failed.
pub enum FetchError {
    /// The request could not be made, or the answer was no success.
    Request(String),
    /// The answer's body could not be read.
    Body(String),
}

/// Why reading a stored image failed.
pub enum ReadError {
    Open(IoError),
    Read(IoError),
}

/// Why storing an image failed.
pub enum SaveError {
    Create(IoError),
    Write(IoError),
}

/// A named image: a file name and its bytes.
pub struct Image {
    pub filename: String,
    pub data: Vec<u8>,
}

impl Image {
    pub fn new(filename: String, data: Vec<u8>) -> (r: Self)
        ensures
            r.filename == filename,
            r.data == data,
    {
        Image { filename, data }
    }

    /// The image from the outcome of decoding its base64 text.
    pub fn from_decoded(filename: String, decoded: Result<Vec<u8>, String>) -> (r: Result<Self, Error>)
        ensures
            decoded is Ok ==> r == Ok::<Self, Error>(Image { filename, data: decoded->Ok_0 }),
            decoded is Err ==> (r matches Err(e) && e.is_invalid_argument("base64"@, "failed to decode"@)
                && e.cause == ErrorCause::Base64Decode(decoded->Err_0) && e.frames().len() == 0),
    {
        match decoded {
            Ok(bytes) => Ok(Self::new(filename, bytes)),
            Err(m) => Err(Error::invalid_argument("base64", "failed to decode", ErrorCause::Base64Decode(m))),
        }
    }

    /// Decodes a base64 source.
    pub fn from_base64(filename: String, data: &str) -> (r: Result<Self, Error>)
        ensures
            r is Ok <==> base64_decoded(data@) is Some,
            r matches Ok(img) ==> img.filename == filename && Some(img.data@) == base64_decoded(data@),
            r matches Err(e) ==> e.is_invalid_argument("base64"@, "failed to decode"@)
                && e.cause is Base64Decode && e.frames().len() == 0,
    {
        Self::from_decoded(filename, decode_base64(data))
    }

    /// The image from the outcome of fetching its remote source.
    pub fn from_fetched(filename: String, fetched: Result<Vec<u8>, FetchError>) -> (r: Result<Self, Error>)
        ensures
            fetched is Ok ==> r == Ok::<Self, Error>(Image { filename, data: fetched->Ok_0 }),
            fetched matches Err(FetchError::Request(m)) ==> (r matches Err(e)
                && e.is_invalid_argument("uri"@, "failed to fetch specified file"@)
                && e.cause == ErrorCause::Reqwest(m) && e.frames().len() == 0),
            fetched matches Err(FetchError::Body(m)) ==> (r matches Err(e) && e.kind is Internal
                && e.cause == ErrorCause::Reqwest(m) && e.frames() == seq!["get response bytes"@]),
    {
        match fetched {
            Ok(bytes) => Ok(Self::new(filename, bytes)),
            Err(FetchError::Request(m)) => Err(
                Error::invalid_argument("uri", "failed to fetch specified file", ErrorCause::Reqwest(m)),
            ),
            Err(FetchError::Body(m)) => {
                let e = Error::internal(ErrorCause::Reqwest(m)).context("get response bytes");
                assert(e.frames() =~= seq!["get response bytes"@]);
                Err(e)
            },
        }
    }

    /// The image from the outcome of reading it from storage: a missing
    /// file is `NotFound`, any other failure internal.
    pub fn from_storage(filename: String, read: Result<Vec<u8>, ReadError>) -> (r: Result<Self, Error>)
        ensures
            read is Ok ==> r == Ok::<Self, Error>(Image { filename, data: read->Ok_0 }),
            read matches Err(ReadError::Open(io)) ==> (r matches Err(e)
                && (io.kind == IoErrorKind::NotFound ==> e.kind is NotFound)
                && (io.kind != IoErrorKind::NotFound ==> e.kind is Internal)
                && e.cause == ErrorCause::IO(io) && e.frames() == seq!["open file"@]),
            read matches Err(ReadError::Read(io)) ==> (r matches Err(e) && e.kind is Internal
                && e.cause == ErrorCause::IO(io) && e.frames() == seq!["read file"@]),
    {
        match read {
            Ok(bytes) => Ok(Self::new(filename, bytes)),
            Err(ReadError::Open(io)) => {
                let e = Error::map_io(io, IoErrorKind::NotFound, ErrorKind::NotFound).context("open file");
                assert(e.frames() =~= seq!["open file"@]);
                Err(e)
            },
            Err(ReadError::Read(io)) => {
                let e = Error::internal(ErrorCause::IO(io)).context("read file");
                assert(e.frames() =~= seq!["read file"@]);
                Err(e)
            },
        }
    }

    /// The thumbnail of an image from the outcome of the transform.
    pub fn from_thumbnail(filename: String, transformed: Result<Vec<u8>, String>) -> (r: Result<Self, Error>)
        ensures
            transformed is Ok ==> r == Ok::<Self, Error>(Image { filename, data: transformed->Ok_0 }),
            transformed is Err ==> (r matches Err(e) && e.kind is Internal
                && e.cause == ErrorCause::Libvips(transformed->Err_0) && e.frames().len() == 0),
    {
        match transformed {
            Ok(bytes) => Ok(Self::new(filename, bytes)),
            Err(m) => Err(Error::internal(ErrorCause::Libvips(m))),
        }
    }
}

/// The outcome of storing an image, as an error of the service.
pub fn save_result(saved: Result<(), SaveError>) -> (r: Result<(), Error>)
    ensures
        saved is Ok <==> r is Ok,
        saved matches Err(SaveError::Create(io)) ==> (r matches Err(e) && e.kind is Internal
            && e.cause == ErrorCause::IO(io) && e.frames() == seq!["create file"@]),
        saved matches Err(SaveError::Write(io)) ==> (r matches Err(e) && e.kind is Internal
            && e.cause == ErrorCause::IO(io) && e.frames() == seq!["write file"@]),
{
    match saved {
        Ok(()) => Ok(()),
        Err(SaveError::Create(io)) => {
            let e = Error::internal(ErrorCause::IO(io)).context("create file");
            assert(e.frames() =~= seq!["create file"@]);
            Err(e)
        },
        Err(SaveError::Write(io)) => {
            let e = Error::internal(ErrorCause::IO(io)).context("write file");
            assert(e.frames() =~= seq!["write file"@]);
            Err(e)
        },
    }
}

} // verus!
