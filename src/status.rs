//! The HTTP status codes that the service answers with.
use vstd::prelude::*;

verus! {

/// A status code of a response of the service.
#[derive(Clone, Copy, Debug, PartialEq, Eq, Structural)]
pub enum StatusCode {
    Success,
    Created,
    BadRequest,
    NotFound,
    UnsupportedMediaType,
    InternalServerError,
}

/// The number of a status code.
pub open spec fn code_number(code: StatusCode) -> u16 {
    match code {
        StatusCode::Success => 200,
        StatusCode::Created => 201,
        StatusCode::BadRequest => 400,
        StatusCode::NotFound => 404,
        StatusCode::UnsupportedMediaType => 415,
        StatusCode::InternalServerError => 500,
    }
}

/// The canonical reason phrase of a status number, for the numbers the
/// service uses.
pub open spec fn reason_phrase(n: u16) -> Seq<char> {
    if n == 200 {
        "OK"@
    } else if n == 201 {
        "Created"@
    } else if n == 400 {
        "Bad Request"@
    } else if n == 404 {
        "Not Found"@
    } else if n == 415 {
        "Unsupported Media Type"@
    } else if n == 500 {
        "Internal Server Error"@
    } else {
        Seq::empty()
    }
}

/// Whether `reason_phrase` gives the canonical phrase of `n`.
pub open spec fn has_reason_phrase(n: u16) -> bool {
    n == 200 || n == 201 || n == 400 || n == 404 || n == 415 || n == 500
}

impl StatusCode {
    /// The number of the code, as sent on the wire.
    pub fn as_u16(self) -> (r: u16)
        ensures
            r == code_number(self),
    {
        match self {
            StatusCode::Success => 200,
            StatusCode::Created => 201,
            StatusCode::BadRequest => 400,
            StatusCode::NotFound => 404,
            StatusCode::UnsupportedMediaType => 415,
            StatusCode::InternalServerError => 500,
        }
    }

    /// Whether the code lies in 500..=599.
    pub open spec fn spec_is_server_error(self) -> bool {
        500 <= code_number(self) <= 599
    }

    /// Whether the code lies in 500..=599.
    #[verifier::when_used_as_spec(spec_is_server_error)]
    pub fn is_server_error(self) -> (r: bool)
        ensures
            r == self.spec_is_server_error(),
    {
        let n = self.as_u16();
        500 <= n && n <= 599
    }
}

/// Relies on hyper's `StatusCode::from_u16` (which accepts 100..=999) and
/// `StatusCode::canonical_reason`, whose table gives the phrases of
/// `reason_phrase` for the numbers it covers.
#[verifier::external_body]
fn canonical_reason(n: u16) -> (r: Option<&'static str>)
    ensures
        has_reason_phrase(n) ==> r is Some,
        has_reason_phrase(n) ==> r.unwrap()@ == reason_phrase(n),
{
    hyper::StatusCode::from_u16(n).ok().and_then(|c| c.canonical_reason())
}

/// The canonical reason phrase of a code, as an owned string.
pub fn default_cause(code: StatusCode) -> (r: String)
    ensures
        r@ == reason_phrase(code_number(code)),
{
    match canonical_reason(code.as_u16()) {
        Some(s) => String::from_str(s),
        None => String::new(),
    }
}

} // verus!
