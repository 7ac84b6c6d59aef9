//! The library's errors, and the decoding of a response body into a success value or
//! the service's structured error.
use crate::json::{deref, field, opt_text_of, opt_view, text_of, Json};
use vstd::prelude::*;

verus! {

/// One reason that the service gave for a failure.
#[derive(Debug)]
pub struct FieldError {
    /// The scope of the reason, such as `global`.
    pub domain: String,
    /// The reason, such as `notFound`.
    pub reason: String,
    /// A description of the failure.
    pub message: String,
    /// The kind of location that failed, where given.
    pub location_type: Option<String>,
    /// The location that failed, where given.
    pub location: Option<String>,
}

/// The content of a `FieldError`.
pub struct FieldErrorView {
    pub domain: Seq<char>,
    pub reason: Seq<char>,
    pub message: Seq<char>,
    pub location_type: Option<Seq<char>>,
    pub location: Option<Seq<char>>,
}

impl View for FieldError {
    type V = FieldErrorView;

    open spec fn view(&self) -> FieldErrorView {
        FieldErrorView {
            domain: self.domain@,
            reason: self.reason@,
            message: self.message@,
            location_type: opt_view(self.location_type),
            location: opt_view(self.location),
        }
    }
}

/// A failure that the service reported: its status code, its message, and its reasons.
#[derive(Debug)]
pub struct RemoteError {
    /// The HTTP status code, such as 404.
    pub code: u16,
    /// A description of the failure.
    pub message: String,
    /// The reasons given, one for each failing part of the request.
    pub field_errors: Vec<FieldError>,
}

/// The content of a `RemoteError`.
pub struct RemoteErrorView {
    pub code: u16,
    pub message: Seq<char>,
    pub field_errors: Seq<FieldErrorView>,
}

impl View for RemoteError {
    type V = RemoteErrorView;

    open spec fn view(&self) -> RemoteErrorView {
        RemoteErrorView {
            code: self.code,
            message: self.message@,
            field_errors: self.field_errors@.map_values(|e: FieldError| e@),
        }
    }
}

/// Every way in which an operation of this library can fail.
#[derive(Debug)]
pub enum Error {
    /// No credential or project could be resolved.
    Configuration(String),
    /// The identity provider would not issue a token.
    Auth(String),
    /// The request did not reach the service, or its response could not be read.
    Transport(String),
    /// A response body had neither the expected shape nor the shape of an error.
    Decode(String),
    /// The service reported a failure.
    Remote(RemoteError),
    /// The operation needs a service account and none is configured.
    MissingServiceAccount,
}

/// A library result.
pub type Result<T> = std::result::Result<T, Error>;

/// The value read for the member `what`, or a decode failure that names it.
pub fn need<T>(o: Option<T>, what: &str) -> (r: Result<T>)
    ensures
        match o {
            Some(x) => r == Ok::<T, Error>(x),
            None => r matches Err(Error::Decode(_)),
        },
{
    match o {
        Some(x) => Ok(x),
        None => Err(
            Error::Decode(String::from_str("missing or invalid member `").concat(what).concat("`")),
        ),
    }
}

/// The value of a string of decimal digits.
pub open spec fn digits_value(s: Seq<char>) -> nat
    decreases s.len(),
{
    if s.len() == 0 {
        0
    } else {
        digits_value(s.drop_last()) * 10 + (s.last() as u32 - 0x30) as nat
    }
}

/// Every character of `s` is a decimal digit.
pub open spec fn all_digits(s: Seq<char>) -> bool {
    forall|i: int| 0 <= i < s.len() ==> '0' <= #[trigger] s[i] <= '9'
}

/// The status code written as `s`: one or more decimal digits, of value at most 65535.
pub open spec fn code_of(s: Seq<char>) -> Option<u16> {
    if s.len() > 0 && all_digits(s) && digits_value(s) <= 65535 {
        Some(digits_value(s) as u16)
    } else {
        None
    }
}

/// A status code in a JSON member, written as a number or as a string.
pub open spec fn code_in(v: Option<Json>) -> Option<u16> {
    match v {
        Some(Json::Number(t)) => code_of(t@),
        Some(Json::Str(t)) => code_of(t@),
        _ => None,
    }
}

fn parse_code(s: &str) -> (r: Option<u16>)
    ensures
        r == code_of(s@),
{
    let n = s.unicode_len();
    if n == 0 {
        return None;
    }
    let mut v: u32 = 0;
    let mut i: usize = 0;
    while i < n
        invariant
            0 <= i <= n,
            n == s@.len(),
            all_digits(s@.subrange(0, i as int)),
            v <= 65536,
            v == if digits_value(s@.subrange(0, i as int)) < 65536 {
                digits_value(s@.subrange(0, i as int))
            } else {
                65536
            },
        decreases n - i,
    {
        let c = s.get_char(i);
        if !('0' <= c && c <= '9') {
            assert(!all_digits(s@)) by {
                assert(s@[i as int] == c);
            }
            return None;
        }
        let d = c as u32 - 0x30;
        proof {
            let p = s@.subrange(0, i + 1);
            assert(p.drop_last() =~= s@.subrange(0, i as int));
            assert(p.last() == c);
            assert(all_digits(p)) by {
                assert forall|k: int| 0 <= k < p.len() implies '0' <= #[trigger] p[k] <= '9' by {
                    if k < i {
                        assert(p[k] == s@.subrange(0, i as int)[k]);
                    }
                }
            }
        }
        if v * 10 + d >= 65536 {
            v = 65536;
        } else {
            v = v * 10 + d;
        }
        i = i + 1;
    }
    assert(s@.subrange(0, n as int) =~= s@);
    if v <= 65535 {
        Some(v as u16)
    } else {
        None
    }
}

/// The reason that a JSON object describes.
pub open spec fn field_error_of(j: Json) -> Option<FieldErrorView> {
    match (
        text_of(field(j, "domain"@)),
        text_of(field(j, "reason"@)),
        text_of(field(j, "message"@)),
        opt_text_of(field(j, "locationType"@)),
        opt_text_of(field(j, "location"@)),
    ) {
        (Some(domain), Some(reason), Some(message), Some(location_type), Some(location)) => Some(
            FieldErrorView { domain, reason, message, location_type, location },
        ),
        _ => None,
    }
}

/// The reasons that a JSON array describes, where each element describes one.
pub open spec fn field_errors_of(items: Seq<Json>) -> Option<Seq<FieldErrorView>> {
    if forall|i: int| 0 <= i < items.len() ==> (#[trigger] field_error_of(items[i])) is Some {
        Some(items.map_values(|x: Json| field_error_of(x)->0))
    } else {
        None
    }
}

/// The reasons in the optional member `errors`; an absent member gives none.
pub open spec fn errors_in(v: Option<Json>) -> Option<Seq<FieldErrorView>> {
    match v {
        None => Some(Seq::empty()),
        Some(Json::Array(items)) => field_errors_of(items@),
        _ => None,
    }
}

/// The failure that the `error` object of a response describes.
pub open spec fn remote_error_of(e: Json) -> Option<RemoteErrorView> {
    match (code_in(field(e, "code"@)), text_of(field(e, "message"@)), errors_in(field(e, "errors"@))) {
        (Some(code), Some(message), Some(field_errors)) => Some(
            RemoteErrorView { code, message, field_errors },
        ),
        _ => None,
    }
}

impl FieldError {
    /// Reads a reason from its JSON object.
    pub fn from_json(j: &Json) -> (r: Option<FieldError>)
        ensures
            match r {
                Some(e) => field_error_of(*j) == Some(e@),
                None => field_error_of(*j) is None,
            },
    {
        match (
            j.text("domain"),
            j.text("reason"),
            j.text("message"),
            j.opt_text("locationType"),
            j.opt_text("location"),
        ) {
            (Some(domain), Some(reason), Some(message), Some(location_type), Some(location)) => {
                Some(FieldError { domain, reason, message, location_type, location })
            },
            _ => None,
        }
    }
}

impl RemoteError {
    /// Reads a failure from the `error` object of a response.
    pub fn from_json(e: &Json) -> (r: Option<RemoteError>)
        ensures
            match r {
                Some(x) => remote_error_of(*e) == Some(x@),
                None => remote_error_of(*e) is None,
            },
    {
        let code = match e.get("code") {
            Some(Json::Number(t)) => parse_code(t.as_str()),
            Some(Json::Str(t)) => parse_code(t.as_str()),
            _ => None,
        };
        let message = e.text("message");
        let field_errors = errors_from(e.get("errors"));
        match (code, message, field_errors) {
            (Some(code), Some(message), Some(field_errors)) => {
                let r = RemoteError { code, message, field_errors };
                Some(r)
            },
            _ => None,
        }
    }
}

fn errors_from(v: Option<&Json>) -> (r: Option<Vec<FieldError>>)
    ensures
        match r {
            Some(x) => errors_in(deref(v)) == Some(x@.map_values(|y: FieldError| y@)),
            None => errors_in(deref(v)) is None,
        },
{
    match v {
        None => {
            let out: Vec<FieldError> = Vec::new();
            assert(out@.map_values(|y: FieldError| y@) =~= Seq::<FieldErrorView>::empty());
            Some(out)
        },
        Some(Json::Array(items)) => field_errors_from(items),
        _ => None,
    }
}

fn field_errors_from(items: &Vec<Json>) -> (r: Option<Vec<FieldError>>)
    ensures
        match r {
            Some(v) => field_errors_of(items@) == Some(v@.map_values(|x: FieldError| x@)),
            None => field_errors_of(items@) is None,
        },
{
    let mut out: Vec<FieldError> = Vec::new();
    let mut i: usize = 0;
    while i < items.len()
        invariant
            0 <= i <= items@.len(),
            out@.len() == i,
            forall|k: int| 0 <= k < i ==> field_error_of(#[trigger] items@[k]) == Some(out@[k]@),
        decreases items@.len() - i,
    {
        match FieldError::from_json(&items[i]) {
            Some(e) => {
                out.push(e);
            },
            None => {
                assert(field_error_of(items@[i as int]) is None);
                return None;
            },
        }
        i = i + 1;
    }
    assert(items@.map_values(|x: Json| field_error_of(x)->0) =~= out@.map_values(
        |x: FieldError| x@,
    ));
    Some(out)
}

} // verus!
