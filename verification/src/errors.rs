//! The error type of every operation, and the classification of failed
//! responses.

use crate::decimal::{decimal, push_decimal};
use reqwest::Error as ReqwestError;
use serde_json::Error as JsonError;
use vstd::prelude::*;
use vstd::string::*;

verus! {

/// `reqwest::Error`, the failure of a call over HTTP. It is carried through
/// as it came: nothing is known here of what it holds.
#[verifier::external_type_specification]
#[verifier::external_body]
pub struct ExReqwestError(ReqwestError);

/// `serde_json::Error`, the failure to decode a body. It is carried through
/// as it came: nothing is known here of what it holds.
#[verifier::external_type_specification]
#[verifier::external_body]
pub struct ExJsonError(JsonError);

/// The structured payload that the service sends with a failed call.
#[derive(PartialEq, Clone, Debug)]
pub struct ApiErrorData {
    pub code: Option<u16>,
    pub error: Option<String>,
    pub error_detail: Option<String>,
}

/// What went wrong in an operation of this library.
#[derive(Debug)]
pub struct Error {
    pub kind: Kind,
}

/// The kinds of errors.
#[derive(Debug)]
pub enum Kind {
    /// Configuration that is missing or unusable.
    Config(String),
    /// A response body that does not have the expected shape.
    Deserialization(String),
    /// A status other than 200 whose body carried a message.
    DetailedHttpCode(u16, String),
    /// A status other than 200 whose body could not be read as a message.
    HttpCode(u16),
    /// An argument that was refused before any request was made.
    IllegalParameter(String),
    /// Calls that succeeded but whose outcome makes no sense together.
    IllegalResult(String),
    /// A failure of the transport, handed on as it came.
    Reqwest(ReqwestError),
}

/// The mathematical content of a [`Kind`]: each message as a sequence of
/// characters.
pub enum KindView {
    Config(Seq<char>),
    Deserialization(Seq<char>),
    DetailedHttpCode(u16, Seq<char>),
    HttpCode(u16),
    IllegalParameter(Seq<char>),
    IllegalResult(Seq<char>),
    Reqwest(ReqwestError),
}

impl View for Kind {
    type V = KindView;

    open spec fn view(&self) -> KindView {
        match self {
            Kind::Config(s) => KindView::Config(s@),
            Kind::Deserialization(s) => KindView::Deserialization(s@),
            Kind::DetailedHttpCode(code, s) => KindView::DetailedHttpCode(*code, s@),
            Kind::HttpCode(code) => KindView::HttpCode(*code),
            Kind::IllegalParameter(s) => KindView::IllegalParameter(s@),
            Kind::IllegalResult(s) => KindView::IllegalResult(s@),
            Kind::Reqwest(e) => KindView::Reqwest(*e),
        }
    }
}

impl View for Error {
    type V = KindView;

    open spec fn view(&self) -> KindView {
        self.kind@
    }
}

/// The mathematical content of an [`ApiErrorData`].
pub struct ApiErrorDataView {
    pub code: Option<u16>,
    pub error: Option<Seq<char>>,
    pub error_detail: Option<Seq<char>>,
}

impl View for ApiErrorData {
    type V = ApiErrorDataView;

    open spec fn view(&self) -> ApiErrorDataView {
        ApiErrorDataView {
            code: self.code,
            error: match self.error {
                Some(s) => Some(s@),
                None => None,
            },
            error_detail: match self.error_detail {
                Some(s) => Some(s@),
                None => None,
            },
        }
    }
}

impl DeepView for ApiErrorData {
    type V = ApiErrorDataView;

    open spec fn deep_view(&self) -> ApiErrorDataView {
        self@
    }
}

impl ApiErrorDataView {
    /// The message that the payload carries: `error`, then `error_detail`,
    /// with `" | "` between them where both say something. An `error` that
    /// is missing or empty leaves the detail alone.
    pub open spec fn message(self) -> Seq<char> {
        let err = match self.error {
            Some(e) => e,
            None => Seq::empty(),
        };
        match self.error_detail {
            None => err,
            Some(detail) => if err.len() == 0 {
                detail
            } else {
                err + " | "@ + detail
            },
        }
    }
}

impl KindView {
    /// The text that describes an error of this kind to a reader.
    /// `transport` is the text of the transport failure, which only the
    /// `Reqwest` kind uses.
    pub open spec fn describe(self, transport: Seq<char>) -> Seq<char> {
        match self {
            KindView::Config(s) => "Configuration issue: "@ + s,
            KindView::Deserialization(s) => "Problem deserializing the response: "@ + s,
            KindView::DetailedHttpCode(code, s) => "HTTP "@ + decimal(code as nat) + ": "@ + s,
            KindView::HttpCode(code) => "HTTP "@ + decimal(code as nat),
            KindView::IllegalParameter(s) => "Illegal parameter: "@ + s,
            KindView::IllegalResult(s) => "Illegal result: "@ + s,
            KindView::Reqwest(_) => "Problem with API call: "@ + transport,
        }
    }
}

/// What a failed call is classified as: the status with the payload's
/// message where the body held a payload, the bare status where it did not.
pub open spec fn api_error_view(code: u16, data: Option<ApiErrorDataView>) -> KindView {
    match data {
        Some(d) => KindView::DetailedHttpCode(code, d.message()),
        None => KindView::HttpCode(code),
    }
}

/// Whether `error` is what the decoding failure `failure` becomes: a
/// `Deserialization` whose message is the failure's own text.
pub open spec fn is_decoding_failure(failure: JsonError, error: Error) -> bool {
    error.kind matches Kind::Deserialization(msg) && to_string_from_display_ensures::<JsonError>(
        &failure,
        msg,
    )
}

/// The view of an outcome: the view of the value, or of the error.
pub open spec fn outcome_view<T: View>(r: Result<T, Error>) -> Result<T::V, KindView> {
    match r {
        Ok(v) => Ok(v@),
        Err(e) => Err(e@),
    }
}

/// Classifies a response whose status is not 200. `data` is the body read as
/// an error payload, or `None` where the body is no such payload.
pub fn api_error(code: u16, data: Option<ApiErrorData>) -> (e: Error)
    ensures
        e@ == api_error_view(code, data.deep_view()),
{
    match data {
        Some(d) => {
            let msg = msg_from_api_error_data(&d);
            Error { kind: Kind::DetailedHttpCode(code, msg) }
        },
        None => Error { kind: Kind::HttpCode(code) },
    }
}

/// The message that an error payload carries.
pub fn msg_from_api_error_data(data: &ApiErrorData) -> (msg: String)
    ensures
        msg@ == data@.message(),
{
    let err = match &data.error {
        Some(s) => s.clone(),
        None => String::new(),
    };
    match &data.error_detail {
        None => err,
        Some(detail) => {
            if err.as_str().is_empty() {
                detail.clone()
            } else {
                let mut msg = err;
                msg.append(" | ");
                msg.append(detail.as_str());
                msg
            }
        },
    }
}

impl From<ReqwestError> for Error {
    /// A failure of the transport is handed on as it came.
    fn from(e: ReqwestError) -> (r: Error) {
        Error { kind: Kind::Reqwest(e) }
    }
}

impl vstd::std_specs::convert::FromSpecImpl<ReqwestError> for Error {
    open spec fn obeys_from_spec() -> bool {
        true
    }

    open spec fn from_spec(e: ReqwestError) -> Error {
        Error { kind: Kind::Reqwest(e) }
    }
}

impl From<JsonError> for Error {
    /// A decoding failure becomes `Deserialization` with the failure's own
    /// text as the message.
    fn from(e: JsonError) -> (r: Error)
        ensures
            is_decoding_failure(e, r),
    {
        Error { kind: Kind::Deserialization(e.to_string()) }
    }
}

/// The text of a failure is given by a relation, not by a function, so
/// `from_spec` can only pick one text of the failure. What `from` returns
/// is stated by its own contract.
impl vstd::std_specs::convert::FromSpecImpl<JsonError> for Error {
    open spec fn obeys_from_spec() -> bool {
        false
    }

    open spec fn from_spec(e: JsonError) -> Error {
        Error {
            kind: Kind::Deserialization(
                choose|msg: String| to_string_from_display_ensures::<JsonError>(&e, msg),
            ),
        }
    }
}

impl Error {
    /// The text that describes the error to a reader.
    pub fn message(&self) -> (r: String)
        ensures
            !(self.kind is Reqwest) ==> r@ == self@.describe(Seq::empty()),
            self.kind matches Kind::Reqwest(e) ==> exists|t: String|
                to_string_from_display_ensures::<ReqwestError>(&e, t) && r@ == self@.describe(t@),
    {
        match &self.kind {
            Kind::Config(s) => {
                let mut r = String::from_str("Configuration issue: ");
                r.append(s.as_str());
                r
            },
            Kind::Deserialization(s) => {
                let mut r = String::from_str("Problem deserializing the response: ");
                r.append(s.as_str());
                r
            },
            Kind::DetailedHttpCode(code, s) => {
                let mut r = String::from_str("HTTP ");
                push_decimal(&mut r, *code as u64);
                r.append(": ");
                r.append(s.as_str());
                r
            },
            Kind::HttpCode(code) => {
                let mut r = String::from_str("HTTP ");
                push_decimal(&mut r, *code as u64);
                r
            },
            Kind::IllegalParameter(s) => {
                let mut r = String::from_str("Illegal parameter: ");
                r.append(s.as_str());
                r
            },
            Kind::IllegalResult(s) => {
                let mut r = String::from_str("Illegal result: ");
                r.append(s.as_str());
                r
            },
            Kind::Reqwest(e) => {
                let t = e.to_string();
                let mut r = String::from_str("Problem with API call: ");
                r.append(t.as_str());
                r
            },
        }
    }
}

} // verus!
