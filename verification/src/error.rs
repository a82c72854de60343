//! Error types returned across the SDK, and the reading of gateway error
//! bodies.
use vstd::prelude::*;

use crate::json::{
    json_member, json_member_doc, json_parse, json_str, parse_json, JsonModel, JsonValue,
};
use crate::text::{decimal, push_str, trim, trim_ws, u64_to_decimal};

verus! {

/// `url::ParseError`, the error of `url::Url::parse`.
#[verifier::external_type_specification]
#[verifier::external_body]
pub struct ExUrlParseError(url::ParseError);

/// `reqwest::Error`, a transport failure.
#[verifier::external_type_specification]
#[verifier::external_body]
pub struct ExReqwestError(reqwest::Error);

/// `serde_json::Error`, a failure to decode a response body.
#[verifier::external_type_specification]
#[verifier::external_body]
pub struct ExSerdeJsonError(serde_json::Error);

/// Errors returned by every fallible operation of the client.
///
/// Transport, decoding, timeout, and cancellation failures are distinct
/// variants so callers can react to each without string matching. API-level
/// failures (any non-2xx response with a parseable body) are carried by
/// [`SkailarError::Api`] wrapping an [`ApiError`].
#[derive(Debug)]
#[non_exhaustive]
pub enum SkailarError {
    /// No API key was supplied and `SKAILAR_API_KEY` was unset or empty.
    MissingApiKey,
    /// The configured base URL could not be parsed.
    InvalidBaseUrl(url::ParseError),
    /// The gateway returned a non-2xx status.
    Api(Box<ApiError>),
    /// A transport-level failure occurred (DNS, TLS, connection reset).
    Network(reqwest::Error),
    /// The request exceeded the configured per-attempt timeout.
    Timeout {
        /// The per-attempt timeout, in seconds.
        timeout_secs: u64,
    },
    /// The request was aborted by the caller before completion.
    Aborted,
    /// A successful response carried a body that could not be deserialized.
    Decode(serde_json::Error),
    /// A streaming event could not be parsed.
    MalformedStreamEvent(String),
}

/// A structured error returned by the Skailar gateway.
///
/// Use the predicate helpers ([`ApiError::is_auth`], [`ApiError::is_rate_limit`],
/// …) for branching, or match on [`ApiError::status`] directly.
#[derive(Debug, Clone)]
#[non_exhaustive]
pub struct ApiError {
    /// HTTP status code of the response.
    pub status: u16,
    /// Machine-readable error code from the response body, when present.
    pub code: Option<String>,
    /// Human-readable error message.
    pub message: String,
    /// Server-assigned request identifier, when present in the response headers.
    pub request_id: Option<String>,
    /// The parsed JSON body, when the response had one.
    pub raw: Option<JsonValue>,
    /// Seconds to wait before retrying, parsed from `Retry-After` on a 429.
    ///
    /// This is the uncapped server value; the client's own retry loop caps the
    /// delay it actually waits at 60 seconds.
    pub retry_after: Option<u64>,
}

/// The view of an optional string.
pub open spec fn opt_view(o: Option<String>) -> Option<Seq<char>> {
    match o {
        Some(s) => Some(s@),
        None => None,
    }
}

/// The view of an optional JSON document.
pub open spec fn opt_json_view(o: Option<JsonValue>) -> Option<JsonModel> {
    match o {
        Some(v) => Some(v@),
        None => None,
    }
}

/// `error`
pub open spec fn key_error() -> Seq<char> {
    seq!['e', 'r', 'r', 'o', 'r']
}

/// `message`
pub open spec fn key_message() -> Seq<char> {
    seq!['m', 'e', 's', 's', 'a', 'g', 'e']
}

/// `type`
pub open spec fn key_type() -> Seq<char> {
    seq!['t', 'y', 'p', 'e']
}

/// `code`
pub open spec fn key_code() -> Seq<char> {
    seq!['c', 'o', 'd', 'e']
}

/// `(code, message)` of a Skailar/OpenAI error body, in the three layouts the
/// gateway uses:
/// - flat: `{ "error": "code", "message": "msg" }`
/// - nested object: `{ "error": { "type" | "code": "...", "message": "..." } }`
/// - OpenAI-style: `{ "error": { "code": "...", "message": "..." } }`
///
/// Without an `error` member, only a top-level `message` is read. In the
/// nested layouts `type` wins over `code` when both are present, even when
/// `type` is not a string.
pub open spec fn error_fields(body: JsonModel) -> (Option<Seq<char>>, Option<Seq<char>>) {
    match json_member(body, key_error()) {
        None => (None, json_str(json_member_doc(body, key_message()))),
        Some(error_text) => {
            let error = json_parse(error_text);
            match error {
                Some(JsonModel::Str(code)) => (
                    Some(code),
                    json_str(json_member_doc(body, key_message())),
                ),
                Some(e) => {
                    let code_text = match json_member(e, key_type()) {
                        Some(t) => Some(t),
                        None => json_member(e, key_code()),
                    };
                    let code = match code_text {
                        Some(t) => json_str(json_parse(t)),
                        None => None,
                    };
                    (code, json_str(json_member_doc(e, key_message())))
                },
                None => (None, None),
            }
        },
    }
}

/// `HTTP ` followed by the status in decimal.
pub open spec fn http_status_text(status: u16) -> Seq<char> {
    seq!['H', 'T', 'T', 'P', ' '] + decimal(status as nat)
}

/// The message of an API error: the body's message, or else the trimmed body,
/// or else `HTTP <status>` for a blank body.
pub open spec fn api_error_message(status: u16, body_text: Seq<char>) -> Seq<char> {
    let fields = match json_parse(body_text) {
        Some(doc) => error_fields(doc),
        None => (None, None),
    };
    match fields.1 {
        Some(m) => m,
        None => if trim_ws(body_text).len() == 0 {
            http_status_text(status)
        } else {
            trim_ws(body_text)
        },
    }
}

/// The code of an API error: read from the body, when it parses.
pub open spec fn api_error_code(body_text: Seq<char>) -> Option<Seq<char>> {
    match json_parse(body_text) {
        Some(doc) => error_fields(doc).0,
        None => None,
    }
}

impl SkailarError {
    /// Returns the [`ApiError`] if this is an API-level failure.
    pub fn as_api(&self) -> (r: Option<&ApiError>)
        ensures
            match self {
                SkailarError::Api(e) => r == Some(&**e),
                _ => r is None,
            },
    {
        match self {
            SkailarError::Api(e) => Some(e),
            _ => None,
        }
    }

    /// Wraps an [`ApiError`].
    pub fn api(error: ApiError) -> (r: Self)
        ensures
            r == SkailarError::Api(Box::new(error)),
    {
        SkailarError::Api(Box::new(error))
    }

    /// Maps a transport failure, given whether it was a timeout, to
    /// [`SkailarError::Timeout`] or [`SkailarError::Network`].
    pub fn from_transport(err: reqwest::Error, timed_out: bool, timeout_secs: u64) -> (r: Self)
        ensures
            timed_out ==> r == (SkailarError::Timeout { timeout_secs }),
            !timed_out ==> r == SkailarError::Network(err),
    {
        if timed_out {
            SkailarError::Timeout { timeout_secs }
        } else {
            SkailarError::Network(err)
        }
    }

    /// Maps a `reqwest::Error` to [`SkailarError::Timeout`] when reqwest reports a
    /// timeout, and to [`SkailarError::Network`] otherwise.
    pub fn from_reqwest(err: reqwest::Error, timeout_secs: u64) -> (r: Self)
        ensures
            reqwest_timed_out(err) ==> r == (SkailarError::Timeout { timeout_secs }),
            !reqwest_timed_out(err) ==> r == SkailarError::Network(err),
    {
        let timed_out = reqwest_is_timeout(&err);
        SkailarError::from_transport(err, timed_out, timeout_secs)
    }
}

/// Whether `reqwest::Error::is_timeout` reports the failure `err` as a
/// timeout; the answer depends on the error value alone (its kind and source
/// chain).
pub uninterp spec fn reqwest_timed_out(err: reqwest::Error) -> bool;

/// `reqwest::Error::is_timeout`: whether the failure was a timeout. The
/// contract claims only that the answer is what `reqwest_timed_out` names for
/// the error.
#[verifier::external_body]
fn reqwest_is_timeout(err: &reqwest::Error) -> (r: bool)
    ensures
        r == reqwest_timed_out(*err),
{
    err.is_timeout()
}

impl ApiError {
    /// Whether the status is `401 Unauthorized`.
    pub fn is_auth(&self) -> (r: bool)
        ensures
            r == (self.status == 401),
    {
        self.status == 401
    }

    /// Whether the status is `400 Bad Request`.
    pub fn is_bad_request(&self) -> (r: bool)
        ensures
            r == (self.status == 400),
    {
        self.status == 400
    }

    /// Whether the status is `404 Not Found`.
    pub fn is_not_found(&self) -> (r: bool)
        ensures
            r == (self.status == 404),
    {
        self.status == 404
    }

    /// Whether the status is `429 Too Many Requests`.
    pub fn is_rate_limit(&self) -> (r: bool)
        ensures
            r == (self.status == 429),
    {
        self.status == 429
    }

    /// Whether the status is in the `5xx` range.
    pub fn is_upstream(&self) -> (r: bool)
        ensures
            r == (500 <= self.status <= 599),
    {
        500 <= self.status && self.status <= 599
    }

    /// `API error (<status>): <message>`, the rendering of the error.
    pub fn to_display_string(&self) -> (r: String)
        ensures
            r@ == seq!['A', 'P', 'I', ' ', 'e', 'r', 'r', 'o', 'r', ' ', '('] + decimal(
                self.status as nat,
            ) + seq![')', ':', ' '] + self.message@,
    {
        let mut s = String::new();
        push_str(&mut s, "API error (");
        push_str(&mut s, u64_to_decimal(self.status as u64).as_str());
        push_str(&mut s, "): ");
        push_str(&mut s, self.message.as_str());
        proof {
            reveal_strlit("API error (");
            reveal_strlit("): ");
        }
        assert(s@ =~= seq!['A', 'P', 'I', ' ', 'e', 'r', 'r', 'o', 'r', ' ', '('] + decimal(
            self.status as nat,
        ) + seq![')', ':', ' '] + self.message@);
        s
    }
}

/// Extracts `(code, message)` from a Skailar/OpenAI error body.
///
/// Tolerant of three layouts so the SDK keeps working if the gateway shape
/// shifts:
/// - flat: `{ "error": "code", "message": "msg" }`
/// - nested object: `{ "error": { "type" | "code": "...", "message": "..." } }`
/// - OpenAI-style: `{ "error": { "code": "...", "message": "..." } }`
pub fn parse_error_fields(body: &JsonValue) -> (r: (Option<String>, Option<String>))
    ensures
        (opt_view(r.0), opt_view(r.1)) == error_fields(body@),
{
    proof {
        reveal_strlit("error");
        reveal_strlit("message");
        reveal_strlit("type");
        reveal_strlit("code");
    }
    assert("error"@ =~= key_error());
    assert("message"@ =~= key_message());
    assert("type"@ =~= key_type());
    assert("code"@ =~= key_code());
    let error_text = match body.get("error") {
        None => {
            return (None, body.member_str("message"));
        },
        Some(t) => t,
    };
    match parse_json(error_text.as_str()) {
        Some(JsonValue::Str(code)) => (Some(code), body.member_str("message")),
        Some(error) => {
            let code = match error.get("type") {
                Some(t) => Some(t),
                None => error.get("code"),
            };
            let code = match code {
                Some(t) => match parse_json(t.as_str()) {
                    Some(JsonValue::Str(c)) => Some(c),
                    _ => None,
                },
                None => None,
            };
            (code, error.member_str("message"))
        },
        None => (None, None),
    }
}

/// Builds the [`ApiError`] for a non-2xx response from its status, request id,
/// `Retry-After` value and body text.
pub fn build_api_error(
    status: u16,
    request_id: Option<String>,
    retry_after: Option<u64>,
    body_text: &str,
) -> (r: ApiError)
    ensures
        r.status == status,
        r.request_id == request_id,
        r.retry_after == retry_after,
        opt_json_view(r.raw) == json_parse(body_text@),
        opt_view(r.code) == api_error_code(body_text@),
        r.message@ == api_error_message(status, body_text@),
{
    let raw = parse_json(body_text);
    let (code, message) = match &raw {
        Some(doc) => parse_error_fields(doc),
        None => (None, None),
    };
    let message = match message {
        Some(m) => m,
        None => {
            let trimmed = trim(body_text);
            if trimmed.as_str().is_empty() {
                let mut m = String::new();
                push_str(&mut m, "HTTP ");
                push_str(&mut m, u64_to_decimal(status as u64).as_str());
                proof {
                    reveal_strlit("HTTP ");
                }
                assert(m@ =~= http_status_text(status));
                m
            } else {
                trimmed
            }
        },
    };
    ApiError { status, code, message, request_id, raw, retry_after }
}

} // verus!
