use vstd::prelude::*;
use vstd::string::*;
use crate::error::{InvalidReason, LcuError};
use crate::lcu::{auth_header_of, get_auth_header};
use crate::number::{decimal, parse_u16, parsed_u16, push_decimal};
use crate::text::{contains_dot_dot, has_dot_dot, lemma_trim_keeps_dot_dot, text_eq, trim_text, trimmed};

verus! {

#[verifier::external_type_specification]
#[verifier::external_body]
pub struct ExValue(serde_json::Value);

/// What `str::to_uppercase` makes of a text.
pub uninterp spec fn upper_of(s: Seq<char>) -> Seq<char>;

/// Whether `serde_json::from_str` reads a JSON value out of a text.
pub uninterp spec fn json_accepts(s: Seq<char>) -> bool;

/// Relies on `str::to_uppercase`: the result depends on the characters alone.
#[verifier::external_body]
fn uppercase(s: &str) -> (r: String)
    ensures
        r@ == upper_of(s@),
{
    s.to_uppercase()
}

/// Relies on `serde_json::from_str`: whether it reads a value depends on the
/// text alone.
#[verifier::external_body]
fn parse_json(text: &str) -> (r: Option<serde_json::Value>)
    ensures
        r is Some == json_accepts(text@),
{
    serde_json::from_str::<serde_json::Value>(text).ok()
}

/// The HTTP methods that the allow-list uses.
#[derive(Debug, Clone, Copy, PartialEq, Eq, Structural)]
pub enum HttpMethod {
    Get,
    Put,
    Post,
}

/// The name of a method, in upper case.
pub open spec fn method_name(m: HttpMethod) -> Seq<char> {
    match m {
        HttpMethod::Get => "GET"@,
        HttpMethod::Put => "PUT"@,
        HttpMethod::Post => "POST"@,
    }
}

/// The exact (method, endpoint) pairs that may be forwarded to the local API.
pub open spec fn allowed(method: Seq<char>, endpoint: Seq<char>) -> bool {
    (method == "PUT"@ && endpoint == "/lol-chat/v1/me"@) || (method == "GET"@ && endpoint
        == "/lol-chat/v1/me"@) || (method == "PUT"@ && endpoint
        == "/lol-summoner/v1/current-summoner/icon"@) || (method == "GET"@ && endpoint
        == "/lol-challenges/v1/summary-player-data/local-player"@) || (method == "GET"@ && endpoint
        == "/lol-challenges/v1/challenges/local-player"@) || (method == "POST"@ && endpoint
        == "/lol-challenges/v1/update-player-preferences"@)
}

/// An endpoint is a non-empty path that starts with `/` and holds no `..`.
pub open spec fn endpoint_ok(e: Seq<char>) -> bool {
    e.len() > 0 && e[0] == '/' && !has_dot_dot(e)
}

/// The first reason, in the order the checks are made, to refuse a request;
/// none if it may be sent.
pub open spec fn refusal(method: Seq<char>, endpoint: Seq<char>, port: Seq<char>, token: Seq<char>) -> Option<
    InvalidReason,
> {
    let e = trimmed(endpoint);
    if !endpoint_ok(e) {
        Some(InvalidReason::Endpoint)
    } else if trimmed(token).len() == 0 {
        Some(InvalidReason::MissingToken)
    } else if parsed_u16(port) is None {
        Some(InvalidReason::Port)
    } else if !allowed(upper_of(trimmed(method)), e) {
        Some(InvalidReason::NotAllowed)
    } else {
        None
    }
}

/// The address of an endpoint of the local API on the given port.
pub open spec fn url_of(port: u16, endpoint: Seq<char>) -> Seq<char> {
    "https://127.0.0.1:"@ + decimal(port as nat) + endpoint
}

/// A request that passed every check, ready to be sent.
pub struct LcuRequest {
    pub method: HttpMethod,
    pub url: String,
    pub authorization: String,
    pub body: Option<serde_json::Value>,
}

/// Whether `(method, endpoint)` is on the allow-list; both must match exactly.
pub fn is_allowed_lcu_request(method: &str, endpoint: &str) -> (r: bool)
    ensures
        r == allowed(method@, endpoint@),
{
    (text_eq(method, "PUT") && text_eq(endpoint, "/lol-chat/v1/me")) || (text_eq(method, "GET")
        && text_eq(endpoint, "/lol-chat/v1/me")) || (text_eq(method, "PUT") && text_eq(
        endpoint,
        "/lol-summoner/v1/current-summoner/icon",
    )) || (text_eq(method, "GET") && text_eq(
        endpoint,
        "/lol-challenges/v1/summary-player-data/local-player",
    )) || (text_eq(method, "GET") && text_eq(endpoint, "/lol-challenges/v1/challenges/local-player"))
        || (text_eq(method, "POST") && text_eq(
        endpoint,
        "/lol-challenges/v1/update-player-preferences",
    ))
}

/// The address of `endpoint` on the local API at `port`.
pub fn target_url(port: u16, endpoint: &str) -> (r: String)
    ensures
        r@ == url_of(port, endpoint@),
{
    let mut url = String::from_str("https://127.0.0.1:");
    push_decimal(&mut url, port);
    url.append(endpoint);
    url
}

/// Checks a request from the user interface and builds what is to be sent.
/// The method is trimmed and upper-cased and the endpoint trimmed before the
/// checks; nothing here touches the network.
pub fn prepare_lcu_request(
    method: &str,
    endpoint: &str,
    body: Option<serde_json::Value>,
    port: &str,
    token: &str,
) -> (r: Result<LcuRequest, LcuError>)
    ensures
        match refusal(method@, endpoint@, port@, token@) {
            Some(reason) => r == Err::<LcuRequest, LcuError>(LcuError::InvalidRequest(reason)),
            None => r matches Ok(req) && method_name(req.method) == upper_of(trimmed(method@))
                && req.url@ == url_of(parsed_u16(port@).unwrap(), trimmed(endpoint@))
                && req.authorization@ == auth_header_of(token@) && req.body == body,
        },
        !allowed(upper_of(trimmed(method@)), trimmed(endpoint@)) ==> r matches Err(
            LcuError::InvalidRequest(_),
        ),
        has_dot_dot(endpoint@) ==> r == Err::<LcuRequest, LcuError>(
            LcuError::InvalidRequest(InvalidReason::Endpoint),
        ),
        parsed_u16(port@) is None ==> r matches Err(LcuError::InvalidRequest(_)),
{
    proof {
        if has_dot_dot(endpoint@) {
            lemma_trim_keeps_dot_dot(endpoint@);
        }
    }
    let upper = uppercase(trim_text(method));
    let m = upper.as_str();
    let e = trim_text(endpoint);
    if e.unicode_len() == 0 || e.get_char(0) != '/' || contains_dot_dot(e) {
        return Err(LcuError::InvalidRequest(InvalidReason::Endpoint));
    }
    if trim_text(token).unicode_len() == 0 {
        return Err(LcuError::InvalidRequest(InvalidReason::MissingToken));
    }
    let port_num = match parse_u16(port) {
        Some(p) => p,
        None => {
            return Err(LcuError::InvalidRequest(InvalidReason::Port));
        },
    };
    if !is_allowed_lcu_request(m, e) {
        return Err(LcuError::InvalidRequest(InvalidReason::NotAllowed));
    }
    let verb = if text_eq(m, "GET") {
        HttpMethod::Get
    } else if text_eq(m, "PUT") {
        HttpMethod::Put
    } else {
        HttpMethod::Post
    };
    let url = target_url(port_num, e);
    let authorization = get_auth_header(token);
    Ok(LcuRequest { method: verb, url, authorization, body })
}

/// What a successful call gives back.
#[derive(Debug)]
pub enum LcuValue {
    /// The call succeeded and the answer had nothing to say.
    Success,
    /// The answer's body, read as JSON.
    Json(serde_json::Value),
    /// The answer's body, which was not JSON, as it came.
    Text(String),
}

/// A status in the 2xx range.
pub open spec fn is_success_status(status: u16) -> bool {
    200 <= status && status <= 299
}

/// Turns the local API's answer into the call's outcome, given what reading
/// the body as JSON gave (`parsed`).
pub fn classify_response(status: u16, text: String, parsed: Option<serde_json::Value>) -> (r: Result<
    LcuValue,
    LcuError,
>)
    ensures
        status == 204 ==> r == Ok::<LcuValue, LcuError>(LcuValue::Success),
        is_success_status(status) && status != 204 && text@.len() == 0 ==> r == Ok::<
            LcuValue,
            LcuError,
        >(LcuValue::Success),
        is_success_status(status) && status != 204 && text@.len() > 0 ==> r == Ok::<
            LcuValue,
            LcuError,
        >(
            match parsed {
                Some(v) => LcuValue::Json(v),
                None => LcuValue::Text(text),
            },
        ),
        !is_success_status(status) ==> r == Err::<LcuValue, LcuError>(
            LcuError::RemoteRejection { status, body: text },
        ),
{
    if status == 204 {
        return Ok(LcuValue::Success);
    }
    if 200 <= status && status <= 299 {
        if text.as_str().unicode_len() == 0 {
            Ok(LcuValue::Success)
        } else {
            match parsed {
                Some(v) => Ok(LcuValue::Json(v)),
                None => Ok(LcuValue::Text(text)),
            }
        }
    } else {
        Err(LcuError::RemoteRejection { status, body: text })
    }
}

/// Turns the local API's answer (its status and body) into the call's
/// outcome: a body that is not JSON comes back as text, never as a failure.
pub fn interpret_response(status: u16, text: String) -> (r: Result<LcuValue, LcuError>)
    ensures
        status == 204 ==> r == Ok::<LcuValue, LcuError>(LcuValue::Success),
        is_success_status(status) && status != 204 && text@.len() == 0 ==> r == Ok::<
            LcuValue,
            LcuError,
        >(LcuValue::Success),
        is_success_status(status) && status != 204 && text@.len() > 0 ==> (r matches Ok(
            LcuValue::Json(_),
        )) == json_accepts(text@),
        is_success_status(status) && status != 204 && text@.len() > 0 && !json_accepts(text@)
            ==> r == Ok::<LcuValue, LcuError>(LcuValue::Text(text)),
        !is_success_status(status) ==> r == Err::<LcuValue, LcuError>(
            LcuError::RemoteRejection { status, body: text },
        ),
{
    let parsed = if status != 204 && 200 <= status && status <= 299 {
        parse_json(text.as_str())
    } else {
        None
    };
    classify_response(status, text, parsed)
}

} // verus!
