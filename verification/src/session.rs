//! The state of a WebDriver session, and how the client reads the WebDriver's replies.
//!
//! The client sends one request at a time. For each command it asks the session for the HTTP
//! request to send, sends it, and hands the reply back to be decoded: the decisions are made
//! here, the network exchange is made by the caller.
use crate::command::{Method, WebDriverCommand, WireRequest};
use crate::error::{status_from_text, status_text, CmdError, ErrorStatus, NewSessionError, WebDriver};
use crate::json::{Json, JsonMap, JsonNumber};
use crate::text::{contains, has_infix, has_prefix, starts_with, str_eq, string_append};
use crate::client::{join_url, url_joined, url_password, url_username};
use crate::wd::Capabilities;
use base64::Engine;
use vstd::prelude::*;
use vstd::utf8::encode_utf8;

verus! {

/// The error status that a legacy status code stands for, if any.
///
/// See the [JSON wire protocol](https://www.selenium.dev/documentation/legacy/json_wire_protocol/#response-status-codes).
pub open spec fn legacy_error_status(code: u64) -> Option<ErrorStatus> {
    match code {
        6 | 33 => Some(ErrorStatus::SessionNotCreated),
        7 => Some(ErrorStatus::NoSuchElement),
        8 => Some(ErrorStatus::NoSuchFrame),
        9 => Some(ErrorStatus::UnknownCommand),
        10 => Some(ErrorStatus::StaleElementReference),
        11 => Some(ErrorStatus::ElementNotInteractable),
        12 => Some(ErrorStatus::InvalidElementState),
        13 => Some(ErrorStatus::UnknownError),
        15 => Some(ErrorStatus::ElementNotSelectable),
        17 => Some(ErrorStatus::JavascriptError),
        19 | 32 => Some(ErrorStatus::InvalidSelector),
        21 => Some(ErrorStatus::Timeout),
        23 => Some(ErrorStatus::NoSuchWindow),
        24 => Some(ErrorStatus::InvalidCookieDomain),
        25 => Some(ErrorStatus::UnableToSetCookie),
        26 => Some(ErrorStatus::UnexpectedAlertOpen),
        27 => Some(ErrorStatus::NoSuchAlert),
        28 => Some(ErrorStatus::ScriptTimeout),
        29 => Some(ErrorStatus::InvalidCoordinates),
        34 => Some(ErrorStatus::MoveTargetOutOfBounds),
        _ => None,
    }
}

/// The error status that a legacy status code stands for, if any.
pub fn legacy_status_error(code: u64) -> (r: Option<ErrorStatus>)
    ensures
        r == legacy_error_status(code),
{
    match code {
        6 | 33 => Some(ErrorStatus::SessionNotCreated),
        7 => Some(ErrorStatus::NoSuchElement),
        8 => Some(ErrorStatus::NoSuchFrame),
        9 => Some(ErrorStatus::UnknownCommand),
        10 => Some(ErrorStatus::StaleElementReference),
        11 => Some(ErrorStatus::ElementNotInteractable),
        12 => Some(ErrorStatus::InvalidElementState),
        13 => Some(ErrorStatus::UnknownError),
        15 => Some(ErrorStatus::ElementNotSelectable),
        17 => Some(ErrorStatus::JavascriptError),
        19 | 32 => Some(ErrorStatus::InvalidSelector),
        21 => Some(ErrorStatus::Timeout),
        23 => Some(ErrorStatus::NoSuchWindow),
        24 => Some(ErrorStatus::InvalidCookieDomain),
        25 => Some(ErrorStatus::UnableToSetCookie),
        26 => Some(ErrorStatus::UnexpectedAlertOpen),
        27 => Some(ErrorStatus::NoSuchAlert),
        28 => Some(ErrorStatus::ScriptTimeout),
        29 => Some(ErrorStatus::InvalidCoordinates),
        34 => Some(ErrorStatus::MoveTargetOutOfBounds),
        _ => None,
    }
}

/// The type and subtype of the media type that `header` names, as the `mime` crate parses it,
/// if it parses.
pub uninterp spec fn mime_parts(header: Seq<char>) -> Option<(Seq<char>, Seq<char>)>;

/// Calls `<mime::Mime as FromStr>::from_str` on a `Content-Type` header and, when it parses,
/// returns the media type's type and subtype (which the `mime` crate keeps in lower case).
/// The result is named `mime_parts(header)`.
#[verifier::external_body]
fn parse_mime(header: &str) -> (r: Option<(String, String)>)
    ensures
        r is Some <==> mime_parts(header@) is Some,
        r matches Some(p) ==> mime_parts(header@) == Some((p.0@, p.1@)),
{
    match header.parse::<mime::Mime>() {
        Ok(m) => Some((m.type_().as_str().to_owned(), m.subtype().as_str().to_owned())),
        Err(_) => None,
    }
}

/// Does the `Content-Type` header say that the body is JSON?
pub open spec fn is_json_content(header: Option<Seq<char>>) -> bool {
    match header {
        Some(h) => mime_parts(h) matches Some(p) && p.0 == "application"@ && p.1 == "json"@,
        None => false,
    }
}

/// Check that the WebDriver sent JSON, and hand back the body if it did.
///
/// A reply of any other type is reported as [`CmdError::NotJson`], with the body.
pub fn check_content_type(header: Option<&str>, body: String) -> (r: Result<String, CmdError>)
    ensures
        is_json_content(match header {
            Some(h) => Some(h@),
            None => None::<Seq<char>>,
        }) ==> r == Ok::<String, CmdError>(body),
        !is_json_content(match header {
            Some(h) => Some(h@),
            None => None::<Seq<char>>,
        }) ==> r == Err::<String, CmdError>(CmdError::NotJson(body)),
{
    match header {
        Some(h) => match parse_mime(h) {
            Some((t, s)) => {
                if str_eq(t.as_str(), "application") && str_eq(s.as_str(), "json") {
                    Ok(body)
                } else {
                    Err(CmdError::NotJson(body))
                }
            },
            None => Err(CmdError::NotJson(body)),
        },
        None => Err(CmdError::NotJson(body)),
    }
}

/// Is the HTTP status a success (2xx), as `http::StatusCode::is_success` has it?
pub open spec fn http_success(status: u16) -> bool {
    200 <= status < 300
}

/// The status code that a legacy reply carries.
pub open spec fn legacy_code(m: Map<Seq<char>, Json>) -> u64 {
    m["status"@]->Number_0->PosInt_0
}

/// A legacy reply carries its status code under `"status"`, as a non-negative integer.
pub open spec fn has_legacy_code(m: Map<Seq<char>, Json>) -> bool {
    m.contains_key("status"@) && m["status"@] matches Json::Number(JsonNumber::PosInt(_))
}

/// The replies that the decoder accepts: a legacy reply that is an object must carry its
/// status code (the caller checks this first).
pub open spec fn decodable(reply: Json, legacy: bool) -> bool {
    legacy && reply is Object ==> has_legacy_code(reply->Object_0.as_map())
}

/// `m` holds a string under `key`.
pub open spec fn has_string(m: Map<Seq<char>, Json>, key: Seq<char>) -> bool {
    m.contains_key(key) && m[key] is String
}

/// The characters of the string under `key`.
pub open spec fn string_at(m: Map<Seq<char>, Json>, key: Seq<char>) -> Seq<char> {
    m[key]->String_0@
}

/// `w` is the WebDriver error with status `es` that the error details `m` describe: the
/// message, the stack trace if it is a string, and the data if there is any.
pub open spec fn error_details(w: WebDriver, es: ErrorStatus, m: Map<Seq<char>, Json>) -> bool {
    &&& w.error == es
    &&& w.message@ == string_at(m, "message"@)
    &&& w.stacktrace@ == (if has_string(m, "stacktrace"@) {
        string_at(m, "stacktrace"@)
    } else {
        Seq::<char>::empty()
    })
    &&& w.data == (if m.contains_key("data"@) {
        Some(m["data"@])
    } else {
        None::<Json>
    })
}

/// `r` is the error that the error payload `p` of a failed reply stands for.
///
/// The payload must be an object. A legacy payload names its error by the reply's status code
/// and must carry a message; a W3C payload names it by the string under `"error"` and must
/// carry both that and a message. The entry `"screen"`, which some drivers fill with a whole
/// screenshot, is dropped.
pub open spec fn error_payload(p: Json, legacy: bool, code: u64, r: CmdError) -> bool {
    match p {
        Json::Object(b0) => {
            let b = b0.as_map().remove("screen"@);
            if legacy {
                if !has_string(b, "message"@) {
                    r matches CmdError::NotW3C(Json::Object(o)) && o.as_map() == b
                } else {
                    match legacy_error_status(code) {
                        None => r matches CmdError::NotW3C(Json::Object(o)) && o.as_map() == b,
                        Some(es) => r matches CmdError::Standard(w) && error_details(w, es, b),
                    }
                }
            } else {
                if !has_string(b, "error"@) || !has_string(b, "message"@) {
                    r matches CmdError::NotW3C(Json::Object(o)) && o.as_map() == b
                } else {
                    match status_from_text(string_at(b, "error"@)) {
                        None => r matches CmdError::NotW3C(Json::String(s)) && s@ == string_at(
                            b,
                            "error"@,
                        ),
                        Some(es) => r matches CmdError::Standard(w) && error_details(w, es, b),
                    }
                }
            }
        },
        _ => r == CmdError::NotW3C(p),
    }
}

/// `r` is what the reply `reply`, sent with HTTP status `status`, stands for.
///
/// The reply must be an object. Its payload is the entry `"value"`, except for a legacy reply
/// to New Session, whose payload is the whole reply. The request succeeded if the HTTP status
/// is a success, or, in the legacy protocol, if the reply's status code is 0; then the payload
/// is the result. Otherwise the payload describes the error.
pub open spec fn decoded_reply(
    status: u16,
    reply: Json,
    legacy: bool,
    new_session: bool,
    r: Result<Json, CmdError>,
) -> bool {
    match reply {
        Json::Object(v) => {
            let m = v.as_map();
            let success = if legacy {
                legacy_code(m) == 0
            } else {
                http_success(status)
            };
            if legacy && new_session {
                if success {
                    r matches Ok(Json::Object(o)) && o.as_map() == m
                } else {
                    r matches Err(e) && error_payload(reply, legacy, legacy_code(m), e)
                }
            } else if !m.contains_key("value"@) {
                r matches Err(CmdError::NotW3C(Json::Object(o))) && o.as_map() == m
            } else if success {
                r == Ok::<Json, CmdError>(m["value"@])
            } else {
                r matches Err(e) && error_payload(m["value"@], legacy, legacy_code(m), e)
            }
        },
        _ => r == Err::<Json, CmdError>(CmdError::NotW3C(reply)),
    }
}

fn take_message(b: &mut JsonMap) -> (m: String)
    ensures
        final(b).as_map() == old(b).as_map().remove("message"@),
        has_string(old(b).as_map(), "message"@) ==> m@ == string_at(old(b).as_map(), "message"@),
{
    match b.remove("message") {
        Some(Json::String(x)) => x,
        _ => String::new(),
    }
}

/// Build the error that an error payload describes, once its status is known.
fn webdriver_error(es: ErrorStatus, b: JsonMap) -> (w: WebDriver)
    requires
        has_string(b.as_map(), "message"@),
    ensures
        error_details(w, es, b.as_map()),
{
    let ghost m0 = b.as_map();
    let mut b = b;
    let message = take_message(&mut b);
    let ghost m1 = b.as_map();
    proof {
        reveal_strlit("message");
        reveal_strlit("stacktrace");
        reveal_strlit("data");
        assert("message"@[0] != "stacktrace"@[0]);
        assert("message"@[0] != "data"@[0]);
        assert("stacktrace"@[0] != "data"@[0]);
    }
    let mut wd_error = WebDriver::new(es, "");
    wd_error.message = message;
    match b.remove("stacktrace") {
        Some(Json::String(x)) => {
            wd_error = wd_error.with_stacktrace(x);
        },
        _ => {},
    }
    match b.remove("data") {
        Some(x) => {
            wd_error = wd_error.with_data(x);
        },
        None => {},
    }
    wd_error
}

/// Read the error that the payload of a failed reply describes.
fn decode_error(p: Json, legacy: bool, code: u64) -> (r: CmdError)
    ensures
        error_payload(p, legacy, code, r),
{
    let mut b = match p {
        Json::Object(o) => o,
        other => return CmdError::NotW3C(other),
    };
    b.remove("screen");
    if legacy {
        let ok = match b.get("message") {
            Some(Json::String(_)) => true,
            _ => false,
        };
        if !ok {
            return CmdError::NotW3C(Json::Object(b));
        }
        match legacy_status_error(code) {
            None => CmdError::NotW3C(Json::Object(b)),
            Some(es) => CmdError::Standard(webdriver_error(es, b)),
        }
    } else {
        let ok_message = match b.get("message") {
            Some(Json::String(_)) => true,
            _ => false,
        };
        let es = match b.get("error") {
            Some(Json::String(s)) => if ok_message {
                Some(ErrorStatus::parse(s.as_str()))
            } else {
                None
            },
            _ => None,
        };
        match es {
            None => CmdError::NotW3C(Json::Object(b)),
            Some(Err(e)) => e,
            Some(Ok(es)) => CmdError::Standard(webdriver_error(es, b)),
        }
    }
}

/// Decode the reply to a request, sent with HTTP status `status`.
///
/// See [send a response](https://www.w3.org/TR/webdriver/#dfn-send-a-response) and
/// [handling errors](https://www.w3.org/TR/webdriver/#handling-errors): even errors come as a
/// JSON object, with the details under `"value"`.
pub fn decode_reply(status: u16, reply: Json, legacy: bool, new_session: bool) -> (r: Result<
    Json,
    CmdError,
>)
    requires
        decodable(reply, legacy),
    ensures
        decoded_reply(status, reply, legacy, new_session, r),
{
    let ghost r0 = reply;
    let mut v = match reply {
        Json::Object(v) => v,
        other => return Err(CmdError::NotW3C(other)),
    };
    let ghost m = v.as_map();
    let mut code: u64 = 0;
    let success = if legacy {
        code = match v.get("status") {
            Some(Json::Number(JsonNumber::PosInt(n))) => *n,
            _ => 0,
        };
        code == 0
    } else {
        200 <= status && status < 300
    };
    if legacy && new_session {
        if success {
            return Ok(Json::Object(v));
        } else {
            return Err(decode_error(Json::Object(v), legacy, code));
        }
    }
    let body = match v.remove("value") {
        Some(b) => b,
        None => {
            assert(v.as_map() =~= m);
            return Err(CmdError::NotW3C(Json::Object(v)));
        },
    };
    if success {
        Ok(body)
    } else {
        Err(decode_error(body, legacy, code))
    }
}

/// `j` is the JSON form of the WebDriver error `w`: its error string, message, stack trace and
/// data (`null` when there is none).
pub open spec fn webdriver_error_json(j: Json, w: WebDriver) -> bool {
    &&& j matches Json::Object(m)
    &&& m.as_map().dom() == set!["error"@, "message"@, "stacktrace"@, "data"@]
    &&& m.as_map()["error"@] matches Json::String(e) && e@ == status_text(w.error)
    &&& m.as_map()["message"@] == Json::String(w.message)
    &&& m.as_map()["stacktrace"@] == Json::String(w.stacktrace)
    &&& m.as_map()["data"@] == match w.data {
        Some(d) => d,
        None => Json::Null,
    }
}

/// The JSON form of a WebDriver error.
pub fn webdriver_error_to_json(w: WebDriver) -> (j: Json)
    ensures
        webdriver_error_json(j, w),
{
    let mut m = JsonMap::new();
    m.insert("error".to_owned(), Json::String(w.error.description().to_owned()));
    m.insert("message".to_owned(), Json::String(w.message));
    m.insert("stacktrace".to_owned(), Json::String(w.stacktrace));
    m.insert("data".to_owned(), match w.data {
        Some(d) => d,
        None => Json::Null,
    });
    proof {
        reveal_strlit("error");
        reveal_strlit("message");
        reveal_strlit("stacktrace");
        reveal_strlit("data");
        assert("error"@[0] != "message"@[0]);
        assert("error"@[0] != "stacktrace"@[0]);
        assert("error"@[0] != "data"@[0]);
        assert("message"@[0] != "stacktrace"@[0]);
        assert("message"@[0] != "data"@[0]);
        assert("stacktrace"@[0] != "data"@[0]);
        assert(m.as_map().dom() =~= set!["error"@, "message"@, "stacktrace"@, "data"@]);
    }
    Json::Object(m)
}

/// The replies to New Session that the handshake knows what to make of; any other error is a
/// bug in the WebDriver or in this client.
pub open spec fn handshake_handled(r: Result<Json, CmdError>) -> bool {
    match r {
        Ok(_) => true,
        Err(CmdError::NotW3C(_)) | Err(CmdError::Failed(_)) | Err(CmdError::FailedC(_)) | Err(
            CmdError::Lost(_),
        ) | Err(CmdError::NotJson(_)) => true,
        Err(CmdError::Standard(w)) => w.error == ErrorStatus::SessionNotCreated || w.error
            == ErrorStatus::UnknownError,
        _ => false,
    }
}

/// Does the handshake know what to make of this reply to New Session?
pub fn handshake_handles(r: &Result<Json, CmdError>) -> (b: bool)
    ensures
        b == handshake_handled(*r),
{
    match r {
        Ok(_) => true,
        Err(CmdError::NotW3C(_)) | Err(CmdError::Failed(_)) | Err(CmdError::FailedC(_)) | Err(
            CmdError::Lost(_),
        ) | Err(CmdError::NotJson(_)) => true,
        Err(CmdError::Standard(w)) => match w.error {
            ErrorStatus::SessionNotCreated | ErrorStatus::UnknownError => true,
            _ => false,
        },
        _ => false,
    }
}

/// `m` names a session: it holds a string under `"sessionId"`.
pub open spec fn names_session(m: Map<Seq<char>, Json>) -> bool {
    has_string(m, "sessionId"@)
}

/// `out` is what the handshake makes of the reply `r` to New Session.
pub open spec fn handshake_outcome(r: Result<Json, CmdError>, out: Result<(), NewSessionError>) -> bool {
    match r {
        Ok(Json::Object(v)) => if names_session(v.as_map()) {
            out is Ok
        } else {
            out matches Err(NewSessionError::NotW3C(Json::Object(o))) && o.as_map() == v.as_map()
        },
        Ok(j) => out == Err::<(), NewSessionError>(NewSessionError::NotW3C(j)),
        Err(CmdError::NotW3C(j)) => out == Err::<(), NewSessionError>(NewSessionError::NotW3C(j)),
        Err(CmdError::Failed(e)) => out == Err::<(), NewSessionError>(NewSessionError::Failed(e)),
        Err(CmdError::FailedC(e)) => out == Err::<(), NewSessionError>(NewSessionError::FailedC(e)),
        Err(CmdError::Lost(e)) => out == Err::<(), NewSessionError>(NewSessionError::Lost(e)),
        Err(CmdError::NotJson(s)) => out == Err::<(), NewSessionError>(
            NewSessionError::NotW3C(Json::String(s)),
        ),
        Err(CmdError::Standard(w)) => if w.error == ErrorStatus::SessionNotCreated {
            out == Err::<(), NewSessionError>(NewSessionError::SessionNotCreated(w))
        } else {
            out matches Err(NewSessionError::NotW3C(j)) && webdriver_error_json(j, w)
        },
        _ => false,
    }
}

/// Judge the reply to New Session.
///
/// A session was created if the reply names it; a refusal with `session not created` is
/// reported as such; everything else that the handshake knows is reported as a
/// non-conforming reply, which may lead the client to try the legacy protocol.
pub fn map_handshake_reply(r: Result<Json, CmdError>) -> (out: Result<(), NewSessionError>)
    requires
        handshake_handled(r),
    ensures
        handshake_outcome(r, out),
{
    match r {
        Ok(Json::Object(mut v)) => {
            let ghost m = v.as_map();
            match v.remove("sessionId") {
                Some(Json::String(sid)) => Ok(()),
                Some(other) => {
                    v.insert("sessionId".to_owned(), other);
                    assert(v.as_map() =~= m);
                    Err(NewSessionError::NotW3C(Json::Object(v)))
                },
                None => {
                    assert(v.as_map() =~= m);
                    Err(NewSessionError::NotW3C(Json::Object(v)))
                },
            }
        },
        Ok(j) => Err(NewSessionError::NotW3C(j)),
        Err(CmdError::NotW3C(j)) => Err(NewSessionError::NotW3C(j)),
        Err(CmdError::Failed(e)) => Err(NewSessionError::Failed(e)),
        Err(CmdError::FailedC(e)) => Err(NewSessionError::FailedC(e)),
        Err(CmdError::Lost(e)) => Err(NewSessionError::Lost(e)),
        Err(CmdError::NotJson(s)) => Err(NewSessionError::NotW3C(Json::String(s))),
        Err(CmdError::Standard(w)) => {
            if w.error == ErrorStatus::SessionNotCreated {
                Err(NewSessionError::SessionNotCreated(w))
            } else {
                Err(NewSessionError::NotW3C(webdriver_error_to_json(w)))
            }
        },
        Err(_) => {
            proof {
                assert(false);
            }
            Err(NewSessionError::NotW3C(Json::Null))
        },
    }
}

/// Does a non-conforming reply to New Session show a WebDriver that only speaks the legacy
/// protocol?
///
/// ghostdriver answers with a string that begins `Missing Command Parameter`; old chromedriver
/// versions and saucelabs answer with an object whose message mentions the capabilities or an
/// unexpected server error.
pub open spec fn speaks_legacy(j: Json) -> bool {
    match j {
        Json::String(e) => has_prefix(e@, "Missing Command Parameter"@),
        Json::Object(o) => has_string(o.as_map(), "message"@) && {
            let msg = string_at(o.as_map(), "message"@);
            has_infix(msg, "cannot find dict 'desiredCapabilities'"@) || has_infix(
                msg,
                "Missing or invalid capabilities"@,
            ) || has_infix(msg, "Unexpected server error."@)
        },
        _ => false,
    }
}

/// Should the client retry New Session with the legacy protocol, given this non-conforming
/// reply?
pub fn speaks_legacy_protocol(j: &Json) -> (b: bool)
    ensures
        b == speaks_legacy(*j),
{
    match j {
        Json::String(e) => starts_with(e.as_str(), "Missing Command Parameter"),
        Json::Object(o) => match o.get("message") {
            Some(Json::String(s)) => {
                contains(s.as_str(), "cannot find dict 'desiredCapabilities'") || contains(
                    s.as_str(),
                    "Missing or invalid capabilities",
                ) || contains(s.as_str(), "Unexpected server error.")
            },
            _ => false,
        },
        _ => false,
    }
}

/// What the client does after it has asked for a session with the W3C protocol.
#[derive(Debug)]
pub enum HandshakeStep {
    /// The session was created.
    Connected,
    /// The WebDriver only speaks the legacy protocol: ask again with it.
    RetryLegacy,
    /// The session could not be created.
    Fail(NewSessionError),
}

/// Decide what follows the W3C New Session attempt, given how its reply was judged: a
/// non-conforming reply that shows a legacy WebDriver leads to a second attempt with the
/// legacy protocol; any other failure ends the handshake.
pub fn after_w3c_attempt(out: Result<(), NewSessionError>) -> (s: HandshakeStep)
    ensures
        out is Ok ==> s is Connected,
        out matches Err(NewSessionError::NotW3C(j)) ==> if speaks_legacy(j) {
            s is RetryLegacy
        } else {
            s == HandshakeStep::Fail(NewSessionError::NotW3C(j))
        },
        out matches Err(e) ==> (e is NotW3C || s == HandshakeStep::Fail(e)),
{
    match out {
        Ok(()) => HandshakeStep::Connected,
        Err(NewSessionError::NotW3C(j)) => if speaks_legacy_protocol(&j) {
            HandshakeStep::RetryLegacy
        } else {
            HandshakeStep::Fail(NewSessionError::NotW3C(j))
        },
        Err(e) => HandshakeStep::Fail(e),
    }
}

/// The capabilities that may be prepared: `goog:chromeOptions`, if present, is an object.
pub open spec fn preparable(cap: Map<Seq<char>, Json>) -> bool {
    cap.contains_key("goog:chromeOptions"@) ==> cap["goog:chromeOptions"@] is Object
}

/// `after` is `before` prepared for New Session: the browser waits for pages to load unless
/// told otherwise, and chromedriver is asked to speak the W3C protocol.
pub open spec fn prepared_capabilities(before: Map<Seq<char>, Json>, after: Map<Seq<char>, Json>) -> bool {
    &&& after.dom() == before.dom().insert("pageLoadStrategy"@).insert("goog:chromeOptions"@)
    &&& forall|k: Seq<char>| #[trigger] before.contains_key(k) && k != "pageLoadStrategy"@ && k
        != "goog:chromeOptions"@ ==> after[k] == before[k]
    &&& if before.contains_key("pageLoadStrategy"@) {
        after["pageLoadStrategy"@] == before["pageLoadStrategy"@]
    } else {
        after["pageLoadStrategy"@] matches Json::String(s) && s@ == "normal"@
    }
    &&& after["goog:chromeOptions"@] matches Json::Object(o)
    &&& if before.contains_key("goog:chromeOptions"@) {
        o.as_map() == before["goog:chromeOptions"@]->Object_0.as_map().insert("w3c"@, Json::Bool(true))
    } else {
        o.as_map() == map!["w3c"@ => Json::Bool(true)]
    }
}

/// Prepare the capabilities for New Session.
///
/// Unless the capabilities say otherwise, the browser is asked to wait for pages to load
/// (`pageLoadStrategy` is `normal`), and chromedriver is asked to comply with the W3C
/// protocol (`w3c` is set under `goog:chromeOptions`).
pub fn prepare_capabilities(cap: Capabilities) -> (out: Capabilities)
    requires
        preparable(cap.as_map()),
    ensures
        prepared_capabilities(cap.as_map(), out.as_map()),
{
    let ghost before = cap.as_map();
    let mut cap = cap;
    if !cap.contains_key("pageLoadStrategy") {
        cap.insert("pageLoadStrategy".to_owned(), Json::String("normal".to_owned()));
    }
    let ghost mid = cap.as_map();
    let mut opts = match cap.remove("goog:chromeOptions") {
        Some(Json::Object(o)) => o,
        _ => JsonMap::new(),
    };
    opts.insert("w3c".to_owned(), Json::Bool(true));
    cap.insert("goog:chromeOptions".to_owned(), Json::Object(opts));
    proof {
        reveal_strlit("pageLoadStrategy");
        reveal_strlit("goog:chromeOptions");
        assert("pageLoadStrategy"@[0] != "goog:chromeOptions"@[0]);
        assert(cap.as_map().dom() =~= before.dom().insert("pageLoadStrategy"@).insert(
            "goog:chromeOptions"@,
        ));
    }
    cap
}

/// A digit of the standard base64 alphabet: `A`-`Z`, `a`-`z`, `0`-`9`, `+` and `/`.
pub open spec fn base64_digit(n: int) -> char {
    if n < 26 {
        ('A' as int + n) as char
    } else if n < 52 {
        ('a' as int + n - 26) as char
    } else if n < 62 {
        ('0' as int + n - 52) as char
    } else if n == 62 {
        '+'
    } else {
        '/'
    }
}

/// The standard base64 encoding of the bytes `b` (RFC 4648, section 4): each three bytes make
/// four digits of six bits each, and a last group of one or two bytes is padded with `=`.
pub open spec fn base64_bytes(b: Seq<u8>) -> Seq<char>
    decreases b.len(),
{
    if b.len() == 0 {
        Seq::empty()
    } else if b.len() == 1 {
        let x = b[0] as int;
        seq![base64_digit(x / 4), base64_digit((x % 4) * 16), '=', '=']
    } else if b.len() == 2 {
        let (x, y) = (b[0] as int, b[1] as int);
        seq![base64_digit(x / 4), base64_digit((x % 4) * 16 + y / 16), base64_digit((y % 16) * 4), '=']
    } else {
        let (x, y, z) = (b[0] as int, b[1] as int, b[2] as int);
        seq![
            base64_digit(x / 4),
            base64_digit((x % 4) * 16 + y / 16),
            base64_digit((y % 16) * 4 + z / 64),
            base64_digit(z % 64),
        ] + base64_bytes(b.subrange(3, b.len() as int))
    }
}

/// The base64 encoding of the UTF-8 bytes of `s`, as
/// `base64::engine::general_purpose::STANDARD` writes it (padded, standard alphabet).
pub open spec fn base64_standard(s: Seq<char>) -> Seq<char> {
    base64_bytes(encode_utf8(s))
}

/// Calls `Engine::encode` of `base64::engine::general_purpose::STANDARD` on the UTF-8 bytes
/// of `s`: the standard alphabet, with padding.
#[verifier::external_body]
fn base64_encode(s: &str) -> (r: String)
    ensures
        r@ == base64_standard(s@),
{
    base64::engine::general_purpose::STANDARD.encode(s)
}

/// The `Authorization` header for a WebDriver whose URL carries credentials.
///
/// A URL with a user name or a password is authorised with HTTP Basic authentication, a
/// missing password counting as empty.
pub fn authorization_header(user: &str, password: Option<&str>) -> (h: Option<String>)
    ensures
        h is Some <==> (user@.len() > 0 || password is Some),
        h matches Some(v) ==> v@ == "Basic "@ + base64_standard(user@ + ":"@ + match password {
            Some(p) => p@,
            None => Seq::<char>::empty(),
        }),
{
    if user.unicode_len() == 0 && password.is_none() {
        return None;
    }
    let mut cred = String::from_str(user);
    string_append(&mut cred, ":");
    match password {
        Some(p) => string_append(&mut cred, p),
        None => {},
    }
    let mut h = String::from_str("Basic ");
    let enc = base64_encode(cred.as_str());
    string_append(&mut h, enc.as_str());
    proof {
        assert(cred@ =~= user@ + ":"@ + match password {
            Some(p) => p@,
            None => Seq::<char>::empty(),
        });
    }
    Some(h)
}

fn clone_string_option(s: &Option<String>) -> (r: Option<String>)
    ensures
        r == *s,
{
    match s {
        Some(x) => Some(x.clone()),
        None => None,
    }
}

/// An HTTP request to the WebDriver, ready to be sent.
#[derive(Debug)]
pub struct HttpRequest {
    /// The HTTP method.
    pub method: Method,
    /// The absolute URL.
    pub url: String,
    /// The `User-Agent` header, if one is set.
    pub user_agent: Option<String>,
    /// The `Authorization` header, for a URL that carries credentials.
    pub authorization: Option<String>,
    /// The body, sent as JSON.
    pub body: Option<Json>,
}

/// The `Content-Type` of a request body.
pub const JSON_CONTENT_TYPE: &'static str = "application/json; charset=utf-8";

/// The URL of the request for the command `cmd` of the session `id`, sent to the WebDriver at
/// `webdriver`, if it can be made. New Session and Status are resolved against the WebDriver's
/// URL; any other command is resolved against `session/{id}/` resolved against it.
pub open spec fn request_url(cmd: WebDriverCommand, id: Seq<char>, webdriver: Seq<char>) -> Option<
    Seq<char>,
> {
    if crate::command::in_session(cmd) {
        match url_joined(webdriver, "session/"@ + id + "/"@) {
            Some(base) => url_joined(base, crate::command::session_path(cmd)),
            None => None,
        }
    } else {
        url_joined(webdriver, crate::command::endpoint_path(cmd, id))
    }
}

/// The password of a URL, as characters.
pub open spec fn password_text(p: Option<Seq<char>>) -> Seq<char> {
    match p {
        Some(p) => p,
        None => Seq::empty(),
    }
}

/// `h` is the `Authorization` header for the credentials `user` and `password`: none when there
/// are none, else HTTP Basic authentication, a missing password counting as empty.
pub open spec fn authorization_for(user: Seq<char>, password: Option<Seq<char>>, h: Option<String>) -> bool {
    &&& h is Some <==> (user.len() > 0 || password is Some)
    &&& h matches Some(v) ==> v@ == "Basic "@ + base64_standard(user + ":"@ + password_text(password))
}

fn as_str_option(s: &Option<String>) -> (r: Option<&str>)
    ensures
        match s {
            Some(x) => r matches Some(y) && y@ == x@,
            None => r is None,
        },
{
    match s {
        Some(x) => Some(x.as_str()),
        None => None,
    }
}

/// Calls `std::io::Error::new` with the kind `BrokenPipe` and the message `msg`: the error of
/// a connection that is gone. Nothing is stated of the error it makes.
#[verifier::external_body]
fn broken_pipe(msg: &str) -> (e: std::io::Error) {
    std::io::Error::new(std::io::ErrorKind::BrokenPipe, msg)
}

/// What the client does when its session ends.
#[derive(Debug)]
pub enum Shutdown {
    /// Nothing is to be sent: no session was created, or the session persists.
    Stop,
    /// The session is to be deleted with this request.
    Delete(WireRequest),
}

/// The state that a client keeps about its WebDriver session.
#[derive(Debug)]
pub struct SessionState {
    session: Option<String>,
    is_legacy: bool,
    ua: Option<String>,
    persist: bool,
    ended: bool,
}

impl SessionState {
    /// Has the client closed the session? A closed session sends nothing more.
    pub closed spec fn is_ended(self) -> bool {
        self.ended
    }

    /// The session's id, once the WebDriver has assigned one.
    pub closed spec fn id(self) -> Option<String> {
        self.session
    }

    /// Does the session speak the legacy protocol?
    pub closed spec fn legacy(self) -> bool {
        self.is_legacy
    }

    /// The User Agent string sent with each request, if set.
    pub closed spec fn user_agent(self) -> Option<String> {
        self.ua
    }

    /// Does the session outlive the client?
    pub closed spec fn persists(self) -> bool {
        self.persist
    }

    /// The state before the session is created.
    pub fn new() -> (s: SessionState)
        ensures
            s.id() is None,
            !s.legacy(),
            s.user_agent() is None,
            !s.persists(),
            !s.is_ended(),
    {
        SessionState { session: None, is_legacy: false, ua: None, persist: false, ended: false }
    }

    /// The session's id, if the WebDriver has assigned one.
    pub fn session_id(&self) -> (r: Option<String>)
        ensures
            r == self.id(),
    {
        clone_string_option(&self.session)
    }

    /// Does the session speak the legacy protocol?
    pub fn is_legacy(&self) -> (b: bool)
        ensures
            b == self.legacy(),
    {
        self.is_legacy
    }

    /// Set the User Agent string to use for all subsequent requests.
    pub fn set_ua(&mut self, ua: String)
        ensures
            final(self).user_agent() == Some(ua),
            final(self).id() == old(self).id(),
            final(self).legacy() == old(self).legacy(),
            final(self).persists() == old(self).persists(),
            final(self).is_ended() == old(self).is_ended(),
    {
        self.ua = Some(ua);
    }

    /// The current User Agent string.
    pub fn get_ua(&self) -> (r: Option<String>)
        ensures
            r == self.user_agent(),
    {
        clone_string_option(&self.ua)
    }

    /// Mark the session as persistent: when the client goes away, the session stays.
    pub fn persist(&mut self)
        ensures
            final(self).persists(),
            final(self).id() == old(self).id(),
            final(self).legacy() == old(self).legacy(),
            final(self).user_agent() == old(self).user_agent(),
            final(self).is_ended() == old(self).is_ended(),
    {
        self.persist = true;
    }

    /// The HTTP request for a command, sent to the WebDriver at `webdriver`.
    ///
    /// The command's path is resolved against the WebDriver's URL; a URL that carries
    /// credentials is authorised with them, and a New Session request passes them on. A command
    /// that starts a session with the legacy protocol switches the session to the legacy
    /// protocol, even when its URL cannot be made. Once the session is closed, no command is
    /// sent: each fails as a lost connection, and the state stays as it is.
    pub fn request(&mut self, cmd: WebDriverCommand, webdriver: &str) -> (r: Result<
        HttpRequest,
        CmdError,
    >)
        requires
            crate::command::in_session(cmd) && !old(self).is_ended() ==> old(self).id() is Some,
        ensures
            final(self).legacy() == (old(self).legacy() || (!old(self).is_ended()
                && cmd matches WebDriverCommand::NewSession(
                crate::command::NewSessionParameters::Legacy(..),
            ))),
            final(self).id() == old(self).id(),
            final(self).user_agent() == old(self).user_agent(),
            final(self).persists() == old(self).persists(),
            final(self).is_ended() == old(self).is_ended(),
            old(self).is_ended() ==> r matches Err(CmdError::Lost(_)),
            !old(self).is_ended() ==> ({
                let id = match old(self).id() {
                    Some(id) => id@,
                    None => Seq::empty(),
                };
                match request_url(cmd, id, webdriver@) {
                    None => r matches Err(CmdError::BadUrl(_)),
                    Some(u) => r matches Ok(q) && q.url@ == u && q.method
                        == crate::command::command_method(cmd) && q.user_agent
                        == old(self).user_agent() && authorization_for(
                        url_username(u),
                        url_password(u),
                        q.authorization,
                    ) && crate::command::command_body(
                        cmd,
                        url_username(u),
                        url_password(u),
                        q.body,
                    ),
                }
            }),
    {
        if self.ended {
            return Err(CmdError::Lost(broken_pipe("WebDriver session has been closed")));
        }
        if cmd.is_legacy() {
            self.is_legacy = true;
        }
        let in_session = !(cmd.is_new_session() || matches!(cmd, WebDriverCommand::Status));
        let joined = if in_session {
            let prefix = match &self.session {
                Some(id) => crate::command::session_prefix(id.as_str()),
                None => String::new(),
            };
            let base = match join_url(webdriver, prefix.as_str()) {
                Ok(j) => j,
                Err(e) => return Err(CmdError::BadUrl(e)),
            };
            let path = cmd.session_path();
            match join_url(base.url.as_str(), path.as_str()) {
                Ok(j) => j,
                Err(e) => return Err(CmdError::BadUrl(e)),
            }
        } else {
            let path = cmd.endpoint(None);
            match join_url(webdriver, path.as_str()) {
                Ok(j) => j,
                Err(e) => return Err(CmdError::BadUrl(e)),
            }
        };
        let password = as_str_option(&joined.password);
        let authorization = authorization_header(joined.user.as_str(), password);
        let method = cmd.method();
        let body = cmd.into_body(joined.user.as_str(), password);
        let user_agent = clone_string_option(&self.ua);
        Ok(HttpRequest { method, url: joined.url, user_agent, authorization, body })
    }

    /// Take note of the reply to a request.
    ///
    /// The first reply that names a session, as the reply to New Session does, gives the
    /// session its id; later replies leave the id as it is.
    pub fn observe(&mut self, r: &Result<Json, CmdError>)
        ensures
            old(self).id() is Some ==> final(self).id() == old(self).id(),
            old(self).id() is None ==> (if r matches Ok(Json::Object(v)) && names_session(v.as_map()) {
                final(self).id() matches Some(id) && id@ == string_at(r->Ok_0->Object_0.as_map(), "sessionId"@)
            } else {
                final(self).id() is None
            }),
            final(self).legacy() == old(self).legacy(),
            final(self).user_agent() == old(self).user_agent(),
            final(self).persists() == old(self).persists(),
            final(self).is_ended() == old(self).is_ended(),
    {
        if self.session.is_none() {
            if let Ok(Json::Object(v)) = r {
                if let Some(Json::String(sid)) = v.get("sessionId") {
                    self.session = Some(sid.clone());
                }
            }
        }
    }

    /// The request that ends the session, if one is to be sent.
    ///
    /// An explicit close deletes the session even if it persists; only a session that was
    /// never created needs nothing.
    pub fn close_request(&self) -> (r: Shutdown)
        ensures
            self.id() is None ==> r is Stop,
            self.id() matches Some(id) ==> (r matches Shutdown::Delete(q) && q.method
                == Method::Delete && q.path@ == "session/"@ + id@ && q.body is None),
    {
        match &self.session {
            None => Shutdown::Stop,
            Some(id) => {
                let mut path = String::from_str("session/");
                string_append(&mut path, id.as_str());
                Shutdown::Delete(WireRequest { method: Method::Delete, path, body: None })
            },
        }
    }

    /// Has the client closed the session?
    pub fn is_closed(&self) -> (b: bool)
        ensures
            b == self.is_ended(),
    {
        self.ended
    }

    /// Close the session: the request that ends it, if one is to be sent. From then on the
    /// session sends nothing more, and its release sends nothing either.
    pub fn close(&mut self) -> (r: Shutdown)
        ensures
            final(self).is_ended(),
            final(self).id() == old(self).id(),
            final(self).legacy() == old(self).legacy(),
            final(self).user_agent() == old(self).user_agent(),
            final(self).persists() == old(self).persists(),
            old(self).id() is None ==> r is Stop,
            old(self).id() matches Some(id) ==> (r matches Shutdown::Delete(q) && q.method
                == Method::Delete && q.path@ == "session/"@ + id@ && q.body is None),
    {
        self.ended = true;
        self.close_request()
    }

    /// What to do when the last handle to the client is gone: a persistent session, or one
    /// that the client closed already, is left alone; any other session is closed.
    pub fn release_request(&self) -> (r: Shutdown)
        ensures
            self.persists() || self.is_ended() ==> r is Stop,
            self.id() is None ==> r is Stop,
            !self.persists() && !self.is_ended() ==> (self.id() matches Some(id) ==> (
            r matches Shutdown::Delete(q) && q.method == Method::Delete && q.path@ == "session/"@
                + id@ && q.body is None)),
    {
        if self.persist || self.ended {
            Shutdown::Stop
        } else {
            self.close_request()
        }
    }
}

} // verus!
