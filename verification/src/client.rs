//! What the client makes of the WebDriver's replies to its commands.
//!
//! Each command's reply is a JSON value. A reply of the expected shape gives the command's
//! result; any other reply is reported as not conforming to the W3C specification, carrying
//! the reply, as it stands when the check fails.
use crate::actions::{sequence_json, ActionSequence};
use crate::command::{json_str, FrameId, WebDriverCommand};
use crate::error::{CmdError, ErrorStatus, WebDriver};
use crate::json::{Json, JsonMap, JsonNumber};
use crate::text::str_eq;
use crate::wd::{is_current, window_type_text, NewWindowType, WindowHandle};
use base64::Engine;
use vstd::prelude::*;

verus! {

/// The reply that a command whose result is a string gives: `Ok` with the string, or the reply
/// as a non-conforming one.
pub open spec fn string_result(reply: Json, r: Result<String, CmdError>) -> bool {
    match reply {
        Json::String(s) => r == Ok::<String, CmdError>(s),
        _ => r == Err::<String, CmdError>(CmdError::NotW3C(reply)),
    }
}

/// The result of a command whose reply is a string, such as Get Title, Get Page Source, Get
/// Alert Text, Get Element Text, Get Element Tag Name and Get Element CSS Value.
pub fn read_string(reply: Json) -> (r: Result<String, CmdError>)
    ensures
        string_result(reply, r),
{
    match reply {
        Json::String(s) => Ok(s),
        v => Err(CmdError::NotW3C(v)),
    }
}

/// The result of a command whose reply is a boolean, such as Is Element Selected, Is Element
/// Enabled and Is Element Displayed.
pub fn read_bool(reply: Json) -> (r: Result<bool, CmdError>)
    ensures
        reply matches Json::Bool(b) ==> r == Ok::<bool, CmdError>(b),
        !(reply is Bool) ==> r == Err::<bool, CmdError>(CmdError::NotW3C(reply)),
{
    match reply {
        Json::Bool(b) => Ok(b),
        v => Err(CmdError::NotW3C(v)),
    }
}

/// The result of Get Element Attribute: the attribute's value, or `None` for a `null` reply,
/// when the element has no such attribute.
pub fn read_attribute(reply: Json) -> (r: Result<Option<String>, CmdError>)
    ensures
        reply matches Json::String(s) ==> r == Ok::<Option<String>, CmdError>(Some(s)),
        reply is Null ==> r == Ok::<Option<String>, CmdError>(None),
        !(reply is String) && !(reply is Null) ==> r == Err::<Option<String>, CmdError>(
            CmdError::NotW3C(reply),
        ),
{
    match reply {
        Json::String(s) => Ok(Some(s)),
        Json::Null => Ok(None),
        v => Err(CmdError::NotW3C(v)),
    }
}

/// The result of Get Element Property: the property's value, a boolean property written as
/// `"true"` or `"false"`, or `None` for a `null` reply.
pub fn read_property(reply: Json) -> (r: Result<Option<String>, CmdError>)
    ensures
        reply matches Json::String(s) ==> r == Ok::<Option<String>, CmdError>(Some(s)),
        reply matches Json::Bool(b) ==> (r matches Ok(Some(s)) && s@ == (if b {
            "true"@
        } else {
            "false"@
        })),
        reply is Null ==> r == Ok::<Option<String>, CmdError>(None),
        !(reply is String) && !(reply is Bool) && !(reply is Null) ==> r == Err::<
            Option<String>,
            CmdError,
        >(CmdError::NotW3C(reply)),
{
    match reply {
        Json::String(s) => Ok(Some(s)),
        Json::Bool(b) => if b {
            Ok(Some("true".to_owned()))
        } else {
            Ok(Some("false".to_owned()))
        },
        Json::Null => Ok(None),
        v => Err(CmdError::NotW3C(v)),
    }
}

/// `reply` is an empty acknowledgement: `null`, or, where `empty_object` allows it, `{}`.
pub open spec fn is_acknowledgement(reply: Json, empty_object: bool) -> bool {
    ||| reply is Null
    ||| empty_object && (reply matches Json::Object(m) && m.as_map().dom().is_empty())
}

/// The result of a command whose reply carries nothing, such as Element Clear and Element Send
/// Keys (`null` only), or Element Click and the form submission scripts, for which some drivers
/// answer `{}` (`empty_object`).
pub fn read_acknowledgement(reply: Json, empty_object: bool) -> (r: Result<(), CmdError>)
    ensures
        is_acknowledgement(reply, empty_object) ==> r is Ok,
        !is_acknowledgement(reply, empty_object) ==> r == Err::<(), CmdError>(
            CmdError::NotW3C(reply),
        ),
{
    let ok = match &reply {
        Json::Null => true,
        Json::Object(m) => {
            let n = m.len();
            proof {
                if n == 0 {
                    assert(m.as_map().dom() =~= Set::<Seq<char>>::empty());
                }
            }
            empty_object && n == 0
        },
        _ => false,
    };
    if ok {
        Ok(())
    } else {
        Err(CmdError::NotW3C(reply))
    }
}

/// `e` is the error reported for a window handle reply item `j` that is not a usable handle:
/// the string `"current"`, which no window has, or the item itself.
pub open spec fn handle_error(j: Json, e: CmdError) -> bool {
    match j {
        Json::String(_) => e matches CmdError::NotW3C(Json::String(s)) && s@ == "current"@,
        _ => e == CmdError::NotW3C(j),
    }
}

/// `j` is a usable window handle: a string other than `"current"`.
pub open spec fn is_handle(j: Json) -> bool {
    j matches Json::String(s) && !is_current(s@)
}

/// The result of Get Window Handle.
pub fn read_window(reply: Json) -> (r: Result<WindowHandle, CmdError>)
    ensures
        is_handle(reply) ==> (r matches Ok(w) && w@ == reply->String_0@),
        !is_handle(reply) ==> (r matches Err(e) && handle_error(reply, e)),
{
    match reply {
        Json::String(x) => match WindowHandle::from_string(x) {
            Ok(w) => Ok(w),
            Err(e) => Err(CmdError::from(e)),
        },
        v => Err(CmdError::NotW3C(v)),
    }
}

/// The result of Get Window Handles: every item must be a usable handle; the first one that is
/// not gives the error.
pub fn read_windows(reply: Json) -> (r: Result<Vec<WindowHandle>, CmdError>)
    ensures
        !(reply is Array) ==> r == Err::<Vec<WindowHandle>, CmdError>(CmdError::NotW3C(reply)),
        reply matches Json::Array(v) ==> ((forall|i: int| 0 <= i < v@.len() ==> is_handle(#[trigger] v@[i]))
            <==> r is Ok),
        reply matches Json::Array(v) ==> (r matches Ok(hs) ==> hs@.len() == v@.len() && forall|i: int|
            0 <= i < v@.len() ==> #[trigger] hs@[i]@ == v@[i]->String_0@),
        reply matches Json::Array(v) ==> (r matches Err(e) ==> exists|k: int|
            0 <= k < v@.len() && (forall|i: int| 0 <= i < k ==> is_handle(#[trigger] v@[i]))
                && !is_handle(#[trigger] v@[k]) && handle_error(v@[k], e)),
{
    let ghost r0 = reply;
    let items = match reply {
        Json::Array(a) => a,
        v => return Err(CmdError::NotW3C(v)),
    };
    let ghost all = items@;
    let mut rest = items;
    let mut out: Vec<WindowHandle> = Vec::new();
    while rest.len() > 0
        invariant
            reply == r0,
            r0 is Array && r0->Array_0@ == all,
            out@.len() + rest@.len() == all.len(),
            rest@ == all.subrange(out@.len() as int, all.len() as int),
            forall|i: int| 0 <= i < out@.len() ==> is_handle(#[trigger] all[i]),
            forall|i: int| 0 <= i < out@.len() ==> #[trigger] out@[i]@ == all[i]->String_0@,
        decreases rest@.len(),
    {
        let ghost k = out@.len() as int;
        let j = rest.remove(0);
        assert(j == all[k]);
        match read_window(j) {
            Ok(w) => out.push(w),
            Err(e) => {
                assert(!is_handle(all[k]));
                assert(forall|i: int| 0 <= i < k ==> is_handle(#[trigger] all[i]));
                return Err(e);
            },
        }
        assert(rest@ =~= all.subrange(out@.len() as int, all.len() as int));
    }
    Ok(out)
}

/// Response returned by the client's `new_window()` method.
#[derive(Clone, Debug, Eq, PartialEq)]
pub struct NewWindowResponse {
    /// Handle to the created browser window.
    pub handle: WindowHandle,
    /// Type of the created browser window.
    pub typ: NewWindowType,
}

/// The window type named by a reply entry, if it names one.
pub open spec fn window_type_of(j: Json) -> Option<NewWindowType> {
    if json_str(j, "tab"@) {
        Some(NewWindowType::Tab)
    } else if json_str(j, "window"@) {
        Some(NewWindowType::Window)
    } else {
        None
    }
}

/// The result of New Window: an object with a usable `"handle"` and a `"type"` of `"tab"` or
/// `"window"`. When either is missing or wrong, the error carries the object without its
/// `"handle"` entry.
pub fn read_new_window(reply: Json) -> (r: Result<NewWindowResponse, CmdError>)
    ensures
        !(reply is Object) ==> r == Err::<NewWindowResponse, CmdError>(CmdError::NotW3C(reply)),
        reply matches Json::Object(o) ==> {
            let m = o.as_map();
            if m.contains_key("handle"@) && is_handle(m["handle"@]) && m.contains_key("type"@)
                && window_type_of(m["type"@]) is Some {
                r matches Ok(resp) && resp.handle@ == m["handle"@]->String_0@ && Some(resp.typ)
                    == window_type_of(m["type"@])
            } else {
                r matches Err(CmdError::NotW3C(Json::Object(e))) && e.as_map() == m.remove(
                    "handle"@,
                )
            }
        },
{
    let mut obj = match reply {
        Json::Object(o) => o,
        v => return Err(CmdError::NotW3C(v)),
    };
    let ghost m = obj.as_map();
    proof {
        reveal_strlit("handle");
        reveal_strlit("type");
        assert("handle"@.len() != "type"@.len());
    }
    let handle = match obj.remove("handle") {
        Some(Json::String(x)) => match WindowHandle::from_string(x) {
            Ok(w) => w,
            Err(_) => return Err(CmdError::NotW3C(Json::Object(obj))),
        },
        _ => return Err(CmdError::NotW3C(Json::Object(obj))),
    };
    let typ = match obj.get("type") {
        Some(Json::String(t)) => match NewWindowType::from_wire(t.as_str()) {
            Some(typ) => typ,
            None => return Err(CmdError::NotW3C(Json::Object(obj))),
        },
        _ => return Err(CmdError::NotW3C(Json::Object(obj))),
    };
    Ok(NewWindowResponse { handle, typ })
}

/// A JSON number as an unsigned 64-bit integer, when it is one.
pub open spec fn as_u64(j: Json) -> Option<u64> {
    match j {
        Json::Number(JsonNumber::PosInt(n)) => Some(n),
        _ => None,
    }
}

/// The unsigned integer under `k` in `m`, if there is one.
pub open spec fn field_u64(m: Map<Seq<char>, Json>, k: Seq<char>) -> Option<u64> {
    if m.contains_key(k) {
        as_u64(m[k])
    } else {
        None
    }
}

/// Remove the entry under `key`, and give its value as an unsigned integer, if it is one.
fn take_u64(o: &mut JsonMap, key: &str) -> (r: Option<u64>)
    ensures
        final(o).as_map() == old(o).as_map().remove(key@),
        r == field_u64(old(o).as_map(), key@),
{
    match o.remove(key) {
        Some(Json::Number(JsonNumber::PosInt(n))) => Some(n),
        _ => None,
    }
}

/// The result of Get Window Rect: the unsigned integers `x`, `y`, `width` and `height` of the
/// reply object, read in that order. When one is missing or not an unsigned integer, the error
/// carries the object without the entries read so far and that one.
pub fn read_window_rect(reply: Json) -> (r: Result<(u64, u64, u64, u64), CmdError>)
    ensures
        !(reply is Object) ==> r == Err::<(u64, u64, u64, u64), CmdError>(CmdError::NotW3C(reply)),
        reply matches Json::Object(o) ==> {
            let m = o.as_map();
            let m1 = m.remove("x"@);
            let m2 = m1.remove("y"@);
            let m3 = m2.remove("width"@);
            let m4 = m3.remove("height"@);
            if field_u64(m, "x"@) is None {
                r matches Err(CmdError::NotW3C(Json::Object(e))) && e.as_map() == m1
            } else if field_u64(m1, "y"@) is None {
                r matches Err(CmdError::NotW3C(Json::Object(e))) && e.as_map() == m2
            } else if field_u64(m2, "width"@) is None {
                r matches Err(CmdError::NotW3C(Json::Object(e))) && e.as_map() == m3
            } else if field_u64(m3, "height"@) is None {
                r matches Err(CmdError::NotW3C(Json::Object(e))) && e.as_map() == m4
            } else {
                r == Ok::<(u64, u64, u64, u64), CmdError>(
                    (
                        field_u64(m, "x"@)->0,
                        field_u64(m1, "y"@)->0,
                        field_u64(m2, "width"@)->0,
                        field_u64(m3, "height"@)->0,
                    ),
                )
            }
        },
{
    let mut obj = match reply {
        Json::Object(o) => o,
        v => return Err(CmdError::NotW3C(v)),
    };
    let x = match take_u64(&mut obj, "x") {
        Some(x) => x,
        None => return Err(CmdError::NotW3C(Json::Object(obj))),
    };
    let y = match take_u64(&mut obj, "y") {
        Some(y) => y,
        None => return Err(CmdError::NotW3C(Json::Object(obj))),
    };
    let width = match take_u64(&mut obj, "width") {
        Some(w) => w,
        None => return Err(CmdError::NotW3C(Json::Object(obj))),
    };
    let height = match take_u64(&mut obj, "height") {
        Some(h) => h,
        None => return Err(CmdError::NotW3C(Json::Object(obj))),
    };
    Ok((x, y, width, height))
}

/// The bytes that `base64::engine::general_purpose::STANDARD` decodes from `s`, or `None` where
/// it refuses `s`.
pub uninterp spec fn base64_decoded(s: Seq<char>) -> Option<Seq<u8>>;

/// Calls `Engine::decode` of `base64::engine::general_purpose::STANDARD` on the UTF-8 bytes of
/// `s`. Success and the bytes are named `base64_decoded(s)`; which error a refused input gives
/// is left unsaid.
#[verifier::external_body]
fn decode_base64(s: &str) -> (r: Result<Vec<u8>, base64::DecodeError>)
    ensures
        r is Ok <==> base64_decoded(s@) is Some,
        r matches Ok(v) ==> v@ == base64_decoded(s@)->0,
{
    base64::engine::general_purpose::STANDARD.decode(s)
}

/// The result of Take Screenshot and Take Element Screenshot: the PNG image that the reply
/// carries in base64.
pub fn read_screenshot(reply: Json) -> (r: Result<Vec<u8>, CmdError>)
    ensures
        !(reply is String) ==> r == Err::<Vec<u8>, CmdError>(CmdError::NotW3C(reply)),
        reply matches Json::String(s) ==> match base64_decoded(s@) {
            Some(bytes) => r matches Ok(v) && v@ == bytes,
            None => r matches Err(CmdError::ImageDecodeError(_)),
        },
{
    match reply {
        Json::String(s) => match decode_base64(s.as_str()) {
            Ok(v) => Ok(v),
            Err(e) => Err(CmdError::ImageDecodeError(e)),
        },
        v => Err(CmdError::NotW3C(v)),
    }
}

/// The serialization of the URL that `url::Url::parse` makes of `s`, or `None` where it refuses
/// `s`.
pub uninterp spec fn url_parsed(s: Seq<char>) -> Option<Seq<char>>;

/// Calls `url::Url::parse` on `s`, and gives the URL's serialization. Success and the URL are
/// named `url_parsed(s)`; which error a refused input gives is left unsaid.
#[verifier::external_body]
fn parse_url(s: &str) -> (r: Result<String, url::ParseError>)
    ensures
        r is Ok <==> url_parsed(s@) is Some,
        r matches Ok(u) ==> u@ == url_parsed(s@)->0,
{
    match url::Url::parse(s) {
        Ok(u) => Ok(u.into()),
        Err(e) => Err(e),
    }
}

/// The WebDriver's address, checked and written as a URL.
pub fn webdriver_url(s: &str) -> (r: Result<String, url::ParseError>)
    ensures
        r is Ok <==> url_parsed(s@) is Some,
        r matches Ok(u) ==> u@ == url_parsed(s@)->0,
{
    parse_url(s)
}

/// The serialization of the URL that `url::Url::join` makes of `input` against the URL whose
/// serialization is `base`, or `None` where it refuses them.
pub uninterp spec fn url_joined(base: Seq<char>, input: Seq<char>) -> Option<Seq<char>>;

/// The user name of the URL whose serialization is `u`, as `url::Url::username` gives it (empty
/// where there is none).
pub uninterp spec fn url_username(u: Seq<char>) -> Seq<char>;

/// The password of the URL whose serialization is `u`, as `url::Url::password` gives it.
pub uninterp spec fn url_password(u: Seq<char>) -> Option<Seq<char>>;

/// A URL's serialization, with the user name and the password that it carries.
pub struct JoinedUrl {
    /// The serialization.
    pub url: String,
    /// The user name, empty where there is none.
    pub user: String,
    /// The password, if any.
    pub password: Option<String>,
}

/// Calls `url::Url::join` of the URL parsed from `base` (`url::Url::parse`) with `input`, and
/// gives the serialization of the result with its `username()` and `password()`. Success and
/// the URL are named `url_joined(base, input)`, its credentials `url_username` and
/// `url_password` of it; which error a refused input gives is left unsaid.
#[verifier::external_body]
pub(crate) fn join_url(base: &str, input: &str) -> (r: Result<JoinedUrl, url::ParseError>)
    ensures
        r is Ok <==> url_joined(base@, input@) is Some,
        r matches Ok(j) ==> j.url@ == url_joined(base@, input@)->0 && j.user@ == url_username(
            j.url@,
        ) && match j.password {
            Some(p) => url_password(j.url@) == Some(p@),
            None => url_password(j.url@) is None,
        },
{
    match url::Url::parse(base) {
        Ok(b) => match b.join(input) {
            Ok(u) => {
                let user = u.username().to_owned();
                let password = match u.password() {
                    Some(p) => Some(p.to_owned()),
                    None => None,
                };
                Ok(JoinedUrl { url: u.into(), user, password })
            },
            Err(e) => Err(e),
        },
        Err(e) => Err(e),
    }
}

/// The text of the current page's URL: what the reply holds, with an empty reply standing for
/// the blank page.
pub open spec fn page_url_text(s: Seq<char>) -> Seq<char> {
    if s.len() == 0 {
        "about:blank"@
    } else {
        s
    }
}

/// `r` is the current URL read from the reply `reply` to Get Current URL: the serialization of
/// the URL parsed from the text that the reply holds.
pub open spec fn current_url_read(reply: Json, r: Result<String, CmdError>) -> bool {
    match reply {
        Json::String(s) => match url_parsed(page_url_text(s@)) {
            Some(u) => r matches Ok(t) && t@ == u,
            None => r matches Err(CmdError::BadUrl(_)),
        },
        _ => r == Err::<String, CmdError>(CmdError::NotW3C(reply)),
    }
}

/// The result of Get Current URL: the serialization of the URL that the reply holds.
pub fn read_current_url(reply: Json) -> (r: Result<String, CmdError>)
    ensures
        current_url_read(reply, r),
        !(reply is String) ==> r == Err::<String, CmdError>(CmdError::NotW3C(reply)),
        reply matches Json::String(s) ==> match url_parsed(page_url_text(s@)) {
            Some(u) => r matches Ok(t) && t@ == u,
            None => r matches Err(CmdError::BadUrl(_)),
        },
{
    match reply {
        Json::String(s) => {
            let text: &str = if s.unicode_len() == 0 {
                "about:blank"
            } else {
                s.as_str()
            };
            match parse_url(text) {
                Ok(u) => Ok(u),
                Err(e) => Err(CmdError::BadUrl(e)),
            }
        },
        v => Err(CmdError::NotW3C(v)),
    }
}

/// Resolve `input` against the URL `base`, as navigation resolves a link against the current
/// page.
pub fn resolve_url(base: &str, input: &str) -> (r: Result<String, CmdError>)
    ensures
        match url_joined(base@, input@) {
            Some(u) => r matches Ok(t) && t@ == u,
            None => r matches Err(CmdError::BadUrl(_)),
        },
{
    match join_url(base, input) {
        Ok(j) => Ok(j.url),
        Err(e) => Err(CmdError::BadUrl(e)),
    }
}

/// `c` is what navigating to `input` from the page at `base` sends: Navigate To the link
/// resolved against `base`, or, where it cannot be resolved, nothing but a bad-URL error.
pub open spec fn goto_sent(base: Seq<char>, input: Seq<char>, c: Result<WebDriverCommand, CmdError>) -> bool {
    match url_joined(base, input) {
        Some(u) => c matches Ok(WebDriverCommand::Get(t)) && t@ == u,
        None => c matches Err(CmdError::BadUrl(_)),
    }
}

/// The command that navigates to `input` from the page whose URL is `base`: relative links
/// resolve against the current page.
pub fn goto_command(base: &str, input: &str) -> (c: Result<WebDriverCommand, CmdError>)
    ensures
        goto_sent(base@, input@, c),
{
    match resolve_url(base, input) {
        Ok(u) => Ok(WebDriverCommand::Get(u)),
        Err(e) => Err(e),
    }
}

/// The message of the error that following an element without a link gives.
pub open spec fn no_href_message() -> Seq<char> {
    "cannot follow element without href attribute"@
}

/// The link that an element's `href` attribute holds, from the reply to Get Element Attribute.
/// An element without the attribute cannot be followed: that is an invalid argument.
pub fn read_href(reply: Json) -> (r: Result<String, CmdError>)
    ensures
        reply matches Json::String(s) ==> r == Ok::<String, CmdError>(s),
        reply is Null ==> (r matches Err(CmdError::Standard(w)) && w.error
            == ErrorStatus::InvalidArgument && w.message@ == no_href_message()),
        !(reply is String) && !(reply is Null) ==> r == Err::<String, CmdError>(
            CmdError::NotW3C(reply),
        ),
{
    match reply {
        Json::String(s) => Ok(s),
        Json::Null => Err(
            CmdError::Standard(
                WebDriver::new(
                    ErrorStatus::InvalidArgument,
                    "cannot follow element without href attribute",
                ),
            ),
        ),
        v => Err(CmdError::NotW3C(v)),
    }
}

/// The command that sets the position and size of the current window. The client takes
/// unsigned coordinates and sends them as the protocol's signed ones, as a cast to `i32` does.
pub fn set_window_rect_command(x: u32, y: u32, width: u32, height: u32) -> (c: WebDriverCommand)
    ensures
        c == WebDriverCommand::SetWindowRect(
            Some(x as i32),
            Some(y as i32),
            Some(width as i32),
            Some(height as i32),
        ),
{
    WebDriverCommand::SetWindowRect(Some(x as i32), Some(y as i32), Some(width as i32), Some(height as i32))
}

/// The command that sets the size of the current window, leaving its position.
pub fn set_window_size_command(width: u32, height: u32) -> (c: WebDriverCommand)
    ensures
        c == WebDriverCommand::SetWindowRect(None, None, Some(width as i32), Some(height as i32)),
{
    WebDriverCommand::SetWindowRect(None, None, Some(width as i32), Some(height as i32))
}

/// The command that sets the position of the current window, leaving its size.
pub fn set_window_position_command(x: u32, y: u32) -> (c: WebDriverCommand)
    ensures
        c == WebDriverCommand::SetWindowRect(Some(x as i32), Some(y as i32), None, None),
{
    WebDriverCommand::SetWindowRect(Some(x as i32), Some(y as i32), None, None)
}

/// The command that opens a new window, or a new tab.
pub fn new_window_command(as_tab: bool) -> (c: WebDriverCommand)
    ensures
        c matches WebDriverCommand::NewWindow(hint) && hint@ == (if as_tab {
            "tab"@
        } else {
            "window"@
        }),
{
    let hint = if as_tab {
        "tab"
    } else {
        "window"
    };
    WebDriverCommand::NewWindow(hint.to_owned())
}

/// The command that switches to the frame at the given index, or to the top-level browsing
/// context.
pub fn switch_to_frame_command(index: Option<u16>) -> (c: WebDriverCommand)
    ensures
        index matches Some(i) ==> c == WebDriverCommand::SwitchToFrame(FrameId::Short(i)),
        index is None ==> c == WebDriverCommand::SwitchToFrame(FrameId::Top),
{
    match index {
        Some(i) => WebDriverCommand::SwitchToFrame(FrameId::Short(i)),
        None => WebDriverCommand::SwitchToFrame(FrameId::Top),
    }
}

/// The property that holds an element's HTML: its content, or the element with its content.
pub fn html_property(inner: bool) -> (p: &'static str)
    ensures
        p@ == (if inner {
            "innerHTML"@
        } else {
            "outerHTML"@
        }),
{
    if inner {
        "innerHTML"
    } else {
        "outerHTML"
    }
}

/// The command that performs the given action sequences, one input source each.
pub fn perform_actions_command(sequences: Vec<ActionSequence>) -> (c: WebDriverCommand)
    ensures
        c matches WebDriverCommand::PerformActions(v) && v@.len() == sequences@.len() && forall|i: int|
            0 <= i < v@.len() ==> #[trigger] sequence_json(v@[i], sequences@[i]),
{
    let ghost all = sequences@;
    let mut rest = sequences;
    let mut out: Vec<Json> = Vec::new();
    while rest.len() > 0
        invariant
            out@.len() + rest@.len() == all.len(),
            rest@ == all.subrange(out@.len() as int, all.len() as int),
            forall|i: int| 0 <= i < out@.len() ==> #[trigger] sequence_json(out@[i], all[i]),
        decreases rest@.len(),
    {
        let s = rest.remove(0);
        assert(s == all[out@.len() as int]);
        out.push(s.into_json());
        assert(rest@ =~= all.subrange(out@.len() as int, all.len() as int));
    }
    WebDriverCommand::PerformActions(out)
}

} // verus!
