//! The WebDriver commands this client sends, and how each one travels over HTTP.
//!
//! The mapping of commands to endpoints is that of the
//! [list of endpoints](https://www.w3.org/TR/webdriver/#list-of-endpoints).
use crate::elements::{is_element_json, ElementRef, ELEMENT_KEY};
use crate::json::{Json, JsonMap, JsonNumber};
use crate::text::{string_append};
use crate::wd::{
    locator_wire, strategy_text, timeouts_json, Capabilities, LocatorParameters,
    TimeoutConfiguration,
};
use vstd::prelude::*;

verus! {

/// The frame to switch to.
#[derive(Debug)]
pub enum FrameId {
    /// The top-level browsing context.
    Top,
    /// The frame with the given index.
    Short(u16),
    /// The frame held by the given element.
    Element(ElementRef),
}

/// The capabilities of a W3C New Session request.
#[derive(Debug)]
pub struct SpecNewSessionParameters {
    /// The capabilities that every match must have.
    pub always_match: Capabilities,
    /// The alternatives, tried in order, each merged with `always_match`.
    pub first_match: Vec<Capabilities>,
}

/// The capabilities of a legacy New Session request.
#[derive(Debug)]
pub struct LegacyNewSessionParameters {
    /// The capabilities that the session should have.
    pub desired: Capabilities,
    /// The capabilities that the session must have.
    pub required: Capabilities,
}

/// The parameters of a New Session request.
#[derive(Debug)]
pub enum NewSessionParameters {
    /// The W3C form.
    Spec(SpecNewSessionParameters),
    /// The legacy form.
    Legacy(LegacyNewSessionParameters),
}

/// New Session in the W3C form, as a client starts it: the capabilities must always match, and
/// there is one alternative, which asks for nothing more.
pub fn spec_new_session(caps: Capabilities) -> (c: WebDriverCommand)
    ensures
        c matches WebDriverCommand::NewSession(NewSessionParameters::Spec(p)) && p.always_match
            == caps && p.first_match@.len() == 1 && p.first_match@[0].as_map() == Map::<
            Seq<char>,
            Json,
        >::empty(),
{
    let mut first_match = Vec::new();
    first_match.push(JsonMap::new());
    WebDriverCommand::NewSession(
        NewSessionParameters::Spec(SpecNewSessionParameters { always_match: caps, first_match }),
    )
}

/// New Session in the legacy form, as a client starts it: the capabilities are desired, and
/// none is required.
pub fn legacy_new_session(caps: Capabilities) -> (c: WebDriverCommand)
    ensures
        c matches WebDriverCommand::NewSession(NewSessionParameters::Legacy(p)) && p.desired
            == caps && p.required.as_map() == Map::<Seq<char>, Json>::empty(),
{
    WebDriverCommand::NewSession(
        NewSessionParameters::Legacy(
            LegacyNewSessionParameters { desired: caps, required: JsonMap::new() },
        ),
    )
}

/// Each set of capabilities as a JSON object, in order.
fn capability_objects(v: Vec<Capabilities>) -> (r: Vec<Json>)
    ensures
        r@ == v@.map_values(|m: Capabilities| Json::Object(m)),
{
    let mut rest = v;
    let mut r: Vec<Json> = Vec::new();
    while rest.len() > 0
        invariant
            rest@.len() <= v@.len(),
            rest@ == v@.subrange(0, rest@.len() as int),
            r@ == v@.subrange(rest@.len() as int, v@.len() as int).map_values(
                |m: Capabilities| Json::Object(m),
            ),
        decreases rest@.len(),
    {
        let ghost k = rest@.len();
        let m = rest.pop().unwrap();
        r.insert(0, Json::Object(m));
        assert(r@ =~= v@.subrange(k - 1, v@.len() as int).map_values(
            |m: Capabilities| Json::Object(m),
        ));
        assert(rest@ =~= v@.subrange(0, k - 1));
    }
    assert(v@.subrange(0, v@.len() as int) =~= v@);
    r
}

/// A command that can be sent to the WebDriver.
#[derive(Debug)]
pub enum WebDriverCommand {
    /// New Session.
    NewSession(NewSessionParameters),
    /// Status.
    Status,
    /// Navigate To the given URL.
    Get(String),
    /// Get Current URL.
    GetCurrentUrl,
    /// Back.
    GoBack,
    /// Forward.
    GoForward,
    /// Refresh.
    Refresh,
    /// Get Title.
    GetTitle,
    /// Get Page Source.
    GetPageSource,
    /// Get Window Handle.
    GetWindowHandle,
    /// Get Window Handles.
    GetWindowHandles,
    /// New Window, with the type hint (`"tab"` or `"window"`).
    NewWindow(String),
    /// Close Window.
    CloseWindow,
    /// Get Window Rect.
    GetWindowRect,
    /// Set Window Rect: x, y, width and height, each optional.
    SetWindowRect(Option<i32>, Option<i32>, Option<i32>, Option<i32>),
    /// Minimize Window.
    MinimizeWindow,
    /// Maximize Window.
    MaximizeWindow,
    /// Fullscreen Window.
    FullscreenWindow,
    /// Switch To Window with the given handle.
    SwitchToWindow(String),
    /// Switch To Frame.
    SwitchToFrame(FrameId),
    /// Switch To Parent Frame.
    SwitchToParentFrame,
    /// Find Element.
    FindElement(LocatorParameters),
    /// Find Elements.
    FindElements(LocatorParameters),
    /// Find Element From Element.
    FindElementElement(ElementRef, LocatorParameters),
    /// Find Elements From Element.
    FindElementElements(ElementRef, LocatorParameters),
    /// Get Active Element.
    GetActiveElement,
    /// Is Element Displayed.
    IsDisplayed(ElementRef),
    /// Is Element Selected.
    IsSelected(ElementRef),
    /// Get Element Attribute.
    GetElementAttribute(ElementRef, String),
    /// Get Element Property.
    GetElementProperty(ElementRef, String),
    /// Get Element CSS Value.
    GetCSSValue(ElementRef, String),
    /// Get Element Text.
    GetElementText(ElementRef),
    /// Get Element Tag Name.
    GetElementTagName(ElementRef),
    /// Get Element Rect.
    GetElementRect(ElementRef),
    /// Is Element Enabled.
    IsEnabled(ElementRef),
    /// Execute Script: the script and its arguments.
    ExecuteScript(String, Vec<Json>),
    /// Execute Async Script: the script and its arguments.
    ExecuteAsyncScript(String, Vec<Json>),
    /// Get All Cookies.
    GetCookies,
    /// Get Named Cookie.
    GetNamedCookie(String),
    /// Add Cookie, with the cookie's JSON form.
    AddCookie(Json),
    /// Delete Cookie.
    DeleteCookie(String),
    /// Delete All Cookies.
    DeleteCookies,
    /// Get Timeouts.
    GetTimeouts,
    /// Set Timeouts.
    SetTimeouts(TimeoutConfiguration),
    /// Element Click.
    ElementClick(ElementRef),
    /// Element Clear.
    ElementClear(ElementRef),
    /// Element Send Keys.
    ElementSendKeys(ElementRef, String),
    /// Perform Actions, with the JSON form of each action sequence.
    PerformActions(Vec<Json>),
    /// Release Actions.
    ReleaseActions,
    /// Dismiss Alert.
    DismissAlert,
    /// Accept Alert.
    AcceptAlert,
    /// Get Alert Text.
    GetAlertText,
    /// Send Alert Text.
    SendAlertText(String),
    /// Take Screenshot.
    TakeScreenshot,
    /// Take Element Screenshot.
    TakeElementScreenshot(ElementRef),
    /// Print Page, with the JSON form of the print parameters.
    Print(Json),
}

/// An HTTP request method.
#[derive(Debug, Clone, Copy, PartialEq, Eq, Structural)]
pub enum Method {
    /// `GET`
    Get,
    /// `POST`
    Post,
    /// `DELETE`
    Delete,
}

/// A request ready to be sent: the method, the path relative to the WebDriver's base URL, and
/// the JSON body, if any.
#[derive(Debug)]
pub struct WireRequest {
    /// The HTTP method.
    pub method: Method,
    /// The path, relative to the WebDriver's base URL.
    pub path: String,
    /// The body, sent as JSON.
    pub body: Option<Json>,
}

/// The path of a command under `session/{id}/`.
pub open spec fn session_path(c: WebDriverCommand) -> Seq<char> {
    match c {
        WebDriverCommand::Get(..) | WebDriverCommand::GetCurrentUrl => "url"@,
        WebDriverCommand::GoBack => "back"@,
        WebDriverCommand::GoForward => "forward"@,
        WebDriverCommand::Refresh => "refresh"@,
        WebDriverCommand::GetTitle => "title"@,
        WebDriverCommand::GetPageSource => "source"@,
        WebDriverCommand::GetWindowHandle => "window"@,
        WebDriverCommand::GetWindowHandles => "window/handles"@,
        WebDriverCommand::NewWindow(..) => "window/new"@,
        WebDriverCommand::CloseWindow => "window"@,
        WebDriverCommand::GetWindowRect => "window/rect"@,
        WebDriverCommand::SetWindowRect(..) => "window/rect"@,
        WebDriverCommand::MinimizeWindow => "window/minimize"@,
        WebDriverCommand::MaximizeWindow => "window/maximize"@,
        WebDriverCommand::FullscreenWindow => "window/fullscreen"@,
        WebDriverCommand::SwitchToWindow(..) => "window"@,
        WebDriverCommand::SwitchToFrame(..) => "frame"@,
        WebDriverCommand::SwitchToParentFrame => "frame/parent"@,
        WebDriverCommand::FindElement(..) => "element"@,
        WebDriverCommand::FindElements(..) => "elements"@,
        WebDriverCommand::FindElementElement(e, _) => "element/"@ + e@ + "/element"@,
        WebDriverCommand::FindElementElements(e, _) => "element/"@ + e@ + "/elements"@,
        WebDriverCommand::GetActiveElement => "element/active"@,
        WebDriverCommand::IsDisplayed(e) => "element/"@ + e@ + "/displayed"@,
        WebDriverCommand::IsSelected(e) => "element/"@ + e@ + "/selected"@,
        WebDriverCommand::GetElementAttribute(e, a) => "element/"@ + e@ + "/attribute/"@ + a@,
        WebDriverCommand::GetElementProperty(e, p) => "element/"@ + e@ + "/property/"@ + p@,
        WebDriverCommand::GetCSSValue(e, p) => "element/"@ + e@ + "/css/"@ + p@,
        WebDriverCommand::GetElementText(e) => "element/"@ + e@ + "/text"@,
        WebDriverCommand::GetElementTagName(e) => "element/"@ + e@ + "/name"@,
        WebDriverCommand::GetElementRect(e) => "element/"@ + e@ + "/rect"@,
        WebDriverCommand::IsEnabled(e) => "element/"@ + e@ + "/enabled"@,
        WebDriverCommand::ExecuteScript(..) => "execute/sync"@,
        WebDriverCommand::ExecuteAsyncScript(..) => "execute/async"@,
        WebDriverCommand::GetCookies | WebDriverCommand::AddCookie(..)
        | WebDriverCommand::DeleteCookies => "cookie"@,
        WebDriverCommand::GetNamedCookie(n) | WebDriverCommand::DeleteCookie(n) => "cookie/"@ + n@,
        WebDriverCommand::GetTimeouts | WebDriverCommand::SetTimeouts(..) => "timeouts"@,
        WebDriverCommand::ElementClick(e) => "element/"@ + e@ + "/click"@,
        WebDriverCommand::ElementClear(e) => "element/"@ + e@ + "/clear"@,
        WebDriverCommand::ElementSendKeys(e, _) => "element/"@ + e@ + "/value"@,
        WebDriverCommand::PerformActions(..) | WebDriverCommand::ReleaseActions => "actions"@,
        WebDriverCommand::DismissAlert => "alert/dismiss"@,
        WebDriverCommand::AcceptAlert => "alert/accept"@,
        WebDriverCommand::GetAlertText | WebDriverCommand::SendAlertText(..) => "alert/text"@,
        WebDriverCommand::TakeScreenshot => "screenshot"@,
        WebDriverCommand::TakeElementScreenshot(e) => "element/"@ + e@ + "/screenshot"@,
        WebDriverCommand::Print(..) => "print"@,
        WebDriverCommand::NewSession(..) | WebDriverCommand::Status => Seq::empty(),
    }
}

/// Does the command address the current session?
pub open spec fn in_session(c: WebDriverCommand) -> bool {
    !(c is NewSession || c is Status)
}

/// The path of a command, relative to the WebDriver's base URL.
pub open spec fn endpoint_path(c: WebDriverCommand, session_id: Seq<char>) -> Seq<char> {
    match c {
        WebDriverCommand::NewSession(..) => "session"@,
        WebDriverCommand::Status => "status"@,
        _ => "session/"@ + session_id + "/"@ + session_path(c),
    }
}

/// The HTTP method of a command.
pub open spec fn command_method(c: WebDriverCommand) -> Method {
    match c {
        WebDriverCommand::NewSession(..) | WebDriverCommand::Get(..)
        | WebDriverCommand::FindElement(..) | WebDriverCommand::FindElements(..)
        | WebDriverCommand::FindElementElement(..) | WebDriverCommand::FindElementElements(..)
        | WebDriverCommand::ExecuteScript(..) | WebDriverCommand::ExecuteAsyncScript(..)
        | WebDriverCommand::ElementSendKeys(..) | WebDriverCommand::ElementClick(..)
        | WebDriverCommand::ElementClear(..) | WebDriverCommand::GoBack
        | WebDriverCommand::GoForward | WebDriverCommand::Refresh
        | WebDriverCommand::MinimizeWindow | WebDriverCommand::MaximizeWindow
        | WebDriverCommand::FullscreenWindow | WebDriverCommand::DismissAlert
        | WebDriverCommand::AcceptAlert | WebDriverCommand::NewWindow(..)
        | WebDriverCommand::SetWindowRect(..) | WebDriverCommand::SwitchToWindow(..)
        | WebDriverCommand::SwitchToFrame(..) | WebDriverCommand::SwitchToParentFrame
        | WebDriverCommand::AddCookie(..) | WebDriverCommand::SetTimeouts(..)
        | WebDriverCommand::PerformActions(..) | WebDriverCommand::SendAlertText(..)
        | WebDriverCommand::Print(..) => Method::Post,
        WebDriverCommand::CloseWindow | WebDriverCommand::DeleteCookie(..)
        | WebDriverCommand::DeleteCookies | WebDriverCommand::ReleaseActions => Method::Delete,
        _ => Method::Get,
    }
}

/// `j` is a JSON string with the given characters.
pub open spec fn json_str(j: Json, s: Seq<char>) -> bool {
    j matches Json::String(t) && t@ == s
}

/// The JSON form of an optional window coordinate.
pub open spec fn coordinate_json(x: Option<i32>) -> Json {
    match x {
        Some(v) => if v >= 0 {
            Json::Number(JsonNumber::PosInt(v as u64))
        } else {
            Json::Number(JsonNumber::NegInt(v as i64))
        },
        None => Json::Null,
    }
}

/// `m` is the JSON form of the locator parameters `p`.
pub open spec fn locator_json(m: Map<Seq<char>, Json>, p: LocatorParameters) -> bool {
    &&& m.dom() == set!["using"@, "value"@]
    &&& json_str(m["using"@], strategy_text(p.using))
    &&& m["value"@] == Json::String(p.value)
}

/// `j` is the JSON form of the frame id `f`.
pub open spec fn frame_json(j: Json, f: FrameId) -> bool {
    match f {
        FrameId::Top => j == Json::Null,
        FrameId::Short(n) => j == Json::Number(JsonNumber::PosInt(n as u64)),
        FrameId::Element(e) => is_element_json(j, e@, false),
    }
}

/// `m` is the body of a W3C New Session request with the parameters `caps`, for a WebDriver
/// whose URL carries the user name `user` and maybe a password.
pub open spec fn new_session_body(
    m: Map<Seq<char>, Json>,
    caps: SpecNewSessionParameters,
    user: Seq<char>,
    password: Option<Seq<char>>,
) -> bool {
    &&& m.contains_key("capabilities"@)
    &&& m["capabilities"@] matches Json::Object(c)
    &&& c.as_map().dom() == set!["alwaysMatch"@, "firstMatch"@]
    &&& c.as_map()["alwaysMatch"@] == Json::Object(caps.always_match)
    &&& c.as_map()["firstMatch"@] matches Json::Array(a)
    &&& a@ == caps.first_match@.map_values(|m: Capabilities| Json::Object(m))
    &&& (user.len() > 0 <==> m.contains_key("user"@))
    &&& (user.len() > 0 ==> json_str(m["user"@], user))
    &&& (password is Some <==> m.contains_key("password"@))
    &&& (password matches Some(p) ==> json_str(m["password"@], p))
    &&& forall|k: Seq<char>| #[trigger] m.contains_key(k) ==> k == "capabilities"@ || k == "user"@
        || k == "password"@
}

/// `body` is what the command `c` sends.
pub open spec fn command_body(
    c: WebDriverCommand,
    user: Seq<char>,
    password: Option<Seq<char>>,
    body: Option<Json>,
) -> bool {
    match c {
        WebDriverCommand::NewSession(NewSessionParameters::Spec(caps)) => body matches Some(
            Json::Object(m),
        ) && new_session_body(m.as_map(), caps, user, password),
        WebDriverCommand::NewSession(NewSessionParameters::Legacy(caps)) => {
            &&& body matches Some(Json::Object(m))
            &&& m.as_map().dom() == set!["desiredCapabilities"@, "requiredCapabilities"@]
            &&& m.as_map()["desiredCapabilities"@] == Json::Object(caps.desired)
            &&& m.as_map()["requiredCapabilities"@] == Json::Object(caps.required)
        },
        WebDriverCommand::Get(url) => body matches Some(Json::Object(m)) && m.as_map() == map![
            "url"@ => Json::String(url)],
        WebDriverCommand::FindElement(p) | WebDriverCommand::FindElements(p)
        | WebDriverCommand::FindElementElement(_, p) | WebDriverCommand::FindElementElements(
            _,
            p,
        ) => body matches Some(Json::Object(m)) && locator_json(m.as_map(), p),
        WebDriverCommand::ExecuteScript(script, args) | WebDriverCommand::ExecuteAsyncScript(
            script,
            args,
        ) => body matches Some(Json::Object(m)) && m.as_map() == map![
            "script"@ => Json::String(script), "args"@ => Json::Array(args)],
        WebDriverCommand::ElementSendKeys(_, text) | WebDriverCommand::SendAlertText(text) => body
            matches Some(Json::Object(m)) && m.as_map() == map!["text"@ => Json::String(text)],
        WebDriverCommand::ElementClick(..) | WebDriverCommand::ElementClear(..)
        | WebDriverCommand::GoBack | WebDriverCommand::GoForward | WebDriverCommand::Refresh
        | WebDriverCommand::MinimizeWindow | WebDriverCommand::MaximizeWindow
        | WebDriverCommand::FullscreenWindow | WebDriverCommand::DismissAlert
        | WebDriverCommand::AcceptAlert | WebDriverCommand::SwitchToParentFrame => body matches Some(
            Json::Object(m),
        ) && m.as_map() == Map::<Seq<char>, Json>::empty(),
        WebDriverCommand::NewWindow(hint) => body matches Some(Json::Object(m)) && m.as_map()
            == map!["type"@ => Json::String(hint)],
        WebDriverCommand::SetWindowRect(x, y, w, h) => body matches Some(Json::Object(m))
            && m.as_map() == map![
            "x"@ => coordinate_json(x),
            "y"@ => coordinate_json(y),
            "width"@ => coordinate_json(w),
            "height"@ => coordinate_json(h),
        ],
        WebDriverCommand::SwitchToWindow(handle) => body matches Some(Json::Object(m))
            && m.as_map() == map!["handle"@ => Json::String(handle)],
        WebDriverCommand::SwitchToFrame(f) => body matches Some(Json::Object(m)) && m.as_map().dom()
            == set!["id"@] && frame_json(m.as_map()["id"@], f),
        WebDriverCommand::AddCookie(cookie) => body matches Some(Json::Object(m)) && m.as_map()
            == map!["cookie"@ => cookie],
        WebDriverCommand::SetTimeouts(t) => body matches Some(Json::Object(m)) && timeouts_json(
            m.as_map(),
            t,
        ),
        WebDriverCommand::PerformActions(actions) => body matches Some(Json::Object(m))
            && m.as_map() == map!["actions"@ => Json::Array(actions)],
        WebDriverCommand::Print(params) => body == Some(params),
        _ => body is None,
    }
}

pub(crate) fn session_prefix(session_id: &str) -> (s: String)
    ensures
        s@ == "session/"@ + session_id@ + "/"@,
{
    let mut s = String::from_str("session/");
    string_append(&mut s, session_id);
    string_append(&mut s, "/");
    s
}

fn element_path(e: &ElementRef, suffix: &str) -> (s: String)
    ensures
        s@ == "element/"@ + e@ + suffix@,
{
    let mut s = String::from_str("element/");
    string_append(&mut s, e.as_str());
    string_append(&mut s, suffix);
    s
}

fn element_path2(e: &ElementRef, middle: &str, name: &str) -> (s: String)
    ensures
        s@ == "element/"@ + e@ + middle@ + name@,
{
    let mut s = element_path(e, middle);
    string_append(&mut s, name);
    s
}

fn empty_object() -> (j: Json)
    ensures
        j matches Json::Object(m) && m.as_map() == Map::<Seq<char>, Json>::empty(),
{
    Json::Object(JsonMap::new())
}

fn single_entry(key: &str, value: Json) -> (j: Json)
    ensures
        j matches Json::Object(m) && m.as_map() == map![key@ => value],
{
    let mut m = JsonMap::new();
    m.insert(key.to_owned(), value);
    proof {
        assert(m.as_map() =~= map![key@ => value]);
    }
    Json::Object(m)
}

fn coordinate(x: Option<i32>) -> (j: Json)
    ensures
        j == coordinate_json(x),
{
    match x {
        Some(v) => if v >= 0 {
            Json::Number(JsonNumber::PosInt(v as u64))
        } else {
            Json::Number(JsonNumber::NegInt(v as i64))
        },
        None => Json::Null,
    }
}

fn locator_body(p: LocatorParameters) -> (j: Json)
    ensures
        j matches Json::Object(m) && locator_json(m.as_map(), p),
{
    let mut m = JsonMap::new();
    m.insert("using".to_owned(), Json::String(p.using.as_str().to_owned()));
    m.insert("value".to_owned(), Json::String(p.value));
    proof {
        reveal_strlit("using");
        reveal_strlit("value");
        assert("using"@[0] != "value"@[0]);
        assert(m.as_map().dom() =~= set!["using"@, "value"@]);
    }
    Json::Object(m)
}

impl WebDriverCommand {
    /// Is this the command that starts a new session?
    pub fn is_new_session(&self) -> (b: bool)
        ensures
            b == (self is NewSession),
    {
        matches!(self, WebDriverCommand::NewSession(..))
    }

    /// Is this the command that starts a session with the legacy protocol?
    pub fn is_legacy(&self) -> (b: bool)
        ensures
            b == (self matches WebDriverCommand::NewSession(NewSessionParameters::Legacy(..))),
    {
        matches!(self, WebDriverCommand::NewSession(NewSessionParameters::Legacy(..)))
    }

    /// The path of this command under `session/{id}/`.
    pub(crate) fn session_path(&self) -> (s: String)
        requires
            in_session(*self),
        ensures
            s@ == session_path(*self),
    {
        match self {
            WebDriverCommand::Get(..) | WebDriverCommand::GetCurrentUrl => String::from_str("url"),
            WebDriverCommand::GoBack => String::from_str("back"),
            WebDriverCommand::GoForward => String::from_str("forward"),
            WebDriverCommand::Refresh => String::from_str("refresh"),
            WebDriverCommand::GetTitle => String::from_str("title"),
            WebDriverCommand::GetPageSource => String::from_str("source"),
            WebDriverCommand::GetWindowHandle => String::from_str("window"),
            WebDriverCommand::GetWindowHandles => String::from_str("window/handles"),
            WebDriverCommand::NewWindow(..) => String::from_str("window/new"),
            WebDriverCommand::CloseWindow => String::from_str("window"),
            WebDriverCommand::GetWindowRect => String::from_str("window/rect"),
            WebDriverCommand::SetWindowRect(..) => String::from_str("window/rect"),
            WebDriverCommand::MinimizeWindow => String::from_str("window/minimize"),
            WebDriverCommand::MaximizeWindow => String::from_str("window/maximize"),
            WebDriverCommand::FullscreenWindow => String::from_str("window/fullscreen"),
            WebDriverCommand::SwitchToWindow(..) => String::from_str("window"),
            WebDriverCommand::SwitchToFrame(..) => String::from_str("frame"),
            WebDriverCommand::SwitchToParentFrame => String::from_str("frame/parent"),
            WebDriverCommand::FindElement(..) => String::from_str("element"),
            WebDriverCommand::FindElements(..) => String::from_str("elements"),
            WebDriverCommand::FindElementElement(e, _) => element_path(e, "/element"),
            WebDriverCommand::FindElementElements(e, _) => element_path(e, "/elements"),
            WebDriverCommand::GetActiveElement => String::from_str("element/active"),
            WebDriverCommand::IsDisplayed(e) => element_path(e, "/displayed"),
            WebDriverCommand::IsSelected(e) => element_path(e, "/selected"),
            WebDriverCommand::GetElementAttribute(e, a) => element_path2(e, "/attribute/", a.as_str()),
            WebDriverCommand::GetElementProperty(e, p) => element_path2(e, "/property/", p.as_str()),
            WebDriverCommand::GetCSSValue(e, p) => element_path2(e, "/css/", p.as_str()),
            WebDriverCommand::GetElementText(e) => element_path(e, "/text"),
            WebDriverCommand::GetElementTagName(e) => element_path(e, "/name"),
            WebDriverCommand::GetElementRect(e) => element_path(e, "/rect"),
            WebDriverCommand::IsEnabled(e) => element_path(e, "/enabled"),
            WebDriverCommand::ExecuteScript(..) => String::from_str("execute/sync"),
            WebDriverCommand::ExecuteAsyncScript(..) => String::from_str("execute/async"),
            WebDriverCommand::GetCookies | WebDriverCommand::AddCookie(..)
            | WebDriverCommand::DeleteCookies => String::from_str("cookie"),
            WebDriverCommand::GetNamedCookie(n) | WebDriverCommand::DeleteCookie(n) => {
                let mut s = String::from_str("cookie/");
                string_append(&mut s, n.as_str());
                s
            },
            WebDriverCommand::GetTimeouts | WebDriverCommand::SetTimeouts(..) => String::from_str(
                "timeouts",
            ),
            WebDriverCommand::ElementClick(e) => element_path(e, "/click"),
            WebDriverCommand::ElementClear(e) => element_path(e, "/clear"),
            WebDriverCommand::ElementSendKeys(e, _) => element_path(e, "/value"),
            WebDriverCommand::PerformActions(..) | WebDriverCommand::ReleaseActions => String::from_str(
                "actions",
            ),
            WebDriverCommand::DismissAlert => String::from_str("alert/dismiss"),
            WebDriverCommand::AcceptAlert => String::from_str("alert/accept"),
            WebDriverCommand::GetAlertText | WebDriverCommand::SendAlertText(..) => String::from_str(
                "alert/text",
            ),
            WebDriverCommand::TakeScreenshot => String::from_str("screenshot"),
            WebDriverCommand::TakeElementScreenshot(e) => element_path(e, "/screenshot"),
            WebDriverCommand::Print(..) => String::from_str("print"),
            WebDriverCommand::NewSession(..) | WebDriverCommand::Status => String::new(),
        }
    }

    /// The path of this command relative to the WebDriver's base URL.
    ///
    /// Every command other than New Session and Status addresses the current session, so it
    /// needs the session's id.
    pub fn endpoint(&self, session_id: Option<&str>) -> (s: String)
        requires
            in_session(*self) ==> session_id is Some,
        ensures
            s@ == endpoint_path(*self, match session_id {
                Some(id) => id@,
                None => Seq::empty(),
            }),
    {
        match self {
            WebDriverCommand::NewSession(..) => String::from_str("session"),
            WebDriverCommand::Status => String::from_str("status"),
            _ => {
                let mut s = session_prefix(session_id.unwrap());
                let p = self.session_path();
                string_append(&mut s, p.as_str());
                s
            },
        }
    }

    /// The HTTP method of this command.
    pub fn method(&self) -> (m: Method)
        ensures
            m == command_method(*self),
    {
        match self {
            WebDriverCommand::NewSession(..) | WebDriverCommand::Get(..)
            | WebDriverCommand::FindElement(..) | WebDriverCommand::FindElements(..)
            | WebDriverCommand::FindElementElement(..) | WebDriverCommand::FindElementElements(..)
            | WebDriverCommand::ExecuteScript(..) | WebDriverCommand::ExecuteAsyncScript(..)
            | WebDriverCommand::ElementSendKeys(..) | WebDriverCommand::ElementClick(..)
            | WebDriverCommand::ElementClear(..) | WebDriverCommand::GoBack
            | WebDriverCommand::GoForward | WebDriverCommand::Refresh
            | WebDriverCommand::MinimizeWindow | WebDriverCommand::MaximizeWindow
            | WebDriverCommand::FullscreenWindow | WebDriverCommand::DismissAlert
            | WebDriverCommand::AcceptAlert | WebDriverCommand::NewWindow(..)
            | WebDriverCommand::SetWindowRect(..) | WebDriverCommand::SwitchToWindow(..)
            | WebDriverCommand::SwitchToFrame(..) | WebDriverCommand::SwitchToParentFrame
            | WebDriverCommand::AddCookie(..) | WebDriverCommand::SetTimeouts(..)
            | WebDriverCommand::PerformActions(..) | WebDriverCommand::SendAlertText(..)
            | WebDriverCommand::Print(..) => Method::Post,
            WebDriverCommand::CloseWindow | WebDriverCommand::DeleteCookie(..)
            | WebDriverCommand::DeleteCookies | WebDriverCommand::ReleaseActions => Method::Delete,
            _ => Method::Get,
        }
    }

    /// The body that this command sends, if any.
    ///
    /// `user` and `password` are the credentials in the WebDriver's URL; a New Session request
    /// passes them on.
    pub fn into_body(self, user: &str, password: Option<&str>) -> (b: Option<Json>)
        ensures
            command_body(self, user@, match password {
                Some(p) => Some(p@),
                None => None::<Seq<char>>,
            }, b),
    {
        match self {
            WebDriverCommand::NewSession(NewSessionParameters::Spec(caps)) => {
                let SpecNewSessionParameters { always_match, first_match } = caps;
                let first = capability_objects(first_match);
                let mut conf = JsonMap::new();
                conf.insert("alwaysMatch".to_owned(), Json::Object(always_match));
                conf.insert("firstMatch".to_owned(), Json::Array(first));
                let mut m = JsonMap::new();
                m.insert("capabilities".to_owned(), Json::Object(conf));
                if user.unicode_len() > 0 {
                    m.insert("user".to_owned(), Json::String(user.to_owned()));
                }
                if let Some(p) = password {
                    m.insert("password".to_owned(), Json::String(p.to_owned()));
                }
                proof {
                    reveal_strlit("alwaysMatch");
                    reveal_strlit("firstMatch");
                    reveal_strlit("capabilities");
                    reveal_strlit("user");
                    reveal_strlit("password");
                    assert("alwaysMatch"@[0] != "firstMatch"@[0]);
                    assert("capabilities"@[0] != "user"@[0]);
                    assert("capabilities"@[0] != "password"@[0]);
                    assert("user"@[0] != "password"@[0]);
                    assert(conf.as_map().dom() =~= set!["alwaysMatch"@, "firstMatch"@]);
                }
                Some(Json::Object(m))
            },
            WebDriverCommand::NewSession(NewSessionParameters::Legacy(caps)) => {
                let mut m = JsonMap::new();
                let LegacyNewSessionParameters { desired, required } = caps;
                m.insert("desiredCapabilities".to_owned(), Json::Object(desired));
                m.insert("requiredCapabilities".to_owned(), Json::Object(required));
                proof {
                    reveal_strlit("desiredCapabilities");
                    reveal_strlit("requiredCapabilities");
                    assert("desiredCapabilities"@[0] != "requiredCapabilities"@[0]);
                    assert(m.as_map().dom() =~= set![
                        "desiredCapabilities"@,
                        "requiredCapabilities"@,
                    ]);
                }
                Some(Json::Object(m))
            },
            WebDriverCommand::Get(url) => Some(single_entry("url", Json::String(url))),
            WebDriverCommand::FindElement(p) | WebDriverCommand::FindElements(p)
            | WebDriverCommand::FindElementElement(_, p) | WebDriverCommand::FindElementElements(
                _,
                p,
            ) => Some(locator_body(p)),
            WebDriverCommand::ExecuteScript(script, args)
            | WebDriverCommand::ExecuteAsyncScript(script, args) => {
                let mut m = JsonMap::new();
                m.insert("script".to_owned(), Json::String(script));
                m.insert("args".to_owned(), Json::Array(args));
                proof {
                    reveal_strlit("script");
                    reveal_strlit("args");
                    assert("script"@[0] != "args"@[0]);
                }
                Some(Json::Object(m))
            },
            WebDriverCommand::ElementSendKeys(_, text) | WebDriverCommand::SendAlertText(text) => {
                Some(single_entry("text", Json::String(text)))
            },
            WebDriverCommand::ElementClick(..) | WebDriverCommand::ElementClear(..)
            | WebDriverCommand::GoBack | WebDriverCommand::GoForward | WebDriverCommand::Refresh
            | WebDriverCommand::MinimizeWindow | WebDriverCommand::MaximizeWindow
            | WebDriverCommand::FullscreenWindow | WebDriverCommand::DismissAlert
            | WebDriverCommand::AcceptAlert | WebDriverCommand::SwitchToParentFrame => Some(
                empty_object(),
            ),
            WebDriverCommand::NewWindow(hint) => Some(single_entry("type", Json::String(hint))),
            WebDriverCommand::SetWindowRect(x, y, w, h) => {
                let mut m = JsonMap::new();
                m.insert("x".to_owned(), coordinate(x));
                m.insert("y".to_owned(), coordinate(y));
                m.insert("width".to_owned(), coordinate(w));
                m.insert("height".to_owned(), coordinate(h));
                proof {
                    reveal_strlit("x");
                    reveal_strlit("y");
                    reveal_strlit("width");
                    reveal_strlit("height");
                    assert("x"@[0] != "y"@[0]);
                    assert("x"@[0] != "width"@[0]);
                    assert("x"@[0] != "height"@[0]);
                    assert("y"@[0] != "width"@[0]);
                    assert("y"@[0] != "height"@[0]);
                    assert("width"@[0] != "height"@[0]);
                }
                Some(Json::Object(m))
            },
            WebDriverCommand::SwitchToWindow(handle) => Some(
                single_entry("handle", Json::String(handle)),
            ),
            WebDriverCommand::SwitchToFrame(f) => {
                let id = match f {
                    FrameId::Top => Json::Null,
                    FrameId::Short(n) => Json::Number(JsonNumber::PosInt(n as u64)),
                    FrameId::Element(e) => e.to_json(),
                };
                let j = single_entry("id", id);
                proof {
                    assert(j->Object_0.as_map().dom() =~= set!["id"@]);
                }
                Some(j)
            },
            WebDriverCommand::AddCookie(cookie) => Some(single_entry("cookie", cookie)),
            WebDriverCommand::SetTimeouts(t) => Some(t.to_json()),
            WebDriverCommand::PerformActions(actions) => Some(
                single_entry("actions", Json::Array(actions)),
            ),
            WebDriverCommand::Print(params) => Some(params),
            _ => None,
        }
    }
}

} // verus!
