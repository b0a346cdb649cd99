//! WebDriver types and declarations.
use crate::error::{CmdError, InvalidWindowHandle};
use crate::json::{Json, JsonMap, JsonNumber};
use crate::text::{decimal, decimal_string, push_decimal, str_eq, string_append, string_push};
use std::ops::RangeInclusive;
use std::time::Duration;
use vstd::prelude::*;

verus! {

/// Dynamic set of [WebDriver capabilities](https://www.w3.org/TR/webdriver/#dfn-capability).
pub type Capabilities = JsonMap;

/// A [handle](https://www.w3.org/TR/webdriver/#dfn-window-handles) to a browser window.
///
/// Should be obtained via `Client::window()` (or similar).
#[derive(Clone, Debug, Eq, PartialEq)]
pub struct WindowHandle(String);

impl View for WindowHandle {
    type V = Seq<char>;

    closed spec fn view(&self) -> Seq<char> {
        self.0@
    }
}

/// The one string that cannot name a window: `"current"` stands for whatever window is current.
pub open spec fn is_current(s: Seq<char>) -> bool {
    s == "current"@
}

impl WindowHandle {
    /// Makes the given string a window handle, unless it is `"current"`.
    pub fn new(s: &str) -> (r: Result<WindowHandle, InvalidWindowHandle>)
        ensures
            r is Err <==> is_current(s@),
            r matches Ok(w) ==> w@ == s@,
    {
        if str_eq(s, "current") {
            Err(InvalidWindowHandle)
        } else {
            Ok(WindowHandle(s.to_owned()))
        }
    }

    /// Makes the given string a window handle, unless it is `"current"`.
    pub fn from_string(s: String) -> (r: Result<WindowHandle, InvalidWindowHandle>)
        ensures
            r is Err <==> is_current(s@),
            r matches Ok(w) ==> w@ == s@,
    {
        if str_eq(s.as_str(), "current") {
            Err(InvalidWindowHandle)
        } else {
            Ok(WindowHandle(s))
        }
    }

    /// The string that names this window.
    pub fn as_str(&self) -> (s: &str)
        ensures
            s@ == self@,
    {
        self.0.as_str()
    }

    /// Gives back the string that names this window.
    pub fn into_string(self) -> (s: String)
        ensures
            s@ == self@,
    {
        self.0
    }
}

impl From<WindowHandle> for String {
    fn from(w: WindowHandle) -> (s: String)
        ensures
            s@ == w@,
    {
        w.into_string()
    }
}

/// The string of a window handle is known by its characters only, so the conversion states its
/// result in its own `ensures`.
impl vstd::std_specs::convert::FromSpecImpl<WindowHandle> for String {
    open spec fn obeys_from_spec() -> bool {
        false
    }

    open spec fn from_spec(w: WindowHandle) -> String {
        arbitrary()
    }
}

impl TryFrom<String> for WindowHandle {
    type Error = InvalidWindowHandle;

    /// Makes the given `String` a `WindowHandle`; fails if it is `"current"`.
    fn try_from(s: String) -> (r: Result<WindowHandle, InvalidWindowHandle>)
        ensures
            r is Err <==> is_current(s@),
            r matches Ok(w) ==> w@ == s@,
    {
        WindowHandle::from_string(s)
    }
}

/// The window handle made from a string is known by its characters only, so the conversion
/// states its result in its own `ensures`.
impl vstd::std_specs::convert::TryFromSpecImpl<String> for WindowHandle {
    open spec fn obeys_try_from_spec() -> bool {
        false
    }

    open spec fn try_from_spec(s: String) -> Result<WindowHandle, InvalidWindowHandle> {
        arbitrary()
    }
}

/// The window handle made from a string is known by its characters only, so the conversion
/// states its result in its own `ensures`.
impl<'a> vstd::std_specs::convert::TryFromSpecImpl<&'a str> for WindowHandle {
    open spec fn obeys_try_from_spec() -> bool {
        false
    }

    open spec fn try_from_spec(s: &'a str) -> Result<WindowHandle, InvalidWindowHandle> {
        arbitrary()
    }
}

impl<'a> TryFrom<&'a str> for WindowHandle {
    type Error = InvalidWindowHandle;

    /// Makes the given string a `WindowHandle`; fails if it is `"current"`.
    fn try_from(s: &'a str) -> (r: Result<WindowHandle, InvalidWindowHandle>)
        ensures
            r is Err <==> is_current(s@),
            r matches Ok(w) ==> w@ == s@,
    {
        WindowHandle::new(s)
    }
}

/// A type of a new browser window.
///
/// Returned by `Client::new_window()`.
#[derive(Clone, Copy, Debug, Eq, PartialEq, Structural)]
pub enum NewWindowType {
    /// Opened in a tab.
    Tab,
    /// Opened in a separate window.
    Window,
}

/// The wire name of a window type.
pub open spec fn window_type_text(t: NewWindowType) -> Seq<char> {
    match t {
        NewWindowType::Tab => "tab"@,
        NewWindowType::Window => "window"@,
    }
}

impl NewWindowType {
    /// The wire name of this window type: `"tab"` or `"window"`.
    pub fn as_str(&self) -> (s: &'static str)
        ensures
            s@ == window_type_text(*self),
    {
        match self {
            NewWindowType::Tab => "tab",
            NewWindowType::Window => "window",
        }
    }

    /// The window type with the given wire name, if any.
    pub fn from_wire(s: &str) -> (r: Option<NewWindowType>)
        ensures
            r == (if s@ == "tab"@ {
                Some(NewWindowType::Tab)
            } else if s@ == "window"@ {
                Some(NewWindowType::Window)
            } else {
                None::<NewWindowType>
            }),
    {
        if str_eq(s, "tab") {
            Some(NewWindowType::Tab)
        } else if str_eq(s, "window") {
            Some(NewWindowType::Window)
        } else {
            None
        }
    }
}

/// An element locator.
///
/// See [the specification](https://www.w3.org/TR/webdriver1/#locator-strategies) for more
/// details.
#[derive(Clone, Copy, Eq, PartialEq, Ord, PartialOrd, Debug, Hash)]
pub enum Locator<'a> {
    /// Find an element matching the given
    /// [CSS selector](https://developer.mozilla.org/en-US/docs/Web/CSS/CSS_Selectors).
    Css(&'a str),
    /// Find an element using the given
    /// [`id`](https://developer.mozilla.org/en-US/docs/Web/HTML/Global_attributes/id).
    Id(&'a str),
    /// Find a link element with the given link text.
    ///
    /// The text matching is exact.
    LinkText(&'a str),
    /// Find an element using the given
    /// [XPath expression](https://developer.mozilla.org/en-US/docs/Web/XPath).
    XPath(&'a str),
}

/// A strategy by which the remote end locates elements.
#[derive(Clone, Copy, Debug, Eq, PartialEq, Structural)]
pub enum LocatorStrategy {
    /// `css selector`
    CSSSelector,
    /// `link text`
    LinkText,
    /// `xpath`
    XPath,
}

/// The wire name of a locator strategy.
pub open spec fn strategy_text(s: LocatorStrategy) -> Seq<char> {
    match s {
        LocatorStrategy::CSSSelector => "css selector"@,
        LocatorStrategy::LinkText => "link text"@,
        LocatorStrategy::XPath => "xpath"@,
    }
}

impl LocatorStrategy {
    /// The wire name of this strategy.
    pub fn as_str(&self) -> (s: &'static str)
        ensures
            s@ == strategy_text(*self),
    {
        match self {
            LocatorStrategy::CSSSelector => "css selector",
            LocatorStrategy::LinkText => "link text",
            LocatorStrategy::XPath => "xpath",
        }
    }
}

/// The parameters of a Find Element request: a strategy and a selector.
#[derive(Clone, Debug, Eq, PartialEq)]
pub struct LocatorParameters {
    /// How the remote end should search.
    pub using: LocatorStrategy,
    /// What it should search for.
    pub value: String,
}

/// The XPath expression that finds the element whose `id` attribute is `id`.
pub open spec fn id_xpath(id: Seq<char>) -> Seq<char> {
    "//*[@id=\""@ + id + "\"]"@
}

/// The strategy and the selector text that a locator is sent as.
pub open spec fn locator_wire(l: Locator) -> (LocatorStrategy, Seq<char>) {
    match l {
        Locator::Css(s) => (LocatorStrategy::CSSSelector, s@),
        Locator::Id(s) => (LocatorStrategy::XPath, id_xpath(s@)),
        Locator::XPath(s) => (LocatorStrategy::XPath, s@),
        Locator::LinkText(s) => (LocatorStrategy::LinkText, s@),
    }
}

impl<'a> Locator<'a> {
    /// The strategy and selector that this locator is sent as.
    ///
    /// A locator by `id` is sent as the XPath expression `//*[@id="..."]`.
    pub fn into_parameters(self) -> (p: LocatorParameters)
        ensures
            p.using == locator_wire(self).0,
            p.value@ == locator_wire(self).1,
    {
        match self {
            Locator::Css(s) => LocatorParameters {
                using: LocatorStrategy::CSSSelector,
                value: s.to_owned(),
            },
            Locator::Id(s) => {
                let mut v = String::from_str("//*[@id=\"");
                string_append(&mut v, s);
                string_append(&mut v, "\"]");
                LocatorParameters { using: LocatorStrategy::XPath, value: v }
            },
            Locator::XPath(s) => LocatorParameters {
                using: LocatorStrategy::XPath,
                value: s.to_owned(),
            },
            Locator::LinkText(s) => LocatorParameters {
                using: LocatorStrategy::LinkText,
                value: s.to_owned(),
            },
        }
    }
}

/// The WebDriver status as returned by `Client::status()`.
///
/// See [8.3 Status](https://www.w3.org/TR/webdriver1/#status) of the WebDriver standard.
#[derive(Debug, Clone)]
pub struct WebDriverStatus {
    /// True if the webdriver is ready to start a new session.
    ///
    /// NOTE: Geckodriver will return `false` if a session has already started, since it
    ///       only supports a single session.
    pub ready: bool,
    /// The current status message.
    pub message: String,
}

/// The length of `d` in whole milliseconds, as `Duration::as_millis` computes it.
pub uninterp spec fn duration_millis(d: Duration) -> nat;

/// Calls `Duration::as_millis`, which returns the total number of whole milliseconds in `d`.
#[verifier::external_body]
fn duration_as_millis(d: Duration) -> (ms: u128)
    ensures
        ms == duration_millis(d),
{
    d.as_millis()
}

/// `Duration` is `Copy`, and its `clone` gives back an equal duration.
pub assume_specification[<std::time::Duration as std::clone::Clone>::clone](d: &Duration) -> (r:
    Duration)
    ensures
        r == *d,
;

/// The whole milliseconds of `d`, cut to 64 bits as a cast of `Duration::as_millis` cuts them.
pub(crate) fn millis_u64(d: Duration) -> (ms: u64)
    ensures
        ms == duration_millis(d) as u64,
{
    duration_as_millis(d) as u64
}

/// The duration that `Duration::from_millis` makes of `ms` milliseconds.
pub uninterp spec fn millis_duration(ms: u64) -> Duration;

/// Calls `Duration::from_millis`, which makes a duration of exactly `ms` milliseconds, so its
/// length in whole milliseconds is `ms` again. The duration is named `millis_duration(ms)`.
#[verifier::external_body]
pub(crate) fn duration_from_millis(ms: u64) -> (d: Duration)
    ensures
        d == millis_duration(ms),
        duration_millis(d) == ms,
{
    Duration::from_millis(ms)
}

/// The milliseconds that a timeout is sent as: the whole milliseconds, truncated to 64 bits.
pub open spec fn timeout_millis(d: Option<Duration>) -> Option<u64> {
    match d {
        Some(d) => Some(duration_millis(d) as u64),
        None => None,
    }
}

/// The milliseconds of an optional duration.
fn millis_of(d: Option<Duration>) -> (r: Option<u64>)
    ensures
        r == timeout_millis(d),
{
    match d {
        Some(d) => Some(duration_as_millis(d) as u64),
        None => None,
    }
}

/// The duration of a timeout of `ms` milliseconds, if it is set: `Duration::from_millis` of
/// them.
pub open spec fn timeout_duration(ms: Option<u64>) -> Option<Duration> {
    match ms {
        Some(m) => Some(millis_duration(m)),
        None => None,
    }
}

/// The optional duration of an optional number of milliseconds.
fn duration_of(ms: Option<u64>) -> (r: Option<Duration>)
    ensures
        r == timeout_duration(ms),
        r is Some <==> ms is Some,
        r matches Some(d) ==> duration_millis(d) == ms->0,
{
    match ms {
        Some(ms) => Some(duration_from_millis(ms)),
        None => None,
    }
}

/// Timeout configuration, for various timeout settings.
///
/// Used by `Client::get_timeouts()` and `Client::update_timeouts()`.
#[derive(Debug, Clone, Eq, PartialEq)]
pub struct TimeoutConfiguration {
    script: Option<u64>,
    page_load: Option<u64>,
    implicit: Option<u64>,
}

impl TimeoutConfiguration {
    /// The script timeout in milliseconds, if set.
    pub closed spec fn script_ms(self) -> Option<u64> {
        self.script
    }

    /// The page load timeout in milliseconds, if set.
    pub closed spec fn page_load_ms(self) -> Option<u64> {
        self.page_load
    }

    /// The implicit wait timeout in milliseconds, if set.
    pub closed spec fn implicit_ms(self) -> Option<u64> {
        self.implicit
    }

    /// Create new timeout configuration.
    ///
    /// The various settings are as follows:
    /// - script     Determines when to interrupt a script that is being evaluated.
    ///              Default is 60 seconds.
    /// - page_load  Provides the timeout limit used to interrupt navigation of the browsing
    ///              context. Default is 60 seconds.
    /// - implicit   Gives the timeout of when to abort locating an element. Default is 0 seconds.
    ///
    /// NOTE: It is recommended to leave the `implicit` timeout at 0 seconds, because that makes
    ///       it possible to check for the non-existence of an element without an implicit delay.
    ///       Also see `Client::wait()` for element polling functionality.
    pub fn new(
        script: Option<Duration>,
        page_load: Option<Duration>,
        implicit: Option<Duration>,
    ) -> (t: TimeoutConfiguration)
        ensures
            t.script_ms() == timeout_millis(script),
            t.page_load_ms() == timeout_millis(page_load),
            t.implicit_ms() == timeout_millis(implicit),
    {
        TimeoutConfiguration {
            script: millis_of(script),
            page_load: millis_of(page_load),
            implicit: millis_of(implicit),
        }
    }

    /// Create a timeout configuration from milliseconds.
    pub fn from_millis(script: Option<u64>, page_load: Option<u64>, implicit: Option<u64>) -> (t:
        TimeoutConfiguration)
        ensures
            t.script_ms() == script,
            t.page_load_ms() == page_load,
            t.implicit_ms() == implicit,
    {
        TimeoutConfiguration { script, page_load, implicit }
    }

    /// Get the script timeout.
    pub fn script(&self) -> (d: Option<Duration>)
        ensures
            d == timeout_duration(self.script_ms()),
            d is Some <==> self.script_ms() is Some,
            d matches Some(d) ==> duration_millis(d) == self.script_ms()->0,
    {
        duration_of(self.script)
    }

    /// Set the script timeout.
    pub fn set_script(&mut self, timeout: Option<Duration>)
        ensures
            final(self).script_ms() == timeout_millis(timeout),
            final(self).page_load_ms() == old(self).page_load_ms(),
            final(self).implicit_ms() == old(self).implicit_ms(),
    {
        self.script = millis_of(timeout);
    }

    /// Get the page load timeout.
    pub fn page_load(&self) -> (d: Option<Duration>)
        ensures
            d == timeout_duration(self.page_load_ms()),
            d is Some <==> self.page_load_ms() is Some,
            d matches Some(d) ==> duration_millis(d) == self.page_load_ms()->0,
    {
        duration_of(self.page_load)
    }

    /// Set the page load timeout.
    pub fn set_page_load(&mut self, timeout: Option<Duration>)
        ensures
            final(self).page_load_ms() == timeout_millis(timeout),
            final(self).script_ms() == old(self).script_ms(),
            final(self).implicit_ms() == old(self).implicit_ms(),
    {
        self.page_load = millis_of(timeout);
    }

    /// Get the implicit wait timeout.
    pub fn implicit(&self) -> (d: Option<Duration>)
        ensures
            d == timeout_duration(self.implicit_ms()),
            d is Some <==> self.implicit_ms() is Some,
            d matches Some(d) ==> duration_millis(d) == self.implicit_ms()->0,
    {
        duration_of(self.implicit)
    }

    /// Set the implicit wait timeout.
    pub fn set_implicit(&mut self, timeout: Option<Duration>)
        ensures
            final(self).implicit_ms() == timeout_millis(timeout),
            final(self).script_ms() == old(self).script_ms(),
            final(self).page_load_ms() == old(self).page_load_ms(),
    {
        self.implicit = millis_of(timeout);
    }

    /// The timeouts as the body of a Set Timeouts request: each timeout that is set, in
    /// milliseconds, under its wire name.
    pub fn to_json(&self) -> (j: Json)
        ensures
            j matches Json::Object(m) && timeouts_json(m.as_map(), *self),
    {
        let mut m = JsonMap::new();
        if let Some(s) = self.script {
            m.insert("script".to_owned(), Json::Number(JsonNumber::PosInt(s)));
        }
        if let Some(p) = self.page_load {
            m.insert("pageLoad".to_owned(), Json::Number(JsonNumber::PosInt(p)));
        }
        if let Some(i) = self.implicit {
            m.insert("implicit".to_owned(), Json::Number(JsonNumber::PosInt(i)));
        }
        proof {
            reveal_strlit("script");
            reveal_strlit("pageLoad");
            reveal_strlit("implicit");
            assert("script"@[0] != "pageLoad"@[0]);
            assert("script"@[0] != "implicit"@[0]);
            assert("pageLoad"@[0] != "implicit"@[0]);
            assert(timeout_entry(m.as_map(), "script"@, self.script_ms()));
            assert(timeout_entry(m.as_map(), "pageLoad"@, self.page_load_ms()));
            assert(timeout_entry(m.as_map(), "implicit"@, self.implicit_ms()));
            assert(m.as_map().dom().finite());
        }
        Json::Object(m)
    }
}

/// One timeout's entry in a JSON object: present with the number of milliseconds when set,
/// absent otherwise.
pub open spec fn timeout_entry(m: Map<Seq<char>, Json>, key: Seq<char>, t: Option<u64>) -> bool {
    match t {
        Some(ms) => m.contains_key(key) && m[key] == Json::Number(JsonNumber::PosInt(ms)),
        None => !m.contains_key(key),
    }
}

/// `m` is the JSON form of the timeouts `t`.
pub open spec fn timeouts_json(m: Map<Seq<char>, Json>, t: TimeoutConfiguration) -> bool {
    &&& timeout_entry(m, "script"@, t.script_ms())
    &&& timeout_entry(m, "pageLoad"@, t.page_load_ms())
    &&& timeout_entry(m, "implicit"@, t.implicit_ms())
    &&& m.dom().finite()
    &&& forall|k: Seq<char>| #[trigger] m.contains_key(k) ==> k == "script"@ || k == "pageLoad"@
        || k == "implicit"@
}

impl Default for TimeoutConfiguration {
    fn default() -> (t: TimeoutConfiguration)
        ensures
            t.script_ms() == Some(60000u64),
            t.page_load_ms() == Some(60000u64),
            t.implicit_ms() == Some(0u64),
    {
        TimeoutConfiguration { script: Some(60000), page_load: Some(60000), implicit: Some(0) }
    }
}

/// The response obtained when opening the WebDriver session.
#[derive(Debug)]
#[non_exhaustive]
pub struct NewSessionResponse {
    session_id: String,
    capabilities: Option<Capabilities>,
}

impl NewSessionResponse {
    /// The session id that the remote end assigned.
    pub closed spec fn id(self) -> Seq<char> {
        self.session_id@
    }

    /// The capabilities that the remote end reported.
    pub closed spec fn caps(self) -> Option<Capabilities> {
        self.capabilities
    }

    /// A response with the given session id and capabilities.
    pub fn new(session_id: String, capabilities: Option<Capabilities>) -> (r: NewSessionResponse)
        ensures
            r.id() == session_id@,
            r.caps() == capabilities,
    {
        NewSessionResponse { session_id, capabilities }
    }

    /// The session that a successful reply to New Session describes: the reply names the
    /// session under `"sessionId"`, and its `"capabilities"` are kept when they are an object.
    pub fn from_reply(reply: Json) -> (r: Option<NewSessionResponse>)
        ensures
            r is Some <==> (reply matches Json::Object(o) && o.as_map().contains_key("sessionId"@)
                && o.as_map()["sessionId"@] is String),
            r matches Some(n) ==> n.id() == reply->Object_0.as_map()["sessionId"@]->String_0@,
            r matches Some(n) ==> match n.caps() {
                Some(c) => reply->Object_0.as_map().contains_key("capabilities"@) && (reply->Object_0.as_map()["capabilities"@] matches Json::Object(rc)
                    && c.as_map() == rc.as_map()),
                None => !(reply->Object_0.as_map().contains_key("capabilities"@)
                    && reply->Object_0.as_map()["capabilities"@] is Object),
            },
    {
        let mut o = match reply {
            Json::Object(o) => o,
            _ => return None,
        };
        let ghost m = o.as_map();
        proof {
            reveal_strlit("sessionId");
            reveal_strlit("capabilities");
            assert("sessionId"@.len() != "capabilities"@.len());
        }
        let session_id = match o.remove("sessionId") {
            Some(Json::String(s)) => s,
            _ => return None,
        };
        let capabilities = match o.remove("capabilities") {
            Some(Json::Object(c)) => Some(c),
            _ => None,
        };
        Some(NewSessionResponse { session_id, capabilities })
    }

    /// Get the session id.
    pub fn session_id(&self) -> (s: &str)
        ensures
            s@ == self.id(),
    {
        self.session_id.as_str()
    }

    /// Get the remote end capabilities.
    pub fn capabilities(&self) -> (c: Option<&Capabilities>)
        ensures
            c is Some <==> self.caps() is Some,
            c matches Some(c) ==> *c == self.caps()->0,
    {
        self.capabilities.as_ref()
    }
}

/// The orientation of the print.
#[derive(Debug, Clone, Copy, PartialEq, Eq, Structural)]
pub enum PrintOrientation {
    /// Landscape orientation.
    Landscape,
    /// Portrait orientation.
    Portrait,
}

impl Default for PrintOrientation {
    fn default() -> (o: PrintOrientation)
        ensures
            o == PrintOrientation::Portrait,
    {
        PrintOrientation::Portrait
    }
}

impl PrintOrientation {
    /// The wire name of this orientation.
    pub fn into_params(self) -> (s: &'static str)
        ensures
            s@ == (match self {
                PrintOrientation::Landscape => "landscape"@,
                PrintOrientation::Portrait => "portrait"@,
            }),
    {
        match self {
            PrintOrientation::Landscape => "landscape",
            PrintOrientation::Portrait => "portrait",
        }
    }
}

/// Whether to print backgrounds or not.
#[derive(Debug, Clone, Copy, PartialEq, Eq, Structural)]
pub enum PrintBackground {
    /// Include the backgrounds in the print.
    Include,
    /// Exclude the backgrounds from the print.
    Exclude,
}

impl Default for PrintBackground {
    fn default() -> (b: PrintBackground)
        ensures
            b == PrintBackground::Exclude,
    {
        PrintBackground::Exclude
    }
}

impl PrintBackground {
    /// Whether backgrounds are printed.
    pub fn into_params(self) -> (b: bool)
        ensures
            b == (self == PrintBackground::Include),
    {
        match self {
            PrintBackground::Include => true,
            PrintBackground::Exclude => false,
        }
    }
}

/// Calls `RangeInclusive::start`, which returns the lower bound of the range.
#[verifier::external_body]
fn range_start(r: &RangeInclusive<u64>) -> (s: u64)
    ensures
        s == r@.start,
{
    *r.start()
}

/// Calls `RangeInclusive::end`, which returns the upper bound of the range.
#[verifier::external_body]
fn range_end(r: &RangeInclusive<u64>) -> (e: u64)
    ensures
        e == r@.end,
{
    *r.end()
}

/// The range of the pages to print.
#[derive(Debug, Clone, PartialEq, Eq)]
pub struct PrintPageRange {
    start: u64,
    end: u64,
}

/// How a page range is sent: a single page as a number, a longer range as `"start-end"`.
pub enum PageRangeParam {
    /// A single page.
    Integer(u64),
    /// A range of pages, written `start-end`.
    Range(String),
}

impl PrintPageRange {
    /// The first page of the range.
    pub closed spec fn first(self) -> u64 {
        self.start
    }

    /// The last page of the range.
    pub closed spec fn last(self) -> u64 {
        self.end
    }

    /// A single page to print.
    pub fn single(page: u64) -> (r: PrintPageRange)
        ensures
            r.first() == page,
            r.last() == page,
    {
        PrintPageRange { start: page, end: page }
    }

    /// A range of pages to print.
    ///
    /// Returns None if the range start is greater than the range end.
    pub fn range(range: RangeInclusive<u64>) -> (r: Option<PrintPageRange>)
        ensures
            r is Some <==> range@.start <= range@.end,
            r matches Some(p) ==> p.first() == range@.start && p.last() == range@.end,
    {
        let start = range_start(&range);
        let end = range_end(&range);
        if start <= end {
            Some(PrintPageRange { start, end })
        } else {
            None
        }
    }

    /// How this range is sent: one page as a number, several as `"start-end"`.
    pub fn into_params(self) -> (p: PageRangeParam)
        ensures
            self.first() == self.last() ==> p == PageRangeParam::Integer(self.first()),
            self.first() != self.last() ==> (p matches PageRangeParam::Range(s) && s@
                == decimal(self.first() as nat) + seq!['-'] + decimal(self.last() as nat)),
    {
        if self.start == self.end {
            PageRangeParam::Integer(self.start)
        } else {
            let mut s = decimal_string(self.start);
            string_push(&mut s, '-');
            push_decimal(&mut s, self.end);
            PageRangeParam::Range(s)
        }
    }
}

} // verus!
