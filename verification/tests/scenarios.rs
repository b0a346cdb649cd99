//! The browser scenarios of the client, played against a scripted WebDriver.
//!
//! Each test drives the protocol core through the requests that the client makes for a
//! scenario: the request for each command is checked (method, URL, body), and the reply that a
//! conforming WebDriver gives is fed back and read as the client reads it.
use fantoccini::client::{
    read_acknowledgement, read_attribute, read_bool, read_current_url, read_new_window,
    read_property, read_string, read_window, read_windows, resolve_url,
};
use fantoccini::command::{spec_new_session, FrameId, Method, WebDriverCommand};
use fantoccini::common::{make_capabilities, make_url};
use fantoccini::cookies::{cookie_header, SameSite, WebDriverCookie};
use fantoccini::elements::{fixup_elements, parse_lookup, parse_lookup_all, ElementRef};
use fantoccini::error::CmdError;
use fantoccini::forms::{
    field_name_selector, option_index_selector, option_label_selector, set_value_command,
    submit_selector,
};
use fantoccini::json::{Json, JsonMap, JsonNumber};
use fantoccini::keys::Keys;
use fantoccini::session::{
    after_w3c_attempt, check_content_type, decode_reply, map_handshake_reply,
    prepare_capabilities, HandshakeStep, SessionState, Shutdown,
};
use fantoccini::wait::{element_look, url_look, WaitPolicy, WaitStep};
use fantoccini::wd::{Locator, NewSessionResponse, NewWindowType, TimeoutConfiguration, WebDriverStatus};
use serde_json::Value;
use std::time::Duration;

const SID: &str = "5f4b2c4e-7a1d-4e2b-9a57-3c1d2e0b8f61";
const PORT: u16 = 35123;

fn v(s: &str) -> Value {
    serde_json::from_str(s).unwrap()
}

fn to_json(x: &Value) -> Json {
    match x {
        Value::Null => Json::Null,
        Value::Bool(b) => Json::Bool(*b),
        Value::Number(n) => {
            if let Some(u) = n.as_u64() {
                Json::Number(JsonNumber::PosInt(u))
            } else if let Some(i) = n.as_i64() {
                Json::Number(JsonNumber::NegInt(i))
            } else {
                Json::Number(JsonNumber::Float(n.as_f64().unwrap().to_bits()))
            }
        }
        Value::String(s) => Json::String(s.clone()),
        Value::Array(a) => Json::Array(a.iter().map(to_json).collect()),
        Value::Object(o) => {
            let mut m = JsonMap::new();
            for (k, x) in o {
                m.insert(k.clone(), to_json(x));
            }
            Json::Object(m)
        }
    }
}

fn to_value(j: &Json) -> Value {
    match j {
        Json::Null => Value::Null,
        Json::Bool(b) => Value::Bool(*b),
        Json::Number(JsonNumber::PosInt(u)) => Value::from(*u),
        Json::Number(JsonNumber::NegInt(i)) => Value::from(*i),
        Json::Number(JsonNumber::Float(bits)) => Value::from(f64::from_bits(*bits)),
        Json::String(s) => Value::String(s.clone()),
        Json::Array(a) => Value::Array(a.iter().map(to_value).collect()),
        Json::Object(m) => {
            let mut o = serde_json::Map::new();
            for i in 0..m.len() {
                let (k, x) = m.entry(i);
                o.insert(k.clone(), to_value(x));
            }
            Value::Object(o)
        }
    }
}

fn quoted(s: &str) -> String {
    Value::String(s.to_string()).to_string()
}

fn sample_page_url() -> String {
    format!("http://localhost:{}/sample_page.html", PORT)
}

fn other_page_url() -> String {
    format!("http://localhost:{}/other_page.html", PORT)
}

/// The strategy and the selector that the W3C protocol carries for a locator.
fn wire_locator(loc: &Locator) -> Value {
    let (using, value) = match loc {
        Locator::Css(s) => ("css selector", s.to_string()),
        Locator::Id(s) => ("xpath", format!("//*[@id=\"{}\"]", s)),
        Locator::LinkText(s) => ("link text", s.to_string()),
        Locator::XPath(s) => ("xpath", s.to_string()),
    };
    let mut o = serde_json::Map::new();
    o.insert("using".to_string(), Value::String(using.to_string()));
    o.insert("value".to_string(), Value::String(value));
    Value::Object(o)
}

/// A client session with a scripted WebDriver.
struct Driver {
    state: SessionState,
    base: &'static str,
    created: Option<NewSessionResponse>,
}

impl Driver {
    /// Connect to the WebDriver of `browser`, which creates a session.
    fn connect(browser: &str) -> Driver {
        let base = make_url(browser);
        let caps = prepare_capabilities(make_capabilities(browser));
        let mut state = SessionState::new();
        let cmd = spec_new_session(caps);
        let req = state.request(cmd, base).unwrap();
        assert_eq!(req.method, Method::Post);
        assert_eq!(req.url, format!("{}/session", base));
        let body = to_value(req.body.as_ref().unwrap());
        assert_eq!(body["capabilities"]["alwaysMatch"]["pageLoadStrategy"], "normal");
        assert_eq!(body["capabilities"]["alwaysMatch"]["goog:chromeOptions"]["w3c"], true);
        assert_eq!(body["capabilities"]["firstMatch"], v("[{}]"));
        let reply = format!(
            r#"{{"value":{{"sessionId":"{}","capabilities":{{"browserName":"{}","browserVersion":"120.0"}}}}}}"#,
            SID, browser
        );
        let r = receive(&state, 200, &reply, true);
        state.observe(&r);
        let value = r.unwrap();
        let created = NewSessionResponse::from_reply(to_json(&to_value(&value)));
        match after_w3c_attempt(map_handshake_reply(Ok(value))) {
            HandshakeStep::Connected => {}
            s => panic!("handshake failed: {:?}", s),
        }
        assert_eq!(state.session_id().as_deref(), Some(SID));
        Driver { state, base, created }
    }

    fn legacy(&self) -> bool {
        self.state.is_legacy()
    }

    /// Send `cmd`, check its request, and read the reply `text` sent with `status`.
    fn send(
        &mut self,
        cmd: WebDriverCommand,
        method: Method,
        path: &str,
        body: Option<Value>,
        status: u16,
        text: &str,
    ) -> Result<Json, CmdError> {
        let req = self.state.request(cmd, self.base).unwrap();
        assert_eq!(req.method, method);
        assert_eq!(req.url, format!("{}/session/{}/{}", self.base, SID, path));
        match body {
            Some(b) => assert_eq!(to_value(req.body.as_ref().unwrap()), b),
            None => assert!(req.body.is_none()),
        }
        let r = receive(&self.state, status, text, false);
        self.state.observe(&r);
        r
    }

    /// A command that the WebDriver answers with `value`.
    fn ok(&mut self, cmd: WebDriverCommand, method: Method, path: &str, body: Option<Value>, value: &str) -> Json {
        self.send(cmd, method, path, body, 200, &format!(r#"{{"value":{}}}"#, value))
            .unwrap()
    }

    /// A command that the WebDriver refuses with the given error.
    fn refused(
        &mut self,
        cmd: WebDriverCommand,
        method: Method,
        path: &str,
        body: Option<Value>,
        status: u16,
        error: &str,
    ) -> CmdError {
        let text = format!(
            r#"{{"value":{{"error":"{}","message":"{}","stacktrace":""}}}}"#,
            error, "refused by the driver"
        );
        self.send(cmd, method, path, body, status, &text).unwrap_err()
    }

    fn current_url(&mut self, page: &str) -> String {
        let r = self.ok(WebDriverCommand::GetCurrentUrl, Method::Get, "url", None, &quoted(page));
        read_current_url(r).unwrap()
    }

    /// Navigate from the page `from` to `url`.
    fn goto(&mut self, from: &str, url: &str) -> String {
        let base = self.current_url(from);
        let target = resolve_url(&base, url).unwrap();
        let mut body = serde_json::Map::new();
        body.insert("url".to_string(), Value::String(target.clone()));
        self.ok(
            WebDriverCommand::Get(target.clone()),
            Method::Post,
            "url",
            Some(Value::Object(body)),
            "null",
        );
        target
    }

    fn find(&mut self, loc: Locator<'_>, id: &str) -> ElementRef {
        let body = wire_locator(&loc);
        let reply = format!(r#"{{"element-6066-11e4-a52e-4f735466cecf":"{}"}}"#, id);
        let r = self.ok(
            WebDriverCommand::FindElement(loc.into_parameters()),
            Method::Post,
            "element",
            Some(body),
            &reply,
        );
        let legacy = self.legacy();
        let e = parse_lookup(r, legacy).unwrap();
        assert_eq!(e.as_str(), id);
        e
    }

    fn find_fails(&mut self, loc: Locator<'_>) -> CmdError {
        let body = wire_locator(&loc);
        self.refused(
            WebDriverCommand::FindElement(loc.into_parameters()),
            Method::Post,
            "element",
            Some(body),
            404,
            "no such element",
        )
    }

    fn find_in(&mut self, parent: &ElementRef, loc: Locator<'_>, id: &str) -> ElementRef {
        let body = wire_locator(&loc);
        let reply = format!(r#"{{"element-6066-11e4-a52e-4f735466cecf":"{}"}}"#, id);
        let path = format!("element/{}/element", parent.as_str());
        let r = self.ok(
            WebDriverCommand::FindElementElement(ElementRef::new(parent.as_str().to_string()), loc.into_parameters()),
            Method::Post,
            &path,
            Some(body),
            &reply,
        );
        let legacy = self.legacy();
        parse_lookup(r, legacy).unwrap()
    }

    fn click(&mut self, e: &ElementRef, reply: &str) {
        let path = format!("element/{}/click", e.as_str());
        let r = self.ok(WebDriverCommand::ElementClick(ElementRef::new(e.as_str().to_string())), Method::Post, &path, Some(v("{}")), reply);
        read_acknowledgement(r, true).unwrap();
    }

    fn text(&mut self, e: &ElementRef, text: &str) -> String {
        let path = format!("element/{}/text", e.as_str());
        let r = self.ok(WebDriverCommand::GetElementText(ElementRef::new(e.as_str().to_string())), Method::Get, &path, None, &quoted(text));
        read_string(r).unwrap()
    }

    fn attr(&mut self, e: &ElementRef, name: &str, reply: &str) -> Option<String> {
        let path = format!("element/{}/attribute/{}", e.as_str(), name);
        let cmd = WebDriverCommand::GetElementAttribute(ElementRef::new(e.as_str().to_string()), name.to_string());
        let r = self.ok(cmd, Method::Get, &path, None, reply);
        read_attribute(r).unwrap()
    }

    fn prop(&mut self, e: &ElementRef, name: &str, reply: &str) -> Option<String> {
        let path = format!("element/{}/property/{}", e.as_str(), name);
        let cmd = WebDriverCommand::GetElementProperty(ElementRef::new(e.as_str().to_string()), name.to_string());
        let r = self.ok(cmd, Method::Get, &path, None, reply);
        read_property(r).unwrap()
    }

    fn send_keys(&mut self, e: &ElementRef, text: &str) {
        let path = format!("element/{}/value", e.as_str());
        let mut body = serde_json::Map::new();
        body.insert("text".to_string(), Value::String(text.to_string()));
        let cmd = WebDriverCommand::ElementSendKeys(ElementRef::new(e.as_str().to_string()), text.to_string());
        let r = self.ok(cmd, Method::Post, &path, Some(Value::Object(body)), "null");
        read_acknowledgement(r, false).unwrap();
    }

    fn execute(&mut self, script: &str, args: Vec<Json>, status: u16, reply: &str) -> Result<Json, CmdError> {
        let mut args = args;
        let legacy = self.legacy();
        fixup_elements(&mut args, legacy);
        let mut body = serde_json::Map::new();
        body.insert("script".to_string(), Value::String(script.to_string()));
        body.insert("args".to_string(), Value::Array(args.iter().map(to_value).collect()));
        let cmd = WebDriverCommand::ExecuteScript(script.to_string(), args);
        self.send(cmd, Method::Post, "execute/sync", Some(Value::Object(body)), status, reply)
    }

    fn window(&mut self, handle: &str) -> String {
        let r = self.ok(WebDriverCommand::GetWindowHandle, Method::Get, "window", None, &quoted(handle));
        read_window(r).unwrap().into_string()
    }

    fn windows(&mut self, handles: &str) -> Vec<String> {
        let r = self.ok(WebDriverCommand::GetWindowHandles, Method::Get, "window/handles", None, handles);
        read_windows(r).unwrap().into_iter().map(|h| h.into_string()).collect()
    }

    fn new_window(&mut self, as_tab: bool, handle: &str) -> NewWindowType {
        let hint = if as_tab { "tab" } else { "window" };
        let mut body = serde_json::Map::new();
        body.insert("type".to_string(), Value::String(hint.to_string()));
        let reply = format!(r#"{{"handle":"{}","type":"{}"}}"#, handle, hint);
        let r = self.ok(WebDriverCommand::NewWindow(hint.to_string()), Method::Post, "window/new", Some(Value::Object(body)), &reply);
        let resp = read_new_window(r).unwrap();
        assert_eq!(resp.handle.as_str(), handle);
        resp.typ
    }

    fn switch_to_window(&mut self, handle: &str) {
        let mut body = serde_json::Map::new();
        body.insert("handle".to_string(), Value::String(handle.to_string()));
        self.ok(WebDriverCommand::SwitchToWindow(handle.to_string()), Method::Post, "window", Some(Value::Object(body)), "null");
    }

    /// Close the session, as the client does when it is closed.
    fn close(self) {
        match self.state.close_request() {
            Shutdown::Delete(q) => {
                assert_eq!(q.method, Method::Delete);
                assert_eq!(q.path, format!("session/{}", SID));
                assert!(q.body.is_none());
            }
            Shutdown::Stop => panic!("a created session is deleted when the client closes"),
        }
    }
}

/// Read a reply as the client does: it must be JSON, and is decoded by the protocol in use.
fn receive(state: &SessionState, status: u16, text: &str, new_session: bool) -> Result<Json, CmdError> {
    let body = check_content_type(Some("application/json; charset=utf-8"), text.to_string())?;
    let value: Value = serde_json::from_str(&body).unwrap();
    decode_reply(status, to_json(&value), state.is_legacy(), new_session)
}

fn alert_text(d: &mut Driver, text: &str) -> String {
    let r = d.ok(WebDriverCommand::GetAlertText, Method::Get, "alert/text", None, &quoted(text));
    read_string(r).unwrap()
}

fn no_alert(d: &mut Driver) -> CmdError {
    d.refused(WebDriverCommand::GetAlertText, Method::Get, "alert/text", None, 404, "no such alert")
}

fn alert_scenario(accept: bool, answer: &str) {
    let mut d = Driver::connect("firefox");
    let sample_url = sample_page_url();
    d.goto("about:blank", &sample_url);
    let b = d.find(Locator::Id("button-alert"), "e-alert");
    d.click(&b, "null");
    assert_eq!(alert_text(&mut d, "This is an alert"), "This is an alert");
    let (cmd, path) = if accept {
        (WebDriverCommand::AcceptAlert, "alert/accept")
    } else {
        (WebDriverCommand::DismissAlert, "alert/dismiss")
    };
    d.ok(cmd, Method::Post, path, Some(v("{}")), "null");
    assert!(matches!(Err::<(), CmdError>(no_alert(&mut d)), Err(e) if e.is_no_such_alert()));

    let b = d.find(Locator::Id("button-confirm"), "e-confirm");
    d.click(&b, "null");
    assert_eq!(alert_text(&mut d, "Press OK or Cancel"), "Press OK or Cancel");
    let (cmd, path) = if accept {
        (WebDriverCommand::AcceptAlert, "alert/accept")
    } else {
        (WebDriverCommand::DismissAlert, "alert/dismiss")
    };
    d.ok(cmd, Method::Post, path, Some(v("{}")), "null");
    assert!(no_alert(&mut d).is_no_such_alert());
    let a = d.find(Locator::Id("alert-answer"), "e-answer");
    assert_eq!(d.text(&a, answer), answer);
    d.close();
}

#[test]
fn alert_alert_accept_test() {
    alert_scenario(true, "OK");
}

#[test]
fn alert_alert_dismiss_test() {
    alert_scenario(false, "Cancel");
}

#[test]
fn alert_alert_text_test() {
    let mut d = Driver::connect("firefox");
    let sample_url = sample_page_url();
    d.goto("about:blank", &sample_url);
    let b = d.find(Locator::Id("button-prompt"), "e-prompt");
    d.click(&b, "null");
    assert_eq!(alert_text(&mut d, "What is your name?"), "What is your name?");
    d.ok(
        WebDriverCommand::SendAlertText("Fantoccini".to_string()),
        Method::Post,
        "alert/text",
        Some(v(r#"{"text":"Fantoccini"}"#)),
        "null",
    );
    d.ok(WebDriverCommand::AcceptAlert, Method::Post, "alert/accept", Some(v("{}")), "null");
    assert!(no_alert(&mut d).is_no_such_alert());
    let a = d.find(Locator::Id("alert-answer"), "e-answer");
    assert_eq!(d.text(&a, "Fantoccini"), "Fantoccini");
    d.close();
}

fn is_query(d: &mut Driver, e: &ElementRef, what: &str, answer: bool) -> bool {
    let path = format!("element/{}/{}", e.as_str(), what);
    let id = ElementRef::new(e.as_str().to_string());
    let cmd = match what {
        "enabled" => WebDriverCommand::IsEnabled(id),
        "displayed" => WebDriverCommand::IsDisplayed(id),
        _ => WebDriverCommand::IsSelected(id),
    };
    let r = d.ok(cmd, Method::Get, &path, None, if answer { "true" } else { "false" });
    read_bool(r).unwrap()
}

#[test]
fn elements_element_is_test() {
    let mut d = Driver::connect("firefox");
    d.goto("about:blank", &sample_page_url());
    let elem = d.find(Locator::Id("checkbox-option-1"), "e1");
    assert!(is_query(&mut d, &elem, "enabled", true));
    assert!(is_query(&mut d, &elem, "displayed", true));
    assert!(!is_query(&mut d, &elem, "selected", false));
    d.click(&elem, "null");
    let elem = d.find(Locator::Id("checkbox-option-1"), "e1");
    assert!(is_query(&mut d, &elem, "selected", true));
    let disabled = d.find(Locator::Id("checkbox-disabled"), "e2");
    assert!(!is_query(&mut d, &disabled, "enabled", false));
    let hidden = d.find(Locator::Id("checkbox-hidden"), "e3");
    assert!(!is_query(&mut d, &hidden, "displayed", false));
    d.close();
}

#[test]
fn elements_element_attr_test() {
    let mut d = Driver::connect("firefox");
    d.goto("about:blank", &sample_page_url());
    let elem = d.find(Locator::Id("checkbox-option-1"), "e1");
    assert_eq!(d.attr(&elem, "id", r#""checkbox-option-1""#).unwrap(), "checkbox-option-1");
    assert!(d.attr(&elem, "invalid-attribute", "null").is_none());
    d.close();
}

#[test]
fn elements_element_prop_test() {
    let mut d = Driver::connect("firefox");
    d.goto("about:blank", &sample_page_url());
    let elem = d.find(Locator::Id("checkbox-option-1"), "e1");
    assert_eq!(d.prop(&elem, "id", r#""checkbox-option-1""#).unwrap(), "checkbox-option-1");
    assert_eq!(d.prop(&elem, "checked", "false").unwrap(), "false");
    assert!(d.attr(&elem, "invalid-property", "null").is_none());
    d.close();
}

#[test]
fn elements_element_css_value_test() {
    let mut d = Driver::connect("firefox");
    d.goto("about:blank", &sample_page_url());
    let elem = d.find(Locator::Id("checkbox-hidden"), "e3");
    let css = |d: &mut Driver, name: &str, value: &str| -> String {
        let path = format!("element/e3/css/{}", name);
        let cmd = WebDriverCommand::GetCSSValue(ElementRef::new("e3".to_string()), name.to_string());
        read_string(d.ok(cmd, Method::Get, &path, None, &quoted(value))).unwrap()
    };
    assert_eq!(elem.as_str(), "e3");
    assert_eq!(css(&mut d, "display", "none"), "none");
    assert_eq!(css(&mut d, "invalid-css-value", ""), "");
    d.close();
}

#[test]
fn elements_element_tag_name_test() {
    let mut d = Driver::connect("firefox");
    d.goto("about:blank", &sample_page_url());
    let elem = d.find(Locator::Id("checkbox-option-1"), "e1");
    let path = format!("element/{}/name", elem.as_str());
    let r = d.ok(WebDriverCommand::GetElementTagName(elem), Method::Get, &path, None, r#""INPUT""#);
    let tag_name = read_string(r).unwrap();
    assert!(tag_name.eq_ignore_ascii_case("input"), "{} != input", tag_name);
    d.close();
}

#[test]
fn elements_element_rect_test() {
    let mut d = Driver::connect("firefox");
    d.goto("about:blank", &sample_page_url());
    let elem = d.find(Locator::Id("button-alert"), "e-alert");
    let path = format!("element/{}/rect", elem.as_str());
    let r = d.ok(
        WebDriverCommand::GetElementRect(elem),
        Method::Get,
        &path,
        None,
        r#"{"x":8.5,"y":120.25,"width":96.0,"height":21.5}"#,
    );
    let rect = to_value(&r);
    let x = rect["x"].as_f64().unwrap();
    let y = rect["y"].as_f64().unwrap();
    let w = rect["width"].as_f64().unwrap();
    let h = rect["height"].as_f64().unwrap();
    assert!(x > 0.0 && x < 100.0);
    assert!(y > 0.0 && y < 1000.0);
    assert!(w > 0.0 && w < 200.0);
    assert!(h > 0.0 && h < 200.0);
    d.close();
}

#[test]
fn elements_element_send_keys_test() {
    let mut d = Driver::connect("firefox");
    d.goto("about:blank", &sample_page_url());
    let elem = d.find(Locator::Id("text-input"), "e-text");
    assert_eq!(d.prop(&elem, "value", r#""""#).unwrap(), "");
    d.send_keys(&elem, "fantoccini");
    assert_eq!(d.prop(&elem, "value", r#""fantoccini""#).unwrap(), "fantoccini");
    let mut select_all = String::new();
    select_all.push(char::from(Keys::Control));
    select_all.push('a');
    let backspace = char::from(Keys::Backspace).to_string();
    d.send_keys(&elem, &select_all);
    d.send_keys(&elem, &backspace);
    assert_eq!(d.prop(&elem, "value", r#""""#).unwrap(), "");
    assert_eq!(select_all, "\u{e009}a");
    assert_eq!(backspace, "\u{e003}");
    d.close();
}

#[test]
fn local_navigate_to_other_page() {
    let mut d = Driver::connect("firefox");
    let url = sample_page_url();
    let target = d.goto("about:blank", &url);
    assert_eq!(target, url);
    let current_url = d.current_url(&url);
    assert_eq!(url.as_str(), current_url.as_str());
    d.close();
}

#[test]
fn local_find_and_click_link_test() {
    let mut d = Driver::connect("firefox");
    let url = sample_page_url();
    d.goto("about:blank", &url);
    let link = d.find(Locator::Css("#other_page_id"), "e-link");
    d.click(&link, "null");
    let new_url = d.current_url(&other_page_url());
    let expected_url = other_page_url();
    assert_eq!(new_url.as_str(), expected_url.as_str());
    d.close();
}

#[test]
fn local_get_active_element_test() {
    let mut d = Driver::connect("firefox");
    d.goto("about:blank", &sample_page_url());
    let select = d.find(Locator::Css("#select1"), "e-select1");
    d.click(&select, "{}");
    let r = d.ok(
        WebDriverCommand::GetActiveElement,
        Method::Get,
        "element/active",
        None,
        r#"{"element-6066-11e4-a52e-4f735466cecf":"e-select1"}"#,
    );
    let active = parse_lookup(r, false).unwrap();
    assert_eq!(d.attr(&active, "id", r#""select1""#), Some(String::from("select1")));
    d.close();
}

#[test]
fn local_serialize_element_test() {
    let mut d = Driver::connect("firefox");
    d.goto("about:blank", &sample_page_url());
    let elem = d.find(Locator::Css("#other_page_id"), "e-link");
    let arg = elem.to_json();
    assert_eq!(to_value(&arg), v(r#"{"element-6066-11e4-a52e-4f735466cecf":"e-link"}"#));
    d.execute("arguments[0].scrollIntoView(true);", vec![arg], 200, r#"{"value":null}"#).unwrap();

    let json = r#"{"element-6066-11e4-a52e-4f735466cecf":"fbe5004d-ec8b-4c7b-ad08-642c55d84505"}"#;
    let e = d
        .execute(
            "arguments[0].scrollIntoView(true);",
            vec![to_json(&v(json))],
            404,
            r#"{"value":{"error":"no such element","message":"Web element reference not seen before","stacktrace":""}}"#,
        )
        .expect_err("Failure expected with an invalid ID");
    assert!(e.is_no_such_element());
    d.close();
}

#[test]
fn local_iframe_test() {
    let mut d = Driver::connect("firefox");
    d.goto("about:blank", &sample_page_url());
    let link = d.find(Locator::Css("#iframe_page_id"), "e-iframe-link");
    d.click(&link, "null");
    let e = d.find_fails(Locator::Id("iframe_button"));
    assert!(e.is_no_such_element(), "should not find the button in the iframe");
    d.find(Locator::Id("root_button"), "e-root");

    let iframe = d.find(Locator::Id("iframe"), "e-frame");
    let r = d.ok(
        WebDriverCommand::SwitchToFrame(FrameId::Element(iframe)),
        Method::Post,
        "frame",
        Some(v(r#"{"id":{"element-6066-11e4-a52e-4f735466cecf":"e-frame"}}"#)),
        "null",
    );
    assert!(matches!(r, Json::Null));
    let button = d.find(Locator::Id("iframe_button"), "e-inner");
    d.click(&button, "null");
    assert!(d.find_fails(Locator::Id("root_button")).is_no_such_element());

    d.ok(WebDriverCommand::SwitchToParentFrame, Method::Post, "frame/parent", Some(v("{}")), "null");
    d.find(Locator::Id("root_button"), "e-root");
    d.close();
}

fn window_switch_scenario(as_tab: bool) {
    let mut d = Driver::connect("firefox");
    let window_1 = d.window("w-1");
    let typ = d.new_window(as_tab, "w-2");
    assert_eq!(typ, if as_tab { NewWindowType::Tab } else { NewWindowType::Window });
    let window_2 = d.window("w-1");
    assert_eq!(window_1, window_2, "After creating a new window, the session should not have switched to it");
    let all_windows = d.windows(r#"["w-1","w-2"]"#);
    assert_eq!(all_windows.len(), 2);
    let new_window = all_windows
        .into_iter()
        .find(|handle| handle != &window_1)
        .expect("Should find a differing window handle");
    d.switch_to_window(&new_window);
    let window_3 = d.window("w-2");
    assert_ne!(window_3, window_2, "After switching to a new window, the window handle returned from window() should differ now.");
    d.close();
}

#[test]
fn local_new_window_test() {
    let mut d = Driver::connect("firefox");
    d.new_window(false, "w-2");
    let windows = d.windows(r#"["w-1","w-2"]"#);
    assert_eq!(windows.len(), 2);
    d.close();
}

#[test]
fn local_new_window_switch_test() {
    window_switch_scenario(false);
}

#[test]
fn new_tab_switch_test() {
    window_switch_scenario(true);
}

#[test]
fn new_tab_test() {
    window_switch_scenario(true);
}

#[test]
fn local_close_window_test() {
    let mut d = Driver::connect("firefox");
    let window_1 = d.window("w-1");
    d.new_window(true, "w-2");
    let window_2 = d.window("w-1");
    assert_eq!(window_1, window_2, "Creating a new window should not cause the client to switch to it.");
    let handles = d.windows(r#"["w-1","w-2"]"#);
    assert_eq!(handles.len(), 2);

    d.ok(WebDriverCommand::CloseWindow, Method::Delete, "window", None, r#"["w-2"]"#);
    let e = d.refused(WebDriverCommand::GetWindowHandle, Method::Get, "window", None, 404, "no such window");
    assert!(e.is_no_such_window(), "After closing a window, the client can't find its currently selected window.");

    let other_window = handles
        .into_iter()
        .find(|handle| handle != &window_2)
        .expect("Should find a differing handle");
    d.switch_to_window(&other_window);
    d.ok(WebDriverCommand::CloseWindow, Method::Delete, "window", None, "[]");
    let e = d.refused(WebDriverCommand::GetWindowHandles, Method::Get, "window/handles", None, 404, "invalid session id");
    assert!(e.is_invalid_session_id(), "Session should be closed.");
}

#[test]
fn local_double_close_window_test() {
    let mut d = Driver::connect("firefox");
    d.ok(WebDriverCommand::CloseWindow, Method::Delete, "window", None, "[]");
    let e = d.refused(WebDriverCommand::CloseWindow, Method::Delete, "window", None, 404, "no such window");
    assert!(e.is_no_such_window(), "Should get a no such window error");
}

/// Locate a form, as the client's `form` does.
fn form(d: &mut Driver, loc: Locator<'_>, id: &str) -> ElementRef {
    d.find(loc, id)
}

/// Set the field that `loc` finds in `form` to `value`, as `Form::set` does.
fn form_set(d: &mut Driver, form: &ElementRef, loc: Locator<'_>, field_id: &str, value: &str) {
    let field = d.find_in(form, loc, field_id);
    let legacy = d.legacy();
    let cmd = set_value_command(field, value, legacy);
    let mut body = serde_json::Map::new();
    body.insert("script".to_string(), Value::String("arguments[0].value = arguments[1]".to_string()));
    body.insert(
        "args".to_string(),
        v(&format!(
            r#"[{{"element-6066-11e4-a52e-4f735466cecf":"{}"}},{}]"#,
            field_id,
            quoted(value)
        )),
    );
    let r = d.ok(cmd, Method::Post, "execute/sync", Some(Value::Object(body)), "null");
    assert!(matches!(r, Json::Null));
}

/// Submit `form` with its submit button, as `Form::submit` does.
fn form_submit(d: &mut Driver, form: &ElementRef) {
    let sel = submit_selector();
    assert_eq!(sel, "input[type=submit],button[type=submit]");
    let button = d.find_in(form, Locator::Css(sel), "e-submit");
    d.click(&button, "{}");
}

#[test]
fn local_set_by_name_textarea_test() {
    let mut d = Driver::connect("firefox");
    d.goto("about:blank", &sample_page_url());
    let f = form(&mut d, Locator::Css("form"), "e-form");
    let sel = field_name_selector("some_textarea");
    assert_eq!(sel, "[name='some_textarea']");
    form_set(&mut d, &f, Locator::Css(&sel), "e-textarea", "a value!");
    let textarea = d.find(Locator::Css("textarea"), "e-textarea");
    let value = d.prop(&textarea, "value", r#""a value!""#).expect("textarea should contain a value");
    assert_eq!(value, "a value!");
    d.close();
}

#[test]
fn local_stale_element_test() {
    let mut d = Driver::connect("firefox");
    d.goto("about:blank", &sample_page_url());
    let elem = d.find(Locator::Css("#other_page_id"), "e-link");
    d.execute(
        "var elem = document.getElementById('other_page_id');\n         elem.parentNode.removeChild(elem);",
        vec![],
        200,
        r#"{"value":null}"#,
    )
    .unwrap();
    let path = format!("element/{}/click", elem.as_str());
    let e = d.refused(WebDriverCommand::ElementClick(elem), Method::Post, &path, Some(v("{}")), 404, "stale element reference");
    match Err::<(), CmdError>(e) {
        Err(e) if e.is_stale_element_reference() => {}
        _ => panic!("Expected a stale element reference error"),
    }
    d.close();
}

/// Select the option that `loc` finds in the select box `select`, as `Element::select_by` does.
fn select_by(d: &mut Driver, select: &ElementRef, loc: Locator<'_>, option_id: &str) {
    let option = d.find_in(select, loc, option_id);
    d.click(&option, "null");
}

fn select_by_index_scenario() {
    let mut d = Driver::connect("chrome");
    d.goto("about:blank", &sample_page_url());
    let select = d.find(Locator::Css("#select1"), "e-select1");
    assert_eq!(Some("Select1-Option1".into()), d.prop(&select, "value", r#""Select1-Option1""#));
    let sel = option_index_selector(1);
    assert_eq!(sel, "option:nth-of-type(2)");
    select_by(&mut d, &select, Locator::Css(&sel), "e-s1o2");
    assert_eq!(Some("Select1-Option2".into()), d.prop(&select, "value", r#""Select1-Option2""#));
    let select2 = d.find(Locator::Css("#select2"), "e-select2");
    assert_eq!(Some("Select2-Option1".into()), d.prop(&select2, "value", r#""Select2-Option1""#));
    let select2 = d.find(Locator::Css("#select2"), "e-select2");
    select_by(&mut d, &select2, Locator::Css(&option_index_selector(1)), "e-s2o2");
    assert_eq!(Some("Select2-Option2".into()), d.prop(&select2, "value", r#""Select2-Option2""#));
    d.close();
}

#[test]
fn select_by_index_test() {
    select_by_index_scenario();
}

#[test]
fn select_by_index_label() {
    select_by_index_scenario();
}

#[test]
fn local_select_by_test() {
    let mut d = Driver::connect("firefox");
    d.goto("about:blank", &sample_page_url());
    let select = d.find(Locator::Css("#select3"), "e-select3");
    assert_eq!(Some("Select3-Option1".into()), d.prop(&select, "value", r#""Select3-Option1""#));
    select_by(&mut d, &select, Locator::Css("#select3-option-3"), "e-s3o3");
    assert_eq!(Some("Select3-Option3".into()), d.prop(&select, "value", r#""Select3-Option3""#));
    d.close();
}

#[test]
fn local_select_by_label_test() {
    let mut d = Driver::connect("firefox");
    d.goto("about:blank", &sample_page_url());
    let select = d.find(Locator::Css("#select1"), "e-select1");
    assert_eq!(Some("Select1-Option1".into()), d.prop(&select, "value", r#""Select1-Option1""#));
    let xpath = option_label_selector("Select1-Option2");
    assert_eq!(xpath, ".//option[.='Select1-Option2']");
    select_by(&mut d, &select, Locator::XPath(&xpath), "e-s1o2");
    assert_eq!(Some("Select1-Option2".into()), d.prop(&select, "value", r#""Select1-Option2""#));
    let select2 = d.find(Locator::Css("#select2"), "e-select2");
    assert_eq!(Some("Select2-Option1".into()), d.prop(&select2, "value", r#""Select2-Option1""#));
    d.close();
}

fn execute_async(d: &mut Driver, script: &str, args: Vec<Json>, reply: &str) -> Json {
    let mut body = serde_json::Map::new();
    body.insert("script".to_string(), Value::String(script.to_string()));
    body.insert("args".to_string(), Value::Array(args.iter().map(to_value).collect()));
    let cmd = WebDriverCommand::ExecuteAsyncScript(script.to_string(), args);
    d.ok(cmd, Method::Post, "execute/async", Some(Value::Object(body)), reply)
}

#[test]
fn resolve_execute_async_value_test() {
    let mut d = Driver::connect("firefox");
    d.goto("about:blank", &sample_page_url());
    let r = execute_async(
        &mut d,
        "setTimeout(() => arguments[1](arguments[0] + 1))",
        vec![Json::Number(JsonNumber::PosInt(1))],
        "2",
    );
    let count: u64 = to_value(&r).as_u64().expect("should be integer variant");
    assert_eq!(2, count);
    let r = execute_async(&mut d, "setTimeout(() => arguments[0](2))", vec![], "2");
    let count: u64 = to_value(&r).as_u64().expect("should be integer variant");
    assert_eq!(2, count);
    d.close();
}

#[test]
fn local_back_and_forward_test() {
    let mut d = Driver::connect("firefox");
    let sample_url = sample_page_url();
    d.goto("about:blank", &sample_url);
    assert_eq!(d.current_url(&sample_url), sample_url);
    let other_url = other_page_url();
    d.goto(&sample_url, &other_url);
    assert_eq!(d.current_url(&other_url), other_url);
    d.ok(WebDriverCommand::GoBack, Method::Post, "back", Some(v("{}")), "null");
    assert_eq!(d.current_url(&sample_url), sample_url);
    d.ok(WebDriverCommand::GoForward, Method::Post, "forward", Some(v("{}")), "null");
    assert_eq!(d.current_url(&other_url), other_url);
    d.close();
}

fn status(d: &mut Driver, reply: &str) -> WebDriverStatus {
    let req = d.state.request(WebDriverCommand::Status, d.base).unwrap();
    assert_eq!(req.method, Method::Get);
    assert_eq!(req.url, format!("{}/status", d.base));
    assert!(req.body.is_none());
    let r = receive(&d.state, 200, reply, false).unwrap();
    let s = to_value(&r);
    WebDriverStatus { ready: s["ready"].as_bool().unwrap(), message: s["message"].as_str().unwrap().to_string() }
}

#[test]
fn local_status_test() {
    let mut d = Driver::connect("firefox");
    let s = status(&mut d, r#"{"value":{"ready":false,"message":"Session already started"}}"#);
    assert!(!s.ready);
    d.close();
    let mut d = Driver::connect("chrome");
    let s = status(&mut d, r#"{"value":{"ready":true,"message":"ChromeDriver ready for new sessions."}}"#);
    assert!(s.ready);
    d.close();
}

#[test]
fn local_title_test() {
    let mut d = Driver::connect("firefox");
    d.goto("about:blank", &sample_page_url());
    let r = d.ok(WebDriverCommand::GetTitle, Method::Get, "title", None, r#""Sample Page""#);
    assert_eq!(read_string(r).unwrap(), "Sample Page");
    d.close();
}

/// Read the timeouts that the WebDriver reports.
fn get_timeouts(d: &mut Driver, reply: &str) -> TimeoutConfiguration {
    let r = to_value(&d.ok(WebDriverCommand::GetTimeouts, Method::Get, "timeouts", None, reply));
    TimeoutConfiguration::from_millis(r["script"].as_u64(), r["pageLoad"].as_u64(), r["implicit"].as_u64())
}

#[test]
fn local_timeouts_test() {
    let mut d = Driver::connect("firefox");
    let new_timeouts = TimeoutConfiguration::new(
        Some(Duration::from_secs(60)),
        Some(Duration::from_secs(60)),
        Some(Duration::from_secs(30)),
    );
    d.ok(
        WebDriverCommand::SetTimeouts(new_timeouts.clone()),
        Method::Post,
        "timeouts",
        Some(v(r#"{"script":60000,"pageLoad":60000,"implicit":30000}"#)),
        "null",
    );
    let got_timeouts = get_timeouts(&mut d, r#"{"script":60000,"pageLoad":60000,"implicit":30000}"#);
    assert_eq!(got_timeouts, new_timeouts);

    let update_timeouts = TimeoutConfiguration::new(None, None, Some(Duration::from_secs(0)));
    d.ok(
        WebDriverCommand::SetTimeouts(update_timeouts.clone()),
        Method::Post,
        "timeouts",
        Some(v(r#"{"implicit":0}"#)),
        "null",
    );
    let got_timeouts = get_timeouts(&mut d, r#"{"script":60000,"pageLoad":60000,"implicit":0}"#);
    assert_eq!(
        got_timeouts,
        TimeoutConfiguration::new(new_timeouts.script(), new_timeouts.page_load(), update_timeouts.implicit())
    );
    d.close();
}

#[test]
fn local_dynamic_commands_test() {
    let mut d = Driver::connect("firefox");
    d.goto("about:blank", &sample_page_url());
    let title = d.ok(WebDriverCommand::GetTitle, Method::Get, "title", None, r#""Sample Page""#);
    assert_eq!(to_value(&title).as_str(), Some("Sample Page"));
    let title = d.ok(WebDriverCommand::GetTitle, Method::Get, "title", None, r#""Sample Page""#);
    assert_eq!(to_value(&title).as_str(), Some("Sample Page"));
    d.close();
}

#[test]
fn local_session_creation_response_test() {
    let d = Driver::connect("firefox");
    let created = d.created.as_ref().unwrap();
    assert_eq!(created.session_id(), SID);
    assert!(matches!(
        created.capabilities().unwrap().get("browserName"),
        Some(Json::String(_))
    ));
    d.close();
}

#[test]
fn local_capabilities_test() {
    let d = Driver::connect("chrome");
    let remote_caps = d.created.as_ref().and_then(|c| c.capabilities());
    assert!(matches!(remote_caps.unwrap().get("browserName"), Some(Json::String(_))));
    d.close();
}

#[test]
fn local_it_works() {
    let mut d = Driver::connect("firefox");
    let url = sample_page_url();
    d.goto("about:blank", &url);
    let e = d.find(Locator::Id("span_id"), "e-span");
    assert_eq!(d.text(&e, "Span"), "Span");
    assert_eq!(d.current_url(&url), url);
    let link = d.find(Locator::Css(".other_page"), "e-other");
    d.click(&link, "null");
    let link = d.find(Locator::LinkText("iframe inner"), "e-inner-link");
    d.click(&link, "null");
    let inner = format!("http://localhost:{}/iframe_inner.html", PORT);
    assert_eq!(d.current_url(&inner), format!("http://localhost:{}/iframe_inner.html", PORT));
    d.close();
}

fn clicks_scenario(by_locator: bool) {
    let mut d = Driver::connect("firefox");
    let url = sample_page_url();
    d.goto("about:blank", &url);
    let f = form(&mut d, Locator::Css("#search-form"), "e-form");
    if by_locator {
        form_set(&mut d, &f, Locator::Css("input[name='search']"), "e-search", "foobar");
    } else {
        let sel = field_name_selector("search");
        form_set(&mut d, &f, Locator::Css(&sel), "e-search", "foobar");
    }
    form_submit(&mut d, &f);
    let searched = format!("{}?search=foobar", url);
    assert_eq!(d.current_url(&searched), format!("{}?search=foobar", url));
    d.close();
}

#[test]
fn local_it_clicks() {
    clicks_scenario(false);
}

#[test]
fn local_it_clicks_by_locator() {
    clicks_scenario(true);
}

#[test]
fn local_it_sends_keys_and_clear_input() {
    let mut d = Driver::connect("firefox");
    d.goto("about:blank", &sample_page_url());
    let policy = WaitPolicy::new();
    assert!(policy.before_look(Duration::from_millis(0)).is_ok());
    let found = element_look(Ok::<ElementRef, CmdError>(d.find(Locator::Id("text-input"), "e-text")));
    let e = match policy.after_look(found) {
        WaitStep::Finish(r) => r.unwrap(),
        WaitStep::Sleep(_) => panic!("the element is there"),
    };
    d.send_keys(&e, "foobar");
    assert_eq!(d.prop(&e, "value", r#""foobar""#).expect("input should have value prop").as_str(), "foobar");
    let path = format!("element/{}/clear", e.as_str());
    let r = d.ok(WebDriverCommand::ElementClear(ElementRef::new(e.as_str().to_string())), Method::Post, &path, Some(v("{}")), "null");
    read_acknowledgement(r, false).unwrap();
    assert_eq!(d.prop(&e, "value", r#""""#).expect("input should have value prop").as_str(), "");
    d.close();
}

#[test]
fn local_it_can_be_raw() {
    let mut d = Driver::connect("firefox");
    let url = sample_page_url();
    d.goto("about:blank", &url);
    let img = d.find(Locator::Css("img.globe"), "e-img");
    let src = d.attr(&img, "src", r#""/globe.png""#).expect("image should have a src");
    let old_url = d.current_url(&url);
    let target = resolve_url(&old_url, &src).unwrap();
    assert_eq!(target, format!("http://localhost:{}/globe.png", PORT));
    let cookie_url = resolve_url(&target, "/please_give_me_your_cookies").unwrap();
    assert_eq!(cookie_url, format!("http://localhost:{}/please_give_me_your_cookies", PORT));
    d.goto(&url, &cookie_url);
    let cookies = d.ok(WebDriverCommand::GetCookies, Method::Get, "cookie", None, "[]");
    d.ok(WebDriverCommand::GoBack, Method::Post, "back", Some(v("{}")), "null");
    assert_eq!(cookie_header(cookies).unwrap(), "");
    assert_eq!(d.state.get_ua(), None);
    d.close();
}

#[test]
fn local_it_finds_all() {
    let mut d = Driver::connect("firefox");
    d.goto("about:blank", &sample_page_url());
    let r = d.ok(
        WebDriverCommand::FindElements(Locator::Css("#footer li").into_parameters()),
        Method::Post,
        "elements",
        Some(wire_locator(&Locator::Css("#footer li"))),
        r#"[{"element-6066-11e4-a52e-4f735466cecf":"li-1"},{"element-6066-11e4-a52e-4f735466cecf":"li-2"},{"element-6066-11e4-a52e-4f735466cecf":"li-3"}]"#,
    );
    let es = parse_lookup_all(r, false).unwrap();
    let replies = ["Footer Element", "Another Footer Element", ""];
    let mut texts: Vec<String> = es.iter().zip(replies.iter()).map(|(e, t)| d.text(e, t)).collect();
    texts.retain(|t| !t.is_empty());
    assert_eq!(texts, ["Footer Element", "Another Footer Element",]);
    d.close();
}

#[test]
fn local_it_finds_sub_elements() {
    let mut d = Driver::connect("firefox");
    d.goto("about:blank", &sample_page_url());
    let footer = d.find(Locator::Css("#footer"), "e-footer");
    let r = d.ok(
        WebDriverCommand::FindElementElements(ElementRef::new("e-footer".to_string()), Locator::Css("li").into_parameters()),
        Method::Post,
        &format!("element/{}/elements", footer.as_str()),
        Some(wire_locator(&Locator::Css("li"))),
        r#"[{"element-6066-11e4-a52e-4f735466cecf":"li-1"},{"element-6066-11e4-a52e-4f735466cecf":"li-2"},{"element-6066-11e4-a52e-4f735466cecf":"li-3"}]"#,
    );
    let places = parse_lookup_all(r, false).unwrap();
    let place_titles = &["Footer Element", "Another Footer Element"];
    let replies = ["Footer Element", "Another Footer Element", ""];
    for (i, place) in places.iter().enumerate() {
        let a = d.find_in(place, Locator::Css("a"), &format!("a-{}", i));
        let place_title = d.text(&a, replies[i]);
        if place_title.is_empty() {
            assert!(i >= place_titles.len(), "{} >= {}", i, place_titles.len());
        } else {
            assert_eq!(place_title, place_titles[i]);
        }
    }
    d.close();
}

#[test]
fn local_it_simple_waits() {
    let d = Driver::connect("firefox");
    let policy = WaitPolicy::new().forever();
    assert!(policy.before_look(Duration::from_secs(4)).is_ok());
    match policy.after_look(Ok::<Option<()>, CmdError>(Some(()))) {
        WaitStep::Finish(r) => assert!(r.is_ok()),
        WaitStep::Sleep(_) => panic!("the condition holds"),
    }
    d.close();
}

#[test]
fn local_it_waits_for_navigation() {
    let mut d = Driver::connect("firefox");
    let file_url = "file:///fantoccini/tests/test_html/redirect_test.html";
    d.goto("about:blank", file_url);
    let policy = WaitPolicy::new().forever();
    let start = d.current_url(file_url);
    assert_eq!(start, file_url);
    let mut pages = vec!["about:blank", file_url];
    let mut url = start.clone();
    loop {
        assert!(policy.before_look(Duration::from_secs(1)).is_ok());
        let page = pages.pop().unwrap_or("http://localhost:35123/sample_page.html");
        let current = d.current_url(page);
        let navigated = url_look(&current, &url).is_none();
        match policy.after_look(Ok::<Option<()>, CmdError>(if navigated { Some(()) } else { None })) {
            WaitStep::Sleep(_) => continue,
            WaitStep::Finish(r) => assert!(r.is_ok()),
        }
        url = current;
        if url.as_str() == "about:blank" {
            continue;
        }
        assert!(url.ends_with("sample_page.html"));
        break;
    }
    d.close();
}

/// A cookie that a Get Named Cookie or Get All Cookies reply describes.
fn cookie_of(c: &Value) -> WebDriverCookie {
    WebDriverCookie {
        name: c["name"].as_str().unwrap().to_string(),
        value: c["value"].as_str().unwrap().to_string(),
        path: c["path"].as_str().map(str::to_string),
        domain: c["domain"].as_str().map(str::to_string),
        secure: c["secure"].as_bool(),
        http_only: c["httpOnly"].as_bool(),
        expiry: c["expiry"].as_u64(),
        same_site: c["sameSite"].as_str().map(SameSite::from_text),
    }
}

#[test]
fn remote_it_handles_cookies() {
    let mut d = Driver::connect("chrome");
    d.goto("about:blank", "https://www.wikipedia.org/");
    let all = d.ok(
        WebDriverCommand::GetCookies,
        Method::Get,
        "cookie",
        None,
        r#"[{"name":"WMF-Last-Access","value":"01-Jan-2024","path":"/","domain":"www.wikipedia.org","secure":true,"httpOnly":true,"sameSite":"None"}]"#,
    );
    let cookies: Vec<WebDriverCookie> = to_value(&all).as_array().unwrap().iter().map(cookie_of).collect();
    assert!(!cookies.is_empty());

    let cookie = WebDriverCookie {
        name: "cookietest".to_string(),
        value: "fantoccini".to_string(),
        path: Some("/".to_string()),
        domain: Some(".wikipedia.org".to_string()),
        secure: Some(false),
        http_only: Some(false),
        expiry: None,
        same_site: Some(SameSite::Lax),
    };
    let sent = cookie.to_json();
    let mut body = serde_json::Map::new();
    body.insert("cookie".to_string(), to_value(&sent));
    assert_eq!(
        to_value(&sent),
        v(r#"{"name":"cookietest","value":"fantoccini","path":"/","domain":".wikipedia.org","secure":false,"httpOnly":false,"sameSite":"Lax"}"#)
    );
    d.ok(WebDriverCommand::AddCookie(sent), Method::Post, "cookie", Some(Value::Object(body)), "null");
    let named = d.ok(
        WebDriverCommand::GetNamedCookie("cookietest".to_string()),
        Method::Get,
        "cookie/cookietest",
        None,
        r#"{"name":"cookietest","value":"fantoccini","path":"/","domain":".wikipedia.org","secure":false,"httpOnly":false,"sameSite":"Lax"}"#,
    );
    assert_eq!(cookie_of(&to_value(&named)).value, "fantoccini");

    d.ok(WebDriverCommand::DeleteCookie("cookietest".to_string()), Method::Delete, "cookie/cookietest", None, "null");
    let e = d.refused(
        WebDriverCommand::GetNamedCookie("cookietest".to_string()),
        Method::Get,
        "cookie/cookietest",
        None,
        404,
        "no such cookie",
    );
    assert!(e.is_no_such_cookie());

    let cookie = WebDriverCookie {
        name: "cookietest".to_string(),
        value: "fantoccini".to_string(),
        path: Some("/".to_string()),
        domain: Some(".wikipedia.org".to_string()),
        secure: Some(true),
        http_only: Some(false),
        expiry: None,
        same_site: None,
    };
    let sent = cookie.to_json();
    let mut body = serde_json::Map::new();
    body.insert("cookie".to_string(), to_value(&sent));
    d.ok(WebDriverCommand::AddCookie(sent), Method::Post, "cookie", Some(Value::Object(body)), "null");
    let named = d.ok(
        WebDriverCommand::GetNamedCookie("cookietest".to_string()),
        Method::Get,
        "cookie/cookietest",
        None,
        r#"{"name":"cookietest","value":"fantoccini","path":"/","domain":".wikipedia.org","secure":true,"httpOnly":false,"sameSite":"None"}"#,
    );
    assert_eq!(cookie_of(&to_value(&named)).same_site, Some(SameSite::Unrestricted));

    d.ok(WebDriverCommand::DeleteCookies, Method::Delete, "cookie", None, "null");
    let all = d.ok(WebDriverCommand::GetCookies, Method::Get, "cookie", None, "[]");
    assert!(to_value(&all).as_array().unwrap().is_empty());
    d.close();
}
