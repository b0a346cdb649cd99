//! Properties that tie the library's functions together: what one function writes, another
//! reads back.
use crate::client::{current_url_read, goto_sent, page_url_text, url_joined, url_parsed};
use crate::cookies::{
    add_parameters, all_ascii, lowercased, same_site_of, same_site_of_ascii, same_site_text, SameSite,
    WebDriverCookie,
};
use crate::elements::{element_key, fixed_up, is_element_json, lookup_result, ELEMENT_KEY, LEGACY_ELEMENT_KEY};
use crate::error::{lemma_status_text_round_trip, status_from_text, status_text, CmdError, WebDriver};
use crate::json::Json;
use crate::command::{endpoint_path, in_session, WebDriverCommand};
use crate::error::status_http_code;
use crate::error::ErrorStatus;
use crate::forms::{css_escaped, css_escaped_char};
use crate::session::{decoded_reply, error_payload, has_string, http_success, legacy_code, string_at, webdriver_error_json};
use crate::text::has_prefix;
use crate::wd::{duration_millis, millis_duration, timeout_duration, timeout_millis};
use std::time::Duration;
use vstd::prelude::*;

verus! {

/// An element reference written for a protocol is read back by a lookup in that protocol:
/// what `ElementRef::to_json` and `element_argument` write, `parse_lookup` gives back.
pub proof fn lemma_element_reference_read_back(j: Json, id: Seq<char>, legacy: bool)
    requires
        is_element_json(j, id, legacy),
    ensures
        lookup_result(j, legacy) == Some(id),
{
    assert(j->Object_0.as_map().dom().contains(element_key(legacy)));
}

/// A W3C element reference that script arguments carry is, once renamed for the legacy
/// protocol, a legacy element reference to the same element.
pub proof fn lemma_legacy_fixup_keeps_reference(before: Json, after: Json, id: Seq<char>)
    requires
        is_element_json(before, id, false),
        fixed_up(before, after, true),
    ensures
        is_element_json(after, id, true),
        lookup_result(after, true) == Some(id),
{
    reveal_strlit("element-6066-11e4-a52e-4f735466cecf");
    reveal_strlit("ELEMENT");
    let m = before->Object_0.as_map();
    assert(m.contains_key(ELEMENT_KEY@));
    assert(m.remove(ELEMENT_KEY@).insert(LEGACY_ELEMENT_KEY@, m[ELEMENT_KEY@]).dom() =~= set![
        LEGACY_ELEMENT_KEY@,
    ]);
    lemma_element_reference_read_back(after, id, true);
}

/// A WebDriver error, sent in its JSON form as the payload of a failed W3C reply, is read back
/// as the same error: the same status, message and stack trace, and its data, a missing one
/// sent as `null`.
pub proof fn lemma_error_read_back(p: Json, w: WebDriver, code: u64, r: CmdError)
    requires
        webdriver_error_json(p, w),
        error_payload(p, false, code, r),
    ensures
        r matches CmdError::Standard(w2) && w2.error == w.error && w2.message@ == w.message@
            && w2.stacktrace@ == w.stacktrace@ && w2.data == Some(
            match w.data {
                Some(d) => d,
                None => Json::Null,
            },
        ),
{
    reveal_strlit("error");
    reveal_strlit("message");
    reveal_strlit("stacktrace");
    reveal_strlit("data");
    reveal_strlit("screen");
    let m = p->Object_0.as_map();
    assert("screen"@.len() != "message"@.len());
    assert("screen"@.len() != "error"@.len());
    assert("screen"@[1] != "stacktrace"@[1]);
    assert("screen"@.len() != "data"@.len());
    assert(!m.contains_key("screen"@));
    assert(m.remove("screen"@) =~= m);
    lemma_status_text_round_trip(w.error);
    assert(has_string(m, "error"@));
    assert(has_string(m, "message"@));
    assert(has_string(m, "stacktrace"@));
    assert(string_at(m, "message"@) == w.message@);
    assert(string_at(m, "stacktrace"@) == w.stacktrace@);
}

/// The wire name of each `SameSite` value names it again: a cookie's `SameSite` attribute,
/// written by `SameSite::as_str`, is read back by `SameSite::from_text`.
pub proof fn lemma_same_site_read_back(s: SameSite)
    ensures
        all_ascii(same_site_text(s)),
        same_site_of_ascii(same_site_text(s)) == s,
{
    reveal_strlit("Strict");
    reveal_strlit("Lax");
    reveal_strlit("None");
    reveal_strlit("strict");
    reveal_strlit("lax");
    let t = same_site_text(s);
    let lower = t.map_values(|c: char| crate::cookies::ascii_lower(c));
    match s {
        SameSite::Strict => {
            assert(lower =~= "strict"@);
        },
        SameSite::Lax => {
            assert("strict"@.len() != "lax"@.len());
            assert(lower =~= "lax"@);
        },
        SameSite::Unrestricted => {
            assert(lower.len() == 4);
            assert("strict"@.len() != 4);
            assert("lax"@.len() != 4);
        },
    }
}

/// Every error status is answered with an HTTP error code: a client error (4xx) or a server
/// error (5xx), never a success.
pub proof fn lemma_status_codes_are_errors(s: ErrorStatus)
    ensures
        400 <= status_http_code(s) < 600,
        !http_success(status_http_code(s)),
{
}

/// A WebDriver error, sent as the W3C protocol sends it (its JSON form under `"value"`, with the
/// HTTP code of its status), is decoded as the same error.
pub proof fn lemma_error_reply_read_back(
    reply: Json,
    w: WebDriver,
    new_session: bool,
    r: Result<Json, CmdError>,
)
    requires
        reply matches Json::Object(m) && m.as_map().contains_key("value"@) && webdriver_error_json(
            m.as_map()["value"@],
            w,
        ),
        decoded_reply(status_http_code(w.error), reply, false, new_session, r),
    ensures
        r matches Err(CmdError::Standard(w2)) && w2.error == w.error && w2.message@ == w.message@
            && w2.stacktrace@ == w.stacktrace@,
{
    lemma_status_codes_are_errors(w.error);
    let m = reply->Object_0.as_map();
    let e = r->Err_0;
    lemma_error_read_back(m["value"@], w, legacy_code(m), e);
}

/// A successful W3C reply gives back the value it carries.
pub proof fn lemma_success_reply_read_back(
    status: u16,
    reply: Json,
    new_session: bool,
    r: Result<Json, CmdError>,
)
    requires
        http_success(status),
        reply matches Json::Object(m) && m.as_map().contains_key("value"@),
        decoded_reply(status, reply, false, new_session, r),
    ensures
        r == Ok::<Json, CmdError>(reply->Object_0.as_map()["value"@]),
{
}

/// Every command of a session addresses that session: its path begins with
/// `session/{id}/`.
pub proof fn lemma_session_commands_name_the_session(c: WebDriverCommand, id: Seq<char>)
    requires
        in_session(c),
    ensures
        has_prefix(endpoint_path(c, id), "session/"@ + id + "/"@),
{
    let p = "session/"@ + id + "/"@;
    assert(endpoint_path(c, id).subrange(0, p.len() as int) =~= p);
}

/// A timeout that is set is read back to the millisecond: what `TimeoutConfiguration::new` or a
/// setter stores of a duration, the getter gives back as `Duration::from_millis` of its whole
/// milliseconds (cut to 64 bits), which are as many whole milliseconds.
pub proof fn lemma_timeout_read_back(set: Option<Duration>, stored: Option<u64>, got: Option<Duration>)
    requires
        stored == timeout_millis(set),
        got == timeout_duration(stored),
        got matches Some(g) ==> duration_millis(g) == stored->0,
    ensures
        got == match set {
            Some(d) => Some(millis_duration(duration_millis(d) as u64)),
            None => None,
        },
        got matches Some(g) ==> duration_millis(g) == duration_millis(set->0) as u64,
{
}

/// The text that a double-quoted CSS string stands for: a backslash takes the next character
/// as it is.
pub open spec fn css_unescaped(t: Seq<char>) -> Seq<char>
    decreases t.len(),
{
    if t.len() == 0 {
        Seq::empty()
    } else if t[0] == '\\' && t.len() >= 2 {
        seq![t[1]] + css_unescaped(t.subrange(2, t.len() as int))
    } else {
        seq![t[0]] + css_unescaped(t.subrange(1, t.len() as int))
    }
}

/// Escaping a text character by character: the first character's escape comes first.
proof fn lemma_css_escaped_front(c: char, s: Seq<char>)
    ensures
        css_escaped(seq![c] + s) == css_escaped_char(c) + css_escaped(s),
    decreases s.len(),
{
    let t = seq![c] + s;
    if s.len() == 0 {
        assert(t.drop_last() =~= Seq::<char>::empty());
        assert(t.last() == c);
        assert(css_escaped(Seq::<char>::empty()) =~= Seq::<char>::empty());
        assert(css_escaped(t) =~= css_escaped_char(c));
        assert(s =~= Seq::<char>::empty());
    } else {
        assert(t.drop_last() =~= seq![c] + s.drop_last());
        assert(t.last() == s.last());
        lemma_css_escaped_front(c, s.drop_last());
        assert(css_escaped(t) =~= css_escaped_char(c) + css_escaped(s));
    }
}

/// A label written into a double-quoted CSS string reads back as the same label: the submit
/// button selector of `Form::submit_using` names exactly the label that it was given.
pub proof fn lemma_css_escape_read_back(s: Seq<char>)
    ensures
        css_unescaped(css_escaped(s)) == s,
    decreases s.len(),
{
    if s.len() == 0 {
        assert(css_escaped(s) =~= Seq::<char>::empty());
    } else {
        let c = s[0];
        let tail = s.subrange(1, s.len() as int);
        assert(s =~= seq![c] + tail);
        lemma_css_escaped_front(c, tail);
        lemma_css_escape_read_back(tail);
        let e = css_escaped(tail);
        let t = css_escaped_char(c) + e;
        if c == '\\' || c == '"' {
            assert(t.subrange(2, t.len() as int) =~= e);
        } else {
            assert(t.subrange(1, t.len() as int) =~= e);
        }
        assert(css_unescaped(t) =~= seq![c] + tail);
    }
}

/// The error string of each status parses back to it (`ErrorStatus::parse`, `from_str` and
/// `try_from` all go by `status_from_text`), and so do the two older names that some drivers
/// send.
pub proof fn lemma_status_parse_read_back(e: ErrorStatus)
    ensures
        status_from_text(status_text(e)) == Some(e),
        status_from_text("element not visible"@) == Some(ErrorStatus::ElementNotInteractable),
        status_from_text("invalid element coordinates"@) == Some(ErrorStatus::InvalidCoordinates),
{
    lemma_status_text_round_trip(e);
    reveal_strlit("element not visible");
    reveal_strlit("detached shadow root");
    reveal_strlit("element click intercepted");
    reveal_strlit("element not interactable");
    assert("element not visible"@.len() != "detached shadow root"@.len());
    assert("element not visible"@.len() != "element click intercepted"@.len());
    assert("element not visible"@.len() != "element not interactable"@.len());
    reveal_strlit("invalid element coordinates");
    reveal_strlit("element not selectable");
    reveal_strlit("insecure certificate");
    reveal_strlit("invalid argument");
    reveal_strlit("invalid cookie domain");
    reveal_strlit("invalid coordinates");
    let t = "invalid element coordinates"@;
    assert(t.len() != "detached shadow root"@.len());
    assert(t.len() != "element click intercepted"@.len());
    assert(t.len() != "element not interactable"@.len());
    assert(t.len() != "element not visible"@.len());
    assert(t.len() != "element not selectable"@.len());
    assert(t.len() != "insecure certificate"@.len());
    assert(t.len() != "invalid argument"@.len());
    assert(t.len() != "invalid cookie domain"@.len());
    assert(t.len() != "invalid coordinates"@.len());
}

/// Add Cookie parameters, read as a WebDriver cookie (which says whether the cookie is secure
/// and HTTP only) and turned back into parameters, are the same parameters; and turning a
/// cookie into parameters twice changes nothing more.
pub proof fn lemma_add_parameters_read_back(c: WebDriverCookie)
    ensures
        c.secure is Some && c.http_only is Some ==> add_parameters(c) == c,
        add_parameters(add_parameters(c)) == add_parameters(c),
{
}

/// Add Cookie parameters read as a WebDriver cookie and turned back into parameters come back
/// field by field: name, value, path, domain, secure, HTTP only and expiry unchanged. Their
/// `sameSite` text `t`, read by `SameSite::from_text` and written back by `SameSite::as_str`,
/// comes back unchanged when it is `"Strict"`, `"Lax"` or `"None"`; any other text comes back as
/// `"Strict"` if its lowercase form is `"strict"`, as `"Lax"` if it is `"lax"`, and else as
/// `"None"`.
pub proof fn lemma_cookie_parameters_round_trip(c: WebDriverCookie, t: Option<Seq<char>>)
    requires
        c.secure is Some,
        c.http_only is Some,
        t is None ==> c.same_site is None,
        t matches Some(s) ==> c.same_site == Some(same_site_of(s)) && (all_ascii(s)
            ==> c.same_site == Some(same_site_of_ascii(s))),
    ensures
        add_parameters(c) == c,
        t is None ==> add_parameters(c).same_site is None,
        t matches Some(s) ==> (s == "Strict"@ || s == "Lax"@ || s == "None"@) ==> same_site_text(
            add_parameters(c).same_site->0,
        ) == s,
        t matches Some(s) ==> same_site_text(add_parameters(c).same_site->0) == if lowercased(s)
            == "strict"@ {
            "Strict"@
        } else if lowercased(s) == "lax"@ {
            "Lax"@
        } else {
            "None"@
        },
{
    if let Some(s) = t {
        if s == "Strict"@ {
            lemma_same_site_read_back(SameSite::Strict);
        } else if s == "Lax"@ {
            lemma_same_site_read_back(SameSite::Lax);
        } else if s == "None"@ {
            lemma_same_site_read_back(SameSite::Unrestricted);
        }
    }
}

/// Navigating and reading the URL back: `goto` sends Navigate To with the link resolved against
/// the current page (where it cannot be resolved, it sends nothing and fails with a bad URL);
/// when the browser then reports that URL, as a page that does not redirect does, the current
/// URL is the one parsed from it.
pub proof fn lemma_goto_read_back(
    base: Seq<char>,
    input: Seq<char>,
    sent: Result<WebDriverCommand, CmdError>,
    reply: Json,
    now: Result<String, CmdError>,
)
    requires
        goto_sent(base, input, sent),
        sent matches Ok(WebDriverCommand::Get(u)) ==> reply == Json::String(u),
        current_url_read(reply, now),
    ensures
        url_joined(base, input) is None <==> sent matches Err(CmdError::BadUrl(_)),
        url_joined(base, input) matches Some(u) ==> match url_parsed(page_url_text(u)) {
            Some(p) => now matches Ok(t) && t@ == p,
            None => now matches Err(CmdError::BadUrl(_)),
        },
{
}

} // verus!
