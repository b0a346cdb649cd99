//! The tables that the WebDriver standard and the JSON wire protocol write down, as they write
//! them, and the laws that hold the library's mappings to them.
use crate::actions::{
    pointer_type_text, ActionSequence, KeyActions, MouseActions, NullActions, PenActions,
    PointerType, TouchActions,
};
use crate::command::{command_method, endpoint_path, in_session, session_path, Method, WebDriverCommand};
use crate::error::{status_from_text, status_http_code, status_text, ErrorStatus};
use crate::keys::{key_code, Keys};
use crate::laws::lemma_status_parse_read_back;
use crate::error::lemma_status_text_round_trip;
use crate::session::legacy_error_status;
use vstd::prelude::*;
use vstd::std_specs::convert::FromSpec;

verus! {

/// The keys of the WebDriver standard's table of key codes, in the order of their code points
/// from U+E000: the entry at position `i` is the key whose code is U+E000 + `i`, and the code
/// points U+E02A to U+E030 are unassigned.
///
/// See [17.4.2 Keyboard actions](https://www.w3.org/TR/webdriver/#keyboard-actions).
pub open spec fn webdriver_key_table() -> Seq<Option<Keys>> {
    seq![
        Some(Keys::Null),
        Some(Keys::Cancel),
        Some(Keys::Help),
        Some(Keys::Backspace),
        Some(Keys::Tab),
        Some(Keys::Clear),
        Some(Keys::Return),
        Some(Keys::Enter),
        Some(Keys::Shift),
        Some(Keys::Control),
        Some(Keys::Alt),
        Some(Keys::Pause),
        Some(Keys::Escape),
        Some(Keys::Space),
        Some(Keys::PageUp),
        Some(Keys::PageDown),
        Some(Keys::End),
        Some(Keys::Home),
        Some(Keys::Left),
        Some(Keys::Up),
        Some(Keys::Right),
        Some(Keys::Down),
        Some(Keys::Insert),
        Some(Keys::Delete),
        Some(Keys::Semicolon),
        Some(Keys::Equals),
        Some(Keys::NumPad0),
        Some(Keys::NumPad1),
        Some(Keys::NumPad2),
        Some(Keys::NumPad3),
        Some(Keys::NumPad4),
        Some(Keys::NumPad5),
        Some(Keys::NumPad6),
        Some(Keys::NumPad7),
        Some(Keys::NumPad8),
        Some(Keys::NumPad9),
        Some(Keys::Multiply),
        Some(Keys::Add),
        Some(Keys::Separator),
        Some(Keys::Subtract),
        Some(Keys::Decimal),
        Some(Keys::Divide),
        None,
        None,
        None,
        None,
        None,
        None,
        None,
        Some(Keys::F1),
        Some(Keys::F2),
        Some(Keys::F3),
        Some(Keys::F4),
        Some(Keys::F5),
        Some(Keys::F6),
        Some(Keys::F7),
        Some(Keys::F8),
        Some(Keys::F9),
        Some(Keys::F10),
        Some(Keys::F11),
        Some(Keys::F12),
        Some(Keys::Meta),
    ]
}

/// Each key is sent as the code point that the WebDriver standard assigns to it: its code is
/// U+E000 plus the position at which the standard's table lists it. `Command` is another name
/// of the `Meta` key, and has its code.
pub proof fn lemma_key_codes_follow_the_standard(k: Keys)
    ensures
        0 <= key_code(k) as int - 0xE000 < webdriver_key_table().len(),
        k != Keys::Command ==> webdriver_key_table()[key_code(k) as int - 0xE000] == Some(k),
        k == Keys::Command ==> key_code(k) == key_code(Keys::Meta),
{
}

/// The status codes of the JSON wire protocol's table of response codes, at their own
/// positions, each with the W3C error code that stands for the same failure; the codes that no
/// W3C error code stands for are left empty.
///
/// See the [JSON wire protocol](https://www.selenium.dev/documentation/legacy/json_wire_protocol/#response-status-codes).
pub open spec fn json_wire_error_table() -> Seq<Option<Seq<char>>> {
    seq![
        None,  // 0: Success
        None,  // 1
        None,  // 2
        None,  // 3
        None,  // 4
        None,  // 5
        Some("session not created"@),  // 6: NoSuchDriver
        Some("no such element"@),  // 7: NoSuchElement
        Some("no such frame"@),  // 8: NoSuchFrame
        Some("unknown command"@),  // 9: UnknownCommand
        Some("stale element reference"@),  // 10: StaleElementReference
        Some("element not visible"@),  // 11: ElementNotVisible
        Some("invalid element state"@),  // 12: InvalidElementState
        Some("unknown error"@),  // 13: UnknownError
        None,  // 14
        Some("element not selectable"@),  // 15: ElementIsNotSelectable
        None,  // 16
        Some("javascript error"@),  // 17: JavaScriptError
        None,  // 18
        Some("invalid selector"@),  // 19: XPathLookupError
        None,  // 20
        Some("timeout"@),  // 21: Timeout
        None,  // 22
        Some("no such window"@),  // 23: NoSuchWindow
        Some("invalid cookie domain"@),  // 24: InvalidCookieDomain
        Some("unable to set cookie"@),  // 25: UnableToSetCookie
        Some("unexpected alert open"@),  // 26: UnexpectedAlertOpen
        Some("no such alert"@),  // 27: NoAlertOpenError
        Some("script timeout"@),  // 28: ScriptTimeout
        Some("invalid element coordinates"@),  // 29: InvalidElementCoordinates
        None,  // 30: IMENotAvailable
        None,  // 31: IMEEngineActivationFailed
        Some("invalid selector"@),  // 32: InvalidSelector
        Some("session not created"@),  // 33: SessionNotCreatedException
        Some("move target out of bounds"@),  // 34: MoveTargetOutOfBounds
    ]
}

/// A legacy reply's status code means the error that the JSON wire protocol's table gives it,
/// read as the W3C error code that stands for it; a code that the table does not name as such
/// an error (success among them) means no error status.
pub proof fn lemma_legacy_codes_follow_the_wire_protocol(code: u64)
    ensures
        legacy_error_status(code) == if code < json_wire_error_table().len() {
            match json_wire_error_table()[code as int] {
                Some(t) => status_from_text(t),
                None => None,
            }
        } else {
            None
        },
{
    if code == 0 {
        
    } else if code == 1 {
        
    } else if code == 2 {
        
    } else if code == 3 {
        
    } else if code == 4 {
        
    } else if code == 5 {
        
    } else if code == 6 {
        lemma_status_text_round_trip(ErrorStatus::SessionNotCreated);
    } else if code == 7 {
        lemma_status_text_round_trip(ErrorStatus::NoSuchElement);
    } else if code == 8 {
        lemma_status_text_round_trip(ErrorStatus::NoSuchFrame);
    } else if code == 9 {
        lemma_status_text_round_trip(ErrorStatus::UnknownCommand);
    } else if code == 10 {
        lemma_status_text_round_trip(ErrorStatus::StaleElementReference);
    } else if code == 11 {
        lemma_status_parse_read_back(ErrorStatus::UnknownError);
    } else if code == 12 {
        lemma_status_text_round_trip(ErrorStatus::InvalidElementState);
    } else if code == 13 {
        lemma_status_text_round_trip(ErrorStatus::UnknownError);
    } else if code == 14 {
        
    } else if code == 15 {
        lemma_status_text_round_trip(ErrorStatus::ElementNotSelectable);
    } else if code == 16 {
        
    } else if code == 17 {
        lemma_status_text_round_trip(ErrorStatus::JavascriptError);
    } else if code == 18 {
        
    } else if code == 19 {
        lemma_status_text_round_trip(ErrorStatus::InvalidSelector);
    } else if code == 20 {
        
    } else if code == 21 {
        lemma_status_text_round_trip(ErrorStatus::Timeout);
    } else if code == 22 {
        
    } else if code == 23 {
        lemma_status_text_round_trip(ErrorStatus::NoSuchWindow);
    } else if code == 24 {
        lemma_status_text_round_trip(ErrorStatus::InvalidCookieDomain);
    } else if code == 25 {
        lemma_status_text_round_trip(ErrorStatus::UnableToSetCookie);
    } else if code == 26 {
        lemma_status_text_round_trip(ErrorStatus::UnexpectedAlertOpen);
    } else if code == 27 {
        lemma_status_text_round_trip(ErrorStatus::NoSuchAlert);
    } else if code == 28 {
        lemma_status_text_round_trip(ErrorStatus::ScriptTimeout);
    } else if code == 29 {
        lemma_status_parse_read_back(ErrorStatus::UnknownError);
    } else if code == 30 {
        
    } else if code == 31 {
        
    } else if code == 32 {
        lemma_status_text_round_trip(ErrorStatus::InvalidSelector);
    } else if code == 33 {
        lemma_status_text_round_trip(ErrorStatus::SessionNotCreated);
    } else if code == 34 {
        lemma_status_text_round_trip(ErrorStatus::MoveTargetOutOfBounds);
    } else {
    }
}

/// The endpoints of the WebDriver standard's list of endpoints that address a session, in the
/// list's order: each command's name, its HTTP method, and the pieces of its path under
/// `session/{session id}/`, between which the command's arguments (an element's id, an
/// attribute's, property's or cookie's name) stand.
///
/// See [the list of endpoints](https://www.w3.org/TR/webdriver/#endpoints).
pub open spec fn webdriver_endpoint_table() -> Seq<(Seq<char>, Method, Seq<Seq<char>>)> {
    seq![
        ("Get Timeouts"@, Method::Get, seq!["timeouts"@]),
        ("Set Timeouts"@, Method::Post, seq!["timeouts"@]),
        ("Navigate To"@, Method::Post, seq!["url"@]),
        ("Get Current URL"@, Method::Get, seq!["url"@]),
        ("Back"@, Method::Post, seq!["back"@]),
        ("Forward"@, Method::Post, seq!["forward"@]),
        ("Refresh"@, Method::Post, seq!["refresh"@]),
        ("Get Title"@, Method::Get, seq!["title"@]),
        ("Get Window Handle"@, Method::Get, seq!["window"@]),
        ("Close Window"@, Method::Delete, seq!["window"@]),
        ("Switch To Window"@, Method::Post, seq!["window"@]),
        ("Get Window Handles"@, Method::Get, seq!["window/handles"@]),
        ("New Window"@, Method::Post, seq!["window/new"@]),
        ("Switch To Frame"@, Method::Post, seq!["frame"@]),
        ("Switch To Parent Frame"@, Method::Post, seq!["frame/parent"@]),
        ("Get Window Rect"@, Method::Get, seq!["window/rect"@]),
        ("Set Window Rect"@, Method::Post, seq!["window/rect"@]),
        ("Maximize Window"@, Method::Post, seq!["window/maximize"@]),
        ("Minimize Window"@, Method::Post, seq!["window/minimize"@]),
        ("Fullscreen Window"@, Method::Post, seq!["window/fullscreen"@]),
        ("Get Active Element"@, Method::Get, seq!["element/active"@]),
        ("Find Element"@, Method::Post, seq!["element"@]),
        ("Find Elements"@, Method::Post, seq!["elements"@]),
        ("Find Element From Element"@, Method::Post, seq!["element/"@, "/element"@]),
        ("Find Elements From Element"@, Method::Post, seq!["element/"@, "/elements"@]),
        ("Is Element Selected"@, Method::Get, seq!["element/"@, "/selected"@]),
        ("Get Element Attribute"@, Method::Get, seq!["element/"@, "/attribute/"@, ""@]),
        ("Get Element Property"@, Method::Get, seq!["element/"@, "/property/"@, ""@]),
        ("Get Element CSS Value"@, Method::Get, seq!["element/"@, "/css/"@, ""@]),
        ("Get Element Text"@, Method::Get, seq!["element/"@, "/text"@]),
        ("Get Element Tag Name"@, Method::Get, seq!["element/"@, "/name"@]),
        ("Get Element Rect"@, Method::Get, seq!["element/"@, "/rect"@]),
        ("Is Element Enabled"@, Method::Get, seq!["element/"@, "/enabled"@]),
        ("Element Click"@, Method::Post, seq!["element/"@, "/click"@]),
        ("Element Clear"@, Method::Post, seq!["element/"@, "/clear"@]),
        ("Element Send Keys"@, Method::Post, seq!["element/"@, "/value"@]),
        ("Get Page Source"@, Method::Get, seq!["source"@]),
        ("Execute Script"@, Method::Post, seq!["execute/sync"@]),
        ("Execute Async Script"@, Method::Post, seq!["execute/async"@]),
        ("Get All Cookies"@, Method::Get, seq!["cookie"@]),
        ("Get Named Cookie"@, Method::Get, seq!["cookie/"@, ""@]),
        ("Add Cookie"@, Method::Post, seq!["cookie"@]),
        ("Delete Cookie"@, Method::Delete, seq!["cookie/"@, ""@]),
        ("Delete All Cookies"@, Method::Delete, seq!["cookie"@]),
        ("Perform Actions"@, Method::Post, seq!["actions"@]),
        ("Release Actions"@, Method::Delete, seq!["actions"@]),
        ("Dismiss Alert"@, Method::Post, seq!["alert/dismiss"@]),
        ("Accept Alert"@, Method::Post, seq!["alert/accept"@]),
        ("Get Alert Text"@, Method::Get, seq!["alert/text"@]),
        ("Send Alert Text"@, Method::Post, seq!["alert/text"@]),
        ("Take Screenshot"@, Method::Get, seq!["screenshot"@]),
        ("Take Element Screenshot"@, Method::Get, seq!["element/"@, "/screenshot"@]),
        ("Print Page"@, Method::Post, seq!["print"@]),
        ("Is Element Displayed"@, Method::Get, seq!["element/"@, "/displayed"@]),
    ]
}

/// The name that the WebDriver standard gives a command.
pub open spec fn webdriver_command_name(c: WebDriverCommand) -> Seq<char> {
    match c {
        WebDriverCommand::NewSession(..) => "New Session"@,
        WebDriverCommand::Status => "Status"@,
        WebDriverCommand::GetTimeouts => "Get Timeouts"@,
        WebDriverCommand::SetTimeouts(..) => "Set Timeouts"@,
        WebDriverCommand::Get(..) => "Navigate To"@,
        WebDriverCommand::GetCurrentUrl => "Get Current URL"@,
        WebDriverCommand::GoBack => "Back"@,
        WebDriverCommand::GoForward => "Forward"@,
        WebDriverCommand::Refresh => "Refresh"@,
        WebDriverCommand::GetTitle => "Get Title"@,
        WebDriverCommand::GetWindowHandle => "Get Window Handle"@,
        WebDriverCommand::CloseWindow => "Close Window"@,
        WebDriverCommand::SwitchToWindow(..) => "Switch To Window"@,
        WebDriverCommand::GetWindowHandles => "Get Window Handles"@,
        WebDriverCommand::NewWindow(..) => "New Window"@,
        WebDriverCommand::SwitchToFrame(..) => "Switch To Frame"@,
        WebDriverCommand::SwitchToParentFrame => "Switch To Parent Frame"@,
        WebDriverCommand::GetWindowRect => "Get Window Rect"@,
        WebDriverCommand::SetWindowRect(..) => "Set Window Rect"@,
        WebDriverCommand::MaximizeWindow => "Maximize Window"@,
        WebDriverCommand::MinimizeWindow => "Minimize Window"@,
        WebDriverCommand::FullscreenWindow => "Fullscreen Window"@,
        WebDriverCommand::GetActiveElement => "Get Active Element"@,
        WebDriverCommand::FindElement(..) => "Find Element"@,
        WebDriverCommand::FindElements(..) => "Find Elements"@,
        WebDriverCommand::FindElementElement(..) => "Find Element From Element"@,
        WebDriverCommand::FindElementElements(..) => "Find Elements From Element"@,
        WebDriverCommand::IsSelected(..) => "Is Element Selected"@,
        WebDriverCommand::GetElementAttribute(..) => "Get Element Attribute"@,
        WebDriverCommand::GetElementProperty(..) => "Get Element Property"@,
        WebDriverCommand::GetCSSValue(..) => "Get Element CSS Value"@,
        WebDriverCommand::GetElementText(..) => "Get Element Text"@,
        WebDriverCommand::GetElementTagName(..) => "Get Element Tag Name"@,
        WebDriverCommand::GetElementRect(..) => "Get Element Rect"@,
        WebDriverCommand::IsEnabled(..) => "Is Element Enabled"@,
        WebDriverCommand::ElementClick(..) => "Element Click"@,
        WebDriverCommand::ElementClear(..) => "Element Clear"@,
        WebDriverCommand::ElementSendKeys(..) => "Element Send Keys"@,
        WebDriverCommand::GetPageSource => "Get Page Source"@,
        WebDriverCommand::ExecuteScript(..) => "Execute Script"@,
        WebDriverCommand::ExecuteAsyncScript(..) => "Execute Async Script"@,
        WebDriverCommand::GetCookies => "Get All Cookies"@,
        WebDriverCommand::GetNamedCookie(..) => "Get Named Cookie"@,
        WebDriverCommand::AddCookie(..) => "Add Cookie"@,
        WebDriverCommand::DeleteCookie(..) => "Delete Cookie"@,
        WebDriverCommand::DeleteCookies => "Delete All Cookies"@,
        WebDriverCommand::PerformActions(..) => "Perform Actions"@,
        WebDriverCommand::ReleaseActions => "Release Actions"@,
        WebDriverCommand::DismissAlert => "Dismiss Alert"@,
        WebDriverCommand::AcceptAlert => "Accept Alert"@,
        WebDriverCommand::GetAlertText => "Get Alert Text"@,
        WebDriverCommand::SendAlertText(..) => "Send Alert Text"@,
        WebDriverCommand::TakeScreenshot => "Take Screenshot"@,
        WebDriverCommand::TakeElementScreenshot(..) => "Take Element Screenshot"@,
        WebDriverCommand::Print(..) => "Print Page"@,
        WebDriverCommand::IsDisplayed(..) => "Is Element Displayed"@,
    }
}

/// The arguments that stand in a command's path, in order.
pub open spec fn path_arguments(c: WebDriverCommand) -> Seq<Seq<char>> {
    match c {
        WebDriverCommand::FindElementElement(e, _) => seq![e@],
        WebDriverCommand::FindElementElements(e, _) => seq![e@],
        WebDriverCommand::IsSelected(e) => seq![e@],
        WebDriverCommand::GetElementAttribute(e, n) => seq![e@, n@],
        WebDriverCommand::GetElementProperty(e, n) => seq![e@, n@],
        WebDriverCommand::GetCSSValue(e, n) => seq![e@, n@],
        WebDriverCommand::GetElementText(e) => seq![e@],
        WebDriverCommand::GetElementTagName(e) => seq![e@],
        WebDriverCommand::GetElementRect(e) => seq![e@],
        WebDriverCommand::IsEnabled(e) => seq![e@],
        WebDriverCommand::ElementClick(e) => seq![e@],
        WebDriverCommand::ElementClear(e) => seq![e@],
        WebDriverCommand::ElementSendKeys(e, _) => seq![e@],
        WebDriverCommand::GetNamedCookie(n) => seq![n@],
        WebDriverCommand::DeleteCookie(n) => seq![n@],
        WebDriverCommand::TakeElementScreenshot(e) => seq![e@],
        WebDriverCommand::IsDisplayed(e) => seq![e@],
        _ => Seq::empty(),
    }
}

/// The path made of `pieces` with the `args` between them.
pub open spec fn fill_path(pieces: Seq<Seq<char>>, args: Seq<Seq<char>>) -> Seq<char>
    decreases pieces.len(),
{
    if pieces.len() <= 1 {
        if pieces.len() == 1 {
            pieces[0]
        } else {
            Seq::empty()
        }
    } else {
        fill_path(pieces.drop_last(), args.drop_last()) + args.last() + pieces.last()
    }
}

/// The endpoint `row` of the standard's list is the one of the command `c`: it bears the
/// command's name, and the command is sent with its method to its path.
pub open spec fn endpoint_row_matches(row: (Seq<char>, Method, Seq<Seq<char>>), c: WebDriverCommand) -> bool {
    &&& row.0 == webdriver_command_name(c)
    &&& row.1 == command_method(c)
    &&& session_path(c) == fill_path(row.2, path_arguments(c))
}

/// A path of two pieces with an argument between them.
proof fn lemma_fill_two(a: Seq<char>, b: Seq<char>, x: Seq<char>)
    ensures
        fill_path(seq![a, b], seq![x]) == a + x + b,
{
    reveal_with_fuel(fill_path, 2);
    assert(seq![a, b].drop_last() =~= seq![a]);
    assert(seq![x].drop_last() =~= Seq::<Seq<char>>::empty());
}

/// A path of three pieces with two arguments between them.
proof fn lemma_fill_three(a: Seq<char>, b: Seq<char>, c: Seq<char>, x: Seq<char>, y: Seq<char>)
    ensures
        fill_path(seq![a, b, c], seq![x, y]) == a + x + b + y + c,
{
    reveal_with_fuel(fill_path, 3);
    assert(seq![a, b, c].drop_last() =~= seq![a, b]);
    assert(seq![x, y].drop_last() =~= seq![x]);
    assert(seq![a, b].drop_last() =~= seq![a]);
    assert(seq![x].drop_last() =~= Seq::<Seq<char>>::empty());
}

/// Each command of a session goes to the endpoint that the WebDriver standard's list of
/// endpoints gives it under the command's name: the same HTTP method, and the same path with
/// the command's arguments in it. New Session and Status, which address no session, go to
/// `POST session` and `GET status`.
pub proof fn lemma_endpoints_follow_the_standard(c: WebDriverCommand, id: Seq<char>)
    ensures
        in_session(c) ==> exists|i: int|
            0 <= i < webdriver_endpoint_table().len() && #[trigger] endpoint_row_matches(
                webdriver_endpoint_table()[i],
                c,
            ),
        c is NewSession ==> command_method(c) == Method::Post && endpoint_path(c, id) == "session"@,
        c is Status ==> command_method(c) == Method::Get && endpoint_path(c, id) == "status"@,
{
    let t = webdriver_endpoint_table();
    reveal_with_fuel(fill_path, 4);
    match c {
        WebDriverCommand::NewSession(..) | WebDriverCommand::Status => {},
        WebDriverCommand::GetTimeouts => {
            assert(endpoint_row_matches(t[0], c));
        },
        WebDriverCommand::SetTimeouts(..) => {
            assert(endpoint_row_matches(t[1], c));
        },
        WebDriverCommand::Get(..) => {
            assert(endpoint_row_matches(t[2], c));
        },
        WebDriverCommand::GetCurrentUrl => {
            assert(endpoint_row_matches(t[3], c));
        },
        WebDriverCommand::GoBack => {
            assert(endpoint_row_matches(t[4], c));
        },
        WebDriverCommand::GoForward => {
            assert(endpoint_row_matches(t[5], c));
        },
        WebDriverCommand::Refresh => {
            assert(endpoint_row_matches(t[6], c));
        },
        WebDriverCommand::GetTitle => {
            assert(endpoint_row_matches(t[7], c));
        },
        WebDriverCommand::GetWindowHandle => {
            assert(endpoint_row_matches(t[8], c));
        },
        WebDriverCommand::CloseWindow => {
            assert(endpoint_row_matches(t[9], c));
        },
        WebDriverCommand::SwitchToWindow(..) => {
            assert(endpoint_row_matches(t[10], c));
        },
        WebDriverCommand::GetWindowHandles => {
            assert(endpoint_row_matches(t[11], c));
        },
        WebDriverCommand::NewWindow(..) => {
            assert(endpoint_row_matches(t[12], c));
        },
        WebDriverCommand::SwitchToFrame(..) => {
            assert(endpoint_row_matches(t[13], c));
        },
        WebDriverCommand::SwitchToParentFrame => {
            assert(endpoint_row_matches(t[14], c));
        },
        WebDriverCommand::GetWindowRect => {
            assert(endpoint_row_matches(t[15], c));
        },
        WebDriverCommand::SetWindowRect(..) => {
            assert(endpoint_row_matches(t[16], c));
        },
        WebDriverCommand::MaximizeWindow => {
            assert(endpoint_row_matches(t[17], c));
        },
        WebDriverCommand::MinimizeWindow => {
            assert(endpoint_row_matches(t[18], c));
        },
        WebDriverCommand::FullscreenWindow => {
            assert(endpoint_row_matches(t[19], c));
        },
        WebDriverCommand::GetActiveElement => {
            assert(endpoint_row_matches(t[20], c));
        },
        WebDriverCommand::FindElement(..) => {
            assert(endpoint_row_matches(t[21], c));
        },
        WebDriverCommand::FindElements(..) => {
            assert(endpoint_row_matches(t[22], c));
        },
        WebDriverCommand::FindElementElement(..) => {
            reveal_strlit("");
            lemma_fill_two(t[23].2[0], t[23].2[1], path_arguments(c)[0]);
            assert(t[23].2 =~= seq![t[23].2[0], t[23].2[1]]);
            assert(path_arguments(c) =~= seq![path_arguments(c)[0]]);
            assert(fill_path(t[23].2, path_arguments(c)) =~= session_path(c));
            assert(endpoint_row_matches(t[23], c));
        },
        WebDriverCommand::FindElementElements(..) => {
            reveal_strlit("");
            lemma_fill_two(t[24].2[0], t[24].2[1], path_arguments(c)[0]);
            assert(t[24].2 =~= seq![t[24].2[0], t[24].2[1]]);
            assert(path_arguments(c) =~= seq![path_arguments(c)[0]]);
            assert(fill_path(t[24].2, path_arguments(c)) =~= session_path(c));
            assert(endpoint_row_matches(t[24], c));
        },
        WebDriverCommand::IsSelected(..) => {
            reveal_strlit("");
            lemma_fill_two(t[25].2[0], t[25].2[1], path_arguments(c)[0]);
            assert(t[25].2 =~= seq![t[25].2[0], t[25].2[1]]);
            assert(path_arguments(c) =~= seq![path_arguments(c)[0]]);
            assert(fill_path(t[25].2, path_arguments(c)) =~= session_path(c));
            assert(endpoint_row_matches(t[25], c));
        },
        WebDriverCommand::GetElementAttribute(..) => {
            reveal_strlit("");
            lemma_fill_three(t[26].2[0], t[26].2[1], t[26].2[2], path_arguments(c)[0], path_arguments(c)[1]);
            assert(t[26].2 =~= seq![t[26].2[0], t[26].2[1], t[26].2[2]]);
            assert(path_arguments(c) =~= seq![path_arguments(c)[0], path_arguments(c)[1]]);
            assert(fill_path(t[26].2, path_arguments(c)) =~= session_path(c));
            assert(endpoint_row_matches(t[26], c));
        },
        WebDriverCommand::GetElementProperty(..) => {
            reveal_strlit("");
            lemma_fill_three(t[27].2[0], t[27].2[1], t[27].2[2], path_arguments(c)[0], path_arguments(c)[1]);
            assert(t[27].2 =~= seq![t[27].2[0], t[27].2[1], t[27].2[2]]);
            assert(path_arguments(c) =~= seq![path_arguments(c)[0], path_arguments(c)[1]]);
            assert(fill_path(t[27].2, path_arguments(c)) =~= session_path(c));
            assert(endpoint_row_matches(t[27], c));
        },
        WebDriverCommand::GetCSSValue(..) => {
            reveal_strlit("");
            lemma_fill_three(t[28].2[0], t[28].2[1], t[28].2[2], path_arguments(c)[0], path_arguments(c)[1]);
            assert(t[28].2 =~= seq![t[28].2[0], t[28].2[1], t[28].2[2]]);
            assert(path_arguments(c) =~= seq![path_arguments(c)[0], path_arguments(c)[1]]);
            assert(fill_path(t[28].2, path_arguments(c)) =~= session_path(c));
            assert(endpoint_row_matches(t[28], c));
        },
        WebDriverCommand::GetElementText(..) => {
            reveal_strlit("");
            lemma_fill_two(t[29].2[0], t[29].2[1], path_arguments(c)[0]);
            assert(t[29].2 =~= seq![t[29].2[0], t[29].2[1]]);
            assert(path_arguments(c) =~= seq![path_arguments(c)[0]]);
            assert(fill_path(t[29].2, path_arguments(c)) =~= session_path(c));
            assert(endpoint_row_matches(t[29], c));
        },
        WebDriverCommand::GetElementTagName(..) => {
            reveal_strlit("");
            lemma_fill_two(t[30].2[0], t[30].2[1], path_arguments(c)[0]);
            assert(t[30].2 =~= seq![t[30].2[0], t[30].2[1]]);
            assert(path_arguments(c) =~= seq![path_arguments(c)[0]]);
            assert(fill_path(t[30].2, path_arguments(c)) =~= session_path(c));
            assert(endpoint_row_matches(t[30], c));
        },
        WebDriverCommand::GetElementRect(..) => {
            reveal_strlit("");
            lemma_fill_two(t[31].2[0], t[31].2[1], path_arguments(c)[0]);
            assert(t[31].2 =~= seq![t[31].2[0], t[31].2[1]]);
            assert(path_arguments(c) =~= seq![path_arguments(c)[0]]);
            assert(fill_path(t[31].2, path_arguments(c)) =~= session_path(c));
            assert(endpoint_row_matches(t[31], c));
        },
        WebDriverCommand::IsEnabled(..) => {
            reveal_strlit("");
            lemma_fill_two(t[32].2[0], t[32].2[1], path_arguments(c)[0]);
            assert(t[32].2 =~= seq![t[32].2[0], t[32].2[1]]);
            assert(path_arguments(c) =~= seq![path_arguments(c)[0]]);
            assert(fill_path(t[32].2, path_arguments(c)) =~= session_path(c));
            assert(endpoint_row_matches(t[32], c));
        },
        WebDriverCommand::ElementClick(..) => {
            reveal_strlit("");
            lemma_fill_two(t[33].2[0], t[33].2[1], path_arguments(c)[0]);
            assert(t[33].2 =~= seq![t[33].2[0], t[33].2[1]]);
            assert(path_arguments(c) =~= seq![path_arguments(c)[0]]);
            assert(fill_path(t[33].2, path_arguments(c)) =~= session_path(c));
            assert(endpoint_row_matches(t[33], c));
        },
        WebDriverCommand::ElementClear(..) => {
            reveal_strlit("");
            lemma_fill_two(t[34].2[0], t[34].2[1], path_arguments(c)[0]);
            assert(t[34].2 =~= seq![t[34].2[0], t[34].2[1]]);
            assert(path_arguments(c) =~= seq![path_arguments(c)[0]]);
            assert(fill_path(t[34].2, path_arguments(c)) =~= session_path(c));
            assert(endpoint_row_matches(t[34], c));
        },
        WebDriverCommand::ElementSendKeys(..) => {
            reveal_strlit("");
            lemma_fill_two(t[35].2[0], t[35].2[1], path_arguments(c)[0]);
            assert(t[35].2 =~= seq![t[35].2[0], t[35].2[1]]);
            assert(path_arguments(c) =~= seq![path_arguments(c)[0]]);
            assert(fill_path(t[35].2, path_arguments(c)) =~= session_path(c));
            assert(endpoint_row_matches(t[35], c));
        },
        WebDriverCommand::GetPageSource => {
            assert(endpoint_row_matches(t[36], c));
        },
        WebDriverCommand::ExecuteScript(..) => {
            assert(endpoint_row_matches(t[37], c));
        },
        WebDriverCommand::ExecuteAsyncScript(..) => {
            assert(endpoint_row_matches(t[38], c));
        },
        WebDriverCommand::GetCookies => {
            assert(endpoint_row_matches(t[39], c));
        },
        WebDriverCommand::GetNamedCookie(..) => {
            reveal_strlit("");
            lemma_fill_two(t[40].2[0], t[40].2[1], path_arguments(c)[0]);
            assert(t[40].2 =~= seq![t[40].2[0], t[40].2[1]]);
            assert(path_arguments(c) =~= seq![path_arguments(c)[0]]);
            assert(fill_path(t[40].2, path_arguments(c)) =~= session_path(c));
            assert(endpoint_row_matches(t[40], c));
        },
        WebDriverCommand::AddCookie(..) => {
            assert(endpoint_row_matches(t[41], c));
        },
        WebDriverCommand::DeleteCookie(..) => {
            reveal_strlit("");
            lemma_fill_two(t[42].2[0], t[42].2[1], path_arguments(c)[0]);
            assert(t[42].2 =~= seq![t[42].2[0], t[42].2[1]]);
            assert(path_arguments(c) =~= seq![path_arguments(c)[0]]);
            assert(fill_path(t[42].2, path_arguments(c)) =~= session_path(c));
            assert(endpoint_row_matches(t[42], c));
        },
        WebDriverCommand::DeleteCookies => {
            assert(endpoint_row_matches(t[43], c));
        },
        WebDriverCommand::PerformActions(..) => {
            assert(endpoint_row_matches(t[44], c));
        },
        WebDriverCommand::ReleaseActions => {
            assert(endpoint_row_matches(t[45], c));
        },
        WebDriverCommand::DismissAlert => {
            assert(endpoint_row_matches(t[46], c));
        },
        WebDriverCommand::AcceptAlert => {
            assert(endpoint_row_matches(t[47], c));
        },
        WebDriverCommand::GetAlertText => {
            assert(endpoint_row_matches(t[48], c));
        },
        WebDriverCommand::SendAlertText(..) => {
            assert(endpoint_row_matches(t[49], c));
        },
        WebDriverCommand::TakeScreenshot => {
            assert(endpoint_row_matches(t[50], c));
        },
        WebDriverCommand::TakeElementScreenshot(..) => {
            reveal_strlit("");
            lemma_fill_two(t[51].2[0], t[51].2[1], path_arguments(c)[0]);
            assert(t[51].2 =~= seq![t[51].2[0], t[51].2[1]]);
            assert(path_arguments(c) =~= seq![path_arguments(c)[0]]);
            assert(fill_path(t[51].2, path_arguments(c)) =~= session_path(c));
            assert(endpoint_row_matches(t[51], c));
        },
        WebDriverCommand::Print(..) => {
            assert(endpoint_row_matches(t[52], c));
        },
        WebDriverCommand::IsDisplayed(..) => {
            reveal_strlit("");
            lemma_fill_two(t[53].2[0], t[53].2[1], path_arguments(c)[0]);
            assert(t[53].2 =~= seq![t[53].2[0], t[53].2[1]]);
            assert(path_arguments(c) =~= seq![path_arguments(c)[0]]);
            assert(fill_path(t[53].2, path_arguments(c)) =~= session_path(c));
            assert(endpoint_row_matches(t[53], c));
        },
    }
}

/// Each device's actions become an input source of that device, as the WebDriver standard's
/// input sources are typed: a pen's actions a pointer source of type `"pen"`, a mouse's of
/// type `"mouse"`, a touch device's of type `"touch"`, a keyboard's a key source and the rest a
/// null source, each with the same identifier and the same actions in the same order.
pub proof fn lemma_sequences_keep_their_device(
    p: PenActions,
    m: MouseActions,
    t: TouchActions,
    k: KeyActions,
    n: NullActions,
)
    ensures
        <ActionSequence as FromSpec<PenActions>>::from_spec(p) matches ActionSequence::Pointer {
            id,
            pointer_type,
            actions,
        } && id@ == p.name() && actions@ == p.items() && pointer_type == PointerType::Pen
            && pointer_type_text(pointer_type) == "pen"@,
        <ActionSequence as FromSpec<MouseActions>>::from_spec(m) matches ActionSequence::Pointer {
            id,
            pointer_type,
            actions,
        } && id@ == m.name() && actions@ == m.items() && pointer_type == PointerType::Mouse
            && pointer_type_text(pointer_type) == "mouse"@,
        <ActionSequence as FromSpec<TouchActions>>::from_spec(t) matches ActionSequence::Pointer {
            id,
            pointer_type,
            actions,
        } && id@ == t.name() && actions@ == t.items() && pointer_type == PointerType::Touch
            && pointer_type_text(pointer_type) == "touch"@,
        <ActionSequence as FromSpec<KeyActions>>::from_spec(k) matches ActionSequence::Key {
            id,
            actions,
        } && id@ == k.name() && actions@ == k.items(),
        <ActionSequence as FromSpec<NullActions>>::from_spec(n) matches ActionSequence::Null {
            id,
            actions,
        } && id@ == n.name() && actions@ == n.items(),
{
}

/// The WebDriver standard's table of errors, in its order: each error, its error code, and the
/// HTTP status that a WebDriver answers it with. After the standard's rows come the error codes that older
/// drafts named (`element not selectable`, `invalid coordinates`, `unknown path`). `unable to
/// capture screen` is answered with 400, as the `webdriver` crate that this library follows
/// answers it.
///
/// See [6.6 Errors](https://www.w3.org/TR/webdriver/#errors).
pub open spec fn webdriver_error_table() -> Seq<(ErrorStatus, Seq<char>, u16)> {
    seq![
        (ErrorStatus::ElementClickIntercepted, "element click intercepted"@, 400u16),
        (ErrorStatus::ElementNotInteractable, "element not interactable"@, 400u16),
        (ErrorStatus::InsecureCertificate, "insecure certificate"@, 400u16),
        (ErrorStatus::InvalidArgument, "invalid argument"@, 400u16),
        (ErrorStatus::InvalidCookieDomain, "invalid cookie domain"@, 400u16),
        (ErrorStatus::InvalidElementState, "invalid element state"@, 400u16),
        (ErrorStatus::InvalidSelector, "invalid selector"@, 400u16),
        (ErrorStatus::InvalidSessionId, "invalid session id"@, 404u16),
        (ErrorStatus::JavascriptError, "javascript error"@, 500u16),
        (ErrorStatus::MoveTargetOutOfBounds, "move target out of bounds"@, 500u16),
        (ErrorStatus::NoSuchAlert, "no such alert"@, 404u16),
        (ErrorStatus::NoSuchCookie, "no such cookie"@, 404u16),
        (ErrorStatus::NoSuchElement, "no such element"@, 404u16),
        (ErrorStatus::NoSuchFrame, "no such frame"@, 404u16),
        (ErrorStatus::NoSuchWindow, "no such window"@, 404u16),
        (ErrorStatus::NoSuchShadowRoot, "no such shadow root"@, 404u16),
        (ErrorStatus::ScriptTimeout, "script timeout"@, 500u16),
        (ErrorStatus::SessionNotCreated, "session not created"@, 500u16),
        (ErrorStatus::StaleElementReference, "stale element reference"@, 404u16),
        (ErrorStatus::DetachedShadowRoot, "detached shadow root"@, 404u16),
        (ErrorStatus::Timeout, "timeout"@, 500u16),
        (ErrorStatus::UnableToSetCookie, "unable to set cookie"@, 500u16),
        (ErrorStatus::UnableToCaptureScreen, "unable to capture screen"@, 400u16),
        (ErrorStatus::UnexpectedAlertOpen, "unexpected alert open"@, 500u16),
        (ErrorStatus::UnknownCommand, "unknown command"@, 404u16),
        (ErrorStatus::UnknownError, "unknown error"@, 500u16),
        (ErrorStatus::UnknownMethod, "unknown method"@, 405u16),
        (ErrorStatus::UnsupportedOperation, "unsupported operation"@, 500u16),
        (ErrorStatus::ElementNotSelectable, "element not selectable"@, 400u16),
        (ErrorStatus::InvalidCoordinates, "invalid coordinates"@, 400u16),
        (ErrorStatus::UnknownPath, "unknown path"@, 404u16),
    ]
}

/// The row `row` of the table of errors is the one of the status `e`: it is the status's row,
/// and the status is written as the row's error code and answered with its HTTP status.
pub open spec fn error_row_matches(row: (ErrorStatus, Seq<char>, u16), e: ErrorStatus) -> bool {
    row.0 == e && row.1 == status_text(e) && row.2 == status_http_code(e)
}

/// Each error status is written as the error code that the WebDriver standard's table of errors
/// lists, and is answered with the HTTP status of that row.
pub proof fn lemma_errors_follow_the_standard(e: ErrorStatus)
    ensures
        exists|i: int|
            0 <= i < webdriver_error_table().len() && #[trigger] error_row_matches(
                webdriver_error_table()[i],
                e,
            ),
{
    let t = webdriver_error_table();
    match e {
        ErrorStatus::ElementClickIntercepted => {
            assert(error_row_matches(t[0], e));
        },
        ErrorStatus::ElementNotInteractable => {
            assert(error_row_matches(t[1], e));
        },
        ErrorStatus::InsecureCertificate => {
            assert(error_row_matches(t[2], e));
        },
        ErrorStatus::InvalidArgument => {
            assert(error_row_matches(t[3], e));
        },
        ErrorStatus::InvalidCookieDomain => {
            assert(error_row_matches(t[4], e));
        },
        ErrorStatus::InvalidElementState => {
            assert(error_row_matches(t[5], e));
        },
        ErrorStatus::InvalidSelector => {
            assert(error_row_matches(t[6], e));
        },
        ErrorStatus::InvalidSessionId => {
            assert(error_row_matches(t[7], e));
        },
        ErrorStatus::JavascriptError => {
            assert(error_row_matches(t[8], e));
        },
        ErrorStatus::MoveTargetOutOfBounds => {
            assert(error_row_matches(t[9], e));
        },
        ErrorStatus::NoSuchAlert => {
            assert(error_row_matches(t[10], e));
        },
        ErrorStatus::NoSuchCookie => {
            assert(error_row_matches(t[11], e));
        },
        ErrorStatus::NoSuchElement => {
            assert(error_row_matches(t[12], e));
        },
        ErrorStatus::NoSuchFrame => {
            assert(error_row_matches(t[13], e));
        },
        ErrorStatus::NoSuchWindow => {
            assert(error_row_matches(t[14], e));
        },
        ErrorStatus::NoSuchShadowRoot => {
            assert(error_row_matches(t[15], e));
        },
        ErrorStatus::ScriptTimeout => {
            assert(error_row_matches(t[16], e));
        },
        ErrorStatus::SessionNotCreated => {
            assert(error_row_matches(t[17], e));
        },
        ErrorStatus::StaleElementReference => {
            assert(error_row_matches(t[18], e));
        },
        ErrorStatus::DetachedShadowRoot => {
            assert(error_row_matches(t[19], e));
        },
        ErrorStatus::Timeout => {
            assert(error_row_matches(t[20], e));
        },
        ErrorStatus::UnableToSetCookie => {
            assert(error_row_matches(t[21], e));
        },
        ErrorStatus::UnableToCaptureScreen => {
            assert(error_row_matches(t[22], e));
        },
        ErrorStatus::UnexpectedAlertOpen => {
            assert(error_row_matches(t[23], e));
        },
        ErrorStatus::UnknownCommand => {
            assert(error_row_matches(t[24], e));
        },
        ErrorStatus::UnknownError => {
            assert(error_row_matches(t[25], e));
        },
        ErrorStatus::UnknownMethod => {
            assert(error_row_matches(t[26], e));
        },
        ErrorStatus::UnsupportedOperation => {
            assert(error_row_matches(t[27], e));
        },
        ErrorStatus::ElementNotSelectable => {
            assert(error_row_matches(t[28], e));
        },
        ErrorStatus::InvalidCoordinates => {
            assert(error_row_matches(t[29], e));
        },
        ErrorStatus::UnknownPath => {
            assert(error_row_matches(t[30], e));
        },
    }
}

} // verus!
