//! Error types.
use crate::json::Json;
use crate::text::str_eq;
use vstd::prelude::*;

verus! {

/// The error code returned from the WebDriver.
#[derive(Debug, Clone, Copy, PartialEq, Eq, Hash, Structural)]
#[non_exhaustive]
pub enum ErrorStatus {
    /// The remote end reported "detached shadow root".
    DetachedShadowRoot,
    /// The remote end reported "element click intercepted".
    ElementClickIntercepted,
    /// The remote end reported "element not interactable".
    ElementNotInteractable,
    /// The remote end reported "element not selectable".
    ElementNotSelectable,
    /// The remote end reported "insecure certificate".
    InsecureCertificate,
    /// The remote end reported "invalid argument".
    InvalidArgument,
    /// The remote end reported "invalid cookie domain".
    InvalidCookieDomain,
    /// The remote end reported "invalid coordinates".
    InvalidCoordinates,
    /// The remote end reported "invalid element state".
    InvalidElementState,
    /// The remote end reported "invalid selector".
    InvalidSelector,
    /// The remote end reported "invalid session id".
    InvalidSessionId,
    /// The remote end reported "javascript error".
    JavascriptError,
    /// The remote end reported "move target out of bounds".
    MoveTargetOutOfBounds,
    /// The remote end reported "no such alert".
    NoSuchAlert,
    /// The remote end reported "no such cookie".
    NoSuchCookie,
    /// The remote end reported "no such element".
    NoSuchElement,
    /// The remote end reported "no such frame".
    NoSuchFrame,
    /// The remote end reported "no such shadow root".
    NoSuchShadowRoot,
    /// The remote end reported "no such window".
    NoSuchWindow,
    /// The remote end reported "script timeout".
    ScriptTimeout,
    /// The remote end reported "session not created".
    SessionNotCreated,
    /// The remote end reported "stale element reference".
    StaleElementReference,
    /// The remote end reported "timeout".
    Timeout,
    /// The remote end reported "unable to capture screen".
    UnableToCaptureScreen,
    /// The remote end reported "unable to set cookie".
    UnableToSetCookie,
    /// The remote end reported "unexpected alert open".
    UnexpectedAlertOpen,
    /// The remote end reported "unknown command".
    UnknownCommand,
    /// The remote end reported "unknown error".
    UnknownError,
    /// The remote end reported "unknown method".
    UnknownMethod,
    /// The remote end reported "unknown path".
    UnknownPath,
    /// The remote end reported "unsupported operation".
    UnsupportedOperation,
}

/// The error string that names `e` on the wire.
pub open spec fn status_text(e: ErrorStatus) -> Seq<char> {
    match e {
        ErrorStatus::DetachedShadowRoot => "detached shadow root"@,
        ErrorStatus::ElementClickIntercepted => "element click intercepted"@,
        ErrorStatus::ElementNotInteractable => "element not interactable"@,
        ErrorStatus::ElementNotSelectable => "element not selectable"@,
        ErrorStatus::InsecureCertificate => "insecure certificate"@,
        ErrorStatus::InvalidArgument => "invalid argument"@,
        ErrorStatus::InvalidCookieDomain => "invalid cookie domain"@,
        ErrorStatus::InvalidCoordinates => "invalid coordinates"@,
        ErrorStatus::InvalidElementState => "invalid element state"@,
        ErrorStatus::InvalidSelector => "invalid selector"@,
        ErrorStatus::InvalidSessionId => "invalid session id"@,
        ErrorStatus::JavascriptError => "javascript error"@,
        ErrorStatus::MoveTargetOutOfBounds => "move target out of bounds"@,
        ErrorStatus::NoSuchAlert => "no such alert"@,
        ErrorStatus::NoSuchCookie => "no such cookie"@,
        ErrorStatus::NoSuchElement => "no such element"@,
        ErrorStatus::NoSuchFrame => "no such frame"@,
        ErrorStatus::NoSuchShadowRoot => "no such shadow root"@,
        ErrorStatus::NoSuchWindow => "no such window"@,
        ErrorStatus::ScriptTimeout => "script timeout"@,
        ErrorStatus::SessionNotCreated => "session not created"@,
        ErrorStatus::StaleElementReference => "stale element reference"@,
        ErrorStatus::Timeout => "timeout"@,
        ErrorStatus::UnableToCaptureScreen => "unable to capture screen"@,
        ErrorStatus::UnableToSetCookie => "unable to set cookie"@,
        ErrorStatus::UnexpectedAlertOpen => "unexpected alert open"@,
        ErrorStatus::UnknownCommand => "unknown command"@,
        ErrorStatus::UnknownError => "unknown error"@,
        ErrorStatus::UnknownMethod => "unknown method"@,
        ErrorStatus::UnknownPath => "unknown path"@,
        ErrorStatus::UnsupportedOperation => "unsupported operation"@,
    }
}

/// The error status that the wire string `s` names, if any.
pub open spec fn status_from_text(s: Seq<char>) -> Option<ErrorStatus> {
    if s == "detached shadow root"@ {
        Some(ErrorStatus::DetachedShadowRoot)
    } else if s == "element click intercepted"@ {
        Some(ErrorStatus::ElementClickIntercepted)
    } else if s == "element not interactable"@ || s == "element not visible"@ {
        Some(ErrorStatus::ElementNotInteractable)
    } else if s == "element not selectable"@ {
        Some(ErrorStatus::ElementNotSelectable)
    } else if s == "insecure certificate"@ {
        Some(ErrorStatus::InsecureCertificate)
    } else if s == "invalid argument"@ {
        Some(ErrorStatus::InvalidArgument)
    } else if s == "invalid cookie domain"@ {
        Some(ErrorStatus::InvalidCookieDomain)
    } else if s == "invalid coordinates"@ || s == "invalid element coordinates"@ {
        Some(ErrorStatus::InvalidCoordinates)
    } else if s == "invalid element state"@ {
        Some(ErrorStatus::InvalidElementState)
    } else if s == "invalid selector"@ {
        Some(ErrorStatus::InvalidSelector)
    } else if s == "invalid session id"@ {
        Some(ErrorStatus::InvalidSessionId)
    } else if s == "javascript error"@ {
        Some(ErrorStatus::JavascriptError)
    } else if s == "move target out of bounds"@ {
        Some(ErrorStatus::MoveTargetOutOfBounds)
    } else if s == "no such alert"@ {
        Some(ErrorStatus::NoSuchAlert)
    } else if s == "no such cookie"@ {
        Some(ErrorStatus::NoSuchCookie)
    } else if s == "no such element"@ {
        Some(ErrorStatus::NoSuchElement)
    } else if s == "no such frame"@ {
        Some(ErrorStatus::NoSuchFrame)
    } else if s == "no such shadow root"@ {
        Some(ErrorStatus::NoSuchShadowRoot)
    } else if s == "no such window"@ {
        Some(ErrorStatus::NoSuchWindow)
    } else if s == "script timeout"@ {
        Some(ErrorStatus::ScriptTimeout)
    } else if s == "session not created"@ {
        Some(ErrorStatus::SessionNotCreated)
    } else if s == "stale element reference"@ {
        Some(ErrorStatus::StaleElementReference)
    } else if s == "timeout"@ {
        Some(ErrorStatus::Timeout)
    } else if s == "unable to capture screen"@ {
        Some(ErrorStatus::UnableToCaptureScreen)
    } else if s == "unable to set cookie"@ {
        Some(ErrorStatus::UnableToSetCookie)
    } else if s == "unexpected alert open"@ {
        Some(ErrorStatus::UnexpectedAlertOpen)
    } else if s == "unknown command"@ {
        Some(ErrorStatus::UnknownCommand)
    } else if s == "unknown error"@ {
        Some(ErrorStatus::UnknownError)
    } else if s == "unknown method"@ {
        Some(ErrorStatus::UnknownMethod)
    } else if s == "unknown path"@ {
        Some(ErrorStatus::UnknownPath)
    } else if s == "unsupported operation"@ {
        Some(ErrorStatus::UnsupportedOperation)
    } else {
        None
    }
}

/// The HTTP status code that the WebDriver standard associates with `e`.
pub open spec fn status_http_code(e: ErrorStatus) -> u16 {
    match e {
        ErrorStatus::DetachedShadowRoot => 404,
        ErrorStatus::ElementClickIntercepted => 400,
        ErrorStatus::ElementNotInteractable => 400,
        ErrorStatus::ElementNotSelectable => 400,
        ErrorStatus::InsecureCertificate => 400,
        ErrorStatus::InvalidArgument => 400,
        ErrorStatus::InvalidCookieDomain => 400,
        ErrorStatus::InvalidCoordinates => 400,
        ErrorStatus::InvalidElementState => 400,
        ErrorStatus::InvalidSelector => 400,
        ErrorStatus::InvalidSessionId => 404,
        ErrorStatus::JavascriptError => 500,
        ErrorStatus::MoveTargetOutOfBounds => 500,
        ErrorStatus::NoSuchAlert => 404,
        ErrorStatus::NoSuchCookie => 404,
        ErrorStatus::NoSuchElement => 404,
        ErrorStatus::NoSuchFrame => 404,
        ErrorStatus::NoSuchShadowRoot => 404,
        ErrorStatus::NoSuchWindow => 404,
        ErrorStatus::ScriptTimeout => 500,
        ErrorStatus::SessionNotCreated => 500,
        ErrorStatus::StaleElementReference => 404,
        ErrorStatus::Timeout => 500,
        ErrorStatus::UnableToCaptureScreen => 400,
        ErrorStatus::UnableToSetCookie => 500,
        ErrorStatus::UnexpectedAlertOpen => 500,
        ErrorStatus::UnknownCommand => 404,
        ErrorStatus::UnknownError => 500,
        ErrorStatus::UnknownMethod => 405,
        ErrorStatus::UnknownPath => 404,
        ErrorStatus::UnsupportedOperation => 500,
    }
}

impl ErrorStatus {
    /// Get the error string associated with this `ErrorStatus`.
    pub fn description(&self) -> (s: &'static str)
        ensures
            s@ == status_text(*self),
    {
        match self {
            ErrorStatus::DetachedShadowRoot => "detached shadow root",
            ErrorStatus::ElementClickIntercepted => "element click intercepted",
            ErrorStatus::ElementNotInteractable => "element not interactable",
            ErrorStatus::ElementNotSelectable => "element not selectable",
            ErrorStatus::InsecureCertificate => "insecure certificate",
            ErrorStatus::InvalidArgument => "invalid argument",
            ErrorStatus::InvalidCookieDomain => "invalid cookie domain",
            ErrorStatus::InvalidCoordinates => "invalid coordinates",
            ErrorStatus::InvalidElementState => "invalid element state",
            ErrorStatus::InvalidSelector => "invalid selector",
            ErrorStatus::InvalidSessionId => "invalid session id",
            ErrorStatus::JavascriptError => "javascript error",
            ErrorStatus::MoveTargetOutOfBounds => "move target out of bounds",
            ErrorStatus::NoSuchAlert => "no such alert",
            ErrorStatus::NoSuchCookie => "no such cookie",
            ErrorStatus::NoSuchElement => "no such element",
            ErrorStatus::NoSuchFrame => "no such frame",
            ErrorStatus::NoSuchShadowRoot => "no such shadow root",
            ErrorStatus::NoSuchWindow => "no such window",
            ErrorStatus::ScriptTimeout => "script timeout",
            ErrorStatus::SessionNotCreated => "session not created",
            ErrorStatus::StaleElementReference => "stale element reference",
            ErrorStatus::Timeout => "timeout",
            ErrorStatus::UnableToCaptureScreen => "unable to capture screen",
            ErrorStatus::UnableToSetCookie => "unable to set cookie",
            ErrorStatus::UnexpectedAlertOpen => "unexpected alert open",
            ErrorStatus::UnknownCommand => "unknown command",
            ErrorStatus::UnknownError => "unknown error",
            ErrorStatus::UnknownMethod => "unknown method",
            ErrorStatus::UnknownPath => "unknown path",
            ErrorStatus::UnsupportedOperation => "unsupported operation",
        }
    }

    /// The number of the HTTP status code associated with this error.
    pub fn http_status_code(&self) -> (c: u16)
        ensures
            c == status_http_code(*self),
    {
        match self {
            ErrorStatus::DetachedShadowRoot => 404,
            ErrorStatus::ElementClickIntercepted => 400,
            ErrorStatus::ElementNotInteractable => 400,
            ErrorStatus::ElementNotSelectable => 400,
            ErrorStatus::InsecureCertificate => 400,
            ErrorStatus::InvalidArgument => 400,
            ErrorStatus::InvalidCookieDomain => 400,
            ErrorStatus::InvalidCoordinates => 400,
            ErrorStatus::InvalidElementState => 400,
            ErrorStatus::InvalidSelector => 400,
            ErrorStatus::InvalidSessionId => 404,
            ErrorStatus::JavascriptError => 500,
            ErrorStatus::MoveTargetOutOfBounds => 500,
            ErrorStatus::NoSuchAlert => 404,
            ErrorStatus::NoSuchCookie => 404,
            ErrorStatus::NoSuchElement => 404,
            ErrorStatus::NoSuchFrame => 404,
            ErrorStatus::NoSuchShadowRoot => 404,
            ErrorStatus::NoSuchWindow => 404,
            ErrorStatus::ScriptTimeout => 500,
            ErrorStatus::SessionNotCreated => 500,
            ErrorStatus::StaleElementReference => 404,
            ErrorStatus::Timeout => 500,
            ErrorStatus::UnableToCaptureScreen => 400,
            ErrorStatus::UnableToSetCookie => 500,
            ErrorStatus::UnexpectedAlertOpen => 500,
            ErrorStatus::UnknownCommand => 404,
            ErrorStatus::UnknownError => 500,
            ErrorStatus::UnknownMethod => 405,
            ErrorStatus::UnknownPath => 404,
            ErrorStatus::UnsupportedOperation => 500,
        }
    }

    /// The error status named by the wire string `s`, if any.
    pub fn from_text(s: &str) -> (r: Option<ErrorStatus>)
        ensures
            r == status_from_text(s@),
    {
        if str_eq(s, "detached shadow root") {
            return Some(ErrorStatus::DetachedShadowRoot);
        }
        if str_eq(s, "element click intercepted") {
            return Some(ErrorStatus::ElementClickIntercepted);
        }
        if str_eq(s, "element not interactable") || str_eq(s, "element not visible") {
            return Some(ErrorStatus::ElementNotInteractable);
        }
        if str_eq(s, "element not selectable") {
            return Some(ErrorStatus::ElementNotSelectable);
        }
        if str_eq(s, "insecure certificate") {
            return Some(ErrorStatus::InsecureCertificate);
        }
        if str_eq(s, "invalid argument") {
            return Some(ErrorStatus::InvalidArgument);
        }
        if str_eq(s, "invalid cookie domain") {
            return Some(ErrorStatus::InvalidCookieDomain);
        }
        if str_eq(s, "invalid coordinates") || str_eq(s, "invalid element coordinates") {
            return Some(ErrorStatus::InvalidCoordinates);
        }
        if str_eq(s, "invalid element state") {
            return Some(ErrorStatus::InvalidElementState);
        }
        if str_eq(s, "invalid selector") {
            return Some(ErrorStatus::InvalidSelector);
        }
        if str_eq(s, "invalid session id") {
            return Some(ErrorStatus::InvalidSessionId);
        }
        if str_eq(s, "javascript error") {
            return Some(ErrorStatus::JavascriptError);
        }
        if str_eq(s, "move target out of bounds") {
            return Some(ErrorStatus::MoveTargetOutOfBounds);
        }
        if str_eq(s, "no such alert") {
            return Some(ErrorStatus::NoSuchAlert);
        }
        if str_eq(s, "no such cookie") {
            return Some(ErrorStatus::NoSuchCookie);
        }
        if str_eq(s, "no such element") {
            return Some(ErrorStatus::NoSuchElement);
        }
        if str_eq(s, "no such frame") {
            return Some(ErrorStatus::NoSuchFrame);
        }
        if str_eq(s, "no such shadow root") {
            return Some(ErrorStatus::NoSuchShadowRoot);
        }
        if str_eq(s, "no such window") {
            return Some(ErrorStatus::NoSuchWindow);
        }
        if str_eq(s, "script timeout") {
            return Some(ErrorStatus::ScriptTimeout);
        }
        if str_eq(s, "session not created") {
            return Some(ErrorStatus::SessionNotCreated);
        }
        if str_eq(s, "stale element reference") {
            return Some(ErrorStatus::StaleElementReference);
        }
        if str_eq(s, "timeout") {
            return Some(ErrorStatus::Timeout);
        }
        if str_eq(s, "unable to capture screen") {
            return Some(ErrorStatus::UnableToCaptureScreen);
        }
        if str_eq(s, "unable to set cookie") {
            return Some(ErrorStatus::UnableToSetCookie);
        }
        if str_eq(s, "unexpected alert open") {
            return Some(ErrorStatus::UnexpectedAlertOpen);
        }
        if str_eq(s, "unknown command") {
            return Some(ErrorStatus::UnknownCommand);
        }
        if str_eq(s, "unknown error") {
            return Some(ErrorStatus::UnknownError);
        }
        if str_eq(s, "unknown method") {
            return Some(ErrorStatus::UnknownMethod);
        }
        if str_eq(s, "unknown path") {
            return Some(ErrorStatus::UnknownPath);
        }
        if str_eq(s, "unsupported operation") {
            return Some(ErrorStatus::UnsupportedOperation);
        }
        None
    }
}

/// Every error status is named by exactly the strings that `status_from_text` maps to it:
/// reading back the string that describes a status gives that status.
pub proof fn lemma_status_text_round_trip(e: ErrorStatus)
    ensures
        status_from_text(status_text(e)) == Some(e),
{
    match e {
        ErrorStatus::DetachedShadowRoot => {
            reveal_strlit("detached shadow root");
        },
        ErrorStatus::ElementClickIntercepted => {
            reveal_strlit("element click intercepted");
            reveal_strlit("detached shadow root");
            assert("element click intercepted"@.len() != "detached shadow root"@.len());
        },
        ErrorStatus::ElementNotInteractable => {
            reveal_strlit("element not interactable");
            reveal_strlit("detached shadow root");
            assert("element not interactable"@.len() != "detached shadow root"@.len());
            reveal_strlit("element click intercepted");
            assert("element not interactable"@.len() != "element click intercepted"@.len());
        },
        ErrorStatus::ElementNotSelectable => {
            reveal_strlit("element not selectable");
            reveal_strlit("detached shadow root");
            assert("element not selectable"@.len() != "detached shadow root"@.len());
            reveal_strlit("element click intercepted");
            assert("element not selectable"@.len() != "element click intercepted"@.len());
            reveal_strlit("element not interactable");
            assert("element not selectable"@.len() != "element not interactable"@.len());
            reveal_strlit("element not visible");
            assert("element not selectable"@.len() != "element not visible"@.len());
        },
        ErrorStatus::InsecureCertificate => {
            reveal_strlit("insecure certificate");
            reveal_strlit("detached shadow root");
            assert("insecure certificate"@[0] != "detached shadow root"@[0]);
            reveal_strlit("element click intercepted");
            assert("insecure certificate"@.len() != "element click intercepted"@.len());
            reveal_strlit("element not interactable");
            assert("insecure certificate"@.len() != "element not interactable"@.len());
            reveal_strlit("element not visible");
            assert("insecure certificate"@.len() != "element not visible"@.len());
            reveal_strlit("element not selectable");
            assert("insecure certificate"@.len() != "element not selectable"@.len());
        },
        ErrorStatus::InvalidArgument => {
            reveal_strlit("invalid argument");
            reveal_strlit("detached shadow root");
            assert("invalid argument"@.len() != "detached shadow root"@.len());
            reveal_strlit("element click intercepted");
            assert("invalid argument"@.len() != "element click intercepted"@.len());
            reveal_strlit("element not interactable");
            assert("invalid argument"@.len() != "element not interactable"@.len());
            reveal_strlit("element not visible");
            assert("invalid argument"@.len() != "element not visible"@.len());
            reveal_strlit("element not selectable");
            assert("invalid argument"@.len() != "element not selectable"@.len());
            reveal_strlit("insecure certificate");
            assert("invalid argument"@.len() != "insecure certificate"@.len());
        },
        ErrorStatus::InvalidCookieDomain => {
            reveal_strlit("invalid cookie domain");
            reveal_strlit("detached shadow root");
            assert("invalid cookie domain"@.len() != "detached shadow root"@.len());
            reveal_strlit("element click intercepted");
            assert("invalid cookie domain"@.len() != "element click intercepted"@.len());
            reveal_strlit("element not interactable");
            assert("invalid cookie domain"@.len() != "element not interactable"@.len());
            reveal_strlit("element not visible");
            assert("invalid cookie domain"@.len() != "element not visible"@.len());
            reveal_strlit("element not selectable");
            assert("invalid cookie domain"@.len() != "element not selectable"@.len());
            reveal_strlit("insecure certificate");
            assert("invalid cookie domain"@.len() != "insecure certificate"@.len());
            reveal_strlit("invalid argument");
            assert("invalid cookie domain"@.len() != "invalid argument"@.len());
        },
        ErrorStatus::InvalidCoordinates => {
            reveal_strlit("invalid coordinates");
            reveal_strlit("detached shadow root");
            assert("invalid coordinates"@.len() != "detached shadow root"@.len());
            reveal_strlit("element click intercepted");
            assert("invalid coordinates"@.len() != "element click intercepted"@.len());
            reveal_strlit("element not interactable");
            assert("invalid coordinates"@.len() != "element not interactable"@.len());
            reveal_strlit("element not visible");
            assert("invalid coordinates"@[0] != "element not visible"@[0]);
            reveal_strlit("element not selectable");
            assert("invalid coordinates"@.len() != "element not selectable"@.len());
            reveal_strlit("insecure certificate");
            assert("invalid coordinates"@.len() != "insecure certificate"@.len());
            reveal_strlit("invalid argument");
            assert("invalid coordinates"@.len() != "invalid argument"@.len());
            reveal_strlit("invalid cookie domain");
            assert("invalid coordinates"@.len() != "invalid cookie domain"@.len());
        },
        ErrorStatus::InvalidElementState => {
            reveal_strlit("invalid element state");
            reveal_strlit("detached shadow root");
            assert("invalid element state"@.len() != "detached shadow root"@.len());
            reveal_strlit("element click intercepted");
            assert("invalid element state"@.len() != "element click intercepted"@.len());
            reveal_strlit("element not interactable");
            assert("invalid element state"@.len() != "element not interactable"@.len());
            reveal_strlit("element not visible");
            assert("invalid element state"@.len() != "element not visible"@.len());
            reveal_strlit("element not selectable");
            assert("invalid element state"@.len() != "element not selectable"@.len());
            reveal_strlit("insecure certificate");
            assert("invalid element state"@.len() != "insecure certificate"@.len());
            reveal_strlit("invalid argument");
            assert("invalid element state"@.len() != "invalid argument"@.len());
            reveal_strlit("invalid cookie domain");
            assert("invalid element state"@[8] != "invalid cookie domain"@[8]);
            reveal_strlit("invalid coordinates");
            assert("invalid element state"@.len() != "invalid coordinates"@.len());
            reveal_strlit("invalid element coordinates");
            assert("invalid element state"@.len() != "invalid element coordinates"@.len());
        },
        ErrorStatus::InvalidSelector => {
            reveal_strlit("invalid selector");
            reveal_strlit("detached shadow root");
            assert("invalid selector"@.len() != "detached shadow root"@.len());
            reveal_strlit("element click intercepted");
            assert("invalid selector"@.len() != "element click intercepted"@.len());
            reveal_strlit("element not interactable");
            assert("invalid selector"@.len() != "element not interactable"@.len());
            reveal_strlit("element not visible");
            assert("invalid selector"@.len() != "element not visible"@.len());
            reveal_strlit("element not selectable");
            assert("invalid selector"@.len() != "element not selectable"@.len());
            reveal_strlit("insecure certificate");
            assert("invalid selector"@.len() != "insecure certificate"@.len());
            reveal_strlit("invalid argument");
            assert("invalid selector"@[8] != "invalid argument"@[8]);
            reveal_strlit("invalid cookie domain");
            assert("invalid selector"@.len() != "invalid cookie domain"@.len());
            reveal_strlit("invalid coordinates");
            assert("invalid selector"@.len() != "invalid coordinates"@.len());
            reveal_strlit("invalid element coordinates");
            assert("invalid selector"@.len() != "invalid element coordinates"@.len());
            reveal_strlit("invalid element state");
            assert("invalid selector"@.len() != "invalid element state"@.len());
        },
        ErrorStatus::InvalidSessionId => {
            reveal_strlit("invalid session id");
            reveal_strlit("detached shadow root");
            assert("invalid session id"@.len() != "detached shadow root"@.len());
            reveal_strlit("element click intercepted");
            assert("invalid session id"@.len() != "element click intercepted"@.len());
            reveal_strlit("element not interactable");
            assert("invalid session id"@.len() != "element not interactable"@.len());
            reveal_strlit("element not visible");
            assert("invalid session id"@.len() != "element not visible"@.len());
            reveal_strlit("element not selectable");
            assert("invalid session id"@.len() != "element not selectable"@.len());
            reveal_strlit("insecure certificate");
            assert("invalid session id"@.len() != "insecure certificate"@.len());
            reveal_strlit("invalid argument");
            assert("invalid session id"@.len() != "invalid argument"@.len());
            reveal_strlit("invalid cookie domain");
            assert("invalid session id"@.len() != "invalid cookie domain"@.len());
            reveal_strlit("invalid coordinates");
            assert("invalid session id"@.len() != "invalid coordinates"@.len());
            reveal_strlit("invalid element coordinates");
            assert("invalid session id"@.len() != "invalid element coordinates"@.len());
            reveal_strlit("invalid element state");
            assert("invalid session id"@.len() != "invalid element state"@.len());
            reveal_strlit("invalid selector");
            assert("invalid session id"@.len() != "invalid selector"@.len());
        },
        ErrorStatus::JavascriptError => {
            reveal_strlit("javascript error");
            reveal_strlit("detached shadow root");
            assert("javascript error"@.len() != "detached shadow root"@.len());
            reveal_strlit("element click intercepted");
            assert("javascript error"@.len() != "element click intercepted"@.len());
            reveal_strlit("element not interactable");
            assert("javascript error"@.len() != "element not interactable"@.len());
            reveal_strlit("element not visible");
            assert("javascript error"@.len() != "element not visible"@.len());
            reveal_strlit("element not selectable");
            assert("javascript error"@.len() != "element not selectable"@.len());
            reveal_strlit("insecure certificate");
            assert("javascript error"@.len() != "insecure certificate"@.len());
            reveal_strlit("invalid argument");
            assert("javascript error"@[0] != "invalid argument"@[0]);
            reveal_strlit("invalid cookie domain");
            assert("javascript error"@.len() != "invalid cookie domain"@.len());
            reveal_strlit("invalid coordinates");
            assert("javascript error"@.len() != "invalid coordinates"@.len());
            reveal_strlit("invalid element coordinates");
            assert("javascript error"@.len() != "invalid element coordinates"@.len());
            reveal_strlit("invalid element state");
            assert("javascript error"@.len() != "invalid element state"@.len());
            reveal_strlit("invalid selector");
            assert("javascript error"@[0] != "invalid selector"@[0]);
            reveal_strlit("invalid session id");
            assert("javascript error"@.len() != "invalid session id"@.len());
        },
        ErrorStatus::MoveTargetOutOfBounds => {
            reveal_strlit("move target out of bounds");
            reveal_strlit("detached shadow root");
            assert("move target out of bounds"@.len() != "detached shadow root"@.len());
            reveal_strlit("element click intercepted");
            assert("move target out of bounds"@[0] != "element click intercepted"@[0]);
            reveal_strlit("element not interactable");
            assert("move target out of bounds"@.len() != "element not interactable"@.len());
            reveal_strlit("element not visible");
            assert("move target out of bounds"@.len() != "element not visible"@.len());
            reveal_strlit("element not selectable");
            assert("move target out of bounds"@.len() != "element not selectable"@.len());
            reveal_strlit("insecure certificate");
            assert("move target out of bounds"@.len() != "insecure certificate"@.len());
            reveal_strlit("invalid argument");
            assert("move target out of bounds"@.len() != "invalid argument"@.len());
            reveal_strlit("invalid cookie domain");
            assert("move target out of bounds"@.len() != "invalid cookie domain"@.len());
            reveal_strlit("invalid coordinates");
            assert("move target out of bounds"@.len() != "invalid coordinates"@.len());
            reveal_strlit("invalid element coordinates");
            assert("move target out of bounds"@.len() != "invalid element coordinates"@.len());
            reveal_strlit("invalid element state");
            assert("move target out of bounds"@.len() != "invalid element state"@.len());
            reveal_strlit("invalid selector");
            assert("move target out of bounds"@.len() != "invalid selector"@.len());
            reveal_strlit("invalid session id");
            assert("move target out of bounds"@.len() != "invalid session id"@.len());
            reveal_strlit("javascript error");
            assert("move target out of bounds"@.len() != "javascript error"@.len());
        },
        ErrorStatus::NoSuchAlert => {
            reveal_strlit("no such alert");
            reveal_strlit("detached shadow root");
            assert("no such alert"@.len() != "detached shadow root"@.len());
            reveal_strlit("element click intercepted");
            assert("no such alert"@.len() != "element click intercepted"@.len());
            reveal_strlit("element not interactable");
            assert("no such alert"@.len() != "element not interactable"@.len());
            reveal_strlit("element not visible");
            assert("no such alert"@.len() != "element not visible"@.len());
            reveal_strlit("element not selectable");
            assert("no such alert"@.len() != "element not selectable"@.len());
            reveal_strlit("insecure certificate");
            assert("no such alert"@.len() != "insecure certificate"@.len());
            reveal_strlit("invalid argument");
            assert("no such alert"@.len() != "invalid argument"@.len());
            reveal_strlit("invalid cookie domain");
            assert("no such alert"@.len() != "invalid cookie domain"@.len());
            reveal_strlit("invalid coordinates");
            assert("no such alert"@.len() != "invalid coordinates"@.len());
            reveal_strlit("invalid element coordinates");
            assert("no such alert"@.len() != "invalid element coordinates"@.len());
            reveal_strlit("invalid element state");
            assert("no such alert"@.len() != "invalid element state"@.len());
            reveal_strlit("invalid selector");
            assert("no such alert"@.len() != "invalid selector"@.len());
            reveal_strlit("invalid session id");
            assert("no such alert"@.len() != "invalid session id"@.len());
            reveal_strlit("javascript error");
            assert("no such alert"@.len() != "javascript error"@.len());
            reveal_strlit("move target out of bounds");
            assert("no such alert"@.len() != "move target out of bounds"@.len());
        },
        ErrorStatus::NoSuchCookie => {
            reveal_strlit("no such cookie");
            reveal_strlit("detached shadow root");
            assert("no such cookie"@.len() != "detached shadow root"@.len());
            reveal_strlit("element click intercepted");
            assert("no such cookie"@.len() != "element click intercepted"@.len());
            reveal_strlit("element not interactable");
            assert("no such cookie"@.len() != "element not interactable"@.len());
            reveal_strlit("element not visible");
            assert("no such cookie"@.len() != "element not visible"@.len());
            reveal_strlit("element not selectable");
            assert("no such cookie"@.len() != "element not selectable"@.len());
            reveal_strlit("insecure certificate");
            assert("no such cookie"@.len() != "insecure certificate"@.len());
            reveal_strlit("invalid argument");
            assert("no such cookie"@.len() != "invalid argument"@.len());
            reveal_strlit("invalid cookie domain");
            assert("no such cookie"@.len() != "invalid cookie domain"@.len());
            reveal_strlit("invalid coordinates");
            assert("no such cookie"@.len() != "invalid coordinates"@.len());
            reveal_strlit("invalid element coordinates");
            assert("no such cookie"@.len() != "invalid element coordinates"@.len());
            reveal_strlit("invalid element state");
            assert("no such cookie"@.len() != "invalid element state"@.len());
            reveal_strlit("invalid selector");
            assert("no such cookie"@.len() != "invalid selector"@.len());
            reveal_strlit("invalid session id");
            assert("no such cookie"@.len() != "invalid session id"@.len());
            reveal_strlit("javascript error");
            assert("no such cookie"@.len() != "javascript error"@.len());
            reveal_strlit("move target out of bounds");
            assert("no such cookie"@.len() != "move target out of bounds"@.len());
            reveal_strlit("no such alert");
            assert("no such cookie"@.len() != "no such alert"@.len());
        },
        ErrorStatus::NoSuchElement => {
            reveal_strlit("no such element");
            reveal_strlit("detached shadow root");
            assert("no such element"@.len() != "detached shadow root"@.len());
            reveal_strlit("element click intercepted");
            assert("no such element"@.len() != "element click intercepted"@.len());
            reveal_strlit("element not interactable");
            assert("no such element"@.len() != "element not interactable"@.len());
            reveal_strlit("element not visible");
            assert("no such element"@.len() != "element not visible"@.len());
            reveal_strlit("element not selectable");
            assert("no such element"@.len() != "element not selectable"@.len());
            reveal_strlit("insecure certificate");
            assert("no such element"@.len() != "insecure certificate"@.len());
            reveal_strlit("invalid argument");
            assert("no such element"@.len() != "invalid argument"@.len());
            reveal_strlit("invalid cookie domain");
            assert("no such element"@.len() != "invalid cookie domain"@.len());
            reveal_strlit("invalid coordinates");
            assert("no such element"@.len() != "invalid coordinates"@.len());
            reveal_strlit("invalid element coordinates");
            assert("no such element"@.len() != "invalid element coordinates"@.len());
            reveal_strlit("invalid element state");
            assert("no such element"@.len() != "invalid element state"@.len());
            reveal_strlit("invalid selector");
            assert("no such element"@.len() != "invalid selector"@.len());
            reveal_strlit("invalid session id");
            assert("no such element"@.len() != "invalid session id"@.len());
            reveal_strlit("javascript error");
            assert("no such element"@.len() != "javascript error"@.len());
            reveal_strlit("move target out of bounds");
            assert("no such element"@.len() != "move target out of bounds"@.len());
            reveal_strlit("no such alert");
            assert("no such element"@.len() != "no such alert"@.len());
            reveal_strlit("no such cookie");
            assert("no such element"@.len() != "no such cookie"@.len());
        },
        ErrorStatus::NoSuchFrame => {
            reveal_strlit("no such frame");
            reveal_strlit("detached shadow root");
            assert("no such frame"@.len() != "detached shadow root"@.len());
            reveal_strlit("element click intercepted");
            assert("no such frame"@.len() != "element click intercepted"@.len());
            reveal_strlit("element not interactable");
            assert("no such frame"@.len() != "element not interactable"@.len());
            reveal_strlit("element not visible");
            assert("no such frame"@.len() != "element not visible"@.len());
            reveal_strlit("element not selectable");
            assert("no such frame"@.len() != "element not selectable"@.len());
            reveal_strlit("insecure certificate");
            assert("no such frame"@.len() != "insecure certificate"@.len());
            reveal_strlit("invalid argument");
            assert("no such frame"@.len() != "invalid argument"@.len());
            reveal_strlit("invalid cookie domain");
            assert("no such frame"@.len() != "invalid cookie domain"@.len());
            reveal_strlit("invalid coordinates");
            assert("no such frame"@.len() != "invalid coordinates"@.len());
            reveal_strlit("invalid element coordinates");
            assert("no such frame"@.len() != "invalid element coordinates"@.len());
            reveal_strlit("invalid element state");
            assert("no such frame"@.len() != "invalid element state"@.len());
            reveal_strlit("invalid selector");
            assert("no such frame"@.len() != "invalid selector"@.len());
            reveal_strlit("invalid session id");
            assert("no such frame"@.len() != "invalid session id"@.len());
            reveal_strlit("javascript error");
            assert("no such frame"@.len() != "javascript error"@.len());
            reveal_strlit("move target out of bounds");
            assert("no such frame"@.len() != "move target out of bounds"@.len());
            reveal_strlit("no such alert");
            assert("no such frame"@[8] != "no such alert"@[8]);
            reveal_strlit("no such cookie");
            assert("no such frame"@.len() != "no such cookie"@.len());
            reveal_strlit("no such element");
            assert("no such frame"@.len() != "no such element"@.len());
        },
        ErrorStatus::NoSuchShadowRoot => {
            reveal_strlit("no such shadow root");
            reveal_strlit("detached shadow root");
            assert("no such shadow root"@.len() != "detached shadow root"@.len());
            reveal_strlit("element click intercepted");
            assert("no such shadow root"@.len() != "element click intercepted"@.len());
            reveal_strlit("element not interactable");
            assert("no such shadow root"@.len() != "element not interactable"@.len());
            reveal_strlit("element not visible");
            assert("no such shadow root"@[0] != "element not visible"@[0]);
            reveal_strlit("element not selectable");
            assert("no such shadow root"@.len() != "element not selectable"@.len());
            reveal_strlit("insecure certificate");
            assert("no such shadow root"@.len() != "insecure certificate"@.len());
            reveal_strlit("invalid argument");
            assert("no such shadow root"@.len() != "invalid argument"@.len());
            reveal_strlit("invalid cookie domain");
            assert("no such shadow root"@.len() != "invalid cookie domain"@.len());
            reveal_strlit("invalid coordinates");
            assert("no such shadow root"@[0] != "invalid coordinates"@[0]);
            reveal_strlit("invalid element coordinates");
            assert("no such shadow root"@.len() != "invalid element coordinates"@.len());
            reveal_strlit("invalid element state");
            assert("no such shadow root"@.len() != "invalid element state"@.len());
            reveal_strlit("invalid selector");
            assert("no such shadow root"@.len() != "invalid selector"@.len());
            reveal_strlit("invalid session id");
            assert("no such shadow root"@.len() != "invalid session id"@.len());
            reveal_strlit("javascript error");
            assert("no such shadow root"@.len() != "javascript error"@.len());
            reveal_strlit("move target out of bounds");
            assert("no such shadow root"@.len() != "move target out of bounds"@.len());
            reveal_strlit("no such alert");
            assert("no such shadow root"@.len() != "no such alert"@.len());
            reveal_strlit("no such cookie");
            assert("no such shadow root"@.len() != "no such cookie"@.len());
            reveal_strlit("no such element");
            assert("no such shadow root"@.len() != "no such element"@.len());
            reveal_strlit("no such frame");
            assert("no such shadow root"@.len() != "no such frame"@.len());
        },
        ErrorStatus::NoSuchWindow => {
            reveal_strlit("no such window");
            reveal_strlit("detached shadow root");
            assert("no such window"@.len() != "detached shadow root"@.len());
            reveal_strlit("element click intercepted");
            assert("no such window"@.len() != "element click intercepted"@.len());
            reveal_strlit("element not interactable");
            assert("no such window"@.len() != "element not interactable"@.len());
            reveal_strlit("element not visible");
            assert("no such window"@.len() != "element not visible"@.len());
            reveal_strlit("element not selectable");
            assert("no such window"@.len() != "element not selectable"@.len());
            reveal_strlit("insecure certificate");
            assert("no such window"@.len() != "insecure certificate"@.len());
            reveal_strlit("invalid argument");
            assert("no such window"@.len() != "invalid argument"@.len());
            reveal_strlit("invalid cookie domain");
            assert("no such window"@.len() != "invalid cookie domain"@.len());
            reveal_strlit("invalid coordinates");
            assert("no such window"@.len() != "invalid coordinates"@.len());
            reveal_strlit("invalid element coordinates");
            assert("no such window"@.len() != "invalid element coordinates"@.len());
            reveal_strlit("invalid element state");
            assert("no such window"@.len() != "invalid element state"@.len());
            reveal_strlit("invalid selector");
            assert("no such window"@.len() != "invalid selector"@.len());
            reveal_strlit("invalid session id");
            assert("no such window"@.len() != "invalid session id"@.len());
            reveal_strlit("javascript error");
            assert("no such window"@.len() != "javascript error"@.len());
            reveal_strlit("move target out of bounds");
            assert("no such window"@.len() != "move target out of bounds"@.len());
            reveal_strlit("no such alert");
            assert("no such window"@.len() != "no such alert"@.len());
            reveal_strlit("no such cookie");
            assert("no such window"@[8] != "no such cookie"@[8]);
            reveal_strlit("no such element");
            assert("no such window"@.len() != "no such element"@.len());
            reveal_strlit("no such frame");
            assert("no such window"@.len() != "no such frame"@.len());
            reveal_strlit("no such shadow root");
            assert("no such window"@.len() != "no such shadow root"@.len());
        },
        ErrorStatus::ScriptTimeout => {
            reveal_strlit("script timeout");
            reveal_strlit("detached shadow root");
            assert("script timeout"@.len() != "detached shadow root"@.len());
            reveal_strlit("element click intercepted");
            assert("script timeout"@.len() != "element click intercepted"@.len());
            reveal_strlit("element not interactable");
            assert("script timeout"@.len() != "element not interactable"@.len());
            reveal_strlit("element not visible");
            assert("script timeout"@.len() != "element not visible"@.len());
            reveal_strlit("element not selectable");
            assert("script timeout"@.len() != "element not selectable"@.len());
            reveal_strlit("insecure certificate");
            assert("script timeout"@.len() != "insecure certificate"@.len());
            reveal_strlit("invalid argument");
            assert("script timeout"@.len() != "invalid argument"@.len());
            reveal_strlit("invalid cookie domain");
            assert("script timeout"@.len() != "invalid cookie domain"@.len());
            reveal_strlit("invalid coordinates");
            assert("script timeout"@.len() != "invalid coordinates"@.len());
            reveal_strlit("invalid element coordinates");
            assert("script timeout"@.len() != "invalid element coordinates"@.len());
            reveal_strlit("invalid element state");
            assert("script timeout"@.len() != "invalid element state"@.len());
            reveal_strlit("invalid selector");
            assert("script timeout"@.len() != "invalid selector"@.len());
            reveal_strlit("invalid session id");
            assert("script timeout"@.len() != "invalid session id"@.len());
            reveal_strlit("javascript error");
            assert("script timeout"@.len() != "javascript error"@.len());
            reveal_strlit("move target out of bounds");
            assert("script timeout"@.len() != "move target out of bounds"@.len());
            reveal_strlit("no such alert");
            assert("script timeout"@.len() != "no such alert"@.len());
            reveal_strlit("no such cookie");
            assert("script timeout"@[0] != "no such cookie"@[0]);
            reveal_strlit("no such element");
            assert("script timeout"@.len() != "no such element"@.len());
            reveal_strlit("no such frame");
            assert("script timeout"@.len() != "no such frame"@.len());
            reveal_strlit("no such shadow root");
            assert("script timeout"@.len() != "no such shadow root"@.len());
            reveal_strlit("no such window");
            assert("script timeout"@[0] != "no such window"@[0]);
        },
        ErrorStatus::SessionNotCreated => {
            reveal_strlit("session not created");
            reveal_strlit("detached shadow root");
            assert("session not created"@.len() != "detached shadow root"@.len());
            reveal_strlit("element click intercepted");
            assert("session not created"@.len() != "element click intercepted"@.len());
            reveal_strlit("element not interactable");
            assert("session not created"@.len() != "element not interactable"@.len());
            reveal_strlit("element not visible");
            assert("session not created"@[0] != "element not visible"@[0]);
            reveal_strlit("element not selectable");
            assert("session not created"@.len() != "element not selectable"@.len());
            reveal_strlit("insecure certificate");
            assert("session not created"@.len() != "insecure certificate"@.len());
            reveal_strlit("invalid argument");
            assert("session not created"@.len() != "invalid argument"@.len());
            reveal_strlit("invalid cookie domain");
            assert("session not created"@.len() != "invalid cookie domain"@.len());
            reveal_strlit("invalid coordinates");
            assert("session not created"@[0] != "invalid coordinates"@[0]);
            reveal_strlit("invalid element coordinates");
            assert("session not created"@.len() != "invalid element coordinates"@.len());
            reveal_strlit("invalid element state");
            assert("session not created"@.len() != "invalid element state"@.len());
            reveal_strlit("invalid selector");
            assert("session not created"@.len() != "invalid selector"@.len());
            reveal_strlit("invalid session id");
            assert("session not created"@.len() != "invalid session id"@.len());
            reveal_strlit("javascript error");
            assert("session not created"@.len() != "javascript error"@.len());
            reveal_strlit("move target out of bounds");
            assert("session not created"@.len() != "move target out of bounds"@.len());
            reveal_strlit("no such alert");
            assert("session not created"@.len() != "no such alert"@.len());
            reveal_strlit("no such cookie");
            assert("session not created"@.len() != "no such cookie"@.len());
            reveal_strlit("no such element");
            assert("session not created"@.len() != "no such element"@.len());
            reveal_strlit("no such frame");
            assert("session not created"@.len() != "no such frame"@.len());
            reveal_strlit("no such shadow root");
            assert("session not created"@[0] != "no such shadow root"@[0]);
            reveal_strlit("no such window");
            assert("session not created"@.len() != "no such window"@.len());
            reveal_strlit("script timeout");
            assert("session not created"@.len() != "script timeout"@.len());
        },
        ErrorStatus::StaleElementReference => {
            reveal_strlit("stale element reference");
            reveal_strlit("detached shadow root");
            assert("stale element reference"@.len() != "detached shadow root"@.len());
            reveal_strlit("element click intercepted");
            assert("stale element reference"@.len() != "element click intercepted"@.len());
            reveal_strlit("element not interactable");
            assert("stale element reference"@.len() != "element not interactable"@.len());
            reveal_strlit("element not visible");
            assert("stale element reference"@.len() != "element not visible"@.len());
            reveal_strlit("element not selectable");
            assert("stale element reference"@.len() != "element not selectable"@.len());
            reveal_strlit("insecure certificate");
            assert("stale element reference"@.len() != "insecure certificate"@.len());
            reveal_strlit("invalid argument");
            assert("stale element reference"@.len() != "invalid argument"@.len());
            reveal_strlit("invalid cookie domain");
            assert("stale element reference"@.len() != "invalid cookie domain"@.len());
            reveal_strlit("invalid coordinates");
            assert("stale element reference"@.len() != "invalid coordinates"@.len());
            reveal_strlit("invalid element coordinates");
            assert("stale element reference"@.len() != "invalid element coordinates"@.len());
            reveal_strlit("invalid element state");
            assert("stale element reference"@.len() != "invalid element state"@.len());
            reveal_strlit("invalid selector");
            assert("stale element reference"@.len() != "invalid selector"@.len());
            reveal_strlit("invalid session id");
            assert("stale element reference"@.len() != "invalid session id"@.len());
            reveal_strlit("javascript error");
            assert("stale element reference"@.len() != "javascript error"@.len());
            reveal_strlit("move target out of bounds");
            assert("stale element reference"@.len() != "move target out of bounds"@.len());
            reveal_strlit("no such alert");
            assert("stale element reference"@.len() != "no such alert"@.len());
            reveal_strlit("no such cookie");
            assert("stale element reference"@.len() != "no such cookie"@.len());
            reveal_strlit("no such element");
            assert("stale element reference"@.len() != "no such element"@.len());
            reveal_strlit("no such frame");
            assert("stale element reference"@.len() != "no such frame"@.len());
            reveal_strlit("no such shadow root");
            assert("stale element reference"@.len() != "no such shadow root"@.len());
            reveal_strlit("no such window");
            assert("stale element reference"@.len() != "no such window"@.len());
            reveal_strlit("script timeout");
            assert("stale element reference"@.len() != "script timeout"@.len());
            reveal_strlit("session not created");
            assert("stale element reference"@.len() != "session not created"@.len());
        },
        ErrorStatus::Timeout => {
            reveal_strlit("timeout");
            reveal_strlit("detached shadow root");
            assert("timeout"@.len() != "detached shadow root"@.len());
            reveal_strlit("element click intercepted");
            assert("timeout"@.len() != "element click intercepted"@.len());
            reveal_strlit("element not interactable");
            assert("timeout"@.len() != "element not interactable"@.len());
            reveal_strlit("element not visible");
            assert("timeout"@.len() != "element not visible"@.len());
            reveal_strlit("element not selectable");
            assert("timeout"@.len() != "element not selectable"@.len());
            reveal_strlit("insecure certificate");
            assert("timeout"@.len() != "insecure certificate"@.len());
            reveal_strlit("invalid argument");
            assert("timeout"@.len() != "invalid argument"@.len());
            reveal_strlit("invalid cookie domain");
            assert("timeout"@.len() != "invalid cookie domain"@.len());
            reveal_strlit("invalid coordinates");
            assert("timeout"@.len() != "invalid coordinates"@.len());
            reveal_strlit("invalid element coordinates");
            assert("timeout"@.len() != "invalid element coordinates"@.len());
            reveal_strlit("invalid element state");
            assert("timeout"@.len() != "invalid element state"@.len());
            reveal_strlit("invalid selector");
            assert("timeout"@.len() != "invalid selector"@.len());
            reveal_strlit("invalid session id");
            assert("timeout"@.len() != "invalid session id"@.len());
            reveal_strlit("javascript error");
            assert("timeout"@.len() != "javascript error"@.len());
            reveal_strlit("move target out of bounds");
            assert("timeout"@.len() != "move target out of bounds"@.len());
            reveal_strlit("no such alert");
            assert("timeout"@.len() != "no such alert"@.len());
            reveal_strlit("no such cookie");
            assert("timeout"@.len() != "no such cookie"@.len());
            reveal_strlit("no such element");
            assert("timeout"@.len() != "no such element"@.len());
            reveal_strlit("no such frame");
            assert("timeout"@.len() != "no such frame"@.len());
            reveal_strlit("no such shadow root");
            assert("timeout"@.len() != "no such shadow root"@.len());
            reveal_strlit("no such window");
            assert("timeout"@.len() != "no such window"@.len());
            reveal_strlit("script timeout");
            assert("timeout"@.len() != "script timeout"@.len());
            reveal_strlit("session not created");
            assert("timeout"@.len() != "session not created"@.len());
            reveal_strlit("stale element reference");
            assert("timeout"@.len() != "stale element reference"@.len());
        },
        ErrorStatus::UnableToCaptureScreen => {
            reveal_strlit("unable to capture screen");
            reveal_strlit("detached shadow root");
            assert("unable to capture screen"@.len() != "detached shadow root"@.len());
            reveal_strlit("element click intercepted");
            assert("unable to capture screen"@.len() != "element click intercepted"@.len());
            reveal_strlit("element not interactable");
            assert("unable to capture screen"@[0] != "element not interactable"@[0]);
            reveal_strlit("element not visible");
            assert("unable to capture screen"@.len() != "element not visible"@.len());
            reveal_strlit("element not selectable");
            assert("unable to capture screen"@.len() != "element not selectable"@.len());
            reveal_strlit("insecure certificate");
            assert("unable to capture screen"@.len() != "insecure certificate"@.len());
            reveal_strlit("invalid argument");
            assert("unable to capture screen"@.len() != "invalid argument"@.len());
            reveal_strlit("invalid cookie domain");
            assert("unable to capture screen"@.len() != "invalid cookie domain"@.len());
            reveal_strlit("invalid coordinates");
            assert("unable to capture screen"@.len() != "invalid coordinates"@.len());
            reveal_strlit("invalid element coordinates");
            assert("unable to capture screen"@.len() != "invalid element coordinates"@.len());
            reveal_strlit("invalid element state");
            assert("unable to capture screen"@.len() != "invalid element state"@.len());
            reveal_strlit("invalid selector");
            assert("unable to capture screen"@.len() != "invalid selector"@.len());
            reveal_strlit("invalid session id");
            assert("unable to capture screen"@.len() != "invalid session id"@.len());
            reveal_strlit("javascript error");
            assert("unable to capture screen"@.len() != "javascript error"@.len());
            reveal_strlit("move target out of bounds");
            assert("unable to capture screen"@.len() != "move target out of bounds"@.len());
            reveal_strlit("no such alert");
            assert("unable to capture screen"@.len() != "no such alert"@.len());
            reveal_strlit("no such cookie");
            assert("unable to capture screen"@.len() != "no such cookie"@.len());
            reveal_strlit("no such element");
            assert("unable to capture screen"@.len() != "no such element"@.len());
            reveal_strlit("no such frame");
            assert("unable to capture screen"@.len() != "no such frame"@.len());
            reveal_strlit("no such shadow root");
            assert("unable to capture screen"@.len() != "no such shadow root"@.len());
            reveal_strlit("no such window");
            assert("unable to capture screen"@.len() != "no such window"@.len());
            reveal_strlit("script timeout");
            assert("unable to capture screen"@.len() != "script timeout"@.len());
            reveal_strlit("session not created");
            assert("unable to capture screen"@.len() != "session not created"@.len());
            reveal_strlit("stale element reference");
            assert("unable to capture screen"@.len() != "stale element reference"@.len());
            reveal_strlit("timeout");
            assert("unable to capture screen"@.len() != "timeout"@.len());
        },
        ErrorStatus::UnableToSetCookie => {
            reveal_strlit("unable to set cookie");
            reveal_strlit("detached shadow root");
            assert("unable to set cookie"@[0] != "detached shadow root"@[0]);
            reveal_strlit("element click intercepted");
            assert("unable to set cookie"@.len() != "element click intercepted"@.len());
            reveal_strlit("element not interactable");
            assert("unable to set cookie"@.len() != "element not interactable"@.len());
            reveal_strlit("element not visible");
            assert("unable to set cookie"@.len() != "element not visible"@.len());
            reveal_strlit("element not selectable");
            assert("unable to set cookie"@.len() != "element not selectable"@.len());
            reveal_strlit("insecure certificate");
            assert("unable to set cookie"@[0] != "insecure certificate"@[0]);
            reveal_strlit("invalid argument");
            assert("unable to set cookie"@.len() != "invalid argument"@.len());
            reveal_strlit("invalid cookie domain");
            assert("unable to set cookie"@.len() != "invalid cookie domain"@.len());
            reveal_strlit("invalid coordinates");
            assert("unable to set cookie"@.len() != "invalid coordinates"@.len());
            reveal_strlit("invalid element coordinates");
            assert("unable to set cookie"@.len() != "invalid element coordinates"@.len());
            reveal_strlit("invalid element state");
            assert("unable to set cookie"@.len() != "invalid element state"@.len());
            reveal_strlit("invalid selector");
            assert("unable to set cookie"@.len() != "invalid selector"@.len());
            reveal_strlit("invalid session id");
            assert("unable to set cookie"@.len() != "invalid session id"@.len());
            reveal_strlit("javascript error");
            assert("unable to set cookie"@.len() != "javascript error"@.len());
            reveal_strlit("move target out of bounds");
            assert("unable to set cookie"@.len() != "move target out of bounds"@.len());
            reveal_strlit("no such alert");
            assert("unable to set cookie"@.len() != "no such alert"@.len());
            reveal_strlit("no such cookie");
            assert("unable to set cookie"@.len() != "no such cookie"@.len());
            reveal_strlit("no such element");
            assert("unable to set cookie"@.len() != "no such element"@.len());
            reveal_strlit("no such frame");
            assert("unable to set cookie"@.len() != "no such frame"@.len());
            reveal_strlit("no such shadow root");
            assert("unable to set cookie"@.len() != "no such shadow root"@.len());
            reveal_strlit("no such window");
            assert("unable to set cookie"@.len() != "no such window"@.len());
            reveal_strlit("script timeout");
            assert("unable to set cookie"@.len() != "script timeout"@.len());
            reveal_strlit("session not created");
            assert("unable to set cookie"@.len() != "session not created"@.len());
            reveal_strlit("stale element reference");
            assert("unable to set cookie"@.len() != "stale element reference"@.len());
            reveal_strlit("timeout");
            assert("unable to set cookie"@.len() != "timeout"@.len());
            reveal_strlit("unable to capture screen");
            assert("unable to set cookie"@.len() != "unable to capture screen"@.len());
        },
        ErrorStatus::UnexpectedAlertOpen => {
            reveal_strlit("unexpected alert open");
            reveal_strlit("detached shadow root");
            assert("unexpected alert open"@.len() != "detached shadow root"@.len());
            reveal_strlit("element click intercepted");
            assert("unexpected alert open"@.len() != "element click intercepted"@.len());
            reveal_strlit("element not interactable");
            assert("unexpected alert open"@.len() != "element not interactable"@.len());
            reveal_strlit("element not visible");
            assert("unexpected alert open"@.len() != "element not visible"@.len());
            reveal_strlit("element not selectable");
            assert("unexpected alert open"@.len() != "element not selectable"@.len());
            reveal_strlit("insecure certificate");
            assert("unexpected alert open"@.len() != "insecure certificate"@.len());
            reveal_strlit("invalid argument");
            assert("unexpected alert open"@.len() != "invalid argument"@.len());
            reveal_strlit("invalid cookie domain");
            assert("unexpected alert open"@[0] != "invalid cookie domain"@[0]);
            reveal_strlit("invalid coordinates");
            assert("unexpected alert open"@.len() != "invalid coordinates"@.len());
            reveal_strlit("invalid element coordinates");
            assert("unexpected alert open"@.len() != "invalid element coordinates"@.len());
            reveal_strlit("invalid element state");
            assert("unexpected alert open"@[0] != "invalid element state"@[0]);
            reveal_strlit("invalid selector");
            assert("unexpected alert open"@.len() != "invalid selector"@.len());
            reveal_strlit("invalid session id");
            assert("unexpected alert open"@.len() != "invalid session id"@.len());
            reveal_strlit("javascript error");
            assert("unexpected alert open"@.len() != "javascript error"@.len());
            reveal_strlit("move target out of bounds");
            assert("unexpected alert open"@.len() != "move target out of bounds"@.len());
            reveal_strlit("no such alert");
            assert("unexpected alert open"@.len() != "no such alert"@.len());
            reveal_strlit("no such cookie");
            assert("unexpected alert open"@.len() != "no such cookie"@.len());
            reveal_strlit("no such element");
            assert("unexpected alert open"@.len() != "no such element"@.len());
            reveal_strlit("no such frame");
            assert("unexpected alert open"@.len() != "no such frame"@.len());
            reveal_strlit("no such shadow root");
            assert("unexpected alert open"@.len() != "no such shadow root"@.len());
            reveal_strlit("no such window");
            assert("unexpected alert open"@.len() != "no such window"@.len());
            reveal_strlit("script timeout");
            assert("unexpected alert open"@.len() != "script timeout"@.len());
            reveal_strlit("session not created");
            assert("unexpected alert open"@.len() != "session not created"@.len());
            reveal_strlit("stale element reference");
            assert("unexpected alert open"@.len() != "stale element reference"@.len());
            reveal_strlit("timeout");
            assert("unexpected alert open"@.len() != "timeout"@.len());
            reveal_strlit("unable to capture screen");
            assert("unexpected alert open"@.len() != "unable to capture screen"@.len());
            reveal_strlit("unable to set cookie");
            assert("unexpected alert open"@.len() != "unable to set cookie"@.len());
        },
        ErrorStatus::UnknownCommand => {
            reveal_strlit("unknown command");
            reveal_strlit("detached shadow root");
            assert("unknown command"@.len() != "detached shadow root"@.len());
            reveal_strlit("element click intercepted");
            assert("unknown command"@.len() != "element click intercepted"@.len());
            reveal_strlit("element not interactable");
            assert("unknown command"@.len() != "element not interactable"@.len());
            reveal_strlit("element not visible");
            assert("unknown command"@.len() != "element not visible"@.len());
            reveal_strlit("element not selectable");
            assert("unknown command"@.len() != "element not selectable"@.len());
            reveal_strlit("insecure certificate");
            assert("unknown command"@.len() != "insecure certificate"@.len());
            reveal_strlit("invalid argument");
            assert("unknown command"@.len() != "invalid argument"@.len());
            reveal_strlit("invalid cookie domain");
            assert("unknown command"@.len() != "invalid cookie domain"@.len());
            reveal_strlit("invalid coordinates");
            assert("unknown command"@.len() != "invalid coordinates"@.len());
            reveal_strlit("invalid element coordinates");
            assert("unknown command"@.len() != "invalid element coordinates"@.len());
            reveal_strlit("invalid element state");
            assert("unknown command"@.len() != "invalid element state"@.len());
            reveal_strlit("invalid selector");
            assert("unknown command"@.len() != "invalid selector"@.len());
            reveal_strlit("invalid session id");
            assert("unknown command"@.len() != "invalid session id"@.len());
            reveal_strlit("javascript error");
            assert("unknown command"@.len() != "javascript error"@.len());
            reveal_strlit("move target out of bounds");
            assert("unknown command"@.len() != "move target out of bounds"@.len());
            reveal_strlit("no such alert");
            assert("unknown command"@.len() != "no such alert"@.len());
            reveal_strlit("no such cookie");
            assert("unknown command"@.len() != "no such cookie"@.len());
            reveal_strlit("no such element");
            assert("unknown command"@[0] != "no such element"@[0]);
            reveal_strlit("no such frame");
            assert("unknown command"@.len() != "no such frame"@.len());
            reveal_strlit("no such shadow root");
            assert("unknown command"@.len() != "no such shadow root"@.len());
            reveal_strlit("no such window");
            assert("unknown command"@.len() != "no such window"@.len());
            reveal_strlit("script timeout");
            assert("unknown command"@.len() != "script timeout"@.len());
            reveal_strlit("session not created");
            assert("unknown command"@.len() != "session not created"@.len());
            reveal_strlit("stale element reference");
            assert("unknown command"@.len() != "stale element reference"@.len());
            reveal_strlit("timeout");
            assert("unknown command"@.len() != "timeout"@.len());
            reveal_strlit("unable to capture screen");
            assert("unknown command"@.len() != "unable to capture screen"@.len());
            reveal_strlit("unable to set cookie");
            assert("unknown command"@.len() != "unable to set cookie"@.len());
            reveal_strlit("unexpected alert open");
            assert("unknown command"@.len() != "unexpected alert open"@.len());
        },
        ErrorStatus::UnknownError => {
            reveal_strlit("unknown error");
            reveal_strlit("detached shadow root");
            assert("unknown error"@.len() != "detached shadow root"@.len());
            reveal_strlit("element click intercepted");
            assert("unknown error"@.len() != "element click intercepted"@.len());
            reveal_strlit("element not interactable");
            assert("unknown error"@.len() != "element not interactable"@.len());
            reveal_strlit("element not visible");
            assert("unknown error"@.len() != "element not visible"@.len());
            reveal_strlit("element not selectable");
            assert("unknown error"@.len() != "element not selectable"@.len());
            reveal_strlit("insecure certificate");
            assert("unknown error"@.len() != "insecure certificate"@.len());
            reveal_strlit("invalid argument");
            assert("unknown error"@.len() != "invalid argument"@.len());
            reveal_strlit("invalid cookie domain");
            assert("unknown error"@.len() != "invalid cookie domain"@.len());
            reveal_strlit("invalid coordinates");
            assert("unknown error"@.len() != "invalid coordinates"@.len());
            reveal_strlit("invalid element coordinates");
            assert("unknown error"@.len() != "invalid element coordinates"@.len());
            reveal_strlit("invalid element state");
            assert("unknown error"@.len() != "invalid element state"@.len());
            reveal_strlit("invalid selector");
            assert("unknown error"@.len() != "invalid selector"@.len());
            reveal_strlit("invalid session id");
            assert("unknown error"@.len() != "invalid session id"@.len());
            reveal_strlit("javascript error");
            assert("unknown error"@.len() != "javascript error"@.len());
            reveal_strlit("move target out of bounds");
            assert("unknown error"@.len() != "move target out of bounds"@.len());
            reveal_strlit("no such alert");
            assert("unknown error"@[0] != "no such alert"@[0]);
            reveal_strlit("no such cookie");
            assert("unknown error"@.len() != "no such cookie"@.len());
            reveal_strlit("no such element");
            assert("unknown error"@.len() != "no such element"@.len());
            reveal_strlit("no such frame");
            assert("unknown error"@[0] != "no such frame"@[0]);
            reveal_strlit("no such shadow root");
            assert("unknown error"@.len() != "no such shadow root"@.len());
            reveal_strlit("no such window");
            assert("unknown error"@.len() != "no such window"@.len());
            reveal_strlit("script timeout");
            assert("unknown error"@.len() != "script timeout"@.len());
            reveal_strlit("session not created");
            assert("unknown error"@.len() != "session not created"@.len());
            reveal_strlit("stale element reference");
            assert("unknown error"@.len() != "stale element reference"@.len());
            reveal_strlit("timeout");
            assert("unknown error"@.len() != "timeout"@.len());
            reveal_strlit("unable to capture screen");
            assert("unknown error"@.len() != "unable to capture screen"@.len());
            reveal_strlit("unable to set cookie");
            assert("unknown error"@.len() != "unable to set cookie"@.len());
            reveal_strlit("unexpected alert open");
            assert("unknown error"@.len() != "unexpected alert open"@.len());
            reveal_strlit("unknown command");
            assert("unknown error"@.len() != "unknown command"@.len());
        },
        ErrorStatus::UnknownMethod => {
            reveal_strlit("unknown method");
            reveal_strlit("detached shadow root");
            assert("unknown method"@.len() != "detached shadow root"@.len());
            reveal_strlit("element click intercepted");
            assert("unknown method"@.len() != "element click intercepted"@.len());
            reveal_strlit("element not interactable");
            assert("unknown method"@.len() != "element not interactable"@.len());
            reveal_strlit("element not visible");
            assert("unknown method"@.len() != "element not visible"@.len());
            reveal_strlit("element not selectable");
            assert("unknown method"@.len() != "element not selectable"@.len());
            reveal_strlit("insecure certificate");
            assert("unknown method"@.len() != "insecure certificate"@.len());
            reveal_strlit("invalid argument");
            assert("unknown method"@.len() != "invalid argument"@.len());
            reveal_strlit("invalid cookie domain");
            assert("unknown method"@.len() != "invalid cookie domain"@.len());
            reveal_strlit("invalid coordinates");
            assert("unknown method"@.len() != "invalid coordinates"@.len());
            reveal_strlit("invalid element coordinates");
            assert("unknown method"@.len() != "invalid element coordinates"@.len());
            reveal_strlit("invalid element state");
            assert("unknown method"@.len() != "invalid element state"@.len());
            reveal_strlit("invalid selector");
            assert("unknown method"@.len() != "invalid selector"@.len());
            reveal_strlit("invalid session id");
            assert("unknown method"@.len() != "invalid session id"@.len());
            reveal_strlit("javascript error");
            assert("unknown method"@.len() != "javascript error"@.len());
            reveal_strlit("move target out of bounds");
            assert("unknown method"@.len() != "move target out of bounds"@.len());
            reveal_strlit("no such alert");
            assert("unknown method"@.len() != "no such alert"@.len());
            reveal_strlit("no such cookie");
            assert("unknown method"@[0] != "no such cookie"@[0]);
            reveal_strlit("no such element");
            assert("unknown method"@.len() != "no such element"@.len());
            reveal_strlit("no such frame");
            assert("unknown method"@.len() != "no such frame"@.len());
            reveal_strlit("no such shadow root");
            assert("unknown method"@.len() != "no such shadow root"@.len());
            reveal_strlit("no such window");
            assert("unknown method"@[0] != "no such window"@[0]);
            reveal_strlit("script timeout");
            assert("unknown method"@[0] != "script timeout"@[0]);
            reveal_strlit("session not created");
            assert("unknown method"@.len() != "session not created"@.len());
            reveal_strlit("stale element reference");
            assert("unknown method"@.len() != "stale element reference"@.len());
            reveal_strlit("timeout");
            assert("unknown method"@.len() != "timeout"@.len());
            reveal_strlit("unable to capture screen");
            assert("unknown method"@.len() != "unable to capture screen"@.len());
            reveal_strlit("unable to set cookie");
            assert("unknown method"@.len() != "unable to set cookie"@.len());
            reveal_strlit("unexpected alert open");
            assert("unknown method"@.len() != "unexpected alert open"@.len());
            reveal_strlit("unknown command");
            assert("unknown method"@.len() != "unknown command"@.len());
            reveal_strlit("unknown error");
            assert("unknown method"@.len() != "unknown error"@.len());
        },
        ErrorStatus::UnknownPath => {
            reveal_strlit("unknown path");
            reveal_strlit("detached shadow root");
            assert("unknown path"@.len() != "detached shadow root"@.len());
            reveal_strlit("element click intercepted");
            assert("unknown path"@.len() != "element click intercepted"@.len());
            reveal_strlit("element not interactable");
            assert("unknown path"@.len() != "element not interactable"@.len());
            reveal_strlit("element not visible");
            assert("unknown path"@.len() != "element not visible"@.len());
            reveal_strlit("element not selectable");
            assert("unknown path"@.len() != "element not selectable"@.len());
            reveal_strlit("insecure certificate");
            assert("unknown path"@.len() != "insecure certificate"@.len());
            reveal_strlit("invalid argument");
            assert("unknown path"@.len() != "invalid argument"@.len());
            reveal_strlit("invalid cookie domain");
            assert("unknown path"@.len() != "invalid cookie domain"@.len());
            reveal_strlit("invalid coordinates");
            assert("unknown path"@.len() != "invalid coordinates"@.len());
            reveal_strlit("invalid element coordinates");
            assert("unknown path"@.len() != "invalid element coordinates"@.len());
            reveal_strlit("invalid element state");
            assert("unknown path"@.len() != "invalid element state"@.len());
            reveal_strlit("invalid selector");
            assert("unknown path"@.len() != "invalid selector"@.len());
            reveal_strlit("invalid session id");
            assert("unknown path"@.len() != "invalid session id"@.len());
            reveal_strlit("javascript error");
            assert("unknown path"@.len() != "javascript error"@.len());
            reveal_strlit("move target out of bounds");
            assert("unknown path"@.len() != "move target out of bounds"@.len());
            reveal_strlit("no such alert");
            assert("unknown path"@.len() != "no such alert"@.len());
            reveal_strlit("no such cookie");
            assert("unknown path"@.len() != "no such cookie"@.len());
            reveal_strlit("no such element");
            assert("unknown path"@.len() != "no such element"@.len());
            reveal_strlit("no such frame");
            assert("unknown path"@.len() != "no such frame"@.len());
            reveal_strlit("no such shadow root");
            assert("unknown path"@.len() != "no such shadow root"@.len());
            reveal_strlit("no such window");
            assert("unknown path"@.len() != "no such window"@.len());
            reveal_strlit("script timeout");
            assert("unknown path"@.len() != "script timeout"@.len());
            reveal_strlit("session not created");
            assert("unknown path"@.len() != "session not created"@.len());
            reveal_strlit("stale element reference");
            assert("unknown path"@.len() != "stale element reference"@.len());
            reveal_strlit("timeout");
            assert("unknown path"@.len() != "timeout"@.len());
            reveal_strlit("unable to capture screen");
            assert("unknown path"@.len() != "unable to capture screen"@.len());
            reveal_strlit("unable to set cookie");
            assert("unknown path"@.len() != "unable to set cookie"@.len());
            reveal_strlit("unexpected alert open");
            assert("unknown path"@.len() != "unexpected alert open"@.len());
            reveal_strlit("unknown command");
            assert("unknown path"@.len() != "unknown command"@.len());
            reveal_strlit("unknown error");
            assert("unknown path"@.len() != "unknown error"@.len());
            reveal_strlit("unknown method");
            assert("unknown path"@.len() != "unknown method"@.len());
        },
        ErrorStatus::UnsupportedOperation => {
            reveal_strlit("unsupported operation");
            reveal_strlit("detached shadow root");
            assert("unsupported operation"@.len() != "detached shadow root"@.len());
            reveal_strlit("element click intercepted");
            assert("unsupported operation"@.len() != "element click intercepted"@.len());
            reveal_strlit("element not interactable");
            assert("unsupported operation"@.len() != "element not interactable"@.len());
            reveal_strlit("element not visible");
            assert("unsupported operation"@.len() != "element not visible"@.len());
            reveal_strlit("element not selectable");
            assert("unsupported operation"@.len() != "element not selectable"@.len());
            reveal_strlit("insecure certificate");
            assert("unsupported operation"@.len() != "insecure certificate"@.len());
            reveal_strlit("invalid argument");
            assert("unsupported operation"@.len() != "invalid argument"@.len());
            reveal_strlit("invalid cookie domain");
            assert("unsupported operation"@[0] != "invalid cookie domain"@[0]);
            reveal_strlit("invalid coordinates");
            assert("unsupported operation"@.len() != "invalid coordinates"@.len());
            reveal_strlit("invalid element coordinates");
            assert("unsupported operation"@.len() != "invalid element coordinates"@.len());
            reveal_strlit("invalid element state");
            assert("unsupported operation"@[0] != "invalid element state"@[0]);
            reveal_strlit("invalid selector");
            assert("unsupported operation"@.len() != "invalid selector"@.len());
            reveal_strlit("invalid session id");
            assert("unsupported operation"@.len() != "invalid session id"@.len());
            reveal_strlit("javascript error");
            assert("unsupported operation"@.len() != "javascript error"@.len());
            reveal_strlit("move target out of bounds");
            assert("unsupported operation"@.len() != "move target out of bounds"@.len());
            reveal_strlit("no such alert");
            assert("unsupported operation"@.len() != "no such alert"@.len());
            reveal_strlit("no such cookie");
            assert("unsupported operation"@.len() != "no such cookie"@.len());
            reveal_strlit("no such element");
            assert("unsupported operation"@.len() != "no such element"@.len());
            reveal_strlit("no such frame");
            assert("unsupported operation"@.len() != "no such frame"@.len());
            reveal_strlit("no such shadow root");
            assert("unsupported operation"@.len() != "no such shadow root"@.len());
            reveal_strlit("no such window");
            assert("unsupported operation"@.len() != "no such window"@.len());
            reveal_strlit("script timeout");
            assert("unsupported operation"@.len() != "script timeout"@.len());
            reveal_strlit("session not created");
            assert("unsupported operation"@.len() != "session not created"@.len());
            reveal_strlit("stale element reference");
            assert("unsupported operation"@.len() != "stale element reference"@.len());
            reveal_strlit("timeout");
            assert("unsupported operation"@.len() != "timeout"@.len());
            reveal_strlit("unable to capture screen");
            assert("unsupported operation"@.len() != "unable to capture screen"@.len());
            reveal_strlit("unable to set cookie");
            assert("unsupported operation"@.len() != "unable to set cookie"@.len());
            reveal_strlit("unexpected alert open");
            assert("unsupported operation"@[2] != "unexpected alert open"@[2]);
            reveal_strlit("unknown command");
            assert("unsupported operation"@.len() != "unknown command"@.len());
            reveal_strlit("unknown error");
            assert("unsupported operation"@.len() != "unknown error"@.len());
            reveal_strlit("unknown method");
            assert("unsupported operation"@.len() != "unknown method"@.len());
            reveal_strlit("unknown path");
            assert("unsupported operation"@.len() != "unknown path"@.len());
        },
    }
}

/// `url::ParseError`, the error of parsing or joining a URL.
#[verifier::external_type_specification]
#[verifier::external_body]
pub struct ExUrlParseError(url::ParseError);

/// `hyper::Error`, the error of an HTTP exchange.
#[verifier::external_type_specification]
#[verifier::external_body]
pub struct ExHyperError(hyper::Error);

/// The error of `hyper_util`'s legacy HTTP client.
#[verifier::external_type_specification]
#[verifier::external_body]
pub struct ExHyperClientError(hyper_util::client::legacy::Error);

/// `std::io::Error`.
#[verifier::external_type_specification]
#[verifier::external_body]
pub struct ExIoError(std::io::Error);

/// `serde_json::Error`, the error of decoding JSON text.
#[verifier::external_type_specification]
#[verifier::external_body]
pub struct ExJsonError(serde_json::Error);

/// `base64::DecodeError`, the error of decoding base64 text.
#[verifier::external_type_specification]
#[verifier::external_body]
pub struct ExDecodeError(base64::DecodeError);

/// `http::StatusCode`, an HTTP status code.
#[verifier::external_type_specification]
#[verifier::external_body]
pub struct ExStatusCode(http::StatusCode);

/// The status code that `http::StatusCode::from_u16` makes of `code` when it accepts it.
pub uninterp spec fn http_status_of(code: u16) -> http::StatusCode;

/// Calls `http::StatusCode::from_u16`, which accepts exactly the codes from 100 to 999.
/// The status code it builds is named `http_status_of(code)`; as it depends on `code` alone,
/// equal codes give equal status codes.
#[verifier::external_body]
fn status_code_from_u16(code: u16) -> (r: Option<http::StatusCode>)
    ensures
        r is Some <==> 100 <= code <= 999,
        r matches Some(s) ==> s == http_status_of(code),
{
    http::StatusCode::from_u16(code).ok()
}

impl ErrorStatus {
    /// Returns the correct HTTP status code associated with the error type.
    pub fn http_status(&self) -> (s: http::StatusCode)
        ensures
            s == http_status_of(status_http_code(*self)),
    {
        let code = self.http_status_code();
        status_code_from_u16(code).unwrap()
    }

    /// Parse the error string sent by a WebDriver into an `ErrorStatus`.
    ///
    /// A string that names no error status is reported as a non-conforming response.
    pub fn parse(s: &str) -> (r: Result<ErrorStatus, CmdError>)
        ensures
            status_from_text(s@) matches Some(e) ==> r == Ok::<ErrorStatus, CmdError>(e),
            status_from_text(s@) is None ==> (r matches Err(CmdError::NotW3C(Json::String(t)))
                && t@ == s@),
    {
        match ErrorStatus::from_text(s) {
            Some(e) => Ok(e),
            None => Err(CmdError::NotW3C(Json::String(s.to_owned()))),
        }
    }
}

impl std::str::FromStr for ErrorStatus {
    type Err = CmdError;

    /// Parse the error string sent by a WebDriver, as `ErrorStatus::parse` does.
    fn from_str(s: &str) -> (r: Result<Self, Self::Err>)
        ensures
            status_from_text(s@) matches Some(e) ==> r == Ok::<ErrorStatus, CmdError>(e),
            status_from_text(s@) is None ==> (r matches Err(CmdError::NotW3C(Json::String(t)))
                && t@ == s@),
    {
        ErrorStatus::parse(s)
    }
}

impl<'a> TryFrom<&'a str> for ErrorStatus {
    type Error = CmdError;

    /// Parse the error string sent by a WebDriver, as `ErrorStatus::parse` does.
    fn try_from(s: &'a str) -> (r: Result<ErrorStatus, CmdError>)
        ensures
            status_from_text(s@) matches Some(e) ==> r == Ok::<ErrorStatus, CmdError>(e),
            status_from_text(s@) is None ==> (r matches Err(CmdError::NotW3C(Json::String(t)))
                && t@ == s@),
    {
        ErrorStatus::parse(s)
    }
}

/// The error made of an unknown string is known by its characters only, so the conversion
/// states its result in its own `ensures`.
impl<'a> vstd::std_specs::convert::TryFromSpecImpl<&'a str> for ErrorStatus {
    open spec fn obeys_try_from_spec() -> bool {
        false
    }

    open spec fn try_from_spec(s: &'a str) -> Result<ErrorStatus, CmdError> {
        arbitrary()
    }
}

impl TryFrom<CmdError> for ErrorStatus {
    type Error = CmdError;

    /// The status of a standard WebDriver error; any other error is handed back.
    fn try_from(e: CmdError) -> (r: Result<ErrorStatus, CmdError>)
        ensures
            e matches CmdError::Standard(w) ==> r == Ok::<ErrorStatus, CmdError>(w.error),
            !(e is Standard) ==> r == Err::<ErrorStatus, CmdError>(e),
    {
        e.into_status()
    }
}

impl vstd::std_specs::convert::TryFromSpecImpl<CmdError> for ErrorStatus {
    open spec fn obeys_try_from_spec() -> bool {
        true
    }

    open spec fn try_from_spec(e: CmdError) -> Result<ErrorStatus, CmdError> {
        match e {
            CmdError::Standard(w) => Ok(w.error),
            _ => Err(e),
        }
    }
}

/// Error returned by WebDriver.
#[derive(Debug)]
pub struct WebDriver {
    /// Code of this error provided by WebDriver.
    pub error: ErrorStatus,
    /// Description of this error provided by WebDriver.
    pub message: String,
    /// Stacktrace of this error provided by WebDriver.
    pub stacktrace: String,
    /// Optional [error data](https://www.w3.org/TR/webdriver1/#dfn-error-data), populated by
    /// some commands.
    pub data: Option<Json>,
}

impl WebDriver {
    /// Create a new WebDriver error struct.
    pub fn new(error: ErrorStatus, message: &str) -> (w: WebDriver)
        ensures
            w.error == error,
            w.message@ == message@,
            w.stacktrace@ == Seq::<char>::empty(),
            w.data is None,
    {
        WebDriver { error, message: message.to_owned(), stacktrace: String::new(), data: None }
    }

    /// Include a stacktrace in the error details.
    pub fn with_stacktrace(self, stacktrace: String) -> (w: WebDriver)
        ensures
            w == (WebDriver { stacktrace, ..self }),
    {
        WebDriver { stacktrace, ..self }
    }

    /// Include optional [error data](https://www.w3.org/TR/webdriver1/#dfn-error-data).
    pub fn with_data(self, data: Json) -> (w: WebDriver)
        ensures
            w == (WebDriver { data: Some(data), ..self }),
    {
        WebDriver { data: Some(data), ..self }
    }

    /// Returns the [code](https://www.w3.org/TR/webdriver/#dfn-error-code) of this error.
    pub fn error(&self) -> (s: String)
        ensures
            s@ == status_text(self.error),
    {
        self.error.description().to_owned()
    }

    /// Returns the [HTTP status](https://www.w3.org/TR/webdriver/#dfn-error-code) of this error.
    pub fn http_status(&self) -> (s: http::StatusCode)
        ensures
            s == http_status_of(status_http_code(self.error)),
    {
        self.error.http_status()
    }
}

/// An error occurred while attempting to establish a session for a new `Client`.
#[derive(Debug)]
pub enum NewSessionError {
    /// The given WebDriver URL is invalid.
    BadWebdriverUrl(url::ParseError),
    /// The WebDriver server could not be reached.
    Failed(hyper::Error),
    /// The WebDriver server could not be reached (error in hyper_util's legacy client).
    FailedC(hyper_util::client::legacy::Error),
    /// The connection to the WebDriver server was lost.
    Lost(std::io::Error),
    /// The server did not give a WebDriver-conforming response.
    NotW3C(Json),
    /// The WebDriver server refused to create a new session.
    SessionNotCreated(WebDriver),
}

impl NewSessionError {
    /// A short description of the kind of error.
    pub fn description(&self) -> (s: &'static str)
        ensures
            s@ == new_session_error_text(*self),
    {
        match self {
            NewSessionError::BadWebdriverUrl(..) => "webdriver url is invalid",
            NewSessionError::Failed(..) => "webdriver server did not respond",
            NewSessionError::FailedC(..) => "webdriver server did not respond (legacy client)",
            NewSessionError::Lost(..) => "webdriver server disconnected",
            NewSessionError::NotW3C(..) => "webdriver server gave non-conformant response",
            NewSessionError::SessionNotCreated(..) => "webdriver did not create session",
        }
    }
}

/// The description of each kind of session error.
pub open spec fn new_session_error_text(e: NewSessionError) -> Seq<char> {
    match e {
        NewSessionError::BadWebdriverUrl(..) => "webdriver url is invalid"@,
        NewSessionError::Failed(..) => "webdriver server did not respond"@,
        NewSessionError::FailedC(..) => "webdriver server did not respond (legacy client)"@,
        NewSessionError::Lost(..) => "webdriver server disconnected"@,
        NewSessionError::NotW3C(..) => "webdriver server gave non-conformant response"@,
        NewSessionError::SessionNotCreated(..) => "webdriver did not create session"@,
    }
}

/// An error occurred while executing some browser action.
#[derive(Debug)]
pub enum CmdError {
    /// A standard WebDriver error occurred.
    ///
    /// See [the spec](https://www.w3.org/TR/webdriver/#handling-errors) for details about what
    /// each of these errors represent.
    Standard(WebDriver),
    /// A bad URL was encountered during parsing.
    ///
    /// This normally happens if a link is clicked or the current URL is requested, but the URL in
    /// question is invalid or otherwise malformed.
    BadUrl(url::ParseError),
    /// A request to the WebDriver server failed.
    Failed(hyper::Error),
    /// A request to the WebDriver server failed (error in hyper_util's legacy client).
    FailedC(hyper_util::client::legacy::Error),
    /// The connection to the WebDriver server was lost.
    Lost(std::io::Error),
    /// The WebDriver server responded with a non-standard, non-JSON reply.
    NotJson(String),
    /// The WebDriver server responded to a command with an invalid JSON response.
    Json(serde_json::Error),
    /// The WebDriver server produced a response that does not conform to the
    /// [W3C WebDriver specification](https://www.w3.org/TR/webdriver/).
    NotW3C(Json),
    /// A function was invoked with an invalid argument.
    InvalidArgument(String, String),
    /// Could not decode a base64 image.
    ImageDecodeError(base64::DecodeError),
    /// Timeout of a wait condition.
    ///
    /// When waiting for a condition using `Client::wait`, any of the consuming methods may
    /// return this error, indicating that the timeout waiting for the condition occurred.
    WaitTimeout,
}

/// `e` is a standard WebDriver error with status `s`.
pub open spec fn cmd_error_has_status(e: CmdError, s: ErrorStatus) -> bool {
    e matches CmdError::Standard(w) && w.error == s
}

/// The description of each kind of command error.
pub open spec fn cmd_error_text(e: CmdError) -> Seq<char> {
    match e {
        CmdError::Standard(..) => "webdriver returned error"@,
        CmdError::BadUrl(..) => "bad url provided"@,
        CmdError::Failed(..) => "webdriver could not be reached"@,
        CmdError::FailedC(..) => "webdriver could not be reached (hyper_util)"@,
        CmdError::Lost(..) => "webdriver connection lost"@,
        CmdError::NotJson(..) => "webdriver returned invalid response"@,
        CmdError::Json(..) => "webdriver returned incoherent response"@,
        CmdError::NotW3C(..) => "webdriver returned non-conforming response"@,
        CmdError::InvalidArgument(..) => "invalid argument provided"@,
        CmdError::ImageDecodeError(..) => "error decoding image"@,
        CmdError::WaitTimeout => "timeout waiting on condition"@,
    }
}

impl CmdError {
    /// A short description of the kind of error.
    pub fn description(&self) -> (s: &'static str)
        ensures
            s@ == cmd_error_text(*self),
    {
        match self {
            CmdError::Standard(..) => "webdriver returned error",
            CmdError::BadUrl(..) => "bad url provided",
            CmdError::Failed(..) => "webdriver could not be reached",
            CmdError::FailedC(..) => "webdriver could not be reached (hyper_util)",
            CmdError::Lost(..) => "webdriver connection lost",
            CmdError::NotJson(..) => "webdriver returned invalid response",
            CmdError::Json(..) => "webdriver returned incoherent response",
            CmdError::NotW3C(..) => "webdriver returned non-conforming response",
            CmdError::InvalidArgument(..) => "invalid argument provided",
            CmdError::ImageDecodeError(..) => "error decoding image",
            CmdError::WaitTimeout => "timeout waiting on condition",
        }
    }

    /// Is this a standard WebDriver error with the given status?
    pub fn has_status(&self, status: ErrorStatus) -> (b: bool)
        ensures
            b == cmd_error_has_status(*self, status),
    {
        match self {
            CmdError::Standard(w) => w.error == status,
            _ => false,
        }
    }

    /// Wrap a standard WebDriver error.
    pub fn from_webdriver_error(e: WebDriver) -> (r: CmdError)
        ensures
            r == CmdError::Standard(e),
    {
        CmdError::Standard(e)
    }

    /// The status of a standard WebDriver error; any other error is handed back.
    pub fn into_status(self) -> (r: Result<ErrorStatus, CmdError>)
        ensures
            self matches CmdError::Standard(w) ==> r == Ok::<ErrorStatus, CmdError>(w.error),
            !(self is Standard) ==> r == Err::<ErrorStatus, CmdError>(self),
    {
        match self {
            CmdError::Standard(w) => Ok(w.error),
            e => Err(e),
        }
    }
}

impl CmdError {
    /// Is this a standard WebDriver error with status [`ErrorStatus::DetachedShadowRoot`]?
    pub fn is_detached_shadow_root(&self) -> (b: bool)
        ensures
            b == cmd_error_has_status(*self, ErrorStatus::DetachedShadowRoot),
    {
        self.has_status(ErrorStatus::DetachedShadowRoot)
    }

    /// Is this a standard WebDriver error with status [`ErrorStatus::ElementNotInteractable`]?
    pub fn is_element_not_interactable(&self) -> (b: bool)
        ensures
            b == cmd_error_has_status(*self, ErrorStatus::ElementNotInteractable),
    {
        self.has_status(ErrorStatus::ElementNotInteractable)
    }

    /// Is this a standard WebDriver error with status [`ErrorStatus::ElementNotSelectable`]?
    pub fn is_element_not_selectable(&self) -> (b: bool)
        ensures
            b == cmd_error_has_status(*self, ErrorStatus::ElementNotSelectable),
    {
        self.has_status(ErrorStatus::ElementNotSelectable)
    }

    /// Is this a standard WebDriver error with status [`ErrorStatus::InsecureCertificate`]?
    pub fn is_insecure_certificate(&self) -> (b: bool)
        ensures
            b == cmd_error_has_status(*self, ErrorStatus::InsecureCertificate),
    {
        self.has_status(ErrorStatus::InsecureCertificate)
    }

    /// Is this a standard WebDriver error with status [`ErrorStatus::InvalidArgument`]?
    pub fn is_invalid_argument(&self) -> (b: bool)
        ensures
            b == cmd_error_has_status(*self, ErrorStatus::InvalidArgument),
    {
        self.has_status(ErrorStatus::InvalidArgument)
    }

    /// Is this a standard WebDriver error with status [`ErrorStatus::InvalidCookieDomain`]?
    pub fn is_invalid_cookie_domain(&self) -> (b: bool)
        ensures
            b == cmd_error_has_status(*self, ErrorStatus::InvalidCookieDomain),
    {
        self.has_status(ErrorStatus::InvalidCookieDomain)
    }

    /// Is this a standard WebDriver error with status [`ErrorStatus::InvalidCoordinates`]?
    pub fn is_invalid_coordinates(&self) -> (b: bool)
        ensures
            b == cmd_error_has_status(*self, ErrorStatus::InvalidCoordinates),
    {
        self.has_status(ErrorStatus::InvalidCoordinates)
    }

    /// Is this a standard WebDriver error with status [`ErrorStatus::InvalidElementState`]?
    pub fn is_invalid_element_state(&self) -> (b: bool)
        ensures
            b == cmd_error_has_status(*self, ErrorStatus::InvalidElementState),
    {
        self.has_status(ErrorStatus::InvalidElementState)
    }

    /// Is this a standard WebDriver error with status [`ErrorStatus::InvalidSelector`]?
    pub fn is_invalid_selector(&self) -> (b: bool)
        ensures
            b == cmd_error_has_status(*self, ErrorStatus::InvalidSelector),
    {
        self.has_status(ErrorStatus::InvalidSelector)
    }

    /// Is this a standard WebDriver error with status [`ErrorStatus::InvalidSessionId`]?
    pub fn is_invalid_session_id(&self) -> (b: bool)
        ensures
            b == cmd_error_has_status(*self, ErrorStatus::InvalidSessionId),
    {
        self.has_status(ErrorStatus::InvalidSessionId)
    }

    /// Is this a standard WebDriver error with status [`ErrorStatus::JavascriptError`]?
    pub fn is_javascript_error(&self) -> (b: bool)
        ensures
            b == cmd_error_has_status(*self, ErrorStatus::JavascriptError),
    {
        self.has_status(ErrorStatus::JavascriptError)
    }

    /// Is this a standard WebDriver error with status [`ErrorStatus::MoveTargetOutOfBounds`]?
    pub fn is_move_target_out_of_bounds(&self) -> (b: bool)
        ensures
            b == cmd_error_has_status(*self, ErrorStatus::MoveTargetOutOfBounds),
    {
        self.has_status(ErrorStatus::MoveTargetOutOfBounds)
    }

    /// Is this a standard WebDriver error with status [`ErrorStatus::NoSuchAlert`]?
    pub fn is_no_such_alert(&self) -> (b: bool)
        ensures
            b == cmd_error_has_status(*self, ErrorStatus::NoSuchAlert),
    {
        self.has_status(ErrorStatus::NoSuchAlert)
    }

    /// Is this a standard WebDriver error with status [`ErrorStatus::NoSuchCookie`]?
    pub fn is_no_such_cookie(&self) -> (b: bool)
        ensures
            b == cmd_error_has_status(*self, ErrorStatus::NoSuchCookie),
    {
        self.has_status(ErrorStatus::NoSuchCookie)
    }

    /// Is this a standard WebDriver error with status [`ErrorStatus::NoSuchElement`]?
    pub fn is_no_such_element(&self) -> (b: bool)
        ensures
            b == cmd_error_has_status(*self, ErrorStatus::NoSuchElement),
    {
        self.has_status(ErrorStatus::NoSuchElement)
    }

    /// Is this a standard WebDriver error with status [`ErrorStatus::NoSuchFrame`]?
    pub fn is_no_such_frame(&self) -> (b: bool)
        ensures
            b == cmd_error_has_status(*self, ErrorStatus::NoSuchFrame),
    {
        self.has_status(ErrorStatus::NoSuchFrame)
    }

    /// Is this a standard WebDriver error with status [`ErrorStatus::NoSuchShadowRoot`]?
    pub fn is_no_such_shadow_root(&self) -> (b: bool)
        ensures
            b == cmd_error_has_status(*self, ErrorStatus::NoSuchShadowRoot),
    {
        self.has_status(ErrorStatus::NoSuchShadowRoot)
    }

    /// Is this a standard WebDriver error with status [`ErrorStatus::NoSuchWindow`]?
    pub fn is_no_such_window(&self) -> (b: bool)
        ensures
            b == cmd_error_has_status(*self, ErrorStatus::NoSuchWindow),
    {
        self.has_status(ErrorStatus::NoSuchWindow)
    }

    /// Is this a standard WebDriver error with status [`ErrorStatus::ScriptTimeout`]?
    pub fn is_script_timeout(&self) -> (b: bool)
        ensures
            b == cmd_error_has_status(*self, ErrorStatus::ScriptTimeout),
    {
        self.has_status(ErrorStatus::ScriptTimeout)
    }

    /// Is this a standard WebDriver error with status [`ErrorStatus::SessionNotCreated`]?
    pub fn is_session_not_created(&self) -> (b: bool)
        ensures
            b == cmd_error_has_status(*self, ErrorStatus::SessionNotCreated),
    {
        self.has_status(ErrorStatus::SessionNotCreated)
    }

    /// Is this a standard WebDriver error with status [`ErrorStatus::StaleElementReference`]?
    pub fn is_stale_element_reference(&self) -> (b: bool)
        ensures
            b == cmd_error_has_status(*self, ErrorStatus::StaleElementReference),
    {
        self.has_status(ErrorStatus::StaleElementReference)
    }

    /// Is this a standard WebDriver error with status [`ErrorStatus::Timeout`]?
    pub fn is_timeout(&self) -> (b: bool)
        ensures
            b == cmd_error_has_status(*self, ErrorStatus::Timeout),
    {
        self.has_status(ErrorStatus::Timeout)
    }

    /// Is this a standard WebDriver error with status [`ErrorStatus::UnableToCaptureScreen`]?
    pub fn is_unable_to_capture_screen(&self) -> (b: bool)
        ensures
            b == cmd_error_has_status(*self, ErrorStatus::UnableToCaptureScreen),
    {
        self.has_status(ErrorStatus::UnableToCaptureScreen)
    }

    /// Is this a standard WebDriver error with status [`ErrorStatus::UnableToSetCookie`]?
    pub fn is_unable_to_set_cookie(&self) -> (b: bool)
        ensures
            b == cmd_error_has_status(*self, ErrorStatus::UnableToSetCookie),
    {
        self.has_status(ErrorStatus::UnableToSetCookie)
    }

    /// Is this a standard WebDriver error with status [`ErrorStatus::UnexpectedAlertOpen`]?
    pub fn is_unexpected_alert_open(&self) -> (b: bool)
        ensures
            b == cmd_error_has_status(*self, ErrorStatus::UnexpectedAlertOpen),
    {
        self.has_status(ErrorStatus::UnexpectedAlertOpen)
    }

    /// Is this a standard WebDriver error with status [`ErrorStatus::UnknownCommand`]?
    pub fn is_unknown_command(&self) -> (b: bool)
        ensures
            b == cmd_error_has_status(*self, ErrorStatus::UnknownCommand),
    {
        self.has_status(ErrorStatus::UnknownCommand)
    }

    /// Is this a standard WebDriver error with status [`ErrorStatus::UnknownError`]?
    pub fn is_unknown_error(&self) -> (b: bool)
        ensures
            b == cmd_error_has_status(*self, ErrorStatus::UnknownError),
    {
        self.has_status(ErrorStatus::UnknownError)
    }

    /// Is this a standard WebDriver error with status [`ErrorStatus::UnknownMethod`]?
    pub fn is_unknown_method(&self) -> (b: bool)
        ensures
            b == cmd_error_has_status(*self, ErrorStatus::UnknownMethod),
    {
        self.has_status(ErrorStatus::UnknownMethod)
    }

    /// Is this a standard WebDriver error with status [`ErrorStatus::UnknownPath`]?
    pub fn is_unknown_path(&self) -> (b: bool)
        ensures
            b == cmd_error_has_status(*self, ErrorStatus::UnknownPath),
    {
        self.has_status(ErrorStatus::UnknownPath)
    }

    /// Is this a standard WebDriver error with status [`ErrorStatus::UnsupportedOperation`]?
    pub fn is_unsupported_operation(&self) -> (b: bool)
        ensures
            b == cmd_error_has_status(*self, ErrorStatus::UnsupportedOperation),
    {
        self.has_status(ErrorStatus::UnsupportedOperation)
    }

}

/// Error of attempting to create an invalid `WindowHandle` from a `"current"` string.
///
/// See [window handles](https://www.w3.org/TR/webdriver/#dfn-window-handles).
#[derive(Clone, Copy, Debug)]
pub struct InvalidWindowHandle;

impl InvalidWindowHandle {
    /// The message that describes this error.
    pub fn message(&self) -> (s: &'static str)
        ensures
            s@ == "Window handle cannot be \"current\""@,
    {
        "Window handle cannot be \"current\""
    }
}

impl From<InvalidWindowHandle> for CmdError {
    fn from(_e: InvalidWindowHandle) -> (r: CmdError)
        ensures
            r matches CmdError::NotW3C(Json::String(s)) && s@ == "current"@,
    {
        CmdError::NotW3C(Json::String("current".to_owned()))
    }
}

/// The error built from an invalid window handle holds a string that is only known by its
/// characters, so the conversion states its result in its own `ensures` instead.
impl vstd::std_specs::convert::FromSpecImpl<InvalidWindowHandle> for CmdError {
    open spec fn obeys_from_spec() -> bool {
        false
    }

    open spec fn from_spec(e: InvalidWindowHandle) -> CmdError {
        CmdError::WaitTimeout
    }
}

impl From<std::io::Error> for CmdError {
    fn from(e: std::io::Error) -> CmdError {
        CmdError::Lost(e)
    }
}

impl vstd::std_specs::convert::FromSpecImpl<std::io::Error> for CmdError {
    open spec fn obeys_from_spec() -> bool {
        true
    }

    open spec fn from_spec(e: std::io::Error) -> CmdError {
        CmdError::Lost(e)
    }
}

impl From<url::ParseError> for CmdError {
    fn from(e: url::ParseError) -> CmdError {
        CmdError::BadUrl(e)
    }
}

impl vstd::std_specs::convert::FromSpecImpl<url::ParseError> for CmdError {
    open spec fn obeys_from_spec() -> bool {
        true
    }

    open spec fn from_spec(e: url::ParseError) -> CmdError {
        CmdError::BadUrl(e)
    }
}

impl From<hyper::Error> for CmdError {
    fn from(e: hyper::Error) -> CmdError {
        CmdError::Failed(e)
    }
}

impl vstd::std_specs::convert::FromSpecImpl<hyper::Error> for CmdError {
    open spec fn obeys_from_spec() -> bool {
        true
    }

    open spec fn from_spec(e: hyper::Error) -> CmdError {
        CmdError::Failed(e)
    }
}

impl From<hyper_util::client::legacy::Error> for CmdError {
    fn from(e: hyper_util::client::legacy::Error) -> CmdError {
        CmdError::FailedC(e)
    }
}

impl vstd::std_specs::convert::FromSpecImpl<hyper_util::client::legacy::Error> for CmdError {
    open spec fn obeys_from_spec() -> bool {
        true
    }

    open spec fn from_spec(e: hyper_util::client::legacy::Error) -> CmdError {
        CmdError::FailedC(e)
    }
}

impl From<serde_json::Error> for CmdError {
    fn from(e: serde_json::Error) -> CmdError {
        CmdError::Json(e)
    }
}

impl vstd::std_specs::convert::FromSpecImpl<serde_json::Error> for CmdError {
    open spec fn obeys_from_spec() -> bool {
        true
    }

    open spec fn from_spec(e: serde_json::Error) -> CmdError {
        CmdError::Json(e)
    }
}

} // verus!
