//! The errors of the protocol and the table that classifies them.
use vstd::prelude::*;
use crate::json::Json;
use crate::text::str_eq;

verus! {

/// The kinds of error a WebDriver server reports.
#[derive(Clone, Copy, Debug, PartialEq, Eq, Structural)]
pub enum ErrorKind {
    ElementClickIntercepted,
    ElementNotSelectable,
    ElementNotInteractable,
    InsecureCertificate,
    InvalidArgument,
    InvalidCookieDomain,
    InvalidCoordinates,
    InvalidElementState,
    InvalidSelector,
    NoSuchAlert,
    NoSuchFrame,
    NoSuchWindow,
    StaleElementReference,
    UnknownCommand,
    NoSuchCookie,
    InvalidSessionId,
    NoSuchElement,
    JavascriptError,
    MoveTargetOutOfBounds,
    SessionNotCreated,
    UnableToSetCookie,
    UnableToCaptureScreen,
    UnexpectedAlertOpen,
    UnknownError,
    UnsupportedOperation,
    Timeout,
    ScriptTimeout,
    UnknownMethod,
}

/// The error code under which the server reports `k`.
pub open spec fn kind_code(k: ErrorKind) -> Seq<char> {
    match k {
        ErrorKind::ElementClickIntercepted => "element click intercepted"@,
        ErrorKind::ElementNotSelectable => "element not selectable"@,
        ErrorKind::ElementNotInteractable => "element not interactable"@,
        ErrorKind::InsecureCertificate => "insecure certificate"@,
        ErrorKind::InvalidArgument => "invalid argument"@,
        ErrorKind::InvalidCookieDomain => "invalid cookie domain"@,
        ErrorKind::InvalidCoordinates => "invalid coordinates"@,
        ErrorKind::InvalidElementState => "invalid element state"@,
        ErrorKind::InvalidSelector => "invalid selector"@,
        ErrorKind::NoSuchAlert => "no such alert"@,
        ErrorKind::NoSuchFrame => "no such frame"@,
        ErrorKind::NoSuchWindow => "no such window"@,
        ErrorKind::StaleElementReference => "stale element reference"@,
        ErrorKind::UnknownCommand => "unknown command"@,
        ErrorKind::NoSuchCookie => "no such cookie"@,
        ErrorKind::InvalidSessionId => "invalid session id"@,
        ErrorKind::NoSuchElement => "no such element"@,
        ErrorKind::JavascriptError => "javascript error"@,
        ErrorKind::MoveTargetOutOfBounds => "move target out of bounds"@,
        ErrorKind::SessionNotCreated => "session not created"@,
        ErrorKind::UnableToSetCookie => "unable to set cookie"@,
        ErrorKind::UnableToCaptureScreen => "unable to capture screen"@,
        ErrorKind::UnexpectedAlertOpen => "unexpected alert open"@,
        ErrorKind::UnknownError => "unknown error"@,
        ErrorKind::UnsupportedOperation => "unsupported operation"@,
        ErrorKind::Timeout => "timeout"@,
        ErrorKind::ScriptTimeout => "script timeout"@,
        ErrorKind::UnknownMethod => "unknown method"@,
    }
}

/// The HTTP status with which the server reports `k`.
pub open spec fn kind_status(k: ErrorKind) -> u16 {
    match k {
        ErrorKind::ElementClickIntercepted => 400,
        ErrorKind::ElementNotSelectable => 400,
        ErrorKind::ElementNotInteractable => 400,
        ErrorKind::InsecureCertificate => 400,
        ErrorKind::InvalidArgument => 400,
        ErrorKind::InvalidCookieDomain => 400,
        ErrorKind::InvalidCoordinates => 400,
        ErrorKind::InvalidElementState => 400,
        ErrorKind::InvalidSelector => 400,
        ErrorKind::NoSuchAlert => 400,
        ErrorKind::NoSuchFrame => 400,
        ErrorKind::NoSuchWindow => 400,
        ErrorKind::StaleElementReference => 400,
        ErrorKind::UnknownCommand => 404,
        ErrorKind::NoSuchCookie => 404,
        ErrorKind::InvalidSessionId => 404,
        ErrorKind::NoSuchElement => 404,
        ErrorKind::JavascriptError => 500,
        ErrorKind::MoveTargetOutOfBounds => 500,
        ErrorKind::SessionNotCreated => 500,
        ErrorKind::UnableToSetCookie => 500,
        ErrorKind::UnableToCaptureScreen => 500,
        ErrorKind::UnexpectedAlertOpen => 500,
        ErrorKind::UnknownError => 500,
        ErrorKind::UnsupportedOperation => 500,
        ErrorKind::Timeout => 408,
        ErrorKind::ScriptTimeout => 408,
        ErrorKind::UnknownMethod => 405,
    }
}

/// The kind that the pair of an HTTP status and an error code names, if the table holds it.
pub open spec fn kind_of(status: u16, code: Seq<char>) -> Option<ErrorKind> {
    if status == 400 {
        if code == "element click intercepted"@ {
            Some(ErrorKind::ElementClickIntercepted)
        } else if code == "element not selectable"@ {
            Some(ErrorKind::ElementNotSelectable)
        } else if code == "element not interactable"@ {
            Some(ErrorKind::ElementNotInteractable)
        } else if code == "insecure certificate"@ {
            Some(ErrorKind::InsecureCertificate)
        } else if code == "invalid argument"@ {
            Some(ErrorKind::InvalidArgument)
        } else if code == "invalid cookie domain"@ {
            Some(ErrorKind::InvalidCookieDomain)
        } else if code == "invalid coordinates"@ {
            Some(ErrorKind::InvalidCoordinates)
        } else if code == "invalid element state"@ {
            Some(ErrorKind::InvalidElementState)
        } else if code == "invalid selector"@ {
            Some(ErrorKind::InvalidSelector)
        } else if code == "no such alert"@ {
            Some(ErrorKind::NoSuchAlert)
        } else if code == "no such frame"@ {
            Some(ErrorKind::NoSuchFrame)
        } else if code == "no such window"@ {
            Some(ErrorKind::NoSuchWindow)
        } else if code == "stale element reference"@ {
            Some(ErrorKind::StaleElementReference)
        } else {
            None
        }
    } else if status == 404 {
        if code == "unknown command"@ {
            Some(ErrorKind::UnknownCommand)
        } else if code == "no such cookie"@ {
            Some(ErrorKind::NoSuchCookie)
        } else if code == "invalid session id"@ {
            Some(ErrorKind::InvalidSessionId)
        } else if code == "no such element"@ {
            Some(ErrorKind::NoSuchElement)
        } else {
            None
        }
    } else if status == 500 {
        if code == "javascript error"@ {
            Some(ErrorKind::JavascriptError)
        } else if code == "move target out of bounds"@ {
            Some(ErrorKind::MoveTargetOutOfBounds)
        } else if code == "session not created"@ {
            Some(ErrorKind::SessionNotCreated)
        } else if code == "unable to set cookie"@ {
            Some(ErrorKind::UnableToSetCookie)
        } else if code == "unable to capture screen"@ {
            Some(ErrorKind::UnableToCaptureScreen)
        } else if code == "unexpected alert open"@ {
            Some(ErrorKind::UnexpectedAlertOpen)
        } else if code == "unknown error"@ {
            Some(ErrorKind::UnknownError)
        } else if code == "unsupported operation"@ {
            Some(ErrorKind::UnsupportedOperation)
        } else {
            None
        }
    } else if status == 408 {
        if code == "timeout"@ {
            Some(ErrorKind::Timeout)
        } else if code == "script timeout"@ {
            Some(ErrorKind::ScriptTimeout)
        } else {
            None
        }
    } else if status == 405 {
        if code == "unknown method"@ {
            Some(ErrorKind::UnknownMethod)
        } else {
            None
        }
    } else {
        None
    }
}

/// The classification table is exact: each kind is named by its own status and code, and a
/// pair that names a kind is that kind's status and code.
pub proof fn lemma_classification_exact(status: u16, code: Seq<char>, k: ErrorKind)
    ensures
        kind_of(kind_status(k), kind_code(k)) == Some(k),
        kind_of(status, code) == Some(k) ==> kind_status(k) == status && kind_code(k) == code,
{
    reveal_strlit("element click intercepted");
    reveal_strlit("element not selectable");
    reveal_strlit("element not interactable");
    reveal_strlit("insecure certificate");
    reveal_strlit("invalid argument");
    reveal_strlit("invalid cookie domain");
    reveal_strlit("invalid coordinates");
    reveal_strlit("invalid element state");
    reveal_strlit("invalid selector");
    reveal_strlit("no such alert");
    reveal_strlit("no such frame");
    reveal_strlit("no such window");
    reveal_strlit("stale element reference");
    reveal_strlit("unknown command");
    reveal_strlit("no such cookie");
    reveal_strlit("invalid session id");
    reveal_strlit("no such element");
    reveal_strlit("javascript error");
    reveal_strlit("move target out of bounds");
    reveal_strlit("session not created");
    reveal_strlit("unable to set cookie");
    reveal_strlit("unable to capture screen");
    reveal_strlit("unexpected alert open");
    reveal_strlit("unknown error");
    reveal_strlit("unsupported operation");
    reveal_strlit("timeout");
    reveal_strlit("script timeout");
    reveal_strlit("unknown method");
    match k {
        ErrorKind::ElementClickIntercepted => {
        },
        ErrorKind::ElementNotSelectable => {
            assert(kind_code(k).len() != "element click intercepted"@.len());
        },
        ErrorKind::ElementNotInteractable => {
            assert(kind_code(k).len() != "element click intercepted"@.len());
            assert(kind_code(k).len() != "element not selectable"@.len());
        },
        ErrorKind::InsecureCertificate => {
            assert(kind_code(k).len() != "element click intercepted"@.len());
            assert(kind_code(k).len() != "element not selectable"@.len());
            assert(kind_code(k).len() != "element not interactable"@.len());
        },
        ErrorKind::InvalidArgument => {
            assert(kind_code(k).len() != "element click intercepted"@.len());
            assert(kind_code(k).len() != "element not selectable"@.len());
            assert(kind_code(k).len() != "element not interactable"@.len());
            assert(kind_code(k).len() != "insecure certificate"@.len());
        },
        ErrorKind::InvalidCookieDomain => {
            assert(kind_code(k).len() != "element click intercepted"@.len());
            assert(kind_code(k).len() != "element not selectable"@.len());
            assert(kind_code(k).len() != "element not interactable"@.len());
            assert(kind_code(k).len() != "insecure certificate"@.len());
            assert(kind_code(k).len() != "invalid argument"@.len());
        },
        ErrorKind::InvalidCoordinates => {
            assert(kind_code(k).len() != "element click intercepted"@.len());
            assert(kind_code(k).len() != "element not selectable"@.len());
            assert(kind_code(k).len() != "element not interactable"@.len());
            assert(kind_code(k).len() != "insecure certificate"@.len());
            assert(kind_code(k).len() != "invalid argument"@.len());
            assert(kind_code(k).len() != "invalid cookie domain"@.len());
        },
        ErrorKind::InvalidElementState => {
            assert(kind_code(k).len() != "element click intercepted"@.len());
            assert(kind_code(k).len() != "element not selectable"@.len());
            assert(kind_code(k).len() != "element not interactable"@.len());
            assert(kind_code(k).len() != "insecure certificate"@.len());
            assert(kind_code(k).len() != "invalid argument"@.len());
            assert(kind_code(k)[8] != "invalid cookie domain"@[8]);
            assert(kind_code(k).len() != "invalid coordinates"@.len());
        },
        ErrorKind::InvalidSelector => {
            assert(kind_code(k).len() != "element click intercepted"@.len());
            assert(kind_code(k).len() != "element not selectable"@.len());
            assert(kind_code(k).len() != "element not interactable"@.len());
            assert(kind_code(k).len() != "insecure certificate"@.len());
            assert(kind_code(k)[8] != "invalid argument"@[8]);
            assert(kind_code(k).len() != "invalid cookie domain"@.len());
            assert(kind_code(k).len() != "invalid coordinates"@.len());
            assert(kind_code(k).len() != "invalid element state"@.len());
        },
        ErrorKind::NoSuchAlert => {
            assert(kind_code(k).len() != "element click intercepted"@.len());
            assert(kind_code(k).len() != "element not selectable"@.len());
            assert(kind_code(k).len() != "element not interactable"@.len());
            assert(kind_code(k).len() != "insecure certificate"@.len());
            assert(kind_code(k).len() != "invalid argument"@.len());
            assert(kind_code(k).len() != "invalid cookie domain"@.len());
            assert(kind_code(k).len() != "invalid coordinates"@.len());
            assert(kind_code(k).len() != "invalid element state"@.len());
            assert(kind_code(k).len() != "invalid selector"@.len());
        },
        ErrorKind::NoSuchFrame => {
            assert(kind_code(k).len() != "element click intercepted"@.len());
            assert(kind_code(k).len() != "element not selectable"@.len());
            assert(kind_code(k).len() != "element not interactable"@.len());
            assert(kind_code(k).len() != "insecure certificate"@.len());
            assert(kind_code(k).len() != "invalid argument"@.len());
            assert(kind_code(k).len() != "invalid cookie domain"@.len());
            assert(kind_code(k).len() != "invalid coordinates"@.len());
            assert(kind_code(k).len() != "invalid element state"@.len());
            assert(kind_code(k).len() != "invalid selector"@.len());
            assert(kind_code(k)[8] != "no such alert"@[8]);
        },
        ErrorKind::NoSuchWindow => {
            assert(kind_code(k).len() != "element click intercepted"@.len());
            assert(kind_code(k).len() != "element not selectable"@.len());
            assert(kind_code(k).len() != "element not interactable"@.len());
            assert(kind_code(k).len() != "insecure certificate"@.len());
            assert(kind_code(k).len() != "invalid argument"@.len());
            assert(kind_code(k).len() != "invalid cookie domain"@.len());
            assert(kind_code(k).len() != "invalid coordinates"@.len());
            assert(kind_code(k).len() != "invalid element state"@.len());
            assert(kind_code(k).len() != "invalid selector"@.len());
            assert(kind_code(k).len() != "no such alert"@.len());
            assert(kind_code(k).len() != "no such frame"@.len());
        },
        ErrorKind::StaleElementReference => {
            assert(kind_code(k).len() != "element click intercepted"@.len());
            assert(kind_code(k).len() != "element not selectable"@.len());
            assert(kind_code(k).len() != "element not interactable"@.len());
            assert(kind_code(k).len() != "insecure certificate"@.len());
            assert(kind_code(k).len() != "invalid argument"@.len());
            assert(kind_code(k).len() != "invalid cookie domain"@.len());
            assert(kind_code(k).len() != "invalid coordinates"@.len());
            assert(kind_code(k).len() != "invalid element state"@.len());
            assert(kind_code(k).len() != "invalid selector"@.len());
            assert(kind_code(k).len() != "no such alert"@.len());
            assert(kind_code(k).len() != "no such frame"@.len());
            assert(kind_code(k).len() != "no such window"@.len());
        },
        ErrorKind::UnknownCommand => {
        },
        ErrorKind::NoSuchCookie => {
            assert(kind_code(k).len() != "unknown command"@.len());
        },
        ErrorKind::InvalidSessionId => {
            assert(kind_code(k).len() != "unknown command"@.len());
            assert(kind_code(k).len() != "no such cookie"@.len());
        },
        ErrorKind::NoSuchElement => {
            assert(kind_code(k)[0] != "unknown command"@[0]);
            assert(kind_code(k).len() != "no such cookie"@.len());
            assert(kind_code(k).len() != "invalid session id"@.len());
        },
        ErrorKind::JavascriptError => {
        },
        ErrorKind::MoveTargetOutOfBounds => {
            assert(kind_code(k).len() != "javascript error"@.len());
        },
        ErrorKind::SessionNotCreated => {
            assert(kind_code(k).len() != "javascript error"@.len());
            assert(kind_code(k).len() != "move target out of bounds"@.len());
        },
        ErrorKind::UnableToSetCookie => {
            assert(kind_code(k).len() != "javascript error"@.len());
            assert(kind_code(k).len() != "move target out of bounds"@.len());
            assert(kind_code(k).len() != "session not created"@.len());
        },
        ErrorKind::UnableToCaptureScreen => {
            assert(kind_code(k).len() != "javascript error"@.len());
            assert(kind_code(k).len() != "move target out of bounds"@.len());
            assert(kind_code(k).len() != "session not created"@.len());
            assert(kind_code(k).len() != "unable to set cookie"@.len());
        },
        ErrorKind::UnexpectedAlertOpen => {
            assert(kind_code(k).len() != "javascript error"@.len());
            assert(kind_code(k).len() != "move target out of bounds"@.len());
            assert(kind_code(k).len() != "session not created"@.len());
            assert(kind_code(k).len() != "unable to set cookie"@.len());
            assert(kind_code(k).len() != "unable to capture screen"@.len());
        },
        ErrorKind::UnknownError => {
            assert(kind_code(k).len() != "javascript error"@.len());
            assert(kind_code(k).len() != "move target out of bounds"@.len());
            assert(kind_code(k).len() != "session not created"@.len());
            assert(kind_code(k).len() != "unable to set cookie"@.len());
            assert(kind_code(k).len() != "unable to capture screen"@.len());
            assert(kind_code(k).len() != "unexpected alert open"@.len());
        },
        ErrorKind::UnsupportedOperation => {
            assert(kind_code(k).len() != "javascript error"@.len());
            assert(kind_code(k).len() != "move target out of bounds"@.len());
            assert(kind_code(k).len() != "session not created"@.len());
            assert(kind_code(k).len() != "unable to set cookie"@.len());
            assert(kind_code(k).len() != "unable to capture screen"@.len());
            assert(kind_code(k)[2] != "unexpected alert open"@[2]);
            assert(kind_code(k).len() != "unknown error"@.len());
        },
        ErrorKind::Timeout => {
        },
        ErrorKind::ScriptTimeout => {
            assert(kind_code(k).len() != "timeout"@.len());
        },
        ErrorKind::UnknownMethod => {
        },
    }
}

/// The code of `k` as a string.
pub fn code_of(k: ErrorKind) -> (r: &'static str)
    ensures
        r@ == kind_code(k),
{
    match k {
        ErrorKind::ElementClickIntercepted => "element click intercepted",
        ErrorKind::ElementNotSelectable => "element not selectable",
        ErrorKind::ElementNotInteractable => "element not interactable",
        ErrorKind::InsecureCertificate => "insecure certificate",
        ErrorKind::InvalidArgument => "invalid argument",
        ErrorKind::InvalidCookieDomain => "invalid cookie domain",
        ErrorKind::InvalidCoordinates => "invalid coordinates",
        ErrorKind::InvalidElementState => "invalid element state",
        ErrorKind::InvalidSelector => "invalid selector",
        ErrorKind::NoSuchAlert => "no such alert",
        ErrorKind::NoSuchFrame => "no such frame",
        ErrorKind::NoSuchWindow => "no such window",
        ErrorKind::StaleElementReference => "stale element reference",
        ErrorKind::UnknownCommand => "unknown command",
        ErrorKind::NoSuchCookie => "no such cookie",
        ErrorKind::InvalidSessionId => "invalid session id",
        ErrorKind::NoSuchElement => "no such element",
        ErrorKind::JavascriptError => "javascript error",
        ErrorKind::MoveTargetOutOfBounds => "move target out of bounds",
        ErrorKind::SessionNotCreated => "session not created",
        ErrorKind::UnableToSetCookie => "unable to set cookie",
        ErrorKind::UnableToCaptureScreen => "unable to capture screen",
        ErrorKind::UnexpectedAlertOpen => "unexpected alert open",
        ErrorKind::UnknownError => "unknown error",
        ErrorKind::UnsupportedOperation => "unsupported operation",
        ErrorKind::Timeout => "timeout",
        ErrorKind::ScriptTimeout => "script timeout",
        ErrorKind::UnknownMethod => "unknown method",
    }
}

/// Classifies an error reply by its HTTP status and error code.
pub fn classify(status: u16, code: &str) -> (r: Option<ErrorKind>)
    ensures
        r == kind_of(status, code@),
{
    let r = if status == 400 {
        if str_eq(code, "element click intercepted") {
            Some(ErrorKind::ElementClickIntercepted)
        } else if str_eq(code, "element not selectable") {
            Some(ErrorKind::ElementNotSelectable)
        } else if str_eq(code, "element not interactable") {
            Some(ErrorKind::ElementNotInteractable)
        } else if str_eq(code, "insecure certificate") {
            Some(ErrorKind::InsecureCertificate)
        } else if str_eq(code, "invalid argument") {
            Some(ErrorKind::InvalidArgument)
        } else if str_eq(code, "invalid cookie domain") {
            Some(ErrorKind::InvalidCookieDomain)
        } else if str_eq(code, "invalid coordinates") {
            Some(ErrorKind::InvalidCoordinates)
        } else if str_eq(code, "invalid element state") {
            Some(ErrorKind::InvalidElementState)
        } else if str_eq(code, "invalid selector") {
            Some(ErrorKind::InvalidSelector)
        } else if str_eq(code, "no such alert") {
            Some(ErrorKind::NoSuchAlert)
        } else if str_eq(code, "no such frame") {
            Some(ErrorKind::NoSuchFrame)
        } else if str_eq(code, "no such window") {
            Some(ErrorKind::NoSuchWindow)
        } else if str_eq(code, "stale element reference") {
            Some(ErrorKind::StaleElementReference)
        } else {
            None
        }
    } else if status == 404 {
        if str_eq(code, "unknown command") {
            Some(ErrorKind::UnknownCommand)
        } else if str_eq(code, "no such cookie") {
            Some(ErrorKind::NoSuchCookie)
        } else if str_eq(code, "invalid session id") {
            Some(ErrorKind::InvalidSessionId)
        } else if str_eq(code, "no such element") {
            Some(ErrorKind::NoSuchElement)
        } else {
            None
        }
    } else if status == 500 {
        if str_eq(code, "javascript error") {
            Some(ErrorKind::JavascriptError)
        } else if str_eq(code, "move target out of bounds") {
            Some(ErrorKind::MoveTargetOutOfBounds)
        } else if str_eq(code, "session not created") {
            Some(ErrorKind::SessionNotCreated)
        } else if str_eq(code, "unable to set cookie") {
            Some(ErrorKind::UnableToSetCookie)
        } else if str_eq(code, "unable to capture screen") {
            Some(ErrorKind::UnableToCaptureScreen)
        } else if str_eq(code, "unexpected alert open") {
            Some(ErrorKind::UnexpectedAlertOpen)
        } else if str_eq(code, "unknown error") {
            Some(ErrorKind::UnknownError)
        } else if str_eq(code, "unsupported operation") {
            Some(ErrorKind::UnsupportedOperation)
        } else {
            None
        }
    } else if status == 408 {
        if str_eq(code, "timeout") {
            Some(ErrorKind::Timeout)
        } else if str_eq(code, "script timeout") {
            Some(ErrorKind::ScriptTimeout)
        } else {
            None
        }
    } else if status == 405 {
        if str_eq(code, "unknown method") {
            Some(ErrorKind::UnknownMethod)
        } else {
            None
        }
    } else {
        None
    };
    r
}

} // verus!

verus! {

/// An error that the server reported and the table classified.
#[derive(Debug, PartialEq)]
pub struct WebDriverError {
    pub kind: ErrorKind,
    pub message: String,
}

/// Why a command failed.
#[derive(Debug, PartialEq)]
pub enum CmdError {
    /// The request and its reply could not be exchanged: the transport's message.
    Failed(String),
    /// The reply did not declare JSON content: its text.
    NotJson(String),
    /// The reply declared JSON but did not parse: the parser's message.
    BadJson(String),
    /// The reply is JSON of a shape the protocol does not allow.
    NotW3C(Json),
    /// A URL did not parse or could not be resolved: the text in question.
    BadUrl(String),
    /// The server reported an error of the table.
    Standard(WebDriverError),
}

/// Why a session could not be created.
#[derive(Debug, PartialEq)]
pub enum NewSessionError {
    /// The server's URL does not parse: the text given.
    BadWebdriverUrl(String),
    /// The request and its reply could not be exchanged: the transport's message.
    Failed(String),
    /// The server answered in a shape that neither dialect allows.
    NotW3C(Json),
    /// The server reported that it could not create the session.
    SessionNotCreated(WebDriverError),
}

} // verus!
