use fantoccini::client::{build_request, interpret, unwraps_value, Reply};
use fantoccini::command::{route, Command, Dialect, Locator, Method, Strategy};
use fantoccini::error::{classify, code_of, CmdError, ErrorKind, WebDriverError};
use fantoccini::json::Json;
use fantoccini::text::{contains, escape_css, starts_with, str_eq};

fn s(x: &str) -> Json {
    Json::Str(x.to_string())
}

fn obj(fields: Vec<(&str, Json)>) -> Json {
    Json::Object(fields.into_iter().map(|(k, v)| (k.to_string(), v)).collect())
}

const TABLE: [(u16, &str, ErrorKind); 28] = [
    (400, "element click intercepted", ErrorKind::ElementClickIntercepted),
    (400, "element not selectable", ErrorKind::ElementNotSelectable),
    (400, "element not interactable", ErrorKind::ElementNotInteractable),
    (400, "insecure certificate", ErrorKind::InsecureCertificate),
    (400, "invalid argument", ErrorKind::InvalidArgument),
    (400, "invalid cookie domain", ErrorKind::InvalidCookieDomain),
    (400, "invalid coordinates", ErrorKind::InvalidCoordinates),
    (400, "invalid element state", ErrorKind::InvalidElementState),
    (400, "invalid selector", ErrorKind::InvalidSelector),
    (400, "no such alert", ErrorKind::NoSuchAlert),
    (400, "no such frame", ErrorKind::NoSuchFrame),
    (400, "no such window", ErrorKind::NoSuchWindow),
    (400, "stale element reference", ErrorKind::StaleElementReference),
    (404, "unknown command", ErrorKind::UnknownCommand),
    (404, "no such cookie", ErrorKind::NoSuchCookie),
    (404, "invalid session id", ErrorKind::InvalidSessionId),
    (404, "no such element", ErrorKind::NoSuchElement),
    (500, "javascript error", ErrorKind::JavascriptError),
    (500, "move target out of bounds", ErrorKind::MoveTargetOutOfBounds),
    (500, "session not created", ErrorKind::SessionNotCreated),
    (500, "unable to set cookie", ErrorKind::UnableToSetCookie),
    (500, "unable to capture screen", ErrorKind::UnableToCaptureScreen),
    (500, "unexpected alert open", ErrorKind::UnexpectedAlertOpen),
    (500, "unknown error", ErrorKind::UnknownError),
    (500, "unsupported operation", ErrorKind::UnsupportedOperation),
    (408, "timeout", ErrorKind::Timeout),
    (408, "script timeout", ErrorKind::ScriptTimeout),
    (405, "unknown method", ErrorKind::UnknownMethod),
];

#[test]
fn classify_covers_every_pair_of_the_table() {
    for (status, code, kind) in TABLE.iter() {
        assert_eq!(classify(*status, code), Some(*kind));
        assert_eq!(code_of(*kind), *code);
    }
}

#[test]
fn classify_rejects_pairs_outside_the_table() {
    assert_eq!(classify(404, "invalid argument"), None);
    assert_eq!(classify(500, "no such element"), None);
    assert_eq!(classify(418, "timeout"), None);
    assert_eq!(classify(400, ""), None);
    assert_eq!(classify(400, "Invalid Argument"), None);
    assert_eq!(classify(200, "unknown error"), None);
}

#[test]
fn route_new_session_in_the_ratified_dialect() {
    let e = route(Command::NewSession(Dialect::Spec), "", false);
    assert_eq!(e.method, Method::Post);
    assert_eq!(e.path, "/session");
    let caps = obj(vec![("pageLoadStrategy", s("normal"))]);
    let want = obj(vec![(
        "capabilities",
        obj(vec![("alwaysMatch", caps), ("firstMatch", Json::Array(vec![]))]),
    )]);
    assert_eq!(e.body, Some(want));
}

#[test]
fn route_new_session_in_the_legacy_dialect() {
    let e = route(Command::NewSession(Dialect::Legacy), "", true);
    assert_eq!(e.method, Method::Post);
    assert_eq!(e.path, "/session");
    let want = obj(vec![
        ("desiredCapabilities", obj(vec![])),
        ("requiredCapabilities", obj(vec![("pageLoadStrategy", s("normal"))])),
    ]);
    assert_eq!(e.body, Some(want));
}

#[test]
fn route_follows_the_endpoint_table() {
    let css = |v: &str| Locator { using: Strategy::CssSelector, value: v.to_string() };
    let cases: Vec<(Command, Method, &str)> = vec![
        (Command::DeleteSession, Method::Delete, "/session/abc"),
        (Command::Get("http://x/".to_string()), Method::Post, "/session/abc/url"),
        (Command::GetCurrentUrl, Method::Get, "/session/abc/url"),
        (Command::GetPageSource, Method::Get, "/session/abc/source"),
        (Command::FindElement(css("p")), Method::Post, "/session/abc/element"),
        (Command::FindElementElement("e1".to_string(), css("p")), Method::Post, "/session/abc/element/e1/element"),
        (Command::GetCookies, Method::Get, "/session/abc/cookie"),
        (Command::ExecuteScript("1".to_string(), vec![]), Method::Post, "/session/abc/execute/sync"),
        (Command::GetElementAttribute("e1".to_string(), "href".to_string()), Method::Get, "/session/abc/element/e1/attribute/href"),
        (Command::GetElementProperty("e1".to_string(), "value".to_string()), Method::Get, "/session/abc/element/e1/property/value"),
        (Command::ElementClick("e1".to_string()), Method::Post, "/session/abc/element/e1/click"),
        (Command::GetElementText("e1".to_string()), Method::Get, "/session/abc/element/e1/text"),
        (Command::ElementSendKeys("e1".to_string(), "hi".to_string()), Method::Post, "/session/abc/element/e1/value"),
    ];
    for (cmd, method, path) in cases {
        let e = route(cmd, "abc", false);
        assert_eq!(e.method, method);
        assert_eq!(e.path, path);
    }
}

#[test]
fn route_bodies_carry_the_parameters() {
    let e = route(Command::Get("http://x/".to_string()), "abc", false);
    assert_eq!(e.body, Some(obj(vec![("url", s("http://x/"))])));
    let e = route(
        Command::FindElement(Locator { using: Strategy::LinkText, value: "Foo".to_string() }),
        "abc",
        false,
    );
    assert_eq!(e.body, Some(obj(vec![("using", s("link text")), ("value", s("Foo"))])));
    let e = route(Command::ElementClick("e1".to_string()), "abc", false);
    assert_eq!(e.body, Some(obj(vec![])));
    let e = route(Command::GetCurrentUrl, "abc", false);
    assert_eq!(e.body, None);
    let e = route(Command::ExecuteScript("go()".to_string(), vec![s("a")]), "abc", false);
    assert_eq!(e.body, Some(obj(vec![("script", s("go()")), ("args", Json::Array(vec![s("a")]))])));
    let e = route(Command::ElementSendKeys("e1".to_string(), "hi".to_string()), "abc", false);
    assert_eq!(e.body, Some(obj(vec![("value", s("hi"))])));
}

#[test]
fn route_execute_differs_by_dialect() {
    let e = route(Command::ExecuteScript("1".to_string(), vec![]), "abc", true);
    assert_eq!(e.path, "/session/abc/execute");
    let e = route(Command::ExecuteScript("1".to_string(), vec![]), "abc", false);
    assert_eq!(e.path, "/session/abc/execute/sync");
}

#[test]
fn route_is_pure() {
    let a = route(Command::GetElementText("e9".to_string()), "s1", false);
    let b = route(Command::GetElementText("e9".to_string()), "s1", false);
    assert_eq!(a, b);
}

#[test]
fn interpret_unwraps_value_on_success() {
    let r = interpret(true, Reply::Json(200, obj(vec![("value", s("http://a/"))])));
    assert_eq!(r, Ok(s("http://a/")));
}

#[test]
fn interpret_requires_value() {
    let r = interpret(true, Reply::Json(200, obj(vec![("sessionId", s("x"))])));
    assert_eq!(r, Err(CmdError::NotW3C(obj(vec![("sessionId", s("x"))]))));
    let r = interpret(true, Reply::Json(500, obj(vec![])));
    assert_eq!(r, Err(CmdError::NotW3C(obj(vec![]))));
}

#[test]
fn interpret_rejects_a_non_object_body() {
    let r = interpret(true, Reply::Json(200, Json::Array(vec![])));
    assert_eq!(r, Err(CmdError::NotW3C(Json::Array(vec![]))));
}

#[test]
fn interpret_classifies_an_error_envelope() {
    let env = obj(vec![("error", s("no such element")), ("message", s("none here"))]);
    let r = interpret(true, Reply::Json(404, obj(vec![("value", env)])));
    assert_eq!(
        r,
        Err(CmdError::Standard(WebDriverError {
            kind: ErrorKind::NoSuchElement,
            message: "none here".to_string(),
        }))
    );
}

#[test]
fn interpret_strips_the_screen_and_rejects_unknown_codes() {
    let env = obj(vec![("error", s("bogus")), ("message", s("m")), ("screen", s("AAAA"))]);
    let r = interpret(true, Reply::Json(500, obj(vec![("value", env)])));
    assert_eq!(r, Err(CmdError::NotW3C(obj(vec![("error", s("bogus")), ("message", s("m"))]))));
}

#[test]
fn interpret_rejects_a_pair_outside_the_table() {
    let env = obj(vec![("error", s("no such element")), ("message", s("m"))]);
    let r = interpret(true, Reply::Json(500, obj(vec![("value", env)])));
    assert_eq!(r, Err(CmdError::NotW3C(obj(vec![("error", s("no such element")), ("message", s("m"))]))));
}

#[test]
fn interpret_rejects_an_envelope_without_strings() {
    let env = obj(vec![("error", Json::U64(3)), ("message", s("m"))]);
    let r = interpret(true, Reply::Json(400, obj(vec![("value", env)])));
    assert_eq!(r, Err(CmdError::NotW3C(obj(vec![("error", Json::U64(3)), ("message", s("m"))]))));
    let r = interpret(true, Reply::Json(400, obj(vec![("value", Json::Null)])));
    assert_eq!(r, Err(CmdError::NotW3C(Json::Null)));
}

#[test]
fn interpret_keeps_the_legacy_session_object_whole() {
    assert!(!unwraps_value(&Command::NewSession(Dialect::Legacy)));
    assert!(unwraps_value(&Command::NewSession(Dialect::Spec)));
    let body = obj(vec![("sessionId", s("x")), ("status", Json::U64(0))]);
    let r = interpret(false, Reply::Json(200, obj(vec![("sessionId", s("x")), ("status", Json::U64(0))])));
    assert_eq!(r, Ok(body));
}

#[test]
fn interpret_reports_transport_and_content_failures() {
    assert_eq!(interpret(true, Reply::Failed("down".to_string())), Err(CmdError::Failed("down".to_string())));
    assert_eq!(interpret(true, Reply::NotJson("<html>".to_string())), Err(CmdError::NotJson("<html>".to_string())));
    assert_eq!(interpret(true, Reply::Unparsable("eof".to_string())), Err(CmdError::BadJson("eof".to_string())));
}

#[test]
fn build_request_resolves_the_path_against_the_server() {
    let ua = Some("bot/1".to_string());
    let r = build_request("http://localhost:4444/", "abc", false, &ua, Command::GetCurrentUrl).unwrap();
    assert_eq!(r.method, Method::Get);
    assert_eq!(r.url, "http://localhost:4444/session/abc/url");
    assert_eq!(r.body, None);
    assert_eq!(r.user_agent, Some("bot/1".to_string()));
    let r = build_request("http://h:1/wd/hub", "", false, &None, Command::NewSession(Dialect::Spec)).unwrap();
    assert_eq!(r.url, "http://h:1/session");
}

#[test]
fn build_request_reports_a_bad_server_url() {
    let r = build_request("not a url", "abc", false, &None, Command::GetCurrentUrl);
    assert_eq!(r, Err(CmdError::BadUrl("/session/abc/url".to_string())));
}

#[test]
fn text_helpers() {
    assert!(str_eq("abc", "abc"));
    assert!(!str_eq("abc", "abd"));
    assert!(starts_with("Missing Command Parameter - x", "Missing Command Parameter"));
    assert!(!starts_with("Missing", "Missing Command Parameter"));
    assert!(contains("unknown error: cannot find dict 'desiredCapabilities'", "cannot find dict 'desiredCapabilities'"));
    assert!(!contains("abc", "abd"));
    assert!(contains("abc", ""));
    assert_eq!(escape_css(r#"a"b\c"#), r#"a\"b\\c"#);
    assert_eq!(escape_css(""), "");
}
