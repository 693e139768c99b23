use fantoccini::client::{interpret, Client, Reply};
use fantoccini::command::{Command, Dialect, Method};
use fantoccini::cookies::{cookie_header, read_cookies, CookieRecord, RawRequest};
use fantoccini::error::{CmdError, ErrorKind, NewSessionError, WebDriverError};
use fantoccini::flows::Step;
use fantoccini::json::Json;

fn s(x: &str) -> Json {
    Json::Str(x.to_string())
}

fn obj(fields: Vec<(&str, Json)>) -> Json {
    Json::Object(fields.into_iter().map(|(k, v)| (k.to_string(), v)).collect())
}

fn client() -> Client {
    Client {
        base: "http://localhost:4444/".to_string(),
        session: "abc".to_string(),
        legacy: false,
        ua: Some("bot/1".to_string()),
    }
}

#[test]
fn client_new_rejects_a_bad_server_url() {
    match Client::new("::nope") {
        Err(NewSessionError::BadWebdriverUrl(u)) => assert_eq!(u, "::nope"),
        _ => panic!("expected a bad server URL"),
    }
    let n = Client::new("http://localhost:4444").ok().unwrap();
    assert_eq!(n.base, "http://localhost:4444/");
}

#[test]
fn negotiation_in_the_ratified_dialect() {
    let mut n = Client::new("http://localhost:4444").ok().unwrap();
    assert_eq!(n.start(), Step::Issue(Command::NewSession(Dialect::Spec), false));
    let reply = interpret(true, Reply::Json(200, obj(vec![("value", obj(vec![("sessionId", s("s1"))]))])));
    match n.resume(reply) {
        Step::Done(Ok(c)) => {
            assert_eq!(c.session, "s1");
            assert!(!c.legacy);
            assert_eq!(c.base, "http://localhost:4444/");
        }
        other => panic!("{:?}", other),
    }
}

#[test]
fn negotiation_falls_back_when_desired_capabilities_are_missing() {
    let mut n = Client::new("http://localhost:4444").ok().unwrap();
    n.start();
    let reply = interpret(
        true,
        Reply::Json(500, obj(vec![("message", s("unknown error: cannot find dict 'desiredCapabilities'"))])),
    );
    assert_eq!(n.resume(reply), Step::Issue(Command::NewSession(Dialect::Legacy), false));
    let legacy = interpret(false, Reply::Json(200, obj(vec![("sessionId", s("s2")), ("status", Json::U64(0))])));
    match n.resume(legacy) {
        Step::Done(Ok(c)) => {
            assert_eq!(c.session, "s2");
            assert!(c.legacy);
        }
        other => panic!("{:?}", other),
    }
}

#[test]
fn negotiation_falls_back_on_missing_command_parameter() {
    let mut n = Client::new("http://localhost:4444").ok().unwrap();
    n.start();
    let reply = interpret(true, Reply::NotJson("Missing Command Parameter - {}".to_string()));
    assert_eq!(n.resume(reply), Step::Issue(Command::NewSession(Dialect::Legacy), false));
    let failed = interpret(false, Reply::Failed("refused".to_string()));
    assert_eq!(n.resume(failed), Step::Done(Err(NewSessionError::Failed("refused".to_string()))));
}

#[test]
fn negotiation_does_not_fall_back_on_other_shapes() {
    let mut n = Client::new("http://localhost:4444").ok().unwrap();
    n.start();
    let reply = interpret(true, Reply::Json(200, obj(vec![("value", obj(vec![("sessionId", Json::U64(7))]))])));
    assert_eq!(
        n.resume(reply),
        Step::Done(Err(NewSessionError::NotW3C(obj(vec![("sessionId", Json::U64(7))]))))
    );
}

#[test]
fn negotiation_classifies_session_not_created() {
    let mut n = Client::new("http://localhost:4444").ok().unwrap();
    n.start();
    let env = obj(vec![("error", s("session not created")), ("message", s("no browser"))]);
    let reply = interpret(true, Reply::Json(500, obj(vec![("value", env)])));
    assert_eq!(
        n.resume(reply),
        Step::Done(Err(NewSessionError::SessionNotCreated(WebDriverError {
            kind: ErrorKind::SessionNotCreated,
            message: "no browser".to_string(),
        })))
    );
}

#[test]
fn negotiation_reports_other_protocol_errors_as_nonconforming() {
    let mut n = Client::new("http://localhost:4444").ok().unwrap();
    n.start();
    let env = obj(vec![("error", s("invalid argument")), ("message", s("bad caps"))]);
    let reply = interpret(true, Reply::Json(400, obj(vec![("value", env)])));
    assert_eq!(
        n.resume(reply),
        Step::Done(Err(NewSessionError::NotW3C(obj(vec![
            ("error", s("invalid argument")),
            ("message", s("bad caps"))
        ]))))
    );
}

#[test]
fn negotiation_request_targets_the_session_endpoint() {
    let n = Client::new("http://localhost:4444/wd/hub/").ok().unwrap();
    let r = n.request(Command::NewSession(Dialect::Legacy)).unwrap();
    assert_eq!(r.method, Method::Post);
    assert_eq!(r.url, "http://localhost:4444/session");
}

fn cookie(name: &str, value: &str) -> CookieRecord {
    CookieRecord {
        name: name.to_string(),
        value: value.to_string(),
        path: None,
        domain: None,
        expiry: None,
        secure: false,
        http_only: false,
    }
}

#[test]
fn read_cookies_reads_every_entry() {
    let list = Json::Array(vec![
        obj(vec![
            ("name", s("CP")),
            ("value", s("H2")),
            ("path", s("/")),
            ("domain", s("www.wikipedia.org")),
            ("expiry", Json::Null),
            ("httpOnly", Json::Boolean(false)),
            ("secure", Json::Boolean(true)),
        ]),
        obj(vec![("name", s("a")), ("value", s("1")), ("expiry", Json::I64(1500000000))]),
        obj(vec![("name", s("b")), ("value", s("2")), ("expiry", Json::Real(1600000000))]),
        obj(vec![("name", s("c")), ("value", s("3")), ("expiry", Json::U64(7))]),
        obj(vec![("name", s("d")), ("value", s("4")), ("expiry", Json::I64(-86400))]),
        obj(vec![("name", s("e")), ("value", s("5")), ("expiry", Json::Real(-5))]),
    ]);
    let cs = read_cookies(list).unwrap();
    assert_eq!(cs.len(), 6);
    assert_eq!(cs[4].expiry, Some(-86400));
    assert_eq!(cs[5].expiry, Some(-5));
    assert_eq!(cs[0].name, "CP");
    assert_eq!(cs[0].path, Some("/".to_string()));
    assert_eq!(cs[0].domain, Some("www.wikipedia.org".to_string()));
    assert_eq!(cs[0].expiry, None);
    assert!(cs[0].secure);
    assert!(!cs[0].http_only);
    assert_eq!(cs[1].expiry, Some(1500000000));
    assert_eq!(cs[2].expiry, Some(1600000000));
    assert_eq!(cs[3].expiry, Some(7));
    assert!(!cs[3].secure);
}

#[test]
fn read_cookies_rejects_the_whole_list_for_one_bad_entry() {
    let list = Json::Array(vec![
        obj(vec![("name", s("a")), ("value", s("1"))]),
        obj(vec![("name", s("b"))]),
    ]);
    assert_eq!(
        read_cookies(list),
        Err(CmdError::NotW3C(Json::Array(vec![
            obj(vec![("name", s("a")), ("value", s("1"))]),
            obj(vec![("name", s("b"))]),
        ])))
    );
    let bad_path = Json::Array(vec![obj(vec![("name", s("a")), ("value", s("1")), ("path", Json::U64(1))])]);
    assert!(read_cookies(bad_path).is_err());
    let late = Json::Array(vec![obj(vec![("name", s("a")), ("value", s("1")), ("expiry", Json::U64(253402300800))])]);
    assert!(read_cookies(late).is_err());
    let early = Json::Array(vec![obj(vec![("name", s("a")), ("value", s("1")), ("expiry", Json::I64(-62135596801))])]);
    assert!(read_cookies(early).is_err());
    assert_eq!(read_cookies(Json::Null), Err(CmdError::NotW3C(Json::Null)));
}

#[test]
fn cookie_header_serializes_each_cookie() {
    let mut full = cookie("CP", "H2");
    full.path = Some("/".to_string());
    full.domain = Some("example.org".to_string());
    full.secure = true;
    full.http_only = true;
    let mut dated = cookie("d", "1");
    dated.expiry = Some(-86400);
    let jar = cookie_header(&vec![cookie("a", "1"), full, dated]);
    assert_eq!(jar[0], "a=1");
    assert_eq!(jar[1], "CP=H2; HttpOnly; Secure; Path=/; Domain=example.org");
    assert!(jar[2].starts_with("d=1; Expires="));
}

#[test]
fn bridge_restores_the_url_when_the_cookie_fetch_fails() {
    let c = client();
    let mut b = c.raw_client_for(Method::Get, "logo.png");
    assert_eq!(b.start(), Step::Issue(Command::GetCurrentUrl, false));
    assert_eq!(
        b.resume(Ok(s("http://example.com/a/page"))),
        Step::Issue(Command::Get("http://example.com/a/logo.png/please_give_me_your_cookies".to_string()), false)
    );
    assert_eq!(b.resume(Ok(Json::Null)), Step::Issue(Command::GetCookies, false));
    let failed = Err(CmdError::Failed("lost".to_string()));
    assert_eq!(
        b.resume(failed),
        Step::Issue(Command::Get("http://example.com/a/page".to_string()), false)
    );
    assert_eq!(
        b.resume(Err(CmdError::Failed("also lost".to_string()))),
        Step::Done(Err(CmdError::Failed("lost".to_string())))
    );
}

#[test]
fn bridge_builds_a_request_with_the_cookies() {
    let c = client();
    let mut b = c.raw_client_for(Method::Post, "/upload");
    b.start();
    b.resume(Ok(s("https://example.com/a/page")));
    b.resume(Ok(Json::Null));
    let jar = Json::Array(vec![obj(vec![("name", s("k")), ("value", s("v")), ("path", s("/"))])]);
    assert_eq!(b.resume(Ok(jar)), Step::Issue(Command::Get("https://example.com/a/page".to_string()), false));
    assert_eq!(
        b.resume(Ok(Json::Null)),
        Step::Done(Ok(RawRequest {
            method: Method::Post,
            url: "https://example.com/upload".to_string(),
            cookies: vec!["k=v; Path=/".to_string()],
            user_agent: Some("bot/1".to_string()),
        }))
    );
}

#[test]
fn bridge_reports_a_malformed_cookie_list_after_returning() {
    let c = client();
    let mut b = c.raw_client_for(Method::Get, "x");
    b.start();
    b.resume(Ok(s("http://example.com/")));
    b.resume(Ok(Json::Null));
    assert_eq!(b.resume(Ok(s("nope"))), Step::Issue(Command::Get("http://example.com/".to_string()), false));
    assert_eq!(b.resume(Ok(Json::Null)), Step::Done(Err(CmdError::NotW3C(s("nope")))));
}

#[test]
fn bridge_probes_below_a_target_with_a_query() {
    let c = client();
    let mut b = c.raw_client_for(Method::Get, "i.png?v=2");
    b.start();
    assert_eq!(
        b.resume(Ok(s("http://x/a/page"))),
        Step::Issue(Command::Get("http://x/a/i.png/please_give_me_your_cookies".to_string()), false)
    );
}

#[test]
fn bridge_reports_an_unreadable_current_url() {
    let c = client();
    let mut b = c.raw_client_for(Method::Get, "x");
    b.start();
    assert_eq!(b.resume(Ok(s("not a url"))), Step::Done(Err(CmdError::BadUrl("not a url".to_string()))));
    let mut b = c.raw_client_for(Method::Get, "x");
    b.start();
    assert_eq!(b.resume(Ok(Json::U64(1))), Step::Done(Err(CmdError::NotW3C(Json::U64(1)))));
}

#[test]
fn bridge_keeps_an_extension_method() {
    let c = client();
    let mut b = c.raw_client_for(Method::Extension("PURGE".to_string()), "/x");
    b.start();
    b.resume(Ok(s("http://h/")));
    b.resume(Ok(Json::Null));
    b.resume(Ok(Json::Array(vec![])));
    match b.resume(Ok(Json::Null)) {
        Step::Done(Ok(q)) => {
            assert_eq!(q.method, Method::Extension("PURGE".to_string()));
            assert_eq!(q.url, "http://h/x");
            assert!(q.cookies.is_empty());
        }
        other => panic!("{:?}", other),
    }
}
