use fantoccini::client::{interpret, Client, Reply};
use fantoccini::command::{Command, Strategy};
use fantoccini::error::{CmdError, ErrorKind, WebDriverError};
use fantoccini::flows::{Step, SubmitHow};
use fantoccini::json::Json;
use fantoccini::page::{
    acknowledged, element_json, fixup_elements, read_element, read_html, read_optional, read_string,
    read_url, Element, Form,
};

fn s(x: &str) -> Json {
    Json::Str(x.to_string())
}

fn obj(fields: Vec<(&str, Json)>) -> Json {
    Json::Object(fields.into_iter().map(|(k, v)| (k.to_string(), v)).collect())
}

const W3C_KEY: &str = "element-6066-11e4-a52e-4f735466cecf";

fn client(legacy: bool) -> Client {
    Client {
        base: "http://localhost:4444/".to_string(),
        session: "abc".to_string(),
        legacy,
        ua: None,
    }
}

fn no_such_element() -> Result<Json, CmdError> {
    let env = obj(vec![("error", s("no such element")), ("message", s("no input"))]);
    interpret(true, Reply::Json(404, obj(vec![("value", env)])))
}

#[test]
fn read_url_parses_the_reply() {
    assert_eq!(read_url(Ok(s("http://Example.COM"))), Ok("http://example.com/".to_string()));
    assert_eq!(read_url(Ok(s("nope"))), Err(CmdError::BadUrl("nope".to_string())));
    assert_eq!(read_url(Ok(Json::Null)), Err(CmdError::NotW3C(Json::Null)));
}

#[test]
fn read_optional_maps_null_to_none() {
    assert_eq!(read_optional(Ok(s("x"))), Ok(Some("x".to_string())));
    assert_eq!(read_optional(Ok(Json::Null)), Ok(None));
    assert_eq!(read_optional(Ok(Json::U64(1))), Err(CmdError::NotW3C(Json::U64(1))));
    assert_eq!(read_string(Ok(Json::Null)), Err(CmdError::NotW3C(Json::Null)));
    assert_eq!(read_html(Ok(s("<hr>"))), Ok("<hr>".to_string()));
}

#[test]
fn click_replies_null_and_empty_object_succeed() {
    assert_eq!(acknowledged(Ok(Json::Null)), Ok(()));
    assert_eq!(acknowledged(Ok(obj(vec![]))), Ok(()));
    assert_eq!(
        acknowledged(Ok(obj(vec![("a", Json::U64(1))]))),
        Err(CmdError::NotW3C(obj(vec![("a", Json::U64(1))])))
    );
    assert_eq!(acknowledged(Ok(s(""))), Err(CmdError::NotW3C(s(""))));
}

#[test]
fn read_element_uses_the_dialect_key() {
    assert_eq!(read_element(false, Ok(obj(vec![(W3C_KEY, s("e1"))]))), Ok("e1".to_string()));
    assert_eq!(read_element(true, Ok(obj(vec![("ELEMENT", s("e2"))]))), Ok("e2".to_string()));
    assert_eq!(
        read_element(true, Ok(obj(vec![(W3C_KEY, s("e1"))]))),
        Err(CmdError::NotW3C(obj(vec![(W3C_KEY, s("e1"))])))
    );
    assert_eq!(
        read_element(false, Ok(obj(vec![(W3C_KEY, Json::U64(1))]))),
        Err(CmdError::NotW3C(obj(vec![(W3C_KEY, Json::U64(1))])))
    );
}

#[test]
fn fixup_elements_rewrites_keys_for_the_legacy_dialect() {
    let args = vec![element_json("e1"), s("v")];
    assert_eq!(fixup_elements(true, args), vec![obj(vec![("ELEMENT", s("e1"))]), s("v")]);
    let args = vec![element_json("e1"), s("v")];
    assert_eq!(fixup_elements(false, args), vec![obj(vec![(W3C_KEY, s("e1"))]), s("v")]);
}

#[test]
fn element_commands() {
    let c = client(false);
    let e = Element { id: "e1".to_string() };
    assert_eq!(e.attr("src"), Command::GetElementAttribute("e1".to_string(), "src".to_string()));
    assert_eq!(e.prop("value"), Command::GetElementProperty("e1".to_string(), "value".to_string()));
    assert_eq!(e.text(), Command::GetElementText("e1".to_string()));
    assert_eq!(e.html(true), Command::GetElementProperty("e1".to_string(), "innerHTML".to_string()));
    assert_eq!(e.html(false), Command::GetElementProperty("e1".to_string(), "outerHTML".to_string()));
    assert_eq!(e.click(), Command::ElementClick("e1".to_string()));
    match c.by_link_text("Foo Lake") {
        Command::FindElement(l) => {
            assert_eq!(l.using, Strategy::LinkText);
            assert_eq!(l.value, "Foo Lake");
        }
        other => panic!("{:?}", other),
    }
    match c.by_xpath("//a") {
        Command::FindElement(l) => assert_eq!(l.using, Strategy::XPath),
        other => panic!("{:?}", other),
    }
}

#[test]
fn goto_resolves_against_the_current_url() {
    let c = client(false);
    let mut g = c.goto("c?x=1");
    assert_eq!(g.start(), Step::Issue(Command::GetCurrentUrl, false));
    assert_eq!(
        g.resume(Ok(s("http://example.com/a/b"))),
        Step::Issue(Command::Get("http://example.com/a/c?x=1".to_string()), false)
    );
    assert_eq!(g.resume(Ok(Json::Null)), Step::Done(Ok(())));
}

#[test]
fn goto_stops_on_a_bad_current_url() {
    let c = client(false);
    let mut g = c.goto("c");
    g.start();
    assert_eq!(g.resume(Ok(Json::U64(3))), Step::Done(Err(CmdError::NotW3C(Json::U64(3)))));
}

#[test]
fn follow_reads_href_then_navigates() {
    let c = client(false);
    let mut f = Element { id: "e1".to_string() }.follow();
    assert_eq!(
        f.start(),
        Step::Issue(Command::GetElementAttribute("e1".to_string(), "href".to_string()), false)
    );
    assert_eq!(f.resume(Ok(s("/wiki/Foo_Lake"))), Step::Issue(Command::GetCurrentUrl, false));
    assert_eq!(
        f.resume(Ok(s("https://en.wikipedia.org/wiki/Foo"))),
        Step::Issue(Command::Get("https://en.wikipedia.org/wiki/Foo_Lake".to_string()), false)
    );
    assert_eq!(f.resume(Ok(Json::Null)), Step::Done(Ok(())));
    let _ = c;
}

#[test]
fn follow_without_href_is_an_invalid_argument() {
    let mut f = Element { id: "e1".to_string() }.follow();
    f.start();
    match f.resume(Ok(Json::Null)) {
        Step::Done(Err(CmdError::Standard(w))) => assert_eq!(w.kind, ErrorKind::InvalidArgument),
        other => panic!("{:?}", other),
    }
}

#[test]
fn set_by_name_on_a_form_without_the_field_fails() {
    let c = client(false);
    let form = Form { id: "f1".to_string() };
    let mut op = form.set_by_name(&c, "q", "foobar");
    match op.start() {
        Step::Issue(Command::FindElementElement(p, l), false) => {
            assert_eq!(p, "f1");
            assert_eq!(l.using, Strategy::CssSelector);
            assert_eq!(l.value, "input[name='q']");
        }
        other => panic!("{:?}", other),
    }
    assert_eq!(
        op.resume(no_such_element()),
        Step::Done(Err(CmdError::Standard(WebDriverError {
            kind: ErrorKind::NoSuchElement,
            message: "no input".to_string(),
        })))
    );
}

#[test]
fn set_by_name_runs_the_script_on_the_input() {
    let c = client(true);
    let form = Form { id: "f1".to_string() };
    let mut op = form.set_by_name(&c, "q", "foobar");
    op.start();
    let found = op.resume(Ok(obj(vec![("ELEMENT", s("i7"))])));
    assert_eq!(
        found,
        Step::Issue(
            Command::ExecuteScript(
                "arguments[0].value = arguments[1]".to_string(),
                vec![obj(vec![("ELEMENT", s("i7"))]), s("foobar")]
            ),
            false
        )
    );
    assert_eq!(op.resume(Ok(Json::Null)), Step::Done(Ok(())));
}

#[test]
fn submit_using_matches_the_label_ignoring_case() {
    let c = client(false);
    let mut op = Form { id: "f1".to_string() }.submit_using(&c, "Search");
    assert_eq!(
        op.how,
        SubmitHow::Button(
            "input[type=submit][value=\"Search\" i],button[type=submit][value=\"Search\" i]".to_string()
        )
    );
    match op.start() {
        Step::Issue(Command::FindElementElement(p, l), false) => {
            assert_eq!(p, "f1");
            assert_eq!(
                l.value,
                "input[type=submit][value=\"Search\" i],button[type=submit][value=\"Search\" i]"
            );
        }
        other => panic!("{:?}", other),
    }
    assert_eq!(
        op.resume(Ok(obj(vec![(W3C_KEY, s("b1"))]))),
        Step::Issue(Command::ElementClick("b1".to_string()), true)
    );
    assert_eq!(op.resume(Ok(obj(vec![]))), Step::Done(Ok(())));
}

#[test]
fn submit_using_escapes_quotes_and_backslashes() {
    let c = client(false);
    let op = Form { id: "f1".to_string() }.submit_using(&c, r#"a"b\"#);
    assert_eq!(
        op.how,
        SubmitHow::Button(
            r#"input[type=submit][value="a\"b\\" i],button[type=submit][value="a\"b\\" i]"#.to_string()
        )
    );
}

#[test]
fn submit_uses_the_default_buttons() {
    let c = client(false);
    let op = Form { id: "f1".to_string() }.submit(&c);
    assert_eq!(op.how, SubmitHow::Button("input[type=submit],button[type=submit]".to_string()));
}

#[test]
fn submit_fails_on_a_non_empty_reply() {
    let c = client(false);
    let mut op = Form { id: "f1".to_string() }.submit_with(&c, "#go");
    op.start();
    op.resume(Ok(obj(vec![(W3C_KEY, s("b1"))])));
    assert_eq!(
        op.resume(Ok(obj(vec![("x", Json::Null)]))),
        Step::Done(Err(CmdError::NotW3C(obj(vec![("x", Json::Null)]))))
    );
}

#[test]
fn submit_sneaky_injects_then_submits_directly() {
    let c = client(true);
    let mut op = Form { id: "f1".to_string() }.submit_sneaky(&c, "go", "1");
    match op.start() {
        Step::Issue(Command::ExecuteScript(script, args), false) => {
            assert!(script.starts_with("var h = document.createElement('input');"));
            assert_eq!(args, vec![obj(vec![("ELEMENT", s("f1"))]), s("go"), s("1")]);
        }
        other => panic!("{:?}", other),
    }
    assert_eq!(
        op.resume(Ok(Json::Null)),
        Step::Issue(
            Command::ExecuteScript(
                "arguments[0].submit()".to_string(),
                vec![obj(vec![("ELEMENT", s("f1"))])]
            ),
            true
        )
    );
    assert_eq!(op.resume(Ok(Json::Null)), Step::Done(Ok(())));
}

#[test]
fn submit_direct_runs_the_form_submit() {
    let c = client(false);
    let mut op = Form { id: "f1".to_string() }.submit_direct(&c);
    assert_eq!(
        op.start(),
        Step::Issue(
            Command::ExecuteScript(
                "arguments[0].submit()".to_string(),
                vec![obj(vec![(W3C_KEY, s("f1"))])]
            ),
            true
        )
    );
    assert_eq!(op.resume(Ok(obj(vec![]))), Step::Done(Ok(())));
}

#[test]
fn wait_for_navigation_polls_until_the_url_changes() {
    let c = client(false);
    let mut w = c.wait_for_navigation(None);
    assert_eq!(w.start(), Step::Issue(Command::GetCurrentUrl, false));
    assert_eq!(w.resume(Ok(s("http://a/"))), Step::Issue(Command::GetCurrentUrl, false));
    assert_eq!(w.resume(Ok(s("http://a/"))), Step::Issue(Command::GetCurrentUrl, false));
    assert_eq!(w.resume(Ok(s("http://b/"))), Step::Done(Ok(())));
}

#[test]
fn wait_for_navigation_stops_on_an_error() {
    let c = client(false);
    let mut w = c.wait_for_navigation(Some("http://a/".to_string()));
    w.start();
    assert_eq!(
        w.resume(Err(CmdError::Failed("gone".to_string()))),
        Step::Done(Err(CmdError::Failed("gone".to_string())))
    );
}

#[test]
fn wait_for_navigation_parses_a_given_url() {
    let c = client(false);
    let mut w = c.wait_for_navigation(Some("http://A.com".to_string()));
    assert_eq!(w.current, Some("http://a.com/".to_string()));
    w.start();
    assert_eq!(w.resume(Ok(s("http://a.com/"))), Step::Issue(Command::GetCurrentUrl, false));
    assert_eq!(w.resume(Ok(s("http://a.com/next"))), Step::Done(Ok(())));
}
