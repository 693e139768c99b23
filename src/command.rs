//! Commands and the table that routes each to an HTTP method, a path and a body.
use vstd::prelude::*;
use crate::json::{Json, JsonView, single};

verus! {

/// The HTTP methods.
#[derive(Debug, PartialEq, Eq)]
pub enum Method {
    Options,
    Get,
    Post,
    Put,
    Delete,
    Head,
    Trace,
    Connect,
    Patch,
    /// A method of another name.
    Extension(String),
}

/// A copy of a method.
pub fn copy_method(m: &Method) -> (r: Method)
    ensures
        r == *m,
{
    match m {
        Method::Options => Method::Options,
        Method::Get => Method::Get,
        Method::Post => Method::Post,
        Method::Put => Method::Put,
        Method::Delete => Method::Delete,
        Method::Head => Method::Head,
        Method::Trace => Method::Trace,
        Method::Connect => Method::Connect,
        Method::Patch => Method::Patch,
        Method::Extension(s) => Method::Extension(s.clone()),
    }
}

/// The two dialects of the protocol.
#[derive(Clone, Copy, Debug, PartialEq, Eq, Structural)]
pub enum Dialect {
    /// The ratified W3C protocol.
    Spec,
    /// The JSON Wire Protocol that came before it.
    Legacy,
}

/// How a locator finds elements.
#[derive(Clone, Copy, Debug, PartialEq, Eq, Structural)]
pub enum Strategy {
    CssSelector,
    LinkText,
    XPath,
}

/// A strategy and the value it searches with.
#[derive(Debug, PartialEq)]
pub struct Locator {
    pub using: Strategy,
    pub value: String,
}

/// A request to the server, before it is routed.
#[derive(Debug, PartialEq)]
pub enum Command {
    /// Create a session, in the given dialect.
    NewSession(Dialect),
    DeleteSession,
    /// Navigate to a URL.
    Get(String),
    GetCurrentUrl,
    GetPageSource,
    FindElement(Locator),
    /// Find an element below the element of the given id.
    FindElementElement(String, Locator),
    GetCookies,
    /// Run a script with arguments.
    ExecuteScript(String, Vec<Json>),
    /// Read an attribute (element id, attribute name).
    GetElementAttribute(String, String),
    /// Read a property (element id, property name).
    GetElementProperty(String, String),
    ElementClick(String),
    GetElementText(String),
    /// Type text into an element (element id, text).
    ElementSendKeys(String, String),
}

/// Where and how a command goes: the method, the path from the server's root, and the body.
#[derive(Debug, PartialEq)]
pub struct Endpoint {
    pub method: Method,
    pub path: String,
    pub body: Option<Json>,
}

/// The name of a strategy on the wire.
pub open spec fn strategy_name(s: Strategy) -> Seq<char> {
    match s {
        Strategy::CssSelector => "css selector"@,
        Strategy::LinkText => "link text"@,
        Strategy::XPath => "xpath"@,
    }
}

/// An object of one member.
pub open spec fn obj1(k: Seq<char>, v: JsonView) -> JsonView {
    JsonView::Object(seq![(k, v)])
}

/// An object of two members.
pub open spec fn obj2(k1: Seq<char>, v1: JsonView, k2: Seq<char>, v2: JsonView) -> JsonView {
    JsonView::Object(seq![(k1, v1), (k2, v2)])
}

/// The capability that every session asks for: load pages to completion.
pub open spec fn capabilities() -> JsonView {
    obj1("pageLoadStrategy"@, JsonView::Str("normal"@))
}

/// The body that creates a session in the given dialect.
pub open spec fn new_session_body(d: Dialect) -> JsonView {
    match d {
        Dialect::Spec => obj1(
            "capabilities"@,
            obj2("alwaysMatch"@, capabilities(), "firstMatch"@, JsonView::Array(seq![])),
        ),
        Dialect::Legacy => obj2(
            "desiredCapabilities"@,
            JsonView::Object(seq![]),
            "requiredCapabilities"@,
            capabilities(),
        ),
    }
}

/// The body that carries a locator.
pub open spec fn locator_body(l: Locator) -> JsonView {
    obj2("using"@, JsonView::Str(strategy_name(l.using)), "value"@, JsonView::Str(l.value@))
}

/// The models of a list of values.
pub open spec fn models(items: Seq<Json>) -> Seq<JsonView> {
    Seq::new(items.len(), |i: int| items[i].model())
}

/// The path below a session: `/session/<id>/<rest>`.
pub open spec fn session_path(sid: Seq<char>, rest: Seq<char>) -> Seq<char> {
    "/session/"@ + sid + "/"@ + rest
}

/// The path below an element of a session: `/session/<id>/element/<el>/<rest>`.
pub open spec fn element_path(sid: Seq<char>, el: Seq<char>, rest: Seq<char>) -> Seq<char> {
    session_path(sid, "element/"@ + el + "/"@ + rest)
}

/// The method, path and body model of a command in the session `sid`.
pub open spec fn route_of(cmd: Command, sid: Seq<char>, legacy: bool) -> (
    Method,
    Seq<char>,
    Option<JsonView>,
) {
    match cmd {
        Command::NewSession(d) => (Method::Post, "/session"@, Some(new_session_body(d))),
        Command::DeleteSession => (Method::Delete, "/session/"@ + sid, None),
        Command::Get(u) => (
            Method::Post,
            session_path(sid, "url"@),
            Some(obj1("url"@, JsonView::Str(u@))),
        ),
        Command::GetCurrentUrl => (Method::Get, session_path(sid, "url"@), None),
        Command::GetPageSource => (Method::Get, session_path(sid, "source"@), None),
        Command::FindElement(l) => (
            Method::Post,
            session_path(sid, "element"@),
            Some(locator_body(l)),
        ),
        Command::FindElementElement(p, l) => (
            Method::Post,
            element_path(sid, p@, "element"@),
            Some(locator_body(l)),
        ),
        Command::GetCookies => (Method::Get, session_path(sid, "cookie"@), None),
        Command::ExecuteScript(s, args) => (
            Method::Post,
            session_path(
                sid,
                if legacy {
                    "execute"@
                } else {
                    "execute/sync"@
                },
            ),
            Some(obj2("script"@, JsonView::Str(s@), "args"@, JsonView::Array(models(args@)))),
        ),
        Command::GetElementAttribute(e, n) => (
            Method::Get,
            element_path(sid, e@, "attribute/"@ + n@),
            None,
        ),
        Command::GetElementProperty(e, n) => (
            Method::Get,
            element_path(sid, e@, "property/"@ + n@),
            None,
        ),
        Command::ElementClick(e) => (
            Method::Post,
            element_path(sid, e@, "click"@),
            Some(JsonView::Object(seq![])),
        ),
        Command::GetElementText(e) => (Method::Get, element_path(sid, e@, "text"@), None),
        Command::ElementSendKeys(e, t) => (
            Method::Post,
            element_path(sid, e@, "value"@),
            Some(obj1("value"@, JsonView::Str(t@))),
        ),
    }
}

/// The model of an optional body.
pub open spec fn body_model(b: Option<Json>) -> Option<JsonView> {
    match b {
        Some(j) => Some(j.model()),
        None => None,
    }
}

/// Routing a command is a function of the command, the session and the dialect: equal inputs
/// give equal method, path and body.
pub proof fn lemma_route_pure(
    c1: Command,
    c2: Command,
    sid: Seq<char>,
    legacy: bool,
    e1: Endpoint,
    e2: Endpoint,
)
    requires
        c1 == c2,
        (e1.method, e1.path@, body_model(e1.body)) == route_of(c1, sid, legacy),
        (e2.method, e2.path@, body_model(e2.body)) == route_of(c2, sid, legacy),
    ensures
        e1.method == e2.method,
        e1.path@ == e2.path@,
        body_model(e1.body) == body_model(e2.body),
{
}

fn str_json(s: &str) -> (r: Json)
    ensures
        r.model() == JsonView::Str(s@),
{
    Json::Str(s.to_owned())
}

fn pair(k1: &str, v1: Json, k2: &str, v2: Json) -> (r: Json)
    ensures
        r.model() == obj2(k1@, v1.model(), k2@, v2.model()),
{
    let r = Json::Object(vec![(k1.to_owned(), v1), (k2.to_owned(), v2)]);
    assert(r.model()->Object_0 =~= seq![(k1@, v1.model()), (k2@, v2.model())]);
    r
}

fn one(k: &str, v: Json) -> (r: Json)
    ensures
        r.model() == obj1(k@, v.model()),
{
    let r = single(k, v);
    assert(r.model()->Object_0 =~= seq![(k@, v.model())]);
    r
}

fn empty_object() -> (r: Json)
    ensures
        r.model() == JsonView::Object(seq![]),
{
    let r = Json::Object(Vec::new());
    assert(r.model()->Object_0 =~= seq![]);
    r
}

/// The body that creates a session in dialect `d`.
pub fn new_session_payload(d: Dialect) -> (r: Json)
    ensures
        r.model() == new_session_body(d),
{
    let caps = one("pageLoadStrategy", str_json("normal"));
    match d {
        Dialect::Spec => {
            let none = Json::Array(Vec::new());
            assert(none.model()->Array_0 =~= seq![]);
            one("capabilities", pair("alwaysMatch", caps, "firstMatch", none))
        },
        Dialect::Legacy => pair("desiredCapabilities", empty_object(), "requiredCapabilities", caps),
    }
}

/// The name of a strategy on the wire.
pub fn strategy_text(s: Strategy) -> (r: &'static str)
    ensures
        r@ == strategy_name(s),
{
    match s {
        Strategy::CssSelector => "css selector",
        Strategy::LinkText => "link text",
        Strategy::XPath => "xpath",
    }
}

fn locator_payload(l: Locator) -> (r: Json)
    ensures
        r.model() == locator_body(l),
{
    let using = str_json(strategy_text(l.using));
    pair("using", using, "value", Json::Str(l.value))
}

fn join3(a: &str, b: &str, c: &str) -> (r: String)
    ensures
        r@ == a@ + b@ + c@,
{
    let mut s = a.to_owned();
    s.append(b);
    s.append(c);
    s
}

fn session_url(sid: &str, rest: &str) -> (r: String)
    ensures
        r@ == session_path(sid@, rest@),
{
    let mut s = join3("/session/", sid, "/");
    s.append(rest);
    s
}

fn element_url(sid: &str, el: &str, rest: &str) -> (r: String)
    ensures
        r@ == element_path(sid@, el@, rest@),
{
    let tail = join3("element/", el, "/");
    let mut full = tail;
    full.append(rest);
    let r = session_url(sid, full.as_str());
    assert(r@ =~= element_path(sid@, el@, rest@));
    r
}

/// Routes a command of the session `sid`.
pub fn route(cmd: Command, sid: &str, legacy: bool) -> (r: Endpoint)
    ensures
        (r.method, r.path@, body_model(r.body)) == route_of(cmd, sid@, legacy),
{
    let ghost c = cmd;
    match cmd {
        Command::NewSession(d) => Endpoint {
            method: Method::Post,
            path: "/session".to_owned(),
            body: Some(new_session_payload(d)),
        },
        Command::DeleteSession => {
            let mut p = "/session/".to_owned();
            p.append(sid);
            Endpoint { method: Method::Delete, path: p, body: None }
        },
        Command::Get(u) => Endpoint {
            method: Method::Post,
            path: session_url(sid, "url"),
            body: Some(one("url", Json::Str(u))),
        },
        Command::GetCurrentUrl => Endpoint {
            method: Method::Get,
            path: session_url(sid, "url"),
            body: None,
        },
        Command::GetPageSource => Endpoint {
            method: Method::Get,
            path: session_url(sid, "source"),
            body: None,
        },
        Command::FindElement(l) => Endpoint {
            method: Method::Post,
            path: session_url(sid, "element"),
            body: Some(locator_payload(l)),
        },
        Command::FindElementElement(p, l) => Endpoint {
            method: Method::Post,
            path: element_url(sid, p.as_str(), "element"),
            body: Some(locator_payload(l)),
        },
        Command::GetCookies => Endpoint {
            method: Method::Get,
            path: session_url(sid, "cookie"),
            body: None,
        },
        Command::ExecuteScript(s, args) => {
            let path = if legacy {
                session_url(sid, "execute")
            } else {
                session_url(sid, "execute/sync")
            };
            let ghost a = args@;
            let list = Json::Array(args);
            assert(list.model()->Array_0 =~= models(a));
            Endpoint {
                method: Method::Post,
                path,
                body: Some(pair("script", Json::Str(s), "args", list)),
            }
        },
        Command::GetElementAttribute(e, n) => {
            let mut rest = "attribute/".to_owned();
            rest.append(n.as_str());
            Endpoint {
                method: Method::Get,
                path: element_url(sid, e.as_str(), rest.as_str()),
                body: None,
            }
        },
        Command::GetElementProperty(e, n) => {
            let mut rest = "property/".to_owned();
            rest.append(n.as_str());
            Endpoint {
                method: Method::Get,
                path: element_url(sid, e.as_str(), rest.as_str()),
                body: None,
            }
        },
        Command::ElementClick(e) => Endpoint {
            method: Method::Post,
            path: element_url(sid, e.as_str(), "click"),
            body: Some(empty_object()),
        },
        Command::GetElementText(e) => Endpoint {
            method: Method::Get,
            path: element_url(sid, e.as_str(), "text"),
            body: None,
        },
        Command::ElementSendKeys(e, t) => Endpoint {
            method: Method::Post,
            path: element_url(sid, e.as_str(), "value"),
            body: Some(one("value", Json::Str(t))),
        },
    }
}

} // verus!
