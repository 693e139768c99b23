//! Reading the page: lookups, element and form handles, and the decoding of their replies.
use vstd::prelude::*;
use crate::client::{element_key, element_key_of, Client};
use crate::command::{element_path, route_of, Command, Locator, Method, Strategy};
use crate::error::CmdError;
use crate::json::{find_key, first_key_at, has_key, lemma_first_key, single, Json, JsonView};
use crate::url::{parse_url, parsed};

verus! {

/// A single element on the current page, by the id the server gave it.
#[derive(Debug, PartialEq)]
pub struct Element {
    pub id: String,
}

/// An HTML form on the current page, by the id the server gave it.
#[derive(Debug, PartialEq)]
pub struct Form {
    pub id: String,
}

/// `r` decodes a reply that should hold a URL: the URL, parsed.
pub open spec fn url_read(reply: Result<Json, CmdError>, r: Result<String, CmdError>) -> bool {
    match reply {
        Err(e) => r == Err::<String, CmdError>(e),
        Ok(Json::Str(u)) => match parsed(u@) {
            Some(p) => r matches Ok(s) && s@ == p,
            None => r == Err::<String, CmdError>(CmdError::BadUrl(u)),
        },
        Ok(v) => r == Err::<String, CmdError>(CmdError::NotW3C(v)),
    }
}

/// `r` decodes a reply that should hold a string.
pub open spec fn string_read(reply: Result<Json, CmdError>, r: Result<String, CmdError>) -> bool {
    match reply {
        Err(e) => r == Err::<String, CmdError>(e),
        Ok(Json::Str(s)) => r == Ok::<String, CmdError>(s),
        Ok(v) => r == Err::<String, CmdError>(CmdError::NotW3C(v)),
    }
}

/// `r` decodes a reply that should hold a string or null.
pub open spec fn optional_read(reply: Result<Json, CmdError>, r: Result<Option<String>, CmdError>) -> bool {
    match reply {
        Err(e) => r == Err::<Option<String>, CmdError>(e),
        Ok(Json::Str(s)) => r == Ok::<Option<String>, CmdError>(Some(s)),
        Ok(Json::Null) => r == Ok::<Option<String>, CmdError>(None),
        Ok(v) => r == Err::<Option<String>, CmdError>(CmdError::NotW3C(v)),
    }
}

/// Whether a reply to a click or a submission reports success: `null` or an empty object.
pub open spec fn acked(v: Json) -> bool {
    v is Null || (v matches Json::Object(f) && f@.len() == 0)
}

/// A click or a submission succeeds on `null` and on an empty object, and on no other object.
pub proof fn lemma_acked_objects(f: Vec<(String, Json)>)
    ensures
        acked(Json::Null),
        acked(Json::Object(f)) <==> f@.len() == 0,
{
}

/// A click is a POST of `{}` to the element's `click` endpoint, and it succeeds exactly when the
/// server answers `null` or `{}`; any other answer is a malformed-reply error that holds it.
pub proof fn lemma_click_acknowledged(
    id: String,
    sid: Seq<char>,
    legacy: bool,
    v: Json,
    r: Result<(), CmdError>,
)
    requires
        ack_read(Ok(v), r),
    ensures
        route_of(Command::ElementClick(id), sid, legacy) == (
            Method::Post,
            element_path(sid, id@, "click"@),
            Some(JsonView::Object(seq![])),
        ),
        r is Ok <==> (v is Null || (v matches Json::Object(f) && f@.len() == 0)),
        !(r is Ok) ==> r == Err::<(), CmdError>(CmdError::NotW3C(v)),
{
}

/// `r` decodes the reply to a click or a submission.
pub open spec fn ack_read(reply: Result<Json, CmdError>, r: Result<(), CmdError>) -> bool {
    match reply {
        Err(e) => r == Err::<(), CmdError>(e),
        Ok(v) => if acked(v) {
            r is Ok
        } else {
            r == Err::<(), CmdError>(CmdError::NotW3C(v))
        },
    }
}

/// `r` decodes the reply to a lookup in the given dialect: the id under the dialect's key.
pub open spec fn element_read(legacy: bool, reply: Result<Json, CmdError>, r: Result<String, CmdError>) -> bool {
    match reply {
        Err(e) => r == Err::<String, CmdError>(e),
        Ok(Json::Object(f)) => {
            let key = element_key_of(legacy);
            if exists|i: int| first_key_at(f@, key, i) && f@[i].1 is Str {
                let i = choose|i: int| first_key_at(f@, key, i);
                r matches Ok(id) && f@[i].1 == Json::Str(id)
            } else {
                r == Err::<String, CmdError>(CmdError::NotW3C(Json::Object(f)))
            }
        },
        Ok(v) => r == Err::<String, CmdError>(CmdError::NotW3C(v)),
    }
}

/// Decodes a reply that should hold a URL.
pub fn read_url(reply: Result<Json, CmdError>) -> (r: Result<String, CmdError>)
    ensures
        url_read(reply, r),
{
    match reply {
        Err(e) => Err(e),
        Ok(Json::Str(u)) => match parse_url(u.as_str()) {
            Some(p) => Ok(p),
            None => Err(CmdError::BadUrl(u)),
        },
        Ok(v) => Err(CmdError::NotW3C(v)),
    }
}

/// Decodes a reply that should hold a string.
pub fn read_string(reply: Result<Json, CmdError>) -> (r: Result<String, CmdError>)
    ensures
        string_read(reply, r),
{
    match reply {
        Err(e) => Err(e),
        Ok(Json::Str(s)) => Ok(s),
        Ok(v) => Err(CmdError::NotW3C(v)),
    }
}

/// Decodes a reply that should hold a string or null; null stands for an absent value.
pub fn read_optional(reply: Result<Json, CmdError>) -> (r: Result<Option<String>, CmdError>)
    ensures
        optional_read(reply, r),
{
    match reply {
        Err(e) => Err(e),
        Ok(Json::Str(s)) => Ok(Some(s)),
        Ok(Json::Null) => Ok(None),
        Ok(v) => Err(CmdError::NotW3C(v)),
    }
}

/// Decodes the reply to reading an element's HTML: an absent property is a malformed reply.
pub fn read_html(reply: Result<Json, CmdError>) -> (r: Result<String, CmdError>)
    ensures
        string_read(reply, r),
{
    read_string(reply)
}

/// Decodes the reply to a click or a submission.
pub fn acknowledged(reply: Result<Json, CmdError>) -> (r: Result<(), CmdError>)
    ensures
        ack_read(reply, r),
{
    match reply {
        Err(e) => Err(e),
        Ok(Json::Null) => Ok(()),
        Ok(Json::Object(f)) => {
            if f.len() == 0 {
                Ok(())
            } else {
                Err(CmdError::NotW3C(Json::Object(f)))
            }
        },
        Ok(v) => Err(CmdError::NotW3C(v)),
    }
}

/// Decodes the reply to a lookup: the id of the element found.
pub fn read_element(legacy: bool, reply: Result<Json, CmdError>) -> (r: Result<String, CmdError>)
    ensures
        element_read(legacy, reply, r),
{
    match reply {
        Err(e) => Err(e),
        Ok(Json::Object(f)) => {
            let key = element_key(legacy);
            match find_key(&f, key) {
                Some(i) => {
                    proof {
                        lemma_first_key(f@, key@, i as int);
                        assert forall|j: int| first_key_at(f@, key@, j) implies j == i by {
                            if j < i {
                            }
                            if i < j {
                            }
                        }
                    }
                    let id: Option<String> = match &f[i].1 {
                        Json::Str(id) => Some(id.clone()),
                        _ => None,
                    };
                    match id {
                        Some(id) => Ok(id),
                        None => Err(CmdError::NotW3C(Json::Object(f))),
                    }
                },
                None => Err(CmdError::NotW3C(Json::Object(f))),
            }
        },
        Ok(v) => Err(CmdError::NotW3C(v)),
    }
}

/// The locator of a CSS selector.
pub fn mklocator(selector: &str) -> (r: Locator)
    ensures
        r.using == Strategy::CssSelector,
        r.value@ == selector@,
{
    Locator { using: Strategy::CssSelector, value: selector.to_owned() }
}

/// `j` serializes a reference to the element `id` under `key`.
pub open spec fn is_ref(j: Json, key: Seq<char>, id: Seq<char>) -> bool {
    j matches Json::Object(f) && f@.len() == 1 && f@[0].0@ == key && (f@[0].1 matches Json::Str(
        s,
    ) && s@ == id)
}

/// `b` is `a` with the member of the ratified element key, if there is one, renamed to the
/// legacy key.
pub open spec fn rekeyed(a: Json, b: Json) -> bool {
    match a {
        Json::Object(f) => b matches Json::Object(g) && if has_key(f@, element_key_of(false)) {
            let i = choose|i: int| first_key_at(f@, element_key_of(false), i);
            &&& g@.len() == f@.len()
            &&& g@[i].0@ == element_key_of(true)
            &&& g@[i].1 == f@[i].1
            &&& forall|j: int| 0 <= j < f@.len() && j != i ==> g@[j] == f@[j]
        } else {
            g@ == f@
        },
        _ => b == a,
    }
}

/// Rewrites one argument for the legacy dialect.
fn rekey(a: Json) -> (r: Json)
    ensures
        rekeyed(a, r),
{
    match a {
        Json::Object(f) => {
            let key = element_key(false);
            match find_key(&f, key) {
                Some(i) => {
                    proof {
                        lemma_first_key(f@, key@, i as int);
                        assert forall|j: int| first_key_at(f@, key@, j) implies j == i by {
                            if j < i {
                            }
                            if i < j {
                            }
                        }
                    }
                    let mut g = f;
                    let (_, v) = g.remove(i);
                    g.insert(i, (element_key(true).to_owned(), v));
                    Json::Object(g)
                },
                None => Json::Object(f),
            }
        },
        other => other,
    }
}

/// Rewrites script arguments for the dialect: the legacy dialect expects element references
/// under its own key.
pub fn fixup_elements(legacy: bool, args: Vec<Json>) -> (r: Vec<Json>)
    ensures
        !legacy ==> r@ == args@,
        legacy ==> r@.len() == args@.len() && forall|i: int|
            0 <= i < args@.len() ==> rekeyed(#[trigger] args@[i], r@[i]),
{
    if !legacy {
        return args;
    }
    let ghost orig = args@;
    let mut rest = args;
    let mut out: Vec<Json> = Vec::new();
    while rest.len() > 0
        invariant
            out@.len() + rest@.len() == orig.len(),
            rest@ == orig.subrange(out@.len() as int, orig.len() as int),
            forall|i: int| 0 <= i < out@.len() ==> rekeyed(#[trigger] orig[i], out@[i]),
        decreases rest@.len(),
    {
        let a = rest.remove(0);
        out.push(rekey(a));
        assert(rest@ =~= orig.subrange(out@.len() as int, orig.len() as int));
    }
    out
}

/// The reference to the element `id`, under the ratified key.
pub fn element_json(id: &str) -> (r: Json)
    ensures
        is_ref(r, element_key_of(false), id@),
{
    single(element_key(false), Json::Str(id.to_owned()))
}

/// Rewriting a ratified reference for the legacy dialect gives a legacy reference.
pub proof fn lemma_rekeyed_ref(a: Json, b: Json, id: Seq<char>)
    requires
        is_ref(a, element_key_of(false), id),
        rekeyed(a, b),
    ensures
        is_ref(b, element_key_of(true), id),
{
    let f = a->Object_0;
    assert(first_key_at(f@, element_key_of(false), 0));
    lemma_first_key(f@, element_key_of(false), 0);
    let i = choose|i: int| first_key_at(f@, element_key_of(false), i);
    assert(first_key_at(f@, element_key_of(false), i));
    assert(i == 0);
}

/// The arguments of a script: the element `id` in the dialect's form, then `rest`.
pub fn script_args(legacy: bool, id: &str, rest: Vec<Json>) -> (r: Vec<Json>)
    ensures
        r@.len() == rest@.len() + 1,
        is_ref(r@[0], element_key_of(legacy), id@),
        !legacy ==> forall|i: int| 0 <= i < rest@.len() ==> r@[i + 1] == rest@[i],
        legacy ==> forall|i: int| 0 <= i < rest@.len() ==> rekeyed(rest@[i], #[trigger] r@[i + 1]),
        forall|i: int| 0 <= i < rest@.len() ==> rest@[i] is Str ==> r@[i + 1] == rest@[i],
{
    let mut all = vec![element_json(id)];
    let ghost r0 = rest@;
    let mut rest = rest;
    all.append(&mut rest);
    let ghost a = all@;
    let out = fixup_elements(legacy, all);
    proof {
        assert(a =~= seq![a[0]] + r0);
        if legacy {
            lemma_rekeyed_ref(a[0], out@[0], id@);
            assert forall|i: int| 0 <= i < r0.len() implies rekeyed(r0[i], #[trigger] out@[i + 1]) by {
                assert(a[i + 1] == r0[i]);
                assert(rekeyed(a[i + 1], out@[i + 1]));
            }
            assert forall|i: int| 0 <= i < r0.len() && r0[i] is Str implies out@[i + 1] == r0[i] by {
                assert(rekeyed(r0[i], out@[i + 1]));
            }
        } else {
            assert forall|i: int| 0 <= i < r0.len() implies out@[i + 1] == r0[i] by {
                assert(a[i + 1] == r0[i]);
            }
        }
    }
    out
}

impl Client {
    /// The command that reads the current URL; its reply decodes with `read_url`.
    pub fn current_url(&self) -> (r: Command)
        ensures
            r is GetCurrentUrl,
    {
        Command::GetCurrentUrl
    }

    /// The command that reads the page's HTML source; its reply decodes with `read_string`.
    pub fn source(&self) -> (r: Command)
        ensures
            r is GetPageSource,
    {
        Command::GetPageSource
    }

    /// The command that finds an element by CSS selector; its reply decodes with
    /// `read_element`.
    pub fn by_selector(&self, selector: &str) -> (r: Command)
        ensures
            r matches Command::FindElement(l) && l.using == Strategy::CssSelector && l.value@
                == selector@,
    {
        Command::FindElement(mklocator(selector))
    }

    /// The command that finds an element by its exact link text.
    pub fn by_link_text(&self, text: &str) -> (r: Command)
        ensures
            r matches Command::FindElement(l) && l.using == Strategy::LinkText && l.value@
                == text@,
    {
        Command::FindElement(Locator { using: Strategy::LinkText, value: text.to_owned() })
    }

    /// The command that finds an element by an XPath expression.
    pub fn by_xpath(&self, xpath: &str) -> (r: Command)
        ensures
            r matches Command::FindElement(l) && l.using == Strategy::XPath && l.value@ == xpath@,
    {
        Command::FindElement(Locator { using: Strategy::XPath, value: xpath.to_owned() })
    }

    /// The command that finds a form by CSS selector.
    pub fn form(&self, selector: &str) -> (r: Command)
        ensures
            r matches Command::FindElement(l) && l.using == Strategy::CssSelector && l.value@
                == selector@,
    {
        self.by_selector(selector)
    }
}

impl Element {
    /// The command that reads an attribute; its reply decodes with `read_optional`.
    pub fn attr(&self, attribute: &str) -> (r: Command)
        ensures
            r matches Command::GetElementAttribute(e, n) && e@ == self.id@ && n@ == attribute@,
    {
        Command::GetElementAttribute(self.id.clone(), attribute.to_owned())
    }

    /// The command that reads a DOM property; its reply decodes with `read_optional`.
    pub fn prop(&self, prop: &str) -> (r: Command)
        ensures
            r matches Command::GetElementProperty(e, n) && e@ == self.id@ && n@ == prop@,
    {
        Command::GetElementProperty(self.id.clone(), prop.to_owned())
    }

    /// The command that reads the element's text; its reply decodes with `read_string`.
    pub fn text(&self) -> (r: Command)
        ensures
            r matches Command::GetElementText(e) && e@ == self.id@,
    {
        Command::GetElementText(self.id.clone())
    }

    /// The command that reads the element's inner or outer HTML; its reply decodes with
    /// `read_html`.
    pub fn html(&self, inner: bool) -> (r: Command)
        ensures
            r matches Command::GetElementProperty(e, n) && e@ == self.id@ && n@ == (if inner {
                "innerHTML"@
            } else {
                "outerHTML"@
            }),
    {
        let name = if inner {
            "innerHTML"
        } else {
            "outerHTML"
        };
        self.prop(name)
    }

    /// The command that clicks the element, which the page may replace; its reply decodes with
    /// `acknowledged`.
    pub fn click(self) -> (r: Command)
        ensures
            r matches Command::ElementClick(e) && e@ == self.id@,
    {
        Command::ElementClick(self.id)
    }
}

} // verus!
