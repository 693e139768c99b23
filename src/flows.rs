//! Operations of several round trips, each a step machine: it hands out one command at a time
//! and is resumed with the decoded reply, until it is done.
use vstd::prelude::*;
use crate::command::{obj1, route_of, session_path, Command, Method, Strategy};
use crate::error::{CmdError, ErrorKind, WebDriverError};
use crate::json::{Json, JsonView};
use crate::page::{
    acked, acknowledged, ack_read, element_read, is_ref, mklocator, read_element,
    read_optional, read_url, script_args, url_read, Element, Form,
};
use crate::client::{element_key_of, Client};
use crate::text::{escape_css, css_escaped};
use crate::url::{join_url, joined, parse_url, parsed};

verus! {

/// What a step machine wants next.
#[derive(Debug, PartialEq)]
pub enum Step<T, E> {
    /// Send the command and resume with its decoded reply; where the flag holds, pause first so
    /// that the page can react.
    Issue(Command, bool),
    /// The operation is over, with this result.
    Done(Result<T, E>),
}

/// The URL that the reply to reading the current URL holds, parsed.
pub open spec fn current_of(reply: Result<Json, CmdError>) -> Option<Seq<char>> {
    match reply {
        Ok(Json::Str(u)) => parsed(u@),
        _ => None,
    }
}

/// `r` is what follows the reply to reading the current URL when navigating to `target`: the
/// navigation to `target` resolved against that URL.
pub open spec fn goto_next(target: Seq<char>, reply: Result<Json, CmdError>, r: Step<(), CmdError>) -> bool {
    match current_of(reply) {
        Some(p) => match joined(p, target) {
            Some(j) => r matches Step::Issue(Command::Get(s), false) && s@ == j,
            None => r matches Step::Done(Err(CmdError::BadUrl(t))) && t@ == target,
        },
        None => r matches Step::Done(Err(e)) && url_read(reply, Err(e)),
    }
}

/// `r` is what follows the reply to a navigation.
pub open spec fn navigated(reply: Result<Json, CmdError>, r: Step<(), CmdError>) -> bool {
    match reply {
        Ok(_) => r matches Step::Done(Ok(_)),
        Err(e) => r == Step::<(), CmdError>::Done(Err(e)),
    }
}

/// Decides what follows the reply to reading the current URL when navigating to `target`.
pub fn navigate_from(target: &str, reply: Result<Json, CmdError>) -> (r: Step<(), CmdError>)
    ensures
        goto_next(target@, reply, r),
{
    match read_url(reply) {
        Ok(cur) => match join_url(cur.as_str(), target) {
            Some(u) => Step::Issue(Command::Get(u), false),
            None => Step::Done(Err(CmdError::BadUrl(target.to_owned()))),
        },
        Err(e) => Step::Done(Err(e)),
    }
}

/// Decides what follows the reply to a navigation.
pub fn after_navigation(reply: Result<Json, CmdError>) -> (r: Step<(), CmdError>)
    ensures
        navigated(reply, r),
{
    match reply {
        Ok(_) => Step::Done(Ok(())),
        Err(e) => Step::Done(Err(e)),
    }
}

/// Navigating to `target` sends the browser to `target` resolved against the URL it reported
/// before; where the browser then reports the URL it was sent to, reading the current URL gives
/// back that resolved URL, parsed.
pub proof fn lemma_goto_then_read(
    target: Seq<char>,
    before: Result<Json, CmdError>,
    step: Step<(), CmdError>,
    after: Result<Json, CmdError>,
    read: Result<String, CmdError>,
)
    requires
        goto_next(target, before, step),
        step is Issue,
        after matches Ok(Json::Str(u)) && step->Issue_0 matches Command::Get(s) && u@ == s@,
        url_read(after, read),
    ensures
        current_of(before) is Some,
        joined(current_of(before)->Some_0, target) is Some,
        step->Issue_0 matches Command::Get(s) && s@ == joined(current_of(before)->Some_0, target)->Some_0,
        match parsed(joined(current_of(before)->Some_0, target)->Some_0) {
            Some(p) => read matches Ok(x) && x@ == p,
            None => read is Err,
        },
{
}

/// Once the current URL is read, navigating to `target` sends one request: a POST to the
/// session's `url` endpoint whose body gives `target` resolved against that URL.
pub proof fn lemma_goto_request(
    target: Seq<char>,
    before: Result<Json, CmdError>,
    step: Step<(), CmdError>,
    sid: Seq<char>,
    legacy: bool,
)
    requires
        goto_next(target, before, step),
        current_of(before) is Some,
        joined(current_of(before)->Some_0, target) is Some,
    ensures
        step matches Step::Issue(c, false) && route_of(c, sid, legacy) == (
            Method::Post,
            session_path(sid, "url"@),
            Some(obj1("url"@, JsonView::Str(joined(current_of(before)->Some_0, target)->Some_0))),
        ),
{
}

/// Where a navigation stands.
pub enum GotoStage {
    Start,
    Reading,
    Navigating,
    Finished,
}

/// Navigation to a URL, resolved against the current one.
pub struct Goto {
    pub target: String,
    pub stage: GotoStage,
}

impl Client {
    /// Navigates to `url`, resolved against the current URL.
    pub fn goto(&self, url: &str) -> (r: Goto)
        ensures
            r.target@ == url@,
            r.stage is Start,
    {
        Goto { target: url.to_owned(), stage: GotoStage::Start }
    }
}

impl Goto {
    /// The first step: read the current URL.
    pub fn start(&mut self) -> (r: Step<(), CmdError>)
        requires
            old(self).stage is Start,
        ensures
            r matches Step::Issue(Command::GetCurrentUrl, false),
            final(self).stage is Reading,
            final(self).target == old(self).target,
    {
        self.stage = GotoStage::Reading;
        Step::Issue(Command::GetCurrentUrl, false)
    }

    /// The next step, given the reply to the last command.
    pub fn resume(&mut self, reply: Result<Json, CmdError>) -> (r: Step<(), CmdError>)
        requires
            old(self).stage is Reading || old(self).stage is Navigating,
        ensures
            final(self).target == old(self).target,
            old(self).stage is Reading ==> goto_next(old(self).target@, reply, r),
            old(self).stage is Navigating ==> navigated(reply, r),
            r is Issue ==> final(self).stage is Navigating,
            r is Done ==> final(self).stage is Finished,
    {
        let r = match self.stage {
            GotoStage::Reading => navigate_from(self.target.as_str(), reply),
            _ => after_navigation(reply),
        };
        self.stage = if matches!(r, Step::Issue(..)) {
            GotoStage::Navigating
        } else {
            GotoStage::Finished
        };
        r
    }
}

/// Where following a link stands.
pub enum FollowStage {
    Start,
    ReadingHref,
    ReadingUrl,
    Navigating,
    Finished,
}

/// Navigation to the target of an element's `href`, without a click.
pub struct Follow {
    pub element: String,
    pub href: String,
    pub stage: FollowStage,
}

/// The error for an element without an `href` to follow.
pub open spec fn no_href(e: CmdError) -> bool {
    e matches CmdError::Standard(w) && w.kind == ErrorKind::InvalidArgument
}

impl Element {
    /// Follows the element's `href`, resolved against the current URL, without clicking it.
    pub fn follow(self) -> (r: Follow)
        ensures
            r.element@ == self.id@,
            r.stage is Start,
    {
        Follow { element: self.id, href: String::new(), stage: FollowStage::Start }
    }
}

impl Follow {
    /// The first step: read the element's `href` attribute.
    pub fn start(&mut self) -> (r: Step<(), CmdError>)
        requires
            old(self).stage is Start,
        ensures
            r matches Step::Issue(Command::GetElementAttribute(e, n), false) && e == old(self).element
                && n@ == "href"@,
            final(self).stage is ReadingHref,
            final(self).element == old(self).element,
    {
        self.stage = FollowStage::ReadingHref;
        Step::Issue(Command::GetElementAttribute(self.element.clone(), "href".to_owned()), false)
    }

    /// The next step, given the reply to the last command.
    pub fn resume(&mut self, reply: Result<Json, CmdError>) -> (r: Step<(), CmdError>)
        requires
            !(old(self).stage is Start),
            !(old(self).stage is Finished),
        ensures
            old(self).stage is ReadingHref ==> match reply {
                Ok(Json::Str(h)) => {
                    &&& (r matches Step::Issue(Command::GetCurrentUrl, false))
                    &&& final(self).href@ == h@
                    &&& final(self).stage is ReadingUrl
                },
                Ok(Json::Null) => r matches Step::Done(Err(e)) && no_href(e),
                Ok(v) => r == Step::<(), CmdError>::Done(Err(CmdError::NotW3C(v))),
                Err(e) => r == Step::<(), CmdError>::Done(Err(e)),
            },
            old(self).stage is ReadingUrl ==> goto_next(old(self).href@, reply, r),
            final(self).element == old(self).element,
            old(self).stage is Navigating ==> navigated(reply, r),
            r is Done ==> final(self).stage is Finished,
            old(self).stage is ReadingUrl && r is Issue ==> final(self).stage is Navigating,
    {
        match self.stage {
            FollowStage::ReadingHref => match read_optional(reply) {
                Ok(Some(h)) => {
                    self.href = h;
                    self.stage = FollowStage::ReadingUrl;
                    Step::Issue(Command::GetCurrentUrl, false)
                },
                Ok(None) => {
                    self.stage = FollowStage::Finished;
                    let e = WebDriverError {
                        kind: ErrorKind::InvalidArgument,
                        message: "cannot follow element without href attribute".to_owned(),
                    };
                    Step::Done(Err(CmdError::Standard(e)))
                },
                Err(e) => {
                    self.stage = FollowStage::Finished;
                    Step::Done(Err(e))
                },
            },
            FollowStage::ReadingUrl => {
                let r = navigate_from(self.href.as_str(), reply);
                self.stage = if matches!(r, Step::Issue(..)) {
                    FollowStage::Navigating
                } else {
                    FollowStage::Finished
                };
                r
            },
            _ => {
                self.stage = FollowStage::Finished;
                after_navigation(reply)
            },
        }
    }
}

/// The script that sets a field's value.
pub open spec fn set_script() -> Seq<char> {
    "arguments[0].value = arguments[1]"@
}

/// The script that submits a form without a click.
pub open spec fn submit_script() -> Seq<char> {
    "arguments[0].submit()"@
}

/// The script that adds a hidden field with a name and a value to a form.
pub open spec fn inject_script() -> Seq<char> {
    "var h = document.createElement('input');h.setAttribute('type', 'hidden');h.setAttribute('name', arguments[1]);h.value = arguments[2];arguments[0].appendChild(h)"@
}

/// The selector of the input named `name`.
pub open spec fn field_selector(name: Seq<char>) -> Seq<char> {
    "input[name='"@ + name + "']"@
}

/// The selector of the submit buttons of a form.
pub open spec fn default_submit() -> Seq<char> {
    "input[type=submit],button[type=submit]"@
}

/// The selector of the submit controls labelled `label`, ignoring case.
pub open spec fn label_selector(label: Seq<char>) -> Seq<char> {
    "input[type=submit][value=\""@ + css_escaped(label) + "\" i],button[type=submit][value=\""@
        + css_escaped(label) + "\" i]"@
}

/// `c` runs `script` on the element `id`, referenced in the dialect's form, and on the strings
/// `extra`.
pub open spec fn runs_script(c: Command, script: Seq<char>, legacy: bool, id: Seq<char>, extra: Seq<String>) -> bool {
    &&& c is ExecuteScript
    &&& c->ExecuteScript_0@ == script
    &&& script_args_are(c->ExecuteScript_1@, legacy, id, extra)
}

/// `a` is the element `id`, referenced in the dialect's form, followed by the strings `extra`.
pub open spec fn script_args_are(a: Seq<Json>, legacy: bool, id: Seq<char>, extra: Seq<String>) -> bool {
    &&& a.len() == extra.len() + 1
    &&& is_ref(a[0], element_key_of(legacy), id)
    &&& forall|i: int|
        0 <= i < extra.len() ==> (#[trigger] a[i + 1]) is Str && a[i + 1]->Str_0@ == extra[i]@
}

/// `c` looks up, below the form `form`, an element by the CSS selector `sel`.
pub open spec fn finds_below(c: Command, form: Seq<char>, sel: Seq<char>) -> bool {
    c matches Command::FindElementElement(p, l) && p@ == form && l.using == Strategy::CssSelector
        && l.value@ == sel
}

fn concat3(a: &str, b: &str, c: &str) -> (r: String)
    ensures
        r@ == a@ + b@ + c@,
{
    let mut s = a.to_owned();
    s.append(b);
    s.append(c);
    s
}

/// The command that runs `script` on the element `id` and on the strings `extra`.
fn script_command(script: &str, legacy: bool, id: &str, extra: Vec<String>) -> (r: Command)
    ensures
        runs_script(r, script@, legacy, id@, extra@),
{
    let ghost e = extra@;
    let mut rest: Vec<Json> = Vec::new();
    let mut pending = extra;
    while pending.len() > 0
        invariant
            rest@.len() + pending@.len() == e.len(),
            pending@ == e.subrange(rest@.len() as int, e.len() as int),
            forall|i: int| 0 <= i < rest@.len() ==> (#[trigger] rest@[i]) is Str && rest@[i]->Str_0 == e[i],
        decreases pending@.len(),
    {
        let s = pending.remove(0);
        rest.push(Json::Str(s));
        assert(pending@ =~= e.subrange(rest@.len() as int, e.len() as int));
    }
    let ghost r0 = rest@;
    let args = script_args(legacy, id, rest);
    let c = Command::ExecuteScript(script.to_owned(), args);
    proof {
        let a = c->ExecuteScript_1@;
        assert forall|i: int| 0 <= i < e.len() implies (#[trigger] a[i + 1]) is Str && a[i
            + 1]->Str_0@ == e[i]@ by {
            assert(r0[i] is Str);
            assert(r0[i]->Str_0 == e[i]);
            assert(a[i + 1] == r0[i]);
        }
        assert(script_args_are(a, legacy, id@, e));
    }
    c
}

/// `r` is what follows a reply that should report success by `null` alone.
pub open spec fn null_ack(reply: Result<Json, CmdError>, r: Step<(), CmdError>) -> bool {
    match reply {
        Ok(Json::Null) => r matches Step::Done(Ok(_)),
        Ok(v) => r == Step::<(), CmdError>::Done(Err(CmdError::NotW3C(v))),
        Err(e) => r == Step::<(), CmdError>::Done(Err(e)),
    }
}

/// `r` is what follows a reply to a click or a submission.
pub open spec fn ack_step(reply: Result<Json, CmdError>, r: Step<(), CmdError>) -> bool {
    r matches Step::Done(res) && ack_read(reply, res)
}

/// Where setting a field stands.
pub enum SetStage {
    Start,
    Finding,
    Setting,
    Finished,
}

/// Setting the value of a named input of a form.
pub struct SetField {
    pub form: String,
    pub legacy: bool,
    pub field: String,
    pub value: String,
    /// The id of the input, once found.
    pub found: String,
    pub stage: SetStage,
}

/// How a form is submitted.
#[derive(Debug, PartialEq)]
pub enum SubmitHow {
    /// Click the first control that the selector finds in the form.
    Button(String),
    /// Call the form's own `submit`, which sends no button's name and value.
    Direct,
    /// Add a hidden field (name, value), then submit directly.
    Sneaky(String, String),
}

/// Where a submission stands.
pub enum SubmitStage {
    Start,
    Finding,
    Clicking,
    Injecting,
    Submitting,
    Finished,
}

/// The submission of a form.
pub struct Submit {
    pub form: String,
    pub legacy: bool,
    pub how: SubmitHow,
    /// The id of the button, once found.
    pub found: String,
    pub stage: SubmitStage,
}

impl Form {
    /// Sets the value of the input named `field` in this form.
    pub fn set_by_name(&self, client: &Client, field: &str, value: &str) -> (r: SetField)
        ensures
            r.form@ == self.id@,
            r.legacy == client.legacy,
            r.field@ == field@,
            r.value@ == value@,
            r.stage is Start,
    {
        SetField {
            form: self.id.clone(),
            legacy: client.legacy,
            field: field.to_owned(),
            value: value.to_owned(),
            found: String::new(),
            stage: SetStage::Start,
        }
    }

    /// Submits this form with the first of its submit buttons.
    pub fn submit(self, client: &Client) -> (r: Submit)
        ensures
            r.form@ == self.id@,
            r.legacy == client.legacy,
            r.how matches SubmitHow::Button(s) && s@ == default_submit(),
            r.stage is Start,
    {
        self.submit_with(client, "input[type=submit],button[type=submit]")
    }

    /// Submits this form with the control that `button` selects in it.
    pub fn submit_with(self, client: &Client, button: &str) -> (r: Submit)
        ensures
            r.form@ == self.id@,
            r.legacy == client.legacy,
            r.how matches SubmitHow::Button(s) && s@ == button@,
            r.stage is Start,
    {
        Submit {
            form: self.id,
            legacy: client.legacy,
            how: SubmitHow::Button(button.to_owned()),
            found: String::new(),
            stage: SubmitStage::Start,
        }
    }

    /// Submits this form with the submit control labelled `button_label`, ignoring case.
    pub fn submit_using(self, client: &Client, button_label: &str) -> (r: Submit)
        ensures
            r.form@ == self.id@,
            r.legacy == client.legacy,
            r.how matches SubmitHow::Button(s) && s@ == label_selector(button_label@),
            r.stage is Start,
    {
        let escaped = escape_css(button_label);
        let mut sel = concat3(
            "input[type=submit][value=\"",
            escaped.as_str(),
            "\" i],button[type=submit][value=\"",
        );
        sel.append(escaped.as_str());
        sel.append("\" i]");
        assert(sel@ =~= label_selector(button_label@));
        self.submit_with(client, sel.as_str())
    }

    /// Submits this form by calling its own `submit`, without a click.
    pub fn submit_direct(self, client: &Client) -> (r: Submit)
        ensures
            r.form@ == self.id@,
            r.legacy == client.legacy,
            r.how is Direct,
            r.stage is Start,
    {
        Submit {
            form: self.id,
            legacy: client.legacy,
            how: SubmitHow::Direct,
            found: String::new(),
            stage: SubmitStage::Start,
        }
    }

    /// Adds a hidden input `field` = `value` to this form, then submits it directly.
    pub fn submit_sneaky(self, client: &Client, field: &str, value: &str) -> (r: Submit)
        ensures
            r.form@ == self.id@,
            r.legacy == client.legacy,
            r.how matches SubmitHow::Sneaky(f, v) && f@ == field@ && v@ == value@,
            r.stage is Start,
    {
        Submit {
            form: self.id,
            legacy: client.legacy,
            how: SubmitHow::Sneaky(field.to_owned(), value.to_owned()),
            found: String::new(),
            stage: SubmitStage::Start,
        }
    }
}

impl SetField {
    /// The first step: find the input.
    pub fn start(&mut self) -> (r: Step<(), CmdError>)
        requires
            old(self).stage is Start,
        ensures
            r matches Step::Issue(c, false) && finds_below(c, old(self).form@, field_selector(
                old(self).field@)),
            final(self).stage is Finding,
            final(self).form == old(self).form,
            final(self).legacy == old(self).legacy,
            final(self).value == old(self).value,
    {
        let sel = concat3("input[name='", self.field.as_str(), "']");
        self.stage = SetStage::Finding;
        Step::Issue(Command::FindElementElement(self.form.clone(), mklocator(sel.as_str())), false)
    }

    /// The next step, given the reply to the last command.
    pub fn resume(&mut self, reply: Result<Json, CmdError>) -> (r: Step<(), CmdError>)
        requires
            old(self).stage is Finding || old(self).stage is Setting,
        ensures
            old(self).stage is Finding ==> match r {
                Step::Issue(c, settle) => {
                    &&& element_read(old(self).legacy, reply, Ok(final(self).found))
                    &&& runs_script(c, set_script(), old(self).legacy, final(self).found@, seq![old(self).value])
                    &&& !settle
                    &&& final(self).stage is Setting
                },
                Step::Done(res) => res matches Err(e) && element_read(old(self).legacy, reply, Err(e)),
            },
            old(self).stage is Setting ==> null_ack(reply, r),
            r is Done ==> final(self).stage is Finished,
    {
        match self.stage {
            SetStage::Finding => match read_element(self.legacy, reply) {
                Ok(id) => {
                    let cmd = script_command(
                        "arguments[0].value = arguments[1]",
                        self.legacy,
                        id.as_str(),
                        vec![self.value.clone()],
                    );
                    self.found = id;
                    self.stage = SetStage::Setting;
                    Step::Issue(cmd, false)
                },
                Err(e) => {
                    self.stage = SetStage::Finished;
                    Step::Done(Err(e))
                },
            },
            _ => {
                self.stage = SetStage::Finished;
                match reply {
                    Ok(Json::Null) => Step::Done(Ok(())),
                    Ok(v) => Step::Done(Err(CmdError::NotW3C(v))),
                    Err(e) => Step::Done(Err(e)),
                }
            },
        }
    }
}

/// `r` and `b2` are the step and the state that follow `b` on the decoded reply `reply`.
pub open spec fn submitted(
    b: Submit,
    reply: Result<Json, CmdError>,
    b2: Submit,
    r: Step<(), CmdError>,
) -> bool {
    &&& b2.form == b.form
    &&& b2.legacy == b.legacy
    &&& (b.stage is Finding ==> match r {
        Step::Issue(c, settle) => {
            &&& element_read(b.legacy, reply, Ok(b2.found))
            &&& c == Command::ElementClick(b2.found)
            &&& settle
            &&& b2.stage is Clicking
        },
        Step::Done(res) => res matches Err(e) && element_read(b.legacy, reply, Err(e)),
    })
    &&& (b.stage is Injecting ==> match r {
        Step::Issue(c, settle) => {
            &&& ack_read(reply, Ok(()))
            &&& runs_script(c, submit_script(), b.legacy, b.form@, seq![])
            &&& settle
            &&& b2.stage is Submitting
        },
        Step::Done(res) => res is Err && ack_read(reply, res),
    })
    &&& (b.stage is Clicking || b.stage is Submitting ==> ack_step(reply, r))
    &&& (r is Done ==> b2.stage is Finished)
}

/// Submitting succeeds exactly when the server answers the click, or the form's own submit,
/// with `null` or `{}`; any other answer is a malformed-reply error that holds it. A failed
/// lookup of the control ends the submission with its error and clicks nothing, and a hidden
/// field that was not acknowledged stops it before the form is submitted.
pub proof fn lemma_submit_acknowledged(
    b: Submit,
    reply: Result<Json, CmdError>,
    b2: Submit,
    r: Step<(), CmdError>,
)
    requires
        submitted(b, reply, b2, r),
    ensures
        (b.stage is Clicking || b.stage is Submitting) && reply is Ok ==> ((r matches Step::Done(
            Ok(_),
        )) <==> acked(reply->Ok_0)),
        (b.stage is Clicking || b.stage is Submitting || b.stage is Injecting) && reply is Ok
            && !acked(reply->Ok_0) ==> r == Step::<(), CmdError>::Done(
            Err(CmdError::NotW3C(reply->Ok_0)),
        ),
        b.stage is Finding && reply is Err ==> r == Step::<(), CmdError>::Done(
            Err(reply->Err_0),
        ),
{
}

impl Submit {
    /// The first step: find the button, or run the script that submits or injects.
    pub fn start(&mut self) -> (r: Step<(), CmdError>)
        requires
            old(self).stage is Start,
        ensures
            final(self).form == old(self).form,
            final(self).legacy == old(self).legacy,
            final(self).how == old(self).how,
            match old(self).how {
                SubmitHow::Button(sel) => {
                    &&& (r matches Step::Issue(c, false) && finds_below(c, old(self).form@, sel@))
                    &&& final(self).stage is Finding
                },
                SubmitHow::Direct => {
                    &&& (r matches Step::Issue(c, true) && runs_script(c, submit_script(), old(self).legacy, old(self).form@, seq![]))
                    &&& final(self).stage is Submitting
                },
                SubmitHow::Sneaky(f, v) => {
                    &&& (r matches Step::Issue(c, false) && runs_script(c, inject_script(), old(self).legacy, old(self).form@, seq![f, v]))
                    &&& final(self).stage is Injecting
                },
            },
    {
        match &self.how {
            SubmitHow::Button(sel) => {
                let c = Command::FindElementElement(self.form.clone(), mklocator(sel.as_str()));
                self.stage = SubmitStage::Finding;
                Step::Issue(c, false)
            },
            SubmitHow::Direct => {
                let none: Vec<String> = Vec::new();
                assert(none@ =~= seq![]);
                let c = script_command("arguments[0].submit()", self.legacy, self.form.as_str(), none);
                self.stage = SubmitStage::Submitting;
                Step::Issue(c, true)
            },
            SubmitHow::Sneaky(f, v) => {
                let c = script_command(
                    "var h = document.createElement('input');h.setAttribute('type', 'hidden');h.setAttribute('name', arguments[1]);h.value = arguments[2];arguments[0].appendChild(h)",
                    self.legacy,
                    self.form.as_str(),
                    vec![f.clone(), v.clone()],
                );
                self.stage = SubmitStage::Injecting;
                Step::Issue(c, false)
            },
        }
    }

    /// The next step, given the reply to the last command.
    pub fn resume(&mut self, reply: Result<Json, CmdError>) -> (r: Step<(), CmdError>)
        requires
            !(old(self).stage is Start),
            !(old(self).stage is Finished),
        ensures
            submitted(*old(self), reply, *final(self), r),
    {
        match self.stage {
            SubmitStage::Finding => match read_element(self.legacy, reply) {
                Ok(id) => {
                    let c = Command::ElementClick(id.clone());
                    self.found = id;
                    self.stage = SubmitStage::Clicking;
                    Step::Issue(c, true)
                },
                Err(e) => {
                    self.stage = SubmitStage::Finished;
                    Step::Done(Err(e))
                },
            },
            SubmitStage::Injecting => match acknowledged(reply) {
                Ok(()) => {
                    let none: Vec<String> = Vec::new();
                    assert(none@ =~= seq![]);
                    let c = script_command("arguments[0].submit()", self.legacy, self.form.as_str(), none);
                    self.stage = SubmitStage::Submitting;
                    Step::Issue(c, true)
                },
                Err(e) => {
                    self.stage = SubmitStage::Finished;
                    Step::Done(Err(e))
                },
            },
            _ => {
                self.stage = SubmitStage::Finished;
                Step::Done(acknowledged(reply))
            },
        }
    }
}

/// Where waiting for a navigation stands.
pub enum WaitStage {
    Start,
    Polling,
    Finished,
}

/// Waiting until the current URL differs from a given one, polling without a deadline.
pub struct WaitNav {
    /// The URL to move away from; read first where none was given.
    pub current: Option<String>,
    /// The URL read last.
    pub seen: String,
    pub stage: WaitStage,
}

impl Client {
    /// Waits until the current URL differs from `current`, or from the URL read first where
    /// `current` is `None`. Passing the URL from before the action that navigates avoids
    /// missing a navigation that ends before the first read. A given URL is parsed first, as
    /// the URLs read are, so that two spellings of one URL compare equal.
    pub fn wait_for_navigation(&self, current: Option<String>) -> (r: WaitNav)
        ensures
            match current {
                None => r.current is None,
                Some(c) => r.current matches Some(x) && x@ == match parsed(c@) {
                    Some(p) => p,
                    None => c@,
                },
            },
            r.stage is Start,
    {
        let current = match current {
            Some(c) => match parse_url(c.as_str()) {
                Some(p) => Some(p),
                None => Some(c),
            },
            None => None,
        };
        WaitNav { current, seen: String::new(), stage: WaitStage::Start }
    }
}

impl WaitNav {
    /// The first step: read the current URL.
    pub fn start(&mut self) -> (r: Step<(), CmdError>)
        requires
            old(self).stage is Start,
        ensures
            r matches Step::Issue(Command::GetCurrentUrl, false),
            final(self).current == old(self).current,
            final(self).stage is Polling,
    {
        self.stage = WaitStage::Polling;
        Step::Issue(Command::GetCurrentUrl, false)
    }

    /// The next step, given the URL just read: poll again while it has not changed.
    pub fn resume(&mut self, reply: Result<Json, CmdError>) -> (r: Step<(), CmdError>)
        requires
            old(self).stage is Polling,
        ensures
            match r {
                Step::Done(Err(e)) => url_read(reply, Err(e)),
                Step::Done(Ok(_)) => {
                    &&& url_read(reply, Ok(final(self).seen))
                    &&& old(self).current matches Some(c) && c@ != final(self).seen@
                },
                Step::Issue(c, settle) => {
                    &&& c is GetCurrentUrl
                    &&& !settle
                    &&& url_read(reply, Ok(final(self).seen))
                    &&& final(self).stage is Polling
                    &&& match old(self).current {
                        None => final(self).current == Some(final(self).seen),
                        Some(c) => c@ == final(self).seen@ && final(self).current == old(self).current,
                    }
                },
            },
            r is Done ==> final(self).stage is Finished,
    {
        match read_url(reply) {
            Err(e) => {
                self.stage = WaitStage::Finished;
                Step::Done(Err(e))
            },
            Ok(u) => {
                let same = match &self.current {
                    None => {
                        self.current = Some(u.clone());
                        true
                    },
                    Some(c) => *c == u,
                };
                self.seen = u;
                if same {
                    Step::Issue(Command::GetCurrentUrl, false)
                } else {
                    self.stage = WaitStage::Finished;
                    Step::Done(Ok(()))
                }
            },
        }
    }
}

} // verus!
