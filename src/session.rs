//! Creating a session: the ratified dialect first, the legacy one where the server's answer
//! shows that it only speaks that.
use vstd::prelude::*;
use crate::client::{build_request, request_for, Client, Request};
use crate::command::{Command, Dialect};
use crate::error::{code_of, kind_code, CmdError, ErrorKind, NewSessionError};
use crate::flows::Step;
use crate::json::{get_str, str_field, Json};
use crate::text::{contains, has_infix, has_prefix, starts_with};
use crate::url::{parse_url, parsed};

verus! {

/// `r` is the session id that the reply to a session request holds, or why there is none.
pub open spec fn session_read(reply: Result<Json, CmdError>, r: Result<String, NewSessionError>) -> bool {
    match reply {
        Ok(Json::Object(f)) => match str_field(f@, "sessionId"@) {
            Some(id) => r matches Ok(s) && s@ == id,
            None => r == Err::<String, NewSessionError>(NewSessionError::NotW3C(Json::Object(f))),
        },
        Ok(v) => r == Err::<String, NewSessionError>(NewSessionError::NotW3C(v)),
        Err(CmdError::NotW3C(v)) => r == Err::<String, NewSessionError>(NewSessionError::NotW3C(v)),
        Err(CmdError::NotJson(t)) => r == Err::<String, NewSessionError>(
            NewSessionError::NotW3C(Json::Str(t)),
        ),
        Err(CmdError::BadJson(m)) => r == Err::<String, NewSessionError>(
            NewSessionError::NotW3C(Json::Str(m)),
        ),
        Err(CmdError::Failed(m)) => r == Err::<String, NewSessionError>(NewSessionError::Failed(m)),
        Err(CmdError::BadUrl(u)) => r == Err::<String, NewSessionError>(
            NewSessionError::BadWebdriverUrl(u),
        ),
        Err(CmdError::Standard(w)) => if w.kind == ErrorKind::SessionNotCreated {
            r == Err::<String, NewSessionError>(NewSessionError::SessionNotCreated(w))
        } else {
            r matches Err(NewSessionError::NotW3C(Json::Object(g))) && str_field(g@, "error"@)
                == Some(kind_code(w.kind)) && str_field(g@, "message"@) == Some(w.message@)
        },
    }
}

/// Whether a failed request in the ratified dialect shows a server of the legacy dialect: a
/// string that starts "Missing Command Parameter", or an object whose message names the missing
/// `desiredCapabilities`.
pub open spec fn speaks_legacy(e: NewSessionError) -> bool {
    match e {
        NewSessionError::NotW3C(Json::Str(s)) => has_prefix(s@, "Missing Command Parameter"@),
        NewSessionError::NotW3C(Json::Object(f)) => match str_field(f@, "message"@) {
            Some(m) => has_infix(m, "cannot find dict 'desiredCapabilities'"@),
            None => false,
        },
        _ => false,
    }
}

/// Reads the session id from the reply to a session request.
pub fn read_session(reply: Result<Json, CmdError>) -> (r: Result<String, NewSessionError>)
    ensures
        session_read(reply, r),
{
    match reply {
        Ok(Json::Object(f)) => {
            let id: Option<String> = match get_str(&f, "sessionId") {
                Some(s) => Some(s.clone()),
                None => None,
            };
            match id {
                Some(s) => Ok(s),
                None => Err(NewSessionError::NotW3C(Json::Object(f))),
            }
        },
        Ok(v) => Err(NewSessionError::NotW3C(v)),
        Err(CmdError::NotW3C(v)) => Err(NewSessionError::NotW3C(v)),
        Err(CmdError::NotJson(t)) => Err(NewSessionError::NotW3C(Json::Str(t))),
        Err(CmdError::BadJson(m)) => Err(NewSessionError::NotW3C(Json::Str(m))),
        Err(CmdError::Failed(m)) => Err(NewSessionError::Failed(m)),
        Err(CmdError::BadUrl(u)) => Err(NewSessionError::BadWebdriverUrl(u)),
        Err(CmdError::Standard(w)) => {
            if w.kind == ErrorKind::SessionNotCreated {
                Err(NewSessionError::SessionNotCreated(w))
            } else {
                let env = vec![
                    ("error".to_owned(), Json::Str(code_of(w.kind).to_owned())),
                    ("message".to_owned(), Json::Str(w.message)),
                ];
                proof {
                    assert(crate::json::first_key_at(env@, "error"@, 0));
                    crate::json::lemma_first_key(env@, "error"@, 0);
                    assert(crate::json::first_key_at(env@, "message"@, 1)) by {
                        reveal_strlit("error");
                        reveal_strlit("message");
                        assert(env@[0].0@[0] != "message"@[0]);
                    }
                    crate::json::lemma_first_key(env@, "message"@, 1);
                }
                Err(NewSessionError::NotW3C(Json::Object(env)))
            }
        },
    }
}

/// Whether the failure shows a server of the legacy dialect.
pub fn wants_legacy(e: &NewSessionError) -> (r: bool)
    ensures
        r == speaks_legacy(*e),
{
    match e {
        NewSessionError::NotW3C(Json::Str(s)) => starts_with(s.as_str(), "Missing Command Parameter"),
        NewSessionError::NotW3C(Json::Object(f)) => match get_str(f, "message") {
            Some(m) => contains(m.as_str(), "cannot find dict 'desiredCapabilities'"),
            None => false,
        },
        _ => false,
    }
}

/// Where the creation of a session stands.
pub enum NegotiateStage {
    Start,
    Spec,
    Legacy,
    Finished,
}

/// The creation of a session on the server at `base`.
pub struct Negotiate {
    pub base: String,
    pub stage: NegotiateStage,
}

impl Client {
    /// Starts creating a session on the server at `webdriver`.
    pub fn new(webdriver: &str) -> (r: Result<Negotiate, NewSessionError>)
        ensures
            match parsed(webdriver@) {
                Some(u) => r matches Ok(n) && n.base@ == u && n.stage is Start,
                None => r matches Err(NewSessionError::BadWebdriverUrl(s)) && s@ == webdriver@,
            },
    {
        match parse_url(webdriver) {
            Some(u) => Ok(Negotiate { base: u, stage: NegotiateStage::Start }),
            None => Err(NewSessionError::BadWebdriverUrl(webdriver.to_owned())),
        }
    }
}

/// `r` and `b2` are the step and the state that follow `b` on the decoded reply `reply`.
pub open spec fn negotiated(
    b: Negotiate,
    reply: Result<Json, CmdError>,
    b2: Negotiate,
    r: Step<Client, NewSessionError>,
) -> bool {
    &&& b2.base == b.base
    &&& (match r {
        Step::Done(Ok(c)) => {
            &&& c.base == b.base
            &&& c.legacy == (b.stage is Legacy)
            &&& c.ua is None
            &&& session_read(reply, Ok(c.session))
        },
        Step::Done(Err(e)) => {
            &&& session_read(reply, Err(e))
            &&& (b.stage is Spec ==> !speaks_legacy(e))
        },
        Step::Issue(c, settle) => {
            &&& b.stage is Spec
            &&& c == Command::NewSession(Dialect::Legacy)
            &&& !settle
            &&& b2.stage is Legacy
            &&& exists|e: NewSessionError| session_read(reply, Err(e)) && speaks_legacy(e)
        },
    })
    &&& (r is Done ==> b2.stage is Finished)
}

impl Negotiate {
    /// The request for a session command, which needs no session id.
    pub fn request(&self, cmd: Command) -> (r: Result<Request, CmdError>)
        ensures
            request_for(self.base@, Seq::empty(), false, None, cmd, r),
    {
        let none: Option<String> = None;
        proof {
            reveal_strlit("");
        }
        build_request(self.base.as_str(), "", false, &none, cmd)
    }

    /// The first step: ask for a session in the ratified dialect.
    pub fn start(&mut self) -> (r: Step<Client, NewSessionError>)
        requires
            old(self).stage is Start,
        ensures
            r matches Step::Issue(Command::NewSession(Dialect::Spec), false),
            final(self).stage is Spec,
            final(self).base == old(self).base,
    {
        self.stage = NegotiateStage::Spec;
        Step::Issue(Command::NewSession(Dialect::Spec), false)
    }

    /// The next step, given the decoded reply to the last session request.
    pub fn resume(&mut self, reply: Result<Json, CmdError>) -> (r: Step<Client, NewSessionError>)
        requires
            old(self).stage is Spec || old(self).stage is Legacy,
        ensures
            negotiated(*old(self), reply, *final(self), r),
    {
        let legacy = match self.stage {
            NegotiateStage::Legacy => true,
            _ => false,
        };
        match read_session(reply) {
            Ok(id) => {
                self.stage = NegotiateStage::Finished;
                Step::Done(Ok(Client { base: self.base.clone(), session: id, legacy, ua: None }))
            },
            Err(e) => {
                if !legacy && wants_legacy(&e) {
                    self.stage = NegotiateStage::Legacy;
                    Step::Issue(Command::NewSession(Dialect::Legacy), false)
                } else {
                    self.stage = NegotiateStage::Finished;
                    Step::Done(Err(e))
                }
            },
        }
    }
}

/// Creating a session ends in one of two ways, in both dialects: a client that holds the id the
/// server sent, or the session error that the reply stands for. Only the ratified dialect is
/// retried, once, in the legacy dialect, and the legacy answer always ends the creation.
pub proof fn lemma_negotiation_ends(
    b: Negotiate,
    reply: Result<Json, CmdError>,
    b2: Negotiate,
    r: Step<Client, NewSessionError>,
)
    requires
        b.stage is Spec || b.stage is Legacy,
        negotiated(b, reply, b2, r),
    ensures
        b.stage is Legacy ==> r is Done,
        r is Issue ==> b.stage is Spec && b2.stage is Legacy && r == Step::<
            Client,
            NewSessionError,
        >::Issue(Command::NewSession(Dialect::Legacy), false),
        r matches Step::Done(Ok(c)) ==> session_read(reply, Ok(c.session)) && c.legacy == (
        b.stage is Legacy),
        r matches Step::Done(Err(e)) ==> session_read(reply, Err(e)),
{
}

/// A server that answers the ratified request with an object whose message names the missing
/// `desiredCapabilities` is asked once more, in the legacy dialect, and that answer decides:
/// a legacy client with the id it holds, or the error it stands for.
pub proof fn lemma_legacy_fallback(
    b0: Negotiate,
    f: Vec<(String, Json)>,
    b1: Negotiate,
    r1: Step<Client, NewSessionError>,
    reply2: Result<Json, CmdError>,
    b2: Negotiate,
    r2: Step<Client, NewSessionError>,
)
    requires
        b0.stage is Spec,
        str_field(f@, "message"@) matches Some(m) && has_infix(
            m,
            "cannot find dict 'desiredCapabilities'"@,
        ),
        negotiated(b0, Err(CmdError::NotW3C(Json::Object(f))), b1, r1),
        negotiated(b1, reply2, b2, r2),
    ensures
        r1 == Step::<Client, NewSessionError>::Issue(Command::NewSession(Dialect::Legacy), false),
        r2 is Done,
        r2 matches Step::Done(Ok(c)) ==> c.legacy && session_read(reply2, Ok(c.session)),
        r2 matches Step::Done(Err(e)) ==> session_read(reply2, Err(e)),
{
    assert(speaks_legacy(NewSessionError::NotW3C(Json::Object(f))));
}

} // verus!
