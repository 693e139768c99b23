//! The session state, the request pipeline and the decoding of replies.
use vstd::prelude::*;
use crate::command::{route, route_of, body_model, Command, Dialect, Method};
use crate::error::{classify, kind_of, CmdError, WebDriverError};
use crate::json::{
    field, find_key, get_str, lemma_first_key, str_field, take_field, without, Json, };
use crate::url::{join_url, joined};

verus! {

/// The key under which an element reference is serialized: a reserved name in the ratified
/// dialect, "ELEMENT" in the legacy one.
pub open spec fn element_key_of(legacy: bool) -> Seq<char> {
    if legacy {
        "ELEMENT"@
    } else {
        "element-6066-11e4-a52e-4f735466cecf"@
    }
}

/// The key under which an element reference is serialized in a dialect.
pub fn element_key(legacy: bool) -> (r: &'static str)
    ensures
        r@ == element_key_of(legacy),
{
    if legacy {
        "ELEMENT"
    } else {
        "element-6066-11e4-a52e-4f735466cecf"
    }
}

/// What came back for a request, as the transport saw it.
#[derive(Debug, PartialEq)]
pub enum Reply {
    /// The request and its reply could not be exchanged: the transport's message.
    Failed(String),
    /// The reply declared a content type other than JSON: its text.
    NotJson(String),
    /// The reply declared JSON but did not parse: the parser's message.
    Unparsable(String),
    /// A JSON reply: its HTTP status and its body.
    Json(u16, Json),
}

/// A request ready for the transport: method, absolute URL, JSON body and user agent.
#[derive(Debug, PartialEq)]
pub struct Request {
    pub method: Method,
    pub url: String,
    pub body: Option<Json>,
    pub user_agent: Option<String>,
}

/// A WebDriver client tied to a single browser session.
#[derive(Debug, PartialEq)]
pub struct Client {
    /// The server's URL.
    pub base: String,
    /// The id of the session.
    pub session: String,
    /// Whether the server speaks the legacy dialect.
    pub legacy: bool,
    /// The User-Agent to send, if any.
    pub ua: Option<String>,
}

/// Whether an HTTP status reports success.
pub open spec fn is_success(status: u16) -> bool {
    200 <= status < 300
}

/// `r` is a malformed-reply error that holds the object of `fields`.
pub open spec fn malformed_object(r: Result<Json, CmdError>, fields: Seq<(String, Json)>) -> bool {
    r matches Err(CmdError::NotW3C(Json::Object(v))) && v@ == fields
}

/// The error that an error envelope `e` sent with `status` stands for.
pub open spec fn error_outcome(status: u16, e: Json, r: Result<Json, CmdError>) -> bool {
    match e {
        Json::Object(f) => {
            let g = without(f@, "screen"@);
            match (str_field(g, "error"@), str_field(g, "message"@)) {
                (Some(code), Some(msg)) => match kind_of(status, code) {
                    Some(k) => r matches Err(CmdError::Standard(w)) && w.kind == k && w.message@
                        == msg,
                    None => malformed_object(r, g),
                },
                _ => malformed_object(r, g),
            }
        },
        _ => r == Err::<Json, CmdError>(CmdError::NotW3C(e)),
    }
}

/// What a JSON reply of `status` and `body` stands for. The payload lies under "value", or is
/// the whole object where `unwrap` is false.
pub open spec fn reply_outcome(unwrap: bool, status: u16, body: Json, r: Result<Json, CmdError>) -> bool {
    match body {
        Json::Object(fields) => if !unwrap {
            if is_success(status) {
                r == Ok::<Json, CmdError>(body)
            } else {
                error_outcome(status, body, r)
            }
        } else {
            match field(fields@, "value"@) {
                None => r == Err::<Json, CmdError>(CmdError::NotW3C(body)),
                Some(v) => if is_success(status) {
                    r == Ok::<Json, CmdError>(v)
                } else {
                    error_outcome(status, v, r)
                },
            }
        },
        _ => r == Err::<Json, CmdError>(CmdError::NotW3C(body)),
    }
}

/// What any reply stands for.
pub open spec fn interpreted(unwrap: bool, reply: Reply, r: Result<Json, CmdError>) -> bool {
    match reply {
        Reply::Failed(m) => r == Err::<Json, CmdError>(CmdError::Failed(m)),
        Reply::NotJson(t) => r == Err::<Json, CmdError>(CmdError::NotJson(t)),
        Reply::Unparsable(m) => r == Err::<Json, CmdError>(CmdError::BadJson(m)),
        Reply::Json(status, body) => reply_outcome(unwrap, status, body, r),
    }
}

/// Turns an error envelope into the error it reports.
fn error_from(status: u16, e: Json) -> (r: Result<Json, CmdError>)
    ensures
        error_outcome(status, e, r),
        r is Err,
{
    match e {
        Json::Object(fields) => {
            let mut f = fields;
            let _ = take_field(&mut f, "screen");
            let found: Option<(crate::error::ErrorKind, String)> = match (
                get_str(&f, "error"),
                get_str(&f, "message"),
            ) {
                (Some(code), Some(msg)) => match classify(status, code.as_str()) {
                    Some(k) => Some((k, msg.clone())),
                    None => None,
                },
                _ => None,
            };
            match found {
                Some((k, m)) => Err(CmdError::Standard(WebDriverError { kind: k, message: m })),
                None => Err(CmdError::NotW3C(Json::Object(f))),
            }
        },
        other => Err(CmdError::NotW3C(other)),
    }
}

/// Decodes a JSON reply.
fn decode(unwrap: bool, status: u16, body: Json) -> (r: Result<Json, CmdError>)
    ensures
        reply_outcome(unwrap, status, body, r),
{
    let ghost b = body;
    let payload = match body {
        Json::Object(fields) => {
            if unwrap {
                match find_key(&fields, "value") {
                    Some(i) => {
                        proof {
                            lemma_first_key(fields@, "value"@, i as int);
                        }
                        let mut f = fields;
                        let (_, v) = f.remove(i);
                        v
                    },
                    None => {
                        return Err(CmdError::NotW3C(Json::Object(fields)));
                    },
                }
            } else {
                Json::Object(fields)
            }
        },
        other => {
            return Err(CmdError::NotW3C(other));
        },
    };
    if 200 <= status && status < 300 {
        Ok(payload)
    } else {
        error_from(status, payload)
    }
}

/// Interprets what came back for a request: the payload on success, else the error it reports.
pub fn interpret(unwrap: bool, reply: Reply) -> (r: Result<Json, CmdError>)
    ensures
        interpreted(unwrap, reply, r),
{
    match reply {
        Reply::Failed(m) => Err(CmdError::Failed(m)),
        Reply::NotJson(t) => Err(CmdError::NotJson(t)),
        Reply::Unparsable(m) => Err(CmdError::BadJson(m)),
        Reply::Json(status, body) => decode(unwrap, status, body),
    }
}

/// Whether the payload of the reply to `cmd` lies under "value": everywhere but in the reply that
/// creates a legacy session.
pub open spec fn unwraps(cmd: Command) -> bool {
    !(cmd matches Command::NewSession(Dialect::Legacy))
}

/// Whether the reply to `cmd` must be followed by a pause before the page is read again.
pub open spec fn settles(cmd: Command) -> bool {
    cmd is ElementClick
}

/// `r` is the request for `cmd` in the session `sid` of the server at `base`.
pub open spec fn request_for(
    base: Seq<char>,
    sid: Seq<char>,
    legacy: bool,
    ua: Option<String>,
    cmd: Command,
    r: Result<Request, CmdError>,
) -> bool {
    let (m, path, body) = route_of(cmd, sid, legacy);
    match joined(base, path) {
        Some(u) => r matches Ok(q) && q.method == m && q.url@ == u && body_model(q.body) == body
            && q.user_agent == ua,
        None => r matches Err(CmdError::BadUrl(p)) && p@ == path,
    }
}

/// Builds the request for `cmd` in the session `sid` of the server at `base`.
pub fn build_request(base: &str, sid: &str, legacy: bool, ua: &Option<String>, cmd: Command) -> (r:
    Result<Request, CmdError>)
    ensures
        request_for(base@, sid@, legacy, *ua, cmd, r),
{
    let e = route(cmd, sid, legacy);
    match join_url(base, e.path.as_str()) {
        Some(url) => Ok(Request { method: e.method, url, body: e.body, user_agent: ua.clone() }),
        None => Err(CmdError::BadUrl(e.path)),
    }
}

/// Whether the payload of the reply to `cmd` lies under "value".
pub fn unwraps_value(cmd: &Command) -> (r: bool)
    ensures
        r == unwraps(*cmd),
{
    !matches!(cmd, Command::NewSession(Dialect::Legacy))
}

/// Whether the reply to `cmd` must be followed by a pause before the page is read again.
pub fn settles_after(cmd: &Command) -> (r: bool)
    ensures
        r == settles(*cmd),
{
    matches!(cmd, Command::ElementClick(_))
}

impl Client {
    /// The request for `cmd` in this session.
    pub fn request(&self, cmd: Command) -> (r: Result<Request, CmdError>)
        ensures
            request_for(self.base@, self.session@, self.legacy, self.ua, cmd, r),
    {
        build_request(self.base.as_str(), self.session.as_str(), self.legacy, &self.ua, cmd)
    }

    /// Interprets what came back for the request for `cmd`.
    pub fn interpret(&self, cmd: &Command, reply: Reply) -> (r: Result<Json, CmdError>)
        ensures
            interpreted(unwraps(*cmd), reply, r),
    {
        interpret(unwraps_value(cmd), reply)
    }

    /// Sets the User-Agent for all later requests.
    pub fn set_ua(&mut self, ua: String)
        ensures
            final(self).ua == Some(ua),
            final(self).base == old(self).base,
            final(self).session == old(self).session,
            final(self).legacy == old(self).legacy,
    {
        self.ua = Some(ua);
    }

    /// The dialect of this session.
    pub fn dialect(&self) -> (r: Dialect)
        ensures
            r == (if self.legacy {
                Dialect::Legacy
            } else {
                Dialect::Spec
            }),
    {
        if self.legacy {
            Dialect::Legacy
        } else {
            Dialect::Spec
        }
    }

    /// The command that ends this session.
    pub fn close(&self) -> (r: Command)
        ensures
            r is DeleteSession,
    {
        Command::DeleteSession
    }
}

} // verus!
