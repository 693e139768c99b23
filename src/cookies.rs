//! The cookie bridge: a raw request for any URL that carries the browser's cookies for it.
use vstd::prelude::*;
use vstd::string::*;
use crate::client::Client;
use crate::command::{copy_method, Command, Method};
use crate::error::CmdError;
use crate::flows::{current_of, Step};
use crate::json::{field, get_field, get_str, str_field, Json};
use crate::page::{read_url, url_read};
use crate::text::has_prefix;
use crate::url::{join_url, joined};

verus! {

/// The earliest expiry a cookie may carry, in seconds from the epoch: the first second of the
/// year 1.
pub const MIN_EXPIRY: i64 = -62135596800;

/// The latest expiry a cookie may carry, in seconds from the epoch: the last second of the year
/// 9999.
pub const MAX_EXPIRY: i64 = 253402300799;

/// A cookie as the browser reports it.
#[derive(Debug, PartialEq)]
pub struct CookieRecord {
    pub name: String,
    pub value: String,
    pub path: Option<String>,
    pub domain: Option<String>,
    /// Seconds since the epoch, negative before it.
    pub expiry: Option<i64>,
    pub secure: bool,
    pub http_only: bool,
}

/// Whether a cookie's expiry, if any, lies from `MIN_EXPIRY` to `MAX_EXPIRY`.
pub open spec fn expiry_in_range(c: CookieRecord) -> bool {
    c.expiry matches Some(n) ==> MIN_EXPIRY <= n <= MAX_EXPIRY
}

/// An unsent request that carries the browser's cookies and user agent.
#[derive(Debug, PartialEq)]
pub struct RawRequest {
    pub method: Method,
    pub url: String,
    /// The cookies, one serialized cookie each, for the `Cookie` header.
    pub cookies: Vec<String>,
    pub user_agent: Option<String>,
}

/// The view of an optional string.
pub open spec fn opt_view(s: Option<String>) -> Option<Seq<char>> {
    match s {
        Some(x) => Some(x@),
        None => None,
    }
}

/// The optional string member `key` of a cookie entry: `Some(None)` where it is absent or null,
/// `None` where it holds something other than a string.
pub open spec fn opt_str(f: Seq<(String, Json)>, key: Seq<char>) -> Option<Option<Seq<char>>> {
    match field(f, key) {
        None => Some(None),
        Some(Json::Null) => Some(None),
        Some(Json::Str(s)) => Some(Some(s@)),
        Some(_) => None,
    }
}

/// The expiry of a cookie entry, in whole seconds from the epoch: `Some(None)` where it is
/// absent or null, `None` where it is not a number from `MIN_EXPIRY` to `MAX_EXPIRY`.
pub open spec fn expiry_of(f: Seq<(String, Json)>) -> Option<Option<i64>> {
    match field(f, "expiry"@) {
        None => Some(None),
        Some(Json::Null) => Some(None),
        Some(Json::U64(n)) => if n <= MAX_EXPIRY {
            Some(Some(n as i64))
        } else {
            None
        },
        Some(Json::I64(n)) => if MIN_EXPIRY <= n <= MAX_EXPIRY {
            Some(Some(n))
        } else {
            None
        },
        Some(Json::Real(n)) => if MIN_EXPIRY <= n <= MAX_EXPIRY {
            Some(Some(n))
        } else {
            None
        },
        Some(_) => None,
    }
}

/// A boolean member of a cookie entry, false where absent or not a boolean.
pub open spec fn flag_of(f: Seq<(String, Json)>, key: Seq<char>) -> bool {
    match field(f, key) {
        Some(Json::Boolean(b)) => b,
        _ => false,
    }
}

/// Whether a cookie entry is well formed.
pub open spec fn entry_ok(j: Json) -> bool {
    j matches Json::Object(f) && str_field(f@, "name"@) is Some && str_field(f@, "value"@) is Some
        && opt_str(f@, "path"@) is Some && opt_str(f@, "domain"@) is Some && expiry_of(f@) is Some
}

/// `c` is the cookie that the entry `j` describes.
pub open spec fn entry_is(j: Json, c: CookieRecord) -> bool {
    j matches Json::Object(f) && str_field(f@, "name"@) == Some(c.name@) && str_field(f@, "value"@)
        == Some(c.value@) && opt_str(f@, "path"@) == Some(opt_view(c.path)) && opt_str(
        f@,
        "domain"@,
    ) == Some(opt_view(c.domain)) && expiry_of(f@) == Some(c.expiry) && c.secure == flag_of(
        f@,
        "secure"@,
    ) && c.http_only == flag_of(f@, "httpOnly"@)
}

/// Whether every entry of a list of cookies is well formed.
pub open spec fn all_entries_ok(items: Seq<Json>) -> bool {
    forall|i: int| 0 <= i < items.len() ==> entry_ok(#[trigger] items[i])
}

/// `r` reads the list of cookies `v`: every entry, or a malformed-reply error holding the list
/// where it is not a list or an entry is malformed.
pub open spec fn cookies_read(v: Json, r: Result<Vec<CookieRecord>, CmdError>) -> bool {
    match v {
        Json::Array(items) => if all_entries_ok(items@) {
            r matches Ok(cs) && cs@.len() == items@.len() && forall|i: int|
                0 <= i < items@.len() ==> entry_is(#[trigger] items@[i], cs@[i])
        } else {
            r == Err::<Vec<CookieRecord>, CmdError>(CmdError::NotW3C(v))
        },
        _ => r == Err::<Vec<CookieRecord>, CmdError>(CmdError::NotW3C(v)),
    }
}

/// The serialization of a cookie up to its expiry: `name=value`, then its attributes.
pub open spec fn cookie_prefix(c: CookieRecord) -> Seq<char> {
    c.name@ + "="@ + c.value@ + (if c.http_only {
        "; HttpOnly"@
    } else {
        Seq::empty()
    }) + (if c.secure {
        "; Secure"@
    } else {
        Seq::empty()
    }) + match c.path {
        Some(p) => "; Path="@ + p@,
        None => Seq::empty(),
    } + match c.domain {
        Some(d) => "; Domain="@ + d@,
        None => Seq::empty(),
    }
}

/// `s` serializes the cookie `c`: exactly its prefix where it has no expiry, else its prefix
/// followed by the expiry's attribute.
pub open spec fn serializes(s: Seq<char>, c: CookieRecord) -> bool {
    &&& c.expiry is None ==> s == cookie_prefix(c)
    &&& c.expiry is Some ==> has_prefix(s, cookie_prefix(c) + "; Expires="@)
}

/// `s` serializes the cookie that the entry `j` describes.
pub open spec fn entry_serialized(j: Json, s: Seq<char>) -> bool {
    exists|c: CookieRecord| #[trigger] entry_is(j, c) && serializes(s, c)
}

/// Relies on the cookie crate (0.6): `Cookie::build` with `secure`, `http_only`, `domain`,
/// `path` and `expires`, and the `Display` of the `Cookie`, which writes `name=value`, then
/// `; HttpOnly`, `; Secure`, `; Path=`, `; Domain=` and `; Expires=` with the time in RFC 822
/// form. `time::at` turns the expiry into a local time; `localtime_r`, which it calls, fails
/// (and `time::at` panics) for years that do not fit its range, so the expiry stays within the
/// years 1 to 9999.
#[verifier::external_body]
fn cookie_text(c: &CookieRecord) -> (r: String)
    requires
        expiry_in_range(*c),
    ensures
        c.expiry is None ==> r@ == cookie_prefix(*c),
        c.expiry is Some ==> has_prefix(r@, cookie_prefix(*c) + "; Expires="@),
{
    let mut b = cookie::Cookie::build(c.name.clone(), c.value.clone());
    b = b.secure(c.secure).http_only(c.http_only);
    if let Some(d) = &c.domain { b = b.domain(d.clone()); }
    if let Some(p) = &c.path { b = b.path(p.clone()); }
    if let Some(n) = c.expiry { b = b.expires(time::at(time::Timespec::new(n, 0))); }
    format!("{}", b.finish())
}

/// Reads an optional string member.
fn read_opt(f: &Vec<(String, Json)>, key: &str) -> (r: Option<Option<String>>)
    ensures
        match r {
            Some(s) => opt_str(f@, key@) == Some(opt_view(s)),
            None => opt_str(f@, key@) is None,
        },
{
    match get_field(f, key) {
        None => Some(None),
        Some(Json::Null) => Some(None),
        Some(Json::Str(s)) => Some(Some(s.clone())),
        Some(_) => None,
    }
}

/// Reads the expiry of an entry.
fn read_expiry(f: &Vec<(String, Json)>) -> (r: Option<Option<i64>>)
    ensures
        r == expiry_of(f@),
{
    match get_field(f, "expiry") {
        None => Some(None),
        Some(Json::Null) => Some(None),
        Some(Json::U64(n)) => if *n <= MAX_EXPIRY as u64 {
            Some(Some(*n as i64))
        } else {
            None
        },
        Some(Json::I64(n)) => if MIN_EXPIRY <= *n && *n <= MAX_EXPIRY {
            Some(Some(*n))
        } else {
            None
        },
        Some(Json::Real(n)) => if MIN_EXPIRY <= *n && *n <= MAX_EXPIRY {
            Some(Some(*n))
        } else {
            None
        },
        Some(_) => None,
    }
}

/// Reads a boolean member.
fn read_flag(f: &Vec<(String, Json)>, key: &str) -> (r: bool)
    ensures
        r == flag_of(f@, key@),
{
    match get_field(f, key) {
        Some(Json::Boolean(b)) => *b,
        _ => false,
    }
}

/// Reads one cookie entry.
fn read_entry(j: &Json) -> (r: Option<CookieRecord>)
    ensures
        match r {
            Some(c) => entry_is(*j, c) && entry_ok(*j) && expiry_in_range(c),
            None => !entry_ok(*j),
        },
{
    match j {
        Json::Object(f) => {
            let name = match get_str(f, "name") {
                Some(s) => s.clone(),
                None => return None,
            };
            let value = match get_str(f, "value") {
                Some(s) => s.clone(),
                None => return None,
            };
            let path = match read_opt(f, "path") {
                Some(p) => p,
                None => return None,
            };
            let domain = match read_opt(f, "domain") {
                Some(d) => d,
                None => return None,
            };
            let expiry = match read_expiry(f) {
                Some(e) => e,
                None => return None,
            };
            Some(
                CookieRecord {
                    name,
                    value,
                    path,
                    domain,
                    expiry,
                    secure: read_flag(f, "secure"),
                    http_only: read_flag(f, "httpOnly"),
                },
            )
        },
        _ => None,
    }
}

/// Reads the list of cookies that the browser reported; a malformed entry spoils the whole
/// list.
pub fn read_cookies(v: Json) -> (r: Result<Vec<CookieRecord>, CmdError>)
    ensures
        cookies_read(v, r),
        r matches Ok(cs) ==> forall|i: int| 0 <= i < cs@.len() ==> expiry_in_range(#[trigger] cs@[i]),
{
    match v {
        Json::Array(items) => {
            let mut out: Vec<CookieRecord> = Vec::new();
            let mut i: usize = 0;
            while i < items.len()
                invariant
                    v == Json::Array(items),
                    0 <= i <= items@.len(),
                    out@.len() == i,
                    forall|k: int| 0 <= k < i ==> entry_ok(#[trigger] items@[k]),
                    forall|k: int| 0 <= k < i ==> entry_is(#[trigger] items@[k], out@[k]),
                    forall|k: int| 0 <= k < i ==> expiry_in_range(#[trigger] out@[k]),
                decreases items@.len() - i,
            {
                match read_entry(&items[i]) {
                    Some(c) => out.push(c),
                    None => {
                        assert(!entry_ok(items@[i as int]));
                        return Err(CmdError::NotW3C(Json::Array(items)));
                    },
                }
                i = i + 1;
            }
            Ok(out)
        },
        other => Err(CmdError::NotW3C(other)),
    }
}

/// The values of the `Cookie` header for the given cookies, one serialized cookie each.
pub fn cookie_header(cookies: &Vec<CookieRecord>) -> (r: Vec<String>)
    requires
        forall|i: int|
            0 <= i < cookies@.len() ==> expiry_in_range(#[trigger] cookies@[i]),
    ensures
        r@.len() == cookies@.len(),
        forall|i: int| 0 <= i < cookies@.len() ==> serializes(r@[i]@, #[trigger] cookies@[i]),
{
    let mut out: Vec<String> = Vec::new();
    let mut i: usize = 0;
    while i < cookies.len()
        invariant
            0 <= i <= cookies@.len(),
            out@.len() == i,
            forall|k: int|
                0 <= k < cookies@.len() ==> expiry_in_range(#[trigger] cookies@[k]),
            forall|k: int| 0 <= k < i ==> serializes(out@[k]@, #[trigger] cookies@[k]),
        decreases cookies@.len() - i,
    {
        let s = cookie_text(&cookies[i]);
        out.push(s);
        i = i + 1;
    }
    out
}

/// The path segment below the target that the bridge visits, so that the browser shows the
/// target's cookies without loading the target itself.
pub open spec fn probe_segment() -> Seq<char> {
    "please_give_me_your_cookies"@
}

/// Whether the path part of the URL `t` ends at `k`: at its first `?` or `#`, or at its end.
pub open spec fn path_end_at(t: Seq<char>, k: int) -> bool {
    &&& 0 <= k <= t.len()
    &&& (k == t.len() || t[k] == '?' || t[k] == '#')
    &&& forall|j: int| 0 <= j < k ==> t[j] != '?' && t[j] != '#'
}

/// Where the path part of the URL `t` ends.
pub open spec fn path_end(t: Seq<char>) -> int {
    choose|k: int| path_end_at(t, k)
}

/// The URL `t` as a directory: a slash ends its path part, before any query or fragment, so
/// that a relative reference resolves one segment below it.
pub open spec fn as_dir(t: Seq<char>) -> Seq<char> {
    let k = path_end(t);
    if k > 0 && t[k - 1] == '/' {
        t
    } else {
        t.subrange(0, k).push('/') + t.subrange(k, t.len() as int)
    }
}

/// The path part of a URL ends at one place only.
proof fn lemma_path_end(t: Seq<char>, k: int)
    requires
        path_end_at(t, k),
    ensures
        path_end(t) == k,
{
    let c = choose|c: int| path_end_at(t, c);
    assert(path_end_at(t, c));
    if c < k {
        assert(t[c] != '?' && t[c] != '#');
    }
    if k < c {
        assert(t[k] != '?' && t[k] != '#');
    }
}

/// `t` with a slash at the end of its path part.
fn dir_of(t: &str) -> (r: String)
    ensures
        r@ == as_dir(t@),
{
    let n = t.unicode_len();
    let mut k: usize = 0;
    while k < n && t.get_char(k) != '?' && t.get_char(k) != '#'
        invariant
            n == t@.len(),
            0 <= k <= n,
            forall|j: int| 0 <= j < k ==> t@[j] != '?' && t@[j] != '#',
        decreases n - k,
    {
        k = k + 1;
    }
    proof {
        lemma_path_end(t@, k as int);
    }
    if k > 0 && t.get_char(k - 1) == '/' {
        t.to_owned()
    } else {
        let mut d = t.substring_char(0, k).to_owned();
        d.append("/");
        d.append(t.substring_char(k, n));
        proof {
            reveal_strlit("/");
        }
        assert(d@ =~= as_dir(t@));
        d
    }
}

/// Where the cookie bridge stands.
pub enum BridgeStage {
    Start,
    Recording,
    Probing,
    Fetching,
    Restoring,
    Finished,
}

/// Building a raw request for a URL with the cookies the browser holds for it. The bridge
/// records the current URL, visits a page one segment below the target, reads the cookies there, and always
/// returns to the recorded URL before it reports.
pub struct Bridge {
    pub method: Method,
    /// The URL asked for, resolved against the current one once that is read.
    pub url: String,
    pub ua: Option<String>,
    /// The current URL, recorded first.
    pub old: String,
    /// The target: `url` resolved against `old`.
    pub target: String,
    /// The reply to the cookie request, held while the bridge returns.
    pub fetched: Option<Result<Json, CmdError>>,
    pub stage: BridgeStage,
}

/// `r` is the outcome of a bridge whose cookie request was answered by `fetched` and whose
/// return was answered by `back`.
pub open spec fn bridge_outcome(
    b: Bridge,
    fetched: Result<Json, CmdError>,
    back: Result<Json, CmdError>,
    r: Result<RawRequest, CmdError>,
) -> bool {
    match fetched {
        Err(e) => r == Err::<RawRequest, CmdError>(e),
        Ok(v) => match back {
            Err(e) => r == Err::<RawRequest, CmdError>(e),
            Ok(_) => match v {
                Json::Array(items) => if all_entries_ok(items@) {
                    r matches Ok(q) && q.method == b.method && q.url@ == b.target@ && q.user_agent
                        == b.ua && q.cookies@.len() == items@.len() && forall|i: int|
                        0 <= i < items@.len() ==> entry_serialized(#[trigger] items@[i], q.cookies@[i]@)
                } else {
                    r == Err::<RawRequest, CmdError>(CmdError::NotW3C(v))
                },
                _ => r == Err::<RawRequest, CmdError>(CmdError::NotW3C(v)),
            },
        },
    }
}

/// The bridge records the URL it starts from and, when the cookie request fails, navigates back
/// to exactly that URL before it reports the failure, whatever the return brought.
pub proof fn lemma_bridge_restores(
    b0: Bridge,
    current: Result<Json, CmdError>,
    b1: Bridge,
    s1: Step<RawRequest, CmdError>,
    probed: Result<Json, CmdError>,
    b2: Bridge,
    s2: Step<RawRequest, CmdError>,
    e: CmdError,
    b3: Bridge,
    s3: Step<RawRequest, CmdError>,
    back: Result<Json, CmdError>,
    b4: Bridge,
    s4: Step<RawRequest, CmdError>,
)
    requires
        b0.stage is Recording,
        bridged(b0, current, b1, s1),
        s1 is Issue,
        bridged(b1, probed, b2, s2),
        probed is Ok,
        bridged(b2, Err(e), b3, s3),
        bridged(b3, back, b4, s4),
    ensures
        current_of(current) is Some,
        s3 matches Step::Issue(Command::Get(u), false) && u@ == current_of(current)->Some_0,
        s4 == Step::<RawRequest, CmdError>::Done(Err(e)),
{
}

/// When the cookie request fails, the bridge reports that failure, whatever came back for the
/// return to the recorded URL.
pub proof fn lemma_failed_fetch_is_reported(
    b: Bridge,
    e: CmdError,
    back: Result<Json, CmdError>,
    r: Result<RawRequest, CmdError>,
)
    requires
        bridge_outcome(b, Err(e), back, r),
    ensures
        r == Err::<RawRequest, CmdError>(e),
{
}

impl Client {
    /// Builds an unsent request of `method` for `url`, resolved against the current URL, that
    /// carries the browser's cookies for it and this session's user agent.
    pub fn raw_client_for(&self, method: Method, url: &str) -> (r: Bridge)
        ensures
            r.method == method,
            r.url@ == url@,
            r.ua == self.ua,
            r.fetched is None,
            r.stage is Start,
    {
        Bridge {
            method,
            url: url.to_owned(),
            ua: self.ua.clone(),
            old: String::new(),
            target: String::new(),
            fetched: None,
            stage: BridgeStage::Start,
        }
    }
}

/// `r` and `b2` are the step and the state that follow `b` on the decoded reply `reply`.
pub open spec fn bridged(
    b: Bridge,
    reply: Result<Json, CmdError>,
    b2: Bridge,
    r: Step<RawRequest, CmdError>,
) -> bool {
    &&& b2.method == b.method
    &&& b2.url == b.url
    &&& b2.ua == b.ua
    &&& (b.stage is Recording ==> match current_of(reply) {
        None => r matches Step::Done(Err(e)) && url_read(reply, Err(e)),
        Some(o) => match joined(o, b.url@) {
            None => r matches Step::Done(Err(CmdError::BadUrl(u))) && u@ == b.url@,
            Some(t) => match joined(as_dir(t), probe_segment()) {
                None => r matches Step::Done(Err(CmdError::BadUrl(u))) && u@ == t,
                Some(p) => {
                    &&& (r matches Step::Issue(Command::Get(q), false) && q@ == p)
                    &&& b2.old@ == o
                    &&& b2.target@ == t
                    &&& b2.stage is Probing
                },
            },
        },
    })
    &&& (!(b.stage is Recording) ==> b2.old == b.old)
    &&& (!(b.stage is Recording) ==> b2.target == b.target)
    &&& (b.stage is Probing ==> match reply {
        Ok(_) => (r matches Step::Issue(Command::GetCookies, false)) && b2.stage is Fetching,
        Err(e) => r == Step::<RawRequest, CmdError>::Done(Err(e)),
    })
    &&& (b.stage is Fetching ==> {
        &&& (r matches Step::Issue(Command::Get(u), false) && u@ == b.old@)
        &&& b2.fetched == Some(reply)
        &&& b2.stage is Restoring
    })
    &&& (b.stage is Restoring ==> (r matches Step::Done(res) && bridge_outcome(
        b,
        b.fetched->Some_0,
        reply,
        res,
    )))
    &&& (r is Done ==> b2.stage is Finished)
}

impl Bridge {
    /// The first step: record the current URL.
    pub fn start(&mut self) -> (r: Step<RawRequest, CmdError>)
        requires
            old(self).stage is Start,
        ensures
            r matches Step::Issue(Command::GetCurrentUrl, false),
            final(self).stage is Recording,
            final(self).method == old(self).method,
            final(self).url == old(self).url,
            final(self).ua == old(self).ua,
    {
        self.stage = BridgeStage::Recording;
        Step::Issue(Command::GetCurrentUrl, false)
    }

    /// The next step, given the decoded reply to the last command.
    pub fn resume(&mut self, reply: Result<Json, CmdError>) -> (r: Step<RawRequest, CmdError>)
        requires
            !(old(self).stage is Start),
            !(old(self).stage is Finished),
            old(self).stage is Restoring ==> old(self).fetched is Some,
        ensures
            bridged(*old(self), reply, *final(self), r),
    {
        match self.stage {
            BridgeStage::Recording => {
                self.stage = BridgeStage::Finished;
                let old = match read_url(reply) {
                    Ok(u) => u,
                    Err(e) => return Step::Done(Err(e)),
                };
                let target = match join_url(old.as_str(), self.url.as_str()) {
                    Some(t) => t,
                    None => return Step::Done(Err(CmdError::BadUrl(self.url.clone()))),
                };
                let dir = dir_of(target.as_str());
                let probe = match join_url(dir.as_str(), "please_give_me_your_cookies") {
                    Some(p) => p,
                    None => return Step::Done(Err(CmdError::BadUrl(target))),
                };
                self.old = old;
                self.target = target;
                self.stage = BridgeStage::Probing;
                Step::Issue(Command::Get(probe), false)
            },
            BridgeStage::Probing => match reply {
                Ok(_) => {
                    self.stage = BridgeStage::Fetching;
                    Step::Issue(Command::GetCookies, false)
                },
                Err(e) => {
                    self.stage = BridgeStage::Finished;
                    Step::Done(Err(e))
                },
            },
            BridgeStage::Fetching => {
                self.fetched = Some(reply);
                self.stage = BridgeStage::Restoring;
                Step::Issue(Command::Get(self.old.clone()), false)
            },
            _ => {
                self.stage = BridgeStage::Finished;
                let fetched = self.fetched.take();
                let v = match fetched {
                    Some(Ok(v)) => v,
                    Some(Err(e)) => return Step::Done(Err(e)),
                    None => return Step::Done(Err(CmdError::NotW3C(Json::Null))),
                };
                if let Err(e) = reply {
                    return Step::Done(Err(e));
                }
                match read_cookies(v) {
                    Ok(cs) => {
                        let jar = cookie_header(&cs);
                        proof {
                            let items = old(self).fetched->Some_0->Ok_0->Array_0;
                            assert forall|i: int| 0 <= i < items@.len() implies entry_serialized(
                                #[trigger] items@[i],
                                jar@[i]@,
                            ) by {
                                assert(entry_is(items@[i], cs@[i]));
                                assert(serializes(jar@[i]@, cs@[i]));
                            }
                        }
                        Step::Done(
                            Ok(
                                RawRequest {
                                    method: copy_method(&self.method),
                                    url: self.target.clone(),
                                    cookies: jar,
                                    user_agent: self.ua.clone(),
                                },
                            ),
                        )
                    },
                    Err(e) => Step::Done(Err(e)),
                }
            },
        }
    }
}

} // verus!
