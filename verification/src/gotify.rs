//! The gotify plugin: a push notification, resolving on acceptance.
//!
//! Gotify observes every operation on the response of the request that
//! begins it, so nothing is polled.
use vstd::prelude::*;
use crate::frame::{sanitize, sanitize_v};
use crate::http::{
    param_of, param_v, pieces_v, qtext, query_v, req_v, request, segment, segment_v, url, url_seg,
    url_seg_v, url_v, with_body_v, with_header_v, with_query_v, Action, ActionV, Event, EventV,
    Method, Param, ParamV, PieceV, Request, RequestV, Response, ResponseV, body_v,
};
use crate::json::{
    insert, jget, jstr, jv, lemma_put_then_find, members, members_of, members_v, or_null, put, find_key, str_eq, Json,
    JsonV, lemma_jv_object,
};
use crate::promise::{parsed_v, read_param, read_param_v, Promise, PromiseV};
use crate::text::cat;
use crate::verdict::{
    settles,
    coded,
    fail_v, jstr_of, reject, reject_v, release_v, text, Failure, FailureV, Payload, PayloadV,
    Verdict, VerdictV,
};

verus! {

/// The plugin's settings: the server and the client token every request
/// presents.
pub struct Config {
    pub base_url: String,
    pub client_token: String,
}

pub struct ConfigV {
    pub base_url: Seq<char>,
    pub client_token: Seq<char>,
}

impl View for Config {
    type V = ConfigV;

    open spec fn view(&self) -> ConfigV {
        ConfigV { base_url: self.base_url@, client_token: self.client_token@ }
    }
}

/// The extras key the injected identity is written under.
pub open spec fn stamp_key() -> Seq<char> {
    "resonate::promise"@
}

// ─── Responses ──────────────────────────────────────────────────────────────

/// The classification every answer falls through to: 401 and 403 (a rejected or under-privileged
/// token) halt; 429 and 5xx release; anything else is the operation's own.
pub open spec fn check_v(r: ResponseV) -> Option<FailureV> {
    if r.status == 401 || r.status == 403 {
        Some(FailureV::Halt(PayloadV::Text(r.text)))
    } else if r.status == 429 || r.status >= 500 {
        Some(FailureV::Release(PayloadV::Text(r.text)))
    } else {
        None
    }
}

fn check(r: &Response) -> (f: Option<Failure>)
    ensures
        match f {
            Some(x) => check_v(r@) == Some(x@),
            None => check_v(r@) is None,
        },
{
    if r.status == 401 || r.status == 403 {
        Some(Failure::Halt(Payload::Text(r.text.clone())))
    } else if r.status == 429 || r.status >= 500 {
        Some(Failure::Release(Payload::Text(r.text.clone())))
    } else {
        None
    }
}

/// `response.body.errorDescription`; null where absent.
pub open spec fn error_description_v(r: ResponseV) -> JsonV {
    or_null(jget(body_v(r), "errorDescription"@))
}

fn error_description(r: &Response) -> (j: Json)
    ensures
        j@ == error_description_v(r@),
{
    match r.json().get("errorDescription") {
        Some(x) => x.copy(),
        None => Json::Null,
    }
}

/// The verdict of a read or a create: its failure, a rejection for any other
/// 4xx, or the response text.
pub open spec fn answer_v(r: ResponseV) -> VerdictV {
    match check_v(r) {
        Some(f) => fail_v(f),
        None => if r.status >= 400 {
            reject_v("invalid_request"@, Some(error_description_v(r)))
        } else {
            VerdictV::Resolve(PayloadV::Text(r.text))
        },
    }
}

fn answer(r: &Response) -> (v: Verdict)
    ensures
        v@ == answer_v(r@),
{
    match check(r) {
        Some(f) => f.into_verdict(),
        None => if r.status >= 400 {
            reject("invalid_request", Some(error_description(r)))
        } else {
            Verdict::Resolve(Payload::Text(r.text.clone()))
        },
    }
}

// ─── Requests ───────────────────────────────────────────────────────────────

/// The client token travels in `X-Gotify-Key` on every request.
pub open spec fn get_v(c: ConfigV, u: Seq<PieceV>, q: Seq<(Seq<char>, ParamV)>) -> RequestV {
    with_query_v(with_header_v(req_v(Method::Get, u), "X-Gotify-Key"@, c.client_token), q)
}

fn get(cfg: &Config, u: Vec<crate::http::Piece>, q: Vec<(String, Param)>) -> (r: Request)
    ensures
        r@ == get_v(cfg@, pieces_v(u@), query_v(q@)),
{
    request(Method::Get, u).header("X-Gotify-Key", cfg.client_token.as_str()).query(q)
}

/// The locate request: the newest 200 messages of the application (200 is
/// the documented maximum page size, so this page is the recovery window).
pub open spec fn scan_request_v(c: ConfigV, appid: JsonV) -> RequestV {
    get_v(
        c,
        url_seg_v(c.base_url + "/application/"@, segment_v(appid), "/message"@),
        seq![("limit"@, ParamV::Text("200"@))],
    )
}

fn scan_request(cfg: &Config, appid: &Json) -> (r: Request)
    ensures
        r@ == scan_request_v(cfg@, appid@),
{
    let u = url_seg(cat(cfg.base_url.as_str(), "/application/"), segment(appid), "/message");
    let mut q: Vec<(String, Param)> = Vec::new();
    q.push(qtext("limit", text("200")));
    assert(query_v(q@) =~= seq![("limit"@, ParamV::Text("200"@))]);
    get(cfg, u, q)
}

/// The extras the caller gave, where they are an object.
pub open spec fn extras_v(args: JsonV) -> Seq<(Seq<char>, JsonV)> {
    match jget(args, "extras"@) {
        Some(JsonV::Object(m)) => m,
        _ => Seq::empty(),
    }
}

/// The message body: the args as given, with the identity stamped into the
/// extras (a caller value under the stamp key is replaced).
pub open spec fn create_body_v(args: JsonV, token: Seq<char>) -> JsonV {
    JsonV::Object(
        put(
            members(args),
            "extras"@,
            JsonV::Object(put(extras_v(args), stamp_key(), JsonV::Str(token))),
        ),
    )
}

pub open spec fn create_request_v(c: ConfigV, args: JsonV, token: Seq<char>) -> RequestV {
    with_body_v(
        with_header_v(
            with_header_v(
                req_v(Method::Post, url_v(c.base_url + "/message"@)),
                "X-Gotify-Key"@,
                c.client_token,
            ),
            "Content-Type"@,
            "application/json"@,
        ),
        create_body_v(args, token),
    )
}

fn create_request(cfg: &Config, args: &Json, token: &str) -> (r: Request)
    ensures
        r@ == create_request_v(cfg@, args@, token@),
{
    let mut body = members_of(args);
    let mut extras: Vec<(String, Json)> = match args.get("extras") {
        Some(x) => members_of(x),
        None => Vec::new(),
    };
    assert(members_v(extras@) =~= extras_v(args@));
    insert(&mut extras, "resonate::promise", jstr_of(token));
    proof {
        lemma_jv_object(extras);
    }
    insert(&mut body, "extras", Json::Object(extras));
    proof {
        lemma_jv_object(body);
    }
    request(Method::Post, url(cat(cfg.base_url.as_str(), "/message"))).header(
        "X-Gotify-Key",
        cfg.client_token.as_str(),
    ).header("Content-Type", "application/json").json(Json::Object(body))
}

/// The identity a message carries in its extras, where it carries one.
pub open spec fn stamp_of(m: JsonV) -> Option<Seq<char>> {
    match jget(m, "extras"@) {
        Some(JsonV::Object(x)) => jstr(find_key(x, stamp_key())),
        _ => None,
    }
}

/// The first message from position `i` on stamped with `token`.
pub open spec fn stamped_from(ms: Seq<JsonV>, token: Seq<char>, i: int) -> Option<JsonV>
    decreases ms.len() - i,
{
    if i < 0 || i >= ms.len() {
        None
    } else if stamp_of(ms[i]) == Some(token) {
        Some(ms[i])
    } else {
        stamped_from(ms, token, i + 1)
    }
}

/// The messages of a listing; none where the body carries no array.
pub open spec fn messages_v(r: ResponseV) -> Seq<JsonV> {
    match jget(body_v(r), "messages"@) {
        Some(JsonV::Array(a)) => a,
        _ => Seq::empty(),
    }
}

fn stamp_of_exec(m: &Json) -> (r: Option<&String>)
    ensures
        match r {
            Some(s) => stamp_of(m@) == Some(s@),
            None => stamp_of(m@) is None,
        },
{
    match m.get("extras") {
        Some(x) => match x {
            Json::Object(_) => x.get_str("resonate::promise"),
            _ => None,
        },
        None => None,
    }
}

/// The message an earlier delivery stamped, by a scan from the newest.
fn stamped(body: &Json, token: &str) -> (r: Option<Json>)
    ensures
        ({
            let ms = match jget(body@, "messages"@) {
                Some(JsonV::Array(a)) => a,
                _ => Seq::empty(),
            };
            match r {
                Some(m) => stamped_from(ms, token@, 0) == Some(m@),
                None => stamped_from(ms, token@, 0) is None,
            }
        }),
{
    let ghost ms = match jget(body@, "messages"@) {
        Some(JsonV::Array(a)) => a,
        _ => Seq::empty(),
    };
    match body.get("messages") {
        Some(Json::Array(v)) => {
            assert(ms =~= Seq::new(v.len() as nat, |i: int| jv(v[i])));
            let mut i: usize = 0;
            while i < v.len()
                invariant
                    i <= v.len(),
                    ms == (match jget(body@, "messages"@) {
                        Some(JsonV::Array(a)) => a,
                        _ => Seq::empty(),
                    }),
                    ms.len() == v.len(),
                    forall|j: int| 0 <= j < v.len() ==> ms[j] == jv(#[trigger] v[j]),
                    stamped_from(ms, token@, 0) == stamped_from(ms, token@, i as int),
                decreases v.len() - i,
            {
                match stamp_of_exec(&v[i]) {
                    Some(s) => {
                        if str_eq(s.as_str(), token) {
                            assert(ms[i as int] == jv(v[i as int]));
                            assert(stamped_from(ms, token@, i as int) == Some(ms[i as int]));
                            return Some(v[i].copy());
                        }
                    },
                    None => {},
                }
                i = i + 1;
            }
            None
        },
        _ => None,
    }
}

/// The query a message listing forwards: every arg but a null, as `str(v)`.
pub open spec fn query_all_v(m: Seq<(Seq<char>, JsonV)>) -> Seq<(Seq<char>, ParamV)>
    decreases m.len(),
{
    if m.len() == 0 {
        Seq::empty()
    } else {
        let r = query_all_v(m.drop_last());
        if m.last().1 is Null {
            r
        } else {
            r.push((m.last().0, param_v(m.last().1)))
        }
    }
}

fn query_all(args: &Json) -> (r: Vec<(String, Param)>)
    ensures
        query_v(r@) == query_all_v(members(args@)),
{
    let m = members_of(args);
    let ghost src = members_v(m@);
    let mut out: Vec<(String, Param)> = Vec::new();
    let mut i: usize = 0;
    while i < m.len()
        invariant
            i <= m.len(),
            src == members_v(m@),
            query_v(out@) == query_all_v(src.take(i as int)),
        decreases m.len() - i,
    {
        assert(src.take(i + 1).drop_last() =~= src.take(i as int));
        if !m[i].1.is_null() {
            out.push((m[i].0.clone(), param_of(&m[i].1)));
        }
        assert(query_v(out@) =~= query_all_v(src.take(i + 1)));
        i = i + 1;
    }
    assert(src.take(m.len() as int) =~= src);
    out
}

// ─── The machine ────────────────────────────────────────────────────────────

/// Where a delivery stands.
pub enum Stage {
    /// The verdict is given.
    Done,
    /// message.create: the scan for a message an earlier delivery stamped is out.
    Scanning { args: Json, token: String },
    /// message.create: the stamped message is being created.
    Creating,
    /// application.list or message.list: the one read is out.
    Reading,
}

pub enum StageV {
    Done,
    Scanning { args: JsonV, token: Seq<char> },
    Creating,
    Reading,
}

impl View for Stage {
    type V = StageV;

    open spec fn view(&self) -> StageV {
        match self {
            Stage::Done => StageV::Done,
            Stage::Scanning { args, token } => StageV::Scanning { args: jv(*args), token: token@ },
            Stage::Creating => StageV::Creating,
            Stage::Reading => StageV::Reading,
        }
    }
}

/// `args.appid`, where present and not null.
pub open spec fn appid_v(args: JsonV) -> Option<JsonV> {
    match jget(args, "appid"@) {
        Some(JsonV::Null) => None,
        x => x,
    }
}

/// The first step of a delivery: the operation the param names, begun.
pub open spec fn start_v(c: ConfigV, p: PromiseV, parsed: Result<JsonV, Seq<char>>) -> (StageV, ActionV) {
    match read_param_v(parsed) {
        Err(v) => (StageV::Done, ActionV::Finish(v)),
        Ok((func, args)) => if func == "message.create"@ {
            match appid_v(args) {
                None => (
                    StageV::Done,
                    ActionV::Finish(
                        reject_v("invalid_request"@, Some(JsonV::Str("args.appid is required"@))),
                    ),
                ),
                Some(a) => (
                    StageV::Scanning { args, token: sanitize_v(p.id) },
                    ActionV::Send(scan_request_v(c, a)),
                ),
            }
        } else if func == "application.list"@ {
            (
                StageV::Reading,
                ActionV::Send(get_v(c, url_v(c.base_url + "/application"@), Seq::empty())),
            )
        } else if func == "message.list"@ {
            (
                StageV::Reading,
                ActionV::Send(get_v(c, url_v(c.base_url + "/message"@), query_all_v(members(args)))),
            )
        } else {
            (StageV::Done, ActionV::Finish(reject_v("unknown_func"@, Some(JsonV::Str(func)))))
        },
    }
}

/// The answer to the scan: a failure, a rejection, the message an earlier
/// delivery already created, or the create.
pub open spec fn scanned_v(c: ConfigV, args: JsonV, token: Seq<char>, r: ResponseV) -> (StageV, ActionV) {
    match check_v(r) {
        Some(f) => (StageV::Done, ActionV::Finish(fail_v(f))),
        None => if r.status == 404 {
            (StageV::Done, ActionV::Finish(reject_v("application_not_found"@, None)))
        } else if r.status >= 400 {
            (
                StageV::Done,
                ActionV::Finish(reject_v("invalid_request"@, Some(error_description_v(r)))),
            )
        } else {
            match stamped_from(messages_v(r), token, 0) {
                Some(m) => (StageV::Done, ActionV::Finish(VerdictV::Resolve(PayloadV::Doc(m)))),
                None => (StageV::Creating, ActionV::Send(create_request_v(c, args, token))),
            }
        },
    }
}

/// One step: the stage and what just happened give the next stage and action.
pub open spec fn next_v(c: ConfigV, s: StageV, e: EventV) -> (StageV, ActionV) {
    match e {
        EventV::Reply(r) => match s {
            StageV::Scanning { args, token } => scanned_v(c, args, token, r),
            _ => (StageV::Done, ActionV::Finish(answer_v(r))),
        },
        // A request that produced no response is unclassified: release.
        EventV::Lost(msg, _) => (StageV::Done, ActionV::Finish(release_v(msg))),
        // Nothing here sleeps; a wake-up is never asked for.
        EventV::Woke => (StageV::Done, ActionV::Finish(release_v(Seq::empty()))),
    }
}

/// One call per delivered task begins here: read the param and begin the
/// operation it names.
pub fn begin(cfg: &Config, promise: &Promise, parsed: Result<Json, String>) -> (r: (Stage, Action))
    ensures
        (r.0@, r.1@) == start_v(cfg@, promise@, parsed_v(parsed)),
{
    let (func, args) = match read_param(parsed) {
        Err(v) => return (Stage::Done, Action::Finish(v)),
        Ok(x) => x,
    };
    if str_eq(func.as_str(), "message.create") {
        let appid = match args.get("appid") {
            Some(a) => if a.is_null() {
                None
            } else {
                Some(a.copy())
            },
            None => None,
        };
        match appid {
            None => (
                Stage::Done,
                Action::Finish(reject("invalid_request", Some(jstr_of("args.appid is required")))),
            ),
            Some(a) => {
                let req = scan_request(cfg, &a);
                (Stage::Scanning { args, token: sanitize(promise.id.as_str()) }, Action::Send(req))
            },
        }
    } else if str_eq(func.as_str(), "application.list") {
        let q: Vec<(String, Param)> = Vec::new();
        assert(query_v(q@) =~= Seq::empty());
        (Stage::Reading, Action::Send(get(cfg, url(cat(cfg.base_url.as_str(), "/application")), q)))
    } else if str_eq(func.as_str(), "message.list") {
        let q = query_all(&args);
        (Stage::Reading, Action::Send(get(cfg, url(cat(cfg.base_url.as_str(), "/message")), q)))
    } else {
        (Stage::Done, Action::Finish(reject("unknown_func", Some(Json::Str(func)))))
    }
}

/// One step of a delivery after its first.
pub fn step(cfg: &Config, stage: Stage, event: Event) -> (r: (Stage, Action))
    ensures
        (r.0@, r.1@) == next_v(cfg@, stage@, event@),
{
    match event {
        Event::Reply(r) => match stage {
            Stage::Scanning { args, token } => {
                match check(&r) {
                    Some(f) => return (Stage::Done, Action::Finish(f.into_verdict())),
                    None => {},
                }
                if r.status == 404 {
                    (Stage::Done, Action::Finish(reject("application_not_found", None)))
                } else if r.status >= 400 {
                    (
                        Stage::Done,
                        Action::Finish(reject("invalid_request", Some(error_description(&r)))),
                    )
                } else {
                    match stamped(&r.json(), token.as_str()) {
                        Some(m) => (Stage::Done, Action::Finish(Verdict::Resolve(Payload::Doc(m)))),
                        None => {
                            let req = create_request(cfg, &args, token.as_str());
                            (Stage::Creating, Action::Send(req))
                        },
                    }
                }
            },
            _ => (Stage::Done, Action::Finish(answer(&r))),
        },
        Event::Lost(msg, _) => (Stage::Done, Action::Finish(Verdict::Release(Payload::Text(msg)))),
        Event::Woke => (Stage::Done, Action::Finish(Verdict::Release(Payload::Text(String::new())))),
    }
}

/// Credentials that stop working halt the delivery and wait for an
/// operator: an answer of 401 or 403 to any request ends it with a halt that
/// carries the answer's text.
pub proof fn lemma_credentials_halt(c: ConfigV, s: StageV, r: ResponseV)
    requires
        r.status == 401 || r.status == 403,
        true,
    ensures
        next_v(c, s, EventV::Reply(r)).1 == ActionV::Finish(VerdictV::Halt(PayloadV::Text(r.text))),
{
}

/// Every rejection a delivery ends with names its code.
pub proof fn lemma_rejections_coded(c: ConfigV, p: PromiseV, parsed: Result<JsonV, Seq<char>>, s: StageV, e: EventV)
    ensures
        start_v(c, p, parsed).1 matches ActionV::Finish(v) ==> coded(v),
        next_v(c, s, e).1 matches ActionV::Finish(v) ==> coded(v),
{
}

/// A message that an earlier delivery created is found again, never created
/// twice: the create is sent only once the scan found no message stamped
/// with this promise's identity; and where the scan finds one, nothing is
/// sent and the delivery resolves with that message.
pub proof fn lemma_create_only_when_none_found(c: ConfigV, s: StageV, e: EventV)
    ensures
        next_v(c, s, e).0 is Creating ==> (s matches StageV::Scanning { token, .. } && e matches EventV::Reply(
            r,
        ) && stamped_from(messages_v(r), token, 0) is None),
        (match (s, e) {
            (StageV::Scanning { args, token }, EventV::Reply(r)) => match stamped_from(
                messages_v(r),
                token,
                0,
            ) {
                Some(m) => check_v(r) is None && r.status < 400 ==> next_v(c, s, e) == (
                    StageV::Done,
                    ActionV::Finish(VerdictV::Resolve(PayloadV::Doc(m))),
                ),
                None => true,
            },
            _ => true,
        }),
{
}

/// A redelivery of a promise begins as the first delivery did: the first
/// step depends on the promise only through its id.
pub proof fn lemma_redelivery_begins_alike(c: ConfigV, p1: PromiseV, p2: PromiseV, parsed: Result<JsonV, Seq<char>>)
    requires
        p1.id == p2.id,
    ensures
        start_v(c, p1, parsed) == start_v(c, p2, parsed),
{
}

/// A rate limit or an unavailable service settles nothing: an answer of
/// 429 or 503 to any request neither resolves nor rejects the promise.
pub proof fn lemma_busy_settles_nothing(c: ConfigV, s: StageV, r: ResponseV)
    requires
        r.status == 429 || r.status == 503,
    ensures
        !(next_v(c, s, EventV::Reply(r)).1 matches ActionV::Finish(v) && settles(v)),
{
}

/// Whether message `m` carries `token` under the extras key
/// "resonate::promise".
pub open spec fn carries(m: JsonV, token: Seq<char>) -> bool {
    jget(or_null(jget(m, "extras"@)), "resonate::promise"@) == Some(JsonV::Str(token))
}

/// The search from position `i` finds the first message at or after `i`
/// that carries the stamp, wherever on the page it stands.
proof fn lemma_search_finds(ms: Seq<JsonV>, token: Seq<char>, i: int, k: int)
    requires
        0 <= i <= k < ms.len(),
        stamp_of(ms[k]) == Some(token),
    ensures
        stamped_from(ms, token, i) matches Some(m) && exists|j: int|
            i <= j <= k && m == ms[j] && stamp_of(ms[j]) == Some(token) && forall|l: int|
                i <= l < j ==> stamp_of(#[trigger] ms[l]) != Some(token),
    decreases k - i,
{
    if stamp_of(ms[i]) == Some(token) {
        assert(stamped_from(ms, token, i) == Some(ms[i]));
    } else {
        lemma_search_finds(ms, token, i + 1, k);
        let m = stamped_from(ms, token, i + 1)->Some_0;
        let j = choose|j: int|
            i + 1 <= j <= k && m == ms[j] && stamp_of(ms[j]) == Some(token) && forall|l: int|
                i + 1 <= l < j ==> stamp_of(#[trigger] ms[l]) != Some(token);
        assert(forall|l: int| i <= l < j ==> stamp_of(#[trigger] ms[l]) != Some(token));
    }
}

/// A message stamped with this promise's identity is found again wherever
/// it stands on the scanned page, not only at its head: where any message
/// of the page carries the token, the scan sends no create and resolves
/// with the first message of the page that carries it.
pub proof fn lemma_stamped_message_found_anywhere(c: ConfigV, args: JsonV, token: Seq<char>, r: ResponseV, ms: Seq<JsonV>, k: int)
    requires
        200 <= r.status < 300,
        jget(body_v(r), "messages"@) == Some(JsonV::Array(ms)),
        0 <= k < ms.len(),
        carries(ms[k], token),
    ensures
        next_v(c, StageV::Scanning { args, token }, EventV::Reply(r)) matches (
            StageV::Done,
            ActionV::Finish(VerdictV::Resolve(PayloadV::Doc(m))),
        ) && exists|j: int|
            0 <= j <= k && m == ms[j] && carries(ms[j], token) && forall|l: int|
                0 <= l < j ==> !carries(#[trigger] ms[l], token),
{
    assert forall|n: JsonV| #[trigger] carries(n, token) <==> stamp_of(n) == Some(token) by {
        reveal_strlit("resonate::promise");
    }
    assert(messages_v(r) == ms);
    lemma_search_finds(ms, token, 0, k);
}

/// What the search from position `i` finds carries the token.
proof fn lemma_search_yields_stamped(ms: Seq<JsonV>, token: Seq<char>, i: int)
    requires
        stamped_from(ms, token, i) is Some,
    ensures
        exists|j: int| 0 <= j < ms.len() && #[trigger] ms[j] == stamped_from(ms, token, i)->Some_0 && stamp_of(ms[j]) == Some(token),
    decreases ms.len() - i,
{
    if stamp_of(ms[i]) != Some(token) {
        lemma_search_yields_stamped(ms, token, i + 1);
    }
}

/// Where no message of the scanned page carries this promise's token, the
/// message is created: a POST to /message whose body is the caller's args
/// with "resonate::promise" in its extras mapped to the token, so that a
/// later scan finds it, and every other member of the args and of their
/// extras as the caller gave it.
pub proof fn lemma_create_carries_token(c: ConfigV, args: JsonV, token: Seq<char>, r: ResponseV, other: Seq<char>)
    requires
        200 <= r.status < 300,
        jget(body_v(r), "messages"@) matches Some(JsonV::Array(ms)) ==> forall|i: int|
            0 <= i < ms.len() ==> !carries(#[trigger] ms[i], token),
    ensures
        next_v(c, StageV::Scanning { args, token }, EventV::Reply(r)) matches (
            StageV::Creating,
            ActionV::Send(q),
        ) && q.method == Method::Post && q.url == url_v(c.base_url + "/message"@) && q.body is Some
            && ({
            let b = q.body->Some_0;
            &&& carries(b, token)
            &&& other != "extras"@ ==> jget(b, other) == jget(JsonV::Object(members(args)), other)
            &&& other != "resonate::promise"@ ==> jget(or_null(jget(b, "extras"@)), other) == jget(
                JsonV::Object(
                    match jget(args, "extras"@) {
                        Some(JsonV::Object(x)) => x,
                        _ => Seq::empty(),
                    },
                ),
                other,
            )
        }),
{
    reveal_strlit("resonate::promise");
    let ms = messages_v(r);
    if stamped_from(ms, token, 0) is Some {
        lemma_search_yields_stamped(ms, token, 0);
        let j = choose|j: int| 0 <= j < ms.len() && #[trigger] ms[j] == stamped_from(ms, token, 0)->Some_0 && stamp_of(ms[j]) == Some(token);
        assert(carries(ms[j], token));
    }
    let st = JsonV::Str(token);
    let ex = JsonV::Object(put(extras_v(args), stamp_key(), st));
    lemma_put_then_find(extras_v(args), stamp_key(), st, other);
    lemma_put_then_find(members(args), "extras"@, ex, other);
}

} // verus!
