//! The grafana plugin: data source queries and reads, each one request.
//!
//! Every operation is a read, answered in one response, so nothing is
//! polled and no identity is stamped anywhere.
use vstd::prelude::*;
use crate::args::{arg_str, arg_str_v, names};
use crate::http::{
    pieces_v, req_v, request, url, url_v, with_body_v, with_header_v, with_timeout_v, Action,
    ActionV, Event, EventV, Method, PieceV, Request, RequestV, Response, ResponseV, body_v,
};
use crate::json::{jget, jint, jv, members, members_of, members_v, lemma_jv_object, str_eq, Json, JsonV};
use crate::promise::{parsed_v, read_param, read_param_v, Promise, PromiseV};
use crate::query::{pick_present, pick_present_v};
use crate::text::{cat, cat3, q, quote};
use crate::verdict::{
    settles,
    coded,
    fail_v, reject, reject_v, release_v, Failure, FailureV, Payload, PayloadV, Verdict, VerdictV,
};

verus! {

/// The plugin's settings: the server and the service account token every
/// request presents.
pub struct Config {
    pub base_url: String,
    pub token: String,
}

pub struct ConfigV {
    pub base_url: Seq<char>,
    pub token: Seq<char>,
}

impl View for Config {
    type V = ConfigV;

    open spec fn view(&self) -> ConfigV {
        ConfigV { base_url: self.base_url@, token: self.token@ }
    }
}

/// The operations this plugin offers.
#[derive(PartialEq, Eq, Structural, Clone, Copy)]
pub enum Func {
    QueryRun,
    DatasourceList,
    DatasourceGet,
}

pub open spec fn func_of(name: Seq<char>) -> Option<Func> {
    if name == "query.run"@ {
        Some(Func::QueryRun)
    } else if name == "datasource.list"@ {
        Some(Func::DatasourceList)
    } else if name == "datasource.get"@ {
        Some(Func::DatasourceGet)
    } else {
        None
    }
}

fn func(name: &str) -> (r: Option<Func>)
    ensures
        r == func_of(name@),
{
    if str_eq(name, "query.run") {
        Some(Func::QueryRun)
    } else if str_eq(name, "datasource.list") {
        Some(Func::DatasourceList)
    } else if str_eq(name, "datasource.get") {
        Some(Func::DatasourceGet)
    } else {
        None
    }
}

// ─── Responses ──────────────────────────────────────────────────────────────

/// Applied to every response before the operation's own status branches.
/// 401 and 403 are the only statuses Grafana documents for a rejected or
/// under-permissioned credential (on a query, 403 is access denied to a
/// queried data source): they halt. 429 and 5xx release.
pub open spec fn check_v(r: ResponseV) -> Option<FailureV> {
    if r.status == 401 || r.status == 403 {
        Some(FailureV::Halt(PayloadV::Text(r.text)))
    } else if r.status == 429 || r.status >= 500 {
        Some(FailureV::Release(PayloadV::Text(r.text)))
    } else {
        None
    }
}

fn check(r: &Response) -> (f: Option<Failure>)
    ensures
        match f {
            Some(x) => check_v(r@) == Some(x@),
            None => check_v(r@) is None,
        },
{
    if r.status == 401 || r.status == 403 {
        Some(Failure::Halt(Payload::Text(r.text.clone())))
    } else if r.status == 429 || r.status >= 500 {
        Some(Failure::Release(Payload::Text(r.text.clone())))
    } else {
        None
    }
}

/// Whether one result entry of a refused query run is a refusal by the
/// queried system: no error at all, or a 4xx other than 429 (a 502 means
/// the system was never reached, a 500 that the plugin raised).
pub open spec fn refused_entry(entry: JsonV) -> bool {
    match jget(entry, "error"@) {
        None => true,
        Some(JsonV::Null) => true,
        Some(_) => match jint(jget(entry, "status"@)) {
            Some(s) => s != 429 && 400 <= s < 500,
            None => false,
        },
    }
}

/// The result entries of a query run: the values of `results` where it is
/// an object, else none.
pub open spec fn entries(results: JsonV) -> Seq<(Seq<char>, JsonV)> {
    members(results)
}

/// The verdict on a query run answered 400, which is both a malformed
/// request and "one or more queries were unsuccessful": only the latter
/// carries results. Where every failed query was refused by its system the
/// run rejects with the results; otherwise it releases.
pub open spec fn failed_run_v(r: ResponseV) -> VerdictV {
    let body = body_v(r);
    match jget(body, "results"@) {
        None => reject_v("invalid_request"@, Some(body)),
        Some(JsonV::Null) => reject_v("invalid_request"@, Some(body)),
        Some(results) => if forall|i: int|
            0 <= i < entries(results).len() ==> #[trigger] refused_entry(entries(results)[i].1) {
            reject_v("query_failed"@, Some(results))
        } else {
            release_v(r.text)
        },
    }
}

fn refused(entry: &Json) -> (b: bool)
    ensures
        b == refused_entry(entry@),
{
    match entry.get("error") {
        None => true,
        Some(e) => if e.is_null() {
            true
        } else {
            match entry.get("status") {
                Some(s) => match s.as_i64() {
                    Some(n) => n != 429 && 400 <= n && n < 500,
                    None => false,
                },
                None => false,
            }
        },
    }
}

fn failed_run(r: &Response) -> (v: Verdict)
    ensures
        v@ == failed_run_v(r@),
{
    let body = r.json();
    let results = match body.get("results") {
        None => return reject("invalid_request", Some(body)),
        Some(x) => if x.is_null() {
            return reject("invalid_request", Some(body));
        } else {
            x.copy()
        },
    };
    let m = members_of(&results);
    let ghost es = members_v(m@);
    let mut i: usize = 0;
    while i < m.len()
        invariant
            i <= m.len(),
            es == members_v(m@),
            es == entries(results@),
            jget(body_v(r@), "results"@) == Some(results@),
            !(results@ is Null),
            forall|j: int| 0 <= j < i ==> #[trigger] refused_entry(es[j].1),
        decreases m.len() - i,
    {
        assert(es[i as int].1 == m@[i as int].1@);
        if !refused(&m[i].1) {
            assert(!refused_entry(es[i as int].1));
            return Verdict::Release(Payload::Text(r.text.clone()));
        }
        i = i + 1;
    }
    reject("query_failed", Some(results))
}

/// Which operation a request serves.
#[derive(PartialEq, Eq, Structural, Clone, Copy)]
pub enum ReadKind {
    Query,
    List,
    Get,
}

/// The verdict of an operation's answer.
pub open spec fn outcome_v(r: ResponseV, k: ReadKind) -> VerdictV {
    match check_v(r) {
        Some(f) => fail_v(f),
        None => if r.status == 404 && k != ReadKind::List {
            reject_v("not_found"@, Some(body_v(r)))
        } else if r.status == 400 && k == ReadKind::Query {
            failed_run_v(r)
        } else if r.status >= 400 {
            reject_v("invalid_request"@, Some(JsonV::Str(r.text)))
        } else {
            VerdictV::Resolve(PayloadV::Text(r.text))
        },
    }
}

fn outcome(r: &Response, k: ReadKind) -> (v: Verdict)
    ensures
        v@ == outcome_v(r@, k),
{
    match check(r) {
        Some(f) => f.into_verdict(),
        None => if r.status == 404 && k != ReadKind::List {
            reject("not_found", Some(r.json()))
        } else if r.status == 400 && k == ReadKind::Query {
            failed_run(r)
        } else if r.status >= 400 {
            reject("invalid_request", Some(Json::Str(r.text.clone())))
        } else {
            Verdict::Resolve(Payload::Text(r.text.clone()))
        },
    }
}

// ─── Requests ───────────────────────────────────────────────────────────────

/// The token is presented as it is on every request.
pub open spec fn authed_v(c: ConfigV, m: Method, u: Seq<char>) -> RequestV {
    with_header_v(req_v(m, url_v(u)), "Authorization"@, "Bearer "@ + c.token)
}

fn authed(cfg: &Config, m: Method, u: String) -> (r: Request)
    ensures
        r@ == authed_v(cfg@, m, u@),
{
    let a = cat("Bearer ", cfg.token.as_str());
    request(m, url(u)).header("Authorization", a.as_str())
}

/// The keys of a query run's body, each sent only where the caller gave it.
pub open spec fn query_keys() -> Seq<Seq<char>> {
    seq!["queries"@, "from"@, "to"@, "debug"@]
}

/// A query may run well past the ten seconds other reads are given: a
/// plugin data source is not bound by the data proxy's timeout.
pub open spec fn query_timeout() -> u64 {
    60_000
}

/// Where a delivery stands.
pub enum Stage {
    Done,
    /// The operation's one request is out.
    Read { kind: ReadKind },
}

pub enum StageV {
    Done,
    Read { kind: ReadKind },
}

impl View for Stage {
    type V = StageV;

    open spec fn view(&self) -> StageV {
        match self {
            Stage::Done => StageV::Done,
            Stage::Read { kind } => StageV::Read { kind: *kind },
        }
    }
}

pub open spec fn finish(v: VerdictV) -> (StageV, ActionV) {
    (StageV::Done, ActionV::Finish(v))
}

/// The first step of a delivery.
pub open spec fn start_v(c: ConfigV, p: PromiseV, parsed: Result<JsonV, Seq<char>>) -> (StageV, ActionV) {
    match read_param_v(parsed) {
        Err(v) => finish(v),
        Ok((name, args)) => match func_of(name) {
            None => finish(reject_v("unknown_func"@, Some(JsonV::Str(name)))),
            Some(Func::QueryRun) => (
                StageV::Read { kind: ReadKind::Query },
                ActionV::Send(
                    with_timeout_v(
                        with_body_v(
                            authed_v(c, Method::Post, c.base_url + "/api/ds/query"@),
                            JsonV::Object(pick_present_v(args, query_keys())),
                        ),
                        query_timeout(),
                    ),
                ),
            ),
            Some(Func::DatasourceList) => (
                StageV::Read { kind: ReadKind::List },
                ActionV::Send(authed_v(c, Method::Get, c.base_url + "/api/datasources"@)),
            ),
            Some(Func::DatasourceGet) => match arg_str_v(args, "uid"@) {
                Err(e) => finish(reject_v("invalid_request"@, Some(JsonV::Str(e)))),
                Ok(uid) => (
                    StageV::Read { kind: ReadKind::Get },
                    ActionV::Send(
                        authed_v(c, Method::Get, c.base_url + "/api/datasources/uid/"@ + q(uid)),
                    ),
                ),
            },
        },
    }
}

/// One step: the answer to the request decides.
pub open spec fn next_v(c: ConfigV, p: PromiseV, s: StageV, e: EventV) -> (StageV, ActionV) {
    match (s, e) {
        (StageV::Read { kind }, EventV::Reply(r)) => finish(outcome_v(r, kind)),
        (_, EventV::Lost(msg, _)) => finish(release_v(msg)),
        _ => finish(release_v(Seq::empty())),
    }
}

fn done(v: Verdict) -> (r: (Stage, Action))
    ensures
        (r.0@, r.1@) == finish(v@),
{
    (Stage::Done, Action::Finish(v))
}

/// One call per delivered task begins here.
pub fn begin(cfg: &Config, promise: &Promise, parsed: Result<Json, String>) -> (r: (Stage, Action))
    ensures
        (r.0@, r.1@) == start_v(cfg@, promise@, parsed_v(parsed)),
{
    let (name, args) = match read_param(parsed) {
        Err(v) => return done(v),
        Ok(x) => x,
    };
    match func(name.as_str()) {
        None => done(reject("unknown_func", Some(Json::Str(name)))),
        Some(Func::QueryRun) => {
            let ks = ["queries", "from", "to", "debug"];
            assert(names(ks@) =~= query_keys());
            let req = authed(cfg, Method::Post, cat(cfg.base_url.as_str(), "/api/ds/query")).json(
                pick_present(&args, &ks),
            ).timeout(60_000);
            (Stage::Read { kind: ReadKind::Query }, Action::Send(req))
        },
        Some(Func::DatasourceList) => {
            let req = authed(cfg, Method::Get, cat(cfg.base_url.as_str(), "/api/datasources"));
            (Stage::Read { kind: ReadKind::List }, Action::Send(req))
        },
        Some(Func::DatasourceGet) => match arg_str(&args, "uid") {
            Err(e) => done(reject("invalid_request", Some(Json::Str(e)))),
            Ok(uid) => {
                let u = cat3(cfg.base_url.as_str(), "/api/datasources/uid/", quote(uid.as_str()).as_str());
                (Stage::Read { kind: ReadKind::Get }, Action::Send(authed(cfg, Method::Get, u)))
            },
        },
    }
}

/// One step of a delivery after its first.
pub fn step(cfg: &Config, promise: &Promise, stage: Stage, event: Event) -> (r: (Stage, Action))
    ensures
        (r.0@, r.1@) == next_v(cfg@, promise@, stage@, event@),
{
    match (stage, event) {
        (Stage::Read { kind }, Event::Reply(r)) => done(outcome(&r, kind)),
        (_, Event::Lost(msg, _)) => done(Verdict::Release(Payload::Text(msg))),
        _ => done(Verdict::Release(Payload::Text(String::new()))),
    }
}

/// Credentials that stop working halt the delivery and wait for an
/// operator: an answer of 401 or 403 to any request ends it with a halt that
/// carries the answer's text.
pub proof fn lemma_credentials_halt(c: ConfigV, p: PromiseV, s: StageV, r: ResponseV)
    requires
        r.status == 401 || r.status == 403,
        !(s is Done),
    ensures
        next_v(c, p, s, EventV::Reply(r)).1 == ActionV::Finish(VerdictV::Halt(PayloadV::Text(r.text))),
{
}

/// Every rejection a delivery ends with names its code.
pub proof fn lemma_rejections_coded(c: ConfigV, p: PromiseV, parsed: Result<JsonV, Seq<char>>, s: StageV, e: EventV)
    ensures
        start_v(c, p, parsed).1 matches ActionV::Finish(v) ==> coded(v),
        next_v(c, p, s, e).1 matches ActionV::Finish(v) ==> coded(v),
{
}

/// A rate limit or an unavailable service settles nothing: an answer of
/// 429 or 503 to any request neither resolves nor rejects the promise.
pub proof fn lemma_busy_settles_nothing(c: ConfigV, p: PromiseV, s: StageV, r: ResponseV)
    requires
        r.status == 429 || r.status == 503,
    ensures
        !(next_v(c, p, s, EventV::Reply(r)).1 matches ActionV::Finish(v) && settles(v)),
{
}

/// A query run answered 400 with a results object is judged by its failed
/// entries. Where every entry that carries a non-null error also carries an
/// integer status from 400 to 499 other than 429 (the queried system refused
/// the query), the delivery rejects with code "query_failed" and the results
/// as the detail: a permanent refusal is never redelivered. Where some
/// errored entry carries no such status (429, a 5xx, none at all), it
/// releases with the answer's text.
pub proof fn lemma_refused_query_rejects(c: ConfigV, p: PromiseV, r: ResponseV, m: Seq<(Seq<char>, JsonV)>)
    requires
        r.status == 400,
        jget(body_v(r), "results"@) == Some(JsonV::Object(m)),
    ensures
        (forall|i: int|
            0 <= i < m.len() && (jget(#[trigger] m[i].1, "error"@) matches Some(x) && !(x is Null))
                ==> (jint(jget(m[i].1, "status"@)) matches Some(st) && 400 <= st < 500 && st != 429))
            ==> next_v(c, p, StageV::Read { kind: ReadKind::Query }, EventV::Reply(r)).1
            == ActionV::Finish(
            VerdictV::Reject(
                JsonV::Object(
                    seq![("code"@, JsonV::Str("query_failed"@)), ("detail"@, JsonV::Object(m))],
                ),
            ),
        ),
        (exists|i: int|
            0 <= i < m.len() && (jget(#[trigger] m[i].1, "error"@) matches Some(x) && !(x is Null))
                && !(jint(jget(m[i].1, "status"@)) matches Some(st) && 400 <= st < 500 && st != 429))
            ==> next_v(c, p, StageV::Read { kind: ReadKind::Query }, EventV::Reply(r)).1
            == ActionV::Finish(VerdictV::Release(PayloadV::Text(r.text))),
{
    let results = JsonV::Object(m);
    assert(entries(results) == m);
    if forall|i: int|
        0 <= i < m.len() && (jget(#[trigger] m[i].1, "error"@) matches Some(x) && !(x is Null))
            ==> (jint(jget(m[i].1, "status"@)) matches Some(st) && 400 <= st < 500 && st != 429) {
        assert forall|i: int| 0 <= i < entries(results).len() implies #[trigger] refused_entry(
            entries(results)[i].1,
        ) by {
            let e = m[i].1;
            if jget(e, "error"@) matches Some(x) && !(x is Null) {
                assert(jint(jget(m[i].1, "status"@)) matches Some(st) && 400 <= st < 500 && st
                    != 429);
            }
        }
    }
    if exists|i: int|
        0 <= i < m.len() && (jget(#[trigger] m[i].1, "error"@) matches Some(x) && !(x is Null))
            && !(jint(jget(m[i].1, "status"@)) matches Some(st) && 400 <= st < 500 && st != 429) {
        let i = choose|i: int|
            0 <= i < m.len() && (jget(#[trigger] m[i].1, "error"@) matches Some(x) && !(x is Null))
                && !(jint(jget(m[i].1, "status"@)) matches Some(st) && 400 <= st < 500 && st
                != 429);
        assert(!refused_entry(entries(results)[i].1));
    }
}

/// A query.run posts to /api/ds/query a body of the caller's queries, from,
/// to and debug, where given and in that order, and allows it sixty seconds.
pub proof fn lemma_query_run_request(c: ConfigV, p: PromiseV, param: JsonV, args: JsonV)
    requires
        jget(param, "func"@) == Some(JsonV::Str("query.run"@)),
        jget(param, "args"@) == Some(args),
    ensures
        start_v(c, p, Ok(param)) matches (StageV::Read { kind: ReadKind::Query }, ActionV::Send(q))
            && q.method == Method::Post && q.url == url_v(c.base_url + "/api/ds/query"@) && q.body
            == Some(JsonV::Object(pick_present_v(args, seq!["queries"@, "from"@, "to"@, "debug"@])))
            && q.timeout_ms == 60_000,
{
}

} // verus!
