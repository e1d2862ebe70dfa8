//! The rundeck plugin: a job execution, from run to terminal status.
use vstd::prelude::*;
use crate::clock::{nap, nap_v};
use vstd::utf8::encode_utf8;
use crate::args::{arg_id, arg_id_v, arg_str, arg_str_v, names};
use crate::frame::{sanitize, sanitize_v};
use crate::http::{
    pieces_v, qtext, query_v, req_v, request, segment, segment_v, url, url_seg, url_seg_v, url_v,
    with_body_v, with_header_v, with_query_v, Action, ActionV, Event, EventV, Method, Param,
    ParamV, Piece, PieceV, Request, RequestV, Response, ResponseV, body_v,
};
use crate::json::{
    get_str, insert, jget, lemma_put_then_find, jstr, jv, lemma_jv_object, members, members_of, members_v, or_null,
    put, str_eq, Json, JsonV,
};
use crate::promise::{parsed_v, read_param, read_param_v, Promise, PromiseV};
use crate::query::{keyed, keyed_v, pick, pick_present, pick_present_v, pick_v};
use crate::text::{cat, q, cat3, quote, quote_bytes, trim, trim_v};
use crate::verdict::{
    settles,
    coded,
    empty_object, fail_v, jstr_of, reject, reject_v, release_v, text, Failure, FailureV, Payload,
    PayloadV, Verdict, VerdictV,
};

verus! {

/// The plugin's settings. Every poll interval is in milliseconds; a
/// per-operation one that is unset falls back to `poll`.
pub struct Config {
    pub base_url: String,
    pub api_token: String,
    pub poll: u64,
    pub poll_job_run: Option<u64>,
    pub poll_job_retry: Option<u64>,
    pub poll_execution_abort: Option<u64>,
}

pub struct ConfigV {
    pub base_url: Seq<char>,
    pub api_token: Seq<char>,
    pub poll: u64,
    pub poll_job_run: Option<u64>,
    pub poll_job_retry: Option<u64>,
    pub poll_execution_abort: Option<u64>,
}

impl View for Config {
    type V = ConfigV;

    open spec fn view(&self) -> ConfigV {
        ConfigV {
            base_url: self.base_url@,
            api_token: self.api_token@,
            poll: self.poll,
            poll_job_run: self.poll_job_run,
            poll_job_retry: self.poll_job_retry,
            poll_execution_abort: self.poll_execution_abort,
        }
    }
}

/// `poll` where the settings leave it out: five seconds.
pub fn poll_default() -> (r: u64)
    ensures
        r == 5_000,
{
    5_000
}

pub open spec fn or_poll(o: Option<u64>, poll: u64) -> u64 {
    match o {
        Some(v) => v,
        None => poll,
    }
}

impl Config {
    /// `= poll`: a per-operation cadence falls back to the shared one.
    pub fn poll_job_run(&self) -> (r: u64)
        ensures
            r == or_poll(self.poll_job_run, self.poll),
    {
        match self.poll_job_run {
            Some(v) => v,
            None => self.poll,
        }
    }

    pub fn poll_job_retry(&self) -> (r: u64)
        ensures
            r == or_poll(self.poll_job_retry, self.poll),
    {
        match self.poll_job_retry {
            Some(v) => v,
            None => self.poll,
        }
    }

    pub fn poll_execution_abort(&self) -> (r: u64)
        ensures
            r == or_poll(self.poll_execution_abort, self.poll),
    {
        match self.poll_execution_abort {
            Some(v) => v,
            None => self.poll,
        }
    }
}

/// The operations this plugin offers.
#[derive(PartialEq, Eq, Structural, Clone, Copy)]
pub enum Func {
    JobRun,
    JobSubmit,
    JobRetry,
    ExecutionGet,
    ExecutionList,
    ExecutionOutput,
    ExecutionState,
    ExecutionAbort,
    ExecutionDelete,
    JobGet,
    JobList,
    ProjectList,
}

pub open spec fn func_of(name: Seq<char>) -> Option<Func> {
    if name == "job.run"@ {
        Some(Func::JobRun)
    } else if name == "job.submit"@ {
        Some(Func::JobSubmit)
    } else if name == "job.retry"@ {
        Some(Func::JobRetry)
    } else if name == "execution.get"@ {
        Some(Func::ExecutionGet)
    } else if name == "execution.list"@ {
        Some(Func::ExecutionList)
    } else if name == "execution.output"@ {
        Some(Func::ExecutionOutput)
    } else if name == "execution.state"@ {
        Some(Func::ExecutionState)
    } else if name == "execution.abort"@ {
        Some(Func::ExecutionAbort)
    } else if name == "execution.delete"@ {
        Some(Func::ExecutionDelete)
    } else if name == "job.get"@ {
        Some(Func::JobGet)
    } else if name == "job.list"@ {
        Some(Func::JobList)
    } else if name == "project.list"@ {
        Some(Func::ProjectList)
    } else {
        None
    }
}

fn func(name: &str) -> (r: Option<Func>)
    ensures
        r == func_of(name@),
{
    if str_eq(name, "job.run") {
        Some(Func::JobRun)
    } else if str_eq(name, "job.submit") {
        Some(Func::JobSubmit)
    } else if str_eq(name, "job.retry") {
        Some(Func::JobRetry)
    } else if str_eq(name, "execution.get") {
        Some(Func::ExecutionGet)
    } else if str_eq(name, "execution.list") {
        Some(Func::ExecutionList)
    } else if str_eq(name, "execution.output") {
        Some(Func::ExecutionOutput)
    } else if str_eq(name, "execution.state") {
        Some(Func::ExecutionState)
    } else if str_eq(name, "execution.abort") {
        Some(Func::ExecutionAbort)
    } else if str_eq(name, "execution.delete") {
        Some(Func::ExecutionDelete)
    } else if str_eq(name, "job.get") {
        Some(Func::JobGet)
    } else if str_eq(name, "job.list") {
        Some(Func::JobList)
    } else if str_eq(name, "project.list") {
        Some(Func::ProjectList)
    } else {
        None
    }
}

// ─── Responses ──────────────────────────────────────────────────────────────

/// The classification every answer falls through to: 403 (an absent, unknown or
/// under-privileged token) halts; 429 and 5xx release.
pub open spec fn check_v(r: ResponseV) -> Option<FailureV> {
    if r.status == 403 {
        Some(FailureV::Halt(PayloadV::Text(r.text)))
    } else if r.status == 429 || r.status >= 500 {
        Some(FailureV::Release(PayloadV::Text(r.text)))
    } else {
        None
    }
}

fn check(r: &Response) -> (f: Option<Failure>)
    ensures
        match f {
            Some(x) => check_v(r@) == Some(x@),
            None => check_v(r@) is None,
        },
{
    if r.status == 403 {
        Some(Failure::Halt(Payload::Text(r.text.clone())))
    } else if r.status == 429 || r.status >= 500 {
        Some(Failure::Release(Payload::Text(r.text.clone())))
    } else {
        None
    }
}

/// `response.body.message` — what every documented 404 rejection quotes.
pub open spec fn message_v(r: ResponseV) -> JsonV {
    or_null(jget(body_v(r), "message"@))
}

fn message(r: &Response) -> (j: Json)
    ensures
        j@ == message_v(r@),
{
    match r.json().get("message") {
        Some(x) => x.copy(),
        None => Json::Null,
    }
}

/// A response field read as a string; absent or not a string reads as empty.
pub open spec fn string_v(o: Option<JsonV>) -> Seq<char> {
    match jstr(o) {
        Some(s) => s,
        None => Seq::empty(),
    }
}

fn string_of(o: Option<&Json>) -> (r: String)
    ensures
        r@ == string_v(match o {
            Some(x) => Some(x@),
            None => None,
        }),
{
    match o {
        Some(Json::Str(s)) => s.clone(),
        _ => String::new(),
    }
}

/// What a read answers: how its 2xx is resolved, and whether it documents a
/// 404.
#[derive(PartialEq, Eq, Structural, Clone, Copy)]
pub enum ReadKind {
    /// The response text; a 404 is `not_found`.
    Plain,
    /// The response text; no documented 404.
    Unfound,
    /// An empty object; a 404 is `not_found`.
    Deleted,
    /// The single job of a one-element array, or null; a 404 is `not_found`.
    FirstJob,
}

/// The first element of an array; null for anything else.
pub open spec fn first_v(j: JsonV) -> JsonV {
    match j {
        JsonV::Array(a) => if a.len() > 0 {
            a[0]
        } else {
            JsonV::Null
        },
        _ => JsonV::Null,
    }
}

/// The verdict of a read.
pub open spec fn read_outcome_v(r: ResponseV, k: ReadKind) -> VerdictV {
    match check_v(r) {
        Some(f) => fail_v(f),
        None => if r.status == 404 && k != ReadKind::Unfound {
            reject_v("not_found"@, Some(message_v(r)))
        } else if r.status >= 400 {
            reject_v("invalid_request"@, Some(JsonV::Str(r.text)))
        } else {
            match k {
                ReadKind::Deleted => VerdictV::Resolve(PayloadV::Doc(JsonV::Object(Seq::empty()))),
                ReadKind::FirstJob => VerdictV::Resolve(PayloadV::Doc(first_v(body_v(r)))),
                _ => VerdictV::Resolve(PayloadV::Text(r.text)),
            }
        },
    }
}

fn read_outcome(r: &Response, k: ReadKind) -> (v: Verdict)
    ensures
        v@ == read_outcome_v(r@, k),
{
    match check(r) {
        Some(f) => f.into_verdict(),
        None => if r.status == 404 && k != ReadKind::Unfound {
            reject("not_found", Some(message(r)))
        } else if r.status >= 400 {
            reject("invalid_request", Some(Json::Str(r.text.clone())))
        } else {
            match k {
                ReadKind::Deleted => Verdict::Resolve(Payload::Doc(empty_object())),
                ReadKind::FirstJob => {
                    let j = match r.json() {
                        Json::Array(a) => if a.len() > 0 {
                            a[0].copy()
                        } else {
                            Json::Null
                        },
                        _ => Json::Null,
                    };
                    Verdict::Resolve(Payload::Doc(j))
                },
                _ => Verdict::Resolve(Payload::Text(r.text.clone())),
            }
        },
    }
}

// ─── Requests ───────────────────────────────────────────────────────────────

/// The API root.
pub open spec fn api_v(c: ConfigV) -> Seq<char> {
    c.base_url + "/api/59"@
}

fn api(cfg: &Config) -> (r: String)
    ensures
        r@ == api_v(cfg@),
{
    cat(cfg.base_url.as_str(), "/api/59")
}

/// A request with the token every call presents.
pub open spec fn authed_v(c: ConfigV, m: Method, u: Seq<PieceV>) -> RequestV {
    with_header_v(req_v(m, u), "X-Rundeck-Auth-Token"@, c.api_token)
}

fn authed(cfg: &Config, m: Method, u: Vec<Piece>) -> (r: Request)
    ensures
        r@ == authed_v(cfg@, m, pieces_v(u@)),
{
    request(m, u).header("X-Rundeck-Auth-Token", cfg.api_token.as_str())
}

/// The same, asking for JSON where the endpoint answers XML by default.
pub open spec fn authed_json_v(c: ConfigV, m: Method, u: Seq<PieceV>) -> RequestV {
    with_header_v(authed_v(c, m, u), "Accept"@, "application/json"@)
}

fn authed_json(cfg: &Config, m: Method, u: Vec<Piece>) -> (r: Request)
    ensures
        r@ == authed_json_v(cfg@, m, pieces_v(u@)),
{
    authed(cfg, m, u).header("Accept", "application/json")
}

/// `/job/{id}/info`: the cheapest read that names a job's project.
pub open spec fn info_request_v(c: ConfigV, job: Seq<char>) -> RequestV {
    authed_json_v(c, Method::Get, url_v(api_v(c) + "/job/"@ + job + "/info"@))
}

fn info_request(cfg: &Config, job: &str) -> (r: Request)
    ensures
        r@ == info_request_v(cfg@, job@),
{
    authed_json(cfg, Method::Get, url(cat3(api(cfg).as_str(), "/job/", job).concat("/info")))
}

/// `/execution/{id}` for an id already quoted.
pub open spec fn execution_request_v(c: ConfigV, id: Seq<char>) -> RequestV {
    authed_v(c, Method::Get, url_v(api_v(c) + "/execution/"@ + id))
}

fn execution_request(cfg: &Config, id: &str) -> (r: Request)
    ensures
        r@ == execution_request_v(cfg@, id@),
{
    authed(cfg, Method::Get, url(cat3(api(cfg).as_str(), "/execution/", id)))
}

/// The correlation option every execution this plugin creates is stamped with.
pub open spec fn corr() -> Seq<char> {
    "rescorr"@
}

/// `_find`: the executions of the project that carry this promise's stamp.
pub open spec fn find_request_v(c: ConfigV, project: Seq<char>, token: Seq<char>) -> RequestV {
    with_query_v(
        authed_v(c, Method::Get, url_v(api_v(c) + "/project/"@ + q(project) + "/executions"@)),
        seq![("optionFilter"@, ParamV::Text("-rescorr "@ + token)), ("max"@, ParamV::Text("20"@))],
    )
}

fn find_request(cfg: &Config, project: &str, token: &str) -> (r: Request)
    ensures
        r@ == find_request_v(cfg@, project@, token@),
{
    let u = cat3(api(cfg).as_str(), "/project/", quote(project).as_str()).concat("/executions");
    let mut params: Vec<(String, Param)> = Vec::new();
    params.push(qtext("optionFilter", cat("-rescorr ", token)));
    params.push(qtext("max", text("20")));
    assert(query_v(params@) =~= seq![
        ("optionFilter"@, ParamV::Text("-rescorr "@ + token@)),
        ("max"@, ParamV::Text("20"@)),
    ]);
    authed(cfg, Method::Get, url(u)).query(params)
}

/// The stamp an execution carries, where it carries one.
pub open spec fn stamp_of(e: JsonV) -> Option<Seq<char>> {
    jstr(jget(or_null(jget(or_null(jget(e, "job"@)), "options"@)), corr()))
}

pub open spec fn found_from(es: Seq<JsonV>, token: Seq<char>, i: int) -> Option<JsonV>
    decreases es.len() - i,
{
    if i < 0 || i >= es.len() {
        None
    } else if stamp_of(es[i]) == Some(token) {
        Some(es[i])
    } else {
        found_from(es, token, i + 1)
    }
}

/// The execution the answer to `_find` names: optionFilter is a partial
/// match over the option values, so the stamp is confirmed exactly. An answer
/// of 4xx finds nothing.
pub open spec fn found_v(r: ResponseV, token: Seq<char>) -> Option<JsonV> {
    if r.status >= 400 {
        None
    } else {
        match jget(body_v(r), "executions"@) {
            Some(JsonV::Array(es)) => found_from(es, token, 0),
            _ => None,
        }
    }
}

fn stamp_of_exec(e: &Json) -> (r: Option<String>)
    ensures
        match r {
            Some(s) => stamp_of(e@) == Some(s@),
            None => stamp_of(e@) is None,
        },
{
    match e.get("job") {
        Some(j) => match j.get("options") {
            Some(o) => match o.get_str("rescorr") {
                Some(s) => Some(s.clone()),
                None => None,
            },
            None => None,
        },
        None => None,
    }
}

fn found(r: &Response, token: &str) -> (o: Option<Json>)
    ensures
        match o {
            Some(e) => found_v(r@, token@) == Some(e@),
            None => found_v(r@, token@) is None,
        },
{
    if r.status >= 400 {
        return None;
    }
    let body = r.json();
    match body.get("executions") {
        Some(Json::Array(es)) => {
            let ghost ev = Seq::new(es.len() as nat, |i: int| jv(es[i]));
            assert(jget(body@, "executions"@) == Some(JsonV::Array(ev))) by {
                crate::json::lemma_jv_array(*es);
                assert(ev =~= crate::json::elems_v(es@));
            }
            let mut i: usize = 0;
            while i < es.len()
                invariant
                    i <= es.len(),
                    r@.status < 400,
                    body@ == body_v(r@),
                    jget(body@, "executions"@) == Some(JsonV::Array(ev)),
                    ev.len() == es.len(),
                    forall|j: int| 0 <= j < es.len() ==> ev[j] == jv(#[trigger] es[j]),
                    found_from(ev, token@, 0) == found_from(ev, token@, i as int),
                decreases es.len() - i,
            {
                match stamp_of_exec(&es[i]) {
                    Some(s) => if str_eq(s.as_str(), token) {
                        assert(found_from(ev, token@, i as int) == Some(ev[i as int]));
                        return Some(es[i].copy());
                    },
                    None => {},
                }
                i = i + 1;
            }
            None
        },
        _ => None,
    }
}

/// `_stamp`: the run body, carrying this promise's correlation stamp. An
/// options map makes Rundeck ignore argString, so the stamp joins the map;
/// otherwise it is appended to the argString.
pub open spec fn stamp_v(args: JsonV, token: Seq<char>) -> JsonV {
    let base = pick_present_v(args, run_keys());
    match jget(args, "options"@) {
        Some(o) => if o is Null {
            JsonV::Object(put(base, "argString"@, JsonV::Str(arg_string_v(args, token))))
        } else {
            JsonV::Object(
                put(
                    base,
                    "options"@,
                    JsonV::Object(put(crate::json::members(o), corr(), JsonV::Str(token))),
                ),
            )
        },
        None => JsonV::Object(put(base, "argString"@, JsonV::Str(arg_string_v(args, token)))),
    }
}

/// `f"{argString} -rescorr {token}".strip()`.
pub open spec fn arg_string_v(args: JsonV, token: Seq<char>) -> Seq<char> {
    trim_v(string_v(jget(args, "argString"@)) + " -rescorr "@ + token)
}

/// The keys a run forwards from its args.
pub open spec fn run_keys() -> Seq<Seq<char>> {
    seq!["loglevel"@, "asUser"@, "filter"@, "runAtTime"@]
}

fn stamp(args: &Json, token: &str) -> (r: Json)
    ensures
        r@ == stamp_v(args@, token@),
{
    let ks = ["loglevel", "asUser", "filter", "runAtTime"];
    assert(names(ks@) =~= run_keys());
    let mut body = members_of(&pick_present(args, &ks));
    match args.get("options") {
        Some(o) => if !o.is_null() {
            let mut opts = members_of(o);
            insert(&mut opts, "rescorr", jstr_of(token));
            proof {
                lemma_jv_object(opts);
            }
            insert(&mut body, "options", Json::Object(opts));
            proof {
                lemma_jv_object(body);
            }
            return Json::Object(body);
        },
        None => {},
    }
    let base = string_of(args.get("argString"));
    let s = trim(cat3(base.as_str(), " -rescorr ", token).as_str());
    insert(&mut body, "argString", Json::Str(s));
    proof {
        lemma_jv_object(body);
    }
    Json::Object(body)
}

/// The retry body: the forwarded keys, and options merged with the stamp
/// (an explicit value wins, so the stamp is always this promise's).
pub open spec fn retry_body_v(args: JsonV, token: Seq<char>) -> JsonV {
    let opts = match jget(args, "options"@) {
        Some(JsonV::Object(m)) => m,
        _ => Seq::empty(),
    };
    JsonV::Object(
        put(
            pick_present_v(args, seq!["failedNodes"@, "loglevel"@, "asUser"@]),
            "options"@,
            JsonV::Object(put(opts, corr(), JsonV::Str(token))),
        ),
    )
}

fn retry_body(args: &Json, token: &str) -> (r: Json)
    ensures
        r@ == retry_body_v(args@, token@),
{
    let ks = ["failedNodes", "loglevel", "asUser"];
    assert(names(ks@) =~= seq!["failedNodes"@, "loglevel"@, "asUser"@]);
    let mut body = members_of(&pick_present(args, &ks));
    let mut opts = match args.get("options") {
        Some(o) => members_of(o),
        None => Vec::new(),
    };
    assert(members_v(opts@) =~= (match jget(args@, "options"@) {
        Some(JsonV::Object(m)) => m,
        _ => Seq::empty(),
    }));
    insert(&mut opts, "rescorr", jstr_of(token));
    proof {
        lemma_jv_object(opts);
    }
    insert(&mut body, "options", Json::Object(opts));
    proof {
        lemma_jv_object(body);
    }
    Json::Object(body)
}

/// A POST with a JSON body.
pub open spec fn post_json_v(c: ConfigV, u: Seq<char>, body: JsonV) -> RequestV {
    with_body_v(
        with_header_v(
            authed_v(c, Method::Post, url_v(u)),
            "Content-Type"@,
            "application/json"@,
        ),
        body,
    )
}

fn post_json(cfg: &Config, u: String, body: Json) -> (r: Request)
    ensures
        r@ == post_json_v(cfg@, u@, body@),
{
    authed(cfg, Method::Post, url(u)).header("Content-Type", "application/json").json(body)
}

// ─── Watching an execution ──────────────────────────────────────────────────

/// The statuses an execution never leaves.
pub open spec fn terminal(s: Seq<char>) -> bool {
    s == "succeeded"@ || s == "failed"@ || s == "failed-with-retry"@ || s == "aborted"@ || s
        == "timedout"@ || s == "other"@
}

fn terminal_exec(s: &str) -> (r: bool)
    ensures
        r == terminal(s@),
{
    str_eq(s, "succeeded") || str_eq(s, "failed") || str_eq(s, "failed-with-retry") || str_eq(
        s,
        "aborted",
    ) || str_eq(s, "timedout") || str_eq(s, "other")
}

/// The resolved mapping: the execution record's keys, projected.
pub open spec fn result_keys() -> Seq<Seq<char>> {
    seq![
        "id"@,
        "href"@,
        "permalink"@,
        "status"@,
        "customStatus"@,
        "project"@,
        "executionType"@,
        "user"@,
        "date-started"@,
        "date-ended"@,
        "job"@,
        "description"@,
        "argstring"@,
        "successfulNodes"@,
        "failedNodes"@,
        "retriedExecution"@,
    ]
}

fn result(e: &Json) -> (r: Json)
    ensures
        r@ == pick_v(e@, result_keys()),
{
    let ks = [
        "id",
        "href",
        "permalink",
        "status",
        "customStatus",
        "project",
        "executionType",
        "user",
        "date-started",
        "date-ended",
        "job",
        "description",
        "argstring",
        "successfulNodes",
        "failedNodes",
        "retriedExecution",
    ];
    assert(names(ks@) =~= result_keys());
    pick(e, &ks)
}

/// `_settle`: the verdict a terminal execution carries.
pub open spec fn settle_v(e: JsonV) -> VerdictV {
    let status = string_v(jget(e, "status"@));
    if status == "succeeded"@ {
        VerdictV::Resolve(PayloadV::Doc(pick_v(e, result_keys())))
    } else if status == "failed"@ {
        reject_v("execution_failed"@, Some(e))
    } else if status == "failed-with-retry"@ {
        // This execution is over; the retry Rundeck started is another one.
        reject_v("execution_failed_with_retry"@, Some(e))
    } else if status == "aborted"@ {
        reject_v("execution_aborted"@, Some(e))
    } else if status == "timedout"@ {
        reject_v("execution_timedout"@, Some(e))
    } else {
        // "other": a custom exit status, its string in customStatus.
        reject_v("execution_other"@, Some(e))
    }
}

fn settle(e: Json) -> (v: Verdict)
    ensures
        v@ == settle_v(e@),
{
    let status = string_of(e.get("status"));
    if str_eq(status.as_str(), "succeeded") {
        Verdict::Resolve(Payload::Doc(result(&e)))
    } else if str_eq(status.as_str(), "failed") {
        reject("execution_failed", Some(e))
    } else if str_eq(status.as_str(), "failed-with-retry") {
        reject("execution_failed_with_retry", Some(e))
    } else if str_eq(status.as_str(), "aborted") {
        reject("execution_aborted", Some(e))
    } else if str_eq(status.as_str(), "timedout") {
        reject("execution_timedout", Some(e))
    } else {
        reject("execution_other", Some(e))
    }
}

/// What an execution is watched for.
pub struct Watch {
    /// The execution id, as the provider or the caller gave it.
    pub id: Json,
    /// The time between two polls, in milliseconds.
    pub cadence: u64,
    /// Whether the terminal execution resolves as its mapping (an abort),
    /// rather than settling by its status (a run or a retry).
    pub mapping: bool,
}

pub struct WatchV {
    pub id: JsonV,
    pub cadence: u64,
    pub mapping: bool,
}

impl View for Watch {
    type V = WatchV;

    open spec fn view(&self) -> WatchV {
        WatchV { id: jv(self.id), cadence: self.cadence, mapping: self.mapping }
    }
}

/// The poll of the watched execution: `/execution/{str(id)}`.
pub open spec fn watch_request_v(c: ConfigV, w: WatchV) -> RequestV {
    authed_v(c, Method::Get, url_seg_v(api_v(c) + "/execution/"@, segment_v(w.id), ""@))
}

fn watch_request(cfg: &Config, w: &Watch) -> (r: Request)
    ensures
        r@ == watch_request_v(cfg@, w@),
{
    authed(cfg, Method::Get, url_seg(cat(api(cfg).as_str(), "/execution/"), segment(&w.id), ""))
}

// ─── The machine ────────────────────────────────────────────────────────────

/// Which job operation a context serves.
#[derive(PartialEq, Eq, Structural, Clone, Copy)]
pub enum JobKind {
    Run,
    Submit,
    Retry,
}

/// What a job operation carries from step to step.
pub struct Job {
    pub kind: JobKind,
    /// The job id, quoted.
    pub job: String,
    /// The promise's injected identity.
    pub token: String,
    /// The run or retry body.
    pub body: Json,
    /// The prior execution's id, quoted (a retry only).
    pub prior: String,
}

pub struct JobV {
    pub kind: JobKind,
    pub job: Seq<char>,
    pub token: Seq<char>,
    pub body: JsonV,
    pub prior: Seq<char>,
}

impl View for Job {
    type V = JobV;

    open spec fn view(&self) -> JobV {
        JobV {
            kind: self.kind,
            job: self.job@,
            token: self.token@,
            body: jv(self.body),
            prior: self.prior@,
        }
    }
}

/// Where a delivery stands.
pub enum Stage {
    Done,
    /// A read is out.
    Read { kind: ReadKind },
    /// job.run or job.submit: the job's info (its project) is being read.
    Info { j: Job },
    /// job.retry: the prior execution (its project) is being read.
    Prior { j: Job },
    /// The search for an execution this promise already created is out.
    Finding { j: Job },
    /// job.run or job.submit: the run is out.
    Running { j: Job },
    /// job.retry: the retry is out.
    Retrying { j: Job },
    /// job.retry: after a 404, the job is re-read, with the 404's message.
    RetryJob { j: Job, detail: Json },
    /// job.retry: then the prior execution is re-read.
    RetryExec { j: Job, detail: Json },
    /// execution.abort: the abort is out; `raw` is the id as given.
    Aborting { raw: String },
    /// A poll of a watched execution is out.
    Watching { w: Watch },
    /// Sleeping between two polls.
    Sleeping { w: Watch },
}

pub enum StageV {
    Done,
    Read { kind: ReadKind },
    Info { j: JobV },
    Prior { j: JobV },
    Finding { j: JobV },
    Running { j: JobV },
    Retrying { j: JobV },
    RetryJob { j: JobV, detail: JsonV },
    RetryExec { j: JobV, detail: JsonV },
    Aborting { raw: Seq<char> },
    Watching { w: WatchV },
    Sleeping { w: WatchV },
}

impl View for Stage {
    type V = StageV;

    open spec fn view(&self) -> StageV {
        match self {
            Stage::Done => StageV::Done,
            Stage::Read { kind } => StageV::Read { kind: *kind },
            Stage::Info { j } => StageV::Info { j: j@ },
            Stage::Prior { j } => StageV::Prior { j: j@ },
            Stage::Finding { j } => StageV::Finding { j: j@ },
            Stage::Running { j } => StageV::Running { j: j@ },
            Stage::Retrying { j } => StageV::Retrying { j: j@ },
            Stage::RetryJob { j, detail } => StageV::RetryJob { j: j@, detail: jv(*detail) },
            Stage::RetryExec { j, detail } => StageV::RetryExec { j: j@, detail: jv(*detail) },
            Stage::Aborting { raw } => StageV::Aborting { raw: raw@ },
            Stage::Watching { w } => StageV::Watching { w: w@ },
            Stage::Sleeping { w } => StageV::Sleeping { w: w@ },
        }
    }
}

pub open spec fn finish(v: VerdictV) -> (StageV, ActionV) {
    (StageV::Done, ActionV::Finish(v))
}

pub open spec fn invalid(e: Seq<char>) -> (StageV, ActionV) {
    finish(reject_v("invalid_request"@, Some(JsonV::Str(e))))
}

pub open spec fn read(k: ReadKind, req: RequestV) -> (StageV, ActionV) {
    (StageV::Read { kind: k }, ActionV::Send(req))
}

/// The id message of an execution id argument.
pub open spec fn id_what() -> Seq<char> {
    "a string or an integer"@
}

pub open spec fn list_keys_running() -> Seq<Seq<char>> {
    seq!["jobIdFilter"@, "includePostponed"@, "max"@, "offset"@]
}

pub open spec fn list_keys() -> Seq<Seq<char>> {
    seq![
        "statusFilter"@,
        "jobIdListFilter"@,
        "excludeJobIdListFilter"@,
        "jobListFilter"@,
        "excludeJobListFilter"@,
        "groupPath"@,
        "groupPathExact"@,
        "excludeGroupPath"@,
        "excludeGroupPathExact"@,
        "jobFilter"@,
        "excludeJobFilter"@,
        "jobExactFilter"@,
        "excludeJobExactFilter"@,
        "userFilter"@,
        "abortedbyFilter"@,
        "executionTypeFilter"@,
        "optionFilter"@,
        "recentFilter"@,
        "olderFilter"@,
        "begin"@,
        "end"@,
        "adhoc"@,
        "max"@,
        "offset"@,
    ]
}

pub open spec fn output_keys() -> Seq<Seq<char>> {
    seq!["nodename"@, "stepctx"@, "offset"@, "lastlines"@, "maxlines"@, "lastmod"@, "compacted"@]
}

pub open spec fn job_list_keys() -> Seq<Seq<char>> {
    seq![
        "idlist"@,
        "groupPath"@,
        "groupPathExact"@,
        "jobFilter"@,
        "jobExactFilter"@,
        "scheduledFilter"@,
        "serverNodeUUIDFilter"@,
        "tags"@,
        "max"@,
        "offset"@,
    ]
}

/// `execution.list`: "*" is a project name only on the running list.
pub open spec fn list_request_v(c: ConfigV, raw: Seq<char>, args: JsonV) -> RequestV {
    if raw == "*"@ {
        with_query_v(
            authed_v(c, Method::Get, url_v(api_v(c) + "/project/*/executions/running"@)),
            keyed_v(args, list_keys_running()),
        )
    } else {
        with_query_v(
            authed_v(c, Method::Get, url_v(api_v(c) + "/project/"@ + q(raw) + "/executions"@)),
            keyed_v(args, list_keys()),
        )
    }
}

/// The first step of a delivery.
pub open spec fn start_v(c: ConfigV, p: PromiseV, parsed: Result<JsonV, Seq<char>>) -> (StageV, ActionV) {
    let api = api_v(c);
    let token = sanitize_v(p.id);
    match read_param_v(parsed) {
        Err(v) => finish(v),
        Ok((name, args)) => match func_of(name) {
            None => finish(reject_v("unknown_func"@, Some(JsonV::Str(name)))),
            Some(f) => match f {
                Func::JobRun | Func::JobSubmit => match arg_str_v(args, "id"@) {
                    Err(e) => invalid(e),
                    Ok(id) => {
                        let j = JobV {
                            kind: if f == Func::JobRun {
                                JobKind::Run
                            } else {
                                JobKind::Submit
                            },
                            job: q(id),
                            token,
                            body: stamp_v(args, token),
                            prior: Seq::empty(),
                        };
                        (StageV::Info { j }, ActionV::Send(info_request_v(c, j.job)))
                    },
                },
                Func::JobRetry => match arg_str_v(args, "id"@) {
                    Err(e) => invalid(e),
                    Ok(id) => match arg_id_v(args, "executionId"@, id_what()) {
                        Err(e) => invalid(e),
                        Ok(prior) => {
                            let j = JobV {
                                kind: JobKind::Retry,
                                job: q(id),
                                token,
                                body: retry_body_v(args, token),
                                prior: q(prior),
                            };
                            (StageV::Prior { j }, ActionV::Send(execution_request_v(c, j.prior)))
                        },
                    },
                },
                Func::ExecutionGet => match arg_id_v(args, "id"@, id_what()) {
                    Err(e) => invalid(e),
                    Ok(id) => read(ReadKind::Plain, execution_request_v(c, q(id))),
                },
                Func::ExecutionList => match arg_str_v(args, "project"@) {
                    Err(e) => invalid(e),
                    Ok(raw) => read(ReadKind::Plain, list_request_v(c, raw, args)),
                },
                Func::ExecutionOutput => match arg_id_v(args, "id"@, id_what()) {
                    Err(e) => invalid(e),
                    Ok(id) => read(
                        ReadKind::Plain,
                        with_query_v(
                            authed_json_v(
                                c,
                                Method::Get,
                                url_v(api + "/execution/"@ + q(id) + "/output"@),
                            ),
                            keyed_v(args, output_keys()),
                        ),
                    ),
                },
                Func::ExecutionState => match arg_id_v(args, "id"@, id_what()) {
                    Err(e) => invalid(e),
                    Ok(id) => read(
                        ReadKind::Plain,
                        authed_json_v(c, Method::Get, url_v(api + "/execution/"@ + q(id) + "/state"@)),
                    ),
                },
                Func::ExecutionAbort => match arg_id_v(args, "id"@, id_what()) {
                    Err(e) => invalid(e),
                    Ok(raw) => (
                        StageV::Aborting { raw },
                        ActionV::Send(
                            with_query_v(
                                authed_v(
                                    c,
                                    Method::Post,
                                    url_v(api + "/execution/"@ + q(raw) + "/abort"@),
                                ),
                                keyed_v(args, seq!["asUser"@, "forceIncomplete"@]),
                            ),
                        ),
                    ),
                },
                Func::ExecutionDelete => match arg_id_v(args, "id"@, id_what()) {
                    Err(e) => invalid(e),
                    Ok(id) => read(
                        ReadKind::Deleted,
                        authed_v(c, Method::Delete, url_v(api + "/execution/"@ + q(id))),
                    ),
                },
                Func::JobGet => match arg_str_v(args, "id"@) {
                    Err(e) => invalid(e),
                    Ok(id) => read(
                        ReadKind::FirstJob,
                        with_query_v(
                            authed_json_v(c, Method::Get, url_v(api + "/job/"@ + q(id))),
                            seq![("format"@, ParamV::Text("json"@))],
                        ),
                    ),
                },
                Func::JobList => match arg_str_v(args, "project"@) {
                    Err(e) => invalid(e),
                    Ok(pr) => read(
                        ReadKind::Plain,
                        with_query_v(
                            authed_v(c, Method::Get, url_v(api + "/project/"@ + q(pr) + "/jobs"@)),
                            keyed_v(args, job_list_keys()),
                        ),
                    ),
                },
                Func::ProjectList => read(
                    ReadKind::Unfound,
                    with_query_v(
                        authed_v(c, Method::Get, url_v(api + "/projects"@)),
                        keyed_v(args, seq!["meta"@]),
                    ),
                ),
            },
        },
    }
}

/// The head of the poll loop: stop at the deadline, else read the execution.
pub open spec fn watch_head_v(c: ConfigV, p: PromiseV, w: WatchV, now: i64) -> (StageV, ActionV) {
    if now >= p.timeout_at {
        finish(release_v("promise timed out"@))
    } else {
        (StageV::Watching { w }, ActionV::Send(watch_request_v(c, w)))
    }
}

/// The cadence a job operation polls at.
pub open spec fn cadence_v(c: ConfigV, k: JobKind) -> u64 {
    if k == JobKind::Retry {
        or_poll(c.poll_job_retry, c.poll)
    } else {
        or_poll(c.poll_job_run, c.poll)
    }
}

/// Watching the execution a job operation created or found.
pub open spec fn watch_job_v(c: ConfigV, p: PromiseV, j: JobV, e: JsonV, now: i64) -> (StageV, ActionV) {
    watch_head_v(
        c,
        p,
        WatchV { id: or_null(jget(e, "id"@)), cadence: cadence_v(c, j.kind), mapping: false },
        now,
    )
}

/// The answer to a poll of the watched execution.
pub open spec fn watched_v(c: ConfigV, p: PromiseV, w: WatchV, r: ResponseV, now: i64) -> (
    StageV,
    ActionV,
) {
    match check_v(r) {
        Some(f) => finish(fail_v(f)),
        None => if r.status == 404 {
            // Deleted out from under the poll.
            finish(
                reject_v(
                    if w.mapping {
                        "deleted"@
                    } else {
                        "execution_deleted"@
                    },
                    None,
                ),
            )
        } else if r.status >= 400 {
            finish(release_v(r.text))
        } else {
            let e = body_v(r);
            if terminal(string_v(jget(e, "status"@))) {
                if w.mapping {
                    finish(VerdictV::Resolve(PayloadV::Doc(pick_v(e, result_keys()))))
                } else {
                    finish(settle_v(e))
                }
            } else {
                // "scheduled" is not terminal and holds until runAtTime.
                (StageV::Sleeping { w }, ActionV::Sleep(nap_v(w.cadence, p.timeout_at, now)))
            }
        },
    }
}

/// The project a read answer names, or the rejection of the read.
pub open spec fn project_or_v(r: ResponseV, missing: Seq<char>) -> Result<Seq<char>, VerdictV> {
    match check_v(r) {
        Some(f) => Err(fail_v(f)),
        None => if r.status == 404 {
            Err(reject_v(missing, Some(message_v(r))))
        } else if r.status >= 400 {
            Err(reject_v("invalid_request"@, Some(JsonV::Str(r.text))))
        } else {
            Ok(string_v(jget(body_v(r), "project"@)))
        },
    }
}

/// The answer to a run or a retry that created an execution.
pub open spec fn created_v(c: ConfigV, p: PromiseV, j: JobV, r: ResponseV, now: i64) -> (
    StageV,
    ActionV,
) {
    if j.kind == JobKind::Submit {
        finish(VerdictV::Resolve(PayloadV::Text(r.text)))
    } else {
        watch_job_v(c, p, j, body_v(r), now)
    }
}

/// The abort's answer: a refused abort of a running execution rejects;
/// otherwise the execution is watched to its end. On an execution that has
/// already stopped, Rundeck answers status "failed" with its terminal status.
pub open spec fn aborted_v(c: ConfigV, p: PromiseV, raw: Seq<char>, r: ResponseV, now: i64) -> (
    StageV,
    ActionV,
) {
    match check_v(r) {
        Some(f) => finish(fail_v(f)),
        None => if r.status == 404 {
            finish(reject_v("not_found"@, Some(message_v(r))))
        } else if r.status >= 400 {
            finish(reject_v("invalid_request"@, Some(JsonV::Str(r.text))))
        } else {
            let body = body_v(r);
            let abort = jget(body, "abort"@);
            let abort_status = string_v(jget(or_null(abort), "status"@));
            let exec_status = string_v(jget(or_null(jget(body, "execution"@)), "status"@));
            if abort_status == "failed"@ && !terminal(exec_status) {
                finish(reject_v("abort_failed"@, Some(or_null(jget(or_null(abort), "reason"@)))))
            } else {
                watch_head_v(
                    c,
                    p,
                    WatchV {
                        id: JsonV::Str(raw),
                        cadence: or_poll(c.poll_execution_abort, c.poll),
                        mapping: true,
                    },
                    now,
                )
            }
        },
    }
}

/// One step: the stage and what just happened give the next stage and action.
pub open spec fn next_v(c: ConfigV, p: PromiseV, s: StageV, e: EventV, now: i64) -> (StageV, ActionV) {
    let api = api_v(c);
    match e {
        EventV::Lost(msg, _) => finish(release_v(msg)),
        EventV::Woke => match s {
            StageV::Sleeping { w } => watch_head_v(c, p, w, now),
            _ => finish(release_v(Seq::empty())),
        },
        EventV::Reply(r) => match s {
            StageV::Read { kind } => finish(read_outcome_v(r, kind)),
            StageV::Info { j } => match project_or_v(r, "job_not_found"@) {
                Err(v) => finish(v),
                Ok(project) => (
                    StageV::Finding { j },
                    ActionV::Send(find_request_v(c, project, j.token)),
                ),
            },
            StageV::Prior { j } => match project_or_v(r, "execution_not_found"@) {
                Err(v) => finish(v),
                Ok(project) => (
                    StageV::Finding { j },
                    ActionV::Send(find_request_v(c, project, j.token)),
                ),
            },
            StageV::Finding { j } => match check_v(r) {
                Some(f) => finish(fail_v(f)),
                None => match found_v(r, j.token) {
                    Some(found) => if j.kind == JobKind::Submit {
                        finish(VerdictV::Resolve(PayloadV::Doc(found)))
                    } else {
                        watch_job_v(c, p, j, found, now)
                    },
                    None => if j.kind == JobKind::Retry {
                        (
                            StageV::Retrying { j },
                            ActionV::Send(
                                post_json_v(c, api + "/job/"@ + j.job + "/retry/"@ + j.prior, j.body),
                            ),
                        )
                    } else {
                        (
                            StageV::Running { j },
                            ActionV::Send(post_json_v(c, api + "/job/"@ + j.job + "/run"@, j.body)),
                        )
                    },
                },
            },
            StageV::Running { j } => match check_v(r) {
                Some(f) => finish(fail_v(f)),
                None => if r.status == 409 {
                    // The job's own limit on concurrent executions: it clears
                    // when the execution now running ends.
                    finish(release_v(r.text))
                } else if r.status == 404 {
                    finish(reject_v("job_not_found"@, Some(message_v(r))))
                } else if r.status >= 400 {
                    finish(reject_v("invalid_request"@, Some(JsonV::Str(r.text))))
                } else {
                    created_v(c, p, j, r, now)
                },
            },
            StageV::Retrying { j } => match check_v(r) {
                Some(f) => finish(fail_v(f)),
                None => if r.status == 409 {
                    finish(release_v(r.text))
                } else if r.status == 404 {
                    // One status, three causes: both ids are re-read.
                    (
                        StageV::RetryJob { j, detail: message_v(r) },
                        ActionV::Send(info_request_v(c, j.job)),
                    )
                } else if r.status >= 400 {
                    finish(reject_v("invalid_request"@, Some(JsonV::Str(r.text))))
                } else {
                    created_v(c, p, j, r, now)
                },
            },
            StageV::RetryJob { j, detail } => match check_v(r) {
                Some(f) => finish(fail_v(f)),
                None => if r.status == 404 {
                    finish(reject_v("job_not_found"@, Some(detail)))
                } else {
                    (
                        StageV::RetryExec { j, detail },
                        ActionV::Send(execution_request_v(c, j.prior)),
                    )
                },
            },
            StageV::RetryExec { j, detail } => match check_v(r) {
                Some(f) => finish(fail_v(f)),
                None => if r.status == 404 {
                    finish(reject_v("execution_not_found"@, Some(detail)))
                } else {
                    finish(reject_v("execution_not_retryable"@, Some(detail)))
                },
            },
            StageV::Aborting { raw } => aborted_v(c, p, raw, r, now),
            StageV::Watching { w } => watched_v(c, p, w, r, now),
            _ => finish(release_v(Seq::empty())),
        },
    }
}

fn done(v: Verdict) -> (r: (Stage, Action))
    ensures
        (r.0@, r.1@) == finish(v@),
{
    (Stage::Done, Action::Finish(v))
}

fn invalid_exec(e: String) -> (r: (Stage, Action))
    ensures
        (r.0@, r.1@) == invalid(e@),
{
    done(reject("invalid_request", Some(Json::Str(e))))
}

fn watch_head(cfg: &Config, promise: &Promise, w: Watch, now: i64) -> (r: (Stage, Action))
    ensures
        (r.0@, r.1@) == watch_head_v(cfg@, promise@, w@, now),
{
    if now >= promise.timeout_at {
        done(Verdict::Release(Payload::Text(text("promise timed out"))))
    } else {
        let req = watch_request(cfg, &w);
        (Stage::Watching { w }, Action::Send(req))
    }
}

fn cadence(cfg: &Config, k: JobKind) -> (r: u64)
    ensures
        r == cadence_v(cfg@, k),
{
    if k == JobKind::Retry {
        cfg.poll_job_retry()
    } else {
        cfg.poll_job_run()
    }
}

fn watch_job(cfg: &Config, promise: &Promise, j: &Job, e: &Json, now: i64) -> (r: (Stage, Action))
    ensures
        (r.0@, r.1@) == watch_job_v(cfg@, promise@, j@, e@, now),
{
    let id = match e.get("id") {
        Some(x) => x.copy(),
        None => Json::Null,
    };
    watch_head(cfg, promise, Watch { id, cadence: cadence(cfg, j.kind), mapping: false }, now)
}

fn watched(cfg: &Config, promise: &Promise, w: Watch, r: &Response, now: i64) -> (o: (
    Stage,
    Action,
))
    ensures
        (o.0@, o.1@) == watched_v(cfg@, promise@, w@, r@, now),
{
    match check(r) {
        Some(f) => done(f.into_verdict()),
        None => if r.status == 404 {
            done(
                reject(
                    if w.mapping {
                        "deleted"
                    } else {
                        "execution_deleted"
                    },
                    None,
                ),
            )
        } else if r.status >= 400 {
            done(Verdict::Release(Payload::Text(r.text.clone())))
        } else {
            let e = r.json();
            let status = string_of(e.get("status"));
            if terminal_exec(status.as_str()) {
                if w.mapping {
                    done(Verdict::Resolve(Payload::Doc(result(&e))))
                } else {
                    done(settle(e))
                }
            } else {
                let ms = nap(w.cadence, promise.timeout_at, now);
                (Stage::Sleeping { w }, Action::Sleep(ms))
            }
        },
    }
}

fn project_or(r: &Response, missing: &str) -> (o: Result<String, Verdict>)
    ensures
        match o {
            Ok(p) => project_or_v(r@, missing@) == Ok::<Seq<char>, VerdictV>(p@),
            Err(v) => project_or_v(r@, missing@) == Err::<Seq<char>, VerdictV>(v@),
        },
{
    match check(r) {
        Some(f) => Err(f.into_verdict()),
        None => if r.status == 404 {
            Err(reject(missing, Some(message(r))))
        } else if r.status >= 400 {
            Err(reject("invalid_request", Some(Json::Str(r.text.clone()))))
        } else {
            Ok(string_of(r.json().get("project")))
        },
    }
}

fn created(cfg: &Config, promise: &Promise, j: &Job, r: &Response, now: i64) -> (o: (
    Stage,
    Action,
))
    ensures
        (o.0@, o.1@) == created_v(cfg@, promise@, j@, r@, now),
{
    if j.kind == JobKind::Submit {
        done(Verdict::Resolve(Payload::Text(r.text.clone())))
    } else {
        watch_job(cfg, promise, j, &r.json(), now)
    }
}

fn aborted(cfg: &Config, promise: &Promise, raw: String, r: &Response, now: i64) -> (o: (
    Stage,
    Action,
))
    ensures
        (o.0@, o.1@) == aborted_v(cfg@, promise@, raw@, r@, now),
{
    match check(r) {
        Some(f) => done(f.into_verdict()),
        None => if r.status == 404 {
            done(reject("not_found", Some(message(r))))
        } else if r.status >= 400 {
            done(reject("invalid_request", Some(Json::Str(r.text.clone()))))
        } else {
            let body = r.json();
            let abort = match body.get("abort") {
                Some(a) => a.copy(),
                None => Json::Null,
            };
            let abort_status = string_of(abort.get("status"));
            let exec_status = match body.get("execution") {
                Some(x) => string_of(x.get("status")),
                None => String::new(),
            };
            if str_eq(abort_status.as_str(), "failed") && !terminal_exec(exec_status.as_str()) {
                let reason = match abort.get("reason") {
                    Some(x) => x.copy(),
                    None => Json::Null,
                };
                done(reject("abort_failed", Some(reason)))
            } else {
                let w = Watch {
                    id: Json::Str(raw),
                    cadence: cfg.poll_execution_abort(),
                    mapping: true,
                };
                watch_head(cfg, promise, w, now)
            }
        },
    }
}

fn read_exec(k: ReadKind, req: Request) -> (r: (Stage, Action))
    ensures
        (r.0@, r.1@) == read(k, req@),
{
    (Stage::Read { kind: k }, Action::Send(req))
}

/// One call per delivered task begins here.
pub fn begin(cfg: &Config, promise: &Promise, parsed: Result<Json, String>) -> (r: (Stage, Action))
    ensures
        (r.0@, r.1@) == start_v(cfg@, promise@, parsed_v(parsed)),
{
    let (name, args) = match read_param(parsed) {
        Err(v) => return done(v),
        Ok(x) => x,
    };
    let f = match func(name.as_str()) {
        None => return done(reject("unknown_func", Some(Json::Str(name)))),
        Some(f) => f,
    };
    let api = api(cfg);
    let token = sanitize(promise.id.as_str());
    match f {
        Func::JobRun | Func::JobSubmit => match arg_str(&args, "id") {
            Err(e) => invalid_exec(e),
            Ok(id) => {
                let j = Job {
                    kind: if f == Func::JobRun {
                        JobKind::Run
                    } else {
                        JobKind::Submit
                    },
                    job: quote(id.as_str()),
                    body: stamp(&args, token.as_str()),
                    token,
                    prior: String::new(),
                };
                let req = info_request(cfg, j.job.as_str());
                (Stage::Info { j }, Action::Send(req))
            },
        },
        Func::JobRetry => match arg_str(&args, "id") {
            Err(e) => invalid_exec(e),
            Ok(id) => match arg_id(&args, "executionId", "a string or an integer") {
                Err(e) => invalid_exec(e),
                Ok(prior) => {
                    let j = Job {
                        kind: JobKind::Retry,
                        job: quote(id.as_str()),
                        body: retry_body(&args, token.as_str()),
                        token,
                        prior: quote(prior.as_str()),
                    };
                    let req = execution_request(cfg, j.prior.as_str());
                    (Stage::Prior { j }, Action::Send(req))
                },
            },
        },
        Func::ExecutionGet => match arg_id(&args, "id", "a string or an integer") {
            Err(e) => invalid_exec(e),
            Ok(id) => read_exec(ReadKind::Plain, execution_request(cfg, quote(id.as_str()).as_str())),
        },
        Func::ExecutionList => match arg_str(&args, "project") {
            Err(e) => invalid_exec(e),
            Ok(raw) => {
                let req = if str_eq(raw.as_str(), "*") {
                    let ks = ["jobIdFilter", "includePostponed", "max", "offset"];
                    assert(names(ks@) =~= list_keys_running());
                    authed(
                        cfg,
                        Method::Get,
                        url(cat(api.as_str(), "/project/*/executions/running")),
                    ).query(keyed(&args, &ks))
                } else {
                    let ks = [
                        "statusFilter",
                        "jobIdListFilter",
                        "excludeJobIdListFilter",
                        "jobListFilter",
                        "excludeJobListFilter",
                        "groupPath",
                        "groupPathExact",
                        "excludeGroupPath",
                        "excludeGroupPathExact",
                        "jobFilter",
                        "excludeJobFilter",
                        "jobExactFilter",
                        "excludeJobExactFilter",
                        "userFilter",
                        "abortedbyFilter",
                        "executionTypeFilter",
                        "optionFilter",
                        "recentFilter",
                        "olderFilter",
                        "begin",
                        "end",
                        "adhoc",
                        "max",
                        "offset",
                    ];
                    assert(names(ks@) =~= list_keys());
                    let u = cat3(api.as_str(), "/project/", quote(raw.as_str()).as_str()).concat(
                        "/executions",
                    );
                    authed(cfg, Method::Get, url(u)).query(keyed(&args, &ks))
                };
                read_exec(ReadKind::Plain, req)
            },
        },
        Func::ExecutionOutput => match arg_id(&args, "id", "a string or an integer") {
            Err(e) => invalid_exec(e),
            Ok(id) => {
                let ks = [
                    "nodename",
                    "stepctx",
                    "offset",
                    "lastlines",
                    "maxlines",
                    "lastmod",
                    "compacted",
                ];
                assert(names(ks@) =~= output_keys());
                let u = cat3(api.as_str(), "/execution/", quote(id.as_str()).as_str()).concat(
                    "/output",
                );
                read_exec(
                    ReadKind::Plain,
                    authed_json(cfg, Method::Get, url(u)).query(keyed(&args, &ks)),
                )
            },
        },
        Func::ExecutionState => match arg_id(&args, "id", "a string or an integer") {
            Err(e) => invalid_exec(e),
            Ok(id) => {
                let u = cat3(api.as_str(), "/execution/", quote(id.as_str()).as_str()).concat(
                    "/state",
                );
                read_exec(ReadKind::Plain, authed_json(cfg, Method::Get, url(u)))
            },
        },
        Func::ExecutionAbort => match arg_id(&args, "id", "a string or an integer") {
            Err(e) => invalid_exec(e),
            Ok(raw) => {
                let ks = ["asUser", "forceIncomplete"];
                assert(names(ks@) =~= seq!["asUser"@, "forceIncomplete"@]);
                let u = cat3(api.as_str(), "/execution/", quote(raw.as_str()).as_str()).concat(
                    "/abort",
                );
                let req = authed(cfg, Method::Post, url(u)).query(keyed(&args, &ks));
                (Stage::Aborting { raw }, Action::Send(req))
            },
        },
        Func::ExecutionDelete => match arg_id(&args, "id", "a string or an integer") {
            Err(e) => invalid_exec(e),
            Ok(id) => {
                let u = cat3(api.as_str(), "/execution/", quote(id.as_str()).as_str());
                read_exec(ReadKind::Deleted, authed(cfg, Method::Delete, url(u)))
            },
        },
        Func::JobGet => match arg_str(&args, "id") {
            Err(e) => invalid_exec(e),
            Ok(id) => {
                let u = cat3(api.as_str(), "/job/", quote(id.as_str()).as_str());
                let mut params: Vec<(String, Param)> = Vec::new();
                params.push(qtext("format", text("json")));
                assert(query_v(params@) =~= seq![("format"@, ParamV::Text("json"@))]);
                read_exec(ReadKind::FirstJob, authed_json(cfg, Method::Get, url(u)).query(params))
            },
        },
        Func::JobList => match arg_str(&args, "project") {
            Err(e) => invalid_exec(e),
            Ok(pr) => {
                let ks = [
                    "idlist",
                    "groupPath",
                    "groupPathExact",
                    "jobFilter",
                    "jobExactFilter",
                    "scheduledFilter",
                    "serverNodeUUIDFilter",
                    "tags",
                    "max",
                    "offset",
                ];
                assert(names(ks@) =~= job_list_keys());
                let u = cat3(api.as_str(), "/project/", quote(pr.as_str()).as_str()).concat("/jobs");
                read_exec(ReadKind::Plain, authed(cfg, Method::Get, url(u)).query(keyed(&args, &ks)))
            },
        },
        Func::ProjectList => {
            let ks = ["meta"];
            assert(names(ks@) =~= seq!["meta"@]);
            read_exec(
                ReadKind::Unfound,
                authed(cfg, Method::Get, url(cat(api.as_str(), "/projects"))).query(
                    keyed(&args, &ks),
                ),
            )
        },
    }
}

/// One step of a delivery after its first. `now` is the time in
/// milliseconds since the epoch.
pub fn step(cfg: &Config, promise: &Promise, stage: Stage, event: Event, now: i64) -> (r: (
    Stage,
    Action,
))
    ensures
        (r.0@, r.1@) == next_v(cfg@, promise@, stage@, event@, now),
{
    let api = api(cfg);
    match event {
        Event::Lost(msg, _) => done(Verdict::Release(Payload::Text(msg))),
        Event::Woke => match stage {
            Stage::Sleeping { w } => watch_head(cfg, promise, w, now),
            _ => done(Verdict::Release(Payload::Text(String::new()))),
        },
        Event::Reply(r) => match stage {
            Stage::Read { kind } => done(read_outcome(&r, kind)),
            Stage::Info { j } => match project_or(&r, "job_not_found") {
                Err(v) => done(v),
                Ok(project) => {
                    let req = find_request(cfg, project.as_str(), j.token.as_str());
                    (Stage::Finding { j }, Action::Send(req))
                },
            },
            Stage::Prior { j } => match project_or(&r, "execution_not_found") {
                Err(v) => done(v),
                Ok(project) => {
                    let req = find_request(cfg, project.as_str(), j.token.as_str());
                    (Stage::Finding { j }, Action::Send(req))
                },
            },
            Stage::Finding { j } => match check(&r) {
                Some(f) => done(f.into_verdict()),
                None => match found(&r, j.token.as_str()) {
                    Some(e) => if j.kind == JobKind::Submit {
                        done(Verdict::Resolve(Payload::Doc(e)))
                    } else {
                        watch_job(cfg, promise, &j, &e, now)
                    },
                    None => if j.kind == JobKind::Retry {
                        let u = cat3(api.as_str(), "/job/", j.job.as_str()).concat("/retry/").concat(
                            j.prior.as_str(),
                        );
                        let req = post_json(cfg, u, j.body.copy());
                        (Stage::Retrying { j }, Action::Send(req))
                    } else {
                        let u = cat3(api.as_str(), "/job/", j.job.as_str()).concat("/run");
                        let req = post_json(cfg, u, j.body.copy());
                        (Stage::Running { j }, Action::Send(req))
                    },
                },
            },
            Stage::Running { j } => match check(&r) {
                Some(f) => done(f.into_verdict()),
                None => if r.status == 409 {
                    done(Verdict::Release(Payload::Text(r.text.clone())))
                } else if r.status == 404 {
                    done(reject("job_not_found", Some(message(&r))))
                } else if r.status >= 400 {
                    done(reject("invalid_request", Some(Json::Str(r.text.clone()))))
                } else {
                    created(cfg, promise, &j, &r, now)
                },
            },
            Stage::Retrying { j } => match check(&r) {
                Some(f) => done(f.into_verdict()),
                None => if r.status == 409 {
                    done(Verdict::Release(Payload::Text(r.text.clone())))
                } else if r.status == 404 {
                    let req = info_request(cfg, j.job.as_str());
                    (Stage::RetryJob { j, detail: message(&r) }, Action::Send(req))
                } else if r.status >= 400 {
                    done(reject("invalid_request", Some(Json::Str(r.text.clone()))))
                } else {
                    created(cfg, promise, &j, &r, now)
                },
            },
            Stage::RetryJob { j, detail } => match check(&r) {
                Some(f) => done(f.into_verdict()),
                None => if r.status == 404 {
                    done(reject("job_not_found", Some(detail)))
                } else {
                    let req = execution_request(cfg, j.prior.as_str());
                    (Stage::RetryExec { j, detail }, Action::Send(req))
                },
            },
            Stage::RetryExec { j, detail } => match check(&r) {
                Some(f) => done(f.into_verdict()),
                None => if r.status == 404 {
                    done(reject("execution_not_found", Some(detail)))
                } else {
                    done(reject("execution_not_retryable", Some(detail)))
                },
            },
            Stage::Aborting { raw } => aborted(cfg, promise, raw, &r, now),
            Stage::Watching { w } => watched(cfg, promise, w, &r, now),
            _ => done(Verdict::Release(Payload::Text(String::new()))),
        },
    }
}


// ─── Laws ───────────────────────────────────────────────────────────────────

/// A delivery never sleeps past its promise's deadline: a sleep asked for
/// before the deadline ends by it, and one asked for after it is empty. The
/// first step never sleeps.
pub proof fn lemma_sleep_within_deadline(c: ConfigV, p: PromiseV, parsed: Result<JsonV, Seq<char>>, s: StageV, e: EventV, now: i64)
    ensures
        !(start_v(c, p, parsed).1 is Sleep),
        next_v(c, p, s, e, now).1 matches ActionV::Sleep(ms) ==> (now < p.timeout_at ==> now + ms
            <= p.timeout_at) && (now >= p.timeout_at ==> ms == 0),
{
}

/// Credentials that stop working halt the delivery and wait for an
/// operator: an answer of 403 to any request ends it with a halt that
/// carries the answer's text.
pub proof fn lemma_credentials_halt(c: ConfigV, p: PromiseV, s: StageV, r: ResponseV, now: i64)
    requires
        r.status == 403,
        !(s is Done) && !(s is Sleeping),
    ensures
        next_v(c, p, s, EventV::Reply(r), now).1 == ActionV::Finish(VerdictV::Halt(PayloadV::Text(r.text))),
{
}

/// Every rejection the first step of a delivery ends with names its code.
#[verifier::rlimit(60)]
pub proof fn lemma_first_rejection_coded(c: ConfigV, p: PromiseV, parsed: Result<JsonV, Seq<char>>)
    ensures
        start_v(c, p, parsed).1 matches ActionV::Finish(v) ==> coded(v),
{
    match read_param_v(parsed) {
        Ok((name, args)) => match func_of(name) {
            Some(f) => {},
            None => {},
        },
        Err(v) => {},
    }
}

/// Every rejection a later step of a delivery ends with names its code.
#[verifier::rlimit(60)]
pub proof fn lemma_rejections_coded(c: ConfigV, p: PromiseV, s: StageV, e: EventV, now: i64)
    ensures
        next_v(c, p, s, e, now).1 matches ActionV::Finish(v) ==> coded(v),
{
    match e {
        EventV::Reply(r) => match s {
            StageV::Read { kind } => {},
            StageV::Info { j } => {},
            StageV::Prior { j } => {},
            StageV::Finding { j } => {},
            StageV::Running { j } => {},
            StageV::Retrying { j } => {},
            StageV::RetryJob { j, detail } => {},
            StageV::RetryExec { j, detail } => {},
            StageV::Aborting { raw } => {},
            StageV::Watching { w } => {},
            _ => {},
        },
        _ => {},
    }
}

/// An execution that an earlier delivery created is found again, never
/// created twice: a run or a retry is sent only once the search found no
/// execution stamped with this promise's identity; and where the search
/// finds one, none is sent: a submit resolves with it, a run or a retry
/// watches it.
pub proof fn lemma_run_only_when_none_found(c: ConfigV, p: PromiseV, s: StageV, e: EventV, now: i64)
    ensures
        (next_v(c, p, s, e, now).0 is Running || next_v(c, p, s, e, now).0 is Retrying) ==> (s matches StageV::Finding {
            j,
        } && e matches EventV::Reply(r) && found_v(r, j.token) is None),
        (match (s, e) {
            (StageV::Finding { j }, EventV::Reply(r)) => match found_v(r, j.token) {
                Some(f) => check_v(r) is None ==> {
                    let n = next_v(c, p, s, e, now);
                    &&& !(n.0 is Running)
                    &&& !(n.0 is Retrying)
                    &&& j.kind == JobKind::Submit ==> n == finish(
                        VerdictV::Resolve(PayloadV::Doc(f)),
                    )
                    &&& j.kind != JobKind::Submit ==> n == watch_job_v(c, p, j, f, now)
                    &&& (n.0 matches StageV::Watching { w } ==> w.id == or_null(jget(f, "id"@)))
                },
                None => true,
            },
            _ => true,
        }),
{
}

/// A redelivery of a promise begins as the first delivery did: the first
/// step depends on the promise only through its id.
pub proof fn lemma_redelivery_begins_alike(c: ConfigV, p1: PromiseV, p2: PromiseV, parsed: Result<JsonV, Seq<char>>)
    requires
        p1.id == p2.id,
    ensures
        start_v(c, p1, parsed) == start_v(c, p2, parsed),
{
}

/// A rate limit or an unavailable service settles nothing: an answer of
/// 429 or 503 to any request neither resolves nor rejects the promise.
pub proof fn lemma_busy_settles_nothing(c: ConfigV, p: PromiseV, s: StageV, r: ResponseV, now: i64)
    requires
        r.status == 429 || r.status == 503,
    ensures
        !(next_v(c, p, s, EventV::Reply(r), now).1 matches ActionV::Finish(v) && settles(v)),
{
}

/// A poll of the watched execution that finds it in one of the statuses an
/// execution never leaves (succeeded, failed, failed-with-retry, aborted,
/// timedout, other) ends the delivery; in any other status it sleeps until
/// the next poll. So an execution an operator aborted ends the watch: a run
/// or a retry rejects it with code "execution_aborted" and the record as the
/// detail, and an abort resolves.
pub proof fn lemma_watch_ends_at_terminal(c: ConfigV, p: PromiseV, w: WatchV, r: ResponseV, st: Seq<char>, now: i64)
    requires
        200 <= r.status < 300,
        jget(body_v(r), "status"@) == Some(JsonV::Str(st)),
    ensures
        ({
            let out = next_v(c, p, StageV::Watching { w }, EventV::Reply(r), now);
            let ends = st == "succeeded"@ || st == "failed"@ || st == "failed-with-retry"@ || st
                == "aborted"@ || st == "timedout"@ || st == "other"@;
            &&& ends ==> (out.0 is Done && out.1 is Finish)
            &&& !ends ==> (out.0 == StageV::Sleeping { w } && out.1 is Sleep)
            &&& (st == "aborted"@ && !w.mapping) ==> out.1 == ActionV::Finish(
                VerdictV::Reject(
                    JsonV::Object(
                        seq![
                            ("code"@, JsonV::Str("execution_aborted"@)),
                            ("detail"@, body_v(r)),
                        ],
                    ),
                ),
            )
            &&& (st == "aborted"@ && w.mapping) ==> (out.1 matches ActionV::Finish(v) && v is Resolve)
        }),
{
    reveal_strlit("succeeded");
    reveal_strlit("failed");
    reveal_strlit("failed-with-retry");
    reveal_strlit("aborted");
    reveal_strlit("timedout");
    reveal_strlit("other");
    reveal_strlit("status");
    let out = next_v(c, p, StageV::Watching { w }, EventV::Reply(r), now);
    let e = body_v(r);
    assert(string_v(jget(e, "status"@)) == st);
    let ends = st == "succeeded"@ || st == "failed"@ || st == "failed-with-retry"@ || st
        == "aborted"@ || st == "timedout"@ || st == "other"@;
    assert(ends == terminal(st));
    assert(ends ==> (out.0 is Done && out.1 is Finish));
    assert(!ends ==> (out.0 == StageV::Sleeping { w } && out.1 is Sleep));
    assert(st == "aborted"@ ==> settle_v(e) == reject_v("execution_aborted"@, Some(e)));
}

/// Whether execution `e` carries `token` as its job option "rescorr".
pub open spec fn carries(e: JsonV, token: Seq<char>) -> bool {
    jget(or_null(jget(or_null(jget(e, "job"@)), "options"@)), "rescorr"@) == Some(JsonV::Str(token))
}

/// The search from position `i` finds the first execution at or after `i`
/// that carries the stamp, wherever in the answer it stands.
proof fn lemma_search_finds(es: Seq<JsonV>, token: Seq<char>, i: int, k: int)
    requires
        0 <= i <= k < es.len(),
        stamp_of(es[k]) == Some(token),
    ensures
        found_from(es, token, i) matches Some(f) && exists|j: int|
            i <= j <= k && f == es[j] && stamp_of(es[j]) == Some(token) && forall|l: int|
                i <= l < j ==> stamp_of(#[trigger] es[l]) != Some(token),
    decreases k - i,
{
    if stamp_of(es[i]) == Some(token) {
        assert(found_from(es, token, i) == Some(es[i]));
    } else {
        lemma_search_finds(es, token, i + 1, k);
        let f = found_from(es, token, i + 1)->Some_0;
        let j = choose|j: int|
            i + 1 <= j <= k && f == es[j] && stamp_of(es[j]) == Some(token) && forall|l: int|
                i + 1 <= l < j ==> stamp_of(#[trigger] es[l]) != Some(token);
        assert(forall|l: int| i <= l < j ==> stamp_of(#[trigger] es[l]) != Some(token));
    }
}

/// An execution stamped with this promise's identity is found again
/// wherever it stands in the search's answer: where any execution carries
/// the token, no run or retry is sent; the first execution that carries it
/// is what a submit resolves with and what a run or a retry watches.
pub proof fn lemma_stamped_execution_found_anywhere(c: ConfigV, p: PromiseV, j: JobV, r: ResponseV, es: Seq<JsonV>, k: int, now: i64)
    requires
        200 <= r.status < 300,
        jget(body_v(r), "executions"@) == Some(JsonV::Array(es)),
        0 <= k < es.len(),
        carries(es[k], j.token),
    ensures
        exists|i: int|
            0 <= i <= k && carries(es[i], j.token) && (forall|l: int|
                0 <= l < i ==> !carries(#[trigger] es[l], j.token)) && ({
                let n = next_v(c, p, StageV::Finding { j }, EventV::Reply(r), now);
                &&& j.kind == JobKind::Submit ==> n == (
                    StageV::Done,
                    ActionV::Finish(VerdictV::Resolve(PayloadV::Doc(es[i]))),
                )
                &&& j.kind != JobKind::Submit ==> n == watch_job_v(c, p, j, es[i], now)
            }),
{
    assert forall|e: JsonV| #[trigger] carries(e, j.token) <==> stamp_of(e) == Some(j.token) by {
        reveal_strlit("rescorr");
    }
    assert(found_v(r, j.token) == found_from(es, j.token, 0));
    lemma_search_finds(es, j.token, 0, k);
}

/// A watched execution in a status it never leaves settles the promise.
/// For a run or a retry: "succeeded" resolves with the record's id, href,
/// permalink, status, customStatus, project, executionType, user,
/// date-started, date-ended, job, description, argstring, successfulNodes,
/// failedNodes and retriedExecution, in that order, each null where absent;
/// "failed", "failed-with-retry", "aborted", "timedout" and "other" reject
/// with codes "execution_failed", "execution_failed_with_retry",
/// "execution_aborted", "execution_timedout" and "execution_other" and the
/// record as the detail. An abort resolves with that same mapping whatever
/// the terminal status.
pub proof fn lemma_watch_settles_by_status(c: ConfigV, p: PromiseV, w: WatchV, r: ResponseV, st: Seq<char>, now: i64)
    requires
        200 <= r.status < 300,
        jget(body_v(r), "status"@) == Some(JsonV::Str(st)),
        st == "succeeded"@ || st == "failed"@ || st == "failed-with-retry"@ || st == "aborted"@
            || st == "timedout"@ || st == "other"@,
    ensures
        ({
            let b = body_v(r);
            let n = next_v(c, p, StageV::Watching { w }, EventV::Reply(r), now);
            let rejected = |code: Seq<char>|
                (
                    StageV::Done,
                    ActionV::Finish(
                        VerdictV::Reject(
                            JsonV::Object(seq![("code"@, JsonV::Str(code)), ("detail"@, b)]),
                        ),
                    ),
                );
            let resolved = (
                StageV::Done,
                ActionV::Finish(
                    VerdictV::Resolve(
                        PayloadV::Doc(
                            pick_v(
                                b,
                                seq![
                                    "id"@,
                                    "href"@,
                                    "permalink"@,
                                    "status"@,
                                    "customStatus"@,
                                    "project"@,
                                    "executionType"@,
                                    "user"@,
                                    "date-started"@,
                                    "date-ended"@,
                                    "job"@,
                                    "description"@,
                                    "argstring"@,
                                    "successfulNodes"@,
                                    "failedNodes"@,
                                    "retriedExecution"@,
                                ],
                            ),
                        ),
                    ),
                ),
            );
            &&& w.mapping ==> n == resolved
            &&& (!w.mapping && st == "succeeded"@) ==> n == resolved
            &&& (!w.mapping && st == "failed"@) ==> n == rejected("execution_failed"@)
            &&& (!w.mapping && st == "failed-with-retry"@) ==> n == rejected(
                "execution_failed_with_retry"@,
            )
            &&& (!w.mapping && st == "aborted"@) ==> n == rejected("execution_aborted"@)
            &&& (!w.mapping && st == "timedout"@) ==> n == rejected("execution_timedout"@)
            &&& (!w.mapping && st == "other"@) ==> n == rejected("execution_other"@)
        }),
{
    reveal_strlit("succeeded");
    reveal_strlit("failed");
    reveal_strlit("failed-with-retry");
    reveal_strlit("aborted");
    reveal_strlit("timedout");
    reveal_strlit("other");
    let b = body_v(r);
    assert(string_v(jget(b, "status"@)) == st);
    assert(terminal(st));
}

/// The bodies a run and a retry send carry this promise's stamp, where the
/// search for an earlier execution looks for it: a retry's options, and a
/// run's options where the caller gave some, map "rescorr" to the token; a
/// run without options ends its argString with "-rescorr" and the token.
pub proof fn lemma_bodies_carry_stamp(args: JsonV, token: Seq<char>)
    ensures
        (jget(args, "options"@) matches Some(o) && !(o is Null)) ==> jget(
            or_null(jget(stamp_v(args, token), "options"@)),
            "rescorr"@,
        ) == Some(JsonV::Str(token)),
        (jget(args, "options"@) is None || jget(args, "options"@) == Some(JsonV::Null)) ==> jget(
            stamp_v(args, token),
            "argString"@,
        ) == Some(
            JsonV::Str(
                trim_v(
                    match jget(args, "argString"@) {
                        Some(JsonV::Str(a)) => a,
                        _ => Seq::empty(),
                    } + " -rescorr "@ + token,
                ),
            ),
        ),
        jget(or_null(jget(retry_body_v(args, token), "options"@)), "rescorr"@) == Some(
            JsonV::Str(token),
        ),
{
    let base = pick_present_v(args, run_keys());
    let st = JsonV::Str(token);
    if let Some(o) = jget(args, "options"@) {
        lemma_put_then_find(members(o), corr(), st, corr());
        let opts = JsonV::Object(put(members(o), corr(), st));
        lemma_put_then_find(base, "options"@, opts, "options"@);
    }
    lemma_put_then_find(base, "argString"@, JsonV::Str(arg_string_v(args, token)), "argString"@);
    let ropts = match jget(args, "options"@) {
        Some(JsonV::Object(m)) => m,
        _ => Seq::empty(),
    };
    lemma_put_then_find(ropts, corr(), st, corr());
    lemma_put_then_find(
        pick_present_v(args, seq!["failedNodes"@, "loglevel"@, "asUser"@]),
        "options"@,
        JsonV::Object(put(ropts, corr(), st)),
        "options"@,
    );
}

} // verus!
