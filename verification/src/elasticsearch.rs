//! The elasticsearch plugin: a reindex, from start to its completed task.
use vstd::prelude::*;
use crate::clock::{nap, nap_v};
use vstd::utf8::encode_utf8;
use crate::args::{arg_str, arg_str_v, names};
use crate::frame::{sanitize, sanitize_v};
use crate::http::{
    param_of, param_v, parts_v, pieces_v, qtext, query_v, req_v, request, url, url_v, with_body_v,
    with_header_v, with_query_v, Action, ActionV, Event, EventV, Method, Param, ParamV, Part, PartV,
    PieceV, Request, RequestV, Response, ResponseV, body_v,
};
use crate::json::{
    get_str, jbool, jget, jstr, jv, members_v, or_null, str_eq, str_v, scalar_text, Json, JsonV,
    elems_v, lemma_jv_array, lemma_jv_object,
};
use crate::promise::{parsed_v, read_param, read_param_v, Promise, PromiseV};
use crate::query::{pick_present, pick_present_v};
use crate::text::{cat, q, quote, quote_bytes};
use crate::verdict::{
    settles,
    coded,
    empty_object, fail_v, reject, reject_v, release_v, text, Failure, FailureV, Payload, PayloadV,
    Verdict, VerdictV,
};

verus! {

/// The plugin's settings.
pub struct Config {
    pub base_url: String,
    pub api_key: String,
    /// The time between two polls of a reindex task, in milliseconds.
    pub poll: u64,
}

pub struct ConfigV {
    pub base_url: Seq<char>,
    pub api_key: Seq<char>,
    pub poll: u64,
}

impl View for Config {
    type V = ConfigV;

    open spec fn view(&self) -> ConfigV {
        ConfigV { base_url: self.base_url@, api_key: self.api_key@, poll: self.poll }
    }
}

/// `poll` where the settings leave it out: two seconds.
pub fn poll_default() -> (r: u64)
    ensures
        r == 2_000,
{
    2_000
}

/// The operations this plugin offers.
#[derive(PartialEq, Eq, Structural, Clone, Copy)]
pub enum Func {
    ReindexCreate,
    ReindexGet,
    IndexList,
    IndexGet,
}

pub open spec fn func_of(name: Seq<char>) -> Option<Func> {
    if name == "reindex.create"@ {
        Some(Func::ReindexCreate)
    } else if name == "reindex.get"@ {
        Some(Func::ReindexGet)
    } else if name == "index.list"@ {
        Some(Func::IndexList)
    } else if name == "index.get"@ {
        Some(Func::IndexGet)
    } else {
        None
    }
}

fn func(name: &str) -> (r: Option<Func>)
    ensures
        r == func_of(name@),
{
    if str_eq(name, "reindex.create") {
        Some(Func::ReindexCreate)
    } else if str_eq(name, "reindex.get") {
        Some(Func::ReindexGet)
    } else if str_eq(name, "index.list") {
        Some(Func::IndexList)
    } else if str_eq(name, "index.get") {
        Some(Func::IndexGet)
    } else {
        None
    }
}

// ─── Responses ──────────────────────────────────────────────────────────────

/// The classification every answer falls through to: 401 (the key is rejected) and 403 (it
/// lacks a privilege) halt; 429 and 5xx release.
pub open spec fn check_v(r: ResponseV) -> Option<FailureV> {
    if r.status == 401 || r.status == 403 {
        Some(FailureV::Halt(PayloadV::Text(r.text)))
    } else if r.status == 429 || r.status >= 500 {
        Some(FailureV::Release(PayloadV::Text(r.text)))
    } else {
        None
    }
}

fn check(r: &Response) -> (f: Option<Failure>)
    ensures
        match f {
            Some(x) => check_v(r@) == Some(x@),
            None => check_v(r@) is None,
        },
{
    if r.status == 401 || r.status == 403 {
        Some(Failure::Halt(Payload::Text(r.text.clone())))
    } else if r.status == 429 || r.status >= 500 {
        Some(Failure::Release(Payload::Text(r.text.clone())))
    } else {
        None
    }
}

/// `response.body.error` — what every documented rejection quotes.
pub open spec fn error_v(r: ResponseV) -> JsonV {
    or_null(jget(body_v(r), "error"@))
}

fn error(r: &Response) -> (j: Json)
    ensures
        j@ == error_v(r@),
{
    match r.json().get("error") {
        Some(x) => x.copy(),
        None => Json::Null,
    }
}

/// The verdict of a read; `detail_404` says whether its 404 quotes the error.
pub open spec fn read_outcome_v(r: ResponseV, detail_404: bool) -> VerdictV {
    if r.status == 404 {
        reject_v(
            "not_found"@,
            if detail_404 {
                Some(error_v(r))
            } else {
                None
            },
        )
    } else {
        match check_v(r) {
            Some(f) => fail_v(f),
            None => if r.status >= 400 {
                reject_v("invalid_request"@, Some(error_v(r)))
            } else {
                VerdictV::Resolve(PayloadV::Text(r.text))
            },
        }
    }
}

fn read_outcome(r: &Response, detail_404: bool) -> (v: Verdict)
    ensures
        v@ == read_outcome_v(r@, detail_404),
{
    if r.status == 404 {
        reject(
            "not_found",
            if detail_404 {
                Some(error(r))
            } else {
                None
            },
        )
    } else {
        match check(r) {
            Some(f) => f.into_verdict(),
            None => if r.status >= 400 {
                reject("invalid_request", Some(error(r)))
            } else {
                Verdict::Resolve(Payload::Text(r.text.clone()))
            },
        }
    }
}

// ─── Requests ───────────────────────────────────────────────────────────────

/// The authorization every request presents.
pub open spec fn auth_v(c: ConfigV) -> Seq<char> {
    "ApiKey "@ + c.api_key
}

pub open spec fn get_v(c: ConfigV, u: Seq<char>, params: Seq<(Seq<char>, ParamV)>) -> RequestV {
    with_query_v(with_header_v(req_v(Method::Get, url_v(u)), "Authorization"@, auth_v(c)), params)
}

fn get(cfg: &Config, u: String, params: Vec<(String, Param)>) -> (r: Request)
    ensures
        r@ == get_v(cfg@, u@, query_v(params@)),
{
    let auth = cat("ApiKey ", cfg.api_key.as_str());
    request(Method::Get, url(u)).header("Authorization", auth.as_str()).query(params)
}

fn no_params() -> (r: Vec<(String, Param)>)
    ensures
        query_v(r@) == Seq::<(Seq<char>, ParamV)>::empty(),
{
    let r: Vec<(String, Param)> = Vec::new();
    assert(query_v(r@) =~= Seq::empty());
    r
}

/// One value as Elasticsearch reads it: lower-case booleans, a string
/// itself, null as the empty text, anything else its JSON text.
pub open spec fn es_param_v(v: JsonV) -> ParamV {
    match v {
        JsonV::Null => ParamV::Text(Seq::empty()),
        _ => param_v(v),
    }
}

pub open spec fn es_part_v(v: JsonV) -> PartV {
    match str_v(v) {
        Some(t) => PartV::Text(
            if v is Null {
                Seq::empty()
            } else {
                t
            },
        ),
        None => PartV::Doc(v),
    }
}

/// The query: each named arg that is present, a list
/// sent comma-separated (Elasticsearch reads a repeated key as its last
/// occurrence).
pub open spec fn es_params_v(args: JsonV, ks: Seq<Seq<char>>) -> Seq<(Seq<char>, ParamV)>
    decreases ks.len(),
{
    if ks.len() == 0 {
        Seq::empty()
    } else {
        let r = es_params_v(args, ks.drop_last());
        match jget(args, ks.last()) {
            None => r,
            Some(JsonV::Array(a)) => r.push(
                (ks.last(), ParamV::Joined(Seq::new(a.len(), |i: int| es_part_v(a[i])))),
            ),
            Some(v) => r.push((ks.last(), es_param_v(v))),
        }
    }
}

fn es_part(v: &Json) -> (r: Part)
    ensures
        r@ == es_part_v(v@),
{
    match v {
        Json::Null => Part::Text(String::new()),
        _ => match scalar_text(v) {
            Some(t) => Part::Text(t),
            None => Part::Doc(v.copy()),
        },
    }
}

fn es_params(args: &Json, ks: &[&str]) -> (r: Vec<(String, Param)>)
    ensures
        query_v(r@) == es_params_v(args@, names(ks@)),
{
    let mut out: Vec<(String, Param)> = Vec::new();
    let mut i: usize = 0;
    while i < ks.len()
        invariant
            i <= ks@.len(),
            query_v(out@) == es_params_v(args@, names(ks@).take(i as int)),
        decreases ks@.len() - i,
    {
        let ghost before = out@;
        assert(names(ks@).take(i + 1).drop_last() =~= names(ks@).take(i as int));
        assert(names(ks@).take(i + 1).last() == ks@[i as int]@);
        match args.get(ks[i]) {
            None => {},
            Some(v) => match v {
                Json::Array(a) => {
                    let mut parts: Vec<Part> = Vec::new();
                    let mut n: usize = 0;
                    proof {
                        lemma_jv_array(*a);
                    }
                    while n < a.len()
                        invariant
                            n <= a.len(),
                            parts_v(parts@) == Seq::new(n as nat, |m: int| es_part_v(jv(a[m]))),
                        decreases a.len() - n,
                    {
                        let ghost pb = parts@;
                        parts.push(es_part(&a[n]));
                        assert(parts_v(parts@) =~= parts_v(pb).push(es_part_v(jv(a[n as int]))));
                        assert(parts_v(parts@) =~= Seq::new(
                            (n + 1) as nat,
                            |m: int| es_part_v(jv(a[m])),
                        ));
                        n = n + 1;
                    }
                    let ghost av = elems_v(a@);
                    assert(parts_v(parts@) =~= Seq::new(av.len(), |m: int| es_part_v(av[m])));
                    out.push((String::from_str(ks[i]), Param::Joined(parts)));
                    assert(query_v(out@) =~= query_v(before).push(
                        (ks@[i as int]@, ParamV::Joined(Seq::new(av.len(), |m: int| es_part_v(av[m])))),
                    ));
                },
                Json::Null => {
                    out.push((String::from_str(ks[i]), Param::Text(String::new())));
                    assert(query_v(out@) =~= query_v(before).push(
                        (ks@[i as int]@, es_param_v(v@)),
                    ));
                },
                _ => {
                    out.push((String::from_str(ks[i]), param_of(v)));
                    assert(query_v(out@) =~= query_v(before).push(
                        (ks@[i as int]@, es_param_v(v@)),
                    ));
                },
            },
        }
        i = i + 1;
    }
    assert(names(ks@).take(ks@.len() as int) =~= names(ks@));
    out
}

/// The reindex action: the transport action every reindex task runs
/// under, and the filter the task listing is narrowed by.
pub open spec fn listing_request_v(c: ConfigV) -> RequestV {
    get_v(
        c,
        c.base_url + "/_tasks"@,
        seq![("actions"@, ParamV::Text("indices:data/write/reindex"@))],
    )
}

fn listing_request(cfg: &Config) -> (r: Request)
    ensures
        r@ == listing_request_v(cfg@),
{
    let mut params: Vec<(String, Param)> = Vec::new();
    params.push(qtext("actions", text("indices:data/write/reindex")));
    assert(query_v(params@) =~= seq![("actions"@, ParamV::Text("indices:data/write/reindex"@))]);
    get(cfg, cat(cfg.base_url.as_str(), "/_tasks"), params)
}

/// The body keys a reindex forwards.
pub open spec fn body_keys() -> Seq<Seq<char>> {
    seq!["source"@, "dest"@, "conflicts"@, "max_docs"@, "script"@]
}

/// The query keys a reindex forwards.
pub open spec fn start_keys() -> Seq<Seq<char>> {
    seq![
        "refresh"@,
        "requests_per_second"@,
        "slices"@,
        "timeout"@,
        "wait_for_active_shards"@,
        "require_alias"@,
    ]
}

/// The reindex, started without waiting for its completion and tagged with
/// the promise's identity in `X-Opaque-Id`.
pub open spec fn start_request_v(c: ConfigV, args: JsonV, token: Seq<char>) -> RequestV {
    with_body_v(
        with_query_v(
            with_header_v(
                with_header_v(
                    req_v(Method::Post, url_v(c.base_url + "/_reindex"@)),
                    "Authorization"@,
                    auth_v(c),
                ),
                "X-Opaque-Id"@,
                token,
            ),
            es_params_v(args, start_keys()).push(
                ("wait_for_completion"@, ParamV::Text("false"@)),
            ),
        ),
        JsonV::Object(pick_present_v(args, body_keys())),
    )
}

fn start_request(cfg: &Config, args: &Json, token: &str) -> (r: Request)
    ensures
        r@ == start_request_v(cfg@, args@, token@),
{
    let bks = ["source", "dest", "conflicts", "max_docs", "script"];
    assert(names(bks@) =~= body_keys());
    let body = pick_present(args, &bks);
    let sks = [
        "refresh",
        "requests_per_second",
        "slices",
        "timeout",
        "wait_for_active_shards",
        "require_alias",
    ];
    assert(names(sks@) =~= start_keys());
    let mut params = es_params(args, &sks);
    let ghost before = params@;
    params.push(qtext("wait_for_completion", text("false")));
    assert(query_v(params@) =~= query_v(before).push(("wait_for_completion"@, ParamV::Text("false"@))));
    let auth = cat("ApiKey ", cfg.api_key.as_str());
    request(Method::Post, url(cat(cfg.base_url.as_str(), "/_reindex"))).header(
        "Authorization",
        auth.as_str(),
    ).header("X-Opaque-Id", token).query(params).json(body)
}

// ─── The task listing ───────────────────────────────────────────────────────

/// Whether a listed task is the top reindex this promise started: it carries
/// the identity in `X-Opaque-Id` and no `parent_task_id` (a sliced reindex
/// repeats the header on its children).
pub open spec fn task_matches(task: JsonV, token: Seq<char>) -> bool {
    jstr(jget(or_null(jget(task, "headers"@)), "X-Opaque-Id"@)) == Some(token) && jget(
        task,
        "parent_task_id"@,
    ) is None
}

pub open spec fn match_in_tasks(ts: Seq<(Seq<char>, JsonV)>, token: Seq<char>, j: int) -> Option<
    Seq<char>,
>
    decreases ts.len() - j,
{
    if j < 0 || j >= ts.len() {
        None
    } else if task_matches(ts[j].1, token) {
        Some(ts[j].0)
    } else {
        match_in_tasks(ts, token, j + 1)
    }
}

pub open spec fn tasks_of(node: JsonV) -> Option<Seq<(Seq<char>, JsonV)>> {
    match jget(node, "tasks"@) {
        Some(JsonV::Object(m)) => Some(m),
        _ => None,
    }
}

pub open spec fn match_in_nodes(ns: Seq<(Seq<char>, JsonV)>, token: Seq<char>, i: int) -> Option<
    Seq<char>,
>
    decreases ns.len() - i,
{
    if i < 0 || i >= ns.len() {
        None
    } else {
        match tasks_of(ns[i].1) {
            Some(ts) => match match_in_tasks(ts, token, 0) {
                Some(id) => Some(id),
                None => match_in_nodes(ns, token, i + 1),
            },
            None => match_in_nodes(ns, token, i + 1),
        }
    }
}

/// The id of the reindex this promise already started, from the listing.
pub open spec fn running_v(body: JsonV, token: Seq<char>) -> Option<Seq<char>> {
    match jget(body, "nodes"@) {
        Some(JsonV::Object(ns)) => match_in_nodes(ns, token, 0),
        _ => None,
    }
}

fn task_matches_exec(task: &Json, token: &str) -> (r: bool)
    ensures
        r == task_matches(task@, token@),
{
    let opaque = match task.get("headers") {
        Some(h) => match h.get_str("X-Opaque-Id") {
            Some(s) => str_eq(s.as_str(), token),
            None => false,
        },
        None => false,
    };
    opaque && task.get("parent_task_id").is_none()
}

fn in_tasks(ts: &Vec<(String, Json)>, token: &str) -> (r: Option<String>)
    ensures
        match r {
            Some(id) => match_in_tasks(members_v(ts@), token@, 0) == Some(id@),
            None => match_in_tasks(members_v(ts@), token@, 0) is None,
        },
{
    let ghost m = members_v(ts@);
    let mut j: usize = 0;
    while j < ts.len()
        invariant
            j <= ts.len(),
            m == members_v(ts@),
            match_in_tasks(m, token@, 0) == match_in_tasks(m, token@, j as int),
        decreases ts.len() - j,
    {
        if task_matches_exec(&ts[j].1, token) {
            return Some(ts[j].0.clone());
        }
        j = j + 1;
    }
    None
}

fn running(body: &Json, token: &str) -> (r: Option<String>)
    ensures
        match r {
            Some(id) => running_v(body@, token@) == Some(id@),
            None => running_v(body@, token@) is None,
        },
{
    match body.get("nodes") {
        Some(Json::Object(ns)) => {
            proof {
                lemma_jv_object(*ns);
            }
            let ghost m = members_v(ns@);
            let mut i: usize = 0;
            while i < ns.len()
                invariant
                    i <= ns.len(),
                    m == members_v(ns@),
                    running_v(body@, token@) == match_in_nodes(m, token@, i as int),
                decreases ns.len() - i,
            {
                match ns[i].1.get("tasks") {
                    Some(Json::Object(ts)) => {
                        proof {
                            lemma_jv_object(*ts);
                        }
                        match in_tasks(ts, token) {
                            Some(id) => return Some(id),
                            None => {},
                        }
                    },
                    _ => {},
                }
                i = i + 1;
            }
            None
        },
        _ => None,
    }
}

// ─── Settling a completed task ──────────────────────────────────────────────

/// The keys of the resolved mapping.
pub open spec fn run_keys() -> Seq<Seq<char>> {
    seq![
        "id"@,
        "description"@,
        "start_time_in_millis"@,
        "running_time_in_nanos"@,
        "cancelled"@,
        "response"@,
    ]
}

/// The verdict a completed reindex task carries.
pub open spec fn settle_v(run: JsonV) -> VerdictV {
    match jget(run, "error"@) {
        Some(e) => reject_v("reindex_failed"@, Some(e)),
        None => {
            let result = match jget(run, "response"@) {
                Some(x) => x,
                None => JsonV::Object(Seq::empty()),
            };
            let canceled = jget(result, "canceled"@);
            if jbool(jget(run, "cancelled"@)) == Some(true) || canceled is Some {
                // A cancellation the record reports only through `cancelled`
                // has no reason to quote: the detail is then null.
                reject_v("cancelled"@, Some(or_null(canceled)))
            } else {
                match jget(result, "failures"@) {
                    Some(JsonV::Array(f)) => if f.len() > 0 {
                        reject_v("reindex_failed"@, Some(JsonV::Array(f)))
                    } else {
                        VerdictV::Resolve(PayloadV::Doc(JsonV::Object(pick_present_v(run, run_keys()))))
                    },
                    _ => VerdictV::Resolve(
                        PayloadV::Doc(JsonV::Object(pick_present_v(run, run_keys()))),
                    ),
                }
            }
        },
    }
}

fn settle(run: &Json) -> (v: Verdict)
    ensures
        v@ == settle_v(run@),
{
    match run.get("error") {
        Some(e) => reject("reindex_failed", Some(e.copy())),
        None => {
            let result = match run.get("response") {
                Some(x) => x.copy(),
                None => empty_object(),
            };
            let cancelled = match run.get("cancelled") {
                Some(c) => match c.as_bool() {
                    Some(b) => b,
                    None => false,
                },
                None => false,
            };
            let canceled = result.get("canceled");
            if cancelled || canceled.is_some() {
                let d = match canceled {
                    Some(x) => x.copy(),
                    None => Json::Null,
                };
                return reject("cancelled", Some(d));
            }
            let keys = [
                "id",
                "description",
                "start_time_in_millis",
                "running_time_in_nanos",
                "cancelled",
                "response",
            ];
            assert(names(keys@) =~= run_keys());
            match result.get("failures") {
                Some(f) => match f {
                    Json::Array(a) => if a.len() > 0 {
                        reject("reindex_failed", Some(f.copy()))
                    } else {
                        Verdict::Resolve(Payload::Doc(pick_present(run, &keys)))
                    },
                    _ => Verdict::Resolve(Payload::Doc(pick_present(run, &keys))),
                },
                None => Verdict::Resolve(Payload::Doc(pick_present(run, &keys))),
            }
        },
    }
}

// ─── The machine ────────────────────────────────────────────────────────────

/// Where a delivery stands.
pub enum Stage {
    /// The verdict is given.
    Done,
    /// A read is out; `detail_404` says whether its 404 quotes the error.
    Read { detail_404: bool },
    /// reindex.create: the task listing that finds an earlier start is out.
    Listing { args: Json, token: String },
    /// reindex.create: the start is out.
    Starting,
    /// reindex.create: a read of the task is out, after `failed` failed ones.
    Polling { task: String, failed: u32 },
    /// reindex.create: sleeping between two reads of the task.
    Waiting { task: String, failed: u32 },
}

pub enum StageV {
    Done,
    Read { detail_404: bool },
    Listing { args: JsonV, token: Seq<char> },
    Starting,
    Polling { task: Seq<char>, failed: u32 },
    Waiting { task: Seq<char>, failed: u32 },
}

impl View for Stage {
    type V = StageV;

    open spec fn view(&self) -> StageV {
        match self {
            Stage::Done => StageV::Done,
            Stage::Read { detail_404 } => StageV::Read { detail_404: *detail_404 },
            Stage::Listing { args, token } => StageV::Listing { args: jv(*args), token: token@ },
            Stage::Starting => StageV::Starting,
            Stage::Polling { task, failed } => StageV::Polling { task: task@, failed: *failed },
            Stage::Waiting { task, failed } => StageV::Waiting { task: task@, failed: *failed },
        }
    }
}

pub open spec fn finish(v: VerdictV) -> (StageV, ActionV) {
    (StageV::Done, ActionV::Finish(v))
}

pub open spec fn invalid(e: Seq<char>) -> (StageV, ActionV) {
    finish(reject_v("invalid_request"@, Some(JsonV::Str(e))))
}

/// The index reads' query keys.
pub open spec fn list_keys() -> Seq<Seq<char>> {
    seq!["expand_wildcards"@, "ignore_unavailable"@, "allow_no_indices"@, "mode"@]
}

pub open spec fn get_keys() -> Seq<Seq<char>> {
    seq![
        "allow_no_indices"@,
        "expand_wildcards"@,
        "features"@,
        "flat_settings"@,
        "ignore_unavailable"@,
        "include_defaults"@,
        "local"@,
        "master_timeout"@,
    ]
}

/// The first step of a delivery.
pub open spec fn start_v(c: ConfigV, p: PromiseV, parsed: Result<JsonV, Seq<char>>) -> (StageV, ActionV) {
    match read_param_v(parsed) {
        Err(v) => finish(v),
        Ok((name, args)) => match func_of(name) {
            None => finish(reject_v("unknown_func"@, Some(JsonV::Str(name)))),
            Some(Func::ReindexCreate) => (
                StageV::Listing { args, token: sanitize_v(p.id) },
                ActionV::Send(listing_request_v(c)),
            ),
            Some(Func::ReindexGet) => match arg_str_v(args, "task_id"@) {
                Err(e) => invalid(e),
                Ok(t) => (
                    StageV::Read { detail_404: false },
                    ActionV::Send(get_v(c, c.base_url + "/_reindex/"@ + q(t), Seq::empty())),
                ),
            },
            Some(Func::IndexList) => match arg_str_v(args, "name"@) {
                Err(e) => invalid(e),
                Ok(n) => (
                    StageV::Read { detail_404: true },
                    ActionV::Send(
                        get_v(c, c.base_url + "/_resolve/index/"@ + q(n), es_params_v(args, list_keys())),
                    ),
                ),
            },
            Some(Func::IndexGet) => match arg_str_v(args, "index"@) {
                Err(e) => invalid(e),
                Ok(n) => (
                    StageV::Read { detail_404: true },
                    ActionV::Send(get_v(c, c.base_url + "/"@ + q(n), es_params_v(args, get_keys()))),
                ),
            },
        },
    }
}

/// The head of the poll loop: stop at the deadline, else read the task.
pub open spec fn loop_head_v(c: ConfigV, p: PromiseV, task: Seq<char>, failed: u32, now: i64) -> (
    StageV,
    ActionV,
) {
    if now >= p.timeout_at {
        finish(release_v("promise timed out"@))
    } else {
        (
            StageV::Polling { task, failed },
            ActionV::Send(get_v(c, c.base_url + "/_reindex/"@ + task, Seq::empty())),
        )
    }
}

/// One reading of the task record: a 404 (its node left the cluster with no
/// stored result) is a release, like the check's failures.
pub open spec fn fetched_v(r: ResponseV) -> Result<JsonV, FailureV> {
    if r.status == 404 {
        Err(FailureV::Release(PayloadV::Text(r.text)))
    } else {
        match check_v(r) {
            Some(f) => Err(f),
            None => Ok(body_v(r)),
        }
    }
}

/// The answer to one read of the task. A halt ends the delivery at once; a
/// fifth failure in a row ends it too, since leaving the loop costs a second
/// full copy of the whole index.
pub open spec fn polled_v(c: ConfigV, p: PromiseV, task: Seq<char>, failed: u32, r: ResponseV, now: i64) -> (
    StageV,
    ActionV,
) {
    match fetched_v(r) {
        Ok(run) => if jbool(jget(run, "completed"@)) == Some(true) {
            finish(settle_v(run))
        } else {
            (StageV::Waiting { task, failed: 0 }, ActionV::Sleep(nap_v(c.poll, p.timeout_at, now)))
        },
        Err(f) => poll_failed_v(c, p, task, failed, f, now),
    }
}

/// A failed read of the task, `failed` failed ones before it: a halt ends
/// the delivery; a release ends it at the fifth in a row, and is otherwise
/// slept off.
pub open spec fn poll_failed_v(c: ConfigV, p: PromiseV, task: Seq<char>, failed: u32, f: FailureV, now: i64) -> (
    StageV,
    ActionV,
) {
    if f is Halt || failed >= 4 {
        finish(fail_v(f))
    } else {
        (
            StageV::Waiting { task, failed: (failed + 1) as u32 },
            ActionV::Sleep(nap_v(c.poll, p.timeout_at, now)),
        )
    }
}

/// The answer to the start.
pub open spec fn started_v(c: ConfigV, p: PromiseV, r: ResponseV, now: i64) -> (StageV, ActionV) {
    match check_v(r) {
        Some(f) => finish(fail_v(f)),
        None => if r.status >= 400 {
            // Identical bytes every redelivery: permanent.
            finish(reject_v("invalid_request"@, Some(error_v(r))))
        } else {
            match get_str(body_v(r), "task"@) {
                Some(id) => loop_head_v(c, p, q(id), 0, now),
                None => finish(
                    VerdictV::Release(PayloadV::Text("no task id in reindex response: "@ + r.text)),
                ),
            }
        },
    }
}

/// One step: the stage and what just happened give the next stage and action.
pub open spec fn next_v(c: ConfigV, p: PromiseV, s: StageV, e: EventV, now: i64) -> (StageV, ActionV) {
    match e {
        // A request that produced no response is unclassified: release; a
        // read of the task counts it as a failed read.
        EventV::Lost(msg, _) => match s {
            StageV::Polling { task, failed } => poll_failed_v(
                c,
                p,
                task,
                failed,
                FailureV::Release(PayloadV::Text(msg)),
                now,
            ),
            _ => finish(release_v(msg)),
        },
        EventV::Woke => match s {
            StageV::Waiting { task, failed } => loop_head_v(c, p, task, failed, now),
            _ => finish(release_v(Seq::empty())),
        },
        EventV::Reply(r) => match s {
            StageV::Read { detail_404 } => finish(read_outcome_v(r, detail_404)),
            StageV::Listing { args, token } => match check_v(r) {
                Some(f) => finish(fail_v(f)),
                None => match running_v(body_v(r), token) {
                    Some(id) => loop_head_v(c, p, q(id), 0, now),
                    None => (StageV::Starting, ActionV::Send(start_request_v(c, args, token))),
                },
            },
            StageV::Starting => started_v(c, p, r, now),
            StageV::Polling { task, failed } => polled_v(c, p, task, failed, r, now),
            _ => finish(release_v(Seq::empty())),
        },
    }
}

fn done(v: Verdict) -> (r: (Stage, Action))
    ensures
        (r.0@, r.1@) == finish(v@),
{
    (Stage::Done, Action::Finish(v))
}

fn invalid_exec(e: String) -> (r: (Stage, Action))
    ensures
        (r.0@, r.1@) == invalid(e@),
{
    done(reject("invalid_request", Some(Json::Str(e))))
}

fn loop_head(cfg: &Config, promise: &Promise, task: String, failed: u32, now: i64) -> (r: (
    Stage,
    Action,
))
    ensures
        (r.0@, r.1@) == loop_head_v(cfg@, promise@, task@, failed, now),
{
    if now >= promise.timeout_at {
        done(Verdict::Release(Payload::Text(text("promise timed out"))))
    } else {
        let req = get(cfg, cat(cfg.base_url.as_str(), "/_reindex/").concat(task.as_str()), no_params());
        (Stage::Polling { task, failed }, Action::Send(req))
    }
}

/// One call per delivered task begins here.
pub fn begin(cfg: &Config, promise: &Promise, parsed: Result<Json, String>) -> (r: (Stage, Action))
    ensures
        (r.0@, r.1@) == start_v(cfg@, promise@, parsed_v(parsed)),
{
    let (name, args) = match read_param(parsed) {
        Err(v) => return done(v),
        Ok(x) => x,
    };
    match func(name.as_str()) {
        None => done(reject("unknown_func", Some(Json::Str(name)))),
        Some(Func::ReindexCreate) => (
            Stage::Listing { args, token: sanitize(promise.id.as_str()) },
            Action::Send(listing_request(cfg)),
        ),
        Some(Func::ReindexGet) => match arg_str(&args, "task_id") {
            Err(e) => invalid_exec(e),
            Ok(t) => {
                let u = cat(cfg.base_url.as_str(), "/_reindex/").concat(quote(t.as_str()).as_str());
                (Stage::Read { detail_404: false }, Action::Send(get(cfg, u, no_params())))
            },
        },
        Some(Func::IndexList) => {
            let ks = ["expand_wildcards", "ignore_unavailable", "allow_no_indices", "mode"];
            assert(names(ks@) =~= list_keys());
            let params = es_params(&args, &ks);
            match arg_str(&args, "name") {
                Err(e) => invalid_exec(e),
                Ok(n) => {
                    let u = cat(cfg.base_url.as_str(), "/_resolve/index/").concat(
                        quote(n.as_str()).as_str(),
                    );
                    (Stage::Read { detail_404: true }, Action::Send(get(cfg, u, params)))
                },
            }
        },
        Some(Func::IndexGet) => {
            let ks = [
                "allow_no_indices",
                "expand_wildcards",
                "features",
                "flat_settings",
                "ignore_unavailable",
                "include_defaults",
                "local",
                "master_timeout",
            ];
            assert(names(ks@) =~= get_keys());
            let params = es_params(&args, &ks);
            match arg_str(&args, "index") {
                Err(e) => invalid_exec(e),
                Ok(n) => {
                    let u = cat(cfg.base_url.as_str(), "/").concat(quote(n.as_str()).as_str());
                    (Stage::Read { detail_404: true }, Action::Send(get(cfg, u, params)))
                },
            }
        },
    }
}

fn poll_failed(cfg: &Config, promise: &Promise, task: String, failed: u32, f: Failure, now: i64) -> (r: (
    Stage,
    Action,
))
    ensures
        (r.0@, r.1@) == poll_failed_v(cfg@, promise@, task@, failed, f@, now),
{
    let halt = match &f {
        Failure::Halt(_) => true,
        Failure::Release(_) => false,
    };
    if halt || failed >= 4 {
        done(f.into_verdict())
    } else {
        (
            Stage::Waiting { task, failed: failed + 1 },
            Action::Sleep(nap(cfg.poll, promise.timeout_at, now)),
        )
    }
}

/// One step of a delivery after its first. `now` is the time in
/// milliseconds since the epoch.
pub fn step(cfg: &Config, promise: &Promise, stage: Stage, event: Event, now: i64) -> (r: (
    Stage,
    Action,
))
    ensures
        (r.0@, r.1@) == next_v(cfg@, promise@, stage@, event@, now),
{
    match event {
        Event::Lost(msg, _) => match stage {
            Stage::Polling { task, failed } => poll_failed(
                cfg,
                promise,
                task,
                failed,
                Failure::Release(Payload::Text(msg)),
                now,
            ),
            _ => done(Verdict::Release(Payload::Text(msg))),
        },
        Event::Woke => match stage {
            Stage::Waiting { task, failed } => loop_head(cfg, promise, task, failed, now),
            _ => done(Verdict::Release(Payload::Text(String::new()))),
        },
        Event::Reply(r) => match stage {
            Stage::Read { detail_404 } => done(read_outcome(&r, detail_404)),
            Stage::Listing { args, token } => match check(&r) {
                Some(f) => done(f.into_verdict()),
                None => match running(&r.json(), token.as_str()) {
                    Some(id) => loop_head(cfg, promise, quote(id.as_str()), 0, now),
                    None => {
                        let req = start_request(cfg, &args, token.as_str());
                        (Stage::Starting, Action::Send(req))
                    },
                },
            },
            Stage::Starting => match check(&r) {
                Some(f) => done(f.into_verdict()),
                None => if r.status >= 400 {
                    done(reject("invalid_request", Some(error(&r))))
                } else {
                    match r.json().get_str("task") {
                        Some(id) => loop_head(cfg, promise, quote(id.as_str()), 0, now),
                        None => done(
                            Verdict::Release(
                                Payload::Text(
                                    cat("no task id in reindex response: ", r.text.as_str()),
                                ),
                            ),
                        ),
                    }
                },
            },
            Stage::Polling { task, failed } => {
                let fetched: Result<Json, Failure> = if r.status == 404 {
                    Err(Failure::Release(Payload::Text(r.text.clone())))
                } else {
                    match check(&r) {
                        Some(f) => Err(f),
                        None => Ok(r.json()),
                    }
                };
                match fetched {
                    Ok(run) => {
                        let completed = match run.get("completed") {
                            Some(c) => match c.as_bool() {
                                Some(b) => b,
                                None => false,
                            },
                            None => false,
                        };
                        if completed {
                            done(settle(&run))
                        } else {
                            (
                                Stage::Waiting { task, failed: 0 },
                                Action::Sleep(nap(cfg.poll, promise.timeout_at, now)),
                            )
                        }
                    },
                    Err(f) => poll_failed(cfg, promise, task, failed, f, now),
                }
            },
            _ => done(Verdict::Release(Payload::Text(String::new()))),
        },
    }
}


// ─── Laws ───────────────────────────────────────────────────────────────────

/// A delivery never sleeps past its promise's deadline: a sleep asked for
/// before the deadline ends by it, and one asked for after it is empty. The
/// first step never sleeps.
pub proof fn lemma_sleep_within_deadline(c: ConfigV, p: PromiseV, parsed: Result<JsonV, Seq<char>>, s: StageV, e: EventV, now: i64)
    ensures
        !(start_v(c, p, parsed).1 is Sleep),
        next_v(c, p, s, e, now).1 matches ActionV::Sleep(ms) ==> (now < p.timeout_at ==> now + ms
            <= p.timeout_at) && (now >= p.timeout_at ==> ms == 0),
{
}

/// The failed reads in a row a stage carries, where it carries any.
pub open spec fn failures_of(s: StageV) -> u32 {
    match s {
        StageV::Polling { failed, .. } => failed,
        StageV::Waiting { failed, .. } => failed,
        _ => 0,
    }
}

/// The poll loop absorbs at most four failed reads of the task in a row:
/// the count a delivery carries never reaches five, and the fifth failure
/// ends it.
pub proof fn lemma_failures_bounded(c: ConfigV, p: PromiseV, parsed: Result<JsonV, Seq<char>>, s: StageV, e: EventV, now: i64)
    ensures
        failures_of(start_v(c, p, parsed).0) == 0,
        failures_of(s) < 5 ==> failures_of(next_v(c, p, s, e, now).0) < 5,
        s is Polling && failures_of(s) == 4 && e is Lost ==> next_v(c, p, s, e, now).1 is Finish,
{
}

/// Credentials that stop working halt the delivery and wait for an
/// operator: an answer of 401 or 403 to any request ends it with a halt that
/// carries the answer's text.
pub proof fn lemma_credentials_halt(c: ConfigV, p: PromiseV, s: StageV, r: ResponseV, now: i64)
    requires
        r.status == 401 || r.status == 403,
        !(s is Done) && !(s is Waiting),
    ensures
        next_v(c, p, s, EventV::Reply(r), now).1 == ActionV::Finish(VerdictV::Halt(PayloadV::Text(r.text))),
{
}

/// Every rejection a delivery ends with names its code.
pub proof fn lemma_rejections_coded(c: ConfigV, p: PromiseV, parsed: Result<JsonV, Seq<char>>, s: StageV, e: EventV, now: i64)
    ensures
        start_v(c, p, parsed).1 matches ActionV::Finish(v) ==> coded(v),
        next_v(c, p, s, e, now).1 matches ActionV::Finish(v) ==> coded(v),
{
}

/// A reindex that an earlier delivery started is found again, never started
/// twice: the reindex is sent only once the task listing showed no task of
/// this promise's.
pub proof fn lemma_start_only_when_none_running(c: ConfigV, p: PromiseV, s: StageV, e: EventV, now: i64)
    ensures
        next_v(c, p, s, e, now).0 is Starting ==> (s matches StageV::Listing { token, .. } && e matches EventV::Reply(
            r,
        ) && running_v(body_v(r), token) is None),
{
}

/// A redelivery of a promise begins as the first delivery did: the first
/// step depends on the promise only through its id.
pub proof fn lemma_redelivery_begins_alike(c: ConfigV, p1: PromiseV, p2: PromiseV, parsed: Result<JsonV, Seq<char>>)
    requires
        p1.id == p2.id,
    ensures
        start_v(c, p1, parsed) == start_v(c, p2, parsed),
{
}

/// A rate limit or an unavailable service settles nothing: an answer of
/// 429 or 503 to any request neither resolves nor rejects the promise.
pub proof fn lemma_busy_settles_nothing(c: ConfigV, p: PromiseV, s: StageV, r: ResponseV, now: i64)
    requires
        r.status == 429 || r.status == 503,
    ensures
        !(next_v(c, p, s, EventV::Reply(r), now).1 matches ActionV::Finish(v) && settles(v)),
{
}

/// A completed task whose record carries an "error" member failed: the
/// read of it rejects the promise with code "reindex_failed" and that error
/// as the detail, whatever else the record holds; such a task never
/// resolves.
pub proof fn lemma_task_error_rejects(c: ConfigV, p: PromiseV, task: Seq<char>, failed: u32, r: ResponseV, e: JsonV, now: i64)
    requires
        200 <= r.status < 300,
        jget(body_v(r), "completed"@) == Some(JsonV::Bool(true)),
        jget(body_v(r), "error"@) == Some(e),
    ensures
        next_v(c, p, StageV::Polling { task, failed }, EventV::Reply(r), now) == (
            StageV::Done,
            ActionV::Finish(
                VerdictV::Reject(
                    JsonV::Object(
                        seq![("code"@, JsonV::Str("reindex_failed"@)), ("detail"@, e)],
                    ),
                ),
            ),
        ),
{
}

/// A completed task with no "error" member settles by its response: a
/// cancellation (the record's "cancelled" is true, or the response carries
/// "canceled") rejects with code "cancelled" and the response's reason, or
/// null; a non-empty "failures" array in the response rejects with code
/// "reindex_failed" and those failures; otherwise the promise resolves with
/// the record's id, description, start_time_in_millis,
/// running_time_in_nanos, cancelled and response, where present and in that
/// order. A task not yet completed is read again after a sleep.
pub proof fn lemma_completed_task_settles(c: ConfigV, p: PromiseV, task: Seq<char>, failed: u32, r: ResponseV, now: i64)
    requires
        200 <= r.status < 300,
    ensures
        ({
            let b = body_v(r);
            let n = next_v(c, p, StageV::Polling { task, failed }, EventV::Reply(r), now);
            let res = or_null(jget(b, "response"@));
            let res = if jget(b, "response"@) is Some {
                res
            } else {
                JsonV::Object(Seq::empty())
            };
            let cancelled = jget(b, "cancelled"@) == Some(JsonV::Bool(true)) || jget(
                res,
                "canceled"@,
            ) is Some;
            let fs = match jget(res, "failures"@) {
                Some(JsonV::Array(f)) => f,
                _ => Seq::empty(),
            };
            &&& jget(b, "completed"@) != Some(JsonV::Bool(true)) ==> (n.0 == StageV::Waiting {
                task,
                failed: 0,
            } && n.1 is Sleep)
            &&& (jget(b, "completed"@) == Some(JsonV::Bool(true)) && jget(b, "error"@) is None
                && cancelled) ==> n == (
                StageV::Done,
                ActionV::Finish(
                    VerdictV::Reject(
                        JsonV::Object(
                            seq![
                                ("code"@, JsonV::Str("cancelled"@)),
                                ("detail"@, or_null(jget(res, "canceled"@))),
                            ],
                        ),
                    ),
                ),
            )
            &&& (jget(b, "completed"@) == Some(JsonV::Bool(true)) && jget(b, "error"@) is None
                && !cancelled && fs.len() > 0) ==> n == (
                StageV::Done,
                ActionV::Finish(
                    VerdictV::Reject(
                        JsonV::Object(
                            seq![
                                ("code"@, JsonV::Str("reindex_failed"@)),
                                ("detail"@, JsonV::Array(fs)),
                            ],
                        ),
                    ),
                ),
            )
            &&& (jget(b, "completed"@) == Some(JsonV::Bool(true)) && jget(b, "error"@) is None
                && !cancelled && fs.len() == 0) ==> n
                == (
                StageV::Done,
                ActionV::Finish(
                    VerdictV::Resolve(
                        PayloadV::Doc(
                            JsonV::Object(
                                pick_present_v(
                                    b,
                                    seq![
                                        "id"@,
                                        "description"@,
                                        "start_time_in_millis"@,
                                        "running_time_in_nanos"@,
                                        "cancelled"@,
                                        "response"@,
                                    ],
                                ),
                            ),
                        ),
                    ),
                ),
            )
        }),
{
}

/// Whether listed task `task` is the top reindex opened with `token`: its
/// X-Opaque-Id header is the token and it has no parent task.
pub open spec fn opened_by(task: JsonV, token: Seq<char>) -> bool {
    jget(or_null(jget(task, "headers"@)), "X-Opaque-Id"@) == Some(JsonV::Str(token)) && jget(
        task,
        "parent_task_id"@,
    ) is None
}

/// Whether the task listed under id `id` by node `y` of `ns` is the top
/// reindex opened with `token`.
pub open spec fn listed_at(ns: Seq<(Seq<char>, JsonV)>, token: Seq<char>, y: int, x: int, id: Seq<char>) -> bool {
    0 <= y < ns.len() && (jget(ns[y].1, "tasks"@) matches Some(JsonV::Object(ts)) && 0 <= x
        < ts.len() && opened_by(ts[x].1, token) && ts[x].0 == id)
}

/// One node's tasks, searched from position `j`, yield an id where a task
/// at or after `j` is the top reindex opened with the token.
proof fn lemma_tasks_search(ts: Seq<(Seq<char>, JsonV)>, token: Seq<char>, j: int, b: int)
    requires
        0 <= j <= b < ts.len(),
        opened_by(ts[b].1, token),
    ensures
        match_in_tasks(ts, token, j) is Some,
    decreases b - j,
{
    assert forall|t: JsonV| #[trigger] opened_by(t, token) <==> task_matches(t, token) by {}
    if task_matches(ts[j].1, token) {
        assert(match_in_tasks(ts, token, j) == Some(ts[j].0));
    } else {
        lemma_tasks_search(ts, token, j + 1, b);
    }
}

/// The nodes, searched from position `i`, yield the id of a task so opened
/// where a node at or after `i` lists one.
proof fn lemma_nodes_search(ns: Seq<(Seq<char>, JsonV)>, token: Seq<char>, i: int, a: int, b: int, ts: Seq<(Seq<char>, JsonV)>)
    requires
        0 <= i <= a < ns.len(),
        jget(ns[a].1, "tasks"@) == Some(JsonV::Object(ts)),
        0 <= b < ts.len(),
        opened_by(ts[b].1, token),
    ensures
        match_in_nodes(ns, token, i) matches Some(id) && exists|y: int, x: int|
            #[trigger] listed_at(ns, token, y, x, id),
    decreases a - i,
{
    match tasks_of(ns[i].1) {
        Some(ts2) => match match_in_tasks(ts2, token, 0) {
            Some(id) => {
                assert(match_in_nodes(ns, token, i) == Some(id));
                lemma_tasks_found(ts2, token, 0);
                let x = choose|x: int| 0 <= x < ts2.len() && opened_by(ts2[x].1, token) && ts2[x].0 == id;
                assert(listed_at(ns, token, i, x, id));
            },
            None => {
                if i == a {
                    lemma_tasks_search(ts, token, 0, b);
                }
                lemma_nodes_search(ns, token, i + 1, a, b, ts);
            },
        },
        None => {
            lemma_nodes_search(ns, token, i + 1, a, b, ts);
        },
    }
}

/// The id a search of one node's tasks yields is that of a task so opened.
proof fn lemma_tasks_found(ts: Seq<(Seq<char>, JsonV)>, token: Seq<char>, j: int)
    requires
        match_in_tasks(ts, token, j) is Some,
    ensures
        exists|x: int|
            0 <= x < ts.len() && opened_by(ts[x].1, token) && ts[x].0 == match_in_tasks(ts, token, j)->Some_0,
    decreases ts.len() - j,
{
    if 0 <= j < ts.len() && !task_matches(ts[j].1, token) {
        lemma_tasks_found(ts, token, j + 1);
    } else {
        assert(opened_by(ts[j].1, token));
    }
}

/// A reindex that an earlier delivery started is found again wherever the
/// task listing puts it, under any node: where some node lists a top task
/// opened with this promise's token, no second reindex is started; the
/// delivery polls a task so opened.
pub proof fn lemma_started_task_found_anywhere(c: ConfigV, p: PromiseV, args: JsonV, token: Seq<char>, r: ResponseV, ns: Seq<(Seq<char>, JsonV)>, a: int, ts: Seq<(Seq<char>, JsonV)>, b: int, now: i64)
    requires
        200 <= r.status < 300,
        jget(body_v(r), "nodes"@) == Some(JsonV::Object(ns)),
        0 <= a < ns.len(),
        jget(ns[a].1, "tasks"@) == Some(JsonV::Object(ts)),
        0 <= b < ts.len(),
        opened_by(ts[b].1, token),
    ensures
        !(next_v(c, p, StageV::Listing { args, token }, EventV::Reply(r), now).0 is Starting),
        exists|y: int, x: int, id: Seq<char>|
            #[trigger] listed_at(ns, token, y, x, id) && next_v(
                c,
                p,
                StageV::Listing { args, token },
                EventV::Reply(r),
                now,
            ) == loop_head_v(c, p, q(id), 0, now),
{
    lemma_nodes_search(ns, token, 0, a, b, ts);
}

/// The id a search of the nodes yields is that of a task some node lists
/// as the top reindex opened with the token.
proof fn lemma_nodes_found(ns: Seq<(Seq<char>, JsonV)>, token: Seq<char>, i: int)
    requires
        match_in_nodes(ns, token, i) is Some,
    ensures
        exists|y: int, x: int| #[trigger] listed_at(ns, token, y, x, match_in_nodes(ns, token, i)->Some_0),
    decreases ns.len() - i,
{
    match tasks_of(ns[i].1) {
        Some(ts) => match match_in_tasks(ts, token, 0) {
            Some(id) => {
                lemma_tasks_found(ts, token, 0);
                let x = choose|x: int| 0 <= x < ts.len() && opened_by(ts[x].1, token) && ts[x].0 == id;
                assert(listed_at(ns, token, i, x, id));
            },
            None => lemma_nodes_found(ns, token, i + 1),
        },
        None => lemma_nodes_found(ns, token, i + 1),
    }
}

/// Where no node lists a top task opened with this promise's token, the
/// reindex is started: a POST to /_reindex whose body holds the caller's
/// source, dest, conflicts, max_docs and script, where given and in that
/// order, tagged with the token in X-Opaque-Id, and asking not to wait for
/// completion.
pub proof fn lemma_start_when_none_listed(c: ConfigV, p: PromiseV, args: JsonV, token: Seq<char>, r: ResponseV, now: i64)
    requires
        200 <= r.status < 300,
        jget(body_v(r), "nodes"@) matches Some(JsonV::Object(ns)) ==> forall|y: int, x: int, id: Seq<char>|
            !#[trigger] listed_at(ns, token, y, x, id),
    ensures
        next_v(c, p, StageV::Listing { args, token }, EventV::Reply(r), now) matches (
            StageV::Starting,
            ActionV::Send(q),
        ) && q.method == Method::Post && q.url == url_v(c.base_url + "/_reindex"@) && q.body == Some(
            JsonV::Object(
                pick_present_v(
                    args,
                    seq!["source"@, "dest"@, "conflicts"@, "max_docs"@, "script"@],
                ),
            ),
        ) && q.headers.contains(("X-Opaque-Id"@, token)) && q.query.len() > 0 && q.query.last()
            == ("wait_for_completion"@, ParamV::Text("false"@)),
{
    if let Some(JsonV::Object(ns)) = jget(body_v(r), "nodes"@) {
        if match_in_nodes(ns, token, 0) is Some {
            lemma_nodes_found(ns, token, 0);
        }
    }
    let q = start_request_v(c, args, token);
    assert(q.headers.last() == ("X-Opaque-Id"@, token));
}

} // verus!
