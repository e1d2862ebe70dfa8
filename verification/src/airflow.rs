//! The airflow plugin: a Dag run, from trigger to terminal state.
use vstd::prelude::*;
use crate::clock::{nap, nap_v};
use vstd::utf8::encode_utf8;
use crate::args::{arg_str, arg_str_v, names};
use crate::frame::{sanitize, sanitize_v};
use crate::http::{
    pieces_v, query_v, req_v, request, url, url_v, with_body_v, with_header_v, with_query_v,
    Action, ActionV, Event, EventV, Method, Param, ParamV, PieceV, Request, RequestV, Response,
    ResponseV, body_v,
};
use crate::json::{
    drop_key, get_str, insert, jget, lemma_put_then_find, jv, lemma_jv_object, members, members_of, members_v, or_null,
    put, remove, str_eq, Json, JsonV,
};
use crate::promise::{parsed_v, read_param, read_param_v, Promise, PromiseV};
use crate::query::{pick, pick_v, spread, spread_v};
use crate::text::{cat, q, quote, quote_bytes};
use crate::verdict::{
    settles,
    coded,
    fail_v, jstr_of, reject, reject_v, release_v, text, Failure, FailureV, Payload, PayloadV,
    Verdict, VerdictV,
};

verus! {

/// The plugin's settings.
pub struct Config {
    pub base_url: String,
    pub username: String,
    pub password: String,
    /// The time between two polls of a run, in milliseconds.
    pub poll: u64,
}

pub struct ConfigV {
    pub base_url: Seq<char>,
    pub username: Seq<char>,
    pub password: Seq<char>,
    pub poll: u64,
}

impl View for Config {
    type V = ConfigV;

    open spec fn view(&self) -> ConfigV {
        ConfigV {
            base_url: self.base_url@,
            username: self.username@,
            password: self.password@,
            poll: self.poll,
        }
    }
}

/// `poll` where the settings leave it out: thirty seconds.
pub fn poll_default() -> (r: u64)
    ensures
        r == 30_000,
{
    30_000
}

/// The operations this plugin offers.
#[derive(PartialEq, Eq, Structural, Clone, Copy)]
pub enum Func {
    DagrunTrigger,
    DagrunGet,
    TaskinstanceList,
    XcomGet,
    DagGet,
    DagList,
}

/// The operation an operation name names.
pub open spec fn func_of(name: Seq<char>) -> Option<Func> {
    if name == "dagrun.trigger"@ {
        Some(Func::DagrunTrigger)
    } else if name == "dagrun.get"@ {
        Some(Func::DagrunGet)
    } else if name == "taskinstance.list"@ {
        Some(Func::TaskinstanceList)
    } else if name == "xcom.get"@ {
        Some(Func::XcomGet)
    } else if name == "dag.get"@ {
        Some(Func::DagGet)
    } else if name == "dag.list"@ {
        Some(Func::DagList)
    } else {
        None
    }
}

fn func(name: &str) -> (r: Option<Func>)
    ensures
        r == func_of(name@),
{
    if str_eq(name, "dagrun.trigger") {
        Some(Func::DagrunTrigger)
    } else if str_eq(name, "dagrun.get") {
        Some(Func::DagrunGet)
    } else if str_eq(name, "taskinstance.list") {
        Some(Func::TaskinstanceList)
    } else if str_eq(name, "xcom.get") {
        Some(Func::XcomGet)
    } else if str_eq(name, "dag.get") {
        Some(Func::DagGet)
    } else if str_eq(name, "dag.list") {
        Some(Func::DagList)
    } else {
        None
    }
}

// ─── Responses ──────────────────────────────────────────────────────────────

/// The classification every answer falls through to: 403 (authenticated but not permitted)
/// halts; any other 4xx or 5xx releases.
pub open spec fn check_v(r: ResponseV) -> Option<FailureV> {
    if r.status == 403 {
        Some(FailureV::Halt(PayloadV::Text(r.text)))
    } else if r.status >= 400 {
        Some(FailureV::Release(PayloadV::Text(r.text)))
    } else {
        None
    }
}

fn check(r: &Response) -> (f: Option<Failure>)
    ensures
        match f {
            Some(x) => check_v(r@) == Some(x@),
            None => check_v(r@) is None,
        },
{
    if r.status == 403 {
        Some(Failure::Halt(Payload::Text(r.text.clone())))
    } else if r.status >= 400 {
        Some(Failure::Release(Payload::Text(r.text.clone())))
    } else {
        None
    }
}

/// `response.body.detail` — what every documented rejection quotes.
pub open spec fn detail_v(r: ResponseV) -> JsonV {
    or_null(jget(body_v(r), "detail"@))
}

fn detail(r: &Response) -> (j: Json)
    ensures
        j@ == detail_v(r@),
{
    match r.json().get("detail") {
        Some(x) => x.copy(),
        None => Json::Null,
    }
}

/// The verdict of a read: `not_found` for a 404 where the operation
/// documents one, `invalid_request` for 400 and 422, the check, or the
/// response text.
pub open spec fn read_outcome_v(r: ResponseV, not_found: bool) -> VerdictV {
    if not_found && r.status == 404 {
        reject_v("not_found"@, None)
    } else if r.status == 400 || r.status == 422 {
        reject_v("invalid_request"@, Some(detail_v(r)))
    } else {
        match check_v(r) {
            Some(f) => fail_v(f),
            None => VerdictV::Resolve(PayloadV::Text(r.text)),
        }
    }
}

fn read_outcome(r: &Response, not_found: bool) -> (v: Verdict)
    ensures
        v@ == read_outcome_v(r@, not_found),
{
    if not_found && r.status == 404 {
        reject("not_found", None)
    } else if r.status == 400 || r.status == 422 {
        reject("invalid_request", Some(detail(r)))
    } else {
        match check(r) {
            Some(f) => f.into_verdict(),
            None => Verdict::Resolve(Payload::Text(r.text.clone())),
        }
    }
}

// ─── Authentication ─────────────────────────────────────────────────────────

/// Exchange the configured credentials for a bearer token.
pub open spec fn token_request_v(c: ConfigV) -> RequestV {
    with_body_v(
        req_v(Method::Post, url_v(c.base_url + "/auth/token"@)),
        JsonV::Object(
            seq![("username"@, JsonV::Str(c.username)), ("password"@, JsonV::Str(c.password))],
        ),
    )
}

fn token_request(cfg: &Config) -> (r: Request)
    ensures
        r@ == token_request_v(cfg@),
{
    let mut m: Vec<(String, Json)> = Vec::new();
    m.push((text("username"), Json::Str(cfg.username.clone())));
    m.push((text("password"), Json::Str(cfg.password.clone())));
    proof {
        lemma_jv_object(m);
        assert(members_v(m@) =~= seq![
            ("username"@, JsonV::Str(cfg.username@)),
            ("password"@, JsonV::Str(cfg.password@)),
        ]);
    }
    request(Method::Post, url(cat(cfg.base_url.as_str(), "/auth/token"))).json(Json::Object(m))
}

/// The answer to the token exchange: the `Authorization` value, or a
/// failure — rejected credentials halt.
pub open spec fn token_outcome_v(r: ResponseV) -> Result<Seq<char>, FailureV> {
    if r.status == 401 || r.status == 403 {
        Err(FailureV::Halt(PayloadV::Text("credentials rejected: "@ + r.text)))
    } else {
        match check_v(r) {
            Some(f) => Err(f),
            None => match get_str(body_v(r), "access_token"@) {
                None => Err(
                    FailureV::Release(PayloadV::Text("no access_token in token response: "@ + r.text)),
                ),
                Some(a) => Ok("Bearer "@ + a),
            },
        }
    }
}

fn token_outcome(r: &Response) -> (o: Result<String, Failure>)
    ensures
        match o {
            Ok(a) => token_outcome_v(r@) == Ok::<Seq<char>, FailureV>(a@),
            Err(f) => token_outcome_v(r@) == Err::<Seq<char>, FailureV>(f@),
        },
{
    if r.status == 401 || r.status == 403 {
        return Err(
            Failure::Halt(Payload::Text(cat("credentials rejected: ", r.text.as_str()))),
        );
    }
    match check(r) {
        Some(f) => return Err(f),
        None => {},
    }
    match r.json().get_str("access_token") {
        None => Err(
            Failure::Release(
                Payload::Text(cat("no access_token in token response: ", r.text.as_str())),
            ),
        ),
        Some(a) => Ok(cat("Bearer ", a.as_str())),
    }
}

// ─── Requests ───────────────────────────────────────────────────────────────

/// The API root.
pub open spec fn api_v(c: ConfigV) -> Seq<char> {
    c.base_url + "/api/v2"@
}

/// A GET with the bearer token.
pub open spec fn get_v(u: Seq<char>, auth: Seq<char>, params: Seq<(Seq<char>, ParamV)>) -> RequestV {
    with_query_v(with_header_v(req_v(Method::Get, url_v(u)), "Authorization"@, auth), params)
}

fn get(u: String, auth: &str, params: Vec<(String, Param)>) -> (r: Request)
    ensures
        r@ == get_v(u@, auth@, query_v(params@)),
{
    request(Method::Get, url(u)).header("Authorization", auth).query(params)
}

fn no_params() -> (r: Vec<(String, Param)>)
    ensures
        query_v(r@) == Seq::<(Seq<char>, ParamV)>::empty(),
{
    let r: Vec<(String, Param)> = Vec::new();
    assert(query_v(r@) =~= Seq::empty());
    r
}

/// What a triggered run is tracked by.
pub struct Trigger {
    /// The `Authorization` value.
    pub auth: String,
    /// The Dag id, quoted as a path segment.
    pub dag: String,
    /// The run id: the promise's injected identity.
    pub run: String,
    /// The trigger body, without the run id.
    pub body: Json,
}

pub struct TriggerV {
    pub auth: Seq<char>,
    pub dag: Seq<char>,
    pub run: Seq<char>,
    pub body: JsonV,
}

impl View for Trigger {
    type V = TriggerV;

    open spec fn view(&self) -> TriggerV {
        TriggerV { auth: self.auth@, dag: self.dag@, run: self.run@, body: jv(self.body) }
    }
}

/// `{api}/dags/{dag_id}/dagRuns/{run_id}`.
pub open spec fn run_url_v(c: ConfigV, t: TriggerV) -> Seq<char> {
    api_v(c) + "/dags/"@ + t.dag + "/dagRuns/"@ + q(t.run)
}

fn run_url(cfg: &Config, t: &Trigger) -> (r: String)
    ensures
        r@ == run_url_v(cfg@, t@),
{
    let mut u = cat(cfg.base_url.as_str(), "/api/v2");
    u.append("/dags/");
    u.append(t.dag.as_str());
    u.append("/dagRuns/");
    u.append(quote(t.run.as_str()).as_str());
    u
}

/// The trigger body: the args without `dag_id`, `logical_date` present
/// (null where absent).
pub open spec fn trigger_body_v(args: JsonV) -> JsonV {
    JsonV::Object(
        put(drop_key(members(args), "dag_id"@), "logical_date"@, or_null(jget(args, "logical_date"@))),
    )
}

/// The create: the trigger body with `dag_run_id`.
pub open spec fn create_request_v(c: ConfigV, t: TriggerV) -> RequestV {
    with_body_v(
        with_header_v(
            req_v(Method::Post, url_v(api_v(c) + "/dags/"@ + t.dag + "/dagRuns"@)),
            "Authorization"@,
            t.auth,
        ),
        JsonV::Object(put(members(t.body), "dag_run_id"@, JsonV::Str(t.run))),
    )
}

fn create_request(cfg: &Config, t: &Trigger) -> (r: Request)
    ensures
        r@ == create_request_v(cfg@, t@),
{
    let mut u = cat(cfg.base_url.as_str(), "/api/v2");
    u.append("/dags/");
    u.append(t.dag.as_str());
    u.append("/dagRuns");
    let mut b = members_of(&t.body);
    insert(&mut b, "dag_run_id", Json::Str(t.run.clone()));
    proof {
        lemma_jv_object(b);
    }
    request(Method::Post, url(u)).header("Authorization", t.auth.as_str()).json(Json::Object(b))
}

/// The keys of the resolved mapping.
pub open spec fn run_keys() -> Seq<Seq<char>> {
    seq![
        "dag_id"@,
        "dag_run_id"@,
        "state"@,
        "logical_date"@,
        "run_after"@,
        "start_date"@,
        "end_date"@,
        "duration"@,
        "conf"@,
        "run_type"@,
        "note"@,
    ]
}

fn run_keys_exec() -> (r: [&'static str; 11])
    ensures
        names(r@) == run_keys(),
{
    let r = [
        "dag_id",
        "dag_run_id",
        "state",
        "logical_date",
        "run_after",
        "start_date",
        "end_date",
        "duration",
        "conf",
        "run_type",
        "note",
    ];
    assert(names(r@) =~= run_keys());
    r
}

// ─── The machine ────────────────────────────────────────────────────────────

/// Where a delivery stands.
pub enum Stage {
    /// The verdict is given.
    Done,
    /// The token exchange every operation begins with is out.
    Token { func: Func, args: Json },
    /// A read is out; `not_found` says whether it documents a 404.
    Read { not_found: bool },
    /// dagrun.trigger: the read of a run an earlier attempt may have made.
    Probe { t: Trigger },
    /// dagrun.trigger: the create is out.
    Create { t: Trigger },
    /// dagrun.trigger: the read after a 409, with the 409's detail.
    Recheck { t: Trigger, conflict: Json },
    /// dagrun.trigger: a poll is out; `head` is when its turn began.
    Poll { t: Trigger, head: i64 },
    /// dagrun.trigger: the token expired mid-poll and is being renewed.
    Reauth { t: Trigger },
    /// dagrun.trigger: sleeping between two polls.
    Wait { t: Trigger },
}

pub enum StageV {
    Done,
    Token { func: Func, args: JsonV },
    Read { not_found: bool },
    Probe { t: TriggerV },
    Create { t: TriggerV },
    Recheck { t: TriggerV, conflict: JsonV },
    Poll { t: TriggerV, head: i64 },
    Reauth { t: TriggerV },
    Wait { t: TriggerV },
}

impl View for Stage {
    type V = StageV;

    open spec fn view(&self) -> StageV {
        match self {
            Stage::Done => StageV::Done,
            Stage::Token { func, args } => StageV::Token { func: *func, args: jv(*args) },
            Stage::Read { not_found } => StageV::Read { not_found: *not_found },
            Stage::Probe { t } => StageV::Probe { t: t@ },
            Stage::Create { t } => StageV::Create { t: t@ },
            Stage::Recheck { t, conflict } => StageV::Recheck { t: t@, conflict: jv(*conflict) },
            Stage::Poll { t, head } => StageV::Poll { t: t@, head: *head },
            Stage::Reauth { t } => StageV::Reauth { t: t@ },
            Stage::Wait { t } => StageV::Wait { t: t@ },
        }
    }
}

pub open spec fn finish(v: VerdictV) -> (StageV, ActionV) {
    (StageV::Done, ActionV::Finish(v))
}

/// The first step: the token exchange for an operation the param names.
pub open spec fn start_v(c: ConfigV, parsed: Result<JsonV, Seq<char>>) -> (StageV, ActionV) {
    match read_param_v(parsed) {
        Err(v) => finish(v),
        Ok((name, args)) => match func_of(name) {
            Some(f) => (StageV::Token { func: f, args }, ActionV::Send(token_request_v(c))),
            None => finish(reject_v("unknown_func"@, Some(JsonV::Str(name)))),
        },
    }
}

/// The two ids a run read names, the first missing one rejected first.
pub open spec fn two_ids_v(args: JsonV) -> Result<(Seq<char>, Seq<char>), Seq<char>> {
    match arg_str_v(args, "dag_id"@) {
        Err(e) => Err(e),
        Ok(a) => match arg_str_v(args, "dag_run_id"@) {
            Err(e) => Err(e),
            Ok(b) => Ok((a, b)),
        },
    }
}

pub open spec fn invalid(e: Seq<char>) -> (StageV, ActionV) {
    finish(reject_v("invalid_request"@, Some(JsonV::Str(e))))
}

pub open spec fn read(u: Seq<char>, auth: Seq<char>, params: Seq<(Seq<char>, ParamV)>, not_found: bool) -> (StageV, ActionV) {
    (StageV::Read { not_found }, ActionV::Send(get_v(u, auth, params)))
}

/// The operation, begun once the token is in hand.
pub open spec fn op_begin_v(c: ConfigV, p: PromiseV, f: Func, args: JsonV, auth: Seq<char>) -> (StageV, ActionV) {
    let api = api_v(c);
    match f {
        Func::DagrunTrigger => match arg_str_v(args, "dag_id"@) {
            Err(e) => invalid(e),
            Ok(d) => {
                let t = TriggerV {
                    auth,
                    dag: q(d),
                    run: sanitize_v(p.id),
                    body: trigger_body_v(args),
                };
                (StageV::Probe { t }, ActionV::Send(get_v(run_url_v(c, t), auth, Seq::empty())))
            },
        },
        Func::DagrunGet => match two_ids_v(args) {
            Err(e) => invalid(e),
            Ok((a, b)) => read(
                api + "/dags/"@ + q(a) + "/dagRuns/"@ + q(b),
                auth,
                Seq::empty(),
                true,
            ),
        },
        Func::TaskinstanceList => match two_ids_v(args) {
            Err(e) => invalid(e),
            Ok((a, b)) => read(
                api + "/dags/"@ + q(a) + "/dagRuns/"@ + q(b) + "/taskInstances"@,
                auth,
                spread_v(members(args), seq!["dag_id"@, "dag_run_id"@], false),
                true,
            ),
        },
        Func::XcomGet => match two_ids_v(args) {
            Err(e) => invalid(e),
            Ok((a, b)) => match arg_str_v(args, "task_id"@) {
                Err(e) => invalid(e),
                Ok(t) => match arg_str_v(args, "xcom_key"@) {
                    Err(e) => invalid(e),
                    Ok(k) => read(
                        api + "/dags/"@ + q(a) + "/dagRuns/"@ + q(b) + "/taskInstances/"@ + q(t)
                            + "/xcomEntries/"@ + q(k),
                        auth,
                        spread_v(
                            members(args),
                            seq!["map_index"@, "deserialize"@, "stringify"@],
                            true,
                        ),
                        true,
                    ),
                },
            },
        },
        Func::DagGet => match arg_str_v(args, "dag_id"@) {
            Err(e) => invalid(e),
            Ok(d) => read(api + "/dags/"@ + q(d) + "/details"@, auth, Seq::empty(), true),
        },
        Func::DagList => read(api + "/dags"@, auth, spread_v(members(args), Seq::empty(), false), false),
    }
}

/// The head of the poll loop: stop at the deadline, else read the run.
pub open spec fn loop_head_v(c: ConfigV, p: PromiseV, t: TriggerV, now: i64) -> (StageV, ActionV) {
    if now >= p.timeout_at {
        finish(release_v("promise timed out"@))
    } else {
        (StageV::Poll { t, head: now }, ActionV::Send(get_v(run_url_v(c, t), t.auth, Seq::empty())))
    }
}

/// The answer to one poll of the run.
pub open spec fn polled_v(c: ConfigV, p: PromiseV, t: TriggerV, head: i64, r: ResponseV) -> (StageV, ActionV) {
    if r.status == 401 {
        // JWTs expire after [api_auth] jwt_expiration_time.
        (StageV::Reauth { t }, ActionV::Send(token_request_v(c)))
    } else if r.status == 404 {
        finish(reject_v("deleted"@, None))
    } else {
        match check_v(r) {
            Some(f) => finish(fail_v(f)),
            None => {
                let run = body_v(r);
                let state = get_str(run, "state"@);
                if state == Some("success"@) {
                    finish(VerdictV::Resolve(PayloadV::Doc(pick_v(run, run_keys()))))
                } else if state == Some("failed"@) {
                    finish(reject_v("run_failed"@, Some(run)))
                } else {
                    // A paused Dag accepts the trigger but its run sits in
                    // "queued" until the Dag is unpaused.
                    (StageV::Wait { t }, ActionV::Sleep(nap_v(c.poll, p.timeout_at, head)))
                }
            },
        }
    }
}

/// One step: the stage and what just happened give the next stage and action.
pub open spec fn next_v(c: ConfigV, p: PromiseV, s: StageV, e: EventV, now: i64) -> (StageV, ActionV) {
    match e {
        // A request that produced no response is unclassified: release.
        EventV::Lost(msg, _) => finish(release_v(msg)),
        EventV::Woke => match s {
            StageV::Wait { t } => loop_head_v(c, p, t, now),
            _ => finish(release_v(Seq::empty())),
        },
        EventV::Reply(r) => match s {
            StageV::Token { func, args } => match token_outcome_v(r) {
                Err(f) => finish(fail_v(f)),
                Ok(auth) => op_begin_v(c, p, func, args, auth),
            },
            StageV::Read { not_found } => finish(read_outcome_v(r, not_found)),
            StageV::Probe { t } => if r.status == 404 {
                (StageV::Create { t }, ActionV::Send(create_request_v(c, t)))
            } else {
                match check_v(r) {
                    Some(f) => finish(fail_v(f)),
                    None => loop_head_v(c, p, t, now),
                }
            },
            StageV::Create { t } => if r.status == 404 {
                finish(reject_v("dag_not_found"@, Some(detail_v(r))))
            } else if r.status == 400 || r.status == 422 {
                finish(reject_v("invalid_request"@, Some(detail_v(r))))
            } else if r.status == 409 {
                (
                    StageV::Recheck { t, conflict: detail_v(r) },
                    ActionV::Send(get_v(run_url_v(c, t), t.auth, Seq::empty())),
                )
            } else {
                match check_v(r) {
                    Some(f) => finish(fail_v(f)),
                    None => loop_head_v(c, p, t, now),
                }
            },
            StageV::Recheck { t, conflict } => if r.status == 404 {
                // 409 covers every unique constraint on the run row; only our
                // own run id existing means an earlier attempt created it.
                finish(reject_v("conflict"@, Some(conflict)))
            } else {
                match check_v(r) {
                    Some(f) => finish(fail_v(f)),
                    None => loop_head_v(c, p, t, now),
                }
            },
            StageV::Poll { t, head } => polled_v(c, p, t, head, r),
            StageV::Reauth { t } => match token_outcome_v(r) {
                Err(f) => finish(fail_v(f)),
                Ok(auth) => loop_head_v(c, p, TriggerV { auth, ..t }, now),
            },
            _ => finish(release_v(Seq::empty())),
        },
    }
}

fn done(v: Verdict) -> (r: (Stage, Action))
    ensures
        (r.0@, r.1@) == finish(v@),
{
    (Stage::Done, Action::Finish(v))
}

fn invalid_exec(e: String) -> (r: (Stage, Action))
    ensures
        (r.0@, r.1@) == invalid(e@),
{
    done(reject("invalid_request", Some(Json::Str(e))))
}

fn read_exec(u: String, auth: &str, params: Vec<(String, Param)>, not_found: bool) -> (r: (
    Stage,
    Action,
))
    ensures
        (r.0@, r.1@) == read(u@, auth@, query_v(params@), not_found),
{
    (Stage::Read { not_found }, Action::Send(get(u, auth, params)))
}

fn api(cfg: &Config) -> (r: String)
    ensures
        r@ == api_v(cfg@),
{
    cat(cfg.base_url.as_str(), "/api/v2")
}

fn two_ids(args: &Json) -> (r: Result<(String, String), String>)
    ensures
        match r {
            Ok((a, b)) => two_ids_v(args@) == Ok::<(Seq<char>, Seq<char>), Seq<char>>((a@, b@)),
            Err(e) => two_ids_v(args@) == Err::<(Seq<char>, Seq<char>), Seq<char>>(e@),
        },
{
    let a = match arg_str(args, "dag_id") {
        Err(e) => return Err(e),
        Ok(a) => a.clone(),
    };
    let b = match arg_str(args, "dag_run_id") {
        Err(e) => return Err(e),
        Ok(b) => b.clone(),
    };
    Ok((a, b))
}

/// `{api}/dags/{a}/dagRuns/{b}`.
fn run_path(cfg: &Config, a: &str, b: &str) -> (r: String)
    ensures
        r@ == api_v(cfg@) + "/dags/"@ + q(a@) + "/dagRuns/"@ + q(b@),
{
    let mut u = api(cfg);
    u.append("/dags/");
    u.append(quote(a).as_str());
    u.append("/dagRuns/");
    u.append(quote(b).as_str());
    u
}

fn op_begin(cfg: &Config, promise: &Promise, f: Func, args: Json, auth: String) -> (r: (
    Stage,
    Action,
))
    ensures
        (r.0@, r.1@) == op_begin_v(cfg@, promise@, f, args@, auth@),
{
    match f {
        Func::DagrunTrigger => match arg_str(&args, "dag_id") {
            Err(e) => invalid_exec(e),
            Ok(d) => {
                let mut body = members_of(&args);
                remove(&mut body, "dag_id");
                let ld = match args.get("logical_date") {
                    Some(x) => x.copy(),
                    None => Json::Null,
                };
                insert(&mut body, "logical_date", ld);
                proof {
                    lemma_jv_object(body);
                }
                let t = Trigger {
                    auth,
                    dag: quote(d.as_str()),
                    run: sanitize(promise.id.as_str()),
                    body: Json::Object(body),
                };
                let req = get(run_url(cfg, &t), t.auth.as_str(), no_params());
                (Stage::Probe { t }, Action::Send(req))
            },
        },
        Func::DagrunGet => match two_ids(&args) {
            Err(e) => invalid_exec(e),
            Ok((a, b)) => read_exec(
                run_path(cfg, a.as_str(), b.as_str()),
                auth.as_str(),
                no_params(),
                true,
            ),
        },
        Func::TaskinstanceList => {
            let params = spread(&args, &["dag_id", "dag_run_id"], false);
            match two_ids(&args) {
                Err(e) => invalid_exec(e),
                Ok((a, b)) => {
                    let mut u = run_path(cfg, a.as_str(), b.as_str());
                    u.append("/taskInstances");
                    assert(names(["dag_id", "dag_run_id"]@) =~= seq!["dag_id"@, "dag_run_id"@]);
                    read_exec(u, auth.as_str(), params, true)
                },
            }
        },
        Func::XcomGet => {
            let params = spread(&args, &["map_index", "deserialize", "stringify"], true);
            assert(names(["map_index", "deserialize", "stringify"]@) =~= seq![
                "map_index"@,
                "deserialize"@,
                "stringify"@,
            ]);
            match two_ids(&args) {
                Err(e) => invalid_exec(e),
                Ok((a, b)) => match arg_str(&args, "task_id") {
                    Err(e) => invalid_exec(e),
                    Ok(t) => match arg_str(&args, "xcom_key") {
                        Err(e) => invalid_exec(e),
                        Ok(k) => {
                            let mut u = run_path(cfg, a.as_str(), b.as_str());
                            u.append("/taskInstances/");
                            u.append(quote(t.as_str()).as_str());
                            u.append("/xcomEntries/");
                            u.append(quote(k.as_str()).as_str());
                            read_exec(u, auth.as_str(), params, true)
                        },
                    },
                },
            }
        },
        Func::DagGet => match arg_str(&args, "dag_id") {
            Err(e) => invalid_exec(e),
            Ok(d) => {
                let mut u = api(cfg);
                u.append("/dags/");
                u.append(quote(d.as_str()).as_str());
                u.append("/details");
                read_exec(u, auth.as_str(), no_params(), true)
            },
        },
        Func::DagList => {
            let params = spread(&args, &[], false);
            assert(names([]@) =~= Seq::<Seq<char>>::empty());
            let mut u = api(cfg);
            u.append("/dags");
            read_exec(u, auth.as_str(), params, false)
        },
    }
}

fn loop_head(cfg: &Config, promise: &Promise, t: Trigger, now: i64) -> (r: (Stage, Action))
    ensures
        (r.0@, r.1@) == loop_head_v(cfg@, promise@, t@, now),
{
    if now >= promise.timeout_at {
        done(Verdict::Release(Payload::Text(text("promise timed out"))))
    } else {
        let req = get(run_url(cfg, &t), t.auth.as_str(), no_params());
        (Stage::Poll { t, head: now }, Action::Send(req))
    }
}

fn polled(cfg: &Config, promise: &Promise, t: Trigger, head: i64, r: &Response) -> (o: (
    Stage,
    Action,
))
    ensures
        (o.0@, o.1@) == polled_v(cfg@, promise@, t@, head, r@),
{
    if r.status == 401 {
        (Stage::Reauth { t }, Action::Send(token_request(cfg)))
    } else if r.status == 404 {
        done(reject("deleted", None))
    } else {
        match check(r) {
            Some(f) => done(f.into_verdict()),
            None => {
                let run = r.json();
                let success = match run.get_str("state") {
                    Some(s) => str_eq(s.as_str(), "success"),
                    None => false,
                };
                let failed = match run.get_str("state") {
                    Some(s) => str_eq(s.as_str(), "failed"),
                    None => false,
                };
                if success {
                    done(Verdict::Resolve(Payload::Doc(pick(&run, &run_keys_exec()))))
                } else if failed {
                    done(reject("run_failed", Some(run)))
                } else {
                    (Stage::Wait { t }, Action::Sleep(nap(cfg.poll, promise.timeout_at, head)))
                }
            },
        }
    }
}

/// One call per delivered task begins here: read the param and begin the
/// token exchange for the operation it names.
pub fn begin(cfg: &Config, parsed: Result<Json, String>) -> (r: (Stage, Action))
    ensures
        (r.0@, r.1@) == start_v(cfg@, parsed_v(parsed)),
{
    match read_param(parsed) {
        Err(v) => done(v),
        Ok((name, args)) => match func(name.as_str()) {
            Some(f) => (Stage::Token { func: f, args }, Action::Send(token_request(cfg))),
            None => done(reject("unknown_func", Some(Json::Str(name)))),
        },
    }
}

/// One step of a delivery after its first. `now` is the time in
/// milliseconds since the epoch.
pub fn step(cfg: &Config, promise: &Promise, stage: Stage, event: Event, now: i64) -> (r: (
    Stage,
    Action,
))
    ensures
        (r.0@, r.1@) == next_v(cfg@, promise@, stage@, event@, now),
{
    match event {
        Event::Lost(msg, _) => done(Verdict::Release(Payload::Text(msg))),
        Event::Woke => match stage {
            Stage::Wait { t } => loop_head(cfg, promise, t, now),
            _ => done(Verdict::Release(Payload::Text(String::new()))),
        },
        Event::Reply(r) => match stage {
            Stage::Token { func, args } => match token_outcome(&r) {
                Err(f) => done(f.into_verdict()),
                Ok(auth) => op_begin(cfg, promise, func, args, auth),
            },
            Stage::Read { not_found } => done(read_outcome(&r, not_found)),
            Stage::Probe { t } => if r.status == 404 {
                let req = create_request(cfg, &t);
                (Stage::Create { t }, Action::Send(req))
            } else {
                match check(&r) {
                    Some(f) => done(f.into_verdict()),
                    None => loop_head(cfg, promise, t, now),
                }
            },
            Stage::Create { t } => if r.status == 404 {
                done(reject("dag_not_found", Some(detail(&r))))
            } else if r.status == 400 || r.status == 422 {
                done(reject("invalid_request", Some(detail(&r))))
            } else if r.status == 409 {
                let req = get(run_url(cfg, &t), t.auth.as_str(), no_params());
                (Stage::Recheck { t, conflict: detail(&r) }, Action::Send(req))
            } else {
                match check(&r) {
                    Some(f) => done(f.into_verdict()),
                    None => loop_head(cfg, promise, t, now),
                }
            },
            Stage::Recheck { t, conflict } => if r.status == 404 {
                done(reject("conflict", Some(conflict)))
            } else {
                match check(&r) {
                    Some(f) => done(f.into_verdict()),
                    None => loop_head(cfg, promise, t, now),
                }
            },
            Stage::Poll { t, head } => polled(cfg, promise, t, head, &r),
            Stage::Reauth { t } => match token_outcome(&r) {
                Err(f) => done(f.into_verdict()),
                Ok(auth) => {
                    let t2 = Trigger { auth, dag: t.dag, run: t.run, body: t.body };
                    loop_head(cfg, promise, t2, now)
                },
            },
            _ => done(Verdict::Release(Payload::Text(String::new()))),
        },
    }
}


// ─── Laws ───────────────────────────────────────────────────────────────────

/// A delivery never sleeps past its promise's deadline. The sleep after a
/// poll is measured from the loop head that sent the poll: one that began
/// before the deadline ends by it, and one that began after it is empty;
/// and every poll is sent from a loop head before the deadline. The first
/// step never sleeps.
pub proof fn lemma_sleep_within_deadline(c: ConfigV, p: PromiseV, parsed: Result<JsonV, Seq<char>>, s: StageV, e: EventV, now: i64)
    ensures
        !(start_v(c, parsed).1 is Sleep),
        next_v(c, p, s, e, now).1 matches ActionV::Sleep(ms) ==> s matches StageV::Poll { head, .. }
            && (head < p.timeout_at ==> head + ms <= p.timeout_at) && (head >= p.timeout_at ==> ms
            == 0),
        next_v(c, p, s, e, now).0 matches StageV::Poll { head, .. } ==> head == now && now
            < p.timeout_at,
{
}

/// Credentials that stop working halt the delivery and wait for an
/// operator: an answer of 403 to any request ends it with a halt that
/// carries the answer's text (after a token exchange, noted as rejected
/// credentials).
pub proof fn lemma_credentials_halt(c: ConfigV, p: PromiseV, s: StageV, r: ResponseV, now: i64)
    requires
        r.status == 403,
        !(s is Done) && !(s is Wait),
    ensures
        next_v(c, p, s, EventV::Reply(r), now).1 matches ActionV::Finish(
            VerdictV::Halt(PayloadV::Text(t)),
        ) && (t == r.text || t == "credentials rejected: "@ + r.text),
{
}

/// Every rejection a delivery ends with names its code.
pub proof fn lemma_rejections_coded(c: ConfigV, p: PromiseV, parsed: Result<JsonV, Seq<char>>, s: StageV, e: EventV, now: i64)
    ensures
        start_v(c, parsed).1 matches ActionV::Finish(v) ==> coded(v),
        next_v(c, p, s, e, now).1 matches ActionV::Finish(v) ==> coded(v),
{
}

/// A run that an earlier delivery triggered is found again, never triggered
/// twice: the create is sent only once the read of this promise's run id
/// answered 404.
pub proof fn lemma_create_only_when_absent(c: ConfigV, p: PromiseV, s: StageV, e: EventV, now: i64)
    ensures
        next_v(c, p, s, e, now).0 is Create ==> (s is Probe && (e matches EventV::Reply(r) && r.status
            == 404)),
{
}

/// A rate limit or an unavailable service settles nothing: an answer of
/// 429 or 503 to any request neither resolves nor rejects the promise.
pub proof fn lemma_busy_settles_nothing(c: ConfigV, p: PromiseV, s: StageV, r: ResponseV, now: i64)
    requires
        r.status == 429 || r.status == 503,
    ensures
        !(next_v(c, p, s, EventV::Reply(r), now).1 matches ActionV::Finish(v) && settles(v)),
{
}

/// A poll that finds the run in state "success" resolves the promise with
/// the run's own record: a mapping of the keys dag_id, dag_run_id, state,
/// logical_date, run_after, start_date, end_date, duration, conf, run_type
/// and note, in that order, each to the run's value for it, or to null
/// where the run has none. So the caller learns which run it waited on.
pub proof fn lemma_success_resolves_run(c: ConfigV, p: PromiseV, t: TriggerV, head: i64, r: ResponseV, now: i64)
    requires
        200 <= r.status < 300,
        get_str(body_v(r), "state"@) == Some("success"@),
    ensures
        ({
            let b = body_v(r);
            next_v(c, p, StageV::Poll { t, head }, EventV::Reply(r), now) == (
                StageV::Done,
                ActionV::Finish(
                    VerdictV::Resolve(
                        PayloadV::Doc(
                            JsonV::Object(
                                seq![
                                    ("dag_id"@, or_null(jget(b, "dag_id"@))),
                                    ("dag_run_id"@, or_null(jget(b, "dag_run_id"@))),
                                    ("state"@, or_null(jget(b, "state"@))),
                                    ("logical_date"@, or_null(jget(b, "logical_date"@))),
                                    ("run_after"@, or_null(jget(b, "run_after"@))),
                                    ("start_date"@, or_null(jget(b, "start_date"@))),
                                    ("end_date"@, or_null(jget(b, "end_date"@))),
                                    ("duration"@, or_null(jget(b, "duration"@))),
                                    ("conf"@, or_null(jget(b, "conf"@))),
                                    ("run_type"@, or_null(jget(b, "run_type"@))),
                                    ("note"@, or_null(jget(b, "note"@))),
                                ],
                            ),
                        ),
                    ),
                ),
            )
        }),
{
    let b = body_v(r);
    let ks = run_keys();
    let want = seq![
        ("dag_id"@, or_null(jget(b, "dag_id"@))),
        ("dag_run_id"@, or_null(jget(b, "dag_run_id"@))),
        ("state"@, or_null(jget(b, "state"@))),
        ("logical_date"@, or_null(jget(b, "logical_date"@))),
        ("run_after"@, or_null(jget(b, "run_after"@))),
        ("start_date"@, or_null(jget(b, "start_date"@))),
        ("end_date"@, or_null(jget(b, "end_date"@))),
        ("duration"@, or_null(jget(b, "duration"@))),
        ("conf"@, or_null(jget(b, "conf"@))),
        ("run_type"@, or_null(jget(b, "run_type"@))),
        ("note"@, or_null(jget(b, "note"@))),
    ];
    assert(Seq::new(ks.len(), |i: int| (ks[i], or_null(jget(b, ks[i])))) =~= want);
}

/// A poll that finds the run in state "failed" rejects the promise with
/// code "run_failed" and the run as the detail; in any state other than
/// "success" and "failed" (queued, running, a paused Dag's queued run) the
/// delivery waits for the next poll.
pub proof fn lemma_failed_run_rejects(c: ConfigV, p: PromiseV, t: TriggerV, head: i64, r: ResponseV, now: i64)
    requires
        200 <= r.status < 300,
    ensures
        ({
            let b = body_v(r);
            let n = next_v(c, p, StageV::Poll { t, head }, EventV::Reply(r), now);
            &&& jget(b, "state"@) == Some(JsonV::Str("failed"@)) ==> n == (
                StageV::Done,
                ActionV::Finish(
                    VerdictV::Reject(
                        JsonV::Object(
                            seq![("code"@, JsonV::Str("run_failed"@)), ("detail"@, b)],
                        ),
                    ),
                ),
            )
            &&& !(jget(b, "state"@) == Some(JsonV::Str("failed"@)) || jget(b, "state"@) == Some(
                JsonV::Str("success"@),
            )) ==> (n.0 == StageV::Wait { t } && n.1 is Sleep)
        }),
{
    reveal_strlit("failed");
    reveal_strlit("success");
    let b = body_v(r);
    let n = next_v(c, p, StageV::Poll { t, head }, EventV::Reply(r), now);
    assert(n == polled_v(c, p, t, head, r));
    assert(jget(b, "state"@) == Some(JsonV::Str("failed"@)) ==> get_str(b, "state"@) == Some("failed"@));
    assert("failed"@[0] != "success"@[0]);
}

/// A run the probe did not find is created under the very id the probe
/// read and every later poll reads: the create posts the trigger body with
/// "dag_run_id" mapped to the run id, every other member as the trigger
/// body holds it.
pub proof fn lemma_create_names_probed_run(c: ConfigV, p: PromiseV, t: TriggerV, r: ResponseV, other: Seq<char>, now: i64)
    requires
        r.status == 404,
    ensures
        next_v(c, p, StageV::Probe { t }, EventV::Reply(r), now) matches (
            StageV::Create { t: t2 },
            ActionV::Send(q),
        ) && t2 == t && q.method == Method::Post && q.body is Some && jget(
            q.body->Some_0,
            "dag_run_id"@,
        ) == Some(JsonV::Str(t.run)) && (other != "dag_run_id"@ ==> jget(q.body->Some_0, other)
            == jget(JsonV::Object(members(t.body)), other)),
{
    lemma_put_then_find(members(t.body), "dag_run_id"@, JsonV::Str(t.run), other);
}

} // verus!
