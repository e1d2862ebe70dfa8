//! The n8n plugin: workflows and executions, and a retry watched to its end.
//!
//! n8n takes no client-supplied identity on any write, so nothing is
//! stamped: a retry that an earlier delivery started is found again by the
//! `retryOf` that n8n writes on it.
use vstd::prelude::*;
use crate::args::{arg_id, arg_id_v, arg_str, arg_str_v, names};
use crate::clock::{nap, nap_v};
use crate::http::{
    pieces_v, query_v, req_v, request, segment, segment_v, url, url_seg, url_seg_v, url_v,
    with_body_v, with_header_v, with_query_v, qtext, Action, ActionV, Event, EventV, Method,
    Param, ParamV, Part, PartV, Piece, PieceV, Request, RequestV, Response, ResponseV, body_v,
};
use crate::json::{
    get_str, jbool, jget, jv, lemma_jv_object, members, members_v, members_of, or_null, remove,
    drop_key, str_eq, str_v, scalar_text, Json, JsonV,
};
use crate::promise::{parsed_v, read_param, read_param_v, Promise, PromiseV};
use crate::query::{named, named_v, pick_present, pick_present_v};
use crate::text::{
    cat, cat3, int_error_text, int_error_text_v, parse_i64, parse_i64_v, q, quote, IntError,
};
use crate::verdict::{
    settles,
    coded,
    fail_v, reject, reject_v, release_v, text, Failure, FailureV, Payload, PayloadV, Verdict,
    VerdictV,
};

verus! {

/// The plugin's settings.
pub struct Config {
    pub base_url: String,
    pub api_key: String,
    /// The time between two polls of a retry, in milliseconds.
    pub poll: u64,
}

pub struct ConfigV {
    pub base_url: Seq<char>,
    pub api_key: Seq<char>,
    pub poll: u64,
}

impl View for Config {
    type V = ConfigV;

    open spec fn view(&self) -> ConfigV {
        ConfigV { base_url: self.base_url@, api_key: self.api_key@, poll: self.poll }
    }
}

/// `poll` where the settings leave it out: five seconds.
pub fn poll_default() -> (r: u64)
    ensures
        r == 5_000,
{
    5_000
}

/// The operations this plugin offers.
#[derive(PartialEq, Eq, Structural, Clone, Copy)]
pub enum Func {
    WorkflowCreate,
    WorkflowGet,
    WorkflowList,
    WorkflowUpdate,
    WorkflowPublish,
    WorkflowUnpublish,
    WorkflowArchive,
    WorkflowUnarchive,
    WorkflowDelete,
    ExecutionList,
    ExecutionGet,
    ExecutionRetry,
    ExecutionStop,
    ExecutionDelete,
}

pub open spec fn func_of(name: Seq<char>) -> Option<Func> {
    if name == "workflow.create"@ {
        Some(Func::WorkflowCreate)
    } else if name == "workflow.get"@ {
        Some(Func::WorkflowGet)
    } else if name == "workflow.list"@ {
        Some(Func::WorkflowList)
    } else if name == "workflow.update"@ {
        Some(Func::WorkflowUpdate)
    } else if name == "workflow.publish"@ {
        Some(Func::WorkflowPublish)
    } else if name == "workflow.unpublish"@ {
        Some(Func::WorkflowUnpublish)
    } else if name == "workflow.archive"@ {
        Some(Func::WorkflowArchive)
    } else if name == "workflow.unarchive"@ {
        Some(Func::WorkflowUnarchive)
    } else if name == "workflow.delete"@ {
        Some(Func::WorkflowDelete)
    } else if name == "execution.list"@ {
        Some(Func::ExecutionList)
    } else if name == "execution.get"@ {
        Some(Func::ExecutionGet)
    } else if name == "execution.retry"@ {
        Some(Func::ExecutionRetry)
    } else if name == "execution.stop"@ {
        Some(Func::ExecutionStop)
    } else if name == "execution.delete"@ {
        Some(Func::ExecutionDelete)
    } else {
        None
    }
}

fn func(name: &str) -> (r: Option<Func>)
    ensures
        r == func_of(name@),
{
    if str_eq(name, "workflow.create") {
        Some(Func::WorkflowCreate)
    } else if str_eq(name, "workflow.get") {
        Some(Func::WorkflowGet)
    } else if str_eq(name, "workflow.list") {
        Some(Func::WorkflowList)
    } else if str_eq(name, "workflow.update") {
        Some(Func::WorkflowUpdate)
    } else if str_eq(name, "workflow.publish") {
        Some(Func::WorkflowPublish)
    } else if str_eq(name, "workflow.unpublish") {
        Some(Func::WorkflowUnpublish)
    } else if str_eq(name, "workflow.archive") {
        Some(Func::WorkflowArchive)
    } else if str_eq(name, "workflow.unarchive") {
        Some(Func::WorkflowUnarchive)
    } else if str_eq(name, "workflow.delete") {
        Some(Func::WorkflowDelete)
    } else if str_eq(name, "execution.list") {
        Some(Func::ExecutionList)
    } else if str_eq(name, "execution.get") {
        Some(Func::ExecutionGet)
    } else if str_eq(name, "execution.retry") {
        Some(Func::ExecutionRetry)
    } else if str_eq(name, "execution.stop") {
        Some(Func::ExecutionStop)
    } else if str_eq(name, "execution.delete") {
        Some(Func::ExecutionDelete)
    } else {
        None
    }
}

// ─── Responses ──────────────────────────────────────────────────────────────

/// The classification every response that is not one of an operation's
/// own outcomes falls through to. 401 is a missing or rejected API key and
/// 403 a key whose scopes do not cover the call: both end only when an
/// operator issues or re-scopes a key, so they halt. 429 and 5xx release.
pub open spec fn check_v(r: ResponseV) -> Option<FailureV> {
    if r.status == 401 || r.status == 403 {
        Some(FailureV::Halt(PayloadV::Text(r.text)))
    } else if r.status == 429 || r.status >= 500 {
        Some(FailureV::Release(PayloadV::Text(r.text)))
    } else {
        None
    }
}

fn check(r: &Response) -> (f: Option<Failure>)
    ensures
        match f {
            Some(x) => check_v(r@) == Some(x@),
            None => check_v(r@) is None,
        },
{
    if r.status == 401 || r.status == 403 {
        Some(Failure::Halt(Payload::Text(r.text.clone())))
    } else if r.status == 429 || r.status >= 500 {
        Some(Failure::Release(Payload::Text(r.text.clone())))
    } else {
        None
    }
}

/// `response.body.message`, what the documented rejections quote; null
/// where absent.
pub open spec fn message_v(r: ResponseV) -> JsonV {
    or_null(jget(body_v(r), "message"@))
}

fn message(r: &Response) -> (j: Json)
    ensures
        j@ == message_v(r@),
{
    match r.json().get("message") {
        Some(x) => x.copy(),
        None => Json::Null,
    }
}

/// A request that produced no response releases with its error; one that
/// timed out says so.
pub open spec fn lost_v(msg: Seq<char>, timed_out: bool) -> Seq<char> {
    if timed_out {
        "request timed out"@
    } else {
        msg
    }
}

fn lost(msg: String, timed_out: bool) -> (r: String)
    ensures
        r@ == lost_v(msg@, timed_out),
{
    if timed_out {
        text("request timed out")
    } else {
        msg
    }
}

/// What the answer to an ordinary operation means.
#[derive(PartialEq, Eq, Structural, Clone, Copy)]
pub enum Kind {
    /// A 404 is `not_found`.
    Plain,
    /// A list: any 4xx is `invalid_request`.
    Listing,
    /// As `Plain`, and a 409 is a `conflict` quoting the body.
    Conflict,
}

pub open spec fn outcome_v(r: ResponseV, k: Kind) -> VerdictV {
    match check_v(r) {
        Some(f) => fail_v(f),
        None => if r.status == 404 && k != Kind::Listing {
            reject_v("not_found"@, Some(message_v(r)))
        } else if r.status == 409 && k == Kind::Conflict {
            // The version is saved; only its publication is blocked.
            reject_v("conflict"@, Some(body_v(r)))
        } else if r.status >= 400 {
            reject_v("invalid_request"@, Some(message_v(r)))
        } else {
            VerdictV::Resolve(PayloadV::Text(r.text))
        },
    }
}

fn outcome(r: &Response, k: Kind) -> (v: Verdict)
    ensures
        v@ == outcome_v(r@, k),
{
    match check(r) {
        Some(f) => f.into_verdict(),
        None => if r.status == 404 && k != Kind::Listing {
            reject("not_found", Some(message(r)))
        } else if r.status == 409 && k == Kind::Conflict {
            reject("conflict", Some(r.json()))
        } else if r.status >= 400 {
            reject("invalid_request", Some(message(r)))
        } else {
            Verdict::Resolve(Payload::Text(r.text.clone()))
        },
    }
}

// ─── Requests ───────────────────────────────────────────────────────────────

/// The API root.
pub open spec fn api_v(c: ConfigV) -> Seq<char> {
    c.base_url + "/api/v1"@
}

fn api(cfg: &Config) -> (r: String)
    ensures
        r@ == api_v(cfg@),
{
    cat(cfg.base_url.as_str(), "/api/v1")
}

/// The API key rides on every request, and every response is JSON.
pub open spec fn authed_v(c: ConfigV, m: Method, u: Seq<PieceV>) -> RequestV {
    with_header_v(with_header_v(req_v(m, u), "X-N8N-API-KEY"@, c.api_key), "Accept"@, "application/json"@)
}

fn authed(cfg: &Config, m: Method, u: Vec<Piece>) -> (r: Request)
    ensures
        r@ == authed_v(cfg@, m, pieces_v(u@)),
{
    request(m, u).header("X-N8N-API-KEY", cfg.api_key.as_str()).header("Accept", "application/json")
}

/// A read of `u` with the query `qs`.
pub open spec fn get_v(c: ConfigV, u: Seq<PieceV>, qs: Seq<(Seq<char>, ParamV)>) -> RequestV {
    with_query_v(authed_v(c, Method::Get, u), qs)
}

fn get(cfg: &Config, u: Vec<Piece>, qs: Vec<(String, Param)>) -> (r: Request)
    ensures
        r@ == get_v(cfg@, pieces_v(u@), query_v(qs@)),
{
    authed(cfg, Method::Get, u).query(qs)
}

/// A read of `u` with no query.
pub open spec fn read_v(c: ConfigV, u: Seq<char>) -> RequestV {
    get_v(c, url_v(u), Seq::empty())
}

fn read(cfg: &Config, u: String) -> (r: Request)
    ensures
        r@ == read_v(cfg@, u@),
{
    let qs: Vec<(String, Param)> = Vec::new();
    assert(query_v(qs@) =~= Seq::empty());
    get(cfg, url(u), qs)
}

pub open spec fn list_keys() -> Seq<Seq<char>> {
    seq![
        "active"@,
        "tags"@,
        "name"@,
        "projectId"@,
        "excludePinnedData"@,
        "offset"@,
        "limit"@,
        "cursor"@,
    ]
}

pub open spec fn execution_list_keys() -> Seq<Seq<char>> {
    seq![
        "status"@,
        "workflowId"@,
        "projectId"@,
        "includeData"@,
        "ignoreDataSizeLimit"@,
        "redactExecutionData"@,
        "limit"@,
        "cursor"@,
    ]
}

pub open spec fn execution_get_keys() -> Seq<Seq<char>> {
    seq!["includeData"@, "ignoreDataSizeLimit"@, "redactExecutionData"@]
}

/// The keys of a stopped execution's resolved mapping.
pub open spec fn stop_keys() -> Seq<Seq<char>> {
    seq!["mode"@, "status"@, "finished"@, "startedAt"@, "stoppedAt"@]
}

/// The keys of a successful retry's resolved mapping.
pub open spec fn retry_keys() -> Seq<Seq<char>> {
    seq![
        "id"@,
        "status"@,
        "finished"@,
        "mode"@,
        "retryOf"@,
        "retrySuccessId"@,
        "workflowId"@,
        "startedAt"@,
        "stoppedAt"@,
        "waitTill"@,
    ]
}

/// An execution's `status`; an absent one is empty.
pub open spec fn status_of(e: JsonV) -> Seq<char> {
    match get_str(e, "status"@) {
        Some(s) => s,
        None => ""@,
    }
}

fn status_exec(e: &Json) -> (r: String)
    ensures
        r@ == status_of(e@),
{
    match e.get_str("status") {
        Some(s) => s.clone(),
        None => {
            proof {
                reveal_strlit("");
            }
            String::new()
        },
    }
}

// ─── Retries ────────────────────────────────────────────────────────────────

/// What a retry carries from step to step.
pub struct Retry {
    /// The source execution's id, as given.
    pub source: String,
    /// That id read as a number.
    pub number: i64,
    /// The source execution's workflow.
    pub workflow: String,
    /// The retry's body: `loadWorkflow` where the args carry it.
    pub body: Json,
}

pub struct RetryV {
    pub source: Seq<char>,
    pub number: i64,
    pub workflow: Seq<char>,
    pub body: JsonV,
}

impl View for Retry {
    type V = RetryV;

    open spec fn view(&self) -> RetryV {
        RetryV {
            source: self.source@,
            number: self.number,
            workflow: self.workflow@,
            body: jv(self.body),
        }
    }
}

impl Retry {
    fn copy(&self) -> (r: Retry)
        ensures
            r@ == self@,
    {
        Retry {
            source: self.source.clone(),
            number: self.number,
            workflow: self.workflow.clone(),
            body: self.body.copy(),
        }
    }
}

/// The retry's body: `{"loadWorkflow": ..}` where the args carry the key,
/// else empty.
pub open spec fn retry_body_v(args: JsonV) -> JsonV {
    match jget(args, "loadWorkflow"@) {
        Some(v) => JsonV::Object(seq![("loadWorkflow"@, v)]),
        None => JsonV::Object(Seq::empty()),
    }
}

fn retry_body(args: &Json) -> (r: Json)
    ensures
        r@ == retry_body_v(args@),
{
    let mut m: Vec<(String, Json)> = Vec::new();
    let ghost a = jget(args@, "loadWorkflow"@);
    match args.get("loadWorkflow") {
        Some(v) => m.push((text("loadWorkflow"), v.copy())),
        None => {},
    }
    proof {
        lemma_jv_object(m);
        assert(members_v(m@) =~= members(retry_body_v(args@)));
    }
    Json::Object(m)
}

/// Whether the retry asks for the current workflow definition.
pub open spec fn loads_v(body: JsonV) -> bool {
    jget(body, "loadWorkflow"@) == Some(JsonV::Bool(true))
}

fn loads(body: &Json) -> (b: bool)
    ensures
        b == loads_v(body@),
{
    match body.get("loadWorkflow") {
        Some(Json::Bool(x)) => *x,
        _ => false,
    }
}

/// The release of an execution id that does not read as a number.
pub open spec fn bad_id_v(id: PartV, e: IntError) -> FailureV {
    FailureV::Release(
        PayloadV::Quoted("execution id "@, id, " is not a decimal integer: "@ + int_error_text_v(e)),
    )
}

fn bad_id(id: Part, e: IntError) -> (f: Failure)
    ensures
        f@ == bad_id_v(id@, e),
{
    let tail = cat(" is not a decimal integer: ", int_error_text(e).as_str());
    Failure::Release(Payload::Quoted(text("execution id "), id, tail))
}

/// The text of a field, as `str(v)` gives it: an absent or null field is empty, a
/// scalar its text; nothing for an array or an object, whose text is its
/// JSON.
pub open spec fn py_text_v(o: Option<JsonV>) -> Option<Seq<char>> {
    match o {
        None => Some(""@),
        Some(JsonV::Null) => Some(""@),
        Some(j) => str_v(j),
    }
}

fn py_text(o: Option<&Json>) -> (r: Option<String>)
    ensures
        match r {
            Some(t) => py_text_v(match o {
                Some(j) => Some(j@),
                None => None,
            }) == Some(t@),
            None => py_text_v(match o {
                Some(j) => Some(j@),
                None => None,
            }) is None,
        },
{
    proof {
        reveal_strlit("");
    }
    match o {
        None => Some(String::new()),
        Some(j) => if j.is_null() {
            Some(String::new())
        } else {
            scalar_text(j)
        },
    }
}

/// The text of a field as `str(v or "")` gives it: a falsy value (false, a zero) is empty too.
pub open spec fn py_or_empty_v(o: Option<JsonV>) -> Option<Seq<char>> {
    match o {
        Some(JsonV::Bool(false)) => Some(""@),
        Some(JsonV::Num(_, _, true)) => Some(""@),
        _ => py_text_v(o),
    }
}

/// An execution id field read as a number: `int(str(v))`. The JSON text of
/// an array or an object begins with `[` or `{`, an invalid digit.
pub open spec fn id_number_v(o: Option<JsonV>) -> Result<i64, FailureV> {
    match py_text_v(o) {
        Some(t) => match parse_i64_v(t) {
            Ok(v) => Ok(v),
            Err(e) => Err(bad_id_v(PartV::Text(t), e)),
        },
        None => Err(bad_id_v(PartV::Doc(or_null(o)), IntError::InvalidDigit)),
    }
}

fn id_number(o: Option<&Json>) -> (r: Result<i64, Failure>)
    ensures
        match r {
            Ok(v) => id_number_v(match o {
                Some(j) => Some(j@),
                None => None,
            }) == Ok::<i64, FailureV>(v),
            Err(f) => id_number_v(match o {
                Some(j) => Some(j@),
                None => None,
            }) == Err::<i64, FailureV>(f@),
        },
{
    match py_text(o) {
        Some(t) => match parse_i64(t.as_str()) {
            Ok(v) => Ok(v),
            Err(e) => Err(bad_id(Part::Text(t), e)),
        },
        None => {
            let d = match o {
                Some(j) => j.copy(),
                None => Json::Null,
            };
            Err(bad_id(Part::Doc(d), IntError::InvalidDigit))
        },
    }
}

/// Whether the execution is a retry of the source: its `retryOf`, read as
/// `str(v or "")`, is the source id. An array or an object never is: its
/// JSON text begins with `[` or `{`, and the source id reads as a number.
pub open spec fn retry_of_v(e: JsonV, source: Seq<char>) -> bool {
    py_or_empty_v(jget(e, "retryOf"@)) == Some(source)
}

fn retry_of(e: &Json, source: &str) -> (b: bool)
    ensures
        b == retry_of_v(e@, source@),
{
    proof {
        reveal_strlit("");
    }
    let o = e.get("retryOf");
    let ghost ov = match o {
        Some(j) => Some(j@),
        None => None::<JsonV>,
    };
    assert(ov == jget(e@, "retryOf"@));
    let t = match o {
        Some(Json::Bool(false)) => Some(String::new()),
        Some(Json::Num(n)) => if n.zero {
            Some(String::new())
        } else {
            py_text(o)
        },
        _ => py_text(o),
    };
    assert(match t {
        Some(x) => py_or_empty_v(ov) == Some(x@),
        None => py_or_empty_v(ov) is None,
    });
    match t {
        Some(t) => str_eq(t.as_str(), source),
        None => false,
    }
}

/// What a scan of one page of executions finds, newest first.
pub enum Scan {
    /// The retry of the source.
    Found(Json),
    /// An execution id that does not read as a number.
    Bad(Failure),
    /// An execution older than the source: no retry lies beyond it.
    Older,
    /// The page ends.
    Through,
}

pub enum ScanV {
    Found(JsonV),
    Bad(FailureV),
    Older,
    Through,
}

impl View for Scan {
    type V = ScanV;

    open spec fn view(&self) -> ScanV {
        match self {
            Scan::Found(e) => ScanV::Found(jv(*e)),
            Scan::Bad(f) => ScanV::Bad(f@),
            Scan::Older => ScanV::Older,
            Scan::Through => ScanV::Through,
        }
    }
}

/// The scan from the `i`-th execution on. A retry always takes a higher id
/// than its source, so the first execution older than the source ends it.
pub open spec fn scan_v(data: Seq<JsonV>, source: Seq<char>, number: i64, i: int) -> ScanV
    decreases data.len() - i,
{
    if i < 0 || i >= data.len() {
        ScanV::Through
    } else {
        let e = data[i];
        if retry_of_v(e, source) {
            ScanV::Found(e)
        } else {
            match id_number_v(jget(e, "id"@)) {
                Err(f) => ScanV::Bad(f),
                Ok(v) => if v < number {
                    ScanV::Older
                } else {
                    scan_v(data, source, number, i + 1)
                },
            }
        }
    }
}

/// A page's `data`: none where it is not an array.
pub open spec fn page_data_v(page: JsonV) -> Seq<JsonV> {
    match jget(page, "data"@) {
        Some(JsonV::Array(a)) => a,
        _ => Seq::empty(),
    }
}

fn scan(page: &Json, source: &str, number: i64) -> (r: Scan)
    ensures
        r@ == scan_v(page_data_v(page@), source@, number, 0),
{
    match page.get("data") {
        Some(Json::Array(a)) => {
            proof {
                crate::json::lemma_jv_array(*a);
            }
            let ghost data = page_data_v(page@);
            let mut i: usize = 0;
            while i < a.len()
                invariant
                    i <= a.len(),
                    data == page_data_v(page@),
                    data.len() == a.len(),
                    forall|j: int| 0 <= j < a.len() ==> data[j] == jv(#[trigger] a[j]),
                    scan_v(data, source@, number, 0) == scan_v(data, source@, number, i as int),
                decreases a.len() - i,
            {
                let e = &a[i];
                assert(data[i as int] == e@);
                if retry_of(e, source) {
                    return Scan::Found(e.copy());
                }
                match id_number(e.get("id")) {
                    Err(f) => {
                        return Scan::Bad(f);
                    },
                    Ok(v) => if v < number {
                        return Scan::Older;
                    },
                }
                i = i + 1;
            }
            Scan::Through
        },
        _ => Scan::Through,
    }
}

/// What one page of the search for a retry gives.
pub enum Paged {
    /// The read failed.
    Fail(Failure),
    /// The retry.
    Found(Json),
    /// Read on from this cursor.
    More(String),
    /// Nothing more to read with this status.
    Spent,
}

pub enum PagedV {
    Fail(FailureV),
    Found(JsonV),
    More(Seq<char>),
    Spent,
}

impl View for Paged {
    type V = PagedV;

    open spec fn view(&self) -> PagedV {
        match self {
            Paged::Fail(f) => PagedV::Fail(f@),
            Paged::Found(e) => PagedV::Found(jv(*e)),
            Paged::More(c) => PagedV::More(c@),
            Paged::Spent => PagedV::Spent,
        }
    }
}

/// One page of `/executions`. Any 4xx is unclassified here: this read is
/// the plugin's own bookkeeping, not one of the operation's outcomes.
pub open spec fn paged_v(r: ResponseV, source: Seq<char>, number: i64) -> PagedV {
    match check_v(r) {
        Some(f) => PagedV::Fail(f),
        None => if r.status >= 400 {
            PagedV::Fail(FailureV::Release(PayloadV::Text(r.text)))
        } else {
            let page = body_v(r);
            match scan_v(page_data_v(page), source, number, 0) {
                ScanV::Found(e) => PagedV::Found(e),
                ScanV::Bad(f) => PagedV::Fail(f),
                ScanV::Older => PagedV::Spent,
                ScanV::Through => match get_str(page, "nextCursor"@) {
                    Some(c) => PagedV::More(c),
                    None => PagedV::Spent,
                },
            }
        },
    }
}

fn paged(r: &Response, source: &str, number: i64) -> (p: Paged)
    ensures
        p@ == paged_v(r@, source@, number),
{
    match check(r) {
        Some(f) => Paged::Fail(f),
        None => if r.status >= 400 {
            Paged::Fail(Failure::Release(Payload::Text(r.text.clone())))
        } else {
            let page = r.json();
            match scan(&page, source, number) {
                Scan::Found(e) => Paged::Found(e),
                Scan::Bad(f) => Paged::Fail(f),
                Scan::Older => Paged::Spent,
                Scan::Through => match page.get_str("nextCursor") {
                    Some(c) => Paged::More(c.clone()),
                    None => Paged::Spent,
                },
            }
        },
    }
}

/// The page of the workflow's executions that the search reads next:
/// those running first (the list leaves them out unless asked), then all.
pub open spec fn page_request_v(c: ConfigV, workflow: Seq<char>, running: bool, cursor: Option<Seq<char>>) -> RequestV {
    get_v(
        c,
        url_v(api_v(c) + "/executions"@),
        seq![("workflowId"@, ParamV::Text(workflow)), ("limit"@, ParamV::Text("250"@))] + (if running {
            seq![("status"@, ParamV::Text("running"@))]
        } else {
            Seq::empty()
        }) + match cursor {
            Some(x) => seq![("cursor"@, ParamV::Text(x))],
            None => Seq::empty(),
        },
    )
}

fn page_request(cfg: &Config, workflow: &str, running: bool, cursor: Option<String>) -> (r: Request)
    ensures
        r@ == page_request_v(cfg@, workflow@, running, match cursor {
            Some(x) => Some(x@),
            None => None,
        }),
{
    let ghost cv = match &cursor {
        Some(x) => Some(x@),
        None => None::<Seq<char>>,
    };
    let mut qs: Vec<(String, Param)> = Vec::new();
    qs.push(qtext("workflowId", text(workflow)));
    qs.push(qtext("limit", text("250")));
    let ghost head = query_v(qs@);
    if running {
        qs.push(qtext("status", text("running")));
    }
    let ghost mid = query_v(qs@);
    match cursor {
        Some(x) => {
            qs.push(qtext("cursor", x));
        },
        None => {},
    }
    assert(query_v(qs@) =~= seq![
        ("workflowId"@, ParamV::Text(workflow@)),
        ("limit"@, ParamV::Text("250"@)),
    ] + (if running {
        seq![("status"@, ParamV::Text("running"@))]
    } else {
        Seq::empty()
    }) + match cv {
        Some(x) => seq![("cursor"@, ParamV::Text(x))],
        None => Seq::empty(),
    });
    get(cfg, url(cat(api(cfg).as_str(), "/executions")), qs)
}

/// The source execution's read.
pub open spec fn source_request_v(c: ConfigV, source: Seq<char>) -> RequestV {
    read_v(c, api_v(c) + "/executions/"@ + q(source))
}

fn source_request(cfg: &Config, source: &str) -> (r: Request)
    ensures
        r@ == source_request_v(cfg@, source@),
{
    read(cfg, cat3(api(cfg).as_str(), "/executions/", quote(source).as_str()))
}

/// The retry itself. It runs the workflow and answers only once the run
/// ends, so it outlives the request timeout on all but the shortest runs.
pub open spec fn retry_request_v(c: ConfigV, r: RetryV) -> RequestV {
    with_body_v(
        authed_v(c, Method::Post, url_v(api_v(c) + "/executions/"@ + q(r.source) + "/retry"@)),
        r.body,
    )
}

fn retry_request(cfg: &Config, r: &Retry) -> (req: Request)
    ensures
        req@ == retry_request_v(cfg@, r@),
{
    let u = cat3(api(cfg).as_str(), "/executions/", quote(r.source.as_str()).as_str()).concat(
        "/retry",
    );
    authed(cfg, Method::Post, url(u)).json(r.body.copy())
}

/// The path segment `quote(str(v))` of an id field; an absent or null one
/// is empty.
pub open spec fn id_segment_v(o: Option<JsonV>) -> PieceV {
    match o {
        None => PieceV::Text(""@),
        Some(JsonV::Null) => PieceV::Text(""@),
        Some(j) => segment_v(j),
    }
}

/// The read of the retry execution as it now stands.
pub open spec fn observe_request_v(c: ConfigV, e: JsonV) -> RequestV {
    get_v(c, url_seg_v(api_v(c) + "/executions/"@, id_segment_v(jget(e, "id"@)), ""@), Seq::empty())
}

fn observe_request(cfg: &Config, e: &Json) -> (r: Request)
    ensures
        r@ == observe_request_v(cfg@, e@),
{
    proof {
        reveal_strlit("");
    }
    let seg = match e.get("id") {
        None => Piece::Text(String::new()),
        Some(j) => if j.is_null() {
            Piece::Text(String::new())
        } else {
            segment(j)
        },
    };
    let qs: Vec<(String, Param)> = Vec::new();
    assert(query_v(qs@) =~= Seq::empty());
    get(cfg, url_seg(cat(api(cfg).as_str(), "/executions/"), seg, ""), qs)
}

pub open spec fn terminal_v(s: Seq<char>) -> bool {
    s == "success"@ || s == "error"@ || s == "canceled"@ || s == "crashed"@
}

fn terminal(s: &str) -> (b: bool)
    ensures
        b == terminal_v(s@),
{
    str_eq(s, "success") || str_eq(s, "error") || str_eq(s, "canceled") || str_eq(s, "crashed")
}

/// The verdict on a retry that reached a terminal status.
pub open spec fn settle_v(e: JsonV) -> VerdictV {
    let s = status_of(e);
    if s == "success"@ {
        VerdictV::Resolve(PayloadV::Doc(JsonV::Object(pick_present_v(e, retry_keys()))))
    } else if s == "error"@ {
        reject_v("execution_failed"@, Some(e))
    } else if s == "canceled"@ {
        reject_v("execution_canceled"@, Some(e))
    } else {
        reject_v("execution_crashed"@, Some(e))
    }
}

fn settle(e: Json) -> (v: Verdict)
    ensures
        v@ == settle_v(e@),
{
    let s = status_exec(&e);
    if str_eq(s.as_str(), "success") {
        let ks = [
            "id",
            "status",
            "finished",
            "mode",
            "retryOf",
            "retrySuccessId",
            "workflowId",
            "startedAt",
            "stoppedAt",
            "waitTill",
        ];
        assert(names(ks@) =~= retry_keys());
        Verdict::Resolve(Payload::Doc(pick_present(&e, &ks)))
    } else if str_eq(s.as_str(), "error") {
        reject("execution_failed", Some(e))
    } else if str_eq(s.as_str(), "canceled") {
        reject("execution_canceled", Some(e))
    } else {
        reject("execution_crashed", Some(e))
    }
}

/// The resolved mapping of a stopped execution.
pub open spec fn stop_mapping_v(e: JsonV) -> VerdictV {
    VerdictV::Resolve(PayloadV::Doc(JsonV::Object(pick_present_v(e, stop_keys()))))
}

fn stop_mapping(e: &Json) -> (v: Verdict)
    ensures
        v@ == stop_mapping_v(e@),
{
    let ks = ["mode", "status", "finished", "startedAt", "stoppedAt"];
    assert(names(ks@) =~= stop_keys());
    Verdict::Resolve(Payload::Doc(pick_present(e, &ks)))
}

// ─── The machine ────────────────────────────────────────────────────────────

/// Whether a search for the retry comes before the retry is started, or
/// inside the poll loop with the failures counted so far.
#[derive(PartialEq, Eq, Structural, Clone, Copy)]
pub enum Looking {
    Start,
    Watch { failures: u64 },
}

/// Where a delivery stands.
pub enum Stage {
    Done,
    /// An ordinary operation's request is out.
    Read { kind: Kind },
    /// workflow.unarchive: the unarchive is out (`id` quoted).
    Unarchiving { id: String },
    /// The workflow is re-read after a 400, whose message is `detail`.
    UnarchiveCheck { detail: Json },
    /// execution.delete: the delete is out.
    Deleting { id: String },
    /// The execution is re-read after a 400.
    DeleteCheck { detail: Json },
    /// execution.stop: the stop is out.
    Stopping { id: String },
    /// The execution is re-read after a 500, whose text is `text`.
    StopCheck { text: String },
    /// execution.retry: the source execution's read is out.
    Source { source: String, body: Json },
    /// A page of the search for the retry is out.
    Finding { r: Retry, running: bool, looking: Looking },
    /// The retry is out.
    Starting { r: Retry },
    /// Sleeping between two polls, with the retry as last seen.
    Sleeping { r: Retry, e: Option<Json>, failures: u64 },
    /// The read of the retry is out.
    Observing { r: Retry, cur: Json, failures: u64 },
}

pub enum StageV {
    Done,
    Read { kind: Kind },
    Unarchiving { id: Seq<char> },
    UnarchiveCheck { detail: JsonV },
    Deleting { id: Seq<char> },
    DeleteCheck { detail: JsonV },
    Stopping { id: Seq<char> },
    StopCheck { text: Seq<char> },
    Source { source: Seq<char>, body: JsonV },
    Finding { r: RetryV, running: bool, looking: Looking },
    Starting { r: RetryV },
    Sleeping { r: RetryV, e: Option<JsonV>, failures: u64 },
    Observing { r: RetryV, cur: JsonV, failures: u64 },
}

impl View for Stage {
    type V = StageV;

    open spec fn view(&self) -> StageV {
        match self {
            Stage::Done => StageV::Done,
            Stage::Read { kind } => StageV::Read { kind: *kind },
            Stage::Unarchiving { id } => StageV::Unarchiving { id: id@ },
            Stage::UnarchiveCheck { detail } => StageV::UnarchiveCheck { detail: jv(*detail) },
            Stage::Deleting { id } => StageV::Deleting { id: id@ },
            Stage::DeleteCheck { detail } => StageV::DeleteCheck { detail: jv(*detail) },
            Stage::Stopping { id } => StageV::Stopping { id: id@ },
            Stage::StopCheck { text } => StageV::StopCheck { text: text@ },
            Stage::Source { source, body } => StageV::Source { source: source@, body: jv(*body) },
            Stage::Finding { r, running, looking } => StageV::Finding {
                r: r@,
                running: *running,
                looking: *looking,
            },
            Stage::Starting { r } => StageV::Starting { r: r@ },
            Stage::Sleeping { r, e, failures } => StageV::Sleeping {
                r: r@,
                e: match e {
                    Some(x) => Some(jv(*x)),
                    None => None,
                },
                failures: *failures,
            },
            Stage::Observing { r, cur, failures } => StageV::Observing {
                r: r@,
                cur: jv(*cur),
                failures: *failures,
            },
        }
    }
}

pub open spec fn finish(v: VerdictV) -> (StageV, ActionV) {
    (StageV::Done, ActionV::Finish(v))
}

pub open spec fn invalid(e: Seq<char>) -> (StageV, ActionV) {
    finish(reject_v("invalid_request"@, Some(JsonV::Str(e))))
}

pub open spec fn send_v(k: Kind, req: RequestV) -> (StageV, ActionV) {
    (StageV::Read { kind: k }, ActionV::Send(req))
}

/// The message of an id argument of the wrong type.
pub open spec fn id_what() -> Seq<char> {
    "a string or a number"@
}

/// The workflow's path: `/workflows/{quote(id)}`.
pub open spec fn workflow_v(c: ConfigV, id: Seq<char>) -> Seq<char> {
    api_v(c) + "/workflows/"@ + q(id)
}

/// The execution's path: `/executions/{quote(id)}`.
pub open spec fn execution_v(c: ConfigV, id: Seq<char>) -> Seq<char> {
    api_v(c) + "/executions/"@ + q(id)
}

/// The first step of a delivery.
pub open spec fn start_v(c: ConfigV, p: PromiseV, parsed: Result<JsonV, Seq<char>>) -> (StageV, ActionV) {
    match read_param_v(parsed) {
        Err(v) => finish(v),
        Ok((name, args)) => match func_of(name) {
            None => finish(reject_v("unknown_func"@, Some(JsonV::Str(name)))),
            Some(f) => match f {
                Func::WorkflowCreate => send_v(
                    Kind::Plain,
                    with_body_v(authed_v(c, Method::Post, url_v(api_v(c) + "/workflows"@)), args),
                ),
                Func::WorkflowList => send_v(
                    Kind::Listing,
                    get_v(c, url_v(api_v(c) + "/workflows"@), named_v(args, list_keys())),
                ),
                Func::ExecutionList => send_v(
                    Kind::Listing,
                    get_v(c, url_v(api_v(c) + "/executions"@), named_v(args, execution_list_keys())),
                ),
                Func::ExecutionGet | Func::ExecutionRetry | Func::ExecutionStop
                | Func::ExecutionDelete => match arg_id_v(args, "id"@, id_what()) {
                    Err(e) => invalid(e),
                    Ok(id) => if f == Func::ExecutionGet {
                        send_v(
                            Kind::Plain,
                            get_v(c, url_v(execution_v(c, id)), named_v(args, execution_get_keys())),
                        )
                    } else if f == Func::ExecutionRetry {
                        (
                            StageV::Source { source: id, body: retry_body_v(args) },
                            ActionV::Send(source_request_v(c, id)),
                        )
                    } else if f == Func::ExecutionStop {
                        (
                            StageV::Stopping { id: q(id) },
                            ActionV::Send(
                                authed_v(c, Method::Post, url_v(execution_v(c, id) + "/stop"@)),
                            ),
                        )
                    } else {
                        (
                            StageV::Deleting { id: q(id) },
                            ActionV::Send(authed_v(c, Method::Delete, url_v(execution_v(c, id)))),
                        )
                    },
                },
                _ => match arg_str_v(args, "id"@) {
                    Err(e) => invalid(e),
                    Ok(id) => {
                        let w = workflow_v(c, id);
                        if f == Func::WorkflowGet {
                            send_v(
                                Kind::Plain,
                                get_v(c, url_v(w), named_v(args, seq!["excludePinnedData"@])),
                            )
                        } else if f == Func::WorkflowUpdate {
                            send_v(
                                Kind::Conflict,
                                with_body_v(
                                    with_query_v(
                                        authed_v(c, Method::Put, url_v(w)),
                                        named_v(args, seq!["publishIfActive"@]),
                                    ),
                                    JsonV::Object(
                                        drop_key(drop_key(members(args), "id"@), "publishIfActive"@),
                                    ),
                                ),
                            )
                        } else if f == Func::WorkflowPublish {
                            send_v(
                                Kind::Conflict,
                                with_body_v(
                                    authed_v(c, Method::Post, url_v(w + "/publish"@)),
                                    JsonV::Object(drop_key(members(args), "id"@)),
                                ),
                            )
                        } else if f == Func::WorkflowUnpublish {
                            send_v(Kind::Plain, authed_v(c, Method::Post, url_v(w + "/unpublish"@)))
                        } else if f == Func::WorkflowArchive {
                            send_v(Kind::Plain, authed_v(c, Method::Post, url_v(w + "/archive"@)))
                        } else if f == Func::WorkflowUnarchive {
                            (
                                StageV::Unarchiving { id: q(id) },
                                ActionV::Send(authed_v(c, Method::Post, url_v(w + "/unarchive"@))),
                            )
                        } else {
                            send_v(Kind::Plain, authed_v(c, Method::Delete, url_v(w)))
                        }
                    },
                },
            },
        },
    }
}

/// The head of the poll loop: stop at the deadline, settle a retry that
/// reached a terminal status, else sleep.
pub open spec fn head_v(c: ConfigV, p: PromiseV, r: RetryV, e: Option<JsonV>, failures: u64, now: i64) -> (
    StageV,
    ActionV,
) {
    if now >= p.timeout_at {
        finish(release_v("promise timed out"@))
    } else {
        match e {
            Some(cur) => if terminal_v(status_of(cur)) {
                finish(settle_v(cur))
            } else {
                (StageV::Sleeping { r, e, failures }, ActionV::Sleep(nap_v(c.poll, p.timeout_at, now)))
            },
            None => (
                StageV::Sleeping { r, e, failures },
                ActionV::Sleep(nap_v(c.poll, p.timeout_at, now)),
            ),
        }
    }
}

/// A failure inside the poll loop: a halt ends the delivery; a release
/// ends it at the fifth in a row, and is otherwise waited out.
pub open spec fn failed_v(c: ConfigV, p: PromiseV, r: RetryV, e: Option<JsonV>, failures: u64, f: FailureV, now: i64) -> (
    StageV,
    ActionV,
) {
    match f {
        FailureV::Halt(_) => finish(fail_v(f)),
        FailureV::Release(_) => if failures + 1 >= 5 {
            finish(fail_v(f))
        } else {
            head_v(c, p, r, e, (failures + 1) as u64, now)
        },
    }
}

/// A failed search: before the retry starts it ends the delivery; inside
/// the loop it counts.
pub open spec fn search_failed_v(c: ConfigV, p: PromiseV, r: RetryV, looking: Looking, f: FailureV, now: i64) -> (
    StageV,
    ActionV,
) {
    match looking {
        Looking::Start => finish(fail_v(f)),
        Looking::Watch { failures } => failed_v(c, p, r, None, failures, f, now),
    }
}

/// The answer to the source execution's read.
pub open spec fn sourced_v(c: ConfigV, source: Seq<char>, body: JsonV, resp: ResponseV) -> (StageV, ActionV) {
    match check_v(resp) {
        Some(f) => finish(fail_v(f)),
        None => if resp.status == 404 {
            finish(reject_v("not_found"@, Some(message_v(resp))))
        } else if resp.status >= 400 {
            finish(reject_v("invalid_request"@, Some(message_v(resp))))
        } else {
            match get_str(body_v(resp), "workflowId"@) {
                None => finish(
                    release_v("execution "@ + source + " carries no workflowId: "@ + resp.text),
                ),
                Some(w) => match parse_i64_v(source) {
                    Err(e) => finish(fail_v(bad_id_v(PartV::Text(source), e))),
                    Ok(n) => {
                        let r = RetryV { source, number: n, workflow: w, body };
                        (
                            StageV::Finding { r, running: true, looking: Looking::Start },
                            ActionV::Send(page_request_v(c, w, true, None)),
                        )
                    },
                },
            }
        },
    }
}

/// The answer to one page of the search.
pub open spec fn searched_v(c: ConfigV, p: PromiseV, r: RetryV, running: bool, looking: Looking, resp: ResponseV, now: i64) -> (
    StageV,
    ActionV,
) {
    match paged_v(resp, r.source, r.number) {
        PagedV::Fail(f) => search_failed_v(c, p, r, looking, f, now),
        PagedV::Found(e) => head_v(c, p, r, Some(e), 0, now),
        PagedV::More(x) => (
            StageV::Finding { r, running, looking },
            ActionV::Send(page_request_v(c, r.workflow, running, Some(x))),
        ),
        PagedV::Spent => if running {
            (
                StageV::Finding { r, running: false, looking },
                ActionV::Send(page_request_v(c, r.workflow, false, None)),
            )
        } else {
            match looking {
                Looking::Start => (StageV::Starting { r }, ActionV::Send(retry_request_v(c, r))),
                Looking::Watch { .. } => head_v(c, p, r, None, 0, now),
            }
        },
    }
}

/// The answer to the retry. A 500 with `loadWorkflow` true is a definition
/// that no longer holds a node the stopped execution stood on: n8n cannot
/// start the retry, and a redelivery would meet the same 500.
pub open spec fn started_v(c: ConfigV, p: PromiseV, r: RetryV, resp: ResponseV, now: i64) -> (StageV, ActionV) {
    if resp.status == 500 && loads_v(r.body) {
        finish(reject_v("workflow_changed"@, Some(message_v(resp))))
    } else {
        match check_v(resp) {
            Some(f) => finish(fail_v(f)),
            None => if resp.status == 404 {
                finish(reject_v("not_found"@, Some(message_v(resp))))
            } else if resp.status == 409 {
                // The source succeeded, was aborted before its data was
                // saved, or is still queued.
                finish(reject_v("not_retryable"@, Some(message_v(resp))))
            } else if resp.status >= 400 {
                finish(reject_v("invalid_request"@, Some(message_v(resp))))
            } else {
                head_v(c, p, r, Some(body_v(resp)), 0, now)
            },
        }
    }
}

/// The answer to a read of the retry.
pub open spec fn observed_v(c: ConfigV, p: PromiseV, r: RetryV, cur: JsonV, failures: u64, resp: ResponseV, now: i64) -> (
    StageV,
    ActionV,
) {
    match check_v(resp) {
        Some(f) => failed_v(c, p, r, Some(cur), failures, f, now),
        None => if resp.status == 404 {
            finish(reject_v("deleted"@, None))
        } else if resp.status >= 400 {
            finish(reject_v("invalid_request"@, Some(message_v(resp))))
        } else {
            head_v(c, p, r, Some(body_v(resp)), 0, now)
        },
    }
}

/// The answer to the unarchive. n8n answers 400 "Workflow is not archived.",
/// the same answer a redelivery meets once the unarchive landed, so the
/// stored workflow decides.
pub open spec fn unarchived_v(c: ConfigV, id: Seq<char>, resp: ResponseV) -> (StageV, ActionV) {
    match check_v(resp) {
        Some(f) => finish(fail_v(f)),
        None => if resp.status == 404 {
            finish(reject_v("not_found"@, Some(message_v(resp))))
        } else if resp.status == 400 {
            (
                StageV::UnarchiveCheck { detail: message_v(resp) },
                ActionV::Send(read_v(c, api_v(c) + "/workflows/"@ + id)),
            )
        } else if resp.status >= 400 {
            finish(reject_v("invalid_request"@, Some(message_v(resp))))
        } else {
            finish(VerdictV::Resolve(PayloadV::Text(resp.text)))
        },
    }
}

/// Whether the stored workflow is archived; absent is not.
pub open spec fn archived_v(g: ResponseV) -> bool {
    jbool(jget(body_v(g), "isArchived"@)) == Some(true)
}

/// The stored workflow after a refused unarchive: not archived is the state
/// the call asks for.
pub open spec fn unarchive_checked_v(detail: JsonV, g: ResponseV) -> VerdictV {
    match check_v(g) {
        Some(f) => fail_v(f),
        None => if g.status == 200 && !archived_v(g) {
            VerdictV::Resolve(PayloadV::Text(g.text))
        } else {
            reject_v("invalid_request"@, Some(detail))
        },
    }
}

/// The answer to an execution's delete. n8n answers 400 both for a running
/// execution and for an id it cannot parse, so the execution's own status
/// separates them.
pub open spec fn deleted_v(c: ConfigV, id: Seq<char>, resp: ResponseV) -> (StageV, ActionV) {
    match check_v(resp) {
        Some(f) => finish(fail_v(f)),
        None => if resp.status == 404 {
            finish(reject_v("not_found"@, Some(message_v(resp))))
        } else if resp.status == 400 {
            (
                StageV::DeleteCheck { detail: message_v(resp) },
                ActionV::Send(read_v(c, api_v(c) + "/executions/"@ + id)),
            )
        } else if resp.status >= 400 {
            finish(reject_v("invalid_request"@, Some(message_v(resp))))
        } else {
            finish(VerdictV::Resolve(PayloadV::Text(resp.text)))
        },
    }
}

/// Only a running execution blocks the delete.
pub open spec fn delete_checked_v(detail: JsonV, g: ResponseV) -> VerdictV {
    match check_v(g) {
        Some(f) => fail_v(f),
        None => if g.status == 200 && jget(body_v(g), "status"@) == Some(JsonV::Str("running"@)) {
            reject_v("not_deletable"@, Some(detail))
        } else {
            reject_v("invalid_request"@, Some(detail))
        },
    }
}

/// The answer to a stop. n8n answers 500 for an execution that is no longer
/// new, running, waiting or unknown, and the same 500 for a server fault, so
/// the execution's own status separates them.
pub open spec fn stopped_v(c: ConfigV, id: Seq<char>, resp: ResponseV) -> (StageV, ActionV) {
    if resp.status == 500 {
        (
            StageV::StopCheck { text: resp.text },
            ActionV::Send(read_v(c, api_v(c) + "/executions/"@ + id)),
        )
    } else {
        match check_v(resp) {
            Some(f) => finish(fail_v(f)),
            None => if resp.status == 404 {
                finish(reject_v("not_found"@, Some(message_v(resp))))
            } else if resp.status >= 400 {
                finish(reject_v("invalid_request"@, Some(message_v(resp))))
            } else {
                finish(stop_mapping_v(body_v(resp)))
            },
        }
    }
}

/// The execution after a refused stop: already canceled (by an earlier
/// delivery or by someone else) is the state the call asks for.
pub open spec fn stop_checked_v(t: Seq<char>, g: ResponseV) -> VerdictV {
    match check_v(g) {
        Some(f) => fail_v(f),
        None => if g.status == 404 {
            reject_v("not_found"@, Some(message_v(g)))
        } else if g.status >= 400 {
            reject_v("invalid_request"@, Some(message_v(g)))
        } else {
            let e = body_v(g);
            let s = status_of(e);
            if s == "canceled"@ {
                stop_mapping_v(e)
            } else if s == "success"@ || s == "error"@ || s == "crashed"@ {
                reject_v("not_stoppable"@, Some(e))
            } else {
                release_v(t)
            }
        },
    }
}

/// One step: the stage and what just happened give the next stage and action.
pub open spec fn next_v(c: ConfigV, p: PromiseV, s: StageV, ev: EventV, now: i64) -> (StageV, ActionV) {
    match ev {
        EventV::Lost(msg, timed_out) => match s {
            StageV::Starting { r } => if timed_out {
                // The retry runs on; the poll finds it by its retryOf.
                head_v(c, p, r, None, 0, now)
            } else {
                finish(release_v(msg))
            },
            StageV::Finding { r, looking, .. } => search_failed_v(
                c,
                p,
                r,
                looking,
                FailureV::Release(PayloadV::Text(lost_v(msg, timed_out))),
                now,
            ),
            StageV::Observing { r, cur, failures } => failed_v(
                c,
                p,
                r,
                Some(cur),
                failures,
                FailureV::Release(PayloadV::Text(lost_v(msg, timed_out))),
                now,
            ),
            _ => finish(release_v(lost_v(msg, timed_out))),
        },
        EventV::Woke => match s {
            StageV::Sleeping { r, e, failures } => match e {
                None => (
                    StageV::Finding { r, running: true, looking: Looking::Watch { failures } },
                    ActionV::Send(page_request_v(c, r.workflow, true, None)),
                ),
                Some(cur) => (
                    StageV::Observing { r, cur, failures },
                    ActionV::Send(observe_request_v(c, cur)),
                ),
            },
            _ => finish(release_v(Seq::empty())),
        },
        EventV::Reply(resp) => match s {
            StageV::Read { kind } => finish(outcome_v(resp, kind)),
            StageV::Unarchiving { id } => unarchived_v(c, id, resp),
            StageV::UnarchiveCheck { detail } => finish(unarchive_checked_v(detail, resp)),
            StageV::Deleting { id } => deleted_v(c, id, resp),
            StageV::DeleteCheck { detail } => finish(delete_checked_v(detail, resp)),
            StageV::Stopping { id } => stopped_v(c, id, resp),
            StageV::StopCheck { text } => finish(stop_checked_v(text, resp)),
            StageV::Source { source, body } => sourced_v(c, source, body, resp),
            StageV::Finding { r, running, looking } => searched_v(c, p, r, running, looking, resp, now),
            StageV::Starting { r } => started_v(c, p, r, resp, now),
            StageV::Observing { r, cur, failures } => observed_v(c, p, r, cur, failures, resp, now),
            _ => finish(release_v(Seq::empty())),
        },
    }
}

fn done(v: Verdict) -> (r: (Stage, Action))
    ensures
        (r.0@, r.1@) == finish(v@),
{
    (Stage::Done, Action::Finish(v))
}

fn invalid_exec(e: String) -> (r: (Stage, Action))
    ensures
        (r.0@, r.1@) == invalid(e@),
{
    done(reject("invalid_request", Some(Json::Str(e))))
}

fn send(k: Kind, req: Request) -> (r: (Stage, Action))
    ensures
        (r.0@, r.1@) == send_v(k, req@),
{
    (Stage::Read { kind: k }, Action::Send(req))
}

fn head(cfg: &Config, promise: &Promise, r: Retry, e: Option<Json>, failures: u64, now: i64) -> (o: (
    Stage,
    Action,
))
    ensures
        (o.0@, o.1@) == head_v(cfg@, promise@, r@, match e {
            Some(x) => Some(x@),
            None => None,
        }, failures, now),
{
    if now >= promise.timeout_at {
        return done(Verdict::Release(Payload::Text(text("promise timed out"))));
    }
    let ms = nap(cfg.poll, promise.timeout_at, now);
    match e {
        Some(cur) => if terminal(status_exec(&cur).as_str()) {
            done(settle(cur))
        } else {
            (Stage::Sleeping { r, e: Some(cur), failures }, Action::Sleep(ms))
        },
        None => (Stage::Sleeping { r, e: None, failures }, Action::Sleep(ms)),
    }
}

fn failed(cfg: &Config, promise: &Promise, r: Retry, e: Option<Json>, failures: u64, f: Failure, now: i64) -> (o: (
    Stage,
    Action,
))
    ensures
        (o.0@, o.1@) == failed_v(cfg@, promise@, r@, match e {
            Some(x) => Some(x@),
            None => None,
        }, failures, f@, now),
{
    match f {
        Failure::Halt(x) => done(Verdict::Halt(x)),
        Failure::Release(x) => if failures >= 4 {
            done(Verdict::Release(x))
        } else {
            head(cfg, promise, r, e, failures + 1, now)
        },
    }
}

fn search_failed(cfg: &Config, promise: &Promise, r: Retry, looking: Looking, f: Failure, now: i64) -> (o: (
    Stage,
    Action,
))
    ensures
        (o.0@, o.1@) == search_failed_v(cfg@, promise@, r@, looking, f@, now),
{
    match looking {
        Looking::Start => done(f.into_verdict()),
        Looking::Watch { failures } => failed(cfg, promise, r, None, failures, f, now),
    }
}

fn sourced(cfg: &Config, source: String, body: Json, resp: &Response) -> (o: (Stage, Action))
    ensures
        (o.0@, o.1@) == sourced_v(cfg@, source@, body@, resp@),
{
    match check(resp) {
        Some(f) => done(f.into_verdict()),
        None => if resp.status == 404 {
            done(reject("not_found", Some(message(resp))))
        } else if resp.status >= 400 {
            done(reject("invalid_request", Some(message(resp))))
        } else {
            match resp.json().get_str("workflowId") {
                None => {
                    let t = cat3("execution ", source.as_str(), " carries no workflowId: ").concat(
                        resp.text.as_str(),
                    );
                    done(Verdict::Release(Payload::Text(t)))
                },
                Some(w) => match parse_i64(source.as_str()) {
                    Err(e) => done(bad_id(Part::Text(source), e).into_verdict()),
                    Ok(n) => {
                        let req = page_request(cfg, w.as_str(), true, None);
                        let r = Retry { source, number: n, workflow: w.clone(), body };
                        (Stage::Finding { r, running: true, looking: Looking::Start }, Action::Send(req))
                    },
                },
            }
        },
    }
}

fn searched(cfg: &Config, promise: &Promise, r: Retry, running: bool, looking: Looking, resp: &Response, now: i64) -> (o: (
    Stage,
    Action,
))
    ensures
        (o.0@, o.1@) == searched_v(cfg@, promise@, r@, running, looking, resp@, now),
{
    match paged(resp, r.source.as_str(), r.number) {
        Paged::Fail(f) => search_failed(cfg, promise, r, looking, f, now),
        Paged::Found(e) => head(cfg, promise, r, Some(e), 0, now),
        Paged::More(x) => {
            let req = page_request(cfg, r.workflow.as_str(), running, Some(x));
            (Stage::Finding { r, running, looking }, Action::Send(req))
        },
        Paged::Spent => if running {
            let req = page_request(cfg, r.workflow.as_str(), false, None);
            (Stage::Finding { r, running: false, looking }, Action::Send(req))
        } else {
            match looking {
                Looking::Start => {
                    let req = retry_request(cfg, &r);
                    (Stage::Starting { r }, Action::Send(req))
                },
                Looking::Watch { .. } => head(cfg, promise, r, None, 0, now),
            }
        },
    }
}

fn started(cfg: &Config, promise: &Promise, r: Retry, resp: &Response, now: i64) -> (o: (Stage, Action))
    ensures
        (o.0@, o.1@) == started_v(cfg@, promise@, r@, resp@, now),
{
    if resp.status == 500 && loads(&r.body) {
        return done(reject("workflow_changed", Some(message(resp))));
    }
    match check(resp) {
        Some(f) => done(f.into_verdict()),
        None => if resp.status == 404 {
            done(reject("not_found", Some(message(resp))))
        } else if resp.status == 409 {
            done(reject("not_retryable", Some(message(resp))))
        } else if resp.status >= 400 {
            done(reject("invalid_request", Some(message(resp))))
        } else {
            head(cfg, promise, r, Some(resp.json()), 0, now)
        },
    }
}

fn observed(cfg: &Config, promise: &Promise, r: Retry, cur: Json, failures: u64, resp: &Response, now: i64) -> (o: (
    Stage,
    Action,
))
    ensures
        (o.0@, o.1@) == observed_v(cfg@, promise@, r@, cur@, failures, resp@, now),
{
    match check(resp) {
        Some(f) => failed(cfg, promise, r, Some(cur), failures, f, now),
        None => if resp.status == 404 {
            done(reject("deleted", None))
        } else if resp.status >= 400 {
            done(reject("invalid_request", Some(message(resp))))
        } else {
            head(cfg, promise, r, Some(resp.json()), 0, now)
        },
    }
}

fn unarchived(cfg: &Config, id: String, resp: &Response) -> (o: (Stage, Action))
    ensures
        (o.0@, o.1@) == unarchived_v(cfg@, id@, resp@),
{
    match check(resp) {
        Some(f) => done(f.into_verdict()),
        None => if resp.status == 404 {
            done(reject("not_found", Some(message(resp))))
        } else if resp.status == 400 {
            let req = read(cfg, cat3(api(cfg).as_str(), "/workflows/", id.as_str()));
            (Stage::UnarchiveCheck { detail: message(resp) }, Action::Send(req))
        } else if resp.status >= 400 {
            done(reject("invalid_request", Some(message(resp))))
        } else {
            done(Verdict::Resolve(Payload::Text(resp.text.clone())))
        },
    }
}

fn unarchive_checked(detail: Json, g: &Response) -> (v: Verdict)
    ensures
        v@ == unarchive_checked_v(detail@, g@),
{
    match check(g) {
        Some(f) => f.into_verdict(),
        None => {
            let archived = match g.json().get("isArchived") {
                Some(Json::Bool(b)) => *b,
                _ => false,
            };
            if g.status == 200 && !archived {
                Verdict::Resolve(Payload::Text(g.text.clone()))
            } else {
                reject("invalid_request", Some(detail))
            }
        },
    }
}

fn deleted(cfg: &Config, id: String, resp: &Response) -> (o: (Stage, Action))
    ensures
        (o.0@, o.1@) == deleted_v(cfg@, id@, resp@),
{
    match check(resp) {
        Some(f) => done(f.into_verdict()),
        None => if resp.status == 404 {
            done(reject("not_found", Some(message(resp))))
        } else if resp.status == 400 {
            let req = read(cfg, cat3(api(cfg).as_str(), "/executions/", id.as_str()));
            (Stage::DeleteCheck { detail: message(resp) }, Action::Send(req))
        } else if resp.status >= 400 {
            done(reject("invalid_request", Some(message(resp))))
        } else {
            done(Verdict::Resolve(Payload::Text(resp.text.clone())))
        },
    }
}

fn delete_checked(detail: Json, g: &Response) -> (v: Verdict)
    ensures
        v@ == delete_checked_v(detail@, g@),
{
    match check(g) {
        Some(f) => f.into_verdict(),
        None => {
            let running = match g.json().get("status") {
                Some(Json::Str(s)) => str_eq(s.as_str(), "running"),
                _ => false,
            };
            if g.status == 200 && running {
                reject("not_deletable", Some(detail))
            } else {
                reject("invalid_request", Some(detail))
            }
        },
    }
}

fn stopped(cfg: &Config, id: String, resp: &Response) -> (o: (Stage, Action))
    ensures
        (o.0@, o.1@) == stopped_v(cfg@, id@, resp@),
{
    if resp.status == 500 {
        let req = read(cfg, cat3(api(cfg).as_str(), "/executions/", id.as_str()));
        return (Stage::StopCheck { text: resp.text.clone() }, Action::Send(req));
    }
    match check(resp) {
        Some(f) => done(f.into_verdict()),
        None => if resp.status == 404 {
            done(reject("not_found", Some(message(resp))))
        } else if resp.status >= 400 {
            done(reject("invalid_request", Some(message(resp))))
        } else {
            done(stop_mapping(&resp.json()))
        },
    }
}

fn stop_checked(t: String, g: &Response) -> (v: Verdict)
    ensures
        v@ == stop_checked_v(t@, g@),
{
    match check(g) {
        Some(f) => f.into_verdict(),
        None => if g.status == 404 {
            reject("not_found", Some(message(g)))
        } else if g.status >= 400 {
            reject("invalid_request", Some(message(g)))
        } else {
            let e = g.json();
            let s = status_exec(&e);
            if str_eq(s.as_str(), "canceled") {
                stop_mapping(&e)
            } else if str_eq(s.as_str(), "success") || str_eq(s.as_str(), "error") || str_eq(
                s.as_str(),
                "crashed",
            ) {
                reject("not_stoppable", Some(e))
            } else {
                Verdict::Release(Payload::Text(t))
            }
        },
    }
}

/// One call per delivered task begins here.
pub fn begin(cfg: &Config, promise: &Promise, parsed: Result<Json, String>) -> (r: (Stage, Action))
    ensures
        (r.0@, r.1@) == start_v(cfg@, promise@, parsed_v(parsed)),
{
    let (name, args) = match read_param(parsed) {
        Err(v) => return done(v),
        Ok(x) => x,
    };
    let f = match func(name.as_str()) {
        None => return done(reject("unknown_func", Some(Json::Str(name)))),
        Some(f) => f,
    };
    let api = api(cfg);
    match f {
        Func::WorkflowCreate => send(
            Kind::Plain,
            authed(cfg, Method::Post, url(cat(api.as_str(), "/workflows"))).json(args),
        ),
        Func::WorkflowList => {
            let ks = [
                "active",
                "tags",
                "name",
                "projectId",
                "excludePinnedData",
                "offset",
                "limit",
                "cursor",
            ];
            assert(names(ks@) =~= list_keys());
            send(Kind::Listing, get(cfg, url(cat(api.as_str(), "/workflows")), named(&args, &ks)))
        },
        Func::ExecutionList => {
            let ks = [
                "status",
                "workflowId",
                "projectId",
                "includeData",
                "ignoreDataSizeLimit",
                "redactExecutionData",
                "limit",
                "cursor",
            ];
            assert(names(ks@) =~= execution_list_keys());
            send(Kind::Listing, get(cfg, url(cat(api.as_str(), "/executions")), named(&args, &ks)))
        },
        Func::ExecutionGet | Func::ExecutionRetry | Func::ExecutionStop
        | Func::ExecutionDelete => match arg_id(&args, "id", "a string or a number") {
            Err(e) => invalid_exec(e),
            Ok(id) => {
                let quoted = quote(id.as_str());
                let path = cat3(api.as_str(), "/executions/", quoted.as_str());
                if f == Func::ExecutionGet {
                    let ks = ["includeData", "ignoreDataSizeLimit", "redactExecutionData"];
                    assert(names(ks@) =~= execution_get_keys());
                    send(Kind::Plain, get(cfg, url(path), named(&args, &ks)))
                } else if f == Func::ExecutionRetry {
                    let req = source_request(cfg, id.as_str());
                    (Stage::Source { source: id, body: retry_body(&args) }, Action::Send(req))
                } else if f == Func::ExecutionStop {
                    let req = authed(cfg, Method::Post, url(path.concat("/stop")));
                    (Stage::Stopping { id: quoted }, Action::Send(req))
                } else {
                    let req = authed(cfg, Method::Delete, url(path));
                    (Stage::Deleting { id: quoted }, Action::Send(req))
                }
            },
        },
        _ => match arg_str(&args, "id") {
            Err(e) => invalid_exec(e),
            Ok(id) => {
                let quoted = quote(id.as_str());
                let w = cat3(api.as_str(), "/workflows/", quoted.as_str());
                if f == Func::WorkflowGet {
                    let ks = ["excludePinnedData"];
                    assert(names(ks@) =~= seq!["excludePinnedData"@]);
                    send(Kind::Plain, get(cfg, url(w), named(&args, &ks)))
                } else if f == Func::WorkflowUpdate {
                    let ks = ["publishIfActive"];
                    assert(names(ks@) =~= seq!["publishIfActive"@]);
                    let mut body = members_of(&args);
                    remove(&mut body, "id");
                    remove(&mut body, "publishIfActive");
                    proof {
                        lemma_jv_object(body);
                    }
                    let req = authed(cfg, Method::Put, url(w)).query(named(&args, &ks)).json(
                        Json::Object(body),
                    );
                    send(Kind::Conflict, req)
                } else if f == Func::WorkflowPublish {
                    let mut body = members_of(&args);
                    remove(&mut body, "id");
                    proof {
                        lemma_jv_object(body);
                    }
                    let req = authed(cfg, Method::Post, url(w.concat("/publish"))).json(
                        Json::Object(body),
                    );
                    send(Kind::Conflict, req)
                } else if f == Func::WorkflowUnpublish {
                    send(Kind::Plain, authed(cfg, Method::Post, url(w.concat("/unpublish"))))
                } else if f == Func::WorkflowArchive {
                    send(Kind::Plain, authed(cfg, Method::Post, url(w.concat("/archive"))))
                } else if f == Func::WorkflowUnarchive {
                    let req = authed(cfg, Method::Post, url(w.concat("/unarchive")));
                    (Stage::Unarchiving { id: quoted }, Action::Send(req))
                } else {
                    send(Kind::Plain, authed(cfg, Method::Delete, url(w)))
                }
            },
        },
    }
}

/// One step of a delivery after its first. `now` is the time in
/// milliseconds since the epoch.
pub fn step(cfg: &Config, promise: &Promise, stage: Stage, event: Event, now: i64) -> (r: (
    Stage,
    Action,
))
    ensures
        (r.0@, r.1@) == next_v(cfg@, promise@, stage@, event@, now),
{
    match event {
        Event::Lost(msg, timed_out) => match stage {
            Stage::Starting { r } => if timed_out {
                head(cfg, promise, r, None, 0, now)
            } else {
                done(Verdict::Release(Payload::Text(msg)))
            },
            Stage::Finding { r, looking, .. } => search_failed(
                cfg,
                promise,
                r,
                looking,
                Failure::Release(Payload::Text(lost(msg, timed_out))),
                now,
            ),
            Stage::Observing { r, cur, failures } => failed(
                cfg,
                promise,
                r,
                Some(cur),
                failures,
                Failure::Release(Payload::Text(lost(msg, timed_out))),
                now,
            ),
            _ => done(Verdict::Release(Payload::Text(lost(msg, timed_out)))),
        },
        Event::Woke => match stage {
            Stage::Sleeping { r, e, failures } => match e {
                None => {
                    let req = page_request(cfg, r.workflow.as_str(), true, None);
                    (
                        Stage::Finding { r, running: true, looking: Looking::Watch { failures } },
                        Action::Send(req),
                    )
                },
                Some(cur) => {
                    let req = observe_request(cfg, &cur);
                    (Stage::Observing { r, cur, failures }, Action::Send(req))
                },
            },
            _ => done(Verdict::Release(Payload::Text(String::new()))),
        },
        Event::Reply(resp) => match stage {
            Stage::Read { kind } => done(outcome(&resp, kind)),
            Stage::Unarchiving { id } => unarchived(cfg, id, &resp),
            Stage::UnarchiveCheck { detail } => done(unarchive_checked(detail, &resp)),
            Stage::Deleting { id } => deleted(cfg, id, &resp),
            Stage::DeleteCheck { detail } => done(delete_checked(detail, &resp)),
            Stage::Stopping { id } => stopped(cfg, id, &resp),
            Stage::StopCheck { text } => done(stop_checked(text, &resp)),
            Stage::Source { source, body } => sourced(cfg, source, body, &resp),
            Stage::Finding { r, running, looking } => searched(
                cfg,
                promise,
                r,
                running,
                looking,
                &resp,
                now,
            ),
            Stage::Starting { r } => started(cfg, promise, r, &resp, now),
            Stage::Observing { r, cur, failures } => observed(cfg, promise, r, cur, failures, &resp, now),
            _ => done(Verdict::Release(Payload::Text(String::new()))),
        },
    }
}


// ─── Laws ───────────────────────────────────────────────────────────────────

/// A delivery never sleeps past its promise's deadline: a sleep is asked for
/// only before the deadline, and it ends by the deadline. The first step
/// never sleeps.
pub proof fn lemma_sleep_within_deadline(c: ConfigV, p: PromiseV, parsed: Result<JsonV, Seq<char>>, s: StageV, e: EventV, now: i64)
    ensures
        !(start_v(c, p, parsed).1 is Sleep),
        next_v(c, p, s, e, now).1 matches ActionV::Sleep(ms) ==> now < p.timeout_at && now + ms <= p.timeout_at,
{
}

/// The failed polls in a row a stage carries, where it carries any.
pub open spec fn failures_of(s: StageV) -> u64 {
    match s {
        StageV::Sleeping { failures, .. } => failures,
        StageV::Observing { failures, .. } => failures,
        StageV::Finding { looking: Looking::Watch { failures }, .. } => failures,
        _ => 0,
    }
}

/// The poll loop absorbs at most four failed reads in a row: the count a
/// delivery carries never reaches five, and the fifth failure ends it.
pub proof fn lemma_failures_bounded(c: ConfigV, p: PromiseV, parsed: Result<JsonV, Seq<char>>, s: StageV, e: EventV, now: i64)
    ensures
        failures_of(start_v(c, p, parsed).0) == 0,
        failures_of(s) < 5 ==> failures_of(next_v(c, p, s, e, now).0) < 5,
        s is Observing && failures_of(s) == 4 && e is Lost ==> next_v(c, p, s, e, now).1 is Finish,
{
}

/// Credentials that stop working halt the delivery and wait for an
/// operator: an answer of 401 or 403 to any request ends it with a halt that
/// carries the answer's text.
pub proof fn lemma_credentials_halt(c: ConfigV, p: PromiseV, s: StageV, r: ResponseV, now: i64)
    requires
        r.status == 401 || r.status == 403,
        !(s is Done) && !(s is Sleeping),
    ensures
        next_v(c, p, s, EventV::Reply(r), now).1 == ActionV::Finish(VerdictV::Halt(PayloadV::Text(r.text))),
{
}

/// Every rejection a delivery ends with names its code.
pub proof fn lemma_rejections_coded(c: ConfigV, p: PromiseV, parsed: Result<JsonV, Seq<char>>, s: StageV, e: EventV, now: i64)
    ensures
        start_v(c, p, parsed).1 matches ActionV::Finish(v) ==> coded(v),
        next_v(c, p, s, e, now).1 matches ActionV::Finish(v) ==> coded(v),
{
}

/// A retry that an earlier delivery started is found again, never started
/// twice: the retry is sent only once the search of both the running list
/// and the full list came up empty. Where the search finds the retry,
/// nothing is sent: it settles the delivery where it has ended, or the
/// delivery sleeps holding it and, on waking, reads that very execution.
pub proof fn lemma_retry_only_when_none_found(c: ConfigV, p: PromiseV, s: StageV, e: EventV, now: i64)
    ensures
        next_v(c, p, s, e, now).0 is Starting ==> (s matches StageV::Finding { r, running, looking }
            && !running && looking == Looking::Start && (e matches EventV::Reply(resp) && paged_v(
            resp,
            r.source,
            r.number,
        ) is Spent)),
        (match (s, e) {
            (StageV::Finding { r, .. }, EventV::Reply(resp)) => match paged_v(resp, r.source, r.number) {
                PagedV::Found(x) => {
                    let n = next_v(c, p, s, e, now);
                    &&& n == head_v(c, p, r, Some(x), 0, now)
                    &&& !(n.1 is Send)
                    &&& (n.1 == ActionV::Finish(settle_v(x)) || n.1 == ActionV::Finish(
                        release_v("promise timed out"@),
                    ) || n.0 == StageV::Sleeping { r, e: Some(x), failures: 0 })
                },
                _ => true,
            },
            (StageV::Sleeping { r, e: Some(x), failures }, EventV::Woke) => next_v(c, p, s, e, now) == (
                StageV::Observing { r, cur: x, failures },
                ActionV::Send(observe_request_v(c, x)),
            ),
            _ => true,
        }),
{
}

/// A redelivery of a promise begins as the first delivery did: the first
/// step depends on the promise only through its id.
pub proof fn lemma_redelivery_begins_alike(c: ConfigV, p1: PromiseV, p2: PromiseV, parsed: Result<JsonV, Seq<char>>)
    requires
        p1.id == p2.id,
    ensures
        start_v(c, p1, parsed) == start_v(c, p2, parsed),
{
}

/// Whether a stage is one a delivery can be in: the retry it sleeps or
/// waits on, where it has seen one, has not reached a terminal status.
pub open spec fn well_formed(s: StageV) -> bool {
    match s {
        StageV::Sleeping { e: Some(cur), .. } => !terminal_v(status_of(cur)),
        StageV::Observing { cur, .. } => !terminal_v(status_of(cur)),
        _ => true,
    }
}

/// Every stage a delivery reaches is well formed.
pub proof fn lemma_well_formed_kept(c: ConfigV, p: PromiseV, parsed: Result<JsonV, Seq<char>>, s: StageV, e: EventV, now: i64)
    ensures
        well_formed(start_v(c, p, parsed).0),
        well_formed(s) ==> well_formed(next_v(c, p, s, e, now).0),
{
}

/// A rate limit or an unavailable service settles nothing: an answer of
/// 429 or 503 to any request neither resolves nor rejects the promise.
pub proof fn lemma_busy_settles_nothing(c: ConfigV, p: PromiseV, s: StageV, r: ResponseV, now: i64)
    requires
        well_formed(s),
        r.status == 429 || r.status == 503,
    ensures
        !(next_v(c, p, s, EventV::Reply(r), now).1 matches ActionV::Finish(v) && settles(v)),
{
}

/// A read of the retry that finds it in a status it never leaves settles
/// the promise by that status: "success" resolves with the execution's id,
/// status, finished, mode, retryOf, retrySuccessId, workflowId, startedAt,
/// stoppedAt and waitTill, where present and in that order; "error",
/// "canceled" and "crashed" reject with codes "execution_failed",
/// "execution_canceled" and "execution_crashed" and the execution as the
/// detail. Any other status sleeps until the next read.
pub proof fn lemma_retry_settles_by_status(c: ConfigV, p: PromiseV, r: RetryV, cur: JsonV, failures: u64, resp: ResponseV, st: Seq<char>, now: i64)
    requires
        200 <= resp.status < 300,
        now < p.timeout_at,
        jget(body_v(resp), "status"@) == Some(JsonV::Str(st)),
    ensures
        ({
            let b = body_v(resp);
            let n = next_v(c, p, StageV::Observing { r, cur, failures }, EventV::Reply(resp), now);
            let rejected = |code: Seq<char>|
                (
                    StageV::Done,
                    ActionV::Finish(
                        VerdictV::Reject(
                            JsonV::Object(seq![("code"@, JsonV::Str(code)), ("detail"@, b)]),
                        ),
                    ),
                );
            &&& st == "success"@ ==> n == (
                StageV::Done,
                ActionV::Finish(
                    VerdictV::Resolve(
                        PayloadV::Doc(
                            JsonV::Object(
                                pick_present_v(
                                    b,
                                    seq![
                                        "id"@,
                                        "status"@,
                                        "finished"@,
                                        "mode"@,
                                        "retryOf"@,
                                        "retrySuccessId"@,
                                        "workflowId"@,
                                        "startedAt"@,
                                        "stoppedAt"@,
                                        "waitTill"@,
                                    ],
                                ),
                            ),
                        ),
                    ),
                ),
            )
            &&& st == "error"@ ==> n == rejected("execution_failed"@)
            &&& st == "canceled"@ ==> n == rejected("execution_canceled"@)
            &&& st == "crashed"@ ==> n == rejected("execution_crashed"@)
            &&& !(st == "success"@ || st == "error"@ || st == "canceled"@ || st == "crashed"@) ==> (
            n.0 == StageV::Sleeping { r, e: Some(b), failures: 0 } && n.1 is Sleep)
        }),
{
    reveal_strlit("success");
    reveal_strlit("error");
    reveal_strlit("canceled");
    reveal_strlit("crashed");
    assert("crashed"@[0] != "success"@[0]);
    let b = body_v(resp);
    let n = next_v(c, p, StageV::Observing { r, cur, failures }, EventV::Reply(resp), now);
    assert(status_of(b) == st);
    assert(n == head_v(c, p, r, Some(b), 0, now));
    assert(st == "success"@ ==> n == finish(settle_v(b)));
    assert(st == "error"@ ==> settle_v(b) == reject_v("execution_failed"@, Some(b)));
    assert(st == "canceled"@ ==> settle_v(b) == reject_v("execution_canceled"@, Some(b)));
    assert(st == "crashed"@ ==> settle_v(b) == reject_v("execution_crashed"@, Some(b)));
}

/// The scan from position `i` reaches the retry at position `k` where every
/// execution between them is no retry of the source and no older than it.
proof fn lemma_scan_reaches(d: Seq<JsonV>, source: Seq<char>, number: i64, i: int, k: int)
    requires
        0 <= i <= k < d.len(),
        jget(d[k], "retryOf"@) == Some(JsonV::Str(source)),
        forall|j: int|
            0 <= j < k ==> !retry_of_v(#[trigger] d[j], source) && (id_number_v(jget(d[j], "id"@)) matches Ok(v)
                && v >= number),
    ensures
        scan_v(d, source, number, i) == ScanV::Found(d[k]),
    decreases k - i,
{
    if i < k {
        lemma_scan_reaches(d, source, number, i + 1, k);
    } else {
        assert(retry_of_v(d[k], source));
    }
}

/// The retry of the source execution is found wherever it stands on the
/// page of executions, newest first: where the executions before it are
/// neither retries of the source nor older than it, the delivery follows
/// that retry and starts no other.
pub proof fn lemma_retry_found_anywhere(c: ConfigV, p: PromiseV, r: RetryV, running: bool, looking: Looking, resp: ResponseV, d: Seq<JsonV>, k: int, now: i64)
    requires
        200 <= resp.status < 300,
        jget(body_v(resp), "data"@) == Some(JsonV::Array(d)),
        0 <= k < d.len(),
        jget(d[k], "retryOf"@) == Some(JsonV::Str(r.source)),
        forall|j: int|
            0 <= j < k ==> !retry_of_v(#[trigger] d[j], r.source) && (id_number_v(jget(d[j], "id"@)) matches Ok(v)
                && v >= r.number),
    ensures
        next_v(c, p, StageV::Finding { r, running, looking }, EventV::Reply(resp), now) == head_v(
            c,
            p,
            r,
            Some(d[k]),
            0,
            now,
        ),
        !(next_v(c, p, StageV::Finding { r, running, looking }, EventV::Reply(resp), now).0 is Starting),
{
    lemma_scan_reaches(d, r.source, r.number, 0, k);
    assert(page_data_v(body_v(resp)) == d);
}

} // verus!
