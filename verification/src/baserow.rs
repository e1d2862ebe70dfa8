//! The baserow plugin: rows, exports (resolving with the file URL) and
//! table imports.
use vstd::prelude::*;
use crate::clock::{nap, nap_v};
use crate::args::{arg_array, arg_array_v, arg_int, arg_int_v, arg_object, arg_object_v, names};
use crate::frame::{sanitize, sanitize_v};
use crate::http::{
    parts_v, qtext, query_v, req_v, request, url, url_v, with_body_v, with_header_v, with_query_v,
    Action, ActionV, Event, EventV, Method, Param, ParamV, Part, PartV, Request, RequestV, Response,
    ResponseV, body_v,
};
use crate::json::{
    elems_v, get_str, jget, key_pos, jint, jv, lemma_jv_array, lemma_jv_object, members, members_of,
    members_v, or_null, drop_key, remove, scalar_text, str_eq, str_v, Json, JsonV,
};
use crate::promise::{parsed_v, read_param, read_param_v, Promise, PromiseV};
use crate::query::{pick, pick_present, pick_present_v, pick_v};
use crate::text::{cat, decimal, decimal_v};
use crate::verdict::{
    settles,
    coded,
    empty_object, fail_v, reject, reject_v, release_v, text, Failure, FailureV, Payload, PayloadV,
    Verdict, VerdictV,
};

verus! {

/// The plugin's settings. Poll intervals are in milliseconds; an unset
/// per-operation one falls back to `poll`.
pub struct Config {
    pub base_url: String,
    pub email: String,
    pub password: String,
    pub poll: u64,
    pub poll_export: Option<u64>,
    pub poll_table: Option<u64>,
}

pub struct ConfigV {
    pub base_url: Seq<char>,
    pub email: Seq<char>,
    pub password: Seq<char>,
    pub poll: u64,
    pub poll_export: Option<u64>,
    pub poll_table: Option<u64>,
}

impl View for Config {
    type V = ConfigV;

    open spec fn view(&self) -> ConfigV {
        ConfigV {
            base_url: self.base_url@,
            email: self.email@,
            password: self.password@,
            poll: self.poll,
            poll_export: self.poll_export,
            poll_table: self.poll_table,
        }
    }
}

/// `poll` where the settings leave it out: two seconds.
pub fn poll_default() -> (r: u64)
    ensures
        r == 2_000,
{
    2_000
}

pub open spec fn or_poll(o: Option<u64>, poll: u64) -> u64 {
    match o {
        Some(v) => v,
        None => poll,
    }
}

impl Config {
    /// `poll_export` defaults to `poll`.
    pub fn poll_export(&self) -> (r: u64)
        ensures
            r == or_poll(self.poll_export, self.poll),
    {
        match self.poll_export {
            Some(v) => v,
            None => self.poll,
        }
    }

    /// `poll_table` defaults to `poll`.
    pub fn poll_table(&self) -> (r: u64)
        ensures
            r == or_poll(self.poll_table, self.poll),
    {
        match self.poll_table {
            Some(v) => v,
            None => self.poll,
        }
    }
}

/// The operations this plugin offers.
#[derive(PartialEq, Eq, Structural, Clone, Copy)]
pub enum Func {
    RowList,
    RowGet,
    RowCreate,
    RowUpdate,
    RowDelete,
    RowMove,
    RowsCreate,
    RowsUpdate,
    RowsDelete,
    ExportCreate,
    ExportGet,
    TableImport,
    JobGet,
    DatabaseList,
    TableList,
    FieldList,
    ViewList,
    RowhistoryList,
}

pub open spec fn func_of(n: Seq<char>) -> Option<Func> {
    if n == "row.list"@ {
        Some(Func::RowList)
    } else if n == "row.get"@ {
        Some(Func::RowGet)
    } else if n == "row.create"@ {
        Some(Func::RowCreate)
    } else if n == "row.update"@ {
        Some(Func::RowUpdate)
    } else if n == "row.delete"@ {
        Some(Func::RowDelete)
    } else if n == "row.move"@ {
        Some(Func::RowMove)
    } else if n == "rows.create"@ {
        Some(Func::RowsCreate)
    } else if n == "rows.update"@ {
        Some(Func::RowsUpdate)
    } else if n == "rows.delete"@ {
        Some(Func::RowsDelete)
    } else if n == "export.create"@ {
        Some(Func::ExportCreate)
    } else if n == "export.get"@ {
        Some(Func::ExportGet)
    } else if n == "table.import"@ {
        Some(Func::TableImport)
    } else if n == "job.get"@ {
        Some(Func::JobGet)
    } else if n == "database.list"@ {
        Some(Func::DatabaseList)
    } else if n == "table.list"@ {
        Some(Func::TableList)
    } else if n == "field.list"@ {
        Some(Func::FieldList)
    } else if n == "view.list"@ {
        Some(Func::ViewList)
    } else if n == "rowhistory.list"@ {
        Some(Func::RowhistoryList)
    } else {
        None
    }
}

fn func(n: &str) -> (r: Option<Func>)
    ensures
        r == func_of(n@),
{
    if str_eq(n, "row.list") {
        Some(Func::RowList)
    } else if str_eq(n, "row.get") {
        Some(Func::RowGet)
    } else if str_eq(n, "row.create") {
        Some(Func::RowCreate)
    } else if str_eq(n, "row.update") {
        Some(Func::RowUpdate)
    } else if str_eq(n, "row.delete") {
        Some(Func::RowDelete)
    } else if str_eq(n, "row.move") {
        Some(Func::RowMove)
    } else if str_eq(n, "rows.create") {
        Some(Func::RowsCreate)
    } else if str_eq(n, "rows.update") {
        Some(Func::RowsUpdate)
    } else if str_eq(n, "rows.delete") {
        Some(Func::RowsDelete)
    } else if str_eq(n, "export.create") {
        Some(Func::ExportCreate)
    } else if str_eq(n, "export.get") {
        Some(Func::ExportGet)
    } else if str_eq(n, "table.import") {
        Some(Func::TableImport)
    } else if str_eq(n, "job.get") {
        Some(Func::JobGet)
    } else if str_eq(n, "database.list") {
        Some(Func::DatabaseList)
    } else if str_eq(n, "table.list") {
        Some(Func::TableList)
    } else if str_eq(n, "field.list") {
        Some(Func::FieldList)
    } else if str_eq(n, "view.list") {
        Some(Func::ViewList)
    } else if str_eq(n, "rowhistory.list") {
        Some(Func::RowhistoryList)
    } else {
        None
    }
}

// ─── Responses ──────────────────────────────────────────────────────────────

/// The error of an answer: the documented machine-readable failure
/// code of a 4xx body.
pub open spec fn error_v(r: ResponseV) -> Option<Seq<char>> {
    get_str(body_v(r), "error"@)
}

fn error(r: &Response) -> (e: Option<String>)
    ensures
        match e {
            Some(s) => error_v(r@) == Some(s@),
            None => error_v(r@) is None,
        },
{
    match r.json().get_str("error") {
        Some(s) => Some(s.clone()),
        None => None,
    }
}

fn error_is(r: &Response, code: &str) -> (b: bool)
    ensures
        b == (error_v(r@) == Some(code@)),
{
    match error(r) {
        Some(s) => str_eq(s.as_str(), code),
        None => false,
    }
}

/// The detail of an answer: `response.body.detail`, or the raw body
/// where it is not JSON. An absent field is null.
pub open spec fn detail_v(r: ResponseV) -> JsonV {
    match r.body {
        Some(b) => or_null(jget(b, "detail"@)),
        None => JsonV::Str(r.text),
    }
}

fn detail(r: &Response) -> (j: Json)
    ensures
        j@ == detail_v(r@),
{
    match &r.body {
        Some(b) => match b.get("detail") {
            Some(x) => x.copy(),
            None => Json::Null,
        },
        None => Json::Str(r.text.clone()),
    }
}

/// A standing permission problem: the account is not in the table's
/// workspace, or holds no rights on the table.
pub open spec fn permission(e: Option<Seq<char>>) -> bool {
    e == Some("ERROR_USER_NOT_IN_GROUP"@) || e == Some("ERROR_NO_PERMISSION_TO_TABLE"@)
}

/// The classification every answer falls through to: 401, 402 and 403, and a permission error of
/// any 4xx, halt; 429 and 5xx release.
pub open spec fn check_v(r: ResponseV) -> Option<FailureV> {
    if r.status == 401 || r.status == 402 || r.status == 403 {
        Some(FailureV::Halt(PayloadV::Text(r.text)))
    } else if r.status >= 400 && permission(error_v(r)) {
        Some(FailureV::Halt(PayloadV::Text(r.text)))
    } else if r.status == 429 || r.status >= 500 {
        Some(FailureV::Release(PayloadV::Text(r.text)))
    } else {
        None
    }
}

fn check(r: &Response) -> (f: Option<Failure>)
    ensures
        match f {
            Some(x) => check_v(r@) == Some(x@),
            None => check_v(r@) is None,
        },
{
    if r.status == 401 || r.status == 402 || r.status == 403 {
        return Some(Failure::Halt(Payload::Text(r.text.clone())));
    }
    if r.status >= 400 {
        if error_is(r, "ERROR_USER_NOT_IN_GROUP") || error_is(r, "ERROR_NO_PERMISSION_TO_TABLE") {
            return Some(Failure::Halt(Payload::Text(r.text.clone())));
        }
    }
    if r.status == 429 || r.status >= 500 {
        Some(Failure::Release(Payload::Text(r.text.clone())))
    } else {
        None
    }
}

/// How an operation reads its answer.
#[derive(PartialEq, Eq, Structural, Clone, Copy)]
pub enum Kind {
    /// row.list: a 404 names the table, a field or a view.
    RowList,
    /// A row call: a 404 names the table, the row or a view.
    Row,
    /// row.delete: as a row call, plus an already deleted row; resolves `{}`.
    RowDelete,
    /// rows.update: as a row call, plus row ids that repeat.
    RowsUpdate,
    /// rows.delete: as rows.update, plus an already deleted row; resolves `{}`.
    RowsDelete,
    /// rowhistory.list: a 404 names the table or the row.
    RowHistory,
    /// export.create: a 404 names the table or a view.
    Export,
    /// A job read: a 404 is `job_not_found`.
    Job,
    /// table.list: a 404 is `database_not_found`.
    Database,
    /// field.list and view.list: a 404 is `table_not_found`.
    Table,
    /// database.list: no documented 404.
    Plain,
}

/// The code a documented 404 error names.
pub open spec fn nf_code(k: Kind, e: Option<Seq<char>>) -> Option<Seq<char>> {
    if e == Some("ERROR_TABLE_DOES_NOT_EXIST"@) && k != Kind::Job && k != Kind::Database && k
        != Kind::Table && k != Kind::Plain {
        Some("table_not_found"@)
    } else if e == Some("ERROR_FIELD_DOES_NOT_EXIST"@) && k == Kind::RowList {
        Some("field_not_found"@)
    } else if e == Some("ERROR_VIEW_DOES_NOT_EXIST"@) && (k == Kind::RowList || k == Kind::Row || k
        == Kind::RowDelete || k == Kind::RowsUpdate || k == Kind::RowsDelete || k == Kind::Export) {
        Some("view_not_found"@)
    } else if e == Some("ERROR_ROW_DOES_NOT_EXIST"@) && (k == Kind::Row || k == Kind::RowDelete || k
        == Kind::RowsUpdate || k == Kind::RowsDelete || k == Kind::RowHistory) {
        Some("row_not_found"@)
    } else {
        None
    }
}

/// The code every 404 of a plain-404 read names.
pub open spec fn plain_404(k: Kind) -> Option<Seq<char>> {
    if k == Kind::Job {
        Some("job_not_found"@)
    } else if k == Kind::Database {
        Some("database_not_found"@)
    } else if k == Kind::Table {
        Some("table_not_found"@)
    } else {
        None
    }
}

/// The code a documented 400 error names.
pub open spec fn bad_code(k: Kind, e: Option<Seq<char>>) -> Option<Seq<char>> {
    if e == Some("ERROR_ROW_IDS_NOT_UNIQUE"@) && (k == Kind::RowsUpdate || k == Kind::RowsDelete) {
        Some("row_ids_not_unique"@)
    } else if e == Some("ERROR_CANNOT_DELETE_ALREADY_DELETED_ITEM"@) && (k == Kind::RowDelete || k
        == Kind::RowsDelete) {
        Some("already_deleted"@)
    } else {
        None
    }
}

/// The verdict of an operation's one call.
pub open spec fn outcome_v(k: Kind, r: ResponseV) -> VerdictV {
    let e = error_v(r);
    if r.status == 404 && plain_404(k) is Some {
        reject_v(plain_404(k)->0, Some(detail_v(r)))
    } else if r.status == 404 && nf_code(k, e) is Some {
        reject_v(nf_code(k, e)->0, Some(detail_v(r)))
    } else if r.status == 400 && bad_code(k, e) is Some {
        reject_v(bad_code(k, e)->0, Some(detail_v(r)))
    } else {
        match check_v(r) {
            Some(f) => fail_v(f),
            None => if r.status >= 400 {
                reject_v("invalid_request"@, Some(detail_v(r)))
            } else if k == Kind::RowDelete || k == Kind::RowsDelete {
                VerdictV::Resolve(PayloadV::Doc(JsonV::Object(Seq::empty())))
            } else {
                VerdictV::Resolve(PayloadV::Text(r.text))
            },
        }
    }
}

fn nf_code_exec(k: Kind, r: &Response) -> (c: Option<&'static str>)
    ensures
        match c {
            Some(s) => nf_code(k, error_v(r@)) == Some(s@),
            None => nf_code(k, error_v(r@)) is None,
        },
{
    if error_is(r, "ERROR_TABLE_DOES_NOT_EXIST") && k != Kind::Job && k != Kind::Database && k
        != Kind::Table && k != Kind::Plain {
        Some("table_not_found")
    } else if error_is(r, "ERROR_FIELD_DOES_NOT_EXIST") && k == Kind::RowList {
        Some("field_not_found")
    } else if error_is(r, "ERROR_VIEW_DOES_NOT_EXIST") && (k == Kind::RowList || k == Kind::Row
        || k == Kind::RowDelete || k == Kind::RowsUpdate || k == Kind::RowsDelete || k
        == Kind::Export) {
        Some("view_not_found")
    } else if error_is(r, "ERROR_ROW_DOES_NOT_EXIST") && (k == Kind::Row || k == Kind::RowDelete
        || k == Kind::RowsUpdate || k == Kind::RowsDelete || k == Kind::RowHistory) {
        Some("row_not_found")
    } else {
        None
    }
}

fn plain_404_exec(k: Kind) -> (c: Option<&'static str>)
    ensures
        match c {
            Some(s) => plain_404(k) == Some(s@),
            None => plain_404(k) is None,
        },
{
    if k == Kind::Job {
        Some("job_not_found")
    } else if k == Kind::Database {
        Some("database_not_found")
    } else if k == Kind::Table {
        Some("table_not_found")
    } else {
        None
    }
}

fn bad_code_exec(k: Kind, r: &Response) -> (c: Option<&'static str>)
    ensures
        match c {
            Some(s) => bad_code(k, error_v(r@)) == Some(s@),
            None => bad_code(k, error_v(r@)) is None,
        },
{
    if error_is(r, "ERROR_ROW_IDS_NOT_UNIQUE") && (k == Kind::RowsUpdate || k == Kind::RowsDelete) {
        Some("row_ids_not_unique")
    } else if error_is(r, "ERROR_CANNOT_DELETE_ALREADY_DELETED_ITEM") && (k == Kind::RowDelete || k
        == Kind::RowsDelete) {
        Some("already_deleted")
    } else {
        None
    }
}

fn outcome(k: Kind, r: &Response) -> (v: Verdict)
    ensures
        v@ == outcome_v(k, r@),
{
    if r.status == 404 {
        match plain_404_exec(k) {
            Some(c) => return reject(c, Some(detail(r))),
            None => {},
        }
        match nf_code_exec(k, r) {
            Some(c) => return reject(c, Some(detail(r))),
            None => {},
        }
    }
    if r.status == 400 {
        match bad_code_exec(k, r) {
            Some(c) => return reject(c, Some(detail(r))),
            None => {},
        }
    }
    match check(r) {
        Some(f) => f.into_verdict(),
        None => if r.status >= 400 {
            reject("invalid_request", Some(detail(r)))
        } else if k == Kind::RowDelete || k == Kind::RowsDelete {
            Verdict::Resolve(Payload::Doc(empty_object()))
        } else {
            Verdict::Resolve(Payload::Text(r.text.clone()))
        },
    }
}

// ─── Authentication ─────────────────────────────────────────────────────────

/// The token: exchange the credentials for a JWT.
pub open spec fn token_request_v(c: ConfigV) -> RequestV {
    with_body_v(
        req_v(Method::Post, url_v(c.base_url + "/api/user/token-auth/"@)),
        JsonV::Object(seq![("email"@, JsonV::Str(c.email)), ("password"@, JsonV::Str(c.password))]),
    )
}

fn token_request(cfg: &Config) -> (r: Request)
    ensures
        r@ == token_request_v(cfg@),
{
    let mut m: Vec<(String, Json)> = Vec::new();
    m.push((text("email"), Json::Str(cfg.email.clone())));
    m.push((text("password"), Json::Str(cfg.password.clone())));
    proof {
        lemma_jv_object(m);
        assert(members_v(m@) =~= seq![
            ("email"@, JsonV::Str(cfg.email@)),
            ("password"@, JsonV::Str(cfg.password@)),
        ]);
    }
    request(Method::Post, url(cat(cfg.base_url.as_str(), "/api/user/token-auth/"))).json(
        Json::Object(m),
    )
}

/// The answer to the token exchange: 429 and 5xx release; any other 4xx
/// (invalid credentials, a deactivated user, ...) halts.
pub open spec fn token_outcome_v(r: ResponseV) -> Result<Seq<char>, FailureV> {
    if r.status == 429 || r.status >= 500 {
        Err(FailureV::Release(PayloadV::Text(r.text)))
    } else if r.status >= 400 {
        Err(FailureV::Halt(PayloadV::Text(r.text)))
    } else {
        match get_str(body_v(r), "access_token"@) {
            None => Err(
                FailureV::Release(PayloadV::Text("no access_token in token response: "@ + r.text)),
            ),
            Some(a) => Ok("JWT "@ + a),
        }
    }
}

fn token_outcome(r: &Response) -> (o: Result<String, Failure>)
    ensures
        match o {
            Ok(a) => token_outcome_v(r@) == Ok::<Seq<char>, FailureV>(a@),
            Err(f) => token_outcome_v(r@) == Err::<Seq<char>, FailureV>(f@),
        },
{
    if r.status == 429 || r.status >= 500 {
        return Err(Failure::Release(Payload::Text(r.text.clone())));
    }
    if r.status >= 400 {
        return Err(Failure::Halt(Payload::Text(r.text.clone())));
    }
    match r.json().get_str("access_token") {
        None => Err(
            Failure::Release(
                Payload::Text(cat("no access_token in token response: ", r.text.as_str())),
            ),
        ),
        Some(a) => Ok(cat("JWT ", a.as_str())),
    }
}

// ─── Requests ───────────────────────────────────────────────────────────────

pub open spec fn authed_v(m: Method, u: Seq<char>, auth: Seq<char>) -> RequestV {
    with_header_v(req_v(m, url_v(u)), "Authorization"@, auth)
}

fn authed(m: Method, u: String, auth: &str) -> (r: Request)
    ensures
        r@ == authed_v(m, u@, auth@),
{
    request(m, url(u)).header("Authorization", auth)
}

pub open spec fn get_v(u: Seq<char>, auth: Seq<char>, q: Seq<(Seq<char>, ParamV)>) -> RequestV {
    with_query_v(authed_v(Method::Get, u, auth), q)
}

fn no_params() -> (r: Vec<(String, Param)>)
    ensures
        query_v(r@) == Seq::<(Seq<char>, ParamV)>::empty(),
{
    let r: Vec<(String, Param)> = Vec::new();
    assert(query_v(r@) =~= Seq::empty());
    r
}

/// One query value as Baserow reads it: a boolean `true`/`false`, a list
/// comma-joined, anything else `str(v)`.
pub open spec fn bparam_v(v: JsonV) -> ParamV {
    match v {
        JsonV::Array(a) => ParamV::Joined(
            Seq::new(
                a.len(),
                |i: int|
                    match str_v(a[i]) {
                        Some(t) => PartV::Text(t),
                        None => PartV::Doc(a[i]),
                    },
            ),
        ),
        _ => match str_v(v) {
            Some(t) => ParamV::Text(t),
            None => ParamV::Doc(v),
        },
    }
}

/// The query: the named args the call carries, a null
/// dropped rather than sent as "null".
pub open spec fn bq_v(args: JsonV, ks: Seq<Seq<char>>) -> Seq<(Seq<char>, ParamV)>
    decreases ks.len(),
{
    if ks.len() == 0 {
        Seq::empty()
    } else {
        let r = bq_v(args, ks.drop_last());
        match jget(args, ks.last()) {
            None => r,
            Some(JsonV::Null) => r,
            Some(v) => r.push((ks.last(), bparam_v(v))),
        }
    }
}

fn bpart(v: &Json) -> (r: Part)
    ensures
        r@ == (match str_v(v@) {
            Some(t) => PartV::Text(t),
            None => PartV::Doc(v@),
        }),
{
    match scalar_text(v) {
        Some(t) => Part::Text(t),
        None => Part::Doc(v.copy()),
    }
}

fn bparam(v: &Json) -> (r: Param)
    ensures
        r@ == bparam_v(v@),
{
    match v {
        Json::Array(a) => {
            proof {
                lemma_jv_array(*a);
            }
            let ghost av = elems_v(a@);
            let mut parts: Vec<Part> = Vec::new();
            let mut n: usize = 0;
            while n < a.len()
                invariant
                    n <= a.len(),
                    av == elems_v(a@),
                    parts_v(parts@) == Seq::new(
                        n as nat,
                        |i: int|
                            match str_v(av[i]) {
                                Some(t) => PartV::Text(t),
                                None => PartV::Doc(av[i]),
                            },
                    ),
                decreases a.len() - n,
            {
                let ghost pb = parts@;
                let p = bpart(&a[n]);
                parts.push(p);
                assert(parts_v(parts@) =~= parts_v(pb).push(p@));
                assert(parts_v(parts@) =~= Seq::new(
                    (n + 1) as nat,
                    |i: int|
                        match str_v(av[i]) {
                            Some(t) => PartV::Text(t),
                            None => PartV::Doc(av[i]),
                        },
                ));
                n = n + 1;
            }
            Param::Joined(parts)
        },
        _ => match scalar_text(v) {
            Some(t) => Param::Text(t),
            None => Param::Doc(v.copy()),
        },
    }
}

fn bq(args: &Json, ks: &[&str]) -> (r: Vec<(String, Param)>)
    ensures
        query_v(r@) == bq_v(args@, names(ks@)),
{
    let mut out: Vec<(String, Param)> = Vec::new();
    let mut i: usize = 0;
    while i < ks.len()
        invariant
            i <= ks@.len(),
            query_v(out@) == bq_v(args@, names(ks@).take(i as int)),
        decreases ks@.len() - i,
    {
        let ghost before = out@;
        assert(names(ks@).take(i + 1).drop_last() =~= names(ks@).take(i as int));
        assert(names(ks@).take(i + 1).last() == ks@[i as int]@);
        match args.get(ks[i]) {
            None => {},
            Some(v) => if !v.is_null() {
                out.push((String::from_str(ks[i]), bparam(v)));
                assert(query_v(out@) =~= query_v(before).push((ks@[i as int]@, bparam_v(v@))));
            },
        }
        i = i + 1;
    }
    assert(names(ks@).take(ks@.len() as int) =~= names(ks@));
    out
}

/// `{base}/api/database/rows/table/{table}/`.
pub open spec fn rows_url_v(c: ConfigV, t: i64) -> Seq<char> {
    c.base_url + "/api/database/rows/table/"@ + decimal_v(t as int) + "/"@
}

fn rows_url(cfg: &Config, t: i64) -> (r: String)
    ensures
        r@ == rows_url_v(cfg@, t),
{
    let mut u = cat(cfg.base_url.as_str(), "/api/database/rows/table/");
    u.append(decimal(t).as_str());
    u.append("/");
    u
}

/// `{base}/api/database/rows/table/{table}/{row}/`.
pub open spec fn row_url_v(c: ConfigV, t: i64, r: i64) -> Seq<char> {
    rows_url_v(c, t) + decimal_v(r as int) + "/"@
}

fn row_url(cfg: &Config, t: i64, r: i64) -> (u: String)
    ensures
        u@ == row_url_v(cfg@, t, r),
{
    let mut u = rows_url(cfg, t);
    u.append(decimal(r).as_str());
    u.append("/");
    u
}

/// A base URL, a decimal id and a trailing slash.
pub open spec fn id_url_v(c: ConfigV, path: Seq<char>, id: i64) -> Seq<char> {
    c.base_url + path + decimal_v(id as int) + "/"@
}

fn id_url(cfg: &Config, path: &str, id: i64) -> (u: String)
    ensures
        u@ == id_url_v(cfg@, path@, id),
{
    let mut u = cat(cfg.base_url.as_str(), path);
    u.append(decimal(id).as_str());
    u.append("/");
    u
}

/// A batch body: `{"items": ...}`.
pub open spec fn items_v(x: JsonV) -> JsonV {
    JsonV::Object(seq![("items"@, x)])
}

fn items(x: Json) -> (r: Json)
    ensures
        r@ == items_v(x@),
{
    let ghost xv = x@;
    let mut m: Vec<(String, Json)> = Vec::new();
    m.push((text("items"), x));
    proof {
        lemma_jv_object(m);
        assert(members_v(m@) =~= seq![("items"@, xv)]);
    }
    Json::Object(m)
}

/// row.list's query: the named args, and the filter tree as its JSON text.
pub open spec fn row_list_query_v(args: JsonV) -> Seq<(Seq<char>, ParamV)> {
    let base = bq_v(
        args,
        seq![
            "page"@,
            "size"@,
            "search"@,
            "search_mode"@,
            "order_by"@,
            "include"@,
            "exclude"@,
            "user_field_names"@,
            "view_id"@,
        ],
    );
    match jget(args, "filters"@) {
        Some(f) => base.push(("filters"@, ParamV::Doc(f))),
        None => base,
    }
}

fn row_list_query(args: &Json) -> (r: Vec<(String, Param)>)
    ensures
        query_v(r@) == row_list_query_v(args@),
{
    let ks = [
        "page",
        "size",
        "search",
        "search_mode",
        "order_by",
        "include",
        "exclude",
        "user_field_names",
        "view_id",
    ];
    assert(names(ks@) =~= seq![
        "page"@,
        "size"@,
        "search"@,
        "search_mode"@,
        "order_by"@,
        "include"@,
        "exclude"@,
        "user_field_names"@,
        "view_id"@,
    ]);
    let mut q = bq(args, &ks);
    let ghost before = q@;
    match args.get("filters") {
        Some(f) => {
            q.push((text("filters"), Param::Doc(f.copy())));
            assert(query_v(q@) =~= query_v(before).push(("filters"@, ParamV::Doc(f@))));
        },
        None => {},
    }
    q
}

// ─── Export and import jobs ─────────────────────────────────────────────────

/// The states an export job never leaves.
pub open spec fn export_terminal(s: Seq<char>) -> bool {
    s == "finished"@ || s == "failed"@ || s == "cancelled"@ || s == "expired"@
}

/// The states an import job never leaves.
pub open spec fn job_terminal(s: Seq<char>) -> bool {
    s == "finished"@ || s == "failed"@ || s == "cancelled"@
}

/// A job's `state`; an absent field is no state.
pub open spec fn state_of(job: JsonV) -> Seq<char> {
    match get_str(job, "state"@) {
        Some(s) => s,
        None => ""@,
    }
}

fn state_is(job: &Json, s: &str) -> (b: bool)
    ensures
        b == (state_of(job@) == s@),
{
    match job.get_str("state") {
        Some(x) => str_eq(x.as_str(), s),
        None => {
            proof {
                reveal_strlit("");
            }
            str_eq("", s)
        },
    }
}

pub open spec fn export_keys() -> Seq<Seq<char>> {
    seq![
        "id"@,
        "table"@,
        "view"@,
        "exporter_type"@,
        "state"@,
        "exported_file_name"@,
        "created_at"@,
        "progress_percentage"@,
        "url"@,
    ]
}

pub open spec fn import_keys() -> Seq<Seq<char>> {
    seq![
        "id"@,
        "type"@,
        "state"@,
        "progress_percentage"@,
        "table_id"@,
        "database_id"@,
        "original_file_name"@,
        "human_readable_error"@,
        "report"@,
    ]
}

/// The verdict a terminal export job carries.
pub open spec fn export_settle_v(job: JsonV) -> VerdictV {
    let s = state_of(job);
    if s == "finished"@ {
        VerdictV::Resolve(PayloadV::Doc(pick_v(job, export_keys())))
    } else if s == "cancelled"@ {
        reject_v("cancelled"@, Some(job))
    } else if s == "expired"@ {
        reject_v("expired"@, Some(job))
    } else {
        reject_v("export_failed"@, Some(job))
    }
}

/// The verdict a terminal import job carries. A finished job can still carry
/// report.failing_rows: rows its field types rejected.
pub open spec fn import_settle_v(job: JsonV) -> VerdictV {
    let s = state_of(job);
    if s == "finished"@ {
        VerdictV::Resolve(PayloadV::Doc(pick_v(job, import_keys())))
    } else if s == "cancelled"@ {
        reject_v("cancelled"@, Some(job))
    } else {
        reject_v("import_failed"@, Some(job))
    }
}

fn export_settle(job: Json) -> (v: Verdict)
    ensures
        v@ == export_settle_v(job@),
{
    if state_is(&job, "finished") {
        let ks = [
            "id",
            "table",
            "view",
            "exporter_type",
            "state",
            "exported_file_name",
            "created_at",
            "progress_percentage",
            "url",
        ];
        assert(names(ks@) =~= export_keys());
        Verdict::Resolve(Payload::Doc(pick(&job, &ks)))
    } else if state_is(&job, "cancelled") {
        reject("cancelled", Some(job))
    } else if state_is(&job, "expired") {
        reject("expired", Some(job))
    } else {
        reject("export_failed", Some(job))
    }
}

fn import_settle(job: Json) -> (v: Verdict)
    ensures
        v@ == import_settle_v(job@),
{
    if state_is(&job, "finished") {
        let ks = [
            "id",
            "type",
            "state",
            "progress_percentage",
            "table_id",
            "database_id",
            "original_file_name",
            "human_readable_error",
            "report",
        ];
        assert(names(ks@) =~= import_keys());
        Verdict::Resolve(Payload::Doc(pick(&job, &ks)))
    } else if state_is(&job, "cancelled") {
        reject("cancelled", Some(job))
    } else {
        reject("import_failed", Some(job))
    }
}

/// An export job being polled.
pub struct Export {
    pub auth: String,
    /// `{base}/api/database/export/{id}/`.
    pub url: String,
    /// The job as last reported.
    pub job: Json,
    /// Consecutive failed polls.
    pub failures: u32,
}

pub struct ExportV {
    pub auth: Seq<char>,
    pub url: Seq<char>,
    pub job: JsonV,
    pub failures: u32,
}

impl View for Export {
    type V = ExportV;

    open spec fn view(&self) -> ExportV {
        ExportV { auth: self.auth@, url: self.url@, job: jv(self.job), failures: self.failures }
    }
}

/// What a table import carries before its job is known.
pub struct Import {
    pub auth: String,
    pub table: i64,
    /// The stamp: the promise's injected identity, as `original_file_name`.
    pub stamp: String,
    /// The import body.
    pub body: Json,
}

pub struct ImportV {
    pub auth: Seq<char>,
    pub table: i64,
    pub stamp: Seq<char>,
    pub body: JsonV,
}

impl View for Import {
    type V = ImportV;

    open spec fn view(&self) -> ImportV {
        ImportV { auth: self.auth@, table: self.table, stamp: self.stamp@, body: jv(self.body) }
    }
}

/// An import job being polled.
pub struct Track {
    pub auth: String,
    /// `{base}/api/jobs/{id}/`.
    pub url: String,
    pub job: Json,
}

pub struct TrackV {
    pub auth: Seq<char>,
    pub url: Seq<char>,
    pub job: JsonV,
}

impl View for Track {
    type V = TrackV;

    open spec fn view(&self) -> TrackV {
        TrackV { auth: self.auth@, url: self.url@, job: jv(self.job) }
    }
}

/// The search for the import job: one page of this account's file_import jobs,
/// newest first, at most 100 to a page.
pub open spec fn find_request_v(c: ConfigV, auth: Seq<char>, offset: int) -> RequestV {
    get_v(
        c.base_url + "/api/jobs/"@,
        auth,
        seq![
            ("type"@, ParamV::Text("file_import"@)),
            ("limit"@, ParamV::Text("100"@)),
            ("offset"@, ParamV::Text(decimal_v(offset))),
        ],
    )
}

fn find_request(cfg: &Config, auth: &str, offset: i64) -> (r: Request)
    ensures
        r@ == find_request_v(cfg@, auth@, offset as int),
{
    let mut q: Vec<(String, Param)> = Vec::new();
    q.push(qtext("type", text("file_import")));
    q.push(qtext("limit", text("100")));
    q.push(qtext("offset", decimal(offset)));
    assert(query_v(q@) =~= seq![
        ("type"@, ParamV::Text("file_import"@)),
        ("limit"@, ParamV::Text("100"@)),
        ("offset"@, ParamV::Text(decimal_v(offset as int))),
    ]);
    authed(Method::Get, cat(cfg.base_url.as_str(), "/api/jobs/"), auth).query(q)
}

/// The first job of a page from position `i` on stamped with `stamp`.
pub open spec fn stamped_from(jobs: Seq<JsonV>, stamp: Seq<char>, i: int) -> Option<JsonV>
    decreases jobs.len() - i,
{
    if i < 0 || i >= jobs.len() {
        None
    } else if get_str(jobs[i], "original_file_name"@) == Some(stamp) {
        Some(jobs[i])
    } else {
        stamped_from(jobs, stamp, i + 1)
    }
}

/// The jobs of a page; none where the body carries no array.
pub open spec fn jobs_v(r: ResponseV) -> Seq<JsonV> {
    match jget(body_v(r), "jobs"@) {
        Some(JsonV::Array(a)) => a,
        _ => Seq::empty(),
    }
}

/// The import job a page names, and how many jobs the page holds.
fn scan_page(r: &Response, stamp: &str) -> (o: (Option<Json>, usize))
    ensures
        o.1 == jobs_v(r@).len(),
        match o.0 {
            Some(j) => stamped_from(jobs_v(r@), stamp@, 0) == Some(j@),
            None => stamped_from(jobs_v(r@), stamp@, 0) is None,
        },
{
    let body = r.json();
    match body.get("jobs") {
        Some(Json::Array(v)) => {
            proof {
                lemma_jv_array(*v);
            }
            let ghost js = elems_v(v@);
            let mut i: usize = 0;
            while i < v.len()
                invariant
                    i <= v.len(),
                    body@ == body_v(r@),
                    js == elems_v(v@),
                    jobs_v(r@) == js,
                    stamped_from(js, stamp@, 0) == stamped_from(js, stamp@, i as int),
                decreases v.len() - i,
            {
                match v[i].get_str("original_file_name") {
                    Some(s) => if str_eq(s.as_str(), stamp) {
                        assert(stamped_from(js, stamp@, i as int) == Some(js[i as int]));
                        return (Some(v[i].copy()), v.len());
                    },
                    None => {},
                }
                i = i + 1;
            }
            (None, v.len())
        },
        _ => (None, 0),
    }
}

/// The import: the data, the stamp as `original_file_name`, and the
/// configuration and importer type where given.
pub open spec fn import_body_v(args: JsonV, data: JsonV, stamp: Seq<char>) -> JsonV {
    JsonV::Object(
        seq![("data"@, data), ("original_file_name"@, JsonV::Str(stamp))] + pick_present_v(
            args,
            seq!["configuration"@, "importer_type"@],
        ),
    )
}

fn import_body(args: &Json, data: Json, stamp: &str) -> (r: Json)
    ensures
        r@ == import_body_v(args@, data@, stamp@),
{
    let ghost dv = data@;
    let ks = ["configuration", "importer_type"];
    assert(names(ks@) =~= seq!["configuration"@, "importer_type"@]);
    let extra = pick_present(args, &ks);
    let mut m: Vec<(String, Json)> = Vec::new();
    m.push((text("data"), data));
    m.push((text("original_file_name"), Json::Str(String::from_str(stamp))));
    let ghost head = members_v(m@);
    assert(head =~= seq![("data"@, dv), ("original_file_name"@, JsonV::Str(stamp@))]);
    let mut rest = members_of(&extra);
    let ghost tail = members_v(rest@);
    m.append(&mut rest);
    proof {
        lemma_jv_object(m);
        assert(members_v(m@) =~= head + tail);
    }
    Json::Object(m)
}

pub open spec fn import_request_v(c: ConfigV, im: ImportV) -> RequestV {
    with_body_v(
        authed_v(
            Method::Post,
            c.base_url + "/api/database/tables/"@ + decimal_v(im.table as int) + "/import/async/"@,
            im.auth,
        ),
        im.body,
    )
}

fn import_request(cfg: &Config, im: &Import) -> (r: Request)
    ensures
        r@ == import_request_v(cfg@, im@),
{
    let mut u = cat(cfg.base_url.as_str(), "/api/database/tables/");
    u.append(decimal(im.table).as_str());
    u.append("/import/async/");
    authed(Method::Post, u, im.auth.as_str()).json(im.body.copy())
}

// ─── The machine ────────────────────────────────────────────────────────────

/// Where a delivery stands.
pub enum Stage {
    Done,
    /// The token exchange every operation begins with is out.
    Token { func: Func, args: Json },
    /// An operation's one call is out.
    Read { kind: Kind },
    /// export.create: the export is being started.
    ExportStart { auth: String },
    /// export.create: sleeping between two polls of the job.
    ExportSleep { x: Export },
    /// export.create: a poll of the job is out.
    ExportPoll { x: Export },
    /// export.create: the token is being renewed mid-poll.
    ExportReauth { x: Export },
    /// table.import: page `page` of the jobs listing is out.
    ImportFind { im: Import, page: u32 },
    /// table.import: the import is being started.
    ImportStart { im: Import },
    /// table.import: sleeping between two polls of the job.
    ImportSleep { t: Track },
    /// table.import: a poll of the job is out.
    ImportPoll { t: Track },
    /// table.import: the token is being renewed mid-poll.
    ImportReauth { t: Track },
}

pub enum StageV {
    Done,
    Token { func: Func, args: JsonV },
    Read { kind: Kind },
    ExportStart { auth: Seq<char> },
    ExportSleep { x: ExportV },
    ExportPoll { x: ExportV },
    ExportReauth { x: ExportV },
    ImportFind { im: ImportV, page: u32 },
    ImportStart { im: ImportV },
    ImportSleep { t: TrackV },
    ImportPoll { t: TrackV },
    ImportReauth { t: TrackV },
}

impl View for Stage {
    type V = StageV;

    open spec fn view(&self) -> StageV {
        match self {
            Stage::Done => StageV::Done,
            Stage::Token { func, args } => StageV::Token { func: *func, args: jv(*args) },
            Stage::Read { kind } => StageV::Read { kind: *kind },
            Stage::ExportStart { auth } => StageV::ExportStart { auth: auth@ },
            Stage::ExportSleep { x } => StageV::ExportSleep { x: x@ },
            Stage::ExportPoll { x } => StageV::ExportPoll { x: x@ },
            Stage::ExportReauth { x } => StageV::ExportReauth { x: x@ },
            Stage::ImportFind { im, page } => StageV::ImportFind { im: im@, page: *page },
            Stage::ImportStart { im } => StageV::ImportStart { im: im@ },
            Stage::ImportSleep { t } => StageV::ImportSleep { t: t@ },
            Stage::ImportPoll { t } => StageV::ImportPoll { t: t@ },
            Stage::ImportReauth { t } => StageV::ImportReauth { t: t@ },
        }
    }
}

pub open spec fn finish(v: VerdictV) -> (StageV, ActionV) {
    (StageV::Done, ActionV::Finish(v))
}

pub open spec fn invalid(e: Seq<char>) -> (StageV, ActionV) {
    finish(reject_v("invalid_request"@, Some(JsonV::Str(e))))
}

pub open spec fn read(k: Kind, req: RequestV) -> (StageV, ActionV) {
    (StageV::Read { kind: k }, ActionV::Send(req))
}

/// The first step: the token exchange for an operation the param names.
pub open spec fn start_v(c: ConfigV, parsed: Result<JsonV, Seq<char>>) -> (StageV, ActionV) {
    match read_param_v(parsed) {
        Err(v) => finish(v),
        Ok((name, args)) => match func_of(name) {
            Some(f) => (StageV::Token { func: f, args }, ActionV::Send(token_request_v(c))),
            None => finish(reject_v("unknown_func"@, Some(JsonV::Str(name)))),
        },
    }
}

/// The table and row ids, the table's error first.
pub open spec fn ids_v(args: JsonV) -> Result<(i64, i64), Seq<char>> {
    match arg_int_v(args, "table_id"@) {
        Err(e) => Err(e),
        Ok(t) => match arg_int_v(args, "row_id"@) {
            Err(e) => Err(e),
            Ok(r) => Ok((t, r)),
        },
    }
}

/// The operation, begun once the token is in hand.
pub open spec fn op_begin_v(c: ConfigV, p: PromiseV, f: Func, args: JsonV, auth: Seq<char>) -> (
    StageV,
    ActionV,
) {
    let base = c.base_url;
    match f {
        Func::RowList => match arg_int_v(args, "table_id"@) {
            Err(e) => invalid(e),
            Ok(t) => read(Kind::RowList, get_v(rows_url_v(c, t), auth, row_list_query_v(args))),
        },
        Func::RowGet => match ids_v(args) {
            Err(e) => invalid(e),
            Ok((t, r)) => read(
                Kind::Row,
                get_v(
                    row_url_v(c, t, r),
                    auth,
                    bq_v(args, seq!["include"@, "user_field_names"@, "view"@]),
                ),
            ),
        },
        Func::RowCreate => match arg_int_v(args, "table_id"@) {
            Err(e) => invalid(e),
            Ok(t) => match arg_object_v(args, "values"@) {
                Err(e) => invalid(e),
                Ok(values) => read(
                    Kind::Row,
                    with_body_v(
                        with_query_v(
                            authed_v(Method::Post, rows_url_v(c, t), auth),
                            bq_v(
                                args,
                                seq![
                                    "before"@,
                                    "user_field_names"@,
                                    "view"@,
                                    "send_webhook_events"@,
                                ],
                            ),
                        ),
                        values,
                    ),
                ),
            },
        },
        Func::RowUpdate => match ids_v(args) {
            Err(e) => invalid(e),
            Ok((t, r)) => match arg_object_v(args, "values"@) {
                Err(e) => invalid(e),
                Ok(values) => read(
                    Kind::Row,
                    with_body_v(
                        with_query_v(
                            authed_v(Method::Patch, row_url_v(c, t, r), auth),
                            bq_v(args, seq!["user_field_names"@, "view"@, "send_webhook_events"@]),
                        ),
                        values,
                    ),
                ),
            },
        },
        Func::RowDelete => match ids_v(args) {
            Err(e) => invalid(e),
            Ok((t, r)) => read(
                Kind::RowDelete,
                with_query_v(
                    authed_v(Method::Delete, row_url_v(c, t, r), auth),
                    bq_v(args, seq!["view"@, "send_webhook_events"@]),
                ),
            ),
        },
        Func::RowMove => match ids_v(args) {
            Err(e) => invalid(e),
            Ok((t, r)) => read(
                Kind::Row,
                with_query_v(
                    authed_v(Method::Patch, row_url_v(c, t, r) + "move/"@, auth),
                    bq_v(
                        args,
                        seq!["before_id"@, "user_field_names"@, "view"@, "send_webhook_events"@],
                    ),
                ),
            ),
        },
        Func::RowsCreate => match arg_int_v(args, "table_id"@) {
            Err(e) => invalid(e),
            Ok(t) => match arg_array_v(args, "rows"@) {
                Err(e) => invalid(e),
                Ok(rows) => read(
                    Kind::Row,
                    with_body_v(
                        with_query_v(
                            authed_v(Method::Post, rows_url_v(c, t) + "batch/"@, auth),
                            bq_v(
                                args,
                                seq![
                                    "before"@,
                                    "include_metadata"@,
                                    "user_field_names"@,
                                    "view"@,
                                    "send_webhook_events"@,
                                ],
                            ),
                        ),
                        items_v(rows),
                    ),
                ),
            },
        },
        Func::RowsUpdate => match arg_int_v(args, "table_id"@) {
            Err(e) => invalid(e),
            Ok(t) => match arg_array_v(args, "rows"@) {
                Err(e) => invalid(e),
                Ok(rows) => read(
                    Kind::RowsUpdate,
                    with_body_v(
                        with_query_v(
                            authed_v(Method::Patch, rows_url_v(c, t) + "batch/"@, auth),
                            bq_v(
                                args,
                                seq![
                                    "include_metadata"@,
                                    "user_field_names"@,
                                    "view"@,
                                    "send_webhook_events"@,
                                ],
                            ),
                        ),
                        items_v(rows),
                    ),
                ),
            },
        },
        Func::RowsDelete => match arg_int_v(args, "table_id"@) {
            Err(e) => invalid(e),
            Ok(t) => match arg_array_v(args, "row_ids"@) {
                Err(e) => invalid(e),
                Ok(ids) => read(
                    Kind::RowsDelete,
                    with_body_v(
                        with_query_v(
                            authed_v(Method::Post, rows_url_v(c, t) + "batch-delete/"@, auth),
                            bq_v(args, seq!["view"@, "send_webhook_events"@]),
                        ),
                        items_v(ids),
                    ),
                ),
            },
        },
        Func::ExportCreate => match arg_int_v(args, "table_id"@) {
            Err(e) => invalid(e),
            Ok(t) => (
                StageV::ExportStart { auth },
                ActionV::Send(
                    with_body_v(
                        authed_v(
                            Method::Post,
                            id_url_v(c, "/api/database/export/table/"@, t),
                            auth,
                        ),
                        JsonV::Object(drop_key(members(args), "table_id"@)),
                    ),
                ),
            ),
        },
        Func::ExportGet => match arg_int_v(args, "job_id"@) {
            Err(e) => invalid(e),
            Ok(j) => read(
                Kind::Job,
                get_v(id_url_v(c, "/api/database/export/"@, j), auth, Seq::empty()),
            ),
        },
        Func::TableImport => match arg_int_v(args, "table_id"@) {
            Err(e) => invalid(e),
            Ok(t) => match arg_array_v(args, "data"@) {
                Err(e) => invalid(e),
                Ok(data) => {
                    let im = ImportV {
                        auth,
                        table: t,
                        stamp: sanitize_v(p.id),
                        body: import_body_v(args, data, sanitize_v(p.id)),
                    };
                    (StageV::ImportFind { im, page: 0 }, ActionV::Send(find_request_v(c, auth, 0)))
                },
            },
        },
        Func::JobGet => match arg_int_v(args, "job_id"@) {
            Err(e) => invalid(e),
            Ok(j) => read(Kind::Job, get_v(id_url_v(c, "/api/jobs/"@, j), auth, Seq::empty())),
        },
        Func::DatabaseList => read(Kind::Plain, get_v(base + "/api/applications/"@, auth, Seq::empty())),
        Func::TableList => match arg_int_v(args, "database_id"@) {
            Err(e) => invalid(e),
            Ok(d) => read(
                Kind::Database,
                get_v(id_url_v(c, "/api/database/tables/database/"@, d), auth, Seq::empty()),
            ),
        },
        Func::FieldList => match arg_int_v(args, "table_id"@) {
            Err(e) => invalid(e),
            Ok(t) => read(
                Kind::Table,
                get_v(id_url_v(c, "/api/database/fields/table/"@, t), auth, Seq::empty()),
            ),
        },
        Func::ViewList => match arg_int_v(args, "table_id"@) {
            Err(e) => invalid(e),
            Ok(t) => read(
                Kind::Table,
                get_v(
                    id_url_v(c, "/api/database/views/table/"@, t),
                    auth,
                    bq_v(args, seq!["type"@, "limit"@, "include"@]),
                ),
            ),
        },
        Func::RowhistoryList => match ids_v(args) {
            Err(e) => invalid(e),
            Ok((t, r)) => read(
                Kind::RowHistory,
                get_v(row_url_v(c, t, r) + "history/"@, auth, bq_v(args, seq!["limit"@, "offset"@])),
            ),
        },
    }
}

/// The head of the export loop: settle a terminal job, stop at the deadline,
/// else sleep before the next poll.
pub open spec fn export_cond_v(c: ConfigV, p: PromiseV, x: ExportV, now: i64) -> (StageV, ActionV) {
    if export_terminal(state_of(x.job)) {
        finish(export_settle_v(x.job))
    } else if now >= p.timeout_at {
        finish(release_v("promise timed out"@))
    } else {
        (
            StageV::ExportSleep { x },
            ActionV::Sleep(nap_v(or_poll(c.poll_export, c.poll), p.timeout_at, now)),
        )
    }
}

/// A failed poll of the export: a halt propagates at once; every other
/// failure is counted, and the fifth in a row ends the attempt.
pub open spec fn export_failed_v(c: ConfigV, p: PromiseV, x: ExportV, f: FailureV, now: i64) -> (
    StageV,
    ActionV,
) {
    if f is Halt || x.failures >= 4 {
        finish(fail_v(f))
    } else {
        export_cond_v(c, p, ExportV { failures: (x.failures + 1) as u32, ..x }, now)
    }
}

/// The answer to the export's start.
pub open spec fn export_started_v(c: ConfigV, p: PromiseV, auth: Seq<char>, r: ResponseV, now: i64) -> (
    StageV,
    ActionV,
) {
    let e = error_v(r);
    if r.status == 404 && nf_code(Kind::Export, e) is Some {
        finish(reject_v(nf_code(Kind::Export, e)->0, Some(detail_v(r))))
    } else {
        match check_v(r) {
            Some(f) => finish(fail_v(f)),
            None => if r.status >= 400 {
                finish(reject_v("invalid_request"@, Some(detail_v(r))))
            } else {
                let job = body_v(r);
                match jint(jget(job, "id"@)) {
                    None => finish(
                        VerdictV::Release(PayloadV::Text("export job has no id: "@ + r.text)),
                    ),
                    Some(id) => export_cond_v(
                        c,
                        p,
                        ExportV {
                            auth,
                            url: id_url_v(c, "/api/database/export/"@, id),
                            job,
                            failures: 0,
                        },
                        now,
                    ),
                }
            },
        }
    }
}

/// The answer to one poll of the export.
pub open spec fn export_polled_v(c: ConfigV, p: PromiseV, x: ExportV, g: ResponseV, now: i64) -> (
    StageV,
    ActionV,
) {
    if g.status == 401 {
        // The access token lives ten minutes by default: re-mint it.
        (StageV::ExportReauth { x }, ActionV::Send(token_request_v(c)))
    } else if g.status == 404 {
        finish(reject_v("job_not_found"@, Some(detail_v(g))))
    } else {
        match check_v(g) {
            Some(f) => export_failed_v(c, p, x, f, now),
            None => if g.status >= 400 {
                finish(reject_v("invalid_request"@, Some(detail_v(g))))
            } else {
                export_cond_v(c, p, ExportV { job: body_v(g), failures: 0, ..x }, now)
            },
        }
    }
}

/// The head of the import loop.
pub open spec fn track_cond_v(c: ConfigV, p: PromiseV, t: TrackV, now: i64) -> (StageV, ActionV) {
    if job_terminal(state_of(t.job)) {
        finish(import_settle_v(t.job))
    } else if now >= p.timeout_at {
        finish(release_v("promise timed out"@))
    } else {
        (
            StageV::ImportSleep { t },
            ActionV::Sleep(nap_v(or_poll(c.poll_table, c.poll), p.timeout_at, now)),
        )
    }
}

/// Tracking the import job that was found or started.
pub open spec fn track_start_v(c: ConfigV, p: PromiseV, auth: Seq<char>, job: JsonV, now: i64) -> (
    StageV,
    ActionV,
) {
    match jint(jget(job, "id"@)) {
        None => finish(VerdictV::Release(PayloadV::Note("import job has no id: "@, job))),
        Some(id) => track_cond_v(
            c,
            p,
            TrackV { auth, url: id_url_v(c, "/api/jobs/"@, id), job },
            now,
        ),
    }
}

/// The answer to one page of the jobs listing. A stamp older than the
/// account's last thousand file_import jobs is not found, and the import is
/// repeated.
pub open spec fn found_page_v(c: ConfigV, p: PromiseV, im: ImportV, page: u32, r: ResponseV, now: i64) -> (
    StageV,
    ActionV,
) {
    match check_v(r) {
        Some(f) => finish(fail_v(f)),
        None => if r.status >= 400 {
            finish(release_v(r.text))
        } else {
            match stamped_from(jobs_v(r), im.stamp, 0) {
                Some(job) => track_start_v(c, p, im.auth, job, now),
                None => if jobs_v(r).len() < 100 || page >= 9 {
                    (StageV::ImportStart { im }, ActionV::Send(import_request_v(c, im)))
                } else {
                    (
                        StageV::ImportFind { im, page: (page + 1) as u32 },
                        ActionV::Send(find_request_v(c, im.auth, (page + 1) * 100)),
                    )
                },
            }
        },
    }
}

/// The answer to the import's start.
pub open spec fn import_started_v(c: ConfigV, p: PromiseV, im: ImportV, r: ResponseV, now: i64) -> (
    StageV,
    ActionV,
) {
    if r.status == 404 {
        finish(reject_v("table_not_found"@, Some(detail_v(r))))
    } else if r.status == 400 && error_v(r) == Some("ERROR_MAX_JOB_COUNT_EXCEEDED"@) {
        // Clears on its own once this account's running imports finish.
        finish(release_v(r.text))
    } else {
        match check_v(r) {
            Some(f) => finish(fail_v(f)),
            None => if r.status >= 400 {
                finish(reject_v("invalid_request"@, Some(detail_v(r))))
            } else {
                track_start_v(c, p, im.auth, body_v(r), now)
            },
        }
    }
}

/// The answer to one poll of the import job.
pub open spec fn import_polled_v(c: ConfigV, p: PromiseV, t: TrackV, g: ResponseV, now: i64) -> (
    StageV,
    ActionV,
) {
    if g.status == 401 {
        (StageV::ImportReauth { t }, ActionV::Send(token_request_v(c)))
    } else if g.status == 404 {
        finish(reject_v("job_not_found"@, Some(detail_v(g))))
    } else {
        match check_v(g) {
            Some(f) => finish(fail_v(f)),
            None => if g.status >= 400 {
                finish(reject_v("invalid_request"@, Some(detail_v(g))))
            } else {
                track_cond_v(c, p, TrackV { job: body_v(g), ..t }, now)
            },
        }
    }
}

/// One step: the stage and what just happened give the next stage and action.
pub open spec fn next_v(c: ConfigV, p: PromiseV, s: StageV, e: EventV, now: i64) -> (StageV, ActionV) {
    match e {
        EventV::Lost(msg, _) => match s {
            // A poll's failure, a lost request among them, is counted.
            StageV::ExportPoll { x } => export_failed_v(
                c,
                p,
                x,
                FailureV::Release(PayloadV::Text(msg)),
                now,
            ),
            StageV::ExportReauth { x } => export_failed_v(
                c,
                p,
                x,
                FailureV::Release(PayloadV::Text(msg)),
                now,
            ),
            _ => finish(release_v(msg)),
        },
        EventV::Woke => match s {
            StageV::ExportSleep { x } => (
                StageV::ExportPoll { x },
                ActionV::Send(get_v(x.url, x.auth, Seq::empty())),
            ),
            StageV::ImportSleep { t } => (
                StageV::ImportPoll { t },
                ActionV::Send(get_v(t.url, t.auth, Seq::empty())),
            ),
            _ => finish(release_v(Seq::empty())),
        },
        EventV::Reply(r) => match s {
            StageV::Token { func, args } => match token_outcome_v(r) {
                Err(f) => finish(fail_v(f)),
                Ok(auth) => op_begin_v(c, p, func, args, auth),
            },
            StageV::Read { kind } => finish(outcome_v(kind, r)),
            StageV::ExportStart { auth } => export_started_v(c, p, auth, r, now),
            StageV::ExportPoll { x } => export_polled_v(c, p, x, r, now),
            StageV::ExportReauth { x } => match token_outcome_v(r) {
                Err(f) => export_failed_v(c, p, x, f, now),
                Ok(auth) => export_cond_v(c, p, ExportV { auth, ..x }, now),
            },
            StageV::ImportFind { im, page } => found_page_v(c, p, im, page, r, now),
            StageV::ImportStart { im } => import_started_v(c, p, im, r, now),
            StageV::ImportPoll { t } => import_polled_v(c, p, t, r, now),
            StageV::ImportReauth { t } => match token_outcome_v(r) {
                Err(f) => finish(fail_v(f)),
                Ok(auth) => track_cond_v(c, p, TrackV { auth, ..t }, now),
            },
            _ => finish(release_v(Seq::empty())),
        },
    }
}

fn done(v: Verdict) -> (r: (Stage, Action))
    ensures
        (r.0@, r.1@) == finish(v@),
{
    (Stage::Done, Action::Finish(v))
}

fn invalid_exec(e: String) -> (r: (Stage, Action))
    ensures
        (r.0@, r.1@) == invalid(e@),
{
    done(reject("invalid_request", Some(Json::Str(e))))
}

fn read_exec(k: Kind, req: Request) -> (r: (Stage, Action))
    ensures
        (r.0@, r.1@) == read(k, req@),
{
    (Stage::Read { kind: k }, Action::Send(req))
}

fn get(u: String, auth: &str, q: Vec<(String, Param)>) -> (r: Request)
    ensures
        r@ == get_v(u@, auth@, query_v(q@)),
{
    authed(Method::Get, u, auth).query(q)
}

fn ids(args: &Json) -> (r: Result<(i64, i64), String>)
    ensures
        match r {
            Ok(x) => ids_v(args@) == Ok::<(i64, i64), Seq<char>>(x),
            Err(e) => ids_v(args@) == Err::<(i64, i64), Seq<char>>(e@),
        },
{
    let t = match arg_int(args, "table_id") {
        Err(e) => return Err(e),
        Ok(t) => t,
    };
    let r = match arg_int(args, "row_id") {
        Err(e) => return Err(e),
        Ok(r) => r,
    };
    Ok((t, r))
}

fn op_begin(cfg: &Config, promise: &Promise, f: Func, args: Json, auth: String) -> (r: (
    Stage,
    Action,
))
    ensures
        (r.0@, r.1@) == op_begin_v(cfg@, promise@, f, args@, auth@),
{
    let a = auth.as_str();
    match f {
        Func::RowList => match arg_int(&args, "table_id") {
            Err(e) => invalid_exec(e),
            Ok(t) => read_exec(Kind::RowList, get(rows_url(cfg, t), a, row_list_query(&args))),
        },
        Func::RowGet => match ids(&args) {
            Err(e) => invalid_exec(e),
            Ok((t, r)) => {
                let ks = ["include", "user_field_names", "view"];
                assert(names(ks@) =~= seq!["include"@, "user_field_names"@, "view"@]);
                read_exec(Kind::Row, get(row_url(cfg, t, r), a, bq(&args, &ks)))
            },
        },
        Func::RowCreate => match arg_int(&args, "table_id") {
            Err(e) => invalid_exec(e),
            Ok(t) => match arg_object(&args, "values") {
                Err(e) => invalid_exec(e),
                Ok(values) => {
                    let ks = ["before", "user_field_names", "view", "send_webhook_events"];
                    assert(names(ks@) =~= seq![
                        "before"@,
                        "user_field_names"@,
                        "view"@,
                        "send_webhook_events"@,
                    ]);
                    read_exec(
                        Kind::Row,
                        authed(Method::Post, rows_url(cfg, t), a).query(bq(&args, &ks)).json(
                            values.copy(),
                        ),
                    )
                },
            },
        },
        Func::RowUpdate => match ids(&args) {
            Err(e) => invalid_exec(e),
            Ok((t, r)) => match arg_object(&args, "values") {
                Err(e) => invalid_exec(e),
                Ok(values) => {
                    let ks = ["user_field_names", "view", "send_webhook_events"];
                    assert(names(ks@) =~= seq!["user_field_names"@, "view"@, "send_webhook_events"@]);
                    read_exec(
                        Kind::Row,
                        authed(Method::Patch, row_url(cfg, t, r), a).query(bq(&args, &ks)).json(
                            values.copy(),
                        ),
                    )
                },
            },
        },
        Func::RowDelete => match ids(&args) {
            Err(e) => invalid_exec(e),
            Ok((t, r)) => {
                let ks = ["view", "send_webhook_events"];
                assert(names(ks@) =~= seq!["view"@, "send_webhook_events"@]);
                read_exec(
                    Kind::RowDelete,
                    authed(Method::Delete, row_url(cfg, t, r), a).query(bq(&args, &ks)),
                )
            },
        },
        Func::RowMove => match ids(&args) {
            Err(e) => invalid_exec(e),
            Ok((t, r)) => {
                let ks = ["before_id", "user_field_names", "view", "send_webhook_events"];
                assert(names(ks@) =~= seq![
                    "before_id"@,
                    "user_field_names"@,
                    "view"@,
                    "send_webhook_events"@,
                ]);
                read_exec(
                    Kind::Row,
                    authed(Method::Patch, row_url(cfg, t, r).concat("move/"), a).query(
                        bq(&args, &ks),
                    ),
                )
            },
        },
        Func::RowsCreate => match arg_int(&args, "table_id") {
            Err(e) => invalid_exec(e),
            Ok(t) => match arg_array(&args, "rows") {
                Err(e) => invalid_exec(e),
                Ok(rows) => {
                    let ks = [
                        "before",
                        "include_metadata",
                        "user_field_names",
                        "view",
                        "send_webhook_events",
                    ];
                    assert(names(ks@) =~= seq![
                        "before"@,
                        "include_metadata"@,
                        "user_field_names"@,
                        "view"@,
                        "send_webhook_events"@,
                    ]);
                    read_exec(
                        Kind::Row,
                        authed(Method::Post, rows_url(cfg, t).concat("batch/"), a).query(
                            bq(&args, &ks),
                        ).json(items(rows.copy())),
                    )
                },
            },
        },
        Func::RowsUpdate => match arg_int(&args, "table_id") {
            Err(e) => invalid_exec(e),
            Ok(t) => match arg_array(&args, "rows") {
                Err(e) => invalid_exec(e),
                Ok(rows) => {
                    let ks = ["include_metadata", "user_field_names", "view", "send_webhook_events"];
                    assert(names(ks@) =~= seq![
                        "include_metadata"@,
                        "user_field_names"@,
                        "view"@,
                        "send_webhook_events"@,
                    ]);
                    read_exec(
                        Kind::RowsUpdate,
                        authed(Method::Patch, rows_url(cfg, t).concat("batch/"), a).query(
                            bq(&args, &ks),
                        ).json(items(rows.copy())),
                    )
                },
            },
        },
        Func::RowsDelete => match arg_int(&args, "table_id") {
            Err(e) => invalid_exec(e),
            Ok(t) => match arg_array(&args, "row_ids") {
                Err(e) => invalid_exec(e),
                Ok(row_ids) => {
                    let ks = ["view", "send_webhook_events"];
                    assert(names(ks@) =~= seq!["view"@, "send_webhook_events"@]);
                    read_exec(
                        Kind::RowsDelete,
                        authed(Method::Post, rows_url(cfg, t).concat("batch-delete/"), a).query(
                            bq(&args, &ks),
                        ).json(items(row_ids.copy())),
                    )
                },
            },
        },
        Func::ExportCreate => match arg_int(&args, "table_id") {
            Err(e) => invalid_exec(e),
            Ok(t) => {
                let mut body = members_of(&args);
                remove(&mut body, "table_id");
                proof {
                    lemma_jv_object(body);
                }
                let req = authed(Method::Post, id_url(cfg, "/api/database/export/table/", t), a).json(
                    Json::Object(body),
                );
                (Stage::ExportStart { auth }, Action::Send(req))
            },
        },
        Func::ExportGet => match arg_int(&args, "job_id") {
            Err(e) => invalid_exec(e),
            Ok(j) => read_exec(
                Kind::Job,
                get(id_url(cfg, "/api/database/export/", j), a, no_params()),
            ),
        },
        Func::TableImport => match arg_int(&args, "table_id") {
            Err(e) => invalid_exec(e),
            Ok(t) => match arg_array(&args, "data") {
                Err(e) => invalid_exec(e),
                Ok(data) => {
                    let stamp = sanitize(promise.id.as_str());
                    let body = import_body(&args, data.copy(), stamp.as_str());
                    let req = find_request(cfg, a, 0);
                    let im = Import { auth, table: t, stamp, body };
                    (Stage::ImportFind { im, page: 0 }, Action::Send(req))
                },
            },
        },
        Func::JobGet => match arg_int(&args, "job_id") {
            Err(e) => invalid_exec(e),
            Ok(j) => read_exec(Kind::Job, get(id_url(cfg, "/api/jobs/", j), a, no_params())),
        },
        Func::DatabaseList => read_exec(
            Kind::Plain,
            get(cat(cfg.base_url.as_str(), "/api/applications/"), a, no_params()),
        ),
        Func::TableList => match arg_int(&args, "database_id") {
            Err(e) => invalid_exec(e),
            Ok(d) => read_exec(
                Kind::Database,
                get(id_url(cfg, "/api/database/tables/database/", d), a, no_params()),
            ),
        },
        Func::FieldList => match arg_int(&args, "table_id") {
            Err(e) => invalid_exec(e),
            Ok(t) => read_exec(
                Kind::Table,
                get(id_url(cfg, "/api/database/fields/table/", t), a, no_params()),
            ),
        },
        Func::ViewList => match arg_int(&args, "table_id") {
            Err(e) => invalid_exec(e),
            Ok(t) => {
                let ks = ["type", "limit", "include"];
                assert(names(ks@) =~= seq!["type"@, "limit"@, "include"@]);
                read_exec(
                    Kind::Table,
                    get(id_url(cfg, "/api/database/views/table/", t), a, bq(&args, &ks)),
                )
            },
        },
        Func::RowhistoryList => match ids(&args) {
            Err(e) => invalid_exec(e),
            Ok((t, r)) => {
                let ks = ["limit", "offset"];
                assert(names(ks@) =~= seq!["limit"@, "offset"@]);
                read_exec(
                    Kind::RowHistory,
                    get(row_url(cfg, t, r).concat("history/"), a, bq(&args, &ks)),
                )
            },
        },
    }
}

fn export_terminal_exec(job: &Json) -> (b: bool)
    ensures
        b == export_terminal(state_of(job@)),
{
    state_is(job, "finished") || state_is(job, "failed") || state_is(job, "cancelled") || state_is(
        job,
        "expired",
    )
}

fn job_terminal_exec(job: &Json) -> (b: bool)
    ensures
        b == job_terminal(state_of(job@)),
{
    state_is(job, "finished") || state_is(job, "failed") || state_is(job, "cancelled")
}

fn export_cond(cfg: &Config, promise: &Promise, x: Export, now: i64) -> (r: (Stage, Action))
    ensures
        (r.0@, r.1@) == export_cond_v(cfg@, promise@, x@, now),
{
    if export_terminal_exec(&x.job) {
        done(export_settle(x.job))
    } else if now >= promise.timeout_at {
        done(Verdict::Release(Payload::Text(text("promise timed out"))))
    } else {
        let ms = nap(cfg.poll_export(), promise.timeout_at, now);
        (Stage::ExportSleep { x }, Action::Sleep(ms))
    }
}

fn export_failed(cfg: &Config, promise: &Promise, x: Export, f: Failure, now: i64) -> (r: (
    Stage,
    Action,
))
    ensures
        (r.0@, r.1@) == export_failed_v(cfg@, promise@, x@, f@, now),
{
    let halt = match &f {
        Failure::Halt(_) => true,
        Failure::Release(_) => false,
    };
    if halt || x.failures >= 4 {
        done(f.into_verdict())
    } else {
        let x2 = Export { auth: x.auth, url: x.url, job: x.job, failures: x.failures + 1 };
        export_cond(cfg, promise, x2, now)
    }
}

fn track_cond(cfg: &Config, promise: &Promise, t: Track, now: i64) -> (r: (Stage, Action))
    ensures
        (r.0@, r.1@) == track_cond_v(cfg@, promise@, t@, now),
{
    if job_terminal_exec(&t.job) {
        done(import_settle(t.job))
    } else if now >= promise.timeout_at {
        done(Verdict::Release(Payload::Text(text("promise timed out"))))
    } else {
        let ms = nap(cfg.poll_table(), promise.timeout_at, now);
        (Stage::ImportSleep { t }, Action::Sleep(ms))
    }
}

fn track_start(cfg: &Config, promise: &Promise, auth: String, job: Json, now: i64) -> (r: (
    Stage,
    Action,
))
    ensures
        (r.0@, r.1@) == track_start_v(cfg@, promise@, auth@, job@, now),
{
    let id = match job.get("id") {
        Some(x) => x.as_i64(),
        None => None,
    };
    match id {
        None => done(Verdict::Release(Payload::Note(text("import job has no id: "), job))),
        Some(id) => {
            let t = Track { auth, url: id_url(cfg, "/api/jobs/", id), job };
            track_cond(cfg, promise, t, now)
        },
    }
}

/// One call per delivered task begins here: read the param and begin the
/// token exchange for the operation it names.
pub fn begin(cfg: &Config, parsed: Result<Json, String>) -> (r: (Stage, Action))
    ensures
        (r.0@, r.1@) == start_v(cfg@, parsed_v(parsed)),
{
    match read_param(parsed) {
        Err(v) => done(v),
        Ok((name, args)) => match func(name.as_str()) {
            Some(f) => (Stage::Token { func: f, args }, Action::Send(token_request(cfg))),
            None => done(reject("unknown_func", Some(Json::Str(name)))),
        },
    }
}

/// One step of a delivery after its first. `now` is the time in
/// milliseconds since the epoch.
pub fn step(cfg: &Config, promise: &Promise, stage: Stage, event: Event, now: i64) -> (r: (
    Stage,
    Action,
))
    ensures
        (r.0@, r.1@) == next_v(cfg@, promise@, stage@, event@, now),
{
    match event {
        Event::Lost(msg, _) => match stage {
            Stage::ExportPoll { x } => export_failed(
                cfg,
                promise,
                x,
                Failure::Release(Payload::Text(msg)),
                now,
            ),
            Stage::ExportReauth { x } => export_failed(
                cfg,
                promise,
                x,
                Failure::Release(Payload::Text(msg)),
                now,
            ),
            _ => done(Verdict::Release(Payload::Text(msg))),
        },
        Event::Woke => match stage {
            Stage::ExportSleep { x } => {
                let req = get(x.url.clone(), x.auth.as_str(), no_params());
                (Stage::ExportPoll { x }, Action::Send(req))
            },
            Stage::ImportSleep { t } => {
                let req = get(t.url.clone(), t.auth.as_str(), no_params());
                (Stage::ImportPoll { t }, Action::Send(req))
            },
            _ => done(Verdict::Release(Payload::Text(String::new()))),
        },
        Event::Reply(r) => match stage {
            Stage::Token { func, args } => match token_outcome(&r) {
                Err(f) => done(f.into_verdict()),
                Ok(auth) => op_begin(cfg, promise, func, args, auth),
            },
            Stage::Read { kind } => done(outcome(kind, &r)),
            Stage::ExportStart { auth } => {
                if r.status == 404 {
                    match nf_code_exec(Kind::Export, &r) {
                        Some(c) => return done(reject(c, Some(detail(&r)))),
                        None => {},
                    }
                }
                match check(&r) {
                    Some(f) => done(f.into_verdict()),
                    None => if r.status >= 400 {
                        done(reject("invalid_request", Some(detail(&r))))
                    } else {
                        let job = r.json();
                        let id = match job.get("id") {
                            Some(x) => x.as_i64(),
                            None => None,
                        };
                        match id {
                            None => done(
                                Verdict::Release(
                                    Payload::Text(cat("export job has no id: ", r.text.as_str())),
                                ),
                            ),
                            Some(id) => {
                                let x = Export {
                                    auth,
                                    url: id_url(cfg, "/api/database/export/", id),
                                    job,
                                    failures: 0,
                                };
                                export_cond(cfg, promise, x, now)
                            },
                        }
                    },
                }
            },
            Stage::ExportPoll { x } => if r.status == 401 {
                (Stage::ExportReauth { x }, Action::Send(token_request(cfg)))
            } else if r.status == 404 {
                done(reject("job_not_found", Some(detail(&r))))
            } else {
                match check(&r) {
                    Some(f) => export_failed(cfg, promise, x, f, now),
                    None => if r.status >= 400 {
                        done(reject("invalid_request", Some(detail(&r))))
                    } else {
                        let x2 = Export { auth: x.auth, url: x.url, job: r.json(), failures: 0 };
                        export_cond(cfg, promise, x2, now)
                    },
                }
            },
            Stage::ExportReauth { x } => match token_outcome(&r) {
                Err(f) => export_failed(cfg, promise, x, f, now),
                Ok(auth) => {
                    let x2 = Export { auth, url: x.url, job: x.job, failures: x.failures };
                    export_cond(cfg, promise, x2, now)
                },
            },
            Stage::ImportFind { im, page } => match check(&r) {
                Some(f) => done(f.into_verdict()),
                None => if r.status >= 400 {
                    done(Verdict::Release(Payload::Text(r.text.clone())))
                } else {
                    let (hit, n) = scan_page(&r, im.stamp.as_str());
                    match hit {
                        Some(job) => track_start(cfg, promise, im.auth, job, now),
                        None => if n < 100 || page >= 9 {
                            let req = import_request(cfg, &im);
                            (Stage::ImportStart { im }, Action::Send(req))
                        } else {
                            let next = page + 1;
                            let req = find_request(cfg, im.auth.as_str(), (next as i64) * 100);
                            (Stage::ImportFind { im, page: next }, Action::Send(req))
                        },
                    }
                },
            },
            Stage::ImportStart { im } => if r.status == 404 {
                done(reject("table_not_found", Some(detail(&r))))
            } else if r.status == 400 && error_is(&r, "ERROR_MAX_JOB_COUNT_EXCEEDED") {
                done(Verdict::Release(Payload::Text(r.text.clone())))
            } else {
                match check(&r) {
                    Some(f) => done(f.into_verdict()),
                    None => if r.status >= 400 {
                        done(reject("invalid_request", Some(detail(&r))))
                    } else {
                        track_start(cfg, promise, im.auth, r.json(), now)
                    },
                }
            },
            Stage::ImportPoll { t } => if r.status == 401 {
                (Stage::ImportReauth { t }, Action::Send(token_request(cfg)))
            } else if r.status == 404 {
                done(reject("job_not_found", Some(detail(&r))))
            } else {
                match check(&r) {
                    Some(f) => done(f.into_verdict()),
                    None => if r.status >= 400 {
                        done(reject("invalid_request", Some(detail(&r))))
                    } else {
                        let t2 = Track { auth: t.auth, url: t.url, job: r.json() };
                        track_cond(cfg, promise, t2, now)
                    },
                }
            },
            Stage::ImportReauth { t } => match token_outcome(&r) {
                Err(f) => done(f.into_verdict()),
                Ok(auth) => {
                    let t2 = Track { auth, url: t.url, job: t.job };
                    track_cond(cfg, promise, t2, now)
                },
            },
            _ => done(Verdict::Release(Payload::Text(String::new()))),
        },
    }
}


// ─── Laws ───────────────────────────────────────────────────────────────────

/// A delivery never sleeps past its promise's deadline: a sleep is asked for
/// only before the deadline, and it ends by the deadline. The first step
/// never sleeps.
pub proof fn lemma_sleep_within_deadline(c: ConfigV, p: PromiseV, parsed: Result<JsonV, Seq<char>>, s: StageV, e: EventV, now: i64)
    ensures
        !(start_v(c, parsed).1 is Sleep),
        next_v(c, p, s, e, now).1 matches ActionV::Sleep(ms) ==> now < p.timeout_at && now + ms <= p.timeout_at,
{
}

/// The failed polls in a row a stage carries, where it carries any.
pub open spec fn failures_of(s: StageV) -> u32 {
    match s {
        StageV::ExportSleep { x } => x.failures,
        StageV::ExportPoll { x } => x.failures,
        StageV::ExportReauth { x } => x.failures,
        _ => 0,
    }
}

/// The export's poll loop absorbs at most four failed polls in a row: the
/// count a delivery carries never reaches five, and the fifth failure ends
/// it.
pub proof fn lemma_failures_bounded(c: ConfigV, p: PromiseV, parsed: Result<JsonV, Seq<char>>, s: StageV, e: EventV, now: i64)
    ensures
        failures_of(start_v(c, parsed).0) == 0,
        failures_of(s) < 5 ==> failures_of(next_v(c, p, s, e, now).0) < 5,
        s is ExportPoll && failures_of(s) == 4 && e is Lost ==> next_v(c, p, s, e, now).1 is Finish,
{
    match e {
        EventV::Reply(r) => match s {
            StageV::Token { func, args } => {},
            StageV::ExportStart { auth } => {},
            StageV::ExportPoll { x } => {},
            StageV::ExportReauth { x } => {},
            StageV::ImportFind { im, page } => {},
            StageV::ImportStart { im } => {},
            StageV::ImportPoll { t } => {},
            StageV::ImportReauth { t } => {},
            _ => {},
        },
        _ => {},
    }
}

/// Credentials that stop working halt the delivery and wait for an
/// operator: an answer of 402 or 403 to any request ends it with a halt that
/// carries the answer's text.
pub proof fn lemma_credentials_halt(c: ConfigV, p: PromiseV, s: StageV, r: ResponseV, now: i64)
    requires
        r.status == 402 || r.status == 403,
        !(s is Done) && !(s is ExportSleep) && !(s is ImportSleep),
    ensures
        next_v(c, p, s, EventV::Reply(r), now).1 == ActionV::Finish(VerdictV::Halt(PayloadV::Text(r.text))),
{
}

/// Every rejection the first step of a delivery ends with names its code.
#[verifier::rlimit(60)]
pub proof fn lemma_first_rejection_coded(c: ConfigV, p: PromiseV, parsed: Result<JsonV, Seq<char>>)
    ensures
        start_v(c, parsed).1 matches ActionV::Finish(v) ==> coded(v),
{
    match read_param_v(parsed) {
        Ok((name, args)) => match func_of(name) {
            Some(f) => {},
            None => {},
        },
        Err(v) => {},
    }
}

/// Every rejection a later step of a delivery ends with names its code.
#[verifier::rlimit(60)]
pub proof fn lemma_rejections_coded(c: ConfigV, p: PromiseV, s: StageV, e: EventV, now: i64)
    ensures
        next_v(c, p, s, e, now).1 matches ActionV::Finish(v) ==> coded(v),
{
    match e {
        EventV::Reply(r) => match s {
            StageV::Token { func, args } => {},
            StageV::Read { kind } => {},
            StageV::ExportStart { auth } => {},
            StageV::ExportPoll { x } => {},
            StageV::ExportReauth { x } => {},
            StageV::ImportFind { im, page } => {},
            StageV::ImportStart { im } => {},
            StageV::ImportPoll { t } => {},
            StageV::ImportReauth { t } => {},
            _ => {},
        },
        _ => {},
    }
}

/// An import that an earlier delivery started is found again, never started
/// twice: the import is sent only once a page of the jobs listing showed no
/// job stamped with this promise's identity. Where a page shows one, nothing
/// is sent: the delivery tracks that job, settling with it where it has
/// ended, or sleeping on it, or releasing.
pub proof fn lemma_import_only_when_none_found(c: ConfigV, p: PromiseV, s: StageV, e: EventV, now: i64)
    ensures
        next_v(c, p, s, e, now).0 is ImportStart ==> (s matches StageV::ImportFind { im, .. }
            && e matches EventV::Reply(r) && stamped_from(jobs_v(r), im.stamp, 0) is None),
        (match (s, e) {
            (StageV::ImportFind { im, .. }, EventV::Reply(r)) => match stamped_from(
                jobs_v(r),
                im.stamp,
                0,
            ) {
                Some(job) => check_v(r) is None && r.status < 400 ==> {
                    let n = next_v(c, p, s, e, now);
                    &&& n == track_start_v(c, p, im.auth, job, now)
                    &&& !(n.0 is ImportStart)
                    &&& !(n.1 is Send)
                    &&& (n.0 matches StageV::ImportSleep { t } ==> t.job == job)
                    &&& (n.1 matches ActionV::Finish(v) ==> (v == import_settle_v(job)
                        || v is Release))
                },
                None => true,
            },
            _ => true,
        }),
{
    match e {
        EventV::Reply(r) => match s {
            StageV::Token { func, args } => {},
            StageV::ImportFind { im, page } => {},
            StageV::ImportStart { im } => {},
            _ => {},
        },
        _ => {},
    }
}

/// Whether a stage is one a delivery can be in: the job it sleeps or waits
/// on has not reached a terminal state.
pub open spec fn well_formed(s: StageV) -> bool {
    match s {
        StageV::ExportSleep { x } => !export_terminal(state_of(x.job)),
        StageV::ExportPoll { x } => !export_terminal(state_of(x.job)),
        StageV::ExportReauth { x } => !export_terminal(state_of(x.job)),
        StageV::ImportSleep { t } => !job_terminal(state_of(t.job)),
        StageV::ImportPoll { t } => !job_terminal(state_of(t.job)),
        StageV::ImportReauth { t } => !job_terminal(state_of(t.job)),
        _ => true,
    }
}

/// Every stage a delivery reaches is well formed.
pub proof fn lemma_well_formed_kept(c: ConfigV, p: PromiseV, parsed: Result<JsonV, Seq<char>>, s: StageV, e: EventV, now: i64)
    ensures
        well_formed(start_v(c, parsed).0),
        well_formed(s) ==> well_formed(next_v(c, p, s, e, now).0),
{
    match e {
        EventV::Reply(r) => match s {
            StageV::Token { func, args } => {},
            StageV::Read { kind } => {},
            StageV::ExportStart { auth } => {},
            StageV::ExportPoll { x } => {},
            StageV::ExportReauth { x } => {},
            StageV::ImportFind { im, page } => {},
            StageV::ImportStart { im } => {},
            StageV::ImportPoll { t } => {},
            StageV::ImportReauth { t } => {},
            _ => {},
        },
        _ => {},
    }
}

/// A rate limit or an unavailable service settles nothing: an answer of
/// 429 or 503 to any request neither resolves nor rejects the promise.
pub proof fn lemma_busy_settles_nothing(c: ConfigV, p: PromiseV, s: StageV, r: ResponseV, now: i64)
    requires
        well_formed(s),
        r.status == 429 || r.status == 503,
    ensures
        !(next_v(c, p, s, EventV::Reply(r), now).1 matches ActionV::Finish(v) && settles(v)),
{
    match s {
        StageV::Token { func, args } => {},
        StageV::Read { kind } => {},
        StageV::ExportStart { auth } => {},
        StageV::ExportPoll { x } => {},
        StageV::ExportReauth { x } => {},
        StageV::ImportFind { im, page } => {},
        StageV::ImportStart { im } => {},
        StageV::ImportPoll { t } => {},
        StageV::ImportReauth { t } => {},
        _ => {},
    }
}

/// Whether import job `job` carries `stamp` as its original file name.
pub open spec fn carries(job: JsonV, stamp: Seq<char>) -> bool {
    jget(job, "original_file_name"@) == Some(JsonV::Str(stamp))
}

/// The search from position `i` finds the first job at or after `i` that
/// carries the stamp, wherever on the page it stands.
proof fn lemma_search_finds(jobs: Seq<JsonV>, stamp: Seq<char>, i: int, k: int)
    requires
        0 <= i <= k < jobs.len(),
        carries(jobs[k], stamp),
    ensures
        stamped_from(jobs, stamp, i) matches Some(f) && exists|j: int|
            i <= j <= k && f == jobs[j] && carries(jobs[j], stamp) && forall|l: int|
                i <= l < j ==> !carries(#[trigger] jobs[l], stamp),
    decreases k - i,
{
    if carries(jobs[i], stamp) {
        assert(stamped_from(jobs, stamp, i) == Some(jobs[i]));
    } else {
        lemma_search_finds(jobs, stamp, i + 1, k);
        let f = stamped_from(jobs, stamp, i + 1)->Some_0;
        let j = choose|j: int|
            i + 1 <= j <= k && f == jobs[j] && carries(jobs[j], stamp) && forall|l: int|
                i + 1 <= l < j ==> !carries(#[trigger] jobs[l], stamp);
        assert(forall|l: int| i <= l < j ==> !carries(#[trigger] jobs[l], stamp));
    }
}

/// An import job stamped with this promise's identity is found again
/// wherever it stands on the page of the jobs listing: where any job of the
/// page carries the stamp as its original file name, the import is not
/// started again; the delivery tracks the first job of the page that
/// carries it.
pub proof fn lemma_stamped_job_found_anywhere(c: ConfigV, p: PromiseV, im: ImportV, page: u32, r: ResponseV, jobs: Seq<JsonV>, k: int, now: i64)
    requires
        200 <= r.status < 300,
        jget(body_v(r), "jobs"@) == Some(JsonV::Array(jobs)),
        0 <= k < jobs.len(),
        carries(jobs[k], im.stamp),
    ensures
        exists|i: int|
            0 <= i <= k && carries(jobs[i], im.stamp) && (forall|l: int|
                0 <= l < i ==> !carries(#[trigger] jobs[l], im.stamp)) && next_v(
                c,
                p,
                StageV::ImportFind { im, page },
                EventV::Reply(r),
                now,
            ) == track_start_v(c, p, im.auth, jobs[i], now),
        !(next_v(c, p, StageV::ImportFind { im, page }, EventV::Reply(r), now).0 is ImportStart),
{
    assert(jobs_v(r) == jobs);
    lemma_search_finds(jobs, im.stamp, 0, k);
}

/// A poll of the export job settles it once its state is one it never
/// leaves: "finished" resolves with the job's id, table, view,
/// exporter_type, state, exported_file_name, created_at,
/// progress_percentage and url, in that order, each null where absent;
/// "cancelled", "expired" and "failed" reject with codes "cancelled",
/// "expired" and "export_failed" and the job as the detail. In any other
/// state the delivery sleeps until the next poll, before the deadline.
pub proof fn lemma_export_settles_by_state(c: ConfigV, p: PromiseV, x: ExportV, g: ResponseV, st: Seq<char>, now: i64)
    requires
        200 <= g.status < 300,
        jget(body_v(g), "state"@) == Some(JsonV::Str(st)),
    ensures
        ({
            let b = body_v(g);
            let n = next_v(c, p, StageV::ExportPoll { x }, EventV::Reply(g), now);
            let rejected = |code: Seq<char>|
                (
                    StageV::Done,
                    ActionV::Finish(
                        VerdictV::Reject(
                            JsonV::Object(seq![("code"@, JsonV::Str(code)), ("detail"@, b)]),
                        ),
                    ),
                );
            &&& st == "finished"@ ==> n == (
                StageV::Done,
                ActionV::Finish(
                    VerdictV::Resolve(
                        PayloadV::Doc(
                            pick_v(
                                b,
                                seq![
                                    "id"@,
                                    "table"@,
                                    "view"@,
                                    "exporter_type"@,
                                    "state"@,
                                    "exported_file_name"@,
                                    "created_at"@,
                                    "progress_percentage"@,
                                    "url"@,
                                ],
                            ),
                        ),
                    ),
                ),
            )
            &&& st == "cancelled"@ ==> n == rejected("cancelled"@)
            &&& st == "expired"@ ==> n == rejected("expired"@)
            &&& st == "failed"@ ==> n == rejected("export_failed"@)
            &&& (!(st == "finished"@ || st == "cancelled"@ || st == "expired"@ || st == "failed"@)
                && now < p.timeout_at) ==> (n.0 is ExportSleep && n.1 is Sleep)
        }),
{
    reveal_strlit("finished");
    reveal_strlit("cancelled");
    reveal_strlit("expired");
    reveal_strlit("failed");
    assert(state_of(body_v(g)) == st);
}

/// A poll of the import job settles it once its state is one it never
/// leaves: "finished" resolves with the job's id, type, state,
/// progress_percentage, table_id, database_id, original_file_name,
/// human_readable_error and report, in that order, each null where absent;
/// "cancelled" and "failed" reject with codes "cancelled" and
/// "import_failed" and the job as the detail. In any other state the
/// delivery sleeps until the next poll, before the deadline.
pub proof fn lemma_import_settles_by_state(c: ConfigV, p: PromiseV, t: TrackV, g: ResponseV, st: Seq<char>, now: i64)
    requires
        200 <= g.status < 300,
        jget(body_v(g), "state"@) == Some(JsonV::Str(st)),
    ensures
        ({
            let b = body_v(g);
            let n = next_v(c, p, StageV::ImportPoll { t }, EventV::Reply(g), now);
            let rejected = |code: Seq<char>|
                (
                    StageV::Done,
                    ActionV::Finish(
                        VerdictV::Reject(
                            JsonV::Object(seq![("code"@, JsonV::Str(code)), ("detail"@, b)]),
                        ),
                    ),
                );
            &&& st == "finished"@ ==> n == (
                StageV::Done,
                ActionV::Finish(
                    VerdictV::Resolve(
                        PayloadV::Doc(
                            pick_v(
                                b,
                                seq![
                                    "id"@,
                                    "type"@,
                                    "state"@,
                                    "progress_percentage"@,
                                    "table_id"@,
                                    "database_id"@,
                                    "original_file_name"@,
                                    "human_readable_error"@,
                                    "report"@,
                                ],
                            ),
                        ),
                    ),
                ),
            )
            &&& st == "cancelled"@ ==> n == rejected("cancelled"@)
            &&& st == "failed"@ ==> n == rejected("import_failed"@)
            &&& (!(st == "finished"@ || st == "cancelled"@ || st == "failed"@) && now
                < p.timeout_at) ==> (n.0 is ImportSleep && n.1 is Sleep)
        }),
{
    reveal_strlit("finished");
    reveal_strlit("cancelled");
    reveal_strlit("failed");
    assert(state_of(body_v(g)) == st);
}

/// The import body carries the stamp where the search for an earlier
/// import looks for it: its original_file_name is the stamp, whatever the
/// caller's args hold.
pub proof fn lemma_import_body_carries_stamp(args: JsonV, data: JsonV, stamp: Seq<char>)
    ensures
        carries(import_body_v(args, data, stamp), stamp),
{
    reveal_strlit("data");
    reveal_strlit("original_file_name");
    let m = seq![("data"@, data), ("original_file_name"@, JsonV::Str(stamp))] + pick_present_v(
        args,
        seq!["configuration"@, "importer_type"@],
    );
    assert(m[0] == ("data"@, data));
    assert(m[1] == ("original_file_name"@, JsonV::Str(stamp)));
    assert("data"@.len() != "original_file_name"@.len());
    assert(m.drop_first()[0].0 == "original_file_name"@);
    assert(key_pos(m.drop_first(), "original_file_name"@) == 0);
    assert(key_pos(m, "original_file_name"@) == 1);
}

/// A standing permission problem halts the delivery and waits for an
/// operator: an answer of 400 whose error is ERROR_USER_NOT_IN_GROUP or
/// ERROR_NO_PERMISSION_TO_TABLE, to any request, ends it with a halt that
/// carries the answer's text.
#[verifier::rlimit(60)]
pub proof fn lemma_permission_halts(c: ConfigV, p: PromiseV, s: StageV, r: ResponseV, now: i64)
    requires
        r.status == 400,
        jget(body_v(r), "error"@) == Some(JsonV::Str("ERROR_USER_NOT_IN_GROUP"@)) || jget(
            body_v(r),
            "error"@,
        ) == Some(JsonV::Str("ERROR_NO_PERMISSION_TO_TABLE"@)),
        !(s is Done) && !(s is ExportSleep) && !(s is ImportSleep),
    ensures
        next_v(c, p, s, EventV::Reply(r), now).1 == ActionV::Finish(VerdictV::Halt(PayloadV::Text(r.text))),
{
    reveal_strlit("ERROR_USER_NOT_IN_GROUP");
    reveal_strlit("ERROR_NO_PERMISSION_TO_TABLE");
    reveal_strlit("ERROR_MAX_JOB_COUNT_EXCEEDED");
    assert("ERROR_NO_PERMISSION_TO_TABLE"@[6] != "ERROR_MAX_JOB_COUNT_EXCEEDED"@[6]);
    assert(permission(error_v(r)));
    assert(error_v(r) != Some("ERROR_MAX_JOB_COUNT_EXCEEDED"@));
    reveal_strlit("ERROR_ROW_IDS_NOT_UNIQUE");
    reveal_strlit("ERROR_CANNOT_DELETE_ALREADY_DELETED_ITEM");
    assert("ERROR_USER_NOT_IN_GROUP"@.len() == 23);
    assert("ERROR_NO_PERMISSION_TO_TABLE"@.len() == 28);
    assert("ERROR_ROW_IDS_NOT_UNIQUE"@.len() == 24);
    assert("ERROR_CANNOT_DELETE_ALREADY_DELETED_ITEM"@.len() == 40);
    assert(forall|k: Kind| #[trigger] bad_code(k, error_v(r)) is None);
}

} // verus!
