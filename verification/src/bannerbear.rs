//! The bannerbear plugin: an image or an animation rendered to its files.
//!
//! A render is started without a key: a redelivery renders again, which is
//! benign and costs one render credit. The render's id is known only from
//! the answer, so a failed poll cannot be recovered by a redelivery and is
//! absorbed, up to five in a row.
use vstd::prelude::*;
use crate::args::{arg_object, arg_object_v, arg_str, arg_str_v};
use crate::clock::{nap, nap_v};
use crate::frame::{sanitize, sanitize_v};
use crate::http::{
    pieces_v, query_v, req_v, request, url, url_v, with_body_v, with_header_v, with_query_v,
    Action, ActionV, Event, EventV, Method, Param, ParamV, PieceV, Request, RequestV, Response,
    ResponseV, body_v,
};
use crate::json::{
    get_str, insert, jget, jv, lemma_jv_object, members, members_of, members_v, or_null, put,
    str_eq, Json, JsonV,
};
use crate::promise::{parsed_v, read_param, read_param_v, Promise, PromiseV};
use crate::query::{spread, spread_v};
use crate::text::{cat, cat3, q, quote};
use crate::verdict::{
    settles,
    coded,
    fail_v, reject, reject_v, release_v, text, Failure, FailureV, Payload, PayloadV, Verdict,
    VerdictV,
};

verus! {

/// The plugin's settings. Every poll interval is in milliseconds; a
/// per-operation one that is unset falls back to `poll`.
pub struct Config {
    pub api_key: String,
    pub poll: u64,
    pub poll_image: Option<u64>,
    pub poll_animation: Option<u64>,
}

pub struct ConfigV {
    pub api_key: Seq<char>,
    pub poll: u64,
    pub poll_image: Option<u64>,
    pub poll_animation: Option<u64>,
}

impl View for Config {
    type V = ConfigV;

    open spec fn view(&self) -> ConfigV {
        ConfigV {
            api_key: self.api_key@,
            poll: self.poll,
            poll_image: self.poll_image,
            poll_animation: self.poll_animation,
        }
    }
}

/// `poll` where the settings leave it out: two seconds.
pub fn poll_default() -> (r: u64)
    ensures
        r == 2_000,
{
    2_000
}

pub open spec fn or_poll(o: Option<u64>, poll: u64) -> u64 {
    match o {
        Some(v) => v,
        None => poll,
    }
}

impl Config {
    /// `poll_image` defaults to `poll`.
    pub fn poll_image(&self) -> (r: u64)
        ensures
            r == or_poll(self.poll_image, self.poll),
    {
        match self.poll_image {
            Some(v) => v,
            None => self.poll,
        }
    }

    /// `poll_animation` defaults to `poll`.
    pub fn poll_animation(&self) -> (r: u64)
        ensures
            r == or_poll(self.poll_animation, self.poll),
    {
        match self.poll_animation {
            Some(v) => v,
            None => self.poll,
        }
    }
}

/// The API root where nothing overrides it.
pub open spec fn default_api() -> Seq<char> {
    "https://api.bannerbear.com/v5"@
}

/// The API root: the override where one is set (Bannerbear is SaaS only, so
/// a stand-in service is the only other place to send requests), else the
/// service itself.
pub open spec fn api_root_v(overridden: Option<Seq<char>>) -> Seq<char> {
    match overridden {
        Some(s) => s,
        None => default_api(),
    }
}

pub fn api_root(overridden: Option<String>) -> (r: String)
    ensures
        r@ == api_root_v(match overridden {
            Some(s) => Some(s@),
            None => None,
        }),
{
    match overridden {
        Some(s) => s,
        None => text("https://api.bannerbear.com/v5"),
    }
}

/// The operations this plugin offers.
#[derive(PartialEq, Eq, Structural, Clone, Copy)]
pub enum Func {
    ImageCreate,
    AnimationCreate,
    TemplateGet,
    TemplateList,
}

pub open spec fn func_of(name: Seq<char>) -> Option<Func> {
    if name == "image.create"@ {
        Some(Func::ImageCreate)
    } else if name == "animation.create"@ {
        Some(Func::AnimationCreate)
    } else if name == "template.get"@ {
        Some(Func::TemplateGet)
    } else if name == "template.list"@ {
        Some(Func::TemplateList)
    } else {
        None
    }
}

fn func(name: &str) -> (r: Option<Func>)
    ensures
        r == func_of(name@),
{
    if str_eq(name, "image.create") {
        Some(Func::ImageCreate)
    } else if str_eq(name, "animation.create") {
        Some(Func::AnimationCreate)
    } else if str_eq(name, "template.get") {
        Some(Func::TemplateGet)
    } else if str_eq(name, "template.list") {
        Some(Func::TemplateList)
    } else {
        None
    }
}

// ─── Responses ──────────────────────────────────────────────────────────────

/// 401 (the key is invalid), 402 (the quota is spent) and 403 (the key
/// lacks access) halt: an operator must act. Any other 4xx or 5xx that an
/// operation does not name releases.
pub open spec fn check_v(r: ResponseV) -> Option<FailureV> {
    if r.status == 401 || r.status == 402 || r.status == 403 {
        Some(FailureV::Halt(PayloadV::Text(r.text)))
    } else if r.status >= 400 {
        Some(FailureV::Release(PayloadV::Text(r.text)))
    } else {
        None
    }
}

fn check(r: &Response) -> (f: Option<Failure>)
    ensures
        match f {
            Some(x) => check_v(r@) == Some(x@),
            None => check_v(r@) is None,
        },
{
    if r.status == 401 || r.status == 402 || r.status == 403 {
        Some(Failure::Halt(Payload::Text(r.text.clone())))
    } else if r.status >= 400 {
        Some(Failure::Release(Payload::Text(r.text.clone())))
    } else {
        None
    }
}

// ─── Requests ───────────────────────────────────────────────────────────────

/// A static bearer key.
pub open spec fn auth_v(c: ConfigV) -> Seq<char> {
    "Bearer "@ + c.api_key
}

pub open spec fn authed_v(c: ConfigV, m: Method, u: Seq<char>) -> RequestV {
    with_header_v(req_v(m, url_v(u)), "Authorization"@, auth_v(c))
}

fn authed(cfg: &Config, m: Method, u: String) -> (r: Request)
    ensures
        r@ == authed_v(cfg@, m, u@),
{
    let a = cat("Bearer ", cfg.api_key.as_str());
    request(m, url(u)).header("Authorization", a.as_str())
}

/// What is rendered.
#[derive(PartialEq, Eq, Structural, Clone, Copy)]
pub enum Render {
    Image,
    Animation,
}

/// The render's collection.
pub open spec fn collection(k: Render) -> Seq<char> {
    if k == Render::Image {
        "/images"@
    } else {
        "/animations"@
    }
}

fn collection_exec(k: Render) -> (r: &'static str)
    ensures
        r@ == collection(k),
{
    if k == Render::Image {
        "/images"
    } else {
        "/animations"
    }
}

/// The render body: the args as given, with `metadata` set to the
/// promise's identity.
pub open spec fn render_body_v(args: JsonV, token: Seq<char>) -> JsonV {
    JsonV::Object(put(members(args), "metadata"@, JsonV::Str(token)))
}

fn render_body(args: &Json, token: String) -> (r: Json)
    ensures
        r@ == render_body_v(args@, token@),
{
    let mut m = members_of(args);
    insert(&mut m, "metadata", Json::Str(token));
    proof {
        lemma_jv_object(m);
    }
    Json::Object(m)
}

/// The render's start.
pub open spec fn create_request_v(c: ConfigV, api: Seq<char>, p: PromiseV, k: Render, args: JsonV) -> RequestV {
    with_body_v(authed_v(c, Method::Post, api + collection(k)), render_body_v(args, sanitize_v(p.id)))
}

/// The render's `uid`; empty where absent.
pub open spec fn uid_of(doc: JsonV) -> Seq<char> {
    match get_str(doc, "uid"@) {
        Some(s) => s,
        None => ""@,
    }
}

/// A render's `status`; empty where absent, which leaves every poll loop and
/// never reads as completed.
pub open spec fn state_of(doc: JsonV) -> Seq<char> {
    match get_str(doc, "status"@) {
        Some(s) => s,
        None => ""@,
    }
}

fn field_text(doc: &Json, k: &str) -> (r: String)
    ensures
        r@ == match get_str(doc@, k@) {
            Some(s) => s,
            None => ""@,
        },
{
    match doc.get_str(k) {
        Some(s) => s.clone(),
        None => {
            proof {
                reveal_strlit("");
            }
            String::new()
        },
    }
}

/// The poll of the render.
pub open spec fn poll_request_v(c: ConfigV, api: Seq<char>, k: Render, doc: JsonV) -> RequestV {
    authed_v(c, Method::Get, api + collection(k) + "/"@ + q(uid_of(doc)))
}

fn poll_request(cfg: &Config, api: &str, k: Render, doc: &Json) -> (r: Request)
    ensures
        r@ == poll_request_v(cfg@, api@, k, doc@),
{
    let u = cat3(api, collection_exec(k), "/").concat(quote(field_text(doc, "uid").as_str()).as_str());
    authed(cfg, Method::Get, u)
}

/// Whether the render is still under way: an image while `pending`, an
/// animation while `queued` or `rendering`.
pub open spec fn running(k: Render, s: Seq<char>) -> bool {
    if k == Render::Image {
        s == "pending"@
    } else {
        s == "queued"@ || s == "rendering"@
    }
}

fn running_exec(k: Render, s: &str) -> (b: bool)
    ensures
        b == running(k, s@),
{
    if k == Render::Image {
        str_eq(s, "pending")
    } else {
        str_eq(s, "queued") || str_eq(s, "rendering")
    }
}

/// The verdict on a finished render: its files where it completed; else a
/// failed image quotes itself, a failed animation its `error`.
pub open spec fn settle_v(k: Render, doc: JsonV) -> VerdictV {
    if state_of(doc) == "completed"@ {
        VerdictV::Resolve(
            PayloadV::Doc(JsonV::Object(seq![("files"@, or_null(jget(doc, "files"@)))])),
        )
    } else if k == Render::Image {
        reject_v("render_failed"@, Some(doc))
    } else {
        reject_v("render_failed"@, Some(or_null(jget(doc, "error"@))))
    }
}

fn or_null_exec(o: Option<&Json>) -> (r: Json)
    ensures
        r@ == or_null(match o {
            Some(j) => Some(j@),
            None => None,
        }),
{
    match o {
        Some(j) => j.copy(),
        None => Json::Null,
    }
}

fn settle(k: Render, doc: Json) -> (v: Verdict)
    ensures
        v@ == settle_v(k, doc@),
{
    if str_eq(field_text(&doc, "status").as_str(), "completed") {
        let files = or_null_exec(doc.get("files"));
        let ghost fv = files@;
        let mut m: Vec<(String, Json)> = Vec::new();
        m.push((text("files"), files));
        proof {
            lemma_jv_object(m);
            assert(members_v(m@) =~= seq![("files"@, fv)]);
        }
        Verdict::Resolve(Payload::Doc(Json::Object(m)))
    } else if k == Render::Image {
        reject("render_failed", Some(doc))
    } else {
        reject("render_failed", Some(or_null_exec(doc.get("error"))))
    }
}

// ─── The machine ────────────────────────────────────────────────────────────

/// Which read a request serves.
#[derive(PartialEq, Eq, Structural, Clone, Copy)]
pub enum ReadKind {
    TemplateGet,
    TemplateList,
}

/// The verdict of a template read.
pub open spec fn read_outcome_v(r: ResponseV, k: ReadKind) -> VerdictV {
    if k == ReadKind::TemplateGet && r.status == 404 {
        reject_v("not_found"@, None)
    } else if k == ReadKind::TemplateList && (r.status == 400 || r.status == 422) {
        reject_v("invalid_request"@, Some(body_v(r)))
    } else {
        match check_v(r) {
            Some(f) => fail_v(f),
            None => VerdictV::Resolve(PayloadV::Text(r.text)),
        }
    }
}

fn read_outcome(r: &Response, k: ReadKind) -> (v: Verdict)
    ensures
        v@ == read_outcome_v(r@, k),
{
    if k == ReadKind::TemplateGet && r.status == 404 {
        reject("not_found", None)
    } else if k == ReadKind::TemplateList && (r.status == 400 || r.status == 422) {
        reject("invalid_request", Some(r.json()))
    } else {
        match check(r) {
            Some(f) => f.into_verdict(),
            None => Verdict::Resolve(Payload::Text(r.text.clone())),
        }
    }
}

/// Where a delivery stands.
pub enum Stage {
    Done,
    /// A template read is out.
    Read { op: ReadKind },
    /// The render's start is out.
    Creating { kind: Render },
    /// Sleeping between two polls, with the render as last seen and the
    /// failed polls in a row.
    Sleeping { kind: Render, doc: Json, failures: u64 },
    /// A poll of the render is out.
    Polling { kind: Render, doc: Json, failures: u64 },
}

pub enum StageV {
    Done,
    Read { op: ReadKind },
    Creating { kind: Render },
    Sleeping { kind: Render, doc: JsonV, failures: u64 },
    Polling { kind: Render, doc: JsonV, failures: u64 },
}

impl View for Stage {
    type V = StageV;

    open spec fn view(&self) -> StageV {
        match self {
            Stage::Done => StageV::Done,
            Stage::Read { op } => StageV::Read { op: *op },
            Stage::Creating { kind } => StageV::Creating { kind: *kind },
            Stage::Sleeping { kind, doc, failures } => StageV::Sleeping {
                kind: *kind,
                doc: jv(*doc),
                failures: *failures,
            },
            Stage::Polling { kind, doc, failures } => StageV::Polling {
                kind: *kind,
                doc: jv(*doc),
                failures: *failures,
            },
        }
    }
}

pub open spec fn finish(v: VerdictV) -> (StageV, ActionV) {
    (StageV::Done, ActionV::Finish(v))
}

pub open spec fn invalid(e: Seq<char>) -> (StageV, ActionV) {
    finish(reject_v("invalid_request"@, Some(JsonV::Str(e))))
}

/// The cadence a render is polled at.
pub open spec fn cadence_v(c: ConfigV, k: Render) -> u64 {
    if k == Render::Image {
        or_poll(c.poll_image, c.poll)
    } else {
        or_poll(c.poll_animation, c.poll)
    }
}

/// The first step of a delivery. `api` is the API root.
pub open spec fn start_v(c: ConfigV, api: Seq<char>, p: PromiseV, parsed: Result<JsonV, Seq<char>>) -> (
    StageV,
    ActionV,
) {
    match read_param_v(parsed) {
        Err(v) => finish(v),
        Ok((name, args)) => match func_of(name) {
            None => finish(reject_v("unknown_func"@, Some(JsonV::Str(name)))),
            Some(f) => match f {
                Func::ImageCreate | Func::AnimationCreate => match arg_str_v(args, "template"@) {
                    Err(e) => invalid(e),
                    Ok(_) => match arg_object_v(args, "modifications"@) {
                        Err(e) => invalid(e),
                        Ok(_) => {
                            let k = if f == Func::ImageCreate {
                                Render::Image
                            } else {
                                Render::Animation
                            };
                            (StageV::Creating { kind: k }, ActionV::Send(create_request_v(c, api, p, k, args)))
                        },
                    },
                },
                Func::TemplateGet => match arg_str_v(args, "uid"@) {
                    Err(e) => invalid(e),
                    Ok(uid) => (
                        StageV::Read { op: ReadKind::TemplateGet },
                        ActionV::Send(authed_v(c, Method::Get, api + "/image_templates/"@ + q(uid))),
                    ),
                },
                Func::TemplateList => (
                    StageV::Read { op: ReadKind::TemplateList },
                    ActionV::Send(
                        with_query_v(
                            authed_v(c, Method::Get, api + "/image_templates"@),
                            spread_v(members(args), Seq::empty(), false),
                        ),
                    ),
                ),
            },
        },
    }
}

/// The head of the poll loop: a finished render settles; the deadline
/// releases; else sleep before the next poll.
pub open spec fn head_v(c: ConfigV, p: PromiseV, k: Render, doc: JsonV, failures: u64, now: i64) -> (
    StageV,
    ActionV,
) {
    if !running(k, state_of(doc)) {
        finish(settle_v(k, doc))
    } else if now >= p.timeout_at {
        finish(release_v("promise timed out"@))
    } else {
        (
            StageV::Sleeping { kind: k, doc, failures },
            ActionV::Sleep(nap_v(cadence_v(c, k), p.timeout_at, now)),
        )
    }
}

/// A failed poll: a halt is an operator's to clear and ends the delivery; a
/// release ends it at the fifth in a row, and is otherwise absorbed.
pub open spec fn failed_v(c: ConfigV, p: PromiseV, k: Render, doc: JsonV, failures: u64, f: FailureV, now: i64) -> (
    StageV,
    ActionV,
) {
    match f {
        FailureV::Halt(_) => finish(fail_v(f)),
        FailureV::Release(_) => if failures + 1 >= 5 {
            finish(fail_v(f))
        } else {
            head_v(c, p, k, doc, (failures + 1) as u64, now)
        },
    }
}

/// The answer to the render's start.
pub open spec fn created_v(c: ConfigV, p: PromiseV, k: Render, r: ResponseV, now: i64) -> (StageV, ActionV) {
    if r.status == 400 || r.status == 404 || r.status == 422 {
        finish(reject_v("invalid_request"@, Some(body_v(r))))
    } else {
        match check_v(r) {
            Some(f) => finish(fail_v(f)),
            None => head_v(c, p, k, body_v(r), 0, now),
        }
    }
}

/// One step: the stage and what just happened give the next stage and action.
pub open spec fn next_v(c: ConfigV, api: Seq<char>, p: PromiseV, s: StageV, e: EventV, now: i64) -> (
    StageV,
    ActionV,
) {
    match e {
        EventV::Lost(msg, _) => match s {
            StageV::Polling { kind, doc, failures } => failed_v(
                c,
                p,
                kind,
                doc,
                failures,
                FailureV::Release(PayloadV::Text(msg)),
                now,
            ),
            _ => finish(release_v(msg)),
        },
        EventV::Woke => match s {
            StageV::Sleeping { kind, doc, failures } => (
                StageV::Polling { kind, doc, failures },
                ActionV::Send(poll_request_v(c, api, kind, doc)),
            ),
            _ => finish(release_v(Seq::empty())),
        },
        EventV::Reply(r) => match s {
            StageV::Read { op } => finish(read_outcome_v(r, op)),
            StageV::Creating { kind } => created_v(c, p, kind, r, now),
            StageV::Polling { kind, doc, failures } => match check_v(r) {
                Some(f) => failed_v(c, p, kind, doc, failures, f, now),
                None => head_v(c, p, kind, body_v(r), 0, now),
            },
            _ => finish(release_v(Seq::empty())),
        },
    }
}

fn done(v: Verdict) -> (r: (Stage, Action))
    ensures
        (r.0@, r.1@) == finish(v@),
{
    (Stage::Done, Action::Finish(v))
}

fn invalid_exec(e: String) -> (r: (Stage, Action))
    ensures
        (r.0@, r.1@) == invalid(e@),
{
    done(reject("invalid_request", Some(Json::Str(e))))
}

fn cadence(cfg: &Config, k: Render) -> (r: u64)
    ensures
        r == cadence_v(cfg@, k),
{
    if k == Render::Image {
        cfg.poll_image()
    } else {
        cfg.poll_animation()
    }
}

fn head(cfg: &Config, promise: &Promise, k: Render, doc: Json, failures: u64, now: i64) -> (r: (
    Stage,
    Action,
))
    ensures
        (r.0@, r.1@) == head_v(cfg@, promise@, k, doc@, failures, now),
{
    if !running_exec(k, field_text(&doc, "status").as_str()) {
        done(settle(k, doc))
    } else if now >= promise.timeout_at {
        done(Verdict::Release(Payload::Text(text("promise timed out"))))
    } else {
        let ms = nap(cadence(cfg, k), promise.timeout_at, now);
        (Stage::Sleeping { kind: k, doc, failures }, Action::Sleep(ms))
    }
}

fn failed(cfg: &Config, promise: &Promise, k: Render, doc: Json, failures: u64, f: Failure, now: i64) -> (r: (
    Stage,
    Action,
))
    ensures
        (r.0@, r.1@) == failed_v(cfg@, promise@, k, doc@, failures, f@, now),
{
    match f {
        Failure::Halt(x) => done(Verdict::Halt(x)),
        Failure::Release(x) => if failures >= 4 {
            done(Verdict::Release(x))
        } else {
            head(cfg, promise, k, doc, failures + 1, now)
        },
    }
}

fn created(cfg: &Config, promise: &Promise, k: Render, r: &Response, now: i64) -> (o: (Stage, Action))
    ensures
        (o.0@, o.1@) == created_v(cfg@, promise@, k, r@, now),
{
    if r.status == 400 || r.status == 404 || r.status == 422 {
        done(reject("invalid_request", Some(r.json())))
    } else {
        match check(r) {
            Some(f) => done(f.into_verdict()),
            None => head(cfg, promise, k, r.json(), 0, now),
        }
    }
}

/// One call per delivered task begins here. `api` is the API root.
pub fn begin(cfg: &Config, api: &str, promise: &Promise, parsed: Result<Json, String>) -> (r: (
    Stage,
    Action,
))
    ensures
        (r.0@, r.1@) == start_v(cfg@, api@, promise@, parsed_v(parsed)),
{
    let (name, args) = match read_param(parsed) {
        Err(v) => return done(v),
        Ok(x) => x,
    };
    let f = match func(name.as_str()) {
        None => return done(reject("unknown_func", Some(Json::Str(name)))),
        Some(f) => f,
    };
    match f {
        Func::ImageCreate | Func::AnimationCreate => match arg_str(&args, "template") {
            Err(e) => invalid_exec(e),
            Ok(_) => match arg_object(&args, "modifications") {
                Err(e) => invalid_exec(e),
                Ok(_) => {
                    let k = if f == Func::ImageCreate {
                        Render::Image
                    } else {
                        Render::Animation
                    };
                    let body = render_body(&args, sanitize(promise.id.as_str()));
                    let req = authed(cfg, Method::Post, cat(api, collection_exec(k))).json(body);
                    (Stage::Creating { kind: k }, Action::Send(req))
                },
            },
        },
        Func::TemplateGet => match arg_str(&args, "uid") {
            Err(e) => invalid_exec(e),
            Ok(uid) => {
                let req = authed(cfg, Method::Get, cat3(api, "/image_templates/", quote(uid.as_str()).as_str()));
                (Stage::Read { op: ReadKind::TemplateGet }, Action::Send(req))
            },
        },
        Func::TemplateList => {
            let ks: [&str; 0] = [];
            assert(crate::args::names(ks@) =~= Seq::empty());
            let req = authed(cfg, Method::Get, cat(api, "/image_templates")).query(spread(&args, &ks, false));
            (Stage::Read { op: ReadKind::TemplateList }, Action::Send(req))
        },
    }
}

/// One step of a delivery after its first. `now` is the time in
/// milliseconds since the epoch.
pub fn step(cfg: &Config, api: &str, promise: &Promise, stage: Stage, event: Event, now: i64) -> (r: (
    Stage,
    Action,
))
    ensures
        (r.0@, r.1@) == next_v(cfg@, api@, promise@, stage@, event@, now),
{
    match event {
        Event::Lost(msg, _) => match stage {
            Stage::Polling { kind, doc, failures } => failed(
                cfg,
                promise,
                kind,
                doc,
                failures,
                Failure::Release(Payload::Text(msg)),
                now,
            ),
            _ => done(Verdict::Release(Payload::Text(msg))),
        },
        Event::Woke => match stage {
            Stage::Sleeping { kind, doc, failures } => {
                let req = poll_request(cfg, api, kind, &doc);
                (Stage::Polling { kind, doc, failures }, Action::Send(req))
            },
            _ => done(Verdict::Release(Payload::Text(String::new()))),
        },
        Event::Reply(r) => match stage {
            Stage::Read { op } => done(read_outcome(&r, op)),
            Stage::Creating { kind } => created(cfg, promise, kind, &r, now),
            Stage::Polling { kind, doc, failures } => match check(&r) {
                Some(f) => failed(cfg, promise, kind, doc, failures, f, now),
                None => head(cfg, promise, kind, r.json(), 0, now),
            },
            _ => done(Verdict::Release(Payload::Text(String::new()))),
        },
    }
}


// ─── Laws ───────────────────────────────────────────────────────────────────

/// A delivery never sleeps past its promise's deadline: a sleep is asked for
/// only before the deadline, and it ends by the deadline. The first step
/// never sleeps.
pub proof fn lemma_sleep_within_deadline(c: ConfigV, api: Seq<char>, p: PromiseV, parsed: Result<JsonV, Seq<char>>, s: StageV, e: EventV, now: i64)
    ensures
        !(start_v(c, api, p, parsed).1 is Sleep),
        next_v(c, api, p, s, e, now).1 matches ActionV::Sleep(ms) ==> now < p.timeout_at && now + ms <= p.timeout_at,
{
}

/// The failed polls in a row a stage carries, where it carries any.
pub open spec fn failures_of(s: StageV) -> u64 {
    match s {
        StageV::Sleeping { failures, .. } => failures,
        StageV::Polling { failures, .. } => failures,
        _ => 0,
    }
}

/// A render's poll loop absorbs at most four failed polls in a row: the
/// count a delivery carries never reaches five, and the fifth failure ends
/// it.
pub proof fn lemma_failures_bounded(c: ConfigV, api: Seq<char>, p: PromiseV, parsed: Result<JsonV, Seq<char>>, s: StageV, e: EventV, now: i64)
    ensures
        failures_of(start_v(c, api, p, parsed).0) == 0,
        failures_of(s) < 5 ==> failures_of(next_v(c, api, p, s, e, now).0) < 5,
        s is Polling && failures_of(s) == 4 && e is Lost ==> next_v(c, api, p, s, e, now).1 is Finish,
{
}

/// Credentials that stop working halt the delivery and wait for an
/// operator: an answer of 401, 402 or 403 to any request ends it with a halt that
/// carries the answer's text.
pub proof fn lemma_credentials_halt(c: ConfigV, api: Seq<char>, p: PromiseV, s: StageV, r: ResponseV, now: i64)
    requires
        r.status == 401 || r.status == 402 || r.status == 403,
        !(s is Done) && !(s is Sleeping),
    ensures
        next_v(c, api, p, s, EventV::Reply(r), now).1 == ActionV::Finish(VerdictV::Halt(PayloadV::Text(r.text))),
{
}

/// Every rejection a delivery ends with names its code.
pub proof fn lemma_rejections_coded(c: ConfigV, api: Seq<char>, p: PromiseV, parsed: Result<JsonV, Seq<char>>, s: StageV, e: EventV, now: i64)
    ensures
        start_v(c, api, p, parsed).1 matches ActionV::Finish(v) ==> coded(v),
        next_v(c, api, p, s, e, now).1 matches ActionV::Finish(v) ==> coded(v),
{
}

/// A redelivery of a promise begins as the first delivery did: the first
/// step depends on the promise only through its id.
pub proof fn lemma_redelivery_begins_alike(c: ConfigV, api: Seq<char>, p1: PromiseV, p2: PromiseV, parsed: Result<JsonV, Seq<char>>)
    requires
        p1.id == p2.id,
    ensures
        start_v(c, api, p1, parsed) == start_v(c, api, p2, parsed),
{
}

/// Whether a stage is one a delivery can be in: the render it sleeps or
/// waits on is still under way.
pub open spec fn well_formed(s: StageV) -> bool {
    match s {
        StageV::Sleeping { kind, doc, .. } => running(kind, state_of(doc)),
        StageV::Polling { kind, doc, .. } => running(kind, state_of(doc)),
        _ => true,
    }
}

/// Every stage a delivery reaches is well formed.
pub proof fn lemma_well_formed_kept(c: ConfigV, api: Seq<char>, p: PromiseV, parsed: Result<JsonV, Seq<char>>, s: StageV, e: EventV, now: i64)
    ensures
        well_formed(start_v(c, api, p, parsed).0),
        well_formed(s) ==> well_formed(next_v(c, api, p, s, e, now).0),
{
}

/// A rate limit or an unavailable service settles nothing: an answer of
/// 429 or 503 to any request neither resolves nor rejects the promise.
pub proof fn lemma_busy_settles_nothing(c: ConfigV, api: Seq<char>, p: PromiseV, s: StageV, r: ResponseV, now: i64)
    requires
        well_formed(s),
        r.status == 429 || r.status == 503,
    ensures
        !(next_v(c, api, p, s, EventV::Reply(r), now).1 matches ActionV::Finish(v) && settles(v)),
{
}

/// A poll of the render settles it once it is no longer under way (an
/// image no longer "pending", an animation neither "queued" nor
/// "rendering"): "completed" resolves with {"files": the render's files, or
/// null}; any other finished status rejects with code "render_failed",
/// quoting the image itself, or the animation's error (null where absent).
/// A render still under way sleeps until the next poll, before the
/// deadline.
pub proof fn lemma_render_settles_by_status(c: ConfigV, api: Seq<char>, p: PromiseV, k: Render, doc: JsonV, failures: u64, r: ResponseV, st: Seq<char>, now: i64)
    requires
        200 <= r.status < 300,
        jget(body_v(r), "status"@) == Some(JsonV::Str(st)),
    ensures
        ({
            let b = body_v(r);
            let n = next_v(c, api, p, StageV::Polling { kind: k, doc, failures }, EventV::Reply(r), now);
            let under_way = if k == Render::Image {
                st == "pending"@
            } else {
                st == "queued"@ || st == "rendering"@
            };
            let quoted = if k == Render::Image {
                b
            } else {
                or_null(jget(b, "error"@))
            };
            &&& st == "completed"@ ==> n == (
                StageV::Done,
                ActionV::Finish(
                    VerdictV::Resolve(
                        PayloadV::Doc(JsonV::Object(seq![("files"@, or_null(jget(b, "files"@)))])),
                    ),
                ),
            )
            &&& (!under_way && st != "completed"@) ==> n == (
                StageV::Done,
                ActionV::Finish(
                    VerdictV::Reject(
                        JsonV::Object(
                            seq![("code"@, JsonV::Str("render_failed"@)), ("detail"@, quoted)],
                        ),
                    ),
                ),
            )
            &&& (under_way && now < p.timeout_at) ==> (n.0 == StageV::Sleeping {
                kind: k,
                doc: b,
                failures: 0,
            } && n.1 is Sleep)
        }),
{
    reveal_strlit("completed");
    reveal_strlit("pending");
    reveal_strlit("queued");
    reveal_strlit("rendering");
    assert("completed"@[0] != "rendering"@[0]);
    assert(state_of(body_v(r)) == st);
}

} // verus!
