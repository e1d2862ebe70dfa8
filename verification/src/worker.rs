//! The worker frame around a plugin: acquire the delivered task, keep its
//! lease alive while the plugin works, then settle, halt or release it.
//!
//! The frame's decisions are a machine too: the caller makes the server
//! calls and runs the plugin, and feeds back what came of them.
use vstd::prelude::*;
use vstd::utf8::encode_utf8;
use crate::frame::{b64_encode, base64_standard_encode};
use crate::json::{int_json, int_v, jv, lemma_jv_array, lemma_jv_object, elems_v, members_v, Json, JsonV};
use crate::text::{digits, digits_v};
use crate::verdict::text;

verus! {

/// A request to the server: its kind and its data.
pub struct Envelope {
    pub kind: String,
    pub data: Json,
}

pub struct EnvelopeV {
    pub kind: Seq<char>,
    pub data: JsonV,
}

impl View for Envelope {
    type V = EnvelopeV;

    open spec fn view(&self) -> EnvelopeV {
        EnvelopeV { kind: self.kind@, data: jv(self.data) }
    }
}

/// The process id the frame acquires tasks under.
pub open spec fn pid() -> Seq<char> {
    "self"@
}

/// The correlation id of a request: `plugin-` and a number.
pub open spec fn corr_id_v(n: u64) -> Seq<char> {
    "plugin-"@ + digits_v(n as nat)
}

pub fn corr_id_of(n: u64) -> (r: String)
    ensures
        r@ == corr_id_v(n),
{
    let mut s = text("plugin-");
    s.append(digits(n).as_str());
    s
}

/// `fastrand::u64(..)`: a number drawn at random from the whole range.
/// Nothing is stated of which.
#[verifier::external_body]
fn random_u64() -> u64 {
    fastrand::u64(..)
}

/// A fresh correlation id, its number drawn at random.
pub fn corr_id() -> (r: String)
    ensures
        exists|n: u64| r@ == corr_id_v(n),
{
    corr_id_of(random_u64())
}

/// The members `id` and `version` of a task.
pub open spec fn task_members(id: Seq<char>, version: i64) -> Seq<(Seq<char>, JsonV)> {
    seq![("id"@, JsonV::Str(id)), ("version"@, int_v(version))]
}

fn task_doc(id: &str, version: i64) -> (r: Vec<(String, Json)>)
    ensures
        members_v(r@) == task_members(id@, version),
{
    let mut m: Vec<(String, Json)> = Vec::new();
    m.push((text("id"), Json::Str(text(id))));
    m.push((text("version"), int_json(version)));
    assert(members_v(m@) =~= task_members(id@, version));
    m
}

/// `task.acquire` for the delivered task, with the lease asked for.
pub open spec fn acquire_v(task_id: Seq<char>, task_version: i64, lease: i64) -> EnvelopeV {
    EnvelopeV {
        kind: "task.acquire"@,
        data: JsonV::Object(
            task_members(task_id, task_version) + seq![
                ("pid"@, JsonV::Str(pid())),
                ("ttl"@, int_v(lease)),
            ],
        ),
    }
}

pub fn acquire(task_id: &str, task_version: i64, lease: i64) -> (r: Envelope)
    ensures
        r@ == acquire_v(task_id@, task_version, lease),
{
    let mut m = task_doc(task_id, task_version);
    let ghost head = members_v(m@);
    m.push((text("pid"), Json::Str(text("self"))));
    m.push((text("ttl"), int_json(lease)));
    proof {
        lemma_jv_object(m);
        assert(members_v(m@) =~= head + seq![
            ("pid"@, JsonV::Str(pid())),
            ("ttl"@, int_v(lease)),
        ]);
    }
    Envelope { kind: text("task.acquire"), data: Json::Object(m) }
}

/// `task.heartbeat` for the acquired task.
pub open spec fn heartbeat_v(task_id: Seq<char>, version: i64) -> EnvelopeV {
    EnvelopeV {
        kind: "task.heartbeat"@,
        data: JsonV::Object(
            seq![
                ("pid"@, JsonV::Str(pid())),
                ("tasks"@, JsonV::Array(seq![JsonV::Object(task_members(task_id, version))])),
            ],
        ),
    }
}

pub fn heartbeat(task_id: &str, version: i64) -> (r: Envelope)
    ensures
        r@ == heartbeat_v(task_id@, version),
{
    let t = task_doc(task_id, version);
    proof {
        lemma_jv_object(t);
    }
    let mut tasks: Vec<Json> = Vec::new();
    tasks.push(Json::Object(t));
    proof {
        lemma_jv_array(tasks);
        assert(elems_v(tasks@) =~= seq![JsonV::Object(task_members(task_id@, version))]);
    }
    let mut m: Vec<(String, Json)> = Vec::new();
    m.push((text("pid"), Json::Str(text("self"))));
    m.push((text("tasks"), Json::Array(tasks)));
    proof {
        lemma_jv_object(m);
        assert(members_v(m@) =~= seq![
            ("pid"@, JsonV::Str(pid())),
            ("tasks"@, JsonV::Array(seq![JsonV::Object(task_members(task_id@, version))])),
        ]);
    }
    Envelope { kind: text("task.heartbeat"), data: Json::Object(m) }
}

/// The heartbeat's period: a third of the lease, and at least a
/// millisecond.
pub open spec fn beat_v(lease: i64) -> u64 {
    if lease < 3 {
        1
    } else {
        (lease / 3) as u64
    }
}

pub fn beat(lease: i64) -> (r: u64)
    ensures
        r == beat_v(lease),
{
    if lease < 3 {
        1
    } else {
        (lease / 3) as u64
    }
}

/// A plugin's verdict as text, the way it settles a promise.
pub enum Settled {
    /// Resolve with this JSON text.
    Resolve(String),
    /// Reject with this JSON text.
    Reject(String),
    /// Halt, for this reason.
    Halt(String),
    /// Release, for this reason.
    Release(String),
}

pub enum SettledV {
    Resolve(Seq<char>),
    Reject(Seq<char>),
    Halt(Seq<char>),
    Release(Seq<char>),
}

impl View for Settled {
    type V = SettledV;

    open spec fn view(&self) -> SettledV {
        match self {
            Settled::Resolve(s) => SettledV::Resolve(s@),
            Settled::Reject(s) => SettledV::Reject(s@),
            Settled::Halt(s) => SettledV::Halt(s@),
            Settled::Release(s) => SettledV::Release(s@),
        }
    }
}

/// `task.fulfill`: settle the promise in `state`, its value the data
/// `encoded` (base64), typed as JSON.
pub open spec fn fulfill_encoded_v(task_id: Seq<char>, version: i64, state: Seq<char>, encoded: Seq<char>) -> EnvelopeV {
    EnvelopeV {
        kind: "task.fulfill"@,
        data: JsonV::Object(
            task_members(task_id, version) + seq![
                (
                    "action"@,
                    JsonV::Object(
                        seq![
                            ("kind"@, JsonV::Str("promise.settle"@)),
                            ("head"@, JsonV::Object(Seq::empty())),
                            (
                                "data"@,
                                JsonV::Object(
                                    seq![
                                        ("id"@, JsonV::Str(task_id)),
                                        ("state"@, JsonV::Str(state)),
                                        (
                                            "value"@,
                                            JsonV::Object(
                                                seq![
                                                    (
                                                        "headers"@,
                                                        JsonV::Object(
                                                            seq![
                                                                (
                                                                    "content-type"@,
                                                                    JsonV::Str("application/json"@),
                                                                ),
                                                            ],
                                                        ),
                                                    ),
                                                    (
                                                        "data"@,
                                                        JsonV::Str(encoded),
                                                    ),
                                                ],
                                            ),
                                        ),
                                    ],
                                ),
                            ),
                        ],
                    ),
                ),
            ],
        ),
    }
}

/// `task.fulfill` with the verdict's text as the value, in base64.
pub open spec fn fulfill_v(task_id: Seq<char>, version: i64, state: Seq<char>, value: Seq<char>) -> EnvelopeV {
    fulfill_encoded_v(task_id, version, state, base64_standard_encode(encode_utf8(value)))
}

/// The call that ends a delivery: a verdict on the promise settles it
/// through the task; a halt or a release hands the task back.
pub open spec fn conclude_v(task_id: Seq<char>, version: i64, s: SettledV) -> EnvelopeV {
    match s {
        SettledV::Resolve(v) => fulfill_v(task_id, version, "resolved"@, v),
        SettledV::Reject(v) => fulfill_v(task_id, version, "rejected"@, v),
        SettledV::Halt(_) => EnvelopeV {
            kind: "task.halt"@,
            data: JsonV::Object(task_members(task_id, version)),
        },
        SettledV::Release(_) => EnvelopeV {
            kind: "task.release"@,
            data: JsonV::Object(task_members(task_id, version)),
        },
    }
}

fn object(m: Vec<(String, Json)>) -> (r: Json)
    ensures
        r@ == JsonV::Object(members_v(m@)),
{
    proof {
        lemma_jv_object(m);
    }
    Json::Object(m)
}

fn obj1(k1: &str, v1: Json) -> (r: Json)
    ensures
        r@ == JsonV::Object(seq![(k1@, v1@)]),
{
    let ghost a = v1@;
    let mut m: Vec<(String, Json)> = Vec::new();
    m.push((text(k1), v1));
    assert(members_v(m@) =~= seq![(k1@, a)]);
    object(m)
}

fn obj2(k1: &str, v1: Json, k2: &str, v2: Json) -> (r: Json)
    ensures
        r@ == JsonV::Object(seq![(k1@, v1@), (k2@, v2@)]),
{
    let ghost a = v1@;
    let ghost b = v2@;
    let mut m: Vec<(String, Json)> = Vec::new();
    m.push((text(k1), v1));
    m.push((text(k2), v2));
    assert(members_v(m@) =~= seq![(k1@, a), (k2@, b)]);
    object(m)
}

fn obj3(k1: &str, v1: Json, k2: &str, v2: Json, k3: &str, v3: Json) -> (r: Json)
    ensures
        r@ == JsonV::Object(seq![(k1@, v1@), (k2@, v2@), (k3@, v3@)]),
{
    let ghost a = v1@;
    let ghost b = v2@;
    let ghost c = v3@;
    let mut m: Vec<(String, Json)> = Vec::new();
    m.push((text(k1), v1));
    m.push((text(k2), v2));
    m.push((text(k3), v3));
    assert(members_v(m@) =~= seq![(k1@, a), (k2@, b), (k3@, c)]);
    object(m)
}

/// `task.fulfill` of the value already encoded.
pub fn fulfill_encoded(task_id: &str, version: i64, state: &str, encoded: String) -> (r: Envelope)
    ensures
        r@ == fulfill_encoded_v(task_id@, version, state@, encoded@),
{
    let ct = obj1("content-type", Json::Str(text("application/json")));
    let val = obj2("headers", ct, "data", Json::Str(encoded));
    let data = obj3("id", Json::Str(text(task_id)), "state", Json::Str(text(state)), "value", val);
    let empty: Vec<(String, Json)> = Vec::new();
    assert(members_v(empty@) =~= Seq::empty());
    let a = obj3("kind", Json::Str(text("promise.settle")), "head", object(empty), "data", data);
    let mut m = task_doc(task_id, version);
    let ghost head = members_v(m@);
    let ghost av = a@;
    m.push((text("action"), a));
    assert(members_v(m@) =~= head + seq![("action"@, av)]);
    let d = object(m);
    Envelope { kind: text("task.fulfill"), data: d }
}

fn fulfill(task_id: &str, version: i64, state: &str, value: &str) -> (r: Envelope)
    ensures
        r@ == fulfill_v(task_id@, version, state@, value@),
{
    fulfill_encoded(task_id, version, state, b64_encode(value.as_bytes()))
}

pub fn conclude(task_id: &str, version: i64, s: &Settled) -> (r: Envelope)
    ensures
        r@ == conclude_v(task_id@, version, s@),
{
    match s {
        Settled::Resolve(v) => fulfill(task_id, version, "resolved", v.as_str()),
        Settled::Reject(v) => fulfill(task_id, version, "rejected", v.as_str()),
        Settled::Halt(_) => Envelope {
            kind: text("task.halt"),
            data: object(task_doc(task_id, version)),
        },
        Settled::Release(_) => Envelope {
            kind: text("task.release"),
            data: object(task_doc(task_id, version)),
        },
    }
}

// ─── The run ────────────────────────────────────────────────────────────────

/// One delivered task: its id and version, and the lease to ask for.
pub struct Run {
    pub task_id: String,
    pub task_version: i64,
    pub lease: i64,
}

pub struct RunV {
    pub task_id: Seq<char>,
    pub task_version: i64,
    pub lease: i64,
}

impl View for Run {
    type V = RunV;

    open spec fn view(&self) -> RunV {
        RunV { task_id: self.task_id@, task_version: self.task_version, lease: self.lease }
    }
}

/// Where a run stands.
#[derive(PartialEq, Eq, Structural, Clone, Copy)]
pub enum RunStage {
    /// The acquire is out.
    Acquiring,
    /// The task is held at this version and the plugin is working.
    Working { version: i64 },
    /// The concluding call is out.
    Concluding,
    Done,
}

/// What came of the last action.
pub enum RunEvent {
    /// The acquire was answered with this status; `version` is the acquired
    /// task's version, where the answer's data read as an acquired task.
    Acquired { status: u16, version: Option<i64> },
    /// The server call produced no answer.
    Failed,
    /// The plugin decided.
    Decided(Settled),
    /// The concluding call returned, whatever its answer.
    Answered,
}

pub enum RunEventV {
    Acquired { status: u16, version: Option<i64> },
    Failed,
    Decided(SettledV),
    Answered,
}

impl View for RunEvent {
    type V = RunEventV;

    open spec fn view(&self) -> RunEventV {
        match self {
            RunEvent::Acquired { status, version } => RunEventV::Acquired {
                status: *status,
                version: *version,
            },
            RunEvent::Failed => RunEventV::Failed,
            RunEvent::Decided(s) => RunEventV::Decided(s@),
            RunEvent::Answered => RunEventV::Answered,
        }
    }
}

/// What the frame asks for next.
pub enum RunAction {
    /// Make this server call.
    Call(Envelope),
    /// Run the plugin on the acquired promise, sending `beat` every
    /// `period` milliseconds (the first after one period) until it decides.
    Work { period: u64, beat: Envelope },
    /// Nothing more: the run is over.
    Stop,
}

pub enum RunActionV {
    Call(EnvelopeV),
    Work { period: u64, beat: EnvelopeV },
    Stop,
}

impl View for RunAction {
    type V = RunActionV;

    open spec fn view(&self) -> RunActionV {
        match self {
            RunAction::Call(e) => RunActionV::Call(e@),
            RunAction::Work { period, beat } => RunActionV::Work { period: *period, beat: beat@ },
            RunAction::Stop => RunActionV::Stop,
        }
    }
}

/// The first step of a run: acquire the task.
pub open spec fn run_start_v(r: RunV) -> (RunStage, RunActionV) {
    (RunStage::Acquiring, RunActionV::Call(acquire_v(r.task_id, r.task_version, r.lease)))
}

pub fn run_start(r: &Run) -> (o: (RunStage, RunAction))
    ensures
        (o.0, o.1@) == run_start_v(r@),
{
    (RunStage::Acquiring, RunAction::Call(acquire(r.task_id.as_str(), r.task_version, r.lease)))
}

/// One step of a run. A task that could not be acquired is left alone: the
/// server redelivers it.
pub open spec fn run_next_v(r: RunV, s: RunStage, e: RunEventV) -> (RunStage, RunActionV) {
    match (s, e) {
        (RunStage::Acquiring, RunEventV::Acquired { status, version: Some(v) }) => if status == 200 {
            (
                RunStage::Working { version: v },
                RunActionV::Work { period: beat_v(r.lease), beat: heartbeat_v(r.task_id, v) },
            )
        } else {
            (RunStage::Done, RunActionV::Stop)
        },
        (RunStage::Working { version }, RunEventV::Decided(d)) => (
            RunStage::Concluding,
            RunActionV::Call(conclude_v(r.task_id, version, d)),
        ),
        _ => (RunStage::Done, RunActionV::Stop),
    }
}

pub fn run_step(r: &Run, s: RunStage, e: RunEvent) -> (o: (RunStage, RunAction))
    ensures
        (o.0, o.1@) == run_next_v(r@, s, e@),
{
    match (s, e) {
        (RunStage::Acquiring, RunEvent::Acquired { status, version: Some(v) }) => if status == 200 {
            (
                RunStage::Working { version: v },
                RunAction::Work { period: beat(r.lease), beat: heartbeat(r.task_id.as_str(), v) },
            )
        } else {
            (RunStage::Done, RunAction::Stop)
        },
        (RunStage::Working { version }, RunEvent::Decided(d)) => (
            RunStage::Concluding,
            RunAction::Call(conclude(r.task_id.as_str(), version, &d)),
        ),
        _ => (RunStage::Done, RunAction::Stop),
    }
}

/// The lease is beaten at least three times over: a beat at least every
/// third of the lease, and never more often than once a millisecond.
pub proof fn lemma_beat_within_lease(lease: i64)
    ensures
        beat_v(lease) >= 1,
        lease >= 3 ==> 3 * beat_v(lease) <= lease,
{
}

/// A run concludes the very task it acquired, at the version it acquired.
pub proof fn lemma_concludes_what_it_acquired(r: RunV, s: RunStage, e: RunEventV)
    ensures
        run_next_v(r, s, e).1 matches RunActionV::Call(env) ==> (s matches RunStage::Working {
            version,
        } && e matches RunEventV::Decided(d) && env == conclude_v(r.task_id, version, d)),
        run_next_v(r, s, e).0 matches RunStage::Working { version } ==> (s == RunStage::Acquiring
            && e == (RunEventV::Acquired { status: 200, version: Some(version) })),
{
}

} // verus!
