//! The verdict vocabulary every plugin speaks.
//!
//!   Resolve -> the promise resolves with the payload
//!   Reject  -> the promise rejects with `{"code": .., "detail": ..}`
//!   Halt    -> redelivery pauses until an operator intervenes
//!   Release -> no verdict; the task is dropped and redelivered
use vstd::prelude::*;
use crate::http::{Part, PartV};
use crate::json::{jv, ov, lemma_jv_object, members, members_v, Json, JsonV};

verus! {

/// The text a verdict carries.
pub enum Payload {
    /// Text as it is, such as a response body.
    Text(String),
    /// The compact JSON text of a document.
    Doc(Json),
    /// A note followed by the compact JSON text of a document.
    Note(String, Json),
    /// A head, the text of the part written as a Rust string literal (as
    /// `{:?}` writes it), and a tail.
    Quoted(String, Part, String),
}

pub enum PayloadV {
    Text(Seq<char>),
    Doc(JsonV),
    Note(Seq<char>, JsonV),
    Quoted(Seq<char>, PartV, Seq<char>),
}

impl View for Payload {
    type V = PayloadV;

    open spec fn view(&self) -> PayloadV {
        match self {
            Payload::Text(s) => PayloadV::Text(s@),
            Payload::Doc(j) => PayloadV::Doc(jv(*j)),
            Payload::Note(s, j) => PayloadV::Note(s@, jv(*j)),
            Payload::Quoted(h, p, t) => PayloadV::Quoted(h@, p@, t@),
        }
    }
}

/// What a plugin decides for one delivered promise.
pub enum Verdict {
    Resolve(Payload),
    Reject(Json),
    Halt(Payload),
    Release(Payload),
}

pub enum VerdictV {
    Resolve(PayloadV),
    Reject(JsonV),
    Halt(PayloadV),
    Release(PayloadV),
}

impl View for Verdict {
    type V = VerdictV;

    open spec fn view(&self) -> VerdictV {
        match self {
            Verdict::Resolve(p) => VerdictV::Resolve(p@),
            Verdict::Reject(j) => VerdictV::Reject(jv(*j)),
            Verdict::Halt(p) => VerdictV::Halt(p@),
            Verdict::Release(p) => VerdictV::Release(p@),
        }
    }
}

/// A failure that is not a verdict on the promise: halt or release.
pub enum Failure {
    Halt(Payload),
    Release(Payload),
}

pub enum FailureV {
    Halt(PayloadV),
    Release(PayloadV),
}

impl View for Failure {
    type V = FailureV;

    open spec fn view(&self) -> FailureV {
        match self {
            Failure::Halt(p) => FailureV::Halt(p@),
            Failure::Release(p) => FailureV::Release(p@),
        }
    }
}

/// The verdict a failure propagates as.
pub open spec fn fail_v(f: FailureV) -> VerdictV {
    match f {
        FailureV::Halt(p) => VerdictV::Halt(p),
        FailureV::Release(p) => VerdictV::Release(p),
    }
}

impl Failure {
    pub fn into_verdict(self) -> (r: Verdict)
        ensures
            r@ == fail_v(self@),
    {
        match self {
            Failure::Halt(p) => Verdict::Halt(p),
            Failure::Release(p) => Verdict::Release(p),
        }
    }
}

/// A release whose reason is `text`.
pub open spec fn release_v(text: Seq<char>) -> VerdictV {
    VerdictV::Release(PayloadV::Text(text))
}

/// The rejection document: `{"code": code}`, plus `"detail"` where one is given.
pub open spec fn reject_doc(code: Seq<char>, detail: Option<JsonV>) -> JsonV {
    match detail {
        Some(d) => JsonV::Object(seq![("code"@, JsonV::Str(code)), ("detail"@, d)]),
        None => JsonV::Object(seq![("code"@, JsonV::Str(code))]),
    }
}

/// The rejection with `code` and `detail`.
pub open spec fn reject_v(code: Seq<char>, detail: Option<JsonV>) -> VerdictV {
    VerdictV::Reject(reject_doc(code, detail))
}

/// An owned copy of `s`.
pub fn text(s: &str) -> (r: String)
    ensures
        r@ == s@,
{
    String::from_str(s)
}

/// A JSON string.
pub fn jstr_of(s: &str) -> (r: Json)
    ensures
        r@ == JsonV::Str(s@),
{
    Json::Str(text(s))
}

/// Build a value to an operation's Rejected schema. `detail` is absent where
/// the schema says it is absent.
pub fn reject(code: &str, detail: Option<Json>) -> (r: Verdict)
    ensures
        r@ == reject_v(code@, ov(detail)),
{
    let mut m: Vec<(String, Json)> = Vec::new();
    m.push((text("code"), jstr_of(code)));
    let ghost dv = ov(detail);
    match detail {
        Some(d) => m.push((text("detail"), d)),
        None => {},
    }
    proof {
        lemma_jv_object(m);
        assert(members_v(m@) =~= members(reject_doc(code@, dv)));
    }
    Verdict::Reject(Json::Object(m))
}

/// `json!({})`.
pub fn empty_object() -> (r: Json)
    ensures
        r@ == JsonV::Object(Seq::empty()),
{
    let m: Vec<(String, Json)> = Vec::new();
    proof {
        lemma_jv_object(m);
        assert(members_v(m@) =~= Seq::empty());
    }
    Json::Object(m)
}

/// A rejection names its code: its document is an object whose first
/// member is `code`, a string.
pub open spec fn coded(v: VerdictV) -> bool {
    v matches VerdictV::Reject(d) ==> d matches JsonV::Object(m) && m.len() > 0 && m[0].0
        == "code"@ && m[0].1 is Str
}

/// Every rejection `reject_v` builds names its code.
pub proof fn lemma_reject_coded(code: Seq<char>, detail: Option<JsonV>)
    ensures
        coded(reject_v(code, detail)),
{
}

/// Whether a verdict settles the promise: resolves or rejects it.
pub open spec fn settles(v: VerdictV) -> bool {
    v is Resolve || v is Reject
}

} // verus!
