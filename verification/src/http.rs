//! The requests a plugin asks to have sent, and what comes back.
use vstd::prelude::*;
use vstd::utf8::encode_utf8;
use crate::json::{jv, ov, scalar_text, str_v, Json, JsonV};
use crate::text::{quote, quote_bytes};
use crate::verdict::{Verdict, VerdictV};

verus! {

#[derive(PartialEq, Eq, Structural, Clone, Copy)]
pub enum Method {
    Get,
    Post,
    Put,
    Patch,
    Delete,
}

/// One item of a comma-joined query value.
pub enum Part {
    /// Text as it is.
    Text(String),
    /// The compact JSON text of the document.
    Doc(Json),
}

pub enum PartV {
    Text(Seq<char>),
    Doc(JsonV),
}

impl View for Part {
    type V = PartV;

    open spec fn view(&self) -> PartV {
        match self {
            Part::Text(s) => PartV::Text(s@),
            Part::Doc(j) => PartV::Doc(jv(*j)),
        }
    }
}

pub open spec fn parts_v(p: Seq<Part>) -> Seq<PartV> {
    Seq::new(p.len(), |i: int| p[i]@)
}

/// One query parameter value.
pub enum Param {
    /// Sent as it is.
    Text(String),
    /// Sent as the compact JSON text of the document.
    Doc(Json),
    /// The items' texts, joined with commas.
    Joined(Vec<Part>),
}

pub enum ParamV {
    Text(Seq<char>),
    Doc(JsonV),
    Joined(Seq<PartV>),
}

impl View for Param {
    type V = ParamV;

    open spec fn view(&self) -> ParamV {
        match self {
            Param::Text(s) => ParamV::Text(s@),
            Param::Doc(j) => ParamV::Doc(jv(*j)),
            Param::Joined(p) => ParamV::Joined(parts_v(p@)),
        }
    }
}

/// A piece of a URL.
pub enum Piece {
    /// Text as it is.
    Text(String),
    /// The path segment that percent-encoding the compact JSON text of the
    /// document gives.
    Segment(Json),
}

pub enum PieceV {
    Text(Seq<char>),
    Segment(JsonV),
}

impl View for Piece {
    type V = PieceV;

    open spec fn view(&self) -> PieceV {
        match self {
            Piece::Text(s) => PieceV::Text(s@),
            Piece::Segment(j) => PieceV::Segment(jv(*j)),
        }
    }
}

pub open spec fn pieces_v(u: Seq<Piece>) -> Seq<PieceV> {
    Seq::new(u.len(), |i: int| u[i]@)
}

/// A URL of one piece of text.
pub open spec fn url_v(s: Seq<char>) -> Seq<PieceV> {
    seq![PieceV::Text(s)]
}

/// A URL of text, a path segment and text: one piece of text where the
/// segment is text itself.
pub open spec fn url_seg_v(prefix: Seq<char>, seg: PieceV, suffix: Seq<char>) -> Seq<PieceV> {
    match seg {
        PieceV::Text(t) => seq![PieceV::Text(prefix + t + suffix)],
        PieceV::Segment(_) => seq![PieceV::Text(prefix), seg, PieceV::Text(suffix)],
    }
}

pub fn url(s: String) -> (r: Vec<Piece>)
    ensures
        pieces_v(r@) == url_v(s@),
{
    let mut r: Vec<Piece> = Vec::new();
    r.push(Piece::Text(s));
    assert(pieces_v(r@) =~= url_v(s@));
    r
}

pub fn url_seg(prefix: String, seg: Piece, suffix: &str) -> (r: Vec<Piece>)
    ensures
        pieces_v(r@) == url_seg_v(prefix@, seg@, suffix@),
{
    let ghost sv = seg@;
    let mut r: Vec<Piece> = Vec::new();
    match seg {
        Piece::Text(t) => {
            let mut s = prefix;
            s.append(t.as_str());
            s.append(suffix);
            r.push(Piece::Text(s));
        },
        Piece::Segment(j) => {
            r.push(Piece::Text(prefix));
            r.push(Piece::Segment(j));
            r.push(Piece::Text(String::from_str(suffix)));
        },
    }
    assert(pieces_v(r@) =~= url_seg_v(prefix@, sv, suffix@));
    r
}

/// A request to send, with the query parameters and JSON body it carries.
pub struct Request {
    pub method: Method,
    pub url: Vec<Piece>,
    pub headers: Vec<(String, String)>,
    pub query: Vec<(String, Param)>,
    pub body: Option<Json>,
    /// The time allowed for the whole exchange, in milliseconds.
    pub timeout_ms: u64,
}

pub struct RequestV {
    pub method: Method,
    pub url: Seq<PieceV>,
    pub headers: Seq<(Seq<char>, Seq<char>)>,
    pub query: Seq<(Seq<char>, ParamV)>,
    pub body: Option<JsonV>,
    pub timeout_ms: u64,
}

pub open spec fn headers_v(h: Seq<(String, String)>) -> Seq<(Seq<char>, Seq<char>)> {
    Seq::new(h.len(), |i: int| (h[i].0@, h[i].1@))
}

pub open spec fn query_v(q: Seq<(String, Param)>) -> Seq<(Seq<char>, ParamV)> {
    Seq::new(q.len(), |i: int| (q[i].0@, q[i].1@))
}

impl View for Request {
    type V = RequestV;

    open spec fn view(&self) -> RequestV {
        RequestV {
            method: self.method,
            url: pieces_v(self.url@),
            headers: headers_v(self.headers@),
            query: query_v(self.query@),
            body: ov(self.body),
            timeout_ms: self.timeout_ms,
        }
    }
}

/// One response, kept as text so a non-JSON error body is still reportable.
pub struct Response {
    pub status: u16,
    pub text: String,
    /// The text read as JSON; nothing where it is not JSON.
    pub body: Option<Json>,
}

pub struct ResponseV {
    pub status: u16,
    pub text: Seq<char>,
    pub body: Option<JsonV>,
}

impl View for Response {
    type V = ResponseV;

    open spec fn view(&self) -> ResponseV {
        ResponseV { status: self.status, text: self.text@, body: ov(self.body) }
    }
}

/// The body as JSON: null where it is not JSON.
pub open spec fn body_v(r: ResponseV) -> JsonV {
    match r.body {
        Some(j) => j,
        None => JsonV::Null,
    }
}

impl Response {
    /// The body as JSON: null where it is not JSON, never a crash.
    pub fn json(&self) -> (r: Json)
        ensures
            r@ == body_v(self@),
    {
        match &self.body {
            Some(j) => j.copy(),
            None => Json::Null,
        }
    }
}

/// What happened to the last action.
pub enum Event {
    /// The request was answered.
    Reply(Response),
    /// The request produced no response; the flag says whether it timed out.
    Lost(String, bool),
    /// The sleep ended.
    Woke,
}

pub enum EventV {
    Reply(ResponseV),
    Lost(Seq<char>, bool),
    Woke,
}

impl View for Event {
    type V = EventV;

    open spec fn view(&self) -> EventV {
        match self {
            Event::Reply(r) => EventV::Reply(r@),
            Event::Lost(s, t) => EventV::Lost(s@, *t),
            Event::Woke => EventV::Woke,
        }
    }
}

/// What a plugin asks for next.
pub enum Action {
    Send(Request),
    /// Sleep this many milliseconds.
    Sleep(u64),
    Finish(Verdict),
}

pub enum ActionV {
    Send(RequestV),
    Sleep(u64),
    Finish(VerdictV),
}

impl View for Action {
    type V = ActionV;

    open spec fn view(&self) -> ActionV {
        match self {
            Action::Send(r) => ActionV::Send(r@),
            Action::Sleep(ms) => ActionV::Sleep(*ms),
            Action::Finish(v) => ActionV::Finish(v@),
        }
    }
}

/// The request timeout most calls are sent with: ten seconds.
pub const TIMEOUT_MS: u64 = 10_000;

/// A request with no header, query or body yet.
pub open spec fn req_v(method: Method, url: Seq<PieceV>) -> RequestV {
    RequestV {
        method,
        url,
        headers: Seq::empty(),
        query: Seq::empty(),
        body: None,
        timeout_ms: TIMEOUT_MS,
    }
}

pub fn request(method: Method, url: Vec<Piece>) -> (r: Request)
    ensures
        r@ == req_v(method, pieces_v(url@)),
{
    let r = Request {
        method,
        url,
        headers: Vec::new(),
        query: Vec::new(),
        body: None,
        timeout_ms: TIMEOUT_MS,
    };
    assert(headers_v(r.headers@) =~= Seq::empty());
    assert(query_v(r.query@) =~= Seq::empty());
    r
}

pub open spec fn with_header_v(r: RequestV, k: Seq<char>, v: Seq<char>) -> RequestV {
    RequestV { headers: r.headers.push((k, v)), ..r }
}

pub open spec fn with_query_v(r: RequestV, q: Seq<(Seq<char>, ParamV)>) -> RequestV {
    RequestV { query: q, ..r }
}

pub open spec fn with_body_v(r: RequestV, b: JsonV) -> RequestV {
    RequestV { body: Some(b), ..r }
}

pub open spec fn with_timeout_v(r: RequestV, ms: u64) -> RequestV {
    RequestV { timeout_ms: ms, ..r }
}

impl Request {
    pub fn header(self, k: &str, v: &str) -> (r: Request)
        ensures
            r@ == with_header_v(self@, k@, v@),
    {
        let mut r = self;
        r.headers.push((String::from_str(k), String::from_str(v)));
        assert(headers_v(r.headers@) =~= headers_v(self.headers@).push((k@, v@)));
        r
    }

    pub fn query(self, q: Vec<(String, Param)>) -> (r: Request)
        ensures
            r@ == with_query_v(self@, query_v(q@)),
    {
        let mut r = self;
        r.query = q;
        r
    }

    pub fn json(self, b: Json) -> (r: Request)
        ensures
            r@ == with_body_v(self@, b@),
    {
        let mut r = self;
        r.body = Some(b);
        r
    }

    pub fn timeout(self, ms: u64) -> (r: Request)
        ensures
            r@ == with_timeout_v(self@, ms),
    {
        let mut r = self;
        r.timeout_ms = ms;
        r
    }
}

/// The path segment for the text `s`: `quote(s)`.
pub open spec fn seg_text_v(s: Seq<char>) -> PieceV {
    PieceV::Text(quote_bytes(encode_utf8(s)))
}

/// The path segment `quote(str(v))`.
pub open spec fn segment_v(j: JsonV) -> PieceV {
    match str_v(j) {
        Some(t) => seg_text_v(t),
        None => PieceV::Segment(j),
    }
}

/// The query value `str(v)`.
pub open spec fn param_v(j: JsonV) -> ParamV {
    match str_v(j) {
        Some(t) => ParamV::Text(t),
        None => ParamV::Doc(j),
    }
}

pub fn seg_text(s: &str) -> (r: Piece)
    ensures
        r@ == seg_text_v(s@),
{
    Piece::Text(quote(s))
}

pub fn segment(j: &Json) -> (r: Piece)
    ensures
        r@ == segment_v(j@),
{
    match scalar_text(j) {
        Some(t) => seg_text(t.as_str()),
        None => Piece::Segment(j.copy()),
    }
}

pub fn param_of(j: &Json) -> (r: Param)
    ensures
        r@ == param_v(j@),
{
    match scalar_text(j) {
        Some(t) => Param::Text(t),
        None => Param::Doc(j.copy()),
    }
}

/// A query parameter of text.
pub fn qtext(k: &str, v: String) -> (r: (String, Param))
    ensures
        r.0@ == k@,
        r.1@ == ParamV::Text(v@),
{
    (String::from_str(k), Param::Text(v))
}

} // verus!
