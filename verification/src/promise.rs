//! The promise a task delivers, and the param it carries.
use vstd::prelude::*;
use crate::frame::{b64_decode, base64_standard_decode};
use crate::json::{jget, jstr, jv, Json, JsonV};
use crate::verdict::{empty_object, jstr_of, reject, reject_v, text, Verdict, VerdictV};

verus! {

/// The parts of a promise record a plugin reads.
pub struct Promise {
    pub id: String,
    /// The deadline, in milliseconds since the epoch.
    pub timeout_at: i64,
    /// `param.data`: base64 of the UTF-8 JSON param.
    pub param_data: Option<String>,
}

pub struct PromiseV {
    pub id: Seq<char>,
    pub timeout_at: i64,
    pub param_data: Option<Seq<char>>,
}

impl View for Promise {
    type V = PromiseV;

    open spec fn view(&self) -> PromiseV {
        PromiseV {
            id: self.id@,
            timeout_at: self.timeout_at,
            param_data: match self.param_data {
                Some(s) => Some(s@),
                None => None,
            },
        }
    }
}

/// The bytes of `param.data`, or why there are none.
pub open spec fn param_bytes_v(p: PromiseV) -> Result<Seq<u8>, Seq<char>> {
    match p.param_data {
        None => Err("param has no data"@),
        Some(d) => match base64_standard_decode(d) {
            None => Err("param.data is not base64"@),
            Some(b) => Ok(b),
        },
    }
}

/// `promise.param.data` is base64 of UTF-8 JSON: its bytes, still to be read
/// as JSON.
pub fn param_bytes(p: &Promise) -> (r: Result<Vec<u8>, String>)
    ensures
        match r {
            Ok(b) => param_bytes_v(p@) == Ok::<Seq<u8>, Seq<char>>(b@),
            Err(e) => param_bytes_v(p@) == Err::<Seq<u8>, Seq<char>>(e@),
        },
{
    match &p.param_data {
        None => Err(text("param has no data")),
        Some(d) => match b64_decode(d.as_str()) {
            None => Err(text("param.data is not base64")),
            Some(b) => Ok(b),
        },
    }
}

/// The model of a param read as JSON, or the message of why it could not be.
pub open spec fn parsed_v(parsed: Result<Json, String>) -> Result<JsonV, Seq<char>> {
    match parsed {
        Ok(j) => Ok(jv(j)),
        Err(e) => Err(e@),
    }
}

/// What `process` reads from the param before it picks an operation: the
/// operation's name and its args (an empty object where absent), or the
/// rejection of a param that names none.
pub open spec fn read_param_v(parsed: Result<JsonV, Seq<char>>) -> Result<(Seq<char>, JsonV), VerdictV> {
    match parsed {
        Err(e) => Err(reject_v("invalid_request"@, Some(JsonV::Str(e)))),
        Ok(param) => match jstr(jget(param, "func"@)) {
            None => Err(reject_v("invalid_request"@, Some(JsonV::Str("param has no func"@)))),
            Some(func) => Ok(
                (
                    func,
                    match jget(param, "args"@) {
                        Some(a) => a,
                        None => JsonV::Object(Seq::empty()),
                    },
                ),
            ),
        },
    }
}

/// The prologue every plugin's `process` shares. `parsed` is the param read
/// as JSON, or the message of why it could not be.
pub fn read_param(parsed: Result<Json, String>) -> (r: Result<(String, Json), Verdict>)
    ensures
        match r {
            Ok((f, a)) => read_param_v(parsed_v(parsed)) == Ok::<(Seq<char>, JsonV), VerdictV>(
                (f@, a@),
            ),
            Err(v) => read_param_v(parsed_v(parsed)) == Err::<(Seq<char>, JsonV), VerdictV>(v@),
        },
{
    match parsed {
        Err(e) => Err(reject("invalid_request", Some(Json::Str(e)))),
        Ok(param) => {
            let func = match param.get_str("func") {
                None => {
                    return Err(reject("invalid_request", Some(jstr_of("param has no func"))));
                },
                Some(f) => f.clone(),
            };
            let args = match param.get("args") {
                Some(a) => a.copy(),
                None => empty_object(),
            };
            Ok((func, args))
        },
    }
}

} // verus!
