//! Reading an operation's args: the required arguments of a Param schema.
//!
//! A promise's param is immutable, so a param that does not satisfy the
//! schema now does not satisfy it on any redelivery: permanent, and every
//! operation's Rejected schema has `invalid_request` for it.
use vstd::prelude::*;
use crate::json::{jget, str_eq, Json, JsonV};
use crate::text::cat3;

verus! {

/// The message of a missing or mistyped argument.
pub open spec fn arg_msg(key: Seq<char>, what: Seq<char>) -> Seq<char> {
    "args."@ + key + " is required and must be "@ + what
}

fn arg_error(key: &str, what: &str) -> (r: String)
    ensures
        r@ == arg_msg(key@, what@),
{
    let mut s = cat3("args.", key, " is required and must be ");
    s.append(what);
    s
}

/// A required string argument.
pub open spec fn arg_str_v(args: JsonV, key: Seq<char>) -> Result<Seq<char>, Seq<char>> {
    match jget(args, key) {
        Some(JsonV::Str(s)) => Ok(s),
        _ => Err(arg_msg(key, "a string"@)),
    }
}

pub fn arg_str<'a>(args: &'a Json, key: &str) -> (r: Result<&'a String, String>)
    ensures
        match r {
            Ok(s) => arg_str_v(args@, key@) == Ok::<Seq<char>, Seq<char>>(s@),
            Err(e) => arg_str_v(args@, key@) == Err::<Seq<char>, Seq<char>>(e@),
        },
{
    match args.get(key) {
        Some(Json::Str(s)) => Ok(s),
        _ => Err(arg_error(key, "a string")),
    }
}

/// A required integer argument.
pub open spec fn arg_int_v(args: JsonV, key: Seq<char>) -> Result<i64, Seq<char>> {
    match jget(args, key) {
        Some(JsonV::Num(_, Some(i), _)) => Ok(i),
        _ => Err(arg_msg(key, "an integer"@)),
    }
}

pub fn arg_int(args: &Json, key: &str) -> (r: Result<i64, String>)
    ensures
        match r {
            Ok(i) => arg_int_v(args@, key@) == Ok::<i64, Seq<char>>(i),
            Err(e) => arg_int_v(args@, key@) == Err::<i64, Seq<char>>(e@),
        },
{
    match args.get(key) {
        Some(j) => match j.as_i64() {
            Some(i) => Ok(i),
            None => Err(arg_error(key, "an integer")),
        },
        None => Err(arg_error(key, "an integer")),
    }
}

/// A required object argument.
pub open spec fn arg_object_v(args: JsonV, key: Seq<char>) -> Result<JsonV, Seq<char>> {
    match jget(args, key) {
        Some(JsonV::Object(m)) => Ok(JsonV::Object(m)),
        _ => Err(arg_msg(key, "an object"@)),
    }
}

pub fn arg_object<'a>(args: &'a Json, key: &str) -> (r: Result<&'a Json, String>)
    ensures
        match r {
            Ok(j) => arg_object_v(args@, key@) == Ok::<JsonV, Seq<char>>(j@),
            Err(e) => arg_object_v(args@, key@) == Err::<JsonV, Seq<char>>(e@),
        },
{
    match args.get(key) {
        Some(j) => if j.is_object() {
            Ok(j)
        } else {
            Err(arg_error(key, "an object"))
        },
        None => Err(arg_error(key, "an object")),
    }
}

/// A required array argument.
pub open spec fn arg_array_v(args: JsonV, key: Seq<char>) -> Result<JsonV, Seq<char>> {
    match jget(args, key) {
        Some(JsonV::Array(a)) => Ok(JsonV::Array(a)),
        _ => Err(arg_msg(key, "an array"@)),
    }
}

pub fn arg_array<'a>(args: &'a Json, key: &str) -> (r: Result<&'a Json, String>)
    ensures
        match r {
            Ok(j) => arg_array_v(args@, key@) == Ok::<JsonV, Seq<char>>(j@),
            Err(e) => arg_array_v(args@, key@) == Err::<JsonV, Seq<char>>(e@),
        },
{
    match args.get(key) {
        Some(j) => if j.is_array() {
            Ok(j)
        } else {
            Err(arg_error(key, "an array"))
        },
        None => Err(arg_error(key, "an array")),
    }
}

/// A required id the Param schema types as a string or a number, as
/// `str(args[key])` renders it; `what` names the types in the message.
pub open spec fn arg_id_v(args: JsonV, key: Seq<char>, what: Seq<char>) -> Result<Seq<char>, Seq<char>> {
    match jget(args, key) {
        Some(JsonV::Str(s)) => Ok(s),
        Some(JsonV::Num(t, _, _)) => Ok(t),
        _ => Err(arg_msg(key, what)),
    }
}

pub fn arg_id(args: &Json, key: &str, what: &str) -> (r: Result<String, String>)
    ensures
        match r {
            Ok(s) => arg_id_v(args@, key@, what@) == Ok::<Seq<char>, Seq<char>>(s@),
            Err(e) => arg_id_v(args@, key@, what@) == Err::<Seq<char>, Seq<char>>(e@),
        },
{
    match args.get(key) {
        Some(Json::Str(s)) => Ok(s.clone()),
        Some(Json::Num(n)) => Ok(n.text.clone()),
        _ => Err(arg_error(key, what)),
    }
}

/// The names of a list of keys.
pub open spec fn names(ks: Seq<&str>) -> Seq<Seq<char>> {
    Seq::new(ks.len(), |i: int| ks[i]@)
}

/// Whether `k` is one of the keys.
pub fn listed(k: &str, ks: &[&str]) -> (r: bool)
    ensures
        r == names(ks@).contains(k@),
{
    let mut i: usize = 0;
    while i < ks.len()
        invariant
            i <= ks@.len(),
            forall|j: int| 0 <= j < i ==> names(ks@)[j] != k@,
        decreases ks@.len() - i,
    {
        if str_eq(ks[i], k) {
            assert(names(ks@)[i as int] == k@);
            return true;
        }
        i = i + 1;
    }
    assert(!names(ks@).contains(k@)) by {
        if names(ks@).contains(k@) {
            let j = choose|j: int| 0 <= j < names(ks@).len() && names(ks@)[j] == k@;
            assert(names(ks@)[j] != k@);
        }
    }
    false
}

} // verus!
