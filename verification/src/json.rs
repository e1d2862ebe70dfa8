//! JSON documents as plain values, and their mathematical model.
use vstd::prelude::*;
use crate::text::{decimal, decimal_v};

verus! {

/// A JSON number as a document carried it.
pub struct Number {
    /// Its compact JSON text, such as `1`, `-3` or `2.5`.
    pub text: String,
    /// Its value where it is an integer that fits an `i64`.
    pub int: Option<i64>,
    /// Whether it equals zero (`0`, `0.0`, `-0.0`).
    pub zero: bool,
}

/// A JSON document. An object keeps its members in order.
pub enum Json {
    Null,
    Bool(bool),
    Num(Number),
    Str(String),
    Array(Vec<Json>),
    Object(Vec<(String, Json)>),
}

/// The model of a JSON document: strings as sequences of characters.
pub enum JsonV {
    Null,
    Bool(bool),
    Num(Seq<char>, Option<i64>, bool),
    Str(Seq<char>),
    Array(Seq<JsonV>),
    Object(Seq<(Seq<char>, JsonV)>),
}

/// The model of a JSON document.
pub open spec fn jv(j: Json) -> JsonV
    decreases j,
{
    match j {
        Json::Null => JsonV::Null,
        Json::Bool(b) => JsonV::Bool(b),
        Json::Num(n) => JsonV::Num(n.text@, n.int, n.zero),
        Json::Str(s) => JsonV::Str(s@),
        Json::Array(v) => JsonV::Array(
            Seq::new(
                v.len() as nat,
                |i: int|
                    if 0 <= i < v.len() {
                        jv(v[i])
                    } else {
                        JsonV::Null
                    },
            ),
        ),
        Json::Object(v) => JsonV::Object(
            Seq::new(
                v.len() as nat,
                |i: int|
                    if 0 <= i < v.len() {
                        (v[i].0@, jv(v[i].1))
                    } else {
                        (Seq::empty(), JsonV::Null)
                    },
            ),
        ),
    }
}

impl View for Json {
    type V = JsonV;

    open spec fn view(&self) -> JsonV {
        jv(*self)
    }
}

/// The model of an optional document.
pub open spec fn ov(o: Option<Json>) -> Option<JsonV> {
    match o {
        Some(j) => Some(jv(j)),
        None => None,
    }
}

/// The model of the members of an object.
pub open spec fn members_v(v: Seq<(String, Json)>) -> Seq<(Seq<char>, JsonV)> {
    Seq::new(v.len(), |i: int| (v[i].0@, jv(v[i].1)))
}

/// The position of the first member named `k`, or -1.
pub open spec fn key_pos(m: Seq<(Seq<char>, JsonV)>, k: Seq<char>) -> int
    decreases m.len(),
{
    if m.len() == 0 {
        -1
    } else if m[0].0 == k {
        0
    } else {
        let p = key_pos(m.drop_first(), k);
        if p < 0 {
            -1
        } else {
            p + 1
        }
    }
}

/// The value of the first member named `k`.
pub open spec fn find_key(m: Seq<(Seq<char>, JsonV)>, k: Seq<char>) -> Option<JsonV> {
    let p = key_pos(m, k);
    if 0 <= p < m.len() {
        Some(m[p].1)
    } else {
        None
    }
}

/// `value.get(key)`: the member `k` of an object; nothing for any other value.
pub open spec fn jget(j: JsonV, k: Seq<char>) -> Option<JsonV> {
    match j {
        JsonV::Object(m) => find_key(m, k),
        _ => None,
    }
}

/// `value.as_str()`.
pub open spec fn jstr(j: Option<JsonV>) -> Option<Seq<char>> {
    match j {
        Some(JsonV::Str(s)) => Some(s),
        _ => None,
    }
}

/// `value.as_i64()`.
pub open spec fn jint(j: Option<JsonV>) -> Option<i64> {
    match j {
        Some(JsonV::Num(_, i, _)) => i,
        _ => None,
    }
}

/// `value.as_bool()`.
pub open spec fn jbool(j: Option<JsonV>) -> Option<bool> {
    match j {
        Some(JsonV::Bool(b)) => Some(b),
        _ => None,
    }
}

/// The member `k` of `j`, as a string where it is one.
pub open spec fn get_str(j: JsonV, k: Seq<char>) -> Option<Seq<char>> {
    jstr(jget(j, k))
}

/// An absent value reads as null.
pub open spec fn or_null(j: Option<JsonV>) -> JsonV {
    match j {
        Some(v) => v,
        None => JsonV::Null,
    }
}

/// The members of an object; none for any other value.
pub open spec fn members(j: JsonV) -> Seq<(Seq<char>, JsonV)> {
    match j {
        JsonV::Object(m) => m,
        _ => Seq::empty(),
    }
}

/// `map.insert(k, v)`: replace the first member named `k`, or append one.
pub open spec fn put(m: Seq<(Seq<char>, JsonV)>, k: Seq<char>, v: JsonV) -> Seq<(Seq<char>, JsonV)> {
    let p = key_pos(m, k);
    if 0 <= p < m.len() {
        m.update(p, (k, v))
    } else {
        m.push((k, v))
    }
}

/// `map.remove(k)`: drop every member named `k`.
pub open spec fn drop_key(m: Seq<(Seq<char>, JsonV)>, k: Seq<char>) -> Seq<(Seq<char>, JsonV)>
    decreases m.len(),
{
    if m.len() == 0 {
        m
    } else {
        let r = drop_key(m.drop_last(), k);
        if m.last().0 == k {
            r
        } else {
            r.push(m.last())
        }
    }
}

/// The models of the elements of an array.
pub open spec fn elems_v(a: Seq<Json>) -> Seq<JsonV> {
    Seq::new(a.len(), |i: int| jv(a[i]))
}

/// The model of an array is the model of its elements.
pub proof fn lemma_jv_array(a: Vec<Json>)
    ensures
        jv(Json::Array(a)) == JsonV::Array(elems_v(a@)),
{
    if let JsonV::Array(m) = jv(Json::Array(a)) {
        assert(m =~= elems_v(a@));
    }
}

/// The model of an object is the model of its members.
pub proof fn lemma_jv_object(v: Vec<(String, Json)>)
    ensures
        jv(Json::Object(v)) == JsonV::Object(members_v(v@)),
{
    if let JsonV::Object(m) = jv(Json::Object(v)) {
        assert(m =~= members_v(v@));
    }
}

proof fn lemma_key_pos_bounds(m: Seq<(Seq<char>, JsonV)>, k: Seq<char>)
    ensures
        -1 <= key_pos(m, k) < m.len(),
        0 <= key_pos(m, k) ==> m[key_pos(m, k)].0 == k,
        key_pos(m, k) == -1 ==> forall|i: int| 0 <= i < m.len() ==> m[i].0 != k,
    decreases m.len(),
{
    if m.len() > 0 && m[0].0 != k {
        lemma_key_pos_bounds(m.drop_first(), k);
        assert forall|i: int| 0 <= i < m.len() && key_pos(m, k) == -1 implies m[i].0 != k by {
            if i > 0 {
                assert(m[i] == m.drop_first()[i - 1]);
            }
        }
    }
}

/// Stepping over a member that is not named `k`.
proof fn lemma_key_pos_skip(m: Seq<(Seq<char>, JsonV)>, k: Seq<char>, i: int)
    requires
        0 <= i < m.len(),
        m[i].0 != k,
        forall|j: int| 0 <= j < i ==> m[j].0 != k,
    ensures
        (key_pos(m, k) == -1) <==> (key_pos(m.subrange(i + 1, m.len() as int), k) == -1),
        key_pos(m, k) >= 0 ==> key_pos(m, k) == key_pos(m.subrange(i + 1, m.len() as int), k) + i + 1,
    decreases i,
{
    if i > 0 {
        let t = m.drop_first();
        assert(t.subrange(i, t.len() as int) =~= m.subrange(i + 1, m.len() as int));
        lemma_key_pos_skip(t, k, i - 1);
    } else {
        assert(m.drop_first() =~= m.subrange(1, m.len() as int));
    }
}

/// Landing on the first member named `k`.
proof fn lemma_key_pos_hit(m: Seq<(Seq<char>, JsonV)>, k: Seq<char>, i: int)
    requires
        0 <= i < m.len(),
        m[i].0 == k,
        forall|j: int| 0 <= j < i ==> m[j].0 != k,
    ensures
        key_pos(m, k) == i,
    decreases i,
{
    if i > 0 {
        lemma_key_pos_hit(m.drop_first(), k, i - 1);
    }
}

/// No member named `k` anywhere.
proof fn lemma_key_pos_none(m: Seq<(Seq<char>, JsonV)>, k: Seq<char>)
    requires
        forall|j: int| 0 <= j < m.len() ==> m[j].0 != k,
    ensures
        key_pos(m, k) == -1,
    decreases m.len(),
{
    if m.len() > 0 {
        lemma_key_pos_none(m.drop_first(), k);
    }
}

/// The position of the first member of `v` named `k`, by a scan from the front.
pub fn position(v: &Vec<(String, Json)>, k: &str) -> (r: Option<usize>)
    ensures
        match r {
            Some(p) => p < v.len() && key_pos(members_v(v@), k@) == p,
            None => key_pos(members_v(v@), k@) == -1,
        },
{
    let ghost m = members_v(v@);
    let mut i: usize = 0;
    while i < v.len()
        invariant
            i <= v.len(),
            m == members_v(v@),
            forall|j: int| 0 <= j < i ==> m[j].0 != k@,
        decreases v.len() - i,
    {
        if str_eq(v[i].0.as_str(), k) {
            proof {
                lemma_key_pos_hit(m, k@, i as int);
            }
            return Some(i);
        }
        i = i + 1;
    }
    proof {
        lemma_key_pos_none(m, k@);
    }
    None
}

/// Whether two strings are the same characters.
pub fn str_eq(a: &str, b: &str) -> (r: bool)
    ensures
        r == (a@ == b@),
{
    let a_len = a.unicode_len();
    let b_len = b.unicode_len();
    if a_len != b_len {
        return false;
    }
    let mut i: usize = 0;
    while i < a_len
        invariant
            a_len == a@.len(),
            b_len == b@.len(),
            a_len == b_len,
            i <= a_len,
            forall|j: int| 0 <= j < i ==> a@[j] == b@[j],
        decreases a_len - i,
    {
        if a.get_char(i) != b.get_char(i) {
            return false;
        }
        i = i + 1;
    }
    assert(a@ =~= b@);
    true
}

impl Json {
    /// `value.get(key)`.
    pub fn get(&self, k: &str) -> (r: Option<&Json>)
        ensures
            match r {
                Some(x) => jget(jv(*self), k@) == Some(jv(*x)),
                None => jget(jv(*self), k@) is None,
            },
    {
        match self {
            Json::Object(v) => {
                proof {
                    lemma_jv_object(*v);
                }
                match position(v, k) {
                    Some(p) => Some(&v[p].1),
                    None => None,
                }
            },
            _ => None,
        }
    }

    /// `value.get(key).and_then(Value::as_str)`.
    pub fn get_str(&self, k: &str) -> (r: Option<&String>)
        ensures
            match r {
                Some(s) => get_str(jv(*self), k@) == Some(s@),
                None => get_str(jv(*self), k@) is None,
            },
    {
        match self.get(k) {
            Some(Json::Str(s)) => Some(s),
            _ => None,
        }
    }

    /// `value.as_i64()`.
    pub fn as_i64(&self) -> (r: Option<i64>)
        ensures
            r == jint(Some(jv(*self))),
    {
        match self {
            Json::Num(n) => n.int,
            _ => None,
        }
    }

    /// `value.as_bool()`.
    pub fn as_bool(&self) -> (r: Option<bool>)
        ensures
            r == jbool(Some(jv(*self))),
    {
        match self {
            Json::Bool(b) => Some(*b),
            _ => None,
        }
    }

    /// `value.is_object()`.
    pub fn is_object(&self) -> (r: bool)
        ensures
            r == (jv(*self) is Object),
    {
        match self {
            Json::Object(_) => true,
            _ => false,
        }
    }

    /// `value.is_array()`.
    pub fn is_array(&self) -> (r: bool)
        ensures
            r == (jv(*self) is Array),
    {
        match self {
            Json::Array(_) => true,
            _ => false,
        }
    }

    /// `value.is_null()`.
    pub fn is_null(&self) -> (r: bool)
        ensures
            r == (jv(*self) is Null),
    {
        match self {
            Json::Null => true,
            _ => false,
        }
    }

    /// A copy of the document.
    pub fn copy(&self) -> (r: Json)
        ensures
            jv(r) == jv(*self),
        decreases self,
    {
        match self {
            Json::Null => Json::Null,
            Json::Bool(b) => Json::Bool(*b),
            Json::Num(n) => Json::Num(Number { text: n.text.clone(), int: n.int, zero: n.zero }),
            Json::Str(s) => Json::Str(s.clone()),
            Json::Array(v) => {
                let mut out: Vec<Json> = Vec::new();
                let mut i: usize = 0;
                while i < v.len()
                    invariant
                        i <= v.len(),
                        out.len() == i,
                        *self == Json::Array(*v),
                        forall|j: int| 0 <= j < i ==> jv(#[trigger] out[j]) == jv(v[j]),
                    decreases v.len() - i,
                {
                    proof {
                        vstd::std_specs::vec::axiom_vec_index_decreases(*v, i as int);
                        assert(decreases_to!(*self => self->Array_0));
                    }
                    let c = v[i].copy();
                    out.push(c);
                    i = i + 1;
                }
                let r = Json::Array(out);
                assert(jv(r) == jv(*self)) by {
                    if let JsonV::Array(a) = jv(r) {
                        if let JsonV::Array(b) = jv(*self) {
                            assert(a =~= b);
                        }
                    }
                }
                r
            },
            Json::Object(v) => {
                let mut out: Vec<(String, Json)> = Vec::new();
                let mut i: usize = 0;
                while i < v.len()
                    invariant
                        i <= v.len(),
                        out.len() == i,
                        *self == Json::Object(*v),
                        forall|j: int|
                            0 <= j < i ==> (#[trigger] out[j]).0@ == v[j].0@ && jv(out[j].1) == jv(
                                v[j].1,
                            ),
                    decreases v.len() - i,
                {
                    proof {
                        vstd::std_specs::vec::axiom_vec_index_decreases(*v, i as int);
                        assert(decreases_to!(*self => self->Object_0));
                        assert(decreases_to!(v[i as int] => v[i as int].1));
                    }
                    let c = v[i].1.copy();
                    out.push((v[i].0.clone(), c));
                    i = i + 1;
                }
                let r = Json::Object(out);
                assert(jv(r) == jv(*self)) by {
                    if let JsonV::Object(a) = jv(r) {
                        if let JsonV::Object(b) = jv(*self) {
                            assert(a =~= b);
                        }
                    }
                }
                r
            },
        }
    }
}

/// The text of a JSON scalar, as `str(v)` gives it: a string is its own text, a number
/// its JSON text, a boolean `true`/`false`, null `null`; nothing for an
/// array or an object, whose JSON text is left to be rendered.
pub open spec fn str_v(j: JsonV) -> Option<Seq<char>> {
    match j {
        JsonV::Null => Some("null"@),
        JsonV::Bool(b) => Some(
            if b {
                "true"@
            } else {
                "false"@
            },
        ),
        JsonV::Num(t, _, _) => Some(t),
        JsonV::Str(s) => Some(s),
        _ => None,
    }
}

/// The text of a JSON scalar.
pub fn scalar_text(j: &Json) -> (r: Option<String>)
    ensures
        match r {
            Some(t) => str_v(j@) == Some(t@),
            None => str_v(j@) is None,
        },
{
    match j {
        Json::Null => Some(String::from_str("null")),
        Json::Bool(b) => Some(
            if *b {
                String::from_str("true")
            } else {
                String::from_str("false")
            },
        ),
        Json::Num(n) => Some(n.text.clone()),
        Json::Str(s) => Some(s.clone()),
        _ => None,
    }
}

/// The members of an object, copied; none for any other value —
/// `args.as_object().cloned().unwrap_or_default()`.
pub fn members_of(j: &Json) -> (r: Vec<(String, Json)>)
    ensures
        members_v(r@) == members(j@),
{
    match j.copy() {
        Json::Object(m) => {
            proof {
                lemma_jv_object(m);
            }
            m
        },
        _ => {
            let r: Vec<(String, Json)> = Vec::new();
            assert(members_v(r@) =~= Seq::empty());
            r
        },
    }
}

/// `map.insert(k, v)`.
pub fn insert(m: &mut Vec<(String, Json)>, k: &str, v: Json)
    ensures
        members_v(final(m)@) == put(members_v(old(m)@), k@, v@),
{
    let ghost vv = v@;
    match position(m, k) {
        Some(p) => {
            m.set(p, (String::from_str(k), v));
            assert(members_v(m@) =~= members_v(old(m)@).update(p as int, (k@, vv)));
        },
        None => {
            m.push((String::from_str(k), v));
            assert(members_v(m@) =~= members_v(old(m)@).push((k@, vv)));
        },
    }
}

/// `map.remove(k)`.
pub fn remove(m: &mut Vec<(String, Json)>, k: &str)
    ensures
        members_v(final(m)@) == drop_key(members_v(old(m)@), k@),
{
    let ghost src = members_v(m@);
    let mut out: Vec<(String, Json)> = Vec::new();
    let mut i: usize = 0;
    let n = m.len();
    while i < n
        invariant
            n == m.len(),
            i <= n,
            src == members_v(m@),
            members_v(out@) == drop_key(src.take(i as int), k@),
        decreases n - i,
    {
        let e = m[i].1.copy();
        let name = m[i].0.clone();
        assert(src.take(i + 1).drop_last() =~= src.take(i as int));
        if !str_eq(name.as_str(), k) {
            out.push((name, e));
        }
        assert(members_v(out@) =~= drop_key(src.take(i + 1), k@));
        i = i + 1;
    }
    assert(src.take(n as int) =~= src);
    *m = out;
}

/// An integer as a JSON number.
pub open spec fn int_v(i: i64) -> JsonV {
    JsonV::Num(decimal_v(i as int), Some(i), i == 0)
}

pub fn int_json(i: i64) -> (r: Json)
    ensures
        r@ == int_v(i),
{
    Json::Num(Number { text: decimal(i), int: Some(i), zero: i == 0 })
}

/// Every member before the first one named `k` has another name.
proof fn lemma_key_pos_first(m: Seq<(Seq<char>, JsonV)>, k: Seq<char>)
    ensures
        forall|j: int| 0 <= j < key_pos(m, k) ==> m[j].0 != k,
    decreases m.len(),
{
    if m.len() > 0 && m[0].0 != k {
        let t = m.drop_first();
        lemma_key_pos_first(t, k);
        lemma_key_pos_bounds(m, k);
        assert forall|j: int| 0 <= j < key_pos(m, k) implies m[j].0 != k by {
            if j > 0 {
                assert(m[j] == t[j - 1]);
            }
        }
    }
}

/// A read of an object after `put` gives back what was put under that key,
/// and what the object held under every other key.
pub proof fn lemma_put_then_find(m: Seq<(Seq<char>, JsonV)>, k: Seq<char>, v: JsonV, other: Seq<char>)
    ensures
        find_key(put(m, k, v), k) == Some(v),
        other != k ==> find_key(put(m, k, v), other) == find_key(m, other),
{
    lemma_key_pos_bounds(m, k);
    lemma_key_pos_first(m, k);
    lemma_key_pos_bounds(m, other);
    lemma_key_pos_first(m, other);
    let p = key_pos(m, k);
    let n = put(m, k, v);
    assert(forall|j: int| 0 <= j < m.len() ==> n[j].0 == m[j].0);
    if 0 <= p {
        lemma_key_pos_hit(n, k, p);
    } else {
        lemma_key_pos_hit(n, k, m.len() as int);
    }
    if other != k {
        let q = key_pos(m, other);
        if 0 <= q {
            lemma_key_pos_hit(n, other, q);
        } else {
            lemma_key_pos_none(n, other);
        }
    }
}

} // verus!
