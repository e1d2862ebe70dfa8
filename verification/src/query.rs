//! Query parameters and resolved mappings built from JSON objects.
use vstd::prelude::*;
use crate::args::{listed, names};
use crate::http::{param_of, param_v, query_v, Param, ParamV};
use crate::json::{elems_v, jget, jv, lemma_jv_array, lemma_jv_object, members, members_of, members_v, or_null, Json, JsonV};

verus! {

/// The query pairs of one array argument: one per element, a null dropped.
pub open spec fn items_v(k: Seq<char>, a: Seq<JsonV>) -> Seq<(Seq<char>, ParamV)>
    decreases a.len(),
{
    if a.len() == 0 {
        Seq::empty()
    } else {
        let r = items_v(k, a.drop_last());
        if a.last() is Null {
            r
        } else {
            r.push((k, param_v(a.last())))
        }
    }
}

/// The query pairs of one argument: an array becomes one pair per element,
/// every other value one pair, and a null none.
pub open spec fn pairs_v(k: Seq<char>, v: JsonV) -> Seq<(Seq<char>, ParamV)> {
    match v {
        JsonV::Array(a) => items_v(k, a),
        JsonV::Null => Seq::empty(),
        _ => seq![(k, param_v(v))],
    }
}

/// Whether the key is wanted: with `only`, one of `ks`; else none of them.
pub open spec fn wanted(k: Seq<char>, ks: Seq<Seq<char>>, only: bool) -> bool {
    if only {
        ks.contains(k)
    } else {
        !ks.contains(k)
    }
}

/// The query pairs of the wanted members of an args object, in order.
pub open spec fn spread_v(m: Seq<(Seq<char>, JsonV)>, ks: Seq<Seq<char>>, only: bool) -> Seq<
    (Seq<char>, ParamV),
>
    decreases m.len(),
{
    if m.len() == 0 {
        Seq::empty()
    } else {
        let r = spread_v(m.drop_last(), ks, only);
        if wanted(m.last().0, ks, only) {
            r + pairs_v(m.last().0, m.last().1)
        } else {
            r
        }
    }
}

fn push_pairs(out: &mut Vec<(String, Param)>, k: &String, v: &Json)
    ensures
        query_v(final(out)@) == query_v(old(out)@) + pairs_v(k@, v@),
{
    let ghost start = query_v(out@);
    match v {
        Json::Array(a) => {
            let ghost av = elems_v(a@);
            proof {
                lemma_jv_array(*a);
            }
            let mut i: usize = 0;
            while i < a.len()
                invariant
                    i <= a.len(),
                    av.len() == a.len(),
                    forall|j: int| 0 <= j < a.len() ==> av[j] == jv(#[trigger] a[j]),
                    query_v(out@) == start + items_v(k@, av.take(i as int)),
                decreases a.len() - i,
            {
                assert(av.take(i + 1).drop_last() =~= av.take(i as int));
                assert(av.take(i + 1).last() == av[i as int]);
                let ghost before = out@;
                if !a[i].is_null() {
                    out.push((k.clone(), param_of(&a[i])));
                    assert(query_v(out@) =~= query_v(before).push((k@, param_v(av[i as int]))));
                } else {
                    assert(av[i as int] is Null);
                }
                assert(query_v(out@) =~= start + items_v(k@, av.take(i + 1)));
                i = i + 1;
            }
            assert(av.take(a.len() as int) =~= av);
        },
        Json::Null => {
            assert(query_v(out@) =~= start + pairs_v(k@, v@));
        },
        _ => {
            out.push((k.clone(), param_of(v)));
            assert(query_v(out@) =~= start + pairs_v(k@, v@));
        },
    }
}

/// Query parameters from the args object, each wanted key in turn.
pub fn spread(args: &Json, ks: &[&str], only: bool) -> (r: Vec<(String, Param)>)
    ensures
        query_v(r@) == spread_v(members(args@), names(ks@), only),
{
    let m = members_of(args);
    let ghost src = members_v(m@);
    let mut out: Vec<(String, Param)> = Vec::new();
    let mut i: usize = 0;
    while i < m.len()
        invariant
            i <= m.len(),
            src == members_v(m@),
            query_v(out@) == spread_v(src.take(i as int), names(ks@), only),
        decreases m.len() - i,
    {
        assert(src.take(i + 1).drop_last() =~= src.take(i as int));
        let hit = listed(m[i].0.as_str(), ks);
        if hit == only {
            push_pairs(&mut out, &m[i].0, &m[i].1);
        }
        i = i + 1;
    }
    assert(src.take(m.len() as int) =~= src);
    out
}

/// A resolved mapping: exactly these keys, an absent one as JSON null.
pub open spec fn pick_v(j: JsonV, ks: Seq<Seq<char>>) -> JsonV {
    JsonV::Object(Seq::new(ks.len(), |i: int| (ks[i], or_null(jget(j, ks[i])))))
}

pub fn pick(j: &Json, ks: &[&str]) -> (r: Json)
    ensures
        r@ == pick_v(j@, names(ks@)),
{
    let mut out: Vec<(String, Json)> = Vec::new();
    let mut i: usize = 0;
    while i < ks.len()
        invariant
            i <= ks@.len(),
            members_v(out@) == Seq::new(
                i as nat,
                |n: int| (names(ks@)[n], or_null(jget(j@, names(ks@)[n]))),
            ),
        decreases ks@.len() - i,
    {
        let v = match j.get(ks[i]) {
            Some(x) => x.copy(),
            None => Json::Null,
        };
        let ghost before = out@;
        let ghost vv = v@;
        out.push((String::from_str(ks[i]), v));
        assert(names(ks@)[i as int] == ks@[i as int]@);
        assert(members_v(out@) =~= members_v(before).push((ks@[i as int]@, vv)));
        assert(members_v(out@) =~= Seq::new(
            (i + 1) as nat,
            |n: int| (names(ks@)[n], or_null(jget(j@, names(ks@)[n]))),
        ));
        i = i + 1;
    }
    proof {
        lemma_jv_object(out);
        assert(members_v(out@) =~= members(pick_v(j@, names(ks@))));
    }
    Json::Object(out)
}

/// A resolved mapping that names its keys: those of them the value carries,
/// in the schema's order.
pub open spec fn pick_present_v(j: JsonV, ks: Seq<Seq<char>>) -> Seq<(Seq<char>, JsonV)>
    decreases ks.len(),
{
    if ks.len() == 0 {
        Seq::empty()
    } else {
        let r = pick_present_v(j, ks.drop_last());
        match jget(j, ks.last()) {
            Some(v) => r.push((ks.last(), v)),
            None => r,
        }
    }
}

pub fn pick_present(j: &Json, ks: &[&str]) -> (r: Json)
    ensures
        r@ == JsonV::Object(pick_present_v(j@, names(ks@))),
{
    let mut out: Vec<(String, Json)> = Vec::new();
    let mut i: usize = 0;
    while i < ks.len()
        invariant
            i <= ks@.len(),
            members_v(out@) == pick_present_v(j@, names(ks@).take(i as int)),
        decreases ks@.len() - i,
    {
        assert(names(ks@).take(i + 1).drop_last() =~= names(ks@).take(i as int));
        match j.get(ks[i]) {
            Some(x) => {
                out.push((String::from_str(ks[i]), x.copy()));
            },
            None => {},
        }
        assert(members_v(out@) =~= pick_present_v(j@, names(ks@).take(i + 1)));
        i = i + 1;
    }
    assert(names(ks@).take(ks@.len() as int) =~= names(ks@));
    proof {
        lemma_jv_object(out);
    }
    Json::Object(out)
}

/// The query pairs of the named args, key by key in the order named: an
/// array one pair per element, a null or an absent key none.
pub open spec fn keyed_v(args: JsonV, ks: Seq<Seq<char>>) -> Seq<(Seq<char>, ParamV)>
    decreases ks.len(),
{
    if ks.len() == 0 {
        Seq::empty()
    } else {
        let r = keyed_v(args, ks.drop_last());
        match jget(args, ks.last()) {
            Some(v) => r + pairs_v(ks.last(), v),
            None => r,
        }
    }
}

pub fn keyed(args: &Json, ks: &[&str]) -> (r: Vec<(String, Param)>)
    ensures
        query_v(r@) == keyed_v(args@, names(ks@)),
{
    let mut out: Vec<(String, Param)> = Vec::new();
    let mut i: usize = 0;
    while i < ks.len()
        invariant
            i <= ks@.len(),
            query_v(out@) == keyed_v(args@, names(ks@).take(i as int)),
        decreases ks@.len() - i,
    {
        assert(names(ks@).take(i + 1).drop_last() =~= names(ks@).take(i as int));
        assert(names(ks@).take(i + 1).last() == ks@[i as int]@);
        match args.get(ks[i]) {
            Some(v) => {
                let k = String::from_str(ks[i]);
                push_pairs(&mut out, &k, v);
            },
            None => {},
        }
        i = i + 1;
    }
    assert(names(ks@).take(ks@.len() as int) =~= names(ks@));
    out
}

/// The query pairs of the named args, key by key in the order named: one
/// pair `str(value)` per key, none for a null or an absent key.
pub open spec fn named_v(args: JsonV, ks: Seq<Seq<char>>) -> Seq<(Seq<char>, ParamV)>
    decreases ks.len(),
{
    if ks.len() == 0 {
        Seq::empty()
    } else {
        let r = named_v(args, ks.drop_last());
        match jget(args, ks.last()) {
            Some(JsonV::Null) => r,
            Some(v) => r.push((ks.last(), param_v(v))),
            None => r,
        }
    }
}

pub fn named(args: &Json, ks: &[&str]) -> (r: Vec<(String, Param)>)
    ensures
        query_v(r@) == named_v(args@, names(ks@)),
{
    let mut out: Vec<(String, Param)> = Vec::new();
    let mut i: usize = 0;
    while i < ks.len()
        invariant
            i <= ks@.len(),
            query_v(out@) == named_v(args@, names(ks@).take(i as int)),
        decreases ks@.len() - i,
    {
        assert(names(ks@).take(i + 1).drop_last() =~= names(ks@).take(i as int));
        assert(names(ks@).take(i + 1).last() == ks@[i as int]@);
        let ghost before = query_v(out@);
        match args.get(ks[i]) {
            Some(v) => if !v.is_null() {
                out.push((String::from_str(ks[i]), param_of(v)));
                assert(query_v(out@) =~= before.push((ks@[i as int]@, param_v(v@))));
            },
            None => {},
        }
        i = i + 1;
    }
    assert(names(ks@).take(ks@.len() as int) =~= names(ks@));
    out
}

} // verus!
