//! A JSON document model. The gateway's wire format is defined as a total
//! mapping of each request/response type into this model (see `codec`);
//! turning a document into text and back is plain JSON and happens at the
//! process edge.
//!
//! Numbers are split into integers (`Int`) and raw decimal lexemes (`Num`):
//! the gateway computes only with integer fields (timestamps, indexes) and
//! passes every other number through untouched.
use vstd::prelude::*;

verus! {

broadcast use vstd::std_specs::vec::group_vec_axioms;

/// One JSON document.
#[derive(Debug)]
pub enum Json {
    Null,
    Bool(bool),
    Int(i64),
    /// A non-integer number, kept as its decimal lexeme.
    Num(String),
    Str(String),
    Arr(Vec<Json>),
    Obj(Vec<(String, Json)>),
}

/// Mathematical image of a JSON document.
#[verifier::ext_equal]
pub enum JsonV {
    Null,
    Bool(bool),
    Int(i64),
    Num(Seq<char>),
    Str(Seq<char>),
    Arr(Seq<JsonV>),
    Obj(Seq<(Seq<char>, JsonV)>),
}

/// The image of a document: every lexeme replaced by its character
/// sequence.
pub open spec fn json_view(j: Json) -> JsonV
    decreases j,
{
    match j {
        Json::Null => JsonV::Null,
        Json::Bool(b) => JsonV::Bool(b),
        Json::Int(i) => JsonV::Int(i),
        Json::Num(s) => JsonV::Num(s@),
        Json::Str(s) => JsonV::Str(s@),
        Json::Arr(v) => JsonV::Arr(json_view_seq(v@)),
        Json::Obj(v) => JsonV::Obj(json_view_fields(v@)),
    }
}

/// The images of an array's elements, in order.
pub open spec fn json_view_seq(s: Seq<Json>) -> Seq<JsonV>
    decreases s,
{
    if s.len() == 0 {
        Seq::<JsonV>::empty()
    } else {
        seq![json_view(s[0])] + json_view_seq(s.drop_first())
    }
}

/// The images of an object's fields, in order.
pub open spec fn json_view_fields(s: Seq<(String, Json)>) -> Seq<(Seq<char>, JsonV)>
    decreases s,
{
    if s.len() == 0 {
        Seq::<(Seq<char>, JsonV)>::empty()
    } else {
        seq![(s[0].0@, json_view(s[0].1))] + json_view_fields(s.drop_first())
    }
}

/// An array's image is the elementwise image.
pub proof fn lemma_json_view_seq(s: Seq<Json>)
    ensures
        json_view_seq(s).len() == s.len(),
        forall|i: int| 0 <= i < s.len() ==> json_view_seq(s)[i] == json_view(#[trigger] s[i]),
    decreases s,
{
    if s.len() > 0 {
        lemma_json_view_seq(s.drop_first());
        assert forall|i: int| 0 <= i < s.len() implies json_view_seq(s)[i] == json_view(
            #[trigger] s[i],
        ) by {
            if i > 0 {
                assert(s.drop_first()[i - 1] == s[i]);
            }
        }
    }
}

/// An object's image is the fieldwise image.
pub proof fn lemma_json_view_fields(s: Seq<(String, Json)>)
    ensures
        json_view_fields(s).len() == s.len(),
        forall|i: int| 0 <= i < s.len() ==> json_view_fields(s)[i] == ((#[trigger] s[i]).0@,
            json_view(s[i].1)),
    decreases s,
{
    if s.len() > 0 {
        lemma_json_view_fields(s.drop_first());
        assert forall|i: int| 0 <= i < s.len() implies json_view_fields(s)[i] == ((
        #[trigger] s[i]).0@, json_view(s[i].1)) by {
            if i > 0 {
                assert(s.drop_first()[i - 1] == s[i]);
            }
        }
    }
}

impl DeepView for Json {
    type V = JsonV;

    open spec fn deep_view(&self) -> JsonV {
        json_view(*self)
    }
}

/// Copies a document; the image is unchanged.
pub fn clone_json(j: &Json) -> (r: Json)
    ensures
        r.deep_view() == j.deep_view(),
    decreases *j,
{
    match j {
        Json::Null => Json::Null,
        Json::Bool(b) => Json::Bool(*b),
        Json::Int(i) => Json::Int(*i),
        Json::Num(s) => Json::Num(s.clone()),
        Json::Str(s) => Json::Str(s.clone()),
        Json::Arr(v) => {
            let mut out: Vec<Json> = Vec::new();
            let mut i: usize = 0;
            while i < v.len()
                invariant
                    *j == Json::Arr(*v),
                    i <= v@.len(),
                    out.deep_view() =~= v.deep_view().take(i as int),
                decreases v@.len() - i,
            {
                proof {
                    assert(*v == (*j)->Arr_0);
                    assert(decreases_to!(*j => (*j)->Arr_0));
                    assert(decreases_to!(*v => v@));
                    assert(decreases_to!(v@ => v@[i as int]));
                    assert(decreases_to!(*j => v@[i as int]));
                }
                let c = clone_json(&v[i]);
                let ghost cm = c;
                let ghost pre = out;
                out.push(c);
                proof {
                    crate::lemma_deep_view_push(pre, out, cm);
                    assert(out.deep_view() =~= v.deep_view().take(i + 1));
                }
                i = i + 1;
            }
            proof {
                assert(out.deep_view() =~= v.deep_view());
                assert(*j == Json::Arr(*v));
                lemma_json_view_seq(out@);
                lemma_json_view_seq(v@);
                assert(json_view_seq(out@) =~~= out.deep_view());
                assert(json_view_seq(v@) =~~= v.deep_view());
                assert(Json::Arr(out).deep_view() =~~= json_view(*j));
            }
            Json::Arr(out)
        },
        Json::Obj(v) => {
            let mut out: Vec<(String, Json)> = Vec::new();
            let mut i: usize = 0;
            while i < v.len()
                invariant
                    *j == Json::Obj(*v),
                    i <= v@.len(),
                    out.deep_view() =~= v.deep_view().take(i as int),
                decreases v@.len() - i,
            {
                proof {
                    assert(*v == (*j)->Obj_0);
                    assert(decreases_to!(*j => (*j)->Obj_0));
                    assert(decreases_to!(*v => v@));
                    assert(decreases_to!(v@ => v@[i as int]));
                    assert(decreases_to!(v@[i as int] => v@[i as int].1));
                    assert(decreases_to!(*j => v@[i as int].1));
                }
                let c = (v[i].0.clone(), clone_json(&v[i].1));
                let ghost cm = c;
                let ghost pre = out;
                out.push(c);
                proof {
                    crate::lemma_deep_view_push(pre, out, cm);
                    assert(out.deep_view() =~= v.deep_view().take(i + 1));
                }
                i = i + 1;
            }
            proof {
                assert(out.deep_view() =~= v.deep_view());
                assert(*j == Json::Obj(*v));
                lemma_json_view_fields(out@);
                lemma_json_view_fields(v@);
                assert(json_view_fields(out@) =~~= out.deep_view());
                assert(json_view_fields(v@) =~~= v.deep_view());
                assert(Json::Obj(out).deep_view() =~~= json_view(*j));
            }
            Json::Obj(out)
        },
    }
}

/// The first binding of `key` in an object's field list, if any.
pub open spec fn vlookup(fields: Seq<(Seq<char>, JsonV)>, key: Seq<char>) -> Option<JsonV>
    decreases fields.len(),
{
    if fields.len() == 0 {
        None
    } else if fields[0].0 == key {
        Some(fields[0].1)
    } else {
        vlookup(fields.drop_first(), key)
    }
}

/// Finds the first field named `key`.
pub fn lookup<'a>(fields: &'a Vec<(String, Json)>, key: &String) -> (r: Option<&'a Json>)
    ensures
        match r {
            Some(j) => vlookup(fields.deep_view(), key@) == Some(j.deep_view()),
            None => vlookup(fields.deep_view(), key@) is None,
        },
{
    let ghost dv = fields.deep_view();
    let mut i: usize = 0;
    proof {
        assert(dv.skip(0) =~= dv);
    }
    while i < fields.len()
        invariant
            dv == fields.deep_view(),
            i <= fields@.len(),
            dv.len() == fields@.len(),
            vlookup(dv, key@) == vlookup(dv.skip(i as int), key@),
        decreases fields@.len() - i,
    {
        proof {
            assert(dv.skip(i as int)[0] == dv[i as int]);
            assert(dv.skip(i as int).drop_first() =~= dv.skip(i + 1));
            assert(dv[i as int] == (fields@[i as int].0@, fields@[i as int].1.deep_view()));
        }
        let hit = fields[i].0.eq(key);
        if hit {
            return Some(&fields[i].1);
        }
        i = i + 1;
    }
    proof {
        assert(dv.skip(dv.len() as int) =~= Seq::<(Seq<char>, JsonV)>::empty());
    }
    None
}

} // verus!
