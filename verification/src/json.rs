//! A plain JSON value tree, its mathematical model, and the recursive
//! unwrapping of single-key tagged wrappers that the data store puts around
//! scalars.
//!
//! Numbers that fit `i64` are held as integers; any other numeric literal is
//! held as its decimal text, so the tree itself stays free of machine floats.
use vstd::prelude::*;
use crate::text::str_eq;

verus! {

/// One JSON value. Objects keep their members in order as key/value pairs.
pub enum Json {
    Null,
    Bool(bool),
    Int(i64),
    /// A numeric value that does not fit `i64`, kept as its decimal text.
    Num(String),
    Str(String),
    Arr(Vec<Json>),
    Obj(Vec<(String, Json)>),
}

/// The mathematical model of a JSON value.
pub enum JVal {
    Null,
    Bool(bool),
    Int(i64),
    Num(Seq<char>),
    Str(Seq<char>),
    Arr(Seq<JVal>),
    Obj(Seq<(Seq<char>, JVal)>),
}

/// The model of a JSON value: strings become character sequences and the
/// containers become sequences of models.
pub open spec fn jval(v: Json) -> JVal
    decreases v, 1int,
{
    match v {
        Json::Null => JVal::Null,
        Json::Bool(b) => JVal::Bool(b),
        Json::Int(i) => JVal::Int(i),
        Json::Num(s) => JVal::Num(s@),
        Json::Str(s) => JVal::Str(s@),
        Json::Arr(items) => JVal::Arr(jval_seq(items@)),
        Json::Obj(fields) => JVal::Obj(jval_fields(fields@)),
    }
}

pub open spec fn jval_seq(items: Seq<Json>) -> Seq<JVal>
    decreases items, 0int,
{
    Seq::new(
        items.len(),
        |i: int|
            if 0 <= i < items.len() {
                jval(items[i])
            } else {
                JVal::Null
            },
    )
}

pub open spec fn jval_fields(fields: Seq<(String, Json)>) -> Seq<(Seq<char>, JVal)>
    decreases fields, 0int,
{
    Seq::new(
        fields.len(),
        |i: int|
            if 0 <= i < fields.len() {
                (fields[i].0@, jval(fields[i].1))
            } else {
                (Seq::empty(), JVal::Null)
            },
    )
}

impl Json {
    /// A verified deep copy: the result has the same model as the original.
    pub fn duplicate(&self) -> (r: Json)
        ensures
            jval(r) == jval(*self),
        decreases self,
    {
        match self {
            Json::Null => Json::Null,
            Json::Bool(b) => Json::Bool(*b),
            Json::Int(i) => Json::Int(*i),
            Json::Num(s) => Json::Num(s.clone()),
            Json::Str(s) => Json::Str(s.clone()),
            Json::Arr(items) => {
                let mut out: Vec<Json> = Vec::new();
                let mut i: usize = 0;
                while i < items.len()
                    invariant
                        0 <= i <= items.len(),
                        out@.len() == i,
                        *self == Json::Arr(*items),
                        forall|j: int| 0 <= j < i ==> jval(#[trigger] out@[j]) == jval(items@[j]),
                    decreases items.len() - i,
                {
                    proof {
                        assert(decreases_to!(*self => (*self)->Arr_0));
                        assert((*self)->Arr_0 == *items);
                        assert(decreases_to!(*self => *items));
                        assert(decreases_to!(*items => items@));
                        assert(decreases_to!(items@ => items@[i as int]));
                        assert(decreases_to!(*self => items@[i as int]));
                    }
                    out.push(items[i].duplicate());
                    i += 1;
                }
                proof {
                    assert(jval_seq(out@) =~= jval_seq(items@));
                }
                Json::Arr(out)
            },
            Json::Obj(fields) => {
                let mut out: Vec<(String, Json)> = Vec::new();
                let mut i: usize = 0;
                while i < fields.len()
                    invariant
                        0 <= i <= fields.len(),
                        out@.len() == i,
                        *self == Json::Obj(*fields),
                        forall|j: int|
                            0 <= j < i ==> (#[trigger] out@[j]).0@ == fields@[j].0@ && jval(
                                out@[j].1,
                            ) == jval(fields@[j].1),
                    decreases fields.len() - i,
                {
                    proof {
                        assert(decreases_to!(*self => (*self)->Obj_0));
                        assert((*self)->Obj_0 == *fields);
                        assert(decreases_to!(*self => *fields));
                        assert(decreases_to!(*fields => fields@));
                        assert(decreases_to!(fields@ => fields@[i as int]));
                        assert(decreases_to!(fields@[i as int] => fields@[i as int].1));
                        assert(decreases_to!(*self => fields@[i as int].1));
                    }
                    let key = fields[i].0.clone();
                    let val = fields[i].1.duplicate();
                    out.push((key, val));
                    i += 1;
                }
                proof {
                    assert(jval_fields(out@) =~= jval_fields(fields@));
                }
                Json::Obj(out)
            },
        }
    }
}

/// First member of an object model with the given key, if any.
pub open spec fn spec_obj_get(v: JVal, key: Seq<char>) -> Option<JVal> {
    match v {
        JVal::Obj(fields) => spec_fields_get(fields, key),
        _ => None,
    }
}

pub open spec fn spec_fields_get(fields: Seq<(Seq<char>, JVal)>, key: Seq<char>) -> Option<JVal>
    decreases fields.len(),
{
    if fields.len() == 0 {
        None
    } else if fields[0].0 == key {
        Some(fields[0].1)
    } else {
        spec_fields_get(fields.skip(1), key)
    }
}

/// Member lookup on an object value; `None` on any other kind of value.
pub fn obj_get<'a>(v: &'a Json, key: &str) -> (r: Option<&'a Json>)
    ensures
        match r {
            Some(x) => spec_obj_get(jval(*v), key@) == Some(jval(*x)),
            None => spec_obj_get(jval(*v), key@) is None,
        },
{
    match v {
        Json::Obj(fields) => {
            let mut i: usize = 0;
            proof {
                assert(jval_fields(fields@).skip(0) =~= jval_fields(fields@));
            }
            while i < fields.len()
                invariant
                    0 <= i <= fields.len(),
                    *v == Json::Obj(*fields),
                    spec_obj_get(jval(*v), key@) == spec_fields_get(
                        jval_fields(fields@).skip(i as int),
                        key@,
                    ),
                decreases fields.len() - i,
            {
                proof {
                    assert(jval_fields(fields@).skip(i as int)[0] == jval_fields(fields@)[i as int]);
                }
                if str_eq(fields[i].0.as_str(), key) {
                    return Some(&fields[i].1);
                }
                proof {
                    assert(jval_fields(fields@).skip(i as int).skip(1) =~= jval_fields(
                        fields@,
                    ).skip(i as int + 1));
                }
                i += 1;
            }
            proof {
                assert(jval_fields(fields@).skip(i as int).len() == 0);
            }
            None
        },
        _ => None,
    }
}

/// The string payload of a `Json::Str`, if that is what the value is.
pub fn as_str<'a>(v: &'a Json) -> (r: Option<&'a String>)
    ensures
        match r {
            Some(s) => jval(*v) == JVal::Str(s@),
            None => !(jval(*v) is Str),
        },
{
    match v {
        Json::Str(s) => Some(s),
        _ => None,
    }
}

/// The known wrapper tags the data store uses when it serializes a scalar as
/// a single-key object naming the value's runtime type.
pub open spec fn spec_is_tag_key(k: Seq<char>) -> bool {
    ||| k == "Array"@
    ||| k == "Object"@
    ||| k == "Strand"@
    ||| k == "Number"@
    ||| k == "Bool"@
    ||| k == "Record"@
}

pub fn is_tag_key(k: &str) -> (r: bool)
    ensures
        r == spec_is_tag_key(k@),
{
    str_eq(k, "Array") || str_eq(k, "Object") || str_eq(k, "Strand") || str_eq(k, "Number")
        || str_eq(k, "Bool") || str_eq(k, "Record")
}

/// Recursive unwrap of tagged wrappers: an object with exactly one member
/// whose key is a known tag is replaced by its unwrapped payload, recursively;
/// all other array and object members are unwrapped in place.
pub open spec fn spec_flatten(v: JVal) -> JVal
    decreases v, 1int,
{
    match v {
        JVal::Obj(fields) => {
            if fields.len() == 1 && spec_is_tag_key(fields[0].0) {
                spec_flatten(fields[0].1)
            } else {
                JVal::Obj(spec_flatten_fields(fields))
            }
        },
        JVal::Arr(items) => JVal::Arr(spec_flatten_seq(items)),
        _ => v,
    }
}

pub open spec fn spec_flatten_seq(items: Seq<JVal>) -> Seq<JVal>
    decreases items, 0int,
{
    Seq::new(
        items.len(),
        |i: int|
            if 0 <= i < items.len() {
                spec_flatten(items[i])
            } else {
                JVal::Null
            },
    )
}

pub open spec fn spec_flatten_fields(fields: Seq<(Seq<char>, JVal)>) -> Seq<(Seq<char>, JVal)>
    decreases fields, 0int,
{
    Seq::new(
        fields.len(),
        |i: int|
            if 0 <= i < fields.len() {
                (fields[i].0, spec_flatten(fields[i].1))
            } else {
                (Seq::empty(), JVal::Null)
            },
    )
}

/// No single-key tagged wrapper remains anywhere in the value.
pub open spec fn spec_no_wrappers(v: JVal) -> bool
    decreases v,
{
    match v {
        JVal::Obj(fields) => {
            &&& !(fields.len() == 1 && spec_is_tag_key(fields[0].0))
            &&& forall|i: int| 0 <= i < fields.len() ==> spec_no_wrappers(#[trigger] fields[i].1)
        },
        JVal::Arr(items) => forall|i: int|
            0 <= i < items.len() ==> spec_no_wrappers(#[trigger] items[i]),
        _ => true,
    }
}

/// The unwrapped tree of any value holds no wrapper at any nesting depth.
pub proof fn lemma_flatten_no_wrappers(v: JVal)
    ensures
        spec_no_wrappers(spec_flatten(v)),
    decreases v, 1int,
{
    match v {
        JVal::Obj(fields) => {
            if fields.len() == 1 && spec_is_tag_key(fields[0].0) {
                lemma_flatten_no_wrappers(fields[0].1);
                assert(spec_flatten(v) == spec_flatten(fields[0].1));
            } else {
                lemma_flatten_fields_no_wrappers(fields);
                let ff = spec_flatten_fields(fields);
                assert(spec_flatten(v) == JVal::Obj(ff));
                assert(ff.len() == fields.len());
                if ff.len() == 1 && spec_is_tag_key(ff[0].0) {
                    assert(ff[0].0 == fields[0].0);
                    assert(false);
                }
                assert(spec_no_wrappers(JVal::Obj(ff)));
            }
        },
        JVal::Arr(items) => {
            lemma_flatten_seq_no_wrappers(items);
            let fs = spec_flatten_seq(items);
            assert(spec_flatten(v) == JVal::Arr(fs));
            assert(forall|i: int| 0 <= i < fs.len() ==> spec_no_wrappers(#[trigger] fs[i]));
            assert(spec_no_wrappers(JVal::Arr(fs)));
        },
        _ => {},
    }
}

proof fn lemma_flatten_seq_no_wrappers(items: Seq<JVal>)
    ensures
        forall|i: int|
            0 <= i < spec_flatten_seq(items).len() ==> spec_no_wrappers(
                #[trigger] spec_flatten_seq(items)[i],
            ),
    decreases items, 0int,
{
    assert forall|i: int| 0 <= i < spec_flatten_seq(items).len() implies spec_no_wrappers(
        #[trigger] spec_flatten_seq(items)[i],
    ) by {
        lemma_flatten_no_wrappers(items[i]);
    }
}

proof fn lemma_flatten_fields_no_wrappers(fields: Seq<(Seq<char>, JVal)>)
    ensures
        forall|i: int|
            0 <= i < spec_flatten_fields(fields).len() ==> spec_no_wrappers(
                #[trigger] spec_flatten_fields(fields)[i].1,
            ),
    decreases fields, 0int,
{
    assert forall|i: int| 0 <= i < spec_flatten_fields(fields).len() implies spec_no_wrappers(
        #[trigger] spec_flatten_fields(fields)[i].1,
    ) by {
        lemma_flatten_no_wrappers(fields[i].1);
    }
}

/// Unwraps tagged wrappers exactly as `spec_flatten` states.
pub fn flatten_value(v: &Json) -> (r: Json)
    ensures
        jval(r) == spec_flatten(jval(*v)),
    decreases v,
{
    match v {
        Json::Null => Json::Null,
        Json::Bool(b) => Json::Bool(*b),
        Json::Int(i) => Json::Int(*i),
        Json::Num(s) => Json::Num(s.clone()),
        Json::Str(s) => Json::Str(s.clone()),
        Json::Arr(items) => {
            let mut out: Vec<Json> = Vec::new();
            let mut i: usize = 0;
            while i < items.len()
                invariant
                    0 <= i <= items.len(),
                    out@.len() == i,
                    *v == Json::Arr(*items),
                    forall|j: int|
                        0 <= j < i ==> jval(#[trigger] out@[j]) == spec_flatten(jval(items@[j])),
                decreases items.len() - i,
            {
                proof {
                    assert(decreases_to!(*v => (*v)->Arr_0));
                    assert((*v)->Arr_0 == *items);
                    assert(decreases_to!(*v => *items));
                    assert(decreases_to!(*items => items@));
                    assert(decreases_to!(items@ => items@[i as int]));
                    assert(decreases_to!(*v => items@[i as int]));
                }
                out.push(flatten_value(&items[i]));
                i += 1;
            }
            proof {
                assert(jval_seq(out@) =~= spec_flatten_seq(jval_seq(items@)));
            }
            Json::Arr(out)
        },
        Json::Obj(fields) => {
            if fields.len() == 1 && is_tag_key(fields[0].0.as_str()) {
                proof {
                    assert(decreases_to!(*v => *fields));
                    assert(decreases_to!(*fields => fields@));
                    assert(decreases_to!(fields@ => fields@[0]));
                    assert(decreases_to!(fields@[0] => fields@[0].1));
                    assert(decreases_to!(*v => fields@[0].1));
                    assert(jval_fields(fields@)[0] == (fields@[0].0@, jval(fields@[0].1)));
                }
                flatten_value(&fields[0].1)
            } else {
                let mut out: Vec<(String, Json)> = Vec::new();
                let mut i: usize = 0;
                proof {
                    assert(fields@.len() == 1 ==> jval_fields(fields@)[0].0 == fields@[0].0@);
                }
                while i < fields.len()
                    invariant
                        0 <= i <= fields.len(),
                        out@.len() == i,
                        *v == Json::Obj(*fields),
                        forall|j: int|
                            0 <= j < i ==> (#[trigger] out@[j]).0@ == fields@[j].0@ && jval(
                                out@[j].1,
                            ) == spec_flatten(jval(fields@[j].1)),
                    decreases fields.len() - i,
                {
                    proof {
                        assert(decreases_to!(*v => (*v)->Obj_0));
                        assert((*v)->Obj_0 == *fields);
                        assert(decreases_to!(*v => *fields));
                        assert(decreases_to!(*fields => fields@));
                        assert(decreases_to!(fields@ => fields@[i as int]));
                        assert(decreases_to!(fields@[i as int] => fields@[i as int].1));
                        assert(decreases_to!(*v => fields@[i as int].1));
                    }
                    let key = fields[i].0.clone();
                    let val = flatten_value(&fields[i].1);
                    out.push((key, val));
                    i += 1;
                }
                proof {
                    assert(jval_fields(out@) =~= spec_flatten_fields(jval_fields(fields@)));
                }
                Json::Obj(out)
            }
        },
    }
}

} // verus!
