//! Type-directed binding of client-supplied arguments to query variables,
//! following a tool definition's parameter map.
use vstd::prelude::*;
use crate::json::{Json, JVal, jval, spec_obj_get, obj_get};
use crate::text::str_eq;

verus! {

/// A value bound to one query variable, classified by how the query layer
/// must type it.
pub enum BoundValue {
    /// A string that is a record-reference literal, bound as a reference.
    Record(String),
    /// Any other string, bound as text.
    Text(String),
    /// A number that fits a signed 64-bit integer.
    Int(i64),
    /// Any other numeric value, kept as its decimal text.
    Num(String),
    Bool(bool),
    /// Objects, arrays and null pass through structurally.
    Structured(Json),
}

/// The model of a bound value.
pub enum BoundModel {
    Record(Seq<char>),
    Text(Seq<char>),
    Int(i64),
    Num(Seq<char>),
    Bool(bool),
    Structured(JVal),
}

impl BoundValue {
    pub open spec fn model(&self) -> BoundModel {
        match self {
            BoundValue::Record(s) => BoundModel::Record(s@),
            BoundValue::Text(s) => BoundModel::Text(s@),
            BoundValue::Int(i) => BoundModel::Int(*i),
            BoundValue::Num(s) => BoundModel::Num(s@),
            BoundValue::Bool(b) => BoundModel::Bool(*b),
            BoundValue::Structured(v) => BoundModel::Structured(jval(*v)),
        }
    }
}

/// A character allowed in the plain form of a record-reference part.
pub open spec fn spec_is_ident_char(c: char) -> bool {
    ||| 'a' <= c <= 'z'
    ||| 'A' <= c <= 'Z'
    ||| '0' <= c <= '9'
    ||| c == '_'
}

/// The plain form of a record-reference literal: a non-empty identifier, one
/// colon, and a non-empty identifier (`table:id`).
pub open spec fn spec_is_record_ref(s: Seq<char>) -> bool {
    exists|i: int|
        0 < i < s.len() - 1 && #[trigger] s[i] == ':' && (forall|j: int|
            0 <= j < s.len() && j != i ==> spec_is_ident_char(#[trigger] s[j]))
}

/// Recognizes the plain record-reference form, exactly as
/// `spec_is_record_ref` states.
pub fn is_record_ref(s: &str) -> (r: bool)
    ensures
        r == spec_is_record_ref(s@),
{
    let len = s.unicode_len();
    let mut colon: Option<usize> = None;
    let mut i: usize = 0;
    while i < len
        invariant
            0 <= i <= len,
            len == s@.len(),
            match colon {
                Some(c) => 0 <= c < i && s@[c as int] == ':' && (forall|j: int|
                    0 <= j < i && j != c ==> spec_is_ident_char(#[trigger] s@[j])),
                None => forall|j: int| 0 <= j < i ==> spec_is_ident_char(#[trigger] s@[j]),
            },
        decreases len - i,
    {
        let c = s.get_char(i);
        if c == ':' {
            match colon {
                Some(_) => {
                    proof {
                        lemma_record_ref_unique_colon(s@);
                    }
                    return false;
                },
                None => {
                    colon = Some(i);
                },
            }
        } else {
            let ok = ('a' <= c && c <= 'z') || ('A' <= c && c <= 'Z') || ('0' <= c && c <= '9')
                || c == '_';
            if !ok {
                proof {
                    if spec_is_record_ref(s@) {
                        let k = choose|k: int|
                            0 < k < s@.len() - 1 && #[trigger] s@[k] == ':' && (forall|j: int|
                                0 <= j < s@.len() && j != k ==> spec_is_ident_char(
                                    #[trigger] s@[j],
                                ));
                        assert(s@[i as int] == ':' ==> false);
                    }
                }
                return false;
            }
        }
        i += 1;
    }
    match colon {
        Some(c) => {
            let r = c > 0 && c + 1 < len;
            proof {
                if r {
                    assert(spec_is_record_ref(s@));
                } else {
                    lemma_record_ref_unique_colon(s@);
                }
            }
            r
        },
        None => {
            proof {
                if spec_is_record_ref(s@) {
                    let k = choose|k: int|
                        0 < k < s@.len() - 1 && #[trigger] s@[k] == ':';
                    assert(spec_is_ident_char(s@[k]) ==> false);
                }
            }
            false
        },
    }
}

/// In a record-reference literal the colon position is the only non-identifier
/// character, so any other colon refutes the form.
proof fn lemma_record_ref_unique_colon(s: Seq<char>)
    ensures
        spec_is_record_ref(s) ==> (exists|i: int|
            0 < i < s.len() - 1 && #[trigger] s[i] == ':' && (forall|j: int|
                0 <= j < s.len() && j != i ==> s[j] != ':')),
{
    if spec_is_record_ref(s) {
        let i = choose|i: int|
            0 < i < s.len() - 1 && #[trigger] s[i] == ':' && (forall|j: int|
                0 <= j < s.len() && j != i ==> spec_is_ident_char(#[trigger] s[j]));
        assert forall|j: int| 0 <= j < s.len() && j != i implies s[j] != ':' by {
            assert(spec_is_ident_char(s[j]));
        }
    }
}

/// The type-directed coercion of one argument value: record-reference strings
/// bind as references, other strings as text, numbers by representation,
/// booleans as booleans, and everything else structurally.
pub open spec fn spec_coerce(v: JVal) -> BoundModel {
    match v {
        JVal::Str(s) => if spec_is_record_ref(s) {
            BoundModel::Record(s)
        } else {
            BoundModel::Text(s)
        },
        JVal::Int(i) => BoundModel::Int(i),
        JVal::Num(t) => BoundModel::Num(t),
        JVal::Bool(b) => BoundModel::Bool(b),
        _ => BoundModel::Structured(v),
    }
}

/// Coerces one argument value, exactly as `spec_coerce` states.
pub fn coerce(v: &Json) -> (r: BoundValue)
    ensures
        r.model() == spec_coerce(jval(*v)),
{
    match v {
        Json::Str(s) => {
            if is_record_ref(s.as_str()) {
                BoundValue::Record(s.clone())
            } else {
                BoundValue::Text(s.clone())
            }
        },
        Json::Int(i) => BoundValue::Int(*i),
        Json::Num(t) => BoundValue::Num(t.clone()),
        Json::Bool(b) => BoundValue::Bool(*b),
        _ => BoundValue::Structured(v.duplicate()),
    }
}

/// The bindings a parameter map produces against an argument object: for each
/// mapped argument present in the arguments, in map order, the query variable
/// receives the coerced value; mapped names absent from the arguments are
/// skipped, and unmapped arguments are ignored.
pub open spec fn spec_bind_params(
    param_map: Seq<(Seq<char>, Seq<char>)>,
    args: JVal,
) -> Seq<(Seq<char>, BoundModel)>
    decreases param_map.len(),
{
    if param_map.len() == 0 {
        Seq::empty()
    } else {
        let rest = spec_bind_params(param_map.skip(1), args);
        match spec_obj_get(args, param_map[0].0) {
            Some(v) => seq![(param_map[0].1, spec_coerce(v))] + rest,
            None => rest,
        }
    }
}

/// The model of an exec parameter map.
pub open spec fn spec_param_rows(param_map: Seq<(String, String)>) -> Seq<(Seq<char>, Seq<char>)> {
    param_map.map_values(|p: (String, String)| (p.0@, p.1@))
}

/// The model of exec bindings.
pub open spec fn spec_binding_rows(bindings: Seq<(String, BoundValue)>) -> Seq<
    (Seq<char>, BoundModel),
> {
    bindings.map_values(|b: (String, BoundValue)| (b.0@, b.1.model()))
}

/// Binds every mapped argument present in `args` to its query variable,
/// exactly as `spec_bind_params` states.
pub fn bind_parameters(param_map: &Vec<(String, String)>, args: &Json) -> (r: Vec<
    (String, BoundValue),
>)
    ensures
        spec_binding_rows(r@) == spec_bind_params(spec_param_rows(param_map@), jval(*args)),
{
    let ghost rows = spec_param_rows(param_map@);
    let mut out: Vec<(String, BoundValue)> = Vec::new();
    let mut i: usize = 0;
    proof {
        assert(rows.skip(0) =~= rows);
        assert(spec_binding_rows(out@) =~= Seq::<(Seq<char>, BoundModel)>::empty());
        assert(spec_binding_rows(out@) + spec_bind_params(rows, jval(*args)) =~= spec_bind_params(
            rows,
            jval(*args),
        ));
    }
    while i < param_map.len()
        invariant
            0 <= i <= param_map.len(),
            rows == spec_param_rows(param_map@),
            rows.len() == param_map@.len(),
            spec_binding_rows(out@) + spec_bind_params(rows.skip(i as int), jval(*args))
                =~= spec_bind_params(rows, jval(*args)),
        decreases param_map.len() - i,
    {
        proof {
            assert(rows.skip(i as int)[0] == rows[i as int]);
            assert(rows.skip(i as int).skip(1) =~= rows.skip(i as int + 1));
        }
        match obj_get(args, param_map[i].0.as_str()) {
            Some(v) => {
                let ghost out_before = out@;
                let var = param_map[i].1.clone();
                let bound = coerce(v);
                out.push((var, bound));
                proof {
                    assert(spec_binding_rows(out@) =~= spec_binding_rows(out_before).push(
                        (rows[i as int].1, spec_coerce(jval(*v))),
                    ));
                    assert(spec_binding_rows(out_before).push(
                        (rows[i as int].1, spec_coerce(jval(*v))),
                    ) =~= spec_binding_rows(out_before) + seq![
                        (rows[i as int].1, spec_coerce(jval(*v)))
                    ]);
                }
            },
            None => {},
        }
        i += 1;
    }
    proof {
        assert(rows.skip(i as int).len() == 0);
        assert(spec_bind_params(rows.skip(i as int), jval(*args)) =~= Seq::<
            (Seq<char>, BoundModel),
        >::empty());
        assert(spec_binding_rows(out@) =~= spec_binding_rows(out@) + Seq::<
            (Seq<char>, BoundModel),
        >::empty());
    }
    out
}

} // verus!
