//! Normalizing query results: concatenating statement result sets under the
//! safety cap, the scalar fallback, recursive unwrapping, and the final text
//! output of a tool call.
use vstd::prelude::*;
use crate::json::{
    Json, JVal, jval, jval_seq, spec_flatten, spec_flatten_seq, flatten_value,
};
use crate::wire::{render_json_pretty, spec_render_json_pretty};

verus! {

/// No statement's results are read beyond this many result sets, to keep
/// iteration against a malformed template bounded.
pub const STATEMENT_CAP: usize = 50;

/// The values of one result set that are kept: every non-null row.
pub open spec fn spec_non_null(s: Seq<JVal>) -> Seq<JVal> {
    s.filter(|v: JVal| !(v is Null))
}

/// The concatenation of statement result sets from position `i` on: empty
/// sets before the first non-empty one are passed over, an empty set after a
/// non-empty one stops the walk, and no set at or beyond the cap is read.
pub open spec fn spec_collect_from(sets: Seq<Seq<JVal>>, i: int, seen: bool) -> Seq<JVal>
    decreases STATEMENT_CAP - i,
{
    if i < 0 || i >= sets.len() || i >= STATEMENT_CAP {
        Seq::empty()
    } else if sets[i].len() == 0 {
        if seen {
            Seq::empty()
        } else {
            spec_collect_from(sets, i + 1, false)
        }
    } else {
        spec_non_null(sets[i]) + spec_collect_from(sets, i + 1, true)
    }
}

/// All rows the walk keeps, from the beginning.
pub open spec fn spec_collect(sets: Seq<Seq<JVal>>) -> Seq<JVal> {
    spec_collect_from(sets, 0, false)
}

/// The rows a query yields: the collected rows, or, where no statement gave
/// any, the first statement's scalar value when there is a non-null one.
pub open spec fn spec_final_results(sets: Seq<Seq<JVal>>, scalar: Option<JVal>) -> Seq<JVal> {
    let c = spec_collect(sets);
    if c.len() > 0 {
        c
    } else {
        match scalar {
            Some(v) => if v is Null {
                Seq::empty()
            } else {
                seq![v]
            },
            None => Seq::empty(),
        }
    }
}

/// The text a tool call emits: a single bare string verbatim; anything else
/// as a labelled, pretty-printed JSON code block.
pub open spec fn spec_render_output(results: Seq<JVal>, label: Seq<char>) -> Seq<char> {
    if results.len() == 1 && results[0] is Str {
        results[0]->Str_0
    } else {
        label + ":\n```json\n"@ + spec_render_json_pretty(JVal::Arr(results)) + "\n```"@
    }
}

/// The whole normalization of a query outcome: collect under the cap, fall
/// back to the first scalar, unwrap every tagged wrapper, and render.
pub open spec fn spec_normalized_output(
    sets: Seq<Seq<JVal>>,
    scalar: Option<JVal>,
    label: Seq<char>,
) -> Seq<char> {
    spec_render_output(spec_flatten_seq(spec_final_results(sets, scalar)), label)
}

/// The model of exec result sets.
pub open spec fn spec_sets(sets: Seq<Vec<Json>>) -> Seq<Seq<JVal>> {
    sets.map_values(|s: Vec<Json>| jval_seq(s@))
}

/// Collects the non-null rows of the result sets under the cap, exactly as
/// `spec_collect` states.
pub fn collect_results(sets: &Vec<Vec<Json>>) -> (r: Vec<Json>)
    ensures
        jval_seq(r@) == spec_collect(spec_sets(sets@)),
{
    let ghost m = spec_sets(sets@);
    let mut out: Vec<Json> = Vec::new();
    let mut i: usize = 0;
    let mut seen: bool = false;
    proof {
        assert(jval_seq(out@) =~= Seq::<JVal>::empty());
        assert(jval_seq(out@) + spec_collect_from(m, 0, false) =~= spec_collect_from(m, 0, false));
    }
    while i < sets.len() && i < STATEMENT_CAP
        invariant
            0 <= i <= sets.len(),
            m == spec_sets(sets@),
            m.len() == sets@.len(),
            jval_seq(out@) + spec_collect_from(m, i as int, seen) =~= spec_collect(m),
            seen ==> i <= STATEMENT_CAP,
        decreases sets.len() - i,
    {
        let set = &sets[i];
        proof {
            assert(m[i as int] == jval_seq(sets@[i as int]@));
        }
        if set.len() == 0 {
            if seen {
                proof {
                    assert(spec_collect_from(m, i as int, true) =~= Seq::<JVal>::empty());
                    assert(jval_seq(out@) + Seq::<JVal>::empty() =~= jval_seq(out@));
                }
                return out;
            }
        } else {
            let ghost out_at_set_start = out@;
            let mut j: usize = 0;
            proof {
                reveal(Seq::filter);
                assert(jval_seq(sets@[i as int]@).take(0) =~= Seq::<JVal>::empty());
                assert(spec_non_null(jval_seq(sets@[i as int]@).take(0)) =~= Seq::<JVal>::empty());
                assert(jval_seq(out@) =~= jval_seq(out_at_set_start) + spec_non_null(
                    jval_seq(sets@[i as int]@).take(0),
                ));
            }
            while j < set.len()
                invariant
                    0 <= j <= set.len(),
                    set == &sets@[i as int],
                    0 <= i < sets@.len(),
                    jval_seq(out@) =~= jval_seq(out_at_set_start) + spec_non_null(
                        jval_seq(sets@[i as int]@).take(j as int),
                    ),
                decreases set.len() - j,
            {
                let ghost pre = jval_seq(sets@[i as int]@).take(j as int);
                let ghost cur = jval_seq(sets@[i as int]@).take(j as int + 1);
                proof {
                    reveal(Seq::filter);
                    assert(cur.drop_last() =~= pre);
                    assert(cur.last() == jval(set@[j as int]));
                }
                let is_null = match &set[j] {
                    Json::Null => true,
                    _ => false,
                };
                if !is_null {
                    let ghost before = out@;
                    out.push(set[j].duplicate());
                    proof {
                        assert(jval_seq(out@) =~= jval_seq(before).push(jval(set@[j as int])));
                        assert(spec_non_null(cur) =~= spec_non_null(pre).push(
                            jval(set@[j as int]),
                        ));
                        assert(jval_seq(before).push(jval(set@[j as int])) =~= jval_seq(
                            out_at_set_start,
                        ) + spec_non_null(cur));
                    }
                } else {
                    proof {
                        assert(spec_non_null(cur) =~= spec_non_null(pre));
                    }
                }
                j += 1;
            }
            proof {
                assert(jval_seq(sets@[i as int]@).take(set@.len() as int) =~= jval_seq(
                    sets@[i as int]@,
                ));
                assert(jval_seq(out@) =~= jval_seq(out_at_set_start) + spec_non_null(m[i as int]));
                assert(spec_collect_from(m, i as int, seen) =~= spec_non_null(m[i as int])
                    + spec_collect_from(m, i as int + 1, true));
            }
            seen = true;
        }
        i += 1;
    }
    proof {
        assert(spec_collect_from(m, i as int, seen) =~= Seq::<JVal>::empty());
        assert(jval_seq(out@) + Seq::<JVal>::empty() =~= jval_seq(out@));
    }
    out
}

/// Applies the scalar fallback to collected rows, exactly as
/// `spec_final_results` states.
pub fn final_results(sets: &Vec<Vec<Json>>, scalar: Option<&Json>) -> (r: Vec<Json>)
    ensures
        jval_seq(r@) == spec_final_results(
            spec_sets(sets@),
            match scalar {
                Some(v) => Some(jval(*v)),
                None => None,
            },
        ),
{
    let collected = collect_results(sets);
    if collected.len() > 0 {
        collected
    } else {
        match scalar {
            Some(v) => match v {
                Json::Null => {
                    proof {
                        assert(jval_seq(collected@) =~= Seq::<JVal>::empty());
                    }
                    collected
                },
                _ => {
                    let mut one: Vec<Json> = Vec::new();
                    one.push(v.duplicate());
                    proof {
                        assert(jval_seq(one@) =~= seq![jval(*v)]);
                    }
                    one
                },
            },
            None => {
                proof {
                    assert(jval_seq(collected@) =~= Seq::<JVal>::empty());
                }
                collected
            },
        }
    }
}

/// Unwraps every row, exactly as `spec_flatten_seq` states.
pub fn flatten_results(rows: &Vec<Json>) -> (r: Vec<Json>)
    ensures
        jval_seq(r@) == spec_flatten_seq(jval_seq(rows@)),
{
    let mut out: Vec<Json> = Vec::new();
    let mut i: usize = 0;
    while i < rows.len()
        invariant
            0 <= i <= rows.len(),
            out@.len() == i,
            forall|j: int|
                0 <= j < i ==> jval(#[trigger] out@[j]) == spec_flatten(jval(rows@[j])),
        decreases rows.len() - i,
    {
        out.push(flatten_value(&rows[i]));
        i += 1;
    }
    proof {
        assert(jval_seq(out@) =~= spec_flatten_seq(jval_seq(rows@)));
    }
    out
}

/// Renders normalized rows: one bare string verbatim, otherwise a labelled
/// pretty JSON block, exactly as `spec_render_output` states.
pub fn render_output(rows: Vec<Json>, label: &str) -> (r: String)
    ensures
        r@ == spec_render_output(jval_seq(rows@), label@),
{
    proof {
        reveal_strlit(":\n```json\n");
        reveal_strlit("\n```");
    }
    if rows.len() == 1 {
        let only_str: bool = match &rows[0] {
            Json::Str(_) => true,
            _ => false,
        };
        if only_str {
            match &rows[0] {
                Json::Str(s) => {
                    proof {
                        assert(jval_seq(rows@)[0] == jval(rows@[0]));
                    }
                    return s.clone();
                },
                _ => {},
            }
        }
    }
    proof {
        if jval_seq(rows@).len() == 1 {
            assert(jval_seq(rows@)[0] == jval(rows@[0]));
        }
    }
    let mut out = label.to_owned();
    out.append(":\n```json\n");
    let pretty = render_json_pretty(&Json::Arr(rows));
    out.append(pretty.as_str());
    out.append("\n```");
    out
}

/// The full normalization pipeline of a query outcome, exactly as
/// `spec_normalized_output` states.
pub fn normalized_output(sets: &Vec<Vec<Json>>, scalar: Option<&Json>, label: &str) -> (r: String)
    ensures
        r@ == spec_normalized_output(
            spec_sets(sets@),
            match scalar {
                Some(v) => Some(jval(*v)),
                None => None,
            },
            label@,
        ),
{
    let kept = final_results(sets, scalar);
    let flat = flatten_results(&kept);
    render_output(flat, label)
}

/// The walk never keeps rows from more than the first `STATEMENT_CAP`
/// statement result sets: on sets that are all non-empty, everything past the
/// cap is ignored.
pub proof fn lemma_collect_caps(sets: Seq<Seq<JVal>>)
    requires
        forall|i: int| 0 <= i < sets.len() ==> (#[trigger] sets[i]).len() > 0,
    ensures
        spec_collect(sets) == spec_collect(sets.take(
            if sets.len() < STATEMENT_CAP {
                sets.len() as int
            } else {
                STATEMENT_CAP as int
            },
        )),
{
    let cut = if sets.len() < STATEMENT_CAP {
        sets.len() as int
    } else {
        STATEMENT_CAP as int
    };
    lemma_collect_from_take(sets, 0, false, cut);
}

proof fn lemma_collect_from_take(sets: Seq<Seq<JVal>>, i: int, seen: bool, cut: int)
    requires
        forall|k: int| 0 <= k < sets.len() ==> (#[trigger] sets[k]).len() > 0,
        cut == if sets.len() < STATEMENT_CAP {
            sets.len() as int
        } else {
            STATEMENT_CAP as int
        },
        0 <= i,
    ensures
        spec_collect_from(sets, i, seen) == spec_collect_from(sets.take(cut), i, seen),
    decreases STATEMENT_CAP - i,
{
    let t = sets.take(cut);
    if i >= sets.len() || i >= STATEMENT_CAP {
        assert(i >= t.len() || i >= STATEMENT_CAP);
    } else if i >= cut {
        assert(i >= t.len());
        assert(spec_collect_from(t, i, seen) =~= Seq::<JVal>::empty());
        assert(i >= STATEMENT_CAP);
    } else {
        assert(t[i] == sets[i]);
        lemma_collect_from_take(sets, i + 1, true, cut);
    }
}

} // verus!
