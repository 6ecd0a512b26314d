//! Combining governance rules into the text block that is prepended to
//! resource content.
use vstd::prelude::*;
use crate::entities::Rule;
use crate::text::{spec_dec_int, i64_to_string};

verus! {

/// The line one rule becomes: `- [<kind>] (Priority: <n>): <content>`.
pub open spec fn spec_rule_line(rule_type: Seq<char>, priority: int, content: Seq<char>) -> Seq<
    char,
> {
    "- ["@ + rule_type + "] (Priority: "@ + spec_dec_int(priority) + "): "@ + content
}

/// All rule lines joined with single newlines; empty for no rules.
pub open spec fn spec_combined_rules(rules: Seq<(Seq<char>, int, Seq<char>)>) -> Seq<char>
    decreases rules.len(),
{
    if rules.len() == 0 {
        Seq::empty()
    } else if rules.len() == 1 {
        spec_rule_line(rules[0].0, rules[0].1, rules[0].2)
    } else {
        spec_rule_line(rules[0].0, rules[0].1, rules[0].2) + "\n"@ + spec_combined_rules(
            rules.skip(1),
        )
    }
}

/// The model of a rule row as the combiner sees it.
pub open spec fn spec_rule_row(r: Rule) -> (Seq<char>, int, Seq<char>) {
    (r.rule_type@, r.priority as int, r.content@)
}

fn rule_line(r: &Rule) -> (out: String)
    ensures
        out@ == spec_rule_line(r.rule_type@, r.priority as int, r.content@),
{
    proof {
        reveal_strlit("- [");
        reveal_strlit("] (Priority: ");
        reveal_strlit("): ");
    }
    let mut line = "- [".to_owned();
    line.append(r.rule_type.as_str());
    line.append("] (Priority: ");
    line.append(i64_to_string(r.priority as i64).as_str());
    line.append("): ");
    line.append(r.content.as_str());
    line
}

/// Joins the given rules into one text block, one line per rule in the given
/// order, exactly as `spec_combined_rules` states.
pub fn combine_rules(rules: &Vec<Rule>) -> (out: String)
    ensures
        out@ == spec_combined_rules(rules@.map_values(|r: Rule| spec_rule_row(r))),
{
    proof {
        reveal_strlit("\n");
    }
    let ghost rows = rules@.map_values(|r: Rule| spec_rule_row(r));
    let mut out = String::new();
    let mut i: usize = 0;
    while i < rules.len()
        invariant
            0 <= i <= rules.len(),
            rows == rules@.map_values(|r: Rule| spec_rule_row(r)),
            rows.len() == rules@.len(),
            out@ == spec_combined_rules(rows.take(i as int)) + if 0 < i < rules@.len() {
                "\n"@
            } else {
                Seq::<char>::empty()
            },
        decreases rules.len() - i,
    {
        let line = rule_line(&rules[i]);
        out.append(line.as_str());
        if i + 1 < rules.len() {
            out.append("\n");
        }
        proof {
            lemma_combined_take_step(rows, i as int);
        }
        i += 1;
    }
    proof {
        assert(rows.take(rules@.len() as int) =~= rows);
    }
    out
}

/// Extending the prefix by one rule appends a separator (between lines) and
/// the next line.
proof fn lemma_combined_take_step(rows: Seq<(Seq<char>, int, Seq<char>)>, i: int)
    requires
        0 <= i < rows.len(),
    ensures
        spec_combined_rules(rows.take(i + 1)) == spec_combined_rules(rows.take(i)) + if i == 0 {
            Seq::<char>::empty()
        } else {
            "\n"@
        } + spec_rule_line(rows[i].0, rows[i].1, rows[i].2),
    decreases i,
{
    if i == 0 {
        assert(rows.take(1) =~= seq![rows[0]]);
        assert(rows.take(0) =~= Seq::<(Seq<char>, int, Seq<char>)>::empty());
        assert(spec_combined_rules(rows.take(1)) == spec_rule_line(
            rows[0].0,
            rows[0].1,
            rows[0].2,
        ));
        assert(Seq::<char>::empty() + Seq::<char>::empty() + spec_rule_line(
            rows[0].0,
            rows[0].1,
            rows[0].2,
        ) =~= spec_rule_line(rows[0].0, rows[0].1, rows[0].2));
    } else {
        let a = rows.take(i + 1);
        let b = rows.take(i);
        assert(a.skip(1) =~= rows.skip(1).take(i));
        assert(b.skip(1) =~= rows.skip(1).take(i - 1));
        assert(a[0] == rows[0]);
        assert(b[0] == rows[0]);
        lemma_combined_take_step(rows.skip(1), i - 1);
        assert(rows.skip(1)[i - 1] == rows[i]);
        assert(spec_combined_rules(a) == spec_rule_line(a[0].0, a[0].1, a[0].2) + "\n"@
            + spec_combined_rules(rows.skip(1).take(i)));
        if i == 1 {
            assert(spec_combined_rules(b) == spec_rule_line(b[0].0, b[0].1, b[0].2));
            assert(rows.skip(1).take(1) =~= seq![rows[1]]);
            assert(spec_combined_rules(rows.skip(1).take(i)) == spec_rule_line(
                rows[1].0,
                rows[1].1,
                rows[1].2,
            ));
            assert(spec_combined_rules(rows.take(i + 1)) =~= spec_combined_rules(rows.take(i))
                + "\n"@ + spec_rule_line(rows[i].0, rows[i].1, rows[i].2));
        } else {
            assert(spec_combined_rules(b) == spec_rule_line(b[0].0, b[0].1, b[0].2) + "\n"@
                + spec_combined_rules(rows.skip(1).take(i - 1)));
            assert(spec_combined_rules(rows.skip(1).take(i)) == spec_combined_rules(
                rows.skip(1).take(i - 1),
            ) + "\n"@ + spec_rule_line(rows[i].0, rows[i].1, rows[i].2));
            assert(spec_combined_rules(rows.take(i + 1)) =~= spec_combined_rules(rows.take(i))
                + "\n"@ + spec_rule_line(rows[i].0, rows[i].1, rows[i].2));
        }
    }
}

} // verus!
