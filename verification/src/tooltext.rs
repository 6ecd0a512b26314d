//! The text blocks produced by the built-in tools: semantic search results,
//! the re-indexing summary, governance search results, and the listings.
use vstd::prelude::*;
use crate::json::{Json, JVal, jval, jval_seq};
use crate::builders::{spec_str_member_or, str_member_or};
use crate::wire::{render_json_pretty, spec_render_json_pretty};
use crate::text::{u64_to_string, spec_dec_nat};

verus! {

/// One semantic search hit as the renderer receives it: the score is already
/// formatted by the caller, since the engine holds no machine floats.
pub struct SearchHit {
    pub title: String,
    pub content: String,
    pub score_text: String,
}

/// The model of a hit.
pub struct HitModel {
    pub title: Seq<char>,
    pub content: Seq<char>,
    pub score_text: Seq<char>,
}

impl SearchHit {
    pub open spec fn model(&self) -> HitModel {
        HitModel { title: self.title@, content: self.content@, score_text: self.score_text@ }
    }
}

/// The first `n` characters of a text, or all of it when it is shorter.
pub open spec fn spec_truncate(s: Seq<char>, n: int) -> Seq<char> {
    if s.len() <= n {
        s
    } else {
        s.take(n)
    }
}

fn truncate_chars(s: &str, n: usize) -> (r: String)
    ensures
        r@ == spec_truncate(s@, n as int),
{
    let len = s.unicode_len();
    if len <= n {
        s.to_owned()
    } else {
        s.substring_char(0, n).to_owned()
    }
}

/// One numbered line of semantic results: rank, title, score, and the first
/// 200 characters of the content.
pub open spec fn spec_semantic_line(rank: nat, h: HitModel) -> Seq<char> {
    spec_dec_nat(rank) + ". **"@ + h.title + "** (Score: "@ + h.score_text + ")\n   "@
        + spec_truncate(h.content, 200) + "\n\n"@
}

/// The first `n` hits rendered in order.
pub open spec fn spec_semantic_lines(hits: Seq<HitModel>, n: nat) -> Seq<char>
    decreases n,
{
    if n == 0 || n > hits.len() {
        Seq::empty()
    } else {
        spec_semantic_lines(hits, (n - 1) as nat) + spec_semantic_line(n, hits[n - 1])
    }
}

/// The whole semantic-search block, with a hint when nothing matched.
pub open spec fn spec_semantic_output(hits: Seq<HitModel>) -> Seq<char> {
    "### Semantic Search Results\n\n"@ + if hits.len() == 0 {
        "No relevant documents found. Try running `index-documents` first."@
    } else {
        spec_semantic_lines(hits, hits.len())
    }
}

/// Renders semantic search results, exactly as `spec_semantic_output` states.
pub fn semantic_output(hits: &Vec<SearchHit>) -> (r: String)
    ensures
        r@ == spec_semantic_output(hits@.map_values(|h: SearchHit| h.model())),
{
    proof {
        reveal_strlit("### Semantic Search Results\n\n");
        reveal_strlit("No relevant documents found. Try running `index-documents` first.");
        reveal_strlit(". **");
        reveal_strlit("** (Score: ");
        reveal_strlit(")\n   ");
        reveal_strlit("\n\n");
    }
    let ghost models = hits@.map_values(|h: SearchHit| h.model());
    let mut out = "### Semantic Search Results\n\n".to_owned();
    if hits.len() == 0 {
        out.append("No relevant documents found. Try running `index-documents` first.");
        return out;
    }
    let mut i: usize = 0;
    while i < hits.len()
        invariant
            0 <= i <= hits@.len(),
            models == hits@.map_values(|h: SearchHit| h.model()),
            models.len() == hits@.len(),
            out@ == "### Semantic Search Results\n\n"@ + spec_semantic_lines(models, i as nat),
        decreases hits@.len() - i,
    {
        out.append(u64_to_string((i as u64) + 1).as_str());
        out.append(". **");
        out.append(hits[i].title.as_str());
        out.append("** (Score: ");
        out.append(hits[i].score_text.as_str());
        out.append(")\n   ");
        out.append(truncate_chars(hits[i].content.as_str(), 200).as_str());
        out.append("\n\n");
        i += 1;
    }
    out
}

/// What one stored document contributes to the index: the text to embed and
/// the point's metadata; nothing for a document with empty content.
pub open spec fn spec_index_title(d: JVal) -> Seq<char> {
    spec_str_member_or(d, "title"@, spec_str_member_or(d, "name"@, "Unnamed Document"@))
}

pub open spec fn spec_index_text(d: JVal) -> Seq<char> {
    "Title: "@ + spec_index_title(d) + "\nPhase: "@ + spec_str_member_or(d, "sdlc_phase"@, "unknown"@)
        + "\n\n"@ + spec_str_member_or(d, "content"@, ""@)
}

pub open spec fn spec_index_metadata(d: JVal) -> JVal {
    JVal::Obj(
        seq![
            ("title"@, JVal::Str(spec_index_title(d))),
            ("phase"@, JVal::Str(spec_str_member_or(d, "sdlc_phase"@, "unknown"@))),
            ("doc_id"@, JVal::Str(spec_str_member_or(d, "doc_id"@, ""@))),
        ],
    )
}

/// Prepares one stored document for indexing: `None` for empty content,
/// otherwise the text to embed and the metadata, exactly as `spec_index_text`
/// and `spec_index_metadata` state.
pub fn index_item(d: &Json) -> (r: Option<(String, Json)>)
    ensures
        match r {
            Some(p) => spec_str_member_or(jval(*d), "content"@, ""@).len() > 0 && p.0@
                == spec_index_text(jval(*d)) && jval(p.1) == spec_index_metadata(jval(*d)),
            None => spec_str_member_or(jval(*d), "content"@, ""@).len() == 0,
        },
{
    proof {
        reveal_strlit("Title: ");
        reveal_strlit("\nPhase: ");
        reveal_strlit("\n\n");
        reveal_strlit("");
    }
    let content = str_member_or(d, "content", "");
    if content.as_str().unicode_len() == 0 {
        return None;
    }
    let name = str_member_or(d, "name", "Unnamed Document");
    let title = match crate::json::obj_get(d, "title") {
        Some(x) => match crate::json::as_str(x) {
            Some(s) => s.clone(),
            None => name,
        },
        None => name,
    };
    let phase = str_member_or(d, "sdlc_phase", "unknown");
    let doc_id = str_member_or(d, "doc_id", "");
    let mut text = "Title: ".to_owned();
    text.append(title.as_str());
    text.append("\nPhase: ");
    text.append(phase.as_str());
    text.append("\n\n");
    text.append(content.as_str());
    let mut meta: Vec<(String, Json)> = Vec::new();
    meta.push(("title".to_owned(), Json::Str(title)));
    meta.push(("phase".to_owned(), Json::Str(phase)));
    meta.push(("doc_id".to_owned(), Json::Str(doc_id)));
    proof {
        assert(crate::json::jval_fields(meta@) =~= spec_index_metadata(jval(*d))->Obj_0);
    }
    Some((text, Json::Obj(meta)))
}

/// Error notes joined as a bullet list.
pub open spec fn spec_error_list(errors: Seq<Seq<char>>, n: nat) -> Seq<char>
    decreases n,
{
    if n == 0 || n > errors.len() {
        Seq::empty()
    } else {
        spec_error_list(errors, (n - 1) as nat) + "\n- "@ + errors[n - 1]
    }
}

/// The re-indexing summary: how many documents were indexed, and the list of
/// failures when there were any.
pub open spec fn spec_index_summary(indexed: nat, errors: Seq<Seq<char>>) -> Seq<char> {
    "Successfully indexed "@ + spec_dec_nat(indexed) + " documents into Qdrant."@ + if errors.len()
        > 0 {
        "\n\nEncountered "@ + spec_dec_nat(errors.len()) + " errors:"@ + spec_error_list(
            errors,
            errors.len(),
        )
    } else {
        Seq::empty()
    }
}

/// Renders the re-indexing summary, exactly as `spec_index_summary` states.
pub fn index_summary(indexed: u64, errors: &Vec<String>) -> (r: String)
    ensures
        r@ == spec_index_summary(indexed as nat, errors@.map_values(|e: String| e@)),
{
    proof {
        reveal_strlit("Successfully indexed ");
        reveal_strlit(" documents into Qdrant.");
        reveal_strlit("\n\nEncountered ");
        reveal_strlit(" errors:");
        reveal_strlit("\n- ");
    }
    let ghost msgs = errors@.map_values(|e: String| e@);
    let mut out = "Successfully indexed ".to_owned();
    out.append(u64_to_string(indexed).as_str());
    out.append(" documents into Qdrant.");
    if errors.len() == 0 {
        return out;
    }
    out.append("\n\nEncountered ");
    out.append(u64_to_string(errors.len() as u64).as_str());
    out.append(" errors:");
    let ghost head = out@;
    let mut i: usize = 0;
    while i < errors.len()
        invariant
            0 <= i <= errors@.len(),
            msgs == errors@.map_values(|e: String| e@),
            msgs.len() == errors@.len(),
            out@ == head + spec_error_list(msgs, i as nat),
        decreases errors@.len() - i,
    {
        out.append("\n- ");
        out.append(errors[i].as_str());
        i += 1;
    }
    out
}

/// One documentation hit of the governance search.
pub open spec fn spec_doc_hit_line(h: JVal) -> Seq<char> {
    "### "@ + spec_str_member_or(h, "title"@, "Untitled"@) + " (Project: "@ + spec_str_member_or(
        h,
        "project_name"@,
        "unknown"@,
    ) + ", Phase: "@ + spec_str_member_or(h, "sdlc_phase"@, "none"@) + ")\n"@ + spec_str_member_or(
        h,
        "content"@,
        ""@,
    ) + "\n\n---\n\n"@
}

pub open spec fn spec_doc_hit_lines(hits: Seq<JVal>, n: nat) -> Seq<char>
    decreases n,
{
    if n == 0 || n > hits.len() {
        Seq::empty()
    } else {
        spec_doc_hit_lines(hits, (n - 1) as nat) + spec_doc_hit_line(hits[n - 1])
    }
}

/// One incident hit of the governance search.
pub open spec fn spec_incident_hit_line(h: JVal) -> Seq<char> {
    "### [INCIDENT] "@ + spec_str_member_or(h, "title"@, "Untitled Issue"@) + " (Status: "@
        + spec_str_member_or(h, "status"@, "unknown"@) + ")\n**Project**: "@ + spec_str_member_or(
        h,
        "project_name"@,
        "unknown"@,
    ) + "\n**Symptom**: "@ + spec_str_member_or(h, "symptom"@, ""@) + "\n**Solution**: "@
        + spec_str_member_or(h, "solution"@, "No solution provided"@) + "\n\n---\n\n"@
}

pub open spec fn spec_incident_hit_lines(hits: Seq<JVal>, n: nat) -> Seq<char>
    decreases n,
{
    if n == 0 || n > hits.len() {
        Seq::empty()
    } else {
        spec_incident_hit_lines(hits, (n - 1) as nat) + spec_incident_hit_line(hits[n - 1])
    }
}

/// The governance search block: documentation hits, then incident hits, or a
/// note that neither matched.
pub open spec fn spec_gov_search_output(query: Seq<char>, docs: Seq<JVal>, incs: Seq<JVal>) -> Seq<
    char,
> {
    "Found results for '"@ + query + "':\n\n"@ + (if docs.len() > 0 {
        "## Documentation Hits\n"@ + spec_doc_hit_lines(docs, docs.len())
    } else {
        Seq::empty()
    }) + (if incs.len() > 0 {
        "## Incident Hits (Knowledge Base)\n"@ + spec_incident_hit_lines(incs, incs.len())
    } else {
        Seq::empty()
    }) + (if docs.len() == 0 && incs.len() == 0 {
        "No results found in Documentation or Incident logs."@
    } else {
        Seq::empty()
    })
}

/// Renders the governance search results, exactly as `spec_gov_search_output`
/// states.
pub fn gov_search_output(query: &str, docs: &Vec<Json>, incs: &Vec<Json>) -> (r: String)
    ensures
        r@ == spec_gov_search_output(query@, jval_seq(docs@), jval_seq(incs@)),
{
    proof {
        reveal_strlit("Found results for '");
        reveal_strlit("':\n\n");
        reveal_strlit("## Documentation Hits\n");
        reveal_strlit("## Incident Hits (Knowledge Base)\n");
        reveal_strlit("No results found in Documentation or Incident logs.");
        reveal_strlit("### ");
        reveal_strlit(" (Project: ");
        reveal_strlit(", Phase: ");
        reveal_strlit(")\n");
        reveal_strlit("\n\n---\n\n");
        reveal_strlit("### [INCIDENT] ");
        reveal_strlit(" (Status: ");
        reveal_strlit(")\n**Project**: ");
        reveal_strlit("\n**Symptom**: ");
        reveal_strlit("\n**Solution**: ");
    }
    let ghost dm = jval_seq(docs@);
    let ghost im = jval_seq(incs@);
    let mut out = "Found results for '".to_owned();
    out.append(query);
    out.append("':\n\n");
    if docs.len() > 0 {
        out.append("## Documentation Hits\n");
        let ghost head = out@;
        let mut i: usize = 0;
        while i < docs.len()
            invariant
                0 <= i <= docs@.len(),
                dm == jval_seq(docs@),
                dm.len() == docs@.len(),
                out@ == head + spec_doc_hit_lines(dm, i as nat),
            decreases docs@.len() - i,
        {
            let mut line = "### ".to_owned();
            line.append(str_member_or(&docs[i], "title", "Untitled").as_str());
            line.append(" (Project: ");
            line.append(str_member_or(&docs[i], "project_name", "unknown").as_str());
            line.append(", Phase: ");
            line.append(str_member_or(&docs[i], "sdlc_phase", "none").as_str());
            line.append(")\n");
            line.append(str_member_or(&docs[i], "content", "").as_str());
            line.append("\n\n---\n\n");
            out.append(line.as_str());
            i += 1;
        }
    }
    if incs.len() > 0 {
        out.append("## Incident Hits (Knowledge Base)\n");
        let ghost head = out@;
        let mut i: usize = 0;
        while i < incs.len()
            invariant
                0 <= i <= incs@.len(),
                im == jval_seq(incs@),
                im.len() == incs@.len(),
                out@ == head + spec_incident_hit_lines(im, i as nat),
            decreases incs@.len() - i,
        {
            let mut line = "### [INCIDENT] ".to_owned();
            line.append(str_member_or(&incs[i], "title", "Untitled Issue").as_str());
            line.append(" (Status: ");
            line.append(str_member_or(&incs[i], "status", "unknown").as_str());
            line.append(")\n**Project**: ");
            line.append(str_member_or(&incs[i], "project_name", "unknown").as_str());
            line.append("\n**Symptom**: ");
            line.append(str_member_or(&incs[i], "symptom", "").as_str());
            line.append("\n**Solution**: ");
            line.append(str_member_or(&incs[i], "solution", "No solution provided").as_str());
            line.append("\n\n---\n\n");
            out.append(line.as_str());
            i += 1;
        }
    }
    if docs.len() == 0 && incs.len() == 0 {
        out.append("No results found in Documentation or Incident logs.");
    }
    out
}

/// The project listing block.
pub open spec fn spec_projects_output(rows: Seq<JVal>) -> Seq<char> {
    "Available Projects:\n```json\n"@ + spec_render_json_pretty(JVal::Arr(rows)) + "\n```"@
}

pub fn projects_output(rows: Vec<Json>) -> (r: String)
    ensures
        r@ == spec_projects_output(jval_seq(rows@)),
{
    proof {
        reveal_strlit("Available Projects:\n```json\n");
        reveal_strlit("\n```");
    }
    let mut out = "Available Projects:\n```json\n".to_owned();
    out.append(render_json_pretty(&Json::Arr(rows)).as_str());
    out.append("\n```");
    out
}

/// The documentation index block.
pub open spec fn spec_documents_output(rows: Seq<JVal>) -> Seq<char> {
    "Documentation Index:\n```json\n"@ + spec_render_json_pretty(JVal::Arr(rows)) + "\n```"@
}

pub fn documents_output(rows: Vec<Json>) -> (r: String)
    ensures
        r@ == spec_documents_output(jval_seq(rows@)),
{
    proof {
        reveal_strlit("Documentation Index:\n```json\n");
        reveal_strlit("\n```");
    }
    let mut out = "Documentation Index:\n```json\n".to_owned();
    out.append(render_json_pretty(&Json::Arr(rows)).as_str());
    out.append("\n```");
    out
}

/// The tech-stack block: the stored document's content, or a note that it is
/// missing.
pub open spec fn spec_tech_stack_output(first: Option<JVal>) -> Seq<char> {
    match first {
        Some(v) => spec_str_member_or(v, "content"@, "Global Tech Stack document not found."@),
        None => "Global Tech Stack document not found."@,
    }
}

pub fn tech_stack_output(rows: &Vec<Json>) -> (r: String)
    ensures
        r@ == spec_tech_stack_output(
            if rows@.len() > 0 {
                Some(jval_seq(rows@)[0])
            } else {
                None
            },
        ),
{
    proof {
        reveal_strlit("Global Tech Stack document not found.");
    }
    if rows.len() > 0 {
        proof {
            assert(jval_seq(rows@)[0] == jval(rows@[0]));
        }
        str_member_or(&rows[0], "content", "Global Tech Stack document not found.")
    } else {
        "Global Tech Stack document not found.".to_owned()
    }
}

} // verus!
