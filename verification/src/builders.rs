//! Builders of the engine's replies: the handshake result, catalog listings,
//! resource contents, tool-result envelopes, and the text blocks of the
//! built-in tools. Each builder's exact output is stated by a spec function.
use vstd::prelude::*;
use crate::json::{Json, JVal, jval, jval_seq, jval_fields, spec_obj_get, obj_get, as_str};
use crate::entities::{GovernanceDocument, Tool};

verus! {

/// The `initialize` result: fixed protocol version, the capability set, and
/// the server identity.
pub open spec fn spec_initialize_result() -> JVal {
    JVal::Obj(
        seq![
            ("protocolVersion"@, JVal::Str("2024-11-05"@)),
            (
                "capabilities"@,
                JVal::Obj(
                    seq![
                        ("tools"@, JVal::Obj(Seq::empty())),
                        ("resources"@, JVal::Obj(Seq::empty())),
                        ("prompts"@, JVal::Obj(Seq::empty())),
                    ],
                ),
            ),
            (
                "serverInfo"@,
                JVal::Obj(
                    seq![
                        ("name"@, JVal::Str("Kyx Governance Hub"@)),
                        ("version"@, JVal::Str("0.1.0"@)),
                    ],
                ),
            ),
        ],
    )
}

pub fn initialize_result() -> (r: Json)
    ensures
        jval(r) == spec_initialize_result(),
{
    let mut caps: Vec<(String, Json)> = Vec::new();
    let e1: Vec<(String, Json)> = Vec::new();
    let e2: Vec<(String, Json)> = Vec::new();
    let e3: Vec<(String, Json)> = Vec::new();
    proof {
        assert(jval_fields(e1@) =~= Seq::<(Seq<char>, JVal)>::empty());
        assert(jval_fields(e2@) =~= Seq::<(Seq<char>, JVal)>::empty());
        assert(jval_fields(e3@) =~= Seq::<(Seq<char>, JVal)>::empty());
    }
    caps.push(("tools".to_owned(), Json::Obj(e1)));
    caps.push(("resources".to_owned(), Json::Obj(e2)));
    caps.push(("prompts".to_owned(), Json::Obj(e3)));
    let mut info: Vec<(String, Json)> = Vec::new();
    info.push(("name".to_owned(), Json::Str("Kyx Governance Hub".to_owned())));
    info.push(("version".to_owned(), Json::Str("0.1.0".to_owned())));
    let mut fields: Vec<(String, Json)> = Vec::new();
    fields.push(("protocolVersion".to_owned(), Json::Str("2024-11-05".to_owned())));
    proof {
        assert(jval_fields(caps@) =~= spec_initialize_result()->Obj_0[1].1->Obj_0);
        assert(jval_fields(info@) =~= spec_initialize_result()->Obj_0[2].1->Obj_0);
    }
    fields.push(("capabilities".to_owned(), Json::Obj(caps)));
    fields.push(("serverInfo".to_owned(), Json::Obj(info)));
    proof {
        assert(jval_fields(fields@) =~= spec_initialize_result()->Obj_0);
    }
    Json::Obj(fields)
}

/// The model of one tool definition as the engine reads it.
pub struct ToolModel {
    pub name: Seq<char>,
    pub description: Seq<char>,
    pub input_schema: JVal,
}

impl Tool {
    pub open spec fn listing_model(&self) -> ToolModel {
        ToolModel {
            name: self.name@,
            description: self.description@,
            input_schema: jval(self.input_schema),
        }
    }
}

/// The listing entry of one tool: its name, description, and input schema.
pub open spec fn spec_tool_jval(t: ToolModel) -> JVal {
    JVal::Obj(
        seq![
            ("name"@, JVal::Str(t.name)),
            ("description"@, JVal::Str(t.description)),
            ("inputSchema"@, t.input_schema),
        ],
    )
}

pub fn tool_to_json(t: &Tool) -> (r: Json)
    ensures
        jval(r) == spec_tool_jval(t.listing_model()),
{
    let mut fields: Vec<(String, Json)> = Vec::new();
    fields.push(("name".to_owned(), Json::Str(t.name.clone())));
    fields.push(("description".to_owned(), Json::Str(t.description.clone())));
    fields.push(("inputSchema".to_owned(), t.input_schema.duplicate()));
    proof {
        assert(jval_fields(fields@) =~= spec_tool_jval(t.listing_model())->Obj_0);
    }
    Json::Obj(fields)
}

/// The input schema of the fallback tool offered when the store lists none.
pub open spec fn spec_default_tool_schema() -> JVal {
    JVal::Obj(
        seq![
            ("type"@, JVal::Str("object"@)),
            (
                "properties"@,
                JVal::Obj(
                    seq![
                        (
                            "query"@,
                            JVal::Obj(
                                seq![
                                    ("type"@, JVal::Str("string"@)),
                                    (
                                        "description"@,
                                        JVal::Str("Search query for governance documentation"@),
                                    ),
                                ],
                            ),
                        ),
                    ],
                ),
            ),
            ("required"@, JVal::Arr(seq![JVal::Str("query"@)])),
        ],
    )
}

/// The fallback listing entry: the built-in governance search.
pub open spec fn spec_default_tool_jval() -> JVal {
    spec_tool_jval(
        ToolModel {
            name: "search-governance"@,
            description: "Search through governance standards and SDLC documentation"@,
            input_schema: spec_default_tool_schema(),
        },
    )
}

fn default_tool_json() -> (r: Json)
    ensures
        jval(r) == spec_default_tool_jval(),
{
    let mut query: Vec<(String, Json)> = Vec::new();
    query.push(("type".to_owned(), Json::Str("string".to_owned())));
    query.push(
        (
            "description".to_owned(),
            Json::Str("Search query for governance documentation".to_owned()),
        ),
    );
    let mut props: Vec<(String, Json)> = Vec::new();
    proof {
        assert(jval_fields(query@) =~= spec_default_tool_schema()->Obj_0[1].1->Obj_0[0].1->Obj_0);
    }
    props.push(("query".to_owned(), Json::Obj(query)));
    let mut required: Vec<Json> = Vec::new();
    required.push(Json::Str("query".to_owned()));
    let mut schema: Vec<(String, Json)> = Vec::new();
    schema.push(("type".to_owned(), Json::Str("object".to_owned())));
    proof {
        assert(jval_fields(props@) =~= spec_default_tool_schema()->Obj_0[1].1->Obj_0);
        assert(jval_seq(required@) =~= spec_default_tool_schema()->Obj_0[2].1->Arr_0);
    }
    schema.push(("properties".to_owned(), Json::Obj(props)));
    schema.push(("required".to_owned(), Json::Arr(required)));
    let mut fields: Vec<(String, Json)> = Vec::new();
    fields.push(("name".to_owned(), Json::Str("search-governance".to_owned())));
    fields.push(
        (
            "description".to_owned(),
            Json::Str("Search through governance standards and SDLC documentation".to_owned()),
        ),
    );
    proof {
        assert(jval_fields(schema@) =~= spec_default_tool_schema()->Obj_0);
    }
    fields.push(("inputSchema".to_owned(), Json::Obj(schema)));
    proof {
        assert(jval_fields(fields@) =~= spec_default_tool_jval()->Obj_0);
    }
    Json::Obj(fields)
}

/// The `tools/list` result: every stored tool in order, or the fallback entry
/// where the store lists none.
pub open spec fn spec_tools_list_result(tools: Seq<ToolModel>) -> JVal {
    JVal::Obj(
        seq![
            (
                "tools"@,
                JVal::Arr(
                    if tools.len() == 0 {
                        seq![spec_default_tool_jval()]
                    } else {
                        tools.map_values(|t: ToolModel| spec_tool_jval(t))
                    },
                ),
            ),
        ],
    )
}

pub fn tools_list_result(tools: &Vec<Tool>) -> (r: Json)
    ensures
        jval(r) == spec_tools_list_result(tools@.map_values(|t: Tool| t.listing_model())),
{
    let ghost models = tools@.map_values(|t: Tool| t.listing_model());
    let mut arr: Vec<Json> = Vec::new();
    if tools.len() == 0 {
        arr.push(default_tool_json());
        proof {
            assert(jval_seq(arr@) =~= seq![spec_default_tool_jval()]);
        }
    } else {
        let mut i: usize = 0;
        while i < tools.len()
            invariant
                0 <= i <= tools@.len(),
                models == tools@.map_values(|t: Tool| t.listing_model()),
                models.len() == tools@.len(),
                arr@.len() == i,
                forall|j: int|
                    0 <= j < i ==> jval(#[trigger] arr@[j]) == spec_tool_jval(models[j]),
            decreases tools@.len() - i,
        {
            arr.push(tool_to_json(&tools[i]));
            i += 1;
        }
        proof {
            assert(jval_seq(arr@) =~= models.map_values(|t: ToolModel| spec_tool_jval(t)));
        }
    }
    let mut fields: Vec<(String, Json)> = Vec::new();
    let ghost arr_model = jval_seq(arr@);
    fields.push(("tools".to_owned(), Json::Arr(arr)));
    proof {
        assert(jval_fields(fields@) =~= spec_tools_list_result(models)->Obj_0);
    }
    Json::Obj(fields)
}

/// The model of one document as the listings read it.
pub struct DocModel {
    pub title: Seq<char>,
    pub content: Seq<char>,
    pub project_name: Seq<char>,
    pub sdlc_phase: Seq<char>,
    pub name: Seq<char>,
    pub mime_type: Seq<char>,
}

impl GovernanceDocument {
    pub open spec fn model(&self) -> DocModel {
        DocModel {
            title: self.title@,
            content: self.content@,
            project_name: self.project_name@,
            sdlc_phase: self.sdlc_phase@,
            name: self.name@,
            mime_type: self.mime_type@,
        }
    }
}

/// The address a document is listed under.
pub open spec fn spec_doc_uri(d: DocModel) -> Seq<char> {
    "kyx://"@ + d.project_name + "/"@ + d.sdlc_phase + "/"@ + d.name
}

/// The listing entry of one document.
pub open spec fn spec_resource_jval(d: DocModel) -> JVal {
    JVal::Obj(
        seq![
            ("uri"@, JVal::Str(spec_doc_uri(d))),
            ("name"@, JVal::Str(d.title)),
            (
                "description"@,
                JVal::Str(
                    "SDLC Document for "@ + d.project_name + " in "@ + d.sdlc_phase + " phase"@,
                ),
            ),
            ("mimeType"@, JVal::Str(d.mime_type)),
        ],
    )
}

fn resource_json(d: &GovernanceDocument) -> (r: Json)
    ensures
        jval(r) == spec_resource_jval(d.model()),
{
    proof {
        reveal_strlit("kyx://");
        reveal_strlit("/");
        reveal_strlit("SDLC Document for ");
        reveal_strlit(" in ");
        reveal_strlit(" phase");
    }
    let mut uri = "kyx://".to_owned();
    uri.append(d.project_name.as_str());
    uri.append("/");
    uri.append(d.sdlc_phase.as_str());
    uri.append("/");
    uri.append(d.name.as_str());
    let mut desc = "SDLC Document for ".to_owned();
    desc.append(d.project_name.as_str());
    desc.append(" in ");
    desc.append(d.sdlc_phase.as_str());
    desc.append(" phase");
    let mut fields: Vec<(String, Json)> = Vec::new();
    fields.push(("uri".to_owned(), Json::Str(uri)));
    fields.push(("name".to_owned(), Json::Str(d.title.clone())));
    fields.push(("description".to_owned(), Json::Str(desc)));
    fields.push(("mimeType".to_owned(), Json::Str(d.mime_type.clone())));
    proof {
        assert(jval_fields(fields@) =~= spec_resource_jval(d.model())->Obj_0);
    }
    Json::Obj(fields)
}

/// The `resources/list` result: one listing entry per stored document.
pub open spec fn spec_resources_list_result(docs: Seq<DocModel>) -> JVal {
    JVal::Obj(
        seq![("resources"@, JVal::Arr(docs.map_values(|d: DocModel| spec_resource_jval(d))))],
    )
}

pub fn resources_list_result(docs: &Vec<GovernanceDocument>) -> (r: Json)
    ensures
        jval(r) == spec_resources_list_result(
            docs@.map_values(|d: GovernanceDocument| d.model()),
        ),
{
    let ghost models = docs@.map_values(|d: GovernanceDocument| d.model());
    let mut arr: Vec<Json> = Vec::new();
    let mut i: usize = 0;
    while i < docs.len()
        invariant
            0 <= i <= docs@.len(),
            models == docs@.map_values(|d: GovernanceDocument| d.model()),
            models.len() == docs@.len(),
            arr@.len() == i,
            forall|j: int|
                0 <= j < i ==> jval(#[trigger] arr@[j]) == spec_resource_jval(models[j]),
        decreases docs@.len() - i,
    {
        arr.push(resource_json(&docs[i]));
        i += 1;
    }
    let mut fields: Vec<(String, Json)> = Vec::new();
    proof {
        assert(jval_seq(arr@) =~= models.map_values(|d: DocModel| spec_resource_jval(d)));
    }
    fields.push(("resources".to_owned(), Json::Arr(arr)));
    proof {
        assert(jval_fields(fields@) =~= spec_resources_list_result(models)->Obj_0);
    }
    Json::Obj(fields)
}

/// What a read resource carries as text: the combined governance rules are
/// prepended under fixed headers when there are any; otherwise the document's
/// content stands alone.
pub open spec fn spec_resource_text(rules: Seq<char>, content: Seq<char>) -> Seq<char> {
    if rules.len() > 0 {
        "## Governance Rules\n\n"@ + rules + "\n\n---\n\n## Content\n\n"@ + content
    } else {
        content
    }
}

pub fn resource_text(rules: &str, content: &str) -> (r: String)
    ensures
        r@ == spec_resource_text(rules@, content@),
{
    proof {
        reveal_strlit("## Governance Rules\n\n");
        reveal_strlit("\n\n---\n\n## Content\n\n");
    }
    if rules.unicode_len() > 0 {
        let mut out = "## Governance Rules\n\n".to_owned();
        out.append(rules);
        out.append("\n\n---\n\n## Content\n\n");
        out.append(content);
        out
    } else {
        content.to_owned()
    }
}

/// The `resources/read` result: one content block holding the requested
/// address, the document's media type, and the combined text.
pub open spec fn spec_resource_read_result(
    uri: Seq<char>,
    mime: Seq<char>,
    text: Seq<char>,
) -> JVal {
    JVal::Obj(
        seq![
            (
                "contents"@,
                JVal::Arr(
                    seq![
                        JVal::Obj(
                            seq![
                                ("uri"@, JVal::Str(uri)),
                                ("mimeType"@, JVal::Str(mime)),
                                ("text"@, JVal::Str(text)),
                                ("blob"@, JVal::Null),
                            ],
                        ),
                    ],
                ),
            ),
        ],
    )
}

pub fn resource_read_result(uri: &str, mime: &str, text: String) -> (r: Json)
    ensures
        jval(r) == spec_resource_read_result(uri@, mime@, text@),
{
    let ghost t = text@;
    let mut block: Vec<(String, Json)> = Vec::new();
    block.push(("uri".to_owned(), Json::Str(uri.to_owned())));
    block.push(("mimeType".to_owned(), Json::Str(mime.to_owned())));
    block.push(("text".to_owned(), Json::Str(text)));
    block.push(("blob".to_owned(), Json::Null));
    proof {
        assert(jval_fields(block@) =~= spec_resource_read_result(uri@, mime@, t)->Obj_0[0].1->Arr_0[0]->Obj_0);
    }
    let mut arr: Vec<Json> = Vec::new();
    arr.push(Json::Obj(block));
    let mut fields: Vec<(String, Json)> = Vec::new();
    proof {
        assert(jval_seq(arr@) =~= spec_resource_read_result(uri@, mime@, t)->Obj_0[0].1->Arr_0);
    }
    fields.push(("contents".to_owned(), Json::Arr(arr)));
    proof {
        assert(jval_fields(fields@) =~= spec_resource_read_result(uri@, mime@, t)->Obj_0);
    }
    Json::Obj(fields)
}

/// The result envelope of a tool call: one text content block, flagged as an
/// error or not.
pub open spec fn spec_call_tool_result(text: Seq<char>, is_error: bool) -> JVal {
    JVal::Obj(
        seq![
            (
                "content"@,
                JVal::Arr(
                    seq![
                        JVal::Obj(
                            seq![
                                ("type"@, JVal::Str("text"@)),
                                ("text"@, JVal::Str(text)),
                                ("image"@, JVal::Null),
                            ],
                        ),
                    ],
                ),
            ),
            ("isError"@, JVal::Bool(is_error)),
        ],
    )
}

pub fn call_tool_result(text: String, is_error: bool) -> (r: Json)
    ensures
        jval(r) == spec_call_tool_result(text@, is_error),
{
    let ghost t = text@;
    let mut block: Vec<(String, Json)> = Vec::new();
    block.push(("type".to_owned(), Json::Str("text".to_owned())));
    block.push(("text".to_owned(), Json::Str(text)));
    block.push(("image".to_owned(), Json::Null));
    proof {
        assert(jval_fields(block@) =~= spec_call_tool_result(t, is_error)->Obj_0[0].1->Arr_0[0]->Obj_0);
    }
    let mut arr: Vec<Json> = Vec::new();
    arr.push(Json::Obj(block));
    let mut fields: Vec<(String, Json)> = Vec::new();
    proof {
        assert(jval_seq(arr@) =~= spec_call_tool_result(t, is_error)->Obj_0[0].1->Arr_0);
    }
    fields.push(("content".to_owned(), Json::Arr(arr)));
    fields.push(("isError".to_owned(), Json::Bool(is_error)));
    proof {
        assert(jval_fields(fields@) =~= spec_call_tool_result(t, is_error)->Obj_0);
    }
    Json::Obj(fields)
}

/// The string member of an object, or the given fallback where the member is
/// absent or not a string.
pub open spec fn spec_str_member_or(v: JVal, key: Seq<char>, fallback: Seq<char>) -> Seq<char> {
    match spec_obj_get(v, key) {
        Some(JVal::Str(s)) => s,
        _ => fallback,
    }
}

pub fn str_member_or(v: &Json, key: &str, fallback: &str) -> (r: String)
    ensures
        r@ == spec_str_member_or(jval(*v), key@, fallback@),
{
    match obj_get(v, key) {
        Some(x) => match as_str(x) {
            Some(s) => s.clone(),
            None => fallback.to_owned(),
        },
        None => fallback.to_owned(),
    }
}

} // verus!
