//! The protocol dispatch engine, as a state machine. `start` routes one
//! decoded request; each event the embedding program hands back advances the
//! machine with `step` until it emits a reply.
//!
//! The embedding program performs each requested `Action` (a store query, a
//! vector-index call, an audit insert) and feeds the outcome back as an
//! `Event`. Everything decided between those calls is verified here.
use vstd::prelude::*;
use crate::json::{Json, JVal, jval, jval_seq, spec_obj_get, obj_get, as_str};
use crate::protocol::{JsonRpcRequest, JsonRpcResponse};
use crate::entities::{Tool, ExecutionType, AuditRecord, AuditStatus, GovernanceDocument, Rule};
use crate::binding::{BoundValue, bind_parameters, spec_bind_params, is_record_ref, spec_is_record_ref};
use crate::builders::{
    initialize_result, spec_initialize_result, tools_list_result, spec_tools_list_result,
    resources_list_result, spec_resources_list_result, resource_text, spec_resource_text,
    resource_read_result, spec_resource_read_result, call_tool_result, spec_call_tool_result,
    ToolModel,
};
use crate::toolread::{ToolDefModel, pick_tool, tools_of_rows, active_tools, spec_tools_of_rows, spec_active_tools, spec_last_active, spec_listing};
use crate::tooltext::{
    SearchHit, HitModel, semantic_output, spec_semantic_output, index_item, spec_index_text,
    spec_index_metadata, index_summary, spec_index_summary, gov_search_output,
    spec_gov_search_output, projects_output, spec_projects_output, documents_output,
    spec_documents_output, tech_stack_output, spec_tech_stack_output,
};
use crate::builders::spec_str_member_or;
use crate::results::{normalized_output, spec_normalized_output, spec_sets};
use crate::rules::{combine_rules, spec_combined_rules, spec_rule_row};
use crate::uri::{parse_uri, spec_parse_uri, spec_uri_error_message};
use crate::text::{str_eq, str_starts_with, spec_starts_with, u64_to_string, spec_dec_nat};

verus! {

/// Relies on uuid::Uuid::new_v4 and its hyphenated text form: a fresh random
/// identifier, 36 characters long.
#[verifier::external_body]
fn new_uuid() -> (r: String)
    ensures
        r@.len() == 36,
{
    uuid::Uuid::new_v4().to_string()
}

/// What the embedding program must do next.
pub enum Action {
    /// Deliver the reply (none for a notification) and stop.
    Reply(Option<JsonRpcResponse>),
    /// Read all stored tool rows.
    FetchToolCatalog,
    /// Read all stored governance documents.
    FetchDocumentList,
    /// Read one document by project, phase and name.
    FetchDocument { project: String, phase: String, name: String },
    /// Read the governance rules (global ones, plus the project's).
    FetchRules { project: Option<String> },
    /// Read the stored tool rows with this name.
    LookupTool { name: String },
    /// Run query text with the given variable bindings; hand back every
    /// statement's result set, and the first statement as a scalar.
    RunQuery { sql: String, bindings: Vec<(String, BoundValue)> },
    /// Make sure the vector collection exists with this dimension.
    EnsureCollection { collection: String, dims: u64 },
    /// Embed the query and search the collection.
    VectorSearch { collection: String, query: String, limit: u64 },
    /// Read all documentation rows for re-indexing.
    FetchDocsForIndex,
    /// Embed the text and upsert it as one point.
    UpsertDocument { collection: String, point_id: String, text: String, metadata: Json },
    /// Full-text search over documentation.
    SearchDocuments { query: String },
    /// Full-text search over incidents.
    SearchIncidents { query: String },
    /// Read the project rows.
    FetchProjects,
    /// Read the documentation index rows, optionally filtered by project.
    FetchDocumentIndex { project: Option<String> },
    /// Read the approved-tech-stack document row.
    FetchTechStackDoc,
    /// Find a project's record reference by its name.
    LookupProjectRef { name: String },
    /// Append one audit record.
    WriteAudit { record: AuditRecord },
}

/// What came back for the last action.
pub enum Event {
    ToolCatalog(Result<Vec<Json>, String>),
    DocumentList(Result<Vec<GovernanceDocument>, String>),
    Document(Result<Option<GovernanceDocument>, String>),
    Rules(Result<Vec<Rule>, String>),
    ToolLookup(Result<Vec<Json>, String>),
    QueryDone(Result<QueryOutcome, String>),
    CollectionDone(Result<(), String>),
    SearchDone(Result<Vec<SearchHit>, String>),
    DocsFetched(Result<Vec<Json>, String>),
    Upserted(Result<(), String>),
    Rows(Result<Vec<Json>, String>),
    ProjectRef(Option<String>),
    AuditWritten,
}

/// Every statement's result set, and the first statement read as one scalar
/// (for queries that yield no tabular rows).
pub struct QueryOutcome {
    pub sets: Vec<Vec<Json>>,
    pub scalar: Option<Json>,
}

/// Where one request stands.
pub enum DState {
    Done,
    ToolsList,
    ResourcesList,
    ResourceRead { uri: String, project: String },
    ResourceRules { uri: String, mime: String, content: String },
    CallLookup { name: String, arguments: Json },
    CallRaw { name: String, project_id: Option<String>, arguments: Json },
    CallDynamic { name: String, project_id: Option<String>, arguments: Json },
    CallSemanticCollection { arguments: Json, query: String, limit: u64 },
    CallSemanticSearch { arguments: Json, query: String, limit: u64 },
    CallIndexFetch { arguments: Json },
    CallIndexCollection { arguments: Json, docs: Vec<Json> },
    CallIndexing {
        arguments: Json,
        docs: Vec<Json>,
        next: usize,
        indexed: u64,
        errors: Vec<String>,
        pending_name: String,
    },
    CallGovDocs { arguments: Json, query: String },
    CallGovIncidents { arguments: Json, query: String, doc_hits: Vec<Json> },
    CallListProjects { arguments: Json },
    CallListDocuments { arguments: Json },
    CallTechStack { arguments: Json },
    NeedProjectRef { record: AuditRecord, reply: JsonRpcResponse },
    Auditing { reply: JsonRpcResponse },
}

/// One request's dispatch state: its identifier, whether it is a
/// notification, when it began, and where it stands.
pub struct Dispatch {
    pub id: Json,
    pub notif: bool,
    pub start_ms: u64,
    pub state: DState,
}

/// Every emitted reply respects the protocol: a notification gets none, and
/// any reply is a well-formed envelope echoing the request's identifier.
pub open spec fn spec_reply_ok(d: Dispatch, a: Action) -> bool {
    a matches Action::Reply(o) ==> (d.notif ==> o is None) && (o matches Some(resp) ==> !d.notif
        && resp.well_formed() && jval(resp.id) == jval(d.id))
}

/// The identifier and notification flag never change while a request is
/// dispatched.
pub open spec fn spec_same_request(pre: Dispatch, post: Dispatch) -> bool {
    &&& jval(post.id) == jval(pre.id)
    &&& post.notif == pre.notif
    &&& post.start_ms == pre.start_ms
}

/// The error message of an unknown method.
pub open spec fn spec_method_not_found(method: Seq<char>) -> Seq<char> {
    "Method not found: "@ + method
}

/// The error message of an unresolvable tool name.
pub open spec fn spec_tool_not_found(name: Seq<char>) -> Seq<char> {
    "Tool not found: "@ + name
}

/// Where `tools/call` parameters point: the tool name and the argument
/// object, or the request-level error to return.
pub open spec fn spec_call_target(params: Option<JVal>) -> Result<(Seq<char>, JVal), Seq<char>> {
    match params {
        None => Err("Missing params"@),
        Some(p) => match spec_obj_get(p, "name"@) {
            Some(JVal::Str(n)) => match spec_obj_get(p, "arguments"@) {
                Some(a) => Ok((n, a)),
                None => Err("Missing arguments"@),
            },
            _ => Err("Missing name"@),
        },
    }
}

/// Where `resources/read` parameters point: the address and its parts, or the
/// request-level error to return.
pub open spec fn spec_read_target(params: Option<JVal>) -> Result<
    (Seq<char>, Seq<char>, Seq<char>, Seq<char>),
    Seq<char>,
> {
    match params {
        None => Err("Missing params"@),
        Some(p) => match spec_obj_get(p, "uri"@) {
            Some(JVal::Str(u)) => match spec_parse_uri(u) {
                Ok(t) => Ok((u, t.0, t.1, t.2)),
                Err(e) => Err(spec_uri_error_message(e)),
            },
            _ => Err("Missing uri"@),
        },
    }
}

/// The built-in tool names; these resolve before any stored tool of the same
/// name.
pub open spec fn spec_is_builtin(name: Seq<char>) -> bool {
    ||| name == "search-semantic"@
    ||| name == "index-documents"@
    ||| name == "search-governance"@
    ||| name == "list-projects"@
    ||| name == "list-documents"@
    ||| name == "list-tech-stack"@
}

/// The search limit an argument object asks for: a non-negative integer
/// `limit` member, or five.
pub open spec fn spec_limit_arg(args: JVal) -> u64 {
    match spec_obj_get(args, "limit"@) {
        Some(JVal::Int(i)) => if i >= 0 {
            i as u64
        } else {
            5
        },
        _ => 5,
    }
}

/// The optional project filter of a listing call.
pub open spec fn spec_project_arg(args: JVal) -> Option<Seq<char>> {
    match spec_obj_get(args, "project"@) {
        Some(JVal::Str(s)) => Some(s),
        _ => None,
    }
}

/// The raw query text of a `raw_sql` call: the `sql_commands` argument, then
/// the `sql` argument.
pub open spec fn spec_raw_sql_arg(args: JVal) -> Option<Seq<char>> {
    match spec_obj_get(args, "sql_commands"@) {
        Some(JVal::Str(s)) => Some(s),
        _ => match spec_obj_get(args, "sql"@) {
            Some(JVal::Str(s)) => Some(s),
            _ => None,
        },
    }
}

/// Where an audit entry's project reference comes from: the tool definition's
/// reference when it is a record reference; otherwise the `project` (or
/// `project_id`) argument — directly when it is a record reference, by a name
/// lookup when it is some other string, and nowhere otherwise.
pub enum RefSource {
    Use(Seq<char>),
    Lookup(Seq<char>),
    Nothing,
}

pub open spec fn spec_project_ref(tool_project: Option<Seq<char>>, args: JVal) -> RefSource {
    if tool_project matches Some(s) && spec_is_record_ref(s) {
        RefSource::Use(tool_project->0)
    } else {
        let arg = match spec_obj_get(args, "project"@) {
            Some(v) => Some(v),
            None => spec_obj_get(args, "project_id"@),
        };
        match arg {
            Some(JVal::Str(s)) => if spec_is_record_ref(s) {
                RefSource::Use(s)
            } else {
                RefSource::Lookup(s)
            },
            _ => RefSource::Nothing,
        }
    }
}

/// The model of an audit record.
pub struct AuditModel {
    pub tool_name: Seq<char>,
    pub project_ref: Option<Seq<char>>,
    pub arguments: JVal,
    pub status: AuditStatus,
    pub message: Seq<char>,
    pub duration_ms: u64,
}

impl AuditRecord {
    pub open spec fn model(&self) -> AuditModel {
        AuditModel {
            tool_name: self.tool_name@,
            project_ref: match self.project_ref {
                Some(s) => Some(s@),
                None => None,
            },
            arguments: jval(self.arguments),
            status: self.status,
            message: self.message@,
            duration_ms: self.duration_ms,
        }
    }
}

impl Dispatch {
    /// Finishes with a success reply carrying this result (or silence for a
    /// notification).
    fn finish_success(&mut self, result: Json) -> (r: Action)
        ensures
            spec_same_request(*old(self), *final(self)),
            final(self).state is Done,
            spec_reply_ok(*final(self), r),
            r matches Action::Reply(o) && (old(self).notif ==> o is None) && (!old(self).notif
                ==> (o matches Some(resp) && resp.model().result == Some(jval(result))
                && resp.model().error is None)),
    {
        if self.notif {
            self.state = DState::Done;
            Action::Reply(None)
        } else {
            let resp = JsonRpcResponse::success(result, Some(self.id.duplicate()));
            self.state = DState::Done;
            Action::Reply(Some(resp))
        }
    }

    /// Finishes with an error reply carrying this code and message (or
    /// silence for a notification).
    fn finish_error(&mut self, code: i32, message: &str) -> (r: Action)
        ensures
            spec_same_request(*old(self), *final(self)),
            final(self).state is Done,
            spec_reply_ok(*final(self), r),
            r matches Action::Reply(o) && (old(self).notif ==> o is None) && (!old(self).notif
                ==> (o matches Some(resp) && resp.model().result is None && (resp.model().error
                matches Some(e) && e.code == code && e.message == message@ && e.data is None))),
    {
        if self.notif {
            self.state = DState::Done;
            Action::Reply(None)
        } else {
            let resp = JsonRpcResponse::error(code, message, Some(self.id.duplicate()));
            self.state = DState::Done;
            Action::Reply(Some(resp))
        }
    }

    /// Builds the error reply that follows a failed execution, to be
    /// delivered once the audit entry is written.
    fn pending_error(&self, code: i32, message: &str) -> (r: JsonRpcResponse)
        ensures
            r.well_formed(),
            jval(r.id) == jval(self.id),
            r.model().result is None,
            r.model().error matches Some(e) && e.code == code && e.message == message@ && e.data
                is None,
    {
        JsonRpcResponse::error(code, message, Some(self.id.duplicate()))
    }

    /// Builds the success reply that follows a finished execution, to be
    /// delivered once the audit entry is written.
    fn pending_success(&self, result: Json) -> (r: JsonRpcResponse)
        ensures
            r.well_formed(),
            jval(r.id) == jval(self.id),
            r.model().result == Some(jval(result)),
            r.model().error is None,
    {
        JsonRpcResponse::success(result, Some(self.id.duplicate()))
    }

    /// Begins the audit of one executed tool call: resolves the project
    /// reference (asking for a lookup where only a project name is known),
    /// stamps the duration, and asks for the record to be written; the reply
    /// is held until the write is acknowledged.
    fn begin_audit(
        &mut self,
        tool_name: String,
        tool_project: Option<String>,
        arguments: Json,
        status: AuditStatus,
        message: String,
        now_ms: u64,
        reply: JsonRpcResponse,
    ) -> (r: Action)
        requires
            reply.well_formed(),
            jval(reply.id) == jval(old(self).id),
        ensures
            spec_same_request(*old(self), *final(self)),
            final(self).inv(),
            spec_reply_ok(*final(self), r),
            ({
                let src = spec_project_ref(
                    match tool_project {
                        Some(s) => Some(s@),
                        None => None,
                    },
                    jval(arguments),
                );
                let dur = if now_ms >= old(self).start_ms {
                    (now_ms - old(self).start_ms) as u64
                } else {
                    0u64
                };
                match src {
                    RefSource::Lookup(nm) => {
                        &&& r matches Action::LookupProjectRef { name } && name@ == nm
                        &&& final(self).state matches DState::NeedProjectRef { record, reply: held }
                            && record.model() == (AuditModel {
                            tool_name: tool_name@,
                            project_ref: None,
                            arguments: jval(arguments),
                            status,
                            message: message@,
                            duration_ms: dur,
                        }) && held == reply
                    },
                    RefSource::Use(pr) => {
                        &&& r matches Action::WriteAudit { record } && record.model() == (
                        AuditModel {
                            tool_name: tool_name@,
                            project_ref: Some(pr),
                            arguments: jval(arguments),
                            status,
                            message: message@,
                            duration_ms: dur,
                        })
                        &&& final(self).state matches DState::Auditing { reply: held } && held
                            == reply
                    },
                    RefSource::Nothing => {
                        &&& r matches Action::WriteAudit { record } && record.model() == (
                        AuditModel {
                            tool_name: tool_name@,
                            project_ref: None,
                            arguments: jval(arguments),
                            status,
                            message: message@,
                            duration_ms: dur,
                        })
                        &&& final(self).state matches DState::Auditing { reply: held } && held
                            == reply
                    },
                }
            }),
    {
        let duration_ms: u64 = if now_ms >= self.start_ms {
            now_ms - self.start_ms
        } else {
            0
        };
        let tool_ref: Option<String> = match tool_project {
            Some(s) => {
                if is_record_ref(s.as_str()) {
                    Some(s)
                } else {
                    None
                }
            },
            None => None,
        };
        match tool_ref {
            Some(s) => {
                let record = AuditRecord {
                    tool_name,
                    project_ref: Some(s),
                    arguments,
                    status,
                    message,
                    duration_ms,
                };
                self.state = DState::Auditing { reply };
                Action::WriteAudit { record }
            },
            None => {
                let arg: Option<&Json> = match obj_get(&arguments, "project") {
                    Some(v) => Some(v),
                    None => obj_get(&arguments, "project_id"),
                };
                let arg_str: Option<String> = match arg {
                    Some(v) => match as_str(v) {
                        Some(s) => Some(s.clone()),
                        None => None,
                    },
                    None => None,
                };
                match arg_str {
                    Some(s) => {
                        if is_record_ref(s.as_str()) {
                            let record = AuditRecord {
                                tool_name,
                                project_ref: Some(s),
                                arguments,
                                status,
                                message,
                                duration_ms,
                            };
                            self.state = DState::Auditing { reply };
                            Action::WriteAudit { record }
                        } else {
                            let record = AuditRecord {
                                tool_name,
                                project_ref: None,
                                arguments,
                                status,
                                message,
                                duration_ms,
                            };
                            self.state = DState::NeedProjectRef { record, reply };
                            Action::LookupProjectRef { name: s }
                        }
                    },
                    None => {
                        let record = AuditRecord {
                            tool_name,
                            project_ref: None,
                            arguments,
                            status,
                            message,
                            duration_ms,
                        };
                        self.state = DState::Auditing { reply };
                        Action::WriteAudit { record }
                    },
                }
            },
        }
    }
}


/// A request-level rejection: the reply (for a non-notification) is an error
/// with this message under the invalid-params code.
pub open spec fn spec_is_request_error(d: Dispatch, a: Action, msg: Seq<char>) -> bool {
    a matches Action::Reply(o) && (!d.notif ==> (o matches Some(resp) && resp.model().result
        is None && (resp.model().error matches Some(e) && e.code == -32602 && e.message == msg)))
}

/// How a `tools/call` routes once its name and arguments are in hand: each
/// built-in resolves to its own execution path — before any stored tool of
/// the same name — and only a non-built-in name is looked up in the store.
pub open spec fn spec_call_route_ok(name: Seq<char>, args: JVal, d: Dispatch, a: Action) -> bool {
    if name == "search-semantic"@ {
        match spec_obj_get(args, "query"@) {
            Some(JVal::Str(q)) => (a matches Action::EnsureCollection { collection, dims }
                && collection@ == "documentation"@ && dims == 1536) && (
            d.state matches DState::CallSemanticCollection { arguments, query, limit } && jval(
                arguments,
            ) == args && query@ == q && limit == spec_limit_arg(args)),
            _ => spec_is_request_error(d, a, "Missing 'query' argument"@),
        }
    } else if name == "index-documents"@ {
        a is FetchDocsForIndex && (d.state matches DState::CallIndexFetch { arguments } && jval(
            arguments,
        ) == args)
    } else if name == "search-governance"@ {
        match spec_obj_get(args, "query"@) {
            Some(JVal::Str(q)) => (a matches Action::SearchDocuments { query } && query@ == q) && (
            d.state matches DState::CallGovDocs { arguments, query: q2 } && jval(arguments) == args
                && q2@ == q),
            _ => spec_is_request_error(d, a, "Missing 'query' argument"@),
        }
    } else if name == "list-projects"@ {
        a is FetchProjects && (d.state matches DState::CallListProjects { arguments } && jval(
            arguments,
        ) == args)
    } else if name == "list-documents"@ {
        (a matches Action::FetchDocumentIndex { project } && (match project {
            Some(p) => spec_project_arg(args) == Some(p@),
            None => spec_project_arg(args) is None,
        })) && (d.state matches DState::CallListDocuments { arguments } && jval(arguments) == args)
    } else if name == "list-tech-stack"@ {
        a is FetchTechStackDoc && (d.state matches DState::CallTechStack { arguments } && jval(
            arguments,
        ) == args)
    } else {
        (a matches Action::LookupTool { name: n } && n@ == name) && (
        d.state matches DState::CallLookup { name: n2, arguments } && n2@ == name && jval(arguments)
            == args)
    }
}

/// Built-in precedence: a call to any built-in name resolves to its built-in
/// path and is never looked up among the stored tools, whatever definitions
/// the store holds under that name.
pub proof fn lemma_builtin_precedence(name: Seq<char>, args: JVal, d: Dispatch, a: Action)
    requires
        spec_is_builtin(name),
        spec_call_route_ok(name, args, d, a),
    ensures
        !(a is LookupTool),
{
}

impl Dispatch {
    /// Routes one decoded request: immediate replies for the handshake,
    /// notifications and malformed or unknown requests; otherwise the first
    /// fetch of the chosen path. A request with no identifier still executes,
    /// but every reply on its behalf is silence.
    pub fn start(req: &JsonRpcRequest, now_ms: u64) -> (r: (Dispatch, Action))
        ensures
            r.0.notif == req.spec_is_notification(),
            jval(r.0.id) == match req.model().id {
                Some(v) => v,
                None => JVal::Null,
            },
            r.0.start_ms == now_ms,
            spec_reply_ok(r.0, r.1),
            req.method@ == "initialize"@ ==> (r.1 matches Action::Reply(o) && (
            !req.spec_is_notification() ==> (o matches Some(resp) && resp.model().result == Some(
                spec_initialize_result(),
            ) && resp.model().error is None))),
            req.method@ == "tools/list"@ ==> r.1 is FetchToolCatalog && r.0.state is ToolsList,
            req.method@ == "resources/list"@ ==> r.1 is FetchDocumentList
                && r.0.state is ResourcesList,
            req.method@ == "resources/read"@ ==> match spec_read_target(req.model().params) {
                Ok(t) => (r.1 matches Action::FetchDocument { project, phase, name } && project@
                    == t.1 && phase@ == t.2 && name@ == t.3) && (
                r.0.state matches DState::ResourceRead { uri, project: sp } && uri@ == t.0 && sp@
                    == t.1),
                Err(m) => spec_is_request_error(r.0, r.1, m),
            },
            req.method@ == "tools/call"@ ==> match spec_call_target(req.model().params) {
                Ok(t) => spec_call_route_ok(t.0, t.1, r.0, r.1),
                Err(m) => spec_is_request_error(r.0, r.1, m),
            },
            spec_starts_with(req.method@, "notifications/"@) ==> r.1 == Action::Reply(
                None::<JsonRpcResponse>,
            ),
            !(req.method@ == "initialize"@ || req.method@ == "tools/list"@ || req.method@
                == "resources/list"@ || req.method@ == "resources/read"@ || req.method@
                == "tools/call"@ || spec_starts_with(req.method@, "notifications/"@)) ==> (
            r.1 matches Action::Reply(o) && (!req.spec_is_notification() ==> (o matches Some(resp)
                && resp.model().result is None && (resp.model().error matches Some(e) && e.code
                == -32601 && e.message == spec_method_not_found(req.method@))))),
    {
        proof {
            reveal_strlit("initialize");
            reveal_strlit("tools/list");
            reveal_strlit("resources/list");
            reveal_strlit("resources/read");
            reveal_strlit("tools/call");
            reveal_strlit("notifications/");
            reveal_strlit("Method not found: ");
            lemma_method_literals();
        }
        let id = match &req.id {
            Some(v) => v.duplicate(),
            None => Json::Null,
        };
        let notif = req.id.is_none();
        let mut d = Dispatch { id, notif, start_ms: now_ms, state: DState::Done };
        let method = req.method.as_str();
        if str_eq(method, "initialize") {
            let a = d.finish_success(initialize_result());
            (d, a)
        } else if str_eq(method, "tools/list") {
            d.state = DState::ToolsList;
            (d, Action::FetchToolCatalog)
        } else if str_eq(method, "resources/list") {
            d.state = DState::ResourcesList;
            (d, Action::FetchDocumentList)
        } else if str_eq(method, "resources/read") {
            let a = Self::route_read(&mut d, &req.params);
            (d, a)
        } else if str_eq(method, "tools/call") {
            let a = Self::route_call(&mut d, &req.params);
            (d, a)
        } else if str_starts_with(method, "notifications/") {
            (d, Action::Reply(None))
        } else {
            let mut msg = "Method not found: ".to_owned();
            msg.append(req.method.as_str());
            let a = d.finish_error(-32601, msg.as_str());
            (d, a)
        }
    }

    /// Routes a `resources/read`: validates the parameters and the address,
    /// then asks for the document.
    fn route_read(&mut self, params: &Option<Json>) -> (r: Action)
        ensures
            spec_same_request(*old(self), *final(self)),
            spec_reply_ok(*final(self), r),
            match spec_read_target(
                match params {
                    Some(p) => Some(jval(*p)),
                    None => None,
                },
            ) {
                Ok(t) => (r matches Action::FetchDocument { project, phase, name } && project@
                    == t.1 && phase@ == t.2 && name@ == t.3) && (
                final(self).state matches DState::ResourceRead { uri, project: sp } && uri@ == t.0
                    && sp@ == t.1),
                Err(m) => spec_is_request_error(*final(self), r, m),
            },
    {
        proof {
            reveal_strlit("Missing params");
            reveal_strlit("Missing uri");
        }
        let p = match params {
            Some(p) => p,
            None => {
                return self.finish_error(-32602, "Missing params");
            },
        };
        let uri: String = match obj_get(p, "uri") {
            Some(x) => match as_str(x) {
                Some(s) => s.clone(),
                None => {
                    return self.finish_error(-32602, "Missing uri");
                },
            },
            None => {
                return self.finish_error(-32602, "Missing uri");
            },
        };
        match parse_uri(uri.as_str()) {
            Ok(t) => {
                let project_copy = t.0.clone();
                self.state = DState::ResourceRead { uri, project: t.0 };
                Action::FetchDocument { project: project_copy, phase: t.1, name: t.2 }
            },
            Err(e) => self.finish_error(-32602, e.message()),
        }
    }

    /// Routes a `tools/call`: validates the parameters, resolves built-ins
    /// first, and only then asks the store for the name.
    fn route_call(&mut self, params: &Option<Json>) -> (r: Action)
        ensures
            spec_same_request(*old(self), *final(self)),
            spec_reply_ok(*final(self), r),
            match spec_call_target(
                match params {
                    Some(p) => Some(jval(*p)),
                    None => None,
                },
            ) {
                Ok(t) => spec_call_route_ok(t.0, t.1, *final(self), r),
                Err(m) => spec_is_request_error(*final(self), r, m),
            },
    {
        proof {
            reveal_strlit("Missing params");
            reveal_strlit("Missing name");
            reveal_strlit("Missing arguments");
            reveal_strlit("Missing 'query' argument");
            reveal_strlit("search-semantic");
            reveal_strlit("index-documents");
            reveal_strlit("search-governance");
            reveal_strlit("list-projects");
            reveal_strlit("list-documents");
            reveal_strlit("list-tech-stack");
            reveal_strlit("documentation");
        }
        let p = match params {
            Some(p) => p,
            None => {
                return self.finish_error(-32602, "Missing params");
            },
        };
        let name: String = match obj_get(p, "name") {
            Some(x) => match as_str(x) {
                Some(s) => s.clone(),
                None => {
                    return self.finish_error(-32602, "Missing name");
                },
            },
            None => {
                return self.finish_error(-32602, "Missing name");
            },
        };
        let arguments: Json = match obj_get(p, "arguments") {
            Some(x) => x.duplicate(),
            None => {
                return self.finish_error(-32602, "Missing arguments");
            },
        };
        if str_eq(name.as_str(), "search-semantic") {
            let query: String = match obj_get(&arguments, "query") {
                Some(x) => match as_str(x) {
                    Some(s) => s.clone(),
                    None => {
                        return self.finish_error(-32602, "Missing 'query' argument");
                    },
                },
                None => {
                    return self.finish_error(-32602, "Missing 'query' argument");
                },
            };
            let limit: u64 = match obj_get(&arguments, "limit") {
                Some(x) => match x {
                    Json::Int(i) => {
                        if *i >= 0 {
                            *i as u64
                        } else {
                            5
                        }
                    },
                    _ => 5,
                },
                None => 5,
            };
            self.state = DState::CallSemanticCollection { arguments, query, limit };
            Action::EnsureCollection { collection: "documentation".to_owned(), dims: 1536 }
        } else if str_eq(name.as_str(), "index-documents") {
            self.state = DState::CallIndexFetch { arguments };
            Action::FetchDocsForIndex
        } else if str_eq(name.as_str(), "search-governance") {
            let query: String = match obj_get(&arguments, "query") {
                Some(x) => match as_str(x) {
                    Some(s) => s.clone(),
                    None => {
                        return self.finish_error(-32602, "Missing 'query' argument");
                    },
                },
                None => {
                    return self.finish_error(-32602, "Missing 'query' argument");
                },
            };
            let q2 = query.clone();
            self.state = DState::CallGovDocs { arguments, query: q2 };
            Action::SearchDocuments { query }
        } else if str_eq(name.as_str(), "list-projects") {
            self.state = DState::CallListProjects { arguments };
            Action::FetchProjects
        } else if str_eq(name.as_str(), "list-documents") {
            let project: Option<String> = match obj_get(&arguments, "project") {
                Some(x) => match as_str(x) {
                    Some(s) => Some(s.clone()),
                    None => None,
                },
                None => None,
            };
            self.state = DState::CallListDocuments { arguments };
            Action::FetchDocumentIndex { project }
        } else if str_eq(name.as_str(), "list-tech-stack") {
            self.state = DState::CallTechStack { arguments };
            Action::FetchTechStackDoc
        } else {
            let n2 = name.clone();
            self.state = DState::CallLookup { name: n2, arguments };
            Action::LookupTool { name }
        }
    }
}



/// The five routed method names are pairwise distinct and none begins with
/// the notification prefix.
proof fn lemma_method_literals()
    ensures
        "initialize"@ != "tools/list"@,
        "initialize"@ != "resources/list"@,
        "initialize"@ != "resources/read"@,
        "initialize"@ != "tools/call"@,
        "tools/list"@ != "resources/list"@,
        "tools/list"@ != "resources/read"@,
        "tools/list"@ != "tools/call"@,
        "resources/list"@ != "resources/read"@,
        "resources/list"@ != "tools/call"@,
        "resources/read"@ != "tools/call"@,
        !spec_starts_with("initialize"@, "notifications/"@),
        !spec_starts_with("tools/list"@, "notifications/"@),
        !spec_starts_with("resources/list"@, "notifications/"@),
        !spec_starts_with("resources/read"@, "notifications/"@),
        !spec_starts_with("tools/call"@, "notifications/"@),
{
    reveal_strlit("initialize");
    reveal_strlit("tools/list");
    reveal_strlit("resources/list");
    reveal_strlit("resources/read");
    reveal_strlit("tools/call");
    reveal_strlit("notifications/");
    assert("initialize"@[0] != "tools/list"@[0]);
    assert("initialize"@[0] != "resources/list"@[0]);
    assert("initialize"@[0] != "resources/read"@[0]);
    assert("initialize"@[0] != "tools/call"@[0]);
    assert("tools/list"@[0] != "resources/list"@[0]);
    assert("tools/list"@[0] != "resources/read"@[0]);
    assert("tools/list"@[6] != "tools/call"@[6]);
    assert("resources/list"@[10] != "resources/read"@[10]);
    assert("resources/list"@[0] != "tools/call"@[0]);
    assert("resources/read"@[0] != "tools/call"@[0]);
    assert("initialize"@.len() != "notifications/"@.len() || true);
    assert(spec_starts_with("initialize"@, "notifications/"@) ==> false) by {
        if spec_starts_with("initialize"@, "notifications/"@) {
            assert("initialize"@.len() >= "notifications/"@.len());
        }
    }
    assert(spec_starts_with("tools/list"@, "notifications/"@) ==> false) by {
        if spec_starts_with("tools/list"@, "notifications/"@) {
            assert("tools/list"@.len() >= "notifications/"@.len());
        }
    }
    assert(spec_starts_with("resources/list"@, "notifications/"@) ==> false) by {
        if spec_starts_with("resources/list"@, "notifications/"@) {
            assert("resources/list"@.subrange(0, 14)[0] == "notifications/"@[0]);
        }
    }
    assert(spec_starts_with("resources/read"@, "notifications/"@) ==> false) by {
        if spec_starts_with("resources/read"@, "notifications/"@) {
            assert("resources/read"@.subrange(0, 14)[0] == "notifications/"@[0]);
        }
    }
    assert(spec_starts_with("tools/call"@, "notifications/"@) ==> false) by {
        if spec_starts_with("tools/call"@, "notifications/"@) {
            assert("tools/call"@.len() >= "notifications/"@.len());
        }
    }
}


/// The listing the catalog rows produce: every decoded, active definition.
pub open spec fn spec_catalog_listing(rows: Seq<JVal>) -> Seq<ToolModel> {
    spec_active_tools(spec_tools_of_rows(rows)).map_values(|t: ToolDefModel| spec_listing(t))
}

impl Dispatch {
    /// The machine's invariant: a reply held for after the audit write is
    /// well-formed and echoes this request's identifier.
    pub open spec fn inv(&self) -> bool {
        match self.state {
            DState::NeedProjectRef { record, reply } => reply.well_formed() && jval(reply.id)
                == jval(self.id),
            DState::Auditing { reply } => reply.well_formed() && jval(reply.id) == jval(self.id),
            _ => true,
        }
    }

    /// Answers `tools/list`: the decoded catalog filtered to active tools, or
    /// the store's failure as a handler-level error.
    pub fn on_tool_catalog(&mut self, rows: Result<Vec<Json>, String>) -> (r: Action)
        requires
            old(self).state is ToolsList,
            old(self).inv(),
        ensures
            spec_same_request(*old(self), *final(self)),
            final(self).inv(),
            spec_reply_ok(*final(self), r),
            final(self).state is Done,
            match rows {
                Ok(rs) => r matches Action::Reply(o) && (!old(self).notif ==> (o matches Some(resp)
                    && resp.model().result == Some(
                    spec_tools_list_result(spec_catalog_listing(jval_seq(rs@))),
                ) && resp.model().error is None)),
                Err(m) => r matches Action::Reply(o) && (!old(self).notif ==> (o matches Some(resp)
                    && resp.model().result is None && (resp.model().error matches Some(e) && e.code
                    == -32000 && e.message == m@))),
            },
    {
        match rows {
            Ok(rs) => {
                let decoded = tools_of_rows(&rs);
                let shown = active_tools(decoded);
                proof {
                    assert(shown@.map_values(|t: Tool| t.listing_model()) =~= spec_catalog_listing(
                        jval_seq(rs@),
                    )) by {
                        let ms = shown@.map_values(|t: Tool| t.model());
                        assert(ms == spec_active_tools(spec_tools_of_rows(jval_seq(rs@))));
                        assert forall|j: int| 0 <= j < shown@.len() implies shown@[
                            j
                        ].listing_model() == spec_listing(ms[j]) by {
                            assert(ms[j] == shown@[j].model());
                        }
                    }
                }
                let result = tools_list_result(&shown);
                self.finish_success(result)
            },
            Err(m) => self.finish_error(-32000, m.as_str()),
        }
    }

    /// Answers `resources/list`: one entry per stored document, or the
    /// store's failure as a handler-level error.
    pub fn on_document_list(&mut self, docs: Result<Vec<GovernanceDocument>, String>) -> (r: Action)
        requires
            old(self).state is ResourcesList,
            old(self).inv(),
        ensures
            spec_same_request(*old(self), *final(self)),
            final(self).inv(),
            spec_reply_ok(*final(self), r),
            final(self).state is Done,
            match docs {
                Ok(ds) => r matches Action::Reply(o) && (!old(self).notif ==> (o matches Some(resp)
                    && resp.model().result == Some(
                    spec_resources_list_result(ds@.map_values(|d: GovernanceDocument| d.model())),
                ) && resp.model().error is None)),
                Err(m) => r matches Action::Reply(o) && (!old(self).notif ==> (o matches Some(resp)
                    && resp.model().result is None && (resp.model().error matches Some(e) && e.code
                    == -32000 && e.message == m@))),
            },
    {
        match docs {
            Ok(ds) => {
                let result = resources_list_result(&ds);
                self.finish_success(result)
            },
            Err(m) => self.finish_error(-32000, m.as_str()),
        }
    }

    /// Takes the looked-up document of a `resources/read`: found, it moves on
    /// to the governance rules; missing, it is the resource-not-found error;
    /// a store failure is a handler-level error.
    pub fn on_document(&mut self, doc: Result<Option<GovernanceDocument>, String>) -> (r: Action)
        requires
            old(self).state is ResourceRead,
            old(self).inv(),
        ensures
            spec_same_request(*old(self), *final(self)),
            final(self).inv(),
            spec_reply_ok(*final(self), r),
            match doc {
                Ok(Some(d)) => (r matches Action::FetchRules { project } && (project matches Some(p)
                    && old(self).state matches DState::ResourceRead { project: sp, .. } && p@
                    == sp@)) && (final(self).state matches DState::ResourceRules {
                    uri,
                    mime,
                    content,
                } && (old(self).state matches DState::ResourceRead { uri: u0, .. } && uri@ == u0@)
                    && mime@ == d.mime_type@ && content@ == d.content@),
                Ok(None) => r matches Action::Reply(o) && final(self).state is Done && (!old(
                    self,
                ).notif ==> (o matches Some(resp) && resp.model().result is None && (
                resp.model().error matches Some(e) && e.code == -32001 && e.message
                    == "Resource not found"@))),
                Err(m) => r matches Action::Reply(o) && final(self).state is Done && (!old(
                    self,
                ).notif ==> (o matches Some(resp) && resp.model().result is None && (
                resp.model().error matches Some(e) && e.code == -32000 && e.message == m@))),
            },
    {
        proof {
            reveal_strlit("Resource not found");
        }
        let (uri, project) = match &self.state {
            DState::ResourceRead { uri, project } => (uri.clone(), project.clone()),
            _ => {
                return self.finish_error(-32603, "Unexpected event");
            },
        };
        match doc {
            Ok(Some(d)) => {
                self.state = DState::ResourceRules {
                    uri,
                    mime: d.mime_type,
                    content: d.content,
                };
                Action::FetchRules { project: Some(project) }
            },
            Ok(None) => self.finish_error(-32001, "Resource not found"),
            Err(m) => self.finish_error(-32000, m.as_str()),
        }
    }

    /// Takes the governance rules of a `resources/read` and answers with the
    /// document's content, the combined rules prepended under the fixed
    /// headers when any rule matched.
    pub fn on_rules(&mut self, rules: Result<Vec<Rule>, String>) -> (r: Action)
        requires
            old(self).state is ResourceRules,
            old(self).inv(),
        ensures
            spec_same_request(*old(self), *final(self)),
            final(self).inv(),
            spec_reply_ok(*final(self), r),
            final(self).state is Done,
            match rules {
                Ok(rs) => r matches Action::Reply(o) && (!old(self).notif ==> (o matches Some(resp)
                    && (old(self).state matches DState::ResourceRules { uri, mime, content }
                    && resp.model().result == Some(
                    spec_resource_read_result(
                        uri@,
                        mime@,
                        spec_resource_text(
                            spec_combined_rules(rs@.map_values(|x: Rule| spec_rule_row(x))),
                            content@,
                        ),
                    ),
                )) && resp.model().error is None)),
                Err(m) => r matches Action::Reply(o) && (!old(self).notif ==> (o matches Some(resp)
                    && resp.model().result is None && (resp.model().error matches Some(e) && e.code
                    == -32000 && e.message == m@))),
            },
    {
        let (uri, mime, content) = match &self.state {
            DState::ResourceRules { uri, mime, content } => (
                uri.clone(),
                mime.clone(),
                content.clone(),
            ),
            _ => {
                return self.finish_error(-32603, "Unexpected event");
            },
        };
        match rules {
            Ok(rs) => {
                let combined = combine_rules(&rs);
                let text = resource_text(combined.as_str(), content.as_str());
                let result = resource_read_result(uri.as_str(), mime.as_str(), text);
                self.finish_success(result)
            },
            Err(m) => self.finish_error(-32000, m.as_str()),
        }
    }
}


/// The message recorded for a finished re-indexing run.
pub open spec fn spec_indexed_msg(n: nat) -> Seq<char> {
    "Indexed "@ + spec_dec_nat(n) + " docs"@
}

/// The first document at or past `from` whose content is non-empty.
pub open spec fn spec_next_item(docs: Seq<JVal>, from: int) -> Option<int>
    decreases docs.len() - from,
{
    if from < 0 || from >= docs.len() {
        None
    } else if spec_str_member_or(docs[from], "content"@, ""@).len() > 0 {
        Some(from)
    } else {
        spec_next_item(docs, from + 1)
    }
}

/// A held reply with this content: a well-formed envelope for this request,
/// carrying the given result or the given error.
pub open spec fn spec_pending_reply(
    pre: Dispatch,
    reply: JsonRpcResponse,
    result: Option<JVal>,
    error: Option<(int, Seq<char>)>,
) -> bool {
    &&& reply.well_formed()
    &&& jval(reply.id) == jval(pre.id)
    &&& match result {
        Some(v) => reply.model().result == Some(v) && reply.model().error is None,
        None => true,
    }
    &&& match error {
        Some(ce) => reply.model().result is None && (reply.model().error matches Some(e) && e.code
            == ce.0 && e.message == ce.1),
        None => true,
    }
}

/// One audit hand-off: the record carries the call's name, arguments, status,
/// message and duration; its project reference follows `spec_project_ref`
/// (with a lookup action where only a name is known); and the given reply is
/// held until the write is acknowledged.
pub open spec fn spec_audit_step(
    pre: Dispatch,
    post: Dispatch,
    a: Action,
    name: Seq<char>,
    tool_project: Option<Seq<char>>,
    args: JVal,
    status: AuditStatus,
    msg: Seq<char>,
    now: u64,
    result: Option<JVal>,
    error: Option<(int, Seq<char>)>,
) -> bool {
    let dur = if now >= pre.start_ms {
        (now - pre.start_ms) as u64
    } else {
        0u64
    };
    match spec_project_ref(tool_project, args) {
        RefSource::Lookup(nm) => (a matches Action::LookupProjectRef { name: n } && n@ == nm) && (
        post.state matches DState::NeedProjectRef { record, reply } && record.model() == (
        AuditModel {
            tool_name: name,
            project_ref: None,
            arguments: args,
            status,
            message: msg,
            duration_ms: dur,
        }) && spec_pending_reply(pre, reply, result, error)),
        RefSource::Use(pr) => (a matches Action::WriteAudit { record } && record.model() == (
        AuditModel {
            tool_name: name,
            project_ref: Some(pr),
            arguments: args,
            status,
            message: msg,
            duration_ms: dur,
        })) && (post.state matches DState::Auditing { reply } && spec_pending_reply(
            pre,
            reply,
            result,
            error,
        )),
        RefSource::Nothing => (a matches Action::WriteAudit { record } && record.model() == (
        AuditModel {
            tool_name: name,
            project_ref: None,
            arguments: args,
            status,
            message: msg,
            duration_ms: dur,
        })) && (post.state matches DState::Auditing { reply } && spec_pending_reply(
            pre,
            reply,
            result,
            error,
        )),
    }
}

impl Dispatch {
    /// Resolves a looked-up tool name: among the decoded rows the last active
    /// definition wins; `raw_sql` takes its query text from the arguments,
    /// `dynamic_sql` binds the mapped arguments into its stored template, and
    /// anything else — no row, an inactive or undecodable row, a missing
    /// template, or an unrecognized kind — is "tool not found", audited as
    /// an error.
    pub fn on_tool_lookup(&mut self, rows: Result<Vec<Json>, String>, now_ms: u64) -> (r: Action)
        requires
            old(self).state is CallLookup,
            old(self).inv(),
        ensures
            spec_same_request(*old(self), *final(self)),
            final(self).inv(),
            spec_reply_ok(*final(self), r),
            ({
                let name = old(self).state->CallLookup_name;
                let args = jval(old(self).state->CallLookup_arguments);
                match rows {
                    Err(m) => r matches Action::Reply(o) && final(self).state is Done && (!old(
                        self,
                    ).notif ==> (o matches Some(resp) && resp.model().result is None && (
                    resp.model().error matches Some(e) && e.code == -32000 && e.message == m@))),
                    Ok(rs) => match spec_last_active(spec_tools_of_rows(jval_seq(rs@))) {
                        None => spec_audit_step(
                            *old(self),
                            *final(self),
                            r,
                            name@,
                            None,
                            args,
                            AuditStatus::Error,
                            spec_tool_not_found(name@),
                            now_ms,
                            None,
                            Some((-32601int, spec_tool_not_found(name@))),
                        ),
                        Some(t) => match t.execution_type {
                            Some(ExecutionType::RawSql) => match spec_raw_sql_arg(args) {
                                Some(sql) => (r matches Action::RunQuery { sql: s2, bindings }
                                    && s2@ == sql && bindings@.len() == 0) && (
                                final(self).state matches DState::CallRaw {
                                    name: n2,
                                    project_id,
                                    arguments,
                                } && n2@ == name@ && jval(arguments) == args && (match project_id {
                                    Some(p) => t.project_id == Some(p@),
                                    None => t.project_id is None,
                                })),
                                None => spec_is_request_error(
                                    *final(self),
                                    r,
                                    "Missing 'sql_commands' or 'sql' argument for raw_sql execution"@,
                                ) && final(self).state is Done,
                            },
                            Some(ExecutionType::DynamicSql) => match t.sql_template {
                                Some(tmpl) => (r matches Action::RunQuery { sql: s2, bindings }
                                    && s2@ == tmpl && crate::binding::spec_binding_rows(bindings@)
                                    == spec_bind_params(t.parameter_map, args)) && (
                                final(self).state matches DState::CallDynamic {
                                    name: n2,
                                    project_id,
                                    arguments,
                                } && n2@ == name@ && jval(arguments) == args && (match project_id {
                                    Some(p) => t.project_id == Some(p@),
                                    None => t.project_id is None,
                                })),
                                None => spec_audit_step(
                                    *old(self),
                                    *final(self),
                                    r,
                                    name@,
                                    None,
                                    args,
                                    AuditStatus::Error,
                                    spec_tool_not_found(name@),
                                    now_ms,
                                    None,
                                    Some((-32601int, spec_tool_not_found(name@))),
                                ),
                            },
                            _ => spec_audit_step(
                                *old(self),
                                *final(self),
                                r,
                                name@,
                                None,
                                args,
                                AuditStatus::Error,
                                spec_tool_not_found(name@),
                                now_ms,
                                None,
                                Some((-32601int, spec_tool_not_found(name@))),
                            ),
                        },
                    },
                }
            }),
    {
        proof {
            reveal_strlit("Tool not found: ");
            reveal_strlit("Missing 'sql_commands' or 'sql' argument for raw_sql execution");
        }
        let (name, arguments) = match &self.state {
            DState::CallLookup { name, arguments } => (name.clone(), arguments.duplicate()),
            _ => {
                return self.finish_error(-32603, "Unexpected event");
            },
        };
        let rs = match rows {
            Ok(rs) => rs,
            Err(m) => {
                return self.finish_error(-32000, m.as_str());
            },
        };
        let picked = pick_tool(&rs);
        match picked {
            Some(t) => {
                match t.execution_type {
                    Some(ExecutionType::RawSql) => {
                        let sql: Option<String> = match obj_get(&arguments, "sql_commands") {
                            Some(x) => match as_str(x) {
                                Some(s) => Some(s.clone()),
                                None => None,
                            },
                            None => None,
                        };
                        let sql: Option<String> = match sql {
                            Some(s) => Some(s),
                            None => match obj_get(&arguments, "sql") {
                                Some(x) => match as_str(x) {
                                    Some(s) => Some(s.clone()),
                                    None => None,
                                },
                                None => None,
                            },
                        };
                        match sql {
                            Some(sql) => {
                                self.state = DState::CallRaw {
                                    name,
                                    project_id: t.project_id,
                                    arguments,
                                };
                                Action::RunQuery { sql, bindings: Vec::new() }
                            },
                            None => self.finish_error(
                                -32602,
                                "Missing 'sql_commands' or 'sql' argument for raw_sql execution",
                            ),
                        }
                    },
                    Some(ExecutionType::DynamicSql) => {
                        match t.sql_template {
                            Some(tmpl) => {
                                let bindings = bind_parameters(&t.parameter_map, &arguments);
                                self.state = DState::CallDynamic {
                                    name,
                                    project_id: t.project_id,
                                    arguments,
                                };
                                Action::RunQuery { sql: tmpl, bindings }
                            },
                            None => self.tool_not_found(name, arguments, now_ms),
                        }
                    },
                    _ => self.tool_not_found(name, arguments, now_ms),
                }
            },
            None => self.tool_not_found(name, arguments, now_ms),
        }
    }

    /// The "tool not found" outcome: an error audit entry, then the
    /// tool-not-found error.
    fn tool_not_found(&mut self, name: String, arguments: Json, now_ms: u64) -> (r: Action)
        ensures
            spec_same_request(*old(self), *final(self)),
            final(self).inv(),
            spec_reply_ok(*final(self), r),
            spec_audit_step(
                *old(self),
                *final(self),
                r,
                name@,
                None,
                jval(arguments),
                AuditStatus::Error,
                spec_tool_not_found(name@),
                now_ms,
                None,
                Some((-32601int, spec_tool_not_found(name@))),
            ),
    {
        proof {
            reveal_strlit("Tool not found: ");
        }
        let mut msg = "Tool not found: ".to_owned();
        msg.append(name.as_str());
        let reply = self.pending_error(-32601, msg.as_str());
        self.begin_audit(name, None, arguments, AuditStatus::Error, msg, now_ms, reply)
    }
}


impl Dispatch {
    /// Takes a query outcome of a `raw_sql` or `dynamic_sql` call: success is
    /// normalized (collected under the cap, scalar fallback, unwrapped,
    /// rendered under the kind's label) and audited; failure is audited with
    /// the kind's message prefix and becomes a handler-level error.
    pub fn on_query_done(&mut self, outcome: Result<QueryOutcome, String>, now_ms: u64) -> (r:
        Action)
        requires
            old(self).state is CallRaw || old(self).state is CallDynamic,
            old(self).inv(),
        ensures
            spec_same_request(*old(self), *final(self)),
            final(self).inv(),
            spec_reply_ok(*final(self), r),
            ({
                let raw = old(self).state is CallRaw;
                let name = if raw {
                    old(self).state->CallRaw_name
                } else {
                    old(self).state->CallDynamic_name
                };
                let project = if raw {
                    old(self).state->CallRaw_project_id
                } else {
                    old(self).state->CallDynamic_project_id
                };
                let args = jval(
                    if raw {
                        old(self).state->CallRaw_arguments
                    } else {
                        old(self).state->CallDynamic_arguments
                    },
                );
                let label = if raw {
                    "Raw SQL Result"@
                } else {
                    "Dynamic Tool Result"@
                };
                let pm = match project {
                    Some(p) => Some(p@),
                    None => None,
                };
                match outcome {
                    Ok(q) => spec_audit_step(
                        *old(self),
                        *final(self),
                        r,
                        name@,
                        pm,
                        args,
                        AuditStatus::Success,
                        if raw {
                            "Raw SQL executed"@
                        } else {
                            "Dynamic SQL executed"@
                        },
                        now_ms,
                        Some(
                            spec_call_tool_result(
                                spec_normalized_output(
                                    spec_sets(q.sets@),
                                    match q.scalar {
                                        Some(v) => Some(jval(v)),
                                        None => None,
                                    },
                                    label,
                                ),
                                false,
                            ),
                        ),
                        None,
                    ),
                    Err(m) => spec_audit_step(
                        *old(self),
                        *final(self),
                        r,
                        name@,
                        pm,
                        args,
                        AuditStatus::Error,
                        (if raw {
                            "SQL Error: "@
                        } else {
                            "Execution Error: "@
                        }) + m@,
                        now_ms,
                        None,
                        Some((-32000int, m@)),
                    ),
                }
            }),
    {
        proof {
            reveal_strlit("Raw SQL Result");
            reveal_strlit("Dynamic Tool Result");
            reveal_strlit("Raw SQL executed");
            reveal_strlit("Dynamic SQL executed");
            reveal_strlit("SQL Error: ");
            reveal_strlit("Execution Error: ");
        }
        let raw: bool = match &self.state {
            DState::CallRaw { .. } => true,
            _ => false,
        };
        let (name, project_id, arguments) = match &self.state {
            DState::CallRaw { name, project_id, arguments } => (
                name.clone(),
                match project_id {
                    Some(p) => Some(p.clone()),
                    None => None,
                },
                arguments.duplicate(),
            ),
            DState::CallDynamic { name, project_id, arguments } => (
                name.clone(),
                match project_id {
                    Some(p) => Some(p.clone()),
                    None => None,
                },
                arguments.duplicate(),
            ),
            _ => {
                return self.finish_error(-32603, "Unexpected event");
            },
        };
        match outcome {
            Ok(q) => {
                let label: &str = if raw {
                    "Raw SQL Result"
                } else {
                    "Dynamic Tool Result"
                };
                let text = normalized_output(
                    &q.sets,
                    match &q.scalar {
                        Some(v) => Some(v),
                        None => None,
                    },
                    label,
                );
                let reply = self.pending_success(call_tool_result(text, false));
                let msg: String = if raw {
                    "Raw SQL executed".to_owned()
                } else {
                    "Dynamic SQL executed".to_owned()
                };
                self.begin_audit(
                    name,
                    project_id,
                    arguments,
                    AuditStatus::Success,
                    msg,
                    now_ms,
                    reply,
                )
            },
            Err(m) => {
                let mut msg: String = if raw {
                    "SQL Error: ".to_owned()
                } else {
                    "Execution Error: ".to_owned()
                };
                msg.append(m.as_str());
                let reply = self.pending_error(-32000, m.as_str());
                self.begin_audit(
                    name,
                    project_id,
                    arguments,
                    AuditStatus::Error,
                    msg,
                    now_ms,
                    reply,
                )
            },
        }
    }

    /// Takes the collection check: a semantic search moves on to the vector
    /// search; a re-indexing run starts walking the fetched documents; a
    /// failure is audited and becomes a handler-level error.
    pub fn on_collection_done(&mut self, res: Result<(), String>, now_ms: u64) -> (r: Action)
        requires
            old(self).state is CallSemanticCollection || old(self).state is CallIndexCollection,
            old(self).inv(),
        ensures
            spec_same_request(*old(self), *final(self)),
            final(self).inv(),
            spec_reply_ok(*final(self), r),
            old(self).state matches DState::CallSemanticCollection { arguments, query, limit }
                ==> match res {
                Ok(_) => (r matches Action::VectorSearch { collection, query: q2, limit: l2 }
                    && collection@ == "documentation"@ && q2@ == query@ && l2 == limit) && (
                final(self).state matches DState::CallSemanticSearch {
                    arguments: a2,
                    query: q3,
                    limit: l3,
                } && jval(a2) == jval(arguments) && q3@ == query@ && l3 == limit),
                Err(m) => spec_audit_step(
                    *old(self),
                    *final(self),
                    r,
                    "search-semantic"@,
                    None,
                    jval(arguments),
                    AuditStatus::Error,
                    m@,
                    now_ms,
                    None,
                    Some((-32000int, m@)),
                ),
            },
            old(self).state matches DState::CallIndexCollection { arguments, docs } ==> match res {
                Ok(_) => spec_indexing_advance(
                    *old(self),
                    *final(self),
                    r,
                    jval(arguments),
                    jval_seq(docs@),
                    0,
                    0,
                    Seq::empty(),
                    now_ms,
                ),
                Err(m) => spec_audit_step(
                    *old(self),
                    *final(self),
                    r,
                    "index-documents"@,
                    None,
                    jval(arguments),
                    AuditStatus::Error,
                    m@,
                    now_ms,
                    None,
                    Some((-32000int, m@)),
                ),
            },
    {
        proof {
            reveal_strlit("search-semantic");
            reveal_strlit("index-documents");
            reveal_strlit("documentation");
        }
        let mut st = DState::Done;
        core::mem::swap(&mut self.state, &mut st);
        match st {
            DState::CallSemanticCollection { arguments, query, limit } => {
                match res {
                    Ok(_) => {
                        let q2 = query.clone();
                        self.state = DState::CallSemanticSearch { arguments, query, limit };
                        Action::VectorSearch {
                            collection: "documentation".to_owned(),
                            query: q2,
                            limit,
                        }
                    },
                    Err(m) => {
                        let reply = self.pending_error(-32000, m.as_str());
                        self.begin_audit(
                            "search-semantic".to_owned(),
                            None,
                            arguments,
                            AuditStatus::Error,
                            m,
                            now_ms,
                            reply,
                        )
                    },
                }
            },
            DState::CallIndexCollection { arguments, docs } => {
                match res {
                    Ok(_) => {
                        let errs: Vec<String> = Vec::new();
                        proof {
                            assert(errs@.map_values(|e: String| e@) =~= Seq::<Seq<char>>::empty());
                        }
                        self.advance_indexing(arguments, docs, 0, 0, errs, now_ms)
                    },
                    Err(m) => {
                        let reply = self.pending_error(-32000, m.as_str());
                        self.begin_audit(
                            "index-documents".to_owned(),
                            None,
                            arguments,
                            AuditStatus::Error,
                            m,
                            now_ms,
                            reply,
                        )
                    },
                }
            },
            _ => self.finish_error(-32603, "Unexpected event"),
        }
    }

    /// Takes the vector search results of a semantic search: renders them,
    /// audits the call, and holds the reply for the audit write; a failure is
    /// audited and becomes a handler-level error.
    pub fn on_search_done(&mut self, hits: Result<Vec<SearchHit>, String>, now_ms: u64) -> (r:
        Action)
        requires
            old(self).state is CallSemanticSearch,
            old(self).inv(),
        ensures
            spec_same_request(*old(self), *final(self)),
            final(self).inv(),
            spec_reply_ok(*final(self), r),
            ({
                let args = jval(old(self).state->CallSemanticSearch_arguments);
                match hits {
                    Ok(hs) => spec_audit_step(
                        *old(self),
                        *final(self),
                        r,
                        "search-semantic"@,
                        None,
                        args,
                        AuditStatus::Success,
                        "Semantic search completed"@,
                        now_ms,
                        Some(
                            spec_call_tool_result(
                                spec_semantic_output(hs@.map_values(|h: SearchHit| h.model())),
                                false,
                            ),
                        ),
                        None,
                    ),
                    Err(m) => spec_audit_step(
                        *old(self),
                        *final(self),
                        r,
                        "search-semantic"@,
                        None,
                        args,
                        AuditStatus::Error,
                        m@,
                        now_ms,
                        None,
                        Some((-32000int, m@)),
                    ),
                }
            }),
    {
        proof {
            reveal_strlit("search-semantic");
            reveal_strlit("Semantic search completed");
        }
        let mut st = DState::Done;
        core::mem::swap(&mut self.state, &mut st);
        match st {
            DState::CallSemanticSearch { arguments, query: _, limit: _ } => {
                match hits {
                    Ok(hs) => {
                        let text = semantic_output(&hs);
                        let reply = self.pending_success(call_tool_result(text, false));
                        self.begin_audit(
                            "search-semantic".to_owned(),
                            None,
                            arguments,
                            AuditStatus::Success,
                            "Semantic search completed".to_owned(),
                            now_ms,
                            reply,
                        )
                    },
                    Err(m) => {
                        let reply = self.pending_error(-32000, m.as_str());
                        self.begin_audit(
                            "search-semantic".to_owned(),
                            None,
                            arguments,
                            AuditStatus::Error,
                            m,
                            now_ms,
                            reply,
                        )
                    },
                }
            },
            _ => self.finish_error(-32603, "Unexpected event"),
        }
    }

    /// Takes the fetched documentation rows of a re-indexing run: on success
    /// the collection is checked next; a fetch failure ends the run early,
    /// answered as a non-error reply whose text flags the failure.
    pub fn on_docs_fetched(&mut self, docs: Result<Vec<Json>, String>) -> (r: Action)
        requires
            old(self).state is CallIndexFetch,
            old(self).inv(),
        ensures
            spec_same_request(*old(self), *final(self)),
            final(self).inv(),
            spec_reply_ok(*final(self), r),
            ({
                let args = jval(old(self).state->CallIndexFetch_arguments);
                match docs {
                    Ok(ds) => (r matches Action::EnsureCollection { collection, dims }
                        && collection@ == "documentation"@ && dims == 1536) && (
                    final(self).state matches DState::CallIndexCollection { arguments: a2, docs: d2 }
                        && jval(a2) == args && jval_seq(d2@) == jval_seq(ds@)),
                    Err(m) => r matches Action::Reply(o) && final(self).state is Done && (!old(
                        self,
                    ).notif ==> (o matches Some(resp) && resp.model().result == Some(
                        spec_call_tool_result("Error fetching documents: "@ + m@, true),
                    ) && resp.model().error is None)),
                }
            }),
    {
        proof {
            reveal_strlit("documentation");
            reveal_strlit("Error fetching documents: ");
        }
        let mut st = DState::Done;
        core::mem::swap(&mut self.state, &mut st);
        match st {
            DState::CallIndexFetch { arguments } => {
                match docs {
                    Ok(ds) => {
                        self.state = DState::CallIndexCollection { arguments, docs: ds };
                        Action::EnsureCollection {
                            collection: "documentation".to_owned(),
                            dims: 1536,
                        }
                    },
                    Err(m) => {
                        let mut text = "Error fetching documents: ".to_owned();
                        text.append(m.as_str());
                        self.finish_success(call_tool_result(text, true))
                    },
                }
            },
            _ => self.finish_error(-32603, "Unexpected event"),
        }
    }
}


/// One advance of a re-indexing walk: the next document with content is
/// prepared and upserted; with none left, the run is summarized and audited.
pub open spec fn spec_indexing_advance(
    pre: Dispatch,
    post: Dispatch,
    a: Action,
    args: JVal,
    docs: Seq<JVal>,
    next: int,
    indexed: u64,
    errors: Seq<Seq<char>>,
    now: u64,
) -> bool {
    match spec_next_item(docs, next) {
        Some(j) => (a matches Action::UpsertDocument { collection, point_id, text, metadata }
            && collection@ == "documentation"@ && point_id@.len() == 36 && text@ == spec_index_text(
            docs[j],
        ) && jval(metadata) == spec_index_metadata(docs[j])) && (
        post.state matches DState::CallIndexing {
            arguments: a2,
            docs: d2,
            next: n2,
            indexed: i2,
            errors: e2,
            pending_name,
        } && jval(a2) == args && jval_seq(d2@) == docs && n2 == j + 1 && i2 == indexed
            && e2@.map_values(|e: String| e@) == errors && pending_name@ == spec_str_member_or(
            docs[j],
            "name"@,
            "Unnamed Document"@,
        )),
        None => spec_audit_step(
            pre,
            post,
            a,
            "index-documents"@,
            None,
            args,
            AuditStatus::Success,
            spec_indexed_msg(indexed as nat),
            now,
            Some(spec_call_tool_result(spec_index_summary(indexed as nat, errors), false)),
            None,
        ),
    }
}

impl Dispatch {
    /// Walks the fetched documents from `next` on: skips documents with empty
    /// content, upserts the first indexable one, and summarizes and audits
    /// the run once none remain, exactly as `spec_indexing_advance` states.
    fn advance_indexing(
        &mut self,
        arguments: Json,
        docs: Vec<Json>,
        next: usize,
        indexed: u64,
        errors: Vec<String>,
        now_ms: u64,
    ) -> (r: Action)
        ensures
            spec_same_request(*old(self), *final(self)),
            final(self).inv(),
            spec_reply_ok(*final(self), r),
            spec_indexing_advance(
                *old(self),
                *final(self),
                r,
                jval(arguments),
                jval_seq(docs@),
                next as int,
                indexed,
                errors@.map_values(|e: String| e@),
                now_ms,
            ),
    {
        proof {
            reveal_strlit("documentation");
            reveal_strlit("index-documents");
            reveal_strlit("Unnamed Document");
            reveal_strlit("Indexed ");
            reveal_strlit(" docs");
        }
        let ghost models = jval_seq(docs@);
        let mut j: usize = next;
        if j > docs.len() {
            j = docs.len();
        }
        proof {
            if next as int >= models.len() {
                assert(spec_next_item(models, next as int) is None);
                assert(spec_next_item(models, j as int) is None);
            }
        }
        while j < docs.len()
            invariant
                0 <= j <= docs@.len(),
                *self == *old(self),
                models == jval_seq(docs@),
                models.len() == docs@.len(),
                spec_next_item(models, next as int) == spec_next_item(models, j as int),
            decreases docs@.len() - j,
        {
            proof {
                assert(models[j as int] == jval(docs@[j as int]));
            }
            match index_item(&docs[j]) {
                Some(p) => {
                    let pending_name = crate::builders::str_member_or(
                        &docs[j],
                        "name",
                        "Unnamed Document",
                    );
                    let point_id = new_uuid();
                    proof {
                        assert(spec_next_item(models, j as int) == Some(j as int));
                    }
                    self.state = DState::CallIndexing {
                        arguments,
                        docs,
                        next: j + 1,
                        indexed,
                        errors,
                        pending_name,
                    };
                    return Action::UpsertDocument {
                        collection: "documentation".to_owned(),
                        point_id,
                        text: p.0,
                        metadata: p.1,
                    };
                },
                None => {},
            }
            j += 1;
        }
        proof {
            assert(spec_next_item(models, j as int) is None);
        }
        let summary = index_summary(indexed, &errors);
        let reply = self.pending_success(call_tool_result(summary, false));
        let mut msg = "Indexed ".to_owned();
        msg.append(u64_to_string(indexed).as_str());
        msg.append(" docs");
        self.begin_audit(
            "index-documents".to_owned(),
            None,
            arguments,
            AuditStatus::Success,
            msg,
            now_ms,
            reply,
        )
    }

    /// Takes one upsert outcome of a re-indexing run: success counts the
    /// document, failure notes it under the document's name; either way the
    /// walk advances.
    pub fn on_upserted(&mut self, res: Result<(), String>, now_ms: u64) -> (r: Action)
        requires
            old(self).state is CallIndexing,
            old(self).inv(),
        ensures
            spec_same_request(*old(self), *final(self)),
            final(self).inv(),
            spec_reply_ok(*final(self), r),
            ({
                let st = old(self).state;
                let args = jval(st->CallIndexing_arguments);
                let docs = jval_seq(st->CallIndexing_docs@);
                let next = st->CallIndexing_next as int;
                let indexed = st->CallIndexing_indexed;
                let errors = st->CallIndexing_errors@.map_values(|e: String| e@);
                let pending = st->CallIndexing_pending_name@;
                match res {
                    Ok(_) => spec_indexing_advance(
                        *old(self),
                        *final(self),
                        r,
                        args,
                        docs,
                        next,
                        if indexed == u64::MAX {
                            indexed
                        } else {
                            (indexed + 1) as u64
                        },
                        errors,
                        now_ms,
                    ),
                    Err(m) => spec_indexing_advance(
                        *old(self),
                        *final(self),
                        r,
                        args,
                        docs,
                        next,
                        indexed,
                        errors.push(pending + ": "@ + m@),
                        now_ms,
                    ),
                }
            }),
    {
        proof {
            reveal_strlit(": ");
        }
        let mut st = DState::Done;
        core::mem::swap(&mut self.state, &mut st);
        match st {
            DState::CallIndexing { arguments, docs, next, indexed, mut errors, pending_name } => {
                match res {
                    Ok(_) => {
                        let indexed2: u64 = if indexed == u64::MAX {
                            indexed
                        } else {
                            indexed + 1
                        };
                        self.advance_indexing(arguments, docs, next, indexed2, errors, now_ms)
                    },
                    Err(m) => {
                        let ghost before = errors@;
                        let mut note = pending_name;
                        note.append(": ");
                        note.append(m.as_str());
                        errors.push(note);
                        proof {
                            assert(errors@.map_values(|e: String| e@) =~= before.map_values(
                                |e: String| e@,
                            ).push(errors@[before.len() as int]@));
                        }
                        self.advance_indexing(arguments, docs, next, indexed, errors, now_ms)
                    },
                }
            },
            _ => self.finish_error(-32603, "Unexpected event"),
        }
    }

    /// Takes the rows of a built-in listing or search step: the governance
    /// search chains its incident query after its documentation query; every
    /// other built-in renders its block, is audited, and holds its reply for
    /// the audit write. A store failure is audited and becomes a
    /// handler-level error.
    pub fn on_rows(&mut self, rows: Result<Vec<Json>, String>, now_ms: u64) -> (r: Action)
        requires
            old(self).state is CallGovDocs || old(self).state is CallGovIncidents || old(
                self,
            ).state is CallListProjects || old(self).state is CallListDocuments || old(
                self,
            ).state is CallTechStack,
            old(self).inv(),
        ensures
            spec_same_request(*old(self), *final(self)),
            final(self).inv(),
            spec_reply_ok(*final(self), r),
            old(self).state matches DState::CallGovDocs { arguments, query } ==> match rows {
                Ok(rs) => (r matches Action::SearchIncidents { query: q2 } && q2@ == query@) && (
                final(self).state matches DState::CallGovIncidents {
                    arguments: a2,
                    query: q3,
                    doc_hits,
                } && jval(a2) == jval(arguments) && q3@ == query@ && jval_seq(doc_hits@) == jval_seq(
                    rs@,
                )),
                Err(m) => spec_audit_step(
                    *old(self),
                    *final(self),
                    r,
                    "search-governance"@,
                    None,
                    jval(arguments),
                    AuditStatus::Error,
                    m@,
                    now_ms,
                    None,
                    Some((-32000int, m@)),
                ),
            },
            old(self).state matches DState::CallGovIncidents { arguments, query, doc_hits }
                ==> match rows {
                Ok(rs) => spec_audit_step(
                    *old(self),
                    *final(self),
                    r,
                    "search-governance"@,
                    None,
                    jval(arguments),
                    AuditStatus::Success,
                    "Governance search completed"@,
                    now_ms,
                    Some(
                        spec_call_tool_result(
                            spec_gov_search_output(query@, jval_seq(doc_hits@), jval_seq(rs@)),
                            false,
                        ),
                    ),
                    None,
                ),
                Err(m) => spec_audit_step(
                    *old(self),
                    *final(self),
                    r,
                    "search-governance"@,
                    None,
                    jval(arguments),
                    AuditStatus::Error,
                    m@,
                    now_ms,
                    None,
                    Some((-32000int, m@)),
                ),
            },
            old(self).state matches DState::CallListProjects { arguments } ==> match rows {
                Ok(rs) => spec_audit_step(
                    *old(self),
                    *final(self),
                    r,
                    "list-projects"@,
                    None,
                    jval(arguments),
                    AuditStatus::Success,
                    "Projects listed"@,
                    now_ms,
                    Some(spec_call_tool_result(spec_projects_output(jval_seq(rs@)), false)),
                    None,
                ),
                Err(m) => spec_audit_step(
                    *old(self),
                    *final(self),
                    r,
                    "list-projects"@,
                    None,
                    jval(arguments),
                    AuditStatus::Error,
                    m@,
                    now_ms,
                    None,
                    Some((-32000int, m@)),
                ),
            },
            old(self).state matches DState::CallListDocuments { arguments } ==> match rows {
                Ok(rs) => spec_audit_step(
                    *old(self),
                    *final(self),
                    r,
                    "list-documents"@,
                    None,
                    jval(arguments),
                    AuditStatus::Success,
                    "Documents listed"@,
                    now_ms,
                    Some(spec_call_tool_result(spec_documents_output(jval_seq(rs@)), false)),
                    None,
                ),
                Err(m) => spec_audit_step(
                    *old(self),
                    *final(self),
                    r,
                    "list-documents"@,
                    None,
                    jval(arguments),
                    AuditStatus::Error,
                    m@,
                    now_ms,
                    None,
                    Some((-32000int, m@)),
                ),
            },
            old(self).state matches DState::CallTechStack { arguments } ==> match rows {
                Ok(rs) => spec_audit_step(
                    *old(self),
                    *final(self),
                    r,
                    "list-tech-stack"@,
                    None,
                    jval(arguments),
                    AuditStatus::Success,
                    "Tech stack fetched"@,
                    now_ms,
                    Some(
                        spec_call_tool_result(
                            spec_tech_stack_output(
                                if jval_seq(rs@).len() > 0 {
                                    Some(jval_seq(rs@)[0])
                                } else {
                                    None
                                },
                            ),
                            false,
                        ),
                    ),
                    None,
                ),
                Err(m) => spec_audit_step(
                    *old(self),
                    *final(self),
                    r,
                    "list-tech-stack"@,
                    None,
                    jval(arguments),
                    AuditStatus::Error,
                    m@,
                    now_ms,
                    None,
                    Some((-32000int, m@)),
                ),
            },
    {
        proof {
            reveal_strlit("search-governance");
            reveal_strlit("list-projects");
            reveal_strlit("list-documents");
            reveal_strlit("list-tech-stack");
            reveal_strlit("Governance search completed");
            reveal_strlit("Projects listed");
            reveal_strlit("Documents listed");
            reveal_strlit("Tech stack fetched");
        }
        let mut st = DState::Done;
        core::mem::swap(&mut self.state, &mut st);
        match st {
            DState::CallGovDocs { arguments, query } => {
                match rows {
                    Ok(rs) => {
                        let q2 = query.clone();
                        self.state = DState::CallGovIncidents { arguments, query, doc_hits: rs };
                        Action::SearchIncidents { query: q2 }
                    },
                    Err(m) => {
                        let reply = self.pending_error(-32000, m.as_str());
                        self.begin_audit(
                            "search-governance".to_owned(),
                            None,
                            arguments,
                            AuditStatus::Error,
                            m,
                            now_ms,
                            reply,
                        )
                    },
                }
            },
            DState::CallGovIncidents { arguments, query, doc_hits } => {
                match rows {
                    Ok(rs) => {
                        let text = gov_search_output(query.as_str(), &doc_hits, &rs);
                        let reply = self.pending_success(call_tool_result(text, false));
                        self.begin_audit(
                            "search-governance".to_owned(),
                            None,
                            arguments,
                            AuditStatus::Success,
                            "Governance search completed".to_owned(),
                            now_ms,
                            reply,
                        )
                    },
                    Err(m) => {
                        let reply = self.pending_error(-32000, m.as_str());
                        self.begin_audit(
                            "search-governance".to_owned(),
                            None,
                            arguments,
                            AuditStatus::Error,
                            m,
                            now_ms,
                            reply,
                        )
                    },
                }
            },
            DState::CallListProjects { arguments } => {
                match rows {
                    Ok(rs) => {
                        let text = projects_output(rs);
                        let reply = self.pending_success(call_tool_result(text, false));
                        self.begin_audit(
                            "list-projects".to_owned(),
                            None,
                            arguments,
                            AuditStatus::Success,
                            "Projects listed".to_owned(),
                            now_ms,
                            reply,
                        )
                    },
                    Err(m) => {
                        let reply = self.pending_error(-32000, m.as_str());
                        self.begin_audit(
                            "list-projects".to_owned(),
                            None,
                            arguments,
                            AuditStatus::Error,
                            m,
                            now_ms,
                            reply,
                        )
                    },
                }
            },
            DState::CallListDocuments { arguments } => {
                match rows {
                    Ok(rs) => {
                        let text = documents_output(rs);
                        let reply = self.pending_success(call_tool_result(text, false));
                        self.begin_audit(
                            "list-documents".to_owned(),
                            None,
                            arguments,
                            AuditStatus::Success,
                            "Documents listed".to_owned(),
                            now_ms,
                            reply,
                        )
                    },
                    Err(m) => {
                        let reply = self.pending_error(-32000, m.as_str());
                        self.begin_audit(
                            "list-documents".to_owned(),
                            None,
                            arguments,
                            AuditStatus::Error,
                            m,
                            now_ms,
                            reply,
                        )
                    },
                }
            },
            DState::CallTechStack { arguments } => {
                match rows {
                    Ok(rs) => {
                        let text = tech_stack_output(&rs);
                        let reply = self.pending_success(call_tool_result(text, false));
                        self.begin_audit(
                            "list-tech-stack".to_owned(),
                            None,
                            arguments,
                            AuditStatus::Success,
                            "Tech stack fetched".to_owned(),
                            now_ms,
                            reply,
                        )
                    },
                    Err(m) => {
                        let reply = self.pending_error(-32000, m.as_str());
                        self.begin_audit(
                            "list-tech-stack".to_owned(),
                            None,
                            arguments,
                            AuditStatus::Error,
                            m,
                            now_ms,
                            reply,
                        )
                    },
                }
            },
            _ => self.finish_error(-32603, "Unexpected event"),
        }
    }

    /// Takes a looked-up project reference and asks for the audit record to
    /// be written with it.
    pub fn on_project_ref(&mut self, pref: Option<String>) -> (r: Action)
        requires
            old(self).state is NeedProjectRef,
            old(self).inv(),
        ensures
            spec_same_request(*old(self), *final(self)),
            final(self).inv(),
            spec_reply_ok(*final(self), r),
            old(self).state matches DState::NeedProjectRef { record, reply } ==> (
            r matches Action::WriteAudit { record: rec2 } && rec2.model() == (AuditModel {
                project_ref: match pref {
                    Some(p) => Some(p@),
                    None => None,
                },
                ..record.model()
            })) && (final(self).state matches DState::Auditing { reply: held } && held == reply),
    {
        let mut st = DState::Done;
        core::mem::swap(&mut self.state, &mut st);
        match st {
            DState::NeedProjectRef { record, reply } => {
                let rec2 = AuditRecord { project_ref: pref, ..record };
                self.state = DState::Auditing { reply };
                Action::WriteAudit { record: rec2 }
            },
            _ => self.finish_error(-32603, "Unexpected event"),
        }
    }

    /// Takes the audit-write acknowledgement and delivers the held reply —
    /// silence for a notification. The audit outcome itself never alters the
    /// reply.
    pub fn on_audit_written(&mut self) -> (r: Action)
        requires
            old(self).state is Auditing,
            old(self).inv(),
        ensures
            spec_same_request(*old(self), *final(self)),
            final(self).inv(),
            spec_reply_ok(*final(self), r),
            final(self).state is Done,
            old(self).state matches DState::Auditing { reply } ==> (r matches Action::Reply(o) && (
            if old(self).notif {
                o is None
            } else {
                o == Some(reply)
            })),
    {
        let mut st = DState::Done;
        core::mem::swap(&mut self.state, &mut st);
        match st {
            DState::Auditing { reply } => {
                if self.notif {
                    Action::Reply(None)
                } else {
                    Action::Reply(Some(reply))
                }
            },
            _ => self.finish_error(-32603, "Unexpected event"),
        }
    }

    /// Advances the machine by one event. Every outcome preserves the
    /// request's identity and the reply discipline: a notification is never
    /// answered, and any reply is a well-formed envelope echoing the
    /// request's identifier. The per-event behavior is stated on the
    /// transition methods this dispatches to.
    pub fn step(&mut self, event: Event, now_ms: u64) -> (r: Action)
        requires
            old(self).inv(),
        ensures
            spec_same_request(*old(self), *final(self)),
            final(self).inv(),
            spec_reply_ok(*final(self), r),
    {
        match event {
            Event::ToolCatalog(res) => {
                let ok = match &self.state {
                    DState::ToolsList => true,
                    _ => false,
                };
                if ok {
                    self.on_tool_catalog(res)
                } else {
                    self.finish_error(-32603, "Unexpected event")
                }
            },
            Event::DocumentList(res) => {
                let ok = match &self.state {
                    DState::ResourcesList => true,
                    _ => false,
                };
                if ok {
                    self.on_document_list(res)
                } else {
                    self.finish_error(-32603, "Unexpected event")
                }
            },
            Event::Document(res) => {
                let ok = match &self.state {
                    DState::ResourceRead { .. } => true,
                    _ => false,
                };
                if ok {
                    self.on_document(res)
                } else {
                    self.finish_error(-32603, "Unexpected event")
                }
            },
            Event::Rules(res) => {
                let ok = match &self.state {
                    DState::ResourceRules { .. } => true,
                    _ => false,
                };
                if ok {
                    self.on_rules(res)
                } else {
                    self.finish_error(-32603, "Unexpected event")
                }
            },
            Event::ToolLookup(res) => {
                let ok = match &self.state {
                    DState::CallLookup { .. } => true,
                    _ => false,
                };
                if ok {
                    self.on_tool_lookup(res, now_ms)
                } else {
                    self.finish_error(-32603, "Unexpected event")
                }
            },
            Event::QueryDone(res) => {
                let ok = match &self.state {
                    DState::CallRaw { .. } => true,
                    DState::CallDynamic { .. } => true,
                    _ => false,
                };
                if ok {
                    self.on_query_done(res, now_ms)
                } else {
                    self.finish_error(-32603, "Unexpected event")
                }
            },
            Event::CollectionDone(res) => {
                let ok = match &self.state {
                    DState::CallSemanticCollection { .. } => true,
                    DState::CallIndexCollection { .. } => true,
                    _ => false,
                };
                if ok {
                    self.on_collection_done(res, now_ms)
                } else {
                    self.finish_error(-32603, "Unexpected event")
                }
            },
            Event::SearchDone(res) => {
                let ok = match &self.state {
                    DState::CallSemanticSearch { .. } => true,
                    _ => false,
                };
                if ok {
                    self.on_search_done(res, now_ms)
                } else {
                    self.finish_error(-32603, "Unexpected event")
                }
            },
            Event::DocsFetched(res) => {
                let ok = match &self.state {
                    DState::CallIndexFetch { .. } => true,
                    _ => false,
                };
                if ok {
                    self.on_docs_fetched(res)
                } else {
                    self.finish_error(-32603, "Unexpected event")
                }
            },
            Event::Upserted(res) => {
                let ok = match &self.state {
                    DState::CallIndexing { .. } => true,
                    _ => false,
                };
                if ok {
                    self.on_upserted(res, now_ms)
                } else {
                    self.finish_error(-32603, "Unexpected event")
                }
            },
            Event::Rows(res) => {
                let ok = match &self.state {
                    DState::CallGovDocs { .. } => true,
                    DState::CallGovIncidents { .. } => true,
                    DState::CallListProjects { .. } => true,
                    DState::CallListDocuments { .. } => true,
                    DState::CallTechStack { .. } => true,
                    _ => false,
                };
                if ok {
                    self.on_rows(res, now_ms)
                } else {
                    self.finish_error(-32603, "Unexpected event")
                }
            },
            Event::ProjectRef(pref) => {
                let ok = match &self.state {
                    DState::NeedProjectRef { .. } => true,
                    _ => false,
                };
                if ok {
                    self.on_project_ref(pref)
                } else {
                    self.finish_error(-32603, "Unexpected event")
                }
            },
            Event::AuditWritten => {
                let ok = match &self.state {
                    DState::Auditing { .. } => true,
                    _ => false,
                };
                if ok {
                    self.on_audit_written()
                } else {
                    self.finish_error(-32603, "Unexpected event")
                }
            },
        }
    }
}


/// A request with no identifier never yields a reply, whatever the routing or
/// the outcome: every emitted `Reply` of a notification is silence.
pub proof fn lemma_notification_silent(d: Dispatch, a: Action)
    requires
        d.notif,
        spec_reply_ok(d, a),
        a is Reply,
    ensures
        a->Reply_0 is None,
{
}

/// Every reply echoes the request's identifier exactly, whatever JSON value
/// it was.
pub proof fn lemma_reply_id_echo(d: Dispatch, a: Action, resp: JsonRpcResponse)
    requires
        spec_reply_ok(d, a),
        a == Action::Reply(Some(resp)),
    ensures
        jval(resp.id) == jval(d.id),
        resp.well_formed(),
{
}

} // verus!
