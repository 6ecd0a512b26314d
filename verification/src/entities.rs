//! Domain data carried through the engine: documents, rules, projects,
//! incidents, tools, and the audit trail.
//!
//! Timestamps are held as milliseconds since the Unix epoch; the embedding
//! program converts to and from its calendar library at the boundary.
use vstd::prelude::*;
use crate::json::Json;

verus! {

/// A governance document addressed as `kyx://project/phase/name`.
pub struct GovernanceDocument {
    pub title: String,
    pub content: String,
    pub project_name: String,
    pub sdlc_phase: String,
    pub name: String,
    pub mime_type: String,
}

/// One governance rule row: its text, priority, and scope kind.
pub struct Rule {
    pub content: String,
    pub priority: i32,
    pub rule_type: String,
}

/// A governance rule with its audit fields.
pub struct GovernanceRule {
    pub id: String,
    pub rule_type: RuleType,
    pub project_id: Option<String>,
    pub category: String,
    pub content: String,
    pub priority: i32,
    pub created_at_ms: i64,
    pub updated_at_ms: i64,
}

/// The lifecycle phase a document belongs to.
pub enum SdlcPhase {
    Planning,
    Design,
    Implementation,
    Verification,
    Maintenance,
}

/// Whether a rule applies everywhere or to one project.
pub enum RuleType {
    Global,
    Project,
}

/// The broad category of a documentation entry.
pub enum DocumentationCategory {
    Database,
    Project,
    Standard,
    Core,
    Api,
    Guide,
}

/// A documentation entry as stored.
pub struct Documentation {
    pub id: Option<String>,
    pub project_id: String,
    pub sdlc_phase: String,
    pub name: String,
    pub title: String,
    pub content: String,
    pub mime_type: String,
    pub metadata: Json,
    pub created_at_ms: Option<i64>,
}

/// A recorded incident with its symptom and (possibly pending) solution.
pub struct Incident {
    pub title: String,
    pub symptom: String,
    pub root_cause: Option<String>,
    pub solution: Option<String>,
    pub status: String,
    pub project_name: Option<String>,
    pub programming_language: Option<String>,
}

/// The technology stack a project declares.
pub struct ProjectStack {
    pub languages: Vec<String>,
    pub framework: String,
    pub runtime: String,
    pub package_manager: String,
}

/// A governed project and its settings.
pub struct Project {
    pub id: String,
    pub name: String,
    pub description: String,
    pub stack: ProjectStack,
    pub configs: Json,
    pub applied_standards: Vec<String>,
    pub mcp_hubs: Vec<String>,
    pub custom_rules: String,
    pub repo_url: Option<String>,
    pub docs_url: Option<String>,
    pub team: Vec<String>,
    pub created_at_ms: i64,
    pub updated_at_ms: i64,
}

/// A resource listing entry handed to clients.
pub struct Resource {
    pub uri: String,
    pub name: String,
    pub description: Option<String>,
    pub mime_type: Option<String>,
}

/// One readable content block of a resource.
pub struct ResourceContent {
    pub uri: String,
    pub mime_type: Option<String>,
    pub text: Option<String>,
    pub blob: Option<String>,
}

/// How a stored tool executes. An unrecognized stored kind is treated as
/// "tool not found" when called.
#[derive(PartialEq, Eq, Structural, Clone, Copy)]
pub enum ExecutionType {
    Static,
    DynamicSql,
    RawSql,
    Unknown,
}

/// A tool definition, read from the store and never mutated by the engine.
pub struct Tool {
    pub name: String,
    pub title: Option<String>,
    pub description: String,
    pub input_schema: Json,
    pub execution_type: Option<ExecutionType>,
    pub sql_template: Option<String>,
    pub parameter_map: Vec<(String, String)>,
    pub project_id: Option<String>,
    pub active: bool,
}

/// What a tool call returns to the client.
pub struct CallToolResult {
    pub content: Vec<ToolContent>,
    pub is_error: Option<bool>,
}

/// One content block of a tool result.
pub struct ToolContent {
    pub content_type: String,
    pub text: Option<String>,
    pub image: Option<Json>,
}

/// The outcome recorded for one tool call.
#[derive(PartialEq, Eq, Structural, Clone, Copy)]
pub enum AuditStatus {
    Success,
    Error,
}

/// One append-only audit entry: written after every tool call that reaches
/// execution, successful or not.
pub struct AuditRecord {
    pub tool_name: String,
    pub project_ref: Option<String>,
    pub arguments: Json,
    pub status: AuditStatus,
    pub message: String,
    pub duration_ms: u64,
}

impl AuditStatus {
    /// The stored text of the status.
    pub fn as_text(&self) -> (r: &'static str)
        ensures
            r@ == match self {
                AuditStatus::Success => "success"@,
                AuditStatus::Error => "error"@,
            },
    {
        match self {
            AuditStatus::Success => "success",
            AuditStatus::Error => "error",
        }
    }
}

} // verus!
