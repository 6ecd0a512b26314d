use kyx_governance::dispatch::{Action, Dispatch, Event, QueryOutcome};
use kyx_governance::json::Json;
use kyx_governance::protocol::JsonRpcRequest;
use kyx_governance::wire::{parse_json, parse_request, render_json, render_response};

fn req(id: Option<Json>, method: &str, params: Option<&str>) -> JsonRpcRequest {
    JsonRpcRequest {
        jsonrpc: "2.0".to_string(),
        id,
        method: method.to_string(),
        params: params.map(|p| parse_json(p).expect("params must be valid JSON")),
    }
}

#[test]
fn notification_gets_no_reply_even_for_unknown_method() {
    let (_d, action) = Dispatch::start(&req(None, "no/such/method", None), 0);
    match action {
        Action::Reply(o) => assert!(o.is_none()),
        _ => panic!("a notification must be answered with silence"),
    }
}

#[test]
fn notification_tools_call_still_executes_but_stays_silent() {
    let (mut d, action) = Dispatch::start(
        &req(None, "tools/call", Some("{\"name\":\"does-not-exist\",\"arguments\":{}}")),
        0,
    );
    match action {
        Action::LookupTool { ref name } => assert_eq!(name, "does-not-exist"),
        _ => panic!("a stored-tool call must be looked up"),
    }
    let a2 = d.step(Event::ToolLookup(Ok(vec![])), 3);
    let record = match a2 {
        Action::WriteAudit { record } => record,
        _ => panic!("an executed call must be audited before any reply"),
    };
    assert_eq!(record.tool_name, "does-not-exist");
    assert_eq!(record.message, "Tool not found: does-not-exist");
    assert_eq!(record.duration_ms, 3);
    let a3 = d.step(Event::AuditWritten, 3);
    match a3 {
        Action::Reply(o) => assert!(o.is_none()),
        _ => panic!("the machine must finish with a reply"),
    }
}

#[test]
fn unknown_method_reports_method_not_found() {
    let (_d, action) = Dispatch::start(&req(Some(Json::Int(9)), "bogus", None), 0);
    match action {
        Action::Reply(Some(resp)) => {
            let e = resp.error.expect("an unknown method is an error");
            assert_eq!(e.code, -32601);
            assert_eq!(e.message, "Method not found: bogus");
        },
        _ => panic!("an unknown method must be answered"),
    }
}

#[test]
fn reply_id_echoes_non_scalar_ids_exactly() {
    let id = parse_json("[1,null,{\"k\":true}]").unwrap();
    let (_d, action) = Dispatch::start(&req(Some(id), "initialize", None), 0);
    match action {
        Action::Reply(Some(resp)) => {
            assert_eq!(render_json(&resp.id), "[1,null,{\"k\":true}]");
            let body = render_response(&resp);
            assert!(body.contains("\"2024-11-05\""));
            assert!(body.contains("\"id\":[1,null,{\"k\":true}]"));
        },
        _ => panic!("initialize always succeeds"),
    }
}

#[test]
fn builtin_search_governance_resolves_before_any_stored_tool() {
    let (_d, action) = Dispatch::start(
        &req(
            Some(Json::Int(1)),
            "tools/call",
            Some("{\"name\":\"search-governance\",\"arguments\":{\"query\":\"x\"}}"),
        ),
        0,
    );
    match action {
        Action::SearchDocuments { query } => assert_eq!(query, "x"),
        Action::LookupTool { .. } => panic!("a built-in name must never reach the store lookup"),
        _ => panic!("the governance search starts with the documentation query"),
    }
}

#[test]
fn resources_read_missing_document_is_resource_not_found() {
    let (mut d, action) = Dispatch::start(
        &req(Some(Json::Int(7)), "resources/read", Some("{\"uri\":\"kyx://acme/design/spec\"}")),
        0,
    );
    match action {
        Action::FetchDocument { project, phase, name } => {
            assert_eq!(project, "acme");
            assert_eq!(phase, "design");
            assert_eq!(name, "spec");
        },
        _ => panic!("a well-formed address must be looked up"),
    }
    let a2 = d.step(Event::Document(Ok(None)), 0);
    match a2 {
        Action::Reply(Some(resp)) => {
            let e = resp.error.expect("a missing document is an error");
            assert_eq!(e.code, -32001);
            assert_eq!(e.message, "Resource not found");
        },
        _ => panic!("a missing document must be answered"),
    }
}

#[test]
fn resources_read_malformed_uri_is_a_request_error() {
    let (_d, action) = Dispatch::start(
        &req(Some(Json::Int(7)), "resources/read", Some("{\"uri\":\"no-scheme-here\"}")),
        0,
    );
    match action {
        Action::Reply(Some(resp)) => {
            let e = resp.error.expect("a malformed address is an error");
            assert_eq!(e.code, -32602);
        },
        _ => panic!("a malformed address must be answered"),
    }
}

#[test]
fn dynamic_tool_binds_and_returns_single_string_verbatim() {
    let (mut d, action) = Dispatch::start(
        &req(
            Some(Json::Int(4)),
            "tools/call",
            Some("{\"name\":\"my-tool\",\"arguments\":{\"q\":\"foo\",\"other\":1}}"),
        ),
        100,
    );
    match action {
        Action::LookupTool { ref name } => assert_eq!(name, "my-tool"),
        _ => panic!("a stored-tool call must be looked up"),
    }
    let row = parse_json(
        "{\"name\":\"my-tool\",\"description\":\"d\",\"input_schema\":{},\
         \"execution_type\":\"dynamic_sql\",\"sql_template\":\"SELECT $search FROM x\",\
         \"parameter_map\":{\"q\":\"search\"},\"active\":true}",
    )
    .unwrap();
    let a2 = d.step(Event::ToolLookup(Ok(vec![row])), 150);
    match a2 {
        Action::RunQuery { sql, bindings } => {
            assert_eq!(sql, "SELECT $search FROM x");
            assert_eq!(bindings.len(), 1);
            assert_eq!(bindings[0].0, "search");
            match &bindings[0].1 {
                kyx_governance::binding::BoundValue::Text(s) => assert_eq!(s, "foo"),
                _ => panic!("the string argument must bind as text"),
            }
        },
        _ => panic!("a dynamic tool must run its stored template"),
    }
    let outcome = QueryOutcome { sets: vec![vec![Json::Str("hello".to_string())]], scalar: None };
    let a3 = d.step(Event::QueryDone(Ok(outcome)), 250);
    let record = match a3 {
        Action::WriteAudit { record } => record,
        _ => panic!("an executed call must be audited before any reply"),
    };
    assert_eq!(record.tool_name, "my-tool");
    assert_eq!(record.message, "Dynamic SQL executed");
    assert_eq!(record.duration_ms, 150);
    let a4 = d.step(Event::AuditWritten, 250);
    match a4 {
        Action::Reply(Some(resp)) => {
            let body = render_response(&resp);
            // A single bare string is emitted verbatim inside the result block.
            assert!(body.contains("\"text\":\"hello\""));
            assert!(body.contains("\"isError\":false"));
        },
        _ => panic!("the machine must finish with a reply"),
    }
}

#[test]
fn numeric_argument_binds_as_integer() {
    let args = parse_json("{\"q\":42}").unwrap();
    let map = vec![("q".to_string(), "search".to_string())];
    let bound = kyx_governance::binding::bind_parameters(&map, &args);
    assert_eq!(bound.len(), 1);
    match &bound[0].1 {
        kyx_governance::binding::BoundValue::Int(i) => assert_eq!(*i, 42),
        _ => panic!("a JSON integer must bind as an integer"),
    }
}

#[test]
fn numeric_text_argument_binds_as_text() {
    let args = parse_json("{\"q\":\"42\"}").unwrap();
    let map = vec![("q".to_string(), "search".to_string())];
    let bound = kyx_governance::binding::bind_parameters(&map, &args);
    match &bound[0].1 {
        kyx_governance::binding::BoundValue::Text(s) => assert_eq!(s, "42"),
        _ => panic!("a string of digits must still bind as text"),
    }
}

#[test]
fn record_reference_argument_binds_as_reference() {
    let args = parse_json("{\"q\":\"mcp_projects:abc42\"}").unwrap();
    let map = vec![("q".to_string(), "search".to_string())];
    let bound = kyx_governance::binding::bind_parameters(&map, &args);
    match &bound[0].1 {
        kyx_governance::binding::BoundValue::Record(s) => assert_eq!(s, "mcp_projects:abc42"),
        _ => panic!("a record-reference literal must bind as a reference"),
    }
}

#[test]
fn unmapped_and_absent_arguments_are_skipped() {
    let args = parse_json("{\"present\":true,\"ignored\":\"x\"}").unwrap();
    let map = vec![
        ("present".to_string(), "p".to_string()),
        ("absent".to_string(), "a".to_string()),
    ];
    let bound = kyx_governance::binding::bind_parameters(&map, &args);
    assert_eq!(bound.len(), 1);
    assert_eq!(bound[0].0, "p");
}

#[test]
fn raw_sql_without_sql_argument_is_a_request_error() {
    let (mut d, _action) = Dispatch::start(
        &req(Some(Json::Int(4)), "tools/call", Some("{\"name\":\"raw\",\"arguments\":{}}")),
        0,
    );
    let row = parse_json(
        "{\"name\":\"raw\",\"description\":\"d\",\"input_schema\":{},\
         \"execution_type\":\"raw_sql\",\"active\":true}",
    )
    .unwrap();
    let a2 = d.step(Event::ToolLookup(Ok(vec![row])), 0);
    match a2 {
        Action::Reply(Some(resp)) => {
            let e = resp.error.expect("a raw call without query text is an error");
            assert_eq!(e.code, -32602);
            assert_eq!(e.message, "Missing 'sql_commands' or 'sql' argument for raw_sql execution");
        },
        _ => panic!("the missing argument must be answered"),
    }
}

#[test]
fn inactive_tool_is_not_found() {
    let (mut d, _action) = Dispatch::start(
        &req(Some(Json::Int(4)), "tools/call", Some("{\"name\":\"t\",\"arguments\":{}}")),
        0,
    );
    let row = parse_json(
        "{\"name\":\"t\",\"description\":\"d\",\"input_schema\":{},\
         \"execution_type\":\"raw_sql\",\"active\":false}",
    )
    .unwrap();
    let a2 = d.step(Event::ToolLookup(Ok(vec![row])), 0);
    match a2 {
        Action::WriteAudit { record } => {
            assert_eq!(record.message, "Tool not found: t");
        },
        _ => panic!("an inactive tool resolves to not-found, which is audited"),
    }
}

#[test]
fn tools_list_falls_back_to_default_tool() {
    let (mut d, action) = Dispatch::start(&req(Some(Json::Int(2)), "tools/list", None), 0);
    match action {
        Action::FetchToolCatalog => {},
        _ => panic!("the listing must read the catalog"),
    }
    let a2 = d.step(Event::ToolCatalog(Ok(vec![])), 0);
    match a2 {
        Action::Reply(Some(resp)) => {
            let body = render_response(&resp);
            assert!(body.contains("search-governance"));
        },
        _ => panic!("the listing always succeeds"),
    }
}

#[test]
fn missing_arguments_is_a_request_error() {
    let (_d, action) = Dispatch::start(
        &req(Some(Json::Int(4)), "tools/call", Some("{\"name\":\"t\"}")),
        0,
    );
    match action {
        Action::Reply(Some(resp)) => {
            let e = resp.error.unwrap();
            assert_eq!(e.code, -32602);
            assert_eq!(e.message, "Missing arguments");
        },
        _ => panic!("missing arguments must be answered"),
    }
}

#[test]
fn parse_request_accepts_a_wire_line() {
    let r = parse_request("{\"jsonrpc\":\"2.0\",\"id\":1,\"method\":\"tools/list\"}").unwrap();
    assert_eq!(r.method, "tools/list");
    assert!(r.id.is_some());
    assert!(parse_request("not json at all").is_none());
    assert!(parse_request("{\"id\":1}").is_none());
}

#[test]
fn explicit_null_id_is_a_notification() {
    let r = parse_request("{\"jsonrpc\":\"2.0\",\"id\":null,\"method\":\"m\"}").unwrap();
    assert!(r.id.is_none());
}

#[test]
fn tool_not_found_is_audited_then_answered() {
    let (mut d, _action) = Dispatch::start(
        &req(Some(Json::Int(11)), "tools/call", Some("{\"name\":\"ghost\",\"arguments\":{}}")),
        0,
    );
    let a2 = d.step(Event::ToolLookup(Ok(vec![])), 0);
    match a2 {
        Action::WriteAudit { ref record } => {
            assert_eq!(record.message, "Tool not found: ghost");
        },
        _ => panic!("the failed resolution must be audited first"),
    }
    let a3 = d.step(Event::AuditWritten, 0);
    match a3 {
        Action::Reply(Some(resp)) => {
            let e = resp.error.unwrap();
            assert_eq!(e.code, -32601);
            assert_eq!(e.message, "Tool not found: ghost");
            assert_eq!(render_json(&resp.id), "11");
        },
        _ => panic!("the machine must finish with the not-found error"),
    }
}

#[test]
fn query_failure_is_audited_then_a_handler_error() {
    let (mut d, _a) = Dispatch::start(
        &req(Some(Json::Int(5)), "tools/call", Some("{\"name\":\"raw\",\"arguments\":{\"sql\":\"INFO\"}}")),
        0,
    );
    let row = parse_json(
        "{\"name\":\"raw\",\"description\":\"d\",\"input_schema\":{},\
         \"execution_type\":\"raw_sql\",\"active\":true}",
    )
    .unwrap();
    let a2 = d.step(Event::ToolLookup(Ok(vec![row])), 0);
    match a2 {
        Action::RunQuery { ref sql, ref bindings } => {
            assert_eq!(sql, "INFO");
            assert!(bindings.is_empty());
        },
        _ => panic!("the raw query text comes from the arguments"),
    }
    let a3 = d.step(Event::QueryDone(Err("boom".to_string())), 9);
    match a3 {
        Action::WriteAudit { ref record } => {
            assert_eq!(record.message, "SQL Error: boom");
        },
        _ => panic!("the failure must be audited first"),
    }
    let a4 = d.step(Event::AuditWritten, 9);
    match a4 {
        Action::Reply(Some(resp)) => {
            let e = resp.error.unwrap();
            assert_eq!(e.code, -32000);
            assert_eq!(e.message, "boom");
        },
        _ => panic!("the machine must finish with the handler-level error"),
    }
}

#[test]
fn project_argument_routes_through_a_reference_lookup_for_audit() {
    let (mut d, _a) = Dispatch::start(
        &req(
            Some(Json::Int(5)),
            "tools/call",
            Some("{\"name\":\"ghost\",\"arguments\":{\"project\":\"acme\"}}"),
        ),
        0,
    );
    let a2 = d.step(Event::ToolLookup(Ok(vec![])), 0);
    match a2 {
        Action::LookupProjectRef { ref name } => assert_eq!(name, "acme"),
        _ => panic!("a project name in the arguments is resolved before the audit write"),
    }
    let a3 = d.step(Event::ProjectRef(Some("mcp_projects:1".to_string())), 0);
    match a3 {
        Action::WriteAudit { ref record } => {
            assert_eq!(record.project_ref.as_deref(), Some("mcp_projects:1"));
        },
        _ => panic!("the resolved reference goes into the audit record"),
    }
}

