use kyx_governance::json::{flatten_value, Json};
use kyx_governance::registry::{
    delete_session_response, endpoint_frame, heartbeat_frame, message_frame, SessionRegistry,
};
use kyx_governance::results::{collect_results, final_results, normalized_output};
use kyx_governance::security::RateLimiter;
use kyx_governance::config::{gate, Config, GateOutcome};
use kyx_governance::wire::{parse_json, render_json};
use kyx_governance::uri::{parse_uri, UriError};
use kyx_governance::entities::Rule;
use kyx_governance::rules::combine_rules;

#[test]
fn recursive_unwrap_removes_wrappers_at_any_depth() {
    let wrapped = parse_json(
        "{\"Object\":{\"Array\":[{\"Strand\":\"x\"},{\"Strand\":\"y\"},{\"Number\":3}]}}",
    )
    .unwrap();
    let flat = flatten_value(&wrapped);
    assert_eq!(render_json(&flat), "[\"x\",\"y\",3]");
}

#[test]
fn unwrap_keeps_ordinary_objects_and_nested_members() {
    let v = parse_json("{\"a\":{\"Strand\":\"s\"},\"b\":[{\"Bool\":true}]}").unwrap();
    let flat = flatten_value(&v);
    assert_eq!(render_json(&flat), "{\"a\":\"s\",\"b\":[true]}");
}

#[test]
fn collection_stops_at_the_statement_cap() {
    // 51 non-empty statement results: only the first 50 rows are kept.
    let mut sets: Vec<Vec<Json>> = Vec::new();
    for k in 0..51 {
        sets.push(vec![Json::Int(k)]);
    }
    let collected = collect_results(&sets);
    assert_eq!(collected.len(), 50);
    assert_eq!(render_json(&collected[0]), "0");
    assert_eq!(render_json(&collected[49]), "49");
}

#[test]
fn collection_stops_at_an_empty_set_after_rows_and_drops_nulls() {
    let sets = vec![
        vec![Json::Int(1), Json::Null, Json::Int(2)],
        vec![],
        vec![Json::Int(3)],
    ];
    let collected = collect_results(&sets);
    assert_eq!(collected.len(), 2);
    assert_eq!(render_json(&collected[1]), "2");
}

#[test]
fn scalar_fallback_applies_only_when_nothing_was_collected() {
    let empty: Vec<Vec<Json>> = vec![vec![]];
    let rows = final_results(&empty, Some(&Json::Str("info".to_string())));
    assert_eq!(rows.len(), 1);
    let rows2 = final_results(&empty, Some(&Json::Null));
    assert_eq!(rows2.len(), 0);
}

#[test]
fn single_bare_string_is_emitted_verbatim() {
    let sets = vec![vec![Json::Str("hi".to_string())]];
    let out = normalized_output(&sets, None, "Raw SQL Result");
    assert_eq!(out, "hi");
}

#[test]
fn multiple_rows_are_emitted_as_a_labelled_json_block() {
    let sets = vec![vec![Json::Int(1), Json::Int(2)]];
    let out = normalized_output(&sets, None, "Raw SQL Result");
    assert!(out.starts_with("Raw SQL Result:\n```json\n"));
    assert!(out.ends_with("\n```"));
}

#[test]
fn session_delete_is_idempotent() {
    let mut registry: SessionRegistry<u32> = SessionRegistry::new();
    registry.register("abc".to_string(), 7);
    assert_eq!(registry.remove("abc"), true);
    assert_eq!(registry.remove("abc"), false);
    assert!(registry.lookup("abc").is_none());
}

#[test]
fn delete_body_reports_removed() {
    let yes = delete_session_response(true);
    assert_eq!(
        render_json(&yes),
        "{\"data\":{\"message\":\"Session cleanup successful\",\"removed\":true},\"error\":null,\"success\":true}"
    );
    let no = delete_session_response(false);
    assert!(render_json(&no).contains("\"removed\":false"));
}

#[test]
fn stream_frames_have_their_fixed_shapes() {
    assert_eq!(endpoint_frame("s1"), "event: endpoint\ndata: /mcp?session_id=s1\n\n");
    assert_eq!(heartbeat_frame(42), ": heartbeat {\"ts\": 42}\n\n");
    assert_eq!(message_frame("{}"), "event: message\ndata: {}\n\n");
}

#[test]
fn fixed_window_admits_exactly_the_limit_then_resets() {
    let mut limiter = RateLimiter::new(3, 60);
    let now = 1_000;
    assert!(limiter.check("1.2.3.4", now));
    assert!(limiter.check("1.2.3.4", now));
    assert!(limiter.check("1.2.3.4", now));
    assert!(!limiter.check("1.2.3.4", now));
    // Another client has its own window.
    assert!(limiter.check("5.6.7.8", now));
    // After the window elapses the counter starts over.
    assert!(limiter.check("1.2.3.4", now + 61_000));
}

fn test_config(key: Option<&str>) -> Config {
    Config {
        port: 3001,
        surreal_url: "ws://127.0.0.1:8000/rpc".to_string(),
        surreal_user: "root".to_string(),
        surreal_pass: "root-pass".to_string(),
        surreal_ns: "kyx".to_string(),
        surreal_db: "governance".to_string(),
        mcp_api_key: key.map(|s| s.to_string()),
        jwt_secret: "dev-secret".to_string(),
    }
}

#[test]
fn gate_checks_rate_then_bearer() {
    let open = test_config(None);
    assert_eq!(gate(&open, false, None), GateOutcome::RateLimited);
    assert_eq!(gate(&open, true, None), GateOutcome::Proceed);

    let locked = test_config(Some("s3cr3t"));
    assert!(locked.requires_auth());
    assert_eq!(gate(&locked, true, None), GateOutcome::Unauthorized);
    assert_eq!(gate(&locked, true, Some("Token s3cr3t")), GateOutcome::Unauthorized);
    assert_eq!(gate(&locked, true, Some("Bearer wrong")), GateOutcome::Unauthorized);
    assert_eq!(gate(&locked, true, Some("Bearer s3cr3t")), GateOutcome::Proceed);
    assert!(locked.validate_api_key("s3cr3t"));
    assert!(!locked.validate_api_key("other"));
}

#[test]
fn uri_parse_reports_each_missing_part() {
    assert_eq!(parse_uri("nocolon").unwrap_err(), UriError::Malformed);
    assert_eq!(parse_uri("kyx:acme").unwrap_err(), UriError::InvalidProject);
    assert_eq!(parse_uri("kyx:///design").unwrap_err(), UriError::InvalidProject);
    assert_eq!(parse_uri("kyx://acme").unwrap_err(), UriError::MissingPhase);
    assert_eq!(parse_uri("kyx://acme/design").unwrap_err(), UriError::MissingName);
    let (p, ph, n) = parse_uri("kyx://acme/design/spec/extra").unwrap();
    assert_eq!((p.as_str(), ph.as_str(), n.as_str()), ("acme", "design", "spec"));
}

#[test]
fn rules_combine_in_order_with_priorities() {
    let rules = vec![
        Rule { content: "first".to_string(), priority: 10, rule_type: "global".to_string() },
        Rule { content: "second".to_string(), priority: -1, rule_type: "project".to_string() },
    ];
    assert_eq!(
        combine_rules(&rules),
        "- [global] (Priority: 10): first\n- [project] (Priority: -1): second"
    );
    assert_eq!(combine_rules(&vec![]), "");
}

#[test]
fn json_parse_and_render_reach_the_real_codec() {
    // Would fail if the boundary handed its argument back unchanged.
    let v = parse_json(" [ 1 , \"a\" ] ").unwrap();
    assert_eq!(render_json(&v), "[1,\"a\"]");
    assert!(parse_json("{oops").is_none());
    let big = parse_json("1e3").unwrap();
    match big {
        Json::Num(ref s) => assert_eq!(s, "1000.0"),
        _ => panic!("a float-class number keeps its decimal text"),
    }
}
