use kyx_governance::metrics::init_metrics;

#[test]
fn test_metrics_initialization() {
    let _metrics = init_metrics();
    // Should not panic
}

#[test]
fn test_tool_tracking() {
    let mut metrics = init_metrics();
    metrics.track_tool_call("test-tool", 100, true);
    assert!(metrics.tool_calls_total() > 0);
}

#[test]
fn test_openai_cost_calculation() {
    let mut metrics = init_metrics();
    let initial_cost = metrics.openai_cost_nanos_total();
    metrics.track_openai_usage(1_000_000); // 1M tokens
    let new_cost = metrics.openai_cost_nanos_total();

    // Should increase by $0.02
    assert!(((new_cost - initial_cost) as f64 / 1_000_000_000.0 - 0.02).abs() < 0.001);
}

#[test]
fn test_tool_error_tracking() {
    let mut metrics = init_metrics();
    metrics.track_tool_call("failing-tool", 5, false);
    assert_eq!(metrics.tool_calls_total(), 1);
    assert_eq!(metrics.tool_errors_total(), 1);
}

#[test]
fn test_session_tracking() {
    let mut metrics = init_metrics();
    metrics.track_session_created();
    metrics.track_session_created();
    metrics.track_session_ended();
    assert_eq!(metrics.active_sessions_total(), 1);
}

#[test]
fn test_db_query_tracking() {
    let mut metrics = init_metrics();
    metrics.track_db_query(12);
    assert_eq!(metrics.db_queries_total(), 1);
}

#[test]
fn test_metrics_exposition_text() {
    let mut metrics = init_metrics();
    metrics.track_tool_call("test-tool", 100, true);
    let text = metrics.get_metrics_text();
    assert!(text.contains("mcp_tool_calls_total"));
}
