use mcp_router::config::FilterConfig;
use mcp_router::filter::BodyStatus;
use mcp_router::filter::Filter;
use mcp_router::filter::HeadersStatus;
use mcp_router::routing::BackendId;
use mcp_router::routing::Rule;

fn cfg_ab() -> FilterConfig {
    FilterConfig {
        debug: false,
        rules: vec![
            Rule { prefix: b"serverA-".to_vec(), backend: BackendId::A },
            Rule { prefix: b"serverB-".to_vec(), backend: BackendId::B },
        ],
        literal_a: b"A".to_vec(),
        literal_b: b"B".to_vec(),
    }
}

fn session_headers() -> Vec<(Vec<u8>, Vec<u8>)> {
    vec![(b"mcp-session-id".to_vec(), b"abc123".to_vec())]
}

fn awaiting(backend: BackendId) -> Filter {
    Filter {
        pending_route_decision: Some(backend),
        stripped_tool_name: Some(b"search".to_vec()),
        current_request_body: None,
    }
}

#[test]
fn request_headers_pause_only_when_body_expected() {
    let f = Filter::new();
    assert_eq!(f.on_request_headers(false), HeadersStatus::StopIteration);
    assert_eq!(f.on_request_headers(true), HeadersStatus::Continue);
}

#[test]
fn partial_body_buffers() {
    let mut f = Filter::new();
    let plan = f.on_request_body(&cfg_ab(), &session_headers(), &Vec::new(), false);
    assert_eq!(plan.status, BodyStatus::StopIterationAndBuffer);
    assert!(plan.new_body.is_none());
    assert!(plan.lookup.is_none());
}

#[test]
fn tools_list_passes_through_untouched() {
    let mut f = Filter::new();
    let body = b"{\"method\":\"tools/list\"}".to_vec();
    let plan = f.on_request_body(&cfg_ab(), &session_headers(), &body, true);
    assert_eq!(plan.status, BodyStatus::Continue);
    assert!(plan.new_body.is_none());
    assert!(plan.new_content_length.is_none());
    assert!(plan.lookup.is_none());
    assert!(f.pending_route_decision.is_none());
    assert!(f.stripped_tool_name.is_none());
}

#[test]
fn unmatched_tool_name_passes_through_untouched() {
    let mut f = Filter::new();
    let body = b"{\"method\":\"tools/call\",\"params\":{\"name\":\"plain-tool\"}}".to_vec();
    let plan = f.on_request_body(&cfg_ab(), &session_headers(), &body, true);
    assert_eq!(plan.status, BodyStatus::Continue);
    assert!(plan.new_body.is_none());
    assert!(plan.lookup.is_none());
}

#[test]
fn undecodable_and_unparsable_bodies_fail_open() {
    let mut f = Filter::new();
    let plan = f.on_request_body(&cfg_ab(), &session_headers(), &vec![0xff, 0xfe], true);
    assert_eq!(plan.status, BodyStatus::Continue);
    assert!(plan.new_body.is_none());
    assert!(plan.lookup.is_none());
    let plan = f.on_request_body(&cfg_ab(), &session_headers(), &b"hello".to_vec(), true);
    assert_eq!(plan.status, BodyStatus::Continue);
    assert!(plan.lookup.is_none());
}

#[test]
fn routed_body_is_rewritten_and_length_matches() {
    let mut f = Filter::new();
    let body = b"{\"method\":\"tools/call\",\"params\":{\"name\":\"serverA-foo\"}}".to_vec();
    let plan = f.on_request_body(&cfg_ab(), &session_headers(), &body, true);
    let new_body = plan.new_body.expect("rewrite should succeed");
    let parsed: serde_json::Value = serde_json::from_slice(&new_body).unwrap();
    assert_eq!(parsed["params"]["name"].as_str().unwrap(), "foo");
    assert_eq!(parsed["method"].as_str().unwrap(), "tools/call");
    let cl = plan.new_content_length.expect("length goes with the body");
    assert_eq!(cl, new_body.len().to_string().into_bytes());
}

#[test]
fn routed_body_without_session_header_skips_session_mapping() {
    let mut f = Filter::new();
    let body = b"{\"method\":\"tools/call\",\"params\":{\"name\":\"serverB-search\"}}".to_vec();
    let plan = f.on_request_body(&cfg_ab(), &Vec::new(), &body, true);
    assert_eq!(plan.status, BodyStatus::Continue);
    assert!(plan.lookup.is_none());
    assert!(plan.new_body.is_some());
    assert!(f.pending_route_decision.is_none());
    assert!(f.stripped_tool_name.is_none());
}

#[test]
fn rewrite_failure_keeps_original_body_but_routes_headers() {
    let cfg = FilterConfig {
        debug: false,
        rules: vec![Rule { prefix: vec![0xf0], backend: BackendId::A }],
        literal_a: b"A".to_vec(),
        literal_b: b"B".to_vec(),
    };
    let mut f = Filter::new();
    // params.name is one four-byte character; stripping the first byte
    // leaves bytes that are not UTF-8 text, so the rewrite fails.
    let body = "{\"method\":\"tools/call\",\"params\":{\"name\":\"\u{1F4A1}\"}}".as_bytes().to_vec();
    let plan = f.on_request_body(&cfg, &session_headers(), &body, true);
    assert!(plan.new_body.is_none());
    assert!(plan.new_content_length.is_none());
    assert_eq!(plan.status, BodyStatus::StopIterationAndBuffer);
    assert!(plan.lookup.is_some());
    assert_eq!(f.pending_route_decision, Some(BackendId::A));
}

#[test]
fn scenario_lookup_found_commits_looked_up_session() {
    let cfg = cfg_ab();
    let mut f = Filter::new();
    let body = b"{\"method\":\"tools/call\",\"params\":{\"name\":\"serverB-search\"}}".to_vec();
    let headers = session_headers();
    let plan = f.on_request_body(&cfg, &headers, &body, true);
    assert_eq!(plan.status, BodyStatus::StopIterationAndBuffer);
    let lookup = plan.lookup.expect("lookup must be issued");
    assert_eq!(lookup.gateway_session_id, b"abc123".to_vec());
    assert_eq!(lookup.timeout_ms, 5000);
    assert_eq!(f.pending_route_decision, Some(BackendId::B));
    assert_eq!(f.stripped_tool_name, Some(b"search".to_vec()));

    let reply = b"{\"server1_session_id\":\"x\",\"server2_session_id\":\"y\",\"found\":true}"
        .to_vec();
    let commit = f.on_http_callout_done(&cfg, true, Some(&reply), &headers).unwrap();
    assert_eq!(
        commit.set_request_headers,
        vec![
            (b"mcp-session-id".to_vec(), b"y".to_vec()),
            (b"x-mcp-server".to_vec(), b"B".to_vec()),
        ]
    );
    assert!(commit.clear_route_cache);
    assert!(commit.resume);
    assert!(f.pending_route_decision.is_none());
    assert!(f.stripped_tool_name.is_none());
}

#[test]
fn scenario_issuance_failure_falls_back_without_pause() {
    let cfg = cfg_ab();
    let mut f = Filter::new();
    let body = b"{\"method\":\"tools/call\",\"params\":{\"name\":\"serverB-search\"}}".to_vec();
    let headers = session_headers();
    let plan = f.on_request_body(&cfg, &headers, &body, true);
    assert!(plan.lookup.is_some());

    let commit = f.on_lookup_issue_failed(&cfg, &headers);
    assert_eq!(
        commit.set_request_headers,
        vec![
            (b"mcp-session-id".to_vec(), b"B-session-abc123".to_vec()),
            (b"x-mcp-server".to_vec(), b"B".to_vec()),
        ]
    );
    assert!(commit.clear_route_cache);
    assert!(!commit.resume);
    assert!(f.pending_route_decision.is_none());
}

#[test]
fn lookup_not_found_falls_back_and_resumes() {
    let cfg = cfg_ab();
    let mut f = awaiting(BackendId::B);
    let reply = b"{\"server1_session_id\":\"\",\"server2_session_id\":\"\",\"found\":false}"
        .to_vec();
    let commit = f.on_http_callout_done(&cfg, true, Some(&reply), &session_headers()).unwrap();
    assert_eq!(
        commit.set_request_headers[0],
        (b"mcp-session-id".to_vec(), b"B-session-abc123".to_vec())
    );
    assert!(commit.resume);
    assert!(f.pending_route_decision.is_none());
}

#[test]
fn lookup_malformed_body_falls_back_and_resumes() {
    let cfg = cfg_ab();
    let mut f = awaiting(BackendId::A);
    let commit = f
        .on_http_callout_done(&cfg, true, Some(&b"not json".to_vec()), &session_headers())
        .unwrap();
    assert_eq!(
        commit.set_request_headers[0],
        (b"mcp-session-id".to_vec(), b"A-session-abc123".to_vec())
    );
    assert_eq!(
        commit.set_request_headers[1],
        (b"x-mcp-server".to_vec(), b"A".to_vec())
    );
    assert!(commit.resume);
    assert!(f.pending_route_decision.is_none());

    let mut f = awaiting(BackendId::A);
    let missing = b"{\"server1_session_id\":\"x\",\"found\":true}".to_vec();
    let commit = f.on_http_callout_done(&cfg, true, Some(&missing), &session_headers()).unwrap();
    assert!(commit.resume);
}

#[test]
fn lookup_absent_body_falls_back_and_resumes() {
    let cfg = cfg_ab();
    let mut f = awaiting(BackendId::B);
    let commit = f.on_http_callout_done(&cfg, true, None, &session_headers()).unwrap();
    assert!(commit.resume);
    assert!(f.pending_route_decision.is_none());
}

#[test]
fn lookup_failure_status_falls_back_and_resumes() {
    let cfg = cfg_ab();
    let mut f = awaiting(BackendId::B);
    let commit = f.on_http_callout_done(&cfg, false, None, &session_headers()).unwrap();
    assert_eq!(
        commit.set_request_headers[0],
        (b"mcp-session-id".to_vec(), b"B-session-abc123".to_vec())
    );
    assert!(commit.resume);
    assert!(f.pending_route_decision.is_none());
}

#[test]
fn late_completion_without_pending_decision_is_a_no_op() {
    let cfg = cfg_ab();
    let mut f = Filter::new();
    let r = f.on_http_callout_done(&cfg, true, Some(&b"{}".to_vec()), &session_headers());
    assert!(r.is_none());
    assert!(f.pending_route_decision.is_none());
}

#[test]
fn response_session_header_is_mapped_back() {
    let cfg = cfg_ab();
    let f = Filter::new();
    let headers = vec![(b"mcp-session-id".to_vec(), b"A-session-abc123".to_vec())];
    assert_eq!(f.on_response_headers(&cfg, &headers), Some(b"abc123".to_vec()));
    let headers = vec![(b"mcp-session-id".to_vec(), b"abc123".to_vec())];
    assert_eq!(f.on_response_headers(&cfg, &headers), None);
    let headers = vec![(b"other".to_vec(), b"A-session-abc123".to_vec())];
    assert_eq!(f.on_response_headers(&cfg, &headers), None);
}
