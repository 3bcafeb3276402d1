use mcp_router::config::FilterConfig;
use mcp_router::headers::find_header_value;
use mcp_router::headers::rewrite_response_session;
use mcp_router::inspector::assemble_chunks;
use mcp_router::routing::BackendId;
use mcp_router::routing::Rule;
use mcp_router::routing::decide;
use mcp_router::session::make_fallback_session_id;
use mcp_router::text::format_u64;

fn cfg_default() -> FilterConfig {
    FilterConfig::new("")
}

fn cfg_ab() -> FilterConfig {
    FilterConfig {
        debug: false,
        rules: vec![
            Rule { prefix: b"serverA-".to_vec(), backend: BackendId::A },
            Rule { prefix: b"serverB-".to_vec(), backend: BackendId::B },
        ],
        literal_a: b"A".to_vec(),
        literal_b: b"B".to_vec(),
    }
}

#[test]
fn config_empty_input_defaults() {
    let c = FilterConfig::new("");
    assert!(!c.debug);
    assert_eq!(c.rules.len(), 2);
    assert_eq!(c.rules[0].prefix, b"server1-".to_vec());
    assert_eq!(c.rules[0].backend, BackendId::A);
    assert_eq!(c.rules[1].prefix, b"server2-".to_vec());
    assert_eq!(c.rules[1].backend, BackendId::B);
    assert_eq!(c.literal_a, b"server1".to_vec());
    assert_eq!(c.literal_b, b"server2".to_vec());
}

#[test]
fn config_debug_true() {
    assert!(FilterConfig::new("{\"debug\":true}").debug);
}

#[test]
fn config_debug_false() {
    assert!(!FilterConfig::new("{\"debug\":false}").debug);
}

#[test]
fn config_object_without_debug_defaults() {
    assert!(!FilterConfig::new("{}").debug);
}

#[test]
fn config_non_bool_debug_defaults() {
    assert!(!FilterConfig::new("{\"debug\":5}").debug);
}

#[test]
fn config_malformed_defaults() {
    assert!(!FilterConfig::new("not json at all").debug);
    assert!(!FilterConfig::new("   ").debug);
    assert!(!FilterConfig::new("[1,2]").debug);
}

#[test]
fn decide_no_match_returns_none() {
    let cfg = cfg_default();
    assert!(decide(&cfg.rules, &b"other-tool".to_vec()).is_none());
    assert!(decide(&cfg.rules, &b"".to_vec()).is_none());
    assert!(decide(&cfg.rules, &b"server1".to_vec()).is_none());
}

#[test]
fn decide_strips_exactly_the_prefix() {
    let cfg = cfg_default();
    let r = decide(&cfg.rules, &b"server1-abc".to_vec()).unwrap();
    assert_eq!(r.0, BackendId::A);
    assert_eq!(r.1, b"abc".to_vec());
    let r = decide(&cfg.rules, &b"server2-do-thing".to_vec()).unwrap();
    assert_eq!(r.0, BackendId::B);
    assert_eq!(r.1, b"do-thing".to_vec());
}

#[test]
fn decide_empty_suffix_is_kept_as_empty() {
    let cfg = cfg_default();
    let r = decide(&cfg.rules, &b"server2-".to_vec()).unwrap();
    assert_eq!(r.0, BackendId::B);
    assert_eq!(r.1, Vec::<u8>::new());
}

#[test]
fn decide_first_rule_wins() {
    let rules = vec![
        Rule { prefix: b"s-".to_vec(), backend: BackendId::A },
        Rule { prefix: b"s-x-".to_vec(), backend: BackendId::B },
    ];
    let r = decide(&rules, &b"s-x-tool".to_vec()).unwrap();
    assert_eq!(r.0, BackendId::A);
    assert_eq!(r.1, b"x-tool".to_vec());
}

#[test]
fn fallback_id_is_deterministic() {
    let cfg = cfg_ab();
    let one = make_fallback_session_id(&cfg, BackendId::B, &b"abc123".to_vec());
    let two = make_fallback_session_id(&cfg, BackendId::B, &b"abc123".to_vec());
    assert_eq!(one, b"B-session-abc123".to_vec());
    assert_eq!(one, two);
    let a = make_fallback_session_id(&cfg, BackendId::A, &b"abc123".to_vec());
    assert_eq!(a, b"A-session-abc123".to_vec());
}

#[test]
fn fallback_id_round_trips_through_response_rewrite() {
    let cfg = cfg_ab();
    let sid = make_fallback_session_id(&cfg, BackendId::B, &b"abc123".to_vec());
    assert_eq!(rewrite_response_session(&cfg, &sid), Some(b"abc123".to_vec()));
    let sid = make_fallback_session_id(&cfg, BackendId::A, &b"gw-77".to_vec());
    assert_eq!(rewrite_response_session(&cfg, &sid), Some(b"gw-77".to_vec()));
    let cfg = cfg_default();
    let sid = make_fallback_session_id(&cfg, BackendId::A, &b"xyz".to_vec());
    assert_eq!(sid, b"server1-session-xyz".to_vec());
    assert_eq!(rewrite_response_session(&cfg, &sid), Some(b"xyz".to_vec()));
}

#[test]
fn response_rewrite_leaves_foreign_values_alone() {
    let cfg = cfg_default();
    assert_eq!(rewrite_response_session(&cfg, &b"plain-session".to_vec()), None);
    assert_eq!(rewrite_response_session(&cfg, &b"".to_vec()), None);
    assert_eq!(rewrite_response_session(&cfg, &b"server1-sessio".to_vec()), None);
}

#[test]
fn find_header_value_is_case_insensitive_first_match() {
    let headers = vec![
        (b"Content-Type".to_vec(), b"application/json".to_vec()),
        (b"X-Foo".to_vec(), b"1".to_vec()),
        (b"x-foo".to_vec(), b"2".to_vec()),
    ];
    assert_eq!(find_header_value(&headers, &b"x-FOO".to_vec()), b"1".to_vec());
    assert_eq!(find_header_value(&headers, &b"content-type".to_vec()), b"application/json".to_vec());
    assert_eq!(find_header_value(&headers, &b"absent".to_vec()), Vec::<u8>::new());
}

#[test]
fn format_u64_exact_values() {
    assert_eq!(format_u64(0), b"0".to_vec());
    assert_eq!(format_u64(7), b"7".to_vec());
    assert_eq!(format_u64(10), b"10".to_vec());
    assert_eq!(format_u64(12345), b"12345".to_vec());
    assert_eq!(format_u64(u64::MAX), b"18446744073709551615".to_vec());
}

#[test]
fn assemble_chunks_concatenates_in_order() {
    let chunks = vec![b"ab".to_vec(), Vec::new(), b"cd".to_vec()];
    assert_eq!(assemble_chunks(&chunks), b"abcd".to_vec());
    assert_eq!(assemble_chunks(&Vec::new()), Vec::<u8>::new());
}
