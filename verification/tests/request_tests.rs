use load_feedback::request::{RequestContext, HEADER_NAME, USER_AGENT};

fn context(user_agent: &str, value: &str) -> RequestContext {
    RequestContext::new(user_agent.to_string(), value.to_string())
}

#[test]
fn header_names() {
    assert_eq!(USER_AGENT, "user-agent");
    assert_eq!(HEADER_NAME, "X-Load-Feedback");
}

#[test]
fn new_context_is_not_eligible_yet() {
    let ctx = context("probe", "load:27");
    assert!(!ctx.add_header());
    assert_eq!(ctx.user_agent(), "probe");
    assert_eq!(ctx.host_svc_header(), "load:27");
    assert_eq!(ctx.on_http_response_headers(), None);
}

#[test]
fn user_agent_is_matched_by_prefix() {
    let mut ctx = context("HTTPie/1.0", "load:27");
    ctx.on_http_request_headers(Some("HTTPie/1.0.3"));
    assert!(ctx.add_header());
    let mut ctx = context("HTTPie/1.0", "load:27");
    ctx.on_http_request_headers(Some("curl/7.0"));
    assert!(!ctx.add_header());
}

#[test]
fn exact_user_agent_matches() {
    let mut ctx = context("probe", "load:27");
    ctx.on_http_request_headers(Some("probe"));
    assert!(ctx.add_header());
}

#[test]
fn shorter_user_agent_does_not_match() {
    let mut ctx = context("HTTPie/1.0", "load:27");
    ctx.on_http_request_headers(Some("HTTPie"));
    assert!(!ctx.add_header());
}

#[test]
fn absent_user_agent_does_not_match() {
    let mut ctx = context("probe", "load:27");
    ctx.on_http_request_headers(None);
    assert!(!ctx.add_header());
}

#[test]
fn empty_match_accepts_every_request() {
    let mut ctx = context("", "load:27");
    ctx.on_http_request_headers(None);
    assert!(ctx.add_header());
    let mut ctx = context("", "load:27");
    ctx.on_http_request_headers(Some("anything"));
    assert!(ctx.add_header());
    let mut ctx = context("", "load:27");
    ctx.on_http_request_headers(Some(""));
    assert!(ctx.add_header());
}

#[test]
fn a_later_request_decides_anew() {
    let mut ctx = context("probe", "load:27");
    ctx.on_http_request_headers(Some("probe"));
    assert!(ctx.add_header());
    ctx.on_http_request_headers(Some("other"));
    assert!(!ctx.add_header());
    assert_eq!(ctx.user_agent(), "probe");
    assert_eq!(ctx.host_svc_header(), "load:27");
}

#[test]
fn eligible_exchange_gets_the_value() {
    let mut ctx = context("probe", "load:27");
    ctx.on_http_request_headers(Some("probe"));
    assert_eq!(ctx.on_http_response_headers(), Some("load:27".to_string()));
}

#[test]
fn value_is_trimmed() {
    let mut ctx = context("", "  load:27\r\n");
    ctx.on_http_request_headers(None);
    assert_eq!(ctx.on_http_response_headers(), Some("load:27".to_string()));
}

#[test]
fn blank_value_is_omitted() {
    let mut ctx = context("", "");
    ctx.on_http_request_headers(None);
    assert_eq!(ctx.on_http_response_headers(), None);
    let mut ctx = context("", " \t ");
    ctx.on_http_request_headers(None);
    assert_eq!(ctx.on_http_response_headers(), None);
}

#[test]
fn ineligible_exchange_gets_nothing() {
    let mut ctx = context("probe", "load:27");
    ctx.on_http_request_headers(Some("other"));
    assert_eq!(ctx.on_http_response_headers(), None);
}
