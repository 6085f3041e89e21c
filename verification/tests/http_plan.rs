use bubble::errors::ProtocolViolation;
use bubble::http::{format_target, plan_request, HttpPlan, HttpRequestInfo};

fn connect_request(authority: Option<&str>) -> HttpRequestInfo {
    HttpRequestInfo {
        is_connect: true,
        authority: authority.map(String::from),
        host: None,
        port: None,
    }
}

fn plain_request(host: Option<&str>, port: Option<u16>) -> HttpRequestInfo {
    HttpRequestInfo {
        is_connect: false,
        authority: None,
        host: host.map(String::from),
        port,
    }
}

#[test]
fn connect_with_reachable_target_tunnels_directly() {
    // CONNECT example.com:443 with no chain node configured: answer with
    // the empty success response, then tunnel straight to the authority.
    let plan = plan_request(&connect_request(Some("example.com:443")), None);
    assert_eq!(
        plan,
        HttpPlan::TunnelDirect {
            target: String::from("example.com:443")
        }
    );
    assert_eq!(plan.violation(), None);
}

#[test]
fn connect_with_chain_node_sends_the_handshake() {
    let chain = String::from("relay.internal:1082");
    let plan = plan_request(&connect_request(Some("example.com:443")), Some(&chain));
    let mut expected = vec![0x00, 15];
    expected.extend_from_slice(b"example.com:443");
    assert_eq!(plan, HttpPlan::TunnelChained { handshake: expected });
}

#[test]
fn connect_without_authority_is_a_bad_request() {
    let plan = plan_request(&connect_request(None), None);
    assert_eq!(plan, HttpPlan::RejectMissingAuthority);
    assert_eq!(plan.violation(), Some(ProtocolViolation::MissingAuthority));
}

#[test]
fn connect_with_oversize_target_is_refused_on_the_chain() {
    let chain = String::from("relay.internal:1082");
    let long = "a".repeat(0x10000);
    let plan = plan_request(&connect_request(Some(&long)), Some(&chain));
    assert_eq!(plan, HttpPlan::RejectOversizeTarget);
    assert_eq!(plan.violation(), Some(ProtocolViolation::OversizeTarget));
}

#[test]
fn plain_request_forwards_to_origin_with_default_port() {
    // GET http://example.com/ names no port: forward to example.com:80.
    let plan = plan_request(&plain_request(Some("example.com"), None), None);
    assert_eq!(
        plan,
        HttpPlan::Forward {
            target: b"example.com:80".to_vec()
        }
    );
}

#[test]
fn plain_request_keeps_an_explicit_port() {
    let plan = plan_request(&plain_request(Some("example.com"), Some(8080)), None);
    assert_eq!(
        plan,
        HttpPlan::Forward {
            target: b"example.com:8080".to_vec()
        }
    );
}

#[test]
fn plain_request_ignores_the_chain_node() {
    let chain = String::from("relay.internal:1082");
    let plan = plan_request(&plain_request(Some("example.com"), None), Some(&chain));
    assert!(matches!(plan, HttpPlan::Forward { .. }));
}

#[test]
fn plain_request_without_host_is_rejected() {
    let plan = plan_request(&plain_request(None, None), None);
    assert_eq!(plan, HttpPlan::RejectMissingHost);
    assert_eq!(plan.violation(), Some(ProtocolViolation::MissingHost));
}

#[test]
fn target_formatting_covers_port_extremes() {
    assert_eq!(format_target(&String::from("h"), 0), b"h:0".to_vec());
    assert_eq!(format_target(&String::from("h"), 80), b"h:80".to_vec());
    assert_eq!(
        format_target(&String::from("example.com"), 65535),
        b"example.com:65535".to_vec()
    );
}
