use bubble::addr::{pick_resolved, HostAddr};
use bubble::config::{Auth, Cli, Http, Proxy, Socks5, Tunnel};
use bubble::listener::{accept_policy, AcceptDirective, ACCEPT_RETRY_DELAY_SECS};
use bubble::relay::{Direction, RelayOutcome, RelayState};

#[test]
fn relay_counts_bytes_and_stops_on_eof() {
    // Stream A sends 5 bytes in two chunks and closes; B never sends. The
    // relay terminates and reports 5 bytes A to B and 0 the other way.
    let mut relay = RelayState::new();
    relay.on_data(Direction::AToB, &vec![1, 2, 3]);
    relay.on_data(Direction::AToB, &vec![4, 5]);
    let outcome = relay.on_eof(Direction::AToB);
    assert_eq!(
        outcome,
        RelayOutcome::Done {
            a_to_b: 5,
            b_to_a: 0
        }
    );
    assert!(relay.finished);
}

#[test]
fn relay_counts_both_directions() {
    let mut relay = RelayState::new();
    relay.on_data(Direction::AToB, &vec![0; 10]);
    relay.on_data(Direction::BToA, &vec![0; 7]);
    relay.on_data(Direction::AToB, &vec![0; 1]);
    let outcome = relay.on_eof(Direction::BToA);
    assert_eq!(
        outcome,
        RelayOutcome::Done {
            a_to_b: 11,
            b_to_a: 7
        }
    );
}

#[test]
fn relay_reports_the_failing_direction() {
    let mut relay = RelayState::new();
    relay.on_data(Direction::BToA, &vec![9]);
    let outcome = relay.on_error(Direction::BToA);
    assert_eq!(
        outcome,
        RelayOutcome::Failed {
            dir: Direction::BToA
        }
    );
    assert!(relay.finished);
}

#[test]
fn accept_success_dispatches_at_once() {
    assert_eq!(accept_policy(true), AcceptDirective::Dispatch);
}

#[test]
fn accept_failure_backs_off_for_one_second() {
    assert_eq!(
        accept_policy(false),
        AcceptDirective::RetryAfterDelay { seconds: 1 }
    );
    assert_eq!(ACCEPT_RETRY_DELAY_SECS, 1);
}

fn v4(a: u8, b: u8, c: u8, d: u8, port: u16) -> HostAddr {
    HostAddr::V4 {
        ip: vec![a, b, c, d],
        port,
    }
}

fn v6(port: u16) -> HostAddr {
    HostAddr::V6 {
        ip: vec![0; 16],
        port,
    }
}

#[test]
fn resolution_prefers_the_first_ipv4_result() {
    let addrs = vec![v6(1), v6(2), v4(10, 0, 0, 5, 3), v4(10, 0, 0, 6, 4)];
    assert_eq!(pick_resolved(&addrs), Some(2));
}

#[test]
fn resolution_takes_the_first_result_without_ipv4() {
    let addrs = vec![v6(1), v6(2)];
    assert_eq!(pick_resolved(&addrs), Some(0));
}

#[test]
fn resolution_of_nothing_is_unreachable() {
    assert_eq!(pick_resolved(&vec![]), None);
}

#[test]
fn listener_defaults_match_the_documented_addresses() {
    let socks5 = Socks5::default();
    assert!(!socks5.enabled);
    assert_eq!(socks5.ip, "0.0.0.0");
    assert_eq!(socks5.port, 1080);

    let http = Http::default();
    assert!(!http.enabled);
    assert_eq!(http.ip, "0.0.0.0");
    assert_eq!(http.port, 1081);
    assert_eq!(http.tunnel_addr, None);

    let tunnel = Tunnel::default();
    assert!(!tunnel.enabled);
    assert_eq!(tunnel.ip, "0.0.0.0");
    assert_eq!(tunnel.port, 1082);

    let auth = Auth::default();
    assert!(!auth.auth_required);
    assert_eq!(auth.auth_users, None);
}

#[test]
fn a_configuration_needs_at_least_one_listener() {
    let cli = Cli::default();
    assert!(!cli.proxy.any_enabled());

    let mut proxy = Proxy::default();
    proxy.http.enabled = true;
    assert!(proxy.any_enabled());
}
