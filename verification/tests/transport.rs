use mcp_utils::cli::{request_timeout, start_failure_report};
use mcp_utils::transport::{listen_host, select_transport, Transport, DEFAULT_PORT, LOOPBACK_HOST};
use std::time::Duration;

fn network(transport: Transport) -> (String, u16) {
    match transport {
        Transport::Network { host, port } => (host, port),
        Transport::Stdio => panic!("expected the network transport"),
    }
}

#[test]
fn neither_host_nor_port_selects_the_pipe() {
    assert!(matches!(select_transport(None, None), Transport::Stdio));
}

#[test]
fn only_a_port_selects_the_loopback_address_on_that_port() {
    assert_eq!(network(select_transport(None, Some(3000))), ("127.0.0.1".to_string(), 3000));
    assert_eq!(network(select_transport(None, Some(0))), ("127.0.0.1".to_string(), 0));
    assert_eq!(network(select_transport(None, Some(u16::MAX))), ("127.0.0.1".to_string(), 65535));
}

#[test]
fn only_a_host_selects_the_default_port() {
    let selected = select_transport(Some("0.0.0.0".to_string()), None);
    assert_eq!(network(selected), ("0.0.0.0".to_string(), 8080));
}

#[test]
fn host_and_port_are_taken_as_configured() {
    let selected = select_transport(Some("example.org".to_string()), Some(9));
    assert_eq!(network(selected), ("example.org".to_string(), 9));
}

#[test]
fn an_empty_host_is_the_loopback_address() {
    assert_eq!(network(select_transport(Some(String::new()), None)), ("127.0.0.1".to_string(), 8080));
    assert_eq!(network(select_transport(Some(String::new()), Some(1))), ("127.0.0.1".to_string(), 1));
    assert_eq!(listen_host(String::new()), "127.0.0.1");
    assert_eq!(listen_host("localhost".to_string()), "localhost");
    assert_eq!(listen_host(" ".to_string()), " ");
}

#[test]
fn defaults_are_the_documented_ones() {
    assert_eq!(DEFAULT_PORT, 8080);
    assert_eq!(LOOPBACK_HOST, "127.0.0.1");
}

#[test]
fn timeout_defaults_to_sixty_seconds() {
    assert_eq!(request_timeout(None), Duration::from_secs(60));
    assert_eq!(request_timeout(None), Duration::new(60, 0));
}

#[test]
fn configured_timeout_is_taken() {
    assert_eq!(request_timeout(Some(Duration::from_secs(5))), Duration::from_secs(5));
    assert_eq!(request_timeout(Some(Duration::ZERO)), Duration::ZERO);
    assert_eq!(request_timeout(Some(Duration::from_millis(1500))), Duration::from_millis(1500));
}

#[test]
fn start_failure_is_reported_by_its_protocol_message_if_it_has_one() {
    let report = start_failure_report(Some("port in use".to_string()), "transport error".to_string());
    assert_eq!(report, "port in use");
    assert_eq!(start_failure_report(None, "transport error".to_string()), "transport error");
}
