use sunshine_watchdog::ping::{status_code, PROBE_PERIOD_SECS};
use sunshine_watchdog::{FailureKind, HttpPing};

#[test]
fn status_line_parsing() {
    assert_eq!(status_code(b"HTTP/1.1 200 OK\r\n\r\n"), Some(200));
    assert_eq!(status_code(b"HTTP/1.0 503 Service Unavailable\r\n"), Some(503));
    assert_eq!(status_code(b"HTTP/1.1 302\r\n"), Some(302));
    assert_eq!(status_code(b"HTTP/1.1 404"), Some(404));
    assert_eq!(status_code(b"HTTP/1.1 20"), None);
    assert_eq!(status_code(b"HTTP/1.1 2000"), None);
    assert_eq!(status_code(b"HTTP/2 200 OK"), None);
    assert_eq!(status_code(b""), None);
    assert_eq!(status_code(b"\x15\x03\x01\x00\x02"), None);
}

#[test]
fn only_200_is_alive() {
    assert_eq!(HttpPing::on_response(Some(200)), None);
    assert_eq!(HttpPing::on_response(Some(503)), Some(FailureKind::WebPortal));
    assert_eq!(HttpPing::on_response(Some(301)), Some(FailureKind::WebPortal));
    assert_eq!(HttpPing::on_response(None), Some(FailureKind::WebPortal));
}

#[test]
fn connect_only_verdict() {
    assert_eq!(HttpPing::on_connect(true), None);
    assert_eq!(HttpPing::on_connect(false), Some(FailureKind::WebPortal));
}

#[test]
fn probing_stops_when_canceled_or_failed() {
    assert!(HttpPing::should_probe(false, false));
    assert!(!HttpPing::should_probe(true, false));
    assert!(!HttpPing::should_probe(false, true));
    assert_eq!(PROBE_PERIOD_SECS, 10);
}

#[test]
fn scheme_is_stripped_from_host() {
    let p = HttpPing::new("http://localhost".to_string(), 47990);
    assert_eq!(p.host_name(), b"localhost".to_vec());
    assert!(!p.uses_tls());
    let p = HttpPing::new("https://10.0.0.2".to_string(), 47990);
    assert_eq!(p.host_name(), b"10.0.0.2".to_vec());
    assert!(p.uses_tls());
    let p = HttpPing::new("localhost".to_string(), 1);
    assert_eq!(p.host_name(), b"localhost".to_vec());
    assert_eq!(p.host(), "localhost");
    assert_eq!(p.port(), 1);
}

#[test]
fn request_bytes() {
    let p = HttpPing::new("http://localhost".to_string(), 47990);
    assert_eq!(
        p.request(),
        b"GET / HTTP/1.1\r\nHost: localhost:47990\r\nConnection: close\r\n\r\n".to_vec()
    );
    let p = HttpPing::new("box".to_string(), 0);
    assert_eq!(p.request(), b"GET / HTTP/1.1\r\nHost: box:0\r\nConnection: close\r\n\r\n".to_vec());
}
