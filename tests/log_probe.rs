use sunshine_watchdog::ping::{NVFBC_MARKER, READY_MARKER};
use sunshine_watchdog::text::contains_bytes;
use sunshine_watchdog::{FailureKind, LogAction, StdoutPing};

fn lines(ls: &[&str]) -> Vec<Vec<u8>> {
    ls.iter().map(|l| l.as_bytes().to_vec()).collect()
}

#[test]
fn ready_then_nvfbc_fails_once() {
    let r = StdoutPing::scan(&lines(&[
        "[info] Configuration UI available at https://localhost:47990",
        "[error] Unable to cleanup NvFBC",
        "never read",
    ]));
    assert_eq!(r, vec![LogAction::SignalReady, LogAction::Fail(FailureKind::NvFBC)]);
}

#[test]
fn nvfbc_before_ready_is_ignored() {
    let r = StdoutPing::scan(&lines(&["Unable to cleanup NvFBC", "Configuration UI available"]));
    assert_eq!(
        r,
        vec![LogAction::Continue, LogAction::SignalReady, LogAction::Fail(FailureKind::Eof)]
    );
}

#[test]
fn empty_stream_is_eof_failure() {
    let r = StdoutPing::scan(&Vec::new());
    assert_eq!(r, vec![LogAction::Fail(FailureKind::Eof)]);
}

#[test]
fn readiness_signaled_once() {
    let r = StdoutPing::scan(&lines(&[
        "Configuration UI available",
        "other",
        "Configuration UI available",
    ]));
    assert_eq!(
        r,
        vec![
            LogAction::SignalReady,
            LogAction::Continue,
            LogAction::Continue,
            LogAction::Fail(FailureKind::Eof)
        ]
    );
}

#[test]
fn line_with_both_markers() {
    let both = b"Configuration UI available; Unable to cleanup NvFBC";
    let mut p = StdoutPing::new();
    assert_eq!(p.on_line(both, false), LogAction::SignalReady);
    assert!(p.is_ready());
    assert_eq!(p.on_line(both, false), LogAction::Fail(FailureKind::NvFBC));
}

#[test]
fn markers_are_case_sensitive() {
    let mut p = StdoutPing::new();
    assert_eq!(p.on_line(b"configuration ui available", false), LogAction::Continue);
    assert!(!p.is_ready());
}

#[test]
fn stop_between_lines() {
    let mut p = StdoutPing::new();
    assert_eq!(p.on_line(READY_MARKER.as_bytes(), true), LogAction::Stop);
    assert!(!p.is_ready());
    assert_eq!(p.on_eof(true), LogAction::Stop);
    assert_eq!(p.on_eof(false), LogAction::Fail(FailureKind::Eof));
}

#[test]
fn failure_tags() {
    assert_eq!(FailureKind::NvFBC.tag(), "NvFBC");
    assert_eq!(FailureKind::WebPortal.tag(), "WebPortal");
    assert_eq!(FailureKind::Eof.tag(), "EOF");
}

#[test]
fn byte_search_edges() {
    assert!(contains_bytes(b"abc", b""));
    assert!(!contains_bytes(b"ab", b"abc"));
    assert!(contains_bytes(b"xxabc", b"abc"));
    assert!(!contains_bytes(b"xxabd", b"abc"));
    assert!(contains_bytes(NVFBC_MARKER.as_bytes(), NVFBC_MARKER.as_bytes()));
}
