use two_wee_terminal::control::{
    resize_request, text_resize, SessionAction, SessionEvent, SessionState,
    INACTIVITY_TIMEOUT_NANOS, WATCHDOG_PERIOD_SECS,
};
use two_wee_terminal::session::PtyDimensions;

fn dims(rows: u16, cols: u16) -> Option<PtyDimensions> {
    Some(PtyDimensions { rows, cols })
}

#[test]
fn resize_message() {
    assert_eq!(text_resize(r#"{"type":"resize","cols":120,"rows":40}"#), dims(40, 120));
    assert_eq!(text_resize(r#"{ "rows": 24, "type": "resize", "cols": 80, "extra": [1] }"#), dims(24, 80));
}

#[test]
fn resize_numbers_truncate_to_16_bits() {
    assert_eq!(text_resize(r#"{"type":"resize","cols":70000,"rows":65536}"#), dims(0, 4464));
}

#[test]
fn non_resize_messages() {
    assert_eq!(text_resize(r#"{"type":"ping","cols":120,"rows":40}"#), None);
    assert_eq!(text_resize(r#"{"type":"resize","cols":120}"#), None);
    assert_eq!(text_resize(r#"{"type":"resize","rows":40}"#), None);
    assert_eq!(text_resize(r#"{"type":"resize","cols":-1,"rows":40}"#), None);
    assert_eq!(text_resize(r#"{"type":"resize","cols":80.5,"rows":40}"#), None);
    assert_eq!(text_resize(r#"{"type":"resize","cols":"80","rows":40}"#), None);
    assert_eq!(text_resize(r#"{"type":"RESIZE","cols":80,"rows":40}"#), None);
    assert_eq!(text_resize(r#"[{"type":"resize","cols":80,"rows":40}]"#), None);
    assert_eq!(text_resize(r#"{"type":"resize","cols":80,"rows":40"#), None);
    assert_eq!(text_resize("resize"), None);
    assert_eq!(text_resize(""), None);
}

#[test]
fn resize_request_from_members() {
    assert_eq!(resize_request(Some("resize".to_string()), Some(10), Some(5)), dims(5, 10));
    assert_eq!(resize_request(Some("resize".to_string()), None, Some(5)), None);
    assert_eq!(resize_request(Some("other".to_string()), Some(10), Some(5)), None);
    assert_eq!(resize_request(None, Some(10), Some(5)), None);
    assert_eq!(resize_request(Some("resize".to_string()), Some(65536 + 7), Some(u64::MAX)), dims(65535, 7));
}

const SEC: u64 = 1_000_000_000;

fn is_close(a: &SessionAction) -> bool {
    matches!(a, SessionAction::Close)
}

#[test]
fn timeouts() {
    assert_eq!(INACTIVITY_TIMEOUT_NANOS, 30 * 60 * 1_000_000_000);
    assert_eq!(WATCHDOG_PERIOD_SECS, 60);
}

#[test]
fn terminal_output_forwarded_and_counts_as_activity() {
    let mut s = SessionState::new(0);
    match s.step(100, SessionEvent::PtyOutput(vec![27, b'[', b'H'])) {
        SessionAction::SendToClient(d) => assert_eq!(d, vec![27, b'[', b'H']),
        _ => panic!("expected forward"),
    }
    assert!(s.is_open());
    assert_eq!(s.last_activity, 100);
}

#[test]
fn client_input_written_to_terminal() {
    let mut s = SessionState::new(5);
    match s.step(7, SessionEvent::ClientBinary(b"ls\r".to_vec())) {
        SessionAction::WriteToPty(d) => assert_eq!(d, b"ls\r".to_vec()),
        _ => panic!("expected write"),
    }
    assert_eq!(s.last_activity, 7);
}

#[test]
fn text_resize_does_not_count_as_activity() {
    let mut s = SessionState::new(3);
    match s.step(50, SessionEvent::ClientText(r#"{"type":"resize","cols":90,"rows":30}"#.to_string())) {
        SessionAction::ResizePty(d) => assert_eq!(d, PtyDimensions { rows: 30, cols: 90 }),
        _ => panic!("expected resize"),
    }
    assert_eq!(s.last_activity, 3);
    assert!(matches!(s.step(60, SessionEvent::ClientText("hello".to_string())), SessionAction::Nothing));
    assert!(s.is_open());
}

#[test]
fn ending_events_close_once() {
    let enders = || {
        vec![
            SessionEvent::PtyOutput(vec![]),
            SessionEvent::PtyFailed,
            SessionEvent::ClientClose,
            SessionEvent::ClientGone,
            SessionEvent::ChildExited,
        ]
    };
    for (k, e) in enders().into_iter().enumerate() {
        let mut s = SessionState::new(0);
        assert!(is_close(&s.step(1, e)), "event {}", k);
        assert!(!s.is_open());
        for e2 in enders() {
            assert!(matches!(s.step(2, e2), SessionAction::Nothing));
        }
        assert!(matches!(s.step(3, SessionEvent::PtyOutput(vec![1])), SessionAction::Nothing));
        assert!(matches!(s.step(5000, SessionEvent::WatchdogTick), SessionAction::Nothing));
    }
}

#[test]
fn pings_ignored() {
    let mut s = SessionState::new(0);
    assert!(matches!(s.step(10, SessionEvent::ClientOther), SessionAction::Nothing));
    assert_eq!(s.last_activity, 0);
    assert!(s.is_open());
}

#[test]
fn watchdog_ends_idle_session() {
    let mut s = SessionState::new(0);
    assert!(matches!(s.step(SEC * 60, SessionEvent::WatchdogTick), SessionAction::Nothing));
    assert!(matches!(s.step(SEC * 1800 - 1, SessionEvent::WatchdogTick), SessionAction::Nothing));
    assert!(is_close(&s.step(SEC * 1800, SessionEvent::WatchdogTick)));
    assert!(!s.is_open());
}

#[test]
fn idle_compared_exactly_not_by_whole_seconds() {
    // Activity at 0.9 s; a tick at 1800.5 s is 1799.6 s later: still running.
    let mut s = SessionState::new(0);
    s.step(SEC / 10 * 9, SessionEvent::ClientBinary(vec![b'x']));
    assert!(matches!(s.step(SEC * 1800 + SEC / 2, SessionEvent::WatchdogTick), SessionAction::Nothing));
    assert!(is_close(&s.step(SEC * 1800 + SEC / 10 * 9, SessionEvent::WatchdogTick)));
}

#[test]
fn activity_defers_watchdog() {
    let mut s = SessionState::new(0);
    s.step(SEC * 1000, SessionEvent::ClientBinary(vec![b'a']));
    assert!(matches!(s.step(SEC * 1800, SessionEvent::WatchdogTick), SessionAction::Nothing));
    assert!(matches!(s.step(SEC * 2800 - 1, SessionEvent::WatchdogTick), SessionAction::Nothing));
    s.step(SEC * 2000, SessionEvent::PtyOutput(vec![b'b']));
    assert!(matches!(s.step(SEC * 3800 - 1, SessionEvent::WatchdogTick), SessionAction::Nothing));
    assert!(is_close(&s.step(SEC * 3800, SessionEvent::WatchdogTick)));
}

#[test]
fn clock_going_backwards_is_not_idle() {
    let mut s = SessionState::new(SEC * 5000);
    assert!(matches!(s.step(SEC * 10, SessionEvent::WatchdogTick), SessionAction::Nothing));
    assert!(s.is_open());
}
