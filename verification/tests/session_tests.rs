use qmk_led_control::color::RGBColor;
use qmk_led_control::encoder::{LightingIntent, ModeId, MODE_COUNT, OPCODE_SET_COLOR, REPORT_ID};
use qmk_led_control::enumerate::DeviceDescriptor;
use qmk_led_control::errors::{EncodeError, ErrorKind, IoError, OpenError};
use qmk_led_control::session::{SessionMachine, SessionState};

fn desc(path: &str) -> DeviceDescriptor {
    DeviceDescriptor {
        vendor_id: 0xfeed,
        product_id: 0x0042,
        manufacturer: None,
        product: None,
        path: String::from(path),
    }
}

fn connected_machine() -> SessionMachine {
    let mut m = SessionMachine::new();
    m.select(desc("kbd"));
    m.open_succeeded();
    m
}

#[test]
fn new_machine_is_unselected() {
    let m = SessionMachine::new();
    assert_eq!(m.current_state(), SessionState::Unselected);
    assert!(!m.has_session);
}

#[test]
fn select_then_open_then_submit_confirms_color() {
    // enumerate one descriptor -> select -> open succeeds -> submit red
    let mut m = SessionMachine::new();
    let close_first = m.select(desc("kbd"));
    assert!(!close_first);
    assert_eq!(m.current_state(), SessionState::Connecting);
    m.open_succeeded();
    assert_eq!(
        m.current_state(),
        SessionState::Connected { confirmed_color: RGBColor::black() }
    );
    m.submit(LightingIntent::SetColor(RGBColor::new(255, 0, 0))).unwrap();
    // the submitted color is not confirmed before the write succeeds
    assert_eq!(
        m.current_state(),
        SessionState::Connected { confirmed_color: RGBColor::black() }
    );
    let reports = m.start_pending_write().unwrap();
    assert_eq!(reports.len(), 1);
    m.write_succeeded();
    assert_eq!(
        m.current_state(),
        SessionState::Connected { confirmed_color: RGBColor::new(255, 0, 0) }
    );
}

#[test]
fn stale_descriptor_open_fails_not_found() {
    // enumerate -> empty list -> select a stale descriptor -> NotFound
    let mut m = SessionMachine::new();
    m.select(desc("unplugged"));
    m.open_failed(OpenError::NotFound);
    assert_eq!(
        m.current_state(),
        SessionState::Faulted { reason: ErrorKind::NotFound }
    );
    assert!(!m.has_session);
}

#[test]
fn two_rapid_submissions_send_one_sequence_with_latest_color() {
    let mut m = connected_machine();
    m.submit(LightingIntent::SetColor(RGBColor::new(10, 20, 30))).unwrap();
    m.submit(LightingIntent::SetColor(RGBColor::new(200, 100, 50))).unwrap();
    // exactly one sequence goes to the wire, carrying the second color
    let reports = m.start_pending_write().unwrap();
    assert_eq!(reports.len(), 1);
    assert_eq!(
        &reports[0].bytes[0..5],
        &[REPORT_ID, OPCODE_SET_COLOR, 200, 100, 50]
    );
    // nothing else may start while it is in flight
    assert!(m.start_pending_write().is_none());
    m.write_succeeded();
    // and nothing is left after it: the first color never reaches the wire
    assert!(m.start_pending_write().is_none());
    assert_eq!(
        m.current_state(),
        SessionState::Connected { confirmed_color: RGBColor::new(200, 100, 50) }
    );
}

#[test]
fn terminal_write_failure_faults_and_blocks_submit_until_select() {
    let mut m = connected_machine();
    m.submit(LightingIntent::SetColor(RGBColor::new(1, 2, 3))).unwrap();
    m.start_pending_write().unwrap();
    let retry = m.write_failed(IoError::Terminal);
    assert!(!retry);
    assert_eq!(
        m.current_state(),
        SessionState::Faulted { reason: ErrorKind::Terminal }
    );
    assert!(!m.has_session);
    // a subsequent submit is a no-op: nothing queued, nothing written
    assert!(m.submit(LightingIntent::SetColor(RGBColor::new(9, 9, 9))).is_ok());
    assert!(m.start_pending_write().is_none());
    assert_eq!(
        m.current_state(),
        SessionState::Faulted { reason: ErrorKind::Terminal }
    );
    // until select is called again
    m.select(desc("kbd"));
    assert_eq!(m.current_state(), SessionState::Connecting);
}

#[test]
fn already_in_use_faults_without_leaking_and_select_can_retry() {
    let mut m = SessionMachine::new();
    m.select(desc("kbd"));
    m.open_failed(OpenError::AlreadyInUse);
    assert_eq!(
        m.current_state(),
        SessionState::Faulted { reason: ErrorKind::AlreadyInUse }
    );
    // no partially opened handle is left behind
    assert!(!m.has_session);
    // once the conflict clears, a new select can still succeed
    let close_first = m.select(desc("kbd"));
    assert!(!close_first);
    m.open_succeeded();
    assert_eq!(
        m.current_state(),
        SessionState::Connected { confirmed_color: RGBColor::black() }
    );
    assert!(m.has_session);
}

#[test]
fn permission_denied_faults_with_its_reason() {
    let mut m = SessionMachine::new();
    m.select(desc("kbd"));
    m.open_failed(OpenError::PermissionDenied);
    assert_eq!(
        m.current_state(),
        SessionState::Faulted { reason: ErrorKind::PermissionDenied }
    );
}

#[test]
fn transient_failures_retry_then_exhaust_to_fault() {
    let mut m = connected_machine();
    m.submit(LightingIntent::SetColor(RGBColor::new(4, 5, 6))).unwrap();
    m.start_pending_write().unwrap();
    // two retries are allowed
    assert!(m.write_failed(IoError::Transient));
    assert!(m.write_failed(IoError::Transient));
    // the third transient failure exhausts the budget
    assert!(!m.write_failed(IoError::Transient));
    assert_eq!(
        m.current_state(),
        SessionState::Faulted { reason: ErrorKind::TransientExhausted }
    );
    assert!(!m.has_session);
}

#[test]
fn transient_failure_retries_same_reports_then_confirms() {
    let mut m = connected_machine();
    m.submit(LightingIntent::SetColor(RGBColor::new(40, 50, 60))).unwrap();
    let first = m.start_pending_write().unwrap();
    assert!(m.write_failed(IoError::Transient));
    let again = m.current_write().unwrap();
    // the retried sequence is byte-for-byte the one first handed out
    assert_eq!(first, again);
    m.write_succeeded();
    assert_eq!(
        m.current_state(),
        SessionState::Connected { confirmed_color: RGBColor::new(40, 50, 60) }
    );
}

#[test]
fn set_mode_write_keeps_confirmed_color() {
    let mut m = connected_machine();
    m.submit(LightingIntent::SetColor(RGBColor::new(7, 7, 7))).unwrap();
    m.start_pending_write().unwrap();
    m.write_succeeded();
    m.submit(LightingIntent::SetMode(ModeId(2))).unwrap();
    m.start_pending_write().unwrap();
    m.write_succeeded();
    // a mode change confirms without touching the confirmed color
    assert_eq!(
        m.current_state(),
        SessionState::Connected { confirmed_color: RGBColor::new(7, 7, 7) }
    );
}

#[test]
fn unknown_mode_submission_is_refused_and_changes_nothing() {
    let mut m = connected_machine();
    let r = m.submit(LightingIntent::SetMode(ModeId(MODE_COUNT)));
    assert_eq!(r, Err(EncodeError::UnknownMode));
    assert!(m.start_pending_write().is_none());
}

#[test]
fn select_over_live_session_asks_to_close_old_handle_first() {
    let mut m = connected_machine();
    let close_first = m.select(desc("other"));
    assert!(close_first);
    assert_eq!(m.current_state(), SessionState::Connecting);
    assert!(!m.has_session);
}

#[test]
fn disconnect_is_idempotent_and_discards_confirmed_state() {
    let mut m = connected_machine();
    m.submit(LightingIntent::SetColor(RGBColor::new(1, 1, 1))).unwrap();
    m.start_pending_write().unwrap();
    m.write_succeeded();
    let close = m.disconnect();
    assert!(close);
    assert_eq!(m.current_state(), SessionState::Unselected);
    // safe to call again, with nothing left to close
    let close = m.disconnect();
    assert!(!close);
    // a new connection starts from black again
    m.select(desc("kbd"));
    m.open_succeeded();
    assert_eq!(
        m.current_state(),
        SessionState::Connected { confirmed_color: RGBColor::black() }
    );
}
