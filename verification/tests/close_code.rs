use splinter::close_code::{has_fatal_error_code, is_session_timeout};
use splinter::gateway::CloseFrame;

#[test]
fn session_timeout_code() {
    assert!(is_session_timeout(4009));
    for code in [1000u16, 1006, 4000, 4004, 4006, 4008, 4010, 4015] {
        assert!(!is_session_timeout(code), "code {code}");
    }
}

#[test]
fn fatal_error_codes() {
    for code in [4004u16, 4010, 4011, 4012, 4013, 4014] {
        assert!(has_fatal_error_code(&CloseFrame::new(code, "x")), "code {code}");
    }
    for code in [1000u16, 1006, 4000, 4001, 4002, 4003, 4005, 4006, 4007, 4008, 4009, 4015] {
        assert!(!has_fatal_error_code(&CloseFrame::new(code, "x")), "code {code}");
    }
}

#[test]
fn close_frame_constants() {
    let normal = CloseFrame::normal();
    assert_eq!(normal.code, 1000);
    assert_eq!(normal.reason, "closing connection");
    let unknown = CloseFrame::unknown_reason();
    assert_eq!(unknown.code, 4000);
    assert_eq!(unknown.reason, "unknown reason");
}
