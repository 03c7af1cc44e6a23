use fifo_ipc::bridge::{
    get_password_request, handle_request, not_a_fifo_message, render_response, resp_fifo_allowed,
    response_for, BridgeRequest, BridgeResponse,
};
use fifo_ipc::client::Report;
use fifo_ipc::fifo::{after_fifo_check, after_mkfifo, FifoError, FifoSetup, MkfifoOutcome};

#[test]
fn mkfifo_outcomes() {
    assert!(matches!(after_mkfifo(MkfifoOutcome::Created), FifoSetup::Ready));
    assert!(matches!(after_mkfifo(MkfifoOutcome::AlreadyExists), FifoSetup::CheckExisting));
    match after_mkfifo(MkfifoOutcome::Failed("EACCES: Permission denied".to_string())) {
        FifoSetup::Fail(e) => assert_eq!(e.message(), "mkfifo failed: EACCES: Permission denied"),
        other => panic!("unexpected {:?}", other),
    }
}

#[test]
fn existing_file_check() {
    assert!(after_fifo_check(true).is_ok());
    match after_fifo_check(false) {
        Err(e) => assert_eq!(e.message(), "/tmp/pw_bridge_requests *exists but is not a FIFO"),
        Ok(()) => panic!("a regular file was accepted"),
    }
    assert!(matches!(after_fifo_check(false), Err(FifoError::NotAFifo)));
}

fn breq(action: &str, account: Option<&str>) -> BridgeRequest {
    BridgeRequest {
        action: action.to_string(),
        account: account.map(|a| a.to_string()),
        resp_fifo: "/tmp/pw_resp_1_1".to_string(),
    }
}

#[test]
fn bridge_answers() {
    let ok = response_for(&breq("get_password", Some("github.com")), 77);
    assert!(ok.ok);
    assert_eq!(ok.message, None);
    assert_eq!(ok.password.as_deref(), Some("pw-for-github.com-77"));

    let missing = response_for(&breq("get_password", None), 77);
    assert!(!missing.ok);
    assert_eq!(missing.message.as_deref(), Some("missing account"));
    assert_eq!(missing.password, None);

    let unknown = handle_request(&breq("get_secret", Some("x"))).unwrap();
    assert!(!unknown.ok);
    assert_eq!(unknown.message.as_deref(), Some("unknown action"));
}

#[test]
fn bridge_password_reads_clock() {
    let r = handle_request(&breq("get_password", Some("acct"))).unwrap();
    assert!(r.ok);
    assert!(r.password.unwrap().starts_with("pw-for-acct-"));
}

#[test]
fn bridge_request_and_paths() {
    let r = get_password_request("github.com", "/tmp/pw_resp_9_9".to_string());
    assert_eq!(r.action, "get_password");
    assert_eq!(r.account.as_deref(), Some("github.com"));
    assert!(resp_fifo_allowed(&r));
    assert!(!resp_fifo_allowed(&BridgeRequest {
        action: "get_password".to_string(),
        account: None,
        resp_fifo: "/home/x".to_string(),
    }));
    assert!(!resp_fifo_allowed(&BridgeRequest {
        action: "get_password".to_string(),
        account: None,
        resp_fifo: "/tmp/../home/x".to_string(),
    }));
}

#[test]
fn bridge_rendering_defaults() {
    let no_pw = BridgeResponse { ok: true, message: None, password: None };
    match render_response(&no_pw) {
        Report::Stdout(l) => assert_eq!(l, "Got password: "),
        Report::Stderr(l) => panic!("unexpected {}", l),
    }
    let no_msg = BridgeResponse { ok: false, message: None, password: None };
    match render_response(&no_msg) {
        Report::Stderr(l) => assert_eq!(l, "Daemon error: unknown"),
        Report::Stdout(l) => panic!("unexpected {}", l),
    }
    let msg = BridgeResponse { ok: false, message: Some("unknown action".to_string()), password: None };
    match render_response(&msg) {
        Report::Stderr(l) => assert_eq!(l, "Daemon error: unknown action"),
        Report::Stdout(l) => panic!("unexpected {}", l),
    }
}

#[test]
fn bridge_not_a_fifo() {
    assert_eq!(not_a_fifo_message(), "/tmp/pw_bridge_requests exists but is not a FIFO");
}
