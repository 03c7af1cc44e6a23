use fifo_ipc::clock::MAX_DURATION_MILLIS;
use fifo_ipc::daemon::{step_line, LineStep};
use fifo_ipc::path::{has_parent_component_exec, inside_tmp};
use fifo_ipc::clock::mock_timestamp;
use fifo_ipc::daemon::{handle_request, password_for, resp_fifo_allowed, response_for, serve_request, Dispatch};
use fifo_ipc::protocol::frame_message;
use fifo_ipc::text::is_blank_line;
use fifo_ipc::{Action, Request, Response, REQUEST_FIFO};

fn request(account: Option<&str>, resp_fifo: &str) -> Request {
    Request {
        action: Action::GetPassword,
        account: account.map(|a| a.to_string()),
        resp_fifo: resp_fifo.to_string(),
    }
}

#[test]
fn action_from_wire_name() {
    assert_eq!(Action::from("get_password"), Action::GetPassword);
}

#[test]
fn request_fifo_path() {
    assert_eq!(REQUEST_FIFO, "/tmp/pw_bridge_requests");
}

#[test]
fn password_format() {
    assert_eq!(password_for("github.com", 42), "pw-for-github.com-42");
    assert_eq!(password_for("", 0), "pw-for--0");
    assert_eq!(
        password_for("x", u128::MAX),
        "pw-for-x-340282366920938463463374607431768211455"
    );
}

#[test]
fn response_for_account() {
    let resp = response_for(&request(Some("github.com"), "/tmp/r"), 1725029869000);
    match resp {
        Response::GetPasswordResponse { password } => {
            assert_eq!(password, "pw-for-github.com-1725029869000")
        }
        other => panic!("unexpected {:?}", other),
    }
}

#[test]
fn response_without_account() {
    match response_for(&request(None, "/tmp/r"), 5) {
        Response::GetPasswordError { message } => assert_eq!(message, "missing account"),
        other => panic!("unexpected {:?}", other),
    }
    match handle_request(&request(None, "/tmp/r")) {
        Some(Response::GetPasswordError { message }) => assert_eq!(message, "missing account"),
        other => panic!("unexpected {:?}", other),
    }
}

#[test]
fn handled_password_uses_the_clock() {
    let before = mock_timestamp().unwrap();
    let resp = handle_request(&request(Some("acct"), "/tmp/r")).unwrap();
    let after = mock_timestamp().unwrap();
    match resp {
        Response::GetPasswordResponse { password } => {
            let t: u128 = password.strip_prefix("pw-for-acct-").unwrap().parse().unwrap();
            assert!(before <= t && t <= after);
        }
        other => panic!("unexpected {:?}", other),
    }
}

#[test]
fn clock_reads_after_epoch() {
    assert!(mock_timestamp().unwrap() > 1_600_000_000_000);
}

#[test]
fn resp_fifo_must_be_under_tmp() {
    assert!(resp_fifo_allowed(&request(None, "/tmp/pw_resp_1_2")));
    assert!(resp_fifo_allowed(&request(None, "/tmp/")));
    assert!(!resp_fifo_allowed(&request(None, "/tmp")));
    assert!(!resp_fifo_allowed(&request(None, "/var/tmp/x")));
    assert!(!resp_fifo_allowed(&request(None, "tmp/x")));
}

#[test]
fn refused_requests_get_no_answer() {
    match serve_request(&request(Some("a"), "/etc/passwd")) {
        Some(Dispatch::Refuse) => {}
        other => panic!("unexpected {:?}", other),
    }
    match serve_request(&request(None, "/tmp/x")) {
        Some(Dispatch::Reply(Response::GetPasswordError { message })) => {
            assert_eq!(message, "missing account")
        }
        other => panic!("unexpected {:?}", other),
    }
}

#[test]
fn blank_lines() {
    assert!(is_blank_line(""));
    assert!(is_blank_line("  \t \r"));
    assert!(is_blank_line("\u{3000}\u{a0}"));
    assert!(!is_blank_line(" x "));
    assert!(!is_blank_line("{}"));
}

#[test]
fn framing_appends_newline() {
    assert_eq!(frame_message("{\"a\":1}".to_string()), "{\"a\":1}\n");
    assert_eq!(frame_message(String::new()), "\n");
}

#[test]
fn parent_components_are_refused() {
    assert!(!resp_fifo_allowed(&request(None, "/tmp/../etc/x")));
    assert!(!resp_fifo_allowed(&request(None, "/tmp/a/..")));
    assert!(!resp_fifo_allowed(&request(None, "/tmp/a/../../etc/passwd")));
    assert!(resp_fifo_allowed(&request(None, "/tmp/..x")));
    assert!(resp_fifo_allowed(&request(None, "/tmp/x..")));
    assert!(resp_fifo_allowed(&request(None, "/tmp/./x")));
    assert!(resp_fifo_allowed(&request(None, "/tmp/a...b")));
    match serve_request(&request(None, "/tmp/../etc/x")) {
        Some(Dispatch::Refuse) => {}
        other => panic!("unexpected {:?}", other),
    }
}

#[test]
fn inside_tmp_paths() {
    assert!(has_parent_component_exec(".."));
    assert!(has_parent_component_exec("../x"));
    assert!(has_parent_component_exec("x/.."));
    assert!(!has_parent_component_exec("..."));
    assert!(!has_parent_component_exec(""));
    assert!(inside_tmp("/tmp/pw_resp_1_2"));
    assert!(!inside_tmp("/tmpx/y"));
    assert!(!inside_tmp("/tmp/../tmp/x"));
}

#[test]
fn line_steps() {
    let ok = request(Some("acct"), "/tmp/pw_resp_1_2");
    assert!(matches!(step_line("   ", Some(&ok)), Some(LineStep::Skip)));
    assert!(matches!(step_line("", None), Some(LineStep::Skip)));
    assert!(matches!(step_line("not json", None), Some(LineStep::Malformed)));
    let bad = request(Some("acct"), "/tmp/../etc/x");
    assert!(matches!(step_line("{...}", Some(&bad)), Some(LineStep::Dispatch(Dispatch::Refuse))));
    match step_line("{...}", Some(&ok)) {
        Some(LineStep::Dispatch(Dispatch::Reply(Response::GetPasswordResponse { password }))) => {
            assert!(password.starts_with("pw-for-acct-"))
        }
        other => panic!("unexpected {:?}", other),
    }
}

#[test]
fn clock_reading_fits_a_duration() {
    assert_eq!(MAX_DURATION_MILLIS, std::time::Duration::MAX.as_millis());
    assert!(mock_timestamp().unwrap() <= MAX_DURATION_MILLIS);
}
