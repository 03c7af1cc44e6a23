use fifo_ipc::client::{
    account_arg, check_response_text, get_password_request, parse_command, render_response,
    resp_fifo_path, usage_line, ClientError, Command, Report,
};
use fifo_ipc::daemon::{serve_request, Dispatch};
use fifo_ipc::{Action, Response};

fn args(list: &[&str]) -> Vec<String> {
    list.iter().map(|s| s.to_string()).collect()
}

#[test]
fn test_client_missing_account_flag() {
    let a = args(&["pw-cli", "get"]);
    assert_eq!(parse_command(&a), Command::Get);
    let err = account_arg(&a).unwrap_err();
    assert_eq!(err, ClientError::AccountRequired);
    assert!(err.message().contains("--account is required"), "expected account required error");
}

#[test]
fn test_client_missing_account_value() {
    let a = args(&["pw-cli", "get", "--account"]);
    assert_eq!(parse_command(&a), Command::Get);
    let err = account_arg(&a).unwrap_err();
    assert_eq!(err, ClientError::AccountValueRequired);
    assert!(err.message().contains("--account requires a value"), "expected value required error");
}

#[test]
fn test_daemon_client_communication() {
    let path = resp_fifo_path(4242, 1725029869000);
    let req = get_password_request("github.com", path.clone());
    let resp = match serve_request(&req) {
        Some(Dispatch::Reply(resp)) => resp,
        other => panic!("expected a reply, got {:?}", other),
    };
    let stdout = match render_response(&resp) {
        Report::Stdout(line) => line,
        Report::Stderr(line) => panic!("client command failed: {}", line),
    };
    assert!(stdout.contains("Got password:"), "expected password in output, got: {}", stdout);
    assert!(stdout.contains("github.com"), "expected account name in password");
}

#[test]
fn account_is_the_argument_after_the_first_flag() {
    let a = args(&["pw-cli", "get", "--account", "a.example", "--account", "b.example"]);
    assert_eq!(account_arg(&a).unwrap(), "a.example");
    let b = args(&["pw-cli", "get", "--account", "--account"]);
    assert_eq!(account_arg(&b).unwrap(), "--account");
    let c = args(&["--account", "x", "get"]);
    assert_eq!(account_arg(&c).unwrap(), "x");
    let d = args(&["pw-cli", "get", "--acount", "x"]);
    assert_eq!(account_arg(&d).unwrap_err(), ClientError::AccountRequired);
}

#[test]
fn commands_are_recognised() {
    assert_eq!(parse_command(&args(&[])), Command::Missing);
    assert_eq!(parse_command(&args(&["pw"])), Command::Missing);
    assert_eq!(parse_command(&args(&["pw", "daemon"])), Command::Daemon);
    assert_eq!(parse_command(&args(&["pw", "get", "--account", "x"])), Command::Get);
    assert_eq!(parse_command(&args(&["pw", "Get"])), Command::Unknown);
    assert_eq!(parse_command(&args(&["pw", "daemon "])), Command::Unknown);
}

#[test]
fn error_messages() {
    assert_eq!(ClientError::MissingCommand.message(), "missing command");
    assert_eq!(ClientError::AccountRequired.message(), "--account is required for get");
    assert_eq!(ClientError::AccountValueRequired.message(), "--account requires a value");
    assert_eq!(ClientError::EmptyResponse.message(), "empty response from daemon");
}

#[test]
fn response_fifo_path_format() {
    assert_eq!(resp_fifo_path(1234, 1700000000000), "/tmp/pw_resp_1234_1700000000000");
    assert_eq!(resp_fifo_path(0, 0), "/tmp/pw_resp_0_0");
    assert_eq!(
        resp_fifo_path(u32::MAX, u128::MAX),
        format!("/tmp/pw_resp_{}_{}", u32::MAX, u128::MAX)
    );
}

#[test]
fn distinct_clients_get_distinct_paths() {
    assert_ne!(resp_fifo_path(1, 23), resp_fifo_path(12, 3));
    assert_ne!(resp_fifo_path(7, 100), resp_fifo_path(7, 10));
}

#[test]
fn client_request_fields() {
    let req = get_password_request("github.com", "/tmp/pw_resp_1_2".to_string());
    assert_eq!(req.action, Action::GetPassword);
    assert_eq!(req.account.as_deref(), Some("github.com"));
    assert_eq!(req.resp_fifo, "/tmp/pw_resp_1_2");
}

#[test]
fn blank_response_is_rejected() {
    assert_eq!(check_response_text(""), Err(ClientError::EmptyResponse));
    assert_eq!(check_response_text(" \n\t"), Err(ClientError::EmptyResponse));
    assert_eq!(check_response_text("{\"ok\":\"true\"}\n"), Ok(()));
}

#[test]
fn rendering_of_answers() {
    let ok = Response::GetPasswordResponse { password: "pw-for-a-1".to_string() };
    match render_response(&ok) {
        Report::Stdout(line) => assert_eq!(line, "Got password: pw-for-a-1"),
        Report::Stderr(line) => panic!("unexpected stderr {}", line),
    }
    let err = Response::GetPasswordError { message: "missing account".to_string() };
    match render_response(&err) {
        Report::Stderr(line) => assert_eq!(line, "Daemon error: missing account"),
        Report::Stdout(line) => panic!("unexpected stdout {}", line),
    }
}

#[test]
fn usage_text() {
    assert_eq!(usage_line("pw-cli"), "Usage: pw-cli <daemon|get> [--account NAME]");
}
