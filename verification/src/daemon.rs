//! The daemon's decisions: which requests it serves, and what it answers.

use vstd::prelude::*;
use crate::clock::{mock_timestamp, MAX_DURATION_MILLIS};
use crate::decimal::{decimal, push_decimal};
use crate::protocol::{Action, Request, RequestView, Response, ResponseView};
use crate::text::{blank, is_blank_line};
use crate::path::{inside_tmp, inside_tmp_spec};

verus! {

/// The daemon answers only on a response FIFO whose path lies inside `/tmp`.
pub open spec fn resp_fifo_allowed_spec(req: RequestView) -> bool {
    inside_tmp_spec(req.resp_fifo)
}

/// The mock password of an account at a given clock reading (in milliseconds).
pub open spec fn password_of(account: Seq<char>, timestamp: nat) -> Seq<char> {
    "pw-for-"@ + account + "-"@ + decimal(timestamp)
}

/// The message of the answer to a password request without an account.
pub open spec fn missing_account() -> Seq<char> {
    "missing account"@
}

/// The answer to a request, given the clock reading used for the password.
pub open spec fn response_of(req: RequestView, timestamp: nat) -> ResponseView {
    match req.action {
        Action::GetPassword => match req.account {
            Some(account) => ResponseView::GetPasswordResponse {
                password: password_of(account, timestamp),
            },
            None => ResponseView::GetPasswordError { message: missing_account() },
        },
    }
}

/// What the daemon does with a request it has parsed.
#[derive(Debug)]
pub enum Dispatch {
    /// The response FIFO lies outside `/tmp`: nothing is written.
    Refuse,
    /// Write this answer to the request's response FIFO.
    Reply(Response),
}

/// Decides whether the daemon may write to the request's response FIFO.
pub fn resp_fifo_allowed(req: &Request) -> (ok: bool)
    ensures
        ok == resp_fifo_allowed_spec(req@),
{
    inside_tmp(req.resp_fifo.as_str())
}

/// Builds the mock password of `account` at clock reading `timestamp`.
pub fn password_for(account: &str, timestamp: u128) -> (pw: String)
    ensures
        pw@ == password_of(account@, timestamp as nat),
{
    let mut pw = String::from_str("pw-for-");
    pw.append(account);
    pw.append("-");
    push_decimal(&mut pw, timestamp);
    pw
}

/// The answer to `req` when the clock reads `timestamp`.
pub fn response_for(req: &Request, timestamp: u128) -> (resp: Response)
    ensures
        resp@ == response_of(req@, timestamp as nat),
{
    match req.action {
        Action::GetPassword => match &req.account {
            Some(account) => Response::GetPasswordResponse {
                password: password_for(account.as_str(), timestamp),
            },
            None => Response::GetPasswordError { message: String::from_str("missing account") },
        },
    }
}

/// Answers a request, reading the clock for the password. `None` only when a
/// password was asked for and the clock reads a time before the Unix epoch.
pub fn handle_request(req: &Request) -> (resp: Option<Response>)
    ensures
        req.account is None ==> (resp matches Some(r) && r@ == (ResponseView::GetPasswordError {
            message: missing_account(),
        })),
        resp matches Some(r) ==> exists|t: u128|
            t <= MAX_DURATION_MILLIS && #[trigger] response_of(req@, t as nat) == r@,
        resp is None ==> req.account is Some,
{
    match req.action {
        Action::GetPassword => {
            if req.account.is_some() {
                match mock_timestamp() {
                    Some(t) => {
                        let r = response_for(req, t);
                        assert(r@ == response_of(req@, t as nat));
                        Some(r)
                    },
                    None => None,
                }
            } else {
                let r = Response::GetPasswordError { message: String::from_str("missing account") };
                assert(r@ == response_of(req@, 0u128 as nat));
                Some(r)
            }
        },
    }
}

/// What the daemon does with a request it has parsed: refuse a response FIFO
/// outside `/tmp` without reading the clock, else answer the request. `None`
/// only when the answer needed the clock and the clock reads a time before
/// the Unix epoch.
pub fn serve_request(req: &Request) -> (d: Option<Dispatch>)
    ensures
        !resp_fifo_allowed_spec(req@) ==> d == Some(Dispatch::Refuse),
        d matches Some(Dispatch::Refuse) ==> !resp_fifo_allowed_spec(req@),
        resp_fifo_allowed_spec(req@) && req.account is None ==> (d matches Some(
            Dispatch::Reply(r),
        ) && r@ == (ResponseView::GetPasswordError { message: missing_account() })),
        d matches Some(Dispatch::Reply(r)) ==> resp_fifo_allowed_spec(req@) && exists|t: u128|
            t <= MAX_DURATION_MILLIS && #[trigger] response_of(req@, t as nat) == r@,
        d is None ==> resp_fifo_allowed_spec(req@) && req.account is Some,
{
    if !resp_fifo_allowed(req) {
        return Some(Dispatch::Refuse);
    }
    match handle_request(req) {
        Some(r) => Some(Dispatch::Reply(r)),
        None => None,
    }
}

/// What the daemon does with one line read from its request FIFO. Every step
/// goes on to the next line.
#[derive(Debug)]
pub enum LineStep {
    /// The line is blank: ignore it.
    Skip,
    /// The line holds no request: report it.
    Malformed,
    /// The line holds a request: refuse it or answer it.
    Dispatch(Dispatch),
}

/// Decides what the daemon does with one line of its request FIFO, given the
/// request the line holds, if it holds one (`parsed` is not looked at for a
/// blank line). `None` only when a request inside `/tmp` asks for a password
/// and the clock reads a time before the Unix epoch: no other line stops the
/// daemon.
pub fn step_line(line: &str, parsed: Option<&Request>) -> (s: Option<LineStep>)
    ensures
        blank(line@) ==> s == Some(LineStep::Skip),
        !blank(line@) && parsed is None ==> s == Some(LineStep::Malformed),
        s matches Some(LineStep::Dispatch(Dispatch::Refuse)) <==> (!blank(line@) && (
        parsed matches Some(req) && !resp_fifo_allowed_spec(req@))),
        s matches Some(LineStep::Dispatch(Dispatch::Reply(r))) ==> (!blank(line@) && (
        parsed matches Some(req) && resp_fifo_allowed_spec(req@) && exists|t: u128|
            t <= MAX_DURATION_MILLIS && #[trigger] response_of(req@, t as nat) == r@)),
        !blank(line@) ==> (parsed matches Some(req) ==> (resp_fifo_allowed_spec(req@) ==> (s is None
            || s matches Some(LineStep::Dispatch(Dispatch::Reply(_)))))),
        s is None ==> (!blank(line@) && (parsed matches Some(req) && resp_fifo_allowed_spec(req@)
            && req.account is Some)),
{
    if is_blank_line(line) {
        return Some(LineStep::Skip);
    }
    match parsed {
        None => Some(LineStep::Malformed),
        Some(req) => match serve_request(req) {
            Some(d) => Some(LineStep::Dispatch(d)),
            None => None,
        },
    }
}

} // verus!
