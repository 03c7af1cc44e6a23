//! The single-program bridge: the same daemon and client, speaking an older
//! wire format in which the action is a free string and the answer is a flat
//! record with an `ok` flag.

use vstd::prelude::*;
use crate::clock::{mock_timestamp, MAX_DURATION_MILLIS};
use crate::daemon::{missing_account, password_for, password_of};
use crate::path::{inside_tmp, inside_tmp_spec};
use crate::client::Report;
use crate::protocol::REQUEST_FIFO;
use crate::text::str_equals;

verus! {

/// A request in the bridge's wire format.
#[derive(Debug)]
pub struct BridgeRequest {
    pub action: String,
    pub account: Option<String>,
    pub resp_fifo: String,
}

/// A bridge request seen as values.
pub struct BridgeRequestView {
    pub action: Seq<char>,
    pub account: Option<Seq<char>>,
    pub resp_fifo: Seq<char>,
}

impl View for BridgeRequest {
    type V = BridgeRequestView;

    open spec fn view(&self) -> BridgeRequestView {
        BridgeRequestView {
            action: self.action@,
            account: match self.account {
                Some(a) => Some(a@),
                None => None,
            },
            resp_fifo: self.resp_fifo@,
        }
    }
}

/// An answer in the bridge's wire format.
#[derive(Debug)]
pub struct BridgeResponse {
    pub ok: bool,
    pub message: Option<String>,
    pub password: Option<String>,
}

/// A bridge answer seen as values.
pub struct BridgeResponseView {
    pub ok: bool,
    pub message: Option<Seq<char>>,
    pub password: Option<Seq<char>>,
}

pub open spec fn option_view(o: Option<String>) -> Option<Seq<char>> {
    match o {
        Some(s) => Some(s@),
        None => None,
    }
}

impl View for BridgeResponse {
    type V = BridgeResponseView;

    open spec fn view(&self) -> BridgeResponseView {
        BridgeResponseView {
            ok: self.ok,
            message: option_view(self.message),
            password: option_view(self.password),
        }
    }
}

/// The message of the answer to a request whose action is not known.
pub open spec fn unknown_action() -> Seq<char> {
    "unknown action"@
}

/// The bridge's answer to a request, given the clock reading used for the
/// password.
pub open spec fn bridge_response_of(req: BridgeRequestView, timestamp: nat) -> BridgeResponseView {
    if req.action == "get_password"@ {
        match req.account {
            Some(account) => BridgeResponseView {
                ok: true,
                message: None,
                password: Some(password_of(account, timestamp)),
            },
            None => BridgeResponseView { ok: false, message: Some(missing_account()), password: None },
        }
    } else {
        BridgeResponseView { ok: false, message: Some(unknown_action()), password: None }
    }
}

/// Whether the answer to a request needs the clock.
pub open spec fn needs_clock(req: BridgeRequestView) -> bool {
    req.action == "get_password"@ && req.account is Some
}

/// The bridge's answer to `req` when the clock reads `timestamp`.
pub fn response_for(req: &BridgeRequest, timestamp: u128) -> (resp: BridgeResponse)
    ensures
        resp@ == bridge_response_of(req@, timestamp as nat),
{
    if str_equals(req.action.as_str(), "get_password") {
        match &req.account {
            Some(account) => BridgeResponse {
                ok: true,
                message: None,
                password: Some(password_for(account.as_str(), timestamp)),
            },
            None => BridgeResponse {
                ok: false,
                message: Some(String::from_str("missing account")),
                password: None,
            },
        }
    } else {
        BridgeResponse { ok: false, message: Some(String::from_str("unknown action")), password: None }
    }
}

/// Answers a bridge request, reading the clock only for a password. `None`
/// only when a password was asked for and the clock reads a time before the
/// Unix epoch.
pub fn handle_request(req: &BridgeRequest) -> (resp: Option<BridgeResponse>)
    ensures
        !needs_clock(req@) ==> (resp matches Some(r) && r@ == bridge_response_of(req@, 0)),
        resp matches Some(r) ==> exists|t: u128|
            t <= MAX_DURATION_MILLIS && #[trigger] bridge_response_of(req@, t as nat) == r@,
        resp is None ==> needs_clock(req@),
{
    let wants_password = str_equals(req.action.as_str(), "get_password");
    if wants_password && req.account.is_some() {
        match mock_timestamp() {
            Some(t) => {
                let r = response_for(req, t);
                assert(r@ == bridge_response_of(req@, t as nat));
                Some(r)
            },
            None => None,
        }
    } else {
        let r = response_for(req, 0);
        assert(r@ == bridge_response_of(req@, 0u128 as nat));
        Some(r)
    }
}

/// Decides whether the daemon may write to the request's response FIFO.
pub fn resp_fifo_allowed(req: &BridgeRequest) -> (ok: bool)
    ensures
        ok == inside_tmp_spec(req.resp_fifo@),
{
    inside_tmp(req.resp_fifo.as_str())
}

/// The request a bridge client sends for the password of `account`.
pub fn get_password_request(account: &str, resp_fifo: String) -> (req: BridgeRequest)
    ensures
        req.action@ == "get_password"@,
        req.account matches Some(a) && a@ == account@,
        req.resp_fifo@ == resp_fifo@,
{
    BridgeRequest {
        action: String::from_str("get_password"),
        account: Some(String::from_str(account)),
        resp_fifo,
    }
}

/// What the bridge client prints for an answer: on success the password (empty
/// when the answer carries none) on standard output, else the message
/// (`unknown` when the answer carries none) on standard error.
pub open spec fn bridge_report_of(resp: BridgeResponseView) -> (bool, Seq<char>) {
    if resp.ok {
        (true, "Got password: "@ + match resp.password {
            Some(p) => p,
            None => Seq::empty(),
        })
    } else {
        (false, "Daemon error: "@ + match resp.message {
            Some(m) => m,
            None => "unknown"@,
        })
    }
}

/// Renders a bridge answer as the line the client prints.
pub fn render_response(resp: &BridgeResponse) -> (out: Report)
    ensures
        match out {
            Report::Stdout(s) => bridge_report_of(resp@) == (true, s@),
            Report::Stderr(s) => bridge_report_of(resp@) == (false, s@),
        },
        resp.ok && resp.password is Some ==> (out matches Report::Stdout(s) && s@ == "Got password: "@
            + resp.password.unwrap()@),
        resp.ok && resp.password is None ==> (out matches Report::Stdout(s) && s@
            == "Got password: "@),
        !resp.ok && resp.message is Some ==> (out matches Report::Stderr(s) && s@ == "Daemon error: "@
            + resp.message.unwrap()@),
        !resp.ok && resp.message is None ==> (out matches Report::Stderr(s) && s@
            == "Daemon error: "@ + "unknown"@),
{
    if resp.ok {
        let mut line = String::from_str("Got password: ");
        match &resp.password {
            Some(p) => line.append(p.as_str()),
            None => {},
        }
        Report::Stdout(line)
    } else {
        let mut line = String::from_str("Daemon error: ");
        match &resp.message {
            Some(m) => line.append(m.as_str()),
            None => line.append("unknown"),
        }
        Report::Stderr(line)
    }
}

/// The text of the error when the bridge's request path exists but is not a
/// FIFO.
pub open spec fn not_a_fifo_text() -> Seq<char> {
    REQUEST_FIFO@ + " exists but is not a FIFO"@
}

/// The message shown when the bridge's request path exists but is not a FIFO.
pub fn not_a_fifo_message() -> (m: String)
    ensures
        m@ == not_a_fifo_text(),
{
    let mut m = String::from_str(REQUEST_FIFO);
    m.append(" exists but is not a FIFO");
    m
}

} // verus!
