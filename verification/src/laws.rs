//! Properties of the protocol that span the client and the daemon.

use vstd::prelude::*;
use crate::bridge::{bridge_report_of, bridge_response_of, BridgeRequestView, BridgeResponseView};
use crate::client::{account_of, password_request_of, report_of, resp_fifo_path_of, ClientError};
use crate::daemon::{password_of, resp_fifo_allowed_spec, response_of};
use crate::path::{lemma_no_dot_no_parent, tmp_dir};
use crate::decimal::{
    decimal, digits_value, is_digit, lemma_decimal_digits, lemma_decimal_injective,
    lemma_decimal_value,
};
use crate::protocol::Action;
use crate::protocol::{framed, RequestView, ResponseView};

verus! {

/// Every response FIFO a client names lies inside `/tmp` (under `/tmp/`, with
/// no `..` component), so the daemon never refuses a client's request; it answers it with the password of the account
/// the client asked for, which the client prints after `Got password: ` on
/// standard output.
pub proof fn lemma_client_request_served(account: Seq<char>, pid: nat, millis: nat, timestamp: nat)
    ensures
        resp_fifo_allowed_spec(password_request_of(account, resp_fifo_path_of(pid, millis))),
        response_of(password_request_of(account, resp_fifo_path_of(pid, millis)), timestamp)
            == (ResponseView::GetPasswordResponse { password: password_of(account, timestamp) }),
        report_of(response_of(password_request_of(account, resp_fifo_path_of(pid, millis)), timestamp))
            == (true, "Got password: "@ + password_of(account, timestamp)),
{
    reveal_strlit("/tmp/");
    reveal_strlit("/tmp/pw_resp_");
    reveal_strlit("_");
    let path = resp_fifo_path_of(pid, millis);
    assert(path.subrange(0, 5) =~= tmp_dir());
    let a = "/tmp/pw_resp_"@;
    let b = decimal(pid);
    let c = "_"@;
    let d = decimal(millis);
    lemma_decimal_digits(pid);
    lemma_decimal_digits(millis);
    assert forall|k: int| 0 <= k < path.len() implies path[k] != '.' by {
        if k < a.len() {
            assert(path[k] == a[k]);
        } else if k < a.len() + b.len() {
            assert(path[k] == b[k - a.len()]);
            assert(is_digit(b[k - a.len()]));
        } else if k < a.len() + b.len() + c.len() {
            assert(path[k] == c[k - a.len() - b.len()]);
        } else {
            assert(path[k] == d[k - a.len() - b.len() - c.len()]);
            assert(is_digit(d[k - a.len() - b.len() - c.len()]));
        }
    }
    lemma_no_dot_no_parent(path);
}

/// A password names the account it was made for.
pub proof fn lemma_password_names_account(account: Seq<char>, timestamp: nat)
    ensures
        exists|i: int|
            0 <= i && i + account.len() <= password_of(account, timestamp).len()
                && #[trigger] password_of(account, timestamp).subrange(i, i + account.len())
                == account,
{
    let pw = password_of(account, timestamp);
    let i = "pw-for-"@.len() as int;
    assert(pw.subrange(i, i + account.len()) =~= account);
}

/// Splitting `d + [sep] + e` at the first `sep` is unique when `d` holds no `sep`.
proof fn lemma_split_at_separator(d1: Seq<char>, e1: Seq<char>, d2: Seq<char>, e2: Seq<char>, sep: char)
    requires
        forall|i: int| 0 <= i < d1.len() ==> d1[i] != sep,
        forall|i: int| 0 <= i < d2.len() ==> d2[i] != sep,
        d1 + seq![sep] + e1 == d2 + seq![sep] + e2,
    ensures
        d1 == d2,
        e1 == e2,
{
    let s1 = d1 + seq![sep] + e1;
    let s2 = d2 + seq![sep] + e2;
    if d1.len() < d2.len() {
        assert(s1[d1.len() as int] == sep);
        assert(s2[d1.len() as int] == d2[d1.len() as int]);
    } else if d2.len() < d1.len() {
        assert(s2[d2.len() as int] == sep);
        assert(s1[d2.len() as int] == d1[d2.len() as int]);
    }
    assert(d1 =~= s1.subrange(0, d1.len() as int));
    assert(d2 =~= s2.subrange(0, d2.len() as int));
    assert(e1 =~= s1.subrange(d1.len() + 1int, s1.len() as int));
    assert(e2 =~= s2.subrange(d2.len() + 1int, s2.len() as int));
}

/// Each client gets a response FIFO of its own: two clients name the same
/// path only when they have the same process id and started at the same
/// millisecond.
pub proof fn lemma_resp_fifo_path_injective(pid1: nat, millis1: nat, pid2: nat, millis2: nat)
    requires
        resp_fifo_path_of(pid1, millis1) == resp_fifo_path_of(pid2, millis2),
    ensures
        pid1 == pid2,
        millis1 == millis2,
{
    reveal_strlit("_");
    let prefix = "/tmp/pw_resp_"@;
    let s1 = resp_fifo_path_of(pid1, millis1);
    let s2 = resp_fifo_path_of(pid2, millis2);
    let t1 = decimal(pid1) + seq!['_'] + decimal(millis1);
    let t2 = decimal(pid2) + seq!['_'] + decimal(millis2);
    assert(t1 =~= s1.subrange(prefix.len() as int, s1.len() as int));
    assert(t2 =~= s2.subrange(prefix.len() as int, s2.len() as int));
    lemma_decimal_digits(pid1);
    lemma_decimal_digits(pid2);
    assert(forall|i: int| 0 <= i < decimal(pid1).len() ==> decimal(pid1)[i] != '_') by {
        assert(forall|i: int| 0 <= i < decimal(pid1).len() ==> is_digit(#[trigger] decimal(pid1)[i]));
    }
    assert(forall|i: int| 0 <= i < decimal(pid2).len() ==> decimal(pid2)[i] != '_') by {
        assert(forall|i: int| 0 <= i < decimal(pid2).len() ==> is_digit(#[trigger] decimal(pid2)[i]));
    }
    lemma_split_at_separator(decimal(pid1), decimal(millis1), decimal(pid2), decimal(millis2), '_');
    lemma_decimal_injective(pid1, pid2);
    lemma_decimal_injective(millis1, millis2);
}

/// The bridge and the typed daemon give the same answer to the same password
/// request: the same password, or the same error message.
pub proof fn lemma_bridge_agrees(req: RequestView, breq: BridgeRequestView, timestamp: nat)
    requires
        breq.action == "get_password"@,
        breq.account == req.account,
    ensures
        match response_of(req, timestamp) {
            ResponseView::GetPasswordResponse { password } => bridge_response_of(breq, timestamp).ok
                && bridge_response_of(breq, timestamp).password == Some(password),
            ResponseView::GetPasswordError { message } => !bridge_response_of(breq, timestamp).ok
                && bridge_response_of(breq, timestamp).message == Some(message),
        },
{
}

/// A framed message is one line: a message without a newline becomes its
/// characters followed by a single newline, which is the only one in the frame.
pub proof fn lemma_frame_is_one_line(message: Seq<char>)
    requires
        !message.contains('\n'),
    ensures
        framed(message).last() == '\n',
        framed(message).drop_last() == message,
        forall|i: int| 0 <= i < framed(message).len() - 1 ==> framed(message)[i] != '\n',
{
    assert(framed(message).drop_last() =~= message);
    assert forall|i: int| 0 <= i < framed(message).len() - 1 implies framed(message)[i] != '\n' by {
        assert(framed(message)[i] == message[i]);
    }
}

/// A password reads as `pw-for-`, then the account, then `-`, then the clock
/// reading in decimal digits: both the account and the reading can be read
/// back from it.
pub proof fn lemma_password_encodes_account_and_time(account: Seq<char>, timestamp: nat)
    ensures
        ({
            let pw = password_of(account, timestamp);
            let n = account.len() as int;
            &&& pw.len() >= 9 + n
            &&& pw.subrange(0, 7) == "pw-for-"@
            &&& pw.subrange(7, 7 + n) == account
            &&& pw[7 + n] == '-'
            &&& forall|k: int| 8 + n <= k < pw.len() ==> is_digit(#[trigger] pw[k])
            &&& digits_value(pw.subrange(8 + n, pw.len() as int)) == timestamp
        }),
{
    reveal_strlit("pw-for-");
    reveal_strlit("-");
    let pw = password_of(account, timestamp);
    let n = account.len() as int;
    lemma_decimal_digits(timestamp);
    lemma_decimal_value(timestamp);
    assert(pw.subrange(0, 7) =~= "pw-for-"@);
    assert(pw.subrange(7, 7 + n) =~= account);
    assert(pw.subrange(8 + n, pw.len() as int) =~= decimal(timestamp));
    assert forall|k: int| 8 + n <= k < pw.len() implies is_digit(#[trigger] pw[k]) by {
        assert(pw[k] == decimal(timestamp)[k - 8 - n]);
    }
}

/// The daemon answers a password request naming an account with a password
/// that carries that account and the clock reading the answer was made at; a
/// request without an account gets the error `missing account`.
pub proof fn lemma_answer_carries_account_and_time(req: RequestView, timestamp: nat)
    ensures
        req.account matches Some(a) ==> (response_of(req, timestamp) matches
            ResponseView::GetPasswordResponse { password } && password.subrange(7, 7 + a.len() as int)
            == a && digits_value(password.subrange(8 + a.len() as int, password.len() as int))
            == timestamp),
        req.account is None ==> response_of(req, timestamp) == (ResponseView::GetPasswordError {
            message: "missing account"@,
        }),
{
    if let Some(a) = req.account {
        lemma_password_encodes_account_and_time(a, timestamp);
    }
}

/// The bridge answers a `get_password` request naming an account with `ok`,
/// no message, and a password carrying the account and the clock reading; any
/// other request gets `ok` false, no password, and an error message.
pub proof fn lemma_bridge_answer_shape(req: BridgeRequestView, timestamp: nat)
    ensures
        req.action == "get_password"@ && req.account is Some ==> ({
            let r = bridge_response_of(req, timestamp);
            let a = req.account.unwrap();
            &&& r.ok
            &&& r.message is None
            &&& r.password matches Some(p) && p.subrange(7, 7 + a.len() as int) == a && digits_value(
                p.subrange(8 + a.len() as int, p.len() as int),
            ) == timestamp
        }),
        req.action == "get_password"@ && req.account is None ==> bridge_response_of(req, timestamp)
            == (BridgeResponseView { ok: false, message: Some("missing account"@), password: None }),
        req.action != "get_password"@ ==> bridge_response_of(req, timestamp) == (BridgeResponseView {
            ok: false,
            message: Some("unknown action"@),
            password: None,
        }),
{
    if let Some(a) = req.account {
        lemma_password_encodes_account_and_time(a, timestamp);
    }
}

/// The bridge client prints a successful answer's password after
/// `Got password: ` on standard output (nothing after it when the answer has
/// none), and a failed answer's message after `Daemon error: ` on standard
/// error (`unknown` when the answer has none).
pub proof fn lemma_bridge_report(resp: BridgeResponseView)
    ensures
        resp.ok ==> bridge_report_of(resp).0,
        !resp.ok ==> !bridge_report_of(resp).0,
        resp.ok ==> (resp.password matches Some(p) ==> bridge_report_of(resp).1 == "Got password: "@
            + p),
        resp.ok && resp.password is None ==> bridge_report_of(resp).1 == "Got password: "@,
        !resp.ok ==> (resp.message matches Some(m) ==> bridge_report_of(resp).1 == "Daemon error: "@
            + m),
        !resp.ok && resp.message is None ==> bridge_report_of(resp).1 == "Daemon error: "@
            + "unknown"@,
{
    assert("Got password: "@ + Seq::<char>::empty() =~= "Got password: "@);
}

/// The client prints a password answer after `Got password: ` on standard
/// output, and an error answer after `Daemon error: ` on standard error.
pub proof fn lemma_report(resp: ResponseView)
    ensures
        resp matches ResponseView::GetPasswordResponse { password } ==> report_of(resp) == (
            true,
            "Got password: "@ + password,
        ),
        resp matches ResponseView::GetPasswordError { message } ==> report_of(resp) == (
            false,
            "Daemon error: "@ + message,
        ),
{
}

/// The account is the argument right after the first `--account`, unchanged;
/// `--account` as the last argument lacks its value, and no `--account` at all
/// means the account is missing.
pub proof fn lemma_account_after_first_flag(args: Seq<Seq<char>>, i: int)
    requires
        0 <= i < args.len(),
        args[i] == "--account"@,
        forall|j: int| 0 <= j < i ==> args[j] != "--account"@,
    ensures
        i + 1 < args.len() ==> account_of(args) == Ok::<Seq<char>, ClientError>(args[i + 1]),
        i + 1 == args.len() ==> account_of(args) == Err::<Seq<char>, ClientError>(
            ClientError::AccountValueRequired,
        ),
{
    let k = choose|k: int| crate::client::first_account_flag(args, k);
    assert(crate::client::first_account_flag(args, i));
    if k < i {
        assert(args[k] != "--account"@);
    } else if k > i {
        assert(args[i] == "--account"@);
    }
}

/// Without any `--account` argument, the account is missing.
pub proof fn lemma_no_account_flag(args: Seq<Seq<char>>)
    requires
        forall|j: int| 0 <= j < args.len() ==> args[j] != "--account"@,
    ensures
        account_of(args) == Err::<Seq<char>, ClientError>(ClientError::AccountRequired),
{
}

} // verus!
