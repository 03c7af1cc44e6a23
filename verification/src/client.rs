//! The client's decisions: command line, its dedicated response FIFO, the
//! request it sends, and how it reports the daemon's answer.

use vstd::prelude::*;
use crate::decimal::{decimal, push_decimal};
use crate::protocol::{Action, Request, RequestView, Response, ResponseView};
use crate::text::{blank, is_blank_line, str_equals};

verus! {

/// The ways a client invocation fails before or after talking to the daemon.
#[derive(Debug, Clone, Copy, PartialEq, Eq, Structural)]
pub enum ClientError {
    /// No command was given.
    MissingCommand,
    /// `get` without `--account`.
    AccountRequired,
    /// `--account` is the last argument.
    AccountValueRequired,
    /// The daemon's answer held nothing but white space.
    EmptyResponse,
}

impl ClientError {
    pub open spec fn text(self) -> Seq<char> {
        match self {
            ClientError::MissingCommand => "missing command"@,
            ClientError::AccountRequired => "--account is required for get"@,
            ClientError::AccountValueRequired => "--account requires a value"@,
            ClientError::EmptyResponse => "empty response from daemon"@,
        }
    }

    /// The message shown for the error.
    pub fn message(&self) -> (m: String)
        ensures
            m@ == self.text(),
    {
        match self {
            ClientError::MissingCommand => String::from_str("missing command"),
            ClientError::AccountRequired => String::from_str("--account is required for get"),
            ClientError::AccountValueRequired => String::from_str("--account requires a value"),
            ClientError::EmptyResponse => String::from_str("empty response from daemon"),
        }
    }
}

/// The command named on the command line.
#[derive(Debug, Clone, Copy, PartialEq, Eq, Structural)]
pub enum Command {
    /// Fewer than two arguments: there is no command.
    Missing,
    /// `daemon`: serve requests.
    Daemon,
    /// `get`: ask the daemon for a password.
    Get,
    /// Anything else: print the usage and stop.
    Unknown,
}

/// The arguments as sequences of characters.
pub open spec fn arg_views(args: Seq<String>) -> Seq<Seq<char>> {
    args.map_values(|a: String| a@)
}

/// The command that an argument list names (`args[0]` is the program).
pub open spec fn command_of(args: Seq<Seq<char>>) -> Command {
    if args.len() < 2 {
        Command::Missing
    } else if args[1] == "daemon"@ {
        Command::Daemon
    } else if args[1] == "get"@ {
        Command::Get
    } else {
        Command::Unknown
    }
}

/// Decides which command the command line names.
pub fn parse_command(args: &Vec<String>) -> (c: Command)
    ensures
        c == command_of(arg_views(args@)),
{
    if args.len() < 2 {
        return Command::Missing;
    }
    let cmd = args[1].as_str();
    if str_equals(cmd, "daemon") {
        Command::Daemon
    } else if str_equals(cmd, "get") {
        Command::Get
    } else {
        Command::Unknown
    }
}

/// `i` is the first position of the `--account` flag.
pub open spec fn first_account_flag(args: Seq<Seq<char>>, i: int) -> bool {
    &&& 0 <= i < args.len()
    &&& args[i] == "--account"@
    &&& forall|j: int| 0 <= j < i ==> args[j] != "--account"@
}

/// The account that the command line names: the argument after the first
/// `--account`.
pub open spec fn account_of(args: Seq<Seq<char>>) -> Result<Seq<char>, ClientError> {
    if exists|i: int| first_account_flag(args, i) {
        let i = choose|i: int| first_account_flag(args, i);
        if i + 1 < args.len() {
            Ok(args[i + 1])
        } else {
            Err(ClientError::AccountValueRequired)
        }
    } else {
        Err(ClientError::AccountRequired)
    }
}

/// Finds the account named after the first `--account` flag.
pub fn account_arg(args: &Vec<String>) -> (r: Result<String, ClientError>)
    ensures
        match (r, account_of(arg_views(args@))) {
            (Ok(a), Ok(b)) => a@ == b,
            (Err(e), Err(f)) => e == f,
            _ => false,
        },
        forall|i: int|
            0 <= i < args.len() && #[trigger] args[i]@ == "--account"@ && (forall|j: int|
                0 <= j < i ==> args[j]@ != "--account"@) ==> if i + 1 < args.len() {
                r matches Ok(a) && a@ == args[i + 1]@
            } else {
                r == Err::<String, ClientError>(ClientError::AccountValueRequired)
            },
        (forall|j: int| 0 <= j < args.len() ==> args[j]@ != "--account"@) ==> r == Err::<
            String,
            ClientError,
        >(ClientError::AccountRequired),
{
    let ghost views = arg_views(args@);
    let mut i: usize = 0;
    while i < args.len()
        invariant
            i <= args.len(),
            views == arg_views(args@),
            forall|j: int| 0 <= j < i ==> views[j] != "--account"@,
        decreases args.len() - i,
    {
        if str_equals(args[i].as_str(), "--account") {
            assert(first_account_flag(views, i as int));
            proof {
                let k = choose|k: int| first_account_flag(views, k);
                assert(k == i) by {
                    if k < i {
                        assert(views[k] != "--account"@);
                    } else if k > i {
                        assert(views[i as int] == "--account"@);
                    }
                }
                assert forall|k: int|
                    0 <= k < args.len() && #[trigger] args[k]@ == "--account"@ && (forall|j: int|
                        0 <= j < k ==> args[j]@ != "--account"@) implies k == i by {
                    if k < i {
                        assert(views[k] != "--account"@);
                    } else if k > i {
                        assert(args[i as int]@ == "--account"@);
                    }
                }
            }
            if i + 1 < args.len() {
                return Ok(args[i + 1].clone());
            } else {
                return Err(ClientError::AccountValueRequired);
            }
        }
        i = i + 1;
    }
    assert(!exists|k: int| first_account_flag(views, k));
    assert forall|k: int| 0 <= k < args.len() implies #[trigger] args[k]@ != "--account"@ by {
        assert(views[k] != "--account"@);
    }
    Err(ClientError::AccountRequired)
}

/// The path of the response FIFO of a client with process id `pid` started at
/// clock reading `millis`.
pub open spec fn resp_fifo_path_of(pid: nat, millis: nat) -> Seq<char> {
    "/tmp/pw_resp_"@ + decimal(pid) + "_"@ + decimal(millis)
}

/// Builds the path of the client's dedicated response FIFO.
pub fn resp_fifo_path(pid: u32, millis: u128) -> (path: String)
    ensures
        path@ == resp_fifo_path_of(pid as nat, millis as nat),
{
    let mut path = String::from_str("/tmp/pw_resp_");
    push_decimal(&mut path, pid as u128);
    path.append("_");
    push_decimal(&mut path, millis);
    path
}

/// The request for the password of `account`, answered on `resp_fifo`.
pub open spec fn password_request_of(account: Seq<char>, resp_fifo: Seq<char>) -> RequestView {
    RequestView { action: Action::GetPassword, account: Some(account), resp_fifo }
}

/// The request a client sends for the password of `account`.
pub fn get_password_request(account: &str, resp_fifo: String) -> (req: Request)
    ensures
        req@ == password_request_of(account@, resp_fifo@),
{
    Request { action: Action::GetPassword, account: Some(String::from_str(account)), resp_fifo }
}

/// Accepts the daemon's answer text unless it is blank.
pub fn check_response_text(buf: &str) -> (r: Result<(), ClientError>)
    ensures
        r is Err <==> blank(buf@),
        r matches Err(e) ==> e == ClientError::EmptyResponse,
{
    if is_blank_line(buf) {
        Err(ClientError::EmptyResponse)
    } else {
        Ok(())
    }
}

/// A line the client prints, and on which stream.
#[derive(Debug)]
pub enum Report {
    Stdout(String),
    Stderr(String),
}

/// What the client prints for an answer: the password on standard output, or
/// the daemon's error on standard error.
pub open spec fn report_of(resp: ResponseView) -> (bool, Seq<char>) {
    match resp {
        ResponseView::GetPasswordResponse { password } => (true, "Got password: "@ + password),
        ResponseView::GetPasswordError { message } => (false, "Daemon error: "@ + message),
    }
}

/// Renders the daemon's answer as the line the client prints.
pub fn render_response(resp: &Response) -> (out: Report)
    ensures
        match out {
            Report::Stdout(s) => report_of(resp@) == (true, s@),
            Report::Stderr(s) => report_of(resp@) == (false, s@),
        },
        resp matches Response::GetPasswordResponse { password } ==> (out matches Report::Stdout(s)
            && s@ == "Got password: "@ + password@),
        resp matches Response::GetPasswordError { message } ==> (out matches Report::Stderr(s)
            && s@ == "Daemon error: "@ + message@),
{
    match resp {
        Response::GetPasswordResponse { password } => {
            let mut line = String::from_str("Got password: ");
            line.append(password.as_str());
            Report::Stdout(line)
        },
        Response::GetPasswordError { message } => {
            let mut line = String::from_str("Daemon error: ");
            line.append(message.as_str());
            Report::Stderr(line)
        },
    }
}

/// The usage line printed for `program`.
pub open spec fn usage_of(program: Seq<char>) -> Seq<char> {
    "Usage: "@ + program + " <daemon|get> [--account NAME]"@
}

/// Builds the usage line printed for `program`.
pub fn usage_line(program: &str) -> (u: String)
    ensures
        u@ == usage_of(program@),
{
    let mut u = String::from_str("Usage: ");
    u.append(program);
    u.append(" <daemon|get> [--account NAME]");
    u
}

} // verus!
