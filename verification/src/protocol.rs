//! The messages exchanged between the client and the daemon, and how a
//! message is framed on a FIFO.

use vstd::prelude::*;

verus! {

/// Well-known path of the FIFO on which the daemon receives requests.
pub const REQUEST_FIFO: &'static str = "/tmp/pw_bridge_requests";

/// The operations a client can ask the daemon for.
#[derive(Clone, Copy, Debug, PartialEq, Eq, Structural)]
pub enum Action {
    GetPassword,
}

impl Action {
    /// Converts the wire name of an action into the action. `"get_password"`
    /// is the only name there is.
    pub fn from(s: &'static str) -> (a: Action)
        requires
            s@ == "get_password"@,
        ensures
            a == Action::GetPassword,
    {
        Action::GetPassword
    }
}

/// A request sent by a client: what it wants, for which account, and the FIFO
/// on which it waits for the answer.
#[derive(Debug)]
pub struct Request {
    pub action: Action,
    pub account: Option<String>,
    pub resp_fifo: String,
}

/// A request seen as values: the strings as sequences of characters.
pub struct RequestView {
    pub action: Action,
    pub account: Option<Seq<char>>,
    pub resp_fifo: Seq<char>,
}

impl View for Request {
    type V = RequestView;

    open spec fn view(&self) -> RequestView {
        RequestView {
            action: self.action,
            account: match self.account {
                Some(a) => Some(a@),
                None => None,
            },
            resp_fifo: self.resp_fifo@,
        }
    }
}

/// The daemon's answer to a request.
#[derive(Debug)]
pub enum Response {
    GetPasswordResponse { password: String },
    GetPasswordError { message: String },
}

/// An answer seen as values.
pub enum ResponseView {
    GetPasswordResponse { password: Seq<char> },
    GetPasswordError { message: Seq<char> },
}

impl View for Response {
    type V = ResponseView;

    open spec fn view(&self) -> ResponseView {
        match self {
            Response::GetPasswordResponse { password } => ResponseView::GetPasswordResponse {
                password: password@,
            },
            Response::GetPasswordError { message } => ResponseView::GetPasswordError {
                message: message@,
            },
        }
    }
}

/// One message on a FIFO: its text followed by a newline.
pub open spec fn framed(message: Seq<char>) -> Seq<char> {
    message.push('\n')
}

/// Frames a serialized message for writing to a FIFO, one message per line.
pub fn frame_message(message: String) -> (line: String)
    ensures
        line@ == framed(message@),
{
    let mut line = message;
    crate::text::string_push(&mut line, '\n');
    line
}

} // verus!
