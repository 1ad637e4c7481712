//! The line-based console client and the client's reading of server lines.

use crate::client::Event;
use crate::protocol::Response;
use crate::text::{eq_ignore_ascii_case, join2, same_ignoring_ascii_case, trim, trimmed};
use vstd::prelude::*;

verus! {

/// What the console client does with a line typed by the user.
#[derive(Debug, PartialEq, Eq)]
pub enum ConsoleInput {
    /// The user typed `exit`, in any case: the client stops.
    Exit,
    /// Nothing but white space: the client asks again.
    Skip,
    /// Send `line` to the server and show `shown` as sent.
    Send { line: String, shown: String },
}

/// Reads a typed line: it is trimmed, `exit` in any case ends the client,
/// an empty line is skipped, and anything else is sent with a newline.
pub fn console_input(typed: &str) -> (r: ConsoleInput)
    ensures
        same_ignoring_ascii_case(trimmed(typed@), "exit"@) ==> r == ConsoleInput::Exit,
        !same_ignoring_ascii_case(trimmed(typed@), "exit"@) && trimmed(typed@).len() == 0 ==> r
            == ConsoleInput::Skip,
        !same_ignoring_ascii_case(trimmed(typed@), "exit"@) && trimmed(typed@).len() > 0 ==> (r matches ConsoleInput::Send {
            line,
            shown,
        } && line@ == trimmed(typed@) + "\n"@ && shown@ == trimmed(typed@)),
{
    let t = trim(typed);
    if eq_ignore_ascii_case(t.as_str(), "exit") {
        return ConsoleInput::Exit;
    }
    if t.unicode_len() == 0 {
        return ConsoleInput::Skip;
    }
    let line = join2(t.as_str(), "\n");
    ConsoleInput::Send { line, shown: t }
}

/// What came of waiting for a line from the server.
#[derive(Debug, PartialEq, Eq)]
pub enum Incoming {
    /// The server closed the connection.
    Closed,
    /// A line arrived; `response` is what it reads as, if it reads.
    Line { text: String, response: Option<Response> },
    /// Reading failed; the system's message.
    Failed(String),
    /// There is no connection yet.
    NotConnected,
}

/// The client event for what came from the server.
pub fn incoming_event(incoming: Incoming) -> (r: Event)
    ensures
        match incoming {
            Incoming::Closed => r matches Event::Error(t) && t@ == "Server disconnected"@,
            Incoming::Line { text, response } => match response {
                Some(resp) => r == Event::ServerResponse(resp),
                None => r matches Event::Error(t) && t@ == "Invalid response: "@ + text@,
            },
            Incoming::Failed(e) => r matches Event::Error(t) && t@ == "Error reading: "@ + e@,
            Incoming::NotConnected => r matches Event::Error(t) && t@ == "No connection"@,
        },
{
    match incoming {
        Incoming::Closed => Event::Error(String::from_str("Server disconnected")),
        Incoming::Line { text, response } => match response {
            Some(resp) => Event::ServerResponse(resp),
            None => Event::Error(join2("Invalid response: ", text.as_str())),
        },
        Incoming::Failed(e) => Event::Error(join2("Error reading: ", e.as_str())),
        Incoming::NotConnected => Event::Error(String::from_str("No connection")),
    }
}

} // verus!
