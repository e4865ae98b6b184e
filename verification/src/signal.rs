//! Lifecycle signals for an embedding runtime that receives everything as
//! JSON text through one callback.

use vstd::prelude::*;
use crate::text::{escape_quotes, join3, optional_str, optional_text, quotes_escaped};

verus! {

/// The signal sent before the first message is delivered.
pub open spec fn connected_signal() -> Seq<char> {
    "{\"__signal__\":\"connected\"}"@
}

/// The signal sent when listening ended without error.
pub open spec fn closed_signal() -> Seq<char> {
    "{\"__signal__\":\"disconnected\",\"error\":\"connection closed normally\"}"@
}

/// The signal sent when listening ended with the error `error`.
pub open spec fn error_signal(error: Seq<char>) -> Seq<char> {
    "{\"__signal__\":\"error\",\"error\":\""@ + quotes_escaped(error) + "\"}"@
}

/// The signal for the way listening ended: `None` for a normal end, else the
/// error's text.
pub open spec fn end_signal(error: Option<Seq<char>>) -> Seq<char> {
    match error {
        None => closed_signal(),
        Some(e) => error_signal(e),
    }
}

/// The signal to send when listening has ended.
pub fn listen_end_signal(error: Option<&str>) -> (signal: String)
    ensures
        signal@ == end_signal(optional_str(error)),
{
    match error {
        None => {
            "{\"__signal__\":\"disconnected\",\"error\":\"connection closed normally\"}".to_string()
        },
        Some(e) => {
            let escaped = escape_quotes(e);
            join3("{\"__signal__\":\"error\",\"error\":\"", escaped.as_str(), "\"}")
        },
    }
}

/// Remembers whether the connected signal has been sent.
#[derive(Debug, Clone, Copy, PartialEq, Eq, Structural)]
pub struct SignalGate {
    pub connected_signaled: bool,
}

impl SignalGate {
    /// A gate through which nothing has passed yet.
    pub fn new() -> (gate: SignalGate)
        ensures
            !gate.connected_signaled,
    {
        SignalGate { connected_signaled: false }
    }

    /// Called for every message about to be delivered: the connected signal
    /// is due before the first one, and never again.
    pub fn before_message(&mut self) -> (signal: Option<String>)
        ensures
            final(self).connected_signaled,
            old(self).connected_signaled ==> signal is None,
            !old(self).connected_signaled ==> optional_text(signal) == Some(connected_signal()),
    {
        if self.connected_signaled {
            None
        } else {
            self.connected_signaled = true;
            Some("{\"__signal__\":\"connected\"}".to_string())
        }
    }
}

} // verus!
