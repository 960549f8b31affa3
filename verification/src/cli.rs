//! The command-line surface: what an invocation asks for.
//!
//! Argument parsing itself belongs to the shell; these are the parsed
//! shapes, and the mapping from a subcommand to the protocol token a
//! client delivers to a running daemon.

use vstd::prelude::*;

use crate::config::MatcherKind;
use crate::protocol::{spec_classify_payload, SocketVerdict};

verus! {

/// Actions to carry out.
#[derive(Clone, Debug)]
pub enum Command {
    /// Open an application instance.
    Open { name: String },
    /// Add an application instance to the configuration.
    Add { matcher: MatcherKind, class_name: Option<String>, name: String, command: Vec<String> },
    /// Kill the active session associated with the instance,
    /// terminating the application.
    Kill { name: String },
    /// Hide an application instance.
    Hide { name: String },
    /// Toggle the visibility of an application instance.
    Toggle { name: String },
}

/// A parsed invocation.
#[derive(Clone, Debug)]
pub struct Args {
    pub command: Command,
}

impl Command {
    /// The protocol token this command delivers to a running daemon;
    /// `Add` edits the configuration locally and delivers nothing.
    pub fn action_token(&self) -> (r: Option<&'static str>)
        ensures
            match self {
                Command::Open { .. } => r matches Some(t) && t@ == "open"@,
                Command::Kill { .. } => r matches Some(t) && t@ == "kill"@,
                Command::Hide { .. } => r matches Some(t) && t@ == "hide"@,
                Command::Toggle { .. } => r matches Some(t) && t@ == "toggle"@,
                Command::Add { .. } => r is None,
            },
    {
        match self {
            Command::Open { .. } => Some("open"),
            Command::Kill { .. } => Some("kill"),
            Command::Hide { .. } => Some("hide"),
            Command::Toggle { .. } => Some("toggle"),
            Command::Add { .. } => None,
        }
    }

    /// The instance the command is about.
    pub fn instance_name(&self) -> (r: &String)
        ensures
            match self {
                Command::Open { name } => r == name,
                Command::Add { name, .. } => r == name,
                Command::Kill { name } => r == name,
                Command::Hide { name } => r == name,
                Command::Toggle { name } => r == name,
            },
    {
        match self {
            Command::Open { name } => name,
            Command::Add { name, .. } => name,
            Command::Kill { name } => name,
            Command::Hide { name } => name,
            Command::Toggle { name } => name,
        }
    }
}

/// Every token a client can deliver is one the socket server forwards
/// to the supervisor, and the shutdown word is not among them.
pub proof fn lemma_client_tokens_are_forwarded()
    ensures
        spec_classify_payload("open"@) == SocketVerdict::Forward,
        spec_classify_payload("kill"@) == SocketVerdict::Forward,
        spec_classify_payload("hide"@) == SocketVerdict::Forward,
        spec_classify_payload("toggle"@) == SocketVerdict::Forward,
        spec_classify_payload("term"@) == SocketVerdict::Shutdown,
{
    reveal_strlit("open");
    reveal_strlit("kill");
    reveal_strlit("hide");
    reveal_strlit("toggle");
    reveal_strlit("term");
    assert("term"@[0] == 't' && "open"@[0] == 'o' && "hide"@[0] == 'h' && "kill"@[0] == 'k');
    assert("term"@.len() == 4 && "toggle"@.len() == 6);
}

} // verus!
