//! The control protocol: the closed set of command tokens that cross
//! the rendezvous socket and the internal command channel.
//!
//! A client writes one of the literal tokens `open`, `hide`, `kill`,
//! `toggle`, `term`.  The socket server forwards the first four onto
//! the command channel and stops accepting on `term`.  The focus
//! watcher additionally produces the parameterized token `hide:<id>`,
//! which targets a literal window id even across a concurrent restart.

use vstd::prelude::*;

use crate::text::{all_digits, digits_val, parse_u32_digits, render_u32, str_eq};

verus! {

/// A validated token of the internal command channel.
///
/// `term` is not here: it is consumed by the socket server itself and
/// never forwarded to the supervisor.
#[derive(Clone, Copy, Debug, PartialEq, Eq, Structural)]
pub enum Token {
    Open,
    Hide,
    Kill,
    Toggle,
    /// Hide the literal window id carried in the token.
    HideId(u32),
}

/// The `hide:<digits>` shape: the prefix `hide:` followed by at least
/// one decimal digit denoting a number a `u32` can hold.
pub open spec fn is_hide_id_msg(s: Seq<char>) -> bool {
    &&& s.len() > 5
    &&& s.subrange(0, 5) == "hide:"@
    &&& all_digits(s.subrange(5, s.len() as int))
    &&& digits_val(s.subrange(5, s.len() as int)) <= u32::MAX
}

/// The token a channel message denotes, or `None` for an unrecognized
/// message (which the daemon logs and drops).
pub open spec fn spec_parse_token(s: Seq<char>) -> Option<Token> {
    if s == "open"@ {
        Some(Token::Open)
    } else if s == "hide"@ {
        Some(Token::Hide)
    } else if s == "kill"@ {
        Some(Token::Kill)
    } else if s == "toggle"@ {
        Some(Token::Toggle)
    } else if is_hide_id_msg(s) {
        Some(Token::HideId(digits_val(s.subrange(5, s.len() as int)) as u32))
    } else {
        None
    }
}

/// Parses one channel message into a token.
pub fn parse_token(s: &str) -> (r: Option<Token>)
    ensures
        r == spec_parse_token(s@),
{
    if str_eq(s, "open") {
        Some(Token::Open)
    } else if str_eq(s, "hide") {
        Some(Token::Hide)
    } else if str_eq(s, "kill") {
        Some(Token::Kill)
    } else if str_eq(s, "toggle") {
        Some(Token::Toggle)
    } else {
        let len = s.unicode_len();
        if len > 5 {
            let head = s.substring_char(0, 5);
            if str_eq(head, "hide:") {
                let tail = s.substring_char(5, len);
                match parse_u32_digits(tail) {
                    Some(id) => Some(Token::HideId(id)),
                    None => None,
                }
            } else {
                None
            }
        } else {
            proof {
                reveal_strlit("hide:");
            }
            None
        }
    }
}

/// How the socket server treats one client payload.
#[derive(Clone, Copy, Debug, PartialEq, Eq, Structural)]
pub enum SocketVerdict {
    /// One of the four client commands: forward it to the supervisor.
    Forward,
    /// `term`: stop accepting connections.
    Shutdown,
    /// Anything else: log it and drop it.
    Reject,
}

/// The verdict a payload receives.
pub open spec fn spec_classify_payload(s: Seq<char>) -> SocketVerdict {
    if s == "open"@ || s == "toggle"@ || s == "hide"@ || s == "kill"@ {
        SocketVerdict::Forward
    } else if s == "term"@ {
        SocketVerdict::Shutdown
    } else {
        SocketVerdict::Reject
    }
}

/// Validates one client payload against the known token set.
pub fn classify_payload(s: &str) -> (r: SocketVerdict)
    ensures
        r == spec_classify_payload(s@),
{
    if str_eq(s, "open") || str_eq(s, "toggle") || str_eq(s, "hide") || str_eq(s, "kill") {
        SocketVerdict::Forward
    } else if str_eq(s, "term") {
        SocketVerdict::Shutdown
    } else {
        SocketVerdict::Reject
    }
}

/// Renders the watcher's `hide:<id>` message for a window id.
///
/// The message round-trips: parsing it yields exactly `HideId(window_id)`.
pub fn hide_message(window_id: u32) -> (r: String)
    ensures
        spec_parse_token(r@) == Some(Token::HideId(window_id)),
{
    let head = "hide:";
    let digits = render_u32(window_id);
    let r = head.to_owned().concat(digits.as_str());
    proof {
        reveal_strlit("hide:");
        reveal_strlit("open");
        reveal_strlit("hide");
        reveal_strlit("kill");
        reveal_strlit("toggle");
        assert(r@.len() == 5 + digits@.len());
        assert(r@.len() > 5);
        assert(r@ != "open"@ && r@ != "hide"@ && r@ != "kill"@);
        assert(r@[0] == 'h');
        assert(r@ != "toggle"@);
        assert(r@.subrange(0, 5) =~= "hide:"@);
        assert(r@.subrange(5, r@.len() as int) =~= digits@);
        assert(is_hide_id_msg(r@));
    }
    r
}

} // verus!
