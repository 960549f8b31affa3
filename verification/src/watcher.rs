//! The focus watcher's decision: on every focus-change notification it
//! compares the newly focused window against the managed one and, when
//! the managed window has lost focus, emits a `hide:<id>` command that
//! targets the id it actually observed — even a stale one, so that a
//! concurrent restart cannot redirect the hide at the wrong window.
//!
//! Its initial wait for the window id to become known is bounded by the
//! locator's retry schedule.

use vstd::prelude::*;

use crate::protocol::{hide_message, spec_parse_token, Token};

verus! {

/// The managed window is known not to be the focused one.  A report
/// without a focused window is ignored: it decides nothing.
pub open spec fn spec_should_hide(focused: Option<u32>, window_id: u32) -> bool {
    focused is Some && focused != Some(window_id)
}

/// Reacts to one focus-change notification: the `hide:<id>` message to
/// put on the command channel, or nothing.
pub fn focus_event_message(focused: Option<u32>, window_id: u32) -> (r: Option<String>)
    ensures
        r is Some <==> spec_should_hide(focused, window_id),
        match r {
            Some(msg) => spec_parse_token(msg@) == Some(Token::HideId(window_id)),
            None => true,
        },
{
    match focused {
        Some(f) => if f != window_id {
            Some(hide_message(window_id))
        } else {
            None
        },
        None => None,
    }
}

} // verus!
