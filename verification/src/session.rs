//! The session: the window-matching strategy and the shared context
//! that the supervisor writes and the focus watcher reads.

use vstd::prelude::*;

use crate::text::str_eq;

verus! {

/// How the managed window is recognized among all windows on the
/// display.
///
/// A process-based matcher starts unresolved and is bound to a process
/// id once the child is spawned; a class-based matcher is fixed at
/// configuration time.  The unresolved state is its own variant so that
/// no transition can forget to bind it.
#[derive(Clone, Debug)]
pub enum WindowMatcher {
    /// Match by process id; the child is not spawned yet.
    UnresolvedProcess,
    /// Match by the process id of the spawned child.
    ProcessId(u32),
    /// Match by exact window class name.
    WmClass(String),
}

impl WindowMatcher {
    /// A matcher that will be bound to the child's process id.
    pub open spec fn is_process_based(&self) -> bool {
        self is UnresolvedProcess || self is ProcessId
    }

    /// A matcher the locator can act on.
    pub open spec fn is_resolved(&self) -> bool {
        !(self is UnresolvedProcess)
    }

    /// This matcher after a child with `pid` was spawned: a
    /// process-based matcher is (re)bound to `pid`; a class matcher is
    /// untouched.
    pub open spec fn rebound(self, pid: u32) -> WindowMatcher {
        if self.is_process_based() {
            WindowMatcher::ProcessId(pid)
        } else {
            self
        }
    }
}

/// What the window directory reports about one window: its identifier
/// and the two properties a matcher can look at.
#[derive(Clone, Debug)]
pub struct WindowProps {
    pub id: u32,
    pub class: Option<String>,
    pub pid: Option<u32>,
}

/// The matcher recognizes the window: equal process ids, or equal class
/// names.  An unresolved matcher recognizes nothing.
pub open spec fn matcher_matches(m: WindowMatcher, w: WindowProps) -> bool {
    match m {
        WindowMatcher::UnresolvedProcess => false,
        WindowMatcher::ProcessId(pid) => w.pid == Some(pid),
        WindowMatcher::WmClass(class) => match w.class {
            Some(c) => c@ == class@,
            None => false,
        },
    }
}

/// Decides whether the matcher recognizes the window.
pub fn matches_window(m: &WindowMatcher, w: &WindowProps) -> (r: bool)
    ensures
        r == matcher_matches(*m, *w),
{
    match m {
        WindowMatcher::UnresolvedProcess => false,
        WindowMatcher::ProcessId(pid) => match &w.pid {
            Some(wp) => *wp == *pid,
            None => false,
        },
        WindowMatcher::WmClass(class) => match &w.class {
            Some(c) => str_eq(c.as_str(), class.as_str()),
            None => false,
        },
    }
}

/// The single piece of shared mutable state: the active matcher and the
/// discovered window id, if any.
///
/// The supervisor is the primary writer; the focus watcher only reads
/// `window_id`.  All access goes through the named operations below so
/// that every critical section is minimal and auditable.  `window_id`
/// is `Some` exactly while the window has been discovered and is not
/// yet known to be gone.
#[derive(Clone, Debug)]
pub struct Context {
    pub matcher: WindowMatcher,
    pub window_id: Option<u32>,
}

impl Context {
    /// A fresh context: the configured matcher, no window known yet.
    pub fn new(matcher: WindowMatcher) -> (r: Context)
        ensures
            r.matcher == matcher,
            r.window_id is None,
    {
        Context { matcher, window_id: None }
    }

    /// What the focus watcher polls: the discovered window id, if any.
    pub fn read_window_id(&self) -> (r: Option<u32>)
        ensures
            r == self.window_id,
    {
        self.window_id
    }

    /// Records a (re)spawned child: a process-based matcher is bound to
    /// the new pid.  The window id is left as it is — a stale id may
    /// still be targeted by the watcher until rediscovery completes.
    pub fn write_after_restart(&mut self, pid: u32)
        ensures
            final(self).matcher == old(self).matcher.rebound(pid),
            final(self).window_id == old(self).window_id,
    {
        match &self.matcher {
            WindowMatcher::UnresolvedProcess => {
                self.matcher = WindowMatcher::ProcessId(pid);
            },
            WindowMatcher::ProcessId(_) => {
                self.matcher = WindowMatcher::ProcessId(pid);
            },
            WindowMatcher::WmClass(_) => {},
        }
    }

    /// Records a completed discovery: the window id becomes known.
    pub fn write_after_discovery(&mut self, window_id: u32)
        ensures
            final(self).matcher == old(self).matcher,
            final(self).window_id == Some(window_id),
    {
        self.window_id = Some(window_id);
    }
}

} // verus!
