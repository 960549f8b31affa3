//! Interpretation of a configuration entry: how a stored instance
//! record becomes the immutable `Instance` the daemon serves.
//!
//! Reading and writing the configuration file is the shell's business;
//! the rules — which entries are valid, and what the defaults are —
//! live here.

use vstd::prelude::*;

use crate::errors::Error;
use crate::geometry::WindowGeometry;
use crate::session::WindowMatcher;
use crate::text::{fold_case_eq, str_eq_ignore_ascii_case};

verus! {

/// The delay inserted between mapping and final geometry application
/// when the entry names none, in milliseconds.
pub const DEFAULT_WINDOW_DELAY_MS: u64 = 100;

/// How an entry asks for its window to be recognized.
#[derive(Clone, Copy, Debug, PartialEq, Eq, Structural)]
pub enum MatcherKind {
    /// By the spawned child's process id.
    Process,
    /// By an exact window class name.
    Class,
}

impl Default for MatcherKind {
    /// An entry that names no matcher matches by process id.
    fn default() -> (r: MatcherKind)
        ensures
            r is Process,
    {
        MatcherKind::Process
    }
}

/// The kind a user-written name denotes, compared without regard to
/// ASCII case.
pub open spec fn spec_parse_kind(s: Seq<char>) -> Option<MatcherKind> {
    if fold_case_eq(s, "process"@) {
        Some(MatcherKind::Process)
    } else if fold_case_eq(s, "class"@) {
        Some(MatcherKind::Class)
    } else {
        None
    }
}

impl MatcherKind {
    /// Parses a user-written matcher kind, ignoring ASCII case.
    pub fn parse(s: &str) -> (r: Option<MatcherKind>)
        ensures
            r == spec_parse_kind(s@),
    {
        if str_eq_ignore_ascii_case(s, "process") {
            Some(MatcherKind::Process)
        } else if str_eq_ignore_ascii_case(s, "class") {
            Some(MatcherKind::Class)
        } else {
            None
        }
    }
}

/// One stored configuration entry, keyed elsewhere by instance name.
#[derive(Clone, Debug)]
pub struct ConfigInstance {
    /// The shell command line that launches the program.
    pub command: String,
    pub matcher: MatcherKind,
    /// Required when `matcher` is `Class`.
    pub class_name: Option<String>,
    /// Optional startup positioning delay, in milliseconds.
    pub window_delay_ms: Option<u64>,
    /// Optional window geometry; a missing one gets the default.
    pub geometry: Option<WindowGeometry>,
}

/// The immutable specification of the instance the daemon serves.
#[derive(Clone, Debug)]
pub struct Instance {
    pub name: String,
    pub command: String,
    pub matcher: WindowMatcher,
    pub window_delay: Option<u64>,
    pub geometry: WindowGeometry,
}

/// The fields every successfully resolved instance carries: the name
/// and command as given, the delay defaulted to
/// `DEFAULT_WINDOW_DELAY_MS`, the geometry defaulted to two thirds of
/// the display's width and half its height.
pub open spec fn spec_resolved_common(name: String, e: ConfigInstance, inst: Instance) -> bool {
    &&& inst.name == name
    &&& inst.command == e.command
    &&& inst.window_delay == Some(
        if e.window_delay_ms is Some {
            e.window_delay_ms->0
        } else {
            DEFAULT_WINDOW_DELAY_MS
        },
    )
    &&& match e.geometry {
        Some(g) => inst.geometry == g,
        None => inst.geometry.width@ == "66%"@ && inst.geometry.height@ == "50%"@,
    }
}

impl WindowGeometry {
    /// The default geometry: two thirds of the display's width, half
    /// its height.
    pub fn default_overlay() -> (r: WindowGeometry)
        ensures
            r.width@ == "66%"@,
            r.height@ == "50%"@,
    {
        WindowGeometry { width: "66%".to_owned(), height: "50%".to_owned() }
    }
}

/// Resolves an instance name against its configuration entry, applying
/// the defaults.
///
/// An unconfigured name is rejected, as is a class matcher without a
/// class name; both are surfaced before any daemon state exists.
pub fn resolve_instance(name: String, entry: Option<ConfigInstance>) -> (r: Result<
    Instance,
    Error,
>)
    ensures
        entry is None ==> r == Err::<Instance, Error>(Error::UnknownInstance),
        entry matches Some(e) ==> match e.matcher {
            MatcherKind::Class => match e.class_name {
                None => r == Err::<Instance, Error>(Error::MissingClassName),
                Some(cn) => r matches Ok(inst) && inst.matcher == WindowMatcher::WmClass(cn)
                    && spec_resolved_common(name, e, inst),
            },
            MatcherKind::Process => r matches Ok(inst) && inst.matcher is UnresolvedProcess
                && spec_resolved_common(name, e, inst),
        },
{
    let e = match entry {
        Some(e) => e,
        None => {
            return Err(Error::UnknownInstance);
        },
    };
    let matcher = match e.matcher {
        MatcherKind::Class => match e.class_name {
            Some(cn) => WindowMatcher::WmClass(cn),
            None => {
                return Err(Error::MissingClassName);
            },
        },
        MatcherKind::Process => WindowMatcher::UnresolvedProcess,
    };
    let window_delay = match e.window_delay_ms {
        Some(ms) => Some(ms),
        None => Some(DEFAULT_WINDOW_DELAY_MS),
    };
    let geometry = match e.geometry {
        Some(g) => g,
        None => WindowGeometry::default_overlay(),
    };
    Ok(Instance { name, command: e.command, matcher, window_delay, geometry })
}

} // verus!
