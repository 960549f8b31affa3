//! Verified core of a drop-down window session daemon.
//!
//! The daemon launches a configured program once, finds the window it
//! produces, positions it as an overlay, and toggles its visibility on
//! command while keeping a single running instance alive.  Everything
//! that decides — the control-token grammar, the rendezvous-socket
//! plan, the discovery retry schedule, window matching, geometry
//! arithmetic, and the visibility state machine — lives here and is
//! verified.  The surrounding I/O (sockets, the display server, the
//! child process, configuration files) is driven by a thin unverified
//! shell that feeds observations in and carries effects out.

pub mod cli;
pub mod config;
pub mod errors;
pub mod geometry;
pub mod locator;
pub mod protocol;
pub mod rendezvous;
pub mod session;
pub mod supervisor;
pub mod text;
pub mod watcher;
