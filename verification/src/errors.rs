//! Error taxonomy of the daemon core.

use vstd::prelude::*;

verus! {

/// What can go wrong inside the verified core.
///
/// `WindowNotFound` is the recoverable condition the locator retries on;
/// the configuration variants are surfaced to the user before any daemon
/// state exists.  I/O failures belong to the unverified shell and never
/// enter the core as values.
#[derive(Clone, Copy, Debug, PartialEq, Eq, Structural)]
pub enum Error {
    /// No window matches the active matcher (retried by the locator).
    WindowNotFound,
    /// The named instance has no configuration entry.
    UnknownInstance,
    /// A class matcher was configured without a window class.
    MissingClassName,
    /// A geometry dimension is neither an integer nor a percentage.
    InvalidGeometry,
}

impl Error {
    /// A short description, in place of `Display`.
    pub fn message(&self) -> (r: &'static str)
        ensures
            r@ == self.message_spec(),
    {
        match self {
            Error::WindowNotFound => "The window is not found",
            Error::UnknownInstance => "No configuration found for the instance",
            Error::MissingClassName => "'class_name' must be specified",
            Error::InvalidGeometry => "Invalid geometry dimension",
        }
    }

    /// The text `message` returns for each variant.
    pub open spec fn message_spec(&self) -> Seq<char> {
        match self {
            Error::WindowNotFound => "The window is not found"@,
            Error::UnknownInstance => "No configuration found for the instance"@,
            Error::MissingClassName => "'class_name' must be specified"@,
            Error::InvalidGeometry => "Invalid geometry dimension"@,
        }
    }
}

} // verus!
