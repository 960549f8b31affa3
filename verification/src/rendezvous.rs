//! The rendezvous plan: how an invocation decides whether it is the
//! daemon or a client.
//!
//! One named local endpoint exists per instance.  If it is absent, the
//! invocation binds it and becomes the server.  If it is present, the
//! invocation first connects to it as a client: success means a daemon
//! is alive and this process only delivers its command; a refused
//! connection means the endpoint is stale — a daemon died without
//! cleaning up — so it is deleted and bound afresh; any other failure
//! is fatal.

use vstd::prelude::*;

verus! {

/// How an attempt to connect to an existing endpoint ended.
#[derive(Clone, Copy, Debug, PartialEq, Eq, Structural)]
pub enum ConnectOutcome {
    /// A daemon answered.
    Connected,
    /// Nothing is listening: the endpoint is stale.
    Refused,
    /// Any other error.
    OtherError,
}

/// What the invocation does with the rendezvous endpoint.
#[derive(Clone, Copy, Debug, PartialEq, Eq, Structural)]
pub enum RendezvousPlan {
    /// No endpoint exists: bind it and serve.
    BindFresh,
    /// A daemon is alive: write the command and exit.
    ActAsClient,
    /// The endpoint is stale: delete it, bind it afresh, and serve.
    RemoveAndRebind,
    /// The endpoint exists but cannot be diagnosed: propagate as fatal.
    Fail,
}

/// The plan for an observed endpoint: `None` when no endpoint exists,
/// `Some(outcome)` when one exists and connecting to it ended thus.
pub open spec fn spec_rendezvous_plan(existing: Option<ConnectOutcome>) -> RendezvousPlan {
    match existing {
        None => RendezvousPlan::BindFresh,
        Some(ConnectOutcome::Connected) => RendezvousPlan::ActAsClient,
        Some(ConnectOutcome::Refused) => RendezvousPlan::RemoveAndRebind,
        Some(ConnectOutcome::OtherError) => RendezvousPlan::Fail,
    }
}

/// Decides what to do with the rendezvous endpoint.
pub fn rendezvous_plan(existing: Option<ConnectOutcome>) -> (r: RendezvousPlan)
    ensures
        r == spec_rendezvous_plan(existing),
{
    match existing {
        None => RendezvousPlan::BindFresh,
        Some(ConnectOutcome::Connected) => RendezvousPlan::ActAsClient,
        Some(ConnectOutcome::Refused) => RendezvousPlan::RemoveAndRebind,
        Some(ConnectOutcome::OtherError) => RendezvousPlan::Fail,
    }
}

/// A stale endpoint — one whose peer refuses the connection — is always
/// replaced with a freshly bound one; it never fails the invocation,
/// and never turns it into a client.
pub proof fn lemma_stale_endpoint_recovers()
    ensures
        spec_rendezvous_plan(Some(ConnectOutcome::Refused)) == RendezvousPlan::RemoveAndRebind,
        spec_rendezvous_plan(Some(ConnectOutcome::Refused)) != RendezvousPlan::Fail,
        spec_rendezvous_plan(Some(ConnectOutcome::Refused)) != RendezvousPlan::ActAsClient,
{
}

} // verus!
