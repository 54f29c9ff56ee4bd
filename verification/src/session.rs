//! Decisions of the per-connection forwarding loop.
//!
//! A session subscribes, then repeats: observe the next outcome of its
//! subscription and act on it.  A delivered snapshot is forwarded to
//! the client; nothing pending means wait for the next publication; a
//! lag notice ends the session, as does a failed forward (the caller
//! observes the transport and stops on its error).

use vstd::prelude::*;
use crate::hub::{RecvOutcome, Snapshot};

verus! {

/// The next action of a subscriber session.
#[derive(Debug)]
pub enum SessionStep {
    /// Send this snapshot to the client, then poll again.
    Forward(Snapshot),
    /// Nothing new; wait for the next publication, then poll again.
    Wait,
    /// The session is over; the subscription is discarded.
    End,
}

/// Decides the session's next action from one poll outcome: forward
/// exactly what was delivered, wait when nothing was, and end the
/// session when the subscriber fell behind and was dropped.
pub fn on_recv(o: RecvOutcome) -> (s: SessionStep)
    ensures
        (o matches RecvOutcome::Message(m) ==> s matches SessionStep::Forward(f) && f == m),
        o is Pending ==> s is Wait,
        o is Lagged ==> s is End,
{
    match o {
        RecvOutcome::Message(m) => SessionStep::Forward(m),
        RecvOutcome::Pending => SessionStep::Wait,
        RecvOutcome::Lagged => SessionStep::End,
    }
}

} // verus!
