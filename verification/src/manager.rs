//! Backend client manager: the sole owner of the long-lived backend
//! connection. It tracks the connection's state machine
//! (`Disconnected -> Connecting -> Connected`, degrading on a mid-life call
//! failure with no modeled way back), decides at startup whether the process
//! may serve at all, and records every backend call in order, so that each
//! call carries exactly the payload of the request it serves.
//!
//! The manager holds no transport handle itself: the surrounding program
//! owns the raw connection, keeps this manager under the same mutual
//! exclusion as the connection, and reports every transport event here.

use vstd::prelude::*;
use crate::messages::{backend_request_of, BackendRequest, Submission};

verus! {

/// The connection's state machine. `Degraded` is a `Connected` handle that
/// has seen a call fail: calls are still attempted on it, and may keep
/// failing until the process is restarted.
#[derive(Clone, Copy, PartialEq, Eq, Structural, Debug)]
pub enum ConnState {
    Disconnected,
    Connecting,
    Connected,
    Degraded,
}

/// What the process must do after the startup connection attempt.
#[derive(Clone, Copy, PartialEq, Eq, Structural, Debug)]
pub enum StartupDecision {
    /// The connection is up: start serving requests.
    Serve,
    /// The connection could not be made: terminate without serving anything.
    Abort,
}

/// The client manager: the connection state, and the history of every
/// request handed to the backend, in the order the calls were made.
pub struct ClientManager {
    pub state: ConnState,
    pub sent: Ghost<Seq<BackendRequest>>,
}

impl ClientManager {
    /// Whether the connection handle exists, so that a backend call can be
    /// attempted on it.
    pub open spec fn can_send(self) -> bool {
        self.state == ConnState::Connected || self.state == ConnState::Degraded
    }

    /// Whether a backend call can be attempted right now.
    pub fn can_send_now(&self) -> (r: bool)
        ensures
            r == self.can_send(),
    {
        self.state == ConnState::Connected || self.state == ConnState::Degraded
    }

    /// A fresh manager: no connection yet, nothing sent.
    pub fn new() -> (m: ClientManager)
        ensures
            m.state == ConnState::Disconnected,
            m.sent@ == Seq::<BackendRequest>::empty(),
    {
        ClientManager { state: ConnState::Disconnected, sent: Ghost(Seq::empty()) }
    }

    /// The startup connection attempt begins.
    pub fn begin_connect(&mut self)
        requires
            old(self).state == ConnState::Disconnected,
        ensures
            final(self).state == ConnState::Connecting,
            final(self).sent == old(self).sent,
    {
        self.state = ConnState::Connecting;
    }

    /// The startup connection attempt came back. On success the connection
    /// is up and the process serves; on failure the process must terminate
    /// without serving any request — there is no degraded startup mode.
    pub fn finish_connect(&mut self, connected: bool) -> (d: StartupDecision)
        requires
            old(self).state == ConnState::Connecting,
        ensures
            final(self).sent == old(self).sent,
            d == StartupDecision::Serve <==> connected,
            connected ==> final(self).state == ConnState::Connected,
            !connected ==> final(self).state == ConnState::Disconnected,
            final(self).can_send() <==> connected,
    {
        if connected {
            self.state = ConnState::Connected;
            StartupDecision::Serve
        } else {
            self.state = ConnState::Disconnected;
            StartupDecision::Abort
        }
    }

    /// The backend request to make for a submission, if one can be made at
    /// all: exactly the submission's translation when the connection handle
    /// exists, and nothing — the backend is not contacted — when it does
    /// not.
    pub fn plan_call(&self, sub: &Submission) -> (r: Option<BackendRequest>)
        ensures
            self.can_send() ==> r == Some(backend_request_of(*sub)),
            !self.can_send() ==> r is None,
    {
        if self.state == ConnState::Connected || self.state == ConnState::Degraded {
            Some(crate::messages::to_backend_request(sub))
        } else {
            None
        }
    }

    /// A backend call was made with `req` and came back, well or not.
    /// Exactly this one request is appended to the history — no call is
    /// lost, duplicated, or attributed another call's payload. A failed
    /// call degrades the connection; nothing transitions it back.
    pub fn record_call(&mut self, req: BackendRequest, ok: bool)
        requires
            old(self).can_send(),
        ensures
            final(self).sent@ == old(self).sent@.push(req),
            ok ==> final(self).state == old(self).state,
            !ok ==> final(self).state == ConnState::Degraded,
            final(self).can_send(),
    {
        let ghost history = self.sent@;
        self.sent = Ghost(history.push(req));
        if !ok {
            self.state = ConnState::Degraded;
        }
    }
}

/// Calls are serialized and each carries its caller's own payload: when the
/// requests of N handled submissions are recorded, the backend's call
/// history grows by exactly those N entries, one per submission, in call
/// order, with every earlier entry untouched — no call is lost, duplicated,
/// or given another call's payload.
pub proof fn lemma_calls_serialized(h: Seq<BackendRequest>, reqs: Seq<BackendRequest>)
    ensures
        (h + reqs).len() == h.len() + reqs.len(),
        forall|i: int| 0 <= i < h.len() ==> (h + reqs)[i] == h[i],
        forall|j: int| 0 <= j < reqs.len() ==> (h + reqs)[h.len() + j] == reqs[j],
{
}

} // verus!
