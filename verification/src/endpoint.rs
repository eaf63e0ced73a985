//! The submission endpoint's decision path. The surrounding HTTP program
//! decodes the body, asks `on_submission` what to do, performs the one
//! backend call it may be told to make, and hands the outcome to
//! `on_outcome` for the reply. Every decision on that path is made here.

use vstd::prelude::*;
use crate::manager::{ClientManager, ConnState};
use crate::messages::{backend_request_of, BackendError, BackendRequest, BackendResponse, Submission};
use crate::translate::{
    envelope_wf, translate_outcome, HttpReply, HTTP_INTERNAL_ERROR, HTTP_OK,
    HTTP_SERVICE_UNAVAILABLE,
};

verus! {

/// What the endpoint does with a decoded submission.
pub enum EndpointStep {
    /// Make one backend call with exactly this request.
    Forward(BackendRequest),
    /// Do not contact the backend; send this reply.
    Reply(HttpReply),
}

/// Decide what to do with a submission: when the connection handle exists,
/// forward the submission's translation — category strings as codes,
/// measurements untouched; when it does not, reply service-unavailable at
/// once and leave the backend alone.
pub fn on_submission(m: &ClientManager, sub: &Submission) -> (step: EndpointStep)
    ensures
        match step {
            EndpointStep::Forward(req) => m.can_send() && req == backend_request_of(*sub),
            EndpointStep::Reply(r) => !m.can_send() && r.code == HTTP_SERVICE_UNAVAILABLE
                && envelope_wf(r.envelope) && r.envelope.status@ == "error"@
                && r.envelope.message@ == "gRPC service unavailable"@,
        },
{
    match m.plan_call(sub) {
        Some(req) => EndpointStep::Forward(req),
        None => EndpointStep::Reply(translate_outcome(Err(BackendError::Unavailable))),
    }
}

/// Take the outcome of the one backend call made for `req`: the call is
/// recorded — exactly this request joins the history — a failure degrades
/// the connection without closing it, and the caller gets the translated
/// reply: HTTP 200 with the backend's message on success, HTTP 500 with the
/// failure's description otherwise.
pub fn on_outcome(
    m: &mut ClientManager,
    req: BackendRequest,
    outcome: Result<BackendResponse, String>,
) -> (r: HttpReply)
    requires
        old(m).can_send(),
    ensures
        final(m).sent@ == old(m).sent@.push(req),
        final(m).can_send(),
        envelope_wf(r.envelope),
        match outcome {
            Ok(resp) => final(m).state == old(m).state && r.code == HTTP_OK
                && r.envelope.status@ == "success"@
                && r.envelope.message@ == resp.status_message@,
            Err(desc) => final(m).state == ConnState::Degraded && r.code == HTTP_INTERNAL_ERROR
                && r.envelope.status@ == "error"@
                && r.envelope.message@ == "Error: "@ + desc@,
        },
{
    match outcome {
        Ok(resp) => {
            m.record_call(req, true);
            translate_outcome(Ok(resp))
        }
        Err(desc) => {
            m.record_call(req, false);
            translate_outcome(Err(BackendError::CallFailed(desc)))
        }
    }
}

} // verus!
