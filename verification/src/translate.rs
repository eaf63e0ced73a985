//! Response translator: every backend outcome, and every failure the gateway
//! itself detects, becomes an HTTP status code and the uniform
//! `{status, message}` envelope. HTTP callers never see a bare transport
//! error.

use vstd::prelude::*;
use vstd::string::StringExecFns;
use crate::messages::{BackendError, BackendResponse};

verus! {

pub const HTTP_OK: u16 = 200;

pub const HTTP_BAD_REQUEST: u16 = 400;

pub const HTTP_INTERNAL_ERROR: u16 = 500;

pub const HTTP_SERVICE_UNAVAILABLE: u16 = 503;

/// The uniform JSON envelope returned to every HTTP caller.
pub struct ApiEnvelope {
    pub status: String,
    pub message: String,
}

/// A translated reply: the HTTP status code and the envelope to send.
pub struct HttpReply {
    pub code: u16,
    pub envelope: ApiEnvelope,
}

/// An envelope is well-formed when its status is one of the two words the
/// wire shape allows.
pub open spec fn envelope_wf(e: ApiEnvelope) -> bool {
    e.status@ == "success"@ || e.status@ == "error"@
}

/// Translate a backend outcome into the reply for the HTTP caller:
/// a successful call becomes HTTP 200 with a success envelope carrying the
/// backend's status message; an unavailable backend becomes HTTP 503 with an
/// error envelope; a failed call becomes HTTP 500 with an error envelope
/// whose message includes the failure's description.
pub fn translate_outcome(outcome: Result<BackendResponse, BackendError>) -> (r: HttpReply)
    ensures
        envelope_wf(r.envelope),
        match outcome {
            Ok(resp) => r.code == HTTP_OK && r.envelope.status@ == "success"@
                && r.envelope.message@ == resp.status_message@,
            Err(BackendError::Unavailable) => r.code == HTTP_SERVICE_UNAVAILABLE
                && r.envelope.status@ == "error"@
                && r.envelope.message@ == "gRPC service unavailable"@,
            Err(BackendError::CallFailed(desc)) => r.code == HTTP_INTERNAL_ERROR
                && r.envelope.status@ == "error"@
                && r.envelope.message@ == "Error: "@ + desc@,
        },
{
    match outcome {
        Ok(resp) => HttpReply {
            code: HTTP_OK,
            envelope: ApiEnvelope {
                status: String::from_str("success"),
                message: resp.status_message,
            },
        },
        Err(BackendError::Unavailable) => HttpReply {
            code: HTTP_SERVICE_UNAVAILABLE,
            envelope: ApiEnvelope {
                status: String::from_str("error"),
                message: String::from_str("gRPC service unavailable"),
            },
        },
        Err(BackendError::CallFailed(desc)) => HttpReply {
            code: HTTP_INTERNAL_ERROR,
            envelope: ApiEnvelope {
                status: String::from_str("error"),
                message: String::from_str("Error: ").concat(desc.as_str()),
            },
        },
    }
}

/// The reply for a request body that did not parse into the submission
/// shape: HTTP 400 with an error envelope, and the backend is not contacted.
pub fn malformed_reply() -> (r: HttpReply)
    ensures
        envelope_wf(r.envelope),
        r.code == HTTP_BAD_REQUEST,
        r.envelope.status@ == "error"@,
        r.envelope.message@ == "malformed request body"@,
{
    HttpReply {
        code: HTTP_BAD_REQUEST,
        envelope: ApiEnvelope {
            status: String::from_str("error"),
            message: String::from_str("malformed request body"),
        },
    }
}

/// The liveness reply: always HTTP 200 with a success envelope and a fixed
/// message, whatever the backend connection's state.
pub fn health_reply() -> (r: HttpReply)
    ensures
        envelope_wf(r.envelope),
        r.code == HTTP_OK,
        r.envelope.status@ == "success"@,
        r.envelope.message@ == "service is up"@,
{
    HttpReply {
        code: HTTP_OK,
        envelope: ApiEnvelope {
            status: String::from_str("success"),
            message: String::from_str("service is up"),
        },
    }
}

} // verus!
