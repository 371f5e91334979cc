//! The service's answer to control requests from the Service Control Manager.
use vstd::prelude::*;

verus! {

/// The kinds of control request the service distinguishes.
#[derive(Debug, Clone, Copy, PartialEq, Eq, Structural)]
pub enum ServiceControlKind {
    Stop,
    Shutdown,
    Interrogate,
    Other,
}

/// How the service answers a control request.
#[derive(Debug, Clone, Copy, PartialEq, Eq, Structural)]
pub struct ControlReply {
    /// Ask the supervisor to shut down.
    pub request_shutdown: bool,
    /// Report the request as handled (otherwise as not implemented).
    pub handled: bool,
}

/// Stop and system shutdown stop the supervisor; interrogation is answered;
/// every other request is not implemented.
pub fn control_reply(kind: ServiceControlKind) -> (r: ControlReply)
    ensures
        r.request_shutdown == (kind == ServiceControlKind::Stop || kind
            == ServiceControlKind::Shutdown),
        r.handled == (kind != ServiceControlKind::Other),
{
    match kind {
        ServiceControlKind::Stop | ServiceControlKind::Shutdown => ControlReply {
            request_shutdown: true,
            handled: true,
        },
        ServiceControlKind::Interrogate => ControlReply { request_shutdown: false, handled: true },
        ServiceControlKind::Other => ControlReply { request_shutdown: false, handled: false },
    }
}

} // verus!
