//! Connection assurance and what each assurance may request.

use vstd::prelude::*;
use crate::errors::SecondMindError;

verus! {

/// How strongly the operating system bound a connection to its peer.
#[derive(Clone, Copy, Debug, PartialEq, Eq, Structural)]
pub enum ClientAssurance {
    Diagnostic,
    PrivateCapabilityBound,
    NativeEmergencyControl,
}

impl ClientAssurance {
    /// Whether the assurance admits private state.
    pub open spec fn spec_permits_private(self) -> bool {
        self is PrivateCapabilityBound || self is NativeEmergencyControl
    }

    /// Whether the assurance admits private state.
    pub fn permits_private(self) -> (r: bool)
        ensures
            r == self.spec_permits_private(),
    {
        match self {
            ClientAssurance::PrivateCapabilityBound | ClientAssurance::NativeEmergencyControl => true,
            ClientAssurance::Diagnostic => false,
        }
    }
}

/// Refuses every private operation to a connection without private assurance.
pub fn require_private(assurance: ClientAssurance) -> (r: Result<(), SecondMindError>)
    ensures
        r is Ok <==> assurance.spec_permits_private(),
        r matches Err(e) ==> crate::errors::plain_error(
            e,
            crate::errors::SecondMindErrorCode::PermissionDenied,
            "This operation requires an OS capability-bound client.",
            false,
        ),
{
    if assurance.permits_private() {
        Ok(())
    } else {
        Err(SecondMindError::permission("This operation requires an OS capability-bound client."))
    }
}

/// The kind of a client request.
#[derive(Clone, Copy, Debug, PartialEq, Eq, Structural)]
pub enum RequestKind {
    GetSnapshot,
    GetRuntimeStatus,
    GetCapabilityHealth,
    CreateGoal,
    UpdateGoal,
    CompleteGoal,
    AbandonGoal,
    DeleteGoal,
    ApproveModelRoute,
    GrantSessionPermission,
    RevokePermission,
    StartFocusSession,
    SetInterventionsMuted,
    EndFocusSession,
    RecordInterventionFeedback,
    RegisterSelectedResource,
    RemoveSelectedResource,
    UpdateUserPreferences,
    GetGoal,
    GetFocusSessionView,
    GetPermissionView,
    GetInterventionHistory,
    ExplainIntervention,
    GetSteinIdentity,
    GetUserPreferences,
    GetEffectivePolicy,
    GetSelectedResources,
    DelayEcho,
    Shutdown,
}

/// Whether a connection of `assurance` may send a request of `kind`: a
/// diagnostic connection may only read runtime status and capability health,
/// a private connection may send anything, and the native emergency channel
/// is no protocol client at all.
pub open spec fn spec_request_allowed(assurance: ClientAssurance, kind: RequestKind) -> bool {
    match assurance {
        ClientAssurance::PrivateCapabilityBound => true,
        ClientAssurance::Diagnostic => kind is GetRuntimeStatus || kind is GetCapabilityHealth,
        ClientAssurance::NativeEmergencyControl => false,
    }
}

/// Whether a connection of `assurance` may send a request of `kind`.
pub fn request_allowed(assurance: ClientAssurance, kind: RequestKind) -> (r: bool)
    ensures
        r == spec_request_allowed(assurance, kind),
{
    match assurance {
        ClientAssurance::PrivateCapabilityBound => true,
        ClientAssurance::Diagnostic => match kind {
            RequestKind::GetRuntimeStatus | RequestKind::GetCapabilityHealth => true,
            _ => false,
        },
        ClientAssurance::NativeEmergencyControl => false,
    }
}

/// How the transport admitted a server-side session. No protocol payload can
/// create or upgrade it.
#[derive(Clone, Copy, Debug, PartialEq, Eq, Structural)]
pub enum SessionAdmission {
    Diagnostic,
    PrivateCapabilityBoundForTest,
    ProductionPrivate { daemon_instance: u128 },
}

impl SessionAdmission {
    /// The assurance that the admission grants.
    pub fn assurance(&self) -> (a: ClientAssurance)
        ensures
            a == (match *self {
                SessionAdmission::Diagnostic => ClientAssurance::Diagnostic,
                _ => ClientAssurance::PrivateCapabilityBound,
            }),
    {
        match self {
            SessionAdmission::Diagnostic => ClientAssurance::Diagnostic,
            SessionAdmission::PrivateCapabilityBoundForTest => ClientAssurance::PrivateCapabilityBound,
            SessionAdmission::ProductionPrivate { .. } => ClientAssurance::PrivateCapabilityBound,
        }
    }
}

} // verus!
