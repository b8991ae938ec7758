//! The second-mind domain records, held as plain values.
//!
//! Identifiers are UUIDs held as `u128`; instants are milliseconds since the
//! Unix epoch; durations are milliseconds.

use vstd::prelude::*;

verus! {

/// The lifecycle of a goal.
#[derive(Clone, Copy, Debug, PartialEq, Eq, Structural)]
pub enum GoalState {
    Active,
    Completed,
    Abandoned,
}

/// A user-owned goal.
#[derive(Clone, Debug, PartialEq, Eq)]
pub struct Goal {
    pub id: u128,
    pub owner: u128,
    pub title: String,
    pub success_statement: String,
    pub deadline: Option<i64>,
    pub state: GoalState,
    pub revision: u64,
    pub created_at: i64,
    pub updated_at: i64,
}

/// The lifecycle of a focus session.
#[derive(Clone, Copy, Debug, PartialEq, Eq, Structural)]
pub enum FocusSessionState {
    Requested,
    Starting,
    Active,
    Recovering,
    Stopping,
    Ended,
    Failed,
}

impl FocusSessionState {
    /// Whether the session still holds capture authority.
    pub open spec fn spec_is_working(self) -> bool {
        self is Starting || self is Active || self is Recovering
    }

    /// Whether the session still holds capture authority.
    pub fn is_working(self) -> (r: bool)
        ensures
            r == self.spec_is_working(),
    {
        match self {
            FocusSessionState::Starting | FocusSessionState::Active | FocusSessionState::Recovering => true,
            _ => false,
        }
    }
}

/// A bounded period in which STEIN observes the selected sources for a goal.
#[derive(Clone, Debug, PartialEq, Eq)]
pub struct FocusSession {
    pub id: u128,
    pub owner: u128,
    pub goal_id: u128,
    pub goal_revision: u64,
    pub state: FocusSessionState,
    pub muted: bool,
    pub source_degraded: bool,
    pub client_disconnect_allowed: bool,
    pub daemon_restart_allowed: bool,
    pub revision: u64,
    pub model_route_approval_id: u128,
    pub permission_grant_ids: Vec<u128>,
    pub selected_resource_ids: Vec<u128>,
    pub requested_at: i64,
    pub started_at: Option<i64>,
    pub ended_at: Option<i64>,
    pub updated_at: i64,
    /// Why the session failed or ended without authority, as a reason code.
    pub failure_reason: Option<&'static str>,
}

/// What a permission allows STEIN to do.
#[derive(Clone, Copy, Debug, PartialEq, Eq, Structural)]
pub enum PermissionScope {
    ObserveDesktopPresence,
    ObserveDesktopForegroundApplication,
    ObserveDesktopWindowMetadata,
    ObserveBrowserLocation,
    ObserveContentVisibleText,
    ObserveContentSelectedDocument,
    ObserveScreenPixels,
    ObserveWorkspaceActivity,
    ReasonFocusContext,
    InterveneDesktopNotification,
}

impl PermissionScope {
    /// Whether the scope observes the desktop or its content.
    pub open spec fn spec_is_observation(self) -> bool {
        !(self is ReasonFocusContext || self is InterveneDesktopNotification)
    }

    /// Whether the scope observes the desktop or its content.
    pub fn is_observation(self) -> (r: bool)
        ensures
            r == self.spec_is_observation(),
    {
        match self {
            PermissionScope::ReasonFocusContext | PermissionScope::InterveneDesktopNotification => false,
            _ => true,
        }
    }

    /// Whether the scope must be bound to one selected resource.
    pub open spec fn spec_needs_resource(self) -> bool {
        !(self is ObserveDesktopPresence || self is ReasonFocusContext
            || self is InterveneDesktopNotification)
    }
}

/// A category of data that STEIN may hold as evidence.
#[derive(Clone, Copy, Debug, PartialEq, Eq, Structural)]
pub enum DataCategory {
    Goal,
    EvidenceAggregates,
    WindowMetadata,
    BrowserLocation,
    VisibleText,
    SelectedDocument,
    ScreenPixels,
    WorkspaceActivity,
    DeliveryConstraints,
}

/// The lifecycle of a permission grant.
#[derive(Clone, Copy, Debug, PartialEq, Eq, Structural)]
pub enum GrantState {
    Active,
    Revoked,
}

/// A time-bounded, session-bound permission.
#[derive(Clone, Debug, PartialEq, Eq)]
pub struct PermissionGrant {
    pub id: u128,
    pub owner: u128,
    pub goal_id: u128,
    pub focus_session_id: Option<u128>,
    pub device_id: u128,
    pub scope: PermissionScope,
    pub selected_resource_id: Option<u128>,
    /// The model route a reasoning grant is bound to, once bound.
    pub model_route_approval_id: Option<u128>,
    pub daemon_restart_allowed: bool,
    pub state: GrantState,
    pub revision: u64,
    pub effective_at: i64,
    pub expires_at: i64,
    pub revoked_at: Option<i64>,
}

impl PermissionGrant {
    /// Whether the grant authorizes anything at `now`.
    pub open spec fn spec_is_current_at(self, now: i64) -> bool {
        self.state is Active && self.effective_at <= now && now < self.expires_at
    }

    /// Whether the grant authorizes anything at `now`.
    pub fn is_current_at(&self, now: i64) -> (r: bool)
        ensures
            r == self.spec_is_current_at(now),
    {
        match self.state {
            GrantState::Active => self.effective_at <= now && now < self.expires_at,
            GrantState::Revoked => false,
        }
    }
}

/// The lifecycle of an intervention.
#[derive(Clone, Copy, Debug, PartialEq, Eq, Structural)]
pub enum InterventionState {
    Allowed,
    Denied,
    Queued,
    Delivering,
    AcceptedByChannel,
    DeliveryUnknown,
    DeliveryFailed,
    Expired,
    Cancelled,
}

impl InterventionState {
    /// The audit detail a delivery attempt records: `delivery_` and the
    /// state's name in lower case.
    pub open spec fn spec_delivery_audit_code(self) -> &'static str {
        match self {
            InterventionState::Allowed => "delivery_allowed",
            InterventionState::Denied => "delivery_denied",
            InterventionState::Queued => "delivery_queued",
            InterventionState::Delivering => "delivery_delivering",
            InterventionState::AcceptedByChannel => "delivery_acceptedbychannel",
            InterventionState::DeliveryUnknown => "delivery_deliveryunknown",
            InterventionState::DeliveryFailed => "delivery_deliveryfailed",
            InterventionState::Expired => "delivery_expired",
            InterventionState::Cancelled => "delivery_cancelled",
        }
    }

    /// The audit detail a delivery attempt records for this state.
    pub fn delivery_audit_code(self) -> (s: &'static str)
        ensures
            s == self.spec_delivery_audit_code(),
    {
        match self {
            InterventionState::Allowed => "delivery_allowed",
            InterventionState::Denied => "delivery_denied",
            InterventionState::Queued => "delivery_queued",
            InterventionState::Delivering => "delivery_delivering",
            InterventionState::AcceptedByChannel => "delivery_acceptedbychannel",
            InterventionState::DeliveryUnknown => "delivery_deliveryunknown",
            InterventionState::DeliveryFailed => "delivery_deliveryfailed",
            InterventionState::Expired => "delivery_expired",
            InterventionState::Cancelled => "delivery_cancelled",
        }
    }
}

/// The parts of an intervention that delivery policy reads.
#[derive(Clone, Copy, Debug, PartialEq, Eq, Structural)]
pub struct InterventionRecord {
    pub id: u128,
    pub focus_session_id: u128,
    pub state: InterventionState,
    pub updated_at: i64,
}

/// The lifecycle of a queued delivery.
#[derive(Clone, Copy, Debug, PartialEq, Eq, Structural)]
pub enum OutboxState {
    Queued,
    Delivering,
    AcceptedByChannel,
    DeliveryUnknown,
    DeliveryFailed,
    Expired,
    Cancelled,
}

/// The parts of a pending delivery that outbox policy reads.
#[derive(Clone, Copy, Debug, PartialEq, Eq, Structural)]
pub struct OutboxEntry {
    pub id: u128,
    pub intervention_id: u128,
    pub deduplication_key: u128,
    pub state: OutboxState,
    pub attempt_count: u32,
    pub created_at: i64,
    pub not_before: i64,
}

/// Whether the user is at the device.
#[derive(Clone, Copy, Debug, PartialEq, Eq, Structural)]
pub enum PresenceState {
    Unknown,
    Active,
    Locked,
    SwitchedAway,
}

/// The health of one observation source.
#[derive(Clone, Copy, Debug, PartialEq, Eq, Structural)]
pub enum SourceHealth {
    Healthy,
    Paused,
    Unavailable,
}

} // verus!
