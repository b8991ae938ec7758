//! Protocol versions, capability minima and request admission.

use vstd::prelude::*;

verus! {

/// A negotiated protocol version.
#[derive(Clone, Copy, Debug, PartialEq, Eq, Structural)]
pub struct ProtocolVersion {
    pub major: u16,
    pub minor: u16,
}

impl ProtocolVersion {
    /// Protocol 1.0, the Phase 1 wire contract.
    pub fn v1_0() -> (v: Self)
        ensures
            v.major == 1 && v.minor == 0,
    {
        ProtocolVersion { major: 1, minor: 0 }
    }

    /// Protocol 1.1, which added the Phase 2 private views.
    pub fn v1_1() -> (v: Self)
        ensures
            v.major == 1 && v.minor == 1,
    {
        ProtocolVersion { major: 1, minor: 1 }
    }

    /// Protocol 1.2, which added identity, preferences and selected resources.
    pub fn v1_2() -> (v: Self)
        ensures
            v.major == 1 && v.minor == 2,
    {
        ProtocolVersion { major: 1, minor: 2 }
    }
}

/// The range of minor versions of one major version that a peer implements.
#[derive(Clone, Copy, Debug, PartialEq, Eq, Structural)]
pub struct ProtocolSupport {
    pub major: u16,
    pub minimum_minor: u16,
    pub maximum_minor: u16,
}

/// The highest minor version of protocol 1 that this implementation speaks.
pub const IMPLEMENTED_MAXIMUM_MINOR: u16 = 2;

impl ProtocolSupport {
    /// Every minor version of protocol 1 that is implemented.
    pub fn v1() -> (s: Self)
        ensures
            s.major == 1 && s.minimum_minor == 0 && s.maximum_minor == IMPLEMENTED_MAXIMUM_MINOR,
    {
        ProtocolSupport { major: 1, minimum_minor: 0, maximum_minor: IMPLEMENTED_MAXIMUM_MINOR }
    }

    /// Exactly `version`.
    pub fn exact(version: ProtocolVersion) -> (s: Self)
        ensures
            s.major == version.major && s.minimum_minor == version.minor && s.maximum_minor
                == version.minor,
    {
        ProtocolSupport { major: version.major, minimum_minor: version.minor, maximum_minor: version.minor }
    }

    /// Whether `version` lies inside this range.
    pub open spec fn spec_supports(self, version: ProtocolVersion) -> bool {
        version.major == self.major && self.minimum_minor <= version.minor
            && version.minor <= self.maximum_minor
    }

    /// Whether `version` lies inside this range.
    pub fn supports(&self, version: ProtocolVersion) -> (r: bool)
        ensures
            r == self.spec_supports(version),
    {
        version.major == self.major && self.minimum_minor <= version.minor
            && version.minor <= self.maximum_minor
    }
}

/// `negotiated` is at least `required` within the same major version.
pub open spec fn spec_version_at_least(negotiated: ProtocolVersion, required: ProtocolVersion) -> bool {
    negotiated.major == required.major && negotiated.minor >= required.minor
}

/// `negotiated` is at least `required` within the same major version.
pub fn version_at_least(negotiated: ProtocolVersion, required: ProtocolVersion) -> (r: bool)
    ensures
        r == spec_version_at_least(negotiated, required),
{
    negotiated.major == required.major && negotiated.minor >= required.minor
}

/// Versions are ordered: the relation is reflexive and transitive.
pub proof fn law_version_order(a: ProtocolVersion, b: ProtocolVersion, c: ProtocolVersion)
    ensures
        spec_version_at_least(a, a),
        spec_version_at_least(a, b) && spec_version_at_least(b, c) ==> spec_version_at_least(a, c),
{
}

/// A protocol capability that CORE may report health for.
#[derive(Clone, Copy, Debug, PartialEq, Eq, Structural)]
pub enum CapabilityId {
    Snapshot,
    RuntimeStatus,
    GoalCreate,
    DelayEcho,
    RuntimeShutdown,
    ViewEvents,
    RequestCancellation,
    DesktopObservation,
    ModelReasoning,
    DurablePersistence,
    NativeNotification,
    NativeStatus,
    EmergencyControl,
    SecretStore,
    GoalUpdate,
    ModelRouteApproval,
    SessionPermissions,
    FocusSessions,
    CaptureState,
    DeliveryChannels,
    InterventionFeedback,
    InterventionHistory,
    InterventionExplanation,
    GoalDelete,
    SteinIdentity,
    UserPreferences,
    EffectivePolicy,
    SelectedResources,
}

/// The minor version of protocol 1 that introduced `capability`.
pub open spec fn capability_minor(capability: CapabilityId) -> u16 {
    match capability {
        CapabilityId::GoalUpdate | CapabilityId::ModelRouteApproval
        | CapabilityId::SessionPermissions | CapabilityId::FocusSessions
        | CapabilityId::CaptureState | CapabilityId::DeliveryChannels
        | CapabilityId::InterventionFeedback | CapabilityId::InterventionHistory
        | CapabilityId::InterventionExplanation => 1,
        CapabilityId::GoalDelete | CapabilityId::SteinIdentity | CapabilityId::UserPreferences
        | CapabilityId::EffectivePolicy | CapabilityId::SelectedResources => 2,
        _ => 0,
    }
}

/// The protocol version that introduced `capability`.
pub fn capability_required_version(capability: CapabilityId) -> (v: ProtocolVersion)
    ensures
        v.major == 1 && v.minor == capability_minor(capability),
{
    match capability {
        CapabilityId::GoalUpdate | CapabilityId::ModelRouteApproval
        | CapabilityId::SessionPermissions | CapabilityId::FocusSessions
        | CapabilityId::CaptureState | CapabilityId::DeliveryChannels
        | CapabilityId::InterventionFeedback | CapabilityId::InterventionHistory
        | CapabilityId::InterventionExplanation => ProtocolVersion::v1_1(),
        CapabilityId::GoalDelete | CapabilityId::SteinIdentity | CapabilityId::UserPreferences
        | CapabilityId::EffectivePolicy | CapabilityId::SelectedResources => ProtocolVersion::v1_2(),
        _ => ProtocolVersion::v1_0(),
    }
}

/// Whether a session that negotiated `negotiated` may see `capability`.
pub open spec fn spec_capability_supported(capability: CapabilityId, negotiated: ProtocolVersion) -> bool {
    negotiated.major == 1 && negotiated.minor >= capability_minor(capability)
}

/// Whether a session that negotiated `negotiated` may see `capability`.
pub fn capability_supported(capability: CapabilityId, negotiated: ProtocolVersion) -> (r: bool)
    ensures
        r == spec_capability_supported(capability, negotiated),
{
    let required = capability_required_version(capability);
    version_at_least(negotiated, required)
}

/// A capability visible at some version stays visible at every later minor
/// version of the same major version.
pub proof fn law_capability_support_is_monotonic(
    capability: CapabilityId,
    older: ProtocolVersion,
    newer: ProtocolVersion,
)
    requires
        spec_version_at_least(newer, older),
        spec_capability_supported(capability, older),
    ensures
        spec_capability_supported(capability, newer),
{
}

/// Keeps only the capabilities that `negotiated` may see, in their order.
pub fn supported_capabilities(capabilities: &Vec<CapabilityId>, negotiated: ProtocolVersion) -> (r: Vec<CapabilityId>)
    ensures
        r@ == capabilities@.filter(|c: CapabilityId| spec_capability_supported(c, negotiated)),
{
    let mut kept: Vec<CapabilityId> = Vec::new();
    let mut i: usize = 0;
    while i < capabilities.len()
        invariant
            i <= capabilities@.len(),
            kept@ == capabilities@.subrange(0, i as int).filter(
                |c: CapabilityId| spec_capability_supported(c, negotiated),
            ),
        decreases capabilities@.len() - i,
    {
        let c = capabilities[i];
        proof {
            assert(capabilities@.subrange(0, (i + 1) as int).drop_last() == capabilities@.subrange(
                0,
                i as int,
            ));
            reveal(Seq::filter);
            assert(capabilities@.subrange(0, (i + 1) as int).last() == c);
        }
        if capability_supported(c, negotiated) {
            kept.push(c);
        }
        i = i + 1;
    }
    assert(capabilities@.subrange(0, i as int) == capabilities@);
    kept
}

/// Whether a client's advertised range is one this implementation speaks:
/// well formed, protocol 1, and not beyond the implemented minor versions.
pub open spec fn spec_protocol_support_is_implemented(support: ProtocolSupport) -> bool {
    support.minimum_minor <= support.maximum_minor && support.major == 1
        && support.maximum_minor <= IMPLEMENTED_MAXIMUM_MINOR
}

/// Whether a client's advertised range is one this implementation speaks.
pub fn protocol_support_is_implemented(support: ProtocolSupport) -> (r: bool)
    ensures
        r == spec_protocol_support_is_implemented(support),
{
    support.minimum_minor <= support.maximum_minor && support.major == 1
        && support.maximum_minor <= IMPLEMENTED_MAXIMUM_MINOR
}

} // verus!
