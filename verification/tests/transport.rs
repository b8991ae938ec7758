use stein_ipc::admission::{request_allowed, ClientAssurance, RequestKind, SessionAdmission};
use stein_ipc::client::{
    validate_protocol_support, EventIdentitySet, MAX_APPLIED_EVENT_IDENTITIES,
};
use stein_ipc::codec::{decode_frame, decode_frame_length, encode_frame, FrameError, MAX_FRAME_BYTES};
use stein_ipc::identity::{
    default_pipe_name, ensure_process_is_current_user, sanitize_sid, validate_production_identity,
    IdentityError, PrivateTestEndpoint,
};
use stein_ipc::protocol::{
    capability_supported, supported_capabilities, CapabilityId, ProtocolSupport, ProtocolVersion,
};
use stein_ipc::server::{
    accepted_shutdown, event_follows, gate_request, DispatchRejection, forward_event, request_cancellation, request_sensitivity, validate_client_hello,
    validate_config, validate_request_admission, AdmissionRejection, CancellationStatus, ClientHello,
    open_protocol_session, session_step, ConnectionSession, FatalReason, FrameAction, SessionFrame,
    EventCursor, EventForwarding, HandlerOutcome, InFlightRequest, SensitivityClass, ServerConfig, ServerError,
};

const SID: &str = "S-1-5-21-1004336348-1177238915-682003330-512";

const ALL_KINDS: [RequestKind; 29] = [
    RequestKind::GetSnapshot,
    RequestKind::GetRuntimeStatus,
    RequestKind::GetCapabilityHealth,
    RequestKind::CreateGoal,
    RequestKind::UpdateGoal,
    RequestKind::CompleteGoal,
    RequestKind::AbandonGoal,
    RequestKind::DeleteGoal,
    RequestKind::ApproveModelRoute,
    RequestKind::GrantSessionPermission,
    RequestKind::RevokePermission,
    RequestKind::StartFocusSession,
    RequestKind::SetInterventionsMuted,
    RequestKind::EndFocusSession,
    RequestKind::RecordInterventionFeedback,
    RequestKind::RegisterSelectedResource,
    RequestKind::RemoveSelectedResource,
    RequestKind::UpdateUserPreferences,
    RequestKind::GetGoal,
    RequestKind::GetFocusSessionView,
    RequestKind::GetPermissionView,
    RequestKind::GetInterventionHistory,
    RequestKind::ExplainIntervention,
    RequestKind::GetSteinIdentity,
    RequestKind::GetUserPreferences,
    RequestKind::GetEffectivePolicy,
    RequestKind::GetSelectedResources,
    RequestKind::DelayEcho,
    RequestKind::Shutdown,
];

fn golden_hello() -> ClientHello {
    ClientHello {
        client_instance_id: 0x0190_0000_0000_7000_8000_0000_0000_0001,
        client_name: "STEIN Desktop".to_string(),
        client_build_id: "0.1.0-synthetic".to_string(),
        protocol_support: ProtocolSupport::v1(),
        max_frame_bytes: MAX_FRAME_BYTES as u32,
        capabilities: vec![CapabilityId::Snapshot, CapabilityId::RuntimeStatus, CapabilityId::GoalCreate],
    }
}

#[test]
fn open_session_deadline_must_be_positive() {
    let config = ServerConfig {
        handshake_timeout: 0,
        ..ServerConfig::default()
    };
    assert!(matches!(
        validate_config(&config),
        Err(ServerError::InvalidConfig("handshake_timeout must be positive"))
    ));
}

#[test]
fn default_server_config_is_valid_and_each_zero_limit_is_named() {
    assert_eq!(validate_config(&ServerConfig::default()), Ok(()));
    let config = ServerConfig { maximum_connections: 0, ..ServerConfig::default() };
    assert_eq!(
        validate_config(&config),
        Err(ServerError::InvalidConfig("maximum_connections must be positive"))
    );
    let config = ServerConfig { maximum_in_flight_per_connection: 0, ..ServerConfig::default() };
    assert_eq!(
        validate_config(&config),
        Err(ServerError::InvalidConfig("maximum_in_flight_per_connection must be positive"))
    );
    let config = ServerConfig { maximum_requests_per_window: 0, ..ServerConfig::default() };
    assert_eq!(
        validate_config(&config),
        Err(ServerError::InvalidConfig("maximum_requests_per_window must be positive"))
    );
}

#[test]
fn private_test_admission_uses_a_randomized_non_production_endpoint() {
    let first = PrivateTestEndpoint::new(SID);
    let second = PrivateTestEndpoint::new(SID);
    assert_ne!(first, second);
    assert_ne!(first.pipe_name(), default_pipe_name(SID));
    assert!(first.pipe_name().contains("stein-core-private-test-"));
}

#[test]
fn pipe_names_keep_only_safe_sid_characters() {
    assert_eq!(
        default_pipe_name("S-1-5-21-42"),
        r"\\.\pipe\stein-core-v1-S-1-5-21-42"
    );
    assert_eq!(default_pipe_name("S-1 5/21_x"), r"\\.\pipe\stein-core-v1-S-1521x");
    let kept: String = sanitize_sid("a.b-c!").into_iter().collect();
    assert_eq!(kept, "ab-c");
    let endpoint = PrivateTestEndpoint::new("S-1 5");
    let name = endpoint.pipe_name();
    assert!(name.starts_with(r"\\.\pipe\stein-core-private-test-S-15-"));
    let suffix = &name[r"\\.\pipe\stein-core-private-test-S-15-".len()..];
    assert_eq!(suffix.len(), 36);
    assert_eq!(suffix.as_bytes()[14], b'7');
}

#[test]
fn peer_user_must_be_the_current_user() {
    assert_eq!(ensure_process_is_current_user(SID, SID), Ok(SID.to_string()));
    assert_eq!(
        ensure_process_is_current_user("S-1-5-18", SID),
        Err(IdentityError::DifferentUser)
    );
}

#[test]
fn production_private_identity_is_exact_and_never_accepts_development_identity() {
    const PFN: &str = "STEIN.PersonalIntelligence_qrfd6g9swygw6";
    const AUMID: &str = "STEIN.PersonalIntelligence_qrfd6g9swygw6!PrivateBroker";

    validate_production_identity(PFN, AUMID).expect("syntactically exact production identity");

    for (package_family_name, broker_aumid) in [
        (
            "STEIN.PersonalIntelligence.Dev_qrfd6g9swygw6",
            "STEIN.PersonalIntelligence.Dev_qrfd6g9swygw6!PrivateBroker",
        ),
        (PFN, "STEIN.PersonalIntelligence_qrfd6g9swygw6!Desktop"),
        (
            "STEIN.PersonalIntelligence_QRFD6G9SWYGW6",
            "STEIN.PersonalIntelligence_QRFD6G9SWYGW6!PrivateBroker",
        ),
        (
            "STEIN.PersonalIntelligence_qrfd6g9swygw",
            "STEIN.PersonalIntelligence_qrfd6g9swygw!PrivateBroker",
        ),
    ] {
        assert!(
            matches!(
                validate_production_identity(package_family_name, broker_aumid),
                Err(ServerError::InvalidPrivateIdentity)
            ),
            "an inexact or development package identity must fail closed"
        );
    }
}

#[test]
fn validates_handshake_identity_limits_and_capability_set() {
    let hello = golden_hello();
    validate_client_hello(&hello).expect("golden hello must be valid");

    let mut blank_name = hello.clone();
    blank_name.client_name = "  ".into();
    assert!(validate_client_hello(&blank_name).is_err());

    let mut small_frames = hello.clone();
    small_frames.max_frame_bytes = MAX_FRAME_BYTES as u32 - 1;
    assert!(validate_client_hello(&small_frames).is_err());

    let mut invalid_range = hello.clone();
    invalid_range.protocol_support.minimum_minor = 2;
    invalid_range.protocol_support.maximum_minor = 1;
    assert!(validate_client_hello(&invalid_range).is_err());

    let mut duplicate = hello;
    duplicate.capabilities.push(duplicate.capabilities[0]);
    assert!(validate_client_hello(&duplicate).is_err());
}

#[test]
fn handshake_errors_name_the_first_violated_rule() {
    let mut nil = golden_hello();
    nil.client_instance_id = 0;
    assert_eq!(
        validate_client_hello(&nil),
        Err("The client instance identifier must not be nil.")
    );
    let mut long_name = golden_hello();
    long_name.client_name = "x".repeat(101);
    assert_eq!(
        validate_client_hello(&long_name),
        Err("The client name must contain between 1 and 100 characters.")
    );
    let mut exact_name = golden_hello();
    exact_name.client_name = " x".repeat(50);
    assert_eq!(validate_client_hello(&exact_name), Ok(()));
    let mut blank_build = golden_hello();
    blank_build.client_build_id = "\t\n".into();
    assert_eq!(
        validate_client_hello(&blank_build),
        Err("The client build identifier must contain between 1 and 100 characters.")
    );
    let mut duplicate = golden_hello();
    duplicate.capabilities.push(CapabilityId::GoalCreate);
    assert_eq!(
        validate_client_hello(&duplicate),
        Err("The client capability list contains a duplicate.")
    );
}

#[test]
fn named_pipe_admission_is_diagnostic_and_private_test_admission_is_explicit() {
    assert_eq!(SessionAdmission::Diagnostic.assurance(), ClientAssurance::Diagnostic);
    assert_eq!(
        SessionAdmission::PrivateCapabilityBoundForTest.assurance(),
        ClientAssurance::PrivateCapabilityBound
    );
    assert_eq!(
        SessionAdmission::ProductionPrivate { daemon_instance: 7 }.assurance(),
        ClientAssurance::PrivateCapabilityBound
    );
}

#[test]
fn diagnostic_allowlist_is_closed_and_exhaustive() {
    for kind in ALL_KINDS {
        assert_eq!(
            request_allowed(ClientAssurance::Diagnostic, kind),
            matches!(kind, RequestKind::GetRuntimeStatus | RequestKind::GetCapabilityHealth)
        );
        assert!(request_allowed(ClientAssurance::PrivateCapabilityBound, kind));
        assert!(!request_allowed(ClientAssurance::NativeEmergencyControl, kind));
    }
}

#[test]
fn admission_and_protocol_minimum_fail_before_dispatch() {
    let v1_0 = ProtocolVersion::v1_0();
    let v1_1 = ProtocolVersion::v1_1();
    validate_request_admission(
        RequestKind::GetRuntimeStatus,
        v1_0,
        v1_0,
        ClientAssurance::Diagnostic,
        SensitivityClass::Operational,
        SensitivityClass::Operational,
        true,
    )
    .expect("runtime status is the protocol 1.0 diagnostic query");

    let error = validate_request_admission(
        RequestKind::GetSnapshot,
        v1_0,
        v1_0,
        ClientAssurance::Diagnostic,
        SensitivityClass::Personal,
        SensitivityClass::Personal,
        true,
    )
    .unwrap_err();
    assert_eq!(error, AdmissionRejection::PermissionDenied);

    let error = validate_request_admission(
        RequestKind::GetCapabilityHealth,
        v1_1,
        v1_0,
        ClientAssurance::Diagnostic,
        SensitivityClass::Operational,
        SensitivityClass::Operational,
        true,
    )
    .unwrap_err();
    assert_eq!(error, AdmissionRejection::IncompatibleProtocol);

    let error = validate_request_admission(
        RequestKind::GetRuntimeStatus,
        v1_0,
        v1_1,
        ClientAssurance::Diagnostic,
        SensitivityClass::Operational,
        SensitivityClass::Personal,
        true,
    )
    .unwrap_err();
    assert_eq!(error, AdmissionRejection::InvalidClassification);

    let error = validate_request_admission(
        RequestKind::GetRuntimeStatus,
        v1_0,
        v1_1,
        ClientAssurance::Diagnostic,
        SensitivityClass::Operational,
        SensitivityClass::Operational,
        false,
    )
    .unwrap_err();
    assert_eq!(error, AdmissionRejection::InvalidClassification);
}

#[test]
fn request_classification_and_protocol_minima_are_exhaustive() {
    for kind in ALL_KINDS {
        assert_eq!(
            request_sensitivity(kind, SensitivityClass::Restricted, ProtocolVersion::v1_1()),
            SensitivityClass::Restricted
        );
    }
    assert_eq!(
        request_sensitivity(RequestKind::GetSnapshot, SensitivityClass::Restricted, ProtocolVersion::v1_0()),
        SensitivityClass::Personal
    );
    assert_eq!(
        request_sensitivity(RequestKind::GetGoal, SensitivityClass::Restricted, ProtocolVersion::v1_0()),
        SensitivityClass::Restricted
    );
}

#[test]
fn cancellation_id_must_match_the_target_request() {
    let request_id: u128 = 0x0190_0000_0000_7000_8000_0000_0000_0011;
    let cancellation_id: u128 = 0x0190_0000_0000_7000_8000_0000_0000_0012;
    let other_cancellation: u128 = 0x0190_0000_0000_7000_8000_0000_0000_0013;
    let in_flight = vec![
        InFlightRequest { request_id: 5, cancellation_id: None },
        InFlightRequest { request_id, cancellation_id: Some(cancellation_id) },
    ];
    assert_eq!(
        request_cancellation(&in_flight, request_id, other_cancellation),
        (CancellationStatus::RequestNotFound, None)
    );
    assert_eq!(
        request_cancellation(&in_flight, request_id, cancellation_id),
        (CancellationStatus::CancellationRequested, Some(1))
    );
    assert_eq!(
        request_cancellation(&in_flight, 5, cancellation_id),
        (CancellationStatus::RequestNotFound, None)
    );
    assert_eq!(
        request_cancellation(&in_flight, 99, cancellation_id),
        (CancellationStatus::RequestNotFound, None)
    );
}

#[test]
fn forwarded_events_must_be_contiguous_and_expressible() {
    let expected = EventCursor { daemon_instance_id: 3, sequence: 41 };
    let next = EventCursor { daemon_instance_id: 3, sequence: 42 };
    assert!(event_follows(expected, next));
    assert!(!event_follows(expected, EventCursor { daemon_instance_id: 3, sequence: 43 }));
    assert!(!event_follows(expected, EventCursor { daemon_instance_id: 4, sequence: 42 }));
    assert_eq!(
        forward_event(expected, next, ProtocolVersion::v1_1(), ProtocolVersion::v1_2()),
        EventForwarding::Forward
    );
    assert_eq!(
        forward_event(expected, next, ProtocolVersion::v1_1(), ProtocolVersion::v1_0()),
        EventForwarding::CloseForGap
    );
    assert_eq!(
        forward_event(expected, expected, ProtocolVersion::v1_0(), ProtocolVersion::v1_0()),
        EventForwarding::CloseForGap
    );
}

#[test]
fn client_protocol_advertisement_cannot_exceed_implemented_minor_versions() {
    validate_protocol_support(ProtocolSupport::v1()).expect("the complete implemented range is valid");
    validate_protocol_support(ProtocolSupport::exact(ProtocolVersion::v1_0()))
        .expect("an exact legacy range is valid");
    validate_protocol_support(ProtocolSupport::exact(ProtocolVersion::v1_1()))
        .expect("an exact current range is valid");

    let v1 = ProtocolSupport::v1();
    assert!(validate_protocol_support(ProtocolSupport {
        major: v1.major,
        minimum_minor: 0,
        maximum_minor: v1.maximum_minor + 1,
    })
    .is_err());
    assert!(validate_protocol_support(ProtocolSupport {
        major: v1.major + 1,
        minimum_minor: 0,
        maximum_minor: 0,
    })
    .is_err());
    assert!(validate_protocol_support(ProtocolSupport {
        major: v1.major,
        minimum_minor: 1,
        maximum_minor: 0,
    })
    .is_err());
}

#[test]
fn protocol_1_0_hides_capabilities_introduced_later() {
    let v1_0 = ProtocolVersion::v1_0();
    assert!(capability_supported(CapabilityId::Snapshot, v1_0));
    assert!(!capability_supported(CapabilityId::FocusSessions, v1_0));
    assert!(capability_supported(CapabilityId::FocusSessions, ProtocolVersion::v1_1()));
    assert!(!capability_supported(CapabilityId::UserPreferences, ProtocolVersion::v1_1()));
    assert!(capability_supported(CapabilityId::UserPreferences, ProtocolVersion::v1_2()));
    assert!(!capability_supported(CapabilityId::Snapshot, ProtocolVersion { major: 2, minor: 0 }));
    let all = vec![
        CapabilityId::Snapshot,
        CapabilityId::FocusSessions,
        CapabilityId::RuntimeStatus,
        CapabilityId::SelectedResources,
    ];
    assert_eq!(
        supported_capabilities(&all, v1_0),
        vec![CapabilityId::Snapshot, CapabilityId::RuntimeStatus]
    );
    assert_eq!(
        supported_capabilities(&all, ProtocolVersion::v1_1()),
        vec![CapabilityId::Snapshot, CapabilityId::FocusSessions, CapabilityId::RuntimeStatus]
    );
}

#[test]
fn bounded_event_identity_tracking_fails_closed_at_capacity() {
    let mut identities = EventIdentitySet::new();
    for id in 0..MAX_APPLIED_EVENT_IDENTITIES {
        assert_eq!(identities.record(1_000 + id as u128), Some(true));
    }
    assert_eq!(
        identities.record(1),
        None,
        "capacity exhaustion forces an authoritative reconnect",
    );
    assert_eq!(identities.record(1_000), Some(false));
}

#[test]
fn replayed_event_identity_is_reported_once() {
    let mut identities = EventIdentitySet::new();
    assert_eq!(identities.record(77), Some(true));
    assert_eq!(identities.record(77), Some(false));
    assert_eq!(identities.record(78), Some(true));
}

#[test]
fn round_trips_one_frame() {
    let body = br#"{"value":"synthetic"}"#;
    let frame = encode_frame(body).expect("frame should encode");
    assert_eq!(&frame[..4], &(body.len() as u32).to_le_bytes());
    let (decoded, used) = decode_frame(&frame).expect("frame should decode");
    assert_eq!(decoded, body.to_vec());
    assert_eq!(used, frame.len());
}

#[test]
fn rejects_oversized_length_before_allocating_body() {
    let prefix = ((MAX_FRAME_BYTES + 1) as u32).to_le_bytes();
    assert_eq!(decode_frame_length(&prefix), Err(FrameError::ExceedsLimit));
    assert_eq!(decode_frame(&prefix), Err(FrameError::ExceedsLimit));
    assert_eq!(encode_frame(&vec![0u8; MAX_FRAME_BYTES + 1]), Err(FrameError::ExceedsLimit));
    let exact = (MAX_FRAME_BYTES as u32).to_le_bytes();
    assert_eq!(decode_frame_length(&exact), Ok(MAX_FRAME_BYTES));
}

#[test]
fn rejects_zero_length_and_malformed_json() {
    assert_eq!(decode_frame_length(&0u32.to_le_bytes()), Err(FrameError::ZeroLength));
    assert_eq!(encode_frame(&[]), Err(FrameError::ZeroLength));
    let mut truncated = 4u32.to_le_bytes().to_vec();
    truncated.extend_from_slice(b"no");
    assert_eq!(decode_frame(&truncated), Err(FrameError::Incomplete));
    assert_eq!(decode_frame_length(&[1, 0]), Err(FrameError::Incomplete));
    let mut complete = 4u32.to_le_bytes().to_vec();
    complete.extend_from_slice(b"nope");
    complete.extend_from_slice(b"trailing");
    let (body, used) = decode_frame(&complete).expect("the prefix frame is complete");
    assert_eq!(body, b"nope".to_vec());
    assert_eq!(used, 8);
}

#[test]
fn rejected_shutdown_requests_never_commit_process_shutdown() {
    assert!(!accepted_shutdown(RequestKind::Shutdown, HandlerOutcome::Rejected));
    assert!(accepted_shutdown(RequestKind::Shutdown, HandlerOutcome::Shutdown { accepted: true }));
    assert!(!accepted_shutdown(RequestKind::Shutdown, HandlerOutcome::Shutdown { accepted: false }));
    assert!(!accepted_shutdown(RequestKind::DelayEcho, HandlerOutcome::Shutdown { accepted: true }));
    assert!(!accepted_shutdown(RequestKind::GetSnapshot, HandlerOutcome::OtherResponse));
}

#[test]
fn dispatch_enforces_the_rate_window_unique_ids_and_in_flight_capacity() {
    let mut times: Vec<u64> = vec![1_000, 5_000, 9_000];
    assert_eq!(gate_request(&mut times, 11_001, 10_000, 3, 7, &Vec::new(), 16), Ok(()));
    assert_eq!(times, vec![5_000, 9_000, 11_001]);
    assert_eq!(
        gate_request(&mut times, 12_000, 10_000, 3, 8, &Vec::new(), 16),
        Err(DispatchRejection::RateLimited)
    );
    assert_eq!(times, vec![5_000, 9_000, 11_001]);
    assert_eq!(DispatchRejection::RateLimited.summary(), "The connection exceeded its request-rate limit.");

    let in_flight = vec![InFlightRequest { request_id: 7, cancellation_id: None }];
    let mut fresh: Vec<u64> = Vec::new();
    assert_eq!(
        gate_request(&mut fresh, 100, 10_000, 120, 7, &in_flight, 16),
        Err(DispatchRejection::DuplicateRequest)
    );
    assert_eq!(fresh, vec![100]);
    assert_eq!(gate_request(&mut fresh, 200, 10_000, 120, 8, &in_flight, 1), Err(DispatchRejection::TooManyInFlight));
    assert_eq!(gate_request(&mut fresh, 300, 10_000, 120, 8, &in_flight, 2), Ok(()));
    assert_eq!(fresh, vec![100, 200, 300]);
}

#[test]
fn hello_fields_never_change_the_transport_admission() {
    let v1_0 = ProtocolVersion::v1_0();
    let v1_1 = ProtocolVersion::v1_1();
    let mut claims_private = golden_hello();
    claims_private.client_name = "PrivateCapabilityBound".to_string();
    let session = open_protocol_session(SessionAdmission::Diagnostic, &claims_private, Some(v1_0)).unwrap();
    assert_eq!(session, ConnectionSession { assurance: ClientAssurance::Diagnostic, negotiated: v1_0 });
    let private = open_protocol_session(SessionAdmission::PrivateCapabilityBoundForTest, &golden_hello(), Some(v1_1))
        .unwrap();
    assert_eq!(private.assurance, ClientAssurance::PrivateCapabilityBound);

    let mut bad = golden_hello();
    bad.client_instance_id = 0;
    assert_eq!(
        open_protocol_session(SessionAdmission::Diagnostic, &bad, Some(v1_0)),
        Err(FatalReason::HandshakeRequired)
    );
    assert_eq!(
        open_protocol_session(SessionAdmission::Diagnostic, &golden_hello(), None),
        Err(FatalReason::IncompatibleProtocol)
    );

    let request = |kind: RequestKind, sensitivity: SensitivityClass| SessionFrame::Request {
        kind,
        required: v1_0,
        kind_sensitivity: sensitivity,
        declared_sensitivity: sensitivity,
        retention_matches: true,
    };
    assert_eq!(
        session_step(session, request(RequestKind::GetRuntimeStatus, SensitivityClass::Operational)),
        FrameAction::Dispatch(ClientAssurance::Diagnostic)
    );
    assert_eq!(
        session_step(session, request(RequestKind::GetSnapshot, SensitivityClass::Personal)),
        FrameAction::Refuse(AdmissionRejection::PermissionDenied)
    );
    assert_eq!(
        session_step(session, SessionFrame::Cancel),
        FrameAction::Fatal(FatalReason::AuthenticationFailed)
    );
    assert_eq!(session_step(private, SessionFrame::Cancel), FrameAction::AcknowledgeCancel);
    assert_eq!(session_step(private, SessionFrame::OpenSession), FrameAction::Fatal(FatalReason::HandshakeRequired));
    let misclassified = SessionFrame::Request {
        kind: RequestKind::GetRuntimeStatus,
        required: v1_0,
        kind_sensitivity: SensitivityClass::Operational,
        declared_sensitivity: SensitivityClass::Personal,
        retention_matches: true,
    };
    assert_eq!(session_step(private, misclassified), FrameAction::Refuse(AdmissionRejection::InvalidClassification));
}
