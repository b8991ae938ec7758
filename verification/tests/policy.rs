use stein_ipc::config::{validate_config, SecondMindConfig};
use stein_ipc::errors::SecondMindErrorCode;
use stein_ipc::preferences::{
    do_not_disturb_contains, next_preferences_revision, valid_do_not_disturb_window,
    validate_preferences, DoNotDisturbWindow, EffectivePolicy, EffectivePreferences,
    ExplicitPreferences, USER_PREFERENCES_SCHEMA_V1,
};
use stein_ipc::text::{bound_text, trimmed_bounds, validate_text};

fn utc_ms(year: i32, month: time::Month, day: u8, hour: u8, minute: u8) -> i64 {
    let date = time::Date::from_calendar_date(year, month, day).unwrap();
    let time_of_day = time::Time::from_hms(hour, minute, 0).unwrap();
    let instant = time::PrimitiveDateTime::new(date, time_of_day).assume_utc();
    instant.unix_timestamp() * 1000
}

fn explicit(owner: u128) -> ExplicitPreferences {
    ExplicitPreferences {
        schema_version: USER_PREFERENCES_SCHEMA_V1,
        owner,
        revision: 0,
        preferred_form_of_address: Some("Captain".to_owned()),
        default_focus_minutes: 45,
        maximum_interventions_per_session: 2,
        maximum_model_requests_per_hour: 10,
        minimum_intervention_cooldown_seconds: 15 * 60,
        proactive_interventions_enabled: true,
        proactive_interventions_muted: false,
        do_not_disturb_windows: Vec::new(),
        allowed_delivery_channels: vec!["windows.native_notification".to_owned()],
        remote_processing_enabled: false,
        restart_continuity_default: false,
    }
}

#[test]
fn do_not_disturb_window_is_start_inclusive_end_exclusive_and_wraps_midnight() {
    let window = DoNotDisturbWindow {
        start_minute_local: 22 * 60,
        end_minute_local: 7 * 60,
        utc_offset_minutes: 60,
    };
    assert!(!do_not_disturb_contains(window, utc_ms(2026, time::Month::August, 19, 20, 59)));
    assert!(do_not_disturb_contains(window, utc_ms(2026, time::Month::August, 19, 21, 0)));
    assert!(do_not_disturb_contains(window, utc_ms(2026, time::Month::August, 20, 5, 59)));
    assert!(!do_not_disturb_contains(window, utc_ms(2026, time::Month::August, 20, 6, 0)));
}

#[test]
fn daytime_window_and_negative_offsets_use_the_local_minute() {
    let window = DoNotDisturbWindow {
        start_minute_local: 9 * 60,
        end_minute_local: 17 * 60,
        utc_offset_minutes: -300,
    };
    assert!(!do_not_disturb_contains(window, utc_ms(2026, time::Month::March, 2, 13, 59)));
    assert!(do_not_disturb_contains(window, utc_ms(2026, time::Month::March, 2, 14, 0)));
    assert!(do_not_disturb_contains(window, utc_ms(2026, time::Month::March, 2, 21, 59)));
    assert!(!do_not_disturb_contains(window, utc_ms(2026, time::Month::March, 2, 22, 0)));
    let before_epoch = DoNotDisturbWindow {
        start_minute_local: 23 * 60 + 59,
        end_minute_local: 0,
        utc_offset_minutes: 0,
    };
    assert!(do_not_disturb_contains(before_epoch, -1));
    assert!(!do_not_disturb_contains(before_epoch, 0));
}

#[test]
fn unrepresentable_offset_fails_closed_as_quiet_hours() {
    let window = DoNotDisturbWindow {
        start_minute_local: 60,
        end_minute_local: 120,
        utc_offset_minutes: 1600,
    };
    assert!(!valid_do_not_disturb_window(window));
    assert!(do_not_disturb_contains(window, 0));
}

#[test]
fn window_validity_bounds() {
    assert!(valid_do_not_disturb_window(DoNotDisturbWindow {
        start_minute_local: 1439,
        end_minute_local: 0,
        utc_offset_minutes: -1439,
    }));
    assert!(!valid_do_not_disturb_window(DoNotDisturbWindow {
        start_minute_local: 1440,
        end_minute_local: 0,
        utc_offset_minutes: 0,
    }));
    assert!(!valid_do_not_disturb_window(DoNotDisturbWindow {
        start_minute_local: 100,
        end_minute_local: 100,
        utc_offset_minutes: 0,
    }));
}

#[test]
fn explicit_preferences_are_validated_and_never_inferred() {
    let config = SecondMindConfig::default();
    let saved = explicit(7);
    assert_eq!(validate_preferences(&config, &saved), Ok(()));
    assert_eq!(next_preferences_revision(None), 1);
    assert_eq!(next_preferences_revision(Some(1)), 2);
    assert_eq!(next_preferences_revision(Some(u64::MAX)), u64::MAX);

    let mut invalid = saved.clone();
    invalid.do_not_disturb_windows = vec![DoNotDisturbWindow {
        start_minute_local: 100,
        end_minute_local: 100,
        utc_offset_minutes: 0,
    }];
    let error = validate_preferences(&config, &invalid).unwrap_err();
    assert_eq!(error.code, SecondMindErrorCode::InvalidArgument);
    assert_eq!(error.summary, "Preference limits are invalid.");
}

#[test]
fn preference_limits_cannot_loosen_the_configured_policy() {
    let config = SecondMindConfig::default();
    let cases: Vec<Box<dyn Fn(&mut ExplicitPreferences)>> = vec![
        Box::new(|p| p.schema_version = 2),
        Box::new(|p| p.default_focus_minutes = 0),
        Box::new(|p| p.default_focus_minutes = 1441),
        Box::new(|p| p.maximum_interventions_per_session = 4),
        Box::new(|p| p.maximum_model_requests_per_hour = 13),
        Box::new(|p| p.minimum_intervention_cooldown_seconds = 899),
        Box::new(|p| p.allowed_delivery_channels = vec![String::new()]),
        Box::new(|p| p.allowed_delivery_channels = vec!["x".repeat(65)]),
        Box::new(|p| p.allowed_delivery_channels = vec!["bell\u{7}".to_owned()]),
        Box::new(|p| p.allowed_delivery_channels = vec!["c".to_owned(); 9]),
        Box::new(|p| {
            p.do_not_disturb_windows = vec![
                DoNotDisturbWindow { start_minute_local: 1, end_minute_local: 2, utc_offset_minutes: 0 };
                17
            ]
        }),
    ];
    for change in cases {
        let mut value = explicit(1);
        change(&mut value);
        let error = validate_preferences(&config, &value).unwrap_err();
        assert_eq!(error.summary, "Preference limits are invalid.");
        assert!(!error.retryable);
    }
    let mut edge = explicit(1);
    edge.allowed_delivery_channels = vec!["é".repeat(32)];
    edge.default_focus_minutes = 1440;
    edge.maximum_interventions_per_session = 3;
    edge.maximum_model_requests_per_hour = 12;
    edge.minimum_intervention_cooldown_seconds = 900;
    assert_eq!(validate_preferences(&config, &edge), Ok(()));
    edge.allowed_delivery_channels = vec!["é".repeat(32) + "x"];
    assert!(validate_preferences(&config, &edge).is_err());
}

#[test]
fn form_of_address_is_checked_first() {
    let config = SecondMindConfig::default();
    let mut value = explicit(1);
    value.preferred_form_of_address = Some("   ".to_owned());
    value.schema_version = 9;
    let error = validate_preferences(&config, &value).unwrap_err();
    assert_eq!(error.summary, "The preferred form of address is invalid.");
    value.preferred_form_of_address = None;
    assert_eq!(
        validate_preferences(&config, &value).unwrap_err().summary,
        "Preference limits are invalid."
    );
}

#[test]
fn effective_preferences_clamp_to_the_configured_policy() {
    let config = SecondMindConfig::default();
    let mut value = explicit(3);
    value.maximum_interventions_per_session = 9;
    value.maximum_model_requests_per_hour = 4;
    value.minimum_intervention_cooldown_seconds = 60;
    value.revision = 5;
    let effective = EffectivePreferences::from_record(&config, value.clone());
    assert_eq!(effective.revision, 5);
    assert_eq!(effective.maximum_interventions_per_session, 3);
    assert_eq!(effective.maximum_model_requests_per_hour, 4);
    assert_eq!(effective.intervention_cooldown, 900_000);
    assert!(effective.permits_native_notification());

    value.minimum_intervention_cooldown_seconds = 3_600;
    value.allowed_delivery_channels = vec!["windows.native_notifications".to_owned()];
    let effective = EffectivePreferences::from_record(&config, value);
    assert_eq!(effective.intervention_cooldown, 3_600_000);
    assert!(!effective.permits_native_notification());

    let policy = EffectivePolicy::from_effective(&config, effective.clone());
    assert_eq!(policy.policy_profile_id, "phase2-focus-v1");
    assert_eq!(policy.user_preferences_revision, 5);
    assert_eq!(policy.intervention_cooldown, 3_600_000);
    assert_eq!(policy.outbox_capacity_per_session, 5);
    assert_eq!(policy.source_stale_after, 30_000);
}

#[test]
fn any_active_window_means_quiet_hours() {
    let config = SecondMindConfig::default();
    let mut value = explicit(3);
    value.do_not_disturb_windows = vec![
        DoNotDisturbWindow { start_minute_local: 60, end_minute_local: 120, utc_offset_minutes: 0 },
        DoNotDisturbWindow { start_minute_local: 600, end_minute_local: 660, utc_offset_minutes: 0 },
    ];
    let effective = EffectivePreferences::from_record(&config, value);
    assert!(effective.is_do_not_disturb(utc_ms(2026, time::Month::January, 5, 10, 30)));
    assert!(effective.is_do_not_disturb(utc_ms(2026, time::Month::January, 5, 1, 0)));
    assert!(!effective.is_do_not_disturb(utc_ms(2026, time::Month::January, 5, 2, 0)));
}

#[test]
fn default_configuration_is_valid_and_bounds_are_enforced() {
    assert_eq!(validate_config(&SecondMindConfig::default()), Ok(()));
    let mut config = SecondMindConfig::default();
    config.maximum_model_requests_per_hour = 13;
    let error = validate_config(&config).unwrap_err();
    assert_eq!(error.code, SecondMindErrorCode::InvalidArgument);
    assert_eq!(error.summary, "The second-mind policy configuration is invalid.");
    let mut config = SecondMindConfig::default();
    config.outbox_capacity_per_session = 5;
    config.outbox_capacity_per_user = 4;
    assert!(validate_config(&config).is_err());
    let mut config = SecondMindConfig::default();
    config.source_freshness = 30_000;
    config.observation_ttl = 20_000;
    config.maximum_model_evidence_age = 20_000;
    assert!(validate_config(&config).is_err());
}

#[test]
fn text_is_trimmed_and_control_characters_are_refused() {
    assert_eq!(validate_text("  goal  ", 1, 4, "bad"), Ok(()));
    assert_eq!(validate_text("  goals ", 1, 4, "bad").unwrap_err().summary, "bad");
    assert!(validate_text("   ", 1, 4, "bad").is_err());
    assert!(validate_text("a\u{0}b", 1, 4, "bad").is_err());
    assert_eq!(trimmed_bounds("  ab "), (2, 4));
    let (start, end) = trimmed_bounds("   ");
    assert_eq!(start, end);
    assert_eq!(bound_text("  hello world ".to_owned(), 5), "hello");
    assert_eq!(bound_text(" hi ".to_owned(), 5), "hi");
}
