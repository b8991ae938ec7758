use stein_ipc::gates::{
    outbox_cancellations_for_session,
    consumes_intervention_cooldown, cooldown_held, count_delivered, count_queued,
    emergency_command_is_valid, outbox_admission, pre_model_delivery_gate, recovery_batch_due,
    retain_fresh, select_recovery_batch, sort_for_recovery, take_recovery_batch, uuid_is_v7, DeliveryLimits, EmergencyRevision,
    ModelRequestBudget, ObservationStamp, SignificanceState, HOUR_MS,
};
use stein_ipc::model::{
    DataCategory, PermissionScope, InterventionRecord, InterventionState, OutboxEntry, OutboxState,
};

const SESSION: u128 = 0x10;
const OTHER_SESSION: u128 = 0x20;
const V7_ID: u128 = 0x0190_0000_0000_7000_8000_0000_0000_0001;
const V4_ID: u128 = 0x0190_0000_0000_4000_8000_0000_0000_0001;

fn limits() -> DeliveryLimits {
    DeliveryLimits {
        proactive_interventions_enabled: true,
        maximum_interventions_per_session: 3,
        intervention_cooldown: 900_000,
        outbox_capacity_per_user: 20,
        outbox_capacity_per_session: 5,
    }
}

fn intervention(id: u128, session: u128, state: InterventionState, updated_at: i64) -> InterventionRecord {
    InterventionRecord { id, focus_session_id: session, state, updated_at }
}

fn entry(id: u128, intervention_id: u128, key: u128, state: OutboxState) -> OutboxEntry {
    OutboxEntry {
        id,
        intervention_id,
        deduplication_key: key,
        state,
        attempt_count: 0,
        created_at: 0,
        not_before: 0,
    }
}

#[test]
fn model_budget_allows_only_one_in_flight_and_twelve_per_rolling_hour() {
    let mut budget = ModelRequestBudget::new();
    assert_eq!(budget.begin(0, 12, 300_000), Ok(()));
    assert_eq!(budget.begin(0, 12, 300_000), Err("model_request_in_flight"));
    budget.finish();
    assert_eq!(budget.begin(0, 12, 300_000), Err("model_request_cooldown"));

    let mut full = ModelRequestBudget { in_flight: false, history: vec![0; 12] };
    assert_eq!(full.begin(3_599_000, 12, 300_000), Err("model_hourly_budget_exhausted"));
    assert_eq!(full.history.len(), 12);
    assert_eq!(full.begin(HOUR_MS, 12, 300_000), Ok(()));
    assert_eq!(full.history, vec![HOUR_MS]);
}

#[test]
fn model_cooldown_elapses_after_the_configured_interval() {
    let mut budget = ModelRequestBudget::new();
    assert_eq!(budget.begin(1_000, 12, 300_000), Ok(()));
    budget.finish();
    assert_eq!(budget.begin(300_999, 12, 300_000), Err("model_request_cooldown"));
    assert_eq!(budget.begin(301_000, 12, 300_000), Ok(()));
    budget.finish();
    assert_eq!(budget.history, vec![1_000, 301_000]);
    let mut none_allowed = ModelRequestBudget::new();
    assert_eq!(none_allowed.begin(0, 0, 0), Err("model_hourly_budget_exhausted"));
}

#[test]
fn significance_and_model_cooldowns_are_deterministic() {
    let horizon = 1_800_000;
    let interval = 60_000;
    let now = 1_000_000;
    let deadline = Some(now + 600_000);
    let context = vec![DataCategory::WorkspaceActivity];
    let mut state = SignificanceState::new();
    assert_eq!(state.significance_gate(deadline, now, 0, horizon, interval, &context), None);
    assert_eq!(
        state.significance_gate(deadline, now, 1_000, horizon, interval, &context),
        Some("no_relevant_state_change")
    );
    state.note_change();
    assert_eq!(
        state.significance_gate(deadline, now, 59_999, horizon, interval, &context),
        Some("significance_rate_limited")
    );
    assert_eq!(state.significance_gate(deadline, now, 60_000, horizon, interval, &context), None);
    assert_eq!(state.last_significance_evaluation_elapsed, Some(60_000));
}

#[test]
fn significance_reports_why_a_deadline_is_not_a_risk() {
    let horizon = 1_800_000;
    let now = 5_000_000;
    let evidence = vec![DataCategory::VisibleText];
    let mut state = SignificanceState::new();
    state.note_change();
    assert_eq!(
        state.significance_gate(None, now, 0, horizon, 60_000, &evidence),
        Some("deadline_not_configured")
    );
    state.note_change();
    assert_eq!(
        state.significance_gate(Some(now), now, 60_000, horizon, 60_000, &evidence),
        Some("goal_deadline_elapsed")
    );
    state.note_change();
    assert_eq!(
        state.significance_gate(Some(now + horizon as i64 + 1), now, 120_000, horizon, 60_000, &evidence),
        Some("outside_deadline_risk_horizon")
    );
    state.note_change();
    assert_eq!(
        state.significance_gate(
            Some(now + 1),
            now,
            180_000,
            horizon,
            60_000,
            &vec![DataCategory::WindowMetadata, DataCategory::DeliveryConstraints]
        ),
        Some("no_fresh_significant_evidence")
    );
}

#[test]
fn entering_the_risk_horizon_is_itself_a_significant_change() {
    let mut state = SignificanceState::new();
    assert!(!state.deadline_risk_active);
    let evidence = vec![DataCategory::Goal];
    assert_eq!(state.significance_gate(Some(100), 0, 0, 1_000, 60_000, &evidence), None);
    assert!(state.deadline_risk_active);
    assert_eq!(state.significance_generation, 1);
    assert_eq!(
        state.significance_gate(Some(100), 0, 120_000, 1_000, 60_000, &evidence),
        Some("no_relevant_state_change")
    );
}

#[test]
fn cooldown_states_and_delivered_counts() {
    assert!(consumes_intervention_cooldown(InterventionState::Queued));
    assert!(consumes_intervention_cooldown(InterventionState::DeliveryUnknown));
    assert!(!consumes_intervention_cooldown(InterventionState::Allowed));
    assert!(!consumes_intervention_cooldown(InterventionState::DeliveryFailed));
    let interventions = vec![
        intervention(1, SESSION, InterventionState::AcceptedByChannel, 0),
        intervention(2, SESSION, InterventionState::DeliveryUnknown, 0),
        intervention(3, SESSION, InterventionState::Queued, 0),
        intervention(4, OTHER_SESSION, InterventionState::AcceptedByChannel, 0),
    ];
    assert_eq!(count_delivered(&interventions, SESSION, None), 2);
    assert_eq!(count_delivered(&interventions, SESSION, Some(1)), 1);
    assert!(cooldown_held(&interventions, SESSION, None, 899_999, 900_000));
    assert!(!cooldown_held(&interventions, SESSION, None, 900_000, 900_000));
    assert!(cooldown_held(&interventions, SESSION, None, -1, 900_000));
}

#[test]
fn zero_user_intervention_cap_avoids_model_cost() {
    let mut capped = limits();
    capped.maximum_interventions_per_session = 0;
    assert_eq!(
        pre_model_delivery_gate(capped, SESSION, &vec![], 0, None, 0, true, &vec![]),
        Some("session_intervention_cap")
    );
}

#[test]
fn proactive_interventions_require_explicit_opt_in_before_model_use() {
    let mut disabled = limits();
    disabled.proactive_interventions_enabled = false;
    assert_eq!(
        pre_model_delivery_gate(disabled, SESSION, &vec![], 0, None, 0, true, &vec![]),
        Some("proactive_interventions_disabled")
    );
    assert_eq!(pre_model_delivery_gate(limits(), SESSION, &vec![], 0, None, 0, true, &vec![]), None);
}

#[test]
fn pre_model_gate_checks_cooldown_then_outbox_capacity() {
    let recent = vec![intervention(1, SESSION, InterventionState::AcceptedByChannel, 1_000)];
    assert_eq!(
        pre_model_delivery_gate(limits(), SESSION, &recent, 2_000, None, 0, true, &vec![]),
        Some("intervention_cooldown")
    );
    assert_eq!(
        pre_model_delivery_gate(limits(), SESSION, &vec![], 0, Some(10), 500, true, &vec![]),
        Some("intervention_cooldown")
    );
    let mut session_items = Vec::new();
    let mut pending = Vec::new();
    for i in 0..5u128 {
        session_items.push(intervention(100 + i, SESSION, InterventionState::Allowed, 0));
        pending.push(entry(i, 100 + i, i, OutboxState::Queued));
    }
    assert_eq!(
        pre_model_delivery_gate(limits(), SESSION, &session_items, 10_000_000, None, 0, false, &pending),
        Some("outbox_capacity")
    );
    assert_eq!(
        pre_model_delivery_gate(limits(), SESSION, &session_items, 10_000_000, None, 0, true, &pending),
        None
    );
}

#[test]
fn outbox_enforces_per_session_and_per_user_capacity_without_eviction() {
    let interventions = vec![
        intervention(1, SESSION, InterventionState::Queued, 0),
        intervention(2, SESSION, InterventionState::Queued, 0),
        intervention(3, OTHER_SESSION, InterventionState::Queued, 0),
    ];
    let pending = vec![
        entry(10, 1, 100, OutboxState::Queued),
        entry(11, 2, 101, OutboxState::Queued),
        entry(12, 3, 102, OutboxState::Queued),
        entry(13, 3, 103, OutboxState::Cancelled),
    ];
    assert_eq!(count_queued(&pending, &interventions, SESSION), (3, 2));
    assert_eq!(outbox_admission(&pending, &interventions, SESSION, 200, 20, 2), Err("outbox_capacity"));
    assert_eq!(outbox_admission(&pending, &interventions, OTHER_SESSION, 200, 20, 2), Ok(()));
    assert_eq!(outbox_admission(&pending, &interventions, OTHER_SESSION, 200, 3, 2), Err("outbox_capacity"));
    assert_eq!(
        outbox_admission(&pending, &interventions, OTHER_SESSION, 100, 20, 5),
        Err("delivery_deduplicated")
    );
    assert_eq!(outbox_admission(&pending, &interventions, OTHER_SESSION, 103, 20, 5), Ok(()));
}

#[test]
fn recovery_processes_three_items_per_ten_second_batch() {
    assert!(recovery_batch_due(None, 0, 10_000));
    assert!(!recovery_batch_due(Some(5_000), 14_999, 10_000));
    assert!(recovery_batch_due(Some(5_000), 15_000, 10_000));
    let pending = vec![
        entry(1, 1, 1, OutboxState::Queued),
        entry(2, 2, 2, OutboxState::AcceptedByChannel),
        entry(3, 3, 3, OutboxState::Delivering),
        entry(4, 4, 4, OutboxState::Queued),
        entry(5, 5, 5, OutboxState::Queued),
    ];
    let batch = select_recovery_batch(&pending, 3);
    let ids: Vec<u128> = batch.iter().map(|e| e.id).collect();
    assert_eq!(ids, vec![1, 3, 4]);
    assert_eq!(select_recovery_batch(&pending, 10).len(), 4);
    assert!(select_recovery_batch(&pending, 0).is_empty());
}

#[test]
fn emergency_commands_are_monotonic_and_acknowledge_the_exact_revision() {
    let mut watermark = EmergencyRevision { last_revision: 0 };
    assert!(!watermark.accept(0));
    assert!(watermark.accept(5));
    assert!(!watermark.accept(5));
    assert!(!watermark.accept(4));
    assert!(watermark.accept(6));
    assert_eq!(watermark.last_revision, 6);
}

#[test]
fn emergency_commands_need_a_v7_identifier_and_a_bounded_issue_time() {
    assert!(uuid_is_v7(V7_ID));
    assert!(!uuid_is_v7(V4_ID));
    assert!(!uuid_is_v7(0));
    assert!(emergency_command_is_valid(true, V7_ID, 1_000, 0));
    assert!(!emergency_command_is_valid(true, V7_ID, 1_001, 0));
    assert!(!emergency_command_is_valid(false, V7_ID, 0, 0));
    assert!(!emergency_command_is_valid(true, V4_ID, 0, 0));
}

#[test]
fn retention_sweep_removes_observations_at_and_after_ttl_without_new_ingestion() {
    let stamp = |id: u128, at: i64| ObservationStamp { observation_id: id, grant_id: 1, observed_at: at };
    let observations = vec![stamp(1, 0), stamp(2, 1), stamp(3, 600_001), stamp(4, 100)];
    let (kept, removed) = retain_fresh(&observations, 600_000, 600_000);
    let ids: Vec<u128> = kept.iter().map(|o| o.observation_id).collect();
    assert_eq!(ids, vec![2, 4]);
    assert_eq!(removed, 2);
}

#[test]
fn ending_a_session_cancels_only_its_queued_deliveries() {
    let interventions = vec![
        intervention(1, 0x51, InterventionState::Queued, 10),
        intervention(2, 0x52, InterventionState::Queued, 10),
        intervention(3, 0x51, InterventionState::AcceptedByChannel, 10),
    ];
    let entries = vec![
        entry(10, 1, 100, OutboxState::Queued),
        entry(11, 2, 101, OutboxState::Queued),
        entry(12, 3, 102, OutboxState::AcceptedByChannel),
        entry(13, 1, 103, OutboxState::Queued),
    ];
    let cancelled = outbox_cancellations_for_session(&entries, &interventions, 0x51);
    assert_eq!(cancelled.iter().map(|e| e.id).collect::<Vec<_>>(), vec![10, 13]);
    assert!(cancelled.iter().all(|e| e.state == OutboxState::Cancelled));
    assert!(outbox_cancellations_for_session(&entries, &interventions, 0x53).is_empty());
}

#[test]
fn presence_and_foreground_churn_never_buys_another_significance_evaluation() {
    let horizon = 1_800_000;
    let interval = 60_000;
    let now = 1_000_000;
    let deadline = Some(now + 600_000);
    let context = vec![DataCategory::WorkspaceActivity];
    let mut state = SignificanceState::new();
    assert_eq!(state.significance_gate(deadline, now, 0, horizon, interval, &context), None);
    assert!(!state.note_observation(PermissionScope::ObserveDesktopPresence));
    assert!(!state.note_observation(PermissionScope::ObserveDesktopForegroundApplication));
    assert_eq!(
        state.significance_gate(deadline, now, 120_000, horizon, interval, &context),
        Some("no_relevant_state_change")
    );
    assert_eq!(state.last_significance_evaluation_elapsed, Some(0));
    assert!(state.note_observation(PermissionScope::ObserveWorkspaceActivity));
    assert_eq!(
        state.significance_gate(deadline, now, 30_000, horizon, interval, &context),
        Some("significance_rate_limited")
    );
    assert_eq!(state.last_significance_evaluation_elapsed, Some(0));
    assert_eq!(state.significance_gate(deadline, now, 120_000, horizon, interval, &context), None);
}

#[test]
fn recovery_processes_three_items_per_ten_second_batch_oldest_first() {
    let at = |id: u128, created_at: i64| OutboxEntry { created_at, ..entry(id, id, id, OutboxState::Queued) };
    let pending = vec![at(9, 300), at(4, 100), at(7, 100), at(2, 200)];
    let order: Vec<u128> = sort_for_recovery(&pending).iter().map(|e| e.id).collect();
    assert_eq!(order, vec![4, 7, 2, 9]);

    let mut last = None;
    let first = take_recovery_batch(&mut last, 31_000, 10_000, &pending, 3);
    assert_eq!(first.iter().map(|e| e.id).collect::<Vec<_>>(), vec![4, 7, 2]);
    assert_eq!(last, Some(31_000));
    assert!(take_recovery_batch(&mut last, 31_000, 10_000, &pending, 3).is_empty());
    assert_eq!(last, Some(31_000));
    let remaining = vec![at(9, 300)];
    let later = take_recovery_batch(&mut last, 41_000, 10_000, &remaining, 3);
    assert_eq!(later.iter().map(|e| e.id).collect::<Vec<_>>(), vec![9]);
}

#[test]
fn a_full_outbox_is_refused_for_capacity_not_as_a_duplicate() {
    let interventions = vec![
        InterventionRecord { id: 1, focus_session_id: SESSION, state: InterventionState::Queued, updated_at: 0 },
    ];
    let pending = vec![entry(11, 1, 0xA1, OutboxState::Queued)];
    assert_eq!(outbox_admission(&pending, &interventions, SESSION, 0xB1, 2, 1), Err("outbox_capacity"));
    assert_eq!(outbox_admission(&pending, &interventions, SESSION + 1, 0xB2, 2, 1), Ok(()));
    let full = vec![entry(11, 1, 0xA1, OutboxState::Queued), entry(12, 2, 0xA2, OutboxState::Queued)];
    assert_eq!(outbox_admission(&full, &interventions, SESSION + 2, 0xB3, 2, 1), Err("outbox_capacity"));
    assert_eq!(outbox_admission(&full, &interventions, SESSION + 2, 0xA2, 2, 1), Err("delivery_deduplicated"));
}
