use stein_ipc::admission::{require_private, ClientAssurance};
use stein_ipc::errors::SecondMindErrorCode;
use stein_ipc::goals::{apply_goal_patch, CreateGoal, GoalLedger, GoalPatch, UpdateGoal};
use stein_ipc::model::{Goal, GoalState};

const OWNER: u128 = 0xA;
const STRANGER: u128 = 0xB;
const PRIVATE: ClientAssurance = ClientAssurance::PrivateCapabilityBound;

fn create(key: u128, title: &str) -> CreateGoal {
    CreateGoal {
        actor: OWNER,
        idempotency_key: key,
        title: title.to_owned(),
        success_statement: "The release ledger balances.".to_owned(),
        deadline: Some(10_000),
    }
}

#[test]
fn created_goal_reads_back_and_lists_for_its_owner_only() {
    let mut ledger = GoalLedger::new();
    let goal = ledger.create_goal(PRIVATE, create(1, "Ship the checksum"), 500, 100).unwrap();
    assert_eq!(goal.id, 100);
    assert_eq!(goal.owner, OWNER);
    assert_eq!(goal.state, GoalState::Active);
    assert_eq!(goal.revision, 1);
    assert_eq!(goal.created_at, 500);
    assert_eq!(goal.updated_at, 500);
    assert_eq!(ledger.get_goal(OWNER, 100), Ok(goal.clone()));
    let missing = ledger.get_goal(STRANGER, 100).unwrap_err();
    assert_eq!(missing.code, SecondMindErrorCode::NotFound);
    assert_eq!(missing.summary, "The goal was not found.");
    assert_eq!(ledger.list_goals(OWNER), vec![goal]);
    assert!(ledger.list_goals(STRANGER).is_empty());
}

#[test]
fn idempotent_replay_returns_the_original_goal_and_different_input_conflicts() {
    let mut ledger = GoalLedger::new();
    let first = ledger.create_goal(PRIVATE, create(7, "Review the draft"), 1, 200).unwrap();
    let replay = ledger.create_goal(PRIVATE, create(7, "Review the draft"), 99, 201).unwrap();
    assert_eq!(replay, first);
    assert_eq!(ledger.list_goals(OWNER).len(), 1);
    let conflict = ledger.create_goal(PRIVATE, create(7, "Something else"), 99, 202).unwrap_err();
    assert_eq!(conflict.code, SecondMindErrorCode::Conflict);
    assert_eq!(conflict.summary, "The idempotency key was already used for different input.");
    let reused = ledger.create_goal(PRIVATE, create(8, "Another"), 99, 200).unwrap_err();
    assert_eq!(reused.code, SecondMindErrorCode::Conflict);
}

#[test]
fn diagnostic_client_cannot_read_or_mutate_private_state() {
    let mut ledger = GoalLedger::new();
    let error = ledger
        .create_goal(ClientAssurance::Diagnostic, create(1, "Private synthetic goal"), 0, 1)
        .unwrap_err();
    assert_eq!(error.code, SecondMindErrorCode::PermissionDenied);
    assert!(ledger.list_goals(OWNER).is_empty());
    assert!(require_private(ClientAssurance::Diagnostic).is_err());
    assert_eq!(require_private(PRIVATE), Ok(()));
    assert_eq!(require_private(ClientAssurance::NativeEmergencyControl), Ok(()));
}

#[test]
fn goal_text_is_validated_before_storage() {
    let mut ledger = GoalLedger::new();
    let error = ledger.create_goal(PRIVATE, create(1, "   "), 0, 1).unwrap_err();
    assert_eq!(error.code, SecondMindErrorCode::InvalidArgument);
    assert_eq!(error.summary, "Goal title is invalid.");
    let long = "t".repeat(201);
    assert!(ledger.create_goal(PRIVATE, create(1, &long), 0, 1).is_err());
    let mut bad_statement = create(1, "Fine");
    bad_statement.success_statement = "line\u{1}".to_owned();
    assert_eq!(
        ledger.create_goal(PRIVATE, bad_statement, 0, 1).unwrap_err().summary,
        "Goal success statement is invalid."
    );
    assert!(ledger.list_goals(OWNER).is_empty());
}

#[test]
fn update_checks_revision_and_applies_the_patch() {
    let mut ledger = GoalLedger::new();
    ledger.create_goal(PRIVATE, create(1, "Old title"), 0, 1).unwrap();
    let patch = GoalPatch { title: Some("New title".to_owned()), success_statement: None, deadline: Some(None) };
    let stale = ledger
        .update_goal(PRIVATE, UpdateGoal { actor: OWNER, id: 1, expected_revision: 2, patch: patch.clone() }, 5)
        .unwrap_err();
    assert_eq!(stale.code, SecondMindErrorCode::Conflict);
    assert_eq!(stale.current_revision, Some(1));
    assert!(!stale.retryable);
    assert_eq!(stale.summary, "The record changed; refresh and retry.");
    let updated = ledger
        .update_goal(PRIVATE, UpdateGoal { actor: OWNER, id: 1, expected_revision: 1, patch }, 5)
        .unwrap();
    assert_eq!(updated.title, "New title");
    assert_eq!(updated.deadline, None);
    assert_eq!(updated.revision, 2);
    assert_eq!(updated.updated_at, 5);
    assert_eq!(updated.created_at, 0);
    assert_eq!(ledger.get_goal(OWNER, 1), Ok(updated));
    let empty = GoalPatch { title: None, success_statement: None, deadline: None };
    assert!(empty.is_empty());
    let error = ledger
        .update_goal(PRIVATE, UpdateGoal { actor: OWNER, id: 1, expected_revision: 2, patch: empty }, 6)
        .unwrap_err();
    assert_eq!(error.summary, "A goal patch cannot be empty.");
    let not_mine = ledger
        .update_goal(
            PRIVATE,
            UpdateGoal {
                actor: STRANGER,
                id: 1,
                expected_revision: 2,
                patch: GoalPatch { title: Some("x".to_owned()), success_statement: None, deadline: None },
            },
            6,
        )
        .unwrap_err();
    assert_eq!(not_mine.code, SecondMindErrorCode::NotFound);
}

#[test]
fn terminal_transitions_are_revision_checked_and_never_reactivate() {
    let mut ledger = GoalLedger::new();
    ledger.create_goal(PRIVATE, create(1, "Finish"), 0, 1).unwrap();
    let error = ledger.set_goal_state(PRIVATE, OWNER, 1, 1, GoalState::Active, 3).unwrap_err();
    assert_eq!(error.summary, "A terminal goal command must complete or abandon the goal.");
    let done = ledger.set_goal_state(PRIVATE, OWNER, 1, 1, GoalState::Completed, 3).unwrap();
    assert_eq!(done.state, GoalState::Completed);
    assert_eq!(done.revision, 2);
    assert_eq!(done.updated_at, 3);
    let stale = ledger.set_goal_state(PRIVATE, OWNER, 1, 1, GoalState::Abandoned, 4).unwrap_err();
    assert_eq!(stale.current_revision, Some(2));
    assert_eq!(
        ledger.set_goal_state(ClientAssurance::Diagnostic, OWNER, 1, 2, GoalState::Abandoned, 4)
            .unwrap_err()
            .code,
        SecondMindErrorCode::PermissionDenied
    );
}

#[test]
fn patch_replaces_only_named_fields() {
    let mut goal = Goal {
        id: 1,
        owner: OWNER,
        title: "T".to_owned(),
        success_statement: "S".to_owned(),
        deadline: Some(4),
        state: GoalState::Active,
        revision: 3,
        created_at: 0,
        updated_at: 0,
    };
    apply_goal_patch(
        &mut goal,
        GoalPatch { title: None, success_statement: Some("S2".to_owned()), deadline: None },
    );
    assert_eq!(goal.title, "T");
    assert_eq!(goal.success_statement, "S2");
    assert_eq!(goal.deadline, Some(4));
    assert_eq!(goal.revision, 3);
}
