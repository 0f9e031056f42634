use pmc_ledger::action_events::ActionAuditRows;
use pmc_ledger::executions::AuditEffectRow;
use pmc_ledger::load_error::ActionPersistenceLoadError;
use pmc_ledger::lowerings::{
    encode_prepared_lowering, replay_executed_lowering, replay_prepared_lowering, ExecutedLoweringRows,
    PreparedLoweringRows,
};
use pmc_ledger::model::{
    ActionPersistenceCommand, ActionPersistenceResult, ActionRecord, AuditEventCode, PreparedIntent,
    PreparedIntentKind, PreparedOperation,
};
use pmc_ledger::prepared_rows::PreparedIntentRow;
use pmc_ledger::states::ActionState;

fn action(version: u64, classification: &str) -> ActionRecord {
    ActionRecord {
        id: "act-1".to_string(),
        source_request_id: "req-1".to_string(),
        title: "Ship".to_string(),
        details: "Details".to_string(),
        owner_id: "owner-1".to_string(),
        due_at: 9_000,
        classification: classification.to_string(),
        state: ActionState::InProgress,
        version,
        completion_evidence: Vec::new(),
        transition_reason: None,
        supported_by: None,
        transition_history: Vec::new(),
        source_decision_id: None,
        superseded_premise: false,
    }
}

fn intent_row() -> PreparedIntentRow {
    PreparedIntentRow {
        contract_version: 1,
        intent_kind: "lower_action_classification".to_string(),
        payload_digest: "digest-1".to_string(),
        classification: "confidential".to_string(),
        policy: "allowed".to_string(),
        cancellation_policy: "not_cancellable_after_submit".to_string(),
        authority: "head_of_products".to_string(),
        support_id: None,
        confirmation_challenge: None,
        expires_at: 5_000,
        created_at: 100,
    }
}

fn prepare_rows(version: i64) -> PreparedLoweringRows {
    PreparedLoweringRows {
        idempotency_id: "k-1".to_string(),
        correlation_id: "corr-1".to_string(),
        ordinal: 3,
        action_id: "act-1".to_string(),
        expected_version: version,
        proposed_classification: "internal".to_string(),
        rationale: "Public now".to_string(),
        result_reference: "prep-1".to_string(),
        intent: intent_row(),
    }
}

fn rebuilt(version: u64, current: &str) -> PreparedIntent {
    PreparedIntent {
        id: "prep-1".to_string(),
        operation: PreparedOperation::LowerActionClassification {
            action_id: "act-1".to_string(),
            action_version: version,
            current_classification: current.to_string(),
            proposed_classification: "internal".to_string(),
            rationale: "Public now".to_string(),
        },
        payload_digest: "digest-1".to_string(),
        classification: "confidential".to_string(),
        expires_at: 5_000,
        support: None,
        policy: "allowed".to_string(),
        cancellation_policy: "not_cancellable_after_submit".to_string(),
        authority: "head_of_products".to_string(),
    }
}

fn execute_rows(code: &str) -> ExecutedLoweringRows {
    ExecutedLoweringRows {
        idempotency_id: "k-2".to_string(),
        correlation_id: "corr-2".to_string(),
        ordinal: 4,
        action_id: "act-1".to_string(),
        prepared_intent_id: "prep-1".to_string(),
        approval_receipt_id: "receipt-1".to_string(),
        actor: "head_of_products".to_string(),
        acknowledged_digest: "digest-1".to_string(),
        proposed_classification: "internal".to_string(),
        audit: ActionAuditRows {
            id: "audit-4".to_string(),
            occurred_at: 800,
            correlation_id: "corr-2".to_string(),
            effects: vec![AuditEffectRow {
                ordinal: 0,
                effect_code: code.to_string(),
                scope: "complete".to_string(),
                target_type: "action".to_string(),
                target_id: "act-1".to_string(),
            }],
        },
    }
}

#[test]
fn prepared_then_executed_lowering_replays() {
    let mut actions = vec![action(2, "confidential")];
    let mut pending = Vec::new();
    let capsule =
        replay_prepared_lowering(&actions, &mut pending, prepare_rows(2), Some(rebuilt(2, "confidential"))).unwrap();
    assert_eq!(pending.len(), 1);
    assert_eq!(pending[0].id, "prep-1");
    assert_eq!(capsule.operation_ordinal, 3);
    assert!(matches!(
        &capsule.command,
        ActionPersistenceCommand::PrepareLowerClassification { expected_version: 2, proposed_classification, .. }
            if proposed_classification == "internal"
    ));
    assert!(matches!(&capsule.result, ActionPersistenceResult::Prepared(intent) if intent.id == "prep-1"));

    let capsule = replay_executed_lowering(&mut actions, &mut pending, execute_rows("action.classification_lowered")).unwrap();
    assert!(pending.is_empty());
    assert_eq!(actions[0].version, 3);
    assert_eq!(actions[0].classification, "internal");
    assert_eq!(actions[0].state, ActionState::InProgress);
    match &capsule.command {
        ActionPersistenceCommand::ExecutePrepared { kind, prepared_id, .. } => {
            assert_eq!(*kind, PreparedIntentKind::LowerActionClassification);
            assert_eq!(prepared_id, "prep-1");
        }
        _ => panic!("an executed lowering records an ExecutePrepared command"),
    }
    match &capsule.result {
        ActionPersistenceResult::Action(outcome) => {
            assert_eq!(outcome.audit_events[0].code, AuditEventCode::ActionClassificationLowered);
            assert_eq!(outcome.approval_receipt_id, Some("receipt-1".to_string()));
        }
        _ => panic!("an executed lowering records an Action outcome"),
    }
}

#[test]
fn prepared_lowering_refusals_keep_pending_unchanged() {
    let invalid = Err(ActionPersistenceLoadError::InvalidActionSnapshot);
    let actions = vec![action(2, "confidential")];
    let mut pending = Vec::new();
    // The Action is at another version.
    let stale = replay_prepared_lowering(&actions, &mut pending, prepare_rows(1), Some(rebuilt(1, "confidential")));
    assert_eq!(stale.map(|_| ()), invalid);
    // The domain rebuilt no preview.
    assert_eq!(replay_prepared_lowering(&actions, &mut pending, prepare_rows(2), None).map(|_| ()), invalid);
    // The rebuilt preview names another current classification.
    let other = replay_prepared_lowering(&actions, &mut pending, prepare_rows(2), Some(rebuilt(2, "restricted")));
    assert_eq!(other.map(|_| ()), invalid);
    // The preview row expires before it was created.
    let mut rows = prepare_rows(2);
    rows.intent.expires_at = 50;
    let expired = replay_prepared_lowering(&actions, &mut pending, rows, Some(rebuilt(2, "confidential")));
    assert_eq!(expired.map(|_| ()), invalid);
    assert!(pending.is_empty());
    // The same preview cannot be pending twice.
    replay_prepared_lowering(&actions, &mut pending, prepare_rows(2), Some(rebuilt(2, "confidential"))).unwrap();
    let twice = replay_prepared_lowering(&actions, &mut pending, prepare_rows(2), Some(rebuilt(2, "confidential")));
    assert_eq!(twice.map(|_| ()), invalid);
    assert_eq!(pending.len(), 1);
}

#[test]
fn executed_lowering_refusals_change_nothing() {
    let invalid = Err(ActionPersistenceLoadError::InvalidActionSnapshot);
    let mut actions = vec![action(2, "confidential")];
    let mut pending = vec![rebuilt(2, "confidential")];
    let wrong_effect = replay_executed_lowering(&mut actions, &mut pending, execute_rows("action.completed"));
    assert_eq!(wrong_effect.map(|_| ()), invalid);
    let mut rows = execute_rows("action.classification_lowered");
    rows.actor = "someone_else".to_string();
    assert_eq!(replay_executed_lowering(&mut actions, &mut pending, rows).map(|_| ()), invalid);
    let mut rows = execute_rows("action.classification_lowered");
    rows.action_id = "act-9".to_string();
    rows.audit.effects[0].target_id = "act-9".to_string();
    assert_eq!(replay_executed_lowering(&mut actions, &mut pending, rows).map(|_| ()), invalid);
    assert_eq!(actions[0].version, 2);
    assert_eq!(actions[0].classification, "confidential");
    assert_eq!(pending.len(), 1);
}

#[test]
fn encoded_lowering_preparation_replays() {
    let actions = vec![action(2, "confidential")];
    let preview = rebuilt(2, "confidential");
    let rows = encode_prepared_lowering(&preview, &"k-l".to_string(), &"corr-l".to_string(), 8, 100);
    assert_eq!(rows.intent.intent_kind, "lower_action_classification");
    assert_eq!(rows.expected_version, 2);
    let mut pending = Vec::new();
    let capsule = replay_prepared_lowering(&actions, &mut pending, rows, Some(rebuilt(2, "confidential"))).unwrap();
    assert_eq!(pending.len(), 1);
    assert_eq!(capsule.idempotency_id, "k-l");
    assert_eq!(capsule.operation_ordinal, 8);
    assert!(matches!(capsule.result, ActionPersistenceResult::Prepared(_)));
}
