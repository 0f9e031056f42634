use pmc_ledger::action_events::{ActionAuditRows, ActionEventRow, ExecutedChangeRows};
use pmc_ledger::activity::{
    apply_activity_event, fold_action_activity_events, fold_sorted_activity, sort_by_ordinal,
    ActionActivityEvent, ActivityReplay,
};
use pmc_ledger::executions::{AuditEffectRow, ReceiptRow};
use pmc_ledger::load_error::ActionPersistenceLoadError;
use pmc_ledger::model::{
    ActionPersistenceCommand, ActionPersistenceResult, ActionRecord, PreparedIntent, PreparedIntentKind,
    PreparedOperation,
};
use pmc_ledger::prepared_rows::{EffectRow, PayloadRow, PreparedIntentRow, PreparedTransitionRows, SourceRow, TargetRow};
use pmc_ledger::rejections::{RejectionAuditRow, RejectionRows};
use pmc_ledger::states::ActionState;
use pmc_ledger::causes::{ActionPersistenceH3DenialCause, ActionPersistenceTerminalCause};
use pmc_ledger::denials::PrepareDenialRows;
use pmc_ledger::terminal_executions::{ExecuteTerminalRows, PreparedDisposition, TerminalAuditRow};

const REJECTED: &str = "work_management.prepared_intent_rejected";

fn s(text: &str) -> Option<String> {
    Some(text.to_string())
}

fn action(state: ActionState, version: u64) -> ActionRecord {
    ActionRecord {
        id: "act-1".to_string(),
        source_request_id: "req-1".to_string(),
        title: "Ship".to_string(),
        details: "Details".to_string(),
        owner_id: "owner-1".to_string(),
        due_at: 9_000,
        classification: "internal".to_string(),
        state,
        version,
        completion_evidence: Vec::new(),
        transition_reason: None,
        supported_by: None,
        transition_history: Vec::new(),
        source_decision_id: None,
        superseded_premise: false,
    }
}

fn preview(id: &str, operation: PreparedOperation) -> PreparedIntent {
    PreparedIntent {
        id: id.to_string(),
        operation,
        payload_digest: format!("digest-{id}"),
        classification: "internal".to_string(),
        expires_at: 5_000,
        support: None,
        policy: "allowed".to_string(),
        cancellation_policy: "not_cancellable_after_submit".to_string(),
        authority: "head_of_products".to_string(),
    }
}

fn cancel(id: &str, version: u64) -> PreparedIntent {
    preview(id, PreparedOperation::CancelAction { action_id: "act-1".to_string(), action_version: version, reason: "dropped".to_string() })
}

fn state(actions: Vec<ActionRecord>, pending: Vec<PreparedIntent>) -> ActivityReplay {
    ActivityReplay { actions, replay: Vec::new(), pending, discarded: Vec::new() }
}

fn audit(code: &str, occurred_at: i64) -> ActionAuditRows {
    ActionAuditRows {
        id: format!("audit-{occurred_at}"),
        occurred_at,
        correlation_id: "corr-1".to_string(),
        effects: vec![AuditEffectRow {
            ordinal: 0,
            effect_code: code.to_string(),
            scope: "complete".to_string(),
            target_type: "action".to_string(),
            target_id: "act-1".to_string(),
        }],
    }
}

fn row(ordinal: i64, version: i64) -> ActionEventRow {
    ActionEventRow {
        idempotency_id: format!("k-{ordinal}"),
        correlation_id: "corr-1".to_string(),
        ordinal,
        action_id: "act-1".to_string(),
        expected_version: version,
        evidence_id: "ev-1".to_string(),
        evidence_classification: "confidential".to_string(),
    }
}

fn start(ordinal: i64, version: i64) -> ActionActivityEvent {
    ActionActivityEvent::Start { row: row(ordinal, version), audit: audit("action.started", 100 + ordinal) }
}

fn link(ordinal: i64, version: i64) -> ActionActivityEvent {
    ActionActivityEvent::Link {
        row: row(ordinal, version),
        audit: audit("action.completion_evidence_linked", 100 + ordinal),
    }
}

fn rejection(ordinal: i64, id: &str, rows: bool) -> ActionActivityEvent {
    let rejected_at = 900;
    ActionActivityEvent::RejectPrepared {
        ordinal,
        prepared_intent_id: id.to_string(),
        rows: if rows {
            Some(RejectionRows {
                idempotency_id: format!("k-{ordinal}"),
                correlation_id: "corr-1".to_string(),
                ordinal,
                rejected_at,
                audit_event_id: "audit-r".to_string(),
                actor: "head_of_products".to_string(),
                audit: Some(RejectionAuditRow {
                    occurred_at: rejected_at,
                    actor: "head_of_products".to_string(),
                    module: "work_management".to_string(),
                    event_code: REJECTED.to_string(),
                    target_type: "action".to_string(),
                    target_id: "act-1".to_string(),
                    correlation_id: "corr-1".to_string(),
                    policy_outcome: "allowed".to_string(),
                    approval_outcome: "rejected".to_string(),
                    execution_outcome: "not_attempted".to_string(),
                    effect_scope: "none".to_string(),
                    effect_count: 0,
                }),
                prepared_consumed_at: Some(rejected_at),
            })
        } else {
            None
        },
    }
}

fn execution(ordinal: i64, id: &str) -> ActionActivityEvent {
    ActionActivityEvent::ExecuteTransition {
        kind: PreparedIntentKind::CancelAction,
        prepared_intent_id: id.to_string(),
        rows: ExecutedChangeRows {
            idempotency_id: format!("k-{ordinal}"),
            correlation_id: "corr-1".to_string(),
            ordinal,
            actor: "head_of_products".to_string(),
            acknowledged_digest: format!("digest-{id}"),
            receipt: ReceiptRow {
                id: "receipt-1".to_string(),
                actor: "head_of_products".to_string(),
                acknowledged_payload_digest: format!("digest-{id}"),
                idempotency_id: format!("k-{ordinal}"),
                approved_at: 400,
                expires_at: 5_000,
                consumed_at: Some(400),
            },
            prepared_consumed_at: Some(400),
            audit: audit("action.cancelled", 400),
        },
        classification: "internal".to_string(),
    }
}

fn refusal(ordinal: i64, id: &str, disposition: &str) -> ActionActivityEvent {
    let discarded = disposition == "consumed_and_discarded";
    ActionActivityEvent::ExecuteTransitionRefused {
        kind: PreparedIntentKind::CancelAction,
        rows: ExecuteTerminalRows {
            idempotency_id: format!("k-{ordinal}"),
            correlation_id: "corr-1".to_string(),
            ordinal,
            actor: "head_of_products".to_string(),
            acknowledged_digest: format!("digest-{id}"),
            prepared_intent_id: s(id),
            prepared_disposition: disposition.to_string(),
            terminal_cause: s(if discarded { "expired" } else { "prepared_intent_changed" }),
            attempted_digest: None,
            error_code: s("SECURITY_PREVIEW_EXPIRED_OR_CHANGED"),
            error_message_key: s("work_management.preview_expired"),
            error_correlation_id: s("corr-1"),
            error_retryable: Some(0),
            private_detail_ref: None,
            error_params: Vec::new(),
            error_extensions: Vec::new(),
            audit: TerminalAuditRow {
                link_ordinal: 0,
                link_correlation_id: "corr-1".to_string(),
                id: "audit-9".to_string(),
                occurred_at: 700,
                actor: "head_of_products".to_string(),
                module: "work_management".to_string(),
                event_code: "action.cancel_refused".to_string(),
                target_type: "action".to_string(),
                target_id: "act-1".to_string(),
                correlation_id: "corr-1".to_string(),
                effect_scope: "none".to_string(),
                effect_count: 0,
            },
            discarded,
            prepared_consumed_at: if discarded { Some(700) } else { None },
        },
    }
}

fn pending_ids(replayed: &ActivityReplay) -> Vec<&str> {
    replayed.pending.iter().map(|p| p.id.as_str()).collect()
}

fn discarded_ids(replayed: &ActivityReplay) -> Vec<&str> {
    replayed.discarded.iter().map(|p| p.intent.id.as_str()).collect()
}

#[test]
fn events_are_sorted_by_ordinal_keeping_ties_in_order() {
    let sorted = sort_by_ordinal(vec![
        start(5, 1),
        rejection(2, "pi-a", false),
        link(2, 1),
        rejection(0, "pi-b", false),
    ]);
    let ordinals: Vec<i64> = sorted.iter().map(|e| e.ordinal()).collect();
    assert_eq!(ordinals, vec![0, 2, 2, 5]);
    assert!(matches!(sorted[1], ActionActivityEvent::RejectPrepared { .. }));
    assert!(matches!(sorted[2], ActionActivityEvent::Link { .. }));
}

#[test]
fn unsorted_activity_is_replayed_in_ordinal_order() {
    let replayed = fold_action_activity_events(
        state(vec![action(ActionState::Open, 1)], Vec::new()),
        vec![link(4, 2), start(3, 1)],
        REJECTED,
    )
    .unwrap();
    assert_eq!(replayed.actions[0].state, ActionState::InProgress);
    assert_eq!(replayed.actions[0].version, 3);
    assert_eq!(replayed.actions[0].completion_evidence.len(), 1);
    let ordinals: Vec<u64> = replayed.replay.iter().map(|c| c.operation_ordinal).collect();
    assert_eq!(ordinals, vec![3, 4]);
    assert!(matches!(replayed.replay[0].command, ActionPersistenceCommand::StartAction { .. }));
    // In the order given, the link would come before the start and fail.
    assert_eq!(
        fold_sorted_activity(state(vec![action(ActionState::Open, 1)], Vec::new()), vec![link(4, 2), start(3, 1)], REJECTED)
            .map(|_| ()),
        Err(ActionPersistenceLoadError::InvalidActionSnapshot)
    );
}

#[test]
fn consumed_previews_leave_the_pending_set_and_others_stay() {
    let replayed = fold_action_activity_events(
        state(
            vec![action(ActionState::Open, 1)],
            vec![cancel("pi-a", 1), cancel("pi-b", 1), cancel("pi-c", 1)],
        ),
        vec![execution(5, "pi-b"), rejection(4, "pi-a", true)],
        REJECTED,
    )
    .unwrap();
    assert_eq!(pending_ids(&replayed), vec!["pi-c"]);
    assert_eq!(discarded_ids(&replayed), vec!["pi-a"]);
    assert_eq!(replayed.discarded[0].consumed_at, 900);
    // Every preview is accounted for: pi-c pending, pi-a discarded, and
    // pi-b approved by a recorded command.
    assert!(replayed.replay.iter().any(|c| matches!(
        &c.command,
        ActionPersistenceCommand::ExecutePrepared { prepared_id, .. } if prepared_id == "pi-b"
    )));
    assert_eq!(replayed.actions[0].state, ActionState::Cancelled);
    assert_eq!(replayed.actions[0].version, 2);
    assert_eq!(replayed.replay.len(), 2);
}

#[test]
fn rejection_needs_a_pending_preview_and_its_own_rows() {
    let invalid = Err(ActionPersistenceLoadError::InvalidActionSnapshot);
    let mut replay = state(vec![action(ActionState::Open, 1)], vec![cancel("pi-a", 1)]);
    assert_eq!(apply_activity_event(&mut replay, rejection(4, "pi-z", true), REJECTED), invalid);
    assert_eq!(apply_activity_event(&mut replay, rejection(4, "pi-a", false), REJECTED), invalid);
    assert_eq!(apply_activity_event(&mut replay, rejection(4, "pi-a", true), "other.code"), invalid);
    assert_eq!(pending_ids(&replay), vec!["pi-a"]);
    assert_eq!(apply_activity_event(&mut replay, rejection(4, "pi-a", true), REJECTED), Ok(()));
    assert!(replay.pending.is_empty());
    // A preview is rejected once.
    assert_eq!(apply_activity_event(&mut replay, rejection(6, "pi-a", true), REJECTED), invalid);
}

#[test]
fn refusals_keep_or_discard_the_preview() {
    let mut replay = state(vec![action(ActionState::Open, 1)], vec![cancel("pi-a", 1), cancel("pi-b", 1)]);
    assert_eq!(apply_activity_event(&mut replay, refusal(4, "pi-a", "retained"), REJECTED), Ok(()));
    assert_eq!(pending_ids(&replay), vec!["pi-a", "pi-b"]);
    assert_eq!(apply_activity_event(&mut replay, refusal(5, "pi-b", "consumed_and_discarded"), REJECTED), Ok(()));
    assert_eq!(pending_ids(&replay), vec!["pi-a"]);
    assert_eq!(discarded_ids(&replay), vec!["pi-b"]);
    assert_eq!(replay.discarded[0].consumed_at, 700);
    // Each refusal is recorded as its own capsule, with its cause.
    assert_eq!(replay.replay.len(), 2);
    let ordinals: Vec<u64> = replay.replay.iter().map(|c| c.operation_ordinal).collect();
    assert_eq!(ordinals, vec![4, 5]);
    match &replay.replay[1].result {
        ActionPersistenceResult::Refused(refusal) => {
            assert!(matches!(refusal.cause, ActionPersistenceTerminalCause::Expired));
            assert_eq!(refusal.disposition, PreparedDisposition::ConsumedAndDiscarded);
        }
        _ => panic!("a refusal records a Refused result"),
    }
    assert!(matches!(
        &replay.replay[0].command,
        ActionPersistenceCommand::ExecutePrepared { kind: PreparedIntentKind::CancelAction, prepared_id, .. } if prepared_id == "pi-a"
    ));
    // A refusal of a preview that is not pending is an invalid snapshot.
    assert_eq!(
        apply_activity_event(&mut replay, refusal(6, "pi-b", "retained"), REJECTED),
        Err(ActionPersistenceLoadError::InvalidActionSnapshot)
    );
}

#[test]
fn executing_a_preview_that_is_not_pending_is_invalid() {
    let mut replay = state(vec![action(ActionState::Open, 1)], Vec::new());
    assert_eq!(
        apply_activity_event(&mut replay, execution(5, "pi-b"), REJECTED),
        Err(ActionPersistenceLoadError::InvalidActionSnapshot)
    );
    assert_eq!(replay.actions[0].state, ActionState::Open);
}

fn source(ordinal: i64, role: &str, id: Option<&str>) -> SourceRow {
    SourceRow { ordinal, role: role.to_string(), source_id: id.map(|s| s.to_string()), classification: "internal".to_string() }
}

fn cancel_rows(id: &str) -> PreparedTransitionRows {
    PreparedTransitionRows {
        command_action_id: "act-1".to_string(),
        command_expected_version: 1,
        command_reason: s("dropped"),
        command_mode: None,
        judgment_disposition: None,
        judgment_actor: None,
        judgment_rationale: None,
        judgment_classification: None,
        intent: PreparedIntentRow {
            contract_version: 1,
            intent_kind: "cancel_action".to_string(),
            payload_digest: format!("digest-{id}"),
            classification: "internal".to_string(),
            policy: "allowed".to_string(),
            cancellation_policy: "not_cancellable_after_submit".to_string(),
            authority: "head_of_products".to_string(),
            support_id: None,
            confirmation_challenge: None,
            expires_at: 5_000,
            created_at: 1_000,
        },
        payload: PayloadRow {
            primary_id: "act-1".to_string(),
            primary_version: 1,
            created_id: None,
            created_classification: None,
            subject: None,
            details: s("dropped"),
            intended_owner_id: None,
            due_at: None,
            statement: None,
            rationale: None,
            impact: None,
            decision_owner_id: None,
            decided_at: None,
            reopen_mode: None,
            resolution_type: None,
            replacement_id: None,
            replacement_version: None,
            replacement_classification: None,
            replacement_statement: None,
            replacement_rationale: None,
            replacement_impact: None,
            replacement_owner_id: None,
            replacement_decided_at: None,
        },
        targets: vec![TargetRow { ordinal: 0, target_type: "action".to_string(), target_id: "act-1".to_string(), expected_version: 1 }],
        effects: vec![EffectRow {
            ordinal: 0,
            effect_code: "action.cancelled".to_string(),
            target_type: s("action"),
            target_id: s("act-1"),
            secondary_target_type: None,
            secondary_target_id: None,
        }],
        sources: vec![source(0, "primary_target", None)],
        audit_count: 0,
    }
}

fn prepare_cancel(ordinal: i64, id: &str) -> ActionActivityEvent {
    ActionActivityEvent::PrepareTransition {
        kind: PreparedIntentKind::CancelAction,
        idempotency_id: format!("k-{ordinal}"),
        correlation_id: "corr-1".to_string(),
        ordinal,
        prepared_id: id.to_string(),
        rows: cancel_rows(id),
        rebuilt: Some(cancel(id, 1)),
        expected_sources: vec![source(0, "primary_target", None)],
    }
}

#[test]
fn a_prepared_change_becomes_pending_until_rejected() {
    let replayed = fold_action_activity_events(
        state(vec![action(ActionState::Open, 1)], Vec::new()),
        vec![rejection(4, "pi-a", true), prepare_cancel(2, "pi-a")],
        REJECTED,
    )
    .unwrap();
    assert!(replayed.pending.is_empty());
    assert_eq!(discarded_ids(&replayed), vec!["pi-a"]);
    assert!(matches!(replayed.replay[0].command, ActionPersistenceCommand::PrepareActionTransition { .. }));
    assert!(matches!(replayed.replay[1].command, ActionPersistenceCommand::RejectPrepared { .. }));

    let mut replay = state(vec![action(ActionState::Open, 1)], Vec::new());
    assert_eq!(apply_activity_event(&mut replay, prepare_cancel(2, "pi-a"), REJECTED), Ok(()));
    assert_eq!(pending_ids(&replay), vec!["pi-a"]);
    // A preparation on an Action that does not exist is an invalid snapshot.
    let mut empty = state(Vec::new(), Vec::new());
    assert_eq!(
        apply_activity_event(&mut empty, prepare_cancel(2, "pi-a"), REJECTED),
        Err(ActionPersistenceLoadError::InvalidActionSnapshot)
    );
}

fn denial(ordinal: i64) -> ActionActivityEvent {
    ActionActivityEvent::PrepareTransitionDenied {
        kind: PreparedIntentKind::CancelAction,
        rows: PrepareDenialRows {
            idempotency_id: format!("k-{ordinal}"),
            correlation_id: "corr-1".to_string(),
            ordinal,
            action_id: "act-1".to_string(),
            expected_version: 1,
            judgment_disposition: None,
            judgment_actor: None,
            judgment_rationale: None,
            judgment_classification: None,
            reason: s("dropped"),
            mode: None,
            terminal_h3_cause: s("classification_unresolved"),
            error_code: s("SECURITY_POLICY_DENIED"),
            error_message_key: s("work_management.classification_unresolved"),
            error_correlation_id: s("corr-1"),
            error_retryable: Some(0),
            private_detail_ref: None,
            error_params: Vec::new(),
            error_extensions: Vec::new(),
            audit: TerminalAuditRow {
                link_ordinal: 0,
                link_correlation_id: "corr-1".to_string(),
                id: "audit-d".to_string(),
                occurred_at: 650,
                actor: "head_of_products".to_string(),
                module: "work_management".to_string(),
                event_code: "action.cancel_denied".to_string(),
                target_type: "action".to_string(),
                target_id: "act-1".to_string(),
                correlation_id: "corr-1".to_string(),
                effect_scope: "none".to_string(),
                effect_count: 0,
            },
        },
    }
}

#[test]
fn every_replayed_event_records_one_capsule() {
    let replayed = fold_action_activity_events(
        state(vec![action(ActionState::Open, 1)], vec![cancel("pi-a", 1)]),
        vec![refusal(5, "pi-a", "retained"), denial(3), start(4, 1)],
        REJECTED,
    )
    .unwrap();
    let ordinals: Vec<u64> = replayed.replay.iter().map(|c| c.operation_ordinal).collect();
    assert_eq!(ordinals, vec![3, 4, 5]);
    match (&replayed.replay[0].command, &replayed.replay[0].result) {
        (ActionPersistenceCommand::PrepareActionTransition { details, expected_version: 1, .. }, ActionPersistenceResult::Denied(denied)) => {
            assert_eq!(details.reason, Some("dropped".to_string()));
            assert_eq!(denied.cause, ActionPersistenceH3DenialCause::ClassificationUnresolved);
        }
        _ => panic!("a denial records a Denied capsule"),
    }
    assert!(matches!(replayed.replay[2].result, ActionPersistenceResult::Refused(_)));
    assert_eq!(pending_ids(&replayed), vec!["pi-a"]);
}
