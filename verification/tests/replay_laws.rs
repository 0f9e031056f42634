use pmc_ledger::action_events::{replay_executed_change, ActionAuditRows, ExecutedChangeRows};
use pmc_ledger::activity::{apply_activity_event, ActionActivityEvent, ActivityReplay};
use pmc_ledger::approvals::{
    ApproveAndExecuteAcceptActionRequest, ApproveAndExecuteCompleteAction, ApproveAndExecuteLowerActionClassification, ExecutionDecision,
    PrepareAcceptActionRequest, PrepareCompleteAction, PrepareLowerActionClassification, PreparedApproval,
    RejectActionPreparedIntent,
};
use pmc_ledger::errors::ActionOperationContext;
use pmc_ledger::executions::{AuditEffectRow, ReceiptRow};
use pmc_ledger::ledger::{SqliteProductLedger, CURRENT_SCHEMA_VERSION};
use pmc_ledger::lowerings::{
    replay_executed_lowering, replay_prepared_lowering, ExecutedLoweringRows, PreparedLoweringRows,
};
use pmc_ledger::model::{
    ActionMutationOutcome, ActionPersistenceSnapshot, ActionRecord, ActionRequestRecord, ActionTransition, AuditEvent,
    AuditEventCode, AuditTarget, PreparedIntent, PreparedIntentKind, PreparedOperation,
    RejectedPreparedIntentOutcome,
};
use pmc_ledger::prepared_rows::PreparedIntentRow;
use pmc_ledger::rejections::{decode_prepared_intent_rejection, RejectionAuditRow, RejectionRows};
use pmc_ledger::executions::{
    decode_execute_accept, AuditLinkRow, AuditRow, ExecuteAcceptRows, ExecuteReplayRow, RecordedAudit,
};
use pmc_ledger::model::AcceptedActionOutcome;
use pmc_ledger::model::{CreateActionRequestDraft, DeclineActionRequest, SubmitActionRequest};
use pmc_ledger::requests::PersistedTransitionRow;
use pmc_ledger::request_activity::{
    replay_request_activity, CreateCommandRow, RequestActivityRows, RequestReplayRow,
};
use pmc_ledger::states::{ActionRequestState, ActionState};

fn ctx(key: &str) -> ActionOperationContext {
    ActionOperationContext { idempotency_id: key.to_string(), correlation_id: format!("corr-{key}") }
}

fn action(state: ActionState, version: u64, classification: &str) -> ActionRecord {
    ActionRecord {
        id: "act-0".to_string(),
        source_request_id: "req-0".to_string(),
        title: "Ship".to_string(),
        details: "Details".to_string(),
        owner_id: "stakeholder-1".to_string(),
        due_at: 5_000,
        classification: classification.to_string(),
        state,
        version,
        completion_evidence: Vec::new(),
        transition_reason: None,
        supported_by: None,
        transition_history: Vec::new(),
        source_decision_id: None,
        superseded_premise: false,
    }
}

fn ledger() -> SqliteProductLedger {
    let request = ActionRequestRecord {
        id: "req-1".to_string(),
        title: "Ship the roadmap".to_string(),
        details: "Details".to_string(),
        intended_owner: Some("stakeholder-1".to_string()),
        response_due_at: Some(1_000),
        intended_action_due_at: Some(9_000),
        classification: "internal".to_string(),
        state: ActionRequestState::Open,
        version: 2,
        terminal_rationale: None,
        linked_action_id: None,
    };
    let snapshot = ActionPersistenceSnapshot {
        requests: vec![request],
        actions: vec![action(ActionState::InProgress, 2, "confidential")],
        replay: Vec::new(),
        prepared: Vec::new(),
        discarded: Vec::new(),
    };
    SqliteProductLedger::from_parts(CURRENT_SCHEMA_VERSION, 0, snapshot, Vec::new()).unwrap()
}

fn approval(key: &str, prepared: &str) -> PreparedApproval {
    PreparedApproval {
        idempotency_id: key.to_string(),
        prepared_id: prepared.to_string(),
        actor: "head_of_products".to_string(),
        acknowledged_payload_digest: "digest-1".to_string(),
    }
}

fn outcome(record: ActionRecord, code: AuditEventCode, correlation: &str, receipt: &str) -> ActionMutationOutcome<ActionRecord> {
    ActionMutationOutcome {
        record,
        audit_events: vec![AuditEvent {
            id: "a-9".to_string(),
            occurred_at: 700,
            code,
            target: AuditTarget::Action("act-0".to_string()),
            correlation_id: correlation.to_string(),
        }],
        approval_receipt_id: Some(receipt.to_string()),
    }
}

fn audit_rows(correlation: &str, code: &str) -> ActionAuditRows {
    ActionAuditRows {
        id: "a-9".to_string(),
        occurred_at: 700,
        correlation_id: correlation.to_string(),
        effects: vec![AuditEffectRow {
            ordinal: 0,
            effect_code: code.to_string(),
            scope: "complete".to_string(),
            target_type: "action".to_string(),
            target_id: "act-0".to_string(),
        }],
    }
}

fn debug<T: std::fmt::Debug>(value: &T) -> String {
    format!("{value:?}")
}

#[test]
fn recorded_completion_decodes_to_its_capsule() {
    let mut ledger = ledger();
    let preview = PreparedIntent {
        id: "pi-c".to_string(),
        operation: PreparedOperation::CompleteAction { action_id: "act-0".to_string(), action_version: 2 },
        payload_digest: "digest-1".to_string(),
        classification: "confidential".to_string(),
        expires_at: 60_000,
        support: None,
        policy: "allowed".to_string(),
        cancellation_policy: "not_cancellable_after_submit".to_string(),
        authority: "head_of_products".to_string(),
    };
    ledger
        .prepare_complete_action(
            PrepareCompleteAction { context: ctx("c1"), action_id: "act-0".to_string(), expected_version: 2, judgment: None },
            Ok(preview.clone()),
        )
        .unwrap();
    let mut before = ledger.snapshot().actions.clone();
    let mut completed = action(ActionState::Completed, 3, "restricted");
    completed.supported_by = Some("pi-c".to_string());
    completed.transition_history.push(ActionTransition {
        from: ActionState::InProgress,
        to: ActionState::Completed,
        reason: None,
        occurred_at: 700,
        supported_by: Some("pi-c".to_string()),
        approval_receipt_id: Some("receipt-c".to_string()),
    });
    ledger
        .approve_and_execute_complete_action(
            ApproveAndExecuteCompleteAction { context: ctx("x1"), approval: approval("x1", "pi-c") },
            "receipt-c".to_string(),
            ExecutionDecision::Executed(outcome(completed, AuditEventCode::ActionCompleted, "corr-x1", "receipt-c")),
        )
        .unwrap();
    let recorded = ledger.snapshot().replay.last().unwrap();
    let rows = ExecutedChangeRows {
        idempotency_id: "x1".to_string(),
        correlation_id: "corr-x1".to_string(),
        ordinal: recorded.operation_ordinal as i64,
        actor: "head_of_products".to_string(),
        acknowledged_digest: "digest-1".to_string(),
        receipt: ReceiptRow {
            id: "receipt-c".to_string(),
            actor: "head_of_products".to_string(),
            acknowledged_payload_digest: "digest-1".to_string(),
            idempotency_id: "x1".to_string(),
            approved_at: 700,
            expires_at: 60_000,
            consumed_at: Some(700),
        },
        prepared_consumed_at: Some(700),
        audit: audit_rows("corr-x1", "action.completed"),
    };
    let decoded = replay_executed_change(
        PreparedIntentKind::CompleteAction,
        &mut before,
        &preview,
        rows,
        "restricted".to_string(),
    )
    .unwrap();
    assert_eq!(debug(&decoded), debug(recorded));
    assert_eq!(debug(&before), debug(&ledger.snapshot().actions));
}

#[test]
fn recorded_lowering_decodes_to_its_capsules() {
    let mut ledger = ledger();
    let preview = PreparedIntent {
        id: "pi-l".to_string(),
        operation: PreparedOperation::LowerActionClassification {
            action_id: "act-0".to_string(),
            action_version: 2,
            current_classification: "confidential".to_string(),
            proposed_classification: "internal".to_string(),
            rationale: "Public now".to_string(),
        },
        payload_digest: "digest-1".to_string(),
        classification: "confidential".to_string(),
        expires_at: 60_000,
        support: None,
        policy: "allowed".to_string(),
        cancellation_policy: "not_cancellable_after_submit".to_string(),
        authority: "head_of_products".to_string(),
    };
    let mut actions = ledger.snapshot().actions.clone();
    let mut pending: Vec<PreparedIntent> = Vec::new();
    ledger
        .prepare_lower_action_classification(
            PrepareLowerActionClassification {
                context: ctx("l1"),
                action_id: "act-0".to_string(),
                expected_version: 2,
                proposed_classification: "internal".to_string(),
                rationale: "Public now".to_string(),
            },
            preview.clone(),
        )
        .unwrap();
    let prepared_capsule = replay_prepared_lowering(
        &actions,
        &mut pending,
        PreparedLoweringRows {
            idempotency_id: "l1".to_string(),
            correlation_id: "corr-l1".to_string(),
            ordinal: ledger.snapshot().replay[0].operation_ordinal as i64,
            action_id: "act-0".to_string(),
            expected_version: 2,
            proposed_classification: "internal".to_string(),
            rationale: "Public now".to_string(),
            result_reference: "pi-l".to_string(),
            intent: PreparedIntentRow {
                contract_version: 1,
                intent_kind: "lower_action_classification".to_string(),
                payload_digest: "digest-1".to_string(),
                classification: "confidential".to_string(),
                policy: "allowed".to_string(),
                cancellation_policy: "not_cancellable_after_submit".to_string(),
                authority: "head_of_products".to_string(),
                support_id: None,
                confirmation_challenge: None,
                expires_at: 60_000,
                created_at: 100,
            },
        },
        Some(preview.clone()),
    )
    .unwrap();
    assert_eq!(debug(&prepared_capsule), debug(&ledger.snapshot().replay[0]));
    assert_eq!(debug(&pending), debug(&ledger.snapshot().prepared));

    let lowered = action(ActionState::InProgress, 3, "internal");
    ledger
        .approve_and_execute_lower_action_classification(
            ApproveAndExecuteLowerActionClassification { context: ctx("y1"), approval: approval("y1", "pi-l") },
            "receipt-l".to_string(),
            Ok(outcome(lowered, AuditEventCode::ActionClassificationLowered, "corr-y1", "receipt-l")),
        )
        .unwrap();
    let executed_capsule = replay_executed_lowering(
        &mut actions,
        &mut pending,
        ExecutedLoweringRows {
            idempotency_id: "y1".to_string(),
            correlation_id: "corr-y1".to_string(),
            ordinal: ledger.snapshot().replay[1].operation_ordinal as i64,
            action_id: "act-0".to_string(),
            prepared_intent_id: "pi-l".to_string(),
            approval_receipt_id: "receipt-l".to_string(),
            actor: "head_of_products".to_string(),
            acknowledged_digest: "digest-1".to_string(),
            proposed_classification: "internal".to_string(),
            audit: audit_rows("corr-y1", "action.classification_lowered"),
        },
    )
    .unwrap();
    assert_eq!(debug(&executed_capsule), debug(&ledger.snapshot().replay[1]));
    assert_eq!(debug(&actions), debug(&ledger.snapshot().actions));
    assert!(pending.is_empty());
    assert!(ledger.snapshot().prepared.is_empty());
}

#[test]
fn recorded_rejection_decodes_to_its_capsule() {
    let code = "work_management.prepared_intent_rejected";
    let mut ledger = ledger();
    let preview = PreparedIntent {
        id: "pi-1".to_string(),
        operation: PreparedOperation::AcceptActionRequest {
            request_id: "req-1".to_string(),
            request_version: 2,
            action_id: "act-1".to_string(),
            action_classification: "internal".to_string(),
            action_subject: "Ship the roadmap".to_string(),
            commitment_details: "Details".to_string(),
            intended_owner: "stakeholder-1".to_string(),
            intended_due_at: 9_000,
        },
        payload_digest: "digest-1".to_string(),
        classification: "internal".to_string(),
        expires_at: 50_000,
        support: None,
        policy: "allowed".to_string(),
        cancellation_policy: "not_cancellable_after_submit".to_string(),
        authority: "head_of_products".to_string(),
    };
    ledger
        .prepare_accept_action_request(
            PrepareAcceptActionRequest { context: ctx("p1"), request_id: "req-1".to_string(), expected_version: 2 },
            PREVIEW_LIFETIME,
            preview.clone(),
            Some(preview.clone()),
        )
        .unwrap();
    ledger
        .reject_action_prepared_intent(
            RejectActionPreparedIntent {
                context: ctx("r1"),
                prepared_id: "pi-1".to_string(),
                actor: "head_of_products".to_string(),
            },
            "audit-r".to_string(),
            800,
            Ok(RejectedPreparedIntentOutcome {
                prepared_intent_id: "pi-1".to_string(),
                expired: false,
                audit_event_id: "audit-r".to_string(),
                occurred_at: 800,
                target: AuditTarget::ActionRequest("req-1".to_string()),
            }),
        )
        .unwrap();
    let recorded = ledger.snapshot().replay.last().unwrap();
    let rows = RejectionRows {
        idempotency_id: "r1".to_string(),
        correlation_id: "corr-r1".to_string(),
        ordinal: recorded.operation_ordinal as i64,
        rejected_at: 800,
        audit_event_id: "audit-r".to_string(),
        actor: "head_of_products".to_string(),
        audit: Some(RejectionAuditRow {
            occurred_at: 800,
            actor: "head_of_products".to_string(),
            module: "work_management".to_string(),
            event_code: code.to_string(),
            target_type: "action_request".to_string(),
            target_id: "req-1".to_string(),
            correlation_id: "corr-r1".to_string(),
            policy_outcome: "allowed".to_string(),
            approval_outcome: "rejected".to_string(),
            execution_outcome: "not_attempted".to_string(),
            effect_scope: "none".to_string(),
            effect_count: 0,
        }),
        prepared_consumed_at: Some(800),
    };
    let decoded = decode_prepared_intent_rejection(&preview, Some(rows), code).unwrap().unwrap();
    assert_eq!(debug(&decoded), debug(recorded));
}

#[test]
fn recorded_creation_decodes_to_its_capsule() {
    let mut ledger = ledger();
    let created = ledger
        .create_action_request_draft(
            CreateActionRequestDraft {
                context: ctx("n1"),
                id: "req-2".to_string(),
                title: "Plan".to_string(),
                details: "More".to_string(),
                intended_owner: None,
                response_due_at: Some(2_000),
                intended_action_due_at: None,
                classification: "internal".to_string(),
            },
            "audit-n".to_string(),
            150,
        )
        .unwrap();
    let recorded = ledger.snapshot().replay.last().unwrap();
    let rows = RequestActivityRows {
        create: CreateCommandRow {
            idempotency_id: "n1".to_string(),
            request_id: "req-2".to_string(),
            title: "Plan".to_string(),
            details: "More".to_string(),
            intended_owner: None,
            response_due_at: Some(2_000),
            intended_action_due_at: None,
            classification: "internal".to_string(),
        },
        create_replay: RequestReplayRow {
            result_reference: Some("req-2".to_string()),
            correlation_id: "corr-n1".to_string(),
            operation_ordinal: recorded.operation_ordinal as i64,
            result_kind: "request".to_string(),
            prepared_intent_id: None,
            prepared_disposition: "not_applicable".to_string(),
            terminal_cause: None,
            error_code: None,
            error_message_key: None,
            error_correlation_id: None,
            error_retryable: None,
            attempted_digest: None,
            private_detail_ref: None,
        },
        create_audit: RecordedAudit {
            link: AuditLinkRow { ordinal: 0, audit_event_id: "audit-n".to_string(), correlation_id: "corr-n1".to_string() },
            event: AuditRow {
                id: "audit-n".to_string(),
                occurred_at: 150,
                actor: "head_of_products".to_string(),
                module: "work_management".to_string(),
                event_code: "action_request.created".to_string(),
                target_type: "action_request".to_string(),
                target_id: "req-2".to_string(),
                correlation_id: "corr-n1".to_string(),
                policy_outcome: "allowed".to_string(),
                approval_outcome: "not_required".to_string(),
                execution_outcome: "succeeded".to_string(),
                effect_scope: "complete".to_string(),
            },
            effects: vec![AuditEffectRow {
                ordinal: 0,
                effect_code: "action_request.created".to_string(),
                scope: "complete".to_string(),
                target_type: "action_request".to_string(),
                target_id: "req-2".to_string(),
            }],
        },
        transitions: Vec::new(),
        transition_replays: Vec::new(),
        transition_audits: Vec::new(),
    };
    let capsules = replay_request_activity(&created.record, &rows).unwrap();
    assert_eq!(capsules.len(), 1);
    assert_eq!(debug(&capsules[0]), debug(recorded));
}

fn accept_audit(index: i64, id: &str, code: &str, target_type: &str, target_id: &str) -> RecordedAudit {
    RecordedAudit {
        link: AuditLinkRow { ordinal: index, audit_event_id: id.to_string(), correlation_id: "corr-e1".to_string() },
        event: AuditRow {
            id: id.to_string(),
            occurred_at: 700,
            actor: "head_of_products".to_string(),
            module: "work_management".to_string(),
            event_code: code.to_string(),
            target_type: target_type.to_string(),
            target_id: target_id.to_string(),
            correlation_id: "corr-e1".to_string(),
            policy_outcome: "allowed".to_string(),
            approval_outcome: "approved".to_string(),
            execution_outcome: "succeeded".to_string(),
            effect_scope: "complete".to_string(),
        },
        effects: vec![AuditEffectRow {
            ordinal: 0,
            effect_code: code.to_string(),
            scope: "complete".to_string(),
            target_type: target_type.to_string(),
            target_id: target_id.to_string(),
        }],
    }
}

#[test]
fn recorded_acceptance_decodes_to_its_outcome_and_capsule() {
    let mut ledger = ledger();
    let preview = PreparedIntent {
        id: "pi-1".to_string(),
        operation: PreparedOperation::AcceptActionRequest {
            request_id: "req-1".to_string(),
            request_version: 2,
            action_id: "act-1".to_string(),
            action_classification: "internal".to_string(),
            action_subject: "Ship the roadmap".to_string(),
            commitment_details: "Details".to_string(),
            intended_owner: "stakeholder-1".to_string(),
            intended_due_at: 9_000,
        },
        payload_digest: "digest-1".to_string(),
        classification: "internal".to_string(),
        expires_at: 50_000,
        support: None,
        policy: "allowed".to_string(),
        cancellation_policy: "not_cancellable_after_submit".to_string(),
        authority: "head_of_products".to_string(),
    };
    ledger
        .prepare_accept_action_request(
            PrepareAcceptActionRequest { context: ctx("p1"), request_id: "req-1".to_string(), expected_version: 2 },
            PREVIEW_LIFETIME,
            preview.clone(),
            Some(preview.clone()),
        )
        .unwrap();
    let mut request = ledger.snapshot().requests[0].clone();
    request.state = ActionRequestState::Accepted;
    request.version = 3;
    request.linked_action_id = Some("act-1".to_string());
    let mut created = action(ActionState::Open, 1, "internal");
    created.id = "act-1".to_string();
    created.source_request_id = "req-1".to_string();
    let event = |id: &str, code: AuditEventCode, target: AuditTarget| AuditEvent {
        id: id.to_string(),
        occurred_at: 700,
        code,
        target,
        correlation_id: "corr-e1".to_string(),
    };
    let outcome = AcceptedActionOutcome {
        request: request.clone(),
        action: created.clone(),
        audit_events: vec![
            event("a-1", AuditEventCode::ActionRequestAccepted, AuditTarget::ActionRequest("req-1".to_string())),
            event("a-2", AuditEventCode::ActionCreatedFromRequest, AuditTarget::Action("act-1".to_string())),
            event("a-3", AuditEventCode::ActionRequestActionLinked, AuditTarget::ActionRequest("req-1".to_string())),
        ],
        approval_receipt_id: "receipt-1".to_string(),
    };
    let recorded_outcome = ledger
        .approve_and_execute_accept_action_request(
            ApproveAndExecuteAcceptActionRequest { context: ctx("e1"), approval: approval("e1", "pi-1") },
            accept_audit_ids(),
            "receipt-1".to_string(),
            ExecutionDecision::Executed(outcome),
        )
        .unwrap();
    let recorded = ledger.snapshot().replay.last().unwrap();
    let rows = ExecuteAcceptRows {
        idempotency_id: "e1".to_string(),
        actor: "head_of_products".to_string(),
        acknowledged_digest: "digest-1".to_string(),
        replay: ExecuteReplayRow {
            correlation_id: "corr-e1".to_string(),
            operation_ordinal: recorded.operation_ordinal as i64,
            result_kind: "accepted".to_string(),
            result_reference: Some("act-1".to_string()),
            prepared_intent_id: Some("pi-1".to_string()),
            prepared_disposition: "not_applicable".to_string(),
        },
        receipt: ReceiptRow {
            id: "receipt-1".to_string(),
            actor: "head_of_products".to_string(),
            acknowledged_payload_digest: "digest-1".to_string(),
            idempotency_id: "e1".to_string(),
            approved_at: 700,
            expires_at: 50_000,
            consumed_at: Some(700),
        },
        prepared_consumed_at: Some(700),
        audits: vec![
            accept_audit(0, "a-1", "action_request.accepted", "action_request", "req-1"),
            accept_audit(1, "a-2", "action.created_from_request", "action", "act-1"),
            accept_audit(2, "a-3", "action_request.action_linked", "action_request", "req-1"),
        ],
    };
    let (decoded_outcome, decoded_capsule) = decode_execute_accept(&request, &preview, created, rows).unwrap();
    assert_eq!(debug(&decoded_capsule), debug(recorded));
    assert_eq!(debug(&decoded_outcome), debug(&recorded_outcome));
}

fn request_audit(id: &str, correlation: &str, code: &str, occurred_at: i64) -> RecordedAudit {
    RecordedAudit {
        link: AuditLinkRow { ordinal: 0, audit_event_id: id.to_string(), correlation_id: correlation.to_string() },
        event: AuditRow {
            id: id.to_string(),
            occurred_at,
            actor: "head_of_products".to_string(),
            module: "work_management".to_string(),
            event_code: code.to_string(),
            target_type: "action_request".to_string(),
            target_id: "req-1".to_string(),
            correlation_id: correlation.to_string(),
            policy_outcome: "allowed".to_string(),
            approval_outcome: "not_required".to_string(),
            execution_outcome: "succeeded".to_string(),
            effect_scope: "complete".to_string(),
        },
        effects: vec![AuditEffectRow {
            ordinal: 0,
            effect_code: code.to_string(),
            scope: "complete".to_string(),
            target_type: "action_request".to_string(),
            target_id: "req-1".to_string(),
        }],
    }
}

fn request_replay(correlation: &str, ordinal: i64) -> RequestReplayRow {
    RequestReplayRow {
        result_reference: Some("req-1".to_string()),
        correlation_id: correlation.to_string(),
        operation_ordinal: ordinal,
        result_kind: "request".to_string(),
        prepared_intent_id: None,
        prepared_disposition: "not_applicable".to_string(),
        terminal_cause: None,
        error_code: None,
        error_message_key: None,
        error_correlation_id: None,
        error_retryable: None,
        attempted_digest: None,
        private_detail_ref: None,
    }
}

#[test]
fn recorded_request_history_decodes_to_its_capsules() {
    let empty = ActionPersistenceSnapshot { requests: Vec::new(), actions: Vec::new(), replay: Vec::new(), prepared: Vec::new(), discarded: Vec::new() };
    let mut ledger = SqliteProductLedger::from_parts(CURRENT_SCHEMA_VERSION, 0, empty, Vec::new()).unwrap();
    ledger
        .create_action_request_draft(
            CreateActionRequestDraft {
                context: ctx("c0"),
                id: "req-1".to_string(),
                title: "Ship the roadmap".to_string(),
                details: "Details".to_string(),
                intended_owner: Some("stakeholder-1".to_string()),
                response_due_at: Some(1_000),
                intended_action_due_at: Some(9_000),
                classification: "internal".to_string(),
            },
            "audit-c".to_string(),
            10,
        )
        .unwrap();
    ledger
        .submit_action_request(
            SubmitActionRequest { context: ctx("s0"), request_id: "req-1".to_string(), expected_version: 1 },
            "audit-s".to_string(),
            20,
        )
        .unwrap();
    let declined = ledger
        .decline_action_request(
            DeclineActionRequest {
                context: ctx("d1"),
                request_id: "req-1".to_string(),
                expected_version: 2,
                rationale: "Out of scope".to_string(),
            },
            "audit-d".to_string(),
            300,
        )
        .unwrap();
    let recorded = &ledger.snapshot().replay;
    let rows = RequestActivityRows {
        create: CreateCommandRow {
            idempotency_id: "c0".to_string(),
            request_id: "req-1".to_string(),
            title: "Ship the roadmap".to_string(),
            details: "Details".to_string(),
            intended_owner: Some("stakeholder-1".to_string()),
            response_due_at: Some(1_000),
            intended_action_due_at: Some(9_000),
            classification: "internal".to_string(),
        },
        create_replay: request_replay("corr-c0", recorded[0].operation_ordinal as i64),
        create_audit: request_audit("audit-c", "corr-c0", "action_request.created", 10),
        transitions: vec![
            PersistedTransitionRow {
                idempotency_id: "s0".to_string(),
                expected_version: 1,
                target_state: "open".to_string(),
                rationale: None,
            },
            PersistedTransitionRow {
                idempotency_id: "d1".to_string(),
                expected_version: 2,
                target_state: "declined".to_string(),
                rationale: Some("Out of scope".to_string()),
            },
        ],
        transition_replays: vec![
            request_replay("corr-s0", recorded[1].operation_ordinal as i64),
            request_replay("corr-d1", recorded[2].operation_ordinal as i64),
        ],
        transition_audits: vec![
            request_audit("audit-s", "corr-s0", "action_request.submitted", 20),
            request_audit("audit-d", "corr-d1", "action_request.declined", 300),
        ],
    };
    let capsules = replay_request_activity(&declined.record, &rows).unwrap();
    assert_eq!(debug(&capsules), debug(recorded));
}

#[test]
fn recorded_completion_replays_in_order_as_the_ledger_applied_it() {
    let mut ledger = ledger();
    let preview = PreparedIntent {
        id: "pi-c".to_string(),
        operation: PreparedOperation::CompleteAction { action_id: "act-0".to_string(), action_version: 2 },
        payload_digest: "digest-1".to_string(),
        classification: "confidential".to_string(),
        expires_at: 60_000,
        support: None,
        policy: "allowed".to_string(),
        cancellation_policy: "not_cancellable_after_submit".to_string(),
        authority: "head_of_products".to_string(),
    };
    ledger
        .prepare_complete_action(
            PrepareCompleteAction { context: ctx("c1"), action_id: "act-0".to_string(), expected_version: 2, judgment: None },
            Ok(preview.clone()),
        )
        .unwrap();
    let mut replay = ActivityReplay {
        actions: ledger.snapshot().actions.clone(),
        replay: Vec::new(),
        pending: ledger.snapshot().prepared.clone(),
        discarded: Vec::new(),
    };
    let mut completed = action(ActionState::Completed, 3, "restricted");
    completed.supported_by = Some("pi-c".to_string());
    completed.transition_history.push(ActionTransition {
        from: ActionState::InProgress,
        to: ActionState::Completed,
        reason: None,
        occurred_at: 700,
        supported_by: Some("pi-c".to_string()),
        approval_receipt_id: Some("receipt-c".to_string()),
    });
    ledger
        .approve_and_execute_complete_action(
            ApproveAndExecuteCompleteAction { context: ctx("x1"), approval: approval("x1", "pi-c") },
            "receipt-c".to_string(),
            ExecutionDecision::Executed(outcome(completed, AuditEventCode::ActionCompleted, "corr-x1", "receipt-c")),
        )
        .unwrap();
    let recorded = ledger.snapshot().replay.last().unwrap();
    let rows = ExecutedChangeRows {
        idempotency_id: "x1".to_string(),
        correlation_id: "corr-x1".to_string(),
        ordinal: recorded.operation_ordinal as i64,
        actor: "head_of_products".to_string(),
        acknowledged_digest: "digest-1".to_string(),
        receipt: ReceiptRow {
            id: "receipt-c".to_string(),
            actor: "head_of_products".to_string(),
            acknowledged_payload_digest: "digest-1".to_string(),
            idempotency_id: "x1".to_string(),
            approved_at: 700,
            expires_at: 60_000,
            consumed_at: Some(700),
        },
        prepared_consumed_at: Some(700),
        audit: audit_rows("corr-x1", "action.completed"),
    };
    let event = ActionActivityEvent::ExecuteTransition {
        kind: PreparedIntentKind::CompleteAction,
        prepared_intent_id: "pi-c".to_string(),
        rows,
        classification: "restricted".to_string(),
    };
    apply_activity_event(&mut replay, event, "work_management.prepared_intent_rejected").unwrap();
    assert_eq!(debug(&replay.actions), debug(&ledger.snapshot().actions));
    assert_eq!(debug(&replay.pending), debug(&ledger.snapshot().prepared));
    assert_eq!(debug(replay.replay.last().unwrap()), debug(recorded));
}

fn accept_audit_ids() -> [String; 3] {
    ["a-1".to_string(), "a-2".to_string(), "a-3".to_string()]
}

/// The lifetime the previews of these tests were prepared with.
const PREVIEW_LIFETIME: i64 = 20_000;
