use pmc_ledger::approvals::{
    ApproveAndExecuteAcceptActionRequest, ApproveAndExecuteCancelAction,
    ApproveAndExecuteCompleteAction, ApproveAndExecuteLowerActionClassification,
    ApproveAndExecuteReopenAction, ExecutionDecision, PrepareAcceptActionRequest,
    PrepareCancelAction, PrepareCompleteAction, PrepareLowerActionClassification,
    PrepareReopenAction, PreparedApproval, RejectActionPreparedIntent, preview_creation_time,
};
use pmc_ledger::errors::{ActionOperationContext, DomainError, DomainErrorKind};
use pmc_ledger::ledger::{SqliteProductLedger, CURRENT_SCHEMA_VERSION};
use pmc_ledger::model::{
    AcceptedActionOutcome, ActionMutationOutcome, ActionPersistenceCommand, ActionPersistenceResult,
    ActionPersistenceSnapshot, ActionRecord, ActionRequestRecord, AuditEvent, AuditEventCode,
    AuditTarget, PreparedIntent, PreparedOperation, RejectedPreparedIntentOutcome, TerminalRecord,
};
use pmc_ledger::causes::ActionPersistenceTerminalCause;
use pmc_ledger::terminal_executions::PreparedDisposition;
use pmc_ledger::states::{ActionReopenMode, ActionRequestState, ActionState};

fn ctx(key: &str) -> ActionOperationContext {
    ActionOperationContext { idempotency_id: key.to_string(), correlation_id: format!("corr-{key}") }
}

fn open_request() -> ActionRequestRecord {
    ActionRequestRecord {
        id: "req-1".to_string(),
        title: "Ship the roadmap".to_string(),
        details: "Details".to_string(),
        intended_owner: Some("stakeholder-1".to_string()),
        response_due_at: Some(1_000),
        intended_action_due_at: Some(9_000),
        classification: "internal".to_string(),
        state: ActionRequestState::Open,
        version: 2,
        terminal_rationale: None,
        linked_action_id: None,
    }
}

fn action(id: &str, state: ActionState, version: u64) -> ActionRecord {
    ActionRecord {
        id: id.to_string(),
        source_request_id: "req-0".to_string(),
        title: "Ship".to_string(),
        details: "Details".to_string(),
        owner_id: "stakeholder-1".to_string(),
        due_at: 5_000,
        classification: "confidential".to_string(),
        state,
        version,
        completion_evidence: Vec::new(),
        transition_reason: None,
        supported_by: None,
        transition_history: Vec::new(),
        source_decision_id: None,
        superseded_premise: false,
    }
}

fn ledger() -> SqliteProductLedger {
    let snapshot = ActionPersistenceSnapshot {
        requests: vec![open_request()],
        actions: vec![action("act-0", ActionState::InProgress, 2)],
        replay: Vec::new(),
        prepared: Vec::new(),
        discarded: Vec::new(),
    };
    SqliteProductLedger::from_parts(CURRENT_SCHEMA_VERSION, 0, snapshot, Vec::new()).unwrap()
}

fn accept_preview(id: &str) -> PreparedIntent {
    PreparedIntent {
        id: id.to_string(),
        operation: PreparedOperation::AcceptActionRequest {
            request_id: "req-1".to_string(),
            request_version: 2,
            action_id: "act-1".to_string(),
            action_classification: "internal".to_string(),
            action_subject: "Ship the roadmap".to_string(),
            commitment_details: "Details".to_string(),
            intended_owner: "stakeholder-1".to_string(),
            intended_due_at: 9_000,
        },
        payload_digest: "digest-1".to_string(),
        classification: "internal".to_string(),
        expires_at: 50_000,
        support: None,
        policy: "allowed".to_string(),
        cancellation_policy: "not_cancellable_after_submit".to_string(),
        authority: "head_of_products".to_string(),
    }
}

fn prepare_accept(key: &str) -> PrepareAcceptActionRequest {
    PrepareAcceptActionRequest { context: ctx(key), request_id: "req-1".to_string(), expected_version: 2 }
}

fn approval(key: &str, prepared: &str) -> PreparedApproval {
    PreparedApproval {
        idempotency_id: key.to_string(),
        prepared_id: prepared.to_string(),
        actor: "head_of_products".to_string(),
        acknowledged_payload_digest: "digest-1".to_string(),
    }
}

fn audit(id: &str, code: AuditEventCode, target: AuditTarget) -> AuditEvent {
    AuditEvent { id: id.to_string(), occurred_at: 700, code, target, correlation_id: "corr-x".to_string() }
}

fn accepted_outcome() -> AcceptedActionOutcome {
    let mut request = open_request();
    request.state = ActionRequestState::Accepted;
    request.version = 3;
    request.linked_action_id = Some("act-1".to_string());
    let mut created = action("act-1", ActionState::Open, 1);
    created.source_request_id = "req-1".to_string();
    AcceptedActionOutcome {
        request,
        action: created,
        audit_events: vec![
            audit("a-1", AuditEventCode::ActionRequestAccepted, AuditTarget::ActionRequest("req-1".to_string())),
            audit("a-2", AuditEventCode::ActionCreatedFromRequest, AuditTarget::Action("act-1".to_string())),
            audit("a-3", AuditEventCode::ActionRequestActionLinked, AuditTarget::ActionRequest("req-1".to_string())),
        ],
        approval_receipt_id: "receipt-1".to_string(),
    }
}

fn refusal(kind: DomainErrorKind, key: &str) -> DomainError {
    DomainError {
        kind,
        correlation_id: format!("corr-{key}"),
        current_version: None,
        current_state: None,
        allowed_next_intents: Vec::new(),
    }
}

#[test]
fn prepare_and_execute_acceptance() {
    let mut ledger = ledger();
    let prepared = ledger
        .prepare_accept_action_request(prepare_accept("p1"), PREVIEW_LIFETIME, accept_preview("pi-1"), Some(accept_preview("pi-1")))
        .unwrap();
    assert_eq!(prepared.id, "pi-1");
    assert_eq!(ledger.revision(), 1);
    assert_eq!(ledger.snapshot().prepared.len(), 1);
    assert!(matches!(ledger.snapshot().replay[0].result, ActionPersistenceResult::Prepared(_)));

    // The same command with the same preview replays; another preview conflicts.
    let again = ledger
        .prepare_accept_action_request(prepare_accept("p1"), PREVIEW_LIFETIME, accept_preview("pi-1"), None)
        .unwrap();
    assert_eq!(again.id, "pi-1");
    let other = ledger
        .prepare_accept_action_request(prepare_accept("p1"), PREVIEW_LIFETIME, accept_preview("pi-2"), None)
        .unwrap_err();
    assert_eq!(other.kind, DomainErrorKind::IdempotencyConflict);
    assert_eq!(ledger.revision(), 1);

    let accepted = ledger
        .approve_and_execute_accept_action_request(
            ApproveAndExecuteAcceptActionRequest { context: ctx("e1"), approval: approval("e1", "pi-1") },
            accept_audit_ids(),
            "receipt-1".to_string(),
            ExecutionDecision::Executed(accepted_outcome()),
        )
        .unwrap();
    assert_eq!(accepted.action.id, "act-1");
    assert_eq!(ledger.revision(), 2);
    assert_eq!(ledger.snapshot().requests[0].state, ActionRequestState::Accepted);
    assert_eq!(ledger.snapshot().requests[0].linked_action_id.as_deref(), Some("act-1"));
    assert_eq!(ledger.snapshot().actions.len(), 2);
    assert!(ledger.snapshot().prepared.is_empty());
    assert!(ledger.snapshot().discarded.is_empty());

    // Replaying the approval returns the accepted outcome whatever the domain now says.
    let replayed = ledger
        .approve_and_execute_accept_action_request(
            ApproveAndExecuteAcceptActionRequest { context: ctx("e1"), approval: approval("e1", "pi-1") },
            accept_audit_ids(),
            "receipt-9".to_string(),
            ExecutionDecision::Refused(refusal(DomainErrorKind::TransitionConflict, "e1")),
        )
        .unwrap();
    assert_eq!(replayed.approval_receipt_id, "receipt-1");
    assert_eq!(ledger.revision(), 2);
}

#[test]
fn prepare_accept_refusals() {
    let mut ledger = ledger();
    let stale = PrepareAcceptActionRequest { context: ctx("p1"), request_id: "req-1".to_string(), expected_version: 1 };
    let error = ledger.prepare_accept_action_request(stale, PREVIEW_LIFETIME, accept_preview("pi-1"), Some(accept_preview("pi-1"))).unwrap_err();
    assert_eq!(error.kind, DomainErrorKind::TransitionConflict);
    assert_eq!(error.current_version, Some(2));
    assert_eq!(error.current_state, Some(ActionRequestState::Open));

    let missing = PrepareAcceptActionRequest { context: ctx("p2"), request_id: "req-9".to_string(), expected_version: 2 };
    let error = ledger.prepare_accept_action_request(missing, PREVIEW_LIFETIME, accept_preview("pi-1"), None).unwrap_err();
    assert_eq!(error.kind, DomainErrorKind::NotFound);

    // A preview that is not the canonical one is a persistence failure.
    let error = ledger.prepare_accept_action_request(prepare_accept("p3"), PREVIEW_LIFETIME, accept_preview("pi-1"), None).unwrap_err();
    assert_eq!(error.kind, DomainErrorKind::Persistence);
    let mut changed = accept_preview("pi-1");
    changed.payload_digest = "other".to_string();
    let error = ledger
        .prepare_accept_action_request(prepare_accept("p4"), PREVIEW_LIFETIME, accept_preview("pi-1"), Some(changed))
        .unwrap_err();
    assert_eq!(error.kind, DomainErrorKind::Persistence);
    assert_eq!(ledger.revision(), 0);
    assert!(ledger.snapshot().replay.is_empty());
}

#[test]
fn execute_acceptance_refusals() {
    let mut ledger = ledger();
    ledger
        .prepare_accept_action_request(prepare_accept("p1"), PREVIEW_LIFETIME, accept_preview("pi-1"), Some(accept_preview("pi-1")))
        .unwrap();
    // An approval issued for another key conflicts.
    let error = ledger
        .approve_and_execute_accept_action_request(
            ApproveAndExecuteAcceptActionRequest { context: ctx("e1"), approval: approval("e2", "pi-1") },
            accept_audit_ids(),
            "receipt-1".to_string(),
            ExecutionDecision::Executed(accepted_outcome()),
        )
        .unwrap_err();
    assert_eq!(error.kind, DomainErrorKind::IdempotencyConflict);
    // A key recorded for the preparation conflicts with an execution.
    let error = ledger
        .approve_and_execute_accept_action_request(
            ApproveAndExecuteAcceptActionRequest { context: ctx("p1"), approval: approval("p1", "pi-1") },
            accept_audit_ids(),
            "receipt-1".to_string(),
            ExecutionDecision::Executed(accepted_outcome()),
        )
        .unwrap_err();
    assert_eq!(error.kind, DomainErrorKind::IdempotencyConflict);
    // A receipt other than the minted one is a persistence failure.
    let error = ledger
        .approve_and_execute_accept_action_request(
            ApproveAndExecuteAcceptActionRequest { context: ctx("e3"), approval: approval("e3", "pi-1") },
            accept_audit_ids(),
            "receipt-2".to_string(),
            ExecutionDecision::Executed(accepted_outcome()),
        )
        .unwrap_err();
    assert_eq!(error.kind, DomainErrorKind::Persistence);
    // A refusal the domain recorded nothing for changes nothing.
    let error = ledger
        .approve_and_execute_accept_action_request(
            ApproveAndExecuteAcceptActionRequest { context: ctx("e4"), approval: approval("e4", "pi-1") },
            accept_audit_ids(),
            "receipt-1".to_string(),
            ExecutionDecision::Refused(refusal(DomainErrorKind::TransitionConflict, "e4")),
        )
        .unwrap_err();
    assert_eq!(error.kind, DomainErrorKind::TransitionConflict);
    assert_eq!(ledger.revision(), 1);
    // A recorded refusal is kept and replayed; a discarded preview leaves.
    let error = ledger
        .approve_and_execute_accept_action_request(
            ApproveAndExecuteAcceptActionRequest { context: ctx("e5"), approval: approval("e5", "pi-1") },
            accept_audit_ids(),
            "receipt-1".to_string(),
            ExecutionDecision::Terminal {
                error: refusal(DomainErrorKind::TransitionConflict, "e5"),
                record: TerminalRecord {
                    cause: ActionPersistenceTerminalCause::DigestMismatch {
                        attempted_digest: "digest-other".to_string(),
                    },
                    disposition: PreparedDisposition::ConsumedAndDiscarded,
                    audit_id: "audit-e5".to_string(),
                    occurred_at: 900,
                },
            },
        )
        .unwrap_err();
    assert_eq!(error.kind, DomainErrorKind::TransitionConflict);
    assert_eq!(ledger.revision(), 2);
    assert!(ledger.snapshot().prepared.is_empty());
    assert_eq!(ledger.snapshot().discarded.len(), 1);
    assert_eq!(ledger.snapshot().discarded[0].intent.id, "pi-1");
    assert_eq!(ledger.snapshot().discarded[0].consumed_at, 900);
    let last = ledger.snapshot().replay.last().unwrap().clone();
    match last.result {
        ActionPersistenceResult::Terminal(recorded, record) => {
            assert_eq!(recorded.kind, DomainErrorKind::TransitionConflict);
            assert_eq!(
                record.cause,
                ActionPersistenceTerminalCause::DigestMismatch { attempted_digest: "digest-other".to_string() }
            );
            assert_eq!(record.disposition, PreparedDisposition::ConsumedAndDiscarded);
            assert_eq!((record.audit_id.as_str(), record.occurred_at), ("audit-e5", 900));
        }
        _ => panic!("a recorded refusal keeps its record"),
    }
    let replayed = ledger
        .approve_and_execute_accept_action_request(
            ApproveAndExecuteAcceptActionRequest { context: ctx("e5"), approval: approval("e5", "pi-1") },
            accept_audit_ids(),
            "receipt-1".to_string(),
            ExecutionDecision::Executed(accepted_outcome()),
        )
        .unwrap_err();
    assert_eq!(replayed.kind, DomainErrorKind::TransitionConflict);
    assert_eq!(ledger.revision(), 2);
}

#[test]
fn reject_consumes_preview_and_replays() {
    let mut ledger = ledger();
    ledger
        .prepare_accept_action_request(prepare_accept("p1"), PREVIEW_LIFETIME, accept_preview("pi-1"), Some(accept_preview("pi-1")))
        .unwrap();
    let reject = |key: &str, prepared: &str| RejectActionPreparedIntent {
        context: ctx(key),
        prepared_id: prepared.to_string(),
        actor: "head_of_products".to_string(),
    };
    let outcome = RejectedPreparedIntentOutcome {
        prepared_intent_id: "pi-1".to_string(),
        expired: false,
        audit_event_id: "audit-r".to_string(),
        occurred_at: 800,
        target: AuditTarget::ActionRequest("req-1".to_string()),
    };
    let refused = ledger
        .reject_action_prepared_intent(reject("r0", "pi-1"), "audit-r".to_string(), 800, Err(refusal(DomainErrorKind::TransitionConflict, "r0")))
        .unwrap_err();
    assert_eq!(refused.kind, DomainErrorKind::TransitionConflict);
    assert_eq!(ledger.revision(), 1);
    // An outcome under another audit event, or at another instant, than
    // the command's is not the rejection asked for.
    let elsewhere = RejectedPreparedIntentOutcome { audit_event_id: "audit-x".to_string(), ..outcome.clone() };
    let error = ledger
        .reject_action_prepared_intent(reject("r0", "pi-1"), "audit-r".to_string(), 800, Ok(elsewhere))
        .unwrap_err();
    assert_eq!(error.kind, DomainErrorKind::Persistence);
    let later = RejectedPreparedIntentOutcome { occurred_at: 801, ..outcome.clone() };
    let error = ledger
        .reject_action_prepared_intent(reject("r0", "pi-1"), "audit-r".to_string(), 800, Ok(later))
        .unwrap_err();
    assert_eq!(error.kind, DomainErrorKind::Persistence);
    assert_eq!(ledger.revision(), 1);
    let rejected = ledger.reject_action_prepared_intent(reject("r1", "pi-1"), "audit-r".to_string(), 800, Ok(outcome)).unwrap();
    assert_eq!(rejected.audit_event_id, "audit-r");
    assert!(ledger.snapshot().prepared.is_empty());
    assert_eq!(ledger.snapshot().discarded.len(), 1);
    assert_eq!(ledger.snapshot().discarded[0].intent.id, "pi-1");
    assert_eq!(ledger.snapshot().discarded[0].consumed_at, 800);
    assert_eq!(ledger.revision(), 2);
    let replayed = ledger
        .reject_action_prepared_intent(reject("r1", "pi-1"), "audit-r".to_string(), 800, Err(refusal(DomainErrorKind::NotFound, "r1")))
        .unwrap();
    assert_eq!(replayed.prepared_intent_id, "pi-1");
    let other = ledger
        .reject_action_prepared_intent(reject("r1", "pi-2"), "audit-r".to_string(), 800, Err(refusal(DomainErrorKind::NotFound, "r1")))
        .unwrap_err();
    assert_eq!(other.kind, DomainErrorKind::IdempotencyConflict);
    // A rejection of a preview that is no longer pending fails to persist.
    let outcome = RejectedPreparedIntentOutcome {
        prepared_intent_id: "pi-1".to_string(),
        expired: false,
        audit_event_id: "audit-s".to_string(),
        occurred_at: 900,
        target: AuditTarget::ActionRequest("req-1".to_string()),
    };
    let error = ledger.reject_action_prepared_intent(reject("r2", "pi-1"), "audit-s".to_string(), 900, Ok(outcome)).unwrap_err();
    assert_eq!(error.kind, DomainErrorKind::Persistence);
    assert_eq!(ledger.revision(), 2);
}

fn transition_preview(id: &str, operation: PreparedOperation) -> PreparedIntent {
    PreparedIntent {
        id: id.to_string(),
        operation,
        payload_digest: "digest-1".to_string(),
        classification: "confidential".to_string(),
        expires_at: 60_000,
        support: None,
        policy: "allowed".to_string(),
        cancellation_policy: "not_cancellable_after_submit".to_string(),
        authority: "head_of_products".to_string(),
    }
}

fn action_outcome(record: ActionRecord, code: AuditEventCode, receipt: Option<&str>) -> ActionMutationOutcome<ActionRecord> {
    let target = AuditTarget::Action(record.id.clone());
    ActionMutationOutcome {
        record,
        audit_events: vec![audit("a-9", code, target)],
        approval_receipt_id: receipt.map(|r| r.to_string()),
    }
}

#[test]
fn complete_prepare_and_execute() {
    let mut ledger = ledger();
    let command = |key: &str| PrepareCompleteAction { context: ctx(key), action_id: "act-0".to_string(), expected_version: 2, judgment: None };
    let preview = transition_preview("pi-c", PreparedOperation::CompleteAction { action_id: "act-0".to_string(), action_version: 2 });
    let prepared = ledger.prepare_complete_action(command("c1"), Ok(preview)).unwrap();
    assert_eq!(prepared.id, "pi-c");
    assert_eq!(ledger.snapshot().prepared.len(), 1);
    // A replay returns the recorded preview, whatever the domain now decides.
    let replayed = ledger
        .prepare_complete_action(command("c1"), Err(refusal(DomainErrorKind::TransitionConflict, "c1")))
        .unwrap();
    assert_eq!(replayed.id, "pi-c");
    // Under a key of another kind of preparation it conflicts.
    let cancel = PrepareCancelAction {
        context: ctx("c1"),
        action_id: "act-0".to_string(),
        expected_version: 2,
        reason: "No longer needed".to_string(),
    };
    let error = ledger.prepare_cancel_action(cancel, Ok(transition_preview("pi-x", PreparedOperation::CompleteAction { action_id: "act-0".to_string(), action_version: 2 }))).unwrap_err();
    assert_eq!(error.kind, DomainErrorKind::IdempotencyConflict);

    let mut completed = action("act-0", ActionState::Completed, 3);
    completed.classification = "confidential".to_string();
    let executed = ledger
        .approve_and_execute_complete_action(
            ApproveAndExecuteCompleteAction { context: ctx("x1"), approval: approval("x1", "pi-c") },
            "receipt-c".to_string(),
            ExecutionDecision::Executed(action_outcome(completed, AuditEventCode::ActionCompleted, Some("receipt-c"))),
        )
        .unwrap();
    assert_eq!(executed.record.state, ActionState::Completed);
    assert_eq!(ledger.snapshot().actions[0].version, 3);
    assert!(ledger.snapshot().prepared.is_empty());
    assert_eq!(ledger.revision(), 2);
    // The same key used for a cancellation conflicts.
    let error = ledger
        .approve_and_execute_cancel_action(
            ApproveAndExecuteCancelAction { context: ctx("x1"), approval: approval("x1", "pi-c") },
            "receipt-c".to_string(),
            ExecutionDecision::Refused(refusal(DomainErrorKind::TransitionConflict, "x1")),
        )
        .unwrap_err();
    assert_eq!(error.kind, DomainErrorKind::IdempotencyConflict);
}

#[test]
fn denied_preparation_rolls_back_with_a_persistence_error() {
    let mut ledger = ledger();
    let command = |key: &str| PrepareReopenAction {
        context: ctx(key),
        action_id: "act-0".to_string(),
        expected_version: 2,
        mode: ActionReopenMode::ReopenCompleted,
        reason: "Again".to_string(),
    };
    let denied = ledger
        .prepare_reopen_action(command("o1"), Err(refusal(DomainErrorKind::TransitionConflict, "o1")))
        .unwrap_err();
    assert_eq!(denied.kind, DomainErrorKind::Persistence);
    assert_eq!(denied.correlation_id, "corr-o1");
    assert_eq!(ledger.revision(), 0);
    assert!(ledger.snapshot().replay.is_empty());
    assert!(ledger.snapshot().prepared.is_empty());
    // The key is still free: a later preparation under it is recorded, with
    // its reason and mode.
    let preview = transition_preview("pi-o", PreparedOperation::ReopenAction { action_id: "act-0".to_string(), action_version: 2, mode: ActionReopenMode::ReopenCompleted, reason: "Again".to_string() });
    ledger.prepare_reopen_action(command("o1"), Ok(preview)).unwrap();
    assert_eq!(ledger.revision(), 1);
    match &ledger.snapshot().replay[0].command {
        ActionPersistenceCommand::PrepareActionTransition { details, .. } => {
            assert_eq!(details.reason, Some("Again".to_string()));
            assert_eq!(details.mode, Some(ActionReopenMode::ReopenCompleted));
            assert!(details.judgment.is_none());
        }
        _ => panic!("a preparation records a PrepareActionTransition command"),
    }
}

#[test]
fn execute_reopen_with_wrong_receipt_is_persistence_failure() {
    let mut ledger = ledger();
    let preview = transition_preview("pi-o", PreparedOperation::ReopenAction { action_id: "act-0".to_string(), action_version: 2, mode: ActionReopenMode::ReopenCompleted, reason: "Again".to_string() });
    ledger
        .prepare_reopen_action(
            PrepareReopenAction { context: ctx("o1"), action_id: "act-0".to_string(), expected_version: 2, mode: ActionReopenMode::ReopenCompleted, reason: "Again".to_string() },
            Ok(preview),
        )
        .unwrap();
    let reopened = action("act-0", ActionState::Open, 3);
    let error = ledger
        .approve_and_execute_reopen_action(
            ApproveAndExecuteReopenAction { context: ctx("x2"), approval: approval("x2", "pi-o") },
            "receipt-o".to_string(),
            ExecutionDecision::Executed(action_outcome(reopened, AuditEventCode::ActionReopened, None)),
        )
        .unwrap_err();
    assert_eq!(error.kind, DomainErrorKind::Persistence);
    assert_eq!(ledger.snapshot().prepared.len(), 1);
    assert_eq!(ledger.revision(), 1);
}

#[test]
fn lower_classification_prepare_and_execute() {
    let mut ledger = ledger();
    let command = |key: &str| PrepareLowerActionClassification {
        context: ctx(key),
        action_id: "act-0".to_string(),
        expected_version: 2,
        proposed_classification: "internal".to_string(),
        rationale: "Public now".to_string(),
    };
    let preview = transition_preview(
        "pi-l",
        PreparedOperation::LowerActionClassification {
            action_id: "act-0".to_string(),
            action_version: 2,
            current_classification: "confidential".to_string(),
            proposed_classification: "internal".to_string(),
            rationale: "Public now".to_string(),
        },
    );
    // A preview for another classification is refused.
    let mut wrong = command("l0");
    wrong.proposed_classification = "public".to_string();
    let error = ledger.prepare_lower_action_classification(wrong, preview.clone()).unwrap_err();
    assert_eq!(error.kind, DomainErrorKind::Persistence);
    let mut stale = command("l0");
    stale.expected_version = 1;
    let error = ledger.prepare_lower_action_classification(stale, preview.clone()).unwrap_err();
    assert_eq!(error.kind, DomainErrorKind::TransitionConflict);
    assert_eq!(error.current_version, Some(2));

    let prepared = ledger.prepare_lower_action_classification(command("l1"), preview.clone()).unwrap();
    assert_eq!(prepared.id, "pi-l");
    let replayed = ledger.prepare_lower_action_classification(command("l1"), preview).unwrap();
    assert_eq!(replayed.id, "pi-l");
    assert_eq!(ledger.revision(), 1);

    // A domain refusal of the execution is not recorded.
    let refused = ledger
        .approve_and_execute_lower_action_classification(
            ApproveAndExecuteLowerActionClassification { context: ctx("y1"), approval: approval("y1", "pi-l") },
            "receipt-l".to_string(),
            Err(refusal(DomainErrorKind::TransitionConflict, "y1")),
        )
        .unwrap_err();
    assert_eq!(refused.kind, DomainErrorKind::TransitionConflict);
    assert_eq!(ledger.revision(), 1);

    let mut lowered = action("act-0", ActionState::InProgress, 3);
    lowered.classification = "internal".to_string();
    let executed = ledger
        .approve_and_execute_lower_action_classification(
            ApproveAndExecuteLowerActionClassification { context: ctx("y1"), approval: approval("y1", "pi-l") },
            "receipt-l".to_string(),
            Ok(action_outcome(lowered, AuditEventCode::ActionClassificationLowered, Some("receipt-l"))),
        )
        .unwrap();
    assert_eq!(executed.record.classification, "internal");
    assert_eq!(ledger.snapshot().actions[0].classification, "internal");
    assert!(ledger.snapshot().prepared.is_empty());
    assert_eq!(ledger.revision(), 2);
}

#[test]
fn executed_change_must_touch_the_previewed_action() {
    let snapshot = ActionPersistenceSnapshot {
        requests: vec![open_request()],
        actions: vec![action("act-0", ActionState::InProgress, 2), action("act-1", ActionState::InProgress, 2)],
        replay: Vec::new(),
        prepared: Vec::new(),
        discarded: Vec::new(),
    };
    let mut ledger = SqliteProductLedger::from_parts(CURRENT_SCHEMA_VERSION, 0, snapshot, Vec::new()).unwrap();
    let preview = transition_preview("pi-c", PreparedOperation::CompleteAction { action_id: "act-0".to_string(), action_version: 2 });
    ledger
        .prepare_complete_action(
            PrepareCompleteAction { context: ctx("c1"), action_id: "act-0".to_string(), expected_version: 2, judgment: None },
            Ok(preview),
        )
        .unwrap();
    let other = action("act-1", ActionState::Completed, 3);
    let error = ledger
        .approve_and_execute_complete_action(
            ApproveAndExecuteCompleteAction { context: ctx("x1"), approval: approval("x1", "pi-c") },
            "receipt-c".to_string(),
            ExecutionDecision::Executed(action_outcome(other, AuditEventCode::ActionCompleted, Some("receipt-c"))),
        )
        .unwrap_err();
    assert_eq!(error.kind, DomainErrorKind::Persistence);
    assert_eq!(ledger.revision(), 1);
    assert_eq!(ledger.snapshot().prepared.len(), 1);
    assert_eq!(ledger.snapshot().actions[1].state, ActionState::InProgress);
}

fn accept_audit_ids() -> [String; 3] {
    ["a-1".to_string(), "a-2".to_string(), "a-3".to_string()]
}

#[test]
fn executed_acceptance_must_carry_the_given_audit_ids() {
    let mut ledger = ledger();
    ledger
        .prepare_accept_action_request(prepare_accept("p1"), PREVIEW_LIFETIME, accept_preview("pi-1"), Some(accept_preview("pi-1")))
        .unwrap();
    let error = ledger
        .approve_and_execute_accept_action_request(
            ApproveAndExecuteAcceptActionRequest { context: ctx("e1"), approval: approval("e1", "pi-1") },
            ["a-1".to_string(), "a-3".to_string(), "a-2".to_string()],
            "receipt-1".to_string(),
            ExecutionDecision::Executed(accepted_outcome()),
        )
        .unwrap_err();
    assert_eq!(error.kind, DomainErrorKind::Persistence);
    assert_eq!(ledger.revision(), 1);
    assert_eq!(ledger.snapshot().prepared.len(), 1);
    let accepted = ledger
        .approve_and_execute_accept_action_request(
            ApproveAndExecuteAcceptActionRequest { context: ctx("e1"), approval: approval("e1", "pi-1") },
            accept_audit_ids(),
            "receipt-1".to_string(),
            ExecutionDecision::Executed(accepted_outcome()),
        )
        .unwrap();
    let ids: Vec<&str> = accepted.audit_events.iter().map(|event| event.id.as_str()).collect();
    assert_eq!(ids, vec!["a-1", "a-2", "a-3"]);
}

/// The lifetime the previews of these tests were prepared with.
const PREVIEW_LIFETIME: i64 = 20_000;

#[test]
fn acceptance_preview_must_be_allowed_unsupported_and_created_after_the_epoch() {
    let mut ledger = ledger();
    // A preview carrying a support record is not an acceptance's.
    let mut supported = accept_preview("pi-1");
    supported.support = Some("support-1".to_string());
    let error = ledger
        .prepare_accept_action_request(prepare_accept("p1"), PREVIEW_LIFETIME, supported.clone(), Some(supported))
        .unwrap_err();
    assert_eq!(error.kind, DomainErrorKind::Persistence);
    // Nor is one under another policy decision.
    let mut denied = accept_preview("pi-1");
    denied.policy = "denied".to_string();
    let error = ledger
        .prepare_accept_action_request(prepare_accept("p1"), PREVIEW_LIFETIME, denied.clone(), Some(denied))
        .unwrap_err();
    assert_eq!(error.kind, DomainErrorKind::Persistence);
    // A preview whose expiry less its lifetime is before the epoch was never
    // created.
    let error = ledger
        .prepare_accept_action_request(prepare_accept("p1"), 60_000, accept_preview("pi-1"), Some(accept_preview("pi-1")))
        .unwrap_err();
    assert_eq!(error.kind, DomainErrorKind::Persistence);
    assert_eq!(ledger.revision(), 0);
    ledger
        .prepare_accept_action_request(prepare_accept("p1"), PREVIEW_LIFETIME, accept_preview("pi-1"), Some(accept_preview("pi-1")))
        .unwrap();
    assert_eq!(ledger.revision(), 1);
}

#[test]
fn preview_creation_time_is_expiry_less_lifetime_not_before_the_epoch() {
    assert_eq!(preview_creation_time(50_000, 20_000), Some(30_000));
    assert_eq!(preview_creation_time(20_000, 20_000), Some(0));
    assert_eq!(preview_creation_time(19_999, 20_000), None);
    assert_eq!(preview_creation_time(i64::MIN, 1), None);
    assert_eq!(preview_creation_time(i64::MAX, -1), None);
}

#[test]
fn a_completion_stores_the_preview_as_its_support() {
    let mut ledger = ledger();
    let preview = transition_preview("pi-c", PreparedOperation::CompleteAction { action_id: "act-0".to_string(), action_version: 2 });
    ledger
        .prepare_complete_action(
            PrepareCompleteAction { context: ctx("c1"), action_id: "act-0".to_string(), expected_version: 2, judgment: None },
            Ok(preview),
        )
        .unwrap();
    let mut completed = action("act-0", ActionState::Completed, 3);
    completed.supported_by = Some("support-elsewhere".to_string());
    ledger
        .approve_and_execute_complete_action(
            ApproveAndExecuteCompleteAction { context: ctx("x1"), approval: approval("x1", "pi-c") },
            "receipt-c".to_string(),
            ExecutionDecision::Executed(action_outcome(completed, AuditEventCode::ActionCompleted, Some("receipt-c"))),
        )
        .unwrap();
    assert_eq!(ledger.snapshot().actions[0].supported_by, Some("pi-c".to_string()));
}

#[test]
fn an_acceptance_must_accept_the_previewed_request_into_the_previewed_action() {
    let mut ledger = ledger();
    ledger
        .prepare_accept_action_request(prepare_accept("p1"), PREVIEW_LIFETIME, accept_preview("pi-1"), Some(accept_preview("pi-1")))
        .unwrap();
    let mut unlinked = accepted_outcome();
    unlinked.request.linked_action_id = None;
    let error = ledger
        .approve_and_execute_accept_action_request(
            ApproveAndExecuteAcceptActionRequest { context: ctx("e1"), approval: approval("e1", "pi-1") },
            accept_audit_ids(),
            "receipt-1".to_string(),
            ExecutionDecision::Executed(unlinked),
        )
        .unwrap_err();
    assert_eq!(error.kind, DomainErrorKind::Persistence);
    let mut reopened = accepted_outcome();
    reopened.action.version = 2;
    let error = ledger
        .approve_and_execute_accept_action_request(
            ApproveAndExecuteAcceptActionRequest { context: ctx("e1"), approval: approval("e1", "pi-1") },
            accept_audit_ids(),
            "receipt-1".to_string(),
            ExecutionDecision::Executed(reopened),
        )
        .unwrap_err();
    assert_eq!(error.kind, DomainErrorKind::Persistence);
    assert_eq!(ledger.revision(), 1);
}

#[test]
fn an_approval_receipt_is_consumed_once() {
    let mut ledger = ledger();
    let preview = transition_preview("pi-c", PreparedOperation::CompleteAction { action_id: "act-0".to_string(), action_version: 2 });
    ledger
        .prepare_accept_action_request(prepare_accept("p1"), PREVIEW_LIFETIME, accept_preview("pi-1"), Some(accept_preview("pi-1")))
        .unwrap();
    ledger
        .approve_and_execute_accept_action_request(
            ApproveAndExecuteAcceptActionRequest { context: ctx("e1"), approval: approval("e1", "pi-1") },
            accept_audit_ids(),
            "receipt-1".to_string(),
            ExecutionDecision::Executed(accepted_outcome()),
        )
        .unwrap();
    ledger
        .prepare_complete_action(
            PrepareCompleteAction { context: ctx("c1"), action_id: "act-0".to_string(), expected_version: 2, judgment: None },
            Ok(preview),
        )
        .unwrap();
    let completed = action("act-0", ActionState::Completed, 3);
    let error = ledger
        .approve_and_execute_complete_action(
            ApproveAndExecuteCompleteAction { context: ctx("x1"), approval: approval("x1", "pi-c") },
            "receipt-1".to_string(),
            ExecutionDecision::Executed(action_outcome(completed, AuditEventCode::ActionCompleted, Some("receipt-1"))),
        )
        .unwrap_err();
    assert_eq!(error.kind, DomainErrorKind::Persistence);
    assert_eq!(ledger.snapshot().prepared.len(), 1);
}
