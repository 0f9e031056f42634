use pmc_ledger::executions::{
    decode_accepted_action, decode_execute_accept, encode_execute_accept, AcceptedActionRow, AuditEffectRow, AuditLinkRow, AuditRow, ExecuteAcceptRows,
    ExecuteReplayRow, ReceiptRow, RecordedAudit,
};
use pmc_ledger::load_error::ActionPersistenceLoadError;
use pmc_ledger::model::{
    ActionPersistenceResult, ActionRecord, ActionRequestRecord, AuditEventCode, AuditTarget,
    PreparedIntent, PreparedOperation,
};
use pmc_ledger::states::{ActionRequestState, ActionState};

fn request() -> ActionRequestRecord {
    ActionRequestRecord {
        id: "req-1".to_string(),
        title: "Ship".to_string(),
        details: "Details".to_string(),
        intended_owner: Some("owner-1".to_string()),
        response_due_at: None,
        intended_action_due_at: Some(9_000),
        classification: "internal".to_string(),
        state: ActionRequestState::Accepted,
        version: 3,
        terminal_rationale: None,
        linked_action_id: Some("act-1".to_string()),
    }
}

fn prepared() -> PreparedIntent {
    PreparedIntent {
        id: "pi-1".to_string(),
        operation: PreparedOperation::AcceptActionRequest {
            request_id: "req-1".to_string(),
            request_version: 2,
            action_id: "act-1".to_string(),
            action_classification: "internal".to_string(),
            action_subject: "Ship".to_string(),
            commitment_details: "Details".to_string(),
            intended_owner: "owner-1".to_string(),
            intended_due_at: 9_000,
        },
        payload_digest: "digest-1".to_string(),
        classification: "internal".to_string(),
        expires_at: 50_000,
        support: None,
        policy: "allowed".to_string(),
        cancellation_policy: "not_cancellable_after_submit".to_string(),
        authority: "head_of_products".to_string(),
    }
}

fn action() -> ActionRecord {
    ActionRecord {
        id: "act-1".to_string(),
        source_request_id: "req-1".to_string(),
        title: "Ship".to_string(),
        details: "Details".to_string(),
        owner_id: "owner-1".to_string(),
        due_at: 9_000,
        classification: "internal".to_string(),
        state: ActionState::Open,
        version: 1,
        completion_evidence: Vec::new(),
        transition_reason: None,
        supported_by: None,
        transition_history: Vec::new(),
        source_decision_id: None,
        superseded_premise: false,
    }
}

fn audit(ordinal: i64, id: &str, code: &str, target_type: &str, target_id: &str) -> RecordedAudit {
    RecordedAudit {
        link: AuditLinkRow { ordinal, audit_event_id: id.to_string(), correlation_id: "corr-e".to_string() },
        event: AuditRow {
            id: id.to_string(),
            occurred_at: 700,
            actor: "head_of_products".to_string(),
            module: "work_management".to_string(),
            event_code: code.to_string(),
            target_type: target_type.to_string(),
            target_id: target_id.to_string(),
            correlation_id: "corr-e".to_string(),
            policy_outcome: "allowed".to_string(),
            approval_outcome: "approved".to_string(),
            execution_outcome: "succeeded".to_string(),
            effect_scope: "complete".to_string(),
        },
        effects: vec![AuditEffectRow {
            ordinal: 0,
            effect_code: code.to_string(),
            scope: "complete".to_string(),
            target_type: target_type.to_string(),
            target_id: target_id.to_string(),
        }],
    }
}

fn rows() -> ExecuteAcceptRows {
    ExecuteAcceptRows {
        idempotency_id: "k-exec".to_string(),
        actor: "head_of_products".to_string(),
        acknowledged_digest: "digest-1".to_string(),
        replay: ExecuteReplayRow {
            correlation_id: "corr-e".to_string(),
            operation_ordinal: 7,
            result_kind: "accepted".to_string(),
            result_reference: Some("act-1".to_string()),
            prepared_intent_id: Some("pi-1".to_string()),
            prepared_disposition: "not_applicable".to_string(),
        },
        receipt: ReceiptRow {
            id: "receipt-1".to_string(),
            actor: "head_of_products".to_string(),
            acknowledged_payload_digest: "digest-1".to_string(),
            idempotency_id: "k-exec".to_string(),
            approved_at: 700,
            expires_at: 50_000,
            consumed_at: Some(700),
        },
        prepared_consumed_at: Some(700),
        audits: vec![
            audit(0, "a-1", "action_request.accepted", "action_request", "req-1"),
            audit(1, "a-2", "action.created_from_request", "action", "act-1"),
            audit(2, "a-3", "action_request.action_linked", "action_request", "req-1"),
        ],
    }
}

#[test]
fn executed_acceptance_decodes() {
    let (outcome, capsule) = decode_execute_accept(&request(), &prepared(), action(), rows()).unwrap();
    assert_eq!(outcome.approval_receipt_id, "receipt-1");
    assert_eq!(outcome.audit_events.len(), 3);
    assert_eq!(outcome.audit_events[1].code, AuditEventCode::ActionCreatedFromRequest);
    assert!(matches!(&outcome.audit_events[1].target, AuditTarget::Action(id) if id == "act-1"));
    assert_eq!(capsule.operation_ordinal, 7);
    assert!(matches!(capsule.result, ActionPersistenceResult::Accepted(_)));
}

#[test]
fn executed_acceptance_refusals() {
    let invalid = Err(ActionPersistenceLoadError::InvalidActionSnapshot);
    let decode = |r: ExecuteAcceptRows| decode_execute_accept(&request(), &prepared(), action(), r).map(|_| ());
    let mut other_digest = rows();
    other_digest.acknowledged_digest = "digest-2".to_string();
    assert_eq!(decode(other_digest), invalid);
    let mut terminal = rows();
    terminal.replay.result_kind = "terminal".to_string();
    assert_eq!(decode(terminal), invalid);
    let mut unconsumed = rows();
    unconsumed.prepared_consumed_at = None;
    assert_eq!(decode(unconsumed), invalid);
    let mut late_audit = rows();
    late_audit.audits[2].event.occurred_at = 701;
    assert_eq!(decode(late_audit), invalid);
    let mut swapped = rows();
    swapped.audits.swap(0, 2);
    assert_eq!(decode(swapped), invalid);
    let mut two_effects = rows();
    let extra = two_effects.audits[0].effects[0].ordinal + 1;
    two_effects.audits[0].effects.push(AuditEffectRow {
        ordinal: extra,
        effect_code: "action_request.accepted".to_string(),
        scope: "complete".to_string(),
        target_type: "action_request".to_string(),
        target_id: "req-1".to_string(),
    });
    assert_eq!(decode(two_effects), invalid);
    let mut other_request = request();
    other_request.linked_action_id = Some("act-9".to_string());
    assert_eq!(decode_execute_accept(&other_request, &prepared(), action(), rows()).map(|_| ()), invalid);
}

fn action_row(state: &str, version: i64, classification: &str) -> AcceptedActionRow {
    AcceptedActionRow {
        source_request_id: "req-1".to_string(),
        title: "Ship".to_string(),
        details: "Details".to_string(),
        owner_id: "owner-1".to_string(),
        due_at: 9_000,
        state: state.to_string(),
        commitment_classification: "internal".to_string(),
        source_decision_id: None,
        superseded_premise: 0,
        version,
        classification: classification.to_string(),
    }
}

#[test]
fn accepted_action_decodes_as_created() {
    let preview = prepared();
    let action = decode_accepted_action(&request(), &None, 0, &preview, &action_row("open", 1, &preview.classification)).unwrap();
    assert_eq!(action.id, "act-1");
    assert_eq!(action.source_request_id, "req-1");
    assert_eq!(action.state, ActionState::Open);
    assert_eq!(action.version, 1);
    assert_eq!(action.classification, preview.classification);
    assert!(action.completion_evidence.is_empty());
    // A later version may carry another classification and state; the
    // Action is still decoded as it was created.
    let later = decode_accepted_action(&request(), &None, 0, &preview, &action_row("completed", 4, "public")).unwrap();
    assert_eq!(later.version, 1);
    assert_eq!(later.state, ActionState::Open);
}

#[test]
fn accepted_action_row_mismatches_are_invalid_snapshots() {
    let invalid = Err(ActionPersistenceLoadError::InvalidActionSnapshot);
    let preview = prepared();
    let decode = |row: AcceptedActionRow, decision: Option<String>| {
        decode_accepted_action(&request(), &decision, 0, &preview, &row).map(|_| ())
    };
    assert_eq!(decode(action_row("open", 1, "public"), None), invalid);
    assert_eq!(decode(action_row("paused", 1, &prepared().classification), None), invalid);
    assert_eq!(decode(action_row("open", 0, &prepared().classification), None), invalid);
    let mut row = action_row("open", 1, &prepared().classification);
    row.owner_id = "owner-2".to_string();
    assert_eq!(decode(row, None), invalid);
    let row = action_row("open", 1, &prepared().classification);
    assert_eq!(decode(row, Some("dec-1".to_string())), invalid);
    let mut unaccepted = request();
    unaccepted.state = ActionRequestState::Open;
    let refused = decode_accepted_action(&unaccepted, &None, 0, &preview, &action_row("open", 1, &preview.classification));
    assert_eq!(refused.map(|_| ()), invalid);
}

#[test]
fn encoded_acceptance_rows_round_trip() {
    let (outcome, _) = decode_execute_accept(&request(), &prepared(), action(), rows()).unwrap();
    let encoded = encode_execute_accept(&outcome, &prepared(), &"k-exec".to_string(), &"corr-e".to_string(), 7, 700);
    let expected = rows();
    assert_eq!(encoded.replay.operation_ordinal, expected.replay.operation_ordinal);
    assert_eq!(encoded.replay.result_reference, expected.replay.result_reference);
    assert_eq!(encoded.receipt.id, expected.receipt.id);
    assert_eq!(encoded.receipt.consumed_at, Some(700));
    assert_eq!(encoded.audits.len(), 3);
    for (got, want) in encoded.audits.iter().zip(expected.audits.iter()) {
        assert_eq!(got.event.id, want.event.id);
        assert_eq!(got.event.event_code, want.event.event_code);
        assert_eq!(got.event.target_type, want.event.target_type);
        assert_eq!(got.event.target_id, want.event.target_id);
        assert_eq!(got.effects.len(), 1);
    }
    let (again, capsule) = decode_execute_accept(&request(), &prepared(), action(), encoded).unwrap();
    assert_eq!(again.approval_receipt_id, "receipt-1");
    assert_eq!(capsule.idempotency_id, "k-exec");
    assert_eq!(capsule.operation_ordinal, 7);
}
