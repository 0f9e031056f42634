use pmc_ledger::executions::{AuditEffectRow, AuditLinkRow, AuditRow, RecordedAudit};
use pmc_ledger::load_error::ActionPersistenceLoadError;
use pmc_ledger::model::{
    ActionPersistenceCommand, ActionPersistenceResult, ActionRequestRecord, AuditEventCode,
};
use pmc_ledger::request_activity::{
    replay_request_activity, CreateCommandRow, RequestActivityRows, RequestReplayRow,
};
use pmc_ledger::requests::PersistedTransitionRow;
use pmc_ledger::states::ActionRequestState;

fn request(state: ActionRequestState, version: u64, rationale: Option<&str>) -> ActionRequestRecord {
    ActionRequestRecord {
        id: "req-1".to_string(),
        title: "Ship the roadmap".to_string(),
        details: "Details".to_string(),
        intended_owner: Some("stakeholder-1".to_string()),
        response_due_at: Some(1_000),
        intended_action_due_at: Some(9_000),
        classification: "internal".to_string(),
        state,
        version,
        terminal_rationale: rationale.map(|r| r.to_string()),
        linked_action_id: None,
    }
}

fn replay_row(correlation: &str, ordinal: i64) -> RequestReplayRow {
    RequestReplayRow {
        result_reference: Some("req-1".to_string()),
        correlation_id: correlation.to_string(),
        operation_ordinal: ordinal,
        result_kind: "request".to_string(),
        prepared_intent_id: None,
        prepared_disposition: "not_applicable".to_string(),
        terminal_cause: None,
        error_code: None,
        error_message_key: None,
        error_correlation_id: None,
        error_retryable: None,
        attempted_digest: None,
        private_detail_ref: None,
    }
}

fn recorded_audit(id: &str, correlation: &str, code: &str) -> RecordedAudit {
    RecordedAudit {
        link: AuditLinkRow { ordinal: 0, audit_event_id: id.to_string(), correlation_id: correlation.to_string() },
        event: AuditRow {
            id: id.to_string(),
            occurred_at: 100,
            actor: "head_of_products".to_string(),
            module: "work_management".to_string(),
            event_code: code.to_string(),
            target_type: "action_request".to_string(),
            target_id: "req-1".to_string(),
            correlation_id: correlation.to_string(),
            policy_outcome: "allowed".to_string(),
            approval_outcome: "not_required".to_string(),
            execution_outcome: "succeeded".to_string(),
            effect_scope: "complete".to_string(),
        },
        effects: vec![AuditEffectRow {
            ordinal: 0,
            effect_code: code.to_string(),
            scope: "complete".to_string(),
            target_type: "action_request".to_string(),
            target_id: "req-1".to_string(),
        }],
    }
}

fn transition(key: &str, version: i64, state: &str, rationale: Option<&str>) -> PersistedTransitionRow {
    PersistedTransitionRow {
        idempotency_id: key.to_string(),
        expected_version: version,
        target_state: state.to_string(),
        rationale: rationale.map(|r| r.to_string()),
    }
}

fn rows() -> RequestActivityRows {
    RequestActivityRows {
        create: CreateCommandRow {
            idempotency_id: "k-create".to_string(),
            request_id: "req-1".to_string(),
            title: "Ship the roadmap".to_string(),
            details: "Details".to_string(),
            intended_owner: Some("stakeholder-1".to_string()),
            response_due_at: Some(1_000),
            intended_action_due_at: Some(9_000),
            classification: "internal".to_string(),
        },
        create_replay: replay_row("corr-c", 0),
        create_audit: recorded_audit("audit-c", "corr-c", "action_request.created"),
        transitions: Vec::new(),
        transition_replays: Vec::new(),
        transition_audits: Vec::new(),
    }
}

fn declined_rows() -> RequestActivityRows {
    let mut rows = rows();
    rows.transitions = vec![
        transition("k-submit", 1, "open", None),
        transition("k-decline", 2, "declined", Some("Out of scope")),
    ];
    rows.transition_replays = vec![replay_row("corr-s", 1), replay_row("corr-d", 2)];
    rows.transition_audits = vec![
        recorded_audit("audit-s", "corr-s", "action_request.submitted"),
        recorded_audit("audit-d", "corr-d", "action_request.declined"),
    ];
    rows
}

#[test]
fn draft_replays_its_creation() {
    let capsules = replay_request_activity(&request(ActionRequestState::Draft, 1, None), &rows()).unwrap();
    assert_eq!(capsules.len(), 1);
    assert_eq!(capsules[0].idempotency_id, "k-create");
    assert!(matches!(&capsules[0].command, ActionPersistenceCommand::CreateRequest { id, .. } if id == "req-1"));
    match &capsules[0].result {
        ActionPersistenceResult::Request(outcome) => {
            assert_eq!(outcome.record.state, ActionRequestState::Draft);
            assert_eq!(outcome.record.version, 1);
            assert_eq!(outcome.audit_events[0].code, AuditEventCode::ActionRequestCreated);
            assert_eq!(outcome.audit_events[0].correlation_id, "corr-c");
        }
        _ => panic!("a creation records a Request outcome"),
    }
}

#[test]
fn declined_request_replays_creation_submission_and_decline() {
    let declined = request(ActionRequestState::Declined, 3, Some("Out of scope"));
    let capsules = replay_request_activity(&declined, &declined_rows()).unwrap();
    assert_eq!(capsules.len(), 3);
    assert_eq!(capsules[1].operation_ordinal, 1);
    assert!(matches!(
        &capsules[1].command,
        ActionPersistenceCommand::TransitionRequest { expected_version: 1, target_state: ActionRequestState::Open, rationale: None, .. }
    ));
    match &capsules[2].result {
        ActionPersistenceResult::Request(outcome) => {
            assert_eq!(outcome.record.state, ActionRequestState::Declined);
            assert_eq!(outcome.record.version, 3);
            assert_eq!(outcome.record.terminal_rationale, Some("Out of scope".to_string()));
            assert_eq!(outcome.audit_events[0].code, AuditEventCode::ActionRequestDeclined);
        }
        _ => panic!("a transition records a Request outcome"),
    }
}

#[test]
fn malformed_request_activity_is_an_invalid_snapshot() {
    let invalid = Err(ActionPersistenceLoadError::InvalidActionSnapshot);
    let declined = request(ActionRequestState::Declined, 3, Some("Out of scope"));
    // The create command names another title.
    let mut r = declined_rows();
    r.create.title = "Other".to_string();
    assert_eq!(replay_request_activity(&declined, &r).map(|_| ()), invalid);
    // A transition replayed at the first ordinal.
    let mut r = declined_rows();
    r.transition_replays[0].operation_ordinal = 0;
    assert_eq!(replay_request_activity(&declined, &r).map(|_| ()), invalid);
    // A transition audited with another code.
    let mut r = declined_rows();
    r.transition_audits[1] = recorded_audit("audit-d", "corr-d", "action_request.withdrawn");
    assert_eq!(replay_request_activity(&declined, &r).map(|_| ()), invalid);
    // A create replay row that records an error.
    let mut r = declined_rows();
    r.create_replay.error_code = Some("DOMAIN_CONFLICT".to_string());
    assert_eq!(replay_request_activity(&declined, &r).map(|_| ()), invalid);
    // A missing transition.
    let mut r = declined_rows();
    r.transitions.pop();
    assert_eq!(replay_request_activity(&declined, &r).map(|_| ()), invalid);
    // The audit link names another event.
    let mut r = declined_rows();
    r.create_audit.link.audit_event_id = "audit-x".to_string();
    assert_eq!(replay_request_activity(&declined, &r).map(|_| ()), invalid);
    // An open request does not end declined.
    let open = request(ActionRequestState::Open, 2, None);
    assert_eq!(replay_request_activity(&open, &declined_rows()).map(|_| ()), invalid);
}
