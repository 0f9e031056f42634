use pmc_ledger::decision_activity::{
    replay_decision_sourced_activity, DecisionActivityRows, DecisionCommandRows,
};
use pmc_ledger::executions::{AuditEffectRow, AuditRow};
use pmc_ledger::load_error::ActionPersistenceLoadError;
use pmc_ledger::model::{
    ActionPersistenceCommand, ActionPersistenceResult, ActionRequestRecord, AuditEventCode,
};
use pmc_ledger::states::ActionRequestState;

fn request(state: ActionRequestState, version: u64, classification: &str) -> ActionRequestRecord {
    ActionRequestRecord {
        id: "req-9".to_string(),
        title: "Follow up".to_string(),
        details: "From the decision".to_string(),
        intended_owner: Some("owner-1".to_string()),
        response_due_at: None,
        intended_action_due_at: Some(7_000),
        classification: classification.to_string(),
        state,
        version,
        terminal_rationale: None,
        linked_action_id: if state == ActionRequestState::Accepted { Some("act-9".to_string()) } else { None },
    }
}

fn command_rows(key: &str, code: &str, classification: &str) -> DecisionCommandRows {
    let audit_id = format!("audit-{key}");
    DecisionCommandRows {
        idempotency_id: key.to_string(),
        correlation_id: format!("corr-{key}"),
        ordinal: 3,
        classification: classification.to_string(),
        audit_event_id: audit_id.clone(),
        event: AuditRow {
            id: audit_id,
            occurred_at: 400,
            actor: "head_of_products".to_string(),
            module: "work_management".to_string(),
            event_code: code.to_string(),
            target_type: "action_request".to_string(),
            target_id: "req-9".to_string(),
            correlation_id: format!("corr-{key}"),
            policy_outcome: "allowed".to_string(),
            approval_outcome: "approved".to_string(),
            execution_outcome: "succeeded".to_string(),
            effect_scope: "complete".to_string(),
        },
        effects: vec![AuditEffectRow {
            ordinal: 0,
            effect_code: code.to_string(),
            scope: "complete".to_string(),
            target_type: "action_request".to_string(),
            target_id: "req-9".to_string(),
        }],
    }
}

fn create_rows(classification: &str) -> DecisionCommandRows {
    command_rows("k-create", "action_request.created_from_decision", classification)
}

fn mark_rows(classification: &str) -> DecisionCommandRows {
    command_rows("k-mark", "action_request.superseded_premise_marked", classification)
}

#[test]
fn decision_created_request_replays_its_creation() {
    let rows = DecisionActivityRows { create: create_rows("internal"), mark: None };
    let open = request(ActionRequestState::Open, 1, "internal");
    let capsules = replay_decision_sourced_activity(&open, &"dec-1".to_string(), false, &rows).unwrap();
    assert_eq!(capsules.len(), 1);
    assert!(matches!(
        &capsules[0].command,
        ActionPersistenceCommand::CreateRequestFromDecision { source_decision_id, due_at: 7_000, .. } if source_decision_id == "dec-1"
    ));
    match &capsules[0].result {
        ActionPersistenceResult::Request(outcome) => {
            assert_eq!(outcome.record.state, ActionRequestState::Open);
            assert_eq!(outcome.record.version, 1);
            assert_eq!(outcome.audit_events[0].code, AuditEventCode::ActionRequestCreatedFromDecision);
        }
        _ => panic!("a creation records a Request outcome"),
    }
}

#[test]
fn superseded_premise_mark_replays_after_the_creation() {
    let rows = DecisionActivityRows { create: create_rows("internal"), mark: Some(mark_rows("confidential")) };
    let marked = request(ActionRequestState::Open, 2, "confidential");
    let capsules = replay_decision_sourced_activity(&marked, &"dec-1".to_string(), true, &rows).unwrap();
    assert_eq!(capsules.len(), 2);
    assert!(matches!(
        &capsules[1].command,
        ActionPersistenceCommand::MarkRequestSupersededPremise { expected_version: 1, classification, .. } if classification == "confidential"
    ));
    match &capsules[1].result {
        ActionPersistenceResult::Request(outcome) => {
            assert_eq!(outcome.record.version, 2);
            assert_eq!(outcome.audit_events[0].code, AuditEventCode::ActionRequestSupersededPremiseMarked);
        }
        _ => panic!("a mark records a Request outcome"),
    }
    // An accepted request has moved on; its history is not compared.
    let accepted = request(ActionRequestState::Accepted, 3, "confidential");
    assert!(replay_decision_sourced_activity(&accepted, &"dec-1".to_string(), true, &rows).is_ok());
}

#[test]
fn malformed_decision_activity_is_an_invalid_snapshot() {
    let invalid = Err(ActionPersistenceLoadError::InvalidActionSnapshot);
    let decision = "dec-1".to_string();
    // The open request is not what its creation left.
    let rows = DecisionActivityRows { create: create_rows("public"), mark: None };
    let open = request(ActionRequestState::Open, 1, "internal");
    assert_eq!(replay_decision_sourced_activity(&open, &decision, false, &rows).map(|_| ()), invalid);
    // A marked request without its mark's rows.
    let rows = DecisionActivityRows { create: create_rows("internal"), mark: None };
    let marked = request(ActionRequestState::Open, 2, "internal");
    assert_eq!(replay_decision_sourced_activity(&marked, &decision, true, &rows).map(|_| ()), invalid);
    // An audit that needed no approval is not a Decision's.
    let mut create = create_rows("internal");
    create.event.approval_outcome = "not_required".to_string();
    let rows = DecisionActivityRows { create, mark: None };
    assert_eq!(replay_decision_sourced_activity(&open, &decision, false, &rows).map(|_| ()), invalid);
    // A request without an owner.
    let mut ownerless = request(ActionRequestState::Open, 1, "internal");
    ownerless.intended_owner = None;
    let rows = DecisionActivityRows { create: create_rows("internal"), mark: None };
    assert_eq!(replay_decision_sourced_activity(&ownerless, &decision, false, &rows).map(|_| ()), invalid);
}
