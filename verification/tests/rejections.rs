use pmc_ledger::load_error::ActionPersistenceLoadError;
use pmc_ledger::model::{
    ActionPersistenceCommand, ActionPersistenceResult, AuditTarget, PreparedIntent, PreparedOperation,
};
use pmc_ledger::rejections::{
    decode_prepared_intent_rejection, encode_prepared_intent_rejection, RejectionAuditRow, RejectionRows,
};

const CODE: &str = "work_management.prepared_intent_rejected";

fn preview(operation: PreparedOperation) -> PreparedIntent {
    PreparedIntent {
        id: "prep-1".to_string(),
        operation,
        payload_digest: "digest-1".to_string(),
        classification: "internal".to_string(),
        expires_at: 5_000,
        support: None,
        policy: "allowed".to_string(),
        cancellation_policy: "not_cancellable_after_submit".to_string(),
        authority: "head_of_products".to_string(),
    }
}

fn complete_preview() -> PreparedIntent {
    preview(PreparedOperation::CompleteAction { action_id: "act-1".to_string(), action_version: 3 })
}

fn rows(rejected_at: i64, target_type: &str, target_id: &str) -> RejectionRows {
    RejectionRows {
        idempotency_id: "k-1".to_string(),
        correlation_id: "corr-1".to_string(),
        ordinal: 6,
        rejected_at,
        audit_event_id: "audit-r".to_string(),
        actor: "head_of_products".to_string(),
        audit: Some(RejectionAuditRow {
            occurred_at: rejected_at,
            actor: "head_of_products".to_string(),
            module: "work_management".to_string(),
            event_code: CODE.to_string(),
            target_type: target_type.to_string(),
            target_id: target_id.to_string(),
            correlation_id: "corr-1".to_string(),
            policy_outcome: "allowed".to_string(),
            approval_outcome: "rejected".to_string(),
            execution_outcome: "not_attempted".to_string(),
            effect_scope: "none".to_string(),
            effect_count: 0,
        }),
        prepared_consumed_at: Some(rejected_at),
    }
}

#[test]
fn no_rejection_row_decodes_to_nothing() {
    assert!(decode_prepared_intent_rejection(&complete_preview(), None, CODE).unwrap().is_none());
}

#[test]
fn rejection_of_a_completion_decodes_on_its_action() {
    let capsule = decode_prepared_intent_rejection(&complete_preview(), Some(rows(900, "action", "act-1")), CODE)
        .unwrap()
        .unwrap();
    assert_eq!(capsule.operation_ordinal, 6);
    assert!(matches!(
        &capsule.command,
        ActionPersistenceCommand::RejectPrepared { prepared_id, actor }
            if prepared_id == "prep-1" && actor == "head_of_products"
    ));
    match &capsule.result {
        ActionPersistenceResult::Rejected(outcome) => {
            assert!(!outcome.expired);
            assert_eq!(outcome.occurred_at, 900);
            assert_eq!(outcome.audit_event_id, "audit-r");
            assert!(matches!(&outcome.target, AuditTarget::Action(id) if id == "act-1"));
        }
        _ => panic!("a rejection records a Rejected result"),
    }
}

#[test]
fn rejection_at_or_after_expiry_is_marked_expired() {
    let capsule = decode_prepared_intent_rejection(&complete_preview(), Some(rows(5_000, "action", "act-1")), CODE)
        .unwrap()
        .unwrap();
    assert!(matches!(&capsule.result, ActionPersistenceResult::Rejected(outcome) if outcome.expired));
}

#[test]
fn rejection_of_an_acceptance_is_audited_on_the_request() {
    let accept = preview(PreparedOperation::AcceptActionRequest {
        request_id: "req-1".to_string(),
        request_version: 2,
        action_id: "act-1".to_string(),
        action_classification: "internal".to_string(),
        action_subject: "Ship".to_string(),
        commitment_details: "Details".to_string(),
        intended_owner: "owner-1".to_string(),
        intended_due_at: 9_000,
    });
    let capsule = decode_prepared_intent_rejection(&accept, Some(rows(900, "action_request", "req-1")), CODE)
        .unwrap()
        .unwrap();
    assert!(matches!(
        &capsule.result,
        ActionPersistenceResult::Rejected(outcome) if matches!(&outcome.target, AuditTarget::ActionRequest(id) if id == "req-1")
    ));
    let wrong = decode_prepared_intent_rejection(&accept, Some(rows(900, "action", "act-1")), CODE);
    assert_eq!(wrong.map(|_| ()), Err(ActionPersistenceLoadError::InvalidActionSnapshot));
}

#[test]
fn malformed_rejections_are_invalid_snapshots() {
    let invalid = Err(ActionPersistenceLoadError::InvalidActionSnapshot);
    let decode = |rows: RejectionRows| decode_prepared_intent_rejection(&complete_preview(), Some(rows), CODE).map(|_| ());
    let mut r = rows(900, "action", "act-1");
    r.actor = "someone_else".to_string();
    assert_eq!(decode(r), invalid);
    let mut r = rows(900, "action", "act-1");
    r.ordinal = -1;
    assert_eq!(decode(r), invalid);
    let mut r = rows(900, "action", "act-1");
    r.audit = None;
    assert_eq!(decode(r), invalid);
    let mut r = rows(900, "action", "act-1");
    r.prepared_consumed_at = Some(901);
    assert_eq!(decode(r), invalid);
    let mut r = rows(900, "action", "act-1");
    if let Some(audit) = r.audit.as_mut() {
        audit.effect_count = 1;
    }
    assert_eq!(decode(r), invalid);
    let mut r = rows(900, "action", "act-1");
    if let Some(audit) = r.audit.as_mut() {
        audit.approval_outcome = "approved".to_string();
    }
    assert_eq!(decode(r), invalid);
    // A lowering preview cannot be rejected.
    let lowering = preview(PreparedOperation::LowerActionClassification {
        action_id: "act-1".to_string(),
        action_version: 2,
        current_classification: "confidential".to_string(),
        proposed_classification: "internal".to_string(),
        rationale: "Public now".to_string(),
    });
    let refused = decode_prepared_intent_rejection(&lowering, Some(rows(900, "action", "act-1")), CODE);
    assert_eq!(refused.map(|_| ()), invalid);
}

#[test]
fn encoded_rejection_decodes_to_its_capsule() {
    let intent = preview(PreparedOperation::AcceptActionRequest {
        request_id: "req-1".to_string(),
        request_version: 2,
        action_id: "act-9".to_string(),
        action_classification: "internal".to_string(),
        action_subject: "Ship".to_string(),
        commitment_details: "Details".to_string(),
        intended_owner: "owner-1".to_string(),
        intended_due_at: 9_000,
    });
    let rows = encode_prepared_intent_rejection(
        &intent,
        &"k-4".to_string(),
        &"corr-4".to_string(),
        12,
        &"audit-4".to_string(),
        6_000,
        CODE,
    );
    let audit = rows.audit.as_ref().unwrap();
    assert_eq!((audit.target_type.as_str(), audit.target_id.as_str()), ("action_request", "req-1"));
    assert_eq!(audit.effect_count, 0);
    assert_eq!(rows.prepared_consumed_at, Some(6_000));
    let capsule = decode_prepared_intent_rejection(&intent, Some(rows), CODE).unwrap().unwrap();
    assert_eq!(capsule.operation_ordinal, 12);
    assert_eq!(capsule.idempotency_id, "k-4");
    match capsule.result {
        ActionPersistenceResult::Rejected(outcome) => {
            assert!(outcome.expired);
            assert_eq!(outcome.audit_event_id, "audit-4");
            assert!(matches!(&outcome.target, AuditTarget::ActionRequest(id) if id == "req-1"));
        }
        _ => panic!("a rejection records a Rejected outcome"),
    }
}
