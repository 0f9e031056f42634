use pmc_ledger::errors::{ActionOperationContext, DomainErrorKind, NextIntent};
use pmc_ledger::ledger::{SqliteProductLedger, CURRENT_SCHEMA_VERSION};
use pmc_ledger::load_error::ActionPersistenceLoadError;
use pmc_ledger::model::{
    ActionPersistenceResult, ActionPersistenceSnapshot, ActionRecord, AuditEventCode, AuditTarget,
    CreateActionRequestDraft, DeclineActionRequest, EvidenceBinding, LinkActionCompletionEvidence,
    StartAction, SubmitActionRequest, WithdrawActionRequest,
};
use pmc_ledger::states::{ActionRequestState, ActionState};

fn ctx(key: &str) -> ActionOperationContext {
    ActionOperationContext { idempotency_id: key.to_string(), correlation_id: format!("corr-{key}") }
}

fn create(key: &str, id: &str) -> CreateActionRequestDraft {
    CreateActionRequestDraft {
        context: ctx(key),
        id: id.to_string(),
        title: "Ship the roadmap".to_string(),
        details: "Details".to_string(),
        intended_owner: Some("stakeholder-1".to_string()),
        response_due_at: Some(1_000),
        intended_action_due_at: None,
        classification: "internal".to_string(),
    }
}

fn submit(key: &str, id: &str, version: u64) -> SubmitActionRequest {
    SubmitActionRequest { context: ctx(key), request_id: id.to_string(), expected_version: version }
}

#[test]
fn create_submit_decline_lifecycle() {
    let mut ledger = SqliteProductLedger::new(CURRENT_SCHEMA_VERSION);
    let created = ledger.create_action_request_draft(create("k1", "req-1"), "audit-1".to_string(), 100).unwrap();
    assert_eq!(created.record.state, ActionRequestState::Draft);
    assert_eq!(created.record.version, 1);
    assert_eq!(created.record.title, "Ship the roadmap");
    assert_eq!(created.audit_events.len(), 1);
    assert_eq!(created.audit_events[0].code, AuditEventCode::ActionRequestCreated);
    assert_eq!(created.audit_events[0].code.as_str(), "action_request.created");
    assert_eq!(created.audit_events[0].occurred_at, 100);
    assert_eq!(created.audit_events[0].correlation_id, "corr-k1");
    assert!(matches!(&created.audit_events[0].target, AuditTarget::ActionRequest(id) if id == "req-1"));
    assert_eq!(ledger.revision(), 1);

    let submitted = ledger.submit_action_request(submit("k2", "req-1", 1), "audit-2".to_string(), 200).unwrap();
    assert_eq!(submitted.record.state, ActionRequestState::Open);
    assert_eq!(submitted.record.version, 2);
    assert_eq!(submitted.audit_events[0].code, AuditEventCode::ActionRequestSubmitted);

    let declined = ledger
        .decline_action_request(
            DeclineActionRequest {
                context: ctx("k3"),
                request_id: "req-1".to_string(),
                expected_version: 2,
                rationale: "Not now".to_string(),
            },
            "audit-3".to_string(),
            300,
        )
        .unwrap();
    assert_eq!(declined.record.state, ActionRequestState::Declined);
    assert_eq!(declined.record.version, 3);
    assert_eq!(declined.record.terminal_rationale, Some("Not now".to_string()));
    assert_eq!(ledger.revision(), 3);

    let snapshot = ledger.snapshot();
    assert_eq!(snapshot.replay.len(), 3);
    let ordinals: Vec<u64> = snapshot.replay.iter().map(|c| c.operation_ordinal).collect();
    assert_eq!(ordinals, vec![0, 1, 2]);
    assert_eq!(snapshot.requests[0].state, ActionRequestState::Declined);
}

#[test]
fn replay_returns_the_recorded_outcome_and_changes_nothing() {
    let mut ledger = SqliteProductLedger::new(CURRENT_SCHEMA_VERSION);
    let first = ledger.create_action_request_draft(create("k1", "req-1"), "audit-1".to_string(), 100).unwrap();
    let again = ledger.create_action_request_draft(create("k1", "req-1"), "audit-other".to_string(), 999).unwrap();
    assert_eq!(again.audit_events[0].id, first.audit_events[0].id);
    assert_eq!(again.audit_events[0].occurred_at, 100);
    assert_eq!(ledger.revision(), 1);
    assert_eq!(ledger.snapshot().replay.len(), 1);

    ledger.submit_action_request(submit("k2", "req-1", 1), "audit-2".to_string(), 200).unwrap();
    let replayed = ledger.submit_action_request(submit("k2", "req-1", 1), "audit-9".to_string(), 900).unwrap();
    assert_eq!(replayed.record.version, 2);
    assert_eq!(replayed.audit_events[0].id, "audit-2");
    assert_eq!(ledger.revision(), 2);
}

#[test]
fn reusing_a_key_for_another_command_is_a_conflict() {
    let mut ledger = SqliteProductLedger::new(CURRENT_SCHEMA_VERSION);
    ledger.create_action_request_draft(create("k1", "req-1"), "audit-1".to_string(), 100).unwrap();
    let error = ledger.submit_action_request(submit("k1", "req-1", 1), "audit-2".to_string(), 200).err().unwrap();
    assert_eq!(error.kind, DomainErrorKind::IdempotencyConflict);
    assert_eq!(error.kind.message_key(), "ledger.idempotency_conflict");
    assert!(!error.kind.retryable());
    // A different create under the same key is a conflict too.
    let mut other = create("k1", "req-2");
    other.title = "Other".to_string();
    let error = ledger.create_action_request_draft(other, "audit-3".to_string(), 300).err().unwrap();
    assert_eq!(error.kind, DomainErrorKind::IdempotencyConflict);
    assert_eq!(ledger.revision(), 1);
}

#[test]
fn refusals_report_their_kind_and_change_nothing() {
    let mut ledger = SqliteProductLedger::new(CURRENT_SCHEMA_VERSION);
    ledger.create_action_request_draft(create("k1", "req-1"), "audit-1".to_string(), 100).unwrap();

    let exists = ledger.create_action_request_draft(create("k2", "req-1"), "a".to_string(), 1).err().unwrap();
    assert_eq!(exists.kind, DomainErrorKind::AlreadyExists);
    assert_eq!(exists.kind.message_key(), "action_request.already_exists");

    let missing = ledger.submit_action_request(submit("k3", "req-404", 1), "a".to_string(), 1).err().unwrap();
    assert_eq!(missing.kind, DomainErrorKind::NotFound);
    assert_eq!(missing.correlation_id, "corr-k3");

    let stale = ledger.submit_action_request(submit("k4", "req-1", 7), "a".to_string(), 1).err().unwrap();
    assert_eq!(stale.kind, DomainErrorKind::TransitionConflict);
    assert_eq!(stale.current_version, Some(1));
    assert_eq!(stale.current_state, Some(ActionRequestState::Draft));
    assert_eq!(stale.allowed_next_intents, vec![NextIntent::SubmitActionRequest]);

    let not_open = ledger
        .withdraw_action_request(
            WithdrawActionRequest {
                context: ctx("k5"),
                request_id: "req-1".to_string(),
                expected_version: 1,
                rationale: "r".to_string(),
            },
            "a".to_string(),
            1,
        )
        .err()
        .unwrap();
    assert_eq!(not_open.kind, DomainErrorKind::TransitionConflict);
    assert_eq!(not_open.kind.message_key(), "action.domain_conflict");
    assert_eq!(ledger.revision(), 1);
    assert_eq!(ledger.snapshot().replay.len(), 1);
}

#[test]
fn open_request_conflict_lists_three_next_intents() {
    let mut ledger = SqliteProductLedger::new(CURRENT_SCHEMA_VERSION);
    ledger.create_action_request_draft(create("k1", "req-1"), "a1".to_string(), 1).unwrap();
    ledger.submit_action_request(submit("k2", "req-1", 1), "a2".to_string(), 2).unwrap();
    let error = ledger.submit_action_request(submit("k3", "req-1", 2), "a3".to_string(), 3).err().unwrap();
    assert_eq!(error.current_state, Some(ActionRequestState::Open));
    assert_eq!(
        error.allowed_next_intents,
        vec![
            NextIntent::PrepareAcceptActionRequest,
            NextIntent::DeclineActionRequest,
            NextIntent::WithdrawActionRequest
        ]
    );
    assert_eq!(NextIntent::DeclineActionRequest.name(), "decline_action_request");
    let withdrawn = ledger
        .withdraw_action_request(
            WithdrawActionRequest {
                context: ctx("k4"),
                request_id: "req-1".to_string(),
                expected_version: 2,
                rationale: "gone".to_string(),
            },
            "a4".to_string(),
            4,
        )
        .unwrap();
    assert_eq!(withdrawn.record.state, ActionRequestState::Withdrawn);
    assert_eq!(withdrawn.record.version, 3);
    let after = ledger
        .decline_action_request(
            DeclineActionRequest {
                context: ctx("k5"),
                request_id: "req-1".to_string(),
                expected_version: 3,
                rationale: "late".to_string(),
            },
            "a5".to_string(),
            5,
        )
        .err()
        .unwrap();
    assert_eq!(after.current_state, Some(ActionRequestState::Withdrawn));
    assert!(after.allowed_next_intents.is_empty());
}

fn ledger_with_action() -> SqliteProductLedger {
    let action = ActionRecord {
        id: "act-1".to_string(),
        source_request_id: "req-1".to_string(),
        title: "Ship".to_string(),
        details: "Details".to_string(),
        owner_id: "stakeholder-1".to_string(),
        due_at: 5_000,
        classification: "internal".to_string(),
        state: ActionState::Open,
        version: 1,
        completion_evidence: Vec::new(),
        transition_reason: None,
        supported_by: None,
        transition_history: Vec::new(),
        source_decision_id: None,
        superseded_premise: false,
    };
    let snapshot = ActionPersistenceSnapshot { requests: Vec::new(), actions: vec![action], replay: Vec::new(), prepared: Vec::new(), discarded: Vec::new() };
    let evidence = vec![EvidenceBinding { evidence_id: "ev-1".to_string(), classification: "confidential".to_string() }];
    SqliteProductLedger::from_parts(CURRENT_SCHEMA_VERSION, 10, snapshot, evidence).unwrap()
}

#[test]
fn start_then_link_completion_evidence() {
    let mut ledger = ledger_with_action();
    let started = ledger
        .start_action(
            StartAction { context: ctx("s1"), action_id: "act-1".to_string(), expected_version: 1 },
            "audit-s".to_string(),
            10,
        )
        .unwrap();
    assert_eq!(started.record.state, ActionState::InProgress);
    assert_eq!(started.record.version, 2);
    assert_eq!(started.audit_events[0].code.as_str(), "action.started");
    assert_eq!(ledger.revision(), 11);

    let link = |key: &str, version: u64, evidence: &str| LinkActionCompletionEvidence {
        context: ctx(key),
        action_id: "act-1".to_string(),
        expected_version: version,
        evidence_id: evidence.to_string(),
    };
    let linked = ledger.link_action_completion_evidence(link("l1", 2, "ev-1"), "audit-l".to_string(), 20).unwrap();
    assert_eq!(linked.record.version, 3);
    assert_eq!(linked.record.completion_evidence.len(), 1);
    assert_eq!(linked.record.completion_evidence[0].evidence_id, "ev-1");
    assert_eq!(linked.record.completion_evidence[0].classification, "confidential");
    assert_eq!(linked.audit_events[0].code, AuditEventCode::ActionCompletionEvidenceLinked);

    let twice = ledger.link_action_completion_evidence(link("l2", 3, "ev-1"), "a".to_string(), 30).err().unwrap();
    assert_eq!(twice.kind, DomainErrorKind::CompletionEvidenceAlreadyLinked);
    let unknown = ledger.link_action_completion_evidence(link("l3", 3, "ev-9"), "a".to_string(), 30).err().unwrap();
    assert_eq!(unknown.kind, DomainErrorKind::EvidenceNotFound);
    assert_eq!(unknown.kind.message_key(), "evidence_reference.not_found");
    let stale = ledger.link_action_completion_evidence(link("l4", 2, "ev-1"), "a".to_string(), 30).err().unwrap();
    assert_eq!(stale.kind, DomainErrorKind::TransitionConflict);
    assert_eq!(stale.current_version, Some(3));
    assert_eq!(stale.current_state, None);

    let replay = ledger.link_action_completion_evidence(link("l1", 2, "ev-1"), "x".to_string(), 99).unwrap();
    assert_eq!(replay.record.version, 3);
    assert_eq!(ledger.revision(), 12);

    let restart = ledger
        .start_action(
            StartAction { context: ctx("s2"), action_id: "act-1".to_string(), expected_version: 3 },
            "a".to_string(),
            40,
        )
        .err()
        .unwrap();
    assert_eq!(restart.kind, DomainErrorKind::TransitionConflict);
    match &ledger.snapshot().replay[1].result {
        ActionPersistenceResult::Action(outcome) => assert_eq!(outcome.record.version, 3),
        _ => panic!("expected an action outcome"),
    }
}

#[test]
fn linking_needs_an_action_in_progress() {
    let mut ledger = ledger_with_action();
    let error = ledger
        .link_action_completion_evidence(
            LinkActionCompletionEvidence {
                context: ctx("l1"),
                action_id: "act-1".to_string(),
                expected_version: 1,
                evidence_id: "ev-1".to_string(),
            },
            "a".to_string(),
            1,
        )
        .err()
        .unwrap();
    assert_eq!(error.kind, DomainErrorKind::TransitionConflict);
    assert_eq!(error.current_version, Some(1));
}

#[test]
fn malformed_namespaces_are_refused_on_open() {
    let action = |id: &str, version: u64| ActionRecord {
        id: id.to_string(),
        source_request_id: "req".to_string(),
        title: "t".to_string(),
        details: "d".to_string(),
        owner_id: "o".to_string(),
        due_at: 0,
        classification: "internal".to_string(),
        state: ActionState::Open,
        version,
        completion_evidence: Vec::new(),
        transition_reason: None,
        supported_by: None,
        transition_history: Vec::new(),
        source_decision_id: None,
        superseded_premise: false,
    };
    let twice = ActionPersistenceSnapshot { requests: Vec::new(), actions: vec![action("a", 1), action("a", 1)], replay: Vec::new(), prepared: Vec::new(), discarded: Vec::new() };
    assert_eq!(
        SqliteProductLedger::from_parts(CURRENT_SCHEMA_VERSION, 0, twice, Vec::new()).err(),
        Some(ActionPersistenceLoadError::InvalidActionSnapshot)
    );
    let version_zero = ActionPersistenceSnapshot { requests: Vec::new(), actions: vec![action("a", 0)], replay: Vec::new(), prepared: Vec::new(), discarded: Vec::new() };
    assert_eq!(
        SqliteProductLedger::from_parts(CURRENT_SCHEMA_VERSION, 0, version_zero, Vec::new()).err(),
        Some(ActionPersistenceLoadError::InvalidActionSnapshot)
    );
    let evidence_twice = vec![
        EvidenceBinding { evidence_id: "e".to_string(), classification: "internal".to_string() },
        EvidenceBinding { evidence_id: "e".to_string(), classification: "public".to_string() },
    ];
    let empty = ActionPersistenceSnapshot { requests: Vec::new(), actions: Vec::new(), replay: Vec::new(), prepared: Vec::new(), discarded: Vec::new() };
    assert!(SqliteProductLedger::from_parts(CURRENT_SCHEMA_VERSION, 0, empty, evidence_twice).is_err());
}

#[test]
fn loading_checks_the_schema_version() {
    let ledger = SqliteProductLedger::new(CURRENT_SCHEMA_VERSION - 1);
    assert_eq!(
        ledger.load_action_persistence_snapshot().err(),
        Some(ActionPersistenceLoadError::UnsupportedSchema { found: CURRENT_SCHEMA_VERSION - 1 })
    );
    let mut ledger = SqliteProductLedger::new(CURRENT_SCHEMA_VERSION);
    assert!(ledger.load_action_persistence_snapshot().unwrap().requests.is_empty());
    ledger.create_action_request_draft(create("k1", "req-1"), "a".to_string(), 1).unwrap();
    let loaded = ledger.load_action_persistence_snapshot().unwrap();
    assert_eq!(loaded.requests.len(), 1);
    assert_eq!(loaded.replay.len(), 1);
    assert_eq!(loaded.requests[0].id, "req-1");
}

#[test]
fn reopened_namespace_needs_dense_ordinals() {
    let mut ledger = SqliteProductLedger::new(CURRENT_SCHEMA_VERSION);
    ledger.create_action_request_draft(create("k1", "req-1"), "audit-1".to_string(), 100).unwrap();
    ledger.create_action_request_draft(create("k2", "req-2"), "audit-2".to_string(), 200).unwrap();
    let snapshot = ledger.snapshot().clone();
    assert_eq!(snapshot.replay[1].operation_ordinal, 1);
    let reopened = SqliteProductLedger::from_parts(CURRENT_SCHEMA_VERSION, 2, snapshot, Vec::new()).unwrap();
    assert_eq!(reopened.snapshot().requests.len(), 2);
    let mut gapped = ledger.snapshot().clone();
    gapped.replay[1].operation_ordinal = 2;
    assert_eq!(
        SqliteProductLedger::from_parts(CURRENT_SCHEMA_VERSION, 2, gapped, Vec::new()).err(),
        Some(ActionPersistenceLoadError::InvalidActionSnapshot)
    );
}
