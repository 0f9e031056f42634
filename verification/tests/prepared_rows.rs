use pmc_ledger::load_error::ActionPersistenceLoadError;
use pmc_ledger::model::{
    ActionPersistenceCommand, ActionPersistenceResult, ActionRequestRecord, PreparedIntent,
    PreparedIntentKind, PreparedOperation,
};
use pmc_ledger::prepared_rows::{
    check_intent_row, decode_prepared_accept, decode_prepared_transition, encode_prepared_accept,
    encode_prepared_transition, EffectRow, PayloadRow,
    PrepareReplayRow, PreparedAcceptRows, PreparedIntentRow, PreparedTransitionRows, SourceRow,
    TargetRow,
};
use pmc_ledger::approvals::{PrepareAcceptActionRequest, PrepareCancelAction};
use pmc_ledger::errors::ActionOperationContext;
use pmc_ledger::ledger::{SqliteProductLedger, CURRENT_SCHEMA_VERSION};
use pmc_ledger::model::{ActionPersistenceSnapshot, ActionRecord, HumanJudgment};
use pmc_ledger::states::{ActionReopenMode, ActionRequestState, ActionState};

fn request() -> ActionRequestRecord {
    ActionRequestRecord {
        id: "req-1".to_string(),
        title: "Ship".to_string(),
        details: "Details".to_string(),
        intended_owner: Some("owner-1".to_string()),
        response_due_at: None,
        intended_action_due_at: Some(9_000),
        classification: "internal".to_string(),
        state: ActionRequestState::Open,
        version: 2,
        terminal_rationale: None,
        linked_action_id: None,
    }
}

fn intent_row(kind: &str, support: Option<&str>) -> PreparedIntentRow {
    PreparedIntentRow {
        contract_version: 1,
        intent_kind: kind.to_string(),
        payload_digest: "digest-1".to_string(),
        classification: "internal".to_string(),
        policy: "allowed".to_string(),
        cancellation_policy: "not_cancellable_after_submit".to_string(),
        authority: "head_of_products".to_string(),
        support_id: support.map(|s| s.to_string()),
        confirmation_challenge: None,
        expires_at: 5_000,
        created_at: 1_000,
    }
}

fn empty_payload(primary: &str, version: i64) -> PayloadRow {
    PayloadRow {
        primary_id: primary.to_string(),
        primary_version: version,
        created_id: None,
        created_classification: None,
        subject: None,
        details: None,
        intended_owner_id: None,
        due_at: None,
        statement: None,
        rationale: None,
        impact: None,
        decision_owner_id: None,
        decided_at: None,
        reopen_mode: None,
        resolution_type: None,
        replacement_id: None,
        replacement_version: None,
        replacement_classification: None,
        replacement_statement: None,
        replacement_rationale: None,
        replacement_impact: None,
        replacement_owner_id: None,
        replacement_decided_at: None,
    }
}

fn effect(ordinal: i64, code: &str, target_type: &str, target_id: &str, secondary: Option<(&str, &str)>) -> EffectRow {
    EffectRow {
        ordinal,
        effect_code: code.to_string(),
        target_type: Some(target_type.to_string()),
        target_id: Some(target_id.to_string()),
        secondary_target_type: secondary.map(|s| s.0.to_string()),
        secondary_target_id: secondary.map(|s| s.1.to_string()),
    }
}

fn source(ordinal: i64, role: &str, id: Option<&str>) -> SourceRow {
    SourceRow {
        ordinal,
        role: role.to_string(),
        source_id: id.map(|s| s.to_string()),
        classification: "internal".to_string(),
    }
}

fn accept_rows() -> PreparedAcceptRows {
    let mut payload = empty_payload("req-1", 2);
    payload.created_id = Some("act-1".to_string());
    payload.created_classification = Some("internal".to_string());
    payload.subject = Some("Ship".to_string());
    payload.details = Some("Details".to_string());
    payload.intended_owner_id = Some("owner-1".to_string());
    payload.due_at = Some(9_000);
    PreparedAcceptRows {
        idempotency_id: "k-prepare".to_string(),
        command_request_id: "req-1".to_string(),
        command_expected_version: 2,
        replay: PrepareReplayRow {
            correlation_id: "corr-1".to_string(),
            operation_ordinal: 4,
            result_kind: "prepared".to_string(),
            result_reference: Some("pi-1".to_string()),
            prepared_intent_id: None,
            prepared_disposition: "not_applicable".to_string(),
            terminal_cause: None,
            error_code: None,
            error_message_key: None,
            error_correlation_id: None,
            error_retryable: None,
            attempted_digest: None,
            private_detail_ref: None,
        },
        intent: intent_row("accept_action_request", None),
        payload,
        targets: vec![TargetRow {
            ordinal: 0,
            target_type: "action_request".to_string(),
            target_id: "req-1".to_string(),
            expected_version: 2,
        }],
        effects: vec![
            effect(0, "action_request.accepted", "action_request", "req-1", None),
            effect(1, "action.created_from_request", "action", "act-1", None),
            effect(2, "action_request.action_linked", "action_request", "req-1", Some(("action", "act-1"))),
        ],
        sources: vec![source(0, "primary_target", None), source(1, "created_action", Some("act-1"))],
        audit_count: 0,
    }
}

fn rebuilt_accept() -> PreparedIntent {
    PreparedIntent {
        id: "pi-1".to_string(),
        operation: PreparedOperation::AcceptActionRequest {
            request_id: "req-1".to_string(),
            request_version: 2,
            action_id: "act-1".to_string(),
            action_classification: "internal".to_string(),
            action_subject: "Ship".to_string(),
            commitment_details: "Details".to_string(),
            intended_owner: "owner-1".to_string(),
            intended_due_at: 9_000,
        },
        payload_digest: "digest-1".to_string(),
        classification: "internal".to_string(),
        expires_at: 5_000,
        support: None,
        policy: "allowed".to_string(),
        cancellation_policy: "not_cancellable_after_submit".to_string(),
        authority: "head_of_products".to_string(),
    }
}

#[test]
fn prepared_acceptance_decodes() {
    let (intent, capsule) = decode_prepared_accept(&request(), accept_rows(), Some(rebuilt_accept())).unwrap();
    assert_eq!(intent.id, "pi-1");
    assert_eq!(capsule.operation_ordinal, 4);
    assert_eq!(capsule.correlation_id, "corr-1");
    assert!(matches!(
        capsule.command,
        ActionPersistenceCommand::PrepareAccept { ref request_id, expected_version: 2 } if request_id == "req-1"
    ));
    assert!(matches!(capsule.result, ActionPersistenceResult::Prepared(_)));
}

#[test]
fn prepared_acceptance_refusals() {
    let invalid = Err(ActionPersistenceLoadError::InvalidActionSnapshot);
    let decode = |rows: PreparedAcceptRows, rebuilt: Option<PreparedIntent>| {
        decode_prepared_accept(&request(), rows, rebuilt).map(|_| ())
    };
    assert_eq!(decode(accept_rows(), None), invalid);
    let mut other_digest = rebuilt_accept();
    other_digest.payload_digest = "digest-2".to_string();
    assert_eq!(decode(accept_rows(), Some(other_digest)), invalid);
    let mut audited = accept_rows();
    audited.audit_count = 1;
    assert_eq!(decode(audited, Some(rebuilt_accept())), invalid);
    let mut swapped = accept_rows();
    swapped.effects.swap(0, 1);
    assert_eq!(decode(swapped, Some(rebuilt_accept())), invalid);
    let mut terminal = accept_rows();
    terminal.replay.result_kind = "terminal".to_string();
    assert_eq!(decode(terminal, Some(rebuilt_accept())), invalid);
    let mut with_statement = accept_rows();
    with_statement.payload.statement = Some("x".to_string());
    assert_eq!(decode(with_statement, Some(rebuilt_accept())), invalid);
    let mut expired_before_created = accept_rows();
    expired_before_created.intent.expires_at = 500;
    assert_eq!(decode(expired_before_created, Some(rebuilt_accept())), invalid);
}

#[test]
fn intent_rows_by_kind() {
    assert!(check_intent_row(&intent_row("complete_action", Some("support-1")), PreparedIntentKind::CompleteAction));
    assert!(!check_intent_row(&intent_row("complete_action", None), PreparedIntentKind::CompleteAction));
    assert!(!check_intent_row(&intent_row("cancel_action", Some("support-1")), PreparedIntentKind::CancelAction));
    assert!(!check_intent_row(&intent_row("cancel_action", None), PreparedIntentKind::ReopenAction));
}

fn transition_rows(kind: &str, code: &str) -> PreparedTransitionRows {
    let mut payload = empty_payload("act-1", 3);
    payload.details = Some("Because".to_string());
    PreparedTransitionRows {
        command_action_id: "act-1".to_string(),
        command_expected_version: 3,
        command_reason: Some("Because".to_string()),
        command_mode: None,
        judgment_disposition: None,
        judgment_actor: None,
        judgment_rationale: None,
        judgment_classification: None,
        intent: intent_row(kind, None),
        payload,
        targets: vec![TargetRow {
            ordinal: 0,
            target_type: "action".to_string(),
            target_id: "act-1".to_string(),
            expected_version: 3,
        }],
        effects: vec![effect(0, code, "action", "act-1", None)],
        sources: vec![source(0, "primary_target", None), source(1, "evidence", Some("ev-1"))],
        audit_count: 0,
    }
}

#[test]
fn prepared_cancellation_and_reopening_decode() {
    let expected_sources = vec![source(0, "primary_target", None), source(1, "evidence", Some("ev-1"))];
    let cancel = PreparedIntent {
        id: "pi-c".to_string(),
        operation: PreparedOperation::CancelAction {
            action_id: "act-1".to_string(),
            action_version: 3,
            reason: "Because".to_string(),
        },
        payload_digest: "digest-1".to_string(),
        classification: "internal".to_string(),
        expires_at: 5_000,
        support: None,
        policy: "allowed".to_string(),
        cancellation_policy: "not_cancellable_after_submit".to_string(),
        authority: "head_of_products".to_string(),
    };
    let (intent, command) = decode_prepared_transition(
        PreparedIntentKind::CancelAction,
        &"pi-c".to_string(),
        transition_rows("cancel_action", "action.cancelled"),
        Some(cancel),
        &expected_sources,
    )
    .unwrap();
    assert_eq!(intent.id, "pi-c");
    assert!(matches!(
        command,
        ActionPersistenceCommand::PrepareActionTransition { kind: PreparedIntentKind::CancelAction, expected_version: 3, .. }
    ));

    let mut rows = transition_rows("reopen_action", "action.reopened");
    rows.command_mode = Some("reopen_completed".to_string());
    rows.payload.reopen_mode = Some("reopen_completed".to_string());
    let reopen = PreparedIntent {
        id: "pi-r".to_string(),
        operation: PreparedOperation::ReopenAction {
            action_id: "act-1".to_string(),
            action_version: 3,
            mode: ActionReopenMode::ReopenCompleted,
            reason: "Because".to_string(),
        },
        payload_digest: "digest-1".to_string(),
        classification: "internal".to_string(),
        expires_at: 5_000,
        support: None,
        policy: "allowed".to_string(),
        cancellation_policy: "not_cancellable_after_submit".to_string(),
        authority: "head_of_products".to_string(),
    };
    assert!(decode_prepared_transition(
        PreparedIntentKind::ReopenAction,
        &"pi-r".to_string(),
        rows,
        Some(reopen),
        &expected_sources,
    )
    .is_ok());

    // A mode the store does not know is an invalid snapshot.
    let mut unknown_mode = transition_rows("reopen_action", "action.reopened");
    unknown_mode.command_mode = Some("resurrect".to_string());
    unknown_mode.payload.reopen_mode = Some("resurrect".to_string());
    assert_eq!(
        decode_prepared_transition(
            PreparedIntentKind::ReopenAction,
            &"pi-r".to_string(),
            unknown_mode,
            None,
            &expected_sources,
        )
        .map(|_| ()),
        Err(ActionPersistenceLoadError::InvalidActionSnapshot)
    );
}

#[test]
fn prepared_completion_with_judgment() {
    let mut rows = transition_rows("complete_action", "action.completed");
    rows.intent.support_id = Some("support-1".to_string());
    rows.command_reason = None;
    rows.payload.details = None;
    rows.judgment_disposition = Some("proceed_with_documented_rationale".to_string());
    rows.judgment_actor = Some("head_of_products".to_string());
    rows.judgment_rationale = Some("Evidence is stale".to_string());
    rows.judgment_classification = Some("internal".to_string());
    rows.sources = vec![source(0, "primary_target", None)];
    let complete = PreparedIntent {
        id: "pi-x".to_string(),
        operation: PreparedOperation::CompleteAction { action_id: "act-1".to_string(), action_version: 3 },
        payload_digest: "digest-1".to_string(),
        classification: "internal".to_string(),
        expires_at: 5_000,
        support: None,
        policy: "allowed".to_string(),
        cancellation_policy: "not_cancellable_after_submit".to_string(),
        authority: "head_of_products".to_string(),
    };
    let expected_sources = vec![source(0, "primary_target", None)];
    assert!(decode_prepared_transition(
        PreparedIntentKind::CompleteAction,
        &"pi-x".to_string(),
        rows,
        Some(complete),
        &expected_sources,
    )
    .is_ok());

    let mut half_judgment = transition_rows("complete_action", "action.completed");
    half_judgment.intent.support_id = Some("support-1".to_string());
    half_judgment.command_reason = None;
    half_judgment.payload.details = None;
    half_judgment.judgment_disposition = Some("proceed_with_documented_rationale".to_string());
    let complete = PreparedIntent {
        id: "pi-x".to_string(),
        operation: PreparedOperation::CompleteAction { action_id: "act-1".to_string(), action_version: 3 },
        payload_digest: "digest-1".to_string(),
        classification: "internal".to_string(),
        expires_at: 5_000,
        support: None,
        policy: "allowed".to_string(),
        cancellation_policy: "not_cancellable_after_submit".to_string(),
        authority: "head_of_products".to_string(),
    };
    assert!(decode_prepared_transition(
        PreparedIntentKind::CompleteAction,
        &"pi-x".to_string(),
        half_judgment,
        Some(complete),
        &expected_sources,
    )
    .is_err());
}

fn ledger_with(requests: Vec<ActionRequestRecord>, actions: Vec<ActionRecord>) -> SqliteProductLedger {
    let snapshot = ActionPersistenceSnapshot { requests, actions, replay: Vec::new(), prepared: Vec::new(), discarded: Vec::new() };
    SqliteProductLedger::from_parts(CURRENT_SCHEMA_VERSION, 0, snapshot, Vec::new()).unwrap()
}

fn context() -> ActionOperationContext {
    ActionOperationContext { idempotency_id: "k-prepare".to_string(), correlation_id: "corr-1".to_string() }
}

#[test]
fn recorded_accept_preparation_decodes_to_its_capsule() {
    let mut ledger = ledger_with(vec![request()], Vec::new());
    ledger
        .prepare_accept_action_request(
            PrepareAcceptActionRequest { context: context(), request_id: "req-1".to_string(), expected_version: 2 },
            PREVIEW_LIFETIME,
            rebuilt_accept(),
            Some(rebuilt_accept()),
        )
        .unwrap();
    let recorded = ledger.snapshot().replay.last().unwrap();
    let mut rows = accept_rows();
    rows.replay.operation_ordinal = recorded.operation_ordinal as i64;
    let (intent, capsule) = decode_prepared_accept(&request(), rows, Some(rebuilt_accept())).unwrap();
    assert_eq!(format!("{capsule:?}"), format!("{recorded:?}"));
    assert_eq!(format!("{intent:?}"), format!("{:?}", ledger.snapshot().prepared[0]));
}

#[test]
fn recorded_cancel_preparation_decodes_to_its_command_and_preview() {
    let action = ActionRecord {
        id: "act-1".to_string(),
        source_request_id: "req-1".to_string(),
        title: "Ship".to_string(),
        details: "Details".to_string(),
        owner_id: "owner-1".to_string(),
        due_at: 9_000,
        classification: "internal".to_string(),
        state: ActionState::InProgress,
        version: 3,
        completion_evidence: Vec::new(),
        transition_reason: None,
        supported_by: None,
        transition_history: Vec::new(),
        source_decision_id: None,
        superseded_premise: false,
    };
    let cancel = PreparedIntent {
        id: "pi-c".to_string(),
        operation: PreparedOperation::CancelAction {
            action_id: "act-1".to_string(),
            action_version: 3,
            reason: "Because".to_string(),
        },
        payload_digest: "digest-1".to_string(),
        classification: "internal".to_string(),
        expires_at: 5_000,
        support: None,
        policy: "allowed".to_string(),
        cancellation_policy: "not_cancellable_after_submit".to_string(),
        authority: "head_of_products".to_string(),
    };
    let mut ledger = ledger_with(Vec::new(), vec![action]);
    ledger
        .prepare_cancel_action(
            PrepareCancelAction {
                context: context(),
                action_id: "act-1".to_string(),
                expected_version: 3,
                reason: "Because".to_string(),
            },
            Ok(cancel.clone()),
        )
        .unwrap();
    let recorded = ledger.snapshot().replay.last().unwrap();
    let expected_sources = vec![source(0, "primary_target", None), source(1, "evidence", Some("ev-1"))];
    let (intent, command) = decode_prepared_transition(
        PreparedIntentKind::CancelAction,
        &"pi-c".to_string(),
        transition_rows("cancel_action", "action.cancelled"),
        Some(cancel),
        &expected_sources,
    )
    .unwrap();
    assert_eq!(format!("{command:?}"), format!("{:?}", recorded.command));
    assert!(matches!(&recorded.result, ActionPersistenceResult::Prepared(p) if format!("{p:?}") == format!("{intent:?}")));
}

#[test]
fn encoded_transitions_decode_to_their_preview_and_command() {
    let sources = vec![source(7, "primary_target", None), source(9, "evidence", Some("ev-1"))];
    let reopen = PreparedIntent {
        id: "pi-r".to_string(),
        operation: PreparedOperation::ReopenAction {
            action_id: "act-1".to_string(),
            action_version: 3,
            mode: ActionReopenMode::RestartCancelled,
            reason: "Back on".to_string(),
        },
        payload_digest: "digest-1".to_string(),
        classification: "internal".to_string(),
        expires_at: 5_000,
        support: None,
        policy: "allowed".to_string(),
        cancellation_policy: "not_cancellable_after_submit".to_string(),
        authority: "head_of_products".to_string(),
    };
    let rows = encode_prepared_transition(&reopen, &None, 1_000, &sources);
    assert_eq!(rows.command_mode, Some("restart_cancelled".to_string()));
    assert_eq!(rows.sources[1].ordinal, 1);
    assert!(rows.intent.support_id.is_none());
    let (intent, command) =
        decode_prepared_transition(PreparedIntentKind::ReopenAction, &"pi-r".to_string(), rows, Some(reopen.clone()), &sources).unwrap();
    assert_eq!(intent.id, "pi-r");
    match command {
        ActionPersistenceCommand::PrepareActionTransition { kind, action_id, expected_version, details } => {
            assert_eq!(kind, PreparedIntentKind::ReopenAction);
            assert_eq!(action_id, "act-1");
            assert_eq!(expected_version, 3);
            assert_eq!(details.reason, Some("Back on".to_string()));
            assert_eq!(details.mode, Some(ActionReopenMode::RestartCancelled));
        }
        _ => panic!("a preparation decodes to its command"),
    }

    let complete = PreparedIntent {
        id: "pi-c".to_string(),
        operation: PreparedOperation::CompleteAction { action_id: "act-1".to_string(), action_version: 3 },
        payload_digest: "digest-2".to_string(),
        classification: "internal".to_string(),
        expires_at: 5_000,
        support: None,
        policy: "allowed".to_string(),
        cancellation_policy: "not_cancellable_after_submit".to_string(),
        authority: "head_of_products".to_string(),
    };
    let judgment = Some(HumanJudgment { rationale: "Shipped".to_string(), classification: "internal".to_string() });
    let rows = encode_prepared_transition(&complete, &judgment, 1_000, &sources);
    assert_eq!(rows.intent.support_id, Some("action-h2a-support-pi-c".to_string()));
    let (_, command) =
        decode_prepared_transition(PreparedIntentKind::CompleteAction, &"pi-c".to_string(), rows, Some(complete), &sources).unwrap();
    match command {
        ActionPersistenceCommand::PrepareActionTransition { details, .. } => {
            let decoded = details.judgment.unwrap();
            assert_eq!((decoded.rationale.as_str(), decoded.classification.as_str()), ("Shipped", "internal"));
        }
        _ => panic!("a preparation decodes to its command"),
    }
}

#[test]
fn encoded_acceptance_decodes_to_its_preview_and_capsule() {
    let preview = rebuilt_accept();
    let rows = encode_prepared_accept(&request(), &preview, &"k-7".to_string(), &"corr-7".to_string(), 9, 1_000);
    assert_eq!(rows.effects.len(), 3);
    assert_eq!(rows.sources.len(), 2);
    assert_eq!(rows.intent.created_at, 1_000);
    assert_eq!(rows.payload.created_id, Some("act-1".to_string()));
    let (intent, capsule) = decode_prepared_accept(&request(), rows, Some(rebuilt_accept())).unwrap();
    assert_eq!(intent.id, "pi-1");
    assert_eq!(capsule.idempotency_id, "k-7");
    assert_eq!(capsule.correlation_id, "corr-7");
    assert_eq!(capsule.operation_ordinal, 9);
    assert!(matches!(
        capsule.command,
        ActionPersistenceCommand::PrepareAccept { ref request_id, expected_version: 2 } if request_id == "req-1"
    ));
}

/// The lifetime the previews of these tests were prepared with.
const PREVIEW_LIFETIME: i64 = 1_000;
