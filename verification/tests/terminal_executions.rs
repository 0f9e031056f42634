use pmc_ledger::causes::ActionPersistenceTerminalCause;
use pmc_ledger::errors::ErrorCode;
use pmc_ledger::load_error::ActionPersistenceLoadError;
use pmc_ledger::model::{PreparedIntent, PreparedOperation};
use pmc_ledger::terminal_executions::{
    decode_execute_accept_terminal, decode_execute_action_terminal, ExecuteTerminalRows,
    PreparedDisposition, TerminalAuditRow,
};

fn s(text: &str) -> Option<String> {
    Some(text.to_string())
}

fn accept_preview() -> PreparedIntent {
    PreparedIntent {
        id: "prep-1".to_string(),
        operation: PreparedOperation::AcceptActionRequest {
            request_id: "req-1".to_string(),
            request_version: 2,
            action_id: "act-1".to_string(),
            action_classification: "internal".to_string(),
            action_subject: "Ship".to_string(),
            commitment_details: "Details".to_string(),
            intended_owner: "owner-1".to_string(),
            intended_due_at: 9_000,
        },
        payload_digest: "digest-1".to_string(),
        classification: "internal".to_string(),
        expires_at: 5_000,
        support: None,
        policy: "allowed".to_string(),
        cancellation_policy: "not_cancellable_after_submit".to_string(),
        authority: "head_of_products".to_string(),
    }
}

fn cancel_preview() -> PreparedIntent {
    PreparedIntent {
        id: "prep-2".to_string(),
        operation: PreparedOperation::CancelAction {
            action_id: "act-1".to_string(),
            action_version: 3,
            reason: "dropped".to_string(),
        },
        payload_digest: "digest-2".to_string(),
        classification: "internal".to_string(),
        expires_at: 5_000,
        support: None,
        policy: "allowed".to_string(),
        cancellation_policy: "not_cancellable_after_submit".to_string(),
        authority: "head_of_products".to_string(),
    }
}

fn terminal_rows(
    prepared_id: &str,
    digest: &str,
    cause: &str,
    disposition: &str,
    target_type: &str,
    target_id: &str,
) -> ExecuteTerminalRows {
    let discarded = disposition == "consumed_and_discarded";
    ExecuteTerminalRows {
        idempotency_id: "k-1".to_string(),
        correlation_id: "corr-1".to_string(),
        ordinal: 4,
        actor: "head_of_products".to_string(),
        acknowledged_digest: digest.to_string(),
        prepared_intent_id: s(prepared_id),
        prepared_disposition: disposition.to_string(),
        terminal_cause: s(cause),
        attempted_digest: if cause == "digest_mismatch" { s(digest) } else { None },
        error_code: s("SECURITY_PREVIEW_EXPIRED_OR_CHANGED"),
        error_message_key: s("work_management.preview_expired"),
        error_correlation_id: s("corr-1"),
        error_retryable: Some(0),
        private_detail_ref: None,
        error_params: Vec::new(),
        error_extensions: Vec::new(),
        audit: TerminalAuditRow {
            link_ordinal: 0,
            link_correlation_id: "corr-1".to_string(),
            id: "audit-9".to_string(),
            occurred_at: 700,
            actor: "head_of_products".to_string(),
            module: "work_management".to_string(),
            event_code: "action_request.accept_refused".to_string(),
            target_type: target_type.to_string(),
            target_id: target_id.to_string(),
            correlation_id: "corr-1".to_string(),
            effect_scope: "none".to_string(),
            effect_count: 0,
        },
        discarded,
        prepared_consumed_at: if discarded { Some(700) } else { None },
    }
}

fn accept_rows(digest: &str, cause: &str, disposition: &str) -> ExecuteTerminalRows {
    terminal_rows("prep-1", digest, cause, disposition, "action_request", "req-1")
}

#[test]
fn expired_acceptance_refusal_discards_the_preview() {
    let refusal = decode_execute_accept_terminal(
        &"req-1".to_string(),
        &accept_preview(),
        accept_rows("digest-1", "expired", "consumed_and_discarded"),
    )
    .unwrap();
    assert!(matches!(refusal.cause, ActionPersistenceTerminalCause::Expired));
    assert_eq!(refusal.disposition, PreparedDisposition::ConsumedAndDiscarded);
    assert_eq!(refusal.error.code, ErrorCode::SecurityPreviewExpiredOrChanged);
    assert_eq!(refusal.audit_id, "audit-9");
    assert_eq!(refusal.occurred_at, 700);
}

#[test]
fn changed_preview_refusal_keeps_the_preview() {
    let refusal = decode_execute_accept_terminal(
        &"req-1".to_string(),
        &accept_preview(),
        accept_rows("digest-1", "prepared_intent_changed", "retained"),
    )
    .unwrap();
    assert_eq!(refusal.disposition, PreparedDisposition::Retained);
    // Any other cause never keeps the preview, and a changed preview is
    // always kept.
    let invalid = Err(ActionPersistenceLoadError::InvalidActionSnapshot);
    let kept_expired = decode_execute_accept_terminal(
        &"req-1".to_string(),
        &accept_preview(),
        accept_rows("digest-1", "expired", "retained"),
    );
    assert_eq!(kept_expired.map(|_| ()), invalid);
    let discarded_changed = decode_execute_accept_terminal(
        &"req-1".to_string(),
        &accept_preview(),
        accept_rows("digest-1", "prepared_intent_changed", "consumed_and_discarded"),
    );
    assert_eq!(discarded_changed.map(|_| ()), invalid);
}

#[test]
fn digest_mismatch_is_recorded_exactly_when_the_digest_differs() {
    let refusal = decode_execute_accept_terminal(
        &"req-1".to_string(),
        &accept_preview(),
        accept_rows("digest-9", "digest_mismatch", "consumed_and_discarded"),
    )
    .unwrap();
    assert!(matches!(
        &refusal.cause,
        ActionPersistenceTerminalCause::DigestMismatch { attempted_digest } if attempted_digest == "digest-9"
    ));
    let invalid = Err(ActionPersistenceLoadError::InvalidActionSnapshot);
    // A mismatch recorded against the preview's own digest.
    let wrong = decode_execute_accept_terminal(
        &"req-1".to_string(),
        &accept_preview(),
        accept_rows("digest-1", "digest_mismatch", "consumed_and_discarded"),
    );
    assert_eq!(wrong.map(|_| ()), invalid);
    // Another cause recorded against a different digest.
    let wrong = decode_execute_accept_terminal(
        &"req-1".to_string(),
        &accept_preview(),
        accept_rows("digest-9", "expired", "consumed_and_discarded"),
    );
    assert_eq!(wrong.map(|_| ()), invalid);
}

#[test]
fn malformed_acceptance_refusals_are_invalid_snapshots() {
    let invalid = Err(ActionPersistenceLoadError::InvalidActionSnapshot);
    let decode = |rows: ExecuteTerminalRows| {
        decode_execute_accept_terminal(&"req-1".to_string(), &accept_preview(), rows).map(|_| ())
    };
    let mut rows = accept_rows("digest-1", "expired", "consumed_and_discarded");
    rows.prepared_disposition = "not_applicable".to_string();
    assert_eq!(decode(rows), invalid);
    let mut rows = accept_rows("digest-1", "expired", "consumed_and_discarded");
    rows.actor = "someone_else".to_string();
    assert_eq!(decode(rows), invalid);
    let mut rows = accept_rows("digest-1", "expired", "consumed_and_discarded");
    rows.audit.effect_count = 1;
    assert_eq!(decode(rows), invalid);
    let mut rows = accept_rows("digest-1", "expired", "consumed_and_discarded");
    rows.audit.target_id = "req-2".to_string();
    assert_eq!(decode(rows), invalid);
    let mut rows = accept_rows("digest-1", "expired", "consumed_and_discarded");
    rows.prepared_consumed_at = Some(701);
    assert_eq!(decode(rows), invalid);
    let mut rows = accept_rows("digest-1", "expired", "consumed_and_discarded");
    rows.discarded = false;
    assert_eq!(decode(rows), invalid);
    let mut rows = accept_rows("digest-1", "expired", "consumed_and_discarded");
    rows.prepared_intent_id = s("prep-7");
    assert_eq!(decode(rows), invalid);
    let mut rows = accept_rows("digest-1", "expired", "consumed_and_discarded");
    rows.terminal_cause = s("not_a_cause");
    assert_eq!(decode(rows), invalid);
    let mut rows = accept_rows("digest-1", "expired", "consumed_and_discarded");
    rows.error_retryable = Some(2);
    assert_eq!(decode(rows), invalid);
}

#[test]
fn action_change_refusal_decodes_on_its_action() {
    let refusal = decode_execute_action_terminal(
        &cancel_preview(),
        terminal_rows("prep-2", "digest-2", "policy_denied", "consumed_and_discarded", "action", "act-1"),
    )
    .unwrap();
    assert!(matches!(refusal.cause, ActionPersistenceTerminalCause::PolicyDenied));
    assert_eq!(refusal.disposition, PreparedDisposition::ConsumedAndDiscarded);
    let kept = decode_execute_action_terminal(
        &cancel_preview(),
        terminal_rows("prep-2", "digest-2", "stale_version", "retained", "action", "act-1"),
    )
    .unwrap();
    assert_eq!(kept.disposition, PreparedDisposition::Retained);
    let invalid = Err(ActionPersistenceLoadError::InvalidActionSnapshot);
    let other_action = decode_execute_action_terminal(
        &cancel_preview(),
        terminal_rows("prep-2", "digest-2", "policy_denied", "retained", "action", "act-2"),
    );
    assert_eq!(other_action.map(|_| ()), invalid);
    // An acceptance preview has no Action change to refuse.
    let acceptance = decode_execute_action_terminal(
        &accept_preview(),
        terminal_rows("prep-1", "digest-1", "policy_denied", "retained", "action", "act-1"),
    );
    assert_eq!(acceptance.map(|_| ()), invalid);
}
