use pmc_ledger::causes::{ActionPersistenceH3DenialCause, ActionPersistenceTerminalCause};
use pmc_ledger::load_error::{ActionPersistenceLoadError, LedgerOpenError};
use pmc_ledger::states::{ActionReopenMode, ActionRequestState, ActionState};
use pmc_ledger::text::str_eq;
use pmc_ledger::versions::{
    aggregate_version_from_persisted, decode_version, parse_time, CompositionSnapshotReadError,
};
use pmc_ledger::errors::{
    action_transition_conflict, already_exists, completion_evidence_already_linked,
    evidence_not_found, idempotency_conflict, not_found, persistence_error,
    request_transition_conflict, ActionOperationContext, DomainErrorKind, NextIntent,
};

#[test]
fn open_errors_map_to_load_errors() {
    assert_eq!(
        ActionPersistenceLoadError::from(LedgerOpenError::FutureSchema { found: 46 }),
        ActionPersistenceLoadError::UnsupportedSchema { found: 46 }
    );
    assert_eq!(
        ActionPersistenceLoadError::from(LedgerOpenError::UnsupportedSchema { found: 3 }),
        ActionPersistenceLoadError::UnsupportedSchema { found: 3 }
    );
    for error in [
        LedgerOpenError::StorageUnavailable,
        LedgerOpenError::Busy,
        LedgerOpenError::CorruptDatabase,
        LedgerOpenError::InvalidMetadata,
        LedgerOpenError::PolicyViolation,
        LedgerOpenError::UnclaimedDatabase,
        LedgerOpenError::WrongApplication,
    ] {
        assert_eq!(ActionPersistenceLoadError::from(error), ActionPersistenceLoadError::StorageUnavailable);
    }
}

#[test]
fn text_equality_compares_characters() {
    assert!(str_eq("draft", "draft"));
    assert!(!str_eq("draft", "drafts"));
    assert!(!str_eq("draft", "Draft"));
    assert!(str_eq("", ""));
    assert!(str_eq("héllo", "héllo"));
}

#[test]
fn request_states_round_trip() {
    for state in [
        ActionRequestState::Draft,
        ActionRequestState::Open,
        ActionRequestState::Accepted,
        ActionRequestState::Declined,
        ActionRequestState::Withdrawn,
    ] {
        assert_eq!(ActionRequestState::from_persisted(state.as_persisted()), Ok(state));
    }
    assert_eq!(ActionRequestState::Withdrawn.as_persisted(), "withdrawn");
    assert_eq!(
        ActionRequestState::from_persisted("closed"),
        Err(ActionPersistenceLoadError::InvalidActionSnapshot)
    );
}

#[test]
fn action_states_round_trip() {
    for state in [ActionState::Open, ActionState::InProgress, ActionState::Completed, ActionState::Cancelled] {
        assert_eq!(ActionState::from_persisted(state.as_persisted()), Ok(state));
    }
    assert_eq!(ActionState::InProgress.as_persisted(), "in_progress");
    assert_eq!(ActionState::from_persisted("in progress"), Err(ActionPersistenceLoadError::InvalidActionSnapshot));
}

#[test]
fn reopen_modes_round_trip() {
    assert_eq!(ActionReopenMode::ReopenCompleted.as_persisted(), "reopen_completed");
    assert_eq!(ActionReopenMode::RestartCancelled.as_persisted(), "restart_cancelled");
    assert_eq!(ActionReopenMode::from_persisted("restart_cancelled"), Ok(ActionReopenMode::RestartCancelled));
    assert_eq!(ActionReopenMode::from_persisted("reopen"), Err(ActionPersistenceLoadError::InvalidActionSnapshot));
}

#[test]
fn h3_denial_causes_round_trip() {
    for cause in [
        ActionPersistenceH3DenialCause::MissingCompletionEvidence,
        ActionPersistenceH3DenialCause::CompletionEvidenceNotFound,
        ActionPersistenceH3DenialCause::UnverifiedCompletionEvidence,
        ActionPersistenceH3DenialCause::UnclassifiedCompletionEvidence,
        ActionPersistenceH3DenialCause::EvidenceUnavailable,
        ActionPersistenceH3DenialCause::ClassificationUnresolved,
    ] {
        assert_eq!(ActionPersistenceH3DenialCause::from_persisted(cause.as_persisted()), Ok(cause));
    }
    assert_eq!(
        ActionPersistenceH3DenialCause::EvidenceUnavailable.as_persisted(),
        "evidence_unavailable"
    );
    assert_eq!(
        ActionPersistenceH3DenialCause::from_persisted("unknown"),
        Err(ActionPersistenceLoadError::InvalidActionSnapshot)
    );
}

#[test]
fn terminal_causes_round_trip() {
    let causes = vec![
        ActionPersistenceTerminalCause::NotFound,
        ActionPersistenceTerminalCause::AlreadyExists,
        ActionPersistenceTerminalCause::IllegalTransition,
        ActionPersistenceTerminalCause::StaleVersion,
        ActionPersistenceTerminalCause::MissingOwner,
        ActionPersistenceTerminalCause::MissingDueDate,
        ActionPersistenceTerminalCause::InvalidEvidence,
        ActionPersistenceTerminalCause::InvalidReopenMode,
        ActionPersistenceTerminalCause::IdempotencyConflict,
        ActionPersistenceTerminalCause::PreparedIntentNotFound,
        ActionPersistenceTerminalCause::PreparedIntentChanged,
        ActionPersistenceTerminalCause::Unauthorized,
        ActionPersistenceTerminalCause::DigestMismatch { attempted_digest: "abc123".to_string() },
        ActionPersistenceTerminalCause::Expired,
        ActionPersistenceTerminalCause::PolicyDenied,
        ActionPersistenceTerminalCause::InfrastructureFailure,
    ];
    for cause in causes {
        let (name, attempted) = cause.persisted_terminal_cause().unwrap();
        let decoded = ActionPersistenceTerminalCause::decode_terminal_cause(Some(name), attempted).unwrap();
        assert_eq!(decoded, cause);
    }
}

#[test]
fn terminal_cause_names_and_digest_rules() {
    let mismatch = ActionPersistenceTerminalCause::DigestMismatch { attempted_digest: "d1".to_string() };
    assert_eq!(mismatch.persisted_terminal_cause(), Ok(("digest_mismatch", Some("d1"))));
    assert_eq!(
        ActionPersistenceTerminalCause::PolicyDenied.persisted_terminal_cause(),
        Ok(("policy_denied", None))
    );
    assert_eq!(
        ActionPersistenceTerminalCause::H3Denied(ActionPersistenceH3DenialCause::EvidenceUnavailable)
            .persisted_terminal_cause(),
        Err(())
    );
    let invalid = Err(ActionPersistenceLoadError::InvalidActionSnapshot);
    assert_eq!(ActionPersistenceTerminalCause::decode_terminal_cause(Some("digest_mismatch"), None), invalid);
    assert_eq!(ActionPersistenceTerminalCause::decode_terminal_cause(Some("expired"), Some("d")), invalid);
    assert_eq!(ActionPersistenceTerminalCause::decode_terminal_cause(None, None), invalid);
    assert_eq!(ActionPersistenceTerminalCause::decode_terminal_cause(Some("h3_denied"), None), invalid);
    assert_eq!(
        ActionPersistenceTerminalCause::decode_terminal_cause(Some("unauthorized"), None),
        Ok(ActionPersistenceTerminalCause::Unauthorized)
    );
}

#[test]
fn persisted_versions_and_times() {
    assert_eq!(decode_version(1), Ok(1));
    assert_eq!(decode_version(42), Ok(42));
    assert_eq!(decode_version(0), Err(CompositionSnapshotReadError::ReadFailed));
    assert_eq!(decode_version(-7), Err(CompositionSnapshotReadError::ReadFailed));
    assert_eq!(parse_time(None), Ok(None));
    assert_eq!(parse_time(Some(0)), Ok(Some(0)));
    assert_eq!(parse_time(Some(1_700_000_000_000)), Ok(Some(1_700_000_000_000)));
    assert_eq!(parse_time(Some(-1)), Err(ActionPersistenceLoadError::InvalidActionSnapshot));
}

#[test]
fn error_constructors_carry_kind_and_correlation() {
    let context = ActionOperationContext { idempotency_id: "k-1".to_string(), correlation_id: "corr-1".to_string() };
    let cases = [
        (persistence_error(&context), DomainErrorKind::Persistence),
        (idempotency_conflict(&context), DomainErrorKind::IdempotencyConflict),
        (already_exists(&context), DomainErrorKind::AlreadyExists),
        (not_found(&context), DomainErrorKind::NotFound),
        (evidence_not_found(&context), DomainErrorKind::EvidenceNotFound),
        (completion_evidence_already_linked(&context), DomainErrorKind::CompletionEvidenceAlreadyLinked),
    ];
    for (error, kind) in cases {
        assert_eq!(error.kind, kind);
        assert_eq!(error.correlation_id, "corr-1");
        assert_eq!(error.current_version, None);
        assert_eq!(error.current_state, None);
        assert!(error.allowed_next_intents.is_empty());
    }
    let open = request_transition_conflict(&context, 2, ActionRequestState::Open);
    assert_eq!(open.kind, DomainErrorKind::TransitionConflict);
    assert_eq!(open.current_version, Some(2));
    assert_eq!(open.current_state, Some(ActionRequestState::Open));
    assert_eq!(
        open.allowed_next_intents,
        vec![
            NextIntent::PrepareAcceptActionRequest,
            NextIntent::DeclineActionRequest,
            NextIntent::WithdrawActionRequest,
        ]
    );
    let draft = request_transition_conflict(&context, 1, ActionRequestState::Draft);
    assert_eq!(draft.allowed_next_intents, vec![NextIntent::SubmitActionRequest]);
    let declined = request_transition_conflict(&context, 3, ActionRequestState::Declined);
    assert!(declined.allowed_next_intents.is_empty());
    let action = action_transition_conflict(&context, 4);
    assert_eq!(action.kind, DomainErrorKind::TransitionConflict);
    assert_eq!(action.current_version, Some(4));
    assert_eq!(action.current_state, None);
}

#[test]
fn persisted_versions_are_positive() {
    assert_eq!(aggregate_version_from_persisted(1), Some(1));
    assert_eq!(aggregate_version_from_persisted(42), Some(42));
    assert_eq!(aggregate_version_from_persisted(0), None);
    assert_eq!(aggregate_version_from_persisted(-3), None);
}
