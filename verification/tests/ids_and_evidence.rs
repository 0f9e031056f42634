use pmc_ledger::audit_id::derive_prepare_h3_denial_audit_id;
use pmc_ledger::errors::{ActionOperationContext, DomainErrorKind};
use pmc_ledger::evidence::{
    decode_evidence_row, persisted_action_evidence_authority, ActionEvidenceAuthorityError, EvidenceRole,
    EvidenceVerification, PersistedEvidenceRow,
};
use pmc_ledger::ids::{
    take_persisted_id, IdSourceError, PersistedAcceptIds, PersistedActionTransitionExecuteIds,
    PersistedActionTransitionPrepareIds, PersistedLowerActionClassificationIds, PersistedRejectIds,
};

#[test]
fn denial_audit_id_is_prefixed_truncated_sha256_hex() {
    // SHA-256("abc") = ba7816bf8f01cfea414140de5dae2223b00361a396177a9cb410ff61f20015ad
    assert_eq!(
        derive_prepare_h3_denial_audit_id("abc"),
        "h3d-ba7816bf8f01cfea414140de5dae2223b00361a396177a9c"
    );
    // SHA-256("") = e3b0c44298fc1c149afbf4c8996fb92427ae41e4649b934ca495991b7852b855
    assert_eq!(
        derive_prepare_h3_denial_audit_id(""),
        "h3d-e3b0c44298fc1c149afbf4c8996fb92427ae41e4649b934c"
    );
    let id = derive_prepare_h3_denial_audit_id("prepared-intent-7");
    assert_eq!(id.len(), 52);
    assert_eq!(id, derive_prepare_h3_denial_audit_id("prepared-intent-7"));
    assert_ne!(id, derive_prepare_h3_denial_audit_id("prepared-intent-8"));
}

#[test]
fn reject_ids_hand_out_the_audit_id_once() {
    let mut ids = PersistedRejectIds { audit_id: Some("audit-1".to_string()) };
    assert_eq!(ids.next_action_id(), Err(IdSourceError::MissingPersistedId));
    assert_eq!(ids.next_prepared_intent_id(), Err(IdSourceError::MissingPersistedId));
    assert_eq!(ids.next_approval_receipt_id(), Err(IdSourceError::MissingPersistedId));
    assert_eq!(ids.next_audit_event_id(), Ok("audit-1".to_string()));
    assert_eq!(ids.next_audit_event_id(), Err(IdSourceError::MissingPersistedId));
}

#[test]
fn lower_and_execute_ids_hand_out_receipt_and_audit_once() {
    let mut lower = PersistedLowerActionClassificationIds {
        receipt_id: Some("receipt".to_string()),
        audit_id: Some("audit".to_string()),
    };
    assert_eq!(lower.next_audit_event_id(), Ok("audit".to_string()));
    assert_eq!(lower.next_approval_receipt_id(), Ok("receipt".to_string()));
    assert_eq!(lower.next_approval_receipt_id(), Err(IdSourceError::MissingPersistedId));
    assert_eq!(lower.next_audit_event_id(), Err(IdSourceError::MissingPersistedId));
    assert_eq!(lower.next_action_id(), Err(IdSourceError::MissingPersistedId));

    let mut execute = PersistedActionTransitionExecuteIds {
        receipt_id: Some("r".to_string()),
        audit_id: None,
    };
    assert_eq!(execute.next_audit_event_id(), Err(IdSourceError::MissingPersistedId));
    assert_eq!(execute.next_approval_receipt_id(), Ok("r".to_string()));
    assert_eq!(execute.next_prepared_intent_id(), Err(IdSourceError::MissingPersistedId));
}

#[test]
fn prepare_ids_hand_out_intent_and_derived_denial_id() {
    let denial = derive_prepare_h3_denial_audit_id("intent-1");
    let mut ids = PersistedActionTransitionPrepareIds {
        prepared_intent_id: Some("intent-1".to_string()),
        h3_denial_audit_id: Some(denial.clone()),
    };
    assert_eq!(ids.next_approval_receipt_id(), Err(IdSourceError::MissingPersistedId));
    assert_eq!(ids.next_prepared_intent_id(), Ok("intent-1".to_string()));
    assert_eq!(ids.next_prepared_intent_id(), Err(IdSourceError::MissingPersistedId));
    assert_eq!(ids.next_audit_event_id(), Ok(denial));
    assert_eq!(ids.next_audit_event_id(), Err(IdSourceError::MissingPersistedId));
}

#[test]
fn accept_ids_hand_out_three_audit_ids_in_order() {
    let mut ids = PersistedAcceptIds::new(
        "receipt".to_string(),
        ["a1".to_string(), "a2".to_string(), "a3".to_string()],
    );
    assert_eq!(ids.next_audit_event_id(), Ok("a1".to_string()));
    assert_eq!(ids.next_approval_receipt_id(), Ok("receipt".to_string()));
    assert_eq!(ids.next_audit_event_id(), Ok("a2".to_string()));
    assert_eq!(ids.next_audit_event_id(), Ok("a3".to_string()));
    assert_eq!(ids.next_audit_event_id(), Err(IdSourceError::MissingPersistedId));
    assert_eq!(ids.next_approval_receipt_id(), Err(IdSourceError::MissingPersistedId));
}

fn context() -> ActionOperationContext {
    ActionOperationContext { idempotency_id: "idem".to_string(), correlation_id: "corr".to_string() }
}

fn row(id: &str, status: &str, digest: Option<&str>, at: Option<i64>, version: i64) -> PersistedEvidenceRow {
    PersistedEvidenceRow {
        id: id.to_string(),
        classification: "internal".to_string(),
        verification: status.to_string(),
        integrity_digest: digest.map(str::to_string),
        last_verified_at: at,
        version,
    }
}

#[test]
fn evidence_rows_decode_into_an_authority() {
    let rows = vec![
        row("ev-1", "verified", Some("sha256:aa"), Some(10), 2),
        row("ev-2", "unverified", None, None, 1),
        row("ev-3", "degraded_last_verified", Some("sha256:bb"), Some(7), 3),
    ];
    let authority = persisted_action_evidence_authority(&rows, &context()).unwrap();
    assert_eq!(authority.evidence.len(), 3);
    assert!(authority.evidence.iter().all(|item| item.role == EvidenceRole::ActionCompletion));
    let first = authority.resolve(&"ev-1".to_string()).unwrap();
    assert_eq!(first.source_version, 2);
    match first.verification {
        EvidenceVerification::Verified { verified_at, integrity_digest } => {
            assert_eq!(verified_at, 10);
            assert_eq!(integrity_digest, "sha256:aa");
        }
        _ => panic!("expected a verified evidence"),
    }
    assert!(matches!(
        authority.resolve(&"ev-2".to_string()).unwrap().verification,
        EvidenceVerification::Unverified
    ));
    assert!(matches!(
        authority.resolve(&"ev-9".to_string()),
        Err(ActionEvidenceAuthorityError::NotFound)
    ));
}

#[test]
fn malformed_evidence_rows_are_persistence_failures() {
    for bad in [
        row("ev-1", "verified", None, Some(10), 1),
        row("ev-1", "unverified", Some("sha256:aa"), None, 1),
        row("ev-1", "integrity_mismatch", None, Some(3), 1),
        row("ev-1", "pinned", Some("d"), Some(1), 1),
        row("ev-1", "observed_unpinned", Some("d"), Some(1), 0),
    ] {
        let error = persisted_action_evidence_authority(&vec![bad], &context()).err().unwrap();
        assert_eq!(error.kind, DomainErrorKind::Persistence);
        assert_eq!(error.correlation_id, "corr");
    }
}

#[test]
fn verification_parts_decode() {
    assert!(matches!(
        EvidenceVerification::from_persisted_parts("integrity_mismatch", None, None),
        Ok(EvidenceVerification::IntegrityMismatch)
    ));
    assert!(matches!(
        EvidenceVerification::from_persisted_parts("observed_unpinned", Some(5), Some("d".to_string())),
        Ok(EvidenceVerification::ObservedUnpinned { observed_at: 5, .. })
    ));
    assert!(EvidenceVerification::from_persisted_parts("observed_unpinned", None, Some("d".to_string())).is_err());
}

#[test]
fn persisted_ids_are_handed_out_once() {
    let mut slot = Some("audit-1".to_string());
    assert_eq!(take_persisted_id(&mut slot), Ok("audit-1".to_string()));
    assert_eq!(slot, None);
    assert_eq!(take_persisted_id(&mut slot), Err(IdSourceError::MissingPersistedId));
}

#[test]
fn one_evidence_row_decodes() {
    let context = ActionOperationContext { idempotency_id: "k-1".to_string(), correlation_id: "corr-1".to_string() };
    let row = |verification: &str, digest: Option<&str>, at: Option<i64>, version: i64| PersistedEvidenceRow {
        id: "ev-1".to_string(),
        classification: "internal".to_string(),
        verification: verification.to_string(),
        integrity_digest: digest.map(|d| d.to_string()),
        last_verified_at: at,
        version,
    };
    let metadata = decode_evidence_row(&row("verified", Some("sha-1"), Some(500), 2), &context).unwrap();
    assert_eq!(metadata.id, "ev-1");
    assert_eq!(metadata.source_version, 2);
    assert!(matches!(metadata.verification, EvidenceVerification::Verified { verified_at: 500, .. }));
    let unverified = decode_evidence_row(&row("unverified", None, None, 1), &context).unwrap();
    assert!(matches!(unverified.verification, EvidenceVerification::Unverified));
    let error = decode_evidence_row(&row("verified", Some("sha-1"), Some(500), 0), &context).unwrap_err();
    assert_eq!(error.kind, DomainErrorKind::Persistence);
    assert_eq!(error.correlation_id, "corr-1");
    assert!(decode_evidence_row(&row("verified", None, Some(500), 1), &context).is_err());
    assert!(decode_evidence_row(&row("trusted", None, None, 1), &context).is_err());
}
