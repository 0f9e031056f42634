use pmc_ledger::evidence::EvidenceVerification;
use pmc_ledger::load_error::ActionPersistenceLoadError;
use pmc_ledger::prepared_rows::{EffectRow, PayloadRow, PreparedIntentRow, PreparedTransitionRows};
use pmc_ledger::support::{
    decode_completion_support, decode_evidence_classifications, EvidenceClassificationRow,
    SupportEvidenceRow, SupportJudgmentRow,
};

fn command(judgment: Option<(&str, &str)>) -> PreparedTransitionRows {
    PreparedTransitionRows {
        command_action_id: "act-1".to_string(),
        command_expected_version: 3,
        command_reason: None,
        command_mode: None,
        judgment_disposition: judgment.map(|_| "proceed_with_documented_rationale".to_string()),
        judgment_actor: judgment.map(|_| "head_of_products".to_string()),
        judgment_rationale: judgment.map(|j| j.0.to_string()),
        judgment_classification: judgment.map(|j| j.1.to_string()),
        intent: PreparedIntentRow {
            contract_version: 1,
            intent_kind: "complete_action".to_string(),
            payload_digest: "digest-1".to_string(),
            classification: "internal".to_string(),
            policy: "allowed".to_string(),
            cancellation_policy: "not_cancellable_after_submit".to_string(),
            authority: "head_of_products".to_string(),
            support_id: Some("support-1".to_string()),
            confirmation_challenge: None,
            expires_at: 5_000,
            created_at: 1_000,
        },
        payload: PayloadRow {
            primary_id: "act-1".to_string(),
            primary_version: 3,
            created_id: None,
            created_classification: None,
            subject: None,
            details: None,
            intended_owner_id: None,
            due_at: None,
            statement: None,
            rationale: None,
            impact: None,
            decision_owner_id: None,
            decided_at: None,
            reopen_mode: None,
            resolution_type: None,
            replacement_id: None,
            replacement_version: None,
            replacement_classification: None,
            replacement_statement: None,
            replacement_rationale: None,
            replacement_impact: None,
            replacement_owner_id: None,
            replacement_decided_at: None,
        },
        targets: Vec::new(),
        effects: Vec::<EffectRow>::new(),
        sources: Vec::new(),
        audit_count: 0,
    }
}

fn judgment(ordinal: i64, rationale: &str) -> SupportJudgmentRow {
    SupportJudgmentRow { ordinal, rationale: rationale.to_string(), classification: "internal".to_string() }
}

fn evidence(ordinal: i64, verification: &str, at: Option<i64>, digest: Option<&str>) -> SupportEvidenceRow {
    SupportEvidenceRow {
        ordinal,
        evidence_id: format!("ev-{ordinal}"),
        classification: "confidential".to_string(),
        role: "action_completion".to_string(),
        verification: verification.to_string(),
        last_verified_at: at,
        integrity_digest: digest.map(|d| d.to_string()),
        evidence_version: 2,
    }
}

#[test]
fn evidence_snapshots_decode_in_order() {
    let support = decode_completion_support(
        &command(None),
        &Vec::new(),
        &vec![evidence(0, "verified", Some(700), Some("sha256:aa")), evidence(1, "unverified", None, None)],
    )
    .unwrap();
    assert!(support.judgment.is_none());
    assert_eq!(support.evidence.len(), 2);
    assert_eq!(support.evidence[0].id, "ev-0");
    assert_eq!(support.evidence[0].source_version, 2);
    assert_eq!(support.evidence[0].classification, "confidential");
    assert!(matches!(
        &support.evidence[0].verification,
        EvidenceVerification::Verified { verified_at: 700, integrity_digest } if integrity_digest == "sha256:aa"
    ));
    assert!(matches!(support.evidence[1].verification, EvidenceVerification::Unverified));
}

#[test]
fn the_judgment_must_agree_with_the_command() {
    let support = decode_completion_support(&command(Some(("Shipped", "internal"))), &vec![judgment(0, "Shipped")], &Vec::new())
        .unwrap();
    let decoded = support.judgment.unwrap();
    assert_eq!(decoded.rationale, "Shipped");
    assert_eq!(decoded.classification, "internal");
    let invalid = Err(ActionPersistenceLoadError::InvalidActionSnapshot);
    // Another rationale, a judgment the command does not record, a command
    // judgment with no row, two judgments, and a misnumbered one.
    assert_eq!(decode_completion_support(&command(Some(("Other", "internal"))), &vec![judgment(0, "Shipped")], &Vec::new()).map(|_| ()), invalid);
    assert_eq!(decode_completion_support(&command(None), &vec![judgment(0, "Shipped")], &Vec::new()).map(|_| ()), invalid);
    assert_eq!(decode_completion_support(&command(Some(("Shipped", "internal"))), &Vec::new(), &Vec::new()).map(|_| ()), invalid);
    assert_eq!(
        decode_completion_support(&command(Some(("Shipped", "internal"))), &vec![judgment(0, "Shipped"), judgment(1, "Shipped")], &Vec::new()).map(|_| ()),
        invalid
    );
    assert_eq!(decode_completion_support(&command(Some(("Shipped", "internal"))), &vec![judgment(1, "Shipped")], &Vec::new()).map(|_| ()), invalid);
}

#[test]
fn evidence_rows_that_do_not_decode_are_invalid() {
    let invalid = Err(ActionPersistenceLoadError::InvalidActionSnapshot);
    let decode = |rows: Vec<SupportEvidenceRow>| decode_completion_support(&command(None), &Vec::new(), &rows).map(|_| ());
    assert_eq!(decode(vec![evidence(1, "unverified", None, None)]), invalid);
    assert_eq!(decode(vec![evidence(0, "verified", None, Some("sha256:aa"))]), invalid);
    assert_eq!(decode(vec![evidence(0, "unverified", Some(5), None)]), invalid);
    let mut other_role = evidence(0, "unverified", None, None);
    other_role.role = "decision_support".to_string();
    assert_eq!(decode(vec![other_role]), invalid);
    let mut unversioned = evidence(0, "unverified", None, None);
    unversioned.evidence_version = 0;
    assert_eq!(decode(vec![unversioned]), invalid);
    assert_eq!(decode(Vec::new()), Ok(()));
}

fn classification_row(ordinal: i64, id: &str, classification: &str) -> EvidenceClassificationRow {
    EvidenceClassificationRow { ordinal, evidence_id: id.to_string(), classification: classification.to_string() }
}

#[test]
fn evidence_classifications_decode_in_order() {
    let bindings = decode_evidence_classifications(&vec![
        classification_row(0, "ev-1", "internal"),
        classification_row(1, "ev-2", "restricted"),
    ])
    .unwrap();
    let decoded: Vec<(&str, &str)> =
        bindings.iter().map(|b| (b.evidence_id.as_str(), b.classification.as_str())).collect();
    assert_eq!(decoded, vec![("ev-1", "internal"), ("ev-2", "restricted")]);
    assert!(decode_evidence_classifications(&Vec::new()).unwrap().is_empty());
    assert_eq!(
        decode_evidence_classifications(&vec![classification_row(1, "ev-1", "internal")]).map(|_| ()),
        Err(ActionPersistenceLoadError::InvalidActionSnapshot)
    );
}
