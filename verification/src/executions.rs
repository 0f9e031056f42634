//! Decoding an executed acceptance: the command, replay, receipt and audit
//! rows the store keeps for one approval that accepted an Action Request,
//! checked against the request, the preview it consumed and the Action it
//! created.

use vstd::prelude::*;
use crate::load_error::ActionPersistenceLoadError;
use crate::model::{
    AcceptedActionOutcome, AcceptedOutcomeView, ActionPersistenceCommand, ActionPersistenceResult,
    ActionRecord, ActionReplayCapsule, ActionRequestRecord, ActionRequestView, ActionView,
    AuditEvent, AuditEventCode, AuditEventView, AuditTarget, AuditTargetView, CapsuleView,
    CommandView, PreparedIntent, PreparedIntentKind, PreparedIntentView, ResultView, audit_views,
};
use crate::states::ActionRequestState;
use crate::text::{clone_opt_string, opt_string, str_eq};

verus! {

/// The `action_replay_operations` row of an execution.
#[derive(Debug)]
pub struct ExecuteReplayRow {
    pub correlation_id: String,
    pub operation_ordinal: i64,
    pub result_kind: String,
    pub result_reference: Option<String>,
    pub prepared_intent_id: Option<String>,
    pub prepared_disposition: String,
}

/// The `approval_receipts` row of an approval.
#[derive(Debug)]
pub struct ReceiptRow {
    pub id: String,
    pub actor: String,
    pub acknowledged_payload_digest: String,
    pub idempotency_id: String,
    pub approved_at: i64,
    pub expires_at: i64,
    pub consumed_at: Option<i64>,
}

/// One `action_replay_audits` row: which audit event a command recorded at
/// which place.
#[derive(Debug)]
pub struct AuditLinkRow {
    pub ordinal: i64,
    pub audit_event_id: String,
    pub correlation_id: String,
}

/// One `audit_events` row.
#[derive(Debug)]
pub struct AuditRow {
    pub id: String,
    pub occurred_at: i64,
    pub actor: String,
    pub module: String,
    pub event_code: String,
    pub target_type: String,
    pub target_id: String,
    pub correlation_id: String,
    pub policy_outcome: String,
    pub approval_outcome: String,
    pub execution_outcome: String,
    pub effect_scope: String,
}

/// One `audit_effects` row.
#[derive(Debug)]
pub struct AuditEffectRow {
    pub ordinal: i64,
    pub effect_code: String,
    pub scope: String,
    pub target_type: String,
    pub target_id: String,
}

/// One audit event of an execution: its link row, its event row and its
/// effect rows.
#[derive(Debug)]
pub struct RecordedAudit {
    pub link: AuditLinkRow,
    pub event: AuditRow,
    pub effects: Vec<AuditEffectRow>,
}

/// Every row the store keeps for one executed acceptance, read under its
/// idempotency key.
#[derive(Debug)]
pub struct ExecuteAcceptRows {
    pub idempotency_id: String,
    pub actor: String,
    pub acknowledged_digest: String,
    pub replay: ExecuteReplayRow,
    pub receipt: ReceiptRow,
    pub prepared_consumed_at: Option<i64>,
    pub audits: Vec<RecordedAudit>,
}

/// The code, target type and target id of the audit event an acceptance
/// records at place `index`: the request is accepted, the Action is
/// created from it, the request is linked to the Action.
pub open spec fn accept_audit_code(index: int) -> AuditEventCode {
    if index == 0 {
        AuditEventCode::ActionRequestAccepted
    } else if index == 1 {
        AuditEventCode::ActionCreatedFromRequest
    } else {
        AuditEventCode::ActionRequestActionLinked
    }
}

pub open spec fn accept_audit_target(index: int, request_id: Seq<char>, action_id: Seq<char>) -> AuditTargetView {
    if index == 1 {
        AuditTargetView::Action(action_id)
    } else {
        AuditTargetView::ActionRequest(request_id)
    }
}

pub open spec fn target_type_text(target: AuditTargetView) -> Seq<char> {
    match target {
        AuditTargetView::ActionRequest(_) => "action_request"@,
        AuditTargetView::Action(_) => "action"@,
    }
}

pub open spec fn target_id_text(target: AuditTargetView) -> Seq<char> {
    match target {
        AuditTargetView::ActionRequest(id) => id,
        AuditTargetView::Action(id) => id,
    }
}

/// Whether the recorded audit at `index` is the one an acceptance records
/// there: its link is at its place under the execution's correlation; the
/// event is the link's, occurred when the receipt was approved, by the
/// Head of Products in work management, with the expected code and
/// target, the execution's correlation and an allowed, approved,
/// succeeded, complete disposition; and it has exactly one complete effect
/// of its own code on its target.
pub open spec fn accept_audit_ok(
    audit: RecordedAudit,
    index: int,
    request_id: Seq<char>,
    action_id: Seq<char>,
    approved_at: i64,
    correlation: Seq<char>,
) -> bool {
    let code = accept_audit_code(index).spec_text();
    let target = accept_audit_target(index, request_id, action_id);
    let event = audit.event;
    &&& audit.link.ordinal == index
    &&& audit.link.correlation_id@ == correlation
    &&& event.id@ == audit.link.audit_event_id@
    &&& event.occurred_at == approved_at
    &&& event.actor@ == "head_of_products"@
    &&& event.module@ == "work_management"@
    &&& event.event_code@ == code
    &&& event.target_type@ == target_type_text(target)
    &&& event.target_id@ == target_id_text(target)
    &&& event.correlation_id@ == correlation
    &&& event.policy_outcome@ == "allowed"@
    &&& event.approval_outcome@ == "approved"@
    &&& event.execution_outcome@ == "succeeded"@
    &&& event.effect_scope@ == "complete"@
    &&& audit.effects@.len() == 1
    &&& audit.effects@[0].ordinal == 0
    &&& audit.effects@[0].effect_code@ == code
    &&& audit.effects@[0].scope@ == "complete"@
    &&& audit.effects@[0].target_type@ == target_type_text(target)
    &&& audit.effects@[0].target_id@ == target_id_text(target)
}

/// The audit event the recorded audit at `index` holds.
pub open spec fn accept_audit_event(
    audit: RecordedAudit,
    index: int,
    request_id: Seq<char>,
    action_id: Seq<char>,
) -> AuditEventView {
    AuditEventView {
        id: audit.event.id@,
        occurred_at: audit.event.occurred_at,
        code: accept_audit_code(index),
        target: accept_audit_target(index, request_id, action_id),
        correlation_id: audit.event.correlation_id@,
    }
}

/// Whether the rows of an executed acceptance are those an approval of
/// `prepared` that accepted `request` into `action` writes: the Head of
/// Products acknowledged the preview's own digest; the replay row records
/// an accepted result naming the request's linked Action and the preview;
/// the receipt is the Head of Products', for that digest and key, approved
/// not before the epoch, expiring with the preview and consumed, like the
/// preview, when approved; and the three audit events are those of an
/// acceptance.
pub open spec fn execute_accept_rows_ok(
    request: ActionRequestView,
    prepared: PreparedIntentView,
    action: ActionView,
    rows: ExecuteAcceptRows,
) -> bool {
    let replay = rows.replay;
    let receipt = rows.receipt;
    &&& rows.actor@ == "head_of_products"@
    &&& rows.acknowledged_digest@ == prepared.payload_digest
    &&& replay.operation_ordinal >= 0
    &&& replay.result_kind@ == "accepted"@
    &&& opt_string(replay.result_reference) is Some
    &&& opt_string(replay.result_reference) == request.linked_action_id
    &&& opt_string(replay.prepared_intent_id) == Some(prepared.id)
    &&& replay.prepared_disposition@ == "not_applicable"@
    &&& receipt.actor@ == "head_of_products"@
    &&& receipt.acknowledged_payload_digest@ == rows.acknowledged_digest@
    &&& receipt.idempotency_id@ == rows.idempotency_id@
    &&& receipt.approved_at >= 0
    &&& receipt.expires_at == prepared.expires_at
    &&& receipt.consumed_at == Some(receipt.approved_at)
    &&& rows.prepared_consumed_at == Some(receipt.approved_at)
    &&& rows.audits@.len() == 3
    &&& forall|i: int|
        0 <= i < 3 ==> #[trigger] accept_audit_ok(
            rows.audits@[i],
            i,
            request.id,
            action.id,
            receipt.approved_at,
            replay.correlation_id@,
        )
}

/// What decoding an executed acceptance gives: the accepted outcome (the
/// request, the Action, the three audit events and the receipt) and the
/// capsule recording the approval; an invalid snapshot where the rows are
/// not those of an accepted execution.
pub open spec fn execute_accept_decode_model(
    request: ActionRequestView,
    prepared: PreparedIntentView,
    action: ActionView,
    rows: ExecuteAcceptRows,
) -> Result<(AcceptedOutcomeView, CapsuleView), ActionPersistenceLoadError> {
    if execute_accept_rows_ok(request, prepared, action, rows) {
        let outcome = AcceptedOutcomeView {
            request,
            action,
            audit_events: Seq::new(
                3,
                |i: int| accept_audit_event(rows.audits@[i], i, request.id, action.id),
            ),
            approval_receipt_id: rows.receipt.id@,
        };
        Ok(
            (
                outcome,
                CapsuleView {
                    idempotency_id: rows.idempotency_id@,
                    correlation_id: rows.replay.correlation_id@,
                    operation_ordinal: rows.replay.operation_ordinal as u64,
                    command: CommandView::ExecutePrepared {
                        kind: PreparedIntentKind::AcceptActionRequest,
                        prepared_id: prepared.id,
                        actor: "head_of_products"@,
                        acknowledged_digest: prepared.payload_digest,
                    },
                    result: ResultView::Accepted(outcome),
                },
            ),
        )
    } else {
        Err(ActionPersistenceLoadError::InvalidActionSnapshot)
    }
}

pub open spec fn decoded_execution_view(result: Result<(AcceptedActionOutcome, ActionReplayCapsule), ActionPersistenceLoadError>) -> Result<
    (AcceptedOutcomeView, CapsuleView),
    ActionPersistenceLoadError,
> {
    match result {
        Ok((outcome, capsule)) => Ok((outcome@, capsule@)),
        Err(error) => Err(error),
    }
}

fn accept_audit_code_at(index: usize) -> (code: AuditEventCode)
    requires
        index < 3,
    ensures
        code == accept_audit_code(index as int),
{
    if index == 0 {
        AuditEventCode::ActionRequestAccepted
    } else if index == 1 {
        AuditEventCode::ActionCreatedFromRequest
    } else {
        AuditEventCode::ActionRequestActionLinked
    }
}

fn check_accept_audit(
    audit: &RecordedAudit,
    index: usize,
    request_id: &String,
    action_id: &String,
    approved_at: i64,
    correlation: &String,
) -> (event: Option<AuditEvent>)
    requires
        index < 3,
    ensures
        event is Some <==> accept_audit_ok(
            *audit,
            index as int,
            request_id@,
            action_id@,
            approved_at,
            correlation@,
        ),
        event matches Some(e) ==> e@ == accept_audit_event(
            *audit,
            index as int,
            request_id@,
            action_id@,
        ),
{
    let code = accept_audit_code_at(index);
    let code_text = code.as_str();
    let (target_type, target_id): (&str, &String) = if index == 1 {
        ("action", action_id)
    } else {
        ("action_request", request_id)
    };
    let event = &audit.event;
    let effects = &audit.effects;
    let ok = (audit.link.ordinal as i128) == (index as i128) && str_eq(
        audit.link.correlation_id.as_str(),
        correlation.as_str(),
    ) && str_eq(event.id.as_str(), audit.link.audit_event_id.as_str()) && event.occurred_at
        == approved_at && str_eq(event.actor.as_str(), "head_of_products") && str_eq(
        event.module.as_str(),
        "work_management",
    ) && str_eq(event.event_code.as_str(), code_text) && str_eq(
        event.target_type.as_str(),
        target_type,
    ) && str_eq(event.target_id.as_str(), target_id.as_str()) && str_eq(
        event.correlation_id.as_str(),
        correlation.as_str(),
    ) && str_eq(event.policy_outcome.as_str(), "allowed") && str_eq(
        event.approval_outcome.as_str(),
        "approved",
    ) && str_eq(event.execution_outcome.as_str(), "succeeded") && str_eq(
        event.effect_scope.as_str(),
        "complete",
    ) && effects.len() == 1 && effects[0].ordinal == 0 && str_eq(
        effects[0].effect_code.as_str(),
        code_text,
    ) && str_eq(effects[0].scope.as_str(), "complete") && str_eq(
        effects[0].target_type.as_str(),
        target_type,
    ) && str_eq(effects[0].target_id.as_str(), target_id.as_str());
    if !ok {
        return None;
    }
    let target = if index == 1 {
        AuditTarget::Action(action_id.clone())
    } else {
        AuditTarget::ActionRequest(request_id.clone())
    };
    Some(
        AuditEvent {
            id: event.id.clone(),
            occurred_at: event.occurred_at,
            code,
            target,
            correlation_id: event.correlation_id.clone(),
        },
    )
}

/// Decodes one executed acceptance of `request`, which consumed
/// `prepared` and created `action`.
pub fn decode_execute_accept(
    request: &ActionRequestRecord,
    prepared: &PreparedIntent,
    action: ActionRecord,
    rows: ExecuteAcceptRows,
) -> (result: Result<(AcceptedActionOutcome, ActionReplayCapsule), ActionPersistenceLoadError>)
    ensures
        decoded_execution_view(result) == execute_accept_decode_model(
            request@,
            prepared@,
            action@,
            rows,
        ),
{
    let replay = &rows.replay;
    let receipt = &rows.receipt;
    let reference_ok = match (&replay.result_reference, &request.linked_action_id) {
        (Some(reference), Some(linked)) => str_eq(reference.as_str(), linked.as_str()),
        _ => false,
    };
    let prepared_ok = match &replay.prepared_intent_id {
        Some(id) => str_eq(id.as_str(), prepared.id.as_str()),
        None => false,
    };
    if !(str_eq(rows.actor.as_str(), "head_of_products") && str_eq(
        rows.acknowledged_digest.as_str(),
        prepared.payload_digest.as_str(),
    ) && replay.operation_ordinal >= 0 && str_eq(replay.result_kind.as_str(), "accepted")
        && reference_ok && prepared_ok && str_eq(
        replay.prepared_disposition.as_str(),
        "not_applicable",
    ) && str_eq(receipt.actor.as_str(), "head_of_products") && str_eq(
        receipt.acknowledged_payload_digest.as_str(),
        rows.acknowledged_digest.as_str(),
    ) && str_eq(receipt.idempotency_id.as_str(), rows.idempotency_id.as_str())
        && receipt.approved_at >= 0 && receipt.expires_at == prepared.expires_at
        && receipt.consumed_at == Some(receipt.approved_at) && rows.prepared_consumed_at == Some(
        receipt.approved_at,
    ) && rows.audits.len() == 3) {
        return Err(ActionPersistenceLoadError::InvalidActionSnapshot);
    }
    let ghost audits = rows.audits@;
    let first = check_accept_audit(
        &rows.audits[0],
        0,
        &request.id,
        &action.id,
        receipt.approved_at,
        &replay.correlation_id,
    );
    let second = check_accept_audit(
        &rows.audits[1],
        1,
        &request.id,
        &action.id,
        receipt.approved_at,
        &replay.correlation_id,
    );
    let third = check_accept_audit(
        &rows.audits[2],
        2,
        &request.id,
        &action.id,
        receipt.approved_at,
        &replay.correlation_id,
    );
    let (first, second, third) = match (first, second, third) {
        (Some(a), Some(b), Some(c)) => (a, b, c),
        _ => {
            proof {
                let ok = forall|i: int|
                    0 <= i < 3 ==> #[trigger] accept_audit_ok(
                        audits[i],
                        i,
                        request@.id,
                        action@.id,
                        receipt.approved_at,
                        replay.correlation_id@,
                    );
                if ok {
                    assert(accept_audit_ok(audits[0], 0, request@.id, action@.id, receipt.approved_at, replay.correlation_id@));
                    assert(accept_audit_ok(audits[1], 1, request@.id, action@.id, receipt.approved_at, replay.correlation_id@));
                    assert(accept_audit_ok(audits[2], 2, request@.id, action@.id, receipt.approved_at, replay.correlation_id@));
                }
            }
            return Err(ActionPersistenceLoadError::InvalidActionSnapshot);
        },
    };
    proof {
        assert forall|i: int| 0 <= i < 3 implies #[trigger] accept_audit_ok(
            audits[i],
            i,
            request@.id,
            action@.id,
            receipt.approved_at,
            replay.correlation_id@,
        ) by {
            if i == 0 {
            } else if i == 1 {
            } else {
            }
        }
    }
    let events = vec![first, second, third];
    proof {
        assert(audit_views(events@) =~= Seq::new(
            3,
            |i: int| accept_audit_event(audits[i], i, request@.id, action@.id),
        ));
    }
    let outcome = AcceptedActionOutcome {
        request: request.clone(),
        action,
        audit_events: events,
        approval_receipt_id: receipt.id.clone(),
    };
    let capsule = ActionReplayCapsule {
        idempotency_id: rows.idempotency_id.clone(),
        correlation_id: replay.correlation_id.clone(),
        operation_ordinal: replay.operation_ordinal as u64,
        command: ActionPersistenceCommand::ExecutePrepared {
            kind: PreparedIntentKind::AcceptActionRequest,
            prepared_id: prepared.id.clone(),
            actor: "head_of_products".to_string(),
            acknowledged_digest: prepared.payload_digest.clone(),
        },
        result: ActionPersistenceResult::Accepted(outcome.clone()),
    };
    Ok((outcome, capsule))
}

// ---------------------------------------------------------------------------
// The accepted Action
// ---------------------------------------------------------------------------

/// The `actions` row of an accepted Action joined with its registry row.
#[derive(Debug)]
pub struct AcceptedActionRow {
    pub source_request_id: String,
    pub title: String,
    pub details: String,
    pub owner_id: String,
    pub due_at: i64,
    pub state: String,
    pub commitment_classification: String,
    pub source_decision_id: Option<String>,
    pub superseded_premise: i64,
    pub version: i64,
    pub classification: String,
}

/// The Action an acceptance of `request` through `prepared` created, as it
/// was when created: the preview's Action id, subject, details, owner and
/// due date, the preview's classification, open at version 1 with no
/// completion evidence, no transition, and the request's provenance.
pub open spec fn accepted_action(
    request: ActionRequestView,
    source_decision_id: Option<Seq<char>>,
    superseded_premise: bool,
    prepared: PreparedIntentView,
) -> ActionView {
    match prepared.operation {
        crate::model::PreparedOperationView::AcceptActionRequest {
            action_id,
            action_subject,
            commitment_details,
            intended_owner,
            intended_due_at,
            ..
        } => ActionView {
            id: action_id,
            source_request_id: request.id,
            title: action_subject,
            details: commitment_details,
            owner_id: intended_owner,
            due_at: intended_due_at,
            classification: prepared.classification,
            state: crate::states::ActionState::Open,
            version: 1,
            completion_evidence: Seq::empty(),
            transition_reason: None,
            supported_by: None,
            transition_history: Seq::empty(),
            source_decision_id,
            superseded_premise,
        },
        _ => arbitrary(),
    }
}

/// Whether the row is that of the Action the acceptance of `request`
/// through `prepared` created: the preview accepts, the request is accepted
/// and linked to the preview's Action under the preview's Action
/// classification; the row names the request, the preview's subject,
/// details, owner and due date, a known lifecycle state, the request's
/// classification as commitment classification and the request's
/// provenance (`source_decision_id`, `superseded_premise`); its version is
/// positive, and at version 1 its classification is the preview's.
pub open spec fn accepted_action_row_ok(
    request: ActionRequestView,
    source_decision_id: Option<Seq<char>>,
    superseded_premise: i64,
    prepared: PreparedIntentView,
    row: AcceptedActionRow,
) -> bool {
    match prepared.operation {
        crate::model::PreparedOperationView::AcceptActionRequest {
            action_id,
            action_classification,
            action_subject,
            commitment_details,
            intended_owner,
            intended_due_at,
            ..
        } => {
            &&& request.state == ActionRequestState::Accepted
            &&& request.linked_action_id == Some(action_id)
            &&& request.classification == action_classification
            &&& row.source_request_id@ == request.id
            &&& row.title@ == action_subject
            &&& row.details@ == commitment_details
            &&& row.owner_id@ == intended_owner
            &&& row.due_at == intended_due_at
            &&& crate::states::ActionState::decoded(row.state@) is Some
            &&& row.commitment_classification@ == request.classification
            &&& opt_string(row.source_decision_id) == source_decision_id
            &&& row.superseded_premise == (if superseded_premise != 0 { 1int } else { 0int })
            &&& row.version >= 1
            &&& (row.version == 1 ==> row.classification@ == prepared.classification)
        },
        _ => false,
    }
}

pub open spec fn action_result_view(result: Result<ActionRecord, ActionPersistenceLoadError>) -> Result<
    ActionView,
    ActionPersistenceLoadError,
> {
    match result {
        Ok(action) => Ok(action@),
        Err(error) => Err(error),
    }
}

/// Decodes the Action the acceptance of `request` through `prepared`
/// created, as it was when created, from its current row; the request's
/// provenance is given as its own row records it.
pub fn decode_accepted_action(
    request: &ActionRequestRecord,
    source_decision_id: &Option<String>,
    superseded_premise: i64,
    prepared: &PreparedIntent,
    row: &AcceptedActionRow,
) -> (result: Result<ActionRecord, ActionPersistenceLoadError>)
    ensures
        action_result_view(result) == (if accepted_action_row_ok(
            request@,
            opt_string(*source_decision_id),
            superseded_premise,
            prepared@,
            *row,
        ) {
            Ok::<ActionView, ActionPersistenceLoadError>(
                accepted_action(
                    request@,
                    opt_string(*source_decision_id),
                    superseded_premise != 0,
                    prepared@,
                ),
            )
        } else {
            Err(ActionPersistenceLoadError::InvalidActionSnapshot)
        }),
        result matches Ok(action) ==> match prepared@.operation {
            crate::model::PreparedOperationView::AcceptActionRequest {
                action_id,
                action_subject,
                commitment_details,
                intended_owner,
                intended_due_at,
                ..
            } => {
                &&& action.id@ == action_id
                &&& action.title@ == action_subject
                &&& action.title@ == row.title@
                &&& action.details@ == commitment_details
                &&& action.details@ == row.details@
                &&& action.owner_id@ == intended_owner
                &&& action.due_at == intended_due_at
                &&& action.source_request_id@ == request@.id
            },
            _ => false,
        },
{
    match &prepared.operation {
        crate::model::PreparedOperation::AcceptActionRequest {
            action_id,
            action_classification,
            action_subject,
            commitment_details,
            intended_owner,
            intended_due_at,
            ..
        } => {
            let linked_ok = match &request.linked_action_id {
                Some(linked) => str_eq(linked.as_str(), action_id.as_str()),
                None => false,
            };
            let provenance_ok = match (&row.source_decision_id, source_decision_id) {
                (Some(a), Some(b)) => str_eq(a.as_str(), b.as_str()),
                (None, None) => true,
                _ => false,
            };
            let marked: i64 = if superseded_premise != 0 { 1 } else { 0 };
            if !(request.state == ActionRequestState::Accepted && linked_ok && str_eq(
                request.classification.as_str(),
                action_classification.as_str(),
            ) && str_eq(row.source_request_id.as_str(), request.id.as_str()) && str_eq(
                row.title.as_str(),
                action_subject.as_str(),
            ) && str_eq(row.details.as_str(), commitment_details.as_str()) && str_eq(
                row.owner_id.as_str(),
                intended_owner.as_str(),
            ) && row.due_at == *intended_due_at && crate::states::ActionState::from_persisted(
                row.state.as_str(),
            ).is_ok() && str_eq(
                row.commitment_classification.as_str(),
                request.classification.as_str(),
            ) && provenance_ok && row.superseded_premise == marked && row.version >= 1 && (
            row.version != 1 || str_eq(
                row.classification.as_str(),
                prepared.classification.as_str(),
            ))) {
                return Err(ActionPersistenceLoadError::InvalidActionSnapshot);
            }
            let action = ActionRecord {
                id: action_id.clone(),
                source_request_id: request.id.clone(),
                title: action_subject.clone(),
                details: commitment_details.clone(),
                owner_id: intended_owner.clone(),
                due_at: *intended_due_at,
                classification: prepared.classification.clone(),
                state: crate::states::ActionState::Open,
                version: 1,
                completion_evidence: Vec::new(),
                transition_reason: None,
                supported_by: None,
                transition_history: Vec::new(),
                source_decision_id: clone_opt_string(source_decision_id),
                superseded_premise: superseded_premise != 0,
            };
            proof {
                let expected = accepted_action(
                    request@,
                    opt_string(*source_decision_id),
                    superseded_premise != 0,
                    prepared@,
                );
                assert(action@.completion_evidence =~= expected.completion_evidence);
                assert(action@.transition_history =~= expected.transition_history);
            }
            Ok(action)
        },
        _ => Err(ActionPersistenceLoadError::InvalidActionSnapshot),
    }
}

/// The rows of the audit event an acceptance records at place `index`,
/// with id `audit_id`.
fn encode_accept_audit(
    index: usize,
    audit_id: &String,
    request_id: &String,
    action_id: &String,
    approved_at: i64,
    correlation: &String,
) -> (audit: RecordedAudit)
    requires
        index < 3,
    ensures
        accept_audit_ok(audit, index as int, request_id@, action_id@, approved_at, correlation@),
        audit.event.id@ == audit_id@,
{
    let code = accept_audit_code_at(index);
    let code_text = code.as_str();
    let (target_type, target_id): (&str, &String) = if index == 1 {
        ("action", action_id)
    } else {
        ("action_request", request_id)
    };
    RecordedAudit {
        link: AuditLinkRow {
            ordinal: index as i64,
            audit_event_id: audit_id.clone(),
            correlation_id: correlation.clone(),
        },
        event: AuditRow {
            id: audit_id.clone(),
            occurred_at: approved_at,
            actor: "head_of_products".to_string(),
            module: "work_management".to_string(),
            event_code: code_text.to_string(),
            target_type: target_type.to_string(),
            target_id: target_id.clone(),
            correlation_id: correlation.clone(),
            policy_outcome: "allowed".to_string(),
            approval_outcome: "approved".to_string(),
            execution_outcome: "succeeded".to_string(),
            effect_scope: "complete".to_string(),
        },
        effects: vec![
            AuditEffectRow {
                ordinal: 0,
                effect_code: code_text.to_string(),
                scope: "complete".to_string(),
                target_type: target_type.to_string(),
                target_id: target_id.clone(),
            },
        ],
    }
}

/// Whether the outcome's audit event at place `index` is the one an
/// acceptance records there, at `approved_at` under `correlation`.
pub open spec fn accept_event_at(
    outcome: AcceptedOutcomeView,
    index: int,
    approved_at: i64,
    correlation: Seq<char>,
) -> bool {
    outcome.audit_events[index] == AuditEventView {
        id: outcome.audit_events[index].id,
        occurred_at: approved_at,
        code: accept_audit_code(index),
        target: accept_audit_target(index, outcome.request.id, outcome.action.id),
        correlation_id: correlation,
    }
}

/// Whether `audit` holds the outcome's audit event at place `index`.
pub open spec fn encodes_accept_audit(
    audit: RecordedAudit,
    index: int,
    outcome: AcceptedOutcomeView,
    approved_at: i64,
    correlation: Seq<char>,
) -> bool {
    &&& accept_audit_ok(audit, index, outcome.request.id, outcome.action.id, approved_at, correlation)
    &&& audit.event.id@ == outcome.audit_events[index].id
}

/// The capsule recording the Head of Products' approval of the acceptance
/// `prepared` with `outcome`.
pub open spec fn accept_capsule(
    key: Seq<char>,
    correlation: Seq<char>,
    ordinal: u64,
    prepared: PreparedIntentView,
    outcome: AcceptedOutcomeView,
) -> CapsuleView {
    CapsuleView {
        idempotency_id: key,
        correlation_id: correlation,
        operation_ordinal: ordinal,
        command: CommandView::ExecutePrepared {
            kind: PreparedIntentKind::AcceptActionRequest,
            prepared_id: prepared.id,
            actor: "head_of_products"@,
            acknowledged_digest: prepared.payload_digest,
        },
        result: ResultView::Accepted(outcome),
    }
}

/// The rows that persist an approval of `prepared` that accepted the
/// outcome's request into its Action under `key` at `ordinal`: the replay
/// row, the receipt approved and consumed with the preview at
/// `approved_at`, and the outcome's three audit events.  They decode to
/// the outcome and the capsule recording the approval.
pub fn encode_execute_accept(
    outcome: &AcceptedActionOutcome,
    prepared: &PreparedIntent,
    key: &String,
    correlation: &String,
    ordinal: u64,
    approved_at: i64,
) -> (rows: ExecuteAcceptRows)
    requires
        ordinal <= i64::MAX,
        approved_at >= 0,
        outcome@.request.linked_action_id == Some(outcome@.action.id),
        outcome@.audit_events.len() == 3,
        forall|i: int|
            0 <= i < 3 ==> #[trigger] accept_event_at(outcome@, i, approved_at, correlation@),
    ensures
        execute_accept_decode_model(outcome@.request, prepared@, outcome@.action, rows) == Ok::<
            (AcceptedOutcomeView, CapsuleView),
            ActionPersistenceLoadError,
        >((outcome@, accept_capsule(key@, correlation@, ordinal, prepared@, outcome@))),
{
    let request_id = &outcome.request.id;
    let action_id = &outcome.action.id;
    let mut audits: Vec<RecordedAudit> = Vec::new();
    let mut i: usize = 0;
    while i < 3
        invariant
            i <= 3,
            audits@.len() == i,
            outcome@.audit_events.len() == 3,
            request_id@ == outcome@.request.id,
            action_id@ == outcome@.action.id,
            forall|k: int|
                0 <= k < i ==> #[trigger] encodes_accept_audit(
                    audits@[k],
                    k,
                    outcome@,
                    approved_at,
                    correlation@,
                ),
        decreases 3 - i,
    {
        proof {
            assert(audit_views(outcome.audit_events@)[i as int] == outcome.audit_events@[i as int]@);
        }
        let audit = encode_accept_audit(
            i,
            &outcome.audit_events[i].id,
            request_id,
            action_id,
            approved_at,
            correlation,
        );
        let ghost before = audits@;
        audits.push(audit);
        proof {
            assert(audits@[i as int] == audit);
            assert(encodes_accept_audit(audits@[i as int], i as int, outcome@, approved_at, correlation@));
            assert forall|k: int| 0 <= k < i + 1 implies #[trigger] encodes_accept_audit(
                audits@[k],
                k,
                outcome@,
                approved_at,
                correlation@,
            ) by {
                if k < i {
                    assert(audits@[k] == before[k]);
                }
            }
        }
        i = i + 1;
    }
    let rows = ExecuteAcceptRows {
        idempotency_id: key.clone(),
        actor: "head_of_products".to_string(),
        acknowledged_digest: prepared.payload_digest.clone(),
        replay: ExecuteReplayRow {
            correlation_id: correlation.clone(),
            operation_ordinal: ordinal as i64,
            result_kind: "accepted".to_string(),
            result_reference: Some(action_id.clone()),
            prepared_intent_id: Some(prepared.id.clone()),
            prepared_disposition: "not_applicable".to_string(),
        },
        receipt: ReceiptRow {
            id: outcome.approval_receipt_id.clone(),
            actor: "head_of_products".to_string(),
            acknowledged_payload_digest: prepared.payload_digest.clone(),
            idempotency_id: key.clone(),
            approved_at,
            expires_at: prepared.expires_at,
            consumed_at: Some(approved_at),
        },
        prepared_consumed_at: Some(approved_at),
        audits,
    };
    proof {
        let events = Seq::new(
            3,
            |k: int| accept_audit_event(rows.audits@[k], k, request_id@, action_id@),
        );
        assert forall|k: int| 0 <= k < 3 implies events[k] == outcome@.audit_events[k] by {
            assert(encodes_accept_audit(rows.audits@[k], k, outcome@, approved_at, correlation@));
            assert(accept_event_at(outcome@, k, approved_at, correlation@));
        }
        assert(events =~= outcome@.audit_events);
        assert forall|k: int| 0 <= k < 3 implies #[trigger] accept_audit_ok(
            rows.audits@[k],
            k,
            outcome@.request.id,
            outcome@.action.id,
            rows.receipt.approved_at,
            rows.replay.correlation_id@,
        ) by {
            assert(encodes_accept_audit(rows.audits@[k], k, outcome@, approved_at, correlation@));
        }
        assert(execute_accept_rows_ok(outcome@.request, prepared@, outcome@.action, rows));
    }
    rows
}

/// The Action an acceptance created is the preview's: where its row
/// decodes, the Action has the preview's Action id, subject as title,
/// commitment details as details, owner and due date, and the title and
/// details are also the row's.
pub proof fn lemma_accepted_action_is_the_previewed_one(
    request: ActionRequestView,
    source_decision_id: Option<Seq<char>>,
    superseded_premise: i64,
    prepared: PreparedIntentView,
    row: AcceptedActionRow,
)
    requires
        accepted_action_row_ok(request, source_decision_id, superseded_premise, prepared, row),
    ensures
        prepared.operation is AcceptActionRequest,
        accepted_action(request, source_decision_id, superseded_premise != 0, prepared).id
            == prepared.operation->AcceptActionRequest_action_id,
        accepted_action(request, source_decision_id, superseded_premise != 0, prepared).title
            == prepared.operation->AcceptActionRequest_action_subject,
        accepted_action(request, source_decision_id, superseded_premise != 0, prepared).title
            == row.title@,
        accepted_action(request, source_decision_id, superseded_premise != 0, prepared).details
            == prepared.operation->AcceptActionRequest_commitment_details,
        accepted_action(request, source_decision_id, superseded_premise != 0, prepared).details
            == row.details@,
        accepted_action(request, source_decision_id, superseded_premise != 0, prepared).owner_id
            == prepared.operation->AcceptActionRequest_intended_owner,
        accepted_action(request, source_decision_id, superseded_premise != 0, prepared).due_at
            == prepared.operation->AcceptActionRequest_intended_due_at,
        accepted_action(request, source_decision_id, superseded_premise != 0, prepared).source_request_id
            == request.id,
        accepted_action(request, source_decision_id, superseded_premise != 0, prepared).classification
            == prepared.classification,
        accepted_action(request, source_decision_id, superseded_premise != 0, prepared).state
            == crate::states::ActionState::Open,
        accepted_action(request, source_decision_id, superseded_premise != 0, prepared).version == 1,
{
}

/// A decoded executed acceptance records the request accepted, then the
/// Action created from it on the Action, then the request linked to it, in
/// that order, each under the id of its audit row, at the instant the
/// receipt was approved, under the replay row's correlation; the outcome
/// names the receipt, and the capsule records the Head of Products'
/// approval of the preview with its own digest under the rows' key and
/// ordinal.
pub proof fn lemma_decoded_acceptance_records_its_three_events(
    request: ActionRequestView,
    prepared: PreparedIntentView,
    action: ActionView,
    rows: ExecuteAcceptRows,
)
    requires
        execute_accept_decode_model(request, prepared, action, rows) is Ok,
    ensures
        ({
            let (outcome, capsule) = execute_accept_decode_model(request, prepared, action, rows)->Ok_0;
            &&& outcome.request == request
            &&& outcome.action == action
            &&& outcome.approval_receipt_id == rows.receipt.id@
            &&& outcome.audit_events.len() == 3
            &&& outcome.audit_events[0].code == AuditEventCode::ActionRequestAccepted
            &&& outcome.audit_events[0].target == AuditTargetView::ActionRequest(request.id)
            &&& outcome.audit_events[1].code == AuditEventCode::ActionCreatedFromRequest
            &&& outcome.audit_events[1].target == AuditTargetView::Action(action.id)
            &&& outcome.audit_events[2].code == AuditEventCode::ActionRequestActionLinked
            &&& outcome.audit_events[2].target == AuditTargetView::ActionRequest(request.id)
            &&& forall|i: int|
                0 <= i < 3 ==> {
                    &&& (#[trigger] outcome.audit_events[i]).id == rows.audits@[i].event.id@
                    &&& outcome.audit_events[i].occurred_at == rows.receipt.approved_at
                    &&& outcome.audit_events[i].correlation_id == rows.replay.correlation_id@
                }
            &&& request.linked_action_id == opt_string(rows.replay.result_reference)
            &&& rows.acknowledged_digest@ == prepared.payload_digest
            &&& capsule.idempotency_id == rows.idempotency_id@
            &&& capsule.operation_ordinal == rows.replay.operation_ordinal
            &&& capsule.command == CommandView::ExecutePrepared {
                kind: PreparedIntentKind::AcceptActionRequest,
                prepared_id: prepared.id,
                actor: "head_of_products"@,
                acknowledged_digest: prepared.payload_digest,
            }
        }),
{
    let (outcome, capsule) = execute_accept_decode_model(request, prepared, action, rows)->Ok_0;
    assert forall|i: int| 0 <= i < 3 implies {
        &&& (#[trigger] outcome.audit_events[i]).id == rows.audits@[i].event.id@
        &&& outcome.audit_events[i].occurred_at == rows.receipt.approved_at
        &&& outcome.audit_events[i].correlation_id == rows.replay.correlation_id@
    } by {
        assert(accept_audit_ok(rows.audits@[i], i, request.id, action.id, rows.receipt.approved_at, rows.replay.correlation_id@));
    }
}

} // verus!
