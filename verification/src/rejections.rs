//! Decoding the Head of Products' rejection of a pending preview: the
//! rejection's result row, the one effect-free audit event it recorded on
//! the preview's target, and the preview consumed at the rejection instant.

use vstd::prelude::*;
use crate::load_error::ActionPersistenceLoadError;
use crate::model::{
    ActionPersistenceCommand, ActionPersistenceResult, ActionReplayCapsule, AuditTarget,
    AuditTargetView, CapsuleView, CommandView, PreparedIntent, PreparedOperation,
    PreparedOperationView, RejectedOutcomeView, RejectedPreparedIntentOutcome, ResultView,
};
use crate::text::str_eq;

verus! {

/// The `audit_events` row a rejection names, with the number of its effect
/// rows.
#[derive(Debug)]
pub struct RejectionAuditRow {
    pub occurred_at: i64,
    pub actor: String,
    pub module: String,
    pub event_code: String,
    pub target_type: String,
    pub target_id: String,
    pub correlation_id: String,
    pub policy_outcome: String,
    pub approval_outcome: String,
    pub execution_outcome: String,
    pub effect_scope: String,
    pub effect_count: i64,
}

/// The rows a recorded rejection of one preview is made of: its result
/// row, the audit event row it names (if there is one), and when the
/// preview was consumed.
#[derive(Debug)]
pub struct RejectionRows {
    pub idempotency_id: String,
    pub correlation_id: String,
    pub ordinal: i64,
    pub rejected_at: i64,
    pub audit_event_id: String,
    pub actor: String,
    pub audit: Option<RejectionAuditRow>,
    pub prepared_consumed_at: Option<i64>,
}

/// What a rejection of a preview of `operation` is audited on: the request
/// an acceptance would accept, or the Action a completion, cancellation or
/// reopening would change; a lowering has no rejection target.
pub open spec fn rejection_target(operation: PreparedOperationView) -> Option<AuditTargetView> {
    match operation {
        PreparedOperationView::AcceptActionRequest { request_id, .. } => Some(
            AuditTargetView::ActionRequest(request_id),
        ),
        PreparedOperationView::CompleteAction { action_id, .. } => Some(
            AuditTargetView::Action(action_id),
        ),
        PreparedOperationView::CancelAction { action_id, .. } => Some(
            AuditTargetView::Action(action_id),
        ),
        PreparedOperationView::ReopenAction { action_id, .. } => Some(
            AuditTargetView::Action(action_id),
        ),
        PreparedOperationView::LowerActionClassification { .. } => None,
    }
}

/// Whether an audit row is on `target`, by its type and id columns.
pub open spec fn audit_row_on(audit: RejectionAuditRow, target: AuditTargetView) -> bool {
    match target {
        AuditTargetView::ActionRequest(id) => audit.target_type@ == "action_request"@
            && audit.target_id@ == id,
        AuditTargetView::Action(id) => audit.target_type@ == "action"@ && audit.target_id@ == id,
    }
}

/// Whether the audit row is the one legal rejection audit: at the
/// rejection instant, by the Head of Products in work management, with the
/// rejection's code, on `target`, under the rejection's correlation,
/// allowed by policy, rejected, not executed, and without any effect.
pub open spec fn rejection_audit_ok(
    rows: RejectionRows,
    target: AuditTargetView,
    rejection_code: Seq<char>,
) -> bool {
    match rows.audit {
        Some(audit) => {
            &&& audit.occurred_at == rows.rejected_at
            &&& audit.actor@ == "head_of_products"@
            &&& audit.module@ == "work_management"@
            &&& audit.event_code@ == rejection_code
            &&& audit_row_on(audit, target)
            &&& audit.correlation_id@ == rows.correlation_id@
            &&& audit.policy_outcome@ == "allowed"@
            &&& audit.approval_outcome@ == "rejected"@
            &&& audit.execution_outcome@ == "not_attempted"@
            &&& audit.effect_scope@ == "none"@
            &&& audit.effect_count == 0
        },
        None => false,
    }
}

/// What the rows of a recorded rejection of `intent` give: nothing where
/// no rejection was recorded; else the capsule recording the Head of
/// Products' rejection, with the consumed preview, whether it had expired,
/// and its audit event; an invalid snapshot where the actor is another,
/// the ordinal negative, the preview has no rejection target, the audit
/// row is not the legal one, or the preview was not consumed at the
/// rejection instant.  `rejection_code` is the audit code the domain
/// gives a rejection.
pub open spec fn rejection_model(
    intent: crate::model::PreparedIntentView,
    rows: Option<RejectionRows>,
    rejection_code: Seq<char>,
) -> Result<Option<CapsuleView>, ActionPersistenceLoadError> {
    match rows {
        None => Ok(None),
        Some(rows) => match rejection_target(intent.operation) {
            Some(target) => if rows.actor@ == "head_of_products"@ && rows.ordinal >= 0
                && rejection_audit_ok(rows, target, rejection_code) && rows.prepared_consumed_at
                == Some(rows.rejected_at) {
                Ok(
                    Some(
                        CapsuleView {
                            idempotency_id: rows.idempotency_id@,
                            correlation_id: rows.correlation_id@,
                            operation_ordinal: rows.ordinal as u64,
                            command: CommandView::RejectPrepared {
                                prepared_id: intent.id,
                                actor: "head_of_products"@,
                            },
                            result: ResultView::Rejected(
                                RejectedOutcomeView {
                                    prepared_intent_id: intent.id,
                                    expired: rows.rejected_at >= intent.expires_at,
                                    audit_event_id: rows.audit_event_id@,
                                    occurred_at: rows.rejected_at,
                                    target,
                                },
                            ),
                        },
                    ),
                )
            } else {
                Err(ActionPersistenceLoadError::InvalidActionSnapshot)
            },
            None => Err(ActionPersistenceLoadError::InvalidActionSnapshot),
        },
    }
}

pub open spec fn rejection_result_view(
    result: Result<Option<ActionReplayCapsule>, ActionPersistenceLoadError>,
) -> Result<Option<CapsuleView>, ActionPersistenceLoadError> {
    match result {
        Ok(Some(capsule)) => Ok(Some(capsule@)),
        Ok(None) => Ok(None),
        Err(error) => Err(error),
    }
}

fn target_of(operation: &PreparedOperation) -> (target: Option<AuditTarget>)
    ensures
        match target {
            Some(t) => rejection_target(operation@) == Some(t@),
            None => rejection_target(operation@) is None,
        },
{
    match operation {
        PreparedOperation::AcceptActionRequest { request_id, .. } => Some(
            AuditTarget::ActionRequest(request_id.clone()),
        ),
        PreparedOperation::CompleteAction { action_id, .. } => Some(
            AuditTarget::Action(action_id.clone()),
        ),
        PreparedOperation::CancelAction { action_id, .. } => Some(
            AuditTarget::Action(action_id.clone()),
        ),
        PreparedOperation::ReopenAction { action_id, .. } => Some(
            AuditTarget::Action(action_id.clone()),
        ),
        PreparedOperation::LowerActionClassification { .. } => None,
    }
}

fn check_rejection_audit(rows: &RejectionRows, target: &AuditTarget, rejection_code: &str) -> (ok:
    bool)
    ensures
        ok == rejection_audit_ok(*rows, target@, rejection_code@),
{
    match &rows.audit {
        Some(audit) => {
            let on_target = match target {
                AuditTarget::ActionRequest(id) => str_eq(
                    audit.target_type.as_str(),
                    "action_request",
                ) && str_eq(audit.target_id.as_str(), id.as_str()),
                AuditTarget::Action(id) => str_eq(audit.target_type.as_str(), "action") && str_eq(
                    audit.target_id.as_str(),
                    id.as_str(),
                ),
            };
            audit.occurred_at == rows.rejected_at && str_eq(audit.actor.as_str(), "head_of_products")
                && str_eq(audit.module.as_str(), "work_management") && str_eq(
                audit.event_code.as_str(),
                rejection_code,
            ) && on_target && str_eq(audit.correlation_id.as_str(), rows.correlation_id.as_str())
                && str_eq(audit.policy_outcome.as_str(), "allowed") && str_eq(
                audit.approval_outcome.as_str(),
                "rejected",
            ) && str_eq(audit.execution_outcome.as_str(), "not_attempted") && str_eq(
                audit.effect_scope.as_str(),
                "none",
            ) && audit.effect_count == 0
        },
        None => false,
    }
}

/// Decodes the recorded rejection of `intent`, if one was recorded, from
/// its rows; `rejection_code` is the audit code the domain gives a
/// rejection.
pub fn decode_prepared_intent_rejection(
    intent: &PreparedIntent,
    rows: Option<RejectionRows>,
    rejection_code: &str,
) -> (result: Result<Option<ActionReplayCapsule>, ActionPersistenceLoadError>)
    ensures
        rejection_result_view(result) == rejection_model(intent@, rows, rejection_code@),
{
    let rows = match rows {
        Some(rows) => rows,
        None => {
            return Ok(None);
        },
    };
    let target = match target_of(&intent.operation) {
        Some(target) => target,
        None => {
            return Err(ActionPersistenceLoadError::InvalidActionSnapshot);
        },
    };
    if !(str_eq(rows.actor.as_str(), "head_of_products") && rows.ordinal >= 0
        && check_rejection_audit(&rows, &target, rejection_code) && rows.prepared_consumed_at
        == Some(rows.rejected_at)) {
        return Err(ActionPersistenceLoadError::InvalidActionSnapshot);
    }
    let outcome = RejectedPreparedIntentOutcome {
        prepared_intent_id: intent.id.clone(),
        expired: rows.rejected_at >= intent.expires_at,
        audit_event_id: rows.audit_event_id,
        occurred_at: rows.rejected_at,
        target,
    };
    Ok(
        Some(
            ActionReplayCapsule {
                idempotency_id: rows.idempotency_id,
                correlation_id: rows.correlation_id,
                operation_ordinal: rows.ordinal as u64,
                command: ActionPersistenceCommand::RejectPrepared {
                    prepared_id: intent.id.clone(),
                    actor: "head_of_products".to_string(),
                },
                result: ActionPersistenceResult::Rejected(outcome),
            },
        ),
    )
}

/// The rows that record the Head of Products' rejection of `intent` under
/// `key` at `ordinal`: the result row, the one effect-free audit event
/// `audit_event_id` on the preview's target at `rejected_at`, and the
/// preview consumed at that instant.  They decode to the rejection's
/// capsule.
pub fn encode_prepared_intent_rejection(
    intent: &PreparedIntent,
    key: &String,
    correlation: &String,
    ordinal: u64,
    audit_event_id: &String,
    rejected_at: i64,
    rejection_code: &str,
) -> (rows: RejectionRows)
    requires
        rejection_target(intent@.operation) is Some,
        ordinal <= i64::MAX,
    ensures
        rows.idempotency_id@ == key@,
        rows.audit_event_id@ == audit_event_id@,
        rejection_model(intent@, Some(rows), rejection_code@) == Ok::<
            Option<CapsuleView>,
            ActionPersistenceLoadError,
        >(
            Some(
                CapsuleView {
                    idempotency_id: key@,
                    correlation_id: correlation@,
                    operation_ordinal: ordinal,
                    command: CommandView::RejectPrepared {
                        prepared_id: intent@.id,
                        actor: "head_of_products"@,
                    },
                    result: ResultView::Rejected(
                        RejectedOutcomeView {
                            prepared_intent_id: intent@.id,
                            expired: rejected_at >= intent@.expires_at,
                            audit_event_id: audit_event_id@,
                            occurred_at: rejected_at,
                            target: rejection_target(intent@.operation)->Some_0,
                        },
                    ),
                },
            ),
        ),
{
    let (target_type, target_id) = match &intent.operation {
        PreparedOperation::AcceptActionRequest { request_id, .. } => (
            "action_request".to_string(),
            request_id.clone(),
        ),
        PreparedOperation::CompleteAction { action_id, .. } => ("action".to_string(), action_id.clone()),
        PreparedOperation::CancelAction { action_id, .. } => ("action".to_string(), action_id.clone()),
        PreparedOperation::ReopenAction { action_id, .. } => ("action".to_string(), action_id.clone()),
        PreparedOperation::LowerActionClassification { action_id, .. } => (
            "action".to_string(),
            action_id.clone(),
        ),
    };
    let audit = RejectionAuditRow {
        occurred_at: rejected_at,
        actor: "head_of_products".to_string(),
        module: "work_management".to_string(),
        event_code: rejection_code.to_string(),
        target_type,
        target_id,
        correlation_id: correlation.clone(),
        policy_outcome: "allowed".to_string(),
        approval_outcome: "rejected".to_string(),
        execution_outcome: "not_attempted".to_string(),
        effect_scope: "none".to_string(),
        effect_count: 0,
    };
    RejectionRows {
        idempotency_id: key.clone(),
        correlation_id: correlation.clone(),
        ordinal: ordinal as i64,
        rejected_at,
        audit_event_id: audit_event_id.clone(),
        actor: "head_of_products".to_string(),
        audit: Some(audit),
        prepared_consumed_at: Some(rejected_at),
    }
}

/// A recorded rejection of a completion, cancellation, reopening or
/// acceptance preview decodes to the Head of Products' rejection of that
/// very preview: under the rows' key, correlation and ordinal, consumed at
/// the rejection instant under the rows' audit event, expired exactly when
/// the instant is not before the preview's expiry, and audited on the
/// request an acceptance names or the Action a change names.
pub proof fn lemma_decoded_rejection_is_of_its_preview(
    intent: crate::model::PreparedIntentView,
    rows: RejectionRows,
    rejection_code: Seq<char>,
)
    requires
        rejection_model(intent, Some(rows), rejection_code) matches Ok(Some(_)),
    ensures
        ({
            let capsule = rejection_model(intent, Some(rows), rejection_code)->Ok_0->Some_0;
            &&& capsule.idempotency_id == rows.idempotency_id@
            &&& capsule.correlation_id == rows.correlation_id@
            &&& capsule.operation_ordinal == rows.ordinal
            &&& capsule.command == CommandView::RejectPrepared {
                prepared_id: intent.id,
                actor: "head_of_products"@,
            }
            &&& rows.prepared_consumed_at == Some(rows.rejected_at)
            &&& capsule.result matches ResultView::Rejected(outcome)
            &&& capsule.result->Rejected_0.prepared_intent_id == intent.id
            &&& capsule.result->Rejected_0.audit_event_id == rows.audit_event_id@
            &&& capsule.result->Rejected_0.occurred_at == rows.rejected_at
            &&& capsule.result->Rejected_0.expired == (rows.rejected_at >= intent.expires_at)
            &&& match intent.operation {
                PreparedOperationView::AcceptActionRequest { request_id, .. } => capsule.result->Rejected_0.target
                    == AuditTargetView::ActionRequest(request_id),
                PreparedOperationView::CompleteAction { action_id, .. } => capsule.result->Rejected_0.target
                    == AuditTargetView::Action(action_id),
                PreparedOperationView::CancelAction { action_id, .. } => capsule.result->Rejected_0.target
                    == AuditTargetView::Action(action_id),
                PreparedOperationView::ReopenAction { action_id, .. } => capsule.result->Rejected_0.target
                    == AuditTargetView::Action(action_id),
                PreparedOperationView::LowerActionClassification { .. } => false,
            }
        }),
{
}

} // verus!
