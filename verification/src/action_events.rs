//! Replaying recorded Action activity while the namespace is decoded: a
//! recorded start or completion-evidence link is checked against its audit
//! rows and applied to the Action it names, the same way the command made
//! it, and yields the replay capsule that records it.

use vstd::prelude::*;
use crate::executions::{AuditEffectRow, ReceiptRow};
use crate::ledger::{
    action_ids_distinct, action_index, evidence_already_linked, evidence_linked, find_action,
    start_record, started,
};
use crate::load_error::ActionPersistenceLoadError;
use crate::model::{
    ActionMutationOutcome, ActionPersistenceCommand, ActionPersistenceResult, ActionRecord,
    ActionReplayCapsule, ActionTransition, ActionTransitionView, ActionView, AuditEvent, AuditEventCode, AuditEventView, AuditTarget,
    AuditTargetView, CapsuleView, CommandView, EvidenceBinding, EvidenceBindingView, OutcomeView,
    PreparedIntent, PreparedIntentKind, PreparedIntentView, PreparedOperation,
    PreparedOperationView, ResultView, action_views,
};
use crate::states::{ActionReopenMode, ActionState};
use crate::text::{clone_opt_string, opt_string, opt_string_eq, str_eq};

verus! {

/// One recorded Action command as the activity scan reads it: its key,
/// correlation, operation ordinal, target Action and expected version, and
/// for a link the evidence and its classification.
#[derive(Debug)]
pub struct ActionEventRow {
    pub idempotency_id: String,
    pub correlation_id: String,
    pub ordinal: i64,
    pub action_id: String,
    pub expected_version: i64,
    pub evidence_id: String,
    pub evidence_classification: String,
}

/// The one audit event a recorded Action command links, with its effect
/// rows.
#[derive(Debug)]
pub struct ActionAuditRows {
    pub id: String,
    pub occurred_at: i64,
    pub correlation_id: String,
    pub effects: Vec<AuditEffectRow>,
}

/// The Action after a recorded start at `occurred_at`: an open Action at
/// the expected version is started.
pub open spec fn started_action(previous: ActionView, expected_version: i64, occurred_at: i64) -> Option<
    ActionView,
> {
    if previous.state == ActionState::Open && previous.version == expected_version
        && previous.version < u64::MAX {
        Some(started(previous, occurred_at))
    } else {
        None
    }
}

/// The Action after a recorded completion-evidence link: an Action in
/// progress at the expected version, not yet linked to the evidence, gains
/// the binding at the next version.
pub open spec fn evidence_linked_action(
    previous: ActionView,
    expected_version: i64,
    binding: EvidenceBindingView,
) -> Option<ActionView> {
    if previous.state == ActionState::InProgress && previous.version == expected_version
        && !evidence_linked(previous.completion_evidence, binding.evidence_id) && previous.version
        < u64::MAX {
        Some(
            ActionView {
                version: (previous.version + 1) as u64,
                completion_evidence: previous.completion_evidence.push(binding),
                ..previous
            },
        )
    } else {
        None
    }
}

/// Whether the audit rows are the recorded command's: under its
/// correlation, with exactly one complete effect of `code` on the Action.
pub open spec fn action_audit_ok(audit: ActionAuditRows, row: ActionEventRow, code: AuditEventCode) -> bool {
    &&& audit.correlation_id@ == row.correlation_id@
    &&& audit.effects@.len() == 1
    &&& audit.effects@[0].ordinal == 0
    &&& audit.effects@[0].effect_code@ == code.spec_text()
    &&& audit.effects@[0].scope@ == "complete"@
    &&& audit.effects@[0].target_type@ == "action"@
    &&& audit.effects@[0].target_id@ == row.action_id@
}

/// The capsule recording a replayed Action command.
pub open spec fn action_event_capsule(
    row: ActionEventRow,
    audit: ActionAuditRows,
    code: AuditEventCode,
    command: CommandView,
    next: ActionView,
) -> CapsuleView {
    CapsuleView {
        idempotency_id: row.idempotency_id@,
        correlation_id: row.correlation_id@,
        operation_ordinal: row.ordinal as u64,
        command,
        result: ResultView::Action(
            OutcomeView {
                record: next,
                audit_events: seq![
                    AuditEventView {
                        id: audit.id@,
                        occurred_at: audit.occurred_at,
                        code,
                        target: AuditTargetView::Action(row.action_id@),
                        correlation_id: row.correlation_id@,
                    },
                ],
                approval_receipt_id: None,
            },
        ),
    }
}

/// What replaying a recorded start gives: the Actions with the started one
/// replaced, and the capsule; an invalid snapshot where the row, its audit
/// or the Action it names does not allow it.
pub open spec fn start_event_model(
    actions: Seq<ActionView>,
    row: ActionEventRow,
    audit: ActionAuditRows,
) -> Result<(Seq<ActionView>, CapsuleView), ActionPersistenceLoadError> {
    if row.ordinal >= 0 && row.expected_version >= 1 && action_audit_ok(
        audit,
        row,
        AuditEventCode::ActionStarted,
    ) {
        match action_index(actions, row.action_id@) {
            Some(j) => match started_action(actions[j], row.expected_version, audit.occurred_at) {
                Some(next) => Ok(
                    (
                        actions.update(j, next),
                        action_event_capsule(
                            row,
                            audit,
                            AuditEventCode::ActionStarted,
                            CommandView::StartAction {
                                action_id: row.action_id@,
                                expected_version: row.expected_version as u64,
                            },
                            next,
                        ),
                    ),
                ),
                None => Err(ActionPersistenceLoadError::InvalidActionSnapshot),
            },
            None => Err(ActionPersistenceLoadError::InvalidActionSnapshot),
        }
    } else {
        Err(ActionPersistenceLoadError::InvalidActionSnapshot)
    }
}

/// What replaying a recorded completion-evidence link gives: the Actions
/// with the linked one replaced, and the capsule; an invalid snapshot
/// where the row, its audit or the Action it names does not allow it.
pub open spec fn link_event_model(
    actions: Seq<ActionView>,
    row: ActionEventRow,
    audit: ActionAuditRows,
) -> Result<(Seq<ActionView>, CapsuleView), ActionPersistenceLoadError> {
    let binding = EvidenceBindingView {
        evidence_id: row.evidence_id@,
        classification: row.evidence_classification@,
    };
    if row.ordinal >= 0 && row.expected_version >= 1 && action_audit_ok(
        audit,
        row,
        AuditEventCode::ActionCompletionEvidenceLinked,
    ) {
        match action_index(actions, row.action_id@) {
            Some(j) => match evidence_linked_action(actions[j], row.expected_version, binding) {
                Some(next) => Ok(
                    (
                        actions.update(j, next),
                        action_event_capsule(
                            row,
                            audit,
                            AuditEventCode::ActionCompletionEvidenceLinked,
                            CommandView::LinkCompletionEvidence {
                                action_id: row.action_id@,
                                expected_version: row.expected_version as u64,
                                evidence_id: row.evidence_id@,
                                evidence_classification: row.evidence_classification@,
                            },
                            next,
                        ),
                    ),
                ),
                None => Err(ActionPersistenceLoadError::InvalidActionSnapshot),
            },
            None => Err(ActionPersistenceLoadError::InvalidActionSnapshot),
        }
    } else {
        Err(ActionPersistenceLoadError::InvalidActionSnapshot)
    }
}

fn check_action_audit(audit: &ActionAuditRows, row: &ActionEventRow, code: AuditEventCode) -> (ok: bool)
    ensures
        ok == action_audit_ok(*audit, *row, code),
{
    str_eq(audit.correlation_id.as_str(), row.correlation_id.as_str()) && audit.effects.len() == 1
        && audit.effects[0].ordinal == 0 && str_eq(audit.effects[0].effect_code.as_str(), code.as_str())
        && str_eq(audit.effects[0].scope.as_str(), "complete") && str_eq(
        audit.effects[0].target_type.as_str(),
        "action",
    ) && str_eq(audit.effects[0].target_id.as_str(), row.action_id.as_str())
}

fn event_outcome(
    row: &ActionEventRow,
    audit: &ActionAuditRows,
    code: AuditEventCode,
    next: ActionRecord,
) -> (outcome: ActionMutationOutcome<ActionRecord>)
    ensures
        outcome@ == (OutcomeView {
            record: next@,
            audit_events: seq![
                AuditEventView {
                    id: audit.id@,
                    occurred_at: audit.occurred_at,
                    code,
                    target: AuditTargetView::Action(row.action_id@),
                    correlation_id: row.correlation_id@,
                },
            ],
            approval_receipt_id: None,
        }),
{
    let event = AuditEvent {
        id: audit.id.clone(),
        occurred_at: audit.occurred_at,
        code,
        target: AuditTarget::Action(row.action_id.clone()),
        correlation_id: row.correlation_id.clone(),
    };
    let events = vec![event];
    proof {
        assert(crate::model::audit_views(events@) =~= seq![
            AuditEventView {
                id: audit.id@,
                occurred_at: audit.occurred_at,
                code,
                target: AuditTargetView::Action(row.action_id@),
                correlation_id: row.correlation_id@,
            },
        ]);
    }
    ActionMutationOutcome { record: next, audit_events: events, approval_receipt_id: None }
}

pub open spec fn event_result_view(result: Result<ActionReplayCapsule, ActionPersistenceLoadError>) -> Result<
    CapsuleView,
    ActionPersistenceLoadError,
> {
    match result {
        Ok(capsule) => Ok(capsule@),
        Err(error) => Err(error),
    }
}

/// Replays one recorded start onto the decoded Actions.
pub fn replay_start_action_event(
    actions: &mut Vec<ActionRecord>,
    row: ActionEventRow,
    audit: ActionAuditRows,
) -> (result: Result<ActionReplayCapsule, ActionPersistenceLoadError>)
    requires
        action_ids_distinct(action_views(old(actions)@)),
    ensures
        action_ids_distinct(action_views(final(actions)@)),
        match start_event_model(action_views(old(actions)@), row, audit) {
            Ok((next_actions, capsule)) => event_result_view(result) == Ok::<
                CapsuleView,
                ActionPersistenceLoadError,
            >(capsule) && action_views(final(actions)@) == next_actions,
            Err(error) => event_result_view(result) == Err::<CapsuleView, ActionPersistenceLoadError>(
                error,
            ) && final(actions)@ == old(actions)@,
        },
{
    let ghost before = action_views(actions@);
    if !(row.ordinal >= 0 && row.expected_version >= 1 && check_action_audit(
        &audit,
        &row,
        AuditEventCode::ActionStarted,
    )) {
        return Err(ActionPersistenceLoadError::InvalidActionSnapshot);
    }
    let j = match find_action(actions, &row.action_id) {
        Some(j) => j,
        None => {
            return Err(ActionPersistenceLoadError::InvalidActionSnapshot);
        },
    };
    let previous = &actions[j];
    if !(previous.state == ActionState::Open && (previous.version as i128) == (
    row.expected_version as i128) && previous.version < u64::MAX) {
        return Err(ActionPersistenceLoadError::InvalidActionSnapshot);
    }
    let next = start_record(previous, audit.occurred_at);
    let ghost next_view = next@;
    let outcome = event_outcome(&row, &audit, AuditEventCode::ActionStarted, next.clone());
    actions.set(j, next);
    proof {
        assert(action_views(actions@) =~= before.update(j as int, next_view));
        assert forall|a: int, b: int|
            0 <= a < actions@.len() && 0 <= b < actions@.len() && a != b implies #[trigger] action_views(
            actions@,
        )[a].id != #[trigger] action_views(actions@)[b].id by {
            assert(action_views(actions@)[a].id == before[a].id);
            assert(action_views(actions@)[b].id == before[b].id);
        }
    }
    Ok(
        ActionReplayCapsule {
            idempotency_id: row.idempotency_id,
            correlation_id: row.correlation_id,
            operation_ordinal: row.ordinal as u64,
            command: ActionPersistenceCommand::StartAction {
                action_id: row.action_id,
                expected_version: row.expected_version as u64,
            },
            result: ActionPersistenceResult::Action(outcome),
        },
    )
}

/// Replays one recorded completion-evidence link onto the decoded Actions.
pub fn replay_link_evidence_event(
    actions: &mut Vec<ActionRecord>,
    row: ActionEventRow,
    audit: ActionAuditRows,
) -> (result: Result<ActionReplayCapsule, ActionPersistenceLoadError>)
    requires
        action_ids_distinct(action_views(old(actions)@)),
    ensures
        action_ids_distinct(action_views(final(actions)@)),
        match link_event_model(action_views(old(actions)@), row, audit) {
            Ok((next_actions, capsule)) => event_result_view(result) == Ok::<
                CapsuleView,
                ActionPersistenceLoadError,
            >(capsule) && action_views(final(actions)@) == next_actions,
            Err(error) => event_result_view(result) == Err::<CapsuleView, ActionPersistenceLoadError>(
                error,
            ) && final(actions)@ == old(actions)@,
        },
{
    let ghost before = action_views(actions@);
    if !(row.ordinal >= 0 && row.expected_version >= 1 && check_action_audit(
        &audit,
        &row,
        AuditEventCode::ActionCompletionEvidenceLinked,
    )) {
        return Err(ActionPersistenceLoadError::InvalidActionSnapshot);
    }
    let j = match find_action(actions, &row.action_id) {
        Some(j) => j,
        None => {
            return Err(ActionPersistenceLoadError::InvalidActionSnapshot);
        },
    };
    let previous = &actions[j];
    if !(previous.state == ActionState::InProgress && (previous.version as i128) == (
    row.expected_version as i128) && previous.version < u64::MAX) || evidence_already_linked(
        &previous.completion_evidence,
        &row.evidence_id,
    ) {
        return Err(ActionPersistenceLoadError::InvalidActionSnapshot);
    }
    let mut next = previous.clone();
    next.version = previous.version + 1;
    next.completion_evidence.push(
        EvidenceBinding {
            evidence_id: row.evidence_id.clone(),
            classification: row.evidence_classification.clone(),
        },
    );
    let ghost next_view = next@;
    proof {
        assert(next_view.completion_evidence =~= previous@.completion_evidence.push(
            EvidenceBindingView {
                evidence_id: row.evidence_id@,
                classification: row.evidence_classification@,
            },
        ));
    }
    let outcome = event_outcome(
        &row,
        &audit,
        AuditEventCode::ActionCompletionEvidenceLinked,
        next.clone(),
    );
    actions.set(j, next);
    proof {
        assert(action_views(actions@) =~= before.update(j as int, next_view));
        assert forall|a: int, b: int|
            0 <= a < actions@.len() && 0 <= b < actions@.len() && a != b implies #[trigger] action_views(
            actions@,
        )[a].id != #[trigger] action_views(actions@)[b].id by {
            assert(action_views(actions@)[a].id == before[a].id);
            assert(action_views(actions@)[b].id == before[b].id);
        }
    }
    Ok(
        ActionReplayCapsule {
            idempotency_id: row.idempotency_id,
            correlation_id: row.correlation_id,
            operation_ordinal: row.ordinal as u64,
            command: ActionPersistenceCommand::LinkCompletionEvidence {
                action_id: row.action_id,
                expected_version: row.expected_version as u64,
                evidence_id: row.evidence_id,
                evidence_classification: row.evidence_classification,
            },
            result: ActionPersistenceResult::Action(outcome),
        },
    )
}

// ---------------------------------------------------------------------------
// Approved changes
// ---------------------------------------------------------------------------

/// Every row the store keeps for one approved completion, cancellation or
/// reopening that executed: its key, correlation and ordinal, the actor and
/// the digest the approval acknowledged, the receipt, when the preview was
/// consumed, and its one audit event.
#[derive(Debug)]
pub struct ExecutedChangeRows {
    pub idempotency_id: String,
    pub correlation_id: String,
    pub ordinal: i64,
    pub actor: String,
    pub acknowledged_digest: String,
    pub receipt: ReceiptRow,
    pub prepared_consumed_at: Option<i64>,
    pub audit: ActionAuditRows,
}

/// The Action, version and (for a reopening) mode an approved change of a
/// preview acts on.
pub open spec fn change_target(operation: PreparedOperationView) -> (Seq<char>, u64, Option<ActionReopenMode>) {
    match operation {
        PreparedOperationView::CompleteAction { action_id, action_version } => (
            action_id,
            action_version,
            None,
        ),
        PreparedOperationView::CancelAction { action_id, action_version, .. } => (
            action_id,
            action_version,
            None,
        ),
        PreparedOperationView::ReopenAction { action_id, action_version, mode, .. } => (
            action_id,
            action_version,
            Some(mode),
        ),
        PreparedOperationView::AcceptActionRequest { action_id, request_version, .. } => (
            action_id,
            request_version,
            None,
        ),
        PreparedOperationView::LowerActionClassification { action_id, action_version, .. } => (
            action_id,
            action_version,
            None,
        ),
    }
}

/// Whether an Action in `state` may undergo the change of `kind`: only an
/// Action in progress is completed; an open or in-progress one is
/// cancelled; a completed one is reopened to complete again and a
/// cancelled one restarted.
pub open spec fn change_allowed(
    kind: PreparedIntentKind,
    state: ActionState,
    mode: Option<ActionReopenMode>,
) -> bool {
    if kind == PreparedIntentKind::CompleteAction {
        state == ActionState::InProgress
    } else if kind == PreparedIntentKind::CancelAction {
        state == ActionState::Open || state == ActionState::InProgress
    } else {
        ||| state == ActionState::Completed && mode == Some(ActionReopenMode::ReopenCompleted)
        ||| state == ActionState::Cancelled && mode == Some(ActionReopenMode::RestartCancelled)
    }
}

/// The state an Action is in after the change of `kind`.
pub open spec fn changed_state(kind: PreparedIntentKind) -> ActionState {
    if kind == PreparedIntentKind::CompleteAction {
        ActionState::Completed
    } else if kind == PreparedIntentKind::CancelAction {
        ActionState::Cancelled
    } else {
        ActionState::InProgress
    }
}

/// The audit code of the change of `kind`.
pub open spec fn change_code(kind: PreparedIntentKind) -> AuditEventCode {
    if kind == PreparedIntentKind::CompleteAction {
        AuditEventCode::ActionCompleted
    } else if kind == PreparedIntentKind::CancelAction {
        AuditEventCode::ActionCancelled
    } else {
        AuditEventCode::ActionReopened
    }
}

/// Whether the receipt rows are those of an approval of `prepared` under
/// `key` acknowledging `digest`: the Head of Products', approved not before
/// the epoch, expiring with the preview and consumed, like the preview,
/// when approved.
pub open spec fn receipt_ok(rows: ExecutedChangeRows, prepared: PreparedIntentView) -> bool {
    let receipt = rows.receipt;
    &&& receipt.actor@ == "head_of_products"@
    &&& receipt.acknowledged_payload_digest@ == rows.acknowledged_digest@
    &&& receipt.idempotency_id@ == rows.idempotency_id@
    &&& receipt.approved_at >= 0
    &&& receipt.expires_at == prepared.expires_at
    &&& receipt.consumed_at == Some(receipt.approved_at)
    &&& rows.prepared_consumed_at == Some(receipt.approved_at)
}

/// Whether the rows of an executed change are those its approval of
/// `prepared` writes: the preview is of `kind`, the Head of Products
/// approved it and acknowledged its own digest, the receipt is the approval's, and the one
/// audit event is the change's, complete on the Action the preview names.
pub open spec fn executed_change_rows_ok(
    kind: PreparedIntentKind,
    prepared: PreparedIntentView,
    rows: ExecutedChangeRows,
) -> bool {
    let action_id = change_target(prepared.operation).0;
    &&& prepared.operation.kind() == kind
    &&& rows.ordinal >= 0
    &&& rows.actor@ == "head_of_products"@
    &&& rows.acknowledged_digest@ == prepared.payload_digest
    &&& receipt_ok(rows, prepared)
    &&& rows.audit.correlation_id@ == rows.correlation_id@
    &&& rows.audit.effects@.len() == 1
    &&& rows.audit.effects@[0].ordinal == 0
    &&& rows.audit.effects@[0].effect_code@ == change_code(kind).spec_text()
    &&& rows.audit.effects@[0].scope@ == "complete"@
    &&& rows.audit.effects@[0].target_type@ == "action"@
    &&& rows.audit.effects@[0].target_id@ == action_id
}

/// The capsule recording an executed change of `kind` of `prepared` that
/// left the Action as `next`.
pub open spec fn executed_change_capsule(
    kind: PreparedIntentKind,
    prepared: PreparedIntentView,
    rows: ExecutedChangeRows,
    next: ActionView,
) -> CapsuleView {
    CapsuleView {
        idempotency_id: rows.idempotency_id@,
        correlation_id: rows.correlation_id@,
        operation_ordinal: rows.ordinal as u64,
        command: CommandView::ExecutePrepared {
            kind,
            prepared_id: prepared.id,
            actor: "head_of_products"@,
            acknowledged_digest: rows.acknowledged_digest@,
        },
        result: ResultView::Action(
            OutcomeView {
                record: next,
                audit_events: seq![
                    AuditEventView {
                        id: rows.audit.id@,
                        occurred_at: rows.audit.occurred_at,
                        code: change_code(kind),
                        target: AuditTargetView::Action(change_target(prepared.operation).0),
                        correlation_id: rows.correlation_id@,
                    },
                ],
                approval_receipt_id: Some(rows.receipt.id@),
            },
        ),
    }
}

/// The reason an approved change of a preview records: that of a
/// cancellation or reopening; none for a completion.
pub open spec fn change_reason(operation: PreparedOperationView) -> Option<Seq<char>> {
    match operation {
        PreparedOperationView::CancelAction { reason, .. } => Some(reason),
        PreparedOperationView::ReopenAction { reason, .. } => Some(reason),
        _ => None,
    }
}

/// The Action `previous` after the approved change of `kind` through
/// `prepared` that `rows` record: in its new state at the next version
/// under `classification`, with the change's reason as transition reason;
/// a completion is supported by the preview, any other change leaves the
/// Action unsupported; the change, with the approval's receipt, is added
/// to its history at the time of its audit event.
pub open spec fn changed_action(
    kind: PreparedIntentKind,
    previous: ActionView,
    prepared: PreparedIntentView,
    rows: ExecutedChangeRows,
    classification: Seq<char>,
) -> ActionView {
    let reason = change_reason(prepared.operation);
    let supported_by = if kind == PreparedIntentKind::CompleteAction {
        Some(prepared.id)
    } else {
        None
    };
    ActionView {
        state: changed_state(kind),
        version: (previous.version + 1) as u64,
        classification,
        transition_reason: reason,
        supported_by,
        transition_history: previous.transition_history.push(
            ActionTransitionView {
                from: previous.state,
                to: changed_state(kind),
                reason,
                occurred_at: rows.audit.occurred_at,
                supported_by,
                approval_receipt_id: Some(rows.receipt.id@),
            },
        ),
        ..previous
    }
}

/// What replaying an approved change of `kind` gives: the Actions with the
/// changed one (under the classification the domain recomputed) and the
/// capsule recording the approval; an invalid snapshot where the preview is of another kind, the
/// Action it names does not allow the change, or the receipt or audit rows
/// are not the approval's.
pub open spec fn executed_change_model(
    kind: PreparedIntentKind,
    actions: Seq<ActionView>,
    prepared: PreparedIntentView,
    rows: ExecutedChangeRows,
    classification: Seq<char>,
) -> Result<(Seq<ActionView>, CapsuleView), ActionPersistenceLoadError> {
    let (action_id, version, mode) = change_target(prepared.operation);
    if executed_change_rows_ok(kind, prepared, rows) {
        match action_index(actions, action_id) {
            Some(j) => {
                let previous = actions[j];
                if previous.version == version && change_allowed(kind, previous.state, mode)
                    && previous.version < u64::MAX {
                    let next = changed_action(kind, previous, prepared, rows, classification);
                    Ok((actions.update(j, next), executed_change_capsule(kind, prepared, rows, next)))
                } else {
                    Err(ActionPersistenceLoadError::InvalidActionSnapshot)
                }
            },
            None => Err(ActionPersistenceLoadError::InvalidActionSnapshot),
        }
    } else {
        Err(ActionPersistenceLoadError::InvalidActionSnapshot)
    }
}

fn change_target_of(operation: &PreparedOperation) -> (target: (
    &String,
    u64,
    Option<ActionReopenMode>,
    PreparedIntentKind,
))
    ensures
        target.0@ == change_target(operation@).0,
        target.1 == change_target(operation@).1,
        target.2 == change_target(operation@).2,
        target.3 == operation@.kind(),
{
    match operation {
        PreparedOperation::CompleteAction { action_id, action_version } => (
            action_id,
            *action_version,
            None,
            PreparedIntentKind::CompleteAction,
        ),
        PreparedOperation::CancelAction { action_id, action_version, .. } => (
            action_id,
            *action_version,
            None,
            PreparedIntentKind::CancelAction,
        ),
        PreparedOperation::ReopenAction { action_id, action_version, mode, .. } => (
            action_id,
            *action_version,
            Some(*mode),
            PreparedIntentKind::ReopenAction,
        ),
        PreparedOperation::AcceptActionRequest { action_id, request_version, .. } => (
            action_id,
            *request_version,
            None,
            PreparedIntentKind::AcceptActionRequest,
        ),
        PreparedOperation::LowerActionClassification { action_id, action_version, .. } => (
            action_id,
            *action_version,
            None,
            PreparedIntentKind::LowerActionClassification,
        ),
    }
}

fn change_reason_of(operation: &PreparedOperation) -> (reason: Option<String>)
    ensures
        opt_string(reason) == change_reason(operation@),
{
    match operation {
        PreparedOperation::CancelAction { reason, .. } => Some(reason.clone()),
        PreparedOperation::ReopenAction { reason, .. } => Some(reason.clone()),
        _ => None,
    }
}

fn check_change_allowed(
    kind: PreparedIntentKind,
    state: ActionState,
    mode: Option<ActionReopenMode>,
) -> (allowed: bool)
    ensures
        allowed == change_allowed(kind, state, mode),
{
    match kind {
        PreparedIntentKind::CompleteAction => state == ActionState::InProgress,
        PreparedIntentKind::CancelAction => state == ActionState::Open || state
            == ActionState::InProgress,
        _ => match (state, mode) {
            (ActionState::Completed, Some(ActionReopenMode::ReopenCompleted)) => true,
            (ActionState::Cancelled, Some(ActionReopenMode::RestartCancelled)) => true,
            _ => false,
        },
    }
}

fn changed_state_of(kind: PreparedIntentKind) -> (state: ActionState)
    ensures
        state == changed_state(kind),
{
    match kind {
        PreparedIntentKind::CompleteAction => ActionState::Completed,
        PreparedIntentKind::CancelAction => ActionState::Cancelled,
        _ => ActionState::InProgress,
    }
}

fn change_code_of(kind: PreparedIntentKind) -> (code: AuditEventCode)
    ensures
        code == change_code(kind),
{
    match kind {
        PreparedIntentKind::CompleteAction => AuditEventCode::ActionCompleted,
        PreparedIntentKind::CancelAction => AuditEventCode::ActionCancelled,
        _ => AuditEventCode::ActionReopened,
    }
}

fn check_executed_change_rows(
    kind: PreparedIntentKind,
    prepared: &PreparedIntent,
    rows: &ExecutedChangeRows,
) -> (ok: bool)
    ensures
        ok == executed_change_rows_ok(kind, prepared@, *rows),
{
    let (action_id, _, _, prepared_kind) = change_target_of(&prepared.operation);
    let receipt = &rows.receipt;
    let audit = &rows.audit;
    if !(prepared_kind == kind && rows.ordinal >= 0 && str_eq(rows.actor.as_str(), "head_of_products")
        && str_eq(
        rows.acknowledged_digest.as_str(),
        prepared.payload_digest.as_str(),
    ) && str_eq(receipt.actor.as_str(), "head_of_products") && str_eq(
        receipt.acknowledged_payload_digest.as_str(),
        rows.acknowledged_digest.as_str(),
    ) && str_eq(receipt.idempotency_id.as_str(), rows.idempotency_id.as_str())
        && receipt.approved_at >= 0 && receipt.expires_at == prepared.expires_at
        && receipt.consumed_at == Some(receipt.approved_at) && rows.prepared_consumed_at == Some(
        receipt.approved_at,
    ) && str_eq(audit.correlation_id.as_str(), rows.correlation_id.as_str())
        && audit.effects.len() == 1) {
        return false;
    }
    let effect = &audit.effects[0];
    effect.ordinal == 0 && str_eq(effect.effect_code.as_str(), change_code_of(kind).as_str())
        && str_eq(effect.scope.as_str(), "complete") && str_eq(effect.target_type.as_str(), "action")
        && str_eq(effect.target_id.as_str(), action_id.as_str())
}

/// Replays one executed approval of a completion, cancellation or
/// reopening onto the decoded Actions. `classification` is the Action's
/// classification after the change, as the domain recomputes it from the
/// accepted preview and the change's support.
pub fn replay_executed_change(
    kind: PreparedIntentKind,
    actions: &mut Vec<ActionRecord>,
    prepared: &PreparedIntent,
    rows: ExecutedChangeRows,
    classification: String,
) -> (result: Result<ActionReplayCapsule, ActionPersistenceLoadError>)
    requires
        action_ids_distinct(action_views(old(actions)@)),
    ensures
        action_ids_distinct(action_views(final(actions)@)),
        match executed_change_model(
            kind,
            action_views(old(actions)@),
            prepared@,
            rows,
            classification@,
        ) {
            Ok((next_actions, capsule)) => event_result_view(result) == Ok::<
                CapsuleView,
                ActionPersistenceLoadError,
            >(capsule) && action_views(final(actions)@) == next_actions,
            Err(error) => event_result_view(result) == Err::<CapsuleView, ActionPersistenceLoadError>(
                error,
            ) && final(actions)@ == old(actions)@,
        },
{
    let ghost before = action_views(actions@);
    if !check_executed_change_rows(kind, prepared, &rows) {
        return Err(ActionPersistenceLoadError::InvalidActionSnapshot);
    }
    let (action_id, version, mode, _) = change_target_of(&prepared.operation);
    let j = match find_action(actions, action_id) {
        Some(j) => j,
        None => {
            return Err(ActionPersistenceLoadError::InvalidActionSnapshot);
        },
    };
    let previous = &actions[j];
    if !(previous.version == version && check_change_allowed(kind, previous.state, mode)
        && previous.version < u64::MAX) {
        return Err(ActionPersistenceLoadError::InvalidActionSnapshot);
    }
    let reason = change_reason_of(&prepared.operation);
    let supported_by = match kind {
        PreparedIntentKind::CompleteAction => Some(prepared.id.clone()),
        _ => None,
    };
    let state = changed_state_of(kind);
    let mut next = previous.clone();
    let from = next.state;
    next.state = state;
    next.version = previous.version + 1;
    next.classification = classification;
    next.transition_reason = clone_opt_string(&reason);
    next.supported_by = clone_opt_string(&supported_by);
    next.transition_history.push(
        ActionTransition {
            from,
            to: state,
            reason,
            occurred_at: rows.audit.occurred_at,
            supported_by,
            approval_receipt_id: Some(rows.receipt.id.clone()),
        },
    );
    let ghost next_view = next@;
    proof {
        assert(next_view.transition_history =~= changed_action(
            kind,
            previous@,
            prepared@,
            rows,
            classification@,
        ).transition_history);
        assert(next_view == changed_action(kind, previous@, prepared@, rows, classification@));
    }
    let code = change_code_of(kind);
    let event = AuditEvent {
        id: rows.audit.id.clone(),
        occurred_at: rows.audit.occurred_at,
        code,
        target: AuditTarget::Action(action_id.clone()),
        correlation_id: rows.correlation_id.clone(),
    };
    let events = vec![event];
    let outcome = ActionMutationOutcome {
        record: next.clone(),
        audit_events: events,
        approval_receipt_id: Some(rows.receipt.id.clone()),
    };
    let capsule = ActionReplayCapsule {
        idempotency_id: rows.idempotency_id.clone(),
        correlation_id: rows.correlation_id.clone(),
        operation_ordinal: rows.ordinal as u64,
        command: ActionPersistenceCommand::ExecutePrepared {
            kind,
            prepared_id: prepared.id.clone(),
            actor: "head_of_products".to_string(),
            acknowledged_digest: rows.acknowledged_digest.clone(),
        },
        result: ActionPersistenceResult::Action(outcome),
    };
    proof {
        assert(crate::model::audit_views(outcome.audit_events@) =~= seq![
            AuditEventView {
                id: rows.audit.id@,
                occurred_at: rows.audit.occurred_at,
                code: change_code(kind),
                target: AuditTargetView::Action(change_target(prepared@.operation).0),
                correlation_id: rows.correlation_id@,
            },
        ]);
    }
    actions.set(j, next);
    proof {
        assert(action_views(actions@) =~= before.update(j as int, next_view));
        assert forall|a: int, b: int|
            0 <= a < actions@.len() && 0 <= b < actions@.len() && a != b implies #[trigger] action_views(
            actions@,
        )[a].id != #[trigger] action_views(actions@)[b].id by {
            assert(action_views(actions@)[a].id == before[a].id);
            assert(action_views(actions@)[b].id == before[b].id);
        }
    }
    Ok(capsule)
}

// ---------------------------------------------------------------------------
// Writing an Action command and an approved change
// ---------------------------------------------------------------------------

/// The one complete effect of `code` on the Action `action_id`.
fn action_effect(code: AuditEventCode, action_id: &String) -> (rows: Vec<AuditEffectRow>)
    ensures
        rows@.len() == 1,
        rows@[0].ordinal == 0,
        rows@[0].effect_code@ == code.spec_text(),
        rows@[0].scope@ == "complete"@,
        rows@[0].target_type@ == "action"@,
        rows@[0].target_id@ == action_id@,
{
    vec![
        AuditEffectRow {
            ordinal: 0,
            effect_code: code.as_str().to_string(),
            scope: "complete".to_string(),
            target_type: "action".to_string(),
            target_id: action_id.clone(),
        },
    ]
}

/// Builds the rows a start or completion-evidence link writes: the command
/// row under `key` and `correlation` at `ordinal`, and its one audit event
/// `audit_id` at `occurred_at` with its one complete effect of `code` on the
/// Action.  They are the rows its replay checks against the command.
pub fn encode_action_event(
    key: &String,
    correlation: &String,
    ordinal: u64,
    action_id: &String,
    expected_version: u64,
    evidence_id: &String,
    evidence_classification: &String,
    audit_id: &String,
    occurred_at: i64,
    code: AuditEventCode,
) -> (rows: (ActionEventRow, ActionAuditRows))
    requires
        ordinal <= i64::MAX,
        expected_version <= i64::MAX,
    ensures
        rows.0.idempotency_id@ == key@,
        rows.0.correlation_id@ == correlation@,
        rows.0.ordinal == ordinal,
        rows.0.action_id@ == action_id@,
        rows.0.expected_version == expected_version,
        rows.0.evidence_id@ == evidence_id@,
        rows.0.evidence_classification@ == evidence_classification@,
        rows.1.id@ == audit_id@,
        rows.1.occurred_at == occurred_at,
        rows.1.correlation_id@ == correlation@,
        action_audit_ok(rows.1, rows.0, code),
{
    let row = ActionEventRow {
        idempotency_id: key.clone(),
        correlation_id: correlation.clone(),
        ordinal: ordinal as i64,
        action_id: action_id.clone(),
        expected_version: expected_version as i64,
        evidence_id: evidence_id.clone(),
        evidence_classification: evidence_classification.clone(),
    };
    let audit = ActionAuditRows {
        id: audit_id.clone(),
        occurred_at,
        correlation_id: correlation.clone(),
        effects: action_effect(code, action_id),
    };
    (row, audit)
}

/// Builds the rows an approved change of `kind` through `prepared` writes:
/// the command row under `key` and `correlation` at `ordinal`, acknowledging
/// the preview's digest; the Head of Products' receipt `receipt_id`,
/// approved at `approved_at` and consumed then with the preview; and the
/// one audit event `audit_id` at `occurred_at` with its one complete effect
/// on the Action.  They are the rows its replay accepts.
pub fn encode_executed_change(
    kind: PreparedIntentKind,
    prepared: &PreparedIntent,
    key: &String,
    correlation: &String,
    ordinal: u64,
    receipt_id: &String,
    approved_at: i64,
    audit_id: &String,
    occurred_at: i64,
) -> (rows: ExecutedChangeRows)
    requires
        prepared@.operation.kind() == kind,
        ordinal <= i64::MAX,
        approved_at >= 0,
    ensures
        executed_change_rows_ok(kind, prepared@, rows),
        rows.idempotency_id@ == key@,
        rows.correlation_id@ == correlation@,
        rows.ordinal == ordinal,
        rows.receipt.id@ == receipt_id@,
        rows.receipt.approved_at == approved_at,
        rows.audit.id@ == audit_id@,
        rows.audit.occurred_at == occurred_at,
{
    let (action_id, _, _, _) = change_target_of(&prepared.operation);
    let effects = action_effect(change_code_of(kind), action_id);
    ExecutedChangeRows {
        idempotency_id: key.clone(),
        correlation_id: correlation.clone(),
        ordinal: ordinal as i64,
        actor: "head_of_products".to_string(),
        acknowledged_digest: prepared.payload_digest.clone(),
        receipt: ReceiptRow {
            id: receipt_id.clone(),
            actor: "head_of_products".to_string(),
            acknowledged_payload_digest: prepared.payload_digest.clone(),
            idempotency_id: key.clone(),
            approved_at,
            expires_at: prepared.expires_at,
            consumed_at: Some(approved_at),
        },
        prepared_consumed_at: Some(approved_at),
        audit: ActionAuditRows {
            id: audit_id.clone(),
            occurred_at,
            correlation_id: correlation.clone(),
            effects,
        },
    }
}

// ---------------------------------------------------------------------------
// Final rows
// ---------------------------------------------------------------------------

/// The current `actions` row of one Action joined with its registry row,
/// as read after every recorded command was replayed.
#[derive(Debug)]
pub struct FinalActionRow {
    pub state: String,
    pub transition_reason: Option<String>,
    pub version: i64,
    pub classification: String,
    pub support_id: Option<String>,
}

/// Whether the current rows agree with the Actions the replay left, one row
/// per Action in the same order: the persisted state, the transition
/// reason, the version and the classification, and a support id exactly
/// where the Action is supported.
pub open spec fn final_rows_agree(actions: Seq<ActionView>, rows: Seq<FinalActionRow>) -> bool {
    &&& rows.len() == actions.len()
    &&& forall|i: int|
        #![trigger rows[i]]
        0 <= i < rows.len() ==> {
            &&& rows[i].state@ == actions[i].state.persisted()
            &&& opt_string(rows[i].transition_reason) == actions[i].transition_reason
            &&& rows[i].version == actions[i].version
            &&& rows[i].classification@ == actions[i].classification
            &&& (rows[i].support_id is Some) == (actions[i].supported_by is Some)
        }
}

/// Checks the current Action rows against the Actions the replay left; a
/// disagreement is an invalid snapshot.
pub fn verify_final_action_rows(actions: &Vec<ActionRecord>, rows: &Vec<FinalActionRow>) -> (result:
    Result<(), ActionPersistenceLoadError>)
    ensures
        result is Ok <==> final_rows_agree(action_views(actions@), rows@),
        result matches Err(error) ==> error == ActionPersistenceLoadError::InvalidActionSnapshot,
{
    if rows.len() != actions.len() {
        return Err(ActionPersistenceLoadError::InvalidActionSnapshot);
    }
    let n = rows.len();
    let mut i: usize = 0;
    while i < n
        invariant
            n == rows@.len(),
            n == actions@.len(),
            i <= n,
            forall|k: int|
                #![trigger rows@[k]]
                0 <= k < i ==> {
                    &&& rows@[k].state@ == action_views(actions@)[k].state.persisted()
                    &&& opt_string(rows@[k].transition_reason) == action_views(
                        actions@,
                    )[k].transition_reason
                    &&& rows@[k].version == action_views(actions@)[k].version
                    &&& rows@[k].classification@ == action_views(actions@)[k].classification
                    &&& (rows@[k].support_id is Some) == (action_views(actions@)[k].supported_by is Some)
                },
        decreases n - i,
    {
        let row = &rows[i];
        let action = &actions[i];
        if !(str_eq(row.state.as_str(), action.state.as_persisted()) && opt_string_eq(
            &row.transition_reason,
            &action.transition_reason,
        ) && (row.version as i128) == (action.version as i128) && str_eq(
            row.classification.as_str(),
            action.classification.as_str(),
        ) && row.support_id.is_some() == action.supported_by.is_some()) {
            return Err(ActionPersistenceLoadError::InvalidActionSnapshot);
        }
        assert(action_views(actions@)[i as int] == actions@[i as int]@);
        i = i + 1;
    }
    Ok(())
}

/// Whether `next` keeps the fields of `previous` that no transition
/// changes: its id, source request, title, details, owner, due date,
/// provenance and linked evidence.
pub open spec fn keeps_identity(next: ActionView, previous: ActionView) -> bool {
    &&& next.id == previous.id
    &&& next.source_request_id == previous.source_request_id
    &&& next.title == previous.title
    &&& next.details == previous.details
    &&& next.owner_id == previous.owner_id
    &&& next.due_at == previous.due_at
    &&& next.source_decision_id == previous.source_decision_id
    &&& next.superseded_premise == previous.superseded_premise
    &&& next.completion_evidence == previous.completion_evidence
}

/// Starting an Action puts it in progress at the next version, without a
/// reason, under the same classification and support, and records the
/// move from its state into progress at `occurred_at` as the last of its
/// history; its other fields stay.
pub proof fn lemma_start_moves_into_progress(previous: ActionView, occurred_at: i64)
    ensures
        started(previous, occurred_at).state == ActionState::InProgress,
        started(previous, occurred_at).version == previous.version + 1 || previous.version
            == u64::MAX,
        started(previous, occurred_at).transition_reason is None,
        started(previous, occurred_at).classification == previous.classification,
        started(previous, occurred_at).supported_by == previous.supported_by,
        started(previous, occurred_at).transition_history.len() == previous.transition_history.len()
            + 1,
        started(previous, occurred_at).transition_history.drop_last() == previous.transition_history,
        started(previous, occurred_at).transition_history.last().from == previous.state,
        started(previous, occurred_at).transition_history.last().to == ActionState::InProgress,
        started(previous, occurred_at).transition_history.last().occurred_at == occurred_at,
        started(previous, occurred_at).id == previous.id,
        started(previous, occurred_at).title == previous.title,
        started(previous, occurred_at).details == previous.details,
        started(previous, occurred_at).owner_id == previous.owner_id,
        started(previous, occurred_at).due_at == previous.due_at,
        started(previous, occurred_at).completion_evidence == previous.completion_evidence,
{
    assert(started(previous, occurred_at).transition_history.drop_last()
        =~= previous.transition_history);
}

/// Linking completion evidence adds exactly that evidence, with its
/// classification, at the end of the Action's evidence, at the next
/// version; the Action's state, classification and other fields stay.
pub proof fn lemma_link_adds_the_evidence(
    previous: ActionView,
    expected_version: i64,
    binding: EvidenceBindingView,
)
    requires
        evidence_linked_action(previous, expected_version, binding) is Some,
    ensures
        ({
            let next = evidence_linked_action(previous, expected_version, binding)->Some_0;
            &&& previous.state == ActionState::InProgress
            &&& previous.version == expected_version
            &&& next.version == previous.version + 1
            &&& next.completion_evidence.len() == previous.completion_evidence.len() + 1
            &&& next.completion_evidence.last().evidence_id == binding.evidence_id
            &&& next.completion_evidence.last().classification == binding.classification
            &&& next.completion_evidence.drop_last() == previous.completion_evidence
            &&& next.state == previous.state
            &&& next.classification == previous.classification
            &&& next.id == previous.id
            &&& next.title == previous.title
            &&& next.details == previous.details
            &&& next.owner_id == previous.owner_id
            &&& next.due_at == previous.due_at
            &&& next.transition_history == previous.transition_history
        }),
{
    let next = evidence_linked_action(previous, expected_version, binding)->Some_0;
    assert(next.completion_evidence.drop_last() =~= previous.completion_evidence);
}

/// An approved change puts the Action in the state its kind leads to
/// (completed, cancelled, or back in progress) at the next version, under
/// the given classification, with the cancellation's or reopening's reason
/// (a completion has none), supported by the preview exactly when it is a
/// completion; the change is the last of its history, at the time of its
/// audit event, with the approval's receipt; its other fields stay.
pub proof fn lemma_change_moves_the_action(
    kind: PreparedIntentKind,
    previous: ActionView,
    prepared: PreparedIntentView,
    rows: ExecutedChangeRows,
    classification: Seq<char>,
)
    ensures
        ({
            let next = changed_action(kind, previous, prepared, rows, classification);
            &&& kind == PreparedIntentKind::CompleteAction ==> next.state == ActionState::Completed
            &&& kind == PreparedIntentKind::CancelAction ==> next.state == ActionState::Cancelled
            &&& kind == PreparedIntentKind::ReopenAction ==> next.state == ActionState::InProgress
            &&& next.version == previous.version + 1 || previous.version == u64::MAX
            &&& next.classification == classification
            &&& (prepared.operation matches PreparedOperationView::CancelAction { reason, .. }
                ==> next.transition_reason == Some(reason))
            &&& (prepared.operation matches PreparedOperationView::ReopenAction { reason, .. }
                ==> next.transition_reason == Some(reason))
            &&& (prepared.operation is CompleteAction ==> next.transition_reason is None)
            &&& (kind == PreparedIntentKind::CompleteAction ==> next.supported_by == Some(prepared.id))
            &&& (kind != PreparedIntentKind::CompleteAction ==> next.supported_by is None)
            &&& next.transition_history.len() == previous.transition_history.len() + 1
            &&& next.transition_history.drop_last() == previous.transition_history
            &&& next.transition_history.last().from == previous.state
            &&& next.transition_history.last().to == next.state
            &&& next.transition_history.last().occurred_at == rows.audit.occurred_at
            &&& next.transition_history.last().approval_receipt_id == Some(rows.receipt.id@)
            &&& keeps_identity(next, previous)
        }),
{
    let next = changed_action(kind, previous, prepared, rows, classification);
    assert(next.transition_history.drop_last() =~= previous.transition_history);
}

} // verus!
