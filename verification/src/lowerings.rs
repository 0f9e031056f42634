//! Replaying recorded classification lowerings while the namespace is
//! decoded: a prepared lowering adds its preview to the pending ones, and
//! an executed one lowers the Action, consumes the preview and records the
//! approval.

use vstd::prelude::*;
use crate::action_events::{event_result_view, ActionAuditRows};
use crate::approvals::{find_prepared, lemma_push_prepared, prepared_index, remove_prepared, without_prepared};
use crate::ledger::{action_ids_distinct, action_index, find_action, prepared_ids_distinct};
use crate::load_error::ActionPersistenceLoadError;
use crate::model::{
    ActionMutationOutcome, ActionPersistenceCommand, ActionPersistenceResult, ActionRecord,
    ActionReplayCapsule, ActionView, AuditEvent, AuditEventCode, AuditEventView, AuditTarget,
    AuditTargetView, CapsuleView, CommandView, OutcomeView, PreparedIntent, PreparedIntentKind,
    PreparedIntentView, PreparedOperation, PreparedOperationView, ResultView, action_views,
    prepared_views, same_prepared_operation,
};
use crate::prepared_rows::PreparedIntentRow;
use crate::text::str_eq;

verus! {

/// Every row the store keeps for one prepared lowering: the command's key,
/// correlation and ordinal, the Action, version, proposed classification
/// and rationale it named, the preview it produced, and that preview's
/// `prepared_intents` row.
#[derive(Debug)]
pub struct PreparedLoweringRows {
    pub idempotency_id: String,
    pub correlation_id: String,
    pub ordinal: i64,
    pub action_id: String,
    pub expected_version: i64,
    pub proposed_classification: String,
    pub rationale: String,
    pub result_reference: String,
    pub intent: PreparedIntentRow,
}

/// Whether a `prepared_intents` row is that of a lowering: the current
/// contract, an allowed policy, not cancellable after submission, the Head
/// of Products' authority, no support, and expiring no earlier than it was
/// created.
pub open spec fn lowering_intent_row_ok(row: PreparedIntentRow) -> bool {
    &&& row.contract_version == 1
    &&& row.intent_kind@ == "lower_action_classification"@
    &&& row.policy@ == "allowed"@
    &&& row.cancellation_policy@ == "not_cancellable_after_submit"@
    &&& row.authority@ == "head_of_products"@
    &&& row.expires_at >= row.created_at
    &&& row.support_id is None
}

/// The operation a prepared lowering of an Action whose classification is
/// `current` stands for.
pub open spec fn lowering_operation(rows: PreparedLoweringRows, current: Seq<char>) -> PreparedOperationView {
    PreparedOperationView::LowerActionClassification {
        action_id: rows.action_id@,
        action_version: rows.expected_version as u64,
        current_classification: current,
        proposed_classification: rows.proposed_classification@,
        rationale: rows.rationale@,
    }
}

/// What replaying a prepared lowering gives: the pending previews with the
/// rebuilt one added, and the capsule recording the preparation; an
/// invalid snapshot where the command or its preview row is malformed, the
/// Action is unknown or at another version, the domain rebuilt no preview
/// or another one, or that preview is already pending.
pub open spec fn prepared_lowering_model(
    actions: Seq<ActionView>,
    pending: Seq<PreparedIntentView>,
    rows: PreparedLoweringRows,
    rebuilt: Option<PreparedIntentView>,
) -> Result<(Seq<PreparedIntentView>, CapsuleView), ActionPersistenceLoadError> {
    if rows.ordinal >= 0 && rows.expected_version >= 1 && lowering_intent_row_ok(rows.intent) {
        match (action_index(actions, rows.action_id@), rebuilt) {
            (Some(j), Some(intent)) => if actions[j].version == rows.expected_version
                && intent.id == rows.result_reference@ && intent.operation == lowering_operation(
                rows,
                actions[j].classification,
            ) && intent.payload_digest == rows.intent.payload_digest@ && intent.classification
                == rows.intent.classification@ && intent.expires_at == rows.intent.expires_at
                && prepared_index(pending, intent.id) is None {
                Ok(
                    (
                        pending.push(intent),
                        CapsuleView {
                            idempotency_id: rows.idempotency_id@,
                            correlation_id: rows.correlation_id@,
                            operation_ordinal: rows.ordinal as u64,
                            command: CommandView::PrepareLowerClassification {
                                action_id: rows.action_id@,
                                expected_version: rows.expected_version as u64,
                                proposed_classification: rows.proposed_classification@,
                                rationale: rows.rationale@,
                            },
                            result: ResultView::Prepared(intent),
                        },
                    ),
                )
            } else {
                Err(ActionPersistenceLoadError::InvalidActionSnapshot)
            },
            _ => Err(ActionPersistenceLoadError::InvalidActionSnapshot),
        }
    } else {
        Err(ActionPersistenceLoadError::InvalidActionSnapshot)
    }
}

/// The Action and version a lowering preview names, if it is one.
pub open spec fn lowered_action(operation: PreparedOperationView) -> Option<(Seq<char>, u64, Seq<char>)> {
    match operation {
        PreparedOperationView::LowerActionClassification {
            action_id,
            action_version,
            current_classification,
            ..
        } => Some((action_id, action_version, current_classification)),
        _ => None,
    }
}

/// The capsule recording the preparation of the lowering `prepared`.
pub open spec fn lowering_capsule(
    key: Seq<char>,
    correlation: Seq<char>,
    ordinal: u64,
    prepared: PreparedIntentView,
) -> CapsuleView {
    match prepared.operation {
        PreparedOperationView::LowerActionClassification {
            action_id,
            action_version,
            proposed_classification,
            rationale,
            ..
        } => CapsuleView {
            idempotency_id: key,
            correlation_id: correlation,
            operation_ordinal: ordinal,
            command: CommandView::PrepareLowerClassification {
                action_id,
                expected_version: action_version,
                proposed_classification,
                rationale,
            },
            result: ResultView::Prepared(prepared),
        },
        _ => arbitrary(),
    }
}

/// The rows that persist the preparation of the lowering `prepared` under
/// `key` at `ordinal`, its intent created at `created_at`.  Replayed onto
/// Actions where the lowered one is at the version the preview names with
/// the classification it lowers from, and where the preview is not yet
/// pending, they add the preview to the pending ones and record its
/// capsule.
pub fn encode_prepared_lowering(
    prepared: &PreparedIntent,
    key: &String,
    correlation: &String,
    ordinal: u64,
    created_at: i64,
) -> (rows: PreparedLoweringRows)
    requires
        lowered_action(prepared@.operation) is Some,
        1 <= lowered_action(prepared@.operation)->Some_0.1 <= i64::MAX,
        ordinal <= i64::MAX,
        created_at <= prepared.expires_at,
    ensures
        forall|actions: Seq<ActionView>, pending: Seq<PreparedIntentView>|
            #![trigger prepared_lowering_model(actions, pending, rows, Some(prepared@))]
            ({
                let (action_id, version, current) = lowered_action(prepared@.operation)->Some_0;
                &&& action_index(actions, action_id) matches Some(j)
                &&& actions[j].version == version
                &&& actions[j].classification == current
                &&& prepared_index(pending, prepared@.id) is None
            }) ==> prepared_lowering_model(actions, pending, rows, Some(prepared@)) == Ok::<
                (Seq<PreparedIntentView>, CapsuleView),
                ActionPersistenceLoadError,
            >((pending.push(prepared@), lowering_capsule(key@, correlation@, ordinal, prepared@))),
{
    let (action_id, version, proposed, rationale) = match &prepared.operation {
        PreparedOperation::LowerActionClassification {
            action_id,
            action_version,
            proposed_classification,
            rationale,
            ..
        } => (action_id.clone(), *action_version as i64, proposed_classification.clone(), rationale.clone()),
        _ => {
            proof {
                assert(false);
            }
            (String::new(), 0, String::new(), String::new())
        },
    };
    PreparedLoweringRows {
        idempotency_id: key.clone(),
        correlation_id: correlation.clone(),
        ordinal: ordinal as i64,
        action_id,
        expected_version: version,
        proposed_classification: proposed,
        rationale,
        result_reference: prepared.id.clone(),
        intent: PreparedIntentRow {
            contract_version: 1,
            intent_kind: "lower_action_classification".to_string(),
            payload_digest: prepared.payload_digest.clone(),
            classification: prepared.classification.clone(),
            policy: "allowed".to_string(),
            cancellation_policy: "not_cancellable_after_submit".to_string(),
            authority: "head_of_products".to_string(),
            support_id: None,
            confirmation_challenge: None,
            expires_at: prepared.expires_at,
            created_at,
        },
    }
}

fn check_lowering_intent_row(row: &PreparedIntentRow) -> (ok: bool)
    ensures
        ok == lowering_intent_row_ok(*row),
{
    row.contract_version == 1 && str_eq(row.intent_kind.as_str(), "lower_action_classification")
        && str_eq(row.policy.as_str(), "allowed") && str_eq(
        row.cancellation_policy.as_str(),
        "not_cancellable_after_submit",
    ) && str_eq(row.authority.as_str(), "head_of_products") && row.expires_at >= row.created_at
        && row.support_id.is_none()
}

/// Replays one prepared lowering onto the pending previews, given the
/// preview the domain rebuilt from the command and the Action's current
/// classification.
pub fn replay_prepared_lowering(
    actions: &Vec<ActionRecord>,
    pending: &mut Vec<PreparedIntent>,
    rows: PreparedLoweringRows,
    rebuilt: Option<PreparedIntent>,
) -> (result: Result<ActionReplayCapsule, ActionPersistenceLoadError>)
    requires
        action_ids_distinct(action_views(actions@)),
        prepared_ids_distinct(prepared_views(old(pending)@)),
    ensures
        prepared_ids_distinct(prepared_views(final(pending)@)),
        match prepared_lowering_model(
            action_views(actions@),
            prepared_views(old(pending)@),
            rows,
            match rebuilt {
                Some(intent) => Some(intent@),
                None => None,
            },
        ) {
            Ok((next_pending, capsule)) => event_result_view(result) == Ok::<
                CapsuleView,
                ActionPersistenceLoadError,
            >(capsule) && prepared_views(final(pending)@) == next_pending,
            Err(error) => event_result_view(result) == Err::<CapsuleView, ActionPersistenceLoadError>(
                error,
            ) && final(pending)@ == old(pending)@,
        },
{
    let ghost before = prepared_views(pending@);
    if !(rows.ordinal >= 0 && rows.expected_version >= 1 && check_lowering_intent_row(&rows.intent)) {
        return Err(ActionPersistenceLoadError::InvalidActionSnapshot);
    }
    let j = match find_action(actions, &rows.action_id) {
        Some(j) => j,
        None => {
            return Err(ActionPersistenceLoadError::InvalidActionSnapshot);
        },
    };
    let intent = match rebuilt {
        Some(intent) => intent,
        None => {
            return Err(ActionPersistenceLoadError::InvalidActionSnapshot);
        },
    };
    let current = &actions[j];
    if (current.version as i128) != (rows.expected_version as i128) {
        return Err(ActionPersistenceLoadError::InvalidActionSnapshot);
    }
    let expected = PreparedOperation::LowerActionClassification {
        action_id: rows.action_id.clone(),
        action_version: rows.expected_version as u64,
        current_classification: current.classification.clone(),
        proposed_classification: rows.proposed_classification.clone(),
        rationale: rows.rationale.clone(),
    };
    if !(str_eq(intent.id.as_str(), rows.result_reference.as_str()) && same_prepared_operation(
        &intent.operation,
        &expected,
    ) && str_eq(intent.payload_digest.as_str(), rows.intent.payload_digest.as_str()) && str_eq(
        intent.classification.as_str(),
        rows.intent.classification.as_str(),
    ) && intent.expires_at == rows.intent.expires_at) {
        return Err(ActionPersistenceLoadError::InvalidActionSnapshot);
    }
    if find_prepared(pending, &intent.id).is_some() {
        return Err(ActionPersistenceLoadError::InvalidActionSnapshot);
    }
    let ghost intent_view = intent@;
    let capsule = ActionReplayCapsule {
        idempotency_id: rows.idempotency_id,
        correlation_id: rows.correlation_id,
        operation_ordinal: rows.ordinal as u64,
        command: ActionPersistenceCommand::PrepareLowerClassification {
            action_id: rows.action_id,
            expected_version: rows.expected_version as u64,
            proposed_classification: rows.proposed_classification,
            rationale: rows.rationale,
        },
        result: ActionPersistenceResult::Prepared(intent.clone()),
    };
    pending.push(intent);
    proof {
        assert(prepared_views(pending@) =~= before.push(intent_view));
        lemma_push_prepared(before, intent_view);
    }
    Ok(capsule)
}

/// Every row the store keeps for one executed lowering: the command's key,
/// correlation and ordinal, the Action, preview and receipt it names, the
/// actor and acknowledged digest, the classification the preparation
/// proposed, and its one audit event.
#[derive(Debug)]
pub struct ExecutedLoweringRows {
    pub idempotency_id: String,
    pub correlation_id: String,
    pub ordinal: i64,
    pub action_id: String,
    pub prepared_intent_id: String,
    pub approval_receipt_id: String,
    pub actor: String,
    pub acknowledged_digest: String,
    pub proposed_classification: String,
    pub audit: ActionAuditRows,
}

/// Whether the audit rows are the lowering's: under its correlation, with
/// exactly one complete lowering effect on the Action.
pub open spec fn lowering_audit_ok(rows: ExecutedLoweringRows) -> bool {
    let audit = rows.audit;
    &&& audit.correlation_id@ == rows.correlation_id@
    &&& audit.effects@.len() == 1
    &&& audit.effects@[0].ordinal == 0
    &&& audit.effects@[0].effect_code@ == AuditEventCode::ActionClassificationLowered.spec_text()
    &&& audit.effects@[0].scope@ == "complete"@
    &&& audit.effects@[0].target_type@ == "action"@
    &&& audit.effects@[0].target_id@ == rows.action_id@
}

/// What replaying an executed lowering gives: the Actions with the lowered
/// one (at the next version, under the proposed classification), the
/// pending previews without the consumed one, and the capsule recording
/// the approval; an invalid snapshot where the actor is not the Head of
/// Products, the ordinal is negative, the audit rows are not the
/// lowering's, or the Action is unknown or at the last version.
pub open spec fn executed_lowering_model(
    actions: Seq<ActionView>,
    pending: Seq<PreparedIntentView>,
    rows: ExecutedLoweringRows,
) -> Result<(Seq<ActionView>, Seq<PreparedIntentView>, CapsuleView), ActionPersistenceLoadError> {
    if rows.actor@ == "head_of_products"@ && rows.ordinal >= 0 && lowering_audit_ok(rows) {
        match action_index(actions, rows.action_id@) {
            Some(j) => if actions[j].version < u64::MAX {
                let next = ActionView {
                    version: (actions[j].version + 1) as u64,
                    classification: rows.proposed_classification@,
                    ..actions[j]
                };
                Ok(
                    (
                        actions.update(j, next),
                        without_prepared(pending, rows.prepared_intent_id@),
                        CapsuleView {
                            idempotency_id: rows.idempotency_id@,
                            correlation_id: rows.correlation_id@,
                            operation_ordinal: rows.ordinal as u64,
                            command: CommandView::ExecutePrepared {
                                kind: PreparedIntentKind::LowerActionClassification,
                                prepared_id: rows.prepared_intent_id@,
                                actor: "head_of_products"@,
                                acknowledged_digest: rows.acknowledged_digest@,
                            },
                            result: ResultView::Action(
                                OutcomeView {
                                    record: next,
                                    audit_events: seq![
                                        AuditEventView {
                                            id: rows.audit.id@,
                                            occurred_at: rows.audit.occurred_at,
                                            code: AuditEventCode::ActionClassificationLowered,
                                            target: AuditTargetView::Action(rows.action_id@),
                                            correlation_id: rows.correlation_id@,
                                        },
                                    ],
                                    approval_receipt_id: Some(rows.approval_receipt_id@),
                                },
                            ),
                        },
                    ),
                )
            } else {
                Err(ActionPersistenceLoadError::InvalidActionSnapshot)
            },
            None => Err(ActionPersistenceLoadError::InvalidActionSnapshot),
        }
    } else {
        Err(ActionPersistenceLoadError::InvalidActionSnapshot)
    }
}

fn check_lowering_audit(rows: &ExecutedLoweringRows) -> (ok: bool)
    ensures
        ok == lowering_audit_ok(*rows),
{
    let audit = &rows.audit;
    str_eq(audit.correlation_id.as_str(), rows.correlation_id.as_str()) && audit.effects.len() == 1
        && audit.effects[0].ordinal == 0 && str_eq(
        audit.effects[0].effect_code.as_str(),
        AuditEventCode::ActionClassificationLowered.as_str(),
    ) && str_eq(audit.effects[0].scope.as_str(), "complete") && str_eq(
        audit.effects[0].target_type.as_str(),
        "action",
    ) && str_eq(audit.effects[0].target_id.as_str(), rows.action_id.as_str())
}

/// Replays one executed lowering onto the decoded Actions and pending
/// previews.
pub fn replay_executed_lowering(
    actions: &mut Vec<ActionRecord>,
    pending: &mut Vec<PreparedIntent>,
    rows: ExecutedLoweringRows,
) -> (result: Result<ActionReplayCapsule, ActionPersistenceLoadError>)
    requires
        action_ids_distinct(action_views(old(actions)@)),
        prepared_ids_distinct(prepared_views(old(pending)@)),
    ensures
        action_ids_distinct(action_views(final(actions)@)),
        prepared_ids_distinct(prepared_views(final(pending)@)),
        match executed_lowering_model(
            action_views(old(actions)@),
            prepared_views(old(pending)@),
            rows,
        ) {
            Ok((next_actions, next_pending, capsule)) => event_result_view(result) == Ok::<
                CapsuleView,
                ActionPersistenceLoadError,
            >(capsule) && action_views(final(actions)@) == next_actions && prepared_views(
                final(pending)@,
            ) == next_pending,
            Err(error) => event_result_view(result) == Err::<CapsuleView, ActionPersistenceLoadError>(
                error,
            ) && final(actions)@ == old(actions)@ && final(pending)@ == old(pending)@,
        },
{
    let ghost before = action_views(actions@);
    if !(str_eq(rows.actor.as_str(), "head_of_products") && rows.ordinal >= 0 && check_lowering_audit(
        &rows,
    )) {
        return Err(ActionPersistenceLoadError::InvalidActionSnapshot);
    }
    let j = match find_action(actions, &rows.action_id) {
        Some(j) => j,
        None => {
            return Err(ActionPersistenceLoadError::InvalidActionSnapshot);
        },
    };
    let previous = &actions[j];
    if previous.version == u64::MAX {
        return Err(ActionPersistenceLoadError::InvalidActionSnapshot);
    }
    let mut next = previous.clone();
    next.version = previous.version + 1;
    next.classification = rows.proposed_classification.clone();
    let ghost next_view = next@;
    let event = AuditEvent {
        id: rows.audit.id.clone(),
        occurred_at: rows.audit.occurred_at,
        code: AuditEventCode::ActionClassificationLowered,
        target: AuditTarget::Action(rows.action_id.clone()),
        correlation_id: rows.correlation_id.clone(),
    };
    let events = vec![event];
    proof {
        assert(crate::model::audit_views(events@) =~= seq![
            AuditEventView {
                id: rows.audit.id@,
                occurred_at: rows.audit.occurred_at,
                code: AuditEventCode::ActionClassificationLowered,
                target: AuditTargetView::Action(rows.action_id@),
                correlation_id: rows.correlation_id@,
            },
        ]);
    }
    let outcome = ActionMutationOutcome {
        record: next.clone(),
        audit_events: events,
        approval_receipt_id: Some(rows.approval_receipt_id.clone()),
    };
    remove_prepared(pending, &rows.prepared_intent_id);
    actions.set(j, next);
    proof {
        assert(action_views(actions@) =~= before.update(j as int, next_view));
        assert forall|a: int, b: int|
            0 <= a < actions@.len() && 0 <= b < actions@.len() && a != b implies #[trigger] action_views(
            actions@,
        )[a].id != #[trigger] action_views(actions@)[b].id by {
            assert(action_views(actions@)[a].id == before[a].id);
            assert(action_views(actions@)[b].id == before[b].id);
        }
    }
    Ok(
        ActionReplayCapsule {
            idempotency_id: rows.idempotency_id,
            correlation_id: rows.correlation_id,
            operation_ordinal: rows.ordinal as u64,
            command: ActionPersistenceCommand::ExecutePrepared {
                kind: PreparedIntentKind::LowerActionClassification,
                prepared_id: rows.prepared_intent_id,
                actor: "head_of_products".to_string(),
                acknowledged_digest: rows.acknowledged_digest,
            },
            result: ActionPersistenceResult::Action(outcome),
        },
    )
}

/// An executed lowering gives the lowered Action the proposed
/// classification at the next version, in the same state and with its
/// other fields unchanged; it consumes the preview it approved and records
/// the Head of Products' approval of that preview.
pub proof fn lemma_executed_lowering_lowers(
    actions: Seq<ActionView>,
    pending: Seq<PreparedIntentView>,
    rows: ExecutedLoweringRows,
)
    requires
        executed_lowering_model(actions, pending, rows) is Ok,
    ensures
        action_index(actions, rows.action_id@) is Some,
        ({
            let (next_actions, next_pending, capsule) = executed_lowering_model(actions, pending, rows)->Ok_0;
            let j = action_index(actions, rows.action_id@)->Some_0;
            &&& next_actions.len() == actions.len()
            &&& next_actions[j].classification == rows.proposed_classification@
            &&& next_actions[j].version == actions[j].version + 1
            &&& next_actions[j].state == actions[j].state
            &&& next_actions[j].id == actions[j].id
            &&& next_actions[j].title == actions[j].title
            &&& next_actions[j].details == actions[j].details
            &&& next_actions[j].completion_evidence == actions[j].completion_evidence
            &&& forall|i: int| 0 <= i < actions.len() && i != j ==> next_actions[i] == actions[i]
            &&& next_pending == without_prepared(pending, rows.prepared_intent_id@)
            &&& capsule.command == CommandView::ExecutePrepared {
                kind: PreparedIntentKind::LowerActionClassification,
                prepared_id: rows.prepared_intent_id@,
                actor: "head_of_products"@,
                acknowledged_digest: rows.acknowledged_digest@,
            }
            &&& capsule.operation_ordinal == rows.ordinal
        }),
{
}

/// A prepared lowering makes pending exactly the preview the domain
/// rebuilt, which lowers the named Action at the named version from its
/// current classification to the proposed one with the given rationale.
pub proof fn lemma_prepared_lowering_is_pending(
    actions: Seq<ActionView>,
    pending: Seq<PreparedIntentView>,
    rows: PreparedLoweringRows,
    rebuilt: Option<PreparedIntentView>,
)
    requires
        prepared_lowering_model(actions, pending, rows, rebuilt) is Ok,
    ensures
        rebuilt is Some,
        action_index(actions, rows.action_id@) is Some,
        ({
            let intent = rebuilt->Some_0;
            let j = action_index(actions, rows.action_id@)->Some_0;
            &&& prepared_lowering_model(actions, pending, rows, rebuilt)->Ok_0.0 == pending.push(intent)
            &&& intent.id == rows.result_reference@
            &&& intent.operation == PreparedOperationView::LowerActionClassification {
                action_id: rows.action_id@,
                action_version: rows.expected_version as u64,
                current_classification: actions[j].classification,
                proposed_classification: rows.proposed_classification@,
                rationale: rows.rationale@,
            }
            &&& actions[j].version == rows.expected_version
        }),
{
}

/// A replayed lowering preparation is recorded as the command its rows
/// hold: under the rows' key and correlation, at their ordinal, lowering
/// the rows' Action at the rows' version to the proposed classification
/// with the rows' rationale, with the rebuilt preview as its result; and
/// the rebuilt preview carries the preview row's digest, classification
/// and expiry.
pub proof fn lemma_prepared_lowering_records_its_command(
    actions: Seq<ActionView>,
    pending: Seq<PreparedIntentView>,
    rows: PreparedLoweringRows,
    rebuilt: Option<PreparedIntentView>,
)
    requires
        prepared_lowering_model(actions, pending, rows, rebuilt) is Ok,
    ensures
        ({
            let capsule = prepared_lowering_model(actions, pending, rows, rebuilt)->Ok_0.1;
            let intent = rebuilt->Some_0;
            &&& rows.ordinal >= 0
            &&& capsule.idempotency_id == rows.idempotency_id@
            &&& capsule.correlation_id == rows.correlation_id@
            &&& capsule.operation_ordinal == rows.ordinal
            &&& capsule.command == CommandView::PrepareLowerClassification {
                action_id: rows.action_id@,
                expected_version: rows.expected_version as u64,
                proposed_classification: rows.proposed_classification@,
                rationale: rows.rationale@,
            }
            &&& capsule.result == ResultView::Prepared(intent)
            &&& intent.payload_digest == rows.intent.payload_digest@
            &&& intent.classification == rows.intent.classification@
            &&& intent.expires_at == rows.intent.expires_at
        }),
{
}

} // verus!
