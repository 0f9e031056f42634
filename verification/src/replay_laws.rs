//! Laws relating what the ledger's commands record to what the namespace
//! decoders read back: the rows that persist a command the ledger
//! applied decode to the capsule it recorded and the state it left.

use vstd::prelude::*;
use crate::action_events::{
    change_allowed, change_code, change_target, changed_action, executed_change_model, receipt_ok,
    ExecutedChangeRows,
};
use crate::activity::{replay_step, ActionActivityEvent, ReplayState};
use crate::approvals::{
    execute_accept_model, execute_action_model, is_action_transition, prepare_accept_model,
    prepare_lower_model, prepare_transition_model, prepared_index, reject_model, ApprovalView,
    DecisionView,
};
use crate::errors::DomainErrorView;
use crate::prepared_rows::{
    accept_rows_ok, prepared_accept_model, prepared_transition_model, rebuilt_accept_ok,
    transition_details, transition_operation, transition_rows_ok, PreparedAcceptRows, PreparedTransitionRows,
    SourceRowView,
};
use crate::executions::{
    accept_audit_event, execute_accept_decode_model, execute_accept_rows_ok, ExecuteAcceptRows,
};
use crate::ledger::{
    action_index, create_model, ledger_wf, next_ordinal, replay_index, request_index,
    transition_request_model, LedgerView,
};
use crate::load_error::ActionPersistenceLoadError;
use crate::lowerings::{
    executed_lowering_model, lowering_audit_ok, lowering_intent_row_ok, prepared_lowering_model,
    ExecutedLoweringRows, PreparedLoweringRows,
};
use crate::model::{
    AcceptedOutcomeView, ActionView, AuditEventCode, CommandView, ResultView, AuditEventView, AuditTargetView, CapsuleView, OutcomeView,
    PreparedIntentKind, PreparedIntentView, RejectedOutcomeView, TransitionDetailsView, DiscardedView,
};
use crate::rejections::{rejection_audit_ok, rejection_model, rejection_target, RejectionRows};
use crate::request_activity::{
    request_activity_model, request_audit_ok, request_replay_row_ok, transition_capsule,
    RequestActivityRows,
};
use crate::states::ActionRequestState;
use crate::requests::time_ok;
use crate::text::opt_string;
use crate::model::CreateActionRequestDraft;

verus! {

/// An approved completion, cancellation or reopening replays as it was
/// recorded: where the domain's executed outcome is the preview's change
/// of its Action (the Action in its new state at the next version, under
/// the recomputed classification, with the change's reason, support and
/// history entry, the change's one audit event and the receipt), the rows that persist it (its key, correlation and
/// ordinal, the acknowledged digest, the receipt consumed with the preview
/// at approval, and the audit event with its one complete effect) decode
/// to the capsule the ledger recorded and the Actions it left.
pub proof fn lemma_recorded_change_replays(
    ledger: LedgerView,
    key: Seq<char>,
    correlation: Seq<char>,
    kind: PreparedIntentKind,
    approval: ApprovalView,
    outcome: OutcomeView<ActionView>,
    prepared: PreparedIntentView,
    rows: ExecutedChangeRows,
    classification: Seq<char>,
)
    requires
        ledger_wf(ledger),
        is_action_transition(kind),
        replay_index(ledger.snapshot.replay, key) is None,
        execute_action_model(
            ledger,
            key,
            correlation,
            kind,
            approval,
            rows.receipt.id@,
            DecisionView::Executed(outcome),
        ).0 is Ok,
        prepared.id == approval.prepared_id,
        prepared.operation.kind() == kind,
        approval.actor == "head_of_products"@,
        approval.acknowledged_payload_digest == prepared.payload_digest,
        ({
            let (action_id, version, mode) = change_target(prepared.operation);
            match action_index(ledger.snapshot.actions, action_id) {
                Some(j) => {
                    let previous = ledger.snapshot.actions[j];
                    &&& previous.version == version
                    &&& change_allowed(kind, previous.state, mode)
                    &&& previous.version < u64::MAX
                    &&& outcome.record == changed_action(
                        kind,
                        previous,
                        prepared,
                        rows,
                        classification,
                    )
                    &&& outcome.audit_events == seq![
                        AuditEventView {
                            id: rows.audit.id@,
                            occurred_at: rows.audit.occurred_at,
                            code: change_code(kind),
                            target: AuditTargetView::Action(action_id),
                            correlation_id: correlation,
                        },
                    ]
                },
                None => false,
            }
        }),
        rows.idempotency_id@ == key,
        rows.correlation_id@ == correlation,
        rows.ordinal == next_ordinal(ledger.snapshot.replay)->Some_0,
        rows.actor@ == approval.actor,
        rows.acknowledged_digest@ == approval.acknowledged_payload_digest,
        receipt_ok(rows, prepared),
        rows.audit.correlation_id@ == correlation,
        rows.audit.effects@.len() == 1,
        rows.audit.effects@[0].ordinal == 0,
        rows.audit.effects@[0].effect_code@ == change_code(kind).spec_text(),
        rows.audit.effects@[0].scope@ == "complete"@,
        rows.audit.effects@[0].target_type@ == "action"@,
        rows.audit.effects@[0].target_id@ == change_target(prepared.operation).0,
    ensures
        ({
            let after = execute_action_model(
                ledger,
                key,
                correlation,
                kind,
                approval,
                rows.receipt.id@,
                DecisionView::Executed(outcome),
            ).1;
            executed_change_model(
                kind,
                ledger.snapshot.actions,
                prepared,
                rows,
                classification,
            ) == Ok::<(Seq<ActionView>, CapsuleView), ActionPersistenceLoadError>(
                (after.snapshot.actions, after.snapshot.replay.last()),
            )
        }),
{
}

/// Replaying activity in order rebuilds an approved change as the ledger
/// applied it: where the state the replay has reached holds the ledger's
/// Actions and pending previews, replaying the execution of a completion,
/// cancellation or reopening from the rows that persist it (as in
/// `lemma_recorded_change_replays`) leaves the ledger's Actions and pending
/// previews afterwards and adds the capsule the ledger recorded.
pub proof fn lemma_recorded_change_replays_in_order(
    ledger: LedgerView,
    key: Seq<char>,
    correlation: Seq<char>,
    kind: PreparedIntentKind,
    approval: ApprovalView,
    outcome: OutcomeView<ActionView>,
    prepared: PreparedIntentView,
    rows: ExecutedChangeRows,
    prepared_intent_id: String,
    classification: String,
    state: ReplayState,
    rejection_code: Seq<char>,
)
    requires
        ledger_wf(ledger),
        is_action_transition(kind),
        replay_index(ledger.snapshot.replay, key) is None,
        execute_action_model(
            ledger,
            key,
            correlation,
            kind,
            approval,
            rows.receipt.id@,
            DecisionView::Executed(outcome),
        ).0 is Ok,
        prepared_intent_id@ == approval.prepared_id,
        prepared_index(ledger.snapshot.prepared, approval.prepared_id) matches Some(k)
            && ledger.snapshot.prepared[k] == prepared,
        prepared.operation.kind() == kind,
        approval.actor == "head_of_products"@,
        approval.acknowledged_payload_digest == prepared.payload_digest,
        ({
            let (action_id, version, mode) = change_target(prepared.operation);
            match action_index(ledger.snapshot.actions, action_id) {
                Some(j) => {
                    let previous = ledger.snapshot.actions[j];
                    &&& previous.version == version
                    &&& change_allowed(kind, previous.state, mode)
                    &&& previous.version < u64::MAX
                    &&& outcome.record == changed_action(
                        kind,
                        previous,
                        prepared,
                        rows,
                        classification@,
                    )
                    &&& outcome.audit_events == seq![
                        AuditEventView {
                            id: rows.audit.id@,
                            occurred_at: rows.audit.occurred_at,
                            code: change_code(kind),
                            target: AuditTargetView::Action(action_id),
                            correlation_id: correlation,
                        },
                    ]
                },
                None => false,
            }
        }),
        rows.idempotency_id@ == key,
        rows.correlation_id@ == correlation,
        rows.ordinal == next_ordinal(ledger.snapshot.replay)->Some_0,
        rows.actor@ == approval.actor,
        rows.acknowledged_digest@ == approval.acknowledged_payload_digest,
        receipt_ok(rows, prepared),
        rows.audit.correlation_id@ == correlation,
        rows.audit.effects@.len() == 1,
        rows.audit.effects@[0].ordinal == 0,
        rows.audit.effects@[0].effect_code@ == change_code(kind).spec_text(),
        rows.audit.effects@[0].scope@ == "complete"@,
        rows.audit.effects@[0].target_type@ == "action"@,
        rows.audit.effects@[0].target_id@ == change_target(prepared.operation).0,
        state.actions == ledger.snapshot.actions,
        state.pending == ledger.snapshot.prepared,
    ensures
        ({
            let after = execute_action_model(
                ledger,
                key,
                correlation,
                kind,
                approval,
                rows.receipt.id@,
                DecisionView::Executed(outcome),
            ).1;
            replay_step(
                state,
                ActionActivityEvent::ExecuteTransition {
                    kind,
                    prepared_intent_id,
                    rows,
                    classification,
                },
                rejection_code,
            ) == Ok::<ReplayState, ActionPersistenceLoadError>(
                ReplayState {
                    actions: after.snapshot.actions,
                    pending: after.snapshot.prepared,
                    replay: state.replay.push(after.snapshot.replay.last()),
                    ..state
                },
            )
        }),
{
    reveal(replay_step);
    lemma_recorded_change_replays(
        ledger,
        key,
        correlation,
        kind,
        approval,
        outcome,
        prepared,
        rows,
        classification@,
    );
}

/// A prepared lowering replays as it was recorded: the rows that persist a
/// preparation the ledger applied (its key, correlation and ordinal, the
/// command's Action, version, proposed classification and rationale, and
/// the preview's `prepared_intents` row), with the preview the domain
/// rebuilds from them, decode to the capsule the ledger recorded and the
/// pending previews it left.
pub proof fn lemma_recorded_lowering_preparation_replays(
    ledger: LedgerView,
    key: Seq<char>,
    correlation: Seq<char>,
    prepared: PreparedIntentView,
    rows: PreparedLoweringRows,
)
    requires
        ledger_wf(ledger),
        replay_index(ledger.snapshot.replay, key) is None,
        rows.expected_version >= 1,
        prepare_lower_model(
            ledger,
            key,
            correlation,
            rows.action_id@,
            rows.expected_version as u64,
            rows.proposed_classification@,
            rows.rationale@,
            prepared,
        ).0 is Ok,
        rows.idempotency_id@ == key,
        rows.correlation_id@ == correlation,
        rows.ordinal == next_ordinal(ledger.snapshot.replay)->Some_0,
        rows.result_reference@ == prepared.id,
        lowering_intent_row_ok(rows.intent),
        rows.intent.payload_digest@ == prepared.payload_digest,
        rows.intent.classification@ == prepared.classification,
        rows.intent.expires_at == prepared.expires_at,
    ensures
        ({
            let after = prepare_lower_model(
                ledger,
                key,
                correlation,
                rows.action_id@,
                rows.expected_version as u64,
                rows.proposed_classification@,
                rows.rationale@,
                prepared,
            ).1;
            prepared_lowering_model(
                ledger.snapshot.actions,
                ledger.snapshot.prepared,
                rows,
                Some(prepared),
            ) == Ok::<(Seq<PreparedIntentView>, CapsuleView), ActionPersistenceLoadError>(
                (after.snapshot.prepared, after.snapshot.replay.last()),
            )
        }),
{
}

/// An approved lowering replays as it was recorded: where the domain's
/// executed outcome is the Action at the next version under the proposed
/// classification, with the lowering's one audit event and the receipt,
/// the rows that persist it (its key, correlation and ordinal, the Action,
/// preview and receipt it names, the Head of Products and the acknowledged
/// digest, and the audit event with its one complete effect) decode to the
/// capsule the ledger recorded, the Actions it left and the pending
/// previews without the consumed one.
pub proof fn lemma_recorded_lowering_replays(
    ledger: LedgerView,
    key: Seq<char>,
    correlation: Seq<char>,
    approval: ApprovalView,
    outcome: OutcomeView<ActionView>,
    rows: ExecutedLoweringRows,
)
    requires
        ledger_wf(ledger),
        replay_index(ledger.snapshot.replay, key) is None,
        execute_action_model(
            ledger,
            key,
            correlation,
            PreparedIntentKind::LowerActionClassification,
            approval,
            rows.approval_receipt_id@,
            DecisionView::Executed(outcome),
        ).0 is Ok,
        approval.prepared_id == rows.prepared_intent_id@,
        approval.actor == "head_of_products"@,
        approval.acknowledged_payload_digest == rows.acknowledged_digest@,
        match action_index(ledger.snapshot.actions, rows.action_id@) {
            Some(j) => {
                let previous = ledger.snapshot.actions[j];
                &&& previous.version < u64::MAX
                &&& outcome.record == ActionView {
                    version: (previous.version + 1) as u64,
                    classification: rows.proposed_classification@,
                    ..previous
                }
                &&& outcome.audit_events == seq![
                    AuditEventView {
                        id: rows.audit.id@,
                        occurred_at: rows.audit.occurred_at,
                        code: AuditEventCode::ActionClassificationLowered,
                        target: AuditTargetView::Action(rows.action_id@),
                        correlation_id: correlation,
                    },
                ]
            },
            None => false,
        },
        rows.idempotency_id@ == key,
        rows.correlation_id@ == correlation,
        rows.ordinal == next_ordinal(ledger.snapshot.replay)->Some_0,
        rows.actor@ == "head_of_products"@,
        lowering_audit_ok(rows),
    ensures
        ({
            let after = execute_action_model(
                ledger,
                key,
                correlation,
                PreparedIntentKind::LowerActionClassification,
                approval,
                rows.approval_receipt_id@,
                DecisionView::Executed(outcome),
            ).1;
            executed_lowering_model(ledger.snapshot.actions, ledger.snapshot.prepared, rows) == Ok::<
                (Seq<ActionView>, Seq<PreparedIntentView>, CapsuleView),
                ActionPersistenceLoadError,
            >((after.snapshot.actions, after.snapshot.prepared, after.snapshot.replay.last()))
        }),
{
}

/// A rejection replays as it was recorded: where the domain's rejection
/// outcome names the preview, its expiry, its audit event and the
/// preview's rejection target, the rows that persist it (its result row,
/// the one legal audit row under `rejection_code`, and the preview
/// consumed at the rejection instant) decode to the capsule the ledger
/// recorded.
pub proof fn lemma_recorded_rejection_replays(
    ledger: LedgerView,
    key: Seq<char>,
    correlation: Seq<char>,
    intent: PreparedIntentView,
    outcome: RejectedOutcomeView,
    rows: RejectionRows,
    rejection_code: Seq<char>,
)
    requires
        ledger_wf(ledger),
        replay_index(ledger.snapshot.replay, key) is None,
        reject_model(ledger, key, correlation, intent.id, "head_of_products"@, outcome.audit_event_id, outcome.occurred_at, Ok(outcome)).0 is Ok,
        rejection_target(intent.operation) == Some(outcome.target),
        outcome.prepared_intent_id == intent.id,
        outcome.expired == (rows.rejected_at >= intent.expires_at),
        outcome.audit_event_id == rows.audit_event_id@,
        outcome.occurred_at == rows.rejected_at,
        rows.idempotency_id@ == key,
        rows.correlation_id@ == correlation,
        rows.ordinal == next_ordinal(ledger.snapshot.replay)->Some_0,
        rows.actor@ == "head_of_products"@,
        rejection_audit_ok(rows, outcome.target, rejection_code),
        rows.prepared_consumed_at == Some(rows.rejected_at),
    ensures
        ({
            let after = reject_model(
                ledger,
                key,
                correlation,
                intent.id,
                "head_of_products"@,
                outcome.audit_event_id,
                outcome.occurred_at,
                Ok(outcome),
            ).1;
            rejection_model(intent, Some(rows), rejection_code) == Ok::<
                Option<CapsuleView>,
                ActionPersistenceLoadError,
            >(Some(after.snapshot.replay.last()))
        }),
{
}

/// Replaying activity in order rebuilds a rejection of a completion,
/// cancellation or reopening preview as the ledger recorded it: where the
/// state the replay has reached holds the ledger's pending previews,
/// replaying the rejection at its own ordinal from the rows that persist
/// it (as in `lemma_recorded_rejection_replays`) leaves the ledger's
/// pending previews afterwards, discards the rejected preview and adds the
/// capsule the ledger recorded.
pub proof fn lemma_recorded_rejection_replays_in_order(
    ledger: LedgerView,
    key: Seq<char>,
    correlation: Seq<char>,
    intent: PreparedIntentView,
    outcome: RejectedOutcomeView,
    rows: RejectionRows,
    rejection_code: Seq<char>,
    prepared_intent_id: String,
    state: ReplayState,
)
    requires
        ledger_wf(ledger),
        replay_index(ledger.snapshot.replay, key) is None,
        reject_model(ledger, key, correlation, intent.id, "head_of_products"@, outcome.audit_event_id, outcome.occurred_at, Ok(outcome)).0 is Ok,
        prepared_intent_id@ == intent.id,
        prepared_index(ledger.snapshot.prepared, intent.id) matches Some(k)
            && ledger.snapshot.prepared[k] == intent,
        is_action_transition(intent.operation.kind()),
        rejection_target(intent.operation) == Some(outcome.target),
        outcome.prepared_intent_id == intent.id,
        outcome.expired == (rows.rejected_at >= intent.expires_at),
        outcome.audit_event_id == rows.audit_event_id@,
        outcome.occurred_at == rows.rejected_at,
        rows.idempotency_id@ == key,
        rows.correlation_id@ == correlation,
        rows.ordinal == next_ordinal(ledger.snapshot.replay)->Some_0,
        rows.actor@ == "head_of_products"@,
        rejection_audit_ok(rows, outcome.target, rejection_code),
        rows.prepared_consumed_at == Some(rows.rejected_at),
        state.pending == ledger.snapshot.prepared,
    ensures
        ({
            let after = reject_model(
                ledger,
                key,
                correlation,
                intent.id,
                "head_of_products"@,
                outcome.audit_event_id,
                outcome.occurred_at,
                Ok(outcome),
            ).1;
            replay_step(
                state,
                ActionActivityEvent::RejectPrepared {
                    ordinal: rows.ordinal,
                    prepared_intent_id,
                    rows: Some(rows),
                },
                rejection_code,
            ) == Ok::<ReplayState, ActionPersistenceLoadError>(
                ReplayState {
                    pending: after.snapshot.prepared,
                    discarded: state.discarded.push(
                        DiscardedView { intent, consumed_at: rows.rejected_at },
                    ),
                    replay: state.replay.push(after.snapshot.replay.last()),
                    ..state
                },
            )
        }),
{
    reveal(replay_step);
    lemma_recorded_rejection_replays(ledger, key, correlation, intent, outcome, rows, rejection_code);
}

/// A recorded creation replays as it was recorded: the rows that persist a
/// draft the ledger created (the create command row with the command's
/// fields, a successful request replay row at the next ordinal under the
/// command's correlation, and the creation's audit event) decode to the
/// capsule the ledger recorded.  Due dates before the epoch are left out:
/// the ledger records them, the decoder refuses them.
pub proof fn lemma_recorded_creation_replays(
    ledger: LedgerView,
    command: CreateActionRequestDraft,
    audit_id: Seq<char>,
    occurred_at: i64,
    rows: RequestActivityRows,
)
    requires
        ledger_wf(ledger),
        replay_index(ledger.snapshot.replay, command.context.idempotency_id@) is None,
        create_model(ledger, command, audit_id, occurred_at).0 is Ok,
        time_ok(command.response_due_at),
        time_ok(command.intended_action_due_at),
        rows.create.idempotency_id@ == command.context.idempotency_id@,
        rows.create.request_id@ == command.id@,
        rows.create.title@ == command.title@,
        rows.create.details@ == command.details@,
        opt_string(rows.create.intended_owner) == opt_string(command.intended_owner),
        rows.create.response_due_at == command.response_due_at,
        rows.create.intended_action_due_at == command.intended_action_due_at,
        rows.create.classification@ == command.classification@,
        request_replay_row_ok(rows.create_replay, command.id@),
        rows.create_replay.correlation_id@ == command.context.correlation_id@,
        rows.create_replay.operation_ordinal == next_ordinal(ledger.snapshot.replay)->Some_0,
        request_audit_ok(
            rows.create_audit,
            command.id@,
            command.context.correlation_id@,
            AuditEventCode::ActionRequestCreated,
        ),
        rows.create_audit.event.id@ == audit_id,
        rows.create_audit.event.occurred_at == occurred_at,
    ensures
        ({
            let (result, after) = create_model(ledger, command, audit_id, occurred_at);
            request_activity_model(result->Ok_0.record, rows) == Ok::<
                Seq<CapsuleView>,
                ActionPersistenceLoadError,
            >(seq![after.snapshot.replay.last()])
        }),
{
    let (result, after) = create_model(ledger, command, audit_id, occurred_at);
    assert(request_activity_model(result->Ok_0.record, rows)->Ok_0 =~= seq![
        after.snapshot.replay.last(),
    ]);
}

/// An approved acceptance replays as it was recorded: where the rows that
/// persist an acceptance the ledger applied are those of an accepted
/// execution of the preview the approval names (see
/// `execute_accept_rows_ok`), and the domain's outcome holds the three
/// audit events those rows record, decoding them against the accepted
/// request and the created Action gives back the outcome and the capsule
/// the ledger recorded.
pub proof fn lemma_recorded_acceptance_replays(
    ledger: LedgerView,
    key: Seq<char>,
    correlation: Seq<char>,
    approval: ApprovalView,
    audit_ids: Seq<Seq<char>>,
    outcome: AcceptedOutcomeView,
    prepared: PreparedIntentView,
    rows: ExecuteAcceptRows,
)
    requires
        ledger_wf(ledger),
        replay_index(ledger.snapshot.replay, key) is None,
        execute_accept_model(
            ledger,
            key,
            correlation,
            approval,
            audit_ids,
            rows.receipt.id@,
            DecisionView::Executed(outcome),
        ).0 is Ok,
        approval.prepared_id == prepared.id,
        approval.actor == "head_of_products"@,
        approval.acknowledged_payload_digest == prepared.payload_digest,
        rows.idempotency_id@ == key,
        rows.replay.correlation_id@ == correlation,
        rows.replay.operation_ordinal == next_ordinal(ledger.snapshot.replay)->Some_0,
        execute_accept_rows_ok(outcome.request, prepared, outcome.action, rows),
        outcome.audit_events == Seq::new(
            3,
            |i: int| accept_audit_event(rows.audits@[i], i, outcome.request.id, outcome.action.id),
        ),
    ensures
        ({
            let after = execute_accept_model(
                ledger,
                key,
                correlation,
                approval,
                audit_ids,
                rows.receipt.id@,
                DecisionView::Executed(outcome),
            ).1;
            execute_accept_decode_model(outcome.request, prepared, outcome.action, rows) == Ok::<
                (AcceptedOutcomeView, CapsuleView),
                ActionPersistenceLoadError,
            >((outcome, after.snapshot.replay.last()))
        }),
{
}

/// A prepared acceptance replays as it was recorded: where the rows that
/// persist a preparation the ledger applied have a preparation's shape for
/// the request (see `accept_rows_ok`) and describe the preview the ledger
/// recorded (see `rebuilt_accept_ok`), decoding them with that preview as
/// the domain's rebuild gives back the preview and the capsule the ledger
/// recorded.
pub proof fn lemma_recorded_accept_preparation_replays(
    ledger: LedgerView,
    key: Seq<char>,
    correlation: Seq<char>,
    request_id: Seq<char>,
    expected_version: u64,
    lifetime: i64,
    prepared: PreparedIntentView,
    canonical: Option<PreparedIntentView>,
    rows: PreparedAcceptRows,
)
    requires
        ledger_wf(ledger),
        replay_index(ledger.snapshot.replay, key) is None,
        prepare_accept_model(
            ledger,
            key,
            correlation,
            request_id,
            expected_version,
            lifetime,
            prepared,
            canonical,
        ).0 is Ok,
        ({
            let request = ledger.snapshot.requests[request_index(
                ledger.snapshot.requests,
                request_id,
            )->Some_0];
            &&& accept_rows_ok(request, rows)
            &&& rebuilt_accept_ok(request, rows, prepared)
        }),
        rows.idempotency_id@ == key,
        rows.replay@.correlation_id == correlation,
        rows.replay@.operation_ordinal == next_ordinal(ledger.snapshot.replay)->Some_0,
        rows.command_expected_version == expected_version,
    ensures
        ({
            let after = prepare_accept_model(
                ledger,
                key,
                correlation,
                request_id,
                expected_version,
                lifetime,
                prepared,
                canonical,
            ).1;
            let request = ledger.snapshot.requests[request_index(
                ledger.snapshot.requests,
                request_id,
            )->Some_0];
            prepared_accept_model(request, rows, Some(prepared)) == Ok::<
                (PreparedIntentView, CapsuleView),
                ActionPersistenceLoadError,
            >((prepared, after.snapshot.replay.last()))
        }),
{
}

/// A prepared completion, cancellation or reopening replays as it was
/// recorded: where the rows that persist a preparation the ledger applied
/// have a preparation's shape (see `transition_rows_ok`), name the command's
/// Action, version, reason, mode and judgment, and describe the preview the
/// ledger recorded,
/// decoding them with that preview as the domain's rebuild gives back the
/// preview and the command of the capsule the ledger recorded, whose
/// result is that preview.
pub proof fn lemma_recorded_transition_preparation_replays(
    ledger: LedgerView,
    key: Seq<char>,
    correlation: Seq<char>,
    kind: PreparedIntentKind,
    action_id: Seq<char>,
    expected_version: u64,
    details: TransitionDetailsView,
    prepared: PreparedIntentView,
    rows: PreparedTransitionRows,
    expected_sources: Seq<SourceRowView>,
)
    requires
        ledger_wf(ledger),
        is_action_transition(kind),
        replay_index(ledger.snapshot.replay, key) is None,
        prepare_transition_model(
            ledger,
            key,
            correlation,
            kind,
            action_id,
            expected_version,
            details,
            Ok::<PreparedIntentView, DomainErrorView>(prepared),
        ).0 is Ok,
        transition_rows_ok(kind, rows, expected_sources),
        rows.command_action_id@ == action_id,
        rows.command_expected_version == expected_version,
        transition_details(kind, rows) == details,
        prepared.operation == transition_operation(kind, rows),
        prepared.payload_digest == rows.intent@.payload_digest,
        prepared.classification == rows.intent@.classification,
    ensures
        ({
            let after = prepare_transition_model(
                ledger,
                key,
                correlation,
                kind,
                action_id,
                expected_version,
                details,
                Ok::<PreparedIntentView, DomainErrorView>(prepared),
            ).1;
            &&& prepared_transition_model(kind, prepared.id, rows, Some(prepared), expected_sources)
                == Ok::<(PreparedIntentView, CommandView), ActionPersistenceLoadError>(
                (prepared, after.snapshot.replay.last().command),
            )
            &&& after.snapshot.replay.last().result == ResultView::Prepared(prepared)
        }),
{
}

/// A recorded submission, decline or withdrawal replays as it was
/// recorded: where the rows at place `i` of a request's recorded
/// transitions persist a transition the ledger applied (the command's key,
/// version and rationale, its correlation and the next ordinal, and the
/// transition's audit event), the capsule the decoder builds from them
/// for the record the transition left is the capsule the ledger recorded.
pub proof fn lemma_recorded_transition_replays(
    ledger: LedgerView,
    key: Seq<char>,
    correlation: Seq<char>,
    request_id: Seq<char>,
    expected_version: u64,
    target: ActionRequestState,
    rationale: Option<Seq<char>>,
    audit_id: Seq<char>,
    occurred_at: i64,
    request: crate::model::ActionRequestView,
    rows: RequestActivityRows,
    i: int,
)
    requires
        ledger_wf(ledger),
        replay_index(ledger.snapshot.replay, key) is None,
        transition_request_model(
            ledger,
            key,
            correlation,
            request_id,
            expected_version,
            target,
            rationale,
            audit_id,
            occurred_at,
        ).0 is Ok,
        request.id == request_id,
        0 <= i < rows.transitions@.len(),
        i < rows.transition_replays@.len(),
        i < rows.transition_audits@.len(),
        rows.transitions@[i].idempotency_id@ == key,
        rows.transitions@[i].expected_version == expected_version,
        opt_string(rows.transitions@[i].rationale) == rationale,
        rows.transition_replays@[i].correlation_id@ == correlation,
        rows.transition_replays@[i].operation_ordinal == next_ordinal(ledger.snapshot.replay)->Some_0,
        rows.transition_audits@[i].event.id@ == audit_id,
        rows.transition_audits@[i].event.occurred_at == occurred_at,
    ensures
        ({
            let (result, after) = transition_request_model(
                ledger,
                key,
                correlation,
                request_id,
                expected_version,
                target,
                rationale,
                audit_id,
                occurred_at,
            );
            transition_capsule(request, rows, i, result->Ok_0.record) == after.snapshot.replay.last()
        }),
{
}

} // verus!
