//! Replaying what created an ordinary Action Request and moved it on:
//! the create command, its replay row and audit event, and each recorded
//! transition with its own replay row and audit event, decoded into the
//! replay capsules the ledger recorded for them.

use vstd::prelude::*;
use crate::executions::{AuditEffectRow, RecordedAudit};
use crate::ledger::transition_code;
use crate::load_error::ActionPersistenceLoadError;
use crate::model::{
    ActionMutationOutcome, ActionPersistenceCommand, ActionPersistenceResult, ActionReplayCapsule,
    ActionRequestRecord, ActionRequestView, AuditEvent, AuditEventCode, AuditEventView, AuditTarget,
    AuditTargetView, CapsuleView, CommandView, OutcomeView, ResultView, capsule_views,
};
use crate::requests::{
    created_draft, decode_request_transitions, lemma_history_len,
    lemma_request_history_counts_its_transitions, records_result_view,
    request_transitions_model, time_ok, transition_row_views, PersistedTransitionRow,
};
use crate::states::ActionRequestState;
use crate::text::{clone_opt_string, opt_string, str_eq};

verus! {

/// One `action_command_create_requests` row.
#[derive(Debug)]
pub struct CreateCommandRow {
    pub idempotency_id: String,
    pub request_id: String,
    pub title: String,
    pub details: String,
    pub intended_owner: Option<String>,
    pub response_due_at: Option<i64>,
    pub intended_action_due_at: Option<i64>,
    pub classification: String,
}

/// One `action_replay_operations` row of a request command.
#[derive(Debug)]
pub struct RequestReplayRow {
    pub result_reference: Option<String>,
    pub correlation_id: String,
    pub operation_ordinal: i64,
    pub result_kind: String,
    pub prepared_intent_id: Option<String>,
    pub prepared_disposition: String,
    pub terminal_cause: Option<String>,
    pub error_code: Option<String>,
    pub error_message_key: Option<String>,
    pub error_correlation_id: Option<String>,
    pub error_retryable: Option<i64>,
    pub attempted_digest: Option<String>,
    pub private_detail_ref: Option<String>,
}

/// Every row recorded for an ordinary request's commands: the create
/// command, its replay row and audit; and, for each recorded transition in
/// the order of the versions it expected, the command row, its replay row
/// and its audit.
#[derive(Debug)]
pub struct RequestActivityRows {
    pub create: CreateCommandRow,
    pub create_replay: RequestReplayRow,
    pub create_audit: RecordedAudit,
    pub transitions: Vec<PersistedTransitionRow>,
    pub transition_replays: Vec<RequestReplayRow>,
    pub transition_audits: Vec<RecordedAudit>,
}

/// Whether a replay row records a request command on `request_id` that
/// succeeded: a request result naming the request, no preview, no
/// disposition, no cause and no error, at an ordinal that is not negative.
pub open spec fn request_replay_row_ok(row: RequestReplayRow, request_id: Seq<char>) -> bool {
    &&& row.result_kind@ == "request"@
    &&& opt_string(row.result_reference) == Some(request_id)
    &&& row.prepared_intent_id is None
    &&& row.prepared_disposition@ == "not_applicable"@
    &&& row.terminal_cause is None
    &&& row.error_code is None
    &&& row.error_message_key is None
    &&& row.error_correlation_id is None
    &&& row.error_retryable is None
    &&& row.attempted_digest is None
    &&& row.private_detail_ref is None
    &&& row.operation_ordinal >= 0
}

/// Whether the recorded audit is a request command's: the first and only
/// one linked, under the command's correlation; an event not before the
/// epoch, by the Head of Products in work management, with `code`, on the
/// request, allowed, needing no approval, succeeded and complete; and one
/// complete effect of `code` on the request.
pub open spec fn request_audit_ok(
    audit: RecordedAudit,
    request_id: Seq<char>,
    correlation: Seq<char>,
    code: AuditEventCode,
) -> bool {
    let event = audit.event;
    &&& audit.link.ordinal == 0
    &&& audit.link.correlation_id@ == correlation
    &&& audit.link.audit_event_id@ == event.id@
    &&& event.occurred_at >= 0
    &&& event.actor@ == "head_of_products"@
    &&& event.module@ == "work_management"@
    &&& event.event_code@ == code.spec_text()
    &&& event.target_type@ == "action_request"@
    &&& event.target_id@ == request_id
    &&& event.correlation_id@ == correlation
    &&& event.policy_outcome@ == "allowed"@
    &&& event.approval_outcome@ == "not_required"@
    &&& event.execution_outcome@ == "succeeded"@
    &&& event.effect_scope@ == "complete"@
    &&& audit.effects@.len() == 1
    &&& audit.effects@[0].ordinal == 0
    &&& audit.effects@[0].effect_code@ == code.spec_text()
    &&& audit.effects@[0].scope@ == "complete"@
    &&& audit.effects@[0].target_type@ == "action_request"@
    &&& audit.effects@[0].target_id@ == request_id
}

/// The audit event a request command's recorded audit holds.
pub open spec fn request_audit_view(
    audit: RecordedAudit,
    request_id: Seq<char>,
    correlation: Seq<char>,
    code: AuditEventCode,
) -> AuditEventView {
    AuditEventView {
        id: audit.event.id@,
        occurred_at: audit.event.occurred_at,
        code,
        target: AuditTargetView::ActionRequest(request_id),
        correlation_id: correlation,
    }
}

/// Whether the create command row created `request`: the same id, title,
/// details, intended owner, due dates (none before the epoch) and
/// classification.
pub open spec fn create_command_ok(row: CreateCommandRow, request: ActionRequestView) -> bool {
    &&& row.request_id@ == request.id
    &&& row.title@ == request.title
    &&& row.details@ == request.details
    &&& opt_string(row.intended_owner) == request.intended_owner
    &&& time_ok(row.response_due_at)
    &&& time_ok(row.intended_action_due_at)
    &&& row.response_due_at == request.response_due_at
    &&& row.intended_action_due_at == request.intended_action_due_at
    &&& row.classification@ == request.classification
}

/// The capsule recording the creation of `request`.
pub open spec fn create_capsule(request: ActionRequestView, rows: RequestActivityRows) -> CapsuleView {
    let correlation = rows.create_replay.correlation_id@;
    CapsuleView {
        idempotency_id: rows.create.idempotency_id@,
        correlation_id: correlation,
        operation_ordinal: rows.create_replay.operation_ordinal as u64,
        command: CommandView::CreateRequest {
            id: request.id,
            title: request.title,
            details: request.details,
            intended_owner: request.intended_owner,
            response_due_at: request.response_due_at,
            intended_action_due_at: request.intended_action_due_at,
            classification: request.classification,
        },
        result: ResultView::Request(
            OutcomeView {
                record: created_draft(request),
                audit_events: seq![
                    request_audit_view(
                        rows.create_audit,
                        request.id,
                        correlation,
                        AuditEventCode::ActionRequestCreated,
                    ),
                ],
                approval_receipt_id: None,
            },
        ),
    }
}

/// Whether the replay row and audit of the transition at `i`, which left
/// the request as `record`, are the transition's: a request result on the
/// request at an ordinal after the first, and the transition's audit.
pub open spec fn transition_rows_ok(
    request: ActionRequestView,
    rows: RequestActivityRows,
    i: int,
    record: ActionRequestView,
) -> bool {
    let replay = rows.transition_replays@[i];
    &&& request_replay_row_ok(replay, request.id)
    &&& replay.operation_ordinal != 0
    &&& request_audit_ok(
        rows.transition_audits@[i],
        request.id,
        replay.correlation_id@,
        transition_code(record.state),
    )
}

/// The capsule recording the transition at `i`, which left the request as
/// `record`.
pub open spec fn transition_capsule(
    request: ActionRequestView,
    rows: RequestActivityRows,
    i: int,
    record: ActionRequestView,
) -> CapsuleView {
    let command = rows.transitions@[i];
    let replay = rows.transition_replays@[i];
    CapsuleView {
        idempotency_id: command.idempotency_id@,
        correlation_id: replay.correlation_id@,
        operation_ordinal: replay.operation_ordinal as u64,
        command: CommandView::TransitionRequest {
            request_id: request.id,
            expected_version: command.expected_version as u64,
            target_state: record.state,
            rationale: opt_string(command.rationale),
        },
        result: ResultView::Request(
            OutcomeView {
                record,
                audit_events: seq![
                    request_audit_view(
                        rows.transition_audits@[i],
                        request.id,
                        replay.correlation_id@,
                        transition_code(record.state),
                    ),
                ],
                approval_receipt_id: None,
            },
        ),
    }
}

/// What replaying an ordinary request's recorded commands gives: the
/// capsule of its creation, then one per transition; an invalid snapshot
/// where the create rows do not record the request's creation, the
/// transitions do not lead from the draft to the request (see
/// `request_transitions_model`), or a transition's replay or audit rows are
/// not its own.  A draft has no transitions, whatever rows are given.
pub open spec fn request_activity_model(request: ActionRequestView, rows: RequestActivityRows) -> Result<
    Seq<CapsuleView>,
    ActionPersistenceLoadError,
> {
    let create_ok = create_command_ok(rows.create, request) && request_replay_row_ok(
        rows.create_replay,
        request.id,
    ) && request_audit_ok(
        rows.create_audit,
        request.id,
        rows.create_replay.correlation_id@,
        AuditEventCode::ActionRequestCreated,
    );
    if !create_ok {
        Err(ActionPersistenceLoadError::InvalidActionSnapshot)
    } else {
        match request_transitions_model(request, transition_row_views(rows.transitions@)) {
            Err(error) => Err(error),
            Ok(records) => if records.len() <= rows.transition_replays@.len() && records.len()
                <= rows.transition_audits@.len() && (forall|i: int|
                0 <= i < records.len() ==> #[trigger] transition_rows_ok(request, rows, i, records[i])) {
                Ok(
                    seq![create_capsule(request, rows)].add(
                        Seq::new(records.len(), |i: int| transition_capsule(request, rows, i, records[i])),
                    ),
                )
            } else {
                Err(ActionPersistenceLoadError::InvalidActionSnapshot)
            },
        }
    }
}

pub open spec fn capsules_result_view(
    result: Result<Vec<ActionReplayCapsule>, ActionPersistenceLoadError>,
) -> Result<Seq<CapsuleView>, ActionPersistenceLoadError> {
    match result {
        Ok(capsules) => Ok(capsule_views(capsules@)),
        Err(error) => Err(error),
    }
}

fn check_replay_row(row: &RequestReplayRow, request_id: &String) -> (ok: bool)
    ensures
        ok == request_replay_row_ok(*row, request_id@),
{
    let reference_ok = match &row.result_reference {
        Some(reference) => str_eq(reference.as_str(), request_id.as_str()),
        None => false,
    };
    str_eq(row.result_kind.as_str(), "request") && reference_ok && row.prepared_intent_id.is_none()
        && str_eq(row.prepared_disposition.as_str(), "not_applicable") && row.terminal_cause.is_none()
        && row.error_code.is_none() && row.error_message_key.is_none()
        && row.error_correlation_id.is_none() && row.error_retryable.is_none()
        && row.attempted_digest.is_none() && row.private_detail_ref.is_none()
        && row.operation_ordinal >= 0
}

fn check_effect(effect: &AuditEffectRow, request_id: &String, code: AuditEventCode) -> (ok: bool)
    ensures
        ok == (effect.ordinal == 0 && effect.effect_code@ == code.spec_text() && effect.scope@
            == "complete"@ && effect.target_type@ == "action_request"@ && effect.target_id@
            == request_id@),
{
    effect.ordinal == 0 && str_eq(effect.effect_code.as_str(), code.as_str()) && str_eq(
        effect.scope.as_str(),
        "complete",
    ) && str_eq(effect.target_type.as_str(), "action_request") && str_eq(
        effect.target_id.as_str(),
        request_id.as_str(),
    )
}

fn check_request_audit(
    audit: &RecordedAudit,
    request_id: &String,
    correlation: &String,
    code: AuditEventCode,
) -> (ok: bool)
    ensures
        ok == request_audit_ok(*audit, request_id@, correlation@, code),
{
    let event = &audit.event;
    audit.link.ordinal == 0 && str_eq(audit.link.correlation_id.as_str(), correlation.as_str())
        && str_eq(audit.link.audit_event_id.as_str(), event.id.as_str()) && event.occurred_at >= 0
        && str_eq(event.actor.as_str(), "head_of_products") && str_eq(
        event.module.as_str(),
        "work_management",
    ) && str_eq(event.event_code.as_str(), code.as_str()) && str_eq(
        event.target_type.as_str(),
        "action_request",
    ) && str_eq(event.target_id.as_str(), request_id.as_str()) && str_eq(
        event.correlation_id.as_str(),
        correlation.as_str(),
    ) && str_eq(event.policy_outcome.as_str(), "allowed") && str_eq(
        event.approval_outcome.as_str(),
        "not_required",
    ) && str_eq(event.execution_outcome.as_str(), "succeeded") && str_eq(
        event.effect_scope.as_str(),
        "complete",
    ) && audit.effects.len() == 1 && check_effect(&audit.effects[0], request_id, code)
}

fn check_create_command(row: &CreateCommandRow, request: &ActionRequestRecord) -> (ok: bool)
    ensures
        ok == create_command_ok(*row, request@),
{
    let owner_ok = match (&row.intended_owner, &request.intended_owner) {
        (Some(a), Some(b)) => str_eq(a.as_str(), b.as_str()),
        (None, None) => true,
        _ => false,
    };
    let response_ok = match row.response_due_at {
        Some(v) => v >= 0,
        None => true,
    };
    let action_due_ok = match row.intended_action_due_at {
        Some(v) => v >= 0,
        None => true,
    };
    str_eq(row.request_id.as_str(), request.id.as_str()) && str_eq(
        row.title.as_str(),
        request.title.as_str(),
    ) && str_eq(row.details.as_str(), request.details.as_str()) && owner_ok && response_ok
        && action_due_ok && row.response_due_at == request.response_due_at
        && row.intended_action_due_at == request.intended_action_due_at && str_eq(
        row.classification.as_str(),
        request.classification.as_str(),
    )
}

fn request_event(audit: &RecordedAudit, request_id: &String, correlation: &String, code: AuditEventCode) -> (event:
    AuditEvent)
    ensures
        event@ == request_audit_view(*audit, request_id@, correlation@, code),
{
    AuditEvent {
        id: audit.event.id.clone(),
        occurred_at: audit.event.occurred_at,
        code,
        target: AuditTarget::ActionRequest(request_id.clone()),
        correlation_id: correlation.clone(),
    }
}

fn request_outcome(record: ActionRequestRecord, event: AuditEvent) -> (outcome: ActionMutationOutcome<
    ActionRequestRecord,
>)
    ensures
        outcome@ == (OutcomeView {
            record: record@,
            audit_events: seq![event@],
            approval_receipt_id: None,
        }),
{
    let events = vec![event];
    proof {
        assert(crate::model::audit_views(events@) =~= seq![event@]);
    }
    ActionMutationOutcome { record, audit_events: events, approval_receipt_id: None }
}

fn transition_code_of(state: ActionRequestState) -> (code: AuditEventCode)
    ensures
        code == transition_code(state),
{
    match state {
        ActionRequestState::Open => AuditEventCode::ActionRequestSubmitted,
        ActionRequestState::Declined => AuditEventCode::ActionRequestDeclined,
        _ => AuditEventCode::ActionRequestWithdrawn,
    }
}

/// Replays the recorded commands of an ordinary (not Decision-created)
/// Action Request, decoded as `request`, into their capsules.
pub fn replay_request_activity(request: &ActionRequestRecord, rows: &RequestActivityRows) -> (result:
    Result<Vec<ActionReplayCapsule>, ActionPersistenceLoadError>)
    ensures
        capsules_result_view(result) == request_activity_model(request@, *rows),
{
    let create_correlation = &rows.create_replay.correlation_id;
    if !(check_create_command(&rows.create, request) && check_replay_row(
        &rows.create_replay,
        &request.id,
    ) && check_request_audit(
        &rows.create_audit,
        &request.id,
        create_correlation,
        AuditEventCode::ActionRequestCreated,
    )) {
        return Err(ActionPersistenceLoadError::InvalidActionSnapshot);
    }
    let records = match decode_request_transitions(request, &rows.transitions) {
        Ok(records) => records,
        Err(error) => {
            return Err(error);
        },
    };
    let ghost record_views = records@.map_values(|r: ActionRequestRecord| r@);
    proof {
        lemma_history_len(created_draft(request@), transition_row_views(rows.transitions@));
    }
    let n = records.len();
    if !(n <= rows.transition_replays.len() && n <= rows.transition_audits.len()) {
        return Err(ActionPersistenceLoadError::InvalidActionSnapshot);
    }
    let mut draft = request.clone();
    draft.state = ActionRequestState::Draft;
    draft.version = 1;
    draft.terminal_rationale = None;
    draft.linked_action_id = None;
    let create_event = request_event(
        &rows.create_audit,
        &request.id,
        create_correlation,
        AuditEventCode::ActionRequestCreated,
    );
    let mut capsules: Vec<ActionReplayCapsule> = Vec::new();
    capsules.push(
        ActionReplayCapsule {
            idempotency_id: rows.create.idempotency_id.clone(),
            correlation_id: create_correlation.clone(),
            operation_ordinal: rows.create_replay.operation_ordinal as u64,
            command: ActionPersistenceCommand::CreateRequest {
                id: request.id.clone(),
                title: request.title.clone(),
                details: request.details.clone(),
                intended_owner: clone_opt_string(&request.intended_owner),
                response_due_at: request.response_due_at,
                intended_action_due_at: request.intended_action_due_at,
                classification: request.classification.clone(),
            },
            result: ActionPersistenceResult::Request(request_outcome(draft, create_event)),
        },
    );
    let ghost first = create_capsule(request@, *rows);
    proof {
        assert(capsule_views(capsules@) =~= seq![first]);
    }
    let mut i: usize = 0;
    while i < n
        invariant
            n == records@.len(),
            record_views == records@.map_values(|r: ActionRequestRecord| r@),
            n <= rows.transition_replays@.len(),
            n <= rows.transition_audits@.len(),
            i <= n,
            n <= rows.transitions@.len() || request.state == ActionRequestState::Draft,
            capsule_views(capsules@) == seq![first].add(
                Seq::new(
                    i as nat,
                    |k: int| transition_capsule(request@, *rows, k, record_views[k]),
                ),
            ),
            forall|k: int| 0 <= k < i ==> #[trigger] transition_rows_ok(request@, *rows, k, record_views[k]),
            records_result_view(Ok(records)) == request_transitions_model(
                request@,
                transition_row_views(rows.transitions@),
            ),
        decreases n - i,
    {
        let record = &records[i];
        let replay = &rows.transition_replays[i];
        let audit = &rows.transition_audits[i];
        let code = transition_code_of(record.state);
        if !(check_replay_row(replay, &request.id) && replay.operation_ordinal != 0
            && check_request_audit(audit, &request.id, &replay.correlation_id, code)) {
            proof {
                assert(!transition_rows_ok(request@, *rows, i as int, record_views[i as int]));
            }
            return Err(ActionPersistenceLoadError::InvalidActionSnapshot);
        }
        let command = &rows.transitions[i];
        let event = request_event(audit, &request.id, &replay.correlation_id, code);
        let capsule = ActionReplayCapsule {
            idempotency_id: command.idempotency_id.clone(),
            correlation_id: replay.correlation_id.clone(),
            operation_ordinal: replay.operation_ordinal as u64,
            command: ActionPersistenceCommand::TransitionRequest {
                request_id: request.id.clone(),
                expected_version: command.expected_version as u64,
                target_state: record.state,
                rationale: clone_opt_string(&command.rationale),
            },
            result: ActionPersistenceResult::Request(request_outcome(record.clone(), event)),
        };
        let ghost before = capsule_views(capsules@);
        capsules.push(capsule);
        proof {
            assert(capsule_views(capsules@) =~= before.push(capsule@));
            assert(capsule@ == transition_capsule(request@, *rows, i as int, record_views[i as int]));
            assert(seq![first].add(
                Seq::new(
                    (i + 1) as nat,
                    |k: int| transition_capsule(request@, *rows, k, record_views[k]),
                ),
            ) =~= seq![first].add(
                Seq::new(
                    i as nat,
                    |k: int| transition_capsule(request@, *rows, k, record_views[k]),
                ),
            ).push(transition_capsule(request@, *rows, i as int, record_views[i as int])));
        }
        i = i + 1;
    }
    Ok(capsules)
}

/// Replaying an ordinary request's recorded commands gives one capsule per
/// command that brought it to its state, in order: first its creation,
/// under the create row's key, recording exactly the create row's request
/// (its id the request's), whose result is the request as a draft at
/// version 1; then its submission and, for a declined or withdrawn request,
/// its decline or withdrawal, each under its row's key and recording the
/// row's expected version and rationale on this request.
pub proof fn lemma_replayed_request_activity_is_its_commands(
    request: ActionRequestView,
    rows: RequestActivityRows,
)
    requires
        request_activity_model(request, rows) is Ok,
    ensures
        ({
            let capsules = request_activity_model(request, rows)->Ok_0;
            let create = rows.create;
            &&& capsules.len() == 1 + if request.state == ActionRequestState::Draft {
                0int
            } else if request.state == ActionRequestState::Declined || request.state
                == ActionRequestState::Withdrawn {
                2int
            } else {
                1int
            }
            &&& create.request_id@ == request.id
            &&& capsules[0].idempotency_id == create.idempotency_id@
            &&& capsules[0].command == CommandView::CreateRequest {
                id: create.request_id@,
                title: create.title@,
                details: create.details@,
                intended_owner: opt_string(create.intended_owner),
                response_due_at: create.response_due_at,
                intended_action_due_at: create.intended_action_due_at,
                classification: create.classification@,
            }
            &&& match capsules[0].result {
                ResultView::Request(outcome) => {
                    &&& outcome.record.id == request.id
                    &&& outcome.record.state == ActionRequestState::Draft
                    &&& outcome.record.version == 1
                },
                _ => false,
            }
            &&& forall|i: int|
                0 <= i < capsules.len() - 1 ==> {
                    let row = #[trigger] rows.transitions@[i];
                    &&& capsules[i + 1].idempotency_id == row.idempotency_id@
                    &&& capsules[i + 1].command matches CommandView::TransitionRequest {
                        request_id,
                        expected_version,
                        target_state: _,
                        rationale,
                    } && request_id == request.id && expected_version == row.expected_version as u64
                        && rationale == opt_string(row.rationale)
                }
        }),
{
    let views = transition_row_views(rows.transitions@);
    lemma_request_history_counts_its_transitions(request, views);
    let capsules = request_activity_model(request, rows)->Ok_0;
    assert forall|i: int| 0 <= i < capsules.len() - 1 implies {
        let row = #[trigger] rows.transitions@[i];
        &&& capsules[i + 1].idempotency_id == row.idempotency_id@
        &&& capsules[i + 1].command matches CommandView::TransitionRequest {
            request_id,
            expected_version,
            target_state: _,
            rationale,
        } && request_id == request.id && expected_version == row.expected_version as u64
            && rationale == opt_string(row.rationale)
    } by {
        assert(views[i] == rows.transitions@[i]@);
    }
}

} // verus!
