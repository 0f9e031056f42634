//! Replaying what created an Action Request on behalf of a Decision: the
//! creation the Decision carried out and, where the request's premise was
//! later superseded, the mark it received, each decoded into the replay
//! capsule recorded for it.

use vstd::prelude::*;
use crate::executions::{AuditEffectRow, AuditRow};
use crate::load_error::ActionPersistenceLoadError;
use crate::model::{
    ActionMutationOutcome, ActionPersistenceCommand, ActionPersistenceResult, ActionReplayCapsule,
    ActionRequestRecord, ActionRequestView, AuditEvent, AuditEventCode, AuditEventView, AuditTarget,
    AuditTargetView, CapsuleView, CommandView, OutcomeView, ResultView, capsule_views,
};
use crate::request_activity::capsules_result_view;
use crate::requests::same_request;
use crate::states::ActionRequestState;
use crate::text::str_eq;

verus! {

/// The rows of one command a Decision carried out on a request: its
/// `action_decision_replay_operations` row (key, correlation, ordinal), the
/// classification its command row records, and the audit event its first
/// `action_decision_replay_audits` row names, with that event's effects.
#[derive(Debug)]
pub struct DecisionCommandRows {
    pub idempotency_id: String,
    pub correlation_id: String,
    pub ordinal: i64,
    pub classification: String,
    pub audit_event_id: String,
    pub event: AuditRow,
    pub effects: Vec<AuditEffectRow>,
}

/// The rows of a request a Decision created: its creation and, if read,
/// the superseded-premise mark.
#[derive(Debug)]
pub struct DecisionActivityRows {
    pub create: DecisionCommandRows,
    pub mark: Option<DecisionCommandRows>,
}

/// Whether a Decision's command rows on `request_id` are those of a command
/// recording `code`: an ordinal that is not negative; the linked event, not
/// before the epoch, by the Head of Products in work management, with
/// `code`, on the request, under the command's correlation, allowed,
/// approved, succeeded and complete; and one complete effect of `code` on
/// the request.
pub open spec fn decision_rows_ok(rows: DecisionCommandRows, request_id: Seq<char>, code: AuditEventCode) -> bool {
    let event = rows.event;
    &&& rows.ordinal >= 0
    &&& event.id@ == rows.audit_event_id@
    &&& event.occurred_at >= 0
    &&& event.actor@ == "head_of_products"@
    &&& event.module@ == "work_management"@
    &&& event.event_code@ == code.spec_text()
    &&& event.target_type@ == "action_request"@
    &&& event.target_id@ == request_id
    &&& event.correlation_id@ == rows.correlation_id@
    &&& event.policy_outcome@ == "allowed"@
    &&& event.approval_outcome@ == "approved"@
    &&& event.execution_outcome@ == "succeeded"@
    &&& event.effect_scope@ == "complete"@
    &&& rows.effects@.len() == 1
    &&& rows.effects@[0].ordinal == 0
    &&& rows.effects@[0].effect_code@ == code.spec_text()
    &&& rows.effects@[0].scope@ == "complete"@
    &&& rows.effects@[0].target_type@ == "action_request"@
    &&& rows.effects@[0].target_id@ == request_id
}

/// The request a Decision created, as created: open at version 1 with the
/// request's id, title, details, owner and intended due date, the
/// creation's classification, and no response due date, rationale or
/// linked Action.
pub open spec fn created_from_decision(request: ActionRequestView, classification: Seq<char>) -> ActionRequestView {
    ActionRequestView {
        response_due_at: None,
        classification,
        state: ActionRequestState::Open,
        version: 1,
        terminal_rationale: None,
        linked_action_id: None,
        ..request
    }
}

/// The request after its premise was marked superseded: the next version,
/// under the mark's classification.
pub open spec fn premise_marked(created: ActionRequestView, classification: Seq<char>) -> ActionRequestView {
    ActionRequestView { version: 2, classification, ..created }
}

/// The capsule recording one command a Decision carried out, which left
/// the request as `record`.
pub open spec fn decision_capsule(
    rows: DecisionCommandRows,
    request_id: Seq<char>,
    code: AuditEventCode,
    command: CommandView,
    record: ActionRequestView,
) -> CapsuleView {
    CapsuleView {
        idempotency_id: rows.idempotency_id@,
        correlation_id: rows.correlation_id@,
        operation_ordinal: rows.ordinal as u64,
        command,
        result: ResultView::Request(
            OutcomeView {
                record,
                audit_events: seq![
                    AuditEventView {
                        id: rows.event.id@,
                        occurred_at: rows.event.occurred_at,
                        code,
                        target: AuditTargetView::ActionRequest(request_id),
                        correlation_id: rows.correlation_id@,
                    },
                ],
                approval_receipt_id: None,
            },
        ),
    }
}

/// What replaying the commands a Decision carried out on `request` gives:
/// the capsule of its creation and, where its premise is marked
/// superseded, the capsule of the mark; an invalid snapshot where the
/// request has no owner or intended due date, a command's rows are not the
/// command's own, the mark's rows are missing, or an open request is not
/// what the commands left.
pub open spec fn decision_activity_model(
    request: ActionRequestView,
    source_decision_id: Seq<char>,
    superseded_premise: bool,
    rows: DecisionActivityRows,
) -> Result<Seq<CapsuleView>, ActionPersistenceLoadError> {
    let create = rows.create;
    let created = created_from_decision(request, create.classification@);
    let create_capsule = decision_capsule(
        create,
        request.id,
        AuditEventCode::ActionRequestCreatedFromDecision,
        CommandView::CreateRequestFromDecision {
            request_id: request.id,
            subject: request.title,
            details: request.details,
            intended_owner: request.intended_owner->Some_0,
            due_at: request.intended_action_due_at->Some_0,
            source_decision_id,
            classification: create.classification@,
        },
        created,
    );
    if request.intended_owner is None || request.intended_action_due_at is None || !decision_rows_ok(
        create,
        request.id,
        AuditEventCode::ActionRequestCreatedFromDecision,
    ) {
        Err(ActionPersistenceLoadError::InvalidActionSnapshot)
    } else if !superseded_premise {
        if request.state == ActionRequestState::Open && created != request {
            Err(ActionPersistenceLoadError::InvalidActionSnapshot)
        } else {
            Ok(seq![create_capsule])
        }
    } else {
        match rows.mark {
            None => Err(ActionPersistenceLoadError::InvalidActionSnapshot),
            Some(mark) => {
                let marked = premise_marked(created, mark.classification@);
                if !decision_rows_ok(
                    mark,
                    request.id,
                    AuditEventCode::ActionRequestSupersededPremiseMarked,
                ) || (request.state == ActionRequestState::Open && marked != request) {
                    Err(ActionPersistenceLoadError::InvalidActionSnapshot)
                } else {
                    Ok(
                        seq![
                            create_capsule,
                            decision_capsule(
                                mark,
                                request.id,
                                AuditEventCode::ActionRequestSupersededPremiseMarked,
                                CommandView::MarkRequestSupersededPremise {
                                    request_id: request.id,
                                    expected_version: 1,
                                    source_decision_id,
                                    classification: mark.classification@,
                                },
                                marked,
                            ),
                        ],
                    )
                }
            },
        }
    }
}

fn check_decision_rows(rows: &DecisionCommandRows, request_id: &String, code: AuditEventCode) -> (ok:
    bool)
    ensures
        ok == decision_rows_ok(*rows, request_id@, code),
{
    let event = &rows.event;
    if !(rows.ordinal >= 0 && str_eq(event.id.as_str(), rows.audit_event_id.as_str())
        && event.occurred_at >= 0 && str_eq(event.actor.as_str(), "head_of_products") && str_eq(
        event.module.as_str(),
        "work_management",
    ) && str_eq(event.event_code.as_str(), code.as_str()) && str_eq(
        event.target_type.as_str(),
        "action_request",
    ) && str_eq(event.target_id.as_str(), request_id.as_str()) && str_eq(
        event.correlation_id.as_str(),
        rows.correlation_id.as_str(),
    ) && str_eq(event.policy_outcome.as_str(), "allowed") && str_eq(
        event.approval_outcome.as_str(),
        "approved",
    ) && str_eq(event.execution_outcome.as_str(), "succeeded") && str_eq(
        event.effect_scope.as_str(),
        "complete",
    ) && rows.effects.len() == 1) {
        return false;
    }
    let effect = &rows.effects[0];
    effect.ordinal == 0 && str_eq(effect.effect_code.as_str(), code.as_str()) && str_eq(
        effect.scope.as_str(),
        "complete",
    ) && str_eq(effect.target_type.as_str(), "action_request") && str_eq(
        effect.target_id.as_str(),
        request_id.as_str(),
    )
}

fn decision_command_capsule(
    rows: &DecisionCommandRows,
    request_id: &String,
    code: AuditEventCode,
    command: ActionPersistenceCommand,
    record: ActionRequestRecord,
) -> (capsule: ActionReplayCapsule)
    requires
        rows.ordinal >= 0,
    ensures
        capsule@ == decision_capsule(*rows, request_id@, code, command@, record@),
{
    let event = AuditEvent {
        id: rows.event.id.clone(),
        occurred_at: rows.event.occurred_at,
        code,
        target: AuditTarget::ActionRequest(request_id.clone()),
        correlation_id: rows.correlation_id.clone(),
    };
    let events = vec![event];
    proof {
        assert(crate::model::audit_views(events@) =~= seq![
            AuditEventView {
                id: rows.event.id@,
                occurred_at: rows.event.occurred_at,
                code,
                target: AuditTargetView::ActionRequest(request_id@),
                correlation_id: rows.correlation_id@,
            },
        ]);
    }
    ActionReplayCapsule {
        idempotency_id: rows.idempotency_id.clone(),
        correlation_id: rows.correlation_id.clone(),
        operation_ordinal: rows.ordinal as u64,
        command,
        result: ActionPersistenceResult::Request(
            ActionMutationOutcome { record, audit_events: events, approval_receipt_id: None },
        ),
    }
}

/// Replays the commands a Decision carried out on `request`, whose own row
/// records the Decision `source_decision_id` and whether its premise was
/// marked superseded, into their capsules.
pub fn replay_decision_sourced_activity(
    request: &ActionRequestRecord,
    source_decision_id: &String,
    superseded_premise: bool,
    rows: &DecisionActivityRows,
) -> (result: Result<Vec<ActionReplayCapsule>, ActionPersistenceLoadError>)
    ensures
        capsules_result_view(result) == decision_activity_model(
            request@,
            source_decision_id@,
            superseded_premise,
            *rows,
        ),
{
    let (owner, due_at) = match (&request.intended_owner, request.intended_action_due_at) {
        (Some(owner), Some(due_at)) => (owner, due_at),
        _ => {
            return Err(ActionPersistenceLoadError::InvalidActionSnapshot);
        },
    };
    let create = &rows.create;
    if !check_decision_rows(create, &request.id, AuditEventCode::ActionRequestCreatedFromDecision) {
        return Err(ActionPersistenceLoadError::InvalidActionSnapshot);
    }
    let mut created = request.clone();
    created.response_due_at = None;
    created.classification = create.classification.clone();
    created.state = ActionRequestState::Open;
    created.version = 1;
    created.terminal_rationale = None;
    created.linked_action_id = None;
    let create_capsule = decision_command_capsule(
        create,
        &request.id,
        AuditEventCode::ActionRequestCreatedFromDecision,
        ActionPersistenceCommand::CreateRequestFromDecision {
            request_id: request.id.clone(),
            subject: request.title.clone(),
            details: request.details.clone(),
            intended_owner: owner.clone(),
            due_at,
            source_decision_id: source_decision_id.clone(),
            classification: create.classification.clone(),
        },
        created.clone(),
    );
    if !superseded_premise {
        if request.state == ActionRequestState::Open && !same_request(&created, request) {
            return Err(ActionPersistenceLoadError::InvalidActionSnapshot);
        }
        let capsules = vec![create_capsule];
        proof {
            assert(capsule_views(capsules@) =~= decision_activity_model(
                request@,
                source_decision_id@,
                superseded_premise,
                *rows,
            )->Ok_0);
        }
        return Ok(capsules);
    }
    let mark = match &rows.mark {
        Some(mark) => mark,
        None => {
            return Err(ActionPersistenceLoadError::InvalidActionSnapshot);
        },
    };
    if !check_decision_rows(mark, &request.id, AuditEventCode::ActionRequestSupersededPremiseMarked) {
        return Err(ActionPersistenceLoadError::InvalidActionSnapshot);
    }
    let mut marked = created.clone();
    marked.version = 2;
    marked.classification = mark.classification.clone();
    if request.state == ActionRequestState::Open && !same_request(&marked, request) {
        return Err(ActionPersistenceLoadError::InvalidActionSnapshot);
    }
    let mark_capsule = decision_command_capsule(
        mark,
        &request.id,
        AuditEventCode::ActionRequestSupersededPremiseMarked,
        ActionPersistenceCommand::MarkRequestSupersededPremise {
            request_id: request.id.clone(),
            expected_version: 1,
            source_decision_id: source_decision_id.clone(),
            classification: mark.classification.clone(),
        },
        marked,
    );
    let capsules = vec![create_capsule, mark_capsule];
    proof {
        assert(capsule_views(capsules@) =~= decision_activity_model(
            request@,
            source_decision_id@,
            superseded_premise,
            *rows,
        )->Ok_0);
    }
    Ok(capsules)
}

/// A request a Decision created is open at version 1 under the creation's
/// classification, with the request's id, title, details, owner and
/// intended due date, and no response due date, rationale or linked
/// Action; marking its premise superseded moves it to version 2 under the
/// mark's classification and changes nothing else.
pub proof fn lemma_decision_request_is_created_then_marked(
    request: ActionRequestView,
    created_classification: Seq<char>,
    marked_classification: Seq<char>,
)
    ensures
        ({
            let created = created_from_decision(request, created_classification);
            let marked = premise_marked(created, marked_classification);
            &&& created.state == ActionRequestState::Open
            &&& created.version == 1
            &&& created.classification == created_classification
            &&& created.response_due_at is None
            &&& created.terminal_rationale is None
            &&& created.linked_action_id is None
            &&& created.id == request.id
            &&& created.title == request.title
            &&& created.details == request.details
            &&& created.intended_owner == request.intended_owner
            &&& created.intended_action_due_at == request.intended_action_due_at
            &&& marked.version == 2
            &&& marked.classification == marked_classification
            &&& marked.state == created.state
            &&& marked.id == created.id
            &&& marked.title == created.title
            &&& marked.details == created.details
            &&& marked.intended_owner == created.intended_owner
            &&& marked.intended_action_due_at == created.intended_action_due_at
            &&& marked.response_due_at == created.response_due_at
            &&& marked.linked_action_id == created.linked_action_id
        }),
{
}

/// Replaying what a Decision carried out on a request gives one capsule per
/// command, in order: first the creation, under the creation rows' key and
/// correlation, recording the request's id, its title as the subject, its
/// details, intended owner and intended due date, the source Decision and
/// the creation's classification, and leaving the request open at version
/// 1 with the creation's audit event; then, where its premise was marked
/// superseded, the mark, under the mark rows' key, recording the request
/// at version 1, the source Decision and the mark's classification, and
/// leaving the request at version 2.
pub proof fn lemma_replayed_decision_activity_is_its_commands(
    request: ActionRequestView,
    source_decision_id: Seq<char>,
    superseded_premise: bool,
    rows: DecisionActivityRows,
)
    requires
        decision_activity_model(request, source_decision_id, superseded_premise, rows) is Ok,
    ensures
        ({
            let capsules = decision_activity_model(
                request,
                source_decision_id,
                superseded_premise,
                rows,
            )->Ok_0;
            let create = rows.create;
            &&& capsules.len() == if superseded_premise {
                2int
            } else {
                1int
            }
            &&& request.intended_owner is Some
            &&& request.intended_action_due_at is Some
            &&& capsules[0].idempotency_id == create.idempotency_id@
            &&& capsules[0].correlation_id == create.correlation_id@
            &&& capsules[0].command == CommandView::CreateRequestFromDecision {
                request_id: request.id,
                subject: request.title,
                details: request.details,
                intended_owner: request.intended_owner->Some_0,
                due_at: request.intended_action_due_at->Some_0,
                source_decision_id,
                classification: create.classification@,
            }
            &&& match capsules[0].result {
                ResultView::Request(outcome) => {
                    &&& outcome.record.id == request.id
                    &&& outcome.record.state == ActionRequestState::Open
                    &&& outcome.record.version == 1
                    &&& outcome.audit_events.len() == 1
                    &&& outcome.audit_events[0].id == create.event.id@
                },
                _ => false,
            }
            &&& superseded_premise ==> {
                &&& rows.mark is Some
                &&& capsules[1].idempotency_id == rows.mark->Some_0.idempotency_id@
                &&& capsules[1].command == CommandView::MarkRequestSupersededPremise {
                    request_id: request.id,
                    expected_version: 1,
                    source_decision_id,
                    classification: rows.mark->Some_0.classification@,
                }
                &&& match capsules[1].result {
                    ResultView::Request(outcome) => outcome.record.version == 2,
                    _ => false,
                }
            }
        }),
{
}

} // verus!
