//! Laws of the Action namespace commands, stated over their models.

use vstd::prelude::*;
use crate::errors::{
    allowed_next_intents, plain_error_view, request_conflict_view, DomainErrorKind, DomainErrorView,
};
use crate::ledger::{
    action_index, create_model, decline_model, load_model, CURRENT_SCHEMA_VERSION, evidence_index, ledger_wf, link_model, next_ordinal,
    replay_index, request_index, start_model, submit_model, transition_request_model,
    withdraw_model, LedgerView,
};
use crate::model::{
    ActionRequestView, ActionView, AuditEventCode, CapsuleView, CommandView, OutcomeView, CreateActionRequestDraft, DeclineActionRequest, LinkActionCompletionEvidence,
    ResultView, StartAction, SubmitActionRequest, WithdrawActionRequest,
};
use crate::states::ActionRequestState;
use crate::action_events::{
    action_event_capsule, link_event_model, start_event_model, ActionAuditRows, ActionEventRow,
};
use crate::load_error::ActionPersistenceLoadError;
use crate::text::opt_string;

verus! {

/// A capsule appended under a key not yet recorded is found under that key.
pub(crate) proof fn lemma_replay_index_pushed(replay: Seq<CapsuleView>, capsule: CapsuleView)
    requires
        replay_index(replay, capsule.idempotency_id) is None,
    ensures
        replay_index(replay.push(capsule), capsule.idempotency_id) == Some(replay.len() as int),
{
    let pushed = replay.push(capsule);
    assert(pushed[replay.len() as int].idempotency_id == capsule.idempotency_id);
    let k = choose|k: int| 0 <= k < pushed.len() && pushed[k].idempotency_id == capsule.idempotency_id;
    if k < replay.len() {
        assert(pushed[k] == replay[k]);
    }
}

/// Whether `after` is `before` with exactly one more recorded command, under
/// `key`, at an ordinal above every earlier one, recording `result`, and
/// with the revision advanced by one.
pub open spec fn records_one_command(
    before: LedgerView,
    after: LedgerView,
    key: Seq<char>,
    result: ResultView,
) -> bool {
    let replay = before.snapshot.replay;
    &&& after.revision == before.revision + 1
    &&& after.schema_version == before.schema_version
    &&& after.evidence == before.evidence
    &&& after.snapshot.replay.len() == replay.len() + 1
    &&& after.snapshot.replay.drop_last() == replay
    &&& after.snapshot.replay.last().idempotency_id == key
    &&& after.snapshot.replay.last().result == result
    &&& forall|i: int| 0 <= i < replay.len() ==> #[trigger] replay[i].operation_ordinal
        < after.snapshot.replay.last().operation_ordinal
}

pub(crate) proof fn lemma_next_ordinal_above(replay: Seq<CapsuleView>, ordinal: u64)
    requires
        crate::ledger::ordinals_increasing(replay),
        next_ordinal(replay) == Some(ordinal),
    ensures
        forall|i: int| 0 <= i < replay.len() ==> #[trigger] replay[i].operation_ordinal < ordinal,
{
    assert forall|i: int| 0 <= i < replay.len() implies #[trigger] replay[i].operation_ordinal
        < ordinal by {
        if i < replay.len() - 1 {
            assert(replay[i].operation_ordinal < replay[replay.len() - 1].operation_ordinal);
        }
    }
}

/// Replaying a request transition: once moving a request succeeded under a
/// key, sending the same move again under that key (with any audit id,
/// time and correlation) returns the same outcome and changes nothing; and
/// the first success recorded exactly one command, above every earlier
/// ordinal, at the next revision.
pub proof fn lemma_transition_request_replays(
    ledger: LedgerView,
    key: Seq<char>,
    correlation: Seq<char>,
    request_id: Seq<char>,
    expected_version: u64,
    target: ActionRequestState,
    rationale: Option<Seq<char>>,
    audit_id: Seq<char>,
    occurred_at: i64,
    retry_correlation: Seq<char>,
    retry_audit_id: Seq<char>,
    retry_occurred_at: i64,
)
    requires
        ledger_wf(ledger),
        transition_request_model(
            ledger,
            key,
            correlation,
            request_id,
            expected_version,
            target,
            rationale,
            audit_id,
            occurred_at,
        ).0 is Ok,
    ensures
        ({
            let (result, after) = transition_request_model(
                ledger,
                key,
                correlation,
                request_id,
                expected_version,
                target,
                rationale,
                audit_id,
                occurred_at,
            );
            &&& transition_request_model(
                after,
                key,
                retry_correlation,
                request_id,
                expected_version,
                target,
                rationale,
                retry_audit_id,
                retry_occurred_at,
            ) == (result, after)
            &&& replay_index(ledger.snapshot.replay, key) is None ==> records_one_command(
                ledger,
                after,
                key,
                ResultView::Request(result->Ok_0),
            )
        }),
{
    let replay = ledger.snapshot.replay;
    if replay_index(replay, key) is None {
        let (result, after) = transition_request_model(
            ledger,
            key,
            correlation,
            request_id,
            expected_version,
            target,
            rationale,
            audit_id,
            occurred_at,
        );
        let capsule = after.snapshot.replay.last();
        assert(after.snapshot.replay == replay.push(capsule));
        lemma_replay_index_pushed(replay, capsule);
        lemma_next_ordinal_above(replay, capsule.operation_ordinal);
        assert(after.snapshot.replay.drop_last() =~= replay);
    }
}

/// Replaying a submit returns the recorded outcome and changes nothing.
pub proof fn lemma_submit_replays(
    ledger: LedgerView,
    command: SubmitActionRequest,
    audit_id: Seq<char>,
    occurred_at: i64,
    retry_audit_id: Seq<char>,
    retry_occurred_at: i64,
)
    requires
        ledger_wf(ledger),
        submit_model(ledger, command, audit_id, occurred_at).0 is Ok,
    ensures
        ({
            let (result, after) = submit_model(ledger, command, audit_id, occurred_at);
            submit_model(after, command, retry_audit_id, retry_occurred_at) == (result, after)
        }),
{
    lemma_transition_request_replays(
        ledger,
        command.context.idempotency_id@,
        command.context.correlation_id@,
        command.request_id@,
        command.expected_version,
        ActionRequestState::Open,
        None,
        audit_id,
        occurred_at,
        command.context.correlation_id@,
        retry_audit_id,
        retry_occurred_at,
    );
}

/// Replaying a decline returns the recorded outcome and changes nothing.
pub proof fn lemma_decline_replays(
    ledger: LedgerView,
    command: DeclineActionRequest,
    audit_id: Seq<char>,
    occurred_at: i64,
    retry_audit_id: Seq<char>,
    retry_occurred_at: i64,
)
    requires
        ledger_wf(ledger),
        decline_model(ledger, command, audit_id, occurred_at).0 is Ok,
    ensures
        ({
            let (result, after) = decline_model(ledger, command, audit_id, occurred_at);
            decline_model(after, command, retry_audit_id, retry_occurred_at) == (result, after)
        }),
{
    lemma_transition_request_replays(
        ledger,
        command.context.idempotency_id@,
        command.context.correlation_id@,
        command.request_id@,
        command.expected_version,
        ActionRequestState::Declined,
        Some(command.rationale@),
        audit_id,
        occurred_at,
        command.context.correlation_id@,
        retry_audit_id,
        retry_occurred_at,
    );
}

/// Replaying a withdrawal returns the recorded outcome and changes nothing.
pub proof fn lemma_withdraw_replays(
    ledger: LedgerView,
    command: WithdrawActionRequest,
    audit_id: Seq<char>,
    occurred_at: i64,
    retry_audit_id: Seq<char>,
    retry_occurred_at: i64,
)
    requires
        ledger_wf(ledger),
        withdraw_model(ledger, command, audit_id, occurred_at).0 is Ok,
    ensures
        ({
            let (result, after) = withdraw_model(ledger, command, audit_id, occurred_at);
            withdraw_model(after, command, retry_audit_id, retry_occurred_at) == (result, after)
        }),
{
    lemma_transition_request_replays(
        ledger,
        command.context.idempotency_id@,
        command.context.correlation_id@,
        command.request_id@,
        command.expected_version,
        ActionRequestState::Withdrawn,
        Some(command.rationale@),
        audit_id,
        occurred_at,
        command.context.correlation_id@,
        retry_audit_id,
        retry_occurred_at,
    );
}

/// Replaying a create returns the recorded outcome and changes nothing;
/// the first success recorded exactly one command at the next revision.
pub proof fn lemma_create_replays(
    ledger: LedgerView,
    command: CreateActionRequestDraft,
    audit_id: Seq<char>,
    occurred_at: i64,
    retry_audit_id: Seq<char>,
    retry_occurred_at: i64,
)
    requires
        ledger_wf(ledger),
        create_model(ledger, command, audit_id, occurred_at).0 is Ok,
    ensures
        ({
            let (result, after) = create_model(ledger, command, audit_id, occurred_at);
            &&& create_model(after, command, retry_audit_id, retry_occurred_at) == (result, after)
            &&& replay_index(ledger.snapshot.replay, command.context.idempotency_id@) is None
                ==> records_one_command(
                ledger,
                after,
                command.context.idempotency_id@,
                ResultView::Request(result->Ok_0),
            )
        }),
{
    let replay = ledger.snapshot.replay;
    let key = command.context.idempotency_id@;
    if replay_index(replay, key) is None {
        let (result, after) = create_model(ledger, command, audit_id, occurred_at);
        let capsule = after.snapshot.replay.last();
        assert(after.snapshot.replay == replay.push(capsule));
        lemma_replay_index_pushed(replay, capsule);
        lemma_next_ordinal_above(replay, capsule.operation_ordinal);
        assert(after.snapshot.replay.drop_last() =~= replay);
    }
}

/// Replaying a start returns the recorded outcome and changes nothing;
/// the first success recorded exactly one command at the next revision.
pub proof fn lemma_start_replays(
    ledger: LedgerView,
    command: StartAction,
    audit_id: Seq<char>,
    occurred_at: i64,
    retry_audit_id: Seq<char>,
    retry_occurred_at: i64,
)
    requires
        ledger_wf(ledger),
        start_model(ledger, command, audit_id, occurred_at).0 is Ok,
    ensures
        ({
            let (result, after) = start_model(ledger, command, audit_id, occurred_at);
            &&& start_model(after, command, retry_audit_id, retry_occurred_at) == (result, after)
            &&& replay_index(ledger.snapshot.replay, command.context.idempotency_id@) is None
                ==> records_one_command(
                ledger,
                after,
                command.context.idempotency_id@,
                ResultView::Action(result->Ok_0),
            )
        }),
{
    let replay = ledger.snapshot.replay;
    let key = command.context.idempotency_id@;
    if replay_index(replay, key) is None {
        let (result, after) = start_model(ledger, command, audit_id, occurred_at);
        let capsule = after.snapshot.replay.last();
        assert(after.snapshot.replay == replay.push(capsule));
        lemma_replay_index_pushed(replay, capsule);
        lemma_next_ordinal_above(replay, capsule.operation_ordinal);
        assert(after.snapshot.replay.drop_last() =~= replay);
    }
}

/// Replaying a link returns the recorded outcome and changes nothing; the
/// first success recorded exactly one command at the next revision.
pub proof fn lemma_link_replays(
    ledger: LedgerView,
    command: LinkActionCompletionEvidence,
    audit_id: Seq<char>,
    occurred_at: i64,
    retry_audit_id: Seq<char>,
    retry_occurred_at: i64,
)
    requires
        ledger_wf(ledger),
        link_model(ledger, command, audit_id, occurred_at).0 is Ok,
    ensures
        ({
            let (result, after) = link_model(ledger, command, audit_id, occurred_at);
            &&& link_model(after, command, retry_audit_id, retry_occurred_at) == (result, after)
            &&& replay_index(ledger.snapshot.replay, command.context.idempotency_id@) is None
                ==> records_one_command(
                ledger,
                after,
                command.context.idempotency_id@,
                ResultView::Action(result->Ok_0),
            )
        }),
{
    let replay = ledger.snapshot.replay;
    let key = command.context.idempotency_id@;
    if replay_index(replay, key) is None {
        let (result, after) = link_model(ledger, command, audit_id, occurred_at);
        let capsule = after.snapshot.replay.last();
        assert(after.snapshot.replay == replay.push(capsule));
        lemma_replay_index_pushed(replay, capsule);
        lemma_next_ordinal_above(replay, capsule.operation_ordinal);
        assert(after.snapshot.replay.drop_last() =~= replay);
    }
}

/// A refused command changes nothing: whenever a command returns an error,
/// the ledger after it is the ledger before it.
pub proof fn lemma_refusals_change_nothing(
    ledger: LedgerView,
    create: CreateActionRequestDraft,
    submit: SubmitActionRequest,
    decline: DeclineActionRequest,
    withdraw: WithdrawActionRequest,
    start: StartAction,
    link: LinkActionCompletionEvidence,
    audit_id: Seq<char>,
    occurred_at: i64,
)
    ensures
        create_model(ledger, create, audit_id, occurred_at).0 is Err ==> create_model(
            ledger,
            create,
            audit_id,
            occurred_at,
        ).1 == ledger,
        submit_model(ledger, submit, audit_id, occurred_at).0 is Err ==> submit_model(
            ledger,
            submit,
            audit_id,
            occurred_at,
        ).1 == ledger,
        decline_model(ledger, decline, audit_id, occurred_at).0 is Err ==> decline_model(
            ledger,
            decline,
            audit_id,
            occurred_at,
        ).1 == ledger,
        withdraw_model(ledger, withdraw, audit_id, occurred_at).0 is Err ==> withdraw_model(
            ledger,
            withdraw,
            audit_id,
            occurred_at,
        ).1 == ledger,
        start_model(ledger, start, audit_id, occurred_at).0 is Err ==> start_model(
            ledger,
            start,
            audit_id,
            occurred_at,
        ).1 == ledger,
        link_model(ledger, link, audit_id, occurred_at).0 is Err ==> link_model(
            ledger,
            link,
            audit_id,
            occurred_at,
        ).1 == ledger,
{
}

/// Idempotency is global across the namespace: a key recorded for one
/// kind of command is refused as an idempotency conflict by every command
/// of another kind, which then changes nothing.
pub proof fn lemma_key_of_other_command_conflicts(
    ledger: LedgerView,
    create: CreateActionRequestDraft,
    submit: SubmitActionRequest,
    start: StartAction,
    link: LinkActionCompletionEvidence,
    audit_id: Seq<char>,
    occurred_at: i64,
)
    ensures
        replay_index(ledger.snapshot.replay, create.context.idempotency_id@) matches Some(i)
            && ledger.snapshot.replay[i].command !is CreateRequest ==> create_model(
            ledger,
            create,
            audit_id,
            occurred_at,
        ) == (
            Err::<OutcomeView<ActionRequestView>, DomainErrorView>(plain_error_view(DomainErrorKind::IdempotencyConflict, create.context.correlation_id@)),
            ledger,
        ),
        replay_index(ledger.snapshot.replay, submit.context.idempotency_id@) matches Some(i)
            && ledger.snapshot.replay[i].command !is TransitionRequest ==> submit_model(
            ledger,
            submit,
            audit_id,
            occurred_at,
        ) == (
            Err::<OutcomeView<ActionRequestView>, DomainErrorView>(plain_error_view(DomainErrorKind::IdempotencyConflict, submit.context.correlation_id@)),
            ledger,
        ),
        replay_index(ledger.snapshot.replay, start.context.idempotency_id@) matches Some(i)
            && ledger.snapshot.replay[i].command !is StartAction ==> start_model(
            ledger,
            start,
            audit_id,
            occurred_at,
        ) == (
            Err::<OutcomeView<ActionView>, DomainErrorView>(plain_error_view(DomainErrorKind::IdempotencyConflict, start.context.correlation_id@)),
            ledger,
        ),
        replay_index(ledger.snapshot.replay, link.context.idempotency_id@) matches Some(i)
            && ledger.snapshot.replay[i].command !is LinkCompletionEvidence ==> link_model(
            ledger,
            link,
            audit_id,
            occurred_at,
        ) == (
            Err::<OutcomeView<ActionView>, DomainErrorView>(plain_error_view(DomainErrorKind::IdempotencyConflict, link.context.correlation_id@)),
            ledger,
        ),
{
}

/// Nothing leaves a terminal request: an accepted, declined or withdrawn
/// Action Request refuses every transition not already recorded under the
/// key, reporting its version and state and no allowed next intent.
pub proof fn lemma_terminal_request_refuses_transitions(
    ledger: LedgerView,
    key: Seq<char>,
    correlation: Seq<char>,
    request_id: Seq<char>,
    expected_version: u64,
    target: ActionRequestState,
    rationale: Option<Seq<char>>,
    audit_id: Seq<char>,
    occurred_at: i64,
)
    requires
        replay_index(ledger.snapshot.replay, key) is None,
        request_index(ledger.snapshot.requests, request_id) matches Some(j)
            && ledger.snapshot.requests[j].state.is_terminal(),
    ensures
        ({
            let j = request_index(ledger.snapshot.requests, request_id)->Some_0;
            let request = ledger.snapshot.requests[j];
            &&& transition_request_model(
                ledger,
                key,
                correlation,
                request_id,
                expected_version,
                target,
                rationale,
                audit_id,
                occurred_at,
            ) == (
                Err::<OutcomeView<ActionRequestView>, DomainErrorView>(
                    request_conflict_view(correlation, request.version, request.state),
                ),
                ledger,
            )
            &&& allowed_next_intents(request.state).len() == 0
        }),
{
}

/// Linking needs registered evidence: a link not already recorded under
/// its key never succeeds for evidence that is not registered.
pub proof fn lemma_link_needs_registered_evidence(
    ledger: LedgerView,
    command: LinkActionCompletionEvidence,
    audit_id: Seq<char>,
    occurred_at: i64,
)
    requires
        replay_index(ledger.snapshot.replay, command.context.idempotency_id@) is None,
        evidence_index(ledger.evidence, command.evidence_id@) is None,
    ensures
        link_model(ledger, command, audit_id, occurred_at).0 is Ok ==> false,
{
}

/// A recorded start replays as it was recorded: the rows that persist a
/// start the ledger applied (its key, correlation and ordinal, its Action
/// and version, its one audit event with its one effect) decode to the
/// capsule it recorded and the Action it left.
pub proof fn lemma_recorded_start_replays(
    ledger: LedgerView,
    command: StartAction,
    audit_id: Seq<char>,
    occurred_at: i64,
    row: ActionEventRow,
    audit: ActionAuditRows,
)
    requires
        ledger_wf(ledger),
        replay_index(ledger.snapshot.replay, command.context.idempotency_id@) is None,
        start_model(ledger, command, audit_id, occurred_at).0 is Ok,
        row.idempotency_id@ == command.context.idempotency_id@,
        row.correlation_id@ == command.context.correlation_id@,
        row.ordinal == next_ordinal(ledger.snapshot.replay)->Some_0,
        row.action_id@ == command.action_id@,
        row.expected_version == command.expected_version,
        audit.id@ == audit_id,
        audit.occurred_at == occurred_at,
        audit.correlation_id@ == command.context.correlation_id@,
        audit.effects@.len() == 1,
        audit.effects@[0].ordinal == 0,
        audit.effects@[0].effect_code@ == AuditEventCode::ActionStarted.spec_text(),
        audit.effects@[0].scope@ == "complete"@,
        audit.effects@[0].target_type@ == "action"@,
        audit.effects@[0].target_id@ == command.action_id@,
    ensures
        ({
            let after = start_model(ledger, command, audit_id, occurred_at).1;
            start_event_model(ledger.snapshot.actions, row, audit) == Ok::<
                (Seq<ActionView>, CapsuleView),
                ActionPersistenceLoadError,
            >((after.snapshot.actions, after.snapshot.replay.last()))
        }),
{
    let after = start_model(ledger, command, audit_id, occurred_at).1;
    let j = action_index(ledger.snapshot.actions, command.action_id@)->Some_0;
    assert(ledger.snapshot.actions[j].version >= 1);
    assert(after.snapshot.replay.last() == action_event_capsule(
        row,
        audit,
        AuditEventCode::ActionStarted,
        CommandView::StartAction {
            action_id: row.action_id@,
            expected_version: row.expected_version as u64,
        },
        after.snapshot.actions[j],
    ));
}

/// A recorded completion-evidence link replays as it was recorded: the
/// rows that persist a link the ledger applied, with the classification
/// the evidence was registered under, decode to the capsule it recorded
/// and the Action it left.
pub proof fn lemma_recorded_link_replays(
    ledger: LedgerView,
    command: LinkActionCompletionEvidence,
    audit_id: Seq<char>,
    occurred_at: i64,
    row: ActionEventRow,
    audit: ActionAuditRows,
)
    requires
        ledger_wf(ledger),
        replay_index(ledger.snapshot.replay, command.context.idempotency_id@) is None,
        link_model(ledger, command, audit_id, occurred_at).0 is Ok,
        row.idempotency_id@ == command.context.idempotency_id@,
        row.correlation_id@ == command.context.correlation_id@,
        row.ordinal == next_ordinal(ledger.snapshot.replay)->Some_0,
        row.action_id@ == command.action_id@,
        row.expected_version == command.expected_version,
        row.evidence_id@ == command.evidence_id@,
        row.evidence_classification@ == ledger.evidence[evidence_index(
            ledger.evidence,
            command.evidence_id@,
        )->Some_0].classification,
        audit.id@ == audit_id,
        audit.occurred_at == occurred_at,
        audit.correlation_id@ == command.context.correlation_id@,
        audit.effects@.len() == 1,
        audit.effects@[0].ordinal == 0,
        audit.effects@[0].effect_code@ == AuditEventCode::ActionCompletionEvidenceLinked.spec_text(),
        audit.effects@[0].scope@ == "complete"@,
        audit.effects@[0].target_type@ == "action"@,
        audit.effects@[0].target_id@ == command.action_id@,
    ensures
        ({
            let after = link_model(ledger, command, audit_id, occurred_at).1;
            link_event_model(ledger.snapshot.actions, row, audit) == Ok::<
                (Seq<ActionView>, CapsuleView),
                ActionPersistenceLoadError,
            >((after.snapshot.actions, after.snapshot.replay.last()))
        }),
{
    let after = link_model(ledger, command, audit_id, occurred_at).1;
    let j = action_index(ledger.snapshot.actions, command.action_id@)->Some_0;
    assert(ledger.snapshot.actions[j].version >= 1);
    assert(after.snapshot.replay.last() == action_event_capsule(
        row,
        audit,
        AuditEventCode::ActionCompletionEvidenceLinked,
        CommandView::LinkCompletionEvidence {
            action_id: row.action_id@,
            expected_version: row.expected_version as u64,
            evidence_id: row.evidence_id@,
            evidence_classification: row.evidence_classification@,
        },
        after.snapshot.actions[j],
    ));
}

/// What a read gives back of a creation: after a draft is created under a
/// fresh key in a store at the current schema, loading the Action
/// namespace succeeds and finds, under the command's id, the newest request
/// exactly as created: the command's title, details, intended owner, both
/// due dates and classification, a draft at version 1.
pub proof fn lemma_load_reads_back_the_created_draft(
    ledger: LedgerView,
    command: CreateActionRequestDraft,
    audit_id: Seq<char>,
    occurred_at: i64,
)
    requires
        ledger.schema_version == CURRENT_SCHEMA_VERSION,
        replay_index(ledger.snapshot.replay, command.context.idempotency_id@) is None,
        create_model(ledger, command, audit_id, occurred_at).0 is Ok,
    ensures
        ({
            let (result, after) = create_model(ledger, command, audit_id, occurred_at);
            let n = ledger.snapshot.requests.len() as int;
            &&& load_model(after) is Ok
            &&& request_index(load_model(after)->Ok_0.requests, command.id@) == Some(n)
            &&& load_model(after)->Ok_0.requests[n] == result->Ok_0.record
            &&& {
                let read = load_model(after)->Ok_0.requests[n];
                &&& read.id == command.id@
                &&& read.title == command.title@
                &&& read.details == command.details@
                &&& read.intended_owner == opt_string(command.intended_owner)
                &&& read.response_due_at == command.response_due_at
                &&& read.intended_action_due_at == command.intended_action_due_at
                &&& read.classification == command.classification@
                &&& read.state == ActionRequestState::Draft
                &&& read.version == 1
            }
        }),
{
    let requests = ledger.snapshot.requests;
    let after = create_model(ledger, command, audit_id, occurred_at).1;
    let n = requests.len() as int;
    let read = after.snapshot.requests;
    assert(request_index(requests, command.id@) is None);
    assert(read[n].id == command.id@);
    let i = request_index(read, command.id@)->Some_0;
    if i != n {
        assert(read[i] == requests[i]);
        assert(false);
    }
}

/// What a read gives back of a withdrawal: after an open request is
/// withdrawn under a fresh key in a well-formed store at the current
/// schema, loading the Action namespace succeeds and finds the request,
/// at the place it had, withdrawn at version 3 with the command's
/// rationale.
pub proof fn lemma_load_reads_back_the_withdrawal(
    ledger: LedgerView,
    command: WithdrawActionRequest,
    audit_id: Seq<char>,
    occurred_at: i64,
)
    requires
        ledger_wf(ledger),
        ledger.schema_version == CURRENT_SCHEMA_VERSION,
        replay_index(ledger.snapshot.replay, command.context.idempotency_id@) is None,
        withdraw_model(ledger, command, audit_id, occurred_at).0 is Ok,
    ensures
        ({
            let after = withdraw_model(ledger, command, audit_id, occurred_at).1;
            let j = request_index(ledger.snapshot.requests, command.request_id@)->Some_0;
            &&& load_model(after) is Ok
            &&& request_index(load_model(after)->Ok_0.requests, command.request_id@) == Some(j)
            &&& load_model(after)->Ok_0.requests[j].state == ActionRequestState::Withdrawn
            &&& load_model(after)->Ok_0.requests[j].version == 3
            &&& load_model(after)->Ok_0.requests[j].terminal_rationale == Some(command.rationale@)
        }),
{
    let requests = ledger.snapshot.requests;
    let after = withdraw_model(ledger, command, audit_id, occurred_at).1;
    let j = request_index(requests, command.request_id@)->Some_0;
    let read = after.snapshot.requests;
    assert(read.len() == requests.len());
    assert(read[j].id == command.request_id@);
    let i = request_index(read, command.request_id@)->Some_0;
    if i != j {
        assert(read[i] == requests[i]);
        assert(requests[j].id == command.request_id@);
        assert(false);
    }
}

} // verus!
