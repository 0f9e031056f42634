//! Laws of the H2a approval commands, stated over their models.

use vstd::prelude::*;
use crate::approvals::{
    consumed_receipt, conflict_view, execute_accept_model, operation_action_id, persistence_view, execute_action_model, prepare_accept_model,
    prepare_lower_model, prepare_transition_model, prepared_index, reject_model,
    with_discarded, without_prepared, ApprovalView, DecisionView, PrepareCancelAction,
    PrepareCompleteAction, PrepareReopenAction,
};
use crate::errors::DomainErrorView;
use crate::laws::{lemma_next_ordinal_above, lemma_replay_index_pushed, records_one_command};
use crate::ledger::{
    action_index, ledger_wf, prepared_ids_distinct, replay_index, request_index, LedgerView,
};
use crate::states::{ActionRequestState, ActionState};
use crate::model::{
    AcceptedOutcomeView, ActionView, AuditTargetView, CommandView, DiscardedView, HumanJudgmentView, OutcomeView, PreparedOperationView, PreparedIntentKind, PreparedIntentView,
    RejectedOutcomeView, ResultView, TransitionDetailsView,
};

verus! {

/// Once a preview `id` left the pending ones, it is not pending.
proof fn lemma_without_prepared(prepared: Seq<PreparedIntentView>, id: Seq<char>)
    requires
        prepared_ids_distinct(prepared),
    ensures
        prepared_index(without_prepared(prepared, id), id) is None,
{
    let remaining = without_prepared(prepared, id);
    if let Some(k) = prepared_index(prepared, id) {
        assert forall|i: int| 0 <= i < remaining.len() implies #[trigger] remaining[i].id != id by {
            let a = if i < k { i } else { i + 1 };
            assert(remaining[i] == prepared[a]);
            assert(prepared[k].id == id);
        }
    }
}

/// A preview appended to the pending ones is pending.
proof fn lemma_prepared_pushed(prepared: Seq<PreparedIntentView>, intent: PreparedIntentView)
    ensures
        prepared_index(prepared.push(intent), intent.id) is Some,
{
    assert(prepared.push(intent)[prepared.len() as int].id == intent.id);
}

/// Replaying a prepared acceptance: once a preview was prepared under a
/// key, sending the same command with the same preview again under that
/// key returns the same preview and changes nothing, whatever the
/// canonical check would now say; sending another preview under that key
/// is an idempotency conflict.  The first preparation recorded exactly one
/// command at the next revision and left the preview pending.
pub proof fn lemma_prepare_accept_replays(
    ledger: LedgerView,
    key: Seq<char>,
    correlation: Seq<char>,
    request_id: Seq<char>,
    expected_version: u64,
    lifetime: i64,
    prepared: PreparedIntentView,
    canonical: Option<PreparedIntentView>,
    retry_correlation: Seq<char>,
    retry_canonical: Option<PreparedIntentView>,
    other: PreparedIntentView,
)
    requires
        ledger_wf(ledger),
        prepare_accept_model(
            ledger,
            key,
            correlation,
            request_id,
            expected_version,
            lifetime,
            prepared,
            canonical,
        ).0 is Ok,
        other != prepared,
    ensures
        ({
            let (result, after) = prepare_accept_model(
                ledger,
                key,
                correlation,
                request_id,
                expected_version,
                lifetime,
                prepared,
                canonical,
            );
            &&& result == Ok::<PreparedIntentView, DomainErrorView>(prepared)
            &&& prepare_accept_model(
                after,
                key,
                retry_correlation,
                request_id,
                expected_version,
                lifetime,
                prepared,
                retry_canonical,
            ) == (result, after)
            &&& prepare_accept_model(
                after,
                key,
                retry_correlation,
                request_id,
                expected_version,
                lifetime,
                other,
                retry_canonical,
            ) == (Err::<PreparedIntentView, DomainErrorView>(conflict_view(retry_correlation)), after)
            &&& replay_index(ledger.snapshot.replay, key) is None ==> {
                &&& records_one_command(ledger, after, key, ResultView::Prepared(prepared))
                &&& prepared_index(after.snapshot.prepared, prepared.id) is Some
            }
        }),
{
    let replay = ledger.snapshot.replay;
    if replay_index(replay, key) is None {
        let after = prepare_accept_model(
            ledger,
            key,
            correlation,
            request_id,
            expected_version,
            lifetime,
            prepared,
            canonical,
        ).1;
        let capsule = after.snapshot.replay.last();
        assert(after.snapshot.replay == replay.push(capsule));
        lemma_replay_index_pushed(replay, capsule);
        lemma_next_ordinal_above(replay, capsule.operation_ordinal);
        assert(after.snapshot.replay.drop_last() =~= replay);
        lemma_prepared_pushed(ledger.snapshot.prepared, prepared);
    }
}

/// Replaying a prepared lowering: the same command with the same preview
/// under the key returns the same preview and changes nothing; another
/// preview under that key is an idempotency conflict.
pub proof fn lemma_prepare_lower_replays(
    ledger: LedgerView,
    key: Seq<char>,
    correlation: Seq<char>,
    action_id: Seq<char>,
    expected_version: u64,
    proposed: Seq<char>,
    rationale: Seq<char>,
    prepared: PreparedIntentView,
    retry_correlation: Seq<char>,
    other: PreparedIntentView,
)
    requires
        ledger_wf(ledger),
        prepare_lower_model(
            ledger,
            key,
            correlation,
            action_id,
            expected_version,
            proposed,
            rationale,
            prepared,
        ).0 is Ok,
        other != prepared,
    ensures
        ({
            let (result, after) = prepare_lower_model(
                ledger,
                key,
                correlation,
                action_id,
                expected_version,
                proposed,
                rationale,
                prepared,
            );
            &&& result == Ok::<PreparedIntentView, DomainErrorView>(prepared)
            &&& prepare_lower_model(
                after,
                key,
                retry_correlation,
                action_id,
                expected_version,
                proposed,
                rationale,
                prepared,
            ) == (result, after)
            &&& prepare_lower_model(
                after,
                key,
                retry_correlation,
                action_id,
                expected_version,
                proposed,
                rationale,
                other,
            ) == (Err::<PreparedIntentView, DomainErrorView>(conflict_view(retry_correlation)), after)
            &&& replay_index(ledger.snapshot.replay, key) is None ==> {
                &&& records_one_command(ledger, after, key, ResultView::Prepared(prepared))
                &&& prepared_index(after.snapshot.prepared, prepared.id) is Some
            }
        }),
{
    let replay = ledger.snapshot.replay;
    if replay_index(replay, key) is None {
        let after = prepare_lower_model(
            ledger,
            key,
            correlation,
            action_id,
            expected_version,
            proposed,
            rationale,
            prepared,
        ).1;
        let capsule = after.snapshot.replay.last();
        assert(after.snapshot.replay == replay.push(capsule));
        lemma_replay_index_pushed(replay, capsule);
        lemma_next_ordinal_above(replay, capsule.operation_ordinal);
        assert(after.snapshot.replay.drop_last() =~= replay);
        lemma_prepared_pushed(ledger.snapshot.prepared, prepared);
    }
}

/// Replaying a preparation of a completion, cancellation or reopening:
/// once a preview was prepared under a key, the same preparation of the
/// same kind under that key returns the recorded preview, whatever the
/// domain would now decide, and changes nothing.  A denial is not recorded
/// at all: it leaves the ledger as it was.
pub proof fn lemma_prepare_transition_replays(
    ledger: LedgerView,
    key: Seq<char>,
    correlation: Seq<char>,
    kind: PreparedIntentKind,
    action_id: Seq<char>,
    expected_version: u64,
    details: TransitionDetailsView,
    decision: Result<PreparedIntentView, DomainErrorView>,
    retry_correlation: Seq<char>,
    retry_action_id: Seq<char>,
    retry_version: u64,
    retry_details: TransitionDetailsView,
    retry_decision: Result<PreparedIntentView, DomainErrorView>,
)
    requires
        ledger_wf(ledger),
        replay_index(ledger.snapshot.replay, key) is None,
    ensures
        ({
            let (result, after) = prepare_transition_model(
                ledger,
                key,
                correlation,
                kind,
                action_id,
                expected_version,
                details,
                decision,
            );
            &&& decision is Err ==> after == ledger && result is Err
            &&& after != ledger ==> {
                &&& result == decision
                &&& prepare_transition_model(
                    after,
                    key,
                    retry_correlation,
                    kind,
                    retry_action_id,
                    retry_version,
                    retry_details,
                    retry_decision,
                ) == (result, after)
                &&& records_one_command(
                    ledger,
                    after,
                    key,
                    ResultView::Prepared(decision->Ok_0),
                )
            }
        }),
{
    let replay = ledger.snapshot.replay;
    let after = prepare_transition_model(
        ledger,
        key,
        correlation,
        kind,
        action_id,
        expected_version,
        details,
        decision,
    ).1;
    if after != ledger {
        let capsule = after.snapshot.replay.last();
        assert(after.snapshot.replay == replay.push(capsule));
        lemma_replay_index_pushed(replay, capsule);
        lemma_next_ordinal_above(replay, capsule.operation_ordinal);
        assert(after.snapshot.replay.drop_last() =~= replay);
    }
}

/// Replaying a rejection: once a preview was rejected under a key, the same
/// rejection under that key returns the recorded outcome, whatever the
/// domain would now decide, and changes nothing; the same key used to
/// reject another preview, or by another actor, is an idempotency
/// conflict.  The rejection moved the preview from the pending ones to the
/// discarded ones and recorded exactly one command.
pub proof fn lemma_reject_replays_and_consumes(
    ledger: LedgerView,
    key: Seq<char>,
    correlation: Seq<char>,
    prepared_id: Seq<char>,
    actor: Seq<char>,
    audit_event_id: Seq<char>,
    occurred_at: i64,
    decision: Result<RejectedOutcomeView, DomainErrorView>,
    retry_correlation: Seq<char>,
    retry_decision: Result<RejectedOutcomeView, DomainErrorView>,
    other_prepared_id: Seq<char>,
    other_actor: Seq<char>,
)
    requires
        ledger_wf(ledger),
        reject_model(ledger, key, correlation, prepared_id, actor, audit_event_id, occurred_at, decision).0 is Ok,
        other_prepared_id != prepared_id || other_actor != actor,
    ensures
        ({
            let (result, after) = reject_model(ledger, key, correlation, prepared_id, actor, audit_event_id, occurred_at, decision);
            &&& reject_model(after, key, retry_correlation, prepared_id, actor, audit_event_id, occurred_at, retry_decision) == (
                result,
                after,
            )
            &&& reject_model(
                after,
                key,
                retry_correlation,
                other_prepared_id,
                other_actor,
                audit_event_id,
                occurred_at,
                retry_decision,
            ) == (Err::<RejectedOutcomeView, DomainErrorView>(conflict_view(retry_correlation)), after)
            &&& replay_index(ledger.snapshot.replay, key) is None ==> {
                &&& records_one_command(ledger, after, key, ResultView::Rejected(result->Ok_0))
                &&& prepared_index(after.snapshot.prepared, prepared_id) is None
                &&& after.snapshot.discarded == with_discarded(
                    ledger.snapshot.discarded,
                    ledger.snapshot.prepared,
                    prepared_id,
                    result->Ok_0.occurred_at,
                )
            }
        }),
{
    let replay = ledger.snapshot.replay;
    if replay_index(replay, key) is None {
        let after = reject_model(ledger, key, correlation, prepared_id, actor, audit_event_id, occurred_at, decision).1;
        let capsule = after.snapshot.replay.last();
        assert(after.snapshot.replay == replay.push(capsule));
        lemma_replay_index_pushed(replay, capsule);
        lemma_next_ordinal_above(replay, capsule.operation_ordinal);
        assert(after.snapshot.replay.drop_last() =~= replay);
        let k = prepared_index(ledger.snapshot.prepared, prepared_id)->Some_0;
        assert(without_prepared(ledger.snapshot.prepared, prepared_id) == ledger.snapshot.prepared.remove(k));
        lemma_without_prepared(ledger.snapshot.prepared, prepared_id);
    }
}

/// Replaying an approved acceptance: once the domain's decision was
/// recorded under a key, the same approval under that key returns what was
/// recorded (the accepted outcome or the refusal), whatever the domain
/// would now decide, and changes nothing.  An executed acceptance consumed
/// its preview: it is no longer pending, nor discarded.  A recorded refusal
/// that discarded the preview moved it to the discarded ones.
pub proof fn lemma_execute_accept_replays(
    ledger: LedgerView,
    key: Seq<char>,
    correlation: Seq<char>,
    approval: ApprovalView,
    audit_ids: Seq<Seq<char>>,
    receipt_id: Seq<char>,
    decision: DecisionView<AcceptedOutcomeView>,
    retry_correlation: Seq<char>,
    retry_audit_ids: Seq<Seq<char>>,
    retry_receipt_id: Seq<char>,
    retry_decision: DecisionView<AcceptedOutcomeView>,
)
    requires
        ledger_wf(ledger),
        replay_index(ledger.snapshot.replay, key) is None,
        execute_accept_model(ledger, key, correlation, approval, audit_ids, receipt_id, decision).1 != ledger,
    ensures
        ({
            let (result, after) = execute_accept_model(
                ledger,
                key,
                correlation,
                approval,
                audit_ids,
                receipt_id,
                decision,
            );
            &&& execute_accept_model(
                after,
                key,
                retry_correlation,
                approval,
                retry_audit_ids,
                retry_receipt_id,
                retry_decision,
            ) == (result, after)
            &&& match decision {
                DecisionView::Terminal { error, record } => result == Err::<
                    AcceptedOutcomeView,
                    DomainErrorView,
                >(error) && records_one_command(ledger, after, key, ResultView::Terminal(error, record)),
                _ => result matches Ok(outcome) && records_one_command(
                    ledger,
                    after,
                    key,
                    ResultView::Accepted(outcome),
                ),
            }
            &&& result is Ok ==> prepared_index(after.snapshot.prepared, approval.prepared_id) is None
            &&& result is Ok ==> after.snapshot.discarded == ledger.snapshot.discarded
            &&& decision matches DecisionView::Terminal { record, .. } ==> after.snapshot.discarded == (
            if record.discards() {
                with_discarded(
                    ledger.snapshot.discarded,
                    ledger.snapshot.prepared,
                    approval.prepared_id,
                    record.occurred_at,
                )
            } else {
                ledger.snapshot.discarded
            })
        }),
{
    let replay = ledger.snapshot.replay;
    let after = execute_accept_model(ledger, key, correlation, approval, audit_ids, receipt_id, decision).1;
    let capsule = after.snapshot.replay.last();
    assert(after.snapshot.replay == replay.push(capsule));
    lemma_replay_index_pushed(replay, capsule);
    lemma_next_ordinal_above(replay, capsule.operation_ordinal);
    assert(after.snapshot.replay.drop_last() =~= replay);
    lemma_without_prepared(ledger.snapshot.prepared, approval.prepared_id);
}

/// Replaying an approved change to an Action (a lowering, completion,
/// cancellation or reopening): once the domain's decision was recorded
/// under a key, the same approval under that key returns what was
/// recorded, whatever the domain would now decide, and changes nothing.
/// An executed change consumed its preview: it is no longer pending, nor
/// discarded.  A recorded refusal that discarded the preview moved it to the
/// discarded ones.
pub proof fn lemma_execute_action_replays(
    ledger: LedgerView,
    key: Seq<char>,
    correlation: Seq<char>,
    kind: PreparedIntentKind,
    approval: ApprovalView,
    receipt_id: Seq<char>,
    decision: DecisionView<OutcomeView<ActionView>>,
    retry_correlation: Seq<char>,
    retry_receipt_id: Seq<char>,
    retry_decision: DecisionView<OutcomeView<ActionView>>,
)
    requires
        ledger_wf(ledger),
        replay_index(ledger.snapshot.replay, key) is None,
        kind != PreparedIntentKind::LowerActionClassification || decision !is Terminal,
        execute_action_model(ledger, key, correlation, kind, approval, receipt_id, decision).1
            != ledger,
    ensures
        ({
            let (result, after) = execute_action_model(
                ledger,
                key,
                correlation,
                kind,
                approval,
                receipt_id,
                decision,
            );
            &&& execute_action_model(
                after,
                key,
                retry_correlation,
                kind,
                approval,
                retry_receipt_id,
                retry_decision,
            ) == (result, after)
            &&& match decision {
                DecisionView::Terminal { error, record } => result == Err::<
                    OutcomeView<ActionView>,
                    DomainErrorView,
                >(error) && records_one_command(ledger, after, key, ResultView::Terminal(error, record)),
                _ => result matches Ok(outcome) && records_one_command(
                    ledger,
                    after,
                    key,
                    ResultView::Action(outcome),
                ),
            }
            &&& result is Ok ==> prepared_index(after.snapshot.prepared, approval.prepared_id) is None
            &&& result is Ok ==> after.snapshot.discarded == ledger.snapshot.discarded
            &&& decision matches DecisionView::Terminal { record, .. } ==> after.snapshot.discarded == (
            if record.discards() {
                with_discarded(
                    ledger.snapshot.discarded,
                    ledger.snapshot.prepared,
                    approval.prepared_id,
                    record.occurred_at,
                )
            } else {
                ledger.snapshot.discarded
            })
        }),
{
    let replay = ledger.snapshot.replay;
    let after = execute_action_model(ledger, key, correlation, kind, approval, receipt_id, decision).1;
    let capsule = after.snapshot.replay.last();
    assert(after.snapshot.replay == replay.push(capsule));
    lemma_replay_index_pushed(replay, capsule);
    lemma_next_ordinal_above(replay, capsule.operation_ordinal);
    assert(after.snapshot.replay.drop_last() =~= replay);
    lemma_without_prepared(ledger.snapshot.prepared, approval.prepared_id);
}

/// A refusal the domain service recorded nothing for changes nothing, and
/// so does every refusal the ledger raises itself and every denial of a
/// preparation; only a refusal of an approval recorded as a terminal
/// outcome is kept.
pub proof fn lemma_unrecorded_refusals_change_nothing(
    ledger: LedgerView,
    key: Seq<char>,
    correlation: Seq<char>,
    request_id: Seq<char>,
    action_id: Seq<char>,
    expected_version: u64,
    lifetime: i64,
    proposed: Seq<char>,
    rationale: Seq<char>,
    prepared: PreparedIntentView,
    canonical: Option<PreparedIntentView>,
    kind: PreparedIntentKind,
    details: TransitionDetailsView,
    decision: Result<PreparedIntentView, DomainErrorView>,
    approval: ApprovalView,
    audit_ids: Seq<Seq<char>>,
    receipt_id: Seq<char>,
    actor: Seq<char>,
    audit_event_id: Seq<char>,
    occurred_at: i64,
    accept_decision: DecisionView<AcceptedOutcomeView>,
    action_decision: DecisionView<OutcomeView<ActionView>>,
    reject_decision: Result<RejectedOutcomeView, DomainErrorView>,
)
    ensures
        prepare_accept_model(ledger, key, correlation, request_id, expected_version, lifetime, prepared, canonical).0 is Err
            ==> prepare_accept_model(
            ledger,
            key,
            correlation,
            request_id,
            expected_version,
            lifetime,
            prepared,
            canonical,
        ).1 == ledger,
        prepare_lower_model(
            ledger,
            key,
            correlation,
            action_id,
            expected_version,
            proposed,
            rationale,
            prepared,
        ).0 is Err ==> prepare_lower_model(
            ledger,
            key,
            correlation,
            action_id,
            expected_version,
            proposed,
            rationale,
            prepared,
        ).1 == ledger,
        prepare_transition_model(
            ledger,
            key,
            correlation,
            kind,
            action_id,
            expected_version,
            details,
            decision,
        ).0 is Err ==> prepare_transition_model(
            ledger,
            key,
            correlation,
            kind,
            action_id,
            expected_version,
            details,
            decision,
        ).1 == ledger,
        reject_model(ledger, key, correlation, approval.prepared_id, actor, audit_event_id, occurred_at, reject_decision).0 is Err
            ==> reject_model(
            ledger,
            key,
            correlation,
            approval.prepared_id,
            actor,
            audit_event_id,
            occurred_at,
            reject_decision,
        ).1 == ledger,
        accept_decision !is Terminal && execute_accept_model(
            ledger,
            key,
            correlation,
            approval,
            audit_ids,
            receipt_id,
            accept_decision,
        ).0 is Err ==> execute_accept_model(
            ledger,
            key,
            correlation,
            approval,
            audit_ids,
            receipt_id,
            accept_decision,
        ).1 == ledger,
        action_decision !is Terminal && execute_action_model(
            ledger,
            key,
            correlation,
            kind,
            approval,
            receipt_id,
            action_decision,
        ).0 is Err ==> execute_action_model(
            ledger,
            key,
            correlation,
            kind,
            approval,
            receipt_id,
            action_decision,
        ).1 == ledger,
{
}

/// An approval issued for another idempotency key is refused as an
/// idempotency conflict and changes nothing.
pub proof fn lemma_approval_for_other_key_conflicts(
    ledger: LedgerView,
    key: Seq<char>,
    correlation: Seq<char>,
    kind: PreparedIntentKind,
    approval: ApprovalView,
    audit_ids: Seq<Seq<char>>,
    receipt_id: Seq<char>,
    accept_decision: DecisionView<AcceptedOutcomeView>,
    action_decision: DecisionView<OutcomeView<ActionView>>,
)
    requires
        approval.idempotency_id != key,
    ensures
        execute_accept_model(ledger, key, correlation, approval, audit_ids, receipt_id, accept_decision) == (
            Err::<AcceptedOutcomeView, DomainErrorView>(conflict_view(correlation)),
            ledger,
        ),
        execute_action_model(ledger, key, correlation, kind, approval, receipt_id, action_decision)
            == (Err::<OutcomeView<ActionView>, DomainErrorView>(conflict_view(correlation)), ledger),
{
}

/// A preparation of an acceptance that applies under a fresh key keeps the
/// caller's preview, which is the canonical one, only for the open request
/// it names at the version the command expects: the Action it would create
/// takes the request's classification, its title as the subject, its
/// details as the commitment, and its intended owner and Action due date.
/// The preview becomes pending after the earlier ones, the requests and
/// Actions are unchanged, and one `PrepareAccept` command is recorded.
pub proof fn lemma_prepared_acceptance_copies_the_request(
    ledger: LedgerView,
    key: Seq<char>,
    correlation: Seq<char>,
    request_id: Seq<char>,
    expected_version: u64,
    lifetime: i64,
    prepared: PreparedIntentView,
    canonical: Option<PreparedIntentView>,
)
    requires
        ledger_wf(ledger),
        replay_index(ledger.snapshot.replay, key) is None,
        prepare_accept_model(
            ledger,
            key,
            correlation,
            request_id,
            expected_version,
            lifetime,
            prepared,
            canonical,
        ).0 is Ok,
    ensures
        ({
            let (result, after) = prepare_accept_model(
                ledger,
                key,
                correlation,
                request_id,
                expected_version,
                lifetime,
                prepared,
                canonical,
            );
            &&& result == Ok::<PreparedIntentView, DomainErrorView>(prepared)
            &&& canonical == Some(prepared)
            &&& match request_index(ledger.snapshot.requests, request_id) {
                Some(j) => {
                    let request = ledger.snapshot.requests[j];
                    &&& request.id == request_id
                    &&& request.state == ActionRequestState::Open
                    &&& request.version == expected_version
                    &&& match prepared.operation {
                        PreparedOperationView::AcceptActionRequest {
                            request_id: previewed_request,
                            request_version,
                            action_id: _,
                            action_classification,
                            action_subject,
                            commitment_details,
                            intended_owner,
                            intended_due_at,
                        } => {
                            &&& previewed_request == request_id
                            &&& request_version == expected_version
                            &&& action_classification == request.classification
                            &&& action_subject == request.title
                            &&& commitment_details == request.details
                            &&& request.intended_owner == Some(intended_owner)
                            &&& request.intended_action_due_at == Some(intended_due_at)
                        },
                        _ => false,
                    }
                },
                None => false,
            }
            &&& after.snapshot.prepared == ledger.snapshot.prepared.push(prepared)
            &&& after.snapshot.requests == ledger.snapshot.requests
            &&& after.snapshot.actions == ledger.snapshot.actions
            &&& after.snapshot.replay.last().command == CommandView::PrepareAccept {
                request_id,
                expected_version,
            }
            &&& records_one_command(ledger, after, key, ResultView::Prepared(prepared))
        }),
{
    let replay = ledger.snapshot.replay;
    let after = prepare_accept_model(
        ledger,
        key,
        correlation,
        request_id,
        expected_version,
        lifetime,
        prepared,
        canonical,
    ).1;
    let capsule = after.snapshot.replay.last();
    assert(after.snapshot.replay == replay.push(capsule));
    lemma_next_ordinal_above(replay, capsule.operation_ordinal);
    assert(after.snapshot.replay.drop_last() =~= replay);
}

/// A preparation of a classification lowering that applies under a fresh
/// key keeps the caller's preview only for the Action it names at the
/// version the command expects: the preview is made under the Action's
/// classification and lowers it from that classification to the proposed
/// one with the command's rationale.  The preview becomes pending after the
/// earlier ones, the requests and Actions are unchanged, and one
/// `PrepareLowerClassification` command is recorded.
pub proof fn lemma_prepared_lowering_names_the_action(
    ledger: LedgerView,
    key: Seq<char>,
    correlation: Seq<char>,
    action_id: Seq<char>,
    expected_version: u64,
    proposed: Seq<char>,
    rationale: Seq<char>,
    prepared: PreparedIntentView,
)
    requires
        ledger_wf(ledger),
        replay_index(ledger.snapshot.replay, key) is None,
        prepare_lower_model(
            ledger,
            key,
            correlation,
            action_id,
            expected_version,
            proposed,
            rationale,
            prepared,
        ).0 is Ok,
    ensures
        ({
            let (result, after) = prepare_lower_model(
                ledger,
                key,
                correlation,
                action_id,
                expected_version,
                proposed,
                rationale,
                prepared,
            );
            &&& result == Ok::<PreparedIntentView, DomainErrorView>(prepared)
            &&& match action_index(ledger.snapshot.actions, action_id) {
                Some(j) => {
                    let action = ledger.snapshot.actions[j];
                    &&& action.id == action_id
                    &&& action.version == expected_version
                    &&& prepared.classification == action.classification
                    &&& match prepared.operation {
                        PreparedOperationView::LowerActionClassification {
                            action_id: previewed_action,
                            action_version,
                            current_classification,
                            proposed_classification,
                            rationale: previewed_rationale,
                        } => {
                            &&& previewed_action == action_id
                            &&& action_version == expected_version
                            &&& current_classification == action.classification
                            &&& proposed_classification == proposed
                            &&& previewed_rationale == rationale
                        },
                        _ => false,
                    }
                },
                None => false,
            }
            &&& after.snapshot.prepared == ledger.snapshot.prepared.push(prepared)
            &&& after.snapshot.requests == ledger.snapshot.requests
            &&& after.snapshot.actions == ledger.snapshot.actions
            &&& after.snapshot.replay.last().command == CommandView::PrepareLowerClassification {
                action_id,
                expected_version,
                proposed_classification: proposed,
                rationale,
            }
            &&& records_one_command(ledger, after, key, ResultView::Prepared(prepared))
        }),
{
    let replay = ledger.snapshot.replay;
    let after = prepare_lower_model(
        ledger,
        key,
        correlation,
        action_id,
        expected_version,
        proposed,
        rationale,
        prepared,
    ).1;
    let capsule = after.snapshot.replay.last();
    assert(after.snapshot.replay == replay.push(capsule));
    lemma_next_ordinal_above(replay, capsule.operation_ordinal);
    assert(after.snapshot.replay.drop_last() =~= replay);
}

/// A preparation of a completion, cancellation or reopening under a fresh
/// key keeps exactly the preview the domain service prepared: where the
/// service prepared one and the command applies, that preview is returned
/// and becomes pending after the earlier ones, the requests and Actions
/// are unchanged and one `PrepareActionTransition` command of that kind is
/// recorded; where the service denied it, the attempt fails with a
/// persistence error and the ledger is unchanged.
pub proof fn lemma_prepared_transition_is_the_decision(
    ledger: LedgerView,
    key: Seq<char>,
    correlation: Seq<char>,
    kind: PreparedIntentKind,
    action_id: Seq<char>,
    expected_version: u64,
    details: TransitionDetailsView,
    decision: Result<PreparedIntentView, DomainErrorView>,
)
    requires
        ledger_wf(ledger),
        replay_index(ledger.snapshot.replay, key) is None,
    ensures
        ({
            let (result, after) = prepare_transition_model(
                ledger,
                key,
                correlation,
                kind,
                action_id,
                expected_version,
                details,
                decision,
            );
            &&& decision is Err ==> result == Err::<PreparedIntentView, DomainErrorView>(
                persistence_view(correlation),
            ) && after == ledger
            &&& result is Ok ==> {
                &&& decision == result
                &&& after.snapshot.prepared == ledger.snapshot.prepared.push(result->Ok_0)
                &&& after.snapshot.requests == ledger.snapshot.requests
                &&& after.snapshot.actions == ledger.snapshot.actions
                &&& after.snapshot.replay.last().command == CommandView::PrepareActionTransition {
                    kind,
                    action_id,
                    expected_version,
                    details,
                }
                &&& records_one_command(ledger, after, key, ResultView::Prepared(result->Ok_0))
            }
        }),
{
    let replay = ledger.snapshot.replay;
    let (result, after) = prepare_transition_model(
        ledger,
        key,
        correlation,
        kind,
        action_id,
        expected_version,
        details,
        decision,
    );
    if result is Ok {
        let capsule = after.snapshot.replay.last();
        assert(after.snapshot.replay == replay.push(capsule));
        lemma_next_ordinal_above(replay, capsule.operation_ordinal);
        assert(after.snapshot.replay.drop_last() =~= replay);
    }
}

/// An approved acceptance that executes under a fresh key accepts exactly
/// what its pending preview names: the previewed request, now accepted and
/// linked to the previewed Action, replaces the recorded request; that
/// Action, new, open and at version 1, joins the Actions; the preview is no
/// longer pending; the outcome carries three audit events with the ids
/// `audit_ids` in order and the approval receipt `receipt_id`, which no
/// earlier command consumed; and one execution of the approval is
/// recorded.
pub proof fn lemma_executed_acceptance_accepts_the_preview(
    ledger: LedgerView,
    key: Seq<char>,
    correlation: Seq<char>,
    approval: ApprovalView,
    audit_ids: Seq<Seq<char>>,
    receipt_id: Seq<char>,
    decision: DecisionView<AcceptedOutcomeView>,
)
    requires
        ledger_wf(ledger),
        replay_index(ledger.snapshot.replay, key) is None,
        execute_accept_model(
            ledger,
            key,
            correlation,
            approval,
            audit_ids,
            receipt_id,
            decision,
        ).0 is Ok,
    ensures
        ({
            let (result, after) = execute_accept_model(
                ledger,
                key,
                correlation,
                approval,
                audit_ids,
                receipt_id,
                decision,
            );
            let outcome = result->Ok_0;
            let requests = ledger.snapshot.requests;
            &&& approval.idempotency_id == key
            &&& decision == DecisionView::Executed(outcome)
            &&& match prepared_index(ledger.snapshot.prepared, approval.prepared_id) {
                Some(p) => match ledger.snapshot.prepared[p].operation {
                    PreparedOperationView::AcceptActionRequest { request_id, action_id, .. } => {
                        &&& outcome.request.id == request_id
                        &&& outcome.request.state == ActionRequestState::Accepted
                        &&& outcome.request.linked_action_id == Some(action_id)
                        &&& outcome.action.id == action_id
                        &&& outcome.action.state == ActionState::Open
                        &&& outcome.action.version == 1
                    },
                    _ => false,
                },
                None => false,
            }
            &&& outcome.audit_events.len() == 3
            &&& audit_ids.len() == 3
            &&& forall|i: int| 0 <= i < 3 ==> #[trigger] outcome.audit_events[i].id == audit_ids[i]
            &&& outcome.approval_receipt_id == receipt_id
            &&& forall|i: int|
                0 <= i < ledger.snapshot.replay.len() ==> consumed_receipt(
                    (#[trigger] ledger.snapshot.replay[i]).result,
                ) != Some(receipt_id)
            &&& match request_index(requests, outcome.request.id) {
                Some(j) => after.snapshot.requests == requests.update(j, outcome.request),
                None => false,
            }
            &&& after.snapshot.actions == ledger.snapshot.actions.push(outcome.action)
            &&& prepared_index(after.snapshot.prepared, approval.prepared_id) is None
            &&& after.snapshot.replay.last().command == CommandView::ExecutePrepared {
                kind: PreparedIntentKind::AcceptActionRequest,
                prepared_id: approval.prepared_id,
                actor: approval.actor,
                acknowledged_digest: approval.acknowledged_payload_digest,
            }
            &&& records_one_command(ledger, after, key, ResultView::Accepted(outcome))
        }),
{
    let replay = ledger.snapshot.replay;
    let after = execute_accept_model(
        ledger,
        key,
        correlation,
        approval,
        audit_ids,
        receipt_id,
        decision,
    ).1;
    let capsule = after.snapshot.replay.last();
    assert(after.snapshot.replay == replay.push(capsule));
    lemma_next_ordinal_above(replay, capsule.operation_ordinal);
    assert(after.snapshot.replay.drop_last() =~= replay);
    lemma_without_prepared(ledger.snapshot.prepared, approval.prepared_id);
}

/// An approved change to an Action (a lowering, completion, cancellation or
/// reopening) that executes under a fresh key changes exactly the Action its
/// pending preview names: the preview is one of that kind and names the
/// changed Action; that Action, and no other, is replaced by the record the
/// domain service returned, which a completion stores with the preview as
/// its support exactly where the record has support and any other change
/// stores as it is; the preview is no longer pending; the outcome carries
/// one audit event and the approval receipt `receipt_id`, which no earlier
/// command consumed; and one execution of the approval is recorded.
pub proof fn lemma_executed_change_replaces_the_previewed_action(
    ledger: LedgerView,
    key: Seq<char>,
    correlation: Seq<char>,
    kind: PreparedIntentKind,
    approval: ApprovalView,
    receipt_id: Seq<char>,
    decision: DecisionView<OutcomeView<ActionView>>,
)
    requires
        ledger_wf(ledger),
        replay_index(ledger.snapshot.replay, key) is None,
        execute_action_model(ledger, key, correlation, kind, approval, receipt_id, decision).0 is Ok,
    ensures
        ({
            let (result, after) = execute_action_model(
                ledger,
                key,
                correlation,
                kind,
                approval,
                receipt_id,
                decision,
            );
            let outcome = result->Ok_0;
            let record = outcome.record;
            let actions = ledger.snapshot.actions;
            &&& approval.idempotency_id == key
            &&& decision == DecisionView::Executed(outcome)
            &&& match prepared_index(ledger.snapshot.prepared, approval.prepared_id) {
                Some(p) => {
                    &&& ledger.snapshot.prepared[p].operation.kind() == kind
                    &&& operation_action_id(ledger.snapshot.prepared[p].operation) == Some(record.id)
                },
                None => false,
            }
            &&& outcome.audit_events.len() == 1
            &&& outcome.approval_receipt_id == Some(receipt_id)
            &&& forall|i: int|
                0 <= i < ledger.snapshot.replay.len() ==> consumed_receipt(
                    (#[trigger] ledger.snapshot.replay[i]).result,
                ) != Some(receipt_id)
            &&& match action_index(actions, record.id) {
                Some(j) => {
                    let stored = after.snapshot.actions[j];
                    &&& after.snapshot.actions.len() == actions.len()
                    &&& forall|i: int|
                        0 <= i < actions.len() && i != j ==> #[trigger] after.snapshot.actions[i]
                            == actions[i]
                    &&& stored == ActionView { supported_by: stored.supported_by, ..record }
                    &&& stored.supported_by == if kind == PreparedIntentKind::CompleteAction {
                        if record.supported_by is Some {
                            Some(approval.prepared_id)
                        } else {
                            None
                        }
                    } else {
                        record.supported_by
                    }
                },
                None => false,
            }
            &&& after.snapshot.requests == ledger.snapshot.requests
            &&& prepared_index(after.snapshot.prepared, approval.prepared_id) is None
            &&& after.snapshot.replay.last().command == CommandView::ExecutePrepared {
                kind,
                prepared_id: approval.prepared_id,
                actor: approval.actor,
                acknowledged_digest: approval.acknowledged_payload_digest,
            }
            &&& records_one_command(ledger, after, key, ResultView::Action(outcome))
        }),
{
    let replay = ledger.snapshot.replay;
    let after = execute_action_model(ledger, key, correlation, kind, approval, receipt_id, decision).1;
    let capsule = after.snapshot.replay.last();
    assert(after.snapshot.replay == replay.push(capsule));
    lemma_next_ordinal_above(replay, capsule.operation_ordinal);
    assert(after.snapshot.replay.drop_last() =~= replay);
    lemma_without_prepared(ledger.snapshot.prepared, approval.prepared_id);
}

/// A rejection that applies under a fresh key is the rejection of the
/// pending preview it names: the outcome names that preview, the audit
/// event `audit_event_id` and the instant `occurred_at`, is audited on the
/// request an acceptance previews or on the Action a change previews, and
/// counts as expired exactly when the preview had expired by then.  The
/// preview leaves the pending ones and joins the discarded ones, consumed
/// at that instant; the requests and Actions are unchanged.
pub proof fn lemma_rejection_consumes_the_named_preview(
    ledger: LedgerView,
    key: Seq<char>,
    correlation: Seq<char>,
    prepared_id: Seq<char>,
    actor: Seq<char>,
    audit_event_id: Seq<char>,
    occurred_at: i64,
    decision: Result<RejectedOutcomeView, DomainErrorView>,
)
    requires
        ledger_wf(ledger),
        replay_index(ledger.snapshot.replay, key) is None,
        reject_model(ledger, key, correlation, prepared_id, actor, audit_event_id, occurred_at, decision).0 is Ok,
    ensures
        ({
            let (result, after) = reject_model(
                ledger,
                key,
                correlation,
                prepared_id,
                actor,
                audit_event_id,
                occurred_at,
                decision,
            );
            let outcome = result->Ok_0;
            let prepared = ledger.snapshot.prepared;
            &&& decision == result
            &&& match prepared_index(prepared, prepared_id) {
                Some(k) => {
                    let preview = prepared[k];
                    &&& preview.id == prepared_id
                    &&& outcome.prepared_intent_id == prepared_id
                    &&& outcome.audit_event_id == audit_event_id
                    &&& outcome.occurred_at == occurred_at
                    &&& outcome.expired == (occurred_at >= preview.expires_at)
                    &&& match preview.operation {
                        PreparedOperationView::AcceptActionRequest { request_id, .. } => outcome.target
                            == AuditTargetView::ActionRequest(request_id),
                        PreparedOperationView::CompleteAction { action_id, .. } => outcome.target
                            == AuditTargetView::Action(action_id),
                        PreparedOperationView::CancelAction { action_id, .. } => outcome.target
                            == AuditTargetView::Action(action_id),
                        PreparedOperationView::ReopenAction { action_id, .. } => outcome.target
                            == AuditTargetView::Action(action_id),
                        PreparedOperationView::LowerActionClassification { .. } => false,
                    }
                    &&& after.snapshot.prepared == prepared.remove(k)
                    &&& after.snapshot.discarded == ledger.snapshot.discarded.push(
                        DiscardedView { intent: preview, consumed_at: occurred_at },
                    )
                },
                None => false,
            }
            &&& after.snapshot.requests == ledger.snapshot.requests
            &&& after.snapshot.actions == ledger.snapshot.actions
            &&& after.snapshot.replay.last().command == CommandView::RejectPrepared {
                prepared_id,
                actor,
            }
        }),
{
}

/// What each preparation of a change records beside its Action and
/// version is its command's own: a completion, its judgment (rationale and
/// classification) if it has one and no reason or mode; a cancellation, its
/// reason; a reopening, its reason and mode.
pub proof fn lemma_preparations_record_their_details(
    complete: PrepareCompleteAction,
    cancel: PrepareCancelAction,
    reopen: PrepareReopenAction,
)
    ensures
        complete.details().reason is None,
        complete.details().mode is None,
        complete.details().judgment == match complete.judgment {
            Some(judgment) => Some(
                HumanJudgmentView {
                    rationale: judgment.rationale@,
                    classification: judgment.classification@,
                },
            ),
            None => None,
        },
        cancel.details().reason == Some(cancel.reason@),
        cancel.details().mode is None,
        cancel.details().judgment is None,
        reopen.details().reason == Some(reopen.reason@),
        reopen.details().mode == Some(reopen.mode),
        reopen.details().judgment is None,
{
}

} // verus!
