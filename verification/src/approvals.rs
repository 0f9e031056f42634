//! H2a approvals on the Action namespace: a preview is prepared and kept
//! pending until the Head of Products approves and executes it, or rejects
//! it.
//!
//! The domain service decides whether a preview may be prepared, executed
//! or rejected and what the execution produces; this module holds what the
//! ledger does around that decision.  The idempotency key is checked first:
//! a key recorded for the same command replays what was recorded, a key
//! recorded for anything else is an idempotency conflict.  A decision that
//! applies is recorded as one replay capsule at the next operation ordinal,
//! with the changed records and pending previews, and the ledger revision
//! advances by one; a refusal the domain recorded nothing for changes
//! nothing.

use vstd::prelude::*;
use crate::errors::{
    idempotency_conflict, not_found, persistence_error, request_transition_conflict,
    action_transition_conflict, action_conflict_view, plain_error_view, request_conflict_view,
    ActionOperationContext, DomainError, DomainErrorKind, DomainErrorView,
};
use crate::ledger::{
    action_index, applied, compute_next_ordinal, find_action, find_capsule, find_request,
    lemma_push_capsule_wf, next_ordinal, prepared_ids_distinct, replay_index, request_index,
    snapshot_wf, LedgerView, SqliteProductLedger,
};
use crate::model::{
    action_views, audit_views, capsule_views, clone_action_outcome, prepared_views, request_views,
    same_prepared_intent,
    AcceptedActionOutcome, AcceptedOutcomeView, ActionMutationOutcome, ActionPersistenceCommand,
    ActionPersistenceResult, ActionPersistenceSnapshot, ActionRecord, ActionReplayCapsule,
    ActionRequestRecord, ActionRequestView, ActionView, CapsuleView, CommandView, OutcomeView,
    PreparedIntent, PreparedIntentKind, PreparedIntentView, PreparedOperation,
    PreparedOperationView, RejectedOutcomeView, RejectedPreparedIntentOutcome, ResultView,
    HumanJudgment, TransitionDetails, TransitionDetailsView,
    SnapshotView, TerminalRecord, TerminalRecordView, AuditEvent, AuditEventView, DiscardedPreview,
    DiscardedView, discarded_views, AuditTarget,
};
use crate::rejections::rejection_target;
use crate::terminal_executions::PreparedDisposition;
use crate::states::{ActionReopenMode, ActionRequestState, ActionState};
use crate::text::str_eq;

verus! {

// ---------------------------------------------------------------------------
// Commands
// ---------------------------------------------------------------------------

/// The Head of Products' approval of one preview: the idempotency key it
/// was issued for, the preview, the approving actor and the payload digest
/// the actor acknowledged.
#[derive(Debug)]
pub struct PreparedApproval {
    pub idempotency_id: String,
    pub prepared_id: String,
    pub actor: String,
    pub acknowledged_payload_digest: String,
}

pub struct ApprovalView {
    pub idempotency_id: Seq<char>,
    pub prepared_id: Seq<char>,
    pub actor: Seq<char>,
    pub acknowledged_payload_digest: Seq<char>,
}

impl View for PreparedApproval {
    type V = ApprovalView;

    open spec fn view(&self) -> ApprovalView {
        ApprovalView {
            idempotency_id: self.idempotency_id@,
            prepared_id: self.prepared_id@,
            actor: self.actor@,
            acknowledged_payload_digest: self.acknowledged_payload_digest@,
        }
    }
}

/// Prepare the acceptance of an open Action Request at a version.
#[derive(Debug)]
pub struct PrepareAcceptActionRequest {
    pub context: ActionOperationContext,
    pub request_id: String,
    pub expected_version: u64,
}

/// Prepare lowering an Action's classification, with a rationale.
#[derive(Debug)]
pub struct PrepareLowerActionClassification {
    pub context: ActionOperationContext,
    pub action_id: String,
    pub expected_version: u64,
    pub proposed_classification: String,
    pub rationale: String,
}

/// Prepare completing an Action in progress.
#[derive(Debug)]
pub struct PrepareCompleteAction {
    pub context: ActionOperationContext,
    pub action_id: String,
    pub expected_version: u64,
    pub judgment: Option<HumanJudgment>,
}

impl PrepareCompleteAction {
    /// What the preparation records beside its Action and version: the
    /// judgment, if any.
    pub open spec fn details(self) -> TransitionDetailsView {
        TransitionDetails { reason: None, mode: None, judgment: self.judgment }@
    }
}

impl PrepareCancelAction {
    /// What the preparation records beside its Action and version: the
    /// reason.
    pub open spec fn details(self) -> TransitionDetailsView {
        TransitionDetails { reason: Some(self.reason), mode: None, judgment: None }@
    }
}

impl PrepareReopenAction {
    /// What the preparation records beside its Action and version: the
    /// reason and the mode.
    pub open spec fn details(self) -> TransitionDetailsView {
        TransitionDetails { reason: Some(self.reason), mode: Some(self.mode), judgment: None }@
    }
}

/// Prepare cancelling an Action, with a reason.
#[derive(Debug)]
pub struct PrepareCancelAction {
    pub context: ActionOperationContext,
    pub action_id: String,
    pub expected_version: u64,
    pub reason: String,
}

/// Prepare reopening an Action, in a mode, with a reason.
#[derive(Debug)]
pub struct PrepareReopenAction {
    pub context: ActionOperationContext,
    pub action_id: String,
    pub expected_version: u64,
    pub mode: ActionReopenMode,
    pub reason: String,
}

/// Approve and execute a prepared acceptance.
#[derive(Debug)]
pub struct ApproveAndExecuteAcceptActionRequest {
    pub context: ActionOperationContext,
    pub approval: PreparedApproval,
}

/// Approve and execute a prepared classification lowering.
#[derive(Debug)]
pub struct ApproveAndExecuteLowerActionClassification {
    pub context: ActionOperationContext,
    pub approval: PreparedApproval,
}

/// Approve and execute a prepared completion.
#[derive(Debug)]
pub struct ApproveAndExecuteCompleteAction {
    pub context: ActionOperationContext,
    pub approval: PreparedApproval,
}

/// Approve and execute a prepared cancellation.
#[derive(Debug)]
pub struct ApproveAndExecuteCancelAction {
    pub context: ActionOperationContext,
    pub approval: PreparedApproval,
}

/// Approve and execute a prepared reopening.
#[derive(Debug)]
pub struct ApproveAndExecuteReopenAction {
    pub context: ActionOperationContext,
    pub approval: PreparedApproval,
}

/// Reject a pending preview.
#[derive(Debug)]
pub struct RejectActionPreparedIntent {
    pub context: ActionOperationContext,
    pub prepared_id: String,
    pub actor: String,
}

/// What the domain service decided on an approved execution.
#[derive(Debug)]
pub enum ExecutionDecision<T> {
    /// It executed, with this outcome.
    Executed(T),
    /// It refused and recorded the refusal as the key's terminal outcome,
    /// with its cause, what became of the preview and its audit event.
    Terminal { error: DomainError, record: TerminalRecord },
    /// It refused and recorded nothing.
    Refused(DomainError),
}

pub enum DecisionView<V> {
    Executed(V),
    Terminal { error: DomainErrorView, record: TerminalRecordView },
    Refused(DomainErrorView),
}

impl<T: View> View for ExecutionDecision<T> {
    type V = DecisionView<T::V>;

    open spec fn view(&self) -> DecisionView<T::V> {
        match self {
            ExecutionDecision::Executed(outcome) => DecisionView::Executed(outcome@),
            ExecutionDecision::Terminal { error, record } => DecisionView::Terminal {
                error: error@,
                record: record@,
            },
            ExecutionDecision::Refused(error) => DecisionView::Refused(error@),
        }
    }
}

// ---------------------------------------------------------------------------
// Shared pieces of the models
// ---------------------------------------------------------------------------

pub open spec fn persistence_view(correlation: Seq<char>) -> DomainErrorView {
    plain_error_view(DomainErrorKind::Persistence, correlation)
}

pub open spec fn conflict_view(correlation: Seq<char>) -> DomainErrorView {
    plain_error_view(DomainErrorKind::IdempotencyConflict, correlation)
}

/// The position of the pending preview with id `id`.
pub open spec fn prepared_index(prepared: Seq<PreparedIntentView>, id: Seq<char>) -> Option<int> {
    if exists|i: int| 0 <= i < prepared.len() && prepared[i].id == id {
        Some(choose|i: int| 0 <= i < prepared.len() && prepared[i].id == id)
    } else {
        None
    }
}

/// The pending previews without the one with id `id`.
pub open spec fn without_prepared(prepared: Seq<PreparedIntentView>, id: Seq<char>) -> Seq<
    PreparedIntentView,
> {
    match prepared_index(prepared, id) {
        Some(k) => prepared.remove(k),
        None => prepared,
    }
}

/// The previews that left unexecuted, after the pending preview `id`, if
/// there is one, joins them, consumed at `consumed_at`.
pub open spec fn with_discarded(
    discarded: Seq<DiscardedView>,
    prepared: Seq<PreparedIntentView>,
    id: Seq<char>,
    consumed_at: i64,
) -> Seq<DiscardedView> {
    match prepared_index(prepared, id) {
        Some(k) => discarded.push(DiscardedView { intent: prepared[k], consumed_at }),
        None => discarded,
    }
}

/// Whether the audit events carry the ids `ids`, in order.
pub open spec fn audit_ids_match(events: Seq<AuditEventView>, ids: Seq<Seq<char>>) -> bool {
    &&& events.len() == ids.len()
    &&& forall|i: int| 0 <= i < events.len() ==> #[trigger] events[i].id == ids[i]
}

/// The texts of `ids`.
pub open spec fn id_views(ids: Seq<String>) -> Seq<Seq<char>> {
    ids.map_values(|id: String| id@)
}

/// The Action a change preview targets; an acceptance targets none.
pub open spec fn operation_action_id(operation: PreparedOperationView) -> Option<Seq<char>> {
    match operation {
        PreparedOperationView::AcceptActionRequest { .. } => None,
        PreparedOperationView::LowerActionClassification { action_id, .. } => Some(action_id),
        PreparedOperationView::CompleteAction { action_id, .. } => Some(action_id),
        PreparedOperationView::CancelAction { action_id, .. } => Some(action_id),
        PreparedOperationView::ReopenAction { action_id, .. } => Some(action_id),
    }
}

/// The Action as a change of `kind` under the preview `prepared_id` stores
/// it: a completion's support is the preview's own, present exactly when
/// the completed record has support; any other change stores the record as
/// the domain returned it.
pub open spec fn stored_change(
    kind: PreparedIntentKind,
    record: ActionView,
    prepared_id: Seq<char>,
) -> ActionView {
    if kind == PreparedIntentKind::CompleteAction {
        ActionView {
            supported_by: if record.supported_by is Some {
                Some(prepared_id)
            } else {
                None
            },
            ..record
        }
    } else {
        record
    }
}

/// The approval receipt a recorded result consumed, if any.
pub open spec fn consumed_receipt(result: ResultView) -> Option<Seq<char>> {
    match result {
        ResultView::Accepted(outcome) => Some(outcome.approval_receipt_id),
        ResultView::Action(outcome) => outcome.approval_receipt_id,
        _ => None,
    }
}

/// Whether no recorded command consumed the approval receipt `receipt_id`:
/// a receipt is used once.
pub open spec fn receipt_unused(replay: Seq<CapsuleView>, receipt_id: Seq<char>) -> bool {
    forall|i: int| 0 <= i < replay.len() ==> consumed_receipt((#[trigger] replay[i]).result) != Some(
        receipt_id,
    )
}

/// Whether the pending preview `prepared_id` is a change of `kind` to the
/// Action `action_id`: the Action an approved change touches is the one
/// its preview names.
pub open spec fn targets_pending(
    prepared: Seq<PreparedIntentView>,
    prepared_id: Seq<char>,
    kind: PreparedIntentKind,
    action_id: Seq<char>,
) -> bool {
    match prepared_index(prepared, prepared_id) {
        Some(p) => prepared[p].operation.kind() == kind && operation_action_id(prepared[p].operation)
            == Some(action_id),
        None => false,
    }
}

/// Whether a new command can be recorded under `key`: the key is unused,
/// there is a next operation ordinal and the revision can advance.
pub open spec fn can_record(ledger: LedgerView, key: Seq<char>) -> bool {
    &&& replay_index(ledger.snapshot.replay, key) is None
    &&& next_ordinal(ledger.snapshot.replay) is Some
    &&& ledger.revision < u64::MAX
}

/// The ledger after recording `command` with `result` under `key`, with
/// the records and pending previews of `changed`.
pub open spec fn with_recorded(
    ledger: LedgerView,
    changed: SnapshotView,
    key: Seq<char>,
    correlation: Seq<char>,
    command: CommandView,
    result: ResultView,
) -> LedgerView {
    let capsule = CapsuleView {
        idempotency_id: key,
        correlation_id: correlation,
        operation_ordinal: next_ordinal(ledger.snapshot.replay)->Some_0,
        command,
        result,
    };
    applied(ledger, SnapshotView { replay: ledger.snapshot.replay.push(capsule), ..changed })
}

pub open spec fn prepared_result_view(result: Result<PreparedIntent, DomainError>) -> Result<
    PreparedIntentView,
    DomainErrorView,
> {
    match result {
        Ok(intent) => Ok(intent@),
        Err(error) => Err(error@),
    }
}

// ---------------------------------------------------------------------------
// Recording
// ---------------------------------------------------------------------------

/// Whether three audit events carry the ids `ids`, in order.
fn events_carry_ids(events: &Vec<AuditEvent>, ids: &[String; 3]) -> (b: bool)
    requires
        events@.len() == 3,
    ensures
        b == audit_ids_match(audit_views(events@), id_views(ids@)),
{
    let b = str_eq(events[0].id.as_str(), ids[0].as_str()) && str_eq(
        events[1].id.as_str(),
        ids[1].as_str(),
    ) && str_eq(events[2].id.as_str(), ids[2].as_str());
    proof {
        let ev = audit_views(events@);
        let iv = id_views(ids@);
        assert(ev.len() == 3 && iv.len() == 3);
        assert(ev[0].id == events@[0].id@ && ev[1].id == events@[1].id@ && ev[2].id == events@[2].id@);
        assert(iv[0] == ids@[0]@ && iv[1] == ids@[1]@ && iv[2] == ids@[2]@);
        if b {
            assert forall|i: int| 0 <= i < ev.len() implies #[trigger] ev[i].id == iv[i] by {
                if i == 0 {
                } else if i == 1 {
                } else {
                }
            }
        }
    }
    b
}

/// Whether an accepted outcome accepts the request the acceptance
/// `operation` names into the Action it names.
fn check_accepts_preview(operation: &PreparedOperation, outcome: &AcceptedActionOutcome) -> (ok: bool)
    ensures
        ok == accepts_preview(operation@, outcome@),
{
    match operation {
        PreparedOperation::AcceptActionRequest { request_id, action_id, .. } => {
            let linked = match &outcome.request.linked_action_id {
                Some(linked) => str_eq(linked.as_str(), action_id.as_str()),
                None => false,
            };
            str_eq(outcome.request.id.as_str(), request_id.as_str()) && outcome.request.state
                == ActionRequestState::Accepted && linked && str_eq(
                outcome.action.id.as_str(),
                action_id.as_str(),
            ) && outcome.action.state == ActionState::Open && outcome.action.version == 1
        },
        _ => false,
    }
}

/// Whether a rejection outcome is the rejection of `prepared` with the
/// audit event `audit_event_id` at `occurred_at`.
fn check_rejection_of(
    outcome: &RejectedPreparedIntentOutcome,
    prepared: &PreparedIntent,
    audit_event_id: &String,
    occurred_at: i64,
) -> (ok: bool)
    ensures
        ok == rejection_of(outcome@, prepared@, audit_event_id@, occurred_at),
{
    let on_target = match (&prepared.operation, &outcome.target) {
        (PreparedOperation::AcceptActionRequest { request_id, .. }, AuditTarget::ActionRequest(id)) => {
            str_eq(request_id.as_str(), id.as_str())
        },
        (PreparedOperation::CompleteAction { action_id, .. }, AuditTarget::Action(id)) => str_eq(
            action_id.as_str(),
            id.as_str(),
        ),
        (PreparedOperation::CancelAction { action_id, .. }, AuditTarget::Action(id)) => str_eq(
            action_id.as_str(),
            id.as_str(),
        ),
        (PreparedOperation::ReopenAction { action_id, .. }, AuditTarget::Action(id)) => str_eq(
            action_id.as_str(),
            id.as_str(),
        ),
        _ => false,
    };
    str_eq(outcome.prepared_intent_id.as_str(), prepared.id.as_str()) && str_eq(
        outcome.audit_event_id.as_str(),
        audit_event_id.as_str(),
    ) && outcome.occurred_at == occurred_at && on_target && outcome.expired == (occurred_at
        >= prepared.expires_at)
}

/// Whether no recorded command consumed the approval receipt `receipt_id`.
fn check_receipt_unused(replay: &Vec<ActionReplayCapsule>, receipt_id: &String) -> (unused: bool)
    ensures
        unused == receipt_unused(capsule_views(replay@), receipt_id@),
{
    let ghost views = capsule_views(replay@);
    let n = replay.len();
    let mut i: usize = 0;
    while i < n
        invariant
            n == replay@.len(),
            views == capsule_views(replay@),
            i <= n,
            forall|k: int| 0 <= k < i ==> consumed_receipt((#[trigger] views[k]).result) != Some(
                receipt_id@,
            ),
        decreases n - i,
    {
        let used = match &replay[i].result {
            ActionPersistenceResult::Accepted(outcome) => str_eq(
                outcome.approval_receipt_id.as_str(),
                receipt_id.as_str(),
            ),
            ActionPersistenceResult::Action(outcome) => match &outcome.approval_receipt_id {
                Some(receipt) => str_eq(receipt.as_str(), receipt_id.as_str()),
                None => false,
            },
            _ => false,
        };
        proof {
            assert(views[i as int] == replay@[i as int]@);
        }
        if used {
            return false;
        }
        i = i + 1;
    }
    true
}

/// Whether a preview's operation is a change of `kind` to `action_id`.
fn operation_targets(operation: &PreparedOperation, kind: PreparedIntentKind, action_id: &String) -> (b: bool)
    ensures
        b == (operation@.kind() == kind && operation_action_id(operation@) == Some(action_id@)),
{
    match operation {
        PreparedOperation::AcceptActionRequest { .. } => false,
        PreparedOperation::LowerActionClassification { action_id: target, .. } => kind
            == PreparedIntentKind::LowerActionClassification && str_eq(target.as_str(), action_id.as_str()),
        PreparedOperation::CompleteAction { action_id: target, .. } => kind
            == PreparedIntentKind::CompleteAction && str_eq(target.as_str(), action_id.as_str()),
        PreparedOperation::CancelAction { action_id: target, .. } => kind
            == PreparedIntentKind::CancelAction && str_eq(target.as_str(), action_id.as_str()),
        PreparedOperation::ReopenAction { action_id: target, .. } => kind
            == PreparedIntentKind::ReopenAction && str_eq(target.as_str(), action_id.as_str()),
    }
}

pub(crate) fn find_prepared(prepared: &Vec<PreparedIntent>, id: &String) -> (index: Option<usize>)
    requires
        prepared_ids_distinct(prepared_views(prepared@)),
    ensures
        match index {
            Some(i) => prepared_index(prepared_views(prepared@), id@) == Some(i as int),
            None => prepared_index(prepared_views(prepared@), id@) is None,
        },
{
    let ghost views = prepared_views(prepared@);
    let n = prepared.len();
    let mut i: usize = 0;
    while i < n
        invariant
            n == prepared@.len(),
            views == prepared_views(prepared@),
            prepared_ids_distinct(views),
            i <= n,
            forall|k: int| 0 <= k < i ==> views[k].id != id@,
        decreases n - i,
    {
        if str_eq(prepared[i].id.as_str(), id.as_str()) {
            proof {
                assert(views[i as int].id == id@);
                let k = choose|k: int| 0 <= k < views.len() && views[k].id == id@;
                assert(views[k].id == views[i as int].id);
            }
            return Some(i);
        }
        i = i + 1;
    }
    None
}

pub(crate) proof fn lemma_remove_prepared(prepared: Seq<PreparedIntentView>, k: int)
    requires
        prepared_ids_distinct(prepared),
        0 <= k < prepared.len(),
    ensures
        prepared_ids_distinct(prepared.remove(k)),
{
    let removed = prepared.remove(k);
    assert forall|i: int, j: int|
        0 <= i < removed.len() && 0 <= j < removed.len() && i != j implies #[trigger] removed[i].id
        != #[trigger] removed[j].id by {
        let a = if i < k { i } else { i + 1 };
        let b = if j < k { j } else { j + 1 };
        assert(removed[i] == prepared[a]);
        assert(removed[j] == prepared[b]);
    }
}

pub(crate) proof fn lemma_push_prepared(prepared: Seq<PreparedIntentView>, intent: PreparedIntentView)
    requires
        prepared_ids_distinct(prepared),
        prepared_index(prepared, intent.id) is None,
    ensures
        prepared_ids_distinct(prepared.push(intent)),
{
    let pushed = prepared.push(intent);
    assert forall|i: int, j: int|
        0 <= i < pushed.len() && 0 <= j < pushed.len() && i != j implies #[trigger] pushed[i].id
        != #[trigger] pushed[j].id by {
        if i == prepared.len() {
            assert(pushed[j] == prepared[j]);
        } else if j == prepared.len() {
            assert(pushed[i] == prepared[i]);
        }
    }
}

/// Removes the pending preview `id`, if it is pending.
pub(crate) fn remove_prepared(prepared: &mut Vec<PreparedIntent>, id: &String)
    requires
        prepared_ids_distinct(prepared_views(old(prepared)@)),
    ensures
        prepared_ids_distinct(prepared_views(final(prepared)@)),
        prepared_views(final(prepared)@) == without_prepared(prepared_views(old(prepared)@), id@),
{
    let ghost before = prepared_views(prepared@);
    match find_prepared(prepared, id) {
        Some(k) => {
            let _removed = prepared.remove(k);
            proof {
                assert(prepared_views(prepared@) =~= before.remove(k as int));
                lemma_remove_prepared(before, k as int);
            }
        },
        None => {},
    }
}

/// Moves the pending preview `id`, if there is one, to the previews that
/// left unexecuted.
pub(crate) fn discard_prepared(
    prepared: &mut Vec<PreparedIntent>,
    discarded: &mut Vec<DiscardedPreview>,
    id: &String,
    consumed_at: i64,
)
    requires
        prepared_ids_distinct(prepared_views(old(prepared)@)),
    ensures
        prepared_ids_distinct(prepared_views(final(prepared)@)),
        prepared_views(final(prepared)@) == without_prepared(prepared_views(old(prepared)@), id@),
        discarded_views(final(discarded)@) == with_discarded(
            discarded_views(old(discarded)@),
            prepared_views(old(prepared)@),
            id@,
            consumed_at,
        ),
{
    let ghost before = prepared_views(prepared@);
    let ghost left = discarded_views(discarded@);
    match find_prepared(prepared, id) {
        Some(k) => {
            let removed = prepared.remove(k);
            proof {
                assert(removed@ == before[k as int]);
                assert(prepared_views(prepared@) =~= before.remove(k as int));
                lemma_remove_prepared(before, k as int);
            }
            discarded.push(DiscardedPreview { intent: removed, consumed_at });
            proof {
                assert(discarded_views(discarded@) =~= left.push(
                    DiscardedView { intent: before[k as int], consumed_at },
                ));
            }
        },
        None => {},
    }
}

impl SqliteProductLedger {
    /// Records `command` with `result` under the key of `context`, with the
    /// records and pending previews of `changed`, whose recorded commands
    /// are the ledger's own.
    fn record_command(
        &mut self,
        changed: ActionPersistenceSnapshot,
        context: ActionOperationContext,
        command: ActionPersistenceCommand,
        result: ActionPersistenceResult,
    )
        requires
            old(self).wf(),
            can_record(old(self)@, context.idempotency_id@),
            snapshot_wf(changed@),
            changed@.replay == old(self)@.snapshot.replay,
        ensures
            final(self).wf(),
            final(self)@ == with_recorded(
                old(self)@,
                changed@,
                context.idempotency_id@,
                context.correlation_id@,
                command@,
                result@,
            ),
    {
        let ghost before = self@;
        let ordinal = match compute_next_ordinal(&changed.replay) {
            Some(ordinal) => ordinal,
            None => {
                return;
            },
        };
        let capsule = ActionReplayCapsule {
            idempotency_id: context.idempotency_id,
            correlation_id: context.correlation_id,
            operation_ordinal: ordinal,
            command,
            result,
        };
        let ghost capsule_view = capsule@;
        let mut next = changed;
        next.replay.push(capsule);
        proof {
            assert(capsule_views(next.replay@) =~= before.snapshot.replay.push(capsule_view));
            lemma_push_capsule_wf(before.snapshot.replay, capsule_view);
            assert(next@ =~= SnapshotView {
                replay: before.snapshot.replay.push(capsule_view),
                ..changed@
            });
        }
        self.commit(next);
    }
}

// ---------------------------------------------------------------------------
// Preparing an acceptance
// ---------------------------------------------------------------------------

/// When a preview that expires at `expires_at` and lives `lifetime` was
/// created: its expiry less its lifetime, where that is an instant not
/// before the epoch.
pub open spec fn creation_time(expires_at: i64, lifetime: i64) -> Option<i64> {
    let created = expires_at - lifetime;
    if 0 <= created <= i64::MAX {
        Some(created as i64)
    } else {
        None
    }
}

/// When a preview that expires at `expires_at` and lives `lifetime` was
/// created, as `creation_time` says.
pub fn preview_creation_time(expires_at: i64, lifetime: i64) -> (created: Option<i64>)
    ensures
        created == creation_time(expires_at, lifetime),
{
    let created: i128 = (expires_at as i128) - (lifetime as i128);
    if 0 <= created && created <= (i64::MAX as i128) {
        Some(created as i64)
    } else {
        None
    }
}

/// Whether a preview is the acceptance of `request` at `expected_version`:
/// the request names an intended owner and an intended due date; the
/// preview carries no support record, was allowed by policy, is not
/// cancellable after submission and is under the Head of Products'
/// authority; and it accepts exactly this request at this version into an
/// Action with the request's classification, title, details, owner and due
/// date.
pub open spec fn accept_matches_request(
    request: ActionRequestView,
    expected_version: u64,
    prepared: PreparedIntentView,
) -> bool {
    &&& request.intended_owner is Some
    &&& request.intended_action_due_at is Some
    &&& prepared.support is None
    &&& prepared.policy == "allowed"@
    &&& prepared.cancellation_policy == "not_cancellable_after_submit"@
    &&& prepared.authority == "head_of_products"@
    &&& match prepared.operation {
        PreparedOperationView::AcceptActionRequest {
            request_id,
            request_version,
            action_id: _,
            action_classification,
            action_subject,
            commitment_details,
            intended_owner,
            intended_due_at,
        } => {
            &&& request_id == request.id
            &&& request_version == expected_version
            &&& action_classification == request.classification
            &&& action_subject == request.title
            &&& commitment_details == request.details
            &&& request.intended_owner == Some(intended_owner)
            &&& request.intended_action_due_at == Some(intended_due_at)
        },
        _ => false,
    }
}

/// The ledger with `prepared` pending and recorded as what `command`
/// returned under `key`.
pub open spec fn with_prepared(
    ledger: LedgerView,
    key: Seq<char>,
    correlation: Seq<char>,
    command: CommandView,
    prepared: PreparedIntentView,
) -> LedgerView {
    with_recorded(
        ledger,
        SnapshotView { prepared: ledger.snapshot.prepared.push(prepared), ..ledger.snapshot },
        key,
        correlation,
        command,
        ResultView::Prepared(prepared),
    )
}

/// What preparing the acceptance of `request_id` at `expected_version`
/// with the caller's preview `prepared` returns, and the ledger afterwards.
/// `canonical` is the preview the domain's canonical preparation gives for
/// this request and the preview's id (none where it refuses): the caller's
/// preview is kept only where it is exactly that one.
pub open spec fn prepare_accept_model(
    ledger: LedgerView,
    key: Seq<char>,
    correlation: Seq<char>,
    request_id: Seq<char>,
    expected_version: u64,
    lifetime: i64,
    prepared: PreparedIntentView,
    canonical: Option<PreparedIntentView>,
) -> (Result<PreparedIntentView, DomainErrorView>, LedgerView) {
    let command = CommandView::PrepareAccept { request_id, expected_version };
    let replay = ledger.snapshot.replay;
    match replay_index(replay, key) {
        Some(i) => (
            if replay[i].command == command {
                match replay[i].result {
                    ResultView::Prepared(intent) => if intent == prepared {
                        Ok(intent)
                    } else {
                        Err(conflict_view(correlation))
                    },
                    _ => Err(persistence_view(correlation)),
                }
            } else {
                Err(conflict_view(correlation))
            },
            ledger,
        ),
        None => match request_index(ledger.snapshot.requests, request_id) {
            None => (Err(plain_error_view(DomainErrorKind::NotFound, correlation)), ledger),
            Some(j) => {
                let request = ledger.snapshot.requests[j];
                if request.state != ActionRequestState::Open || request.version != expected_version {
                    (Err(request_conflict_view(correlation, request.version, request.state)), ledger)
                } else if !accept_matches_request(request, expected_version, prepared)
                    || creation_time(prepared.expires_at, lifetime) is None || canonical
                    != Some(prepared) || prepared_index(ledger.snapshot.prepared, prepared.id) is Some
                    || !can_record(ledger, key) {
                    (Err(persistence_view(correlation)), ledger)
                } else {
                    (Ok(prepared), with_prepared(ledger, key, correlation, command, prepared))
                }
            },
        },
    }
}

fn accept_matches(request: &ActionRequestRecord, expected_version: u64, prepared: &PreparedIntent) -> (matches: bool)
    ensures
        matches == accept_matches_request(request@, expected_version, prepared@),
{
    let owner = match &request.intended_owner {
        Some(owner) => owner,
        None => {
            return false;
        },
    };
    let due = match request.intended_action_due_at {
        Some(due) => due,
        None => {
            return false;
        },
    };
    if prepared.support.is_some() || !str_eq(prepared.policy.as_str(), "allowed") || !str_eq(
        prepared.cancellation_policy.as_str(),
        "not_cancellable_after_submit",
    ) || !str_eq(prepared.authority.as_str(), "head_of_products") {
        return false;
    }
    match &prepared.operation {
        PreparedOperation::AcceptActionRequest {
            request_id,
            request_version,
            action_id: _,
            action_classification,
            action_subject,
            commitment_details,
            intended_owner,
            intended_due_at,
        } => {
            str_eq(request_id.as_str(), request.id.as_str()) && *request_version == expected_version
                && str_eq(action_classification.as_str(), request.classification.as_str())
                && str_eq(action_subject.as_str(), request.title.as_str()) && str_eq(
                commitment_details.as_str(),
                request.details.as_str(),
            ) && str_eq(intended_owner.as_str(), owner.as_str()) && *intended_due_at == due
        },
        _ => false,
    }
}

impl SqliteProductLedger {
    /// Prepares the acceptance of an open Action Request from the caller's
    /// preview, which must be the canonical one for the request: `canonical`
    /// is the preview the domain service prepares again from the preview's
    /// creation time, its expiry less the preview `lifetime` the domain
    /// service prepares previews with, which must not be before the epoch.
    /// The preview stays pending for the Head of Products' approval.
    pub fn prepare_accept_action_request(
        &mut self,
        command: PrepareAcceptActionRequest,
        lifetime: i64,
        prepared: PreparedIntent,
        canonical: Option<PreparedIntent>,
    ) -> (result: Result<PreparedIntent, DomainError>)
        requires
            old(self).wf(),
        ensures
            final(self).wf(),
            prepared_result_view(result) == prepare_accept_model(
                old(self)@,
                command.context.idempotency_id@,
                command.context.correlation_id@,
                command.request_id@,
                command.expected_version,
                lifetime,
                prepared@,
                match canonical {
                    Some(intent) => Some(intent@),
                    None => None,
                },
            ).0,
            final(self)@ == prepare_accept_model(
                old(self)@,
                command.context.idempotency_id@,
                command.context.correlation_id@,
                command.request_id@,
                command.expected_version,
                lifetime,
                prepared@,
                match canonical {
                    Some(intent) => Some(intent@),
                    None => None,
                },
            ).1,
    {
        let ghost before = self@;
        let snapshot = self.snapshot();
        if let Some(i) = find_capsule(&snapshot.replay, &command.context.idempotency_id) {
            let same = match &snapshot.replay[i].command {
                ActionPersistenceCommand::PrepareAccept { request_id, expected_version } => str_eq(
                    request_id.as_str(),
                    command.request_id.as_str(),
                ) && *expected_version == command.expected_version,
                _ => false,
            };
            if !same {
                return Err(idempotency_conflict(&command.context));
            }
            return match &snapshot.replay[i].result {
                ActionPersistenceResult::Prepared(intent) => if same_prepared_intent(
                    intent,
                    &prepared,
                ) {
                    Ok(intent.clone())
                } else {
                    Err(idempotency_conflict(&command.context))
                },
                _ => Err(persistence_error(&command.context)),
            };
        }
        let j = match find_request(&snapshot.requests, &command.request_id) {
            Some(j) => j,
            None => {
                return Err(not_found(&command.context));
            },
        };
        let request = &snapshot.requests[j];
        if request.state != ActionRequestState::Open || request.version != command.expected_version {
            return Err(request_transition_conflict(&command.context, request.version, request.state));
        }
        let canonical_matches = match &canonical {
            Some(intent) => same_prepared_intent(intent, &prepared),
            None => false,
        };
        if !accept_matches(request, command.expected_version, &prepared) || preview_creation_time(
            prepared.expires_at,
            lifetime,
        ).is_none() || !canonical_matches {
            return Err(persistence_error(&command.context));
        }
        if find_prepared(&snapshot.prepared, &prepared.id).is_some() {
            return Err(persistence_error(&command.context));
        }
        if compute_next_ordinal(&snapshot.replay).is_none() || self.revision() == u64::MAX {
            return Err(persistence_error(&command.context));
        }
        let mut changed = self.snapshot().clone();
        let ghost prepared_view = prepared@;
        changed.prepared.push(prepared.clone());
        proof {
            assert(prepared_views(changed.prepared@) =~= before.snapshot.prepared.push(prepared_view));
            lemma_push_prepared(before.snapshot.prepared, prepared_view);
        }
        let recorded = prepared.clone();
        self.record_command(
            changed,
            command.context,
            ActionPersistenceCommand::PrepareAccept {
                request_id: command.request_id,
                expected_version: command.expected_version,
            },
            ActionPersistenceResult::Prepared(recorded),
        );
        Ok(prepared)
    }
}

// ---------------------------------------------------------------------------
// Preparing a classification lowering
// ---------------------------------------------------------------------------

/// Whether a preview lowers `action` at `expected_version` to `proposed`
/// with `rationale`, from the classification the Action has, and was
/// prepared under that classification.
pub open spec fn lower_matches_action(
    action: ActionView,
    expected_version: u64,
    proposed: Seq<char>,
    rationale: Seq<char>,
    prepared: PreparedIntentView,
) -> bool {
    &&& prepared.classification == action.classification
    &&& match prepared.operation {
        PreparedOperationView::LowerActionClassification {
            action_id,
            action_version,
            current_classification,
            proposed_classification,
            rationale: prepared_rationale,
        } => {
            &&& action_id == action.id
            &&& action_version == expected_version
            &&& current_classification == action.classification
            &&& proposed_classification == proposed
            &&& prepared_rationale == rationale
        },
        _ => false,
    }
}

/// What preparing the lowering of `action_id`'s classification with the
/// caller's preview `prepared` returns, and the ledger afterwards.
pub open spec fn prepare_lower_model(
    ledger: LedgerView,
    key: Seq<char>,
    correlation: Seq<char>,
    action_id: Seq<char>,
    expected_version: u64,
    proposed: Seq<char>,
    rationale: Seq<char>,
    prepared: PreparedIntentView,
) -> (Result<PreparedIntentView, DomainErrorView>, LedgerView) {
    let command = CommandView::PrepareLowerClassification {
        action_id,
        expected_version,
        proposed_classification: proposed,
        rationale,
    };
    let replay = ledger.snapshot.replay;
    match replay_index(replay, key) {
        Some(i) => (
            if replay[i].command == command {
                match replay[i].result {
                    ResultView::Prepared(intent) => if intent == prepared {
                        Ok(intent)
                    } else {
                        Err(conflict_view(correlation))
                    },
                    _ => Err(persistence_view(correlation)),
                }
            } else {
                Err(conflict_view(correlation))
            },
            ledger,
        ),
        None => match action_index(ledger.snapshot.actions, action_id) {
            None => (Err(plain_error_view(DomainErrorKind::NotFound, correlation)), ledger),
            Some(j) => {
                let action = ledger.snapshot.actions[j];
                if action.version != expected_version {
                    (Err(action_conflict_view(correlation, action.version)), ledger)
                } else if !lower_matches_action(action, expected_version, proposed, rationale, prepared)
                    || prepared_index(ledger.snapshot.prepared, prepared.id) is Some || !can_record(
                    ledger,
                    key,
                ) {
                    (Err(persistence_view(correlation)), ledger)
                } else {
                    (Ok(prepared), with_prepared(ledger, key, correlation, command, prepared))
                }
            },
        },
    }
}

fn lower_matches(
    action: &ActionRecord,
    expected_version: u64,
    proposed: &String,
    rationale: &String,
    prepared: &PreparedIntent,
) -> (matches: bool)
    ensures
        matches == lower_matches_action(action@, expected_version, proposed@, rationale@, prepared@),
{
    if !str_eq(prepared.classification.as_str(), action.classification.as_str()) {
        return false;
    }
    match &prepared.operation {
        PreparedOperation::LowerActionClassification {
            action_id,
            action_version,
            current_classification,
            proposed_classification,
            rationale: prepared_rationale,
        } => {
            str_eq(action_id.as_str(), action.id.as_str()) && *action_version == expected_version
                && str_eq(current_classification.as_str(), action.classification.as_str())
                && str_eq(proposed_classification.as_str(), proposed.as_str()) && str_eq(
                prepared_rationale.as_str(),
                rationale.as_str(),
            )
        },
        _ => false,
    }
}

impl SqliteProductLedger {
    /// Prepares lowering an Action's classification from the caller's
    /// preview, which must lower exactly this Action at this version: the
    /// preview stays pending for the Head of Products' approval.
    pub fn prepare_lower_action_classification(
        &mut self,
        command: PrepareLowerActionClassification,
        prepared: PreparedIntent,
    ) -> (result: Result<PreparedIntent, DomainError>)
        requires
            old(self).wf(),
        ensures
            final(self).wf(),
            prepared_result_view(result) == prepare_lower_model(
                old(self)@,
                command.context.idempotency_id@,
                command.context.correlation_id@,
                command.action_id@,
                command.expected_version,
                command.proposed_classification@,
                command.rationale@,
                prepared@,
            ).0,
            final(self)@ == prepare_lower_model(
                old(self)@,
                command.context.idempotency_id@,
                command.context.correlation_id@,
                command.action_id@,
                command.expected_version,
                command.proposed_classification@,
                command.rationale@,
                prepared@,
            ).1,
    {
        let ghost before = self@;
        let snapshot = self.snapshot();
        if let Some(i) = find_capsule(&snapshot.replay, &command.context.idempotency_id) {
            let same = match &snapshot.replay[i].command {
                ActionPersistenceCommand::PrepareLowerClassification {
                    action_id,
                    expected_version,
                    proposed_classification,
                    rationale,
                } => str_eq(action_id.as_str(), command.action_id.as_str()) && *expected_version
                    == command.expected_version && str_eq(
                    proposed_classification.as_str(),
                    command.proposed_classification.as_str(),
                ) && str_eq(rationale.as_str(), command.rationale.as_str()),
                _ => false,
            };
            if !same {
                return Err(idempotency_conflict(&command.context));
            }
            return match &snapshot.replay[i].result {
                ActionPersistenceResult::Prepared(intent) => if same_prepared_intent(
                    intent,
                    &prepared,
                ) {
                    Ok(intent.clone())
                } else {
                    Err(idempotency_conflict(&command.context))
                },
                _ => Err(persistence_error(&command.context)),
            };
        }
        let j = match find_action(&snapshot.actions, &command.action_id) {
            Some(j) => j,
            None => {
                return Err(not_found(&command.context));
            },
        };
        let action = &snapshot.actions[j];
        if action.version != command.expected_version {
            return Err(action_transition_conflict(&command.context, action.version));
        }
        if !lower_matches(
            action,
            command.expected_version,
            &command.proposed_classification,
            &command.rationale,
            &prepared,
        ) {
            return Err(persistence_error(&command.context));
        }
        if find_prepared(&snapshot.prepared, &prepared.id).is_some() {
            return Err(persistence_error(&command.context));
        }
        if compute_next_ordinal(&snapshot.replay).is_none() || self.revision() == u64::MAX {
            return Err(persistence_error(&command.context));
        }
        let mut changed = self.snapshot().clone();
        let ghost prepared_view = prepared@;
        changed.prepared.push(prepared.clone());
        proof {
            assert(prepared_views(changed.prepared@) =~= before.snapshot.prepared.push(prepared_view));
            lemma_push_prepared(before.snapshot.prepared, prepared_view);
        }
        let recorded = prepared.clone();
        self.record_command(
            changed,
            command.context,
            ActionPersistenceCommand::PrepareLowerClassification {
                action_id: command.action_id,
                expected_version: command.expected_version,
                proposed_classification: command.proposed_classification,
                rationale: command.rationale,
            },
            ActionPersistenceResult::Prepared(recorded),
        );
        Ok(prepared)
    }
}

// ---------------------------------------------------------------------------
// Preparing a completion, cancellation or reopening
// ---------------------------------------------------------------------------

/// The kinds of preview the domain service prepares itself.
pub open spec fn is_action_transition(kind: PreparedIntentKind) -> bool {
    kind == PreparedIntentKind::CompleteAction || kind == PreparedIntentKind::CancelAction || kind
        == PreparedIntentKind::ReopenAction
}

/// What a recorded preparation of a completion, cancellation or reopening
/// replays: the preview, or the denial recorded for it.
pub open spec fn replayed_preparation(result: ResultView, correlation: Seq<char>) -> Result<
    PreparedIntentView,
    DomainErrorView,
> {
    match result {
        ResultView::Prepared(intent) => Ok(intent),
        ResultView::Terminal(error, _) => Err(error),
        _ => Err(persistence_view(correlation)),
    }
}

/// What preparing a transition of `kind` on `action_id` returns, and the
/// ledger afterwards, given what the domain service decided: a preview
/// becomes pending; a denial is not made durable: the whole attempt rolls
/// back with a generic persistence error.  A key already recorded for a
/// preparation of the same kind replays what was recorded.
pub open spec fn prepare_transition_model(
    ledger: LedgerView,
    key: Seq<char>,
    correlation: Seq<char>,
    kind: PreparedIntentKind,
    action_id: Seq<char>,
    expected_version: u64,
    details: TransitionDetailsView,
    decision: Result<PreparedIntentView, DomainErrorView>,
) -> (Result<PreparedIntentView, DomainErrorView>, LedgerView) {
    let command = CommandView::PrepareActionTransition {
        kind,
        action_id,
        expected_version,
        details,
    };
    let replay = ledger.snapshot.replay;
    match replay_index(replay, key) {
        Some(i) => (
            if replay[i].command matches CommandView::PrepareActionTransition {
                kind: recorded,
                ..
            } && recorded == kind {
                replayed_preparation(replay[i].result, correlation)
            } else {
                Err(conflict_view(correlation))
            },
            ledger,
        ),
        None => if !can_record(ledger, key) {
            (Err(persistence_view(correlation)), ledger)
        } else {
            match decision {
                Ok(prepared) => if prepared_index(ledger.snapshot.prepared, prepared.id) is Some {
                    (Err(persistence_view(correlation)), ledger)
                } else {
                    (Ok(prepared), with_prepared(ledger, key, correlation, command, prepared))
                },
                Err(_) => (Err(persistence_view(correlation)), ledger),
            }
        },
    }
}

impl SqliteProductLedger {
    /// The shared body of preparing a completion, cancellation or
    /// reopening.
    fn prepare_action_transition(
        &mut self,
        context: ActionOperationContext,
        kind: PreparedIntentKind,
        action_id: String,
        expected_version: u64,
        details: TransitionDetails,
        decision: Result<PreparedIntent, DomainError>,
    ) -> (result: Result<PreparedIntent, DomainError>)
        requires
            old(self).wf(),
            is_action_transition(kind),
        ensures
            final(self).wf(),
            prepared_result_view(result) == prepare_transition_model(
                old(self)@,
                context.idempotency_id@,
                context.correlation_id@,
                kind,
                action_id@,
                expected_version,
                details@,
                prepared_result_view(decision),
            ).0,
            final(self)@ == prepare_transition_model(
                old(self)@,
                context.idempotency_id@,
                context.correlation_id@,
                kind,
                action_id@,
                expected_version,
                details@,
                prepared_result_view(decision),
            ).1,
    {
        let ghost before = self@;
        let snapshot = self.snapshot();
        if let Some(i) = find_capsule(&snapshot.replay, &context.idempotency_id) {
            let same = match &snapshot.replay[i].command {
                ActionPersistenceCommand::PrepareActionTransition { kind: recorded, .. } => *recorded
                    == kind,
                _ => false,
            };
            if !same {
                return Err(idempotency_conflict(&context));
            }
            return match &snapshot.replay[i].result {
                ActionPersistenceResult::Prepared(intent) => Ok(intent.clone()),
                ActionPersistenceResult::Terminal(error, _) => Err(error.clone()),
                _ => Err(persistence_error(&context)),
            };
        }
        if compute_next_ordinal(&snapshot.replay).is_none() || self.revision() == u64::MAX {
            return Err(persistence_error(&context));
        }
        let command = ActionPersistenceCommand::PrepareActionTransition {
            kind,
            action_id,
            expected_version,
            details,
        };
        match decision {
            Ok(prepared) => {
                if find_prepared(&snapshot.prepared, &prepared.id).is_some() {
                    return Err(persistence_error(&context));
                }
                let mut changed = self.snapshot().clone();
                let ghost prepared_view = prepared@;
                changed.prepared.push(prepared.clone());
                proof {
                    assert(prepared_views(changed.prepared@) =~= before.snapshot.prepared.push(
                        prepared_view,
                    ));
                    lemma_push_prepared(before.snapshot.prepared, prepared_view);
                }
                let recorded = prepared.clone();
                self.record_command(changed, context, command, ActionPersistenceResult::Prepared(recorded));
                Ok(prepared)
            },
            Err(_) => Err(persistence_error(&context)),
        }
    }

    /// Records the domain service's decision on preparing the completion
    /// of an Action in progress: its preview stays pending for approval;
    /// a denial rolls the attempt back with a persistence error.
    pub fn prepare_complete_action(
        &mut self,
        command: PrepareCompleteAction,
        decision: Result<PreparedIntent, DomainError>,
    ) -> (result: Result<PreparedIntent, DomainError>)
        requires
            old(self).wf(),
        ensures
            final(self).wf(),
            prepared_result_view(result) == prepare_transition_model(
                old(self)@,
                command.context.idempotency_id@,
                command.context.correlation_id@,
                PreparedIntentKind::CompleteAction,
                command.action_id@,
                command.expected_version,
                command.details(),
                prepared_result_view(decision),
            ).0,
            final(self)@ == prepare_transition_model(
                old(self)@,
                command.context.idempotency_id@,
                command.context.correlation_id@,
                PreparedIntentKind::CompleteAction,
                command.action_id@,
                command.expected_version,
                command.details(),
                prepared_result_view(decision),
            ).1,
    {
        let details = TransitionDetails { reason: None, mode: None, judgment: command.judgment };
        self.prepare_action_transition(
            command.context,
            PreparedIntentKind::CompleteAction,
            command.action_id,
            command.expected_version,
            details,
            decision,
        )
    }

    /// Records the domain service's decision on preparing the cancellation
    /// of an Action: its preview stays pending for approval; a denial rolls
    /// the attempt back with a persistence error.
    pub fn prepare_cancel_action(
        &mut self,
        command: PrepareCancelAction,
        decision: Result<PreparedIntent, DomainError>,
    ) -> (result: Result<PreparedIntent, DomainError>)
        requires
            old(self).wf(),
        ensures
            final(self).wf(),
            prepared_result_view(result) == prepare_transition_model(
                old(self)@,
                command.context.idempotency_id@,
                command.context.correlation_id@,
                PreparedIntentKind::CancelAction,
                command.action_id@,
                command.expected_version,
                command.details(),
                prepared_result_view(decision),
            ).0,
            final(self)@ == prepare_transition_model(
                old(self)@,
                command.context.idempotency_id@,
                command.context.correlation_id@,
                PreparedIntentKind::CancelAction,
                command.action_id@,
                command.expected_version,
                command.details(),
                prepared_result_view(decision),
            ).1,
    {
        let details = TransitionDetails { reason: Some(command.reason), mode: None, judgment: None };
        self.prepare_action_transition(
            command.context,
            PreparedIntentKind::CancelAction,
            command.action_id,
            command.expected_version,
            details,
            decision,
        )
    }

    /// Records the domain service's decision on preparing the reopening of
    /// an Action: its preview stays pending for approval; a denial rolls the
    /// attempt back with a persistence error.
    pub fn prepare_reopen_action(
        &mut self,
        command: PrepareReopenAction,
        decision: Result<PreparedIntent, DomainError>,
    ) -> (result: Result<PreparedIntent, DomainError>)
        requires
            old(self).wf(),
        ensures
            final(self).wf(),
            prepared_result_view(result) == prepare_transition_model(
                old(self)@,
                command.context.idempotency_id@,
                command.context.correlation_id@,
                PreparedIntentKind::ReopenAction,
                command.action_id@,
                command.expected_version,
                command.details(),
                prepared_result_view(decision),
            ).0,
            final(self)@ == prepare_transition_model(
                old(self)@,
                command.context.idempotency_id@,
                command.context.correlation_id@,
                PreparedIntentKind::ReopenAction,
                command.action_id@,
                command.expected_version,
                command.details(),
                prepared_result_view(decision),
            ).1,
    {
        let details = TransitionDetails {
            reason: Some(command.reason),
            mode: Some(command.mode),
            judgment: None,
        };
        self.prepare_action_transition(
            command.context,
            PreparedIntentKind::ReopenAction,
            command.action_id,
            command.expected_version,
            details,
            decision,
        )
    }
}

// ---------------------------------------------------------------------------
// Rejecting a preview
// ---------------------------------------------------------------------------

pub open spec fn rejected_result_view(result: Result<RejectedPreparedIntentOutcome, DomainError>) -> Result<
    RejectedOutcomeView,
    DomainErrorView,
> {
    match result {
        Ok(outcome) => Ok(outcome@),
        Err(error) => Err(error@),
    }
}

/// Whether an accepted outcome is the one the pending acceptance
/// `prepared_id` previews: its request is the previewed one, now accepted
/// and linked to the previewed Action, which is new: open at version 1.
pub open spec fn accepts_pending(
    prepared: Seq<PreparedIntentView>,
    prepared_id: Seq<char>,
    outcome: AcceptedOutcomeView,
) -> bool {
    match prepared_index(prepared, prepared_id) {
        Some(p) => accepts_preview(prepared[p].operation, outcome),
        None => false,
    }
}

/// Whether an accepted outcome accepts the request the acceptance
/// `operation` names into the Action it names.
pub open spec fn accepts_preview(operation: PreparedOperationView, outcome: AcceptedOutcomeView) -> bool {
    match operation {
        PreparedOperationView::AcceptActionRequest { request_id, action_id, .. } => {
            &&& outcome.request.id == request_id
            &&& outcome.request.state == ActionRequestState::Accepted
            &&& outcome.request.linked_action_id == Some(action_id)
            &&& outcome.action.id == action_id
            &&& outcome.action.state == ActionState::Open
            &&& outcome.action.version == 1
        },
        _ => false,
    }
}

/// Whether a rejection outcome is the rejection of the pending preview
/// `prepared` with the audit event `audit_event_id` at `occurred_at`: it
/// names the preview, that audit event and that instant, is audited on the
/// preview's target, and counts as expired exactly when the preview had
/// expired by then.
pub open spec fn rejection_of(
    outcome: RejectedOutcomeView,
    prepared: PreparedIntentView,
    audit_event_id: Seq<char>,
    occurred_at: i64,
) -> bool {
    &&& outcome.prepared_intent_id == prepared.id
    &&& outcome.audit_event_id == audit_event_id
    &&& outcome.occurred_at == occurred_at
    &&& rejection_target(prepared.operation) == Some(outcome.target)
    &&& outcome.expired == (occurred_at >= prepared.expires_at)
}

/// What rejecting the pending preview `prepared_id` returns, and the ledger
/// afterwards, given what the domain service decided: a rejection of the
/// preview under the audit event `audit_event_id` at `occurred_at` consumes
/// the preview, which joins the discarded ones with that consumption time,
/// and is recorded; a refusal changes nothing, and an outcome that is not
/// that rejection is a persistence failure.  A key recorded for the same
/// rejection replays it; a key recorded for anything else is an
/// idempotency conflict.
pub open spec fn reject_model(
    ledger: LedgerView,
    key: Seq<char>,
    correlation: Seq<char>,
    prepared_id: Seq<char>,
    actor: Seq<char>,
    audit_event_id: Seq<char>,
    occurred_at: i64,
    decision: Result<RejectedOutcomeView, DomainErrorView>,
) -> (Result<RejectedOutcomeView, DomainErrorView>, LedgerView) {
    let command = CommandView::RejectPrepared { prepared_id, actor };
    let replay = ledger.snapshot.replay;
    match replay_index(replay, key) {
        Some(i) => (
            if replay[i].command == command {
                match replay[i].result {
                    ResultView::Rejected(outcome) => Ok(outcome),
                    _ => Err(persistence_view(correlation)),
                }
            } else {
                Err(conflict_view(correlation))
            },
            ledger,
        ),
        None => match decision {
            Err(error) => (Err(error), ledger),
            Ok(outcome) => match prepared_index(ledger.snapshot.prepared, prepared_id) {
                None => (Err(persistence_view(correlation)), ledger),
                Some(k) => if !can_record(ledger, key) || !rejection_of(
                    outcome,
                    ledger.snapshot.prepared[k],
                    audit_event_id,
                    occurred_at,
                ) {
                    (Err(persistence_view(correlation)), ledger)
                } else {
                    (
                        Ok(outcome),
                        with_recorded(
                            ledger,
                            SnapshotView {
                                prepared: ledger.snapshot.prepared.remove(k),
                                discarded: ledger.snapshot.discarded.push(
                                    DiscardedView {
                                        intent: ledger.snapshot.prepared[k],
                                        consumed_at: outcome.occurred_at,
                                    },
                                ),
                                ..ledger.snapshot
                            },
                            key,
                            correlation,
                            command,
                            ResultView::Rejected(outcome),
                        ),
                    )
                },
            },
        },
    }
}

impl SqliteProductLedger {
    /// Records the Head of Products' rejection of a pending preview, as the
    /// domain service decided it under the audit event `audit_event_id` at
    /// `occurred_at`: the preview is consumed at that instant with its one
    /// zero-effect audit event and joins the discarded previews.
    pub fn reject_action_prepared_intent(
        &mut self,
        command: RejectActionPreparedIntent,
        audit_event_id: String,
        occurred_at: i64,
        decision: Result<RejectedPreparedIntentOutcome, DomainError>,
    ) -> (result: Result<RejectedPreparedIntentOutcome, DomainError>)
        requires
            old(self).wf(),
        ensures
            final(self).wf(),
            rejected_result_view(result) == reject_model(
                old(self)@,
                command.context.idempotency_id@,
                command.context.correlation_id@,
                command.prepared_id@,
                command.actor@,
                audit_event_id@,
                occurred_at,
                rejected_result_view(decision),
            ).0,
            final(self)@ == reject_model(
                old(self)@,
                command.context.idempotency_id@,
                command.context.correlation_id@,
                command.prepared_id@,
                command.actor@,
                audit_event_id@,
                occurred_at,
                rejected_result_view(decision),
            ).1,
    {
        let ghost before = self@;
        let snapshot = self.snapshot();
        if let Some(i) = find_capsule(&snapshot.replay, &command.context.idempotency_id) {
            let same = match &snapshot.replay[i].command {
                ActionPersistenceCommand::RejectPrepared { prepared_id, actor } => str_eq(
                    prepared_id.as_str(),
                    command.prepared_id.as_str(),
                ) && str_eq(actor.as_str(), command.actor.as_str()),
                _ => false,
            };
            if !same {
                return Err(idempotency_conflict(&command.context));
            }
            return match &snapshot.replay[i].result {
                ActionPersistenceResult::Rejected(outcome) => Ok(outcome.clone()),
                _ => Err(persistence_error(&command.context)),
            };
        }
        let outcome = match decision {
            Ok(outcome) => outcome,
            Err(error) => {
                return Err(error);
            },
        };
        let k = match find_prepared(&snapshot.prepared, &command.prepared_id) {
            Some(k) => k,
            None => {
                return Err(persistence_error(&command.context));
            },
        };
        if !check_rejection_of(&outcome, &snapshot.prepared[k], &audit_event_id, occurred_at) {
            return Err(persistence_error(&command.context));
        }
        if compute_next_ordinal(&snapshot.replay).is_none() || self.revision() == u64::MAX {
            return Err(persistence_error(&command.context));
        }
        let mut changed = self.snapshot().clone();
        let consumed = changed.prepared.remove(k);
        proof {
            assert(consumed@ == before.snapshot.prepared[k as int]);
            assert(prepared_views(changed.prepared@) =~= before.snapshot.prepared.remove(k as int));
            lemma_remove_prepared(before.snapshot.prepared, k as int);
        }
        changed.discarded.push(DiscardedPreview { intent: consumed, consumed_at: outcome.occurred_at });
        proof {
            assert(discarded_views(changed.discarded@) =~= before.snapshot.discarded.push(
                DiscardedView { intent: before.snapshot.prepared[k as int], consumed_at: outcome.occurred_at },
            ));
        }
        let recorded = outcome.clone();
        self.record_command(
            changed,
            command.context,
            ActionPersistenceCommand::RejectPrepared {
                prepared_id: command.prepared_id,
                actor: command.actor,
            },
            ActionPersistenceResult::Rejected(recorded),
        );
        Ok(outcome)
    }
}

// ---------------------------------------------------------------------------
// Approving and executing a preview
// ---------------------------------------------------------------------------

/// How an approved execution of a preview of `kind` is recorded.
pub open spec fn execution_command(kind: PreparedIntentKind, approval: ApprovalView) -> CommandView {
    CommandView::ExecutePrepared {
        kind,
        prepared_id: approval.prepared_id,
        actor: approval.actor,
        acknowledged_digest: approval.acknowledged_payload_digest,
    }
}

/// The ledger after a refusal the domain service recorded as the key's
/// terminal outcome; where the refusal discarded the preview, it leaves the
/// pending ones for the discarded ones.
pub open spec fn with_terminal(
    ledger: LedgerView,
    key: Seq<char>,
    correlation: Seq<char>,
    command: CommandView,
    error: DomainErrorView,
    record: TerminalRecordView,
    prepared_id: Seq<char>,
) -> LedgerView {
    let changed = if record.discards() {
        SnapshotView {
            prepared: without_prepared(ledger.snapshot.prepared, prepared_id),
            discarded: with_discarded(
                ledger.snapshot.discarded,
                ledger.snapshot.prepared,
                prepared_id,
                record.occurred_at,
            ),
            ..ledger.snapshot
        }
    } else {
        ledger.snapshot
    };
    with_recorded(
        ledger,
        changed,
        key,
        correlation,
        command,
        ResultView::Terminal(error, record),
    )
}

/// What a recorded acceptance replays: the accepted outcome, or the
/// refusal recorded for it.
pub open spec fn replayed_acceptance(result: ResultView, correlation: Seq<char>) -> Result<
    AcceptedOutcomeView,
    DomainErrorView,
> {
    match result {
        ResultView::Accepted(outcome) => Ok(outcome),
        ResultView::Terminal(error, _) => Err(error),
        _ => Err(persistence_view(correlation)),
    }
}

pub open spec fn accepted_result_view(result: Result<AcceptedActionOutcome, DomainError>) -> Result<
    AcceptedOutcomeView,
    DomainErrorView,
> {
    match result {
        Ok(outcome) => Ok(outcome@),
        Err(error) => Err(error@),
    }
}

/// What approving and executing a prepared acceptance returns, and the
/// ledger afterwards, given what the domain service decided.  An executed
/// acceptance records exactly three audit events, with the ids
/// `audit_ids` in order, under the approval receipt `receipt_id`, which no
/// recorded command consumed before: the previewed Action Request, accepted and linked to the previewed Action,
/// replaces the recorded one, that new Action joins the namespace and the
/// preview is consumed.
pub open spec fn execute_accept_model(
    ledger: LedgerView,
    key: Seq<char>,
    correlation: Seq<char>,
    approval: ApprovalView,
    audit_ids: Seq<Seq<char>>,
    receipt_id: Seq<char>,
    decision: DecisionView<AcceptedOutcomeView>,
) -> (Result<AcceptedOutcomeView, DomainErrorView>, LedgerView) {
    let command = execution_command(PreparedIntentKind::AcceptActionRequest, approval);
    let replay = ledger.snapshot.replay;
    let requests = ledger.snapshot.requests;
    let actions = ledger.snapshot.actions;
    if approval.idempotency_id != key {
        (Err(conflict_view(correlation)), ledger)
    } else {
        match replay_index(replay, key) {
            Some(i) => (
                if replay[i].command == command {
                    replayed_acceptance(replay[i].result, correlation)
                } else {
                    Err(conflict_view(correlation))
                },
                ledger,
            ),
            None => match decision {
                DecisionView::Refused(error) => (Err(error), ledger),
                DecisionView::Terminal { error, record } => if !can_record(ledger, key) {
                    (Err(persistence_view(correlation)), ledger)
                } else {
                    (
                        Err(error),
                        with_terminal(
                            ledger,
                            key,
                            correlation,
                            command,
                            error,
                            record,
                            approval.prepared_id,
                        ),
                    )
                },
                DecisionView::Executed(outcome) => if outcome.audit_events.len() != 3
                    || !audit_ids_match(outcome.audit_events, audit_ids)
                    || outcome.approval_receipt_id != receipt_id || !receipt_unused(replay, receipt_id)
                    || !accepts_pending(
                    ledger.snapshot.prepared,
                    approval.prepared_id,
                    outcome,
                ) {
                    (Err(persistence_view(correlation)), ledger)
                } else {
                    match request_index(requests, outcome.request.id) {
                        None => (Err(persistence_view(correlation)), ledger),
                        Some(j) => if action_index(actions, outcome.action.id) is Some
                            || outcome.request.version < 1 || outcome.action.version < 1
                            || !can_record(ledger, key) {
                            (Err(persistence_view(correlation)), ledger)
                        } else {
                            (
                                Ok(outcome),
                                with_recorded(
                                    ledger,
                                    SnapshotView {
                                        requests: requests.update(j, outcome.request),
                                        actions: actions.push(outcome.action),
                                        prepared: without_prepared(
                                            ledger.snapshot.prepared,
                                            approval.prepared_id,
                                        ),
                                        ..ledger.snapshot
                                    },
                                    key,
                                    correlation,
                                    command,
                                    ResultView::Accepted(outcome),
                                ),
                            )
                        },
                    }
                },
            },
        }
    }
}

proof fn lemma_update_request(requests: Seq<ActionRequestView>, j: int, request: ActionRequestView)
    requires
        crate::ledger::request_ids_distinct(requests),
        0 <= j < requests.len(),
        request.id == requests[j].id,
    ensures
        crate::ledger::request_ids_distinct(requests.update(j, request)),
{
    let updated = requests.update(j, request);
    assert forall|a: int, b: int|
        0 <= a < updated.len() && 0 <= b < updated.len() && a != b implies #[trigger] updated[a].id
        != #[trigger] updated[b].id by {
        assert(updated[a].id == requests[a].id);
        assert(updated[b].id == requests[b].id);
    }
}

proof fn lemma_update_action(actions: Seq<ActionView>, j: int, action: ActionView)
    requires
        crate::ledger::action_ids_distinct(actions),
        0 <= j < actions.len(),
        action.id == actions[j].id,
    ensures
        crate::ledger::action_ids_distinct(actions.update(j, action)),
{
    let updated = actions.update(j, action);
    assert forall|a: int, b: int|
        0 <= a < updated.len() && 0 <= b < updated.len() && a != b implies #[trigger] updated[a].id
        != #[trigger] updated[b].id by {
        assert(updated[a].id == actions[a].id);
        assert(updated[b].id == actions[b].id);
    }
}

proof fn lemma_push_action(actions: Seq<ActionView>, action: ActionView)
    requires
        crate::ledger::action_ids_distinct(actions),
        action_index(actions, action.id) is None,
    ensures
        crate::ledger::action_ids_distinct(actions.push(action)),
{
    let pushed = actions.push(action);
    assert forall|a: int, b: int|
        0 <= a < pushed.len() && 0 <= b < pushed.len() && a != b implies #[trigger] pushed[a].id
        != #[trigger] pushed[b].id by {
        if a == actions.len() {
            assert(pushed[b] == actions[b]);
        } else if b == actions.len() {
            assert(pushed[a] == actions[a]);
        }
    }
}

impl SqliteProductLedger {
    /// Records a refusal the domain service recorded as the key's terminal
    /// outcome, discarding the preview where the refusal consumed it.
    fn record_terminal(
        &mut self,
        context: ActionOperationContext,
        command: ActionPersistenceCommand,
        error: &DomainError,
        record: TerminalRecord,
        prepared_id: &String,
    )
        requires
            old(self).wf(),
            can_record(old(self)@, context.idempotency_id@),
        ensures
            final(self).wf(),
            final(self)@ == with_terminal(
                old(self)@,
                context.idempotency_id@,
                context.correlation_id@,
                command@,
                error@,
                record@,
                prepared_id@,
            ),
    {
        let mut changed = self.snapshot().clone();
        if record.disposition == PreparedDisposition::ConsumedAndDiscarded {
            discard_prepared(&mut changed.prepared, &mut changed.discarded, prepared_id, record.occurred_at);
        }
        self.record_command(
            changed,
            context,
            command,
            ActionPersistenceResult::Terminal(error.clone(), record),
        );
    }

    /// Records the domain service's decision on the Head of Products'
    /// approval of a prepared acceptance: the accepted Action Request, the
    /// Action it created and the consumed preview, with the three audit
    /// events minted under `audit_event_ids`, or the refusal.
    pub fn approve_and_execute_accept_action_request(
        &mut self,
        command: ApproveAndExecuteAcceptActionRequest,
        audit_event_ids: [String; 3],
        approval_receipt_id: String,
        decision: ExecutionDecision<AcceptedActionOutcome>,
    ) -> (result: Result<AcceptedActionOutcome, DomainError>)
        requires
            old(self).wf(),
        ensures
            final(self).wf(),
            accepted_result_view(result) == execute_accept_model(
                old(self)@,
                command.context.idempotency_id@,
                command.context.correlation_id@,
                command.approval@,
                id_views(audit_event_ids@),
                approval_receipt_id@,
                decision@,
            ).0,
            final(self)@ == execute_accept_model(
                old(self)@,
                command.context.idempotency_id@,
                command.context.correlation_id@,
                command.approval@,
                id_views(audit_event_ids@),
                approval_receipt_id@,
                decision@,
            ).1,
    {
        let ghost before = self@;
        let context = command.context;
        let approval = command.approval;
        if !str_eq(approval.idempotency_id.as_str(), context.idempotency_id.as_str()) {
            return Err(idempotency_conflict(&context));
        }
        let snapshot = self.snapshot();
        if let Some(i) = find_capsule(&snapshot.replay, &context.idempotency_id) {
            let same = match &snapshot.replay[i].command {
                ActionPersistenceCommand::ExecutePrepared {
                    kind,
                    prepared_id,
                    actor,
                    acknowledged_digest,
                } => *kind == PreparedIntentKind::AcceptActionRequest && str_eq(
                    prepared_id.as_str(),
                    approval.prepared_id.as_str(),
                ) && str_eq(actor.as_str(), approval.actor.as_str()) && str_eq(
                    acknowledged_digest.as_str(),
                    approval.acknowledged_payload_digest.as_str(),
                ),
                _ => false,
            };
            if !same {
                return Err(idempotency_conflict(&context));
            }
            return match &snapshot.replay[i].result {
                ActionPersistenceResult::Accepted(outcome) => Ok(outcome.clone()),
                ActionPersistenceResult::Terminal(error, _) => Err(error.clone()),
                _ => Err(persistence_error(&context)),
            };
        }
        let recorded_command = ActionPersistenceCommand::ExecutePrepared {
            kind: PreparedIntentKind::AcceptActionRequest,
            prepared_id: approval.prepared_id.clone(),
            actor: approval.actor,
            acknowledged_digest: approval.acknowledged_payload_digest,
        };
        let outcome = match decision {
            ExecutionDecision::Refused(error) => {
                return Err(error);
            },
            ExecutionDecision::Terminal { error, record } => {
                if compute_next_ordinal(&snapshot.replay).is_none() || self.revision() == u64::MAX {
                    return Err(persistence_error(&context));
                }
                self.record_terminal(context, recorded_command, &error, record, &approval.prepared_id);
                return Err(error);
            },
            ExecutionDecision::Executed(outcome) => outcome,
        };
        if outcome.audit_events.len() != 3 || !str_eq(
            outcome.approval_receipt_id.as_str(),
            approval_receipt_id.as_str(),
        ) {
            return Err(persistence_error(&context));
        }
        if !events_carry_ids(&outcome.audit_events, &audit_event_ids) || !check_receipt_unused(
            &snapshot.replay,
            &approval_receipt_id,
        ) {
            return Err(persistence_error(&context));
        }
        let previewed = match find_prepared(&snapshot.prepared, &approval.prepared_id) {
            Some(p) => check_accepts_preview(&snapshot.prepared[p].operation, &outcome),
            None => false,
        };
        if !previewed {
            return Err(persistence_error(&context));
        }
        let j = match find_request(&snapshot.requests, &outcome.request.id) {
            Some(j) => j,
            None => {
                return Err(persistence_error(&context));
            },
        };
        if find_action(&snapshot.actions, &outcome.action.id).is_some() || outcome.request.version
            < 1 || outcome.action.version < 1 {
            return Err(persistence_error(&context));
        }
        if compute_next_ordinal(&snapshot.replay).is_none() || self.revision() == u64::MAX {
            return Err(persistence_error(&context));
        }
        let mut changed = self.snapshot().clone();
        let ghost request_view = outcome.request@;
        let ghost action_view = outcome.action@;
        changed.requests.set(j, outcome.request.clone());
        changed.actions.push(outcome.action.clone());
        remove_prepared(&mut changed.prepared, &approval.prepared_id);
        proof {
            assert(request_views(changed.requests@) =~= before.snapshot.requests.update(
                j as int,
                request_view,
            ));
            assert(action_views(changed.actions@) =~= before.snapshot.actions.push(action_view));
            lemma_update_request(before.snapshot.requests, j as int, request_view);
            lemma_push_action(before.snapshot.actions, action_view);
        }
        let recorded = outcome.clone();
        self.record_command(
            changed,
            context,
            recorded_command,
            ActionPersistenceResult::Accepted(recorded),
        );
        Ok(outcome)
    }
}

/// What a recorded execution on an Action replays: the outcome, or the
/// refusal recorded for it where refusals of the kind are recorded.
pub open spec fn replayed_execution(
    result: ResultView,
    correlation: Seq<char>,
    terminal_recorded: bool,
) -> Result<OutcomeView<ActionView>, DomainErrorView> {
    match result {
        ResultView::Action(outcome) => Ok(outcome),
        ResultView::Terminal(error, _) => if terminal_recorded {
            Err(error)
        } else {
            Err(persistence_view(correlation))
        },
        _ => Err(persistence_view(correlation)),
    }
}

pub open spec fn action_outcome_view(result: Result<ActionMutationOutcome<ActionRecord>, DomainError>) -> Result<
    OutcomeView<ActionView>,
    DomainErrorView,
> {
    match result {
        Ok(outcome) => Ok(outcome@),
        Err(error) => Err(error@),
    }
}

/// A domain decision on a lowering: its refusals are never recorded.
pub open spec fn lowering_decision(result: Result<ActionMutationOutcome<ActionRecord>, DomainError>) -> DecisionView<
    OutcomeView<ActionView>,
> {
    match result {
        Ok(outcome) => DecisionView::Executed(outcome@),
        Err(error) => DecisionView::Refused(error@),
    }
}

/// What approving and executing a prepared change of kind `kind` to an
/// Action returns, and the ledger afterwards, given what the domain service
/// decided.  An executed change records exactly one audit event under the
/// approval receipt `receipt_id`, which no recorded command consumed
/// before: the changed Action, which must be the one the pending preview
/// names, replaces the recorded one (a completed Action stored with the
/// preview as its support exactly when the domain's record has support)
/// and the preview is consumed.  Refusals of a lowering are never
/// recorded.
pub open spec fn execute_action_model(
    ledger: LedgerView,
    key: Seq<char>,
    correlation: Seq<char>,
    kind: PreparedIntentKind,
    approval: ApprovalView,
    receipt_id: Seq<char>,
    decision: DecisionView<OutcomeView<ActionView>>,
) -> (Result<OutcomeView<ActionView>, DomainErrorView>, LedgerView) {
    let command = execution_command(kind, approval);
    let replay = ledger.snapshot.replay;
    let actions = ledger.snapshot.actions;
    if approval.idempotency_id != key {
        (Err(conflict_view(correlation)), ledger)
    } else {
        match replay_index(replay, key) {
            Some(i) => (
                if replay[i].command == command {
                    replayed_execution(
                        replay[i].result,
                        correlation,
                        kind != PreparedIntentKind::LowerActionClassification,
                    )
                } else {
                    Err(conflict_view(correlation))
                },
                ledger,
            ),
            None => match decision {
                DecisionView::Refused(error) => (Err(error), ledger),
                DecisionView::Terminal { error, record } => if !can_record(ledger, key) {
                    (Err(persistence_view(correlation)), ledger)
                } else {
                    (
                        Err(error),
                        with_terminal(
                            ledger,
                            key,
                            correlation,
                            command,
                            error,
                            record,
                            approval.prepared_id,
                        ),
                    )
                },
                DecisionView::Executed(outcome) => if outcome.audit_events.len() != 1
                    || outcome.approval_receipt_id != Some(receipt_id) || !receipt_unused(
                    replay,
                    receipt_id,
                ) || !targets_pending(
                    ledger.snapshot.prepared,
                    approval.prepared_id,
                    kind,
                    outcome.record.id,
                ) {
                    (Err(persistence_view(correlation)), ledger)
                } else {
                    match action_index(actions, outcome.record.id) {
                        None => (Err(persistence_view(correlation)), ledger),
                        Some(j) => if outcome.record.version < 1 || !can_record(ledger, key) {
                            (Err(persistence_view(correlation)), ledger)
                        } else {
                            (
                                Ok(outcome),
                                with_recorded(
                                    ledger,
                                    SnapshotView {
                                        actions: actions.update(
                                            j,
                                            stored_change(kind, outcome.record, approval.prepared_id),
                                        ),
                                        prepared: without_prepared(
                                            ledger.snapshot.prepared,
                                            approval.prepared_id,
                                        ),
                                        ..ledger.snapshot
                                    },
                                    key,
                                    correlation,
                                    command,
                                    ResultView::Action(outcome),
                                ),
                            )
                        },
                    }
                },
            },
        }
    }
}

impl SqliteProductLedger {
    /// The shared body of executing an approved change to an Action.
    fn execute_action_change(
        &mut self,
        context: ActionOperationContext,
        kind: PreparedIntentKind,
        approval: PreparedApproval,
        approval_receipt_id: String,
        decision: ExecutionDecision<ActionMutationOutcome<ActionRecord>>,
    ) -> (result: Result<ActionMutationOutcome<ActionRecord>, DomainError>)
        requires
            old(self).wf(),
            kind != PreparedIntentKind::AcceptActionRequest,
        ensures
            final(self).wf(),
            action_outcome_view(result) == execute_action_model(
                old(self)@,
                context.idempotency_id@,
                context.correlation_id@,
                kind,
                approval@,
                approval_receipt_id@,
                decision@,
            ).0,
            final(self)@ == execute_action_model(
                old(self)@,
                context.idempotency_id@,
                context.correlation_id@,
                kind,
                approval@,
                approval_receipt_id@,
                decision@,
            ).1,
    {
        let ghost before = self@;
        if !str_eq(approval.idempotency_id.as_str(), context.idempotency_id.as_str()) {
            return Err(idempotency_conflict(&context));
        }
        let snapshot = self.snapshot();
        if let Some(i) = find_capsule(&snapshot.replay, &context.idempotency_id) {
            let same = match &snapshot.replay[i].command {
                ActionPersistenceCommand::ExecutePrepared {
                    kind: recorded_kind,
                    prepared_id,
                    actor,
                    acknowledged_digest,
                } => *recorded_kind == kind && str_eq(
                    prepared_id.as_str(),
                    approval.prepared_id.as_str(),
                ) && str_eq(actor.as_str(), approval.actor.as_str()) && str_eq(
                    acknowledged_digest.as_str(),
                    approval.acknowledged_payload_digest.as_str(),
                ),
                _ => false,
            };
            if !same {
                return Err(idempotency_conflict(&context));
            }
            return match &snapshot.replay[i].result {
                ActionPersistenceResult::Action(outcome) => Ok(clone_action_outcome(outcome)),
                ActionPersistenceResult::Terminal(error, _) => if kind
                    != PreparedIntentKind::LowerActionClassification {
                    Err(error.clone())
                } else {
                    Err(persistence_error(&context))
                },
                _ => Err(persistence_error(&context)),
            };
        }
        let recorded_command = ActionPersistenceCommand::ExecutePrepared {
            kind,
            prepared_id: approval.prepared_id.clone(),
            actor: approval.actor,
            acknowledged_digest: approval.acknowledged_payload_digest,
        };
        let outcome = match decision {
            ExecutionDecision::Refused(error) => {
                return Err(error);
            },
            ExecutionDecision::Terminal { error, record } => {
                if compute_next_ordinal(&snapshot.replay).is_none() || self.revision() == u64::MAX {
                    return Err(persistence_error(&context));
                }
                self.record_terminal(context, recorded_command, &error, record, &approval.prepared_id);
                return Err(error);
            },
            ExecutionDecision::Executed(outcome) => outcome,
        };
        let receipt_matches = match &outcome.approval_receipt_id {
            Some(receipt) => str_eq(receipt.as_str(), approval_receipt_id.as_str()),
            None => false,
        };
        let targets = match find_prepared(&snapshot.prepared, &approval.prepared_id) {
            Some(p) => operation_targets(&snapshot.prepared[p].operation, kind, &outcome.record.id),
            None => false,
        };
        if outcome.audit_events.len() != 1 || !receipt_matches || !targets || !check_receipt_unused(
            &snapshot.replay,
            &approval_receipt_id,
        ) {
            return Err(persistence_error(&context));
        }
        let j = match find_action(&snapshot.actions, &outcome.record.id) {
            Some(j) => j,
            None => {
                return Err(persistence_error(&context));
            },
        };
        if outcome.record.version < 1 {
            return Err(persistence_error(&context));
        }
        if compute_next_ordinal(&snapshot.replay).is_none() || self.revision() == u64::MAX {
            return Err(persistence_error(&context));
        }
        let mut changed = self.snapshot().clone();
        let mut stored = outcome.record.clone();
        if kind == PreparedIntentKind::CompleteAction {
            stored.supported_by = match &outcome.record.supported_by {
                Some(_) => Some(approval.prepared_id.clone()),
                None => None,
            };
        }
        let ghost action_view = stored@;
        assert(action_view == stored_change(kind, outcome.record@, approval.prepared_id@));
        changed.actions.set(j, stored);
        remove_prepared(&mut changed.prepared, &approval.prepared_id);
        proof {
            assert(action_views(changed.actions@) =~= before.snapshot.actions.update(
                j as int,
                action_view,
            ));
            lemma_update_action(before.snapshot.actions, j as int, action_view);
        }
        let recorded = clone_action_outcome(&outcome);
        self.record_command(changed, context, recorded_command, ActionPersistenceResult::Action(recorded));
        Ok(outcome)
    }

    /// Records the domain service's decision on the Head of Products'
    /// approval of a prepared classification lowering: the lowered Action
    /// and the consumed preview; a refusal changes nothing.
    pub fn approve_and_execute_lower_action_classification(
        &mut self,
        command: ApproveAndExecuteLowerActionClassification,
        approval_receipt_id: String,
        decision: Result<ActionMutationOutcome<ActionRecord>, DomainError>,
    ) -> (result: Result<ActionMutationOutcome<ActionRecord>, DomainError>)
        requires
            old(self).wf(),
        ensures
            final(self).wf(),
            action_outcome_view(result) == execute_action_model(
                old(self)@,
                command.context.idempotency_id@,
                command.context.correlation_id@,
                PreparedIntentKind::LowerActionClassification,
                command.approval@,
                approval_receipt_id@,
                lowering_decision(decision),
            ).0,
            final(self)@ == execute_action_model(
                old(self)@,
                command.context.idempotency_id@,
                command.context.correlation_id@,
                PreparedIntentKind::LowerActionClassification,
                command.approval@,
                approval_receipt_id@,
                lowering_decision(decision),
            ).1,
    {
        let decision = match decision {
            Ok(outcome) => ExecutionDecision::Executed(outcome),
            Err(error) => ExecutionDecision::Refused(error),
        };
        self.execute_action_change(
            command.context,
            PreparedIntentKind::LowerActionClassification,
            command.approval,
            approval_receipt_id,
            decision,
        )
    }

    /// Records the domain service's decision on the Head of Products'
    /// approval of a prepared completion: the completed Action and the
    /// consumed preview, or the refusal.
    pub fn approve_and_execute_complete_action(
        &mut self,
        command: ApproveAndExecuteCompleteAction,
        approval_receipt_id: String,
        decision: ExecutionDecision<ActionMutationOutcome<ActionRecord>>,
    ) -> (result: Result<ActionMutationOutcome<ActionRecord>, DomainError>)
        requires
            old(self).wf(),
        ensures
            final(self).wf(),
            action_outcome_view(result) == execute_action_model(
                old(self)@,
                command.context.idempotency_id@,
                command.context.correlation_id@,
                PreparedIntentKind::CompleteAction,
                command.approval@,
                approval_receipt_id@,
                decision@,
            ).0,
            final(self)@ == execute_action_model(
                old(self)@,
                command.context.idempotency_id@,
                command.context.correlation_id@,
                PreparedIntentKind::CompleteAction,
                command.approval@,
                approval_receipt_id@,
                decision@,
            ).1,
    {
        self.execute_action_change(
            command.context,
            PreparedIntentKind::CompleteAction,
            command.approval,
            approval_receipt_id,
            decision,
        )
    }

    /// Records the domain service's decision on the Head of Products'
    /// approval of a prepared cancellation: the cancelled Action and the
    /// consumed preview, or the refusal.
    pub fn approve_and_execute_cancel_action(
        &mut self,
        command: ApproveAndExecuteCancelAction,
        approval_receipt_id: String,
        decision: ExecutionDecision<ActionMutationOutcome<ActionRecord>>,
    ) -> (result: Result<ActionMutationOutcome<ActionRecord>, DomainError>)
        requires
            old(self).wf(),
        ensures
            final(self).wf(),
            action_outcome_view(result) == execute_action_model(
                old(self)@,
                command.context.idempotency_id@,
                command.context.correlation_id@,
                PreparedIntentKind::CancelAction,
                command.approval@,
                approval_receipt_id@,
                decision@,
            ).0,
            final(self)@ == execute_action_model(
                old(self)@,
                command.context.idempotency_id@,
                command.context.correlation_id@,
                PreparedIntentKind::CancelAction,
                command.approval@,
                approval_receipt_id@,
                decision@,
            ).1,
    {
        self.execute_action_change(
            command.context,
            PreparedIntentKind::CancelAction,
            command.approval,
            approval_receipt_id,
            decision,
        )
    }

    /// Records the domain service's decision on the Head of Products'
    /// approval of a prepared reopening: the reopened Action and the
    /// consumed preview, or the refusal.
    pub fn approve_and_execute_reopen_action(
        &mut self,
        command: ApproveAndExecuteReopenAction,
        approval_receipt_id: String,
        decision: ExecutionDecision<ActionMutationOutcome<ActionRecord>>,
    ) -> (result: Result<ActionMutationOutcome<ActionRecord>, DomainError>)
        requires
            old(self).wf(),
        ensures
            final(self).wf(),
            action_outcome_view(result) == execute_action_model(
                old(self)@,
                command.context.idempotency_id@,
                command.context.correlation_id@,
                PreparedIntentKind::ReopenAction,
                command.approval@,
                approval_receipt_id@,
                decision@,
            ).0,
            final(self)@ == execute_action_model(
                old(self)@,
                command.context.idempotency_id@,
                command.context.correlation_id@,
                PreparedIntentKind::ReopenAction,
                command.approval@,
                approval_receipt_id@,
                decision@,
            ).1,
    {
        self.execute_action_change(
            command.context,
            PreparedIntentKind::ReopenAction,
            command.approval,
            approval_receipt_id,
            decision,
        )
    }
}

} // verus!
