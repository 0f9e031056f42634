//! The product ledger's Action namespace and the commands that change it.
//!
//! Every command is gated by its idempotency key first: a key recorded for
//! the same command replays the recorded outcome and changes nothing, a key
//! recorded for anything else is an idempotency conflict.  A new command is
//! then checked against the current state and version of its target, and
//! if it applies, the namespace gains the changed record and one replay
//! capsule at the next operation ordinal, and the ledger revision advances
//! by one.  A refused command changes nothing.

use vstd::prelude::*;
use crate::errors::{
    action_conflict_view, action_transition_conflict, completion_evidence_already_linked,
    evidence_not_found, idempotency_conflict, not_found, already_exists, persistence_error,
    plain_error_view, request_conflict_view, request_transition_conflict, ActionOperationContext,
    DomainError, DomainErrorKind, DomainErrorView,
};
use crate::load_error::ActionPersistenceLoadError;
use crate::model::{
    clone_action_outcome, clone_bindings, clone_request_outcome, ActionMutationOutcome,
    ActionPersistenceCommand, ActionPersistenceResult, ActionPersistenceSnapshot, ActionRecord,
    ActionReplayCapsule, ActionRequestRecord, ActionTransition, ActionTransitionView, action_views,
    binding_views, capsule_views, request_views, ActionRequestView, ActionView, AuditEvent,
    AuditEventCode, AuditEventView, AuditTarget, AuditTargetView, CapsuleView, CommandView,
    CreateActionRequestDraft, DeclineActionRequest, EvidenceBinding, EvidenceBindingView,
    LinkActionCompletionEvidence, OutcomeView, DiscardedView, discarded_views, PreparedIntent, PreparedIntentView, prepared_views,
    ResultView, SnapshotView, StartAction,
    SubmitActionRequest, WithdrawActionRequest,
};
use crate::states::{ActionRequestState, ActionState};
use crate::text::{clone_opt_string, opt_string, opt_string_eq};

verus! {

/// The schema version this ledger reads and writes.
pub const CURRENT_SCHEMA_VERSION: u32 = 45;

/// The product ledger as far as the Action namespace is concerned: the
/// schema version of its store, its revision, the Action namespace and the
/// Evidence References registered beside it, each with its current
/// classification.
#[derive(Debug)]
pub struct SqliteProductLedger {
    schema_version: u32,
    revision: u64,
    snapshot: ActionPersistenceSnapshot,
    evidence: Vec<EvidenceBinding>,
}

pub struct LedgerView {
    pub schema_version: u32,
    pub revision: u64,
    pub snapshot: SnapshotView,
    pub evidence: Seq<EvidenceBindingView>,
}

impl View for SqliteProductLedger {
    type V = LedgerView;

    closed spec fn view(&self) -> LedgerView {
        LedgerView {
            schema_version: self.schema_version,
            revision: self.revision,
            snapshot: self.snapshot@,
            evidence: binding_views(self.evidence@),
        }
    }
}

// ---------------------------------------------------------------------------
// Well-formedness of the namespace
// ---------------------------------------------------------------------------

pub open spec fn request_ids_distinct(requests: Seq<ActionRequestView>) -> bool {
    forall|i: int, j: int|
        0 <= i < requests.len() && 0 <= j < requests.len() && i != j ==> #[trigger] requests[i].id
            != #[trigger] requests[j].id
}

pub open spec fn action_ids_distinct(actions: Seq<ActionView>) -> bool {
    forall|i: int, j: int|
        0 <= i < actions.len() && 0 <= j < actions.len() && i != j ==> #[trigger] actions[i].id
            != #[trigger] actions[j].id
}

pub open spec fn evidence_ids_distinct(evidence: Seq<EvidenceBindingView>) -> bool {
    forall|i: int, j: int|
        0 <= i < evidence.len() && 0 <= j < evidence.len() && i != j
            ==> #[trigger] evidence[i].evidence_id != #[trigger] evidence[j].evidence_id
}

pub open spec fn prepared_ids_distinct(prepared: Seq<PreparedIntentView>) -> bool {
    forall|i: int, j: int|
        0 <= i < prepared.len() && 0 <= j < prepared.len() && i != j ==> #[trigger] prepared[i].id
            != #[trigger] prepared[j].id
}

pub open spec fn replay_keys_distinct(replay: Seq<CapsuleView>) -> bool {
    forall|i: int, j: int|
        0 <= i < replay.len() && 0 <= j < replay.len() && i != j
            ==> #[trigger] replay[i].idempotency_id != #[trigger] replay[j].idempotency_id
}

/// Recorded commands are kept in strictly increasing operation order.
pub open spec fn ordinals_increasing(replay: Seq<CapsuleView>) -> bool {
    forall|i: int, j: int|
        0 <= i < j < replay.len() ==> #[trigger] replay[i].operation_ordinal
            < #[trigger] replay[j].operation_ordinal
}

/// Recorded commands are numbered 0, 1, 2, ... in the order they are kept,
/// as the store assigns operation ordinals.
pub open spec fn ordinals_dense(replay: Seq<CapsuleView>) -> bool {
    forall|i: int| 0 <= i < replay.len() ==> #[trigger] replay[i].operation_ordinal == i
}

/// Every aggregate version is counted from 1.
pub open spec fn versions_positive(snapshot: SnapshotView) -> bool {
    &&& forall|i: int| 0 <= i < snapshot.requests.len() ==> #[trigger] snapshot.requests[i].version >= 1
    &&& forall|i: int| 0 <= i < snapshot.actions.len() ==> #[trigger] snapshot.actions[i].version >= 1
}

/// The namespace invariant: identifiers and idempotency keys are unique,
/// recorded commands are in strictly increasing operation order, and every
/// version is positive.
pub open spec fn snapshot_wf(snapshot: SnapshotView) -> bool {
    &&& request_ids_distinct(snapshot.requests)
    &&& action_ids_distinct(snapshot.actions)
    &&& prepared_ids_distinct(snapshot.prepared)
    &&& replay_keys_distinct(snapshot.replay)
    &&& ordinals_increasing(snapshot.replay)
    &&& versions_positive(snapshot)
}

pub open spec fn ledger_wf(ledger: LedgerView) -> bool {
    &&& snapshot_wf(ledger.snapshot)
    &&& evidence_ids_distinct(ledger.evidence)
}

// ---------------------------------------------------------------------------
// Lookups and ordinals
// ---------------------------------------------------------------------------

/// The position of the recorded command with idempotency key `key`.
pub open spec fn replay_index(replay: Seq<CapsuleView>, key: Seq<char>) -> Option<int> {
    if exists|i: int| 0 <= i < replay.len() && replay[i].idempotency_id == key {
        Some(choose|i: int| 0 <= i < replay.len() && replay[i].idempotency_id == key)
    } else {
        None
    }
}

/// The position of the Action Request with id `id`.
pub open spec fn request_index(requests: Seq<ActionRequestView>, id: Seq<char>) -> Option<int> {
    if exists|i: int| 0 <= i < requests.len() && requests[i].id == id {
        Some(choose|i: int| 0 <= i < requests.len() && requests[i].id == id)
    } else {
        None
    }
}

/// The position of the Action with id `id`.
pub open spec fn action_index(actions: Seq<ActionView>, id: Seq<char>) -> Option<int> {
    if exists|i: int| 0 <= i < actions.len() && actions[i].id == id {
        Some(choose|i: int| 0 <= i < actions.len() && actions[i].id == id)
    } else {
        None
    }
}

/// The position of the registered Evidence Reference with id `id`.
pub open spec fn evidence_index(evidence: Seq<EvidenceBindingView>, id: Seq<char>) -> Option<int> {
    if exists|i: int| 0 <= i < evidence.len() && evidence[i].evidence_id == id {
        Some(choose|i: int| 0 <= i < evidence.len() && evidence[i].evidence_id == id)
    } else {
        None
    }
}

/// The ordinal the next recorded command takes: one past the greatest
/// recorded so far, or 0 for the first; none once the greatest is the
/// largest representable ordinal.
pub open spec fn next_ordinal(replay: Seq<CapsuleView>) -> Option<u64> {
    if replay.len() == 0 {
        Some(0)
    } else if replay.last().operation_ordinal < u64::MAX {
        Some((replay.last().operation_ordinal + 1) as u64)
    } else {
        None
    }
}

pub(crate) fn find_capsule(replay: &Vec<ActionReplayCapsule>, key: &String) -> (index: Option<usize>)
    requires
        replay_keys_distinct(capsule_views(replay@)),
    ensures
        match index {
            Some(i) => replay_index(capsule_views(replay@), key@) == Some(
                i as int,
            ),
            None => replay_index(capsule_views(replay@), key@) is None,
        },
{
    let ghost views = capsule_views(replay@);
    let n = replay.len();
    let mut i: usize = 0;
    while i < n
        invariant
            n == replay@.len(),
            views == capsule_views(replay@),
            replay_keys_distinct(views),
            i <= n,
            forall|k: int| 0 <= k < i ==> views[k].idempotency_id != key@,
        decreases n - i,
    {
        if replay[i].idempotency_id == *key {
            proof {
                assert(views[i as int].idempotency_id == key@);
                let k = choose|k: int| 0 <= k < views.len() && views[k].idempotency_id == key@;
                assert(views[k].idempotency_id == views[i as int].idempotency_id);
            }
            return Some(i);
        }
        i = i + 1;
    }
    None
}

pub(crate) fn find_request(requests: &Vec<ActionRequestRecord>, id: &String) -> (index: Option<usize>)
    requires
        request_ids_distinct(request_views(requests@)),
    ensures
        match index {
            Some(i) => request_index(request_views(requests@), id@) == Some(
                i as int,
            ),
            None => request_index(request_views(requests@), id@) is None,
        },
{
    let ghost views = request_views(requests@);
    let n = requests.len();
    let mut i: usize = 0;
    while i < n
        invariant
            n == requests@.len(),
            views == request_views(requests@),
            request_ids_distinct(views),
            i <= n,
            forall|k: int| 0 <= k < i ==> views[k].id != id@,
        decreases n - i,
    {
        if requests[i].id == *id {
            proof {
                assert(views[i as int].id == id@);
                let k = choose|k: int| 0 <= k < views.len() && views[k].id == id@;
                assert(views[k].id == views[i as int].id);
            }
            return Some(i);
        }
        i = i + 1;
    }
    None
}

pub(crate) fn find_action(actions: &Vec<ActionRecord>, id: &String) -> (index: Option<usize>)
    requires
        action_ids_distinct(action_views(actions@)),
    ensures
        match index {
            Some(i) => action_index(action_views(actions@), id@) == Some(i as int),
            None => action_index(action_views(actions@), id@) is None,
        },
{
    let ghost views = action_views(actions@);
    let n = actions.len();
    let mut i: usize = 0;
    while i < n
        invariant
            n == actions@.len(),
            views == action_views(actions@),
            action_ids_distinct(views),
            i <= n,
            forall|k: int| 0 <= k < i ==> views[k].id != id@,
        decreases n - i,
    {
        if actions[i].id == *id {
            proof {
                assert(views[i as int].id == id@);
                let k = choose|k: int| 0 <= k < views.len() && views[k].id == id@;
                assert(views[k].id == views[i as int].id);
            }
            return Some(i);
        }
        i = i + 1;
    }
    None
}

fn find_evidence(evidence: &Vec<EvidenceBinding>, id: &String) -> (index: Option<usize>)
    requires
        evidence_ids_distinct(binding_views(evidence@)),
    ensures
        match index {
            Some(i) => evidence_index(binding_views(evidence@), id@) == Some(
                i as int,
            ),
            None => evidence_index(binding_views(evidence@), id@) is None,
        },
{
    let ghost views = binding_views(evidence@);
    let n = evidence.len();
    let mut i: usize = 0;
    while i < n
        invariant
            n == evidence@.len(),
            views == binding_views(evidence@),
            evidence_ids_distinct(views),
            i <= n,
            forall|k: int| 0 <= k < i ==> views[k].evidence_id != id@,
        decreases n - i,
    {
        if evidence[i].evidence_id == *id {
            proof {
                assert(views[i as int].evidence_id == id@);
                let k = choose|k: int| 0 <= k < views.len() && views[k].evidence_id == id@;
                assert(views[k].evidence_id == views[i as int].evidence_id);
            }
            return Some(i);
        }
        i = i + 1;
    }
    None
}

pub(crate) fn compute_next_ordinal(replay: &Vec<ActionReplayCapsule>) -> (ordinal: Option<u64>)
    ensures
        ordinal == next_ordinal(capsule_views(replay@)),
{
    let n = replay.len();
    if n == 0 {
        Some(0)
    } else {
        let last = replay[n - 1].operation_ordinal;
        if last < u64::MAX {
            Some(last + 1)
        } else {
            None
        }
    }
}

// ---------------------------------------------------------------------------
// Shared pieces of the command models
// ---------------------------------------------------------------------------

/// The audit event a command records.
pub open spec fn audit_event_view(
    id: Seq<char>,
    occurred_at: i64,
    code: AuditEventCode,
    target: AuditTargetView,
    correlation: Seq<char>,
) -> AuditEventView {
    AuditEventView { id, occurred_at, code, target, correlation_id: correlation }
}

/// The recorded outcome of a replayed Action Request command; a recorded
/// result of any other kind is a persistence failure.
pub open spec fn replayed_request(result: ResultView, correlation: Seq<char>) -> Result<
    OutcomeView<ActionRequestView>,
    DomainErrorView,
> {
    match result {
        ResultView::Request(outcome) => Ok(outcome),
        _ => Err(plain_error_view(DomainErrorKind::Persistence, correlation)),
    }
}

/// The recorded outcome of a replayed Action command; a recorded result of
/// any other kind is a persistence failure.
pub open spec fn replayed_action(result: ResultView, correlation: Seq<char>) -> Result<
    OutcomeView<ActionView>,
    DomainErrorView,
> {
    match result {
        ResultView::Action(outcome) => Ok(outcome),
        _ => Err(plain_error_view(DomainErrorKind::Persistence, correlation)),
    }
}

/// The ledger after a command that applied: the namespace as changed, one
/// more recorded command, and the next revision.
pub open spec fn applied(ledger: LedgerView, snapshot: SnapshotView) -> LedgerView {
    LedgerView { revision: (ledger.revision + 1) as u64, snapshot, ..ledger }
}

pub open spec fn request_result_view(
    result: Result<ActionMutationOutcome<ActionRequestRecord>, DomainError>,
) -> Result<OutcomeView<ActionRequestView>, DomainErrorView> {
    match result {
        Ok(outcome) => Ok(outcome@),
        Err(error) => Err(error@),
    }
}

pub open spec fn action_result_view(result: Result<ActionMutationOutcome<ActionRecord>, DomainError>) -> Result<
    OutcomeView<ActionView>,
    DomainErrorView,
> {
    match result {
        Ok(outcome) => Ok(outcome@),
        Err(error) => Err(error@),
    }
}

// ---------------------------------------------------------------------------
// Action Request transitions: submit, decline, withdraw
// ---------------------------------------------------------------------------

/// The transitions an Action Request command may ask for.
pub open spec fn is_request_transition(target: ActionRequestState) -> bool {
    target == ActionRequestState::Open || target == ActionRequestState::Declined || target
        == ActionRequestState::Withdrawn
}

/// The state an Action Request must be in to move to `target`: only a
/// draft is submitted, only an open request is declined or withdrawn.
pub open spec fn transition_source(target: ActionRequestState) -> ActionRequestState {
    if target == ActionRequestState::Open {
        ActionRequestState::Draft
    } else {
        ActionRequestState::Open
    }
}

/// The version an Action Request has after moving to `target`: a submitted
/// request is at version 2, a declined or withdrawn one at version 3.
pub open spec fn transition_version(target: ActionRequestState) -> u64 {
    if target == ActionRequestState::Open {
        2
    } else {
        3
    }
}

/// The audit event code of a move to `target`.
pub open spec fn transition_code(target: ActionRequestState) -> AuditEventCode {
    if target == ActionRequestState::Open {
        AuditEventCode::ActionRequestSubmitted
    } else if target == ActionRequestState::Declined {
        AuditEventCode::ActionRequestDeclined
    } else {
        AuditEventCode::ActionRequestWithdrawn
    }
}

/// What moving the Action Request `request_id` from version
/// `expected_version` to `target` (with the terminal `rationale` of a
/// decline or withdrawal) returns, and the ledger afterwards.
pub open spec fn transition_request_model(
    ledger: LedgerView,
    key: Seq<char>,
    correlation: Seq<char>,
    request_id: Seq<char>,
    expected_version: u64,
    target: ActionRequestState,
    rationale: Option<Seq<char>>,
    audit_id: Seq<char>,
    occurred_at: i64,
) -> (Result<OutcomeView<ActionRequestView>, DomainErrorView>, LedgerView) {
    let command = CommandView::TransitionRequest {
        request_id,
        expected_version,
        target_state: target,
        rationale,
    };
    let replay = ledger.snapshot.replay;
    let requests = ledger.snapshot.requests;
    match replay_index(replay, key) {
        Some(i) => if replay[i].command == command {
            (replayed_request(replay[i].result, correlation), ledger)
        } else {
            (Err(plain_error_view(DomainErrorKind::IdempotencyConflict, correlation)), ledger)
        },
        None => match request_index(requests, request_id) {
            None => (Err(plain_error_view(DomainErrorKind::NotFound, correlation)), ledger),
            Some(j) => {
                let previous = requests[j];
                if previous.state != transition_source(target) || previous.version
                    != expected_version {
                    (
                        Err(request_conflict_view(correlation, previous.version, previous.state)),
                        ledger,
                    )
                } else {
                    match next_ordinal(replay) {
                        None => (
                            Err(plain_error_view(DomainErrorKind::Persistence, correlation)),
                            ledger,
                        ),
                        Some(ordinal) => if ledger.revision == u64::MAX {
                            (
                                Err(plain_error_view(DomainErrorKind::Persistence, correlation)),
                                ledger,
                            )
                        } else {
                            let next = ActionRequestView {
                                state: target,
                                version: transition_version(target),
                                terminal_rationale: rationale,
                                ..previous
                            };
                            let outcome = OutcomeView {
                                record: next,
                                audit_events: seq![
                                    audit_event_view(
                                        audit_id,
                                        occurred_at,
                                        transition_code(target),
                                        AuditTargetView::ActionRequest(request_id),
                                        correlation,
                                    ),
                                ],
                                approval_receipt_id: None,
                            };
                            let capsule = CapsuleView {
                                idempotency_id: key,
                                correlation_id: correlation,
                                operation_ordinal: ordinal,
                                command,
                                result: ResultView::Request(outcome),
                            };
                            (
                                Ok(outcome),
                                applied(
                                    ledger,
                                    SnapshotView {
                                        requests: requests.update(j, next),
                                        replay: replay.push(capsule),
                                        ..ledger.snapshot
                                    },
                                ),
                            )
                        },
                    }
                }
            },
        },
    }
}

/// Appending a capsule whose key is new and whose ordinal is the next one
/// keeps the recorded commands well-formed.
pub(crate) proof fn lemma_push_capsule_wf(replay: Seq<CapsuleView>, capsule: CapsuleView)
    requires
        replay_keys_distinct(replay),
        ordinals_increasing(replay),
        replay_index(replay, capsule.idempotency_id) is None,
        next_ordinal(replay) == Some(capsule.operation_ordinal),
    ensures
        replay_keys_distinct(replay.push(capsule)),
        ordinals_increasing(replay.push(capsule)),
{
    let pushed = replay.push(capsule);
    assert forall|i: int, j: int| 0 <= i < j < pushed.len() implies #[trigger] pushed[i].operation_ordinal
        < #[trigger] pushed[j].operation_ordinal by {
        if j == replay.len() {
            if i < replay.len() - 1 {
                assert(replay[i].operation_ordinal < replay[replay.len() - 1].operation_ordinal);
            }
        }
    }
    assert forall|i: int, j: int|
        0 <= i < pushed.len() && 0 <= j < pushed.len() && i != j implies #[trigger] pushed[i].idempotency_id
        != #[trigger] pushed[j].idempotency_id by {
        if i == replay.len() {
            assert(pushed[j] == replay[j]);
        } else if j == replay.len() {
            assert(pushed[i] == replay[i]);
        }
    }
}

impl SqliteProductLedger {
    pub open spec fn wf(&self) -> bool {
        ledger_wf(self@)
    }

    /// Moves an Action Request to `target`; the shared body of submit,
    /// decline and withdraw.
    fn transition_request(
        &mut self,
        context: ActionOperationContext,
        request_id: String,
        expected_version: u64,
        target: ActionRequestState,
        rationale: Option<String>,
        audit_event_id: String,
        occurred_at: i64,
    ) -> (result: Result<ActionMutationOutcome<ActionRequestRecord>, DomainError>)
        requires
            old(self).wf(),
            is_request_transition(target),
        ensures
            final(self).wf(),
            request_result_view(result) == transition_request_model(
                old(self)@,
                context.idempotency_id@,
                context.correlation_id@,
                request_id@,
                expected_version,
                target,
                opt_string(rationale),
                audit_event_id@,
                occurred_at,
            ).0,
            final(self)@ == transition_request_model(
                old(self)@,
                context.idempotency_id@,
                context.correlation_id@,
                request_id@,
                expected_version,
                target,
                opt_string(rationale),
                audit_event_id@,
                occurred_at,
            ).1,
    {
        let ghost before = self@;
        let ghost model = transition_request_model(
            before,
            context.idempotency_id@,
            context.correlation_id@,
            request_id@,
            expected_version,
            target,
            opt_string(rationale),
            audit_event_id@,
            occurred_at,
        );
        if let Some(i) = find_capsule(&self.snapshot.replay, &context.idempotency_id) {
            let matches = match &self.snapshot.replay[i].command {
                ActionPersistenceCommand::TransitionRequest {
                    request_id: recorded_id,
                    expected_version: recorded_version,
                    target_state: recorded_target,
                    rationale: recorded_rationale,
                } => *recorded_id == request_id && *recorded_version == expected_version
                    && *recorded_target == target && opt_string_eq(recorded_rationale, &rationale),
                _ => false,
            };
            if matches {
                return match &self.snapshot.replay[i].result {
                    ActionPersistenceResult::Request(outcome) => Ok(clone_request_outcome(outcome)),
                    _ => Err(persistence_error(&context)),
                };
            } else {
                return Err(idempotency_conflict(&context));
            }
        }
        let j = match find_request(&self.snapshot.requests, &request_id) {
            Some(j) => j,
            None => {
                return Err(not_found(&context));
            },
        };
        let source = if target == ActionRequestState::Open {
            ActionRequestState::Draft
        } else {
            ActionRequestState::Open
        };
        if self.snapshot.requests[j].state != source || self.snapshot.requests[j].version
            != expected_version {
            return Err(
                request_transition_conflict(
                    &context,
                    self.snapshot.requests[j].version,
                    self.snapshot.requests[j].state,
                ),
            );
        }
        let ordinal = match compute_next_ordinal(&self.snapshot.replay) {
            Some(ordinal) => ordinal,
            None => {
                return Err(persistence_error(&context));
            },
        };
        if self.revision == u64::MAX {
            return Err(persistence_error(&context));
        }
        let (version, code) = if target == ActionRequestState::Open {
            (2u64, AuditEventCode::ActionRequestSubmitted)
        } else if target == ActionRequestState::Declined {
            (3u64, AuditEventCode::ActionRequestDeclined)
        } else {
            (3u64, AuditEventCode::ActionRequestWithdrawn)
        };
        let mut next = self.snapshot.requests[j].clone();
        next.state = target;
        next.version = version;
        next.terminal_rationale = clone_opt_string(&rationale);
        let audit = AuditEvent {
            id: audit_event_id,
            occurred_at,
            code,
            target: AuditTarget::ActionRequest(request_id.clone()),
            correlation_id: context.correlation_id.clone(),
        };
        let mut audit_events: Vec<AuditEvent> = Vec::new();
        audit_events.push(audit);
        let outcome = ActionMutationOutcome {
            record: next.clone(),
            audit_events,
            approval_receipt_id: None,
        };
        let recorded = clone_request_outcome(&outcome);
        let capsule = ActionReplayCapsule {
            idempotency_id: context.idempotency_id,
            correlation_id: context.correlation_id,
            operation_ordinal: ordinal,
            command: ActionPersistenceCommand::TransitionRequest {
                request_id,
                expected_version,
                target_state: target,
                rationale,
            },
            result: ActionPersistenceResult::Request(recorded),
        };
        let ghost capsule_view = capsule@;
        let ghost next_view = next@;
        self.snapshot.requests.set(j, next);
        self.snapshot.replay.push(capsule);
        self.revision = self.revision + 1;
        proof {
            assert(outcome@.audit_events =~= model.0->Ok_0.audit_events);
            assert(request_views(self.snapshot.requests@) =~= before.snapshot.requests.update(
                j as int,
                next_view,
            ));
            assert(capsule_views(self.snapshot.replay@) =~= before.snapshot.replay.push(capsule_view));
            lemma_push_capsule_wf(before.snapshot.replay, capsule_view);
        }
        Ok(outcome)
    }
}


// ---------------------------------------------------------------------------
// Public Action Request commands
// ---------------------------------------------------------------------------

/// Submitting moves a draft at the expected version to Open at version 2.
pub open spec fn submit_model(
    ledger: LedgerView,
    command: SubmitActionRequest,
    audit_id: Seq<char>,
    occurred_at: i64,
) -> (Result<OutcomeView<ActionRequestView>, DomainErrorView>, LedgerView) {
    transition_request_model(
        ledger,
        command.context.idempotency_id@,
        command.context.correlation_id@,
        command.request_id@,
        command.expected_version,
        ActionRequestState::Open,
        None,
        audit_id,
        occurred_at,
    )
}

/// Declining moves an open request at the expected version to Declined at
/// version 3, keeping the rationale.
pub open spec fn decline_model(
    ledger: LedgerView,
    command: DeclineActionRequest,
    audit_id: Seq<char>,
    occurred_at: i64,
) -> (Result<OutcomeView<ActionRequestView>, DomainErrorView>, LedgerView) {
    transition_request_model(
        ledger,
        command.context.idempotency_id@,
        command.context.correlation_id@,
        command.request_id@,
        command.expected_version,
        ActionRequestState::Declined,
        Some(command.rationale@),
        audit_id,
        occurred_at,
    )
}

/// Withdrawing moves an open request at the expected version to Withdrawn
/// at version 3, keeping the rationale.
pub open spec fn withdraw_model(
    ledger: LedgerView,
    command: WithdrawActionRequest,
    audit_id: Seq<char>,
    occurred_at: i64,
) -> (Result<OutcomeView<ActionRequestView>, DomainErrorView>, LedgerView) {
    transition_request_model(
        ledger,
        command.context.idempotency_id@,
        command.context.correlation_id@,
        command.request_id@,
        command.expected_version,
        ActionRequestState::Withdrawn,
        Some(command.rationale@),
        audit_id,
        occurred_at,
    )
}

/// A draft that is created holds exactly what the command gave: its id,
/// title, details, intended owner, both due dates and classification are
/// the command's, it is a draft at version 1 with no rationale and no
/// linked Action, and it is the newest request of the namespace; its one
/// audit event is the creation, on the request, at `occurred_at`.
pub proof fn lemma_created_draft_keeps_its_command(
    ledger: LedgerView,
    command: CreateActionRequestDraft,
    audit_id: Seq<char>,
    occurred_at: i64,
)
    requires
        replay_index(ledger.snapshot.replay, command.context.idempotency_id@) is None,
        create_model(ledger, command, audit_id, occurred_at).0 is Ok,
    ensures
        ({
            let record = create_model(ledger, command, audit_id, occurred_at).0->Ok_0.record;
            let after = create_model(ledger, command, audit_id, occurred_at).1;
            &&& record.id == command.id@
            &&& record.title == command.title@
            &&& record.details == command.details@
            &&& record.intended_owner == opt_string(command.intended_owner)
            &&& record.response_due_at == command.response_due_at
            &&& record.intended_action_due_at == command.intended_action_due_at
            &&& record.classification == command.classification@
            &&& record.state == ActionRequestState::Draft
            &&& record.version == 1
            &&& record.terminal_rationale is None
            &&& record.linked_action_id is None
            &&& after.snapshot.requests.len() == ledger.snapshot.requests.len() + 1
            &&& after.snapshot.requests.last() == record
            &&& create_model(ledger, command, audit_id, occurred_at).0->Ok_0.audit_events.len() == 1
            &&& create_model(ledger, command, audit_id, occurred_at).0->Ok_0.audit_events[0].id == audit_id
            &&& create_model(ledger, command, audit_id, occurred_at).0->Ok_0.audit_events[0].occurred_at
                == occurred_at
            &&& create_model(ledger, command, audit_id, occurred_at).0->Ok_0.audit_events[0].code
                == AuditEventCode::ActionRequestCreated
        }),
{
}

/// A submission that applies opens the draft at version 2, without a
/// rationale, and changes none of its other fields.
pub proof fn lemma_submission_opens_the_draft(
    ledger: LedgerView,
    command: SubmitActionRequest,
    audit_id: Seq<char>,
    occurred_at: i64,
)
    requires
        replay_index(ledger.snapshot.replay, command.context.idempotency_id@) is None,
        submit_model(ledger, command, audit_id, occurred_at).0 is Ok,
    ensures
        request_index(ledger.snapshot.requests, command.request_id@) is Some,
        ({
            let j = request_index(ledger.snapshot.requests, command.request_id@)->Some_0;
            let previous = ledger.snapshot.requests[j];
            let record = submit_model(ledger, command, audit_id, occurred_at).0->Ok_0.record;
            &&& previous.state == ActionRequestState::Draft
            &&& previous.version == command.expected_version
            &&& record.state == ActionRequestState::Open
            &&& record.version == 2
            &&& record.terminal_rationale is None
            &&& record.id == command.request_id@
            &&& record.title == previous.title
            &&& record.details == previous.details
            &&& record.intended_owner == previous.intended_owner
            &&& record.response_due_at == previous.response_due_at
            &&& record.intended_action_due_at == previous.intended_action_due_at
            &&& record.classification == previous.classification
            &&& record.linked_action_id == previous.linked_action_id
            &&& submit_model(ledger, command, audit_id, occurred_at).1.snapshot.requests[j] == record
        }),
{
}

/// A link that applies adds exactly the named evidence, under the
/// classification the evidence is registered with, to the end of the
/// Action's evidence at the next version; the Action is otherwise
/// unchanged, in the result and in the namespace.
pub proof fn lemma_link_adds_the_registered_evidence(
    ledger: LedgerView,
    command: LinkActionCompletionEvidence,
    audit_id: Seq<char>,
    occurred_at: i64,
)
    requires
        replay_index(ledger.snapshot.replay, command.context.idempotency_id@) is None,
        link_model(ledger, command, audit_id, occurred_at).0 is Ok,
    ensures
        action_index(ledger.snapshot.actions, command.action_id@) is Some,
        evidence_index(ledger.evidence, command.evidence_id@) is Some,
        ({
            let j = action_index(ledger.snapshot.actions, command.action_id@)->Some_0;
            let e = evidence_index(ledger.evidence, command.evidence_id@)->Some_0;
            let previous = ledger.snapshot.actions[j];
            let record = link_model(ledger, command, audit_id, occurred_at).0->Ok_0.record;
            &&& previous.state == ActionState::InProgress
            &&& previous.version == command.expected_version
            &&& record.version == previous.version + 1
            &&& record.state == previous.state
            &&& record.completion_evidence.len() == previous.completion_evidence.len() + 1
            &&& record.completion_evidence.drop_last() == previous.completion_evidence
            &&& record.completion_evidence.last().evidence_id == command.evidence_id@
            &&& record.completion_evidence.last().classification == ledger.evidence[e].classification
            &&& record.id == previous.id
            &&& record.title == previous.title
            &&& record.details == previous.details
            &&& record.classification == previous.classification
            &&& record.transition_history == previous.transition_history
            &&& link_model(ledger, command, audit_id, occurred_at).1.snapshot.actions[j] == record
        }),
{
    let record = link_model(ledger, command, audit_id, occurred_at).0->Ok_0.record;
    let j = action_index(ledger.snapshot.actions, command.action_id@)->Some_0;
    assert(record.completion_evidence.drop_last() =~= ledger.snapshot.actions[j].completion_evidence);
}

/// A start that applies moves an open Action at the expected version into
/// progress, in the result and in the namespace.
pub proof fn lemma_start_applies_to_the_named_action(
    ledger: LedgerView,
    command: StartAction,
    audit_id: Seq<char>,
    occurred_at: i64,
)
    requires
        replay_index(ledger.snapshot.replay, command.context.idempotency_id@) is None,
        start_model(ledger, command, audit_id, occurred_at).0 is Ok,
    ensures
        action_index(ledger.snapshot.actions, command.action_id@) is Some,
        ({
            let j = action_index(ledger.snapshot.actions, command.action_id@)->Some_0;
            let previous = ledger.snapshot.actions[j];
            let record = start_model(ledger, command, audit_id, occurred_at).0->Ok_0.record;
            &&& previous.state == ActionState::Open
            &&& previous.version == command.expected_version
            &&& record.state == ActionState::InProgress
            &&& record.version == previous.version + 1
            &&& record.id == previous.id
            &&& record.transition_history.last().occurred_at == occurred_at
            &&& start_model(ledger, command, audit_id, occurred_at).1.snapshot.actions[j] == record
        }),
{
}

/// A decline that applies ends the request Declined with the command's
/// rationale, both in the result and in the namespace.
pub proof fn lemma_decline_keeps_its_rationale(
    ledger: LedgerView,
    command: DeclineActionRequest,
    audit_id: Seq<char>,
    occurred_at: i64,
)
    requires
        replay_index(ledger.snapshot.replay, command.context.idempotency_id@) is None,
        decline_model(ledger, command, audit_id, occurred_at).0 is Ok,
    ensures
        decline_model(ledger, command, audit_id, occurred_at).0->Ok_0.record.state
            == ActionRequestState::Declined,
        decline_model(ledger, command, audit_id, occurred_at).0->Ok_0.record.terminal_rationale
            == Some(command.rationale@),
        request_index(ledger.snapshot.requests, command.request_id@) is Some,
        decline_model(ledger, command, audit_id, occurred_at).1.snapshot.requests[request_index(
            ledger.snapshot.requests,
            command.request_id@,
        )->Some_0].terminal_rationale == Some(command.rationale@),
        ({
            let previous = ledger.snapshot.requests[request_index(
                ledger.snapshot.requests,
                command.request_id@,
            )->Some_0];
            let record = decline_model(ledger, command, audit_id, occurred_at).0->Ok_0.record;
            &&& previous.state == ActionRequestState::Open
            &&& previous.version == command.expected_version
            &&& record.version == 3
            &&& record.id == command.request_id@
            &&& record.title == previous.title
            &&& record.details == previous.details
            &&& record.intended_owner == previous.intended_owner
            &&& record.response_due_at == previous.response_due_at
            &&& record.intended_action_due_at == previous.intended_action_due_at
            &&& record.classification == previous.classification
            &&& record.linked_action_id == previous.linked_action_id
        }),
{
}

/// A withdrawal that applies ends the request Withdrawn with the command's
/// rationale, both in the result and in the namespace.
pub proof fn lemma_withdrawal_keeps_its_rationale(
    ledger: LedgerView,
    command: WithdrawActionRequest,
    audit_id: Seq<char>,
    occurred_at: i64,
)
    requires
        replay_index(ledger.snapshot.replay, command.context.idempotency_id@) is None,
        withdraw_model(ledger, command, audit_id, occurred_at).0 is Ok,
    ensures
        withdraw_model(ledger, command, audit_id, occurred_at).0->Ok_0.record.state
            == ActionRequestState::Withdrawn,
        withdraw_model(ledger, command, audit_id, occurred_at).0->Ok_0.record.terminal_rationale
            == Some(command.rationale@),
        request_index(ledger.snapshot.requests, command.request_id@) is Some,
        withdraw_model(ledger, command, audit_id, occurred_at).1.snapshot.requests[request_index(
            ledger.snapshot.requests,
            command.request_id@,
        )->Some_0].terminal_rationale == Some(command.rationale@),
        ({
            let previous = ledger.snapshot.requests[request_index(
                ledger.snapshot.requests,
                command.request_id@,
            )->Some_0];
            let record = withdraw_model(ledger, command, audit_id, occurred_at).0->Ok_0.record;
            &&& previous.state == ActionRequestState::Open
            &&& previous.version == command.expected_version
            &&& record.version == 3
            &&& record.id == command.request_id@
            &&& record.title == previous.title
            &&& record.details == previous.details
            &&& record.intended_owner == previous.intended_owner
            &&& record.response_due_at == previous.response_due_at
            &&& record.intended_action_due_at == previous.intended_action_due_at
            &&& record.classification == previous.classification
            &&& record.linked_action_id == previous.linked_action_id
        }),
{
}

/// The command a create draft request is recorded as.
pub open spec fn create_command_view(command: CreateActionRequestDraft) -> CommandView {
    CommandView::CreateRequest {
        id: command.id@,
        title: command.title@,
        details: command.details@,
        intended_owner: opt_string(command.intended_owner),
        response_due_at: command.response_due_at,
        intended_action_due_at: command.intended_action_due_at,
        classification: command.classification@,
    }
}

/// What creating a draft returns, and the ledger afterwards: a new request
/// id gains a Draft at version 1 with exactly the command's fields; an id
/// already in use is refused.
pub open spec fn create_model(
    ledger: LedgerView,
    command: CreateActionRequestDraft,
    audit_id: Seq<char>,
    occurred_at: i64,
) -> (Result<OutcomeView<ActionRequestView>, DomainErrorView>, LedgerView) {
    let key = command.context.idempotency_id@;
    let correlation = command.context.correlation_id@;
    let recorded = create_command_view(command);
    let replay = ledger.snapshot.replay;
    let requests = ledger.snapshot.requests;
    match replay_index(replay, key) {
        Some(i) => if replay[i].command == recorded {
            (replayed_request(replay[i].result, correlation), ledger)
        } else {
            (Err(plain_error_view(DomainErrorKind::IdempotencyConflict, correlation)), ledger)
        },
        None => if request_index(requests, command.id@) is Some {
            (Err(plain_error_view(DomainErrorKind::AlreadyExists, correlation)), ledger)
        } else {
            match next_ordinal(replay) {
                None => (Err(plain_error_view(DomainErrorKind::Persistence, correlation)), ledger),
                Some(ordinal) => if ledger.revision == u64::MAX {
                    (Err(plain_error_view(DomainErrorKind::Persistence, correlation)), ledger)
                } else {
                    let record = ActionRequestView {
                        id: command.id@,
                        title: command.title@,
                        details: command.details@,
                        intended_owner: opt_string(command.intended_owner),
                        response_due_at: command.response_due_at,
                        intended_action_due_at: command.intended_action_due_at,
                        classification: command.classification@,
                        state: ActionRequestState::Draft,
                        version: 1,
                        terminal_rationale: None,
                        linked_action_id: None,
                    };
                    let outcome = OutcomeView {
                        record,
                        audit_events: seq![
                            audit_event_view(
                                audit_id,
                                occurred_at,
                                AuditEventCode::ActionRequestCreated,
                                AuditTargetView::ActionRequest(command.id@),
                                correlation,
                            ),
                        ],
                        approval_receipt_id: None,
                    };
                    let capsule = CapsuleView {
                        idempotency_id: key,
                        correlation_id: correlation,
                        operation_ordinal: ordinal,
                        command: recorded,
                        result: ResultView::Request(outcome),
                    };
                    (
                        Ok(outcome),
                        applied(
                            ledger,
                            SnapshotView {
                                requests: requests.push(record),
                                replay: replay.push(capsule),
                                ..ledger.snapshot
                            },
                        ),
                    )
                },
            }
        },
    }
}

// ---------------------------------------------------------------------------
// Action commands: start, link completion evidence
// ---------------------------------------------------------------------------

/// The Action `previous` once started at `occurred_at`: in progress at the
/// next version with no transition reason, the start recorded in its
/// history with neither reason, support nor approval.
pub open spec fn started(previous: ActionView, occurred_at: i64) -> ActionView {
    ActionView {
        state: ActionState::InProgress,
        version: (previous.version + 1) as u64,
        transition_reason: None,
        transition_history: previous.transition_history.push(
            ActionTransitionView {
                from: previous.state,
                to: ActionState::InProgress,
                reason: None,
                occurred_at,
                supported_by: None,
                approval_receipt_id: None,
            },
        ),
        ..previous
    }
}

/// Starts `previous` at `occurred_at`.
pub(crate) fn start_record(previous: &ActionRecord, occurred_at: i64) -> (next: ActionRecord)
    requires
        previous.version < u64::MAX,
    ensures
        next@ == started(previous@, occurred_at),
{
    let mut next = previous.clone();
    let from = next.state;
    next.state = ActionState::InProgress;
    next.version = previous.version + 1;
    next.transition_reason = None;
    next.transition_history.push(
        ActionTransition {
            from,
            to: ActionState::InProgress,
            reason: None,
            occurred_at,
            supported_by: None,
            approval_receipt_id: None,
        },
    );
    proof {
        assert(next@.transition_history =~= started(previous@, occurred_at).transition_history);
    }
    next
}

/// What starting an Action returns, and the ledger afterwards: an open
/// Action at the expected version moves to In Progress at the next version,
/// the start recorded in its history.
pub open spec fn start_model(
    ledger: LedgerView,
    command: StartAction,
    audit_id: Seq<char>,
    occurred_at: i64,
) -> (Result<OutcomeView<ActionView>, DomainErrorView>, LedgerView) {
    let key = command.context.idempotency_id@;
    let correlation = command.context.correlation_id@;
    let recorded = CommandView::StartAction {
        action_id: command.action_id@,
        expected_version: command.expected_version,
    };
    let replay = ledger.snapshot.replay;
    let actions = ledger.snapshot.actions;
    match replay_index(replay, key) {
        Some(i) => if replay[i].command == recorded {
            (replayed_action(replay[i].result, correlation), ledger)
        } else {
            (Err(plain_error_view(DomainErrorKind::IdempotencyConflict, correlation)), ledger)
        },
        None => match action_index(actions, command.action_id@) {
            None => (Err(plain_error_view(DomainErrorKind::NotFound, correlation)), ledger),
            Some(j) => {
                let previous = actions[j];
                if previous.state != ActionState::Open || previous.version
                    != command.expected_version {
                    (Err(action_conflict_view(correlation, previous.version)), ledger)
                } else {
                    match next_ordinal(replay) {
                        None => (
                            Err(plain_error_view(DomainErrorKind::Persistence, correlation)),
                            ledger,
                        ),
                        Some(ordinal) => if ledger.revision == u64::MAX || previous.version
                            == u64::MAX {
                            (
                                Err(plain_error_view(DomainErrorKind::Persistence, correlation)),
                                ledger,
                            )
                        } else {
                            let next = started(previous, occurred_at);
                            let outcome = OutcomeView {
                                record: next,
                                audit_events: seq![
                                    audit_event_view(
                                        audit_id,
                                        occurred_at,
                                        AuditEventCode::ActionStarted,
                                        AuditTargetView::Action(command.action_id@),
                                        correlation,
                                    ),
                                ],
                                approval_receipt_id: None,
                            };
                            let capsule = CapsuleView {
                                idempotency_id: key,
                                correlation_id: correlation,
                                operation_ordinal: ordinal,
                                command: recorded,
                                result: ResultView::Action(outcome),
                            };
                            (
                                Ok(outcome),
                                applied(
                                    ledger,
                                    SnapshotView {
                                        actions: actions.update(j, next),
                                        replay: replay.push(capsule),
                                        ..ledger.snapshot
                                    },
                                ),
                            )
                        },
                    }
                }
            },
        },
    }
}

/// Whether the evidence `evidence_id` is already linked among `bindings`.
pub open spec fn evidence_linked(bindings: Seq<EvidenceBindingView>, evidence_id: Seq<char>) -> bool {
    exists|k: int| 0 <= k < bindings.len() && bindings[k].evidence_id == evidence_id
}

/// Whether a recorded command is a link of the same evidence to the same
/// Action at the same expected version (the classification recorded beside
/// it is not compared).
pub open spec fn same_link(recorded: CommandView, command: LinkActionCompletionEvidence) -> bool {
    match recorded {
        CommandView::LinkCompletionEvidence { action_id, expected_version, evidence_id, .. } => {
            action_id == command.action_id@ && expected_version == command.expected_version
                && evidence_id == command.evidence_id@
        },
        _ => false,
    }
}

/// What linking completion evidence returns, and the ledger afterwards: an
/// Action in progress at the expected version gains the registered
/// evidence, with its current classification, and moves to the next
/// version; evidence already linked, or not registered, is refused.
pub open spec fn link_model(
    ledger: LedgerView,
    command: LinkActionCompletionEvidence,
    audit_id: Seq<char>,
    occurred_at: i64,
) -> (Result<OutcomeView<ActionView>, DomainErrorView>, LedgerView) {
    let key = command.context.idempotency_id@;
    let correlation = command.context.correlation_id@;
    let replay = ledger.snapshot.replay;
    let actions = ledger.snapshot.actions;
    match replay_index(replay, key) {
        Some(i) => if same_link(replay[i].command, command) {
            (replayed_action(replay[i].result, correlation), ledger)
        } else {
            (Err(plain_error_view(DomainErrorKind::IdempotencyConflict, correlation)), ledger)
        },
        None => match action_index(actions, command.action_id@) {
            None => (Err(plain_error_view(DomainErrorKind::NotFound, correlation)), ledger),
            Some(j) => {
                let previous = actions[j];
                if previous.state != ActionState::InProgress || previous.version
                    != command.expected_version {
                    (Err(action_conflict_view(correlation, previous.version)), ledger)
                } else if evidence_linked(previous.completion_evidence, command.evidence_id@) {
                    (
                        Err(
                            plain_error_view(
                                DomainErrorKind::CompletionEvidenceAlreadyLinked,
                                correlation,
                            ),
                        ),
                        ledger,
                    )
                } else {
                    match evidence_index(ledger.evidence, command.evidence_id@) {
                        None => (
                            Err(plain_error_view(DomainErrorKind::EvidenceNotFound, correlation)),
                            ledger,
                        ),
                        Some(e) => {
                            let classification = ledger.evidence[e].classification;
                            match next_ordinal(replay) {
                                None => (
                                    Err(
                                        plain_error_view(DomainErrorKind::Persistence, correlation),
                                    ),
                                    ledger,
                                ),
                                Some(ordinal) => if ledger.revision == u64::MAX || previous.version
                                    == u64::MAX {
                                    (
                                        Err(
                                            plain_error_view(
                                                DomainErrorKind::Persistence,
                                                correlation,
                                            ),
                                        ),
                                        ledger,
                                    )
                                } else {
                                    let binding = EvidenceBindingView {
                                        evidence_id: command.evidence_id@,
                                        classification,
                                    };
                                    let next = ActionView {
                                        version: (previous.version + 1) as u64,
                                        completion_evidence: previous.completion_evidence.push(
                                            binding,
                                        ),
                                        ..previous
                                    };
                                    let outcome = OutcomeView {
                                        record: next,
                                        audit_events: seq![
                                            audit_event_view(
                                                audit_id,
                                                occurred_at,
                                                AuditEventCode::ActionCompletionEvidenceLinked,
                                                AuditTargetView::Action(command.action_id@),
                                                correlation,
                                            ),
                                        ],
                                        approval_receipt_id: None,
                                    };
                                    let capsule = CapsuleView {
                                        idempotency_id: key,
                                        correlation_id: correlation,
                                        operation_ordinal: ordinal,
                                        command: CommandView::LinkCompletionEvidence {
                                            action_id: command.action_id@,
                                            expected_version: command.expected_version,
                                            evidence_id: command.evidence_id@,
                                            evidence_classification: classification,
                                        },
                                        result: ResultView::Action(outcome),
                                    };
                                    (
                                        Ok(outcome),
                                        applied(
                                            ledger,
                                            SnapshotView {
                                                actions: actions.update(j, next),
                                                replay: replay.push(capsule),
                                                ..ledger.snapshot
                                            },
                                        ),
                                    )
                                },
                            }
                        },
                    }
                }
            },
        },
    }
}

pub(crate) fn evidence_already_linked(bindings: &Vec<EvidenceBinding>, evidence_id: &String) -> (linked: bool)
    ensures
        linked == evidence_linked(binding_views(bindings@), evidence_id@),
{
    let ghost views = binding_views(bindings@);
    let n = bindings.len();
    let mut i: usize = 0;
    while i < n
        invariant
            n == bindings@.len(),
            views == binding_views(bindings@),
            i <= n,
            forall|k: int| 0 <= k < i ==> views[k].evidence_id != evidence_id@,
        decreases n - i,
    {
        if bindings[i].evidence_id == *evidence_id {
            assert(views[i as int].evidence_id == evidence_id@);
            return true;
        }
        i = i + 1;
    }
    false
}

impl SqliteProductLedger {
    /// Durably creates one Action Request draft.
    pub fn create_action_request_draft(
        &mut self,
        command: CreateActionRequestDraft,
        audit_event_id: String,
        occurred_at: i64,
    ) -> (result: Result<ActionMutationOutcome<ActionRequestRecord>, DomainError>)
        requires
            old(self).wf(),
        ensures
            final(self).wf(),
            request_result_view(result) == create_model(
                old(self)@,
                command,
                audit_event_id@,
                occurred_at,
            ).0,
            final(self)@ == create_model(old(self)@, command, audit_event_id@, occurred_at).1,
    {
        let ghost before = self@;
        let ghost model = create_model(before, command, audit_event_id@, occurred_at);
        let context = &command.context;
        if let Some(i) = find_capsule(&self.snapshot.replay, &context.idempotency_id) {
            let matches = match &self.snapshot.replay[i].command {
                ActionPersistenceCommand::CreateRequest {
                    id,
                    title,
                    details,
                    intended_owner,
                    response_due_at,
                    intended_action_due_at,
                    classification,
                } => *id == command.id && *title == command.title && *details == command.details
                    && opt_string_eq(intended_owner, &command.intended_owner) && *response_due_at
                    == command.response_due_at && *intended_action_due_at
                    == command.intended_action_due_at && *classification == command.classification,
                _ => false,
            };
            if matches {
                return match &self.snapshot.replay[i].result {
                    ActionPersistenceResult::Request(outcome) => Ok(clone_request_outcome(outcome)),
                    _ => Err(persistence_error(context)),
                };
            } else {
                return Err(idempotency_conflict(context));
            }
        }
        if find_request(&self.snapshot.requests, &command.id).is_some() {
            return Err(already_exists(context));
        }
        let ordinal = match compute_next_ordinal(&self.snapshot.replay) {
            Some(ordinal) => ordinal,
            None => {
                return Err(persistence_error(context));
            },
        };
        if self.revision == u64::MAX {
            return Err(persistence_error(context));
        }
        let record = ActionRequestRecord {
            id: command.id.clone(),
            title: command.title.clone(),
            details: command.details.clone(),
            intended_owner: clone_opt_string(&command.intended_owner),
            response_due_at: command.response_due_at,
            intended_action_due_at: command.intended_action_due_at,
            classification: command.classification.clone(),
            state: ActionRequestState::Draft,
            version: 1,
            terminal_rationale: None,
            linked_action_id: None,
        };
        let audit = AuditEvent {
            id: audit_event_id,
            occurred_at,
            code: AuditEventCode::ActionRequestCreated,
            target: AuditTarget::ActionRequest(command.id.clone()),
            correlation_id: context.correlation_id.clone(),
        };
        let mut audit_events: Vec<AuditEvent> = Vec::new();
        audit_events.push(audit);
        let outcome = ActionMutationOutcome {
            record: record.clone(),
            audit_events,
            approval_receipt_id: None,
        };
        let recorded = clone_request_outcome(&outcome);
        let CreateActionRequestDraft {
            context,
            id,
            title,
            details,
            intended_owner,
            response_due_at,
            intended_action_due_at,
            classification,
        } = command;
        let capsule = ActionReplayCapsule {
            idempotency_id: context.idempotency_id,
            correlation_id: context.correlation_id,
            operation_ordinal: ordinal,
            command: ActionPersistenceCommand::CreateRequest {
                id,
                title,
                details,
                intended_owner,
                response_due_at,
                intended_action_due_at,
                classification,
            },
            result: ActionPersistenceResult::Request(recorded),
        };
        let ghost capsule_view = capsule@;
        let ghost record_view = record@;
        self.snapshot.requests.push(record);
        self.snapshot.replay.push(capsule);
        self.revision = self.revision + 1;
        proof {
            assert(outcome@.audit_events =~= model.0->Ok_0.audit_events);
            assert(request_views(self.snapshot.requests@) =~= before.snapshot.requests.push(
                record_view,
            ));
            assert(capsule_views(self.snapshot.replay@) =~= before.snapshot.replay.push(capsule_view));
            lemma_push_capsule_wf(before.snapshot.replay, capsule_view);
            let pushed = before.snapshot.requests.push(record_view);
            assert forall|a: int, b: int|
                0 <= a < pushed.len() && 0 <= b < pushed.len() && a != b implies #[trigger] pushed[a].id
                != #[trigger] pushed[b].id by {
                if a == before.snapshot.requests.len() {
                    assert(pushed[b] == before.snapshot.requests[b]);
                } else if b == before.snapshot.requests.len() {
                    assert(pushed[a] == before.snapshot.requests[a]);
                }
            }
        }
        Ok(outcome)
    }

    /// Durably submits one draft Action Request into Open.
    pub fn submit_action_request(
        &mut self,
        command: SubmitActionRequest,
        audit_event_id: String,
        occurred_at: i64,
    ) -> (result: Result<ActionMutationOutcome<ActionRequestRecord>, DomainError>)
        requires
            old(self).wf(),
        ensures
            final(self).wf(),
            request_result_view(result) == submit_model(
                old(self)@,
                command,
                audit_event_id@,
                occurred_at,
            ).0,
            final(self)@ == submit_model(old(self)@, command, audit_event_id@, occurred_at).1,
    {
        self.transition_request(
            command.context,
            command.request_id,
            command.expected_version,
            ActionRequestState::Open,
            None,
            audit_event_id,
            occurred_at,
        )
    }

    /// Durably declines one open Action Request, with its rationale.
    pub fn decline_action_request(
        &mut self,
        command: DeclineActionRequest,
        audit_event_id: String,
        occurred_at: i64,
    ) -> (result: Result<ActionMutationOutcome<ActionRequestRecord>, DomainError>)
        requires
            old(self).wf(),
        ensures
            final(self).wf(),
            request_result_view(result) == decline_model(
                old(self)@,
                command,
                audit_event_id@,
                occurred_at,
            ).0,
            final(self)@ == decline_model(old(self)@, command, audit_event_id@, occurred_at).1,
            replay_index(old(self)@.snapshot.replay, command.context.idempotency_id@) is None
                ==> (result matches Ok(outcome) ==> {
                &&& outcome.record.id@ == command.request_id@
                &&& outcome.record.state == ActionRequestState::Declined
                &&& opt_string(outcome.record.terminal_rationale) == Some(command.rationale@)
                &&& request_index(old(self)@.snapshot.requests, command.request_id@) matches Some(j)
                &&& final(self)@.snapshot.requests[j].state == ActionRequestState::Declined
                &&& final(self)@.snapshot.requests[j].terminal_rationale == Some(command.rationale@)
            }),
    {
        self.transition_request(
            command.context,
            command.request_id,
            command.expected_version,
            ActionRequestState::Declined,
            Some(command.rationale),
            audit_event_id,
            occurred_at,
        )
    }

    /// Durably withdraws one open Action Request, with its rationale.
    pub fn withdraw_action_request(
        &mut self,
        command: WithdrawActionRequest,
        audit_event_id: String,
        occurred_at: i64,
    ) -> (result: Result<ActionMutationOutcome<ActionRequestRecord>, DomainError>)
        requires
            old(self).wf(),
        ensures
            final(self).wf(),
            request_result_view(result) == withdraw_model(
                old(self)@,
                command,
                audit_event_id@,
                occurred_at,
            ).0,
            final(self)@ == withdraw_model(old(self)@, command, audit_event_id@, occurred_at).1,
            replay_index(old(self)@.snapshot.replay, command.context.idempotency_id@) is None
                ==> (result matches Ok(outcome) ==> {
                &&& outcome.record.id@ == command.request_id@
                &&& outcome.record.state == ActionRequestState::Withdrawn
                &&& opt_string(outcome.record.terminal_rationale) == Some(command.rationale@)
                &&& request_index(old(self)@.snapshot.requests, command.request_id@) matches Some(j)
                &&& final(self)@.snapshot.requests[j].state == ActionRequestState::Withdrawn
                &&& final(self)@.snapshot.requests[j].terminal_rationale == Some(command.rationale@)
            }),
    {
        self.transition_request(
            command.context,
            command.request_id,
            command.expected_version,
            ActionRequestState::Withdrawn,
            Some(command.rationale),
            audit_event_id,
            occurred_at,
        )
    }
}

impl SqliteProductLedger {
    /// Durably starts one open Action.
    pub fn start_action(&mut self, command: StartAction, audit_event_id: String, occurred_at: i64) -> (result:
        Result<ActionMutationOutcome<ActionRecord>, DomainError>)
        requires
            old(self).wf(),
        ensures
            final(self).wf(),
            action_result_view(result) == start_model(
                old(self)@,
                command,
                audit_event_id@,
                occurred_at,
            ).0,
            final(self)@ == start_model(old(self)@, command, audit_event_id@, occurred_at).1,
    {
        let ghost before = self@;
        let ghost model = start_model(before, command, audit_event_id@, occurred_at);
        let context = &command.context;
        if let Some(i) = find_capsule(&self.snapshot.replay, &context.idempotency_id) {
            let matches = match &self.snapshot.replay[i].command {
                ActionPersistenceCommand::StartAction { action_id, expected_version } => *action_id
                    == command.action_id && *expected_version == command.expected_version,
                _ => false,
            };
            if matches {
                return match &self.snapshot.replay[i].result {
                    ActionPersistenceResult::Action(outcome) => Ok(clone_action_outcome(outcome)),
                    _ => Err(persistence_error(context)),
                };
            } else {
                return Err(idempotency_conflict(context));
            }
        }
        let j = match find_action(&self.snapshot.actions, &command.action_id) {
            Some(j) => j,
            None => {
                return Err(not_found(context));
            },
        };
        let previous_version = self.snapshot.actions[j].version;
        if self.snapshot.actions[j].state != ActionState::Open || previous_version
            != command.expected_version {
            return Err(action_transition_conflict(context, previous_version));
        }
        let ordinal = match compute_next_ordinal(&self.snapshot.replay) {
            Some(ordinal) => ordinal,
            None => {
                return Err(persistence_error(context));
            },
        };
        if self.revision == u64::MAX || previous_version == u64::MAX {
            return Err(persistence_error(context));
        }
        let next = start_record(&self.snapshot.actions[j], occurred_at);
        let audit = AuditEvent {
            id: audit_event_id,
            occurred_at,
            code: AuditEventCode::ActionStarted,
            target: AuditTarget::Action(command.action_id.clone()),
            correlation_id: context.correlation_id.clone(),
        };
        let mut audit_events: Vec<AuditEvent> = Vec::new();
        audit_events.push(audit);
        let outcome = ActionMutationOutcome {
            record: next.clone(),
            audit_events,
            approval_receipt_id: None,
        };
        let recorded = clone_action_outcome(&outcome);
        let StartAction { context, action_id, expected_version } = command;
        let capsule = ActionReplayCapsule {
            idempotency_id: context.idempotency_id,
            correlation_id: context.correlation_id,
            operation_ordinal: ordinal,
            command: ActionPersistenceCommand::StartAction { action_id, expected_version },
            result: ActionPersistenceResult::Action(recorded),
        };
        let ghost capsule_view = capsule@;
        let ghost next_view = next@;
        self.snapshot.actions.set(j, next);
        self.snapshot.replay.push(capsule);
        self.revision = self.revision + 1;
        proof {
            assert(outcome@.audit_events =~= model.0->Ok_0.audit_events);
            assert(next_view =~= model.0->Ok_0.record);
            assert(action_views(self.snapshot.actions@) =~= before.snapshot.actions.update(
                j as int,
                next_view,
            ));
            assert(capsule_views(self.snapshot.replay@) =~= before.snapshot.replay.push(capsule_view));
            lemma_push_capsule_wf(before.snapshot.replay, capsule_view);
        }
        Ok(outcome)
    }

    /// Durably links one registered Evidence Reference to an Action in
    /// progress as completion evidence.
    pub fn link_action_completion_evidence(
        &mut self,
        command: LinkActionCompletionEvidence,
        audit_event_id: String,
        occurred_at: i64,
    ) -> (result: Result<ActionMutationOutcome<ActionRecord>, DomainError>)
        requires
            old(self).wf(),
        ensures
            final(self).wf(),
            action_result_view(result) == link_model(
                old(self)@,
                command,
                audit_event_id@,
                occurred_at,
            ).0,
            final(self)@ == link_model(old(self)@, command, audit_event_id@, occurred_at).1,
    {
        let ghost before = self@;
        let ghost model = link_model(before, command, audit_event_id@, occurred_at);
        let context = &command.context;
        if let Some(i) = find_capsule(&self.snapshot.replay, &context.idempotency_id) {
            let matches = match &self.snapshot.replay[i].command {
                ActionPersistenceCommand::LinkCompletionEvidence {
                    action_id,
                    expected_version,
                    evidence_id,
                    ..
                } => *action_id == command.action_id && *expected_version == command.expected_version
                    && *evidence_id == command.evidence_id,
                _ => false,
            };
            if matches {
                return match &self.snapshot.replay[i].result {
                    ActionPersistenceResult::Action(outcome) => Ok(clone_action_outcome(outcome)),
                    _ => Err(persistence_error(context)),
                };
            } else {
                return Err(idempotency_conflict(context));
            }
        }
        let j = match find_action(&self.snapshot.actions, &command.action_id) {
            Some(j) => j,
            None => {
                return Err(not_found(context));
            },
        };
        let previous_version = self.snapshot.actions[j].version;
        if self.snapshot.actions[j].state != ActionState::InProgress || previous_version
            != command.expected_version {
            return Err(action_transition_conflict(context, previous_version));
        }
        if evidence_already_linked(&self.snapshot.actions[j].completion_evidence, &command.evidence_id) {
            return Err(completion_evidence_already_linked(context));
        }
        let e = match find_evidence(&self.evidence, &command.evidence_id) {
            Some(e) => e,
            None => {
                return Err(evidence_not_found(context));
            },
        };
        let ordinal = match compute_next_ordinal(&self.snapshot.replay) {
            Some(ordinal) => ordinal,
            None => {
                return Err(persistence_error(context));
            },
        };
        if self.revision == u64::MAX || previous_version == u64::MAX {
            return Err(persistence_error(context));
        }
        let classification = self.evidence[e].classification.clone();
        let mut next = self.snapshot.actions[j].clone();
        let ghost previous_bindings = next.completion_evidence@;
        next.version = previous_version + 1;
        next.completion_evidence.push(
            EvidenceBinding {
                evidence_id: command.evidence_id.clone(),
                classification: classification.clone(),
            },
        );
        let audit = AuditEvent {
            id: audit_event_id,
            occurred_at,
            code: AuditEventCode::ActionCompletionEvidenceLinked,
            target: AuditTarget::Action(command.action_id.clone()),
            correlation_id: context.correlation_id.clone(),
        };
        let mut audit_events: Vec<AuditEvent> = Vec::new();
        audit_events.push(audit);
        let outcome = ActionMutationOutcome {
            record: next.clone(),
            audit_events,
            approval_receipt_id: None,
        };
        let recorded = clone_action_outcome(&outcome);
        let LinkActionCompletionEvidence { context, action_id, expected_version, evidence_id } =
            command;
        let capsule = ActionReplayCapsule {
            idempotency_id: context.idempotency_id,
            correlation_id: context.correlation_id,
            operation_ordinal: ordinal,
            command: ActionPersistenceCommand::LinkCompletionEvidence {
                action_id,
                expected_version,
                evidence_id,
                evidence_classification: classification,
            },
            result: ActionPersistenceResult::Action(recorded),
        };
        let ghost capsule_view = capsule@;
        let ghost next_view = next@;
        self.snapshot.actions.set(j, next);
        self.snapshot.replay.push(capsule);
        self.revision = self.revision + 1;
        proof {
            assert(outcome@.audit_events =~= model.0->Ok_0.audit_events);
            assert(next_view.completion_evidence =~= model.0->Ok_0.record.completion_evidence);
            assert(next_view =~= model.0->Ok_0.record);
            assert(action_views(self.snapshot.actions@) =~= before.snapshot.actions.update(
                j as int,
                next_view,
            ));
            assert(capsule_views(self.snapshot.replay@) =~= before.snapshot.replay.push(capsule_view));
            lemma_push_capsule_wf(before.snapshot.replay, capsule_view);
        }
        Ok(outcome)
    }
}

// ---------------------------------------------------------------------------
// Opening the ledger and loading the namespace
// ---------------------------------------------------------------------------

/// Whether a list of texts holds no text twice.
pub open spec fn texts_distinct(keys: Seq<Seq<char>>) -> bool {
    forall|i: int, j: int|
        0 <= i < keys.len() && 0 <= j < keys.len() && i != j ==> #[trigger] keys[i] != #[trigger] keys[j]
}

fn strings_distinct(keys: &Vec<String>) -> (distinct: bool)
    ensures
        distinct == texts_distinct(keys@.map_values(|k: String| k@)),
{
    let ghost views = keys@.map_values(|k: String| k@);
    let n = keys.len();
    let mut i: usize = 0;
    while i < n
        invariant
            n == keys@.len(),
            views == keys@.map_values(|k: String| k@),
            i <= n,
            forall|a: int, b: int| 0 <= a < i && a < b < n ==> views[a] != views[b],
        decreases n - i,
    {
        let mut j: usize = i + 1;
        while j < n
            invariant
                n == keys@.len(),
                views == keys@.map_values(|k: String| k@),
                i < n,
                i + 1 <= j <= n,
                forall|b: int| i < b < j ==> views[i as int] != views[b],
            decreases n - j,
        {
            if keys[i] == keys[j] {
                assert(views[i as int] == views[j as int]);
                return false;
            }
            j = j + 1;
        }
        i = i + 1;
    }
    assert forall|a: int, b: int|
        0 <= a < views.len() && 0 <= b < views.len() && a != b implies #[trigger] views[a]
        != #[trigger] views[b] by {
        if a > b {
            assert(views[b] != views[a]);
        }
    }
    true
}

fn check_request_ids(requests: &Vec<ActionRequestRecord>) -> (ok: bool)
    ensures
        ok == request_ids_distinct(request_views(requests@)),
{
    let ghost views = request_views(requests@);
    let mut keys: Vec<String> = Vec::new();
    let n = requests.len();
    let mut i: usize = 0;
    while i < n
        invariant
            n == requests@.len(),
            views == request_views(requests@),
            i <= n,
            keys@.len() == i,
            forall|k: int| 0 <= k < i ==> #[trigger] keys@[k]@ == views[k].id,
        decreases n - i,
    {
        keys.push(requests[i].id.clone());
        i = i + 1;
    }
    let ok = strings_distinct(&keys);
    proof {
        let key_views = keys@.map_values(|k: String| k@);
        assert forall|k: int| 0 <= k < n implies #[trigger] key_views[k] == views[k].id by {
            assert(keys@[k]@ == views[k].id);
        }
        if ok {
            assert forall|a: int, b: int|
                0 <= a < views.len() && 0 <= b < views.len() && a != b implies #[trigger] views[a].id
                != #[trigger] views[b].id by {
                assert(key_views[a] != key_views[b]);
            }
        } else {
            let (a, b) = choose|a: int, b: int|
                0 <= a < key_views.len() && 0 <= b < key_views.len() && a != b && key_views[a]
                    == key_views[b];
            assert(views[a].id == views[b].id);
        }
    }
    ok
}

fn check_prepared_ids(prepared: &Vec<PreparedIntent>) -> (ok: bool)
    ensures
        ok == prepared_ids_distinct(prepared_views(prepared@)),
{
    let ghost views = prepared_views(prepared@);
    let mut keys: Vec<String> = Vec::new();
    let n = prepared.len();
    let mut i: usize = 0;
    while i < n
        invariant
            n == prepared@.len(),
            views == prepared_views(prepared@),
            i <= n,
            keys@.len() == i,
            forall|k: int| 0 <= k < i ==> #[trigger] keys@[k]@ == views[k].id,
        decreases n - i,
    {
        keys.push(prepared[i].id.clone());
        i = i + 1;
    }
    let ok = strings_distinct(&keys);
    proof {
        let key_views = keys@.map_values(|k: String| k@);
        assert forall|k: int| 0 <= k < n implies #[trigger] key_views[k] == views[k].id by {
            assert(keys@[k]@ == views[k].id);
        }
        if ok {
            assert forall|a: int, b: int|
                0 <= a < views.len() && 0 <= b < views.len() && a != b implies #[trigger] views[a].id
                != #[trigger] views[b].id by {
                assert(key_views[a] != key_views[b]);
            }
        } else {
            let (a, b) = choose|a: int, b: int|
                0 <= a < key_views.len() && 0 <= b < key_views.len() && a != b && key_views[a]
                    == key_views[b];
            assert(views[a].id == views[b].id);
        }
    }
    ok
}

fn check_action_ids(actions: &Vec<ActionRecord>) -> (ok: bool)
    ensures
        ok == action_ids_distinct(action_views(actions@)),
{
    let ghost views = action_views(actions@);
    let mut keys: Vec<String> = Vec::new();
    let n = actions.len();
    let mut i: usize = 0;
    while i < n
        invariant
            n == actions@.len(),
            views == action_views(actions@),
            i <= n,
            keys@.len() == i,
            forall|k: int| 0 <= k < i ==> #[trigger] keys@[k]@ == views[k].id,
        decreases n - i,
    {
        keys.push(actions[i].id.clone());
        i = i + 1;
    }
    let ok = strings_distinct(&keys);
    proof {
        let key_views = keys@.map_values(|k: String| k@);
        assert forall|k: int| 0 <= k < n implies #[trigger] key_views[k] == views[k].id by {
            assert(keys@[k]@ == views[k].id);
        }
        if ok {
            assert forall|a: int, b: int|
                0 <= a < views.len() && 0 <= b < views.len() && a != b implies #[trigger] views[a].id
                != #[trigger] views[b].id by {
                assert(key_views[a] != key_views[b]);
            }
        } else {
            let (a, b) = choose|a: int, b: int|
                0 <= a < key_views.len() && 0 <= b < key_views.len() && a != b && key_views[a]
                    == key_views[b];
            assert(views[a].id == views[b].id);
        }
    }
    ok
}

fn check_evidence_ids(evidence: &Vec<EvidenceBinding>) -> (ok: bool)
    ensures
        ok == evidence_ids_distinct(binding_views(evidence@)),
{
    let ghost views = binding_views(evidence@);
    let mut keys: Vec<String> = Vec::new();
    let n = evidence.len();
    let mut i: usize = 0;
    while i < n
        invariant
            n == evidence@.len(),
            views == binding_views(evidence@),
            i <= n,
            keys@.len() == i,
            forall|k: int| 0 <= k < i ==> #[trigger] keys@[k]@ == views[k].evidence_id,
        decreases n - i,
    {
        keys.push(evidence[i].evidence_id.clone());
        i = i + 1;
    }
    let ok = strings_distinct(&keys);
    proof {
        let key_views = keys@.map_values(|k: String| k@);
        assert forall|k: int| 0 <= k < n implies #[trigger] key_views[k] == views[k].evidence_id by {
            assert(keys@[k]@ == views[k].evidence_id);
        }
        if ok {
            assert forall|a: int, b: int|
                0 <= a < views.len() && 0 <= b < views.len() && a != b implies #[trigger] views[a].evidence_id
                != #[trigger] views[b].evidence_id by {
                assert(key_views[a] != key_views[b]);
            }
        } else {
            let (a, b) = choose|a: int, b: int|
                0 <= a < key_views.len() && 0 <= b < key_views.len() && a != b && key_views[a]
                    == key_views[b];
            assert(views[a].evidence_id == views[b].evidence_id);
        }
    }
    ok
}

fn check_replay_keys(replay: &Vec<ActionReplayCapsule>) -> (ok: bool)
    ensures
        ok == replay_keys_distinct(capsule_views(replay@)),
{
    let ghost views = capsule_views(replay@);
    let mut keys: Vec<String> = Vec::new();
    let n = replay.len();
    let mut i: usize = 0;
    while i < n
        invariant
            n == replay@.len(),
            views == capsule_views(replay@),
            i <= n,
            keys@.len() == i,
            forall|k: int| 0 <= k < i ==> #[trigger] keys@[k]@ == views[k].idempotency_id,
        decreases n - i,
    {
        keys.push(replay[i].idempotency_id.clone());
        i = i + 1;
    }
    let ok = strings_distinct(&keys);
    proof {
        let key_views = keys@.map_values(|k: String| k@);
        assert forall|k: int| 0 <= k < n implies #[trigger] key_views[k] == views[k].idempotency_id by {
            assert(keys@[k]@ == views[k].idempotency_id);
        }
        if ok {
            assert forall|a: int, b: int|
                0 <= a < views.len() && 0 <= b < views.len() && a != b implies #[trigger] views[a].idempotency_id
                != #[trigger] views[b].idempotency_id by {
                assert(key_views[a] != key_views[b]);
            }
        } else {
            let (a, b) = choose|a: int, b: int|
                0 <= a < key_views.len() && 0 <= b < key_views.len() && a != b && key_views[a]
                    == key_views[b];
            assert(views[a].idempotency_id == views[b].idempotency_id);
        }
    }
    ok
}

fn check_ordinals(replay: &Vec<ActionReplayCapsule>) -> (ok: bool)
    ensures
        ok == ordinals_increasing(capsule_views(replay@)),
{
    let ghost views = capsule_views(replay@);
    let n = replay.len();
    if n == 0 {
        return true;
    }
    let mut i: usize = 1;
    while i < n
        invariant
            n == replay@.len(),
            views == capsule_views(replay@),
            1 <= i <= n,
            forall|a: int, b: int| 0 <= a < b < i ==> #[trigger] views[a].operation_ordinal
                < #[trigger] views[b].operation_ordinal,
        decreases n - i,
    {
        if replay[i - 1].operation_ordinal >= replay[i].operation_ordinal {
            assert(views[i - 1].operation_ordinal >= views[i as int].operation_ordinal);
            return false;
        }
        assert forall|a: int, b: int| 0 <= a < b < i + 1 implies #[trigger] views[a].operation_ordinal
            < #[trigger] views[b].operation_ordinal by {
            if b == i && a < i - 1 {
                assert(views[a].operation_ordinal < views[i - 1].operation_ordinal);
            }
        }
        i = i + 1;
    }
    true
}

pub(crate) fn check_ordinals_dense(replay: &Vec<ActionReplayCapsule>) -> (ok: bool)
    ensures
        ok == ordinals_dense(capsule_views(replay@)),
{
    let ghost views = capsule_views(replay@);
    let n = replay.len();
    let mut i: usize = 0;
    while i < n
        invariant
            n == replay@.len(),
            views == capsule_views(replay@),
            i <= n,
            forall|k: int| 0 <= k < i ==> #[trigger] views[k].operation_ordinal == k,
        decreases n - i,
    {
        if (replay[i].operation_ordinal as u128) != (i as u128) {
            assert(views[i as int].operation_ordinal != i);
            return false;
        }
        i = i + 1;
    }
    true
}

fn check_versions(snapshot: &ActionPersistenceSnapshot) -> (ok: bool)
    ensures
        ok == versions_positive(snapshot@),
{
    let ghost view = snapshot@;
    let n = snapshot.requests.len();
    let mut i: usize = 0;
    while i < n
        invariant
            n == snapshot.requests@.len(),
            view == snapshot@,
            i <= n,
            forall|k: int| 0 <= k < i ==> #[trigger] view.requests[k].version >= 1,
        decreases n - i,
    {
        if snapshot.requests[i].version < 1 {
            assert(view.requests[i as int].version < 1);
            return false;
        }
        i = i + 1;
    }
    let m = snapshot.actions.len();
    let mut i: usize = 0;
    while i < m
        invariant
            m == snapshot.actions@.len(),
            n == snapshot.requests@.len(),
            view == snapshot@,
            i <= m,
            forall|k: int| 0 <= k < n ==> #[trigger] view.requests[k].version >= 1,
            forall|k: int| 0 <= k < i ==> #[trigger] view.actions[k].version >= 1,
        decreases m - i,
    {
        if snapshot.actions[i].version < 1 {
            assert(view.actions[i as int].version < 1);
            return false;
        }
        i = i + 1;
    }
    true
}

/// The ledger a store with these parts is.
pub open spec fn ledger_of(
    schema_version: u32,
    revision: u64,
    snapshot: SnapshotView,
    evidence: Seq<EvidenceBindingView>,
) -> LedgerView {
    LedgerView { schema_version, revision, snapshot, evidence }
}

/// A store that does not support the schema the ledger reads.
pub open spec fn load_model(ledger: LedgerView) -> Result<SnapshotView, ActionPersistenceLoadError> {
    if ledger.schema_version != CURRENT_SCHEMA_VERSION {
        Err(ActionPersistenceLoadError::UnsupportedSchema { found: ledger.schema_version })
    } else {
        Ok(ledger.snapshot)
    }
}

impl SqliteProductLedger {
    /// A ledger with an empty Action namespace and no registered evidence.
    pub fn new(schema_version: u32) -> (ledger: Self)
        ensures
            ledger.wf(),
            ledger@.schema_version == schema_version,
            ledger@.revision == 0,
            ledger@.snapshot.requests.len() == 0,
            ledger@.snapshot.actions.len() == 0,
            ledger@.snapshot.replay.len() == 0,
            ledger@.snapshot.prepared.len() == 0,
            ledger@.snapshot.discarded.len() == 0,
            ledger@.evidence.len() == 0,
    {
        let ledger = SqliteProductLedger {
            schema_version,
            revision: 0,
            snapshot: ActionPersistenceSnapshot {
                requests: Vec::new(),
                actions: Vec::new(),
                replay: Vec::new(),
                prepared: Vec::new(),
                discarded: Vec::new(),
            },
            evidence: Vec::new(),
        };
        assert(request_views(ledger.snapshot.requests@) =~= Seq::<ActionRequestView>::empty());
        assert(action_views(ledger.snapshot.actions@) =~= Seq::<ActionView>::empty());
        assert(capsule_views(ledger.snapshot.replay@) =~= Seq::<CapsuleView>::empty());
        assert(prepared_views(ledger.snapshot.prepared@) =~= Seq::<PreparedIntentView>::empty());
        assert(discarded_views(ledger.snapshot.discarded@) =~= Seq::<DiscardedView>::empty());
        assert(binding_views(ledger.evidence@) =~= Seq::<EvidenceBindingView>::empty());
        ledger
    }

    /// Opens a ledger over a decoded namespace and the registered evidence;
    /// a namespace that breaks the invariant (an identifier or key used
    /// twice, a version below 1) or whose recorded commands are not
    /// numbered 0, 1, 2, ... in order is an invalid snapshot.
    pub fn from_parts(
        schema_version: u32,
        revision: u64,
        snapshot: ActionPersistenceSnapshot,
        evidence: Vec<EvidenceBinding>,
    ) -> (result: Result<Self, ActionPersistenceLoadError>)
        ensures
            result is Ok <==> ledger_wf(
                ledger_of(schema_version, revision, snapshot@, binding_views(evidence@)),
            ) && ordinals_dense(snapshot@.replay),
            result matches Ok(ledger) ==> ledger@ == ledger_of(
                schema_version,
                revision,
                snapshot@,
                binding_views(evidence@),
            ) && ledger.wf(),
            result matches Err(error) ==> error == ActionPersistenceLoadError::InvalidActionSnapshot,
    {
        let ok = check_request_ids(&snapshot.requests) && check_action_ids(&snapshot.actions)
            && check_prepared_ids(&snapshot.prepared) && check_ordinals_dense(&snapshot.replay)
            && check_replay_keys(&snapshot.replay) && check_ordinals(&snapshot.replay)
            && check_versions(&snapshot) && check_evidence_ids(&evidence);
        if ok {
            Ok(SqliteProductLedger { schema_version, revision, snapshot, evidence })
        } else {
            Err(ActionPersistenceLoadError::InvalidActionSnapshot)
        }
    }

    /// Replaces the namespace with one a command produced; the revision
    /// advances by one.
    pub(crate) fn commit(&mut self, snapshot: ActionPersistenceSnapshot)
        requires
            old(self).wf(),
            snapshot_wf(snapshot@),
            old(self)@.revision < u64::MAX,
        ensures
            final(self).wf(),
            final(self)@ == applied(old(self)@, snapshot@),
    {
        self.snapshot = snapshot;
        self.revision = self.revision + 1;
    }

    /// The schema version of the store.
    pub fn schema_version(&self) -> (version: u32)
        ensures
            version == self@.schema_version,
    {
        self.schema_version
    }

    /// The ledger revision: one more for every command that applied.
    pub fn revision(&self) -> (revision: u64)
        ensures
            revision == self@.revision,
    {
        self.revision
    }

    /// The Action namespace as it stands.
    pub fn snapshot(&self) -> (snapshot: &ActionPersistenceSnapshot)
        ensures
            snapshot@ == self@.snapshot,
    {
        &self.snapshot
    }

    /// The registered Evidence References.
    pub fn evidence(&self) -> (evidence: &Vec<EvidenceBinding>)
        ensures
            binding_views(evidence@) == self@.evidence,
    {
        &self.evidence
    }

    /// Loads the Action namespace through the typed seam: a store at any
    /// other schema version is refused with the version it has.
    pub fn load_action_persistence_snapshot(&self) -> (result: Result<
        ActionPersistenceSnapshot,
        ActionPersistenceLoadError,
    >)
        ensures
            match (result, load_model(self@)) {
                (Ok(snapshot), Ok(expected)) => snapshot@ == expected,
                (Err(error), Err(expected)) => error == expected,
                _ => false,
            },
    {
        if self.schema_version != CURRENT_SCHEMA_VERSION {
            return Err(
                ActionPersistenceLoadError::UnsupportedSchema { found: self.schema_version },
            );
        }
        Ok(self.snapshot.clone())
    }
}

/// A creation that applies under a fresh key records exactly the command
/// it was sent: the newest recorded command is under the command's key and
/// correlation and names the command's id, title, details, intended owner,
/// both due dates and classification.
pub proof fn lemma_created_draft_records_its_command(
    ledger: LedgerView,
    command: CreateActionRequestDraft,
    audit_id: Seq<char>,
    occurred_at: i64,
)
    requires
        replay_index(ledger.snapshot.replay, command.context.idempotency_id@) is None,
        create_model(ledger, command, audit_id, occurred_at).0 is Ok,
    ensures
        ({
            let capsule = create_model(ledger, command, audit_id, occurred_at).1.snapshot.replay.last();
            &&& capsule.idempotency_id == command.context.idempotency_id@
            &&& capsule.correlation_id == command.context.correlation_id@
            &&& capsule.command == CommandView::CreateRequest {
                id: command.id@,
                title: command.title@,
                details: command.details@,
                intended_owner: opt_string(command.intended_owner),
                response_due_at: command.response_due_at,
                intended_action_due_at: command.intended_action_due_at,
                classification: command.classification@,
            }
        }),
{
}

} // verus!
