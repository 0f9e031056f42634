//! Folding the recorded Action activity back into the namespace.
//!
//! Activity is gathered from many tables in no particular order; it is
//! sorted by its global operation ordinal and then replayed one event at a
//! time, so every event sees the namespace exactly as of its own ordinal:
//! a start or a completion-evidence link changes its Action, a lowering is
//! prepared and executed, a completion, cancellation or reopening is
//! prepared (its preview becomes pending), denied, rejected (its preview is
//! discarded), executed (its preview is consumed) or refused (its preview
//! is kept or discarded).  Anything that refers to an Action that does not
//! exist or a preview not pending at that point is an invalid snapshot.

use vstd::prelude::*;
use vstd::seq_lib::to_multiset_insert;
use crate::action_events::{
    executed_change_model, link_event_model, replay_executed_change,
    replay_link_evidence_event, replay_start_action_event, start_event_model, ActionAuditRows,
    ActionEventRow, ExecutedChangeRows,
};
use crate::approvals::{
    find_prepared, is_action_transition, lemma_remove_prepared, prepared_index,
};
use crate::denials::{
    decode_prepare_denial, denial_details, denial_details_of, prepare_denial_model,
    PrepareDenialRows,
};
use crate::ledger::{action_ids_distinct, action_index, find_action, prepared_ids_distinct};
use crate::load_error::ActionPersistenceLoadError;
use crate::lowerings::{
    executed_lowering_model, prepared_lowering_model, replay_executed_lowering,
    replay_prepared_lowering, ExecutedLoweringRows, PreparedLoweringRows,
};
use crate::model::{
    action_views, capsule_views, prepared_views, ActionPersistenceCommand, ActionPersistenceResult,
    ActionRecord, ActionReplayCapsule, ActionView, CapsuleView, CommandView, PreparedIntent,
    PreparedIntentKind, PreparedIntentView, ResultView, DiscardedPreview, DiscardedView,
    discarded_views,
};
use crate::prepared_rows::{
    decode_prepared_transition, prepared_transition_model, source_views,
    PreparedTransitionRows, SourceRow,
};
use crate::rejections::{
    decode_prepared_intent_rejection, rejection_model, RejectionRows,
};
use crate::terminal_executions::{
    action_terminal_ok, decode_execute_action_terminal, executed_terminal_view, ExecuteTerminalRows,
    ExecutedTerminal, ExecutedTerminalView, PreparedDisposition,
};

verus! {

/// One recorded Action activity, with every row its replay reads.
#[derive(Debug)]
pub enum ActionActivityEvent {
    /// A recorded start of an Action.
    Start { row: ActionEventRow, audit: ActionAuditRows },
    /// A recorded link of completion evidence to an Action.
    Link { row: ActionEventRow, audit: ActionAuditRows },
    /// A prepared lowering, with the preview the domain rebuilds from it.
    PrepareLower { rows: PreparedLoweringRows, rebuilt: Option<PreparedIntent> },
    /// An executed lowering.
    ExecuteLower { rows: ExecutedLoweringRows },
    /// A prepared completion, cancellation or reopening: its replay row's
    /// key, correlation, ordinal and preview id, its command and preview
    /// rows, the preview the domain rebuilds from them and the
    /// classification sources the preview must carry.
    PrepareTransition {
        kind: PreparedIntentKind,
        idempotency_id: String,
        correlation_id: String,
        ordinal: i64,
        prepared_id: String,
        rows: PreparedTransitionRows,
        rebuilt: Option<PreparedIntent>,
        expected_sources: Vec<SourceRow>,
    },
    /// A completion, cancellation or reopening denied when prepared.
    PrepareTransitionDenied { kind: PreparedIntentKind, rows: PrepareDenialRows },
    /// A rejection of a pending preview at `ordinal`, with its rows where
    /// they were found.
    RejectPrepared { ordinal: i64, prepared_intent_id: String, rows: Option<RejectionRows> },
    /// An approved completion, cancellation or reopening that executed,
    /// with the Action's classification after it as the domain recomputes
    /// it.
    ExecuteTransition {
        kind: PreparedIntentKind,
        prepared_intent_id: String,
        rows: ExecutedChangeRows,
        classification: String,
    },
    /// An approved completion, cancellation or reopening that was refused.
    ExecuteTransitionRefused { kind: PreparedIntentKind, rows: ExecuteTerminalRows },
}

/// The operation ordinal an event was recorded at.
pub open spec fn event_ordinal(event: ActionActivityEvent) -> i64 {
    match event {
        ActionActivityEvent::Start { row, .. } => row.ordinal,
        ActionActivityEvent::Link { row, .. } => row.ordinal,
        ActionActivityEvent::PrepareLower { rows, .. } => rows.ordinal,
        ActionActivityEvent::ExecuteLower { rows } => rows.ordinal,
        ActionActivityEvent::PrepareTransition { ordinal, .. } => ordinal,
        ActionActivityEvent::PrepareTransitionDenied { rows, .. } => rows.ordinal,
        ActionActivityEvent::RejectPrepared { ordinal, .. } => ordinal,
        ActionActivityEvent::ExecuteTransition { rows, .. } => rows.ordinal,
        ActionActivityEvent::ExecuteTransitionRefused { rows, .. } => rows.ordinal,
    }
}

impl ActionActivityEvent {
    /// The operation ordinal this event was recorded at.
    pub fn ordinal(&self) -> (ordinal: i64)
        ensures
            ordinal == event_ordinal(*self),
    {
        match self {
            ActionActivityEvent::Start { row, .. } => row.ordinal,
            ActionActivityEvent::Link { row, .. } => row.ordinal,
            ActionActivityEvent::PrepareLower { rows, .. } => rows.ordinal,
            ActionActivityEvent::ExecuteLower { rows } => rows.ordinal,
            ActionActivityEvent::PrepareTransition { ordinal, .. } => *ordinal,
            ActionActivityEvent::PrepareTransitionDenied { rows, .. } => rows.ordinal,
            ActionActivityEvent::RejectPrepared { ordinal, .. } => *ordinal,
            ActionActivityEvent::ExecuteTransition { rows, .. } => rows.ordinal,
            ActionActivityEvent::ExecuteTransitionRefused { rows, .. } => rows.ordinal,
        }
    }
}

// ---------------------------------------------------------------------------
// Sorting by ordinal
// ---------------------------------------------------------------------------

/// Whether events are in non-decreasing ordinal order.
pub open spec fn sorted_by_ordinal(events: Seq<ActionActivityEvent>) -> bool {
    forall|i: int, j: int|
        0 <= i < j < events.len() ==> event_ordinal(#[trigger] events[i]) <= event_ordinal(
            #[trigger] events[j],
        )
}

/// Whether `sorted` is `original` rearranged by `places`, in a stable way:
/// the event at place `k` of `sorted` is the one at place `places[k]` of
/// `original`, no place is taken twice, and of two events with the same
/// ordinal the one that came first in `original` comes first in `sorted`.
pub open spec fn stable_rearrangement(
    sorted: Seq<ActionActivityEvent>,
    original: Seq<ActionActivityEvent>,
    places: Seq<int>,
) -> bool {
    &&& places.len() == sorted.len()
    &&& forall|k: int|
        0 <= k < sorted.len() ==> 0 <= #[trigger] places[k] < original.len() && sorted[k]
            == original[places[k]]
    &&& forall|a: int, b: int|
        0 <= a < b < sorted.len() ==> #[trigger] places[a] != #[trigger] places[b]
    &&& forall|a: int, b: int|
        0 <= a < b < sorted.len() && event_ordinal(sorted[a]) == event_ordinal(sorted[b])
            ==> #[trigger] places[a] < #[trigger] places[b]
}

/// Sorts events by ordinal, keeping events with equal ordinals in the
/// order they came: the result holds exactly the same events.
pub fn sort_by_ordinal(events: Vec<ActionActivityEvent>) -> (sorted: Vec<ActionActivityEvent>)
    ensures
        sorted_by_ordinal(sorted@),
        sorted@.to_multiset() == events@.to_multiset(),
        sorted@.len() == events@.len(),
        exists|places: Seq<int>| stable_rearrangement(sorted@, events@, places),
{
    let ghost original = events@;
    let mut remaining = events;
    let mut sorted: Vec<ActionActivityEvent> = Vec::new();
    let n = remaining.len();
    let mut i: usize = 0;
    let ghost mut places: Seq<int> = Seq::empty();
    proof {
        assert(original.subrange(0, 0) =~= Seq::<ActionActivityEvent>::empty());
    }
    while remaining.len() > 0
        invariant
            sorted_by_ordinal(sorted@),
            sorted@.to_multiset() == original.subrange(0, i as int).to_multiset(),
            remaining@ == original.subrange(i as int, original.len() as int),
            i <= original.len(),
            n == original.len(),
            sorted@.len() == i,
            stable_rearrangement(sorted@, original, places),
            forall|k: int| 0 <= k < sorted@.len() ==> #[trigger] places[k] < i,
        decreases remaining.len(),
    {
        let event = remaining.remove(0);
        proof {
            assert(event == original[i as int]);
        }
        let key = event.ordinal();
        let mut k: usize = 0;
        while k < sorted.len() && sorted[k].ordinal() <= key
            invariant
                k <= sorted@.len(),
                key == event_ordinal(event),
                forall|m: int| 0 <= m < k ==> event_ordinal(#[trigger] sorted@[m]) <= key,
            decreases sorted@.len() - k,
        {
            k = k + 1;
        }
        let ghost before = sorted@;
        let ghost places_before = places;
        sorted.insert(k, event);
        proof {
            places = places_before.insert(k as int, i as int);
            assert forall|m: int| 0 <= m < sorted@.len() implies 0 <= #[trigger] places[m]
                < original.len() && sorted@[m] == original[places[m]] && places[m] < i + 1 by {
                if m < k {
                    assert(places[m] == places_before[m] && sorted@[m] == before[m]);
                } else if m > k {
                    assert(places[m] == places_before[m - 1] && sorted@[m] == before[m - 1]);
                }
            }
            assert forall|a: int, b: int| 0 <= a < b < sorted@.len() implies #[trigger] places[a]
                != #[trigger] places[b] by {
                if a < k && b < k {
                    assert(places[a] == places_before[a] && places[b] == places_before[b]);
                } else if a < k && b > k {
                    assert(places[a] == places_before[a] && places[b] == places_before[b - 1]);
                } else if a > k {
                    assert(places[a] == places_before[a - 1] && places[b] == places_before[b - 1]);
                } else if a == k {
                    assert(places[b] == places_before[b - 1]);
                } else {
                    assert(places[a] == places_before[a]);
                }
            }
            assert forall|a: int, b: int|
                0 <= a < b < sorted@.len() && event_ordinal(sorted@[a]) == event_ordinal(sorted@[b])
                    implies #[trigger] places[a] < #[trigger] places[b] by {
                if a < k && b < k {
                    assert(places[a] == places_before[a] && places[b] == places_before[b]);
                    assert(sorted@[a] == before[a] && sorted@[b] == before[b]);
                } else if a < k && b > k {
                    assert(places[a] == places_before[a] && places[b] == places_before[b - 1]);
                    assert(sorted@[a] == before[a] && sorted@[b] == before[b - 1]);
                    assert(event_ordinal(before[a]) <= key);
                    assert(event_ordinal(before[k as int]) > key);
                    assert(event_ordinal(before[k as int]) <= event_ordinal(before[b - 1]));
                } else if a > k {
                    assert(places[a] == places_before[a - 1] && places[b] == places_before[b - 1]);
                    assert(sorted@[a] == before[a - 1] && sorted@[b] == before[b - 1]);
                } else if a == k {
                    assert(sorted@[b] == before[b - 1]);
                    assert(event_ordinal(before[k as int]) > key);
                    assert(event_ordinal(before[k as int]) <= event_ordinal(before[b - 1]));
                } else {
                    assert(places[a] == places_before[a]);
                }
            }
            to_multiset_insert(before, k as int, event);
            assert(original.subrange(0, i + 1) =~= original.subrange(0, i as int).push(event));
            vstd::seq_lib::to_multiset_build(original.subrange(0, i as int), event);
            assert forall|a: int, b: int| 0 <= a < b < sorted@.len() implies event_ordinal(
                #[trigger] sorted@[a],
            ) <= event_ordinal(#[trigger] sorted@[b]) by {
                if b < k {
                    assert(sorted@[a] == before[a] && sorted@[b] == before[b]);
                } else if b == k {
                    assert(sorted@[a] == before[a]);
                } else if a == k {
                    assert(sorted@[b] == before[b - 1]);
                    if k < before.len() {
                        assert(event_ordinal(before[k as int]) > key);
                        assert(event_ordinal(before[k as int]) <= event_ordinal(before[b - 1]));
                    }
                } else if a < k {
                    assert(sorted@[a] == before[a] && sorted@[b] == before[b - 1]);
                } else {
                    assert(sorted@[a] == before[a - 1] && sorted@[b] == before[b - 1]);
                }
            }
        }
        i = i + 1;
    }
    proof {
        assert(original.subrange(0, i as int) =~= original);
        sorted@.to_multiset_ensures();
        original.to_multiset_ensures();
        assert(stable_rearrangement(sorted@, original, places));
    }
    sorted
}

// ---------------------------------------------------------------------------
// The replay state
// ---------------------------------------------------------------------------

/// The namespace as the replay rebuilds it: the Actions, the replay
/// capsules (one per replayed event, in the order replayed), and the
/// previews still pending and those discarded.
#[derive(Debug)]
pub struct ActivityReplay {
    pub actions: Vec<ActionRecord>,
    pub replay: Vec<ActionReplayCapsule>,
    pub pending: Vec<PreparedIntent>,
    pub discarded: Vec<DiscardedPreview>,
}

pub struct ReplayState {
    pub actions: Seq<ActionView>,
    pub replay: Seq<CapsuleView>,
    pub pending: Seq<PreparedIntentView>,
    pub discarded: Seq<DiscardedView>,
}

impl View for ActivityReplay {
    type V = ReplayState;

    open spec fn view(&self) -> ReplayState {
        ReplayState {
            actions: action_views(self.actions@),
            replay: capsule_views(self.replay@),
            pending: prepared_views(self.pending@),
            discarded: discarded_views(self.discarded@),
        }
    }
}

/// Whether a replay state can be replayed onto: no two Actions and no two
/// pending previews share an id.
pub open spec fn replay_state_wf(state: ReplayState) -> bool {
    &&& action_ids_distinct(state.actions)
    &&& prepared_ids_distinct(state.pending)
}

pub open spec fn rebuilt_view(rebuilt: Option<PreparedIntent>) -> Option<PreparedIntentView> {
    match rebuilt {
        Some(intent) => Some(intent@),
        None => None,
    }
}

/// Making a preview pending: one already pending under the same id is
/// replaced, any other is added.
pub open spec fn with_pending(pending: Seq<PreparedIntentView>, intent: PreparedIntentView) -> Seq<
    PreparedIntentView,
> {
    match prepared_index(pending, intent.id) {
        Some(k) => pending.update(k, intent),
        None => pending.push(intent),
    }
}

/// The state with the pending preview at `k` discarded, consumed at
/// `consumed_at`.
pub open spec fn discard_pending(state: ReplayState, k: int, consumed_at: i64) -> ReplayState {
    ReplayState {
        pending: state.pending.remove(k),
        discarded: state.discarded.push(DiscardedView { intent: state.pending[k], consumed_at }),
        ..state
    }
}

/// Replays one event onto the state; `rejection_code` is the audit code
/// the domain gives a rejection.  Each kind of event is replayed as its
/// decoder states: a start or link changes its Action; a prepared lowering
/// makes its preview pending and an executed one consumes it and lowers
/// its Action; a prepared change, on an Action that exists, makes its
/// preview pending; a denial is recorded; a rejection of a pending
/// completion, cancellation or reopening preview, recorded at the event's
/// own ordinal, discards it; an executed change consumes its pending
/// preview and changes its Action; a refused one is recorded and discards
/// its pending preview where the refusal consumed it.  An invalid snapshot
/// where the event cannot be replayed.
#[verifier::opaque]
pub open spec fn replay_step(
    state: ReplayState,
    event: ActionActivityEvent,
    rejection_code: Seq<char>,
) -> Result<ReplayState, ActionPersistenceLoadError> {
    match event {
        ActionActivityEvent::Start { row, audit } => match start_event_model(
            state.actions,
            row,
            audit,
        ) {
            Ok((actions, capsule)) => Ok(
                ReplayState { actions, replay: state.replay.push(capsule), ..state },
            ),
            Err(error) => Err(error),
        },
        ActionActivityEvent::Link { row, audit } => match link_event_model(
            state.actions,
            row,
            audit,
        ) {
            Ok((actions, capsule)) => Ok(
                ReplayState { actions, replay: state.replay.push(capsule), ..state },
            ),
            Err(error) => Err(error),
        },
        ActionActivityEvent::PrepareLower { rows, rebuilt } => match prepared_lowering_model(
            state.actions,
            state.pending,
            rows,
            rebuilt_view(rebuilt),
        ) {
            Ok((pending, capsule)) => Ok(
                ReplayState { pending, replay: state.replay.push(capsule), ..state },
            ),
            Err(error) => Err(error),
        },
        ActionActivityEvent::ExecuteLower { rows } => match executed_lowering_model(
            state.actions,
            state.pending,
            rows,
        ) {
            Ok((actions, pending, capsule)) => Ok(
                ReplayState { actions, pending, replay: state.replay.push(capsule), ..state },
            ),
            Err(error) => Err(error),
        },
        ActionActivityEvent::PrepareTransition {
            kind,
            idempotency_id,
            correlation_id,
            ordinal,
            prepared_id,
            rows,
            rebuilt,
            expected_sources,
        } => if is_action_transition(kind) && ordinal >= 0 {
            match prepared_transition_model(
                kind,
                prepared_id@,
                rows,
                rebuilt_view(rebuilt),
                source_views(expected_sources@),
            ) {
                Ok((intent, command)) => if action_index(state.actions, rows.command_action_id@)
                    is Some {
                    Ok(
                        ReplayState {
                            pending: with_pending(state.pending, intent),
                            replay: state.replay.push(
                                CapsuleView {
                                    idempotency_id: idempotency_id@,
                                    correlation_id: correlation_id@,
                                    operation_ordinal: ordinal as u64,
                                    command,
                                    result: ResultView::Prepared(intent),
                                },
                            ),
                            ..state
                        },
                    )
                } else {
                    Err(ActionPersistenceLoadError::InvalidActionSnapshot)
                },
                Err(error) => Err(error),
            }
        } else {
            Err(ActionPersistenceLoadError::InvalidActionSnapshot)
        },
        ActionActivityEvent::PrepareTransitionDenied { kind, rows } => if is_action_transition(
            kind,
        ) {
            match prepare_denial_model(kind, state.actions, rows) {
                Ok(denial) => Ok(
                    ReplayState {
                        replay: state.replay.push(
                            CapsuleView {
                                idempotency_id: rows.idempotency_id@,
                                correlation_id: rows.correlation_id@,
                                operation_ordinal: rows.ordinal as u64,
                                command: CommandView::PrepareActionTransition {
                                    kind,
                                    action_id: rows.action_id@,
                                    expected_version: rows.expected_version as u64,
                                    details: denial_details(kind, rows),
                                },
                                result: ResultView::Denied(denial),
                            },
                        ),
                        ..state
                    },
                ),
                Err(error) => Err(error),
            }
        } else {
            Err(ActionPersistenceLoadError::InvalidActionSnapshot)
        },
        ActionActivityEvent::RejectPrepared { ordinal, prepared_intent_id, rows } => match prepared_index(
            state.pending,
            prepared_intent_id@,
        ) {
            Some(k) => if is_action_transition(state.pending[k].operation.kind()) {
                match rejection_model(state.pending[k], rows, rejection_code) {
                    Ok(Some(capsule)) => if capsule.operation_ordinal == ordinal {
                        let discarded = discard_pending(state, k, rows->Some_0.rejected_at);
                        Ok(ReplayState { replay: state.replay.push(capsule), ..discarded })
                    } else {
                        Err(ActionPersistenceLoadError::InvalidActionSnapshot)
                    },
                    Ok(None) => Err(ActionPersistenceLoadError::InvalidActionSnapshot),
                    Err(error) => Err(error),
                }
            } else {
                Err(ActionPersistenceLoadError::InvalidActionSnapshot)
            },
            None => Err(ActionPersistenceLoadError::InvalidActionSnapshot),
        },
        ActionActivityEvent::ExecuteTransition {
            kind,
            prepared_intent_id,
            rows,
            classification,
        } => if is_action_transition(kind) {
            match prepared_index(state.pending, prepared_intent_id@) {
                Some(k) => match executed_change_model(
                    kind,
                    state.actions,
                    state.pending[k],
                    rows,
                    classification@,
                ) {
                    Ok((actions, capsule)) => Ok(
                        ReplayState {
                            actions,
                            pending: state.pending.remove(k),
                            replay: state.replay.push(capsule),
                            ..state
                        },
                    ),
                    Err(error) => Err(error),
                },
                None => Err(ActionPersistenceLoadError::InvalidActionSnapshot),
            }
        } else {
            Err(ActionPersistenceLoadError::InvalidActionSnapshot)
        },
        ActionActivityEvent::ExecuteTransitionRefused { kind, rows } => if is_action_transition(
            kind,
        ) {
            match rows.prepared_intent_id {
                Some(id) => match prepared_index(state.pending, id@) {
                    Some(k) => if action_terminal_ok(state.pending[k], rows) {
                        let refusal = executed_terminal_view(rows);
                        let kept = if refusal.disposition
                            == PreparedDisposition::ConsumedAndDiscarded {
                            discard_pending(state, k, rows.audit.occurred_at)
                        } else {
                            state
                        };
                        Ok(
                            ReplayState {
                                replay: state.replay.push(
                                    CapsuleView {
                                        idempotency_id: rows.idempotency_id@,
                                        correlation_id: rows.correlation_id@,
                                        operation_ordinal: rows.ordinal as u64,
                                        command: CommandView::ExecutePrepared {
                                            kind,
                                            prepared_id: id@,
                                            actor: rows.actor@,
                                            acknowledged_digest: rows.acknowledged_digest@,
                                        },
                                        result: ResultView::Refused(refusal),
                                    },
                                ),
                                ..kept
                            },
                        )
                    } else {
                        Err(ActionPersistenceLoadError::InvalidActionSnapshot)
                    },
                    None => Err(ActionPersistenceLoadError::InvalidActionSnapshot),
                },
                None => Err(ActionPersistenceLoadError::InvalidActionSnapshot),
            }
        } else {
            Err(ActionPersistenceLoadError::InvalidActionSnapshot)
        },
    }
}

/// Replays events in sequence order from `state`; the first event that
/// cannot be replayed makes the snapshot invalid.
pub open spec fn fold_events(
    state: ReplayState,
    events: Seq<ActionActivityEvent>,
    rejection_code: Seq<char>,
) -> Result<ReplayState, ActionPersistenceLoadError>
    decreases events.len(),
{
    if events.len() == 0 {
        Ok(state)
    } else {
        match fold_events(state, events.drop_last(), rejection_code) {
            Ok(before) => replay_step(before, events.last(), rejection_code),
            Err(error) => Err(error),
        }
    }
}

// ---------------------------------------------------------------------------
// Replaying
// ---------------------------------------------------------------------------

fn transition_kind(kind: PreparedIntentKind) -> (transition: bool)
    ensures
        transition == is_action_transition(kind),
{
    match kind {
        PreparedIntentKind::CompleteAction => true,
        PreparedIntentKind::CancelAction => true,
        PreparedIntentKind::ReopenAction => true,
        _ => false,
    }
}

fn preview_is_transition(intent: &PreparedIntent) -> (transition: bool)
    ensures
        transition == is_action_transition(intent@.operation.kind()),
{
    match &intent.operation {
        crate::model::PreparedOperation::CompleteAction { .. } => true,
        crate::model::PreparedOperation::CancelAction { .. } => true,
        crate::model::PreparedOperation::ReopenAction { .. } => true,
        _ => false,
    }
}

/// Makes `intent` pending, replacing a pending preview with the same id.
fn insert_pending(pending: &mut Vec<PreparedIntent>, intent: PreparedIntent)
    requires
        prepared_ids_distinct(prepared_views(old(pending)@)),
    ensures
        prepared_ids_distinct(prepared_views(final(pending)@)),
        prepared_views(final(pending)@) == with_pending(prepared_views(old(pending)@), intent@),
{
    let ghost before = prepared_views(pending@);
    let ghost entry = intent@;
    match find_prepared(pending, &intent.id) {
        Some(k) => {
            pending.set(k, intent);
            proof {
                let after = prepared_views(pending@);
                assert(after =~= before.update(k as int, entry));
                assert forall|a: int, b: int|
                    0 <= a < after.len() && 0 <= b < after.len() && a != b implies #[trigger] after[a].id
                    != #[trigger] after[b].id by {
                    assert(before[k as int].id == entry.id);
                    if a != k {
                        assert(after[a] == before[a]);
                    }
                    if b != k {
                        assert(after[b] == before[b]);
                    }
                }
            }
        },
        None => {
            pending.push(intent);
            proof {
                assert(prepared_views(pending@) =~= before.push(entry));
                crate::approvals::lemma_push_prepared(before, entry);
            }
        },
    }
}

/// Discards the pending preview at `k`.
fn discard_at(state: &mut ActivityReplay, k: usize, consumed_at: i64)
    requires
        k < old(state).pending@.len(),
        replay_state_wf(old(state)@),
    ensures
        replay_state_wf(final(state)@),
        final(state)@ == discard_pending(old(state)@, k as int, consumed_at),
{
    let ghost before = state@;
    let intent = state.pending.remove(k);
    state.discarded.push(DiscardedPreview { intent, consumed_at });
    proof {
        assert(state@.pending =~= before.pending.remove(k as int));
        assert(state@.discarded =~= before.discarded.push(
            DiscardedView { intent: before.pending[k as int], consumed_at },
        ));
        lemma_remove_prepared(before.pending, k as int);
    }
}

/// Replays one event onto the state, as `replay_step` gives.
pub fn apply_activity_event(
    state: &mut ActivityReplay,
    event: ActionActivityEvent,
    rejection_code: &str,
) -> (result: Result<(), ActionPersistenceLoadError>)
    requires
        replay_state_wf(old(state)@),
    ensures
        replay_state_wf(final(state)@),
        match replay_step(old(state)@, event, rejection_code@) {
            Ok(next) => result is Ok && final(state)@ == next,
            Err(error) => result == Err::<(), ActionPersistenceLoadError>(error),
        },
{
    reveal(replay_step);
    let ghost before = state@;
    match event {
        ActionActivityEvent::Start { row, audit } => {
            let capsule = match replay_start_action_event(&mut state.actions, row, audit) {
                Ok(capsule) => capsule,
                Err(error) => {
                    return Err(error);
                },
            };
            let ghost recorded = capsule@;
            state.replay.push(capsule);
            proof {
                assert(state@.replay =~= before.replay.push(recorded));
            }
            Ok(())
        },
        ActionActivityEvent::Link { row, audit } => {
            let capsule = match replay_link_evidence_event(&mut state.actions, row, audit) {
                Ok(capsule) => capsule,
                Err(error) => {
                    return Err(error);
                },
            };
            let ghost recorded = capsule@;
            state.replay.push(capsule);
            proof {
                assert(state@.replay =~= before.replay.push(recorded));
            }
            Ok(())
        },
        ActionActivityEvent::PrepareLower { rows, rebuilt } => {
            let capsule = match replay_prepared_lowering(
                &state.actions,
                &mut state.pending,
                rows,
                rebuilt,
            ) {
                Ok(capsule) => capsule,
                Err(error) => {
                    return Err(error);
                },
            };
            let ghost recorded = capsule@;
            state.replay.push(capsule);
            proof {
                assert(state@.replay =~= before.replay.push(recorded));
            }
            Ok(())
        },
        ActionActivityEvent::ExecuteLower { rows } => {
            let capsule = match replay_executed_lowering(
                &mut state.actions,
                &mut state.pending,
                rows,
            ) {
                Ok(capsule) => capsule,
                Err(error) => {
                    return Err(error);
                },
            };
            let ghost recorded = capsule@;
            state.replay.push(capsule);
            proof {
                assert(state@.replay =~= before.replay.push(recorded));
            }
            Ok(())
        },
        ActionActivityEvent::PrepareTransition {
            kind,
            idempotency_id,
            correlation_id,
            ordinal,
            prepared_id,
            rows,
            rebuilt,
            expected_sources,
        } => {
            if !(transition_kind(kind) && ordinal >= 0) {
                return Err(ActionPersistenceLoadError::InvalidActionSnapshot);
            }
            let action_id = rows.command_action_id.clone();
            let (intent, command) = match decode_prepared_transition(
                kind,
                &prepared_id,
                rows,
                rebuilt,
                &expected_sources,
            ) {
                Ok(decoded) => decoded,
                Err(error) => {
                    return Err(error);
                },
            };
            if find_action(&state.actions, &action_id).is_none() {
                return Err(ActionPersistenceLoadError::InvalidActionSnapshot);
            }
            let recorded = intent.clone();
            insert_pending(&mut state.pending, intent);
            let capsule = ActionReplayCapsule {
                idempotency_id,
                correlation_id,
                operation_ordinal: ordinal as u64,
                command,
                result: ActionPersistenceResult::Prepared(recorded),
            };
            let ghost capsule_view = capsule@;
            state.replay.push(capsule);
            proof {
                assert(state@.replay =~= before.replay.push(capsule_view));
            }
            Ok(())
        },
        ActionActivityEvent::PrepareTransitionDenied { kind, rows } => {
            if !transition_kind(kind) {
                return Err(ActionPersistenceLoadError::InvalidActionSnapshot);
            }
            let details = denial_details_of(kind, &rows);
            let idempotency_id = rows.idempotency_id.clone();
            let correlation_id = rows.correlation_id.clone();
            let action_id = rows.action_id.clone();
            let ordinal = rows.ordinal;
            let expected_version = rows.expected_version;
            let denial = match decode_prepare_denial(kind, &state.actions, rows) {
                Ok(denial) => denial,
                Err(error) => {
                    return Err(error);
                },
            };
            let capsule = ActionReplayCapsule {
                idempotency_id,
                correlation_id,
                operation_ordinal: ordinal as u64,
                command: ActionPersistenceCommand::PrepareActionTransition {
                    kind,
                    action_id,
                    expected_version: expected_version as u64,
                    details,
                },
                result: ActionPersistenceResult::Denied(denial),
            };
            let ghost recorded = capsule@;
            state.replay.push(capsule);
            proof {
                assert(state@.replay =~= before.replay.push(recorded));
            }
            Ok(())
        },
        ActionActivityEvent::RejectPrepared { ordinal, prepared_intent_id, rows } => {
            let k = match find_prepared(&state.pending, &prepared_intent_id) {
                Some(k) => k,
                None => {
                    return Err(ActionPersistenceLoadError::InvalidActionSnapshot);
                },
            };
            if !preview_is_transition(&state.pending[k]) {
                return Err(ActionPersistenceLoadError::InvalidActionSnapshot);
            }
            let consumed_at = match &rows {
                Some(r) => r.rejected_at,
                None => 0,
            };
            let capsule = match decode_prepared_intent_rejection(
                &state.pending[k],
                rows,
                rejection_code,
            ) {
                Ok(Some(capsule)) => capsule,
                Ok(None) => {
                    return Err(ActionPersistenceLoadError::InvalidActionSnapshot);
                },
                Err(error) => {
                    return Err(error);
                },
            };
            if !(ordinal >= 0 && capsule.operation_ordinal == ordinal as u64) {
                return Err(ActionPersistenceLoadError::InvalidActionSnapshot);
            }
            discard_at(state, k, consumed_at);
            let ghost middle = state@;
            let ghost recorded = capsule@;
            state.replay.push(capsule);
            proof {
                assert(state@.replay =~= middle.replay.push(recorded));
            }
            Ok(())
        },
        ActionActivityEvent::ExecuteTransition { kind, prepared_intent_id, rows, classification } => {
            if !transition_kind(kind) {
                return Err(ActionPersistenceLoadError::InvalidActionSnapshot);
            }
            let k = match find_prepared(&state.pending, &prepared_intent_id) {
                Some(k) => k,
                None => {
                    return Err(ActionPersistenceLoadError::InvalidActionSnapshot);
                },
            };
            let prepared = state.pending[k].clone();
            let capsule = match replay_executed_change(
                kind,
                &mut state.actions,
                &prepared,
                rows,
                classification,
            ) {
                Ok(capsule) => capsule,
                Err(error) => {
                    return Err(error);
                },
            };
            let ghost middle = state@;
            let _consumed = state.pending.remove(k);
            let ghost recorded = capsule@;
            state.replay.push(capsule);
            proof {
                assert(state@.pending =~= middle.pending.remove(k as int));
                lemma_remove_prepared(middle.pending, k as int);
                assert(state@.replay =~= before.replay.push(recorded));
            }
            Ok(())
        },
        ActionActivityEvent::ExecuteTransitionRefused { kind, rows } => {
            if !transition_kind(kind) {
                return Err(ActionPersistenceLoadError::InvalidActionSnapshot);
            }
            let id = match &rows.prepared_intent_id {
                Some(id) => id.clone(),
                None => {
                    return Err(ActionPersistenceLoadError::InvalidActionSnapshot);
                },
            };
            let k = match find_prepared(&state.pending, &id) {
                Some(k) => k,
                None => {
                    return Err(ActionPersistenceLoadError::InvalidActionSnapshot);
                },
            };
            let idempotency_id = rows.idempotency_id.clone();
            let correlation_id = rows.correlation_id.clone();
            let actor = rows.actor.clone();
            let acknowledged_digest = rows.acknowledged_digest.clone();
            let ordinal = rows.ordinal;
            let refusal = match decode_execute_action_terminal(&state.pending[k], rows) {
                Ok(refusal) => refusal,
                Err(error) => {
                    return Err(error);
                },
            };
            if refusal.disposition == PreparedDisposition::ConsumedAndDiscarded {
                discard_at(state, k, refusal.occurred_at);
            }
            let ghost middle = state@;
            let capsule = ActionReplayCapsule {
                idempotency_id,
                correlation_id,
                operation_ordinal: ordinal as u64,
                command: ActionPersistenceCommand::ExecutePrepared {
                    kind,
                    prepared_id: id,
                    actor,
                    acknowledged_digest,
                },
                result: ActionPersistenceResult::Refused(refusal),
            };
            let ghost recorded = capsule@;
            state.replay.push(capsule);
            proof {
                assert(state@.replay =~= middle.replay.push(recorded));
            }
            Ok(())
        },
    }
}

/// Once a prefix of the events cannot be replayed, neither can any longer
/// prefix, and the error is the same.
proof fn lemma_fold_stays_invalid(
    state: ReplayState,
    events: Seq<ActionActivityEvent>,
    prefix: int,
    rejection_code: Seq<char>,
)
    requires
        0 <= prefix <= events.len(),
        fold_events(state, events.take(prefix), rejection_code) is Err,
    ensures
        fold_events(state, events, rejection_code) == fold_events(
            state,
            events.take(prefix),
            rejection_code,
        ),
    decreases events.len() - prefix,
{
    if prefix < events.len() {
        assert(events.take(prefix + 1).drop_last() =~= events.take(prefix));
        lemma_fold_stays_invalid(state, events, prefix + 1, rejection_code);
    } else {
        assert(events.take(prefix) =~= events);
    }
}

/// Replays events already in ordinal order onto `state`: the result is
/// what replaying them in sequence order gives.
pub fn fold_sorted_activity(
    start: ActivityReplay,
    events: Vec<ActionActivityEvent>,
    rejection_code: &str,
) -> (result: Result<ActivityReplay, ActionPersistenceLoadError>)
    requires
        replay_state_wf(start@),
    ensures
        match fold_events(start@, events@, rejection_code@) {
            Ok(next) => result matches Ok(replayed) && replayed@ == next && replay_state_wf(next),
            Err(error) => result == Err::<ActivityReplay, ActionPersistenceLoadError>(error),
        },
{
    let ghost all = events@;
    let ghost initial = start@;
    let mut state = start;
    proof {
        assert(all.take(0) =~= Seq::<ActionActivityEvent>::empty());
    }
    let mut remaining = events;
    let n = remaining.len();
    let mut i: usize = 0;
    while remaining.len() > 0
        invariant
            all == events@,
            initial == start@,
            n == all.len(),
            i <= n,
            remaining@ == all.subrange(i as int, n as int),
            replay_state_wf(state@),
            fold_events(initial, all.take(i as int), rejection_code@) == Ok::<
                ReplayState,
                ActionPersistenceLoadError,
            >(state@),
        decreases remaining.len(),
    {
        let event = remaining.remove(0);
        proof {
            assert(event == all[i as int]);
            assert(all.take(i + 1).drop_last() =~= all.take(i as int));
            assert(all.take(i + 1).last() == event);
        }
        let ghost prev = state@;
        match apply_activity_event(&mut state, event, rejection_code) {
            Ok(()) => {},
            Err(error) => {
                proof {
                    assert(fold_events(initial, all.take(i + 1), rejection_code@) == replay_step(
                        prev,
                        event,
                        rejection_code@,
                    ));
                    lemma_fold_stays_invalid(initial, all, i as int + 1, rejection_code@);
                }
                return Err(error);
            },
        }
        i = i + 1;
    }
    proof {
        assert(all.take(n as int) =~= all);
    }
    Ok(state)
}

/// Sorts the gathered events by ordinal and replays them onto `state`,
/// the namespace as decoded before its activity: the result is what
/// replaying them in ordinal order gives.  `rejection_code` is the audit
/// code the domain gives a rejection.
pub fn fold_action_activity_events(
    state: ActivityReplay,
    events: Vec<ActionActivityEvent>,
    rejection_code: &str,
) -> (result: Result<ActivityReplay, ActionPersistenceLoadError>)
    requires
        replay_state_wf(state@),
    ensures
        exists|sorted: Seq<ActionActivityEvent>|
            {
                &&& sorted_by_ordinal(sorted)
                &&& sorted.to_multiset() == events@.to_multiset()
                &&& match fold_events(state@, sorted, rejection_code@) {
                    Ok(next) => result matches Ok(replayed) && replayed@ == next,
                    Err(error) => result == Err::<ActivityReplay, ActionPersistenceLoadError>(
                        error,
                    ),
                }
            },
{
    let ghost initial = state@;
    let sorted = sort_by_ordinal(events);
    let ghost sorted_view = sorted@;
    let result = fold_sorted_activity(state, sorted, rejection_code);
    assert(sorted_by_ordinal(sorted_view));
    result
}

// ---------------------------------------------------------------------------
// What replaying does to the pending previews
// ---------------------------------------------------------------------------

/// The preview an event consumes: the one it rejects, the one it executes,
/// or the one whose refusal discarded it.
pub open spec fn consumed_preview(event: ActionActivityEvent) -> Option<Seq<char>> {
    match event {
        ActionActivityEvent::RejectPrepared { prepared_intent_id, .. } => Some(prepared_intent_id@),
        ActionActivityEvent::ExecuteTransition { prepared_intent_id, .. } => Some(
            prepared_intent_id@,
        ),
        ActionActivityEvent::ExecuteTransitionRefused { rows, .. } => if PreparedDisposition::decoded(
            rows.prepared_disposition@,
        ) == Some(PreparedDisposition::ConsumedAndDiscarded) {
            match rows.prepared_intent_id {
                Some(id) => Some(id@),
                None => None,
            }
        } else {
            None
        },
        _ => None,
    }
}

proof fn lemma_removal_leaves_others(pending: Seq<PreparedIntentView>, k: int)
    requires
        prepared_ids_distinct(pending),
        0 <= k < pending.len(),
    ensures
        prepared_index(pending.remove(k), pending[k].id) is None,
        forall|other: Seq<char>|
            other != pending[k].id && prepared_index(pending, other) is Some ==> prepared_index(
                pending.remove(k),
                other,
            ) is Some,
{
    let id = pending[k].id;
    let after = pending.remove(k);
    assert forall|i: int| 0 <= i < after.len() implies #[trigger] after[i].id != id by {
        if i < k {
            assert(after[i] == pending[i]);
        } else {
            assert(after[i] == pending[i + 1]);
        }
    }
    assert forall|other: Seq<char>|
        other != id && prepared_index(pending, other) is Some implies prepared_index(
            after,
            other,
        ) is Some by {
        let m = prepared_index(pending, other)->Some_0;
        let b = if m < k {
            m
        } else {
            m - 1
        };
        assert(after[b] == pending[m]);
    }
}

/// A consumed preview is no longer pending: once an event that rejects a
/// preview, executes it, or is refused and discards it was replayed, that
/// preview is not pending, and every other pending preview still is.
pub proof fn lemma_consumed_preview_leaves_pending(
    state: ReplayState,
    event: ActionActivityEvent,
    rejection_code: Seq<char>,
)
    requires
        replay_state_wf(state),
        replay_step(state, event, rejection_code) is Ok,
        consumed_preview(event) is Some,
    ensures
        ({
            let next = replay_step(state, event, rejection_code)->Ok_0;
            let id = consumed_preview(event)->Some_0;
            &&& prepared_index(next.pending, id) is None
            &&& forall|other: Seq<char>|
                other != id && prepared_index(state.pending, other) is Some ==> prepared_index(
                    next.pending,
                    other,
                ) is Some
        }),
{
    reveal(replay_step);
    let id = consumed_preview(event)->Some_0;
    let k = prepared_index(state.pending, id)->Some_0;
    assert(prepared_index(state.pending, id) is Some);
    assert(state.pending[k].id == id);
    lemma_removal_leaves_others(state.pending, k);
}

/// Whether the newest of the recorded commands approves the preview `id`.
pub open spec fn executes_newest(replay: Seq<CapsuleView>, id: Seq<char>) -> bool {
    &&& replay.len() > 0
    &&& replay.last().command matches CommandView::ExecutePrepared { prepared_id, .. }
    &&& replay.last().command->ExecutePrepared_prepared_id == id
}

/// Where a consumed preview goes: a rejection of it, or a refusal that
/// consumed it, moves it from the pending previews to the end of the
/// discarded ones; an execution of it leaves the discarded ones as they
/// were and records the approval of that very preview as the newest
/// command.  Either way the pending preview with its id is accounted for.
pub proof fn lemma_consumed_preview_is_discarded_or_executed(
    state: ReplayState,
    event: ActionActivityEvent,
    rejection_code: Seq<char>,
)
    requires
        replay_state_wf(state),
        replay_step(state, event, rejection_code) is Ok,
        consumed_preview(event) is Some,
    ensures
        ({
            let next = replay_step(state, event, rejection_code)->Ok_0;
            let id = consumed_preview(event)->Some_0;
            let k = prepared_index(state.pending, id)->Some_0;
            &&& prepared_index(state.pending, id) is Some
            &&& {
                ||| next.discarded.len() == state.discarded.len() + 1 && next.discarded.last().intent
                    == state.pending[k] && next.discarded.drop_last() == state.discarded
                ||| next.discarded == state.discarded && executes_newest(next.replay, id)
            }
        }),
{
    reveal(replay_step);
    let next = replay_step(state, event, rejection_code)->Ok_0;
    let id = consumed_preview(event)->Some_0;
    let k = prepared_index(state.pending, id)->Some_0;
    assert(prepared_index(state.pending, id) is Some);
    assert(state.pending[k].id == id);
    match event {
        ActionActivityEvent::ExecuteTransition { .. } => {
            assert(next.discarded == state.discarded);
            assert(executes_newest(next.replay, id));
        },
        _ => {
            assert(next.discarded.drop_last() =~= state.discarded);
        },
    }
}

/// Whether `capsule` records the approval of the preview `id`.
pub open spec fn approves(capsule: CapsuleView, id: Seq<char>) -> bool {
    match capsule.command {
        CommandView::ExecutePrepared { prepared_id, .. } => prepared_id == id,
        _ => false,
    }
}

/// Whether the preview `id` is accounted for in `state`: it is pending, it
/// was discarded, or a recorded command approved it.
pub open spec fn accounted_for(state: ReplayState, id: Seq<char>) -> bool {
    ||| prepared_index(state.pending, id) is Some
    ||| exists|i: int| 0 <= i < state.discarded.len() && (#[trigger] state.discarded[i]).intent.id == id
    ||| exists|i: int| 0 <= i < state.replay.len() && approves(#[trigger] state.replay[i], id)
}

proof fn lemma_removal_keeps(pending: Seq<PreparedIntentView>, k: int, id: Seq<char>)
    requires
        0 <= k < pending.len(),
        prepared_index(pending, id) is Some,
        pending[k].id != id,
    ensures
        prepared_index(pending.remove(k), id) is Some,
{
    let m = prepared_index(pending, id)->Some_0;
    assert(pending[m].id == id);
    let b = if m < k {
        m
    } else {
        m - 1
    };
    assert(pending.remove(k)[b] == pending[m]);
}

/// Replaying an event keeps every preview accounted for: a preview that
/// was pending, discarded or approved before the event is pending,
/// discarded or approved after it.
pub proof fn lemma_step_keeps_previews_accounted_for(
    state: ReplayState,
    event: ActionActivityEvent,
    rejection_code: Seq<char>,
    id: Seq<char>,
)
    requires
        replay_step(state, event, rejection_code) is Ok,
        accounted_for(state, id),
    ensures
        accounted_for(replay_step(state, event, rejection_code)->Ok_0, id),
{
    reveal(replay_step);
    let next = replay_step(state, event, rejection_code)->Ok_0;
    lemma_each_event_records_one_capsule(state, event, rejection_code);
    if exists|i: int| 0 <= i < state.replay.len() && approves(#[trigger] state.replay[i], id) {
        let i = choose|i: int| 0 <= i < state.replay.len() && approves(#[trigger] state.replay[i], id);
        assert(next.replay[i] == next.replay.drop_last()[i]);
        assert(approves(next.replay[i], id));
        return;
    }
    let grows = next.discarded == state.discarded || exists|x: DiscardedView|
        next.discarded == state.discarded.push(x);
    assert(grows) by {
        match event {
            ActionActivityEvent::RejectPrepared { .. } => {},
            ActionActivityEvent::ExecuteTransitionRefused { kind, rows } => {},
            _ => {},
        }
    }
    if exists|i: int| 0 <= i < state.discarded.len() && (#[trigger] state.discarded[i]).intent.id == id {
        let i = choose|i: int|
            0 <= i < state.discarded.len() && (#[trigger] state.discarded[i]).intent.id == id;
        if next.discarded != state.discarded {
            let x = choose|x: DiscardedView| next.discarded == state.discarded.push(x);
            assert(next.discarded[i] == state.discarded[i]);
        }
        assert(next.discarded[i].intent.id == id);
        return;
    }
    assert(prepared_index(state.pending, id) is Some);
    let m = prepared_index(state.pending, id)->Some_0;
    assert(state.pending[m].id == id);
    let last = next.replay.len() - 1;
    assert(next.replay[last] == next.replay.last());
    match event {
        ActionActivityEvent::PrepareLower { rows, rebuilt } => {
            let intent = rebuilt_view(rebuilt)->Some_0;
            assert(next.pending == state.pending.push(intent));
            assert(next.pending[m] == state.pending[m]);
        },
        ActionActivityEvent::ExecuteLower { rows } => {
            match prepared_index(state.pending, rows.prepared_intent_id@) {
                Some(k) => {
                    if state.pending[k].id == id {
                        assert(approves(next.replay[last], id));
                    } else {
                        lemma_removal_keeps(state.pending, k, id);
                    }
                },
                None => {},
            }
        },
        ActionActivityEvent::PrepareTransition { prepared_id, rows, rebuilt, expected_sources, kind, .. } => {
            let intent = prepared_transition_model(
                kind,
                prepared_id@,
                rows,
                rebuilt_view(rebuilt),
                source_views(expected_sources@),
            )->Ok_0.0;
            match prepared_index(state.pending, intent.id) {
                Some(k) => {
                    assert(next.pending[m].id == id);
                },
                None => {
                    assert(next.pending[m] == state.pending[m]);
                },
            }
        },
        ActionActivityEvent::RejectPrepared { prepared_intent_id, .. } => {
            let k = prepared_index(state.pending, prepared_intent_id@)->Some_0;
            if state.pending[k].id == id {
                assert(next.discarded.last().intent.id == id);
                assert(next.discarded[next.discarded.len() - 1].intent.id == id);
            } else {
                lemma_removal_keeps(state.pending, k, id);
            }
        },
        ActionActivityEvent::ExecuteTransition { prepared_intent_id, .. } => {
            let k = prepared_index(state.pending, prepared_intent_id@)->Some_0;
            if state.pending[k].id == id {
                assert(approves(next.replay[last], id));
            } else {
                lemma_removal_keeps(state.pending, k, id);
            }
        },
        ActionActivityEvent::ExecuteTransitionRefused { kind, rows } => {
            let k = prepared_index(state.pending, rows.prepared_intent_id->Some_0@)->Some_0;
            if next.pending == state.pending {
            } else if state.pending[k].id == id {
                assert(next.discarded[next.discarded.len() - 1].intent.id == id);
            } else {
                lemma_removal_keeps(state.pending, k, id);
            }
        },
        _ => {},
    }
}

/// Replaying events keeps every preview accounted for: a preview pending,
/// discarded or approved before the fold is, after it, still pending,
/// discarded, or approved by a recorded command.
pub proof fn lemma_fold_keeps_previews_accounted_for(
    state: ReplayState,
    events: Seq<ActionActivityEvent>,
    rejection_code: Seq<char>,
    id: Seq<char>,
)
    requires
        fold_events(state, events, rejection_code) is Ok,
        accounted_for(state, id),
    ensures
        accounted_for(fold_events(state, events, rejection_code)->Ok_0, id),
    decreases events.len(),
{
    if events.len() > 0 {
        lemma_fold_keeps_previews_accounted_for(state, events.drop_last(), rejection_code, id);
        let before = fold_events(state, events.drop_last(), rejection_code)->Ok_0;
        lemma_step_keeps_previews_accounted_for(before, events.last(), rejection_code, id);
    }
}

/// A prepared completion, cancellation or reopening is pending once
/// replayed, under the id its replay row names.
pub proof fn lemma_prepared_preview_becomes_pending(
    state: ReplayState,
    event: ActionActivityEvent,
    rejection_code: Seq<char>,
)
    requires
        replay_state_wf(state),
        replay_step(state, event, rejection_code) is Ok,
        event is PrepareTransition,
    ensures
        prepared_index(
            replay_step(state, event, rejection_code)->Ok_0.pending,
            event->PrepareTransition_prepared_id@,
        ) is Some,
{
    reveal(replay_step);
    let next = replay_step(state, event, rejection_code)->Ok_0;
    let id = event->PrepareTransition_prepared_id@;
    match prepared_index(state.pending, id) {
        Some(k) => {
            assert(next.pending[k].id == id);
        },
        None => {
            assert(next.pending[state.pending.len() as int].id == id);
        },
    }
}

/// Every replayed event records exactly one capsule, at the event's own
/// ordinal, after the capsules recorded before it.
pub proof fn lemma_each_event_records_one_capsule(
    state: ReplayState,
    event: ActionActivityEvent,
    rejection_code: Seq<char>,
)
    requires
        replay_step(state, event, rejection_code) is Ok,
    ensures
        ({
            let next = replay_step(state, event, rejection_code)->Ok_0;
            &&& next.replay.len() == state.replay.len() + 1
            &&& next.replay.drop_last() == state.replay
            &&& next.replay.last().operation_ordinal == event_ordinal(event)
        }),
{
    reveal(replay_step);
    let next = replay_step(state, event, rejection_code)->Ok_0;
    assert(next.replay.drop_last() =~= state.replay);
}

/// Replaying a sequence of events that all replay adds one capsule per
/// event, in the order of the events, at their ordinals.
pub proof fn lemma_fold_records_one_capsule_per_event(
    state: ReplayState,
    events: Seq<ActionActivityEvent>,
    rejection_code: Seq<char>,
)
    requires
        fold_events(state, events, rejection_code) is Ok,
    ensures
        ({
            let next = fold_events(state, events, rejection_code)->Ok_0;
            &&& next.replay.len() == state.replay.len() + events.len()
            &&& next.replay.take(state.replay.len() as int) == state.replay
            &&& forall|i: int|
                0 <= i < events.len() ==> #[trigger] next.replay[state.replay.len() + i].operation_ordinal
                    == event_ordinal(events[i])
        }),
    decreases events.len(),
{
    if events.len() > 0 {
        let before = fold_events(state, events.drop_last(), rejection_code)->Ok_0;
        lemma_fold_records_one_capsule_per_event(state, events.drop_last(), rejection_code);
        lemma_each_event_records_one_capsule(before, events.last(), rejection_code);
        let next = fold_events(state, events, rejection_code)->Ok_0;
        assert(next.replay.drop_last() == before.replay);
        assert(next.replay.take(state.replay.len() as int) =~= before.replay.take(
            state.replay.len() as int,
        ));
        assert forall|i: int| 0 <= i < events.len() implies #[trigger] next.replay[state.replay.len()
            + i].operation_ordinal == event_ordinal(events[i]) by {
            if i < events.len() - 1 {
                assert(next.replay[state.replay.len() + i] == before.replay[state.replay.len() + i]);
                assert(events[i] == events.drop_last()[i]);
            }
        }
    } else {
        assert(state.replay.take(state.replay.len() as int) =~= state.replay);
    }
}

/// A refused approval of a change is recorded as its own capsule under the
/// rows' key, correlation and ordinal, naming the preview, the actor and
/// the acknowledged digest, with the refusal's cause, disposition and
/// audit event; a refusal that kept the preview leaves the pending and
/// discarded previews as they were, and one that consumed it moves it
/// from the pending ones to the discarded ones, consumed when the refusal
/// was audited.  The Actions do not change.
pub proof fn lemma_refusal_keeps_or_discards_its_preview(
    state: ReplayState,
    kind: PreparedIntentKind,
    rows: ExecuteTerminalRows,
    rejection_code: Seq<char>,
)
    requires
        replay_step(state, ActionActivityEvent::ExecuteTransitionRefused { kind, rows }, rejection_code)
            is Ok,
    ensures
        rows.prepared_intent_id is Some,
        prepared_index(state.pending, rows.prepared_intent_id->Some_0@) is Some,
        ({
            let next = replay_step(
                state,
                ActionActivityEvent::ExecuteTransitionRefused { kind, rows },
                rejection_code,
            )->Ok_0;
            let k = prepared_index(state.pending, rows.prepared_intent_id->Some_0@)->Some_0;
            let capsule = next.replay.last();
            &&& next.actions == state.actions
            &&& next.replay == state.replay.push(capsule)
            &&& capsule.idempotency_id == rows.idempotency_id@
            &&& capsule.correlation_id == rows.correlation_id@
            &&& capsule.operation_ordinal == rows.ordinal
            &&& capsule.command == CommandView::ExecutePrepared {
                kind,
                prepared_id: rows.prepared_intent_id->Some_0@,
                actor: rows.actor@,
                acknowledged_digest: rows.acknowledged_digest@,
            }
            &&& capsule.result matches ResultView::Refused(refusal)
            &&& capsule.result->Refused_0.cause_name == crate::text::opt_string(rows.terminal_cause)
            &&& capsule.result->Refused_0.cause_attempted == crate::text::opt_string(rows.attempted_digest)
            &&& capsule.result->Refused_0.audit_id == rows.audit.id@
            &&& capsule.result->Refused_0.occurred_at == rows.audit.occurred_at
            &&& (rows.prepared_disposition@ == "retained"@ ==> {
                &&& capsule.result->Refused_0.disposition == PreparedDisposition::Retained
                &&& next.pending == state.pending
                &&& next.discarded == state.discarded
            })
            &&& (rows.prepared_disposition@ == "consumed_and_discarded"@ ==> {
                &&& capsule.result->Refused_0.disposition == PreparedDisposition::ConsumedAndDiscarded
                &&& next.pending == state.pending.remove(k)
                &&& next.discarded == state.discarded.push(
                    DiscardedView { intent: state.pending[k], consumed_at: rows.audit.occurred_at },
                )
            })
        }),
{
    reveal(replay_step);
    reveal_strlit("retained");
    reveal_strlit("consumed_and_discarded");
    assert("retained"@ != "consumed_and_discarded"@) by {
        assert("retained"@[0] != "consumed_and_discarded"@[0]);
    }
    let event = ActionActivityEvent::ExecuteTransitionRefused { kind, rows };
    lemma_each_event_records_one_capsule(state, event, rejection_code);
    let next = replay_step(state, event, rejection_code)->Ok_0;
    assert(next.replay =~= state.replay.push(next.replay.last()));
}

} // verus!
