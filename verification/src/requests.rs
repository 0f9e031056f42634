//! Decoding persisted Action Requests: one `action_requests` row with its
//! registry row, and the recorded transitions that led an ordinary request
//! from its draft to the state it is in.

use vstd::prelude::*;
use crate::load_error::ActionPersistenceLoadError;
use crate::model::{ActionRequestRecord, ActionRequestView};
use crate::states::ActionRequestState;
use crate::text::{clone_opt_string, opt_string, str_eq};

verus! {

/// One `action_requests` row joined with its `aggregate_registry` row, as
/// read.
#[derive(Debug)]
pub struct PersistedRequestRow {
    pub id: String,
    pub title: String,
    pub details: String,
    pub intended_owner: Option<String>,
    pub response_due_at: Option<i64>,
    pub intended_action_due_at: Option<i64>,
    pub state: String,
    pub terminal_rationale: Option<String>,
    pub linked_action_id: Option<String>,
    pub source_decision_id: Option<String>,
    pub superseded_premise: i64,
    pub version: i64,
    pub classification: String,
    pub created_at: i64,
    pub updated_at: i64,
}

pub struct RequestRowView {
    pub id: Seq<char>,
    pub title: Seq<char>,
    pub details: Seq<char>,
    pub intended_owner: Option<Seq<char>>,
    pub response_due_at: Option<i64>,
    pub intended_action_due_at: Option<i64>,
    pub state: Seq<char>,
    pub terminal_rationale: Option<Seq<char>>,
    pub linked_action_id: Option<Seq<char>>,
    pub source_decision_id: Option<Seq<char>>,
    pub superseded_premise: i64,
    pub version: i64,
    pub classification: Seq<char>,
    pub created_at: i64,
    pub updated_at: i64,
}

impl View for PersistedRequestRow {
    type V = RequestRowView;

    open spec fn view(&self) -> RequestRowView {
        RequestRowView {
            id: self.id@,
            title: self.title@,
            details: self.details@,
            intended_owner: opt_string(self.intended_owner),
            response_due_at: self.response_due_at,
            intended_action_due_at: self.intended_action_due_at,
            state: self.state@,
            terminal_rationale: opt_string(self.terminal_rationale),
            linked_action_id: opt_string(self.linked_action_id),
            source_decision_id: opt_string(self.source_decision_id),
            superseded_premise: self.superseded_premise,
            version: self.version,
            classification: self.classification@,
            created_at: self.created_at,
            updated_at: self.updated_at,
        }
    }
}

/// A timestamp that is absent or not before the epoch.
pub open spec fn time_ok(value: Option<i64>) -> bool {
    match value {
        Some(v) => v >= 0,
        None => true,
    }
}

/// The version an ordinary request has in `state`: a draft is at 1, an
/// open request at 2, and a request that left the open state at 3.
pub open spec fn ordinary_version(state: ActionRequestState) -> i64 {
    match state {
        ActionRequestState::Draft => 1,
        ActionRequestState::Open => 2,
        _ => 3,
    }
}

/// The version a request created by a Decision has: it starts open at 1,
/// a superseded-premise mark adds one, and so does its acceptance.
pub open spec fn decision_sourced_version(state: ActionRequestState, superseded: i64) -> int {
    (if state == ActionRequestState::Accepted { 2int } else { 1int }) + superseded
}

/// Whether a row of an ordinary request (created through the Action
/// Request commands) is well formed: a known state; a linked Action
/// exactly when accepted; no superseded-premise mark; the version of its
/// state; a terminal rationale exactly when declined or withdrawn; a
/// creation time not before the epoch and an update not before it; due
/// dates not before the epoch.
pub open spec fn ordinary_row_ok(row: RequestRowView) -> bool {
    match ActionRequestState::decoded(row.state) {
        None => false,
        Some(state) => {
            &&& (row.linked_action_id is Some <==> state == ActionRequestState::Accepted)
            &&& row.superseded_premise == 0
            &&& row.version == ordinary_version(state)
            &&& (row.terminal_rationale is Some <==> (state == ActionRequestState::Declined || state
                == ActionRequestState::Withdrawn))
            &&& row.created_at >= 0
            &&& row.updated_at >= row.created_at
            &&& time_ok(row.response_due_at)
            &&& time_ok(row.intended_action_due_at)
        },
    }
}

/// Whether a row of a request a Decision created is well formed: open or
/// accepted, with a linked Action exactly when accepted; no terminal
/// rationale; a creation time not before the epoch and an update not
/// before it; a superseded-premise mark of 0 or 1; an intended owner and
/// an intended due date not before the epoch; no response due date; and
/// the version its state and mark give.
pub open spec fn decision_row_ok(row: RequestRowView) -> bool {
    match ActionRequestState::decoded(row.state) {
        Some(state) => {
            &&& (state == ActionRequestState::Open || state == ActionRequestState::Accepted)
            &&& (row.linked_action_id is Some <==> state == ActionRequestState::Accepted)
            &&& row.terminal_rationale is None
            &&& row.created_at >= 0
            &&& row.updated_at >= row.created_at
            &&& (row.superseded_premise == 0 || row.superseded_premise == 1)
            &&& row.intended_owner is Some
            &&& row.intended_action_due_at is Some
            &&& row.intended_action_due_at->Some_0 >= 0
            &&& row.response_due_at is None
            &&& row.version == decision_sourced_version(state, row.superseded_premise)
        },
        None => false,
    }
}

/// The Action Request a well-formed row holds.
pub open spec fn row_record(row: RequestRowView) -> ActionRequestView {
    ActionRequestView {
        id: row.id,
        title: row.title,
        details: row.details,
        intended_owner: row.intended_owner,
        response_due_at: row.response_due_at,
        intended_action_due_at: row.intended_action_due_at,
        classification: row.classification,
        state: ActionRequestState::decoded(row.state)->Some_0,
        version: row.version as u64,
        terminal_rationale: row.terminal_rationale,
        linked_action_id: row.linked_action_id,
    }
}

/// What decoding a row gives: the request it holds, or an invalid
/// snapshot where the row is not well formed for the way the request was
/// created.
pub open spec fn request_row_model(row: RequestRowView) -> Result<
    ActionRequestView,
    ActionPersistenceLoadError,
> {
    let ok = if row.source_decision_id is Some {
        decision_row_ok(row)
    } else {
        ordinary_row_ok(row)
    };
    if ok {
        Ok(row_record(row))
    } else {
        Err(ActionPersistenceLoadError::InvalidActionSnapshot)
    }
}

pub open spec fn request_result_view(result: Result<ActionRequestRecord, ActionPersistenceLoadError>) -> Result<
    ActionRequestView,
    ActionPersistenceLoadError,
> {
    match result {
        Ok(record) => Ok(record@),
        Err(error) => Err(error),
    }
}

fn time_valid(value: Option<i64>) -> (ok: bool)
    ensures
        ok == time_ok(value),
{
    match value {
        Some(v) => v >= 0,
        None => true,
    }
}

/// Decodes one persisted Action Request row.
pub fn decode_request_row(row: PersistedRequestRow) -> (result: Result<
    ActionRequestRecord,
    ActionPersistenceLoadError,
>)
    ensures
        request_result_view(result) == request_row_model(row@),
        result matches Ok(record) ==> {
            &&& record.id@ == row@.id
            &&& record.title@ == row@.title
            &&& record.details@ == row@.details
            &&& opt_string(record.intended_owner) == row@.intended_owner
            &&& record.response_due_at == row@.response_due_at
            &&& record.intended_action_due_at == row@.intended_action_due_at
            &&& record.classification@ == row@.classification
            &&& record.state.persisted() == row@.state
            &&& record.version == row@.version
            &&& opt_string(record.terminal_rationale) == row@.terminal_rationale
            &&& opt_string(record.linked_action_id) == row@.linked_action_id
        },
{
    let state = match ActionRequestState::from_persisted(row.state.as_str()) {
        Ok(state) => state,
        Err(error) => {
            return Err(error);
        },
    };
    let accepted = state == ActionRequestState::Accepted;
    let terminal = state == ActionRequestState::Declined || state == ActionRequestState::Withdrawn;
    let ok = if row.source_decision_id.is_some() {
        let expected: i64 = if accepted {
            2
        } else {
            1
        };
        (state == ActionRequestState::Open || accepted) && (row.linked_action_id.is_some()
            == accepted) && row.terminal_rationale.is_none() && row.created_at >= 0
            && row.updated_at >= row.created_at && (row.superseded_premise == 0
            || row.superseded_premise == 1) && row.intended_owner.is_some() && match row.intended_action_due_at {
            Some(due) => due >= 0,
            None => false,
        } && row.response_due_at.is_none() && row.version == expected + row.superseded_premise
    } else {
        let expected: i64 = match state {
            ActionRequestState::Draft => 1,
            ActionRequestState::Open => 2,
            _ => 3,
        };
        (row.linked_action_id.is_some() == accepted) && row.superseded_premise == 0 && row.version
            == expected && (row.terminal_rationale.is_some() == terminal) && row.created_at >= 0
            && row.updated_at >= row.created_at && time_valid(row.response_due_at) && time_valid(
            row.intended_action_due_at,
        )
    };
    if !ok {
        return Err(ActionPersistenceLoadError::InvalidActionSnapshot);
    }
    Ok(
        ActionRequestRecord {
            id: row.id,
            title: row.title,
            details: row.details,
            intended_owner: row.intended_owner,
            response_due_at: row.response_due_at,
            intended_action_due_at: row.intended_action_due_at,
            classification: row.classification,
            state,
            version: row.version as u64,
            terminal_rationale: row.terminal_rationale,
            linked_action_id: row.linked_action_id,
        },
    )
}

// ---------------------------------------------------------------------------
// Transition history of an ordinary request
// ---------------------------------------------------------------------------

/// One recorded transition of an Action Request, as read: its idempotency
/// key, the version it expected, the state it moved to and its rationale.
#[derive(Debug)]
pub struct PersistedTransitionRow {
    pub idempotency_id: String,
    pub expected_version: i64,
    pub target_state: String,
    pub rationale: Option<String>,
}

pub struct TransitionRowView {
    pub idempotency_id: Seq<char>,
    pub expected_version: i64,
    pub target_state: Seq<char>,
    pub rationale: Option<Seq<char>>,
}

impl View for PersistedTransitionRow {
    type V = TransitionRowView;

    open spec fn view(&self) -> TransitionRowView {
        TransitionRowView {
            idempotency_id: self.idempotency_id@,
            expected_version: self.expected_version,
            target_state: self.target_state@,
            rationale: opt_string(self.rationale),
        }
    }
}

/// The views of a sequence of transition rows.
pub open spec fn transition_row_views(rows: Seq<PersistedTransitionRow>) -> Seq<TransitionRowView> {
    rows.map_values(|row: PersistedTransitionRow| row@)
}

/// The draft `request` was created as: version 1, with no rationale and
/// no linked Action.
pub open spec fn created_draft(request: ActionRequestView) -> ActionRequestView {
    ActionRequestView {
        state: ActionRequestState::Draft,
        version: 1,
        terminal_rationale: None,
        linked_action_id: None,
        ..request
    }
}

/// The request after one recorded transition from `previous`: a draft is
/// submitted at version 1 without a rationale and becomes open at version
/// 2; an open request is declined or withdrawn at version 2 with a
/// rationale and ends at version 3 with it.  Any other row does not apply.
pub open spec fn transition_step(previous: ActionRequestView, row: TransitionRowView) -> Option<
    ActionRequestView,
> {
    match previous.state {
        ActionRequestState::Draft => if row.target_state == "open"@ && row.rationale is None
            && row.expected_version == 1 {
            Some(ActionRequestView { state: ActionRequestState::Open, version: 2, ..previous })
        } else {
            None
        },
        ActionRequestState::Open => if row.rationale is Some && row.expected_version == 2 && (
        row.target_state == "declined"@ || row.target_state == "withdrawn"@) {
            Some(
                ActionRequestView {
                    state: if row.target_state == "declined"@ {
                        ActionRequestState::Declined
                    } else {
                        ActionRequestState::Withdrawn
                    },
                    version: 3,
                    terminal_rationale: row.rationale,
                    ..previous
                },
            )
        } else {
            None
        },
        _ => None,
    }
}

/// The requests after each of `rows` in turn, starting from `start`; none
/// where a row does not apply.
pub open spec fn transition_history(start: ActionRequestView, rows: Seq<TransitionRowView>) -> Option<
    Seq<ActionRequestView>,
>
    decreases rows.len(),
{
    if rows.len() == 0 {
        Some(Seq::<ActionRequestView>::empty())
    } else {
        match transition_history(start, rows.drop_last()) {
            None => None,
            Some(records) => {
                let previous = if records.len() == 0 {
                    start
                } else {
                    records.last()
                };
                match transition_step(previous, rows.last()) {
                    None => None,
                    Some(next) => Some(records.push(next)),
                }
            },
        }
    }
}

/// How many transitions a request in `state` went through: one to open
/// it (an accepted request's acceptance is recorded elsewhere), two to
/// decline or withdraw it.
pub open spec fn expected_transitions(state: ActionRequestState) -> nat {
    if state == ActionRequestState::Declined || state == ActionRequestState::Withdrawn {
        2
    } else {
        1
    }
}

/// What decoding the recorded transitions of `request` gives: the request
/// after each of them, in order.  A draft has none to read.  Otherwise the
/// rows must be as many as its state needs and each must apply, starting
/// from the draft it was created as; and, unless it was accepted, the last
/// must be the request as stored.
pub open spec fn request_transitions_model(
    request: ActionRequestView,
    rows: Seq<TransitionRowView>,
) -> Result<Seq<ActionRequestView>, ActionPersistenceLoadError> {
    if request.state == ActionRequestState::Draft {
        Ok(Seq::<ActionRequestView>::empty())
    } else if rows.len() != expected_transitions(request.state) {
        Err(ActionPersistenceLoadError::InvalidActionSnapshot)
    } else {
        match transition_history(created_draft(request), rows) {
            None => Err(ActionPersistenceLoadError::InvalidActionSnapshot),
            Some(records) => if request.state != ActionRequestState::Accepted && records.last()
                != request {
                Err(ActionPersistenceLoadError::InvalidActionSnapshot)
            } else {
                Ok(records)
            },
        }
    }
}

pub open spec fn records_result_view(result: Result<Vec<ActionRequestRecord>, ActionPersistenceLoadError>) -> Result<
    Seq<ActionRequestView>,
    ActionPersistenceLoadError,
> {
    match result {
        Ok(records) => Ok(records@.map_values(|r: ActionRequestRecord| r@)),
        Err(error) => Err(error),
    }
}

fn same_opt_text(a: &Option<String>, b: &Option<String>) -> (same: bool)
    ensures
        same == (opt_string(*a) == opt_string(*b)),
{
    match (a, b) {
        (Some(x), Some(y)) => str_eq(x.as_str(), y.as_str()),
        (None, None) => true,
        _ => false,
    }
}

/// Whether two requests are the same, field by field.
pub fn same_request(a: &ActionRequestRecord, b: &ActionRequestRecord) -> (same: bool)
    ensures
        same == (a@ == b@),
{
    str_eq(a.id.as_str(), b.id.as_str()) && str_eq(a.title.as_str(), b.title.as_str()) && str_eq(
        a.details.as_str(),
        b.details.as_str(),
    ) && same_opt_text(&a.intended_owner, &b.intended_owner) && a.response_due_at
        == b.response_due_at && a.intended_action_due_at == b.intended_action_due_at && str_eq(
        a.classification.as_str(),
        b.classification.as_str(),
    ) && a.state == b.state && a.version == b.version && same_opt_text(
        &a.terminal_rationale,
        &b.terminal_rationale,
    ) && same_opt_text(&a.linked_action_id, &b.linked_action_id)
}

fn apply_transition(previous: &ActionRequestRecord, row: &PersistedTransitionRow) -> (next: Option<
    ActionRequestRecord,
>)
    ensures
        match next {
            Some(record) => transition_step(previous@, row@) == Some(record@),
            None => transition_step(previous@, row@) is None,
        },
{
    match previous.state {
        ActionRequestState::Draft => {
            if str_eq(row.target_state.as_str(), "open") && row.rationale.is_none()
                && row.expected_version == 1 {
                let mut next = previous.clone();
                next.state = ActionRequestState::Open;
                next.version = 2;
                Some(next)
            } else {
                None
            }
        },
        ActionRequestState::Open => {
            let declined = str_eq(row.target_state.as_str(), "declined");
            let withdrawn = str_eq(row.target_state.as_str(), "withdrawn");
            if row.rationale.is_some() && row.expected_version == 2 && (declined || withdrawn) {
                let mut next = previous.clone();
                next.state =
                    if declined {
                        ActionRequestState::Declined
                    } else {
                        ActionRequestState::Withdrawn
                    };
                next.version = 3;
                next.terminal_rationale = clone_opt_string(&row.rationale);
                Some(next)
            } else {
                None
            }
        },
        _ => None,
    }
}

/// Decodes the recorded transitions of an ordinary Action Request, given
/// in the order of the versions they expected.
pub fn decode_request_transitions(request: &ActionRequestRecord, rows: &Vec<PersistedTransitionRow>) -> (result: Result<
    Vec<ActionRequestRecord>,
    ActionPersistenceLoadError,
>)
    ensures
        records_result_view(result) == request_transitions_model(
            request@,
            transition_row_views(rows@),
        ),
{
    let ghost views = transition_row_views(rows@);
    let mut records: Vec<ActionRequestRecord> = Vec::new();
    if request.state == ActionRequestState::Draft {
        proof {
            assert(records@.map_values(|r: ActionRequestRecord| r@) =~= Seq::<ActionRequestView>::empty());
        }
        return Ok(records);
    }
    let expected: usize = if request.state == ActionRequestState::Declined || request.state
        == ActionRequestState::Withdrawn {
        2
    } else {
        1
    };
    if rows.len() != expected {
        return Err(ActionPersistenceLoadError::InvalidActionSnapshot);
    }
    let mut previous = request.clone();
    previous.state = ActionRequestState::Draft;
    previous.version = 1;
    previous.terminal_rationale = None;
    previous.linked_action_id = None;
    let ghost start = previous@;
    assert(start == created_draft(request@));
    let n = rows.len();
    let mut i: usize = 0;
    while i < n
        invariant
            n == rows@.len(),
            views == transition_row_views(rows@),
            start == created_draft(request@),
            request.state != ActionRequestState::Draft,
            n == expected_transitions(request.state),
            i <= n,
            records@.len() == i,
            transition_history(start, views.take(i as int)) == Some(
                records@.map_values(|r: ActionRequestRecord| r@),
            ),
            previous@ == (if i == 0 {
                start
            } else {
                records@.map_values(|r: ActionRequestRecord| r@).last()
            }),
        decreases n - i,
    {
        proof {
            assert(views.take(i + 1).drop_last() =~= views.take(i as int));
            assert(views.take(i + 1).last() == rows@[i as int]@);
        }
        let next = match apply_transition(&previous, &rows[i]) {
            Some(next) => next,
            None => {
                proof {
                    assert(transition_step(previous@, views.take(i + 1).last()) is None);
                    assert(transition_history(start, views.take(i + 1)) is None);
                    lemma_history_stays_none(start, views, i + 1);
                    assert(views.take(n as int) =~= views);
                }
                return Err(ActionPersistenceLoadError::InvalidActionSnapshot);
            },
        };
        let ghost before_views = records@.map_values(|r: ActionRequestRecord| r@);
        records.push(next.clone());
        proof {
            assert(records@.map_values(|r: ActionRequestRecord| r@) =~= before_views.push(next@));
        }
        previous = next;
        i = i + 1;
    }
    proof {
        assert(views.take(n as int) =~= views);
    }
    if request.state != ActionRequestState::Accepted && !same_request(&previous, request) {
        return Err(ActionPersistenceLoadError::InvalidActionSnapshot);
    }
    Ok(records)
}

/// Once a prefix of the rows does not apply, no longer prefix does.
proof fn lemma_history_stays_none(start: ActionRequestView, rows: Seq<TransitionRowView>, prefix: int)
    requires
        0 <= prefix <= rows.len(),
        transition_history(start, rows.take(prefix)) is None,
    ensures
        transition_history(start, rows.take(rows.len() as int)) is None,
    decreases rows.len() - prefix,
{
    if prefix < rows.len() {
        assert(rows.take(prefix + 1).drop_last() =~= rows.take(prefix));
        lemma_history_stays_none(start, rows, prefix + 1);
    }
}

/// A history holds one record per transition row.
pub(crate) proof fn lemma_history_len(start: ActionRequestView, rows: Seq<TransitionRowView>)
    ensures
        transition_history(start, rows) matches Some(records) ==> records.len() == rows.len(),
    decreases rows.len(),
{
    if rows.len() > 0 {
        lemma_history_len(start, rows.drop_last());
    }
}

/// A decoded request keeps every column of its row: its id, title, details,
/// intended owner, both due dates, classification, state (by the text it
/// is stored as), version, terminal rationale and linked Action are the
/// row's.
pub proof fn lemma_decoded_request_keeps_its_row(row: RequestRowView)
    requires
        request_row_model(row) is Ok,
    ensures
        request_row_model(row)->Ok_0.id == row.id,
        request_row_model(row)->Ok_0.title == row.title,
        request_row_model(row)->Ok_0.details == row.details,
        request_row_model(row)->Ok_0.intended_owner == row.intended_owner,
        request_row_model(row)->Ok_0.response_due_at == row.response_due_at,
        request_row_model(row)->Ok_0.intended_action_due_at == row.intended_action_due_at,
        request_row_model(row)->Ok_0.classification == row.classification,
        request_row_model(row)->Ok_0.state.persisted() == row.state,
        request_row_model(row)->Ok_0.version == row.version,
        request_row_model(row)->Ok_0.terminal_rationale == row.terminal_rationale,
        request_row_model(row)->Ok_0.linked_action_id == row.linked_action_id,
{
    let state = ActionRequestState::decoded(row.state)->Some_0;
    crate::states::lemma_request_state_text_round_trip(state, row.state);
}

/// A recorded request transition applies as the commands made it: a draft
/// at version 1 submitted without a rationale opens at version 2; an open
/// request at version 2 declined or withdrawn with a rationale ends in
/// that state at version 3 with exactly that rationale; every other field
/// of the request stays.
pub proof fn lemma_transition_step_applies_its_row(previous: ActionRequestView, row: TransitionRowView)
    requires
        transition_step(previous, row) is Some,
    ensures
        ({
            let next = transition_step(previous, row)->Some_0;
            &&& previous.state == ActionRequestState::Draft ==> {
                &&& row.target_state == "open"@
                &&& row.rationale is None
                &&& row.expected_version == 1
                &&& next.state == ActionRequestState::Open
                &&& next.version == 2
                &&& next.terminal_rationale == previous.terminal_rationale
            }
            &&& previous.state == ActionRequestState::Open ==> {
                &&& row.expected_version == 2
                &&& row.rationale is Some
                &&& (row.target_state == "declined"@ ==> next.state == ActionRequestState::Declined)
                &&& (row.target_state == "withdrawn"@ ==> next.state == ActionRequestState::Withdrawn)
                &&& (row.target_state == "declined"@ || row.target_state == "withdrawn"@)
                &&& next.version == 3
                &&& next.terminal_rationale == row.rationale
            }
            &&& (previous.state == ActionRequestState::Draft || previous.state
                == ActionRequestState::Open)
            &&& next.id == previous.id
            &&& next.title == previous.title
            &&& next.details == previous.details
            &&& next.intended_owner == previous.intended_owner
            &&& next.response_due_at == previous.response_due_at
            &&& next.intended_action_due_at == previous.intended_action_due_at
            &&& next.classification == previous.classification
            &&& next.linked_action_id == previous.linked_action_id
        }),
{
    reveal_strlit("declined");
    reveal_strlit("withdrawn");
    assert("declined"@ != "withdrawn"@) by {
        assert("declined"@[0] != "withdrawn"@[0]);
    }
}

/// The draft a request was created as holds the request's id, title,
/// details, owner, due dates and classification, at version 1, with no
/// rationale and no linked Action.
pub proof fn lemma_created_draft_keeps_the_request(request: ActionRequestView)
    ensures
        created_draft(request).state == ActionRequestState::Draft,
        created_draft(request).version == 1,
        created_draft(request).terminal_rationale is None,
        created_draft(request).linked_action_id is None,
        created_draft(request).id == request.id,
        created_draft(request).title == request.title,
        created_draft(request).details == request.details,
        created_draft(request).intended_owner == request.intended_owner,
        created_draft(request).response_due_at == request.response_due_at,
        created_draft(request).intended_action_due_at == request.intended_action_due_at,
        created_draft(request).classification == request.classification,
{
}

/// A decoded ordinary request was brought to its state by exactly the
/// commands that state needs, one recorded transition each: a draft by
/// none; an open request by its submission, which left it as stored; an
/// accepted request by its submission, which opened it; a declined or
/// withdrawn request by its submission, which opened it at version 2, and
/// then its decline or withdrawal, which left it as stored with that
/// command's rationale.
pub proof fn lemma_request_history_counts_its_transitions(
    request: ActionRequestView,
    rows: Seq<TransitionRowView>,
)
    requires
        request_transitions_model(request, rows) is Ok,
    ensures
        ({
            let records = request_transitions_model(request, rows)->Ok_0;
            &&& request.state == ActionRequestState::Draft ==> records.len() == 0
            &&& request.state == ActionRequestState::Open ==> {
                &&& rows.len() == 1
                &&& records.len() == 1
                &&& rows[0].target_state == "open"@
                &&& records[0] == request
            }
            &&& request.state == ActionRequestState::Accepted ==> {
                &&& rows.len() == 1
                &&& records.len() == 1
                &&& rows[0].target_state == "open"@
                &&& records[0].state == ActionRequestState::Open
            }
            &&& (request.state == ActionRequestState::Declined || request.state
                == ActionRequestState::Withdrawn) ==> {
                &&& rows.len() == 2
                &&& records.len() == 2
                &&& rows[0].target_state == "open"@
                &&& records[0].state == ActionRequestState::Open
                &&& records[0].version == 2
                &&& rows[1].target_state == if request.state == ActionRequestState::Declined {
                    "declined"@
                } else {
                    "withdrawn"@
                }
                &&& rows[1].rationale == request.terminal_rationale
                &&& request.terminal_rationale is Some
                &&& records[1] == request
            }
        }),
{
    if request.state != ActionRequestState::Draft {
        let start = created_draft(request);
        let records = request_transitions_model(request, rows)->Ok_0;
        let d = rows.drop_last();
        assert(transition_history(start, d) is Some);
        if rows.len() == 1 {
            assert(d =~= Seq::<TransitionRowView>::empty());
            assert(transition_history(start, d) == Some(Seq::<ActionRequestView>::empty()));
            lemma_transition_step_applies_its_row(start, rows[0]);
        } else {
            let dd = d.drop_last();
            assert(dd =~= Seq::<TransitionRowView>::empty());
            assert(transition_history(start, dd) == Some(Seq::<ActionRequestView>::empty()));
            assert(d.last() == rows[0]);
            lemma_transition_step_applies_its_row(start, rows[0]);
            let opened = transition_history(start, d)->Some_0;
            assert(opened.len() == 1);
            assert(records == opened.push(transition_step(opened[0], rows[1])->Some_0));
            lemma_transition_step_applies_its_row(opened[0], rows[1]);
            reveal_strlit("declined");
            reveal_strlit("withdrawn");
            assert("declined"@ != "withdrawn"@) by {
                assert("declined"@[0] != "withdrawn"@[0]);
            }
        }
    }
}

} // verus!
