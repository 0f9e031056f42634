use pmc_ledger::load_error::ActionPersistenceLoadError;
use pmc_ledger::model::ActionRequestRecord;
use pmc_ledger::requests::{
    decode_request_row, decode_request_transitions, same_request, PersistedRequestRow,
    PersistedTransitionRow,
};
use pmc_ledger::states::ActionRequestState;

fn row(state: &str, version: i64) -> PersistedRequestRow {
    PersistedRequestRow {
        id: "req-1".to_string(),
        title: "Ship".to_string(),
        details: "Details".to_string(),
        intended_owner: Some("stakeholder-1".to_string()),
        response_due_at: Some(1_000),
        intended_action_due_at: Some(2_000),
        state: state.to_string(),
        terminal_rationale: None,
        linked_action_id: None,
        source_decision_id: None,
        superseded_premise: 0,
        version,
        classification: "internal".to_string(),
        created_at: 10,
        updated_at: 20,
    }
}

#[test]
fn ordinary_rows_decode_by_state() {
    let draft = decode_request_row(row("draft", 1)).unwrap();
    assert_eq!(draft.state, ActionRequestState::Draft);
    assert_eq!(draft.version, 1);
    let open = decode_request_row(row("open", 2)).unwrap();
    assert_eq!(open.state, ActionRequestState::Open);
    let mut declined = row("declined", 3);
    declined.terminal_rationale = Some("Not now".to_string());
    let declined = decode_request_row(declined).unwrap();
    assert_eq!(declined.terminal_rationale.as_deref(), Some("Not now"));
    let mut accepted = row("accepted", 3);
    accepted.linked_action_id = Some("act-1".to_string());
    assert_eq!(decode_request_row(accepted).unwrap().linked_action_id.as_deref(), Some("act-1"));
}

#[test]
fn malformed_rows_are_invalid_snapshots() {
    let invalid = Err(ActionPersistenceLoadError::InvalidActionSnapshot);
    let check = |r: PersistedRequestRow| decode_request_row(r).map(|_| ());
    assert_eq!(check(row("paused", 1)), invalid);
    assert_eq!(check(row("open", 3)), invalid);
    assert_eq!(check(row("declined", 3)), invalid);
    assert_eq!(check(row("accepted", 3)), invalid);
    let mut linked_open = row("open", 2);
    linked_open.linked_action_id = Some("act-1".to_string());
    assert_eq!(check(linked_open), invalid);
    let mut marked = row("open", 2);
    marked.superseded_premise = 1;
    assert_eq!(check(marked), invalid);
    let mut before_epoch = row("open", 2);
    before_epoch.response_due_at = Some(-1);
    assert_eq!(check(before_epoch), invalid);
    let mut updated_before_created = row("open", 2);
    updated_before_created.updated_at = 5;
    assert_eq!(check(updated_before_created), invalid);
}

#[test]
fn decision_sourced_rows() {
    let mut open = row("open", 1);
    open.source_decision_id = Some("dec-1".to_string());
    open.response_due_at = None;
    assert_eq!(decode_request_row(open).unwrap().version, 1);
    let mut marked = row("open", 2);
    marked.source_decision_id = Some("dec-1".to_string());
    marked.response_due_at = None;
    marked.superseded_premise = 1;
    assert_eq!(decode_request_row(marked).unwrap().version, 2);
    let mut accepted = row("accepted", 3);
    accepted.source_decision_id = Some("dec-1".to_string());
    accepted.response_due_at = None;
    accepted.superseded_premise = 1;
    accepted.linked_action_id = Some("act-1".to_string());
    assert!(decode_request_row(accepted).is_ok());
    let mut with_response = row("open", 1);
    with_response.source_decision_id = Some("dec-1".to_string());
    assert!(decode_request_row(with_response).is_err());
    let mut declined = row("declined", 3);
    declined.source_decision_id = Some("dec-1".to_string());
    declined.response_due_at = None;
    assert!(decode_request_row(declined).is_err());
}

fn request(state: ActionRequestState, version: u64, rationale: Option<&str>) -> ActionRequestRecord {
    ActionRequestRecord {
        id: "req-1".to_string(),
        title: "Ship".to_string(),
        details: "Details".to_string(),
        intended_owner: None,
        response_due_at: None,
        intended_action_due_at: None,
        classification: "internal".to_string(),
        state,
        version,
        terminal_rationale: rationale.map(|r| r.to_string()),
        linked_action_id: None,
    }
}

fn transition(version: i64, target: &str, rationale: Option<&str>) -> PersistedTransitionRow {
    PersistedTransitionRow {
        idempotency_id: format!("k{version}"),
        expected_version: version,
        target_state: target.to_string(),
        rationale: rationale.map(|r| r.to_string()),
    }
}

#[test]
fn declined_request_history() {
    let declined = request(ActionRequestState::Declined, 3, Some("Not now"));
    let rows = vec![transition(1, "open", None), transition(2, "declined", Some("Not now"))];
    let records = decode_request_transitions(&declined, &rows).unwrap();
    assert_eq!(records.len(), 2);
    assert_eq!(records[0].state, ActionRequestState::Open);
    assert_eq!(records[0].version, 2);
    assert!(same_request(&records[1], &declined));
}

#[test]
fn request_history_refusals() {
    let invalid = Err(ActionPersistenceLoadError::InvalidActionSnapshot);
    let open = request(ActionRequestState::Open, 2, None);
    assert_eq!(decode_request_transitions(&open, &vec![]).map(|_| ()), invalid);
    assert_eq!(
        decode_request_transitions(&open, &vec![transition(2, "open", None)]).map(|_| ()),
        invalid
    );
    // The rationale recorded must be the stored one.
    let declined = request(ActionRequestState::Declined, 3, Some("Not now"));
    let rows = vec![transition(1, "open", None), transition(2, "declined", Some("Other"))];
    assert_eq!(decode_request_transitions(&declined, &rows).map(|_| ()), invalid);
    // An accepted request needs only its submission.
    let accepted = request(ActionRequestState::Accepted, 3, None);
    assert_eq!(decode_request_transitions(&accepted, &vec![transition(1, "open", None)]).unwrap().len(), 1);
    // A draft has no transitions to read.
    let draft = request(ActionRequestState::Draft, 1, None);
    assert!(decode_request_transitions(&draft, &vec![transition(1, "open", None)]).unwrap().is_empty());
}
