use pmc_ledger::load_error::ActionPersistenceLoadError;
use pmc_ledger::namespace_counts::{
    audit_draft_namespace, audit_namespace_counts, check_counts_agree, counted_tables,
    draft_table_expected_count, draft_tables, namespace_shape, table_expected_count, CountedTable,
    DraftTable, NamespaceCounts, NamespaceShape,
};

fn counts() -> NamespaceCounts {
    NamespaceCounts {
        request_count: 4,
        open_count: 1,
        accepted_count: 1,
        declined_count: 1,
        withdrawn_count: 0,
        decision_sourced_open_count: 0,
        decision_sourced_accepted_count: 0,
        decision_sourced_marked_count: 0,
        prepare_count: 2,
        execute_count: 2,
        terminal_execute_count: 1,
        retained_terminal_count: 1,
        lower_prepare_count: 0,
        lower_execute_count: 0,
        complete_prepare_success_count: 0,
        complete_prepare_terminal_count: 0,
        complete_execute_success_count: 0,
        complete_execute_terminal_count: 0,
        complete_retained_terminal_count: 0,
        cancel_prepare_success_count: 0,
        cancel_prepare_terminal_count: 0,
        cancel_execute_success_count: 0,
        cancel_execute_terminal_count: 0,
        cancel_retained_terminal_count: 0,
        reopen_prepare_success_count: 0,
        reopen_prepare_terminal_count: 0,
        reopen_execute_success_count: 0,
        reopen_execute_terminal_count: 0,
        reopen_retained_terminal_count: 0,
        start_action_count: 1,
        link_completion_evidence_count: 0,
        cancel_evidence_binding_count: 0,
        reopen_evidence_binding_count: 0,
        complete_evidence_source_count: 0,
        complete_judgment_source_count: 0,
        reject_accept_count: 0,
        reject_complete_count: 0,
        reject_cancel_count: 0,
        reject_reopen_count: 0,
    }
}

#[test]
fn expected_counts_follow_the_starting_counts() {
    let c = counts();
    assert!(check_counts_agree(&c));
    // 4 requests, 1 + 1 + 2 transitions, 2 prepares, 2 executes, 1 start.
    assert_eq!(table_expected_count(&c, CountedTable::ReplayOperations), 4 + 4 + 2 + 2 + 1);
    // 4 creates, 4 transitions, 3 audits for the executed acceptance, 1 refusal, 1 start.
    assert_eq!(table_expected_count(&c, CountedTable::ReplayAudits), 4 + 4 + 3 + 1 + 1);
    assert_eq!(table_expected_count(&c, CountedTable::Actions), 1);
    assert_eq!(table_expected_count(&c, CountedTable::AcceptEffects), 6);
    assert_eq!(table_expected_count(&c, CountedTable::AcceptSources), 4);
    assert_eq!(table_expected_count(&c, CountedTable::RequestAudits), 4 + 4 + 2 + 1);
    assert_eq!(table_expected_count(&c, CountedTable::DiscardedPreparedIntents), 0);
    assert_eq!(table_expected_count(&c, CountedTable::NamespaceOperations), 0);
    assert_eq!(counted_tables().len(), 66);
}

#[test]
fn audit_accepts_matching_counts_and_refuses_others() {
    let c = counts();
    let observed: Vec<(CountedTable, i64)> = counted_tables()
        .into_iter()
        .map(|table| (table, table_expected_count(&c, table) as i64))
        .collect();
    assert_eq!(audit_namespace_counts(&c, &observed), Ok(()));
    let mut wrong = observed.clone();
    wrong[0].1 += 1;
    assert_eq!(audit_namespace_counts(&c, &wrong), Err(ActionPersistenceLoadError::InvalidActionSnapshot));
    // Two executed acceptances for one accepted request disagree.
    let mut disagreeing = counts();
    disagreeing.retained_terminal_count = 0;
    disagreeing.terminal_execute_count = 0;
    assert!(!check_counts_agree(&disagreeing));
    assert_eq!(
        audit_namespace_counts(&disagreeing, &Vec::new()),
        Err(ActionPersistenceLoadError::InvalidActionSnapshot)
    );
}

#[test]
fn drafts_only_namespace_counts() {
    let observed: Vec<(DraftTable, i64)> = draft_tables()
        .into_iter()
        .map(|table| {
            let count = match table {
                DraftTable::Requests
                | DraftTable::ReplayOperations
                | DraftTable::ReplayAudits
                | DraftTable::CreateRequests
                | DraftTable::RequestRegistry
                | DraftTable::RequestAudits
                | DraftTable::RequestAuditEffects => 2,
                _ => 0,
            };
            (table, count)
        })
        .collect();
    assert_eq!(observed.len(), 30);
    assert_eq!(audit_draft_namespace(2, &observed), Ok(()));
    assert_eq!(
        audit_draft_namespace(3, &observed),
        Err(ActionPersistenceLoadError::InvalidActionSnapshot)
    );
    let mut with_action = observed.clone();
    with_action.push((DraftTable::Actions, 1));
    assert_eq!(
        audit_draft_namespace(2, &with_action),
        Err(ActionPersistenceLoadError::InvalidActionSnapshot)
    );
    assert_eq!(draft_table_expected_count(5, DraftTable::CreateRequests), 5);
    assert_eq!(draft_table_expected_count(5, DraftTable::TransitionRequests), 0);
}

#[test]
fn namespace_shape_follows_the_request_counts() {
    assert_eq!(namespace_shape(0, 0, 0, 0, 0, true), Ok(NamespaceShape::Empty));
    assert_eq!(
        namespace_shape(0, 0, 0, 0, 0, false),
        Err(ActionPersistenceLoadError::InvalidActionSnapshot)
    );
    assert_eq!(namespace_shape(3, 0, 0, 0, 0, false), Ok(NamespaceShape::DraftsOnly));
    assert_eq!(namespace_shape(3, 1, 0, 0, 0, false), Ok(NamespaceShape::Populated));
    assert_eq!(namespace_shape(3, 0, 0, 0, 2, true), Ok(NamespaceShape::Populated));
}
