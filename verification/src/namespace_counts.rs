//! The row-count audit the namespace decoder runs before it decodes any
//! row: from a few counts of requests, commands and outcomes it knows how
//! many rows every other Action table must hold, and a store where any
//! table holds another number is an invalid snapshot.

use vstd::prelude::*;
use crate::load_error::ActionPersistenceLoadError;
use crate::model::ActionRequestView;
use crate::request_activity::{
    lemma_replayed_request_activity_is_its_commands, request_activity_model, RequestActivityRows,
};
use crate::requests::{
    lemma_request_history_counts_its_transitions, request_transitions_model, TransitionRowView,
};
use crate::states::ActionRequestState;

verus! {

/// The counts the audit starts from, as read from the store.
#[derive(Debug)]
pub struct NamespaceCounts {
    pub request_count: i64,
    pub open_count: i64,
    pub accepted_count: i64,
    pub declined_count: i64,
    pub withdrawn_count: i64,
    pub decision_sourced_open_count: i64,
    pub decision_sourced_accepted_count: i64,
    pub decision_sourced_marked_count: i64,
    pub prepare_count: i64,
    pub execute_count: i64,
    pub terminal_execute_count: i64,
    pub retained_terminal_count: i64,
    pub lower_prepare_count: i64,
    pub lower_execute_count: i64,
    pub complete_prepare_success_count: i64,
    pub complete_prepare_terminal_count: i64,
    pub complete_execute_success_count: i64,
    pub complete_execute_terminal_count: i64,
    pub complete_retained_terminal_count: i64,
    pub cancel_prepare_success_count: i64,
    pub cancel_prepare_terminal_count: i64,
    pub cancel_execute_success_count: i64,
    pub cancel_execute_terminal_count: i64,
    pub cancel_retained_terminal_count: i64,
    pub reopen_prepare_success_count: i64,
    pub reopen_prepare_terminal_count: i64,
    pub reopen_execute_success_count: i64,
    pub reopen_execute_terminal_count: i64,
    pub reopen_retained_terminal_count: i64,
    pub start_action_count: i64,
    pub link_completion_evidence_count: i64,
    pub cancel_evidence_binding_count: i64,
    pub reopen_evidence_binding_count: i64,
    pub complete_evidence_source_count: i64,
    pub complete_judgment_source_count: i64,
    pub reject_accept_count: i64,
    pub reject_complete_count: i64,
    pub reject_cancel_count: i64,
    pub reject_reopen_count: i64,
}

/// The tables whose row counts the audit checks, in the order it checks
/// them.
#[derive(Clone, Copy, Debug, PartialEq, Eq, Structural)]
pub enum CountedTable {
    /// `actions`
    Actions,
    /// `action_reject_prepared_command_results`
    RejectResults,
    /// `action_transitions`
    ActionTransitions,
    /// `action_completion_evidence`
    CompletionEvidence,
    /// `action_replay_operations`
    ReplayOperations,
    /// `action_replay_audits`
    ReplayAudits,
    /// `action_command_create_requests`
    CreateRequests,
    /// `action_command_transition_requests`
    TransitionRequests,
    /// `action_decision_replay_operations`
    DecisionReplayOperations,
    /// `action_decision_replay_audits`
    DecisionReplayAudits,
    /// `action_command_create_from_decisions`
    CreateFromDecisions,
    /// `action_command_mark_request_superseded_premises`
    MarkRequestSupersededPremises,
    /// `action_command_mark_action_superseded_premises`
    MarkActionSupersededPremises,
    /// `action_command_prepare_accepts`
    PrepareAccepts,
    /// `action_command_execute_accepts`
    ExecuteAccepts,
    /// `action_command_prepare_completes`
    PrepareCompletes,
    /// `action_command_prepare_cancels`
    PrepareCancels,
    /// `action_command_prepare_reopens`
    PrepareReopens,
    /// `action_command_execute_actions`
    ExecuteActions,
    /// `action_command_start_actions`
    StartActions,
    /// `action_command_link_completion_evidence`
    LinkCompletionEvidenceCommands,
    /// `action_discarded_prepared_intents`
    DiscardedPreparedIntents,
    /// Prepared intents of completions, cancellations and reopenings
    TransitionPreparedIntents,
    /// Consumed prepared acceptances
    ConsumedAcceptIntents,
    /// Consumed prepared completions
    ConsumedCompleteIntents,
    /// Consumed prepared cancellations
    ConsumedCancelIntents,
    /// Consumed prepared reopenings
    ConsumedReopenIntents,
    /// Approval receipts of acceptances
    AcceptReceipts,
    /// Approval receipts of completions
    CompleteReceipts,
    /// Approval receipts of cancellations
    CancelReceipts,
    /// Approval receipts of reopenings
    ReopenReceipts,
    /// Payloads of prepared completions
    CompletePayloads,
    /// Targets of prepared completions
    CompleteTargets,
    /// Effects of prepared completions
    CompleteEffects,
    /// Classification sources of prepared completions
    CompleteSources,
    /// Payloads of prepared cancellations
    CancelPayloads,
    /// Targets of prepared cancellations
    CancelTargets,
    /// Effects of prepared cancellations
    CancelEffects,
    /// Classification sources of prepared cancellations
    CancelSources,
    /// Payloads of prepared reopenings
    ReopenPayloads,
    /// Targets of prepared reopenings
    ReopenTargets,
    /// Effects of prepared reopenings
    ReopenEffects,
    /// Classification sources of prepared reopenings
    ReopenSources,
    /// `operations` rows of prepared acceptances
    AcceptOperations,
    /// Resulting Action Requests of prepared acceptances
    AcceptResultingRequests,
    /// Evidence classifications of prepared acceptances
    AcceptEvidenceClassifications,
    /// Incomplete downstream rows of prepared acceptances
    AcceptIncompleteDownstream,
    /// Recovery evidence of prepared acceptances
    AcceptRecoveryEvidence,
    /// Removal payloads of prepared acceptances
    AcceptRemovalPayloads,
    /// Removal endpoints of prepared acceptances
    AcceptRemovalEndpoints,
    /// Prepared acceptances
    AcceptIntents,
    /// Payloads of prepared acceptances
    AcceptPayloads,
    /// Targets of prepared acceptances
    AcceptTargets,
    /// Effects of prepared acceptances
    AcceptEffects,
    /// Classification sources of prepared acceptances
    AcceptSources,
    /// Registry rows of Action Requests
    RequestRegistry,
    /// Registry rows of Actions
    ActionRegistry,
    /// Audit events on Action Requests
    RequestAudits,
    /// Audit events on Actions
    ActionAudits,
    /// Audit effects on Action Requests
    RequestAuditEffects,
    /// Audit effects on Actions
    ActionAuditEffects,
    /// `operations` rows of the Action namespace
    NamespaceOperations,
    /// `idempotency_outcomes` rows of the Action namespace
    NamespaceIdempotencyOutcomes,
    /// Replay rows of prepared lowerings
    LowerPrepareReplay,
    /// Replay rows of executed lowerings
    LowerExecuteReplay,
    /// Replay audits of executed lowerings
    LowerExecuteReplayAudits,
}

/// Requests a Decision created.
pub open spec fn decision_sourced_requests(c: NamespaceCounts) -> int {
    c.decision_sourced_open_count + c.decision_sourced_accepted_count
}

/// Recorded request transitions: one for every ordinary open or accepted
/// request, two for every declined or withdrawn one.
pub open spec fn transitioned(c: NamespaceCounts) -> int {
    (c.open_count - c.decision_sourced_open_count) + (c.accepted_count - c.decision_sourced_accepted_count) + 2 * (c.declined_count + c.withdrawn_count)
}

/// Refused acceptances that discarded their preview.
pub open spec fn discarded_terminal(c: NamespaceCounts) -> int {
    c.terminal_execute_count - c.retained_terminal_count
}

/// Executed acceptances.
pub open spec fn accepted_execute(c: NamespaceCounts) -> int {
    c.execute_count - c.terminal_execute_count
}

/// Prepared or denied completions.
pub open spec fn complete_prepare(c: NamespaceCounts) -> int {
    c.complete_prepare_success_count + c.complete_prepare_terminal_count
}

/// Executed or refused completions.
pub open spec fn complete_execute(c: NamespaceCounts) -> int {
    c.complete_execute_success_count + c.complete_execute_terminal_count
}

/// Refused completions that discarded their preview.
pub open spec fn complete_discarded(c: NamespaceCounts) -> int {
    c.complete_execute_terminal_count - c.complete_retained_terminal_count
}

/// Prepared or denied cancellations.
pub open spec fn cancel_prepare(c: NamespaceCounts) -> int {
    c.cancel_prepare_success_count + c.cancel_prepare_terminal_count
}

/// Executed or refused cancellations.
pub open spec fn cancel_execute(c: NamespaceCounts) -> int {
    c.cancel_execute_success_count + c.cancel_execute_terminal_count
}

/// Refused cancellations that discarded their preview.
pub open spec fn cancel_discarded(c: NamespaceCounts) -> int {
    c.cancel_execute_terminal_count - c.cancel_retained_terminal_count
}

/// Prepared or denied reopenings.
pub open spec fn reopen_prepare(c: NamespaceCounts) -> int {
    c.reopen_prepare_success_count + c.reopen_prepare_terminal_count
}

/// Executed or refused reopenings.
pub open spec fn reopen_execute(c: NamespaceCounts) -> int {
    c.reopen_execute_success_count + c.reopen_execute_terminal_count
}

/// Refused reopenings that discarded their preview.
pub open spec fn reopen_discarded(c: NamespaceCounts) -> int {
    c.reopen_execute_terminal_count - c.reopen_retained_terminal_count
}

/// Rejected previews of every kind.
pub open spec fn rejects(c: NamespaceCounts) -> int {
    c.reject_accept_count + c.reject_complete_count + c.reject_cancel_count + c.reject_reopen_count
}

/// Whether the starting counts agree among themselves: no refusal kept
/// more previews than it refused, and every accepted request has exactly
/// one executed acceptance.
pub open spec fn counts_agree(c: NamespaceCounts) -> bool {
    &&& discarded_terminal(c) >= 0
    &&& accepted_execute(c) >= 0
    &&& c.accepted_count == accepted_execute(c)
    &&& complete_discarded(c) >= 0
    &&& cancel_discarded(c) >= 0
    &&& reopen_discarded(c) >= 0
}

/// How many rows `table` must hold.
pub open spec fn expected_count(c: NamespaceCounts, table: CountedTable) -> int {
    match table {
        CountedTable::Actions => accepted_execute(c),
        CountedTable::RejectResults => rejects(c),
        CountedTable::ActionTransitions => (c.start_action_count as int),
        CountedTable::CompletionEvidence => (c.link_completion_evidence_count as int),
        CountedTable::ReplayOperations => ((c.request_count as int) - decision_sourced_requests(c)) + transitioned(c) + (c.prepare_count as int) + (c.execute_count as int) + complete_prepare(c) + complete_execute(c) + cancel_prepare(c) + cancel_execute(c) + reopen_prepare(c) + reopen_execute(c) + (c.start_action_count as int) + (c.link_completion_evidence_count as int),
        CountedTable::ReplayAudits => ((c.request_count as int) - decision_sourced_requests(c)) + transitioned(c) + 3 * accepted_execute(c) + (c.terminal_execute_count as int) + (c.complete_prepare_terminal_count as int) + complete_execute(c) + (c.cancel_prepare_terminal_count as int) + cancel_execute(c) + (c.reopen_prepare_terminal_count as int) + reopen_execute(c) + (c.start_action_count as int) + (c.link_completion_evidence_count as int),
        CountedTable::CreateRequests => (c.request_count as int) - decision_sourced_requests(c),
        CountedTable::TransitionRequests => transitioned(c),
        CountedTable::DecisionReplayOperations => decision_sourced_requests(c) + (c.decision_sourced_marked_count as int),
        CountedTable::DecisionReplayAudits => decision_sourced_requests(c) + (c.decision_sourced_marked_count as int),
        CountedTable::CreateFromDecisions => decision_sourced_requests(c),
        CountedTable::MarkRequestSupersededPremises => (c.decision_sourced_marked_count as int),
        CountedTable::MarkActionSupersededPremises => 0int,
        CountedTable::PrepareAccepts => (c.prepare_count as int),
        CountedTable::ExecuteAccepts => (c.execute_count as int),
        CountedTable::PrepareCompletes => complete_prepare(c),
        CountedTable::PrepareCancels => cancel_prepare(c),
        CountedTable::PrepareReopens => reopen_prepare(c),
        CountedTable::ExecuteActions => complete_execute(c) + cancel_execute(c) + reopen_execute(c),
        CountedTable::StartActions => (c.start_action_count as int),
        CountedTable::LinkCompletionEvidenceCommands => (c.link_completion_evidence_count as int),
        CountedTable::DiscardedPreparedIntents => discarded_terminal(c) + complete_discarded(c) + cancel_discarded(c) + reopen_discarded(c),
        CountedTable::TransitionPreparedIntents => (c.complete_prepare_success_count as int) + (c.cancel_prepare_success_count as int) + (c.reopen_prepare_success_count as int),
        CountedTable::ConsumedAcceptIntents => accepted_execute(c) + discarded_terminal(c) + (c.reject_accept_count as int),
        CountedTable::ConsumedCompleteIntents => (c.complete_execute_success_count as int) + complete_discarded(c) + (c.reject_complete_count as int),
        CountedTable::ConsumedCancelIntents => (c.cancel_execute_success_count as int) + cancel_discarded(c) + (c.reject_cancel_count as int),
        CountedTable::ConsumedReopenIntents => (c.reopen_execute_success_count as int) + reopen_discarded(c) + (c.reject_reopen_count as int),
        CountedTable::AcceptReceipts => accepted_execute(c),
        CountedTable::CompleteReceipts => (c.complete_execute_success_count as int),
        CountedTable::CancelReceipts => (c.cancel_execute_success_count as int),
        CountedTable::ReopenReceipts => (c.reopen_execute_success_count as int),
        CountedTable::CompletePayloads => (c.complete_prepare_success_count as int),
        CountedTable::CompleteTargets => (c.complete_prepare_success_count as int),
        CountedTable::CompleteEffects => (c.complete_prepare_success_count as int),
        CountedTable::CompleteSources => (c.complete_prepare_success_count as int) + (c.complete_evidence_source_count as int) + (c.complete_judgment_source_count as int),
        CountedTable::CancelPayloads => (c.cancel_prepare_success_count as int),
        CountedTable::CancelTargets => (c.cancel_prepare_success_count as int),
        CountedTable::CancelEffects => (c.cancel_prepare_success_count as int),
        CountedTable::CancelSources => (c.cancel_prepare_success_count as int) + (c.cancel_evidence_binding_count as int),
        CountedTable::ReopenPayloads => (c.reopen_prepare_success_count as int),
        CountedTable::ReopenTargets => (c.reopen_prepare_success_count as int),
        CountedTable::ReopenEffects => (c.reopen_prepare_success_count as int),
        CountedTable::ReopenSources => (c.reopen_prepare_success_count as int) + (c.reopen_evidence_binding_count as int),
        CountedTable::AcceptOperations => 0int,
        CountedTable::AcceptResultingRequests => 0int,
        CountedTable::AcceptEvidenceClassifications => 0int,
        CountedTable::AcceptIncompleteDownstream => 0int,
        CountedTable::AcceptRecoveryEvidence => 0int,
        CountedTable::AcceptRemovalPayloads => 0int,
        CountedTable::AcceptRemovalEndpoints => 0int,
        CountedTable::AcceptIntents => (c.prepare_count as int),
        CountedTable::AcceptPayloads => (c.prepare_count as int),
        CountedTable::AcceptTargets => (c.prepare_count as int),
        CountedTable::AcceptEffects => 3 * (c.prepare_count as int),
        CountedTable::AcceptSources => 2 * (c.prepare_count as int),
        CountedTable::RequestRegistry => (c.request_count as int),
        CountedTable::ActionRegistry => accepted_execute(c),
        CountedTable::RequestAudits => (c.request_count as int) + transitioned(c) + 2 * accepted_execute(c) + (c.terminal_execute_count as int) + (c.decision_sourced_marked_count as int) + (c.reject_accept_count as int),
        CountedTable::ActionAudits => accepted_execute(c) + (c.lower_execute_count as int) + (c.complete_prepare_terminal_count as int) + complete_execute(c) + (c.cancel_prepare_terminal_count as int) + cancel_execute(c) + (c.reopen_prepare_terminal_count as int) + reopen_execute(c) + (c.start_action_count as int) + (c.link_completion_evidence_count as int) + (c.reject_complete_count as int) + (c.reject_cancel_count as int) + (c.reject_reopen_count as int),
        CountedTable::RequestAuditEffects => (c.request_count as int) + transitioned(c) + 2 * accepted_execute(c) + (c.decision_sourced_marked_count as int),
        CountedTable::ActionAuditEffects => accepted_execute(c) + (c.lower_execute_count as int) + (c.complete_execute_success_count as int) + (c.cancel_execute_success_count as int) + (c.reopen_execute_success_count as int) + (c.start_action_count as int) + (c.link_completion_evidence_count as int),
        CountedTable::NamespaceOperations => 0int,
        CountedTable::NamespaceIdempotencyOutcomes => 0int,
        CountedTable::LowerPrepareReplay => (c.lower_prepare_count as int),
        CountedTable::LowerExecuteReplay => (c.lower_execute_count as int),
        CountedTable::LowerExecuteReplayAudits => (c.lower_execute_count as int),
    }
}

/// Every counted table, in the order the audit checks them.
pub open spec fn counted_tables_spec() -> Seq<CountedTable> {
    seq![
        CountedTable::Actions,
        CountedTable::RejectResults,
        CountedTable::ActionTransitions,
        CountedTable::CompletionEvidence,
        CountedTable::ReplayOperations,
        CountedTable::ReplayAudits,
        CountedTable::CreateRequests,
        CountedTable::TransitionRequests,
        CountedTable::DecisionReplayOperations,
        CountedTable::DecisionReplayAudits,
        CountedTable::CreateFromDecisions,
        CountedTable::MarkRequestSupersededPremises,
        CountedTable::MarkActionSupersededPremises,
        CountedTable::PrepareAccepts,
        CountedTable::ExecuteAccepts,
        CountedTable::PrepareCompletes,
        CountedTable::PrepareCancels,
        CountedTable::PrepareReopens,
        CountedTable::ExecuteActions,
        CountedTable::StartActions,
        CountedTable::LinkCompletionEvidenceCommands,
        CountedTable::DiscardedPreparedIntents,
        CountedTable::TransitionPreparedIntents,
        CountedTable::ConsumedAcceptIntents,
        CountedTable::ConsumedCompleteIntents,
        CountedTable::ConsumedCancelIntents,
        CountedTable::ConsumedReopenIntents,
        CountedTable::AcceptReceipts,
        CountedTable::CompleteReceipts,
        CountedTable::CancelReceipts,
        CountedTable::ReopenReceipts,
        CountedTable::CompletePayloads,
        CountedTable::CompleteTargets,
        CountedTable::CompleteEffects,
        CountedTable::CompleteSources,
        CountedTable::CancelPayloads,
        CountedTable::CancelTargets,
        CountedTable::CancelEffects,
        CountedTable::CancelSources,
        CountedTable::ReopenPayloads,
        CountedTable::ReopenTargets,
        CountedTable::ReopenEffects,
        CountedTable::ReopenSources,
        CountedTable::AcceptOperations,
        CountedTable::AcceptResultingRequests,
        CountedTable::AcceptEvidenceClassifications,
        CountedTable::AcceptIncompleteDownstream,
        CountedTable::AcceptRecoveryEvidence,
        CountedTable::AcceptRemovalPayloads,
        CountedTable::AcceptRemovalEndpoints,
        CountedTable::AcceptIntents,
        CountedTable::AcceptPayloads,
        CountedTable::AcceptTargets,
        CountedTable::AcceptEffects,
        CountedTable::AcceptSources,
        CountedTable::RequestRegistry,
        CountedTable::ActionRegistry,
        CountedTable::RequestAudits,
        CountedTable::ActionAudits,
        CountedTable::RequestAuditEffects,
        CountedTable::ActionAuditEffects,
        CountedTable::NamespaceOperations,
        CountedTable::NamespaceIdempotencyOutcomes,
        CountedTable::LowerPrepareReplay,
        CountedTable::LowerExecuteReplay,
        CountedTable::LowerExecuteReplayAudits,
    ]
}

/// Every counted table, in the order the audit checks them.
pub fn counted_tables() -> (tables: Vec<CountedTable>)
    ensures
        tables@ == counted_tables_spec(),
{
    let tables: Vec<CountedTable> = vec![
        CountedTable::Actions,
        CountedTable::RejectResults,
        CountedTable::ActionTransitions,
        CountedTable::CompletionEvidence,
        CountedTable::ReplayOperations,
        CountedTable::ReplayAudits,
        CountedTable::CreateRequests,
        CountedTable::TransitionRequests,
        CountedTable::DecisionReplayOperations,
        CountedTable::DecisionReplayAudits,
        CountedTable::CreateFromDecisions,
        CountedTable::MarkRequestSupersededPremises,
        CountedTable::MarkActionSupersededPremises,
        CountedTable::PrepareAccepts,
        CountedTable::ExecuteAccepts,
        CountedTable::PrepareCompletes,
        CountedTable::PrepareCancels,
        CountedTable::PrepareReopens,
        CountedTable::ExecuteActions,
        CountedTable::StartActions,
        CountedTable::LinkCompletionEvidenceCommands,
        CountedTable::DiscardedPreparedIntents,
        CountedTable::TransitionPreparedIntents,
        CountedTable::ConsumedAcceptIntents,
        CountedTable::ConsumedCompleteIntents,
        CountedTable::ConsumedCancelIntents,
        CountedTable::ConsumedReopenIntents,
        CountedTable::AcceptReceipts,
        CountedTable::CompleteReceipts,
        CountedTable::CancelReceipts,
        CountedTable::ReopenReceipts,
        CountedTable::CompletePayloads,
        CountedTable::CompleteTargets,
        CountedTable::CompleteEffects,
        CountedTable::CompleteSources,
        CountedTable::CancelPayloads,
        CountedTable::CancelTargets,
        CountedTable::CancelEffects,
        CountedTable::CancelSources,
        CountedTable::ReopenPayloads,
        CountedTable::ReopenTargets,
        CountedTable::ReopenEffects,
        CountedTable::ReopenSources,
        CountedTable::AcceptOperations,
        CountedTable::AcceptResultingRequests,
        CountedTable::AcceptEvidenceClassifications,
        CountedTable::AcceptIncompleteDownstream,
        CountedTable::AcceptRecoveryEvidence,
        CountedTable::AcceptRemovalPayloads,
        CountedTable::AcceptRemovalEndpoints,
        CountedTable::AcceptIntents,
        CountedTable::AcceptPayloads,
        CountedTable::AcceptTargets,
        CountedTable::AcceptEffects,
        CountedTable::AcceptSources,
        CountedTable::RequestRegistry,
        CountedTable::ActionRegistry,
        CountedTable::RequestAudits,
        CountedTable::ActionAudits,
        CountedTable::RequestAuditEffects,
        CountedTable::ActionAuditEffects,
        CountedTable::NamespaceOperations,
        CountedTable::NamespaceIdempotencyOutcomes,
        CountedTable::LowerPrepareReplay,
        CountedTable::LowerExecuteReplay,
        CountedTable::LowerExecuteReplayAudits,
    ];
    assert(tables@ =~= counted_tables_spec());
    tables
}

/// How many rows `table` must hold, given the starting counts.
#[verifier::rlimit(60)]
pub fn table_expected_count(c: &NamespaceCounts, table: CountedTable) -> (count: i128)
    ensures
        count == expected_count(*c, table),
{
    let decision_sourced_requests: i128 = (c.decision_sourced_open_count as i128) + (c.decision_sourced_accepted_count as i128);
    let transitioned: i128 = ((c.open_count as i128) - (c.decision_sourced_open_count as i128)) + ((c.accepted_count as i128) - (c.decision_sourced_accepted_count as i128)) + 2 * ((c.declined_count as i128) + (c.withdrawn_count as i128));
    let discarded_terminal: i128 = (c.terminal_execute_count as i128) - (c.retained_terminal_count as i128);
    let accepted_execute: i128 = (c.execute_count as i128) - (c.terminal_execute_count as i128);
    let complete_prepare: i128 = (c.complete_prepare_success_count as i128) + (c.complete_prepare_terminal_count as i128);
    let complete_execute: i128 = (c.complete_execute_success_count as i128) + (c.complete_execute_terminal_count as i128);
    let complete_discarded: i128 = (c.complete_execute_terminal_count as i128) - (c.complete_retained_terminal_count as i128);
    let cancel_prepare: i128 = (c.cancel_prepare_success_count as i128) + (c.cancel_prepare_terminal_count as i128);
    let cancel_execute: i128 = (c.cancel_execute_success_count as i128) + (c.cancel_execute_terminal_count as i128);
    let cancel_discarded: i128 = (c.cancel_execute_terminal_count as i128) - (c.cancel_retained_terminal_count as i128);
    let reopen_prepare: i128 = (c.reopen_prepare_success_count as i128) + (c.reopen_prepare_terminal_count as i128);
    let reopen_execute: i128 = (c.reopen_execute_success_count as i128) + (c.reopen_execute_terminal_count as i128);
    let reopen_discarded: i128 = (c.reopen_execute_terminal_count as i128) - (c.reopen_retained_terminal_count as i128);
    let rejects: i128 = (c.reject_accept_count as i128) + (c.reject_complete_count as i128) + (c.reject_cancel_count as i128) + (c.reject_reopen_count as i128);
    match table {
        CountedTable::Actions => accepted_execute,
        CountedTable::RejectResults => rejects,
        CountedTable::ActionTransitions => (c.start_action_count as i128),
        CountedTable::CompletionEvidence => (c.link_completion_evidence_count as i128),
        CountedTable::ReplayOperations => ((c.request_count as i128) - decision_sourced_requests) + transitioned + (c.prepare_count as i128) + (c.execute_count as i128) + complete_prepare + complete_execute + cancel_prepare + cancel_execute + reopen_prepare + reopen_execute + (c.start_action_count as i128) + (c.link_completion_evidence_count as i128),
        CountedTable::ReplayAudits => ((c.request_count as i128) - decision_sourced_requests) + transitioned + 3 * accepted_execute + (c.terminal_execute_count as i128) + (c.complete_prepare_terminal_count as i128) + complete_execute + (c.cancel_prepare_terminal_count as i128) + cancel_execute + (c.reopen_prepare_terminal_count as i128) + reopen_execute + (c.start_action_count as i128) + (c.link_completion_evidence_count as i128),
        CountedTable::CreateRequests => (c.request_count as i128) - decision_sourced_requests,
        CountedTable::TransitionRequests => transitioned,
        CountedTable::DecisionReplayOperations => decision_sourced_requests + (c.decision_sourced_marked_count as i128),
        CountedTable::DecisionReplayAudits => decision_sourced_requests + (c.decision_sourced_marked_count as i128),
        CountedTable::CreateFromDecisions => decision_sourced_requests,
        CountedTable::MarkRequestSupersededPremises => (c.decision_sourced_marked_count as i128),
        CountedTable::MarkActionSupersededPremises => 0i128,
        CountedTable::PrepareAccepts => (c.prepare_count as i128),
        CountedTable::ExecuteAccepts => (c.execute_count as i128),
        CountedTable::PrepareCompletes => complete_prepare,
        CountedTable::PrepareCancels => cancel_prepare,
        CountedTable::PrepareReopens => reopen_prepare,
        CountedTable::ExecuteActions => complete_execute + cancel_execute + reopen_execute,
        CountedTable::StartActions => (c.start_action_count as i128),
        CountedTable::LinkCompletionEvidenceCommands => (c.link_completion_evidence_count as i128),
        CountedTable::DiscardedPreparedIntents => discarded_terminal + complete_discarded + cancel_discarded + reopen_discarded,
        CountedTable::TransitionPreparedIntents => (c.complete_prepare_success_count as i128) + (c.cancel_prepare_success_count as i128) + (c.reopen_prepare_success_count as i128),
        CountedTable::ConsumedAcceptIntents => accepted_execute + discarded_terminal + (c.reject_accept_count as i128),
        CountedTable::ConsumedCompleteIntents => (c.complete_execute_success_count as i128) + complete_discarded + (c.reject_complete_count as i128),
        CountedTable::ConsumedCancelIntents => (c.cancel_execute_success_count as i128) + cancel_discarded + (c.reject_cancel_count as i128),
        CountedTable::ConsumedReopenIntents => (c.reopen_execute_success_count as i128) + reopen_discarded + (c.reject_reopen_count as i128),
        CountedTable::AcceptReceipts => accepted_execute,
        CountedTable::CompleteReceipts => (c.complete_execute_success_count as i128),
        CountedTable::CancelReceipts => (c.cancel_execute_success_count as i128),
        CountedTable::ReopenReceipts => (c.reopen_execute_success_count as i128),
        CountedTable::CompletePayloads => (c.complete_prepare_success_count as i128),
        CountedTable::CompleteTargets => (c.complete_prepare_success_count as i128),
        CountedTable::CompleteEffects => (c.complete_prepare_success_count as i128),
        CountedTable::CompleteSources => (c.complete_prepare_success_count as i128) + (c.complete_evidence_source_count as i128) + (c.complete_judgment_source_count as i128),
        CountedTable::CancelPayloads => (c.cancel_prepare_success_count as i128),
        CountedTable::CancelTargets => (c.cancel_prepare_success_count as i128),
        CountedTable::CancelEffects => (c.cancel_prepare_success_count as i128),
        CountedTable::CancelSources => (c.cancel_prepare_success_count as i128) + (c.cancel_evidence_binding_count as i128),
        CountedTable::ReopenPayloads => (c.reopen_prepare_success_count as i128),
        CountedTable::ReopenTargets => (c.reopen_prepare_success_count as i128),
        CountedTable::ReopenEffects => (c.reopen_prepare_success_count as i128),
        CountedTable::ReopenSources => (c.reopen_prepare_success_count as i128) + (c.reopen_evidence_binding_count as i128),
        CountedTable::AcceptOperations => 0i128,
        CountedTable::AcceptResultingRequests => 0i128,
        CountedTable::AcceptEvidenceClassifications => 0i128,
        CountedTable::AcceptIncompleteDownstream => 0i128,
        CountedTable::AcceptRecoveryEvidence => 0i128,
        CountedTable::AcceptRemovalPayloads => 0i128,
        CountedTable::AcceptRemovalEndpoints => 0i128,
        CountedTable::AcceptIntents => (c.prepare_count as i128),
        CountedTable::AcceptPayloads => (c.prepare_count as i128),
        CountedTable::AcceptTargets => (c.prepare_count as i128),
        CountedTable::AcceptEffects => 3 * (c.prepare_count as i128),
        CountedTable::AcceptSources => 2 * (c.prepare_count as i128),
        CountedTable::RequestRegistry => (c.request_count as i128),
        CountedTable::ActionRegistry => accepted_execute,
        CountedTable::RequestAudits => (c.request_count as i128) + transitioned + 2 * accepted_execute + (c.terminal_execute_count as i128) + (c.decision_sourced_marked_count as i128) + (c.reject_accept_count as i128),
        CountedTable::ActionAudits => accepted_execute + (c.lower_execute_count as i128) + (c.complete_prepare_terminal_count as i128) + complete_execute + (c.cancel_prepare_terminal_count as i128) + cancel_execute + (c.reopen_prepare_terminal_count as i128) + reopen_execute + (c.start_action_count as i128) + (c.link_completion_evidence_count as i128) + (c.reject_complete_count as i128) + (c.reject_cancel_count as i128) + (c.reject_reopen_count as i128),
        CountedTable::RequestAuditEffects => (c.request_count as i128) + transitioned + 2 * accepted_execute + (c.decision_sourced_marked_count as i128),
        CountedTable::ActionAuditEffects => accepted_execute + (c.lower_execute_count as i128) + (c.complete_execute_success_count as i128) + (c.cancel_execute_success_count as i128) + (c.reopen_execute_success_count as i128) + (c.start_action_count as i128) + (c.link_completion_evidence_count as i128),
        CountedTable::NamespaceOperations => 0i128,
        CountedTable::NamespaceIdempotencyOutcomes => 0i128,
        CountedTable::LowerPrepareReplay => (c.lower_prepare_count as i128),
        CountedTable::LowerExecuteReplay => (c.lower_execute_count as i128),
        CountedTable::LowerExecuteReplayAudits => (c.lower_execute_count as i128),
    }
}

/// Whether the starting counts agree among themselves.
pub fn check_counts_agree(c: &NamespaceCounts) -> (ok: bool)
    ensures
        ok == counts_agree(*c),
{
    let discarded_terminal: i128 = (c.terminal_execute_count as i128) - (c.retained_terminal_count as i128);
    let accepted_execute: i128 = (c.execute_count as i128) - (c.terminal_execute_count as i128);
    let complete_discarded: i128 = (c.complete_execute_terminal_count as i128) - (c.complete_retained_terminal_count as i128);
    let cancel_discarded: i128 = (c.cancel_execute_terminal_count as i128) - (c.cancel_retained_terminal_count as i128);
    let reopen_discarded: i128 = (c.reopen_execute_terminal_count as i128) - (c.reopen_retained_terminal_count as i128);
    discarded_terminal >= 0 && accepted_execute >= 0 && (c.accepted_count as i128) == accepted_execute
        && complete_discarded >= 0 && cancel_discarded >= 0 && reopen_discarded >= 0
}

/// What the audit concludes from the starting counts and the row counts
/// observed for each table: the store is consistent exactly when the
/// starting counts agree and every observed count is the one its table
/// must hold.
pub open spec fn audit_model(c: NamespaceCounts, observed: Seq<(CountedTable, i64)>) -> Result<
    (),
    ActionPersistenceLoadError,
> {
    if counts_agree(c) && forall|i: int|
        0 <= i < observed.len() ==> #[trigger] observed[i].1 == expected_count(c, observed[i].0) {
        Ok(())
    } else {
        Err(ActionPersistenceLoadError::InvalidActionSnapshot)
    }
}

/// Audits the row counts of the Action tables.
pub fn audit_namespace_counts(c: &NamespaceCounts, observed: &Vec<(CountedTable, i64)>) -> (result:
    Result<(), ActionPersistenceLoadError>)
    ensures
        result == audit_model(*c, observed@),
{
    if !check_counts_agree(c) {
        return Err(ActionPersistenceLoadError::InvalidActionSnapshot);
    }
    let n = observed.len();
    let mut i: usize = 0;
    while i < n
        invariant
            n == observed@.len(),
            i <= n,
            forall|k: int| 0 <= k < i ==> #[trigger] observed@[k].1 == expected_count(*c, observed@[k].0),
        decreases n - i,
    {
        let (table, actual) = observed[i];
        if (actual as i128) != table_expected_count(c, table) {
            assert(observed@[i as int].1 != expected_count(*c, observed@[i as int].0));
            return Err(ActionPersistenceLoadError::InvalidActionSnapshot);
        }
        i = i + 1;
    }
    Ok(())
}

// ---------------------------------------------------------------------------
// A namespace of drafts only
// ---------------------------------------------------------------------------

/// The tables whose row counts a namespace holding nothing but draft
/// requests pins down.
#[derive(Clone, Copy, Debug, PartialEq, Eq, Structural)]
pub enum DraftTable {
    /// `action_requests`
    Requests,
    /// `actions`
    Actions,
    /// `action_transitions`
    ActionTransitions,
    /// `action_completion_evidence`
    CompletionEvidence,
    /// `action_replay_operations`
    ReplayOperations,
    /// `action_replay_audits`
    ReplayAudits,
    /// `action_command_create_requests`
    CreateRequests,
    /// `action_command_transition_requests`
    TransitionRequests,
    /// `action_command_prepare_accepts`
    PrepareAccepts,
    /// `action_command_execute_accepts`
    ExecuteAccepts,
    /// `action_command_prepare_completes`
    PrepareCompletes,
    /// `action_command_prepare_cancels`
    PrepareCancels,
    /// `action_command_prepare_reopens`
    PrepareReopens,
    /// `action_command_execute_actions`
    ExecuteActions,
    /// `action_command_start_actions`
    StartActions,
    /// `action_command_link_completion_evidence`
    LinkCompletionEvidenceCommands,
    /// `action_replay_error_params`
    ErrorParams,
    /// `action_replay_error_extensions`
    ErrorExtensions,
    /// `action_discarded_prepared_intents`
    DiscardedPreparedIntents,
    /// `prepared_intents` of an acceptance, completion, cancellation or reopening
    ActionPreparedIntents,
    /// `aggregate_registry` rows of requests
    RequestRegistry,
    /// `aggregate_registry` rows of Actions
    ActionRegistry,
    /// `audit_events` on requests
    RequestAudits,
    /// `audit_events` on Actions
    ActionAudits,
    /// `audit_effects` on requests
    RequestAuditEffects,
    /// `audit_effects` on Actions
    ActionAuditEffects,
    /// `operations` of the namespace
    NamespaceOperations,
    /// `idempotency_outcomes` of the namespace
    NamespaceIdempotencyOutcomes,
    /// `action_h2a_lower_classification_command_prepares`
    LowerPrepareCommands,
    /// `action_h2a_lower_classification_command_executes`
    LowerExecuteCommands,
}

/// How many rows `table` holds when the namespace is `drafts` draft
/// requests and nothing else: each draft has its request, registry row,
/// create command, replay row, replay audit link, audit event and effect;
/// every other table is empty.
pub open spec fn draft_expected_count(drafts: i64, table: DraftTable) -> i64 {
    match table {
        DraftTable::Requests => drafts,
        DraftTable::Actions => 0,
        DraftTable::ActionTransitions => 0,
        DraftTable::CompletionEvidence => 0,
        DraftTable::ReplayOperations => drafts,
        DraftTable::ReplayAudits => drafts,
        DraftTable::CreateRequests => drafts,
        DraftTable::TransitionRequests => 0,
        DraftTable::PrepareAccepts => 0,
        DraftTable::ExecuteAccepts => 0,
        DraftTable::PrepareCompletes => 0,
        DraftTable::PrepareCancels => 0,
        DraftTable::PrepareReopens => 0,
        DraftTable::ExecuteActions => 0,
        DraftTable::StartActions => 0,
        DraftTable::LinkCompletionEvidenceCommands => 0,
        DraftTable::ErrorParams => 0,
        DraftTable::ErrorExtensions => 0,
        DraftTable::DiscardedPreparedIntents => 0,
        DraftTable::ActionPreparedIntents => 0,
        DraftTable::RequestRegistry => drafts,
        DraftTable::ActionRegistry => 0,
        DraftTable::RequestAudits => drafts,
        DraftTable::ActionAudits => 0,
        DraftTable::RequestAuditEffects => drafts,
        DraftTable::ActionAuditEffects => 0,
        DraftTable::NamespaceOperations => 0,
        DraftTable::NamespaceIdempotencyOutcomes => 0,
        DraftTable::LowerPrepareCommands => 0,
        DraftTable::LowerExecuteCommands => 0,
    }
}

pub fn draft_table_expected_count(drafts: i64, table: DraftTable) -> (count: i64)
    ensures
        count == draft_expected_count(drafts, table),
{
    match table {
        DraftTable::Requests => drafts,
        DraftTable::Actions => 0,
        DraftTable::ActionTransitions => 0,
        DraftTable::CompletionEvidence => 0,
        DraftTable::ReplayOperations => drafts,
        DraftTable::ReplayAudits => drafts,
        DraftTable::CreateRequests => drafts,
        DraftTable::TransitionRequests => 0,
        DraftTable::PrepareAccepts => 0,
        DraftTable::ExecuteAccepts => 0,
        DraftTable::PrepareCompletes => 0,
        DraftTable::PrepareCancels => 0,
        DraftTable::PrepareReopens => 0,
        DraftTable::ExecuteActions => 0,
        DraftTable::StartActions => 0,
        DraftTable::LinkCompletionEvidenceCommands => 0,
        DraftTable::ErrorParams => 0,
        DraftTable::ErrorExtensions => 0,
        DraftTable::DiscardedPreparedIntents => 0,
        DraftTable::ActionPreparedIntents => 0,
        DraftTable::RequestRegistry => drafts,
        DraftTable::ActionRegistry => 0,
        DraftTable::RequestAudits => drafts,
        DraftTable::ActionAudits => 0,
        DraftTable::RequestAuditEffects => drafts,
        DraftTable::ActionAuditEffects => 0,
        DraftTable::NamespaceOperations => 0,
        DraftTable::NamespaceIdempotencyOutcomes => 0,
        DraftTable::LowerPrepareCommands => 0,
        DraftTable::LowerExecuteCommands => 0,
    }
}

/// What the audit of a drafts-only namespace of `drafts` requests
/// concludes from the observed row counts: consistent exactly when every
/// observed count is the one its table must hold.
pub open spec fn draft_audit_model(drafts: i64, observed: Seq<(DraftTable, i64)>) -> Result<
    (),
    ActionPersistenceLoadError,
> {
    if forall|i: int|
        0 <= i < observed.len() ==> #[trigger] observed[i].1 == draft_expected_count(
            drafts,
            observed[i].0,
        ) {
        Ok(())
    } else {
        Err(ActionPersistenceLoadError::InvalidActionSnapshot)
    }
}

/// Audits the row counts of a namespace holding nothing but `drafts` draft
/// requests.
pub fn audit_draft_namespace(drafts: i64, observed: &Vec<(DraftTable, i64)>) -> (result: Result<
    (),
    ActionPersistenceLoadError,
>)
    ensures
        result == draft_audit_model(drafts, observed@),
{
    let n = observed.len();
    let mut i: usize = 0;
    while i < n
        invariant
            n == observed@.len(),
            i <= n,
            forall|k: int|
                0 <= k < i ==> #[trigger] observed@[k].1 == draft_expected_count(drafts, observed@[k].0),
        decreases n - i,
    {
        let (table, actual) = observed[i];
        if actual != draft_table_expected_count(drafts, table) {
            return Err(ActionPersistenceLoadError::InvalidActionSnapshot);
        }
        i = i + 1;
    }
    Ok(())
}

/// Every table a drafts-only namespace pins down, in the order the audit
/// checks them.
pub fn draft_tables() -> (tables: Vec<DraftTable>)
    ensures
        tables@.len() == 30,
        forall|t: DraftTable| tables@.contains(t),
{
    let tables: Vec<DraftTable> = vec![
        DraftTable::Requests,
        DraftTable::Actions,
        DraftTable::ActionTransitions,
        DraftTable::CompletionEvidence,
        DraftTable::ReplayOperations,
        DraftTable::ReplayAudits,
        DraftTable::CreateRequests,
        DraftTable::TransitionRequests,
        DraftTable::PrepareAccepts,
        DraftTable::ExecuteAccepts,
        DraftTable::PrepareCompletes,
        DraftTable::PrepareCancels,
        DraftTable::PrepareReopens,
        DraftTable::ExecuteActions,
        DraftTable::StartActions,
        DraftTable::LinkCompletionEvidenceCommands,
        DraftTable::ErrorParams,
        DraftTable::ErrorExtensions,
        DraftTable::DiscardedPreparedIntents,
        DraftTable::ActionPreparedIntents,
        DraftTable::RequestRegistry,
        DraftTable::ActionRegistry,
        DraftTable::RequestAudits,
        DraftTable::ActionAudits,
        DraftTable::RequestAuditEffects,
        DraftTable::ActionAuditEffects,
        DraftTable::NamespaceOperations,
        DraftTable::NamespaceIdempotencyOutcomes,
        DraftTable::LowerPrepareCommands,
        DraftTable::LowerExecuteCommands,
    ];
    proof {
        assert forall|t: DraftTable| tables@.contains(t) by {
            match t {
                DraftTable::Requests => assert(tables@[0] == t),
                DraftTable::Actions => assert(tables@[1] == t),
                DraftTable::ActionTransitions => assert(tables@[2] == t),
                DraftTable::CompletionEvidence => assert(tables@[3] == t),
                DraftTable::ReplayOperations => assert(tables@[4] == t),
                DraftTable::ReplayAudits => assert(tables@[5] == t),
                DraftTable::CreateRequests => assert(tables@[6] == t),
                DraftTable::TransitionRequests => assert(tables@[7] == t),
                DraftTable::PrepareAccepts => assert(tables@[8] == t),
                DraftTable::ExecuteAccepts => assert(tables@[9] == t),
                DraftTable::PrepareCompletes => assert(tables@[10] == t),
                DraftTable::PrepareCancels => assert(tables@[11] == t),
                DraftTable::PrepareReopens => assert(tables@[12] == t),
                DraftTable::ExecuteActions => assert(tables@[13] == t),
                DraftTable::StartActions => assert(tables@[14] == t),
                DraftTable::LinkCompletionEvidenceCommands => assert(tables@[15] == t),
                DraftTable::ErrorParams => assert(tables@[16] == t),
                DraftTable::ErrorExtensions => assert(tables@[17] == t),
                DraftTable::DiscardedPreparedIntents => assert(tables@[18] == t),
                DraftTable::ActionPreparedIntents => assert(tables@[19] == t),
                DraftTable::RequestRegistry => assert(tables@[20] == t),
                DraftTable::ActionRegistry => assert(tables@[21] == t),
                DraftTable::RequestAudits => assert(tables@[22] == t),
                DraftTable::ActionAudits => assert(tables@[23] == t),
                DraftTable::RequestAuditEffects => assert(tables@[24] == t),
                DraftTable::ActionAuditEffects => assert(tables@[25] == t),
                DraftTable::NamespaceOperations => assert(tables@[26] == t),
                DraftTable::NamespaceIdempotencyOutcomes => assert(tables@[27] == t),
                DraftTable::LowerPrepareCommands => assert(tables@[28] == t),
                DraftTable::LowerExecuteCommands => assert(tables@[29] == t),
            }
        }
    }
    tables
}

/// How a namespace is decoded, as its request counts decide.
#[derive(Clone, Copy, Debug, PartialEq, Eq, Structural)]
pub enum NamespaceShape {
    /// No request and no other Action row: the empty snapshot.
    Empty,
    /// Requests that are all still drafts.
    DraftsOnly,
    /// Requests of which some left the draft state.
    Populated,
}

/// The shape of a namespace holding `request_count` requests, of which
/// `open_count`, `accepted_count`, `declined_count` and `withdrawn_count`
/// are in those states: with no request it is empty, which it must be
/// throughout (`namespace_empty`, a store where it is not being an invalid
/// snapshot); with requests of which none is open, accepted, declined or
/// withdrawn it holds only drafts; otherwise it is populated.
pub open spec fn namespace_shape_model(
    request_count: i64,
    open_count: i64,
    accepted_count: i64,
    declined_count: i64,
    withdrawn_count: i64,
    namespace_empty: bool,
) -> Result<NamespaceShape, ActionPersistenceLoadError> {
    if request_count == 0 {
        if namespace_empty {
            Ok(NamespaceShape::Empty)
        } else {
            Err(ActionPersistenceLoadError::InvalidActionSnapshot)
        }
    } else if open_count == 0 && accepted_count == 0 && declined_count == 0 && withdrawn_count
        == 0 {
        Ok(NamespaceShape::DraftsOnly)
    } else {
        Ok(NamespaceShape::Populated)
    }
}

/// Decides how a namespace is decoded from its request counts;
/// `namespace_empty` is consulted only where there is no request.
pub fn namespace_shape(
    request_count: i64,
    open_count: i64,
    accepted_count: i64,
    declined_count: i64,
    withdrawn_count: i64,
    namespace_empty: bool,
) -> (shape: Result<NamespaceShape, ActionPersistenceLoadError>)
    ensures
        shape == namespace_shape_model(
            request_count,
            open_count,
            accepted_count,
            declined_count,
            withdrawn_count,
            namespace_empty,
        ),
{
    if request_count == 0 {
        if namespace_empty {
            Ok(NamespaceShape::Empty)
        } else {
            Err(ActionPersistenceLoadError::InvalidActionSnapshot)
        }
    } else if open_count == 0 && accepted_count == 0 && declined_count == 0 && withdrawn_count
        == 0 {
        Ok(NamespaceShape::DraftsOnly)
    } else {
        Ok(NamespaceShape::Populated)
    }
}

/// One more ordinary request that was submitted and then withdrawn is
/// recorded by its creation and both its transitions: the expected
/// transition rows grow by two, the created requests by one, and the
/// replay operations and replay audits by three, while whether the counts
/// agree is unchanged.
pub proof fn lemma_withdrawn_request_counts(c: NamespaceCounts)
    requires
        c.request_count < i64::MAX,
        c.withdrawn_count < i64::MAX,
    ensures
        ({
            let w = NamespaceCounts {
                request_count: (c.request_count + 1) as i64,
                withdrawn_count: (c.withdrawn_count + 1) as i64,
                ..c
            };
            &&& expected_count(w, CountedTable::TransitionRequests) == expected_count(
                c,
                CountedTable::TransitionRequests,
            ) + 2
            &&& expected_count(w, CountedTable::CreateRequests) == expected_count(
                c,
                CountedTable::CreateRequests,
            ) + 1
            &&& expected_count(w, CountedTable::ReplayOperations) == expected_count(
                c,
                CountedTable::ReplayOperations,
            ) + 3
            &&& expected_count(w, CountedTable::ReplayAudits) == expected_count(
                c,
                CountedTable::ReplayAudits,
            ) + 3
            &&& counts_agree(w) == counts_agree(c)
        }),
{
}

/// One more ordinary request that was submitted and then declined is
/// recorded by its creation and both its transitions: the expected
/// transition rows grow by two, the created requests by one, and the
/// replay operations and replay audits by three, while whether the counts
/// agree is unchanged.
pub proof fn lemma_declined_request_counts(c: NamespaceCounts)
    requires
        c.request_count < i64::MAX,
        c.declined_count < i64::MAX,
    ensures
        ({
            let d = NamespaceCounts {
                request_count: (c.request_count + 1) as i64,
                declined_count: (c.declined_count + 1) as i64,
                ..c
            };
            &&& expected_count(d, CountedTable::TransitionRequests) == expected_count(
                c,
                CountedTable::TransitionRequests,
            ) + 2
            &&& expected_count(d, CountedTable::CreateRequests) == expected_count(
                c,
                CountedTable::CreateRequests,
            ) + 1
            &&& expected_count(d, CountedTable::ReplayOperations) == expected_count(
                c,
                CountedTable::ReplayOperations,
            ) + 3
            &&& expected_count(d, CountedTable::ReplayAudits) == expected_count(
                c,
                CountedTable::ReplayAudits,
            ) + 3
            &&& counts_agree(d) == counts_agree(c)
        }),
{
}

/// One more ordinary request that was submitted and is still open is
/// recorded by its creation and its one transition.
pub proof fn lemma_open_request_counts(c: NamespaceCounts)
    requires
        c.request_count < i64::MAX,
        c.open_count < i64::MAX,
    ensures
        ({
            let o = NamespaceCounts {
                request_count: (c.request_count + 1) as i64,
                open_count: (c.open_count + 1) as i64,
                ..c
            };
            &&& expected_count(o, CountedTable::TransitionRequests) == expected_count(
                c,
                CountedTable::TransitionRequests,
            ) + 1
            &&& expected_count(o, CountedTable::CreateRequests) == expected_count(
                c,
                CountedTable::CreateRequests,
            ) + 1
            &&& expected_count(o, CountedTable::ReplayOperations) == expected_count(
                c,
                CountedTable::ReplayOperations,
            ) + 2
        }),
{
}

/// How many of the decoded requests are in `state`.
pub open spec fn requests_in<R>(decoded: Seq<(ActionRequestView, R)>, state: ActionRequestState) -> int
    decreases decoded.len(),
{
    if decoded.len() == 0 {
        0
    } else {
        requests_in(decoded.drop_last(), state) + if decoded.last().0.state == state {
            1int
        } else {
            0int
        }
    }
}

/// How many transitions the requests' recorded transition rows decode to,
/// over all the requests.
pub open spec fn decoded_transitions(decoded: Seq<(ActionRequestView, Seq<TransitionRowView>)>) -> int
    decreases decoded.len(),
{
    if decoded.len() == 0 {
        0
    } else {
        decoded_transitions(decoded.drop_last()) + match request_transitions_model(
            decoded.last().0,
            decoded.last().1,
        ) {
            Ok(records) => records.len() as int,
            Err(_) => 0int,
        }
    }
}

proof fn lemma_decoded_transitions_by_state(decoded: Seq<(ActionRequestView, Seq<TransitionRowView>)>)
    requires
        forall|i: int|
            0 <= i < decoded.len() ==> (request_transitions_model(
                #[trigger] decoded[i].0,
                decoded[i].1,
            ) is Ok),
    ensures
        decoded_transitions(decoded) == requests_in(decoded, ActionRequestState::Open) + requests_in(
            decoded,
            ActionRequestState::Accepted,
        ) + 2 * (requests_in(decoded, ActionRequestState::Declined) + requests_in(
            decoded,
            ActionRequestState::Withdrawn,
        )),
    decreases decoded.len(),
{
    if decoded.len() > 0 {
        let rest = decoded.drop_last();
        assert forall|i: int| 0 <= i < rest.len() implies (request_transitions_model(
            #[trigger] rest[i].0,
            rest[i].1,
        ) is Ok) by {
            assert(rest[i] == decoded[i]);
        }
        lemma_decoded_transitions_by_state(rest);
        let last = decoded.last();
        assert(last == decoded[decoded.len() - 1]);
        lemma_request_history_counts_its_transitions(last.0, last.1);
    }
}

/// The load audit expects exactly the transitions the ledger's commands
/// recorded: for ordinary requests, each decoded from its own recorded
/// transition rows, whose counts by state are the starting counts, the
/// `TransitionRequests` rows the audit expects are as many as those rows
/// record in all: one submission for each open or accepted request, and a
/// submission and a decline or withdrawal for each declined or withdrawn
/// one.
pub proof fn lemma_expected_transitions_are_the_recorded_ones(
    decoded: Seq<(ActionRequestView, Seq<TransitionRowView>)>,
    c: NamespaceCounts,
)
    requires
        forall|i: int|
            0 <= i < decoded.len() ==> (request_transitions_model(
                #[trigger] decoded[i].0,
                decoded[i].1,
            ) is Ok),
        c.open_count == requests_in(decoded, ActionRequestState::Open),
        c.accepted_count == requests_in(decoded, ActionRequestState::Accepted),
        c.declined_count == requests_in(decoded, ActionRequestState::Declined),
        c.withdrawn_count == requests_in(decoded, ActionRequestState::Withdrawn),
        c.decision_sourced_open_count == 0,
        c.decision_sourced_accepted_count == 0,
    ensures
        expected_count(c, CountedTable::TransitionRequests) == decoded_transitions(decoded),
{
    lemma_decoded_transitions_by_state(decoded);
}

/// How many capsules replaying the requests' recorded commands gives, over
/// all the requests.
pub open spec fn replayed_capsules(decoded: Seq<(ActionRequestView, RequestActivityRows)>) -> int
    decreases decoded.len(),
{
    if decoded.len() == 0 {
        0
    } else {
        replayed_capsules(decoded.drop_last()) + match request_activity_model(
            decoded.last().0,
            decoded.last().1,
        ) {
            Ok(capsules) => capsules.len() as int,
            Err(_) => 0int,
        }
    }
}

proof fn lemma_replayed_capsules_by_state(decoded: Seq<(ActionRequestView, RequestActivityRows)>)
    requires
        forall|i: int|
            0 <= i < decoded.len() ==> (request_activity_model(
                #[trigger] decoded[i].0,
                decoded[i].1,
            ) is Ok),
    ensures
        replayed_capsules(decoded) == decoded.len() + requests_in(decoded, ActionRequestState::Open)
            + requests_in(decoded, ActionRequestState::Accepted) + 2 * (requests_in(
            decoded,
            ActionRequestState::Declined,
        ) + requests_in(decoded, ActionRequestState::Withdrawn)),
    decreases decoded.len(),
{
    if decoded.len() > 0 {
        let rest = decoded.drop_last();
        assert forall|i: int| 0 <= i < rest.len() implies (request_activity_model(
            #[trigger] rest[i].0,
            rest[i].1,
        ) is Ok) by {
            assert(rest[i] == decoded[i]);
        }
        lemma_replayed_capsules_by_state(rest);
        let last = decoded.last();
        assert(last == decoded[decoded.len() - 1]);
        lemma_replayed_request_activity_is_its_commands(last.0, last.1);
    }
}

/// The load audit expects exactly the request commands the ledger
/// recorded: for ordinary requests, each replayed from its own recorded
/// rows, whose number and counts by state are the starting counts, the
/// created requests and request transitions the audit expects are, taken
/// together, as many as the capsules those rows replay to: one creation
/// per request, one submission for each open or accepted request, and a
/// submission and a decline or withdrawal for each declined or withdrawn
/// one.  A namespace of drafts only expects as many replay operations as
/// its drafts' creations replay to, and no transition.
pub proof fn lemma_expected_request_commands_are_the_replayed_ones(
    decoded: Seq<(ActionRequestView, RequestActivityRows)>,
    c: NamespaceCounts,
)
    requires
        forall|i: int|
            0 <= i < decoded.len() ==> (request_activity_model(
                #[trigger] decoded[i].0,
                decoded[i].1,
            ) is Ok),
        c.request_count == decoded.len(),
        c.open_count == requests_in(decoded, ActionRequestState::Open),
        c.accepted_count == requests_in(decoded, ActionRequestState::Accepted),
        c.declined_count == requests_in(decoded, ActionRequestState::Declined),
        c.withdrawn_count == requests_in(decoded, ActionRequestState::Withdrawn),
        c.decision_sourced_open_count == 0,
        c.decision_sourced_accepted_count == 0,
    ensures
        expected_count(c, CountedTable::CreateRequests) + expected_count(
            c,
            CountedTable::TransitionRequests,
        ) == replayed_capsules(decoded),
        (forall|i: int|
            0 <= i < decoded.len() ==> (#[trigger] decoded[i].0).state == ActionRequestState::Draft)
            ==> draft_expected_count(c.request_count, DraftTable::ReplayOperations)
            == replayed_capsules(decoded) && draft_expected_count(
            c.request_count,
            DraftTable::TransitionRequests,
        ) == 0,
{
    lemma_replayed_capsules_by_state(decoded);
    if forall|i: int|
        0 <= i < decoded.len() ==> (#[trigger] decoded[i].0).state == ActionRequestState::Draft {
        lemma_no_requests_in_other_states(decoded, ActionRequestState::Open);
        lemma_no_requests_in_other_states(decoded, ActionRequestState::Accepted);
        lemma_no_requests_in_other_states(decoded, ActionRequestState::Declined);
        lemma_no_requests_in_other_states(decoded, ActionRequestState::Withdrawn);
    }
}

proof fn lemma_no_requests_in_other_states<R>(
    decoded: Seq<(ActionRequestView, R)>,
    state: ActionRequestState,
)
    requires
        state != ActionRequestState::Draft,
        forall|i: int|
            0 <= i < decoded.len() ==> (#[trigger] decoded[i].0).state == ActionRequestState::Draft,
    ensures
        requests_in(decoded, state) == 0,
    decreases decoded.len(),
{
    if decoded.len() > 0 {
        let rest = decoded.drop_last();
        assert forall|i: int| 0 <= i < rest.len() implies (#[trigger] rest[i].0).state
            == ActionRequestState::Draft by {
            assert(rest[i] == decoded[i]);
        }
        lemma_no_requests_in_other_states(rest, state);
        assert(decoded.last() == decoded[decoded.len() - 1]);
    }
}

} // verus!
