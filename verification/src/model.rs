//! The records of the Action namespace, the commands that change them, and
//! the replay capsules that record each command with its outcome; each with
//! its mathematical view.

use vstd::prelude::*;
use crate::errors::{ActionOperationContext, DomainError, DomainErrorView};
use crate::states::{ActionReopenMode, ActionRequestState, ActionState};
use crate::denials::{PrepareDenial, PrepareDenialView};
use crate::causes::ActionPersistenceTerminalCause;
use crate::terminal_executions::{ExecutedTerminal, ExecutedTerminalView, PreparedDisposition};
use crate::text::{clone_opt_string, opt_string, opt_string_eq, str_eq};

verus! {

/// The audit event codes of the Action namespace's successful commands.
/// Each event is recorded with the Head of Products as actor, the
/// work-management module, an allowed policy outcome, a successful
/// execution, complete scope and exactly one effect whose code is the
/// event's own code; the approval outcome is "not required" for the
/// commands on requests and Actions that need no approval, and "approved"
/// for approved executions and the commands a Decision carries out.
#[derive(Clone, Copy, Debug, PartialEq, Eq, Structural)]
pub enum AuditEventCode {
    ActionRequestCreated,
    ActionRequestSubmitted,
    ActionRequestDeclined,
    ActionRequestWithdrawn,
    ActionStarted,
    ActionCompletionEvidenceLinked,
    ActionRequestAccepted,
    ActionCreatedFromRequest,
    ActionRequestActionLinked,
    ActionClassificationLowered,
    ActionCompleted,
    ActionCancelled,
    ActionReopened,
    ActionRequestCreatedFromDecision,
    ActionRequestSupersededPremiseMarked,
}

impl AuditEventCode {
    pub open spec fn spec_text(self) -> Seq<char> {
        match self {
            AuditEventCode::ActionRequestCreated => "action_request.created"@,
            AuditEventCode::ActionRequestSubmitted => "action_request.submitted"@,
            AuditEventCode::ActionRequestDeclined => "action_request.declined"@,
            AuditEventCode::ActionRequestWithdrawn => "action_request.withdrawn"@,
            AuditEventCode::ActionStarted => "action.started"@,
            AuditEventCode::ActionCompletionEvidenceLinked => "action.completion_evidence_linked"@,
            AuditEventCode::ActionRequestAccepted => "action_request.accepted"@,
            AuditEventCode::ActionCreatedFromRequest => "action.created_from_request"@,
            AuditEventCode::ActionRequestActionLinked => "action_request.action_linked"@,
            AuditEventCode::ActionClassificationLowered => "action.classification_lowered"@,
            AuditEventCode::ActionCompleted => "action.completed"@,
            AuditEventCode::ActionCancelled => "action.cancelled"@,
            AuditEventCode::ActionReopened => "action.reopened"@,
            AuditEventCode::ActionRequestCreatedFromDecision => "action_request.created_from_decision"@,
            AuditEventCode::ActionRequestSupersededPremiseMarked => "action_request.superseded_premise_marked"@,
        }
    }

    /// The code's text, which is also its one effect's code.
    pub fn as_str(self) -> (text: &'static str)
        ensures
            text@ == self.spec_text(),
    {
        match self {
            AuditEventCode::ActionRequestCreated => "action_request.created",
            AuditEventCode::ActionRequestSubmitted => "action_request.submitted",
            AuditEventCode::ActionRequestDeclined => "action_request.declined",
            AuditEventCode::ActionRequestWithdrawn => "action_request.withdrawn",
            AuditEventCode::ActionStarted => "action.started",
            AuditEventCode::ActionCompletionEvidenceLinked => "action.completion_evidence_linked",
            AuditEventCode::ActionRequestAccepted => "action_request.accepted",
            AuditEventCode::ActionCreatedFromRequest => "action.created_from_request",
            AuditEventCode::ActionRequestActionLinked => "action_request.action_linked",
            AuditEventCode::ActionClassificationLowered => "action.classification_lowered",
            AuditEventCode::ActionCompleted => "action.completed",
            AuditEventCode::ActionCancelled => "action.cancelled",
            AuditEventCode::ActionReopened => "action.reopened",
            AuditEventCode::ActionRequestCreatedFromDecision => "action_request.created_from_decision",
            AuditEventCode::ActionRequestSupersededPremiseMarked => "action_request.superseded_premise_marked",
        }
    }
}

/// What an audit event is about.
#[derive(Debug)]
pub enum AuditTarget {
    ActionRequest(String),
    Action(String),
}

pub enum AuditTargetView {
    ActionRequest(Seq<char>),
    Action(Seq<char>),
}

impl View for AuditTarget {
    type V = AuditTargetView;

    open spec fn view(&self) -> AuditTargetView {
        match self {
            AuditTarget::ActionRequest(id) => AuditTargetView::ActionRequest(id@),
            AuditTarget::Action(id) => AuditTargetView::Action(id@),
        }
    }
}

impl Clone for AuditTarget {
    fn clone(&self) -> (copy: Self)
        ensures
            copy == *self,
    {
        match self {
            AuditTarget::ActionRequest(id) => AuditTarget::ActionRequest(id.clone()),
            AuditTarget::Action(id) => AuditTarget::Action(id.clone()),
        }
    }
}

/// One audit event a command recorded.
#[derive(Debug)]
pub struct AuditEvent {
    pub id: String,
    pub occurred_at: i64,
    pub code: AuditEventCode,
    pub target: AuditTarget,
    pub correlation_id: String,
}

pub struct AuditEventView {
    pub id: Seq<char>,
    pub occurred_at: i64,
    pub code: AuditEventCode,
    pub target: AuditTargetView,
    pub correlation_id: Seq<char>,
}

impl View for AuditEvent {
    type V = AuditEventView;

    open spec fn view(&self) -> AuditEventView {
        AuditEventView {
            id: self.id@,
            occurred_at: self.occurred_at,
            code: self.code,
            target: self.target@,
            correlation_id: self.correlation_id@,
        }
    }
}

impl Clone for AuditEvent {
    fn clone(&self) -> (copy: Self)
        ensures
            copy == *self,
    {
        AuditEvent {
            id: self.id.clone(),
            occurred_at: self.occurred_at,
            code: self.code,
            target: self.target.clone(),
            correlation_id: self.correlation_id.clone(),
        }
    }
}

/// An Action Request as persisted.
#[derive(Debug)]
pub struct ActionRequestRecord {
    pub id: String,
    pub title: String,
    pub details: String,
    pub intended_owner: Option<String>,
    pub response_due_at: Option<i64>,
    pub intended_action_due_at: Option<i64>,
    pub classification: String,
    pub state: ActionRequestState,
    pub version: u64,
    pub terminal_rationale: Option<String>,
    pub linked_action_id: Option<String>,
}

pub struct ActionRequestView {
    pub id: Seq<char>,
    pub title: Seq<char>,
    pub details: Seq<char>,
    pub intended_owner: Option<Seq<char>>,
    pub response_due_at: Option<i64>,
    pub intended_action_due_at: Option<i64>,
    pub classification: Seq<char>,
    pub state: ActionRequestState,
    pub version: u64,
    pub terminal_rationale: Option<Seq<char>>,
    pub linked_action_id: Option<Seq<char>>,
}

impl View for ActionRequestRecord {
    type V = ActionRequestView;

    open spec fn view(&self) -> ActionRequestView {
        ActionRequestView {
            id: self.id@,
            title: self.title@,
            details: self.details@,
            intended_owner: opt_string(self.intended_owner),
            response_due_at: self.response_due_at,
            intended_action_due_at: self.intended_action_due_at,
            classification: self.classification@,
            state: self.state,
            version: self.version,
            terminal_rationale: opt_string(self.terminal_rationale),
            linked_action_id: opt_string(self.linked_action_id),
        }
    }
}

impl Clone for ActionRequestRecord {
    fn clone(&self) -> (copy: Self)
        ensures
            copy == *self,
    {
        ActionRequestRecord {
            id: self.id.clone(),
            title: self.title.clone(),
            details: self.details.clone(),
            intended_owner: clone_opt_string(&self.intended_owner),
            response_due_at: self.response_due_at,
            intended_action_due_at: self.intended_action_due_at,
            classification: self.classification.clone(),
            state: self.state,
            version: self.version,
            terminal_rationale: clone_opt_string(&self.terminal_rationale),
            linked_action_id: clone_opt_string(&self.linked_action_id),
        }
    }
}

/// One Evidence Reference linked to an Action as completion evidence, with
/// the classification the evidence had when it was linked.
#[derive(Debug)]
pub struct EvidenceBinding {
    pub evidence_id: String,
    pub classification: String,
}

pub struct EvidenceBindingView {
    pub evidence_id: Seq<char>,
    pub classification: Seq<char>,
}

impl View for EvidenceBinding {
    type V = EvidenceBindingView;

    open spec fn view(&self) -> EvidenceBindingView {
        EvidenceBindingView { evidence_id: self.evidence_id@, classification: self.classification@ }
    }
}

impl Clone for EvidenceBinding {
    fn clone(&self) -> (copy: Self)
        ensures
            copy == *self,
    {
        EvidenceBinding {
            evidence_id: self.evidence_id.clone(),
            classification: self.classification.clone(),
        }
    }
}

/// One lifecycle transition of an Action: the state it left and the one
/// it entered, the reason given, when it happened, the preview whose
/// support completed the Action and the approval receipt behind it.
#[derive(Debug)]
pub struct ActionTransition {
    pub from: ActionState,
    pub to: ActionState,
    pub reason: Option<String>,
    pub occurred_at: i64,
    pub supported_by: Option<String>,
    pub approval_receipt_id: Option<String>,
}

pub struct ActionTransitionView {
    pub from: ActionState,
    pub to: ActionState,
    pub reason: Option<Seq<char>>,
    pub occurred_at: i64,
    pub supported_by: Option<Seq<char>>,
    pub approval_receipt_id: Option<Seq<char>>,
}

impl View for ActionTransition {
    type V = ActionTransitionView;

    open spec fn view(&self) -> ActionTransitionView {
        ActionTransitionView {
            from: self.from,
            to: self.to,
            reason: opt_string(self.reason),
            occurred_at: self.occurred_at,
            supported_by: opt_string(self.supported_by),
            approval_receipt_id: opt_string(self.approval_receipt_id),
        }
    }
}

impl Clone for ActionTransition {
    fn clone(&self) -> (copy: Self)
        ensures
            copy == *self,
    {
        ActionTransition {
            from: self.from,
            to: self.to,
            reason: clone_opt_string(&self.reason),
            occurred_at: self.occurred_at,
            supported_by: clone_opt_string(&self.supported_by),
            approval_receipt_id: clone_opt_string(&self.approval_receipt_id),
        }
    }
}

pub open spec fn transition_views(transitions: Seq<ActionTransition>) -> Seq<ActionTransitionView> {
    transitions.map_values(|t: ActionTransition| t@)
}

/// An Action as persisted.  `classification` is its commitment
/// classification; the evidence bindings keep the classification of each
/// linked evidence beside it.  `transition_reason` is the reason of the
/// last cancellation or reopening, `supported_by` the preview whose
/// support completed the Action, and the provenance (the Decision the
/// accepted request came from, and whether its premise was marked
/// superseded) is inherited from the accepted request.
#[derive(Debug)]
pub struct ActionRecord {
    pub id: String,
    pub source_request_id: String,
    pub title: String,
    pub details: String,
    pub owner_id: String,
    pub due_at: i64,
    pub classification: String,
    pub state: ActionState,
    pub version: u64,
    pub completion_evidence: Vec<EvidenceBinding>,
    pub transition_reason: Option<String>,
    pub supported_by: Option<String>,
    pub transition_history: Vec<ActionTransition>,
    pub source_decision_id: Option<String>,
    pub superseded_premise: bool,
}

pub struct ActionView {
    pub id: Seq<char>,
    pub source_request_id: Seq<char>,
    pub title: Seq<char>,
    pub details: Seq<char>,
    pub owner_id: Seq<char>,
    pub due_at: i64,
    pub classification: Seq<char>,
    pub state: ActionState,
    pub version: u64,
    pub completion_evidence: Seq<EvidenceBindingView>,
    pub transition_reason: Option<Seq<char>>,
    pub supported_by: Option<Seq<char>>,
    pub transition_history: Seq<ActionTransitionView>,
    pub source_decision_id: Option<Seq<char>>,
    pub superseded_premise: bool,
}

impl View for ActionRecord {
    type V = ActionView;

    open spec fn view(&self) -> ActionView {
        ActionView {
            id: self.id@,
            source_request_id: self.source_request_id@,
            title: self.title@,
            details: self.details@,
            owner_id: self.owner_id@,
            due_at: self.due_at,
            classification: self.classification@,
            state: self.state,
            version: self.version,
            completion_evidence: binding_views(self.completion_evidence@),
            transition_reason: opt_string(self.transition_reason),
            supported_by: opt_string(self.supported_by),
            transition_history: transition_views(self.transition_history@),
            source_decision_id: opt_string(self.source_decision_id),
            superseded_premise: self.superseded_premise,
        }
    }
}

/// A copy of a list of evidence bindings.
pub fn clone_bindings(bindings: &Vec<EvidenceBinding>) -> (copy: Vec<EvidenceBinding>)
    ensures
        copy@ == bindings@,
{
    let mut copy: Vec<EvidenceBinding> = Vec::new();
    let n = bindings.len();
    let mut i: usize = 0;
    while i < n
        invariant
            n == bindings@.len(),
            i <= n,
            copy@ == bindings@.take(i as int),
        decreases n - i,
    {
        copy.push(bindings[i].clone());
        proof {
            assert(bindings@.take(i + 1) =~= bindings@.take(i as int).push(bindings@[i as int]));
        }
        i = i + 1;
    }
    proof {
        assert(bindings@.take(n as int) =~= bindings@);
    }
    copy
}

/// A copy of an Action's transition history.
pub fn clone_transitions(transitions: &Vec<ActionTransition>) -> (copy: Vec<ActionTransition>)
    ensures
        copy@ == transitions@,
{
    let mut copy: Vec<ActionTransition> = Vec::new();
    let n = transitions.len();
    let mut i: usize = 0;
    while i < n
        invariant
            n == transitions@.len(),
            i <= n,
            copy@ == transitions@.take(i as int),
        decreases n - i,
    {
        copy.push(transitions[i].clone());
        proof {
            assert(transitions@.take(i + 1) =~= transitions@.take(i as int).push(
                transitions@[i as int],
            ));
        }
        i = i + 1;
    }
    proof {
        assert(transitions@.take(n as int) =~= transitions@);
    }
    copy
}

impl Clone for ActionRecord {
    fn clone(&self) -> (copy: Self)
        ensures
            copy@ == self@,
    {
        let completion_evidence = clone_bindings(&self.completion_evidence);
        let transition_history = clone_transitions(&self.transition_history);
        ActionRecord {
            id: self.id.clone(),
            source_request_id: self.source_request_id.clone(),
            title: self.title.clone(),
            details: self.details.clone(),
            owner_id: self.owner_id.clone(),
            due_at: self.due_at,
            classification: self.classification.clone(),
            state: self.state,
            version: self.version,
            completion_evidence,
            transition_reason: clone_opt_string(&self.transition_reason),
            supported_by: clone_opt_string(&self.supported_by),
            transition_history,
            source_decision_id: clone_opt_string(&self.source_decision_id),
            superseded_premise: self.superseded_premise,
        }
    }
}

/// A copy of a list of audit events.
pub fn clone_audit_events(events: &Vec<AuditEvent>) -> (copy: Vec<AuditEvent>)
    ensures
        copy@ == events@,
{
    events.clone()
}

/// What a successful command returns: the record it produced, the audit
/// events it recorded and, for an approved execution, the receipt it
/// consumed.
#[derive(Debug)]
pub struct ActionMutationOutcome<R> {
    pub record: R,
    pub audit_events: Vec<AuditEvent>,
    pub approval_receipt_id: Option<String>,
}

pub struct OutcomeView<V> {
    pub record: V,
    pub audit_events: Seq<AuditEventView>,
    pub approval_receipt_id: Option<Seq<char>>,
}

impl<R: View> View for ActionMutationOutcome<R> {
    type V = OutcomeView<R::V>;

    open spec fn view(&self) -> OutcomeView<R::V> {
        OutcomeView {
            record: self.record@,
            audit_events: audit_views(self.audit_events@),
            approval_receipt_id: opt_string(self.approval_receipt_id),
        }
    }
}

/// A copy of an Action Request outcome.
pub fn clone_request_outcome(outcome: &ActionMutationOutcome<ActionRequestRecord>) -> (copy:
    ActionMutationOutcome<ActionRequestRecord>)
    ensures
        copy@ == outcome@,
{
    let audit_events = clone_audit_events(&outcome.audit_events);
    ActionMutationOutcome {
        record: outcome.record.clone(),
        audit_events,
        approval_receipt_id: clone_opt_string(&outcome.approval_receipt_id),
    }
}

/// A copy of an Action outcome.
pub fn clone_action_outcome(outcome: &ActionMutationOutcome<ActionRecord>) -> (copy:
    ActionMutationOutcome<ActionRecord>)
    ensures
        copy@ == outcome@,
{
    let audit_events = clone_audit_events(&outcome.audit_events);
    ActionMutationOutcome {
        record: outcome.record.clone(),
        audit_events,
        approval_receipt_id: clone_opt_string(&outcome.approval_receipt_id),
    }
}

/// Which H2a operation a prepared intent stands for.
#[derive(Clone, Copy, Debug, PartialEq, Eq, Structural)]
pub enum PreparedIntentKind {
    AcceptActionRequest,
    LowerActionClassification,
    CompleteAction,
    CancelAction,
    ReopenAction,
}

/// What a prepared (H2a) intent will do once the Head of Products approves
/// it, with the version of the target it was prepared against.
#[derive(Debug)]
pub enum PreparedOperation {
    AcceptActionRequest {
        request_id: String,
        request_version: u64,
        action_id: String,
        action_classification: String,
        action_subject: String,
        commitment_details: String,
        intended_owner: String,
        intended_due_at: i64,
    },
    LowerActionClassification {
        action_id: String,
        action_version: u64,
        current_classification: String,
        proposed_classification: String,
        rationale: String,
    },
    CompleteAction { action_id: String, action_version: u64 },
    CancelAction { action_id: String, action_version: u64, reason: String },
    ReopenAction {
        action_id: String,
        action_version: u64,
        mode: ActionReopenMode,
        reason: String,
    },
}

pub enum PreparedOperationView {
    AcceptActionRequest {
        request_id: Seq<char>,
        request_version: u64,
        action_id: Seq<char>,
        action_classification: Seq<char>,
        action_subject: Seq<char>,
        commitment_details: Seq<char>,
        intended_owner: Seq<char>,
        intended_due_at: i64,
    },
    LowerActionClassification {
        action_id: Seq<char>,
        action_version: u64,
        current_classification: Seq<char>,
        proposed_classification: Seq<char>,
        rationale: Seq<char>,
    },
    CompleteAction { action_id: Seq<char>, action_version: u64 },
    CancelAction { action_id: Seq<char>, action_version: u64, reason: Seq<char> },
    ReopenAction {
        action_id: Seq<char>,
        action_version: u64,
        mode: ActionReopenMode,
        reason: Seq<char>,
    },
}

impl View for PreparedOperation {
    type V = PreparedOperationView;

    open spec fn view(&self) -> PreparedOperationView {
        match self {
            PreparedOperation::AcceptActionRequest {
                request_id,
                request_version,
                action_id,
                action_classification,
                action_subject,
                commitment_details,
                intended_owner,
                intended_due_at,
            } => PreparedOperationView::AcceptActionRequest {
                request_id: request_id@,
                request_version: *request_version,
                action_id: action_id@,
                action_classification: action_classification@,
                action_subject: action_subject@,
                commitment_details: commitment_details@,
                intended_owner: intended_owner@,
                intended_due_at: *intended_due_at,
            },
            PreparedOperation::LowerActionClassification {
                action_id,
                action_version,
                current_classification,
                proposed_classification,
                rationale,
            } => PreparedOperationView::LowerActionClassification {
                action_id: action_id@,
                action_version: *action_version,
                current_classification: current_classification@,
                proposed_classification: proposed_classification@,
                rationale: rationale@,
            },
            PreparedOperation::CompleteAction { action_id, action_version } => {
                PreparedOperationView::CompleteAction {
                    action_id: action_id@,
                    action_version: *action_version,
                }
            },
            PreparedOperation::CancelAction { action_id, action_version, reason } => {
                PreparedOperationView::CancelAction {
                    action_id: action_id@,
                    action_version: *action_version,
                    reason: reason@,
                }
            },
            PreparedOperation::ReopenAction { action_id, action_version, mode, reason } => {
                PreparedOperationView::ReopenAction {
                    action_id: action_id@,
                    action_version: *action_version,
                    mode: *mode,
                    reason: reason@,
                }
            },
        }
    }
}

impl PreparedOperationView {
    /// The kind of H2a operation this is.
    pub open spec fn kind(self) -> PreparedIntentKind {
        match self {
            PreparedOperationView::AcceptActionRequest { .. } => PreparedIntentKind::AcceptActionRequest,
            PreparedOperationView::LowerActionClassification { .. } => {
                PreparedIntentKind::LowerActionClassification
            },
            PreparedOperationView::CompleteAction { .. } => PreparedIntentKind::CompleteAction,
            PreparedOperationView::CancelAction { .. } => PreparedIntentKind::CancelAction,
            PreparedOperationView::ReopenAction { .. } => PreparedIntentKind::ReopenAction,
        }
    }
}

/// A preview the Head of Products may approve or reject: its id, what it
/// will do, the digest of its canonical payload the approval must
/// acknowledge, the classification it was prepared under, when it expires,
/// the support record it carries, if any, and the policy decision,
/// cancellation policy and authority it was prepared under, each by the
/// text it is persisted as.
#[derive(Debug)]
pub struct PreparedIntent {
    pub id: String,
    pub operation: PreparedOperation,
    pub payload_digest: String,
    pub classification: String,
    pub expires_at: i64,
    pub support: Option<String>,
    pub policy: String,
    pub cancellation_policy: String,
    pub authority: String,
}

pub struct PreparedIntentView {
    pub id: Seq<char>,
    pub operation: PreparedOperationView,
    pub payload_digest: Seq<char>,
    pub classification: Seq<char>,
    pub expires_at: i64,
    pub support: Option<Seq<char>>,
    pub policy: Seq<char>,
    pub cancellation_policy: Seq<char>,
    pub authority: Seq<char>,
}

impl View for PreparedIntent {
    type V = PreparedIntentView;

    open spec fn view(&self) -> PreparedIntentView {
        PreparedIntentView {
            id: self.id@,
            operation: self.operation@,
            payload_digest: self.payload_digest@,
            classification: self.classification@,
            expires_at: self.expires_at,
            support: opt_string(self.support),
            policy: self.policy@,
            cancellation_policy: self.cancellation_policy@,
            authority: self.authority@,
        }
    }
}

impl Clone for PreparedOperation {
    fn clone(&self) -> (copy: Self)
        ensures
            copy@ == self@,
    {
        match self {
            PreparedOperation::AcceptActionRequest {
                request_id,
                request_version,
                action_id,
                action_classification,
                action_subject,
                commitment_details,
                intended_owner,
                intended_due_at,
            } => PreparedOperation::AcceptActionRequest {
                request_id: request_id.clone(),
                request_version: *request_version,
                action_id: action_id.clone(),
                action_classification: action_classification.clone(),
                action_subject: action_subject.clone(),
                commitment_details: commitment_details.clone(),
                intended_owner: intended_owner.clone(),
                intended_due_at: *intended_due_at,
            },
            PreparedOperation::LowerActionClassification {
                action_id,
                action_version,
                current_classification,
                proposed_classification,
                rationale,
            } => PreparedOperation::LowerActionClassification {
                action_id: action_id.clone(),
                action_version: *action_version,
                current_classification: current_classification.clone(),
                proposed_classification: proposed_classification.clone(),
                rationale: rationale.clone(),
            },
            PreparedOperation::CompleteAction { action_id, action_version } => {
                PreparedOperation::CompleteAction {
                    action_id: action_id.clone(),
                    action_version: *action_version,
                }
            },
            PreparedOperation::CancelAction { action_id, action_version, reason } => {
                PreparedOperation::CancelAction {
                    action_id: action_id.clone(),
                    action_version: *action_version,
                    reason: reason.clone(),
                }
            },
            PreparedOperation::ReopenAction { action_id, action_version, mode, reason } => {
                PreparedOperation::ReopenAction {
                    action_id: action_id.clone(),
                    action_version: *action_version,
                    mode: *mode,
                    reason: reason.clone(),
                }
            },
        }
    }
}

impl Clone for PreparedIntent {
    fn clone(&self) -> (copy: Self)
        ensures
            copy@ == self@,
    {
        PreparedIntent {
            id: self.id.clone(),
            operation: self.operation.clone(),
            payload_digest: self.payload_digest.clone(),
            classification: self.classification.clone(),
            expires_at: self.expires_at,
            support: clone_opt_string(&self.support),
            policy: self.policy.clone(),
            cancellation_policy: self.cancellation_policy.clone(),
            authority: self.authority.clone(),
        }
    }
}

/// Whether two operations are the same, field by field.
pub fn same_prepared_operation(a: &PreparedOperation, b: &PreparedOperation) -> (same: bool)
    ensures
        same == (a@ == b@),
{
    match (a, b) {
        (
            PreparedOperation::AcceptActionRequest {
                request_id: r1,
                request_version: v1,
                action_id: a1,
                action_classification: c1,
                action_subject: s1,
                commitment_details: d1,
                intended_owner: o1,
                intended_due_at: t1,
            },
            PreparedOperation::AcceptActionRequest {
                request_id: r2,
                request_version: v2,
                action_id: a2,
                action_classification: c2,
                action_subject: s2,
                commitment_details: d2,
                intended_owner: o2,
                intended_due_at: t2,
            },
        ) => {
            str_eq(r1.as_str(), r2.as_str()) && *v1 == *v2 && str_eq(a1.as_str(), a2.as_str())
                && str_eq(c1.as_str(), c2.as_str()) && str_eq(s1.as_str(), s2.as_str())
                && str_eq(d1.as_str(), d2.as_str()) && str_eq(o1.as_str(), o2.as_str()) && *t1
                == *t2
        },
        (
            PreparedOperation::LowerActionClassification {
                action_id: a1,
                action_version: v1,
                current_classification: c1,
                proposed_classification: p1,
                rationale: r1,
            },
            PreparedOperation::LowerActionClassification {
                action_id: a2,
                action_version: v2,
                current_classification: c2,
                proposed_classification: p2,
                rationale: r2,
            },
        ) => {
            str_eq(a1.as_str(), a2.as_str()) && *v1 == *v2 && str_eq(c1.as_str(), c2.as_str())
                && str_eq(p1.as_str(), p2.as_str()) && str_eq(r1.as_str(), r2.as_str())
        },
        (
            PreparedOperation::CompleteAction { action_id: a1, action_version: v1 },
            PreparedOperation::CompleteAction { action_id: a2, action_version: v2 },
        ) => str_eq(a1.as_str(), a2.as_str()) && *v1 == *v2,
        (
            PreparedOperation::CancelAction { action_id: a1, action_version: v1, reason: r1 },
            PreparedOperation::CancelAction { action_id: a2, action_version: v2, reason: r2 },
        ) => str_eq(a1.as_str(), a2.as_str()) && *v1 == *v2 && str_eq(r1.as_str(), r2.as_str()),
        (
            PreparedOperation::ReopenAction { action_id: a1, action_version: v1, mode: m1, reason: r1 },
            PreparedOperation::ReopenAction { action_id: a2, action_version: v2, mode: m2, reason: r2 },
        ) => str_eq(a1.as_str(), a2.as_str()) && *v1 == *v2 && *m1 == *m2 && str_eq(
            r1.as_str(),
            r2.as_str(),
        ),
        _ => false,
    }
}

/// Whether two prepared intents are the same, field by field.
pub fn same_prepared_intent(a: &PreparedIntent, b: &PreparedIntent) -> (same: bool)
    ensures
        same == (a@ == b@),
{
    str_eq(a.id.as_str(), b.id.as_str()) && same_prepared_operation(&a.operation, &b.operation)
        && str_eq(a.payload_digest.as_str(), b.payload_digest.as_str()) && str_eq(
        a.classification.as_str(),
        b.classification.as_str(),
    ) && a.expires_at == b.expires_at && opt_string_eq(&a.support, &b.support) && str_eq(
        a.policy.as_str(),
        b.policy.as_str(),
    ) && str_eq(a.cancellation_policy.as_str(), b.cancellation_policy.as_str()) && str_eq(
        a.authority.as_str(),
        b.authority.as_str(),
    )
}

/// What an approved acceptance returns: the accepted Action Request, the
/// Action it created, the audit events it recorded and the approval
/// receipt it consumed.
#[derive(Debug)]
pub struct AcceptedActionOutcome {
    pub request: ActionRequestRecord,
    pub action: ActionRecord,
    pub audit_events: Vec<AuditEvent>,
    pub approval_receipt_id: String,
}

pub struct AcceptedOutcomeView {
    pub request: ActionRequestView,
    pub action: ActionView,
    pub audit_events: Seq<AuditEventView>,
    pub approval_receipt_id: Seq<char>,
}

impl View for AcceptedActionOutcome {
    type V = AcceptedOutcomeView;

    open spec fn view(&self) -> AcceptedOutcomeView {
        AcceptedOutcomeView {
            request: self.request@,
            action: self.action@,
            audit_events: audit_views(self.audit_events@),
            approval_receipt_id: self.approval_receipt_id@,
        }
    }
}

impl Clone for AcceptedActionOutcome {
    fn clone(&self) -> (copy: Self)
        ensures
            copy@ == self@,
    {
        let audit_events = clone_audit_events(&self.audit_events);
        AcceptedActionOutcome {
            request: self.request.clone(),
            action: self.action.clone(),
            audit_events,
            approval_receipt_id: self.approval_receipt_id.clone(),
        }
    }
}

/// What a rejection returns: the prepared intent it consumed, whether the
/// preview had already expired when it was rejected, and the one
/// zero-effect audit event it recorded, with its target.
#[derive(Debug)]
pub struct RejectedPreparedIntentOutcome {
    pub prepared_intent_id: String,
    pub expired: bool,
    pub audit_event_id: String,
    pub occurred_at: i64,
    pub target: AuditTarget,
}

pub struct RejectedOutcomeView {
    pub prepared_intent_id: Seq<char>,
    pub expired: bool,
    pub audit_event_id: Seq<char>,
    pub occurred_at: i64,
    pub target: AuditTargetView,
}

impl View for RejectedPreparedIntentOutcome {
    type V = RejectedOutcomeView;

    open spec fn view(&self) -> RejectedOutcomeView {
        RejectedOutcomeView {
            prepared_intent_id: self.prepared_intent_id@,
            expired: self.expired,
            audit_event_id: self.audit_event_id@,
            occurred_at: self.occurred_at,
            target: self.target@,
        }
    }
}

impl Clone for RejectedPreparedIntentOutcome {
    fn clone(&self) -> (copy: Self)
        ensures
            copy@ == self@,
    {
        RejectedPreparedIntentOutcome {
            prepared_intent_id: self.prepared_intent_id.clone(),
            expired: self.expired,
            audit_event_id: self.audit_event_id.clone(),
            occurred_at: self.occurred_at,
            target: self.target.clone(),
        }
    }
}

/// The Head of Products' documented-rationale judgment a completion may be
/// prepared with: its rationale and classification.
#[derive(Debug)]
pub struct HumanJudgment {
    pub rationale: String,
    pub classification: String,
}

pub struct HumanJudgmentView {
    pub rationale: Seq<char>,
    pub classification: Seq<char>,
}

impl View for HumanJudgment {
    type V = HumanJudgmentView;

    open spec fn view(&self) -> HumanJudgmentView {
        HumanJudgmentView { rationale: self.rationale@, classification: self.classification@ }
    }
}

impl Clone for HumanJudgment {
    fn clone(&self) -> (copy: Self)
        ensures
            copy == *self,
    {
        HumanJudgment { rationale: self.rationale.clone(), classification: self.classification.clone() }
    }
}

/// What a preparation of a completion, cancellation or reopening records
/// beside its Action and version: the reason of a cancellation or
/// reopening, the mode of a reopening, and the judgment a completion may be
/// prepared with.
#[derive(Debug)]
pub struct TransitionDetails {
    pub reason: Option<String>,
    pub mode: Option<ActionReopenMode>,
    pub judgment: Option<HumanJudgment>,
}

pub struct TransitionDetailsView {
    pub reason: Option<Seq<char>>,
    pub mode: Option<ActionReopenMode>,
    pub judgment: Option<HumanJudgmentView>,
}

impl View for TransitionDetails {
    type V = TransitionDetailsView;

    open spec fn view(&self) -> TransitionDetailsView {
        TransitionDetailsView {
            reason: opt_string(self.reason),
            mode: self.mode,
            judgment: match self.judgment {
                Some(judgment) => Some(judgment@),
                None => None,
            },
        }
    }
}

impl Clone for TransitionDetails {
    fn clone(&self) -> (copy: Self)
        ensures
            copy == *self,
    {
        TransitionDetails {
            reason: clone_opt_string(&self.reason),
            mode: self.mode,
            judgment: match &self.judgment {
                Some(judgment) => Some(judgment.clone()),
                None => None,
            },
        }
    }
}

/// A command as it is recorded for replay.
#[derive(Debug)]
pub enum ActionPersistenceCommand {
    CreateRequest {
        id: String,
        title: String,
        details: String,
        intended_owner: Option<String>,
        response_due_at: Option<i64>,
        intended_action_due_at: Option<i64>,
        classification: String,
    },
    TransitionRequest {
        request_id: String,
        expected_version: u64,
        target_state: ActionRequestState,
        rationale: Option<String>,
    },
    StartAction { action_id: String, expected_version: u64 },
    LinkCompletionEvidence {
        action_id: String,
        expected_version: u64,
        evidence_id: String,
        evidence_classification: String,
    },
    PrepareAccept { request_id: String, expected_version: u64 },
    PrepareLowerClassification {
        action_id: String,
        expected_version: u64,
        proposed_classification: String,
        rationale: String,
    },
    PrepareActionTransition {
        kind: PreparedIntentKind,
        action_id: String,
        expected_version: u64,
        details: TransitionDetails,
    },
    ExecutePrepared {
        kind: PreparedIntentKind,
        prepared_id: String,
        actor: String,
        acknowledged_digest: String,
    },
    RejectPrepared { prepared_id: String, actor: String },
    CreateRequestFromDecision {
        request_id: String,
        subject: String,
        details: String,
        intended_owner: String,
        due_at: i64,
        source_decision_id: String,
        classification: String,
    },
    MarkRequestSupersededPremise {
        request_id: String,
        expected_version: u64,
        source_decision_id: String,
        classification: String,
    },
}

pub enum CommandView {
    CreateRequest {
        id: Seq<char>,
        title: Seq<char>,
        details: Seq<char>,
        intended_owner: Option<Seq<char>>,
        response_due_at: Option<i64>,
        intended_action_due_at: Option<i64>,
        classification: Seq<char>,
    },
    TransitionRequest {
        request_id: Seq<char>,
        expected_version: u64,
        target_state: ActionRequestState,
        rationale: Option<Seq<char>>,
    },
    StartAction { action_id: Seq<char>, expected_version: u64 },
    LinkCompletionEvidence {
        action_id: Seq<char>,
        expected_version: u64,
        evidence_id: Seq<char>,
        evidence_classification: Seq<char>,
    },
    PrepareAccept { request_id: Seq<char>, expected_version: u64 },
    PrepareLowerClassification {
        action_id: Seq<char>,
        expected_version: u64,
        proposed_classification: Seq<char>,
        rationale: Seq<char>,
    },
    PrepareActionTransition {
        kind: PreparedIntentKind,
        action_id: Seq<char>,
        expected_version: u64,
        details: TransitionDetailsView,
    },
    ExecutePrepared {
        kind: PreparedIntentKind,
        prepared_id: Seq<char>,
        actor: Seq<char>,
        acknowledged_digest: Seq<char>,
    },
    RejectPrepared { prepared_id: Seq<char>, actor: Seq<char> },
    CreateRequestFromDecision {
        request_id: Seq<char>,
        subject: Seq<char>,
        details: Seq<char>,
        intended_owner: Seq<char>,
        due_at: i64,
        source_decision_id: Seq<char>,
        classification: Seq<char>,
    },
    MarkRequestSupersededPremise {
        request_id: Seq<char>,
        expected_version: u64,
        source_decision_id: Seq<char>,
        classification: Seq<char>,
    },
}

impl View for ActionPersistenceCommand {
    type V = CommandView;

    open spec fn view(&self) -> CommandView {
        match self {
            ActionPersistenceCommand::CreateRequest {
                id,
                title,
                details,
                intended_owner,
                response_due_at,
                intended_action_due_at,
                classification,
            } => CommandView::CreateRequest {
                id: id@,
                title: title@,
                details: details@,
                intended_owner: opt_string(*intended_owner),
                response_due_at: *response_due_at,
                intended_action_due_at: *intended_action_due_at,
                classification: classification@,
            },
            ActionPersistenceCommand::TransitionRequest {
                request_id,
                expected_version,
                target_state,
                rationale,
            } => CommandView::TransitionRequest {
                request_id: request_id@,
                expected_version: *expected_version,
                target_state: *target_state,
                rationale: opt_string(*rationale),
            },
            ActionPersistenceCommand::StartAction { action_id, expected_version } => {
                CommandView::StartAction { action_id: action_id@, expected_version: *expected_version }
            },
            ActionPersistenceCommand::LinkCompletionEvidence {
                action_id,
                expected_version,
                evidence_id,
                evidence_classification,
            } => CommandView::LinkCompletionEvidence {
                action_id: action_id@,
                expected_version: *expected_version,
                evidence_id: evidence_id@,
                evidence_classification: evidence_classification@,
            },
            ActionPersistenceCommand::PrepareAccept { request_id, expected_version } => {
                CommandView::PrepareAccept { request_id: request_id@, expected_version: *expected_version }
            },
            ActionPersistenceCommand::PrepareLowerClassification {
                action_id,
                expected_version,
                proposed_classification,
                rationale,
            } => CommandView::PrepareLowerClassification {
                action_id: action_id@,
                expected_version: *expected_version,
                proposed_classification: proposed_classification@,
                rationale: rationale@,
            },
            ActionPersistenceCommand::PrepareActionTransition {
                kind,
                action_id,
                expected_version,
                details,
            } => CommandView::PrepareActionTransition {
                kind: *kind,
                action_id: action_id@,
                expected_version: *expected_version,
                details: details@,
            },
            ActionPersistenceCommand::ExecutePrepared {
                kind,
                prepared_id,
                actor,
                acknowledged_digest,
            } => CommandView::ExecutePrepared {
                kind: *kind,
                prepared_id: prepared_id@,
                actor: actor@,
                acknowledged_digest: acknowledged_digest@,
            },
            ActionPersistenceCommand::RejectPrepared { prepared_id, actor } => {
                CommandView::RejectPrepared { prepared_id: prepared_id@, actor: actor@ }
            },
            ActionPersistenceCommand::CreateRequestFromDecision {
                request_id,
                subject,
                details,
                intended_owner,
                due_at,
                source_decision_id,
                classification,
            } => CommandView::CreateRequestFromDecision {
                request_id: request_id@,
                subject: subject@,
                details: details@,
                intended_owner: intended_owner@,
                due_at: *due_at,
                source_decision_id: source_decision_id@,
                classification: classification@,
            },
            ActionPersistenceCommand::MarkRequestSupersededPremise {
                request_id,
                expected_version,
                source_decision_id,
                classification,
            } => CommandView::MarkRequestSupersededPremise {
                request_id: request_id@,
                expected_version: *expected_version,
                source_decision_id: source_decision_id@,
                classification: classification@,
            },
        }
    }
}

/// What a refused approval records beside the domain's error: why it was
/// refused, what became of the preview it named, and the audit event that
/// records the refusal.
#[derive(Debug)]
pub struct TerminalRecord {
    pub cause: ActionPersistenceTerminalCause,
    pub disposition: PreparedDisposition,
    pub audit_id: String,
    pub occurred_at: i64,
}

/// A refusal's record, with the cause by the text it is persisted as.
pub struct TerminalRecordView {
    pub cause_name: Option<Seq<char>>,
    pub cause_attempted: Option<Seq<char>>,
    pub disposition: PreparedDisposition,
    pub audit_id: Seq<char>,
    pub occurred_at: i64,
}

impl View for TerminalRecord {
    type V = TerminalRecordView;

    open spec fn view(&self) -> TerminalRecordView {
        TerminalRecordView {
            cause_name: self.cause.persisted_name(),
            cause_attempted: self.cause.persisted_attempted(),
            disposition: self.disposition,
            audit_id: self.audit_id@,
            occurred_at: self.occurred_at,
        }
    }
}

impl TerminalRecordView {
    /// Whether the refusal consumed and discarded the preview.
    pub open spec fn discards(self) -> bool {
        self.disposition == PreparedDisposition::ConsumedAndDiscarded
    }
}

impl Clone for TerminalRecord {
    fn clone(&self) -> (copy: Self)
        ensures
            copy@ == self@,
    {
        TerminalRecord {
            cause: self.cause.clone(),
            disposition: self.disposition,
            audit_id: self.audit_id.clone(),
            occurred_at: self.occurred_at,
        }
    }
}

/// What a recorded command returned.
#[derive(Debug)]
pub enum ActionPersistenceResult {
    Request(ActionMutationOutcome<ActionRequestRecord>),
    Action(ActionMutationOutcome<ActionRecord>),
    Prepared(PreparedIntent),
    Accepted(AcceptedActionOutcome),
    Rejected(RejectedPreparedIntentOutcome),
    /// An approval refused by the domain service: its error and the
    /// record of the refusal.
    Terminal(DomainError, TerminalRecord),
    /// An approval refused by the domain, as its rows record it.
    Refused(ExecutedTerminal),
    /// A preparation denied by the domain, as its rows record it.
    Denied(PrepareDenial),
}

pub enum ResultView {
    Request(OutcomeView<ActionRequestView>),
    Action(OutcomeView<ActionView>),
    Prepared(PreparedIntentView),
    Accepted(AcceptedOutcomeView),
    Rejected(RejectedOutcomeView),
    Terminal(DomainErrorView, TerminalRecordView),
    Refused(ExecutedTerminalView),
    Denied(PrepareDenialView),
}

impl View for ActionPersistenceResult {
    type V = ResultView;

    open spec fn view(&self) -> ResultView {
        match self {
            ActionPersistenceResult::Request(outcome) => ResultView::Request(outcome@),
            ActionPersistenceResult::Action(outcome) => ResultView::Action(outcome@),
            ActionPersistenceResult::Prepared(intent) => ResultView::Prepared(intent@),
            ActionPersistenceResult::Accepted(outcome) => ResultView::Accepted(outcome@),
            ActionPersistenceResult::Rejected(outcome) => ResultView::Rejected(outcome@),
            ActionPersistenceResult::Terminal(error, record) => ResultView::Terminal(
                error@,
                record@,
            ),
            ActionPersistenceResult::Refused(refusal) => ResultView::Refused(refusal@),
            ActionPersistenceResult::Denied(denial) => ResultView::Denied(denial@),
        }
    }
}

/// One recorded command: its idempotency key and correlation, its place in
/// the global operation order, the command and what it returned.
#[derive(Debug)]
pub struct ActionReplayCapsule {
    pub idempotency_id: String,
    pub correlation_id: String,
    pub operation_ordinal: u64,
    pub command: ActionPersistenceCommand,
    pub result: ActionPersistenceResult,
}

pub struct CapsuleView {
    pub idempotency_id: Seq<char>,
    pub correlation_id: Seq<char>,
    pub operation_ordinal: u64,
    pub command: CommandView,
    pub result: ResultView,
}

impl View for ActionReplayCapsule {
    type V = CapsuleView;

    open spec fn view(&self) -> CapsuleView {
        CapsuleView {
            idempotency_id: self.idempotency_id@,
            correlation_id: self.correlation_id@,
            operation_ordinal: self.operation_ordinal,
            command: self.command@,
            result: self.result@,
        }
    }
}

/// A preview that left unexecuted, rejected or discarded by a refused
/// approval, with the time it was consumed.
#[derive(Debug)]
pub struct DiscardedPreview {
    pub intent: PreparedIntent,
    pub consumed_at: i64,
}

pub struct DiscardedView {
    pub intent: PreparedIntentView,
    pub consumed_at: i64,
}

impl View for DiscardedPreview {
    type V = DiscardedView;

    open spec fn view(&self) -> DiscardedView {
        DiscardedView { intent: self.intent@, consumed_at: self.consumed_at }
    }
}

impl Clone for DiscardedPreview {
    fn clone(&self) -> (copy: Self)
        ensures
            copy@ == self@,
    {
        DiscardedPreview { intent: self.intent.clone(), consumed_at: self.consumed_at }
    }
}

pub open spec fn discarded_views(discarded: Seq<DiscardedPreview>) -> Seq<DiscardedView> {
    discarded.map_values(|preview: DiscardedPreview| preview@)
}

/// The whole Action namespace: every Action Request, every Action, every
/// recorded command in operation order, the pending previews, and the
/// previews that were rejected or discarded by a refused approval.
#[derive(Debug)]
pub struct ActionPersistenceSnapshot {
    pub requests: Vec<ActionRequestRecord>,
    pub actions: Vec<ActionRecord>,
    pub replay: Vec<ActionReplayCapsule>,
    pub prepared: Vec<PreparedIntent>,
    pub discarded: Vec<DiscardedPreview>,
}

pub struct SnapshotView {
    pub requests: Seq<ActionRequestView>,
    pub actions: Seq<ActionView>,
    pub replay: Seq<CapsuleView>,
    pub prepared: Seq<PreparedIntentView>,
    pub discarded: Seq<DiscardedView>,
}

impl View for ActionPersistenceSnapshot {
    type V = SnapshotView;

    open spec fn view(&self) -> SnapshotView {
        SnapshotView {
            requests: request_views(self.requests@),
            actions: action_views(self.actions@),
            replay: capsule_views(self.replay@),
            prepared: prepared_views(self.prepared@),
            discarded: discarded_views(self.discarded@),
        }
    }
}

/// Create one Action Request draft.
#[derive(Debug)]
pub struct CreateActionRequestDraft {
    pub context: ActionOperationContext,
    pub id: String,
    pub title: String,
    pub details: String,
    pub intended_owner: Option<String>,
    pub response_due_at: Option<i64>,
    pub intended_action_due_at: Option<i64>,
    pub classification: String,
}

/// Submit a draft Action Request.
#[derive(Debug)]
pub struct SubmitActionRequest {
    pub context: ActionOperationContext,
    pub request_id: String,
    pub expected_version: u64,
}

/// Decline an open Action Request, with a rationale.
#[derive(Debug)]
pub struct DeclineActionRequest {
    pub context: ActionOperationContext,
    pub request_id: String,
    pub expected_version: u64,
    pub rationale: String,
}

/// Withdraw an open Action Request, with a rationale.
#[derive(Debug)]
pub struct WithdrawActionRequest {
    pub context: ActionOperationContext,
    pub request_id: String,
    pub expected_version: u64,
    pub rationale: String,
}

/// Start an open Action.
#[derive(Debug)]
pub struct StartAction {
    pub context: ActionOperationContext,
    pub action_id: String,
    pub expected_version: u64,
}

/// Link an existing Evidence Reference to an Action in progress as
/// completion evidence.
#[derive(Debug)]
pub struct LinkActionCompletionEvidence {
    pub context: ActionOperationContext,
    pub action_id: String,
    pub expected_version: u64,
    pub evidence_id: String,
}

/// The views of a sequence of `EvidenceBinding` values.
pub open spec fn binding_views(values: Seq<EvidenceBinding>) -> Seq<EvidenceBindingView> {
    values.map_values(|b: EvidenceBinding| b@)
}

/// The views of a sequence of `AuditEvent` values.
pub open spec fn audit_views(values: Seq<AuditEvent>) -> Seq<AuditEventView> {
    values.map_values(|e: AuditEvent| e@)
}

/// The views of a sequence of `ActionRequestRecord` values.
pub open spec fn request_views(values: Seq<ActionRequestRecord>) -> Seq<ActionRequestView> {
    values.map_values(|r: ActionRequestRecord| r@)
}

/// The views of a sequence of `ActionRecord` values.
pub open spec fn action_views(values: Seq<ActionRecord>) -> Seq<ActionView> {
    values.map_values(|a: ActionRecord| a@)
}

/// The views of a sequence of `PreparedIntent` values.
pub open spec fn prepared_views(values: Seq<PreparedIntent>) -> Seq<PreparedIntentView> {
    values.map_values(|p: PreparedIntent| p@)
}

/// The views of a sequence of `ActionReplayCapsule` values.
pub open spec fn capsule_views(values: Seq<ActionReplayCapsule>) -> Seq<CapsuleView> {
    values.map_values(|c: ActionReplayCapsule| c@)
}

impl Clone for ActionPersistenceCommand {
    fn clone(&self) -> (copy: Self)
        ensures
            copy == *self,
    {
        match self {
            ActionPersistenceCommand::CreateRequest {
                id,
                title,
                details,
                intended_owner,
                response_due_at,
                intended_action_due_at,
                classification,
            } => ActionPersistenceCommand::CreateRequest {
                id: id.clone(),
                title: title.clone(),
                details: details.clone(),
                intended_owner: clone_opt_string(intended_owner),
                response_due_at: *response_due_at,
                intended_action_due_at: *intended_action_due_at,
                classification: classification.clone(),
            },
            ActionPersistenceCommand::TransitionRequest {
                request_id,
                expected_version,
                target_state,
                rationale,
            } => ActionPersistenceCommand::TransitionRequest {
                request_id: request_id.clone(),
                expected_version: *expected_version,
                target_state: *target_state,
                rationale: clone_opt_string(rationale),
            },
            ActionPersistenceCommand::StartAction { action_id, expected_version } => {
                ActionPersistenceCommand::StartAction {
                    action_id: action_id.clone(),
                    expected_version: *expected_version,
                }
            },
            ActionPersistenceCommand::LinkCompletionEvidence {
                action_id,
                expected_version,
                evidence_id,
                evidence_classification,
            } => ActionPersistenceCommand::LinkCompletionEvidence {
                action_id: action_id.clone(),
                expected_version: *expected_version,
                evidence_id: evidence_id.clone(),
                evidence_classification: evidence_classification.clone(),
            },
            ActionPersistenceCommand::PrepareAccept { request_id, expected_version } => {
                ActionPersistenceCommand::PrepareAccept {
                    request_id: request_id.clone(),
                    expected_version: *expected_version,
                }
            },
            ActionPersistenceCommand::PrepareLowerClassification {
                action_id,
                expected_version,
                proposed_classification,
                rationale,
            } => ActionPersistenceCommand::PrepareLowerClassification {
                action_id: action_id.clone(),
                expected_version: *expected_version,
                proposed_classification: proposed_classification.clone(),
                rationale: rationale.clone(),
            },
            ActionPersistenceCommand::PrepareActionTransition {
                kind,
                action_id,
                expected_version,
                details,
            } => ActionPersistenceCommand::PrepareActionTransition {
                kind: *kind,
                action_id: action_id.clone(),
                expected_version: *expected_version,
                details: details.clone(),
            },
            ActionPersistenceCommand::ExecutePrepared {
                kind,
                prepared_id,
                actor,
                acknowledged_digest,
            } => ActionPersistenceCommand::ExecutePrepared {
                kind: *kind,
                prepared_id: prepared_id.clone(),
                actor: actor.clone(),
                acknowledged_digest: acknowledged_digest.clone(),
            },
            ActionPersistenceCommand::RejectPrepared { prepared_id, actor } => {
                ActionPersistenceCommand::RejectPrepared {
                    prepared_id: prepared_id.clone(),
                    actor: actor.clone(),
                }
            },
            ActionPersistenceCommand::CreateRequestFromDecision {
                request_id,
                subject,
                details,
                intended_owner,
                due_at,
                source_decision_id,
                classification,
            } => ActionPersistenceCommand::CreateRequestFromDecision {
                request_id: request_id.clone(),
                subject: subject.clone(),
                details: details.clone(),
                intended_owner: intended_owner.clone(),
                due_at: *due_at,
                source_decision_id: source_decision_id.clone(),
                classification: classification.clone(),
            },
            ActionPersistenceCommand::MarkRequestSupersededPremise {
                request_id,
                expected_version,
                source_decision_id,
                classification,
            } => ActionPersistenceCommand::MarkRequestSupersededPremise {
                request_id: request_id.clone(),
                expected_version: *expected_version,
                source_decision_id: source_decision_id.clone(),
                classification: classification.clone(),
            },
        }
    }
}

impl Clone for ActionPersistenceResult {
    fn clone(&self) -> (copy: Self)
        ensures
            copy@ == self@,
    {
        match self {
            ActionPersistenceResult::Request(outcome) => ActionPersistenceResult::Request(
                clone_request_outcome(outcome),
            ),
            ActionPersistenceResult::Action(outcome) => ActionPersistenceResult::Action(
                clone_action_outcome(outcome),
            ),
            ActionPersistenceResult::Prepared(intent) => ActionPersistenceResult::Prepared(
                intent.clone(),
            ),
            ActionPersistenceResult::Accepted(outcome) => ActionPersistenceResult::Accepted(
                outcome.clone(),
            ),
            ActionPersistenceResult::Rejected(outcome) => ActionPersistenceResult::Rejected(
                outcome.clone(),
            ),
            ActionPersistenceResult::Terminal(error, record) => ActionPersistenceResult::Terminal(
                error.clone(),
                record.clone(),
            ),
            ActionPersistenceResult::Refused(refusal) => ActionPersistenceResult::Refused(
                refusal.clone(),
            ),
            ActionPersistenceResult::Denied(denial) => ActionPersistenceResult::Denied(
                denial.clone(),
            ),
        }
    }
}

impl Clone for ActionReplayCapsule {
    fn clone(&self) -> (copy: Self)
        ensures
            copy@ == self@,
    {
        ActionReplayCapsule {
            idempotency_id: self.idempotency_id.clone(),
            correlation_id: self.correlation_id.clone(),
            operation_ordinal: self.operation_ordinal,
            command: self.command.clone(),
            result: self.result.clone(),
        }
    }
}

impl Clone for ActionPersistenceSnapshot {
    fn clone(&self) -> (copy: Self)
        ensures
            copy@ == self@,
    {
        let requests = self.requests.clone();
        let actions = self.actions.clone();
        let replay = self.replay.clone();
        let prepared = self.prepared.clone();
        let discarded = self.discarded.clone();
        proof {
            assert(request_views(requests@) =~= request_views(self.requests@));
            assert forall|i: int| 0 <= i < actions@.len() implies #[trigger] actions@[i]@
                == self.actions@[i]@ by {
                assert(cloned::<ActionRecord>(self.actions[i], actions[i]));
            }
            assert(action_views(actions@) =~= action_views(self.actions@));
            assert forall|i: int| 0 <= i < replay@.len() implies #[trigger] replay@[i]@
                == self.replay@[i]@ by {
                assert(cloned::<ActionReplayCapsule>(self.replay[i], replay[i]));
            }
            assert(capsule_views(replay@) =~= capsule_views(self.replay@));
            assert forall|i: int| 0 <= i < prepared@.len() implies #[trigger] prepared@[i]@
                == self.prepared@[i]@ by {
                assert(cloned::<PreparedIntent>(self.prepared[i], prepared[i]));
            }
            assert(prepared_views(prepared@) =~= prepared_views(self.prepared@));
            assert forall|i: int| 0 <= i < discarded@.len() implies #[trigger] discarded@[i]@
                == self.discarded@[i]@ by {
                assert(cloned::<DiscardedPreview>(self.discarded[i], discarded[i]));
            }
            assert(discarded_views(discarded@) =~= discarded_views(self.discarded@));
        }
        ActionPersistenceSnapshot { requests, actions, replay, prepared, discarded }
    }
}

} // verus!
