//! Decoding persisted previews: the rows the store keeps for one prepared
//! acceptance, completion, cancellation or reopening, checked against each
//! other and against the preview the domain rebuilds from them.
//!
//! The domain's canonical preparation rebuilds the preview (its payload
//! digest above all) from the decoded payload; a decoder here takes that
//! rebuilt preview as an argument and keeps it only where it is the one
//! the rows describe and the rows have exactly the shape its kind writes.

use vstd::prelude::*;
use vstd::string::StringExecFns;
use crate::approvals::is_action_transition;
use crate::load_error::ActionPersistenceLoadError;
use crate::model::{
    ActionPersistenceCommand, ActionPersistenceResult, ActionReplayCapsule, ActionRequestRecord,
    ActionRequestView, CapsuleView, CommandView, PreparedIntent, PreparedIntentKind,
    PreparedIntentView, PreparedOperation, PreparedOperationView, ResultView, same_prepared_operation,
    HumanJudgment, HumanJudgmentView, TransitionDetails, TransitionDetailsView,
};
use crate::states::ActionReopenMode;
use crate::text::{clone_opt_string, opt_string, str_eq};

verus! {

// ---------------------------------------------------------------------------
// Rows
// ---------------------------------------------------------------------------

/// One `prepared_intents` row.
#[derive(Debug)]
pub struct PreparedIntentRow {
    pub contract_version: i64,
    pub intent_kind: String,
    pub payload_digest: String,
    pub classification: String,
    pub policy: String,
    pub cancellation_policy: String,
    pub authority: String,
    pub support_id: Option<String>,
    pub confirmation_challenge: Option<String>,
    pub expires_at: i64,
    pub created_at: i64,
}

pub struct IntentRowView {
    pub contract_version: i64,
    pub intent_kind: Seq<char>,
    pub payload_digest: Seq<char>,
    pub classification: Seq<char>,
    pub policy: Seq<char>,
    pub cancellation_policy: Seq<char>,
    pub authority: Seq<char>,
    pub support_id: Option<Seq<char>>,
    pub confirmation_challenge: Option<Seq<char>>,
    pub expires_at: i64,
    pub created_at: i64,
}

impl View for PreparedIntentRow {
    type V = IntentRowView;

    open spec fn view(&self) -> IntentRowView {
        IntentRowView {
            contract_version: self.contract_version,
            intent_kind: self.intent_kind@,
            payload_digest: self.payload_digest@,
            classification: self.classification@,
            policy: self.policy@,
            cancellation_policy: self.cancellation_policy@,
            authority: self.authority@,
            support_id: opt_string(self.support_id),
            confirmation_challenge: opt_string(self.confirmation_challenge),
            expires_at: self.expires_at,
            created_at: self.created_at,
        }
    }
}

/// One `prepared_intent_targets` row.
#[derive(Debug)]
pub struct TargetRow {
    pub ordinal: i64,
    pub target_type: String,
    pub target_id: String,
    pub expected_version: i64,
}

pub struct TargetRowView {
    pub ordinal: i64,
    pub target_type: Seq<char>,
    pub target_id: Seq<char>,
    pub expected_version: i64,
}

impl View for TargetRow {
    type V = TargetRowView;

    open spec fn view(&self) -> TargetRowView {
        TargetRowView {
            ordinal: self.ordinal,
            target_type: self.target_type@,
            target_id: self.target_id@,
            expected_version: self.expected_version,
        }
    }
}

/// One `prepared_intent_effects` row.
#[derive(Debug)]
pub struct EffectRow {
    pub ordinal: i64,
    pub effect_code: String,
    pub target_type: Option<String>,
    pub target_id: Option<String>,
    pub secondary_target_type: Option<String>,
    pub secondary_target_id: Option<String>,
}

pub struct EffectRowView {
    pub ordinal: i64,
    pub effect_code: Seq<char>,
    pub target_type: Option<Seq<char>>,
    pub target_id: Option<Seq<char>>,
    pub secondary_target_type: Option<Seq<char>>,
    pub secondary_target_id: Option<Seq<char>>,
}

impl View for EffectRow {
    type V = EffectRowView;

    open spec fn view(&self) -> EffectRowView {
        EffectRowView {
            ordinal: self.ordinal,
            effect_code: self.effect_code@,
            target_type: opt_string(self.target_type),
            target_id: opt_string(self.target_id),
            secondary_target_type: opt_string(self.secondary_target_type),
            secondary_target_id: opt_string(self.secondary_target_id),
        }
    }
}

/// One `prepared_intent_classification_sources` row.
#[derive(Debug)]
pub struct SourceRow {
    pub ordinal: i64,
    pub role: String,
    pub source_id: Option<String>,
    pub classification: String,
}

pub struct SourceRowView {
    pub ordinal: i64,
    pub role: Seq<char>,
    pub source_id: Option<Seq<char>>,
    pub classification: Seq<char>,
}

impl View for SourceRow {
    type V = SourceRowView;

    open spec fn view(&self) -> SourceRowView {
        SourceRowView {
            ordinal: self.ordinal,
            role: self.role@,
            source_id: opt_string(self.source_id),
            classification: self.classification@,
        }
    }
}

/// One `prepared_work_management_payloads` row.
#[derive(Debug)]
pub struct PayloadRow {
    pub primary_id: String,
    pub primary_version: i64,
    pub created_id: Option<String>,
    pub created_classification: Option<String>,
    pub subject: Option<String>,
    pub details: Option<String>,
    pub intended_owner_id: Option<String>,
    pub due_at: Option<i64>,
    pub statement: Option<String>,
    pub rationale: Option<String>,
    pub impact: Option<String>,
    pub decision_owner_id: Option<String>,
    pub decided_at: Option<i64>,
    pub reopen_mode: Option<String>,
    pub resolution_type: Option<String>,
    pub replacement_id: Option<String>,
    pub replacement_version: Option<i64>,
    pub replacement_classification: Option<String>,
    pub replacement_statement: Option<String>,
    pub replacement_rationale: Option<String>,
    pub replacement_impact: Option<String>,
    pub replacement_owner_id: Option<String>,
    pub replacement_decided_at: Option<String>,
}

pub struct PayloadRowView {
    pub primary_id: Seq<char>,
    pub primary_version: i64,
    pub created_id: Option<Seq<char>>,
    pub created_classification: Option<Seq<char>>,
    pub subject: Option<Seq<char>>,
    pub details: Option<Seq<char>>,
    pub intended_owner_id: Option<Seq<char>>,
    pub due_at: Option<i64>,
    pub statement: Option<Seq<char>>,
    pub rationale: Option<Seq<char>>,
    pub impact: Option<Seq<char>>,
    pub decision_owner_id: Option<Seq<char>>,
    pub decided_at: Option<i64>,
    pub reopen_mode: Option<Seq<char>>,
    pub resolution_type: Option<Seq<char>>,
    pub replacement_id: Option<Seq<char>>,
    pub replacement_version: Option<i64>,
    pub replacement_classification: Option<Seq<char>>,
    pub replacement_statement: Option<Seq<char>>,
    pub replacement_rationale: Option<Seq<char>>,
    pub replacement_impact: Option<Seq<char>>,
    pub replacement_owner_id: Option<Seq<char>>,
    pub replacement_decided_at: Option<Seq<char>>,
}

impl View for PayloadRow {
    type V = PayloadRowView;

    open spec fn view(&self) -> PayloadRowView {
        PayloadRowView {
            primary_id: self.primary_id@,
            primary_version: self.primary_version,
            created_id: opt_string(self.created_id),
            created_classification: opt_string(self.created_classification),
            subject: opt_string(self.subject),
            details: opt_string(self.details),
            intended_owner_id: opt_string(self.intended_owner_id),
            due_at: self.due_at,
            statement: opt_string(self.statement),
            rationale: opt_string(self.rationale),
            impact: opt_string(self.impact),
            decision_owner_id: opt_string(self.decision_owner_id),
            decided_at: self.decided_at,
            reopen_mode: opt_string(self.reopen_mode),
            resolution_type: opt_string(self.resolution_type),
            replacement_id: opt_string(self.replacement_id),
            replacement_version: self.replacement_version,
            replacement_classification: opt_string(self.replacement_classification),
            replacement_statement: opt_string(self.replacement_statement),
            replacement_rationale: opt_string(self.replacement_rationale),
            replacement_impact: opt_string(self.replacement_impact),
            replacement_owner_id: opt_string(self.replacement_owner_id),
            replacement_decided_at: opt_string(self.replacement_decided_at),
        }
    }
}

pub open spec fn target_views(rows: Seq<TargetRow>) -> Seq<TargetRowView> {
    rows.map_values(|r: TargetRow| r@)
}

pub open spec fn effect_views(rows: Seq<EffectRow>) -> Seq<EffectRowView> {
    rows.map_values(|r: EffectRow| r@)
}

pub open spec fn source_views(rows: Seq<SourceRow>) -> Seq<SourceRowView> {
    rows.map_values(|r: SourceRow| r@)
}

// ---------------------------------------------------------------------------
// Shapes
// ---------------------------------------------------------------------------

/// The `intent_kind` a preview of `kind` is stored under.
pub open spec fn intent_kind_text(kind: PreparedIntentKind) -> Seq<char> {
    match kind {
        PreparedIntentKind::AcceptActionRequest => "accept_action_request"@,
        PreparedIntentKind::LowerActionClassification => "lower_action_classification"@,
        PreparedIntentKind::CompleteAction => "complete_action"@,
        PreparedIntentKind::CancelAction => "cancel_action"@,
        PreparedIntentKind::ReopenAction => "reopen_action"@,
    }
}

/// Whether a `prepared_intents` row is one of `kind`: contract version 1,
/// an allowed policy, not cancellable after submit, the Head of Products'
/// authority, a support record exactly for a completion, no confirmation
/// challenge, and an expiry not before its creation, which is not before
/// the epoch.
pub open spec fn intent_row_ok(row: IntentRowView, kind: PreparedIntentKind) -> bool {
    &&& row.contract_version == 1
    &&& row.intent_kind == intent_kind_text(kind)
    &&& row.policy == "allowed"@
    &&& row.cancellation_policy == "not_cancellable_after_submit"@
    &&& row.authority == "head_of_products"@
    &&& (row.support_id is Some <==> kind == PreparedIntentKind::CompleteAction)
    &&& row.confirmation_challenge is None
    &&& row.expires_at >= row.created_at
    &&& row.created_at >= 0
}

/// Whether the targets are the one target `(target_type, target_id)` at
/// `version`, at ordinal 0.
pub open spec fn single_target(
    rows: Seq<TargetRowView>,
    target_type: Seq<char>,
    target_id: Seq<char>,
    version: i64,
) -> bool {
    &&& rows.len() == 1
    &&& rows[0].ordinal == 0
    &&& rows[0].target_type == target_type
    &&& rows[0].target_id == target_id
    &&& rows[0].expected_version == version
}

pub open spec fn effect_view(
    ordinal: i64,
    code: Seq<char>,
    target_type: Seq<char>,
    target_id: Seq<char>,
    secondary: Option<(Seq<char>, Seq<char>)>,
) -> EffectRowView {
    EffectRowView {
        ordinal,
        effect_code: code,
        target_type: Some(target_type),
        target_id: Some(target_id),
        secondary_target_type: match secondary {
            Some(s) => Some(s.0),
            None => None,
        },
        secondary_target_id: match secondary {
            Some(s) => Some(s.1),
            None => None,
        },
    }
}

/// The effects of accepting `request_id` into `action_id`: the request is
/// accepted, the Action is created from it and the request is linked to
/// the Action.
pub open spec fn accept_effects(request_id: Seq<char>, action_id: Seq<char>) -> Seq<EffectRowView> {
    seq![
        effect_view(0, "action_request.accepted"@, "action_request"@, request_id, None),
        effect_view(1, "action.created_from_request"@, "action"@, action_id, None),
        effect_view(
            2,
            "action_request.action_linked"@,
            "action_request"@,
            request_id,
            Some(("action"@, action_id)),
        ),
    ]
}

/// The code of the one effect of a completion, cancellation or reopening.
pub open spec fn transition_effect_code(kind: PreparedIntentKind) -> Seq<char> {
    if kind == PreparedIntentKind::CompleteAction {
        "action.completed"@
    } else if kind == PreparedIntentKind::CancelAction {
        "action.cancelled"@
    } else {
        "action.reopened"@
    }
}

/// The classification sources of an acceptance: the request and the
/// Action it creates, both under the preview's classification.
pub open spec fn accept_sources(classification: Seq<char>, action_id: Seq<char>) -> Seq<SourceRowView> {
    seq![
        SourceRowView { ordinal: 0, role: "primary_target"@, source_id: None, classification },
        SourceRowView {
            ordinal: 1,
            role: "created_action"@,
            source_id: Some(action_id),
            classification,
        },
    ]
}

/// Whether the source rows are the expected sources, in order, each at
/// the ordinal of its place.
pub open spec fn sources_match(rows: Seq<SourceRowView>, expected: Seq<SourceRowView>) -> bool {
    &&& rows.len() == expected.len()
    &&& forall|i: int| 0 <= i < rows.len() ==> #[trigger] source_at(rows[i], expected[i], i)
}

/// Whether a source row is the expected source, at ordinal `ordinal`.
pub open spec fn source_at(row: SourceRowView, expected: SourceRowView, ordinal: int) -> bool {
    &&& row.ordinal == ordinal
    &&& row.role == expected.role
    &&& row.source_id == expected.source_id
    &&& row.classification == expected.classification
}

/// Whether the payload columns no operation of this namespace writes are
/// empty.
pub open spec fn decision_columns_empty(row: PayloadRowView) -> bool {
    &&& row.statement is None
    &&& row.rationale is None
    &&& row.impact is None
    &&& row.decision_owner_id is None
    &&& row.decided_at is None
    &&& row.resolution_type is None
    &&& row.replacement_id is None
    &&& row.replacement_version is None
    &&& row.replacement_classification is None
    &&& row.replacement_statement is None
    &&& row.replacement_rationale is None
    &&& row.replacement_impact is None
    &&& row.replacement_owner_id is None
    &&& row.replacement_decided_at is None
}

/// Whether a payload row is that of accepting `request_id` at `version`:
/// the created Action's id, classification, subject, details, owner and
/// due date (not before the epoch) are all there, and nothing else.
pub open spec fn accept_payload_ok(row: PayloadRowView, request_id: Seq<char>, version: i64) -> bool {
    &&& row.primary_id == request_id
    &&& row.primary_version == version
    &&& row.created_id is Some
    &&& row.created_classification is Some
    &&& row.subject is Some
    &&& row.details is Some
    &&& row.intended_owner_id is Some
    &&& row.due_at is Some
    &&& row.due_at->Some_0 >= 0
    &&& row.reopen_mode is None
    &&& decision_columns_empty(row)
}

/// Whether a payload row is that of a change of `kind` to `action_id` at
/// `version`: only the details (the reason of a cancellation or reopening)
/// and the mode of a reopening are there.
pub open spec fn transition_payload_ok(
    row: PayloadRowView,
    action_id: Seq<char>,
    version: i64,
    details: Option<Seq<char>>,
    reopen_mode: Option<Seq<char>>,
) -> bool {
    &&& row.primary_id == action_id
    &&& row.primary_version == version
    &&& row.created_id is None
    &&& row.created_classification is None
    &&& row.subject is None
    &&& row.details == details
    &&& row.intended_owner_id is None
    &&& row.due_at is None
    &&& row.reopen_mode == reopen_mode
    &&& decision_columns_empty(row)
}

// ---------------------------------------------------------------------------
// Checks
// ---------------------------------------------------------------------------

fn same_opt(a: &Option<String>, b: &Option<String>) -> (same: bool)
    ensures
        same == (opt_string(*a) == opt_string(*b)),
{
    match (a, b) {
        (Some(x), Some(y)) => str_eq(x.as_str(), y.as_str()),
        (None, None) => true,
        _ => false,
    }
}

fn opt_is(a: &Option<String>, text: &str) -> (same: bool)
    ensures
        same == (opt_string(*a) == Some(text@)),
{
    match a {
        Some(x) => str_eq(x.as_str(), text),
        None => false,
    }
}

fn intent_kind_str(kind: PreparedIntentKind) -> (text: &'static str)
    ensures
        text@ == intent_kind_text(kind),
{
    match kind {
        PreparedIntentKind::AcceptActionRequest => "accept_action_request",
        PreparedIntentKind::LowerActionClassification => "lower_action_classification",
        PreparedIntentKind::CompleteAction => "complete_action",
        PreparedIntentKind::CancelAction => "cancel_action",
        PreparedIntentKind::ReopenAction => "reopen_action",
    }
}

/// Whether a `prepared_intents` row is one of `kind`.
pub fn check_intent_row(row: &PreparedIntentRow, kind: PreparedIntentKind) -> (ok: bool)
    ensures
        ok == intent_row_ok(row@, kind),
{
    row.contract_version == 1 && str_eq(row.intent_kind.as_str(), intent_kind_str(kind)) && str_eq(
        row.policy.as_str(),
        "allowed",
    ) && str_eq(row.cancellation_policy.as_str(), "not_cancellable_after_submit") && str_eq(
        row.authority.as_str(),
        "head_of_products",
    ) && (row.support_id.is_some() == (kind == PreparedIntentKind::CompleteAction))
        && row.confirmation_challenge.is_none() && row.expires_at >= row.created_at
        && row.created_at >= 0
}

fn check_single_target(rows: &Vec<TargetRow>, target_type: &str, target_id: &String, version: i64) -> (ok: bool)
    ensures
        ok == single_target(target_views(rows@), target_type@, target_id@, version),
{
    rows.len() == 1 && rows[0].ordinal == 0 && str_eq(rows[0].target_type.as_str(), target_type)
        && str_eq(rows[0].target_id.as_str(), target_id.as_str()) && rows[0].expected_version
        == version
}

fn effect_matches(
    row: &EffectRow,
    ordinal: i64,
    code: &str,
    target_type: &str,
    target_id: &String,
    secondary_type: Option<&str>,
    secondary_id: &Option<String>,
) -> (ok: bool)
    ensures
        ok == (row@ == EffectRowView {
            ordinal,
            effect_code: code@,
            target_type: Some(target_type@),
            target_id: Some(target_id@),
            secondary_target_type: match secondary_type {
                Some(t) => Some(t@),
                None => None,
            },
            secondary_target_id: opt_string(*secondary_id),
        }),
{
    let secondary_type_ok = match (&row.secondary_target_type, secondary_type) {
        (Some(actual), Some(expected)) => str_eq(actual.as_str(), expected),
        (None, None) => true,
        _ => false,
    };
    row.ordinal == ordinal && str_eq(row.effect_code.as_str(), code) && opt_is(
        &row.target_type,
        target_type,
    ) && opt_is(&row.target_id, target_id.as_str()) && secondary_type_ok && same_opt(
        &row.secondary_target_id,
        secondary_id,
    )
}

fn check_accept_effects(rows: &Vec<EffectRow>, request_id: &String, action_id: &String) -> (ok: bool)
    ensures
        ok == (effect_views(rows@) == accept_effects(request_id@, action_id@)),
{
    let ghost expected = accept_effects(request_id@, action_id@);
    if rows.len() != 3 {
        assert(effect_views(rows@).len() != expected.len());
        return false;
    }
    let linked = Some(action_id.clone());
    let ok = effect_matches(
        &rows[0],
        0,
        "action_request.accepted",
        "action_request",
        request_id,
        None,
        &None,
    ) && effect_matches(&rows[1], 1, "action.created_from_request", "action", action_id, None, &None)
        && effect_matches(
        &rows[2],
        2,
        "action_request.action_linked",
        "action_request",
        request_id,
        Some("action"),
        &linked,
    );
    proof {
        if ok {
            assert(effect_views(rows@) =~= expected);
        } else {
            if effect_views(rows@) == expected {
                assert(effect_views(rows@)[0] == expected[0]);
                assert(effect_views(rows@)[1] == expected[1]);
                assert(effect_views(rows@)[2] == expected[2]);
            }
        }
    }
    ok
}

fn transition_effect_str(kind: PreparedIntentKind) -> (code: &'static str)
    ensures
        code@ == transition_effect_code(kind),
{
    if kind == PreparedIntentKind::CompleteAction {
        "action.completed"
    } else if kind == PreparedIntentKind::CancelAction {
        "action.cancelled"
    } else {
        "action.reopened"
    }
}

fn check_sources(rows: &Vec<SourceRow>, expected: &Vec<SourceRow>) -> (ok: bool)
    ensures
        ok == sources_match(source_views(rows@), source_views(expected@)),
{
    let ghost actual = source_views(rows@);
    let ghost wanted = source_views(expected@);
    if rows.len() != expected.len() {
        return false;
    }
    let n = rows.len();
    let mut i: usize = 0;
    while i < n
        invariant
            n == rows@.len(),
            n == expected@.len(),
            actual == source_views(rows@),
            wanted == source_views(expected@),
            i <= n,
            forall|k: int| 0 <= k < i ==> #[trigger] source_at(actual[k], wanted[k], k),
        decreases n - i,
    {
        let row = &rows[i];
        let want = &expected[i];
        let here = (row.ordinal as i128) == (i as i128) && str_eq(row.role.as_str(), want.role.as_str())
            && same_opt(&row.source_id, &want.source_id) && str_eq(
            row.classification.as_str(),
            want.classification.as_str(),
        );
        assert(actual[i as int] == row@);
        assert(wanted[i as int] == want@);
        assert(here == source_at(actual[i as int], wanted[i as int], i as int));
        if !here {
            return false;
        }
        i = i + 1;
    }
    true
}

fn check_decision_columns_empty(row: &PayloadRow) -> (ok: bool)
    ensures
        ok == decision_columns_empty(row@),
{
    row.statement.is_none() && row.rationale.is_none() && row.impact.is_none()
        && row.decision_owner_id.is_none() && row.decided_at.is_none()
        && row.resolution_type.is_none() && row.replacement_id.is_none()
        && row.replacement_version.is_none() && row.replacement_classification.is_none()
        && row.replacement_statement.is_none() && row.replacement_rationale.is_none()
        && row.replacement_impact.is_none() && row.replacement_owner_id.is_none()
        && row.replacement_decided_at.is_none()
}

fn check_accept_payload(row: &PayloadRow, request_id: &String, version: i64) -> (ok: bool)
    ensures
        ok == accept_payload_ok(row@, request_id@, version),
{
    str_eq(row.primary_id.as_str(), request_id.as_str()) && row.primary_version == version
        && row.created_id.is_some() && row.created_classification.is_some() && row.subject.is_some()
        && row.details.is_some() && row.intended_owner_id.is_some() && match row.due_at {
        Some(due) => due >= 0,
        None => false,
    } && row.reopen_mode.is_none() && check_decision_columns_empty(row)
}

fn check_transition_payload(
    row: &PayloadRow,
    action_id: &String,
    version: i64,
    details: &Option<String>,
    reopen_mode: &Option<String>,
) -> (ok: bool)
    ensures
        ok == transition_payload_ok(
            row@,
            action_id@,
            version,
            opt_string(*details),
            opt_string(*reopen_mode),
        ),
{
    str_eq(row.primary_id.as_str(), action_id.as_str()) && row.primary_version == version
        && row.created_id.is_none() && row.created_classification.is_none() && row.subject.is_none()
        && same_opt(&row.details, details) && row.intended_owner_id.is_none() && row.due_at.is_none()
        && same_opt(&row.reopen_mode, reopen_mode) && check_decision_columns_empty(row)
}

// ---------------------------------------------------------------------------
// Prepared acceptances
// ---------------------------------------------------------------------------

/// The `action_replay_operations` row of a preparation.
#[derive(Debug)]
pub struct PrepareReplayRow {
    pub correlation_id: String,
    pub operation_ordinal: i64,
    pub result_kind: String,
    pub result_reference: Option<String>,
    pub prepared_intent_id: Option<String>,
    pub prepared_disposition: String,
    pub terminal_cause: Option<String>,
    pub error_code: Option<String>,
    pub error_message_key: Option<String>,
    pub error_correlation_id: Option<String>,
    pub error_retryable: Option<i64>,
    pub attempted_digest: Option<String>,
    pub private_detail_ref: Option<String>,
}

pub struct PrepareReplayView {
    pub correlation_id: Seq<char>,
    pub operation_ordinal: i64,
    pub result_kind: Seq<char>,
    pub result_reference: Option<Seq<char>>,
    pub prepared_intent_id: Option<Seq<char>>,
    pub prepared_disposition: Seq<char>,
    pub terminal_cause: Option<Seq<char>>,
    pub error_code: Option<Seq<char>>,
    pub error_message_key: Option<Seq<char>>,
    pub error_correlation_id: Option<Seq<char>>,
    pub error_retryable: Option<i64>,
    pub attempted_digest: Option<Seq<char>>,
    pub private_detail_ref: Option<Seq<char>>,
}

impl View for PrepareReplayRow {
    type V = PrepareReplayView;

    open spec fn view(&self) -> PrepareReplayView {
        PrepareReplayView {
            correlation_id: self.correlation_id@,
            operation_ordinal: self.operation_ordinal,
            result_kind: self.result_kind@,
            result_reference: opt_string(self.result_reference),
            prepared_intent_id: opt_string(self.prepared_intent_id),
            prepared_disposition: self.prepared_disposition@,
            terminal_cause: opt_string(self.terminal_cause),
            error_code: opt_string(self.error_code),
            error_message_key: opt_string(self.error_message_key),
            error_correlation_id: opt_string(self.error_correlation_id),
            error_retryable: self.error_retryable,
            attempted_digest: opt_string(self.attempted_digest),
            private_detail_ref: opt_string(self.private_detail_ref),
        }
    }
}

/// Whether the replay row records a successful preparation: a
/// non-negative ordinal, a `prepared` result naming the preview, no
/// prepared-intent column, a `not_applicable` disposition and no terminal
/// or error column.
pub open spec fn prepared_replay_ok(row: PrepareReplayView) -> bool {
    &&& row.operation_ordinal >= 0
    &&& row.result_kind == "prepared"@
    &&& row.result_reference is Some
    &&& row.prepared_intent_id is None
    &&& row.prepared_disposition == "not_applicable"@
    &&& row.terminal_cause is None
    &&& row.error_code is None
    &&& row.error_message_key is None
    &&& row.error_correlation_id is None
    &&& row.error_retryable is None
    &&& row.attempted_digest is None
    &&& row.private_detail_ref is None
}

fn check_prepared_replay(row: &PrepareReplayRow) -> (ok: bool)
    ensures
        ok == prepared_replay_ok(row@),
{
    row.operation_ordinal >= 0 && str_eq(row.result_kind.as_str(), "prepared")
        && row.result_reference.is_some() && row.prepared_intent_id.is_none() && str_eq(
        row.prepared_disposition.as_str(),
        "not_applicable",
    ) && row.terminal_cause.is_none() && row.error_code.is_none() && row.error_message_key.is_none()
        && row.error_correlation_id.is_none() && row.error_retryable.is_none()
        && row.attempted_digest.is_none() && row.private_detail_ref.is_none()
}

/// Every row the store keeps for one prepared acceptance, read under its
/// idempotency key.
#[derive(Debug)]
pub struct PreparedAcceptRows {
    pub idempotency_id: String,
    pub command_request_id: String,
    pub command_expected_version: i64,
    pub replay: PrepareReplayRow,
    pub intent: PreparedIntentRow,
    pub payload: PayloadRow,
    pub targets: Vec<TargetRow>,
    pub effects: Vec<EffectRow>,
    pub sources: Vec<SourceRow>,
    pub audit_count: i64,
}

/// The acceptance operation the payload row describes for `request_id`
/// at `version`.
pub open spec fn accept_operation(request_id: Seq<char>, version: i64, payload: PayloadRowView) -> PreparedOperationView {
    PreparedOperationView::AcceptActionRequest {
        request_id,
        request_version: version as u64,
        action_id: payload.created_id->Some_0,
        action_classification: payload.created_classification->Some_0,
        action_subject: payload.subject->Some_0,
        commitment_details: payload.details->Some_0,
        intended_owner: payload.intended_owner_id->Some_0,
        intended_due_at: payload.due_at->Some_0,
    }
}

/// Whether the rows of a prepared acceptance of `request` have the shape a
/// preparation writes: the command names the request at a positive
/// version; the replay row records a successful preparation; the intent
/// row is an acceptance; the payload, the one target, the three effects
/// and the two classification sources are those of accepting the request
/// into the Action the payload creates; and no audit event was recorded.
pub open spec fn accept_rows_ok(request: ActionRequestView, rows: PreparedAcceptRows) -> bool {
    let version = rows.command_expected_version;
    let action_id = rows.payload@.created_id->Some_0;
    &&& rows.command_request_id@ == request.id
    &&& version > 0
    &&& prepared_replay_ok(rows.replay@)
    &&& intent_row_ok(rows.intent@, PreparedIntentKind::AcceptActionRequest)
    &&& accept_payload_ok(rows.payload@, request.id, version)
    &&& single_target(target_views(rows.targets@), "action_request"@, request.id, version)
    &&& effect_views(rows.effects@) == accept_effects(request.id, action_id)
    &&& sources_match(
        source_views(rows.sources@),
        accept_sources(rows.intent@.classification, action_id),
    )
    &&& rows.audit_count == 0
}

/// Whether the preview the domain rebuilt is the one the rows describe:
/// its id is the replay row's reference, its operation the payload's, and
/// its digest, classification and expiry those of the intent row.
pub open spec fn rebuilt_accept_ok(
    request: ActionRequestView,
    rows: PreparedAcceptRows,
    rebuilt: PreparedIntentView,
) -> bool {
    &&& rebuilt.id == rows.replay@.result_reference->Some_0
    &&& rebuilt.operation == accept_operation(
        request.id,
        rows.command_expected_version,
        rows.payload@,
    )
    &&& rebuilt.payload_digest == rows.intent@.payload_digest
    &&& rebuilt.classification == rows.intent@.classification
    &&& rebuilt.expires_at == rows.intent@.expires_at
}

/// What decoding a prepared acceptance gives: the preview the domain
/// rebuilt, and the replay capsule recording the preparation; an invalid
/// snapshot where the rows are not of a preparation's shape or the domain
/// rebuilt no preview, or another one.
pub open spec fn prepared_accept_model(
    request: ActionRequestView,
    rows: PreparedAcceptRows,
    rebuilt: Option<PreparedIntentView>,
) -> Result<(PreparedIntentView, CapsuleView), ActionPersistenceLoadError> {
    match rebuilt {
        Some(intent) => if accept_rows_ok(request, rows) && rebuilt_accept_ok(request, rows, intent) {
            Ok(
                (
                    intent,
                    CapsuleView {
                        idempotency_id: rows.idempotency_id@,
                        correlation_id: rows.replay@.correlation_id,
                        operation_ordinal: rows.replay@.operation_ordinal as u64,
                        command: CommandView::PrepareAccept {
                            request_id: request.id,
                            expected_version: rows.command_expected_version as u64,
                        },
                        result: ResultView::Prepared(intent),
                    },
                ),
            )
        } else {
            Err(ActionPersistenceLoadError::InvalidActionSnapshot)
        },
        None => Err(ActionPersistenceLoadError::InvalidActionSnapshot),
    }
}

pub open spec fn decoded_accept_view(result: Result<(PreparedIntent, ActionReplayCapsule), ActionPersistenceLoadError>) -> Result<
    (PreparedIntentView, CapsuleView),
    ActionPersistenceLoadError,
> {
    match result {
        Ok((intent, capsule)) => Ok((intent@, capsule@)),
        Err(error) => Err(error),
    }
}

/// Decodes one prepared acceptance of `request`, given the preview the
/// domain rebuilt from its payload.
pub fn decode_prepared_accept(
    request: &ActionRequestRecord,
    rows: PreparedAcceptRows,
    rebuilt: Option<PreparedIntent>,
) -> (result: Result<(PreparedIntent, ActionReplayCapsule), ActionPersistenceLoadError>)
    ensures
        decoded_accept_view(result) == prepared_accept_model(
            request@,
            rows,
            match rebuilt {
                Some(intent) => Some(intent@),
                None => None,
            },
        ),
{
    let intent = match rebuilt {
        Some(intent) => intent,
        None => {
            return Err(ActionPersistenceLoadError::InvalidActionSnapshot);
        },
    };
    let version = rows.command_expected_version;
    if !(str_eq(rows.command_request_id.as_str(), request.id.as_str()) && version > 0
        && check_prepared_replay(&rows.replay) && check_intent_row(
        &rows.intent,
        PreparedIntentKind::AcceptActionRequest,
    ) && check_accept_payload(&rows.payload, &request.id, version)) {
        return Err(ActionPersistenceLoadError::InvalidActionSnapshot);
    }
    let action_id = match &rows.payload.created_id {
        Some(id) => id.clone(),
        None => {
            return Err(ActionPersistenceLoadError::InvalidActionSnapshot);
        },
    };
    let primary = SourceRow {
        ordinal: 0,
        role: "primary_target".to_string(),
        source_id: None,
        classification: rows.intent.classification.clone(),
    };
    let created = SourceRow {
        ordinal: 1,
        role: "created_action".to_string(),
        source_id: Some(action_id.clone()),
        classification: rows.intent.classification.clone(),
    };
    let expected_sources = vec![primary, created];
    proof {
        assert(source_views(expected_sources@) =~= accept_sources(
            rows.intent@.classification,
            action_id@,
        ));
    }
    if !(check_single_target(&rows.targets, "action_request", &request.id, version)
        && check_accept_effects(&rows.effects, &request.id, &action_id) && check_sources(
        &rows.sources,
        &expected_sources,
    ) && rows.audit_count == 0) {
        return Err(ActionPersistenceLoadError::InvalidActionSnapshot);
    }
    let reference = match &rows.replay.result_reference {
        Some(reference) => reference,
        None => {
            return Err(ActionPersistenceLoadError::InvalidActionSnapshot);
        },
    };
    let expected_operation = PreparedOperation::AcceptActionRequest {
        request_id: request.id.clone(),
        request_version: version as u64,
        action_id,
        action_classification: match &rows.payload.created_classification {
            Some(value) => value.clone(),
            None => String::new(),
        },
        action_subject: match &rows.payload.subject {
            Some(value) => value.clone(),
            None => String::new(),
        },
        commitment_details: match &rows.payload.details {
            Some(value) => value.clone(),
            None => String::new(),
        },
        intended_owner: match &rows.payload.intended_owner_id {
            Some(value) => value.clone(),
            None => String::new(),
        },
        intended_due_at: match rows.payload.due_at {
            Some(value) => value,
            None => 0,
        },
    };
    if !(str_eq(intent.id.as_str(), reference.as_str()) && same_prepared_operation(
        &intent.operation,
        &expected_operation,
    ) && str_eq(intent.payload_digest.as_str(), rows.intent.payload_digest.as_str()) && str_eq(
        intent.classification.as_str(),
        rows.intent.classification.as_str(),
    ) && intent.expires_at == rows.intent.expires_at) {
        return Err(ActionPersistenceLoadError::InvalidActionSnapshot);
    }
    let capsule = ActionReplayCapsule {
        idempotency_id: rows.idempotency_id,
        correlation_id: rows.replay.correlation_id,
        operation_ordinal: rows.replay.operation_ordinal as u64,
        command: ActionPersistenceCommand::PrepareAccept {
            request_id: request.id.clone(),
            expected_version: version as u64,
        },
        result: ActionPersistenceResult::Prepared(intent.clone()),
    };
    Ok((intent, capsule))
}

// ---------------------------------------------------------------------------
// Prepared completions, cancellations and reopenings
// ---------------------------------------------------------------------------

/// Every row the store keeps for one prepared completion, cancellation or
/// reopening: its command row (the reason of a cancellation or reopening,
/// the mode of a reopening, the human judgment of a completion, each empty
/// where the kind has none) and the rows of its preview.
#[derive(Debug)]
pub struct PreparedTransitionRows {
    pub command_action_id: String,
    pub command_expected_version: i64,
    pub command_reason: Option<String>,
    pub command_mode: Option<String>,
    pub judgment_disposition: Option<String>,
    pub judgment_actor: Option<String>,
    pub judgment_rationale: Option<String>,
    pub judgment_classification: Option<String>,
    pub intent: PreparedIntentRow,
    pub payload: PayloadRow,
    pub targets: Vec<TargetRow>,
    pub effects: Vec<EffectRow>,
    pub sources: Vec<SourceRow>,
    pub audit_count: i64,
}

/// Whether the judgment columns of a completion's command row are empty,
/// or hold one documented-rationale judgment by the Head of Products.
pub open spec fn judgment_ok(rows: PreparedTransitionRows) -> bool {
    &&& (rows.judgment_disposition matches Some(d) ==> d@ == "proceed_with_documented_rationale"@)
    &&& (rows.judgment_actor matches Some(a) ==> a@ == "head_of_products"@)
    &&& (rows.judgment_disposition is Some == rows.judgment_rationale is Some)
    &&& (rows.judgment_disposition is Some == rows.judgment_classification is Some)
}

/// Whether the command row of a change of `kind` has the columns its kind
/// has: a completion a judgment or none, a cancellation a reason, a
/// reopening a reason and a known mode.
pub open spec fn transition_command_ok(kind: PreparedIntentKind, rows: PreparedTransitionRows) -> bool {
    let judgment_empty = rows.judgment_disposition is None && rows.judgment_actor is None
        && rows.judgment_rationale is None && rows.judgment_classification is None;
    &&& rows.command_expected_version >= 1
    &&& if kind == PreparedIntentKind::CompleteAction {
        rows.command_reason is None && rows.command_mode is None && judgment_ok(rows)
    } else if kind == PreparedIntentKind::CancelAction {
        rows.command_reason is Some && rows.command_mode is None && judgment_empty
    } else {
        &&& rows.command_reason is Some
        &&& rows.command_mode is Some
        &&& ActionReopenMode::decoded(opt_string(rows.command_mode)->Some_0) is Some
        &&& judgment_empty
    }
}

/// The operation the command row of a change of `kind` describes.
pub open spec fn transition_operation(kind: PreparedIntentKind, rows: PreparedTransitionRows) -> PreparedOperationView {
    let action_id = rows.command_action_id@;
    let version = rows.command_expected_version as u64;
    if kind == PreparedIntentKind::CompleteAction {
        PreparedOperationView::CompleteAction { action_id, action_version: version }
    } else if kind == PreparedIntentKind::CancelAction {
        PreparedOperationView::CancelAction {
            action_id,
            action_version: version,
            reason: opt_string(rows.command_reason)->Some_0,
        }
    } else {
        PreparedOperationView::ReopenAction {
            action_id,
            action_version: version,
            mode: ActionReopenMode::decoded(opt_string(rows.command_mode)->Some_0)->Some_0,
            reason: opt_string(rows.command_reason)->Some_0,
        }
    }
}

/// What the command row of a change of `kind` records beside its Action and
/// version: the reason of a cancellation or reopening, the mode of a
/// reopening, and the judgment of a completion where it has one.
pub open spec fn transition_details(kind: PreparedIntentKind, rows: PreparedTransitionRows) -> TransitionDetailsView {
    match transition_operation(kind, rows) {
        PreparedOperationView::CancelAction { reason, .. } => TransitionDetailsView {
            reason: Some(reason),
            mode: None,
            judgment: None,
        },
        PreparedOperationView::ReopenAction { mode, reason, .. } => TransitionDetailsView {
            reason: Some(reason),
            mode: Some(mode),
            judgment: None,
        },
        _ => TransitionDetailsView {
            reason: None,
            mode: None,
            judgment: match (rows.judgment_rationale, rows.judgment_classification) {
                (Some(rationale), Some(classification)) => Some(
                    HumanJudgmentView { rationale: rationale@, classification: classification@ },
                ),
                _ => None,
            },
        },
    }
}

fn transition_details_of(
    kind: PreparedIntentKind,
    rows: &PreparedTransitionRows,
    operation: &PreparedOperation,
) -> (details: TransitionDetails)
    requires
        operation@ == transition_operation(kind, *rows),
    ensures
        details@ == transition_details(kind, *rows),
{
    match operation {
        PreparedOperation::CancelAction { reason, .. } => TransitionDetails {
            reason: Some(reason.clone()),
            mode: None,
            judgment: None,
        },
        PreparedOperation::ReopenAction { mode, reason, .. } => TransitionDetails {
            reason: Some(reason.clone()),
            mode: Some(*mode),
            judgment: None,
        },
        _ => TransitionDetails {
            reason: None,
            mode: None,
            judgment: match (&rows.judgment_rationale, &rows.judgment_classification) {
                (Some(rationale), Some(classification)) => Some(
                    HumanJudgment { rationale: rationale.clone(), classification: classification.clone() },
                ),
                _ => None,
            },
        },
    }
}

/// Whether the rows of a prepared change of `kind` have the shape a
/// preparation writes: a command row of its kind; an intent row of its
/// kind; the one target, the one effect and the payload of changing the
/// Action; the classification sources the rebuilt preview names, in
/// order; and no audit event.
pub open spec fn transition_rows_ok(
    kind: PreparedIntentKind,
    rows: PreparedTransitionRows,
    expected_sources: Seq<SourceRowView>,
) -> bool {
    let action_id = rows.command_action_id@;
    let version = rows.command_expected_version;
    &&& transition_command_ok(kind, rows)
    &&& intent_row_ok(rows.intent@, kind)
    &&& single_target(target_views(rows.targets@), "action"@, action_id, version)
    &&& effect_views(rows.effects@) == seq![
        effect_view(0, transition_effect_code(kind), "action"@, action_id, None),
    ]
    &&& sources_match(source_views(rows.sources@), expected_sources)
    &&& transition_payload_ok(
        rows.payload@,
        action_id,
        version,
        if kind == PreparedIntentKind::CompleteAction {
            None
        } else {
            opt_string(rows.command_reason)
        },
        if kind == PreparedIntentKind::ReopenAction {
            opt_string(rows.command_mode)
        } else {
            None
        },
    )
    &&& rows.audit_count == 0
}

/// What decoding the prepared change `prepared_id` of `kind` gives: the
/// preview the domain rebuilt, with the command it was prepared by; an
/// invalid snapshot where the rows are not of a preparation's shape or the
/// domain rebuilt no preview, or another one.
pub open spec fn prepared_transition_model(
    kind: PreparedIntentKind,
    prepared_id: Seq<char>,
    rows: PreparedTransitionRows,
    rebuilt: Option<PreparedIntentView>,
    expected_sources: Seq<SourceRowView>,
) -> Result<(PreparedIntentView, CommandView), ActionPersistenceLoadError> {
    match rebuilt {
        Some(intent) => if transition_rows_ok(kind, rows, expected_sources) && intent.id
            == prepared_id && intent.operation == transition_operation(kind, rows)
            && intent.payload_digest == rows.intent@.payload_digest && intent.classification
            == rows.intent@.classification {
            Ok(
                (
                    intent,
                    CommandView::PrepareActionTransition {
                        kind,
                        action_id: rows.command_action_id@,
                        expected_version: rows.command_expected_version as u64,
                        details: transition_details(kind, rows),
                    },
                ),
            )
        } else {
            Err(ActionPersistenceLoadError::InvalidActionSnapshot)
        },
        None => Err(ActionPersistenceLoadError::InvalidActionSnapshot),
    }
}

pub open spec fn decoded_transition_view(result: Result<(PreparedIntent, ActionPersistenceCommand), ActionPersistenceLoadError>) -> Result<
    (PreparedIntentView, CommandView),
    ActionPersistenceLoadError,
> {
    match result {
        Ok((intent, command)) => Ok((intent@, command@)),
        Err(error) => Err(error),
    }
}

fn check_judgment(rows: &PreparedTransitionRows) -> (ok: bool)
    ensures
        ok == judgment_ok(*rows),
{
    let disposition_ok = match &rows.judgment_disposition {
        Some(d) => str_eq(d.as_str(), "proceed_with_documented_rationale"),
        None => true,
    };
    let actor_ok = match &rows.judgment_actor {
        Some(a) => str_eq(a.as_str(), "head_of_products"),
        None => true,
    };
    disposition_ok && actor_ok && (rows.judgment_disposition.is_some()
        == rows.judgment_rationale.is_some()) && (rows.judgment_disposition.is_some()
        == rows.judgment_classification.is_some())
}

fn check_transition_effect(rows: &Vec<EffectRow>, kind: PreparedIntentKind, action_id: &String) -> (ok: bool)
    ensures
        ok == (effect_views(rows@) == seq![
            effect_view(0, transition_effect_code(kind), "action"@, action_id@, None),
        ]),
{
    let ghost expected = seq![effect_view(0, transition_effect_code(kind), "action"@, action_id@, None)];
    if rows.len() != 1 {
        assert(effect_views(rows@).len() != expected.len());
        return false;
    }
    let ok = effect_matches(&rows[0], 0, transition_effect_str(kind), "action", action_id, None, &None);
    proof {
        if ok {
            assert(effect_views(rows@) =~= expected);
        } else if effect_views(rows@) == expected {
            assert(effect_views(rows@)[0] == expected[0]);
        }
    }
    ok
}

/// Decodes the prepared change `prepared_id` of `kind`, given the preview
/// the domain rebuilt from its rows and the classification sources that
/// preview names.
pub fn decode_prepared_transition(
    kind: PreparedIntentKind,
    prepared_id: &String,
    rows: PreparedTransitionRows,
    rebuilt: Option<PreparedIntent>,
    expected_sources: &Vec<SourceRow>,
) -> (result: Result<(PreparedIntent, ActionPersistenceCommand), ActionPersistenceLoadError>)
    requires
        is_action_transition(kind),
    ensures
        decoded_transition_view(result) == prepared_transition_model(
            kind,
            prepared_id@,
            rows,
            match rebuilt {
                Some(intent) => Some(intent@),
                None => None,
            },
            source_views(expected_sources@),
        ),
{
    let intent = match rebuilt {
        Some(intent) => intent,
        None => {
            return Err(ActionPersistenceLoadError::InvalidActionSnapshot);
        },
    };
    let version = rows.command_expected_version;
    let judgment_empty = rows.judgment_disposition.is_none() && rows.judgment_actor.is_none()
        && rows.judgment_rationale.is_none() && rows.judgment_classification.is_none();
    if version < 1 {
        return Err(ActionPersistenceLoadError::InvalidActionSnapshot);
    }
    let operation = if kind == PreparedIntentKind::CompleteAction {
        if !(rows.command_reason.is_none() && rows.command_mode.is_none() && check_judgment(&rows)) {
            return Err(ActionPersistenceLoadError::InvalidActionSnapshot);
        }
        PreparedOperation::CompleteAction {
            action_id: rows.command_action_id.clone(),
            action_version: version as u64,
        }
    } else if kind == PreparedIntentKind::CancelAction {
        let reason = match &rows.command_reason {
            Some(reason) => reason.clone(),
            None => {
                return Err(ActionPersistenceLoadError::InvalidActionSnapshot);
            },
        };
        if !(rows.command_mode.is_none() && judgment_empty) {
            return Err(ActionPersistenceLoadError::InvalidActionSnapshot);
        }
        PreparedOperation::CancelAction {
            action_id: rows.command_action_id.clone(),
            action_version: version as u64,
            reason,
        }
    } else {
        let reason = match &rows.command_reason {
            Some(reason) => reason.clone(),
            None => {
                return Err(ActionPersistenceLoadError::InvalidActionSnapshot);
            },
        };
        let mode = match &rows.command_mode {
            Some(mode) => match ActionReopenMode::from_persisted(mode.as_str()) {
                Ok(mode) => mode,
                Err(error) => {
                    return Err(error);
                },
            },
            None => {
                return Err(ActionPersistenceLoadError::InvalidActionSnapshot);
            },
        };
        if !judgment_empty {
            return Err(ActionPersistenceLoadError::InvalidActionSnapshot);
        }
        PreparedOperation::ReopenAction {
            action_id: rows.command_action_id.clone(),
            action_version: version as u64,
            mode,
            reason,
        }
    };
    assert(transition_command_ok(kind, rows));
    assert(operation@ == transition_operation(kind, rows));
    let transition = transition_details_of(kind, &rows, &operation);
    let details: Option<String> = if kind == PreparedIntentKind::CompleteAction {
        None
    } else {
        clone_opt_string(&rows.command_reason)
    };
    let reopen_mode: Option<String> = if kind == PreparedIntentKind::ReopenAction {
        clone_opt_string(&rows.command_mode)
    } else {
        None
    };
    let effect_ok = check_transition_effect(&rows.effects, kind, &rows.command_action_id);
    let intent_ok = check_intent_row(&rows.intent, kind);
    let target_ok = check_single_target(&rows.targets, "action", &rows.command_action_id, version);
    let sources_ok = check_sources(&rows.sources, expected_sources);
    let payload_ok = check_transition_payload(
        &rows.payload,
        &rows.command_action_id,
        version,
        &details,
        &reopen_mode,
    );
    if !(intent_ok && target_ok && effect_ok && sources_ok && payload_ok && rows.audit_count == 0) {
        return Err(ActionPersistenceLoadError::InvalidActionSnapshot);
    }
    if !(str_eq(intent.id.as_str(), prepared_id.as_str()) && same_prepared_operation(
        &intent.operation,
        &operation,
    ) && str_eq(intent.payload_digest.as_str(), rows.intent.payload_digest.as_str()) && str_eq(
        intent.classification.as_str(),
        rows.intent.classification.as_str(),
    )) {
        return Err(ActionPersistenceLoadError::InvalidActionSnapshot);
    }
    let command = ActionPersistenceCommand::PrepareActionTransition {
        kind,
        action_id: rows.command_action_id,
        expected_version: version as u64,
        details: transition,
    };
    Ok((intent, command))
}

// ---------------------------------------------------------------------------
// Writing a prepared change
// ---------------------------------------------------------------------------

/// What a preparation of the change `operation` records beside its Action
/// and version, with `judgment` for a completion.
pub open spec fn encoded_details(
    operation: PreparedOperationView,
    judgment: Option<HumanJudgmentView>,
) -> TransitionDetailsView {
    match operation {
        PreparedOperationView::CancelAction { reason, .. } => TransitionDetailsView {
            reason: Some(reason),
            mode: None,
            judgment: None,
        },
        PreparedOperationView::ReopenAction { mode, reason, .. } => TransitionDetailsView {
            reason: Some(reason),
            mode: Some(mode),
            judgment: None,
        },
        _ => TransitionDetailsView { reason: None, mode: None, judgment },
    }
}

/// The Action and version a change preview acts on.
pub open spec fn change_of(operation: PreparedOperationView) -> (Seq<char>, u64) {
    match operation {
        PreparedOperationView::CompleteAction { action_id, action_version } => (action_id, action_version),
        PreparedOperationView::CancelAction { action_id, action_version, .. } => (
            action_id,
            action_version,
        ),
        PreparedOperationView::ReopenAction { action_id, action_version, .. } => (
            action_id,
            action_version,
        ),
        PreparedOperationView::AcceptActionRequest { action_id, request_version, .. } => (
            action_id,
            request_version,
        ),
        PreparedOperationView::LowerActionClassification { action_id, action_version, .. } => (
            action_id,
            action_version,
        ),
    }
}

/// Builds the rows a preparation of the completion, cancellation or
/// reopening `prepared` writes: its command row (with `judgment` for a
/// completion), its `prepared_intents` row created at `created_at` (a
/// completion with its support record), the one target and the one effect
/// on the Action, the payload, the classification `sources` numbered in
/// order, and no audit event.  Decoding them with `prepared` as the
/// domain's rebuild gives back `prepared` and the command it was prepared
/// by.
pub fn encode_prepared_transition(
    prepared: &PreparedIntent,
    judgment: &Option<HumanJudgment>,
    created_at: i64,
    sources: &Vec<SourceRow>,
) -> (rows: PreparedTransitionRows)
    requires
        is_action_transition(prepared@.operation.kind()),
        0 <= created_at <= prepared.expires_at,
        1 <= change_of(prepared@.operation).1 <= i64::MAX,
        sources@.len() <= i64::MAX,
    ensures
        prepared_transition_model(
            prepared@.operation.kind(),
            prepared.id@,
            rows,
            Some(prepared@),
            source_views(sources@),
        ) == Ok::<(PreparedIntentView, CommandView), ActionPersistenceLoadError>(
            (
                prepared@,
                CommandView::PrepareActionTransition {
                    kind: prepared@.operation.kind(),
                    action_id: change_of(prepared@.operation).0,
                    expected_version: change_of(prepared@.operation).1,
                    details: encoded_details(
                        prepared@.operation,
                        match *judgment {
                            Some(j) => Some(j@),
                            None => None,
                        },
                    ),
                },
            ),
        ),
{
    let ghost kind = prepared@.operation.kind();
    let (kind, action_id, version, reason, mode): (
        PreparedIntentKind,
        String,
        u64,
        Option<String>,
        Option<ActionReopenMode>,
    ) = match &prepared.operation {
        PreparedOperation::CompleteAction { action_id, action_version } => (
            PreparedIntentKind::CompleteAction,
            action_id.clone(),
            *action_version,
            None,
            None,
        ),
        PreparedOperation::CancelAction { action_id, action_version, reason } => (
            PreparedIntentKind::CancelAction,
            action_id.clone(),
            *action_version,
            Some(reason.clone()),
            None,
        ),
        PreparedOperation::ReopenAction { action_id, action_version, mode, reason } => (
            PreparedIntentKind::ReopenAction,
            action_id.clone(),
            *action_version,
            Some(reason.clone()),
            Some(*mode),
        ),
        PreparedOperation::AcceptActionRequest { action_id, request_version, .. } => (
            PreparedIntentKind::AcceptActionRequest,
            action_id.clone(),
            *request_version,
            None,
            None,
        ),
        PreparedOperation::LowerActionClassification { action_id, action_version, .. } => (
            PreparedIntentKind::LowerActionClassification,
            action_id.clone(),
            *action_version,
            None,
            None,
        ),
    };
    let version_text = version as i64;
    let mode_text: Option<String> = match mode {
        Some(mode) => {
            proof {
                crate::states::lemma_reopen_mode_text_round_trip(mode, mode.persisted());
            }
            Some(mode.as_persisted().to_string())
        },
        None => None,
    };
    let (judgment_disposition, judgment_actor, judgment_rationale, judgment_classification): (
        Option<String>,
        Option<String>,
        Option<String>,
        Option<String>,
    ) = match (kind, judgment) {
        (PreparedIntentKind::CompleteAction, Some(j)) => (
            Some("proceed_with_documented_rationale".to_string()),
            Some("head_of_products".to_string()),
            Some(j.rationale.clone()),
            Some(j.classification.clone()),
        ),
        _ => (None, None, None, None),
    };
    let support_id: Option<String> = match kind {
        PreparedIntentKind::CompleteAction => {
            let mut support = String::from_str("action-h2a-support-");
            support.append(prepared.id.as_str());
            Some(support)
        },
        _ => None,
    };
    let mut source_rows: Vec<SourceRow> = Vec::new();
    let n = sources.len();
    let mut i: usize = 0;
    while i < n
        invariant
            n == sources@.len(),
            n <= i64::MAX,
            i <= n,
            source_rows@.len() == i,
            forall|k: int|
                0 <= k < i ==> #[trigger] source_at(
                    source_rows@[k]@,
                    source_views(sources@)[k],
                    k,
                ),
        decreases n - i,
    {
        let source = &sources[i];
        source_rows.push(
            SourceRow {
                ordinal: i as i64,
                role: source.role.clone(),
                source_id: clone_opt_string(&source.source_id),
                classification: source.classification.clone(),
            },
        );
        i = i + 1;
    }
    let code: &str = match kind {
        PreparedIntentKind::CompleteAction => "action.completed",
        PreparedIntentKind::CancelAction => "action.cancelled",
        _ => "action.reopened",
    };
    let details: Option<String> = match kind {
        PreparedIntentKind::CompleteAction => None,
        _ => clone_opt_string(&reason),
    };
    let rows = PreparedTransitionRows {
        command_action_id: action_id.clone(),
        command_expected_version: version_text,
        command_reason: reason,
        command_mode: clone_opt_string(&mode_text),
        judgment_disposition,
        judgment_actor,
        judgment_rationale,
        judgment_classification,
        intent: PreparedIntentRow {
            contract_version: 1,
            intent_kind: intent_kind_str(kind).to_string(),
            payload_digest: prepared.payload_digest.clone(),
            classification: prepared.classification.clone(),
            policy: "allowed".to_string(),
            cancellation_policy: "not_cancellable_after_submit".to_string(),
            authority: "head_of_products".to_string(),
            support_id,
            confirmation_challenge: None,
            expires_at: prepared.expires_at,
            created_at,
        },
        payload: PayloadRow {
            primary_id: action_id.clone(),
            primary_version: version_text,
            created_id: None,
            created_classification: None,
            subject: None,
            details,
            intended_owner_id: None,
            due_at: None,
            statement: None,
            rationale: None,
            impact: None,
            decision_owner_id: None,
            decided_at: None,
            reopen_mode: mode_text,
            resolution_type: None,
            replacement_id: None,
            replacement_version: None,
            replacement_classification: None,
            replacement_statement: None,
            replacement_rationale: None,
            replacement_impact: None,
            replacement_owner_id: None,
            replacement_decided_at: None,
        },
        targets: vec![
            TargetRow {
                ordinal: 0,
                target_type: "action".to_string(),
                target_id: action_id.clone(),
                expected_version: version_text,
            },
        ],
        effects: vec![
            EffectRow {
                ordinal: 0,
                effect_code: code.to_string(),
                target_type: Some("action".to_string()),
                target_id: Some(action_id),
                secondary_target_type: None,
                secondary_target_id: None,
            },
        ],
        sources: source_rows,
        audit_count: 0,
    };
    proof {
        reveal_strlit("action.completed");
        reveal_strlit("action.cancelled");
        reveal_strlit("action.reopened");
        assert(effect_views(rows.effects@) =~= seq![
            effect_view(0, transition_effect_code(kind), "action"@, rows.command_action_id@, None),
        ]);
        assert(target_views(rows.targets@) =~= seq![rows.targets@[0]@]);
        assert(sources_match(source_views(rows.sources@), source_views(sources@)));
        assert(transition_command_ok(kind, rows));
        assert(transition_rows_ok(kind, rows, source_views(sources@)));
        assert(transition_operation(kind, rows) == prepared@.operation);
    }
    rows
}

/// The request an acceptance preview accepts, if it is one.
pub open spec fn accepted_request(operation: PreparedOperationView) -> Option<(Seq<char>, u64)> {
    match operation {
        PreparedOperationView::AcceptActionRequest { request_id, request_version, .. } => Some(
            (request_id, request_version),
        ),
        _ => None,
    }
}

/// The rows that persist the preparation of the acceptance `prepared` of
/// `request` (at the version the preview names) under `key` at `ordinal`,
/// its intent created at
/// `created_at`: the replay row naming the preview, the intent row, the
/// payload of the Action the acceptance creates, its one target, its
/// three effects and its two classification sources.  They decode to the
/// preview and the capsule recording the preparation.
pub fn encode_prepared_accept(
    request: &ActionRequestRecord,
    prepared: &PreparedIntent,
    key: &String,
    correlation: &String,
    ordinal: u64,
    created_at: i64,
) -> (rows: PreparedAcceptRows)
    requires
        accepted_request(prepared@.operation) is Some,
        accepted_request(prepared@.operation)->Some_0.0 == request@.id,
        1 <= accepted_request(prepared@.operation)->Some_0.1 <= i64::MAX,
        ordinal <= i64::MAX,
        0 <= created_at <= prepared.expires_at,
        prepared@.operation->AcceptActionRequest_intended_due_at >= 0,
    ensures
        prepared_accept_model(request@, rows, Some(prepared@)) == Ok::<
            (PreparedIntentView, CapsuleView),
            ActionPersistenceLoadError,
        >(
            (
                prepared@,
                CapsuleView {
                    idempotency_id: key@,
                    correlation_id: correlation@,
                    operation_ordinal: ordinal,
                    command: CommandView::PrepareAccept {
                        request_id: request@.id,
                        expected_version: accepted_request(prepared@.operation)->Some_0.1,
                    },
                    result: ResultView::Prepared(prepared@),
                },
            ),
        ),
{
    let (request_id, version, action_id, classification, subject, details, owner, due_at) =
        match &prepared.operation {
        PreparedOperation::AcceptActionRequest {
            request_id,
            request_version,
            action_id,
            action_classification,
            action_subject,
            commitment_details,
            intended_owner,
            intended_due_at,
        } => (
            request_id.clone(),
            *request_version as i64,
            action_id.clone(),
            action_classification.clone(),
            action_subject.clone(),
            commitment_details.clone(),
            intended_owner.clone(),
            *intended_due_at,
        ),
        _ => {
            proof {
                assert(false);
            }
            (String::new(), 0, String::new(), String::new(), String::new(), String::new(), String::new(), 0)
        },
    };
    let rows = PreparedAcceptRows {
        idempotency_id: key.clone(),
        command_request_id: request_id.clone(),
        command_expected_version: version,
        replay: PrepareReplayRow {
            correlation_id: correlation.clone(),
            operation_ordinal: ordinal as i64,
            result_kind: "prepared".to_string(),
            result_reference: Some(prepared.id.clone()),
            prepared_intent_id: None,
            prepared_disposition: "not_applicable".to_string(),
            terminal_cause: None,
            error_code: None,
            error_message_key: None,
            error_correlation_id: None,
            error_retryable: None,
            attempted_digest: None,
            private_detail_ref: None,
        },
        intent: PreparedIntentRow {
            contract_version: 1,
            intent_kind: intent_kind_str(PreparedIntentKind::AcceptActionRequest).to_string(),
            payload_digest: prepared.payload_digest.clone(),
            classification: prepared.classification.clone(),
            policy: "allowed".to_string(),
            cancellation_policy: "not_cancellable_after_submit".to_string(),
            authority: "head_of_products".to_string(),
            support_id: None,
            confirmation_challenge: None,
            expires_at: prepared.expires_at,
            created_at,
        },
        payload: PayloadRow {
            primary_id: request_id.clone(),
            primary_version: version,
            created_id: Some(action_id.clone()),
            created_classification: Some(classification),
            subject: Some(subject),
            details: Some(details),
            intended_owner_id: Some(owner),
            due_at: Some(due_at),
            statement: None,
            rationale: None,
            impact: None,
            decision_owner_id: None,
            decided_at: None,
            reopen_mode: None,
            resolution_type: None,
            replacement_id: None,
            replacement_version: None,
            replacement_classification: None,
            replacement_statement: None,
            replacement_rationale: None,
            replacement_impact: None,
            replacement_owner_id: None,
            replacement_decided_at: None,
        },
        targets: vec![
            TargetRow {
                ordinal: 0,
                target_type: "action_request".to_string(),
                target_id: request_id.clone(),
                expected_version: version,
            },
        ],
        effects: vec![
            EffectRow {
                ordinal: 0,
                effect_code: "action_request.accepted".to_string(),
                target_type: Some("action_request".to_string()),
                target_id: Some(request_id.clone()),
                secondary_target_type: None,
                secondary_target_id: None,
            },
            EffectRow {
                ordinal: 1,
                effect_code: "action.created_from_request".to_string(),
                target_type: Some("action".to_string()),
                target_id: Some(action_id.clone()),
                secondary_target_type: None,
                secondary_target_id: None,
            },
            EffectRow {
                ordinal: 2,
                effect_code: "action_request.action_linked".to_string(),
                target_type: Some("action_request".to_string()),
                target_id: Some(request_id),
                secondary_target_type: Some("action".to_string()),
                secondary_target_id: Some(action_id.clone()),
            },
        ],
        sources: vec![
            SourceRow {
                ordinal: 0,
                role: "primary_target".to_string(),
                source_id: None,
                classification: prepared.classification.clone(),
            },
            SourceRow {
                ordinal: 1,
                role: "created_action".to_string(),
                source_id: Some(action_id),
                classification: prepared.classification.clone(),
            },
        ],
        audit_count: 0,
    };
    proof {
        assert(effect_views(rows.effects@) =~= accept_effects(request@.id, rows.payload@.created_id->Some_0));
        assert(target_views(rows.targets@) =~= seq![rows.targets@[0]@]);
        assert(sources_match(
            source_views(rows.sources@),
            accept_sources(rows.intent@.classification, rows.payload@.created_id->Some_0),
        ));
        assert(accept_rows_ok(request@, rows));
        assert(rebuilt_accept_ok(request@, rows, prepared@));
    }
    rows
}

/// A decoded prepared change is the preview whose command row it was
/// read from: it names that Action at that version, a cancellation or
/// reopening carries the command's reason (and a reopening the command's
/// mode), and the preview's digest and classification are its intent row's;
/// the recorded command names the same Action, version, reason and mode.
pub proof fn lemma_decoded_transition_keeps_its_command(
    kind: PreparedIntentKind,
    prepared_id: Seq<char>,
    rows: PreparedTransitionRows,
    rebuilt: Option<PreparedIntentView>,
    expected_sources: Seq<SourceRowView>,
)
    requires
        is_action_transition(kind),
        prepared_transition_model(kind, prepared_id, rows, rebuilt, expected_sources) is Ok,
    ensures
        ({
            let (intent, command) = prepared_transition_model(
                kind,
                prepared_id,
                rows,
                rebuilt,
                expected_sources,
            )->Ok_0;
            &&& intent.id == prepared_id
            &&& intent.payload_digest == rows.intent@.payload_digest
            &&& intent.classification == rows.intent@.classification
            &&& intent.operation.kind() == kind
            &&& match intent.operation {
                PreparedOperationView::CompleteAction { action_id, action_version } => {
                    &&& action_id == rows.command_action_id@
                    &&& action_version == rows.command_expected_version
                    &&& rows.command_reason is None
                },
                PreparedOperationView::CancelAction { action_id, action_version, reason } => {
                    &&& action_id == rows.command_action_id@
                    &&& action_version == rows.command_expected_version
                    &&& opt_string(rows.command_reason) == Some(reason)
                },
                PreparedOperationView::ReopenAction { action_id, action_version, mode, reason } => {
                    &&& action_id == rows.command_action_id@
                    &&& action_version == rows.command_expected_version
                    &&& opt_string(rows.command_reason) == Some(reason)
                    &&& opt_string(rows.command_mode) == Some(mode.persisted())
                },
                _ => false,
            }
            &&& command matches CommandView::PrepareActionTransition {
                kind: command_kind,
                action_id,
                expected_version,
                details,
            }
            &&& command->PrepareActionTransition_kind == kind
            &&& command->PrepareActionTransition_action_id == rows.command_action_id@
            &&& command->PrepareActionTransition_expected_version == rows.command_expected_version
            &&& (kind != PreparedIntentKind::CompleteAction ==> command->PrepareActionTransition_details.reason
                == opt_string(rows.command_reason))
        }),
{
    if kind == PreparedIntentKind::ReopenAction {
        let text = opt_string(rows.command_mode)->Some_0;
        let mode = ActionReopenMode::decoded(text)->Some_0;
        crate::states::lemma_reopen_mode_text_round_trip(mode, text);
    }
}

/// A decoded prepared acceptance is the preview its rows describe: it
/// accepts the request at the command's version into the Action its
/// payload creates, with the payload's classification, subject, details,
/// owner and due date; its id is the one the replay row names and its
/// digest, classification and expiry are its intent row's.
pub proof fn lemma_decoded_acceptance_keeps_its_rows(
    request: ActionRequestView,
    rows: PreparedAcceptRows,
    rebuilt: Option<PreparedIntentView>,
)
    requires
        prepared_accept_model(request, rows, rebuilt) is Ok,
    ensures
        ({
            let (intent, capsule) = prepared_accept_model(request, rows, rebuilt)->Ok_0;
            let payload = rows.payload@;
            &&& intent.id == rows.replay@.result_reference->Some_0
            &&& intent.payload_digest == rows.intent@.payload_digest
            &&& intent.classification == rows.intent@.classification
            &&& intent.expires_at == rows.intent@.expires_at
            &&& payload.created_id is Some && payload.created_classification is Some
            &&& payload.subject is Some && payload.details is Some
            &&& payload.intended_owner_id is Some && payload.due_at is Some
            &&& match intent.operation {
                PreparedOperationView::AcceptActionRequest {
                    request_id,
                    request_version,
                    action_id,
                    action_classification,
                    action_subject,
                    commitment_details,
                    intended_owner,
                    intended_due_at,
                } => {
                    &&& request_id == request.id
                    &&& request_version == rows.command_expected_version
                    &&& Some(action_id) == payload.created_id
                    &&& Some(action_classification) == payload.created_classification
                    &&& Some(action_subject) == payload.subject
                    &&& Some(commitment_details) == payload.details
                    &&& Some(intended_owner) == payload.intended_owner_id
                    &&& Some(intended_due_at) == payload.due_at
                },
                _ => false,
            }
            &&& capsule.idempotency_id == rows.idempotency_id@
            &&& capsule.operation_ordinal == rows.replay@.operation_ordinal
            &&& capsule.command == CommandView::PrepareAccept {
                request_id: request.id,
                expected_version: rows.command_expected_version as u64,
            }
            &&& capsule.result == ResultView::Prepared(intent)
        }),
{
}

} // verus!
