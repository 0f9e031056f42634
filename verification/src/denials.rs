//! Decoding a completion, cancellation or reopening that was denied when
//! it was prepared: the command as it was given, the denial cause, the
//! recorded error, and the one effect-free audit event on the Action.

use vstd::prelude::*;
use crate::approvals::is_action_transition;
use crate::causes::ActionPersistenceH3DenialCause;
use crate::ledger::{action_ids_distinct, action_index, find_action};
use crate::load_error::ActionPersistenceLoadError;
use crate::model::{
    ActionRecord, ActionView, HumanJudgment, HumanJudgmentView, PreparedIntentKind,
    TransitionDetails, TransitionDetailsView, action_views,
};
use crate::states::ActionReopenMode;
use crate::terminal_errors::{
    decode_terminal_error, terminal_error_model, ErrorExtensionRow, ErrorParamRow, TerminalError,
    TerminalErrorView,
};
use crate::terminal_executions::TerminalAuditRow;
use crate::text::{clone_opt_string, opt_string, str_eq};

verus! {

/// Every row the store keeps for one denied preparation: the command's
/// key, correlation and ordinal; the command's columns (a completion's
/// optional human judgment, a cancellation's or reopening's reason and a
/// reopening's mode); the replay row's denial cause and error columns; the
/// error's parameter and extension rows; and the audit event it links.
#[derive(Debug)]
pub struct PrepareDenialRows {
    pub idempotency_id: String,
    pub correlation_id: String,
    pub ordinal: i64,
    pub action_id: String,
    pub expected_version: i64,
    pub judgment_disposition: Option<String>,
    pub judgment_actor: Option<String>,
    pub judgment_rationale: Option<String>,
    pub judgment_classification: Option<String>,
    pub reason: Option<String>,
    pub mode: Option<String>,
    pub terminal_h3_cause: Option<String>,
    pub error_code: Option<String>,
    pub error_message_key: Option<String>,
    pub error_correlation_id: Option<String>,
    pub error_retryable: Option<i64>,
    pub private_detail_ref: Option<String>,
    pub error_params: Vec<ErrorParamRow>,
    pub error_extensions: Vec<ErrorExtensionRow>,
    pub audit: TerminalAuditRow,
}

/// A decoded denied preparation: which change of which Action at which
/// version was asked for (with a reopening's mode), why it was denied, the
/// recorded error, and the audit event.
#[derive(Debug)]
pub struct PrepareDenial {
    pub kind: PreparedIntentKind,
    pub action_id: String,
    pub expected_version: u64,
    pub mode: Option<ActionReopenMode>,
    pub cause: ActionPersistenceH3DenialCause,
    pub error: TerminalError,
    pub audit_id: String,
    pub occurred_at: i64,
    pub event_code: String,
}

pub struct PrepareDenialView {
    pub kind: PreparedIntentKind,
    pub action_id: Seq<char>,
    pub expected_version: u64,
    pub mode: Option<ActionReopenMode>,
    pub cause: ActionPersistenceH3DenialCause,
    pub error: TerminalErrorView,
    pub audit_id: Seq<char>,
    pub occurred_at: i64,
    pub event_code: Seq<char>,
}

impl Clone for PrepareDenial {
    fn clone(&self) -> (copy: Self)
        ensures
            copy@ == self@,
    {
        PrepareDenial {
            kind: self.kind,
            action_id: self.action_id.clone(),
            expected_version: self.expected_version,
            mode: self.mode,
            cause: self.cause,
            error: self.error.clone(),
            audit_id: self.audit_id.clone(),
            occurred_at: self.occurred_at,
            event_code: self.event_code.clone(),
        }
    }
}

impl View for PrepareDenial {
    type V = PrepareDenialView;

    open spec fn view(&self) -> PrepareDenialView {
        PrepareDenialView {
            kind: self.kind,
            action_id: self.action_id@,
            expected_version: self.expected_version,
            mode: self.mode,
            cause: self.cause,
            error: self.error@,
            audit_id: self.audit_id@,
            occurred_at: self.occurred_at,
            event_code: self.event_code@,
        }
    }
}

/// Whether a completion's human-judgment columns are consistent: a
/// disposition, where there is one, is to proceed with a documented
/// rationale; an actor, where there is one, is the Head of Products; and
/// the disposition, rationale and classification are all present or all
/// absent.
pub open spec fn judgment_ok(rows: PrepareDenialRows) -> bool {
    let disposition = opt_string(rows.judgment_disposition);
    let actor = opt_string(rows.judgment_actor);
    &&& (disposition is None || disposition == Some("proceed_with_documented_rationale"@))
    &&& (actor is None || actor == Some("head_of_products"@))
    &&& (rows.judgment_disposition is Some) == (rows.judgment_rationale is Some)
    &&& (rows.judgment_disposition is Some) == (rows.judgment_classification is Some)
}

/// The reopening mode the rows name, if any.
pub open spec fn denial_mode(rows: PrepareDenialRows) -> Option<ActionReopenMode> {
    match opt_string(rows.mode) {
        Some(text) => ActionReopenMode::decoded(text),
        None => None,
    }
}

/// Whether the command columns are those of a preparation of `kind`: a
/// positive version; for a completion, consistent judgment columns; for a
/// cancellation, a reason; for a reopening, a reason and a known mode.
pub open spec fn denial_command_ok(kind: PreparedIntentKind, rows: PrepareDenialRows) -> bool {
    &&& rows.expected_version >= 1
    &&& if kind == PreparedIntentKind::CompleteAction {
        judgment_ok(rows)
    } else if kind == PreparedIntentKind::CancelAction {
        rows.reason is Some
    } else {
        rows.reason is Some && denial_mode(rows) is Some
    }
}

/// The error the denial's rows record.
pub open spec fn denial_error(rows: PrepareDenialRows) -> Result<
    TerminalErrorView,
    ActionPersistenceLoadError,
> {
    terminal_error_model(
        opt_string(rows.error_code),
        opt_string(rows.error_message_key),
        opt_string(rows.error_correlation_id),
        rows.error_retryable,
        opt_string(rows.private_detail_ref),
        rows.error_params@,
        rows.error_extensions@,
    )
}

/// The denial cause the rows name, if any.
pub open spec fn denial_cause(rows: PrepareDenialRows) -> Option<ActionPersistenceH3DenialCause> {
    match opt_string(rows.terminal_h3_cause) {
        Some(text) => ActionPersistenceH3DenialCause::decoded(text),
        None => None,
    }
}

/// What the rows of a denied preparation of `kind` give: the decoded
/// denial; an invalid snapshot where the ordinal is negative, the command
/// columns are malformed, the Action is not among the decoded ones, the
/// cause or the error does not decode, or the audit event is not the
/// denial's own (the first the command links, on the Action, under the
/// command's correlation, without effects).
pub open spec fn prepare_denial_model(
    kind: PreparedIntentKind,
    actions: Seq<ActionView>,
    rows: PrepareDenialRows,
) -> Result<PrepareDenialView, ActionPersistenceLoadError> {
    if rows.ordinal >= 0 && denial_command_ok(kind, rows) && action_index(actions, rows.action_id@)
        is Some && denial_cause(rows) is Some && denial_error(rows) is Ok && rows.audit.link_ordinal
        == 0 && rows.audit.correlation_id@ == rows.correlation_id@ && rows.audit.target_type@
        == "action"@ && rows.audit.target_id@ == rows.action_id@ && rows.audit.effect_count == 0 {
        Ok(
            PrepareDenialView {
                kind,
                action_id: rows.action_id@,
                expected_version: rows.expected_version as u64,
                mode: if kind == PreparedIntentKind::ReopenAction {
                    denial_mode(rows)
                } else {
                    None
                },
                cause: denial_cause(rows)->Some_0,
                error: denial_error(rows)->Ok_0,
                audit_id: rows.audit.id@,
                occurred_at: rows.audit.occurred_at,
                event_code: rows.audit.event_code@,
            },
        )
    } else {
        Err(ActionPersistenceLoadError::InvalidActionSnapshot)
    }
}

pub open spec fn denial_result_view(result: Result<PrepareDenial, ActionPersistenceLoadError>) -> Result<
    PrepareDenialView,
    ActionPersistenceLoadError,
> {
    match result {
        Ok(denial) => Ok(denial@),
        Err(error) => Err(error),
    }
}

fn check_judgment(rows: &PrepareDenialRows) -> (ok: bool)
    ensures
        ok == judgment_ok(*rows),
{
    let disposition_ok = match &rows.judgment_disposition {
        Some(text) => str_eq(text.as_str(), "proceed_with_documented_rationale"),
        None => true,
    };
    let actor_ok = match &rows.judgment_actor {
        Some(text) => str_eq(text.as_str(), "head_of_products"),
        None => true,
    };
    disposition_ok && actor_ok && rows.judgment_disposition.is_some()
        == rows.judgment_rationale.is_some() && rows.judgment_disposition.is_some()
        == rows.judgment_classification.is_some()
}

fn decode_mode(rows: &PrepareDenialRows) -> (mode: Option<ActionReopenMode>)
    ensures
        mode == denial_mode(*rows),
{
    match &rows.mode {
        Some(text) => match ActionReopenMode::from_persisted(text.as_str()) {
            Ok(mode) => Some(mode),
            Err(_) => None,
        },
        None => None,
    }
}

/// What the command row of a denied preparation of `kind` records beside
/// its Action and version: the judgment of a completion where it has one,
/// the reason of a cancellation, the reason and mode of a reopening.
pub open spec fn denial_details(kind: PreparedIntentKind, rows: PrepareDenialRows) -> TransitionDetailsView {
    if kind == PreparedIntentKind::CompleteAction {
        TransitionDetailsView {
            reason: None,
            mode: None,
            judgment: match (rows.judgment_rationale, rows.judgment_classification) {
                (Some(rationale), Some(classification)) => Some(
                    HumanJudgmentView { rationale: rationale@, classification: classification@ },
                ),
                _ => None,
            },
        }
    } else if kind == PreparedIntentKind::CancelAction {
        TransitionDetailsView { reason: opt_string(rows.reason), mode: None, judgment: None }
    } else {
        TransitionDetailsView { reason: opt_string(rows.reason), mode: denial_mode(rows), judgment: None }
    }
}

/// Builds the details `denial_details` describes.
pub fn denial_details_of(kind: PreparedIntentKind, rows: &PrepareDenialRows) -> (details: TransitionDetails)
    ensures
        details@ == denial_details(kind, *rows),
{
    match kind {
        PreparedIntentKind::CompleteAction => TransitionDetails {
            reason: None,
            mode: None,
            judgment: match (&rows.judgment_rationale, &rows.judgment_classification) {
                (Some(rationale), Some(classification)) => Some(
                    HumanJudgment { rationale: rationale.clone(), classification: classification.clone() },
                ),
                _ => None,
            },
        },
        PreparedIntentKind::CancelAction => TransitionDetails {
            reason: clone_opt_string(&rows.reason),
            mode: None,
            judgment: None,
        },
        _ => TransitionDetails {
            reason: clone_opt_string(&rows.reason),
            mode: decode_mode(rows),
            judgment: None,
        },
    }
}

/// Decodes one denied preparation of `kind` from its rows, against the
/// Actions decoded so far.
pub fn decode_prepare_denial(
    kind: PreparedIntentKind,
    actions: &Vec<ActionRecord>,
    rows: PrepareDenialRows,
) -> (result: Result<PrepareDenial, ActionPersistenceLoadError>)
    requires
        is_action_transition(kind),
        action_ids_distinct(action_views(actions@)),
    ensures
        denial_result_view(result) == prepare_denial_model(kind, action_views(actions@), rows),
{
    let mode = decode_mode(&rows);
    let command_ok = rows.expected_version >= 1 && match kind {
        PreparedIntentKind::CompleteAction => check_judgment(&rows),
        PreparedIntentKind::CancelAction => rows.reason.is_some(),
        _ => rows.reason.is_some() && mode.is_some(),
    };
    if !(rows.ordinal >= 0 && command_ok) {
        return Err(ActionPersistenceLoadError::InvalidActionSnapshot);
    }
    if find_action(actions, &rows.action_id).is_none() {
        return Err(ActionPersistenceLoadError::InvalidActionSnapshot);
    }
    let cause = match &rows.terminal_h3_cause {
        Some(text) => match ActionPersistenceH3DenialCause::from_persisted(text.as_str()) {
            Ok(cause) => cause,
            Err(error) => {
                return Err(error);
            },
        },
        None => {
            return Err(ActionPersistenceLoadError::InvalidActionSnapshot);
        },
    };
    let audit = &rows.audit;
    if !(audit.link_ordinal == 0 && str_eq(audit.correlation_id.as_str(), rows.correlation_id.as_str())
        && str_eq(audit.target_type.as_str(), "action") && str_eq(
        audit.target_id.as_str(),
        rows.action_id.as_str(),
    ) && audit.effect_count == 0) {
        return Err(ActionPersistenceLoadError::InvalidActionSnapshot);
    }
    let error = match decode_terminal_error(
        rows.error_code,
        rows.error_message_key,
        rows.error_correlation_id,
        rows.error_retryable,
        rows.private_detail_ref,
        &rows.error_params,
        &rows.error_extensions,
    ) {
        Ok(error) => error,
        Err(error) => {
            return Err(error);
        },
    };
    Ok(
        PrepareDenial {
            kind,
            action_id: rows.action_id,
            expected_version: rows.expected_version as u64,
            mode: match kind {
                PreparedIntentKind::ReopenAction => mode,
                _ => None,
            },
            cause,
            error,
            audit_id: rows.audit.id,
            occurred_at: rows.audit.occurred_at,
            event_code: rows.audit.event_code,
        },
    )
}

/// A decoded denied preparation keeps its rows: it is of the kind asked
/// for, on the command row's Action (one of the decoded Actions) at the
/// command row's version, which is positive; a reopening carries the mode
/// its row names and any other change none; its audit event is the one
/// the rows link, with that event's id, instant and code, on that Action
/// and under the command's correlation.
pub proof fn lemma_decoded_denial_keeps_its_rows(
    kind: PreparedIntentKind,
    actions: Seq<ActionView>,
    rows: PrepareDenialRows,
)
    requires
        prepare_denial_model(kind, actions, rows) is Ok,
    ensures
        ({
            let denial = prepare_denial_model(kind, actions, rows)->Ok_0;
            &&& denial.kind == kind
            &&& denial.action_id == rows.action_id@
            &&& action_index(actions, rows.action_id@) is Some
            &&& rows.expected_version >= 1
            &&& denial.expected_version == rows.expected_version
            &&& denial.mode == if kind == PreparedIntentKind::ReopenAction {
                match rows.mode {
                    Some(text) => ActionReopenMode::decoded(text@),
                    None => None,
                }
            } else {
                None
            }
            &&& kind == PreparedIntentKind::ReopenAction ==> denial.mode is Some
            &&& denial.audit_id == rows.audit.id@
            &&& denial.occurred_at == rows.audit.occurred_at
            &&& denial.event_code == rows.audit.event_code@
            &&& rows.audit.target_id@ == rows.action_id@
            &&& rows.audit.correlation_id@ == rows.correlation_id@
        }),
{
}

/// The details of a denied preparation are its command row's: a
/// completion's judgment is the row's rationale and classification where
/// it has both, and it has no reason or mode; a cancellation's reason is
/// the row's; a reopening's reason and mode are the row's.
pub proof fn lemma_denial_details_are_its_rows(kind: PreparedIntentKind, rows: PrepareDenialRows)
    requires
        is_action_transition(kind),
    ensures
        ({
            let details = denial_details(kind, rows);
            &&& kind == PreparedIntentKind::CompleteAction ==> {
                &&& details.reason is None
                &&& details.mode is None
                &&& (rows.judgment_rationale is Some && rows.judgment_classification is Some)
                    ==> details.judgment == Some(
                    HumanJudgmentView {
                        rationale: rows.judgment_rationale->Some_0@,
                        classification: rows.judgment_classification->Some_0@,
                    },
                )
                &&& (rows.judgment_rationale is None || rows.judgment_classification is None)
                    ==> details.judgment is None
            }
            &&& kind == PreparedIntentKind::CancelAction ==> {
                &&& details.reason == opt_string(rows.reason)
                &&& details.mode is None
                &&& details.judgment is None
            }
            &&& kind == PreparedIntentKind::ReopenAction ==> {
                &&& details.reason == opt_string(rows.reason)
                &&& details.mode == match rows.mode {
                    Some(text) => ActionReopenMode::decoded(text@),
                    None => None,
                }
                &&& details.judgment is None
            }
        }),
{
}

} // verus!
