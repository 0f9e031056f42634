//! Decoding a refused approval: the rows an execution leaves when the
//! approval was refused (a wrong digest, an expired preview, a denied
//! policy and the like) instead of applied.  The refusal names its cause,
//! its recorded error, one effect-free audit event, and what became of the
//! preview: kept for another try, or consumed and discarded with the
//! refusal.

use vstd::prelude::*;
use crate::action_events::change_target;
use crate::approvals::is_action_transition;
use crate::causes::ActionPersistenceTerminalCause;
use crate::load_error::ActionPersistenceLoadError;
use crate::model::{PreparedIntent, PreparedIntentView, PreparedOperation, PreparedOperationView};
use crate::terminal_errors::{
    decode_terminal_error, terminal_error_model, ErrorExtensionRow, ErrorParamRow, TerminalError,
    TerminalErrorView,
};
use crate::text::{opt_as_str, opt_string, str_eq};

verus! {

/// What a refused approval did to the preview it named.
#[derive(Clone, Copy, Debug, PartialEq, Eq, Structural)]
pub enum PreparedDisposition {
    Retained,
    ConsumedAndDiscarded,
}

impl PreparedDisposition {
    /// The disposition a refusal's persisted text names, if any.
    pub open spec fn decoded(text: Seq<char>) -> Option<PreparedDisposition> {
        if text == "retained"@ {
            Some(PreparedDisposition::Retained)
        } else if text == "consumed_and_discarded"@ {
            Some(PreparedDisposition::ConsumedAndDiscarded)
        } else {
            None
        }
    }

    /// Reads a refusal's persisted disposition.
    pub fn from_persisted(text: &str) -> (disposition: Option<PreparedDisposition>)
        ensures
            disposition == Self::decoded(text@),
    {
        if str_eq(text, "retained") {
            Some(PreparedDisposition::Retained)
        } else if str_eq(text, "consumed_and_discarded") {
            Some(PreparedDisposition::ConsumedAndDiscarded)
        } else {
            None
        }
    }
}

/// The audit event a refusal links: its link row's place and correlation,
/// the event row, and how many effect rows it has.
#[derive(Debug)]
pub struct TerminalAuditRow {
    pub link_ordinal: i64,
    pub link_correlation_id: String,
    pub id: String,
    pub occurred_at: i64,
    pub actor: String,
    pub module: String,
    pub event_code: String,
    pub target_type: String,
    pub target_id: String,
    pub correlation_id: String,
    pub effect_scope: String,
    pub effect_count: i64,
}

/// Every row the store keeps for one refused approval: the command's key,
/// actor and acknowledged digest; the replay row's correlation, ordinal,
/// preview, disposition, cause and error columns; the error's parameter
/// and extension rows; its audit event; whether a discard row names the
/// preview under this key; and when the preview was consumed.
#[derive(Debug)]
pub struct ExecuteTerminalRows {
    pub idempotency_id: String,
    pub correlation_id: String,
    pub ordinal: i64,
    pub actor: String,
    pub acknowledged_digest: String,
    pub prepared_intent_id: Option<String>,
    pub prepared_disposition: String,
    pub terminal_cause: Option<String>,
    pub attempted_digest: Option<String>,
    pub error_code: Option<String>,
    pub error_message_key: Option<String>,
    pub error_correlation_id: Option<String>,
    pub error_retryable: Option<i64>,
    pub private_detail_ref: Option<String>,
    pub error_params: Vec<ErrorParamRow>,
    pub error_extensions: Vec<ErrorExtensionRow>,
    pub audit: TerminalAuditRow,
    pub discarded: bool,
    pub prepared_consumed_at: Option<i64>,
}

/// A decoded refusal: its cause, its error, what became of the preview,
/// and its audit event.
#[derive(Debug)]
pub struct ExecutedTerminal {
    pub cause: ActionPersistenceTerminalCause,
    pub error: TerminalError,
    pub disposition: PreparedDisposition,
    pub audit_id: String,
    pub occurred_at: i64,
    pub event_code: String,
}

pub struct ExecutedTerminalView {
    pub cause_name: Option<Seq<char>>,
    pub cause_attempted: Option<Seq<char>>,
    pub error: TerminalErrorView,
    pub disposition: PreparedDisposition,
    pub audit_id: Seq<char>,
    pub occurred_at: i64,
    pub event_code: Seq<char>,
}

impl Clone for ExecutedTerminal {
    fn clone(&self) -> (copy: Self)
        ensures
            copy@ == self@,
    {
        ExecutedTerminal {
            cause: self.cause.clone(),
            error: self.error.clone(),
            disposition: self.disposition,
            audit_id: self.audit_id.clone(),
            occurred_at: self.occurred_at,
            event_code: self.event_code.clone(),
        }
    }
}

impl View for ExecutedTerminal {
    type V = ExecutedTerminalView;

    open spec fn view(&self) -> ExecutedTerminalView {
        ExecutedTerminalView {
            cause_name: self.cause.persisted_name(),
            cause_attempted: self.cause.persisted_attempted(),
            error: self.error@,
            disposition: self.disposition,
            audit_id: self.audit_id@,
            occurred_at: self.occurred_at,
            event_code: self.event_code@,
        }
    }
}

/// The error the refusal's rows record.
pub open spec fn rows_error(rows: ExecuteTerminalRows) -> Result<
    TerminalErrorView,
    ActionPersistenceLoadError,
> {
    terminal_error_model(
        opt_string(rows.error_code),
        opt_string(rows.error_message_key),
        opt_string(rows.error_correlation_id),
        rows.error_retryable,
        opt_string(rows.private_detail_ref),
        rows.error_params@,
        rows.error_extensions@,
    )
}

/// Whether the preview's rows agree with the disposition: a discarded
/// preview has its discard row and was consumed when the refusal was
/// audited; a kept one has neither.
pub open spec fn disposition_consistent(
    rows: ExecuteTerminalRows,
    disposition: PreparedDisposition,
) -> bool {
    match disposition {
        PreparedDisposition::ConsumedAndDiscarded => rows.discarded && rows.prepared_consumed_at
            == Some(rows.audit.occurred_at),
        PreparedDisposition::Retained => !rows.discarded && rows.prepared_consumed_at is None,
    }
}

/// What every refused approval's rows must show: the Head of Products
/// acted; the ordinal is not negative; the disposition and cause decode;
/// the cause is a digest mismatch exactly when the acknowledged digest is
/// not the preview's; the error decodes; the audit event is the first the
/// command links and has no effect; and the preview's rows agree with the
/// disposition.
pub open spec fn terminal_rows_ok(rows: ExecuteTerminalRows, prepared: PreparedIntentView) -> bool {
    let disposition = PreparedDisposition::decoded(rows.prepared_disposition@);
    &&& rows.actor@ == "head_of_products"@
    &&& rows.ordinal >= 0
    &&& disposition is Some
    &&& ActionPersistenceTerminalCause::decodable(
        opt_string(rows.terminal_cause),
        opt_string(rows.attempted_digest),
    )
    &&& (opt_string(rows.terminal_cause) == Some("digest_mismatch"@)) == (rows.acknowledged_digest@
        != prepared.payload_digest)
    &&& rows_error(rows) is Ok
    &&& rows.audit.link_ordinal == 0
    &&& rows.audit.effect_count == 0
    &&& disposition_consistent(rows, disposition->Some_0)
}

/// The decoded refusal the rows give, where they are valid: its cause as
/// persisted, its error, disposition and audit event.
pub open spec fn executed_terminal_view(rows: ExecuteTerminalRows) -> ExecutedTerminalView {
    ExecutedTerminalView {
        cause_name: opt_string(rows.terminal_cause),
        cause_attempted: opt_string(rows.attempted_digest),
        error: rows_error(rows)->Ok_0,
        disposition: PreparedDisposition::decoded(rows.prepared_disposition@)->Some_0,
        audit_id: rows.audit.id@,
        occurred_at: rows.audit.occurred_at,
        event_code: rows.audit.event_code@,
    }
}

/// Whether the rows are a valid refused approval of `prepared`, the
/// acceptance of the request `request_id`: beyond what every refusal
/// shows, the replay row names the preview, a changed preview is exactly
/// what keeps it, and the audit event is the Head of Products' in work
/// management, not before the epoch, on the request, under the command's
/// correlation and without effect scope.
pub open spec fn accept_terminal_ok(
    request_id: Seq<char>,
    prepared: PreparedIntentView,
    rows: ExecuteTerminalRows,
) -> bool {
    let audit = rows.audit;
    &&& terminal_rows_ok(rows, prepared)
    &&& opt_string(rows.prepared_intent_id) == Some(prepared.id)
    &&& (opt_string(rows.terminal_cause) == Some("prepared_intent_changed"@))
        == (PreparedDisposition::decoded(rows.prepared_disposition@) == Some(
        PreparedDisposition::Retained,
    ))
    &&& audit.link_correlation_id@ == rows.correlation_id@
    &&& audit.occurred_at >= 0
    &&& audit.actor@ == "head_of_products"@
    &&& audit.module@ == "work_management"@
    &&& audit.target_type@ == "action_request"@
    &&& audit.target_id@ == request_id
    &&& audit.correlation_id@ == rows.correlation_id@
    &&& audit.effect_scope@ == "none"@
}

/// Whether the rows are a valid refused approval of `prepared`, a
/// completion, cancellation or reopening: beyond what every refusal shows,
/// the audit event is on the Action the preview names, under the command's
/// correlation.
pub open spec fn action_terminal_ok(prepared: PreparedIntentView, rows: ExecuteTerminalRows) -> bool {
    &&& terminal_rows_ok(rows, prepared)
    &&& is_action_transition(prepared.operation.kind())
    &&& rows.audit.correlation_id@ == rows.correlation_id@
    &&& rows.audit.target_type@ == "action"@
    &&& rows.audit.target_id@ == change_target(prepared.operation).0
}

fn decode_common(
    prepared: &PreparedIntent,
    rows: ExecuteTerminalRows,
) -> (result: Result<ExecutedTerminal, ActionPersistenceLoadError>)
    ensures
        result is Ok <==> terminal_rows_ok(rows, prepared@),
        result matches Ok(terminal) ==> terminal@ == executed_terminal_view(rows)
            && ActionPersistenceTerminalCause::decodes_to(
            opt_string(rows.terminal_cause),
            opt_string(rows.attempted_digest),
            terminal.cause,
        ),
        result matches Err(error) ==> error == ActionPersistenceLoadError::InvalidActionSnapshot,
{
    let disposition = match PreparedDisposition::from_persisted(rows.prepared_disposition.as_str()) {
        Some(disposition) => disposition,
        None => {
            return Err(ActionPersistenceLoadError::InvalidActionSnapshot);
        },
    };
    if !(str_eq(rows.actor.as_str(), "head_of_products") && rows.ordinal >= 0) {
        return Err(ActionPersistenceLoadError::InvalidActionSnapshot);
    }
    let cause = match ActionPersistenceTerminalCause::decode_terminal_cause(
        opt_as_str(&rows.terminal_cause),
        opt_as_str(&rows.attempted_digest),
    ) {
        Ok(cause) => cause,
        Err(error) => {
            return Err(error);
        },
    };
    let mismatch = match &rows.terminal_cause {
        Some(name) => str_eq(name.as_str(), "digest_mismatch"),
        None => false,
    };
    let digest_matches = str_eq(rows.acknowledged_digest.as_str(), prepared.payload_digest.as_str());
    if mismatch == digest_matches {
        return Err(ActionPersistenceLoadError::InvalidActionSnapshot);
    }
    let consistent = match disposition {
        PreparedDisposition::ConsumedAndDiscarded => rows.discarded && rows.prepared_consumed_at
            == Some(rows.audit.occurred_at),
        PreparedDisposition::Retained => !rows.discarded && rows.prepared_consumed_at.is_none(),
    };
    if !(rows.audit.link_ordinal == 0 && rows.audit.effect_count == 0 && consistent) {
        return Err(ActionPersistenceLoadError::InvalidActionSnapshot);
    }
    let error = match decode_terminal_error(
        rows.error_code,
        rows.error_message_key,
        rows.error_correlation_id,
        rows.error_retryable,
        rows.private_detail_ref,
        &rows.error_params,
        &rows.error_extensions,
    ) {
        Ok(error) => error,
        Err(error) => {
            return Err(error);
        },
    };
    Ok(
        ExecutedTerminal {
            cause,
            error,
            disposition,
            audit_id: rows.audit.id,
            occurred_at: rows.audit.occurred_at,
            event_code: rows.audit.event_code,
        },
    )
}

/// Decodes the refused approval of `prepared`, the acceptance of the
/// request `request_id`, from its rows.
pub fn decode_execute_accept_terminal(
    request_id: &String,
    prepared: &PreparedIntent,
    rows: ExecuteTerminalRows,
) -> (result: Result<ExecutedTerminal, ActionPersistenceLoadError>)
    ensures
        result is Ok <==> accept_terminal_ok(request_id@, prepared@, rows),
        result matches Ok(terminal) ==> terminal@ == executed_terminal_view(rows)
            && ActionPersistenceTerminalCause::decodes_to(
            opt_string(rows.terminal_cause),
            opt_string(rows.attempted_digest),
            terminal.cause,
        ),
        result matches Err(error) ==> error == ActionPersistenceLoadError::InvalidActionSnapshot,
{
    let names_preview = match &rows.prepared_intent_id {
        Some(id) => str_eq(id.as_str(), prepared.id.as_str()),
        None => false,
    };
    let changed = match &rows.terminal_cause {
        Some(name) => str_eq(name.as_str(), "prepared_intent_changed"),
        None => false,
    };
    let retained = str_eq(rows.prepared_disposition.as_str(), "retained");
    let audit = &rows.audit;
    if !(names_preview && changed == retained && str_eq(
        audit.link_correlation_id.as_str(),
        rows.correlation_id.as_str(),
    ) && audit.occurred_at >= 0 && str_eq(audit.actor.as_str(), "head_of_products") && str_eq(
        audit.module.as_str(),
        "work_management",
    ) && str_eq(audit.target_type.as_str(), "action_request") && str_eq(
        audit.target_id.as_str(),
        request_id.as_str(),
    ) && str_eq(audit.correlation_id.as_str(), rows.correlation_id.as_str()) && str_eq(
        audit.effect_scope.as_str(),
        "none",
    )) {
        return Err(ActionPersistenceLoadError::InvalidActionSnapshot);
    }
    decode_common(prepared, rows)
}

/// Decodes the refused approval of `prepared`, a completion, cancellation
/// or reopening, from its rows.
pub fn decode_execute_action_terminal(
    prepared: &PreparedIntent,
    rows: ExecuteTerminalRows,
) -> (result: Result<ExecutedTerminal, ActionPersistenceLoadError>)
    ensures
        result is Ok <==> action_terminal_ok(prepared@, rows),
        result matches Ok(terminal) ==> terminal@ == executed_terminal_view(rows)
            && ActionPersistenceTerminalCause::decodes_to(
            opt_string(rows.terminal_cause),
            opt_string(rows.attempted_digest),
            terminal.cause,
        ),
        result matches Err(error) ==> error == ActionPersistenceLoadError::InvalidActionSnapshot,
{
    let target = match &prepared.operation {
        PreparedOperation::CompleteAction { action_id, .. } => action_id,
        PreparedOperation::CancelAction { action_id, .. } => action_id,
        PreparedOperation::ReopenAction { action_id, .. } => action_id,
        _ => {
            return Err(ActionPersistenceLoadError::InvalidActionSnapshot);
        },
    };
    let audit = &rows.audit;
    if !(str_eq(audit.correlation_id.as_str(), rows.correlation_id.as_str()) && str_eq(
        audit.target_type.as_str(),
        "action",
    ) && str_eq(audit.target_id.as_str(), target.as_str())) {
        return Err(ActionPersistenceLoadError::InvalidActionSnapshot);
    }
    decode_common(prepared, rows)
}

/// What every valid refused approval decodes to: the Head of Products
/// refused it; the decoded refusal carries the rows' audit event (its id,
/// instant and code) and their cause as persisted; the cause is a digest
/// mismatch exactly when the acknowledged digest is not the preview's; and
/// the preview was discarded, with a discard row and consumed at the
/// refusal's instant, exactly when the decoded disposition says so, and
/// otherwise kept with neither.
pub proof fn lemma_refused_approval_keeps_its_rows(rows: ExecuteTerminalRows, prepared: PreparedIntentView)
    requires
        terminal_rows_ok(rows, prepared),
    ensures
        ({
            let decoded = executed_terminal_view(rows);
            &&& rows.actor@ == "head_of_products"@
            &&& decoded.audit_id == rows.audit.id@
            &&& decoded.occurred_at == rows.audit.occurred_at
            &&& decoded.event_code == rows.audit.event_code@
            &&& decoded.cause_name == opt_string(rows.terminal_cause)
            &&& decoded.cause_attempted == opt_string(rows.attempted_digest)
            &&& (decoded.cause_name == Some("digest_mismatch"@)) == (rows.acknowledged_digest@
                != prepared.payload_digest)
            &&& (decoded.disposition == PreparedDisposition::ConsumedAndDiscarded) == rows.discarded
            &&& rows.discarded ==> rows.prepared_consumed_at == Some(rows.audit.occurred_at)
            &&& !rows.discarded ==> rows.prepared_consumed_at is None
        }),
{
}

/// A valid refused approval of an acceptance is of that preview and is
/// audited on the request it accepts: the replay row names the preview,
/// the audit event is on the request `request_id` under the command's
/// correlation, and the preview was kept exactly when the refusal's cause
/// is that the preview changed.
pub proof fn lemma_refused_acceptance_is_audited_on_its_request(
    request_id: Seq<char>,
    prepared: PreparedIntentView,
    rows: ExecuteTerminalRows,
)
    requires
        accept_terminal_ok(request_id, prepared, rows),
    ensures
        ({
            let decoded = executed_terminal_view(rows);
            &&& opt_string(rows.prepared_intent_id) == Some(prepared.id)
            &&& rows.audit.target_type@ == "action_request"@
            &&& rows.audit.target_id@ == request_id
            &&& rows.audit.correlation_id@ == rows.correlation_id@
            &&& (decoded.cause_name == Some("prepared_intent_changed"@)) == (decoded.disposition
                == PreparedDisposition::Retained)
        }),
{
}

/// A valid refused approval of a completion, cancellation or reopening is
/// audited on the Action its preview names, under the command's
/// correlation.
pub proof fn lemma_refused_change_is_audited_on_its_action(
    prepared: PreparedIntentView,
    rows: ExecuteTerminalRows,
)
    requires
        action_terminal_ok(prepared, rows),
    ensures
        rows.audit.target_type@ == "action"@,
        rows.audit.correlation_id@ == rows.correlation_id@,
        match prepared.operation {
            PreparedOperationView::CompleteAction { action_id, .. } => rows.audit.target_id@
                == action_id,
            PreparedOperationView::CancelAction { action_id, .. } => rows.audit.target_id@
                == action_id,
            PreparedOperationView::ReopenAction { action_id, .. } => rows.audit.target_id@
                == action_id,
            _ => false,
        },
{
}

} // verus!
