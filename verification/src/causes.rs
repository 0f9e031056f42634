//! Why a recorded operation ended without effect, and the text each
//! cause is persisted as.

use vstd::prelude::*;
use crate::load_error::ActionPersistenceLoadError;
use crate::text::{opt_text, str_eq};

verus! {

/// Why a Complete, Cancel or Reopen preview was denied when it was
/// prepared.
#[derive(Clone, Copy, Debug, PartialEq, Eq, Structural)]
pub enum ActionPersistenceH3DenialCause {
    MissingCompletionEvidence,
    CompletionEvidenceNotFound,
    UnverifiedCompletionEvidence,
    UnclassifiedCompletionEvidence,
    EvidenceUnavailable,
    ClassificationUnresolved,
}

/// Why an executed operation ended in a durable terminal outcome.
#[derive(Debug, PartialEq, Eq)]
pub enum ActionPersistenceTerminalCause {
    NotFound,
    AlreadyExists,
    IllegalTransition,
    StaleVersion,
    MissingOwner,
    MissingDueDate,
    InvalidEvidence,
    InvalidReopenMode,
    IdempotencyConflict,
    PreparedIntentNotFound,
    PreparedIntentChanged,
    Unauthorized,
    DigestMismatch { attempted_digest: String },
    Expired,
    PolicyDenied,
    InfrastructureFailure,
    H3Denied(ActionPersistenceH3DenialCause),
}

impl ActionPersistenceH3DenialCause {
    /// The text this cause is persisted as.
    pub open spec fn persisted(self) -> Seq<char> {
        match self {
            ActionPersistenceH3DenialCause::MissingCompletionEvidence => "missing_completion_evidence"@,
            ActionPersistenceH3DenialCause::CompletionEvidenceNotFound => "completion_evidence_not_found"@,
            ActionPersistenceH3DenialCause::UnverifiedCompletionEvidence => "unverified_completion_evidence"@,
            ActionPersistenceH3DenialCause::UnclassifiedCompletionEvidence => "unclassified_completion_evidence"@,
            ActionPersistenceH3DenialCause::EvidenceUnavailable => "evidence_unavailable"@,
            ActionPersistenceH3DenialCause::ClassificationUnresolved => "classification_unresolved"@,
        }
    }

    /// The cause persisted as `text`, if any.
    pub open spec fn decoded(text: Seq<char>) -> Option<Self> {
        if text == "missing_completion_evidence"@ {
            Some(ActionPersistenceH3DenialCause::MissingCompletionEvidence)
        } else if text == "completion_evidence_not_found"@ {
            Some(ActionPersistenceH3DenialCause::CompletionEvidenceNotFound)
        } else if text == "unverified_completion_evidence"@ {
            Some(ActionPersistenceH3DenialCause::UnverifiedCompletionEvidence)
        } else if text == "unclassified_completion_evidence"@ {
            Some(ActionPersistenceH3DenialCause::UnclassifiedCompletionEvidence)
        } else if text == "evidence_unavailable"@ {
            Some(ActionPersistenceH3DenialCause::EvidenceUnavailable)
        } else if text == "classification_unresolved"@ {
            Some(ActionPersistenceH3DenialCause::ClassificationUnresolved)
        } else {
            None
        }
    }

    pub fn as_persisted(&self) -> (text: &'static str)
        ensures
            text@ == self.persisted(),
    {
        match self {
            ActionPersistenceH3DenialCause::MissingCompletionEvidence => "missing_completion_evidence",
            ActionPersistenceH3DenialCause::CompletionEvidenceNotFound => "completion_evidence_not_found",
            ActionPersistenceH3DenialCause::UnverifiedCompletionEvidence => "unverified_completion_evidence",
            ActionPersistenceH3DenialCause::UnclassifiedCompletionEvidence => "unclassified_completion_evidence",
            ActionPersistenceH3DenialCause::EvidenceUnavailable => "evidence_unavailable",
            ActionPersistenceH3DenialCause::ClassificationUnresolved => "classification_unresolved",
        }
    }

    /// Reads a persisted denial cause; any other text is an invalid
    /// snapshot.
    pub fn from_persisted(text: &str) -> (result: Result<Self, ActionPersistenceLoadError>)
        ensures
            result == match Self::decoded(text@) {
                Some(cause) => Ok(cause),
                None => Err(ActionPersistenceLoadError::InvalidActionSnapshot),
            },
    {
        if str_eq(text, "missing_completion_evidence") {
            Ok(ActionPersistenceH3DenialCause::MissingCompletionEvidence)
        } else if str_eq(text, "completion_evidence_not_found") {
            Ok(ActionPersistenceH3DenialCause::CompletionEvidenceNotFound)
        } else if str_eq(text, "unverified_completion_evidence") {
            Ok(ActionPersistenceH3DenialCause::UnverifiedCompletionEvidence)
        } else if str_eq(text, "unclassified_completion_evidence") {
            Ok(ActionPersistenceH3DenialCause::UnclassifiedCompletionEvidence)
        } else if str_eq(text, "evidence_unavailable") {
            Ok(ActionPersistenceH3DenialCause::EvidenceUnavailable)
        } else if str_eq(text, "classification_unresolved") {
            Ok(ActionPersistenceH3DenialCause::ClassificationUnresolved)
        } else {
            Err(ActionPersistenceLoadError::InvalidActionSnapshot)
        }
    }
}

impl Clone for ActionPersistenceTerminalCause {
    fn clone(&self) -> (result: Self)
        ensures
            result == *self,
    {
        match self {
            ActionPersistenceTerminalCause::NotFound => ActionPersistenceTerminalCause::NotFound,
            ActionPersistenceTerminalCause::AlreadyExists => ActionPersistenceTerminalCause::AlreadyExists,
            ActionPersistenceTerminalCause::IllegalTransition => ActionPersistenceTerminalCause::IllegalTransition,
            ActionPersistenceTerminalCause::StaleVersion => ActionPersistenceTerminalCause::StaleVersion,
            ActionPersistenceTerminalCause::MissingOwner => ActionPersistenceTerminalCause::MissingOwner,
            ActionPersistenceTerminalCause::MissingDueDate => ActionPersistenceTerminalCause::MissingDueDate,
            ActionPersistenceTerminalCause::InvalidEvidence => ActionPersistenceTerminalCause::InvalidEvidence,
            ActionPersistenceTerminalCause::InvalidReopenMode => ActionPersistenceTerminalCause::InvalidReopenMode,
            ActionPersistenceTerminalCause::IdempotencyConflict => ActionPersistenceTerminalCause::IdempotencyConflict,
            ActionPersistenceTerminalCause::PreparedIntentNotFound => ActionPersistenceTerminalCause::PreparedIntentNotFound,
            ActionPersistenceTerminalCause::PreparedIntentChanged => ActionPersistenceTerminalCause::PreparedIntentChanged,
            ActionPersistenceTerminalCause::Unauthorized => ActionPersistenceTerminalCause::Unauthorized,
            ActionPersistenceTerminalCause::Expired => ActionPersistenceTerminalCause::Expired,
            ActionPersistenceTerminalCause::PolicyDenied => ActionPersistenceTerminalCause::PolicyDenied,
            ActionPersistenceTerminalCause::InfrastructureFailure => ActionPersistenceTerminalCause::InfrastructureFailure,
            ActionPersistenceTerminalCause::DigestMismatch { attempted_digest } => ActionPersistenceTerminalCause::DigestMismatch {
                attempted_digest: attempted_digest.clone(),
            },
            ActionPersistenceTerminalCause::H3Denied(cause) => ActionPersistenceTerminalCause::H3Denied(*cause),
        }
    }
}

impl ActionPersistenceTerminalCause {
    /// The text the cause's name is persisted as; a prepare-time denial has
    /// no execute-time name.
    pub open spec fn persisted_name(self) -> Option<Seq<char>> {
        match self {
            ActionPersistenceTerminalCause::NotFound => Some("not_found"@),
            ActionPersistenceTerminalCause::AlreadyExists => Some("already_exists"@),
            ActionPersistenceTerminalCause::IllegalTransition => Some("illegal_transition"@),
            ActionPersistenceTerminalCause::StaleVersion => Some("stale_version"@),
            ActionPersistenceTerminalCause::MissingOwner => Some("missing_owner"@),
            ActionPersistenceTerminalCause::MissingDueDate => Some("missing_due_date"@),
            ActionPersistenceTerminalCause::InvalidEvidence => Some("invalid_evidence"@),
            ActionPersistenceTerminalCause::InvalidReopenMode => Some("invalid_reopen_mode"@),
            ActionPersistenceTerminalCause::IdempotencyConflict => Some("idempotency_conflict"@),
            ActionPersistenceTerminalCause::PreparedIntentNotFound => Some("prepared_intent_not_found"@),
            ActionPersistenceTerminalCause::PreparedIntentChanged => Some("prepared_intent_changed"@),
            ActionPersistenceTerminalCause::Unauthorized => Some("unauthorized"@),
            ActionPersistenceTerminalCause::Expired => Some("expired"@),
            ActionPersistenceTerminalCause::PolicyDenied => Some("policy_denied"@),
            ActionPersistenceTerminalCause::InfrastructureFailure => Some("infrastructure_failure"@),
            ActionPersistenceTerminalCause::DigestMismatch { .. } => Some("digest_mismatch"@),
            ActionPersistenceTerminalCause::H3Denied(_) => None,
        }
    }

    /// The attempted digest persisted beside the name: only a digest
    /// mismatch carries one.
    pub open spec fn persisted_attempted(self) -> Option<Seq<char>> {
        match self {
            ActionPersistenceTerminalCause::DigestMismatch { attempted_digest } => Some(
                attempted_digest@,
            ),
            _ => None,
        }
    }

    /// The cause without a payload whose name is `name`, if any.
    pub open spec fn decoded_plain(name: Seq<char>) -> Option<Self> {
        if name == "not_found"@ {
            Some(ActionPersistenceTerminalCause::NotFound)
        } else if name == "already_exists"@ {
            Some(ActionPersistenceTerminalCause::AlreadyExists)
        } else if name == "illegal_transition"@ {
            Some(ActionPersistenceTerminalCause::IllegalTransition)
        } else if name == "stale_version"@ {
            Some(ActionPersistenceTerminalCause::StaleVersion)
        } else if name == "missing_owner"@ {
            Some(ActionPersistenceTerminalCause::MissingOwner)
        } else if name == "missing_due_date"@ {
            Some(ActionPersistenceTerminalCause::MissingDueDate)
        } else if name == "invalid_evidence"@ {
            Some(ActionPersistenceTerminalCause::InvalidEvidence)
        } else if name == "invalid_reopen_mode"@ {
            Some(ActionPersistenceTerminalCause::InvalidReopenMode)
        } else if name == "idempotency_conflict"@ {
            Some(ActionPersistenceTerminalCause::IdempotencyConflict)
        } else if name == "prepared_intent_not_found"@ {
            Some(ActionPersistenceTerminalCause::PreparedIntentNotFound)
        } else if name == "prepared_intent_changed"@ {
            Some(ActionPersistenceTerminalCause::PreparedIntentChanged)
        } else if name == "unauthorized"@ {
            Some(ActionPersistenceTerminalCause::Unauthorized)
        } else if name == "expired"@ {
            Some(ActionPersistenceTerminalCause::Expired)
        } else if name == "policy_denied"@ {
            Some(ActionPersistenceTerminalCause::PolicyDenied)
        } else if name == "infrastructure_failure"@ {
            Some(ActionPersistenceTerminalCause::InfrastructureFailure)
        } else {
            None
        }
    }

    /// Whether a persisted name and attempted digest read as a cause: a
    /// digest mismatch needs its attempted digest, every other cause must
    /// have none.
    pub open spec fn decodable(name: Option<Seq<char>>, attempted: Option<Seq<char>>) -> bool {
        match name {
            Some(n) => (n == "digest_mismatch"@ && attempted is Some) || (attempted is None
                && Self::decoded_plain(n) is Some),
            None => false,
        }
    }

    /// Whether `cause` is what the persisted name and attempted digest read
    /// as.
    pub open spec fn decodes_to(
        name: Option<Seq<char>>,
        attempted: Option<Seq<char>>,
        cause: Self,
    ) -> bool {
        &&& cause !is H3Denied
        &&& name == cause.persisted_name()
        &&& attempted == cause.persisted_attempted()
    }

    /// Persists a cause as its name and, for a digest mismatch, the
    /// attempted digest.  A prepare-time denial has no execute-time form.
    pub fn persisted_terminal_cause<'a>(&'a self) -> (result: Result<(&'static str, Option<&'a str>), ()>)
        ensures
            result is Err <==> self is H3Denied,
            result matches Ok((name, attempted)) ==> Some(name@) == self.persisted_name()
                && opt_text(attempted) == self.persisted_attempted(),
    {
        match self {
            ActionPersistenceTerminalCause::NotFound => Ok(("not_found", None)),
            ActionPersistenceTerminalCause::AlreadyExists => Ok(("already_exists", None)),
            ActionPersistenceTerminalCause::IllegalTransition => Ok(("illegal_transition", None)),
            ActionPersistenceTerminalCause::StaleVersion => Ok(("stale_version", None)),
            ActionPersistenceTerminalCause::MissingOwner => Ok(("missing_owner", None)),
            ActionPersistenceTerminalCause::MissingDueDate => Ok(("missing_due_date", None)),
            ActionPersistenceTerminalCause::InvalidEvidence => Ok(("invalid_evidence", None)),
            ActionPersistenceTerminalCause::InvalidReopenMode => Ok(("invalid_reopen_mode", None)),
            ActionPersistenceTerminalCause::IdempotencyConflict => Ok(("idempotency_conflict", None)),
            ActionPersistenceTerminalCause::PreparedIntentNotFound => Ok(("prepared_intent_not_found", None)),
            ActionPersistenceTerminalCause::PreparedIntentChanged => Ok(("prepared_intent_changed", None)),
            ActionPersistenceTerminalCause::Unauthorized => Ok(("unauthorized", None)),
            ActionPersistenceTerminalCause::Expired => Ok(("expired", None)),
            ActionPersistenceTerminalCause::PolicyDenied => Ok(("policy_denied", None)),
            ActionPersistenceTerminalCause::InfrastructureFailure => Ok(("infrastructure_failure", None)),
            ActionPersistenceTerminalCause::DigestMismatch { attempted_digest } => Ok(
                ("digest_mismatch", Some(attempted_digest.as_str())),
            ),
            ActionPersistenceTerminalCause::H3Denied(_) => Err(()),
        }
    }

    /// Reads a persisted execute-time cause.  Text that names no cause, a
    /// digest mismatch without its attempted digest, or an attempted digest
    /// beside any other cause is an invalid snapshot.
    pub fn decode_terminal_cause(name: Option<&str>, attempted: Option<&str>) -> (result: Result<
        Self,
        ActionPersistenceLoadError,
    >)
        ensures
            result is Ok <==> Self::decodable(opt_text(name), opt_text(attempted)),
            result matches Ok(cause) ==> Self::decodes_to(opt_text(name), opt_text(attempted), cause),
            result matches Err(error) ==> error == ActionPersistenceLoadError::InvalidActionSnapshot,
    {
        proof {
            lemma_terminal_cause_names_distinct();
        }
        let name = match name {
            Some(n) => n,
            None => {
                return Err(ActionPersistenceLoadError::InvalidActionSnapshot);
            },
        };
        if str_eq(name, "digest_mismatch") {
            return match attempted {
                Some(digest) => Ok(ActionPersistenceTerminalCause::DigestMismatch { attempted_digest: digest.to_owned() }),
                None => Err(ActionPersistenceLoadError::InvalidActionSnapshot),
            };
        }
        if attempted.is_some() {
            return Err(ActionPersistenceLoadError::InvalidActionSnapshot);
        }
        if str_eq(name, "not_found") {
            Ok(ActionPersistenceTerminalCause::NotFound)
        } else if str_eq(name, "already_exists") {
            Ok(ActionPersistenceTerminalCause::AlreadyExists)
        } else if str_eq(name, "illegal_transition") {
            Ok(ActionPersistenceTerminalCause::IllegalTransition)
        } else if str_eq(name, "stale_version") {
            Ok(ActionPersistenceTerminalCause::StaleVersion)
        } else if str_eq(name, "missing_owner") {
            Ok(ActionPersistenceTerminalCause::MissingOwner)
        } else if str_eq(name, "missing_due_date") {
            Ok(ActionPersistenceTerminalCause::MissingDueDate)
        } else if str_eq(name, "invalid_evidence") {
            Ok(ActionPersistenceTerminalCause::InvalidEvidence)
        } else if str_eq(name, "invalid_reopen_mode") {
            Ok(ActionPersistenceTerminalCause::InvalidReopenMode)
        } else if str_eq(name, "idempotency_conflict") {
            Ok(ActionPersistenceTerminalCause::IdempotencyConflict)
        } else if str_eq(name, "prepared_intent_not_found") {
            Ok(ActionPersistenceTerminalCause::PreparedIntentNotFound)
        } else if str_eq(name, "prepared_intent_changed") {
            Ok(ActionPersistenceTerminalCause::PreparedIntentChanged)
        } else if str_eq(name, "unauthorized") {
            Ok(ActionPersistenceTerminalCause::Unauthorized)
        } else if str_eq(name, "expired") {
            Ok(ActionPersistenceTerminalCause::Expired)
        } else if str_eq(name, "policy_denied") {
            Ok(ActionPersistenceTerminalCause::PolicyDenied)
        } else if str_eq(name, "infrastructure_failure") {
            Ok(ActionPersistenceTerminalCause::InfrastructureFailure)
        } else {
            Err(ActionPersistenceLoadError::InvalidActionSnapshot)
        }
    }
}

/// The names causes are persisted under are pairwise different.
proof fn lemma_terminal_cause_names_distinct()
    ensures
        "already_exists"@ != "not_found"@,
        "illegal_transition"@ != "not_found"@,
        "illegal_transition"@ != "already_exists"@,
        "stale_version"@ != "not_found"@,
        "stale_version"@ != "already_exists"@,
        "stale_version"@ != "illegal_transition"@,
        "missing_owner"@ != "not_found"@,
        "missing_owner"@ != "already_exists"@,
        "missing_owner"@ != "illegal_transition"@,
        "missing_owner"@ != "stale_version"@,
        "missing_due_date"@ != "not_found"@,
        "missing_due_date"@ != "already_exists"@,
        "missing_due_date"@ != "illegal_transition"@,
        "missing_due_date"@ != "stale_version"@,
        "missing_due_date"@ != "missing_owner"@,
        "invalid_evidence"@ != "not_found"@,
        "invalid_evidence"@ != "already_exists"@,
        "invalid_evidence"@ != "illegal_transition"@,
        "invalid_evidence"@ != "stale_version"@,
        "invalid_evidence"@ != "missing_owner"@,
        "invalid_evidence"@ != "missing_due_date"@,
        "invalid_reopen_mode"@ != "not_found"@,
        "invalid_reopen_mode"@ != "already_exists"@,
        "invalid_reopen_mode"@ != "illegal_transition"@,
        "invalid_reopen_mode"@ != "stale_version"@,
        "invalid_reopen_mode"@ != "missing_owner"@,
        "invalid_reopen_mode"@ != "missing_due_date"@,
        "invalid_reopen_mode"@ != "invalid_evidence"@,
        "idempotency_conflict"@ != "not_found"@,
        "idempotency_conflict"@ != "already_exists"@,
        "idempotency_conflict"@ != "illegal_transition"@,
        "idempotency_conflict"@ != "stale_version"@,
        "idempotency_conflict"@ != "missing_owner"@,
        "idempotency_conflict"@ != "missing_due_date"@,
        "idempotency_conflict"@ != "invalid_evidence"@,
        "idempotency_conflict"@ != "invalid_reopen_mode"@,
        "prepared_intent_not_found"@ != "not_found"@,
        "prepared_intent_not_found"@ != "already_exists"@,
        "prepared_intent_not_found"@ != "illegal_transition"@,
        "prepared_intent_not_found"@ != "stale_version"@,
        "prepared_intent_not_found"@ != "missing_owner"@,
        "prepared_intent_not_found"@ != "missing_due_date"@,
        "prepared_intent_not_found"@ != "invalid_evidence"@,
        "prepared_intent_not_found"@ != "invalid_reopen_mode"@,
        "prepared_intent_not_found"@ != "idempotency_conflict"@,
        "prepared_intent_changed"@ != "not_found"@,
        "prepared_intent_changed"@ != "already_exists"@,
        "prepared_intent_changed"@ != "illegal_transition"@,
        "prepared_intent_changed"@ != "stale_version"@,
        "prepared_intent_changed"@ != "missing_owner"@,
        "prepared_intent_changed"@ != "missing_due_date"@,
        "prepared_intent_changed"@ != "invalid_evidence"@,
        "prepared_intent_changed"@ != "invalid_reopen_mode"@,
        "prepared_intent_changed"@ != "idempotency_conflict"@,
        "prepared_intent_changed"@ != "prepared_intent_not_found"@,
        "unauthorized"@ != "not_found"@,
        "unauthorized"@ != "already_exists"@,
        "unauthorized"@ != "illegal_transition"@,
        "unauthorized"@ != "stale_version"@,
        "unauthorized"@ != "missing_owner"@,
        "unauthorized"@ != "missing_due_date"@,
        "unauthorized"@ != "invalid_evidence"@,
        "unauthorized"@ != "invalid_reopen_mode"@,
        "unauthorized"@ != "idempotency_conflict"@,
        "unauthorized"@ != "prepared_intent_not_found"@,
        "unauthorized"@ != "prepared_intent_changed"@,
        "expired"@ != "not_found"@,
        "expired"@ != "already_exists"@,
        "expired"@ != "illegal_transition"@,
        "expired"@ != "stale_version"@,
        "expired"@ != "missing_owner"@,
        "expired"@ != "missing_due_date"@,
        "expired"@ != "invalid_evidence"@,
        "expired"@ != "invalid_reopen_mode"@,
        "expired"@ != "idempotency_conflict"@,
        "expired"@ != "prepared_intent_not_found"@,
        "expired"@ != "prepared_intent_changed"@,
        "expired"@ != "unauthorized"@,
        "policy_denied"@ != "not_found"@,
        "policy_denied"@ != "already_exists"@,
        "policy_denied"@ != "illegal_transition"@,
        "policy_denied"@ != "stale_version"@,
        "policy_denied"@ != "missing_owner"@,
        "policy_denied"@ != "missing_due_date"@,
        "policy_denied"@ != "invalid_evidence"@,
        "policy_denied"@ != "invalid_reopen_mode"@,
        "policy_denied"@ != "idempotency_conflict"@,
        "policy_denied"@ != "prepared_intent_not_found"@,
        "policy_denied"@ != "prepared_intent_changed"@,
        "policy_denied"@ != "unauthorized"@,
        "policy_denied"@ != "expired"@,
        "infrastructure_failure"@ != "not_found"@,
        "infrastructure_failure"@ != "already_exists"@,
        "infrastructure_failure"@ != "illegal_transition"@,
        "infrastructure_failure"@ != "stale_version"@,
        "infrastructure_failure"@ != "missing_owner"@,
        "infrastructure_failure"@ != "missing_due_date"@,
        "infrastructure_failure"@ != "invalid_evidence"@,
        "infrastructure_failure"@ != "invalid_reopen_mode"@,
        "infrastructure_failure"@ != "idempotency_conflict"@,
        "infrastructure_failure"@ != "prepared_intent_not_found"@,
        "infrastructure_failure"@ != "prepared_intent_changed"@,
        "infrastructure_failure"@ != "unauthorized"@,
        "infrastructure_failure"@ != "expired"@,
        "infrastructure_failure"@ != "policy_denied"@,
        "digest_mismatch"@ != "not_found"@,
        "digest_mismatch"@ != "already_exists"@,
        "digest_mismatch"@ != "illegal_transition"@,
        "digest_mismatch"@ != "stale_version"@,
        "digest_mismatch"@ != "missing_owner"@,
        "digest_mismatch"@ != "missing_due_date"@,
        "digest_mismatch"@ != "invalid_evidence"@,
        "digest_mismatch"@ != "invalid_reopen_mode"@,
        "digest_mismatch"@ != "idempotency_conflict"@,
        "digest_mismatch"@ != "prepared_intent_not_found"@,
        "digest_mismatch"@ != "prepared_intent_changed"@,
        "digest_mismatch"@ != "unauthorized"@,
        "digest_mismatch"@ != "expired"@,
        "digest_mismatch"@ != "policy_denied"@,
        "digest_mismatch"@ != "infrastructure_failure"@,
{
    reveal_strlit("not_found");
    reveal_strlit("already_exists");
    reveal_strlit("illegal_transition");
    reveal_strlit("stale_version");
    reveal_strlit("missing_owner");
    reveal_strlit("missing_due_date");
    reveal_strlit("invalid_evidence");
    reveal_strlit("invalid_reopen_mode");
    reveal_strlit("idempotency_conflict");
    reveal_strlit("prepared_intent_not_found");
    reveal_strlit("prepared_intent_changed");
    reveal_strlit("unauthorized");
    reveal_strlit("expired");
    reveal_strlit("policy_denied");
    reveal_strlit("infrastructure_failure");
    reveal_strlit("digest_mismatch");
    assert("not_found"@.len() == 9);
    assert("already_exists"@.len() == 14);
    assert("illegal_transition"@.len() == 18);
    assert("stale_version"@.len() == 13);
    assert("missing_owner"@.len() == 13);
    assert("missing_due_date"@.len() == 16);
    assert("invalid_evidence"@.len() == 16);
    assert("invalid_reopen_mode"@.len() == 19);
    assert("idempotency_conflict"@.len() == 20);
    assert("prepared_intent_not_found"@.len() == 25);
    assert("prepared_intent_changed"@.len() == 23);
    assert("unauthorized"@.len() == 12);
    assert("expired"@.len() == 7);
    assert("policy_denied"@.len() == 13);
    assert("infrastructure_failure"@.len() == 22);
    assert("digest_mismatch"@.len() == 15);
    assert("missing_owner"@[0] != "stale_version"@[0]);
    assert("invalid_evidence"@[0] != "missing_due_date"@[0]);
    assert("policy_denied"@[0] != "stale_version"@[0]);
    assert("policy_denied"@[0] != "missing_owner"@[0]);
}

/// Reading back the text a denial cause is persisted as gives that cause,
/// and text that reads as a cause is exactly that cause's text.
pub proof fn lemma_h3_denial_cause_text_round_trip(cause: ActionPersistenceH3DenialCause, text: Seq<char>)
    ensures
        ActionPersistenceH3DenialCause::decoded(cause.persisted()) == Some(cause),
        ActionPersistenceH3DenialCause::decoded(text) matches Some(decoded) ==> decoded.persisted()
            == text,
{
    reveal_strlit("missing_completion_evidence");
    reveal_strlit("completion_evidence_not_found");
    reveal_strlit("unverified_completion_evidence");
    reveal_strlit("unclassified_completion_evidence");
    reveal_strlit("evidence_unavailable");
    reveal_strlit("classification_unresolved");
    assert("missing_completion_evidence"@.len() == 27);
    assert("completion_evidence_not_found"@.len() == 29);
    assert("unverified_completion_evidence"@.len() == 30);
    assert("unclassified_completion_evidence"@.len() == 32);
    assert("evidence_unavailable"@.len() == 20);
    assert("classification_unresolved"@.len() == 25);
}

/// Every execute-time cause reads back from what it is persisted as, and
/// what a persisted name and attempted digest read as is determined by
/// them: two causes read from the same text have the same name and the same
/// attempted digest.
pub proof fn lemma_terminal_cause_text_round_trip(
    cause: ActionPersistenceTerminalCause,
    other: ActionPersistenceTerminalCause,
    name: Option<Seq<char>>,
    attempted: Option<Seq<char>>,
)
    ensures
        cause !is H3Denied ==> ActionPersistenceTerminalCause::decodable(cause.persisted_name(), cause.persisted_attempted())
            && ActionPersistenceTerminalCause::decodes_to(cause.persisted_name(), cause.persisted_attempted(), cause),
        ActionPersistenceTerminalCause::decodes_to(name, attempted, cause) && ActionPersistenceTerminalCause::decodes_to(name, attempted, other)
            ==> cause.persisted_name() == other.persisted_name()
            && cause.persisted_attempted() == other.persisted_attempted(),
        ActionPersistenceTerminalCause::decodes_to(name, attempted, cause) ==> ActionPersistenceTerminalCause::decodable(name, attempted),
{
    lemma_terminal_cause_names_distinct();
}

} // verus!
