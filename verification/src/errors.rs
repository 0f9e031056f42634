//! The domain errors the adapter answers a refused command with.

use vstd::prelude::*;
use crate::states::ActionRequestState;
use crate::text::str_eq;

verus! {

/// The idempotency key and correlation every Action command carries.
#[derive(Debug)]
pub struct ActionOperationContext {
    pub idempotency_id: String,
    pub correlation_id: String,
}

/// The stable error codes of the domain.
#[derive(Clone, Copy, Debug, PartialEq, Eq, Structural)]
pub enum ErrorCode {
    ValidationInvalidField,
    DomainConflict,
    DomainNotFound,
    SecurityPolicyDenied,
    AiPolicyDenied,
    SecurityPreviewExpiredOrChanged,
    DomainIdempotencyConflict,
    PlatformInternal,
}

impl ErrorCode {
    /// The text this code is persisted as.
    pub open spec fn persisted(self) -> Seq<char> {
        match self {
            ErrorCode::ValidationInvalidField => "VALIDATION_INVALID_FIELD"@,
            ErrorCode::DomainConflict => "DOMAIN_CONFLICT"@,
            ErrorCode::DomainNotFound => "DOMAIN_NOT_FOUND"@,
            ErrorCode::SecurityPolicyDenied => "SECURITY_POLICY_DENIED"@,
            ErrorCode::AiPolicyDenied => "AI_POLICY_DENIED"@,
            ErrorCode::SecurityPreviewExpiredOrChanged => "SECURITY_PREVIEW_EXPIRED_OR_CHANGED"@,
            ErrorCode::DomainIdempotencyConflict => "DOMAIN_IDEMPOTENCY_CONFLICT"@,
            ErrorCode::PlatformInternal => "PLATFORM_INTERNAL"@,
        }
    }

    /// The code persisted as `text`, if any.
    pub open spec fn decoded(text: Seq<char>) -> Option<ErrorCode> {
        if text == "VALIDATION_INVALID_FIELD"@ {
            Some(ErrorCode::ValidationInvalidField)
        } else if text == "DOMAIN_CONFLICT"@ {
            Some(ErrorCode::DomainConflict)
        } else if text == "DOMAIN_NOT_FOUND"@ {
            Some(ErrorCode::DomainNotFound)
        } else if text == "SECURITY_POLICY_DENIED"@ {
            Some(ErrorCode::SecurityPolicyDenied)
        } else if text == "AI_POLICY_DENIED"@ {
            Some(ErrorCode::AiPolicyDenied)
        } else if text == "SECURITY_PREVIEW_EXPIRED_OR_CHANGED"@ {
            Some(ErrorCode::SecurityPreviewExpiredOrChanged)
        } else if text == "DOMAIN_IDEMPOTENCY_CONFLICT"@ {
            Some(ErrorCode::DomainIdempotencyConflict)
        } else if text == "PLATFORM_INTERNAL"@ {
            Some(ErrorCode::PlatformInternal)
        } else {
            None
        }
    }

    pub fn as_persisted(self) -> (text: &'static str)
        ensures
            text@ == self.persisted(),
    {
        match self {
            ErrorCode::ValidationInvalidField => "VALIDATION_INVALID_FIELD",
            ErrorCode::DomainConflict => "DOMAIN_CONFLICT",
            ErrorCode::DomainNotFound => "DOMAIN_NOT_FOUND",
            ErrorCode::SecurityPolicyDenied => "SECURITY_POLICY_DENIED",
            ErrorCode::AiPolicyDenied => "AI_POLICY_DENIED",
            ErrorCode::SecurityPreviewExpiredOrChanged => "SECURITY_PREVIEW_EXPIRED_OR_CHANGED",
            ErrorCode::DomainIdempotencyConflict => "DOMAIN_IDEMPOTENCY_CONFLICT",
            ErrorCode::PlatformInternal => "PLATFORM_INTERNAL",
        }
    }

    /// Reads a persisted code; any other text is an invalid snapshot.
    pub fn from_persisted(text: &str) -> (result: Option<ErrorCode>)
        ensures
            result == Self::decoded(text@),
    {
        if str_eq(text, "VALIDATION_INVALID_FIELD") {
            Some(ErrorCode::ValidationInvalidField)
        } else if str_eq(text, "DOMAIN_CONFLICT") {
            Some(ErrorCode::DomainConflict)
        } else if str_eq(text, "DOMAIN_NOT_FOUND") {
            Some(ErrorCode::DomainNotFound)
        } else if str_eq(text, "SECURITY_POLICY_DENIED") {
            Some(ErrorCode::SecurityPolicyDenied)
        } else if str_eq(text, "AI_POLICY_DENIED") {
            Some(ErrorCode::AiPolicyDenied)
        } else if str_eq(text, "SECURITY_PREVIEW_EXPIRED_OR_CHANGED") {
            Some(ErrorCode::SecurityPreviewExpiredOrChanged)
        } else if str_eq(text, "DOMAIN_IDEMPOTENCY_CONFLICT") {
            Some(ErrorCode::DomainIdempotencyConflict)
        } else if str_eq(text, "PLATFORM_INTERNAL") {
            Some(ErrorCode::PlatformInternal)
        } else {
            None
        }
    }
}

/// Which refusal an error reports.
#[derive(Clone, Copy, Debug, PartialEq, Eq, Structural)]
pub enum DomainErrorKind {
    /// Storage failed or held something it should not: retryable.
    Persistence,
    /// The idempotency key was already used for something else.
    IdempotencyConflict,
    /// An Action Request with the new id already exists.
    AlreadyExists,
    /// The target Action or Action Request does not exist.
    NotFound,
    /// The Evidence Reference to link does not exist.
    EvidenceNotFound,
    /// The evidence is already linked to the Action.
    CompletionEvidenceAlreadyLinked,
    /// The target is not in the state or at the version the command needs.
    TransitionConflict,
}

/// A next intent the caller may still send for an Action Request.
#[derive(Clone, Copy, Debug, PartialEq, Eq, Structural)]
pub enum NextIntent {
    SubmitActionRequest,
    PrepareAcceptActionRequest,
    DeclineActionRequest,
    WithdrawActionRequest,
}

/// A refusal, with the correlation of the command it refuses.  A
/// transition conflict also reports the target's current version and, for
/// an Action Request, its current state and the intents still allowed from
/// it, in order (the parameters `current_state` and
/// `allowed_next_intent_1`, `_2`, ... of the message).
#[derive(Debug)]
pub struct DomainError {
    pub kind: DomainErrorKind,
    pub correlation_id: String,
    pub current_version: Option<u64>,
    pub current_state: Option<ActionRequestState>,
    pub allowed_next_intents: Vec<NextIntent>,
}

impl DomainErrorKind {
    pub open spec fn spec_code(self) -> ErrorCode {
        match self {
            DomainErrorKind::Persistence => ErrorCode::PlatformInternal,
            DomainErrorKind::IdempotencyConflict => ErrorCode::DomainIdempotencyConflict,
            DomainErrorKind::AlreadyExists => ErrorCode::DomainConflict,
            DomainErrorKind::NotFound => ErrorCode::DomainNotFound,
            DomainErrorKind::EvidenceNotFound => ErrorCode::DomainNotFound,
            DomainErrorKind::CompletionEvidenceAlreadyLinked => ErrorCode::DomainConflict,
            DomainErrorKind::TransitionConflict => ErrorCode::DomainConflict,
        }
    }

    pub open spec fn spec_message_key(self) -> Seq<char> {
        match self {
            DomainErrorKind::Persistence => "ledger.persistence_failed"@,
            DomainErrorKind::IdempotencyConflict => "ledger.idempotency_conflict"@,
            DomainErrorKind::AlreadyExists => "action_request.already_exists"@,
            DomainErrorKind::NotFound => "action.not_found"@,
            DomainErrorKind::EvidenceNotFound => "evidence_reference.not_found"@,
            DomainErrorKind::CompletionEvidenceAlreadyLinked => "action.completion_evidence_already_linked"@,
            DomainErrorKind::TransitionConflict => "action.domain_conflict"@,
        }
    }

    /// The error code this refusal is reported under.
    #[verifier::when_used_as_spec(spec_code)]
    pub fn code(self) -> (code: ErrorCode)
        ensures
            code == self.spec_code(),
    {
        match self {
            DomainErrorKind::Persistence => ErrorCode::PlatformInternal,
            DomainErrorKind::IdempotencyConflict => ErrorCode::DomainIdempotencyConflict,
            DomainErrorKind::AlreadyExists => ErrorCode::DomainConflict,
            DomainErrorKind::NotFound => ErrorCode::DomainNotFound,
            DomainErrorKind::EvidenceNotFound => ErrorCode::DomainNotFound,
            DomainErrorKind::CompletionEvidenceAlreadyLinked => ErrorCode::DomainConflict,
            DomainErrorKind::TransitionConflict => ErrorCode::DomainConflict,
        }
    }

    /// The message key of this refusal.
    pub fn message_key(self) -> (key: &'static str)
        ensures
            key@ == self.spec_message_key(),
    {
        match self {
            DomainErrorKind::Persistence => "ledger.persistence_failed",
            DomainErrorKind::IdempotencyConflict => "ledger.idempotency_conflict",
            DomainErrorKind::AlreadyExists => "action_request.already_exists",
            DomainErrorKind::NotFound => "action.not_found",
            DomainErrorKind::EvidenceNotFound => "evidence_reference.not_found",
            DomainErrorKind::CompletionEvidenceAlreadyLinked => "action.completion_evidence_already_linked",
            DomainErrorKind::TransitionConflict => "action.domain_conflict",
        }
    }

    /// Only a storage failure may succeed when retried.
    pub fn retryable(self) -> (retryable: bool)
        ensures
            retryable == (self == DomainErrorKind::Persistence),
    {
        match self {
            DomainErrorKind::Persistence => true,
            _ => false,
        }
    }
}

impl NextIntent {
    pub open spec fn spec_name(self) -> Seq<char> {
        match self {
            NextIntent::SubmitActionRequest => "submit_action_request"@,
            NextIntent::PrepareAcceptActionRequest => "prepare_accept_action_request"@,
            NextIntent::DeclineActionRequest => "decline_action_request"@,
            NextIntent::WithdrawActionRequest => "withdraw_action_request"@,
        }
    }

    /// The field key this intent is reported under.
    pub fn name(self) -> (name: &'static str)
        ensures
            name@ == self.spec_name(),
    {
        match self {
            NextIntent::SubmitActionRequest => "submit_action_request",
            NextIntent::PrepareAcceptActionRequest => "prepare_accept_action_request",
            NextIntent::DeclineActionRequest => "decline_action_request",
            NextIntent::WithdrawActionRequest => "withdraw_action_request",
        }
    }
}

/// The intents an Action Request in `state` still allows, in the order
/// they are reported: a draft may be submitted; an open request may be
/// prepared for acceptance, declined or withdrawn; nothing leaves a
/// terminal state.
pub open spec fn allowed_next_intents(state: ActionRequestState) -> Seq<NextIntent> {
    match state {
        ActionRequestState::Draft => seq![NextIntent::SubmitActionRequest],
        ActionRequestState::Open => seq![
            NextIntent::PrepareAcceptActionRequest,
            NextIntent::DeclineActionRequest,
            NextIntent::WithdrawActionRequest,
        ],
        _ => seq![],
    }
}

pub struct DomainErrorView {
    pub kind: DomainErrorKind,
    pub correlation_id: Seq<char>,
    pub current_version: Option<u64>,
    pub current_state: Option<ActionRequestState>,
    pub allowed_next_intents: Seq<NextIntent>,
}

impl View for DomainError {
    type V = DomainErrorView;

    open spec fn view(&self) -> DomainErrorView {
        DomainErrorView {
            kind: self.kind,
            correlation_id: self.correlation_id@,
            current_version: self.current_version,
            current_state: self.current_state,
            allowed_next_intents: self.allowed_next_intents@,
        }
    }
}

/// A plain refusal of `kind` for the command with correlation
/// `correlation`: no version, state or next intents.
pub open spec fn plain_error_view(kind: DomainErrorKind, correlation: Seq<char>) -> DomainErrorView {
    DomainErrorView {
        kind,
        correlation_id: correlation,
        current_version: None,
        current_state: None,
        allowed_next_intents: Seq::<NextIntent>::empty(),
    }
}

/// The transition conflict reported for an Action Request at `version` in
/// `state`.
pub open spec fn request_conflict_view(
    correlation: Seq<char>,
    version: u64,
    state: ActionRequestState,
) -> DomainErrorView {
    DomainErrorView {
        kind: DomainErrorKind::TransitionConflict,
        correlation_id: correlation,
        current_version: Some(version),
        current_state: Some(state),
        allowed_next_intents: allowed_next_intents(state),
    }
}

/// The transition conflict reported for an Action at `version`.
pub open spec fn action_conflict_view(correlation: Seq<char>, version: u64) -> DomainErrorView {
    DomainErrorView {
        kind: DomainErrorKind::TransitionConflict,
        correlation_id: correlation,
        current_version: Some(version),
        current_state: None,
        allowed_next_intents: Seq::<NextIntent>::empty(),
    }
}

/// Reading back the text an error code is persisted as gives that code,
/// and text that reads as a code is exactly that code's text.
pub proof fn lemma_error_code_text_round_trip(code: ErrorCode, text: Seq<char>)
    ensures
        ErrorCode::decoded(code.persisted()) == Some(code),
        ErrorCode::decoded(text) matches Some(decoded) ==> decoded.persisted() == text,
{
    reveal_strlit("VALIDATION_INVALID_FIELD");
    reveal_strlit("DOMAIN_CONFLICT");
    reveal_strlit("DOMAIN_NOT_FOUND");
    reveal_strlit("SECURITY_POLICY_DENIED");
    reveal_strlit("AI_POLICY_DENIED");
    reveal_strlit("SECURITY_PREVIEW_EXPIRED_OR_CHANGED");
    reveal_strlit("DOMAIN_IDEMPOTENCY_CONFLICT");
    reveal_strlit("PLATFORM_INTERNAL");
    assert("VALIDATION_INVALID_FIELD"@.len() == 24);
    assert("DOMAIN_CONFLICT"@.len() == 15);
    assert("DOMAIN_NOT_FOUND"@.len() == 16);
    assert("SECURITY_POLICY_DENIED"@.len() == 22);
    assert("AI_POLICY_DENIED"@.len() == 16);
    assert("SECURITY_PREVIEW_EXPIRED_OR_CHANGED"@.len() == 35);
    assert("DOMAIN_IDEMPOTENCY_CONFLICT"@.len() == 27);
    assert("PLATFORM_INTERNAL"@.len() == 17);
    assert("AI_POLICY_DENIED"@[0] != "DOMAIN_NOT_FOUND"@[0]);
}

impl Clone for DomainError {
    fn clone(&self) -> (copy: Self)
        ensures
            copy@ == self@,
    {
        let mut allowed: Vec<NextIntent> = Vec::new();
        let n = self.allowed_next_intents.len();
        let mut i: usize = 0;
        while i < n
            invariant
                n == self.allowed_next_intents@.len(),
                i <= n,
                allowed@ == self.allowed_next_intents@.take(i as int),
            decreases n - i,
        {
            allowed.push(self.allowed_next_intents[i]);
            proof {
                assert(self.allowed_next_intents@.take(i + 1) =~= self.allowed_next_intents@.take(
                    i as int,
                ).push(self.allowed_next_intents@[i as int]));
            }
            i = i + 1;
        }
        proof {
            assert(self.allowed_next_intents@.take(n as int) =~= self.allowed_next_intents@);
        }
        DomainError {
            kind: self.kind,
            correlation_id: self.correlation_id.clone(),
            current_version: self.current_version,
            current_state: self.current_state,
            allowed_next_intents: allowed,
        }
    }
}

impl DomainError {
    pub open spec fn is_plain(self, kind: DomainErrorKind, correlation: Seq<char>) -> bool {
        self@ == plain_error_view(kind, correlation)
    }

    pub open spec fn is_request_conflict(
        self,
        correlation: Seq<char>,
        version: u64,
        state: ActionRequestState,
    ) -> bool {
        self@ == request_conflict_view(correlation, version, state)
    }

    pub open spec fn is_action_conflict(self, correlation: Seq<char>, version: u64) -> bool {
        self@ == action_conflict_view(correlation, version)
    }
}

/// A plain refusal of `kind` for the command of `context`.
pub fn plain_error(context: &ActionOperationContext, kind: DomainErrorKind) -> (error: DomainError)
    ensures
        error.is_plain(kind, context.correlation_id@),
{
    DomainError {
        kind,
        correlation_id: context.correlation_id.clone(),
        current_version: None,
        current_state: None,
        allowed_next_intents: Vec::new(),
    }
}

/// Storage failed, or held rows that do not decode.
pub fn persistence_error(context: &ActionOperationContext) -> (error: DomainError)
    ensures
        error.is_plain(DomainErrorKind::Persistence, context.correlation_id@),
{
    plain_error(context, DomainErrorKind::Persistence)
}

/// The idempotency key was already used for a different command.
pub fn idempotency_conflict(context: &ActionOperationContext) -> (error: DomainError)
    ensures
        error.is_plain(DomainErrorKind::IdempotencyConflict, context.correlation_id@),
{
    plain_error(context, DomainErrorKind::IdempotencyConflict)
}

/// An Action Request with the new id already exists.
pub fn already_exists(context: &ActionOperationContext) -> (error: DomainError)
    ensures
        error.is_plain(DomainErrorKind::AlreadyExists, context.correlation_id@),
{
    plain_error(context, DomainErrorKind::AlreadyExists)
}

/// The target does not exist.
pub fn not_found(context: &ActionOperationContext) -> (error: DomainError)
    ensures
        error.is_plain(DomainErrorKind::NotFound, context.correlation_id@),
{
    plain_error(context, DomainErrorKind::NotFound)
}

/// The Evidence Reference does not exist.
pub fn evidence_not_found(context: &ActionOperationContext) -> (error: DomainError)
    ensures
        error.is_plain(DomainErrorKind::EvidenceNotFound, context.correlation_id@),
{
    plain_error(context, DomainErrorKind::EvidenceNotFound)
}

/// The evidence is already linked to the Action.
pub fn completion_evidence_already_linked(context: &ActionOperationContext) -> (error: DomainError)
    ensures
        error.is_plain(DomainErrorKind::CompletionEvidenceAlreadyLinked, context.correlation_id@),
{
    plain_error(context, DomainErrorKind::CompletionEvidenceAlreadyLinked)
}

/// The transition conflict for an Action Request at `version` in `state`:
/// it reports both, and the intents the state still allows.
pub fn request_transition_conflict(
    context: &ActionOperationContext,
    version: u64,
    state: ActionRequestState,
) -> (error: DomainError)
    ensures
        error.is_request_conflict(context.correlation_id@, version, state),
{
    let mut allowed: Vec<NextIntent> = Vec::new();
    match state {
        ActionRequestState::Draft => {
            allowed.push(NextIntent::SubmitActionRequest);
        },
        ActionRequestState::Open => {
            allowed.push(NextIntent::PrepareAcceptActionRequest);
            allowed.push(NextIntent::DeclineActionRequest);
            allowed.push(NextIntent::WithdrawActionRequest);
        },
        ActionRequestState::Accepted | ActionRequestState::Declined
        | ActionRequestState::Withdrawn => {},
    }
    assert(allowed@ =~= allowed_next_intents(state));
    DomainError {
        kind: DomainErrorKind::TransitionConflict,
        correlation_id: context.correlation_id.clone(),
        current_version: Some(version),
        current_state: Some(state),
        allowed_next_intents: allowed,
    }
}

/// The transition conflict for an Action at `version`.
pub fn action_transition_conflict(context: &ActionOperationContext, version: u64) -> (error:
    DomainError)
    ensures
        error.is_action_conflict(context.correlation_id@, version),
{
    DomainError {
        kind: DomainErrorKind::TransitionConflict,
        correlation_id: context.correlation_id.clone(),
        current_version: Some(version),
        current_state: None,
        allowed_next_intents: Vec::new(),
    }
}

} // verus!
