//! The lifecycle states of Action Requests and Actions, the Reopen modes,
//! and the text each is persisted as.

use vstd::prelude::*;
use crate::load_error::ActionPersistenceLoadError;
use crate::text::str_eq;

verus! {

/// Where an Action Request stands in its lifecycle.
#[derive(Clone, Copy, Debug, PartialEq, Eq, Structural)]
pub enum ActionRequestState {
    Draft,
    Open,
    Accepted,
    Declined,
    Withdrawn,
}

/// Where an Action stands in its lifecycle.
#[derive(Clone, Copy, Debug, PartialEq, Eq, Structural)]
pub enum ActionState {
    Open,
    InProgress,
    Completed,
    Cancelled,
}

/// How a Reopen brings an Action back.
#[derive(Clone, Copy, Debug, PartialEq, Eq, Structural)]
pub enum ActionReopenMode {
    ReopenCompleted,
    RestartCancelled,
}

impl ActionRequestState {
    /// The text this state is persisted as.
    pub open spec fn persisted(self) -> Seq<char> {
        match self {
            ActionRequestState::Draft => "draft"@,
            ActionRequestState::Open => "open"@,
            ActionRequestState::Accepted => "accepted"@,
            ActionRequestState::Declined => "declined"@,
            ActionRequestState::Withdrawn => "withdrawn"@,
        }
    }

    /// The state persisted as `text`, if any.
    pub open spec fn decoded(text: Seq<char>) -> Option<ActionRequestState> {
        if text == "draft"@ {
            Some(ActionRequestState::Draft)
        } else if text == "open"@ {
            Some(ActionRequestState::Open)
        } else if text == "accepted"@ {
            Some(ActionRequestState::Accepted)
        } else if text == "declined"@ {
            Some(ActionRequestState::Declined)
        } else if text == "withdrawn"@ {
            Some(ActionRequestState::Withdrawn)
        } else {
            None
        }
    }

    /// Whether no transition leaves this state.
    pub open spec fn is_terminal(self) -> bool {
        self == ActionRequestState::Accepted || self == ActionRequestState::Declined || self
            == ActionRequestState::Withdrawn
    }

    pub fn as_persisted(&self) -> (text: &'static str)
        ensures
            text@ == self.persisted(),
    {
        match self {
            ActionRequestState::Draft => "draft",
            ActionRequestState::Open => "open",
            ActionRequestState::Accepted => "accepted",
            ActionRequestState::Declined => "declined",
            ActionRequestState::Withdrawn => "withdrawn",
        }
    }

    /// Reads a persisted state; any other text is an invalid snapshot.
    pub fn from_persisted(text: &str) -> (result: Result<ActionRequestState, ActionPersistenceLoadError>)
        ensures
            result == match Self::decoded(text@) {
                Some(state) => Ok(state),
                None => Err(ActionPersistenceLoadError::InvalidActionSnapshot),
            },
    {
        if str_eq(text, "draft") {
            Ok(ActionRequestState::Draft)
        } else if str_eq(text, "open") {
            Ok(ActionRequestState::Open)
        } else if str_eq(text, "accepted") {
            Ok(ActionRequestState::Accepted)
        } else if str_eq(text, "declined") {
            Ok(ActionRequestState::Declined)
        } else if str_eq(text, "withdrawn") {
            Ok(ActionRequestState::Withdrawn)
        } else {
            Err(ActionPersistenceLoadError::InvalidActionSnapshot)
        }
    }
}

impl ActionState {
    /// The text this state is persisted as.
    pub open spec fn persisted(self) -> Seq<char> {
        match self {
            ActionState::Open => "open"@,
            ActionState::InProgress => "in_progress"@,
            ActionState::Completed => "completed"@,
            ActionState::Cancelled => "cancelled"@,
        }
    }

    /// The state persisted as `text`, if any.
    pub open spec fn decoded(text: Seq<char>) -> Option<ActionState> {
        if text == "open"@ {
            Some(ActionState::Open)
        } else if text == "in_progress"@ {
            Some(ActionState::InProgress)
        } else if text == "completed"@ {
            Some(ActionState::Completed)
        } else if text == "cancelled"@ {
            Some(ActionState::Cancelled)
        } else {
            None
        }
    }

    pub fn as_persisted(&self) -> (text: &'static str)
        ensures
            text@ == self.persisted(),
    {
        match self {
            ActionState::Open => "open",
            ActionState::InProgress => "in_progress",
            ActionState::Completed => "completed",
            ActionState::Cancelled => "cancelled",
        }
    }

    /// Reads a persisted state; any other text is an invalid snapshot.
    pub fn from_persisted(text: &str) -> (result: Result<ActionState, ActionPersistenceLoadError>)
        ensures
            result == match Self::decoded(text@) {
                Some(state) => Ok(state),
                None => Err(ActionPersistenceLoadError::InvalidActionSnapshot),
            },
    {
        if str_eq(text, "open") {
            Ok(ActionState::Open)
        } else if str_eq(text, "in_progress") {
            Ok(ActionState::InProgress)
        } else if str_eq(text, "completed") {
            Ok(ActionState::Completed)
        } else if str_eq(text, "cancelled") {
            Ok(ActionState::Cancelled)
        } else {
            Err(ActionPersistenceLoadError::InvalidActionSnapshot)
        }
    }
}

impl ActionReopenMode {
    /// The text this mode is persisted as.
    pub open spec fn persisted(self) -> Seq<char> {
        match self {
            ActionReopenMode::ReopenCompleted => "reopen_completed"@,
            ActionReopenMode::RestartCancelled => "restart_cancelled"@,
        }
    }

    /// The mode persisted as `text`, if any.
    pub open spec fn decoded(text: Seq<char>) -> Option<ActionReopenMode> {
        if text == "reopen_completed"@ {
            Some(ActionReopenMode::ReopenCompleted)
        } else if text == "restart_cancelled"@ {
            Some(ActionReopenMode::RestartCancelled)
        } else {
            None
        }
    }

    pub fn as_persisted(&self) -> (text: &'static str)
        ensures
            text@ == self.persisted(),
    {
        match self {
            ActionReopenMode::ReopenCompleted => "reopen_completed",
            ActionReopenMode::RestartCancelled => "restart_cancelled",
        }
    }

    /// Reads a persisted mode; any other text is an invalid snapshot.
    pub fn from_persisted(text: &str) -> (result: Result<ActionReopenMode, ActionPersistenceLoadError>)
        ensures
            result == match Self::decoded(text@) {
                Some(mode) => Ok(mode),
                None => Err(ActionPersistenceLoadError::InvalidActionSnapshot),
            },
    {
        if str_eq(text, "reopen_completed") {
            Ok(ActionReopenMode::ReopenCompleted)
        } else if str_eq(text, "restart_cancelled") {
            Ok(ActionReopenMode::RestartCancelled)
        } else {
            Err(ActionPersistenceLoadError::InvalidActionSnapshot)
        }
    }
}

/// Reading back the text a request state is persisted as gives that state,
/// and text that reads as a state is exactly that state's text.
pub proof fn lemma_request_state_text_round_trip(state: ActionRequestState, text: Seq<char>)
    ensures
        ActionRequestState::decoded(state.persisted()) == Some(state),
        ActionRequestState::decoded(text) matches Some(decoded) ==> decoded.persisted() == text,
{
    reveal_strlit("draft");
    reveal_strlit("open");
    reveal_strlit("accepted");
    reveal_strlit("declined");
    reveal_strlit("withdrawn");
    assert("draft"@.len() == 5);
    assert("open"@.len() == 4);
    assert("accepted"@.len() == 8);
    assert("declined"@.len() == 8);
    assert("withdrawn"@.len() == 9);
    assert("declined"@[0] != "accepted"@[0]);
}

/// Reading back the text an Action state is persisted as gives that state,
/// and text that reads as a state is exactly that state's text.
pub proof fn lemma_action_state_text_round_trip(state: ActionState, text: Seq<char>)
    ensures
        ActionState::decoded(state.persisted()) == Some(state),
        ActionState::decoded(text) matches Some(decoded) ==> decoded.persisted() == text,
{
    reveal_strlit("open");
    reveal_strlit("in_progress");
    reveal_strlit("completed");
    reveal_strlit("cancelled");
    assert("open"@.len() == 4);
    assert("in_progress"@.len() == 11);
    assert("completed"@.len() == 9);
    assert("cancelled"@.len() == 9);
    assert("cancelled"@[1] != "completed"@[1]);
}

/// Reading back the text a Reopen mode is persisted as gives that mode,
/// and text that reads as a mode is exactly that mode's text.
pub proof fn lemma_reopen_mode_text_round_trip(mode: ActionReopenMode, text: Seq<char>)
    ensures
        ActionReopenMode::decoded(mode.persisted()) == Some(mode),
        ActionReopenMode::decoded(text) matches Some(decoded) ==> decoded.persisted() == text,
{
    reveal_strlit("reopen_completed");
    reveal_strlit("restart_cancelled");
    assert("reopen_completed"@.len() == 16);
    assert("restart_cancelled"@.len() == 17);
}

/// The text each state and reopening mode is stored as, and read back
/// from: a request is stored as draft, open, accepted, declined or
/// withdrawn; an Action as open, in_progress, completed or cancelled; a
/// reopening as reopen_completed or restart_cancelled.
pub proof fn lemma_stored_texts()
    ensures
        ActionRequestState::Draft.persisted() == "draft"@,
        ActionRequestState::Open.persisted() == "open"@,
        ActionRequestState::Accepted.persisted() == "accepted"@,
        ActionRequestState::Declined.persisted() == "declined"@,
        ActionRequestState::Withdrawn.persisted() == "withdrawn"@,
        ActionState::Open.persisted() == "open"@,
        ActionState::InProgress.persisted() == "in_progress"@,
        ActionState::Completed.persisted() == "completed"@,
        ActionState::Cancelled.persisted() == "cancelled"@,
        ActionReopenMode::ReopenCompleted.persisted() == "reopen_completed"@,
        ActionReopenMode::RestartCancelled.persisted() == "restart_cancelled"@,
        forall|state: ActionRequestState| #[trigger] ActionRequestState::decoded(state.persisted())
            == Some(state),
        forall|state: ActionState| #[trigger] ActionState::decoded(state.persisted()) == Some(state),
        forall|mode: ActionReopenMode| #[trigger] ActionReopenMode::decoded(mode.persisted())
            == Some(mode),
{
    assert forall|state: ActionRequestState| #[trigger] ActionRequestState::decoded(state.persisted())
        == Some(state) by {
        lemma_request_state_text_round_trip(state, state.persisted());
    }
    assert forall|state: ActionState| #[trigger] ActionState::decoded(state.persisted()) == Some(state) by {
        lemma_action_state_text_round_trip(state, state.persisted());
    }
    assert forall|mode: ActionReopenMode| #[trigger] ActionReopenMode::decoded(mode.persisted())
        == Some(mode) by {
        lemma_reopen_mode_text_round_trip(mode, mode.persisted());
    }
}

} // verus!
