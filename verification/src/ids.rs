//! The identifiers a rehydrated domain service is handed for one command.
//!
//! Every identifier the service may mint for a persisted command was fixed
//! by the caller (or derived) before the call, so each source holds exactly
//! those identifiers and hands each out at most once; any other request is
//! refused with `IdSourceError::MissingPersistedId`.

use vstd::prelude::*;

verus! {

/// The refusal of an identifier the command did not supply.
#[derive(Clone, Copy, Debug, PartialEq, Eq, Structural)]
pub enum IdSourceError {
    MissingPersistedId,
}

/// Hands out the identifier in `slot`, once: afterwards the slot is empty.
pub fn take_persisted_id(slot: &mut Option<String>) -> (result: Result<String, IdSourceError>)
    ensures
        result is Ok <==> *old(slot) is Some,
        result matches Ok(id) ==> Some(id) == *old(slot),
        *final(slot) is None,
{
    match slot.take() {
        Some(id) => Ok(id),
        None => Err(IdSourceError::MissingPersistedId),
    }
}

/// A rejection mints exactly one audit event and nothing else.
#[derive(Debug)]
pub struct PersistedRejectIds {
    pub audit_id: Option<String>,
}

impl PersistedRejectIds {
    pub fn next_action_id(&mut self) -> (result: Result<String, IdSourceError>)
        ensures
            result is Err,
            *final(self) == *old(self),
    {
        Err(IdSourceError::MissingPersistedId)
    }

    pub fn next_prepared_intent_id(&mut self) -> (result: Result<String, IdSourceError>)
        ensures
            result is Err,
            *final(self) == *old(self),
    {
        Err(IdSourceError::MissingPersistedId)
    }

    pub fn next_approval_receipt_id(&mut self) -> (result: Result<String, IdSourceError>)
        ensures
            result is Err,
            *final(self) == *old(self),
    {
        Err(IdSourceError::MissingPersistedId)
    }

    /// The rejection's one audit id, once.
    pub fn next_audit_event_id(&mut self) -> (result: Result<String, IdSourceError>)
        ensures
            result is Ok <==> old(self).audit_id is Some,
            result matches Ok(id) ==> Some(id) == old(self).audit_id,
            final(self).audit_id is None,
    {
        take_persisted_id(&mut self.audit_id)
    }
}

/// Lowering an Action's classification mints one receipt and one audit
/// event.
#[derive(Debug)]
pub struct PersistedLowerActionClassificationIds {
    pub receipt_id: Option<String>,
    pub audit_id: Option<String>,
}

impl PersistedLowerActionClassificationIds {
    pub fn next_action_id(&mut self) -> (result: Result<String, IdSourceError>)
        ensures
            result is Err,
            *final(self) == *old(self),
    {
        Err(IdSourceError::MissingPersistedId)
    }

    pub fn next_prepared_intent_id(&mut self) -> (result: Result<String, IdSourceError>)
        ensures
            result is Err,
            *final(self) == *old(self),
    {
        Err(IdSourceError::MissingPersistedId)
    }

    /// The one receipt id, once.
    pub fn next_approval_receipt_id(&mut self) -> (result: Result<String, IdSourceError>)
        ensures
            result is Ok <==> old(self).receipt_id is Some,
            result matches Ok(id) ==> Some(id) == old(self).receipt_id,
            final(self).receipt_id is None,
            final(self).audit_id == old(self).audit_id,
    {
        take_persisted_id(&mut self.receipt_id)
    }

    /// The one audit id, once.
    pub fn next_audit_event_id(&mut self) -> (result: Result<String, IdSourceError>)
        ensures
            result is Ok <==> old(self).audit_id is Some,
            result matches Ok(id) ==> Some(id) == old(self).audit_id,
            final(self).audit_id is None,
            final(self).receipt_id == old(self).receipt_id,
    {
        take_persisted_id(&mut self.audit_id)
    }
}

/// A Complete, Cancel or Reopen preview mints its prepared intent id and,
/// when it is denied, one audit id derived from that intent id.
#[derive(Debug)]
pub struct PersistedActionTransitionPrepareIds {
    pub prepared_intent_id: Option<String>,
    pub h3_denial_audit_id: Option<String>,
}

impl PersistedActionTransitionPrepareIds {
    pub fn next_action_id(&mut self) -> (result: Result<String, IdSourceError>)
        ensures
            result is Err,
            *final(self) == *old(self),
    {
        Err(IdSourceError::MissingPersistedId)
    }

    /// The preview's intent id, once.
    pub fn next_prepared_intent_id(&mut self) -> (result: Result<String, IdSourceError>)
        ensures
            result is Ok <==> old(self).prepared_intent_id is Some,
            result matches Ok(id) ==> Some(id) == old(self).prepared_intent_id,
            final(self).prepared_intent_id is None,
            final(self).h3_denial_audit_id == old(self).h3_denial_audit_id,
    {
        take_persisted_id(&mut self.prepared_intent_id)
    }

    pub fn next_approval_receipt_id(&mut self) -> (result: Result<String, IdSourceError>)
        ensures
            result is Err,
            *final(self) == *old(self),
    {
        Err(IdSourceError::MissingPersistedId)
    }

    /// The denial's audit id, once.
    pub fn next_audit_event_id(&mut self) -> (result: Result<String, IdSourceError>)
        ensures
            result is Ok <==> old(self).h3_denial_audit_id is Some,
            result matches Ok(id) ==> Some(id) == old(self).h3_denial_audit_id,
            final(self).h3_denial_audit_id is None,
            final(self).prepared_intent_id == old(self).prepared_intent_id,
    {
        take_persisted_id(&mut self.h3_denial_audit_id)
    }
}

/// Executing a Complete, Cancel or Reopen approval mints one receipt and
/// one audit event.
#[derive(Debug)]
pub struct PersistedActionTransitionExecuteIds {
    pub receipt_id: Option<String>,
    pub audit_id: Option<String>,
}

impl PersistedActionTransitionExecuteIds {
    pub fn next_action_id(&mut self) -> (result: Result<String, IdSourceError>)
        ensures
            result is Err,
            *final(self) == *old(self),
    {
        Err(IdSourceError::MissingPersistedId)
    }

    pub fn next_prepared_intent_id(&mut self) -> (result: Result<String, IdSourceError>)
        ensures
            result is Err,
            *final(self) == *old(self),
    {
        Err(IdSourceError::MissingPersistedId)
    }

    /// The one receipt id, once.
    pub fn next_approval_receipt_id(&mut self) -> (result: Result<String, IdSourceError>)
        ensures
            result is Ok <==> old(self).receipt_id is Some,
            result matches Ok(id) ==> Some(id) == old(self).receipt_id,
            final(self).receipt_id is None,
            final(self).audit_id == old(self).audit_id,
    {
        take_persisted_id(&mut self.receipt_id)
    }

    /// The one audit id, once.
    pub fn next_audit_event_id(&mut self) -> (result: Result<String, IdSourceError>)
        ensures
            result is Ok <==> old(self).audit_id is Some,
            result matches Ok(id) ==> Some(id) == old(self).audit_id,
            final(self).audit_id is None,
            final(self).receipt_id == old(self).receipt_id,
    {
        take_persisted_id(&mut self.audit_id)
    }
}

/// Executing an Accept approval mints one receipt and three audit events,
/// handed out in the order the caller supplied them.
#[derive(Debug)]
pub struct PersistedAcceptIds {
    pub receipt_id: Option<String>,
    pub audit_ids: Vec<String>,
    pub next_audit: usize,
}

impl PersistedAcceptIds {
    /// The ids for one Accept execution: the receipt and the three audit
    /// ids, none handed out yet.
    pub fn new(receipt_id: String, audit_ids: [String; 3]) -> (ids: Self)
        ensures
            ids.receipt_id == Some(receipt_id),
            ids.audit_ids@ == audit_ids@,
            ids.next_audit == 0,
    {
        let mut all: Vec<String> = Vec::new();
        all.push(audit_ids[0].clone());
        all.push(audit_ids[1].clone());
        all.push(audit_ids[2].clone());
        assert(all@ =~= audit_ids@);
        PersistedAcceptIds { receipt_id: Some(receipt_id), audit_ids: all, next_audit: 0 }
    }

    pub fn next_action_id(&mut self) -> (result: Result<String, IdSourceError>)
        ensures
            result is Err,
            *final(self) == *old(self),
    {
        Err(IdSourceError::MissingPersistedId)
    }

    pub fn next_prepared_intent_id(&mut self) -> (result: Result<String, IdSourceError>)
        ensures
            result is Err,
            *final(self) == *old(self),
    {
        Err(IdSourceError::MissingPersistedId)
    }

    /// The one receipt id, once.
    pub fn next_approval_receipt_id(&mut self) -> (result: Result<String, IdSourceError>)
        ensures
            result is Ok <==> old(self).receipt_id is Some,
            result matches Ok(id) ==> Some(id) == old(self).receipt_id,
            final(self).receipt_id is None,
            final(self).audit_ids == old(self).audit_ids,
            final(self).next_audit == old(self).next_audit,
    {
        take_persisted_id(&mut self.receipt_id)
    }

    /// The next audit id not yet handed out, in order; once all are out,
    /// every further request is refused.
    pub fn next_audit_event_id(&mut self) -> (result: Result<String, IdSourceError>)
        ensures
            result is Ok <==> old(self).next_audit < old(self).audit_ids@.len(),
            result matches Ok(id) ==> id == old(self).audit_ids@[old(self).next_audit as int]
                && final(self).next_audit == old(self).next_audit + 1,
            result is Err ==> final(self).next_audit == old(self).next_audit,
            final(self).audit_ids == old(self).audit_ids,
            final(self).receipt_id == old(self).receipt_id,
    {
        if self.next_audit < self.audit_ids.len() {
            let id = self.audit_ids[self.next_audit].clone();
            self.next_audit = self.next_audit + 1;
            Ok(id)
        } else {
            Err(IdSourceError::MissingPersistedId)
        }
    }
}

} // verus!
