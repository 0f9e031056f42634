//! Errors of loading the Action namespace.

use vstd::prelude::*;

verus! {

/// Why the Action namespace could not be loaded.
#[derive(Clone, Copy, Debug, PartialEq, Eq, Structural)]
pub enum ActionPersistenceLoadError {
    UnsupportedSchema { found: u32 },
    StorageUnavailable,
    ActionNamespaceNotEmpty,
    InvalidActionSnapshot,
}

/// Why the ledger database could not be opened.
#[derive(Clone, Copy, Debug, PartialEq, Eq, Structural)]
pub enum LedgerOpenError {
    FutureSchema { found: u32 },
    UnsupportedSchema { found: u32 },
    StorageUnavailable,
    Busy,
    CorruptDatabase,
    InvalidMetadata,
    PolicyViolation,
    UnclaimedDatabase,
    WrongApplication,
}

/// The load error an open error is reported as: a schema the ledger cannot
/// serve keeps the version it found, every other failure is storage that
/// is not available.
pub open spec fn load_error_from_open_error(error: LedgerOpenError) -> ActionPersistenceLoadError {
    match error {
        LedgerOpenError::FutureSchema { found } => ActionPersistenceLoadError::UnsupportedSchema {
            found,
        },
        LedgerOpenError::UnsupportedSchema { found } => ActionPersistenceLoadError::UnsupportedSchema {
            found,
        },
        _ => ActionPersistenceLoadError::StorageUnavailable,
    }
}

impl From<LedgerOpenError> for ActionPersistenceLoadError {
    fn from(error: LedgerOpenError) -> (result: Self) {
        match error {
            LedgerOpenError::FutureSchema { found } | LedgerOpenError::UnsupportedSchema {
                found,
            } => ActionPersistenceLoadError::UnsupportedSchema { found },
            LedgerOpenError::StorageUnavailable
            | LedgerOpenError::Busy
            | LedgerOpenError::CorruptDatabase
            | LedgerOpenError::InvalidMetadata
            | LedgerOpenError::PolicyViolation
            | LedgerOpenError::UnclaimedDatabase
            | LedgerOpenError::WrongApplication => ActionPersistenceLoadError::StorageUnavailable,
        }
    }
}

impl vstd::std_specs::convert::FromSpecImpl<LedgerOpenError> for ActionPersistenceLoadError {
    open spec fn obeys_from_spec() -> bool {
        true
    }

    open spec fn from_spec(v: LedgerOpenError) -> ActionPersistenceLoadError {
        load_error_from_open_error(v)
    }
}

} // verus!
