//! Aggregate versions and timestamps as they are persisted.

use vstd::prelude::*;
use crate::load_error::ActionPersistenceLoadError;

verus! {

/// Why the composition snapshot could not be read.
#[derive(Clone, Copy, Debug, PartialEq, Eq, Structural)]
pub enum CompositionSnapshotReadError {
    Unavailable,
    ReadFailed,
}

/// An aggregate version is persisted as a signed integer; a version is
/// counted from 1, so only a positive value is one.
pub open spec fn persisted_version(raw: i64) -> Option<u64> {
    if raw >= 1 {
        Some(raw as u64)
    } else {
        None
    }
}

/// Reads a persisted aggregate version.
pub fn aggregate_version_from_persisted(raw: i64) -> (version: Option<u64>)
    ensures
        version == persisted_version(raw),
{
    if raw >= 1 {
        Some(raw as u64)
    } else {
        None
    }
}

/// Reads an aggregate version for the composition snapshot: anything but
/// a positive value fails the read.
pub fn decode_version(raw: i64) -> (result: Result<u64, CompositionSnapshotReadError>)
    ensures
        result == match persisted_version(raw) {
            Some(version) => Ok(version),
            None => Err(CompositionSnapshotReadError::ReadFailed),
        },
{
    match aggregate_version_from_persisted(raw) {
        Some(version) => Ok(version),
        None => Err(CompositionSnapshotReadError::ReadFailed),
    }
}

/// Reads an optional persisted timestamp in Unix milliseconds: a value
/// before the epoch is an invalid snapshot, an absent one stays absent.
pub fn parse_time(value: Option<i64>) -> (result: Result<Option<i64>, ActionPersistenceLoadError>)
    ensures
        result == match value {
            Some(v) => if v < 0 {
                Err(ActionPersistenceLoadError::InvalidActionSnapshot)
            } else {
                Ok(Some(v))
            },
            None => Ok(None),
        },
{
    match value {
        Some(v) => if v < 0 {
            Err(ActionPersistenceLoadError::InvalidActionSnapshot)
        } else {
            Ok(Some(v))
        },
        None => Ok(None),
    }
}

/// A version read back from what it was persisted as is the same version.
pub proof fn lemma_version_round_trip(version: u64)
    requires
        1 <= version <= i64::MAX,
    ensures
        persisted_version(version as i64) == Some(version),
{
}

} // verus!
