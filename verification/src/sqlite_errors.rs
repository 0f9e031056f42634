//! How a failure reported by SQLite is classified when the Action
//! namespace is read.

use vstd::prelude::*;
use rusqlite::{Error, ErrorCode};
use crate::load_error::ActionPersistenceLoadError;

verus! {

/// `rusqlite::Error`, carried through as an opaque value.
#[verifier::external_type_specification]
#[verifier::external_body]
pub struct ExSqliteError(Error);

/// The result codes of a failure reported by the SQLite library that the
/// classification tells apart: a constraint violation, a data type
/// mismatch, and every other code.
#[derive(Clone, Copy, Debug, PartialEq, Eq, Structural)]
pub enum SqliteFailureCode {
    ConstraintViolation,
    TypeMismatch,
    Other,
}

/// The variants of `rusqlite::Error` the classification tells apart.  A
/// failure reported by the SQLite library keeps which of the codes told
/// apart its `ErrorCode` is.
#[derive(Clone, Copy, Debug, PartialEq, Eq, Structural)]
pub enum SqliteErrorVariant {
    SqliteFailure { code: SqliteFailureCode },
    FromSqlConversionFailure,
    IntegralValueOutOfRange,
    Utf8Error,
    QueryReturnedNoRows,
    InvalidColumnType,
    Other,
}

/// A row that does not decode, and a SQLite failure whose code is a
/// constraint violation or a type mismatch, mean the stored snapshot is
/// invalid; every other failure means the storage is not available.
pub open spec fn classify_variant(variant: SqliteErrorVariant) -> ActionPersistenceLoadError {
    match variant {
        SqliteErrorVariant::QueryReturnedNoRows
        | SqliteErrorVariant::FromSqlConversionFailure
        | SqliteErrorVariant::IntegralValueOutOfRange
        | SqliteErrorVariant::InvalidColumnType
        | SqliteErrorVariant::Utf8Error => ActionPersistenceLoadError::InvalidActionSnapshot,
        SqliteErrorVariant::SqliteFailure { code } => match code {
            SqliteFailureCode::ConstraintViolation | SqliteFailureCode::TypeMismatch => {
                ActionPersistenceLoadError::InvalidActionSnapshot
            },
            SqliteFailureCode::Other => ActionPersistenceLoadError::StorageUnavailable,
        },
        SqliteErrorVariant::Other => ActionPersistenceLoadError::StorageUnavailable,
    }
}

/// The variant of a `rusqlite::Error` as `sqlite_error_variant` tells it.
pub uninterp spec fn sqlite_error_variant_of(error: Error) -> SqliteErrorVariant;

/// Tells the variants of `rusqlite::Error` apart: a `SqliteFailure` keeps
/// whether the `code` of its `libsqlite3_sys::Error` is
/// `ConstraintViolation`, `TypeMismatch` or another code; the five decode
/// failures map to their namesakes and every other variant to `Other`.  The
/// result depends on the error alone, and is named `sqlite_error_variant_of`.
#[verifier::external_body]
fn sqlite_error_variant(error: &Error) -> (variant: SqliteErrorVariant)
    ensures
        variant == sqlite_error_variant_of(*error),
{
    match error {
        Error::SqliteFailure(details, _) => SqliteErrorVariant::SqliteFailure { code: match details.code {
            ErrorCode::ConstraintViolation => SqliteFailureCode::ConstraintViolation,
            ErrorCode::TypeMismatch => SqliteFailureCode::TypeMismatch,
            _ => SqliteFailureCode::Other,
        } },
        Error::QueryReturnedNoRows => SqliteErrorVariant::QueryReturnedNoRows,
        Error::FromSqlConversionFailure(..) => SqliteErrorVariant::FromSqlConversionFailure,
        Error::IntegralValueOutOfRange(..) => SqliteErrorVariant::IntegralValueOutOfRange,
        Error::InvalidColumnType(..) => SqliteErrorVariant::InvalidColumnType,
        Error::Utf8Error(..) => SqliteErrorVariant::Utf8Error,
        _ => SqliteErrorVariant::Other,
    }
}

/// Classifies one variant of a SQLite failure.
pub fn classify_sqlite_error_variant(variant: SqliteErrorVariant) -> (result:
    ActionPersistenceLoadError)
    ensures
        result == classify_variant(variant),
{
    match variant {
        SqliteErrorVariant::QueryReturnedNoRows
        | SqliteErrorVariant::FromSqlConversionFailure
        | SqliteErrorVariant::IntegralValueOutOfRange
        | SqliteErrorVariant::InvalidColumnType
        | SqliteErrorVariant::Utf8Error => ActionPersistenceLoadError::InvalidActionSnapshot,
        SqliteErrorVariant::SqliteFailure { code } => match code {
            SqliteFailureCode::ConstraintViolation | SqliteFailureCode::TypeMismatch => {
                ActionPersistenceLoadError::InvalidActionSnapshot
            },
            SqliteFailureCode::Other => ActionPersistenceLoadError::StorageUnavailable,
        },
        SqliteErrorVariant::Other => ActionPersistenceLoadError::StorageUnavailable,
    }
}

/// Classifies a failure SQLite reported while the Action namespace was
/// read: it is the classification of the error's variant, so it is always
/// either an invalid snapshot or unavailable storage.
pub fn classify_sqlite_error(error: Error) -> (result: ActionPersistenceLoadError)
    ensures
        result == classify_variant(sqlite_error_variant_of(error)),
        result == ActionPersistenceLoadError::InvalidActionSnapshot || result
            == ActionPersistenceLoadError::StorageUnavailable,
{
    let variant = sqlite_error_variant(&error);
    classify_sqlite_error_variant(variant)
}

/// A SQLite failure is an invalid snapshot exactly when a row did not
/// decode (no row, a value that does not convert, an integer out of range,
/// a column of another type, text that is not UTF-8) or the failure's code
/// is a constraint violation or a type mismatch; every other failure is
/// unavailable storage.
pub proof fn lemma_classification_of_failures(variant: SqliteErrorVariant)
    ensures
        classify_variant(variant) == ActionPersistenceLoadError::InvalidActionSnapshot || classify_variant(
            variant,
        ) == ActionPersistenceLoadError::StorageUnavailable,
        (classify_variant(variant) == ActionPersistenceLoadError::InvalidActionSnapshot) <==> (
        variant is QueryReturnedNoRows || variant is FromSqlConversionFailure
            || variant is IntegralValueOutOfRange || variant is InvalidColumnType
            || variant is Utf8Error || variant == SqliteErrorVariant::SqliteFailure {
            code: SqliteFailureCode::ConstraintViolation,
        } || variant == SqliteErrorVariant::SqliteFailure { code: SqliteFailureCode::TypeMismatch }),
{
}

} // verus!
