use pmc_ledger::load_error::ActionPersistenceLoadError;
use pmc_ledger::sqlite_errors::{
    classify_sqlite_error, classify_sqlite_error_variant, SqliteErrorVariant, SqliteFailureCode,
};
use rusqlite::{ffi, Error as SqliteError};

#[test]
fn sqlite_busy_is_reported_as_storage_unavailable() {
    let error = SqliteError::SqliteFailure(ffi::Error::new(ffi::SQLITE_BUSY), None);

    assert_eq!(
        classify_sqlite_error(error),
        ActionPersistenceLoadError::StorageUnavailable
    );
}

#[test]
fn constraint_violation_is_an_invalid_snapshot() {
    let error = SqliteError::SqliteFailure(ffi::Error::new(ffi::SQLITE_CONSTRAINT), None);
    assert_eq!(classify_sqlite_error(error), ActionPersistenceLoadError::InvalidActionSnapshot);
}

#[test]
fn extended_constraint_code_is_an_invalid_snapshot() {
    // SQLITE_CONSTRAINT_UNIQUE is an extended code whose low byte is SQLITE_CONSTRAINT.
    let error = SqliteError::SqliteFailure(ffi::Error::new(ffi::SQLITE_CONSTRAINT_UNIQUE), None);
    assert_eq!(classify_sqlite_error(error), ActionPersistenceLoadError::InvalidActionSnapshot);
}

#[test]
fn type_mismatch_is_an_invalid_snapshot() {
    let error = SqliteError::SqliteFailure(ffi::Error::new(ffi::SQLITE_MISMATCH), None);
    assert_eq!(classify_sqlite_error(error), ActionPersistenceLoadError::InvalidActionSnapshot);
}

#[test]
fn missing_row_is_an_invalid_snapshot() {
    assert_eq!(
        classify_sqlite_error(SqliteError::QueryReturnedNoRows),
        ActionPersistenceLoadError::InvalidActionSnapshot
    );
}

#[test]
fn out_of_range_integer_is_an_invalid_snapshot() {
    assert_eq!(
        classify_sqlite_error(SqliteError::IntegralValueOutOfRange(0, -1)),
        ActionPersistenceLoadError::InvalidActionSnapshot
    );
}

#[test]
fn other_library_errors_mean_unavailable_storage() {
    assert_eq!(
        classify_sqlite_error(SqliteError::InvalidQuery),
        ActionPersistenceLoadError::StorageUnavailable
    );
    assert_eq!(
        classify_sqlite_error(SqliteError::SqliteFailure(ffi::Error::new(ffi::SQLITE_IOERR), None)),
        ActionPersistenceLoadError::StorageUnavailable
    );
}

#[test]
fn classification_of_variants() {
    assert_eq!(
        classify_sqlite_error_variant(SqliteErrorVariant::Utf8Error),
        ActionPersistenceLoadError::InvalidActionSnapshot
    );
    assert_eq!(
        classify_sqlite_error_variant(SqliteErrorVariant::InvalidColumnType),
        ActionPersistenceLoadError::InvalidActionSnapshot
    );
    assert_eq!(
        classify_sqlite_error_variant(SqliteErrorVariant::FromSqlConversionFailure),
        ActionPersistenceLoadError::InvalidActionSnapshot
    );
    assert_eq!(
        classify_sqlite_error_variant(SqliteErrorVariant::SqliteFailure { code: SqliteFailureCode::Other }),
        ActionPersistenceLoadError::StorageUnavailable
    );
    assert_eq!(
        classify_sqlite_error_variant(SqliteErrorVariant::SqliteFailure { code: SqliteFailureCode::TypeMismatch }),
        ActionPersistenceLoadError::InvalidActionSnapshot
    );
    assert_eq!(
        classify_sqlite_error_variant(SqliteErrorVariant::Other),
        ActionPersistenceLoadError::StorageUnavailable
    );
}

#[test]
fn the_error_code_decides_not_the_extended_code() {
    // A failure whose code is a constraint violation is an invalid snapshot,
    // whatever its extended code holds.
    let constraint = ffi::Error { code: ffi::ErrorCode::ConstraintViolation, extended_code: 5 };
    assert_eq!(
        classify_sqlite_error(SqliteError::SqliteFailure(constraint, None)),
        ActionPersistenceLoadError::InvalidActionSnapshot
    );
    let busy = ffi::Error { code: ffi::ErrorCode::DatabaseBusy, extended_code: ffi::SQLITE_CONSTRAINT };
    assert_eq!(
        classify_sqlite_error(SqliteError::SqliteFailure(busy, None)),
        ActionPersistenceLoadError::StorageUnavailable
    );
}
