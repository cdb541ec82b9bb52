//! How a store operation can fail.

use vstd::prelude::*;

verus! {

/// The failures of a store, as far as the layers above tell them apart.
#[derive(Clone, Copy, PartialEq, Eq, Structural, Debug)]
pub enum StoreError {
    /// No row carries the identity that the operation named.
    RowNotFound,
    /// The store refused the row, as it does a second row under one identity.
    ConstraintViolation,
    /// The store could not be reached or could not run the statement.
    Unavailable,
}

impl StoreError {
    /// Whether this is the failure that callers report as a missing record.
    pub fn is_row_not_found(&self) -> (b: bool)
        ensures
            b == (*self == StoreError::RowNotFound),
    {
        match self {
            StoreError::RowNotFound => true,
            StoreError::ConstraintViolation => false,
            StoreError::Unavailable => false,
        }
    }
}

/// What a failure of the driver is, as far as the service cares.
#[derive(Clone, Copy, PartialEq, Eq, Structural, Debug)]
pub enum Failure {
    /// A statement that had to give a row gave none.
    RowNotFound,
    /// The server refused a second row under a unique key.
    UniqueViolation,
    /// The server refused a row that points at a missing one.
    ForeignKeyViolation,
    /// The server refused a null in a column that takes none.
    NotNullViolation,
    /// The server refused a row that fails a check of the table.
    CheckViolation,
    /// The server reported an error of another kind.
    Database,
    /// Anything else: the connection, the pool, the decoding of a row.
    Other,
}

/// `sqlx::Error`, the error type of the driver. A value of it is carried and
/// handed on, and never looked into but by `failure_of`.
#[verifier::external_type_specification]
#[verifier::external_body]
pub struct ExSqlxError(sqlx::Error);

/// The failure that an error of the driver is: which variant of
/// `sqlx::Error` it is and, for the `Database` variant, which kind
/// `sqlx::error::DatabaseError::kind` reports. It depends on the error alone.
pub uninterp spec fn driver_failure(error: sqlx::Error) -> Failure;

/// Tells the variants of `sqlx::Error` apart, and for its `Database` variant
/// the kinds that `sqlx::error::DatabaseError::kind` reports. The answer is
/// [`driver_failure`] of the error; nothing more is claimed of which failure
/// a given error is.
#[verifier::external_body]
pub(crate) fn failure_of(error: &sqlx::Error) -> (failure: Failure)
    ensures
        failure == driver_failure(*error),
{
    match error {
        sqlx::Error::RowNotFound => Failure::RowNotFound,
        sqlx::Error::Database(cause) => match cause.kind() {
            sqlx::error::ErrorKind::UniqueViolation => Failure::UniqueViolation,
            sqlx::error::ErrorKind::ForeignKeyViolation => Failure::ForeignKeyViolation,
            sqlx::error::ErrorKind::NotNullViolation => Failure::NotNullViolation,
            sqlx::error::ErrorKind::CheckViolation => Failure::CheckViolation,
            _ => Failure::Database,
        },
        _ => Failure::Other,
    }
}

/// How the service reports `failure`: a missing row as such, a row that the
/// server refused as a constraint violation, everything else as the store
/// being unavailable.
pub open spec fn reported_as(failure: Failure) -> StoreError {
    match failure {
        Failure::RowNotFound => StoreError::RowNotFound,
        Failure::UniqueViolation => StoreError::ConstraintViolation,
        Failure::ForeignKeyViolation => StoreError::ConstraintViolation,
        Failure::NotNullViolation => StoreError::ConstraintViolation,
        Failure::CheckViolation => StoreError::ConstraintViolation,
        Failure::Database => StoreError::Unavailable,
        Failure::Other => StoreError::Unavailable,
    }
}

impl StoreError {
    /// Computes [`reported_as`].
    pub fn of_failure(failure: Failure) -> (error: StoreError)
        ensures
            error == reported_as(failure),
    {
        match failure {
            Failure::RowNotFound => StoreError::RowNotFound,
            Failure::UniqueViolation => StoreError::ConstraintViolation,
            Failure::ForeignKeyViolation => StoreError::ConstraintViolation,
            Failure::NotNullViolation => StoreError::ConstraintViolation,
            Failure::CheckViolation => StoreError::ConstraintViolation,
            Failure::Database => StoreError::Unavailable,
            Failure::Other => StoreError::Unavailable,
        }
    }

    /// How the service reports an error of the driver: as [`reported_as`]
    /// says of the failure that the error is. So a row that the driver
    /// missed stays a missing row, and is never reported as anything else.
    pub fn from_driver_error(error: &sqlx::Error) -> (reported: StoreError)
        ensures
            reported == reported_as(driver_failure(*error)),
    {
        let failure = failure_of(error);
        StoreError::of_failure(failure)
    }
}

/// A failure is reported as a missing row exactly when it is one, and as a
/// constraint violation exactly when the server refused the row.
pub proof fn lemma_reports_keep_failures_apart(failure: Failure)
    ensures
        reported_as(failure) == StoreError::RowNotFound <==> failure == Failure::RowNotFound,
        reported_as(failure) == StoreError::ConstraintViolation <==> (failure
            == Failure::UniqueViolation || failure == Failure::ForeignKeyViolation || failure
            == Failure::NotNullViolation || failure == Failure::CheckViolation),
        reported_as(failure) == StoreError::Unavailable <==> (failure == Failure::Database
            || failure == Failure::Other),
{
}

} // verus!
