use vstd::prelude::*;

use crate::db::sqlx_code_of;
use crate::db::sqlx_model_of;
use crate::db::unique_violation_code;
use crate::db::DbError;

verus! {

/// Why creating an employee failed.
#[derive(Debug)]
pub enum CreateEmployeeError {
    /// A row already existed under a conflicting identity before commit.
    CreateFailed { id: u128, source: DbError },
    /// The email unique constraint was violated; `id` carries the
    /// conflicting email.
    Duplicate { id: String, source: DbError },
    /// The transaction commit was rejected.
    CommitFailed { source: DbError },
    /// Any other storage failure.
    Unknown { source: DbError },
}

impl CreateEmployeeError {
    /// The storage failure behind this error.
    pub open spec fn spec_source(self) -> DbError {
        match self {
            CreateEmployeeError::CreateFailed { source, .. } => source,
            CreateEmployeeError::Duplicate { source, .. } => source,
            CreateEmployeeError::CommitFailed { source } => source,
            CreateEmployeeError::Unknown { source } => source,
        }
    }

    /// Classifies a storage failure raised while inserting a record with
    /// `email`: a unique-violation SQLSTATE means the email was taken,
    /// and any other failure is unknown.
    pub fn from_db_with_email(error: DbError, email: &str) -> (r: Self)
        ensures
            error.is_unique_violation() ==> (r matches CreateEmployeeError::Duplicate {
                id,
                source,
            } && id@ == email@ && source == error),
            !error.is_unique_violation() ==> (r matches CreateEmployeeError::Unknown { source }
                && source == error),
    {
        if error.has_unique_violation_code() {
            CreateEmployeeError::Duplicate { id: email.to_owned(), source: error }
        } else {
            CreateEmployeeError::Unknown { source: error }
        }
    }

    /// Classifies a sqlx failure raised while inserting a record with
    /// `email`: a unique-violation SQLSTATE means a duplicate email, and
    /// any other failure is unknown; either way the carried source holds
    /// exactly the input's code and text.
    pub fn from_sqlx_with_email(error: sqlx::Error, email: &str) -> (r: Self)
        ensures
            sqlx_code_of(error) == Some(unique_violation_code()) ==> (r matches
                CreateEmployeeError::Duplicate { id, source } && id@ == email@ && source@
                == sqlx_model_of(error)),
            sqlx_code_of(error) != Some(unique_violation_code()) ==> (r matches
                CreateEmployeeError::Unknown { source } && source@ == sqlx_model_of(error)),
    {
        Self::from_db_with_email(DbError::from_sqlx(&error), email)
    }

    /// Wraps a sqlx failure raised while committing the transaction; the
    /// carried source holds exactly the input's code and text.
    pub fn from_sqlx_commit_failed(error: sqlx::Error) -> (r: Self)
        ensures
            r matches CreateEmployeeError::CommitFailed { source } && source@ == sqlx_model_of(
                error,
            ),
    {
        CreateEmployeeError::CommitFailed { source: DbError::from_sqlx(&error) }
    }

    /// Unwraps the storage failure behind this error.
    pub fn into_source(self) -> (r: DbError)
        ensures
            r == self.spec_source(),
    {
        match self {
            CreateEmployeeError::CreateFailed { id: _, source } => source,
            CreateEmployeeError::Duplicate { id: _, source } => source,
            CreateEmployeeError::CommitFailed { source } => source,
            CreateEmployeeError::Unknown { source } => source,
        }
    }
}

/// Why updating an employee failed.
#[derive(Debug)]
pub enum UpdateEmployeeError {
    /// The transaction commit was rejected.
    CommitFailed { source: DbError },
    /// Any other storage failure, absence of the row included.
    Unknown { source: DbError },
}

impl UpdateEmployeeError {
    /// The storage failure behind this error.
    pub open spec fn spec_source(self) -> DbError {
        match self {
            UpdateEmployeeError::CommitFailed { source } => source,
            UpdateEmployeeError::Unknown { source } => source,
        }
    }

    /// Unwraps the storage failure behind this error.
    pub fn into_source(self) -> (r: DbError)
        ensures
            r == self.spec_source(),
    {
        match self {
            UpdateEmployeeError::CommitFailed { source } => source,
            UpdateEmployeeError::Unknown { source } => source,
        }
    }
}

/// Why deleting an employee failed.
#[derive(Debug)]
pub enum DeleteEmployeeError {
    /// Any storage failure.
    Unknown { source: DbError },
}

impl DeleteEmployeeError {
    /// The storage failure behind this error.
    pub open spec fn spec_source(self) -> DbError {
        match self {
            DeleteEmployeeError::Unknown { source } => source,
        }
    }

    /// Unwraps the storage failure behind this error.
    pub fn into_source(self) -> (r: DbError)
        ensures
            r == self.spec_source(),
    {
        match self {
            DeleteEmployeeError::Unknown { source } => source,
        }
    }
}

/// Why listing the employees failed.
#[derive(Debug)]
pub enum GetEmployeesError {
    /// Any storage failure.
    Unknown { source: DbError },
}

impl GetEmployeesError {
    /// The storage failure behind this error.
    pub open spec fn spec_source(self) -> DbError {
        match self {
            GetEmployeesError::Unknown { source } => source,
        }
    }

    /// Unwraps the storage failure behind this error.
    pub fn into_source(self) -> (r: DbError)
        ensures
            r == self.spec_source(),
    {
        match self {
            GetEmployeesError::Unknown { source } => source,
        }
    }
}

/// Why fetching one employee failed (absence is not a failure).
#[derive(Debug)]
pub enum GetEmployeeError {
    /// Any storage failure.
    Unknown { source: DbError },
}

impl GetEmployeeError {
    /// The storage failure behind this error.
    pub open spec fn spec_source(self) -> DbError {
        match self {
            GetEmployeeError::Unknown { source } => source,
        }
    }

    /// Unwraps the storage failure behind this error.
    pub fn into_source(self) -> (r: DbError)
        ensures
            r == self.spec_source(),
    {
        match self {
            GetEmployeeError::Unknown { source } => source,
        }
    }
}

} // verus!
