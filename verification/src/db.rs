use vstd::prelude::*;

verus! {

/// What the error taxonomy reads from a storage failure: the SQLSTATE code,
/// when the database reported one, and the human-readable text.
#[verifier::ext_equal]
pub ghost struct DbErrorModel {
    pub code: Option<Seq<char>>,
    pub message: Seq<char>,
}

/// A storage-level failure, reduced to the fields the taxonomy inspects.
#[derive(Debug)]
pub struct DbError {
    pub code: Option<String>,
    pub message: String,
}

impl View for DbError {
    type V = DbErrorModel;

    open spec fn view(&self) -> DbErrorModel {
        DbErrorModel {
            code: match self.code {
                Some(c) => Some(c@),
                None => None,
            },
            message: self.message@,
        }
    }
}

/// The SQLSTATE class that the database reports for a violated unique
/// constraint.
pub open spec fn unique_violation_code() -> Seq<char> {
    "23505"@
}

/// The failure reported for a violated unique constraint.
pub open spec fn unique_violation_model() -> DbErrorModel {
    DbErrorModel {
        code: Some(unique_violation_code()),
        message: "unique constraint violated"@,
    }
}

/// The failure reported when a statement expected a row that is not there.
pub open spec fn row_not_found_model() -> DbErrorModel {
    DbErrorModel { code: None, message: "row not found"@ }
}

/// The failure reported when no fresh identifier is left to assign.
pub open spec fn ids_exhausted_model() -> DbErrorModel {
    DbErrorModel { code: None, message: "identifier space exhausted"@ }
}

impl DbError {
    /// Whether this failure reports a violated unique constraint.
    pub open spec fn is_unique_violation(self) -> bool {
        self@.code == Some(unique_violation_code())
    }

    /// The failure the storage model reports when a unique constraint on the
    /// email column is violated.
    pub fn unique_violation() -> (r: DbError)
        ensures
            r@ == unique_violation_model(),
            r.is_unique_violation(),
    {
        DbError { code: Some("23505".to_owned()), message: "unique constraint violated".to_owned() }
    }

    /// The failure the storage model reports when a statement expected a row
    /// that is not there.
    pub fn row_not_found() -> (r: DbError)
        ensures
            r@ == row_not_found_model(),
            !r.is_unique_violation(),
    {
        DbError { code: None, message: "row not found".to_owned() }
    }

    /// The failure the storage model reports when no fresh identifier is
    /// left to assign.
    pub fn ids_exhausted() -> (r: DbError)
        ensures
            r@ == ids_exhausted_model(),
            !r.is_unique_violation(),
    {
        DbError { code: None, message: "identifier space exhausted".to_owned() }
    }

    /// Reduces a sqlx failure to the fields the taxonomy inspects: the
    /// result carries exactly the input's SQLSTATE code and display text.
    pub fn from_sqlx(e: &sqlx::Error) -> (r: DbError)
        ensures
            r@ == sqlx_model_of(*e),
    {
        DbError { code: sqlx_error_code(e), message: sqlx_error_message(e) }
    }

    /// Whether the stored code equals the unique-violation SQLSTATE.
    pub fn has_unique_violation_code(&self) -> (r: bool)
        ensures
            r == self.is_unique_violation(),
    {
        let expected: String = "23505".to_owned();
        match &self.code {
            Some(c) => *c == expected,
            None => false,
        }
    }
}

#[verifier::external_type_specification]
#[verifier::external_body]
pub struct ExSqlxError(sqlx::Error);

/// A name for what `sqlx::Error::as_database_error` and
/// `DatabaseError::code` yield: the SQLSTATE code a sqlx failure carries,
/// if the database reported one.  It depends on the error value alone.
pub uninterp spec fn sqlx_code_of(e: sqlx::Error) -> Option<Seq<char>>;

/// A name for what the Display implementation of `sqlx::Error` yields:
/// the human-readable text of the failure.  It depends on the error value
/// alone.
pub uninterp spec fn sqlx_message_of(e: sqlx::Error) -> Seq<char>;

/// What the taxonomy reads from a sqlx failure, as one record.
pub open spec fn sqlx_model_of(e: sqlx::Error) -> DbErrorModel {
    DbErrorModel { code: sqlx_code_of(e), message: sqlx_message_of(e) }
}

/// Relies on sqlx::Error::as_database_error and DatabaseError::code: the
/// SQLSTATE code of a failure the database itself reported, if any.
#[verifier::external_body]
fn sqlx_error_code(e: &sqlx::Error) -> (r: Option<String>)
    ensures
        r is Some <==> sqlx_code_of(*e) is Some,
        r matches Some(c) ==> Some(c@) == sqlx_code_of(*e),
{
    e.as_database_error().and_then(|d| d.code()).map(|c| c.into_owned())
}

/// Relies on the Display implementation of sqlx::Error for the
/// human-readable text of the failure.
#[verifier::external_body]
fn sqlx_error_message(e: &sqlx::Error) -> (r: String)
    ensures
        r@ == sqlx_message_of(*e),
{
    e.to_string()
}

} // verus!
