use vstd::prelude::*;
use vstd::string::StringExecFns;

use crate::employee_errors::CreateEmployeeError;
use crate::employee_errors::DeleteEmployeeError;
use crate::employee_errors::GetEmployeeError;
use crate::employee_errors::GetEmployeesError;
use crate::employee_errors::UpdateEmployeeError;
use crate::roster_repo::RosterItemError;

verus! {

pub const STATUS_OK: u16 = 200;

pub const STATUS_CREATED: u16 = 201;

pub const STATUS_NOT_FOUND: u16 = 404;

pub const STATUS_UNPROCESSABLE_ENTITY: u16 = 422;

pub const STATUS_INTERNAL_SERVER_ERROR: u16 = 500;

/// A successful API response: the status line and the enveloped body,
/// which repeats the status code.
#[derive(Debug)]
pub struct ApiSuccess<T> {
    pub status: u16,
    pub body: ApiResponseBody<T>,
}

impl<T> ApiSuccess<T> {
    pub fn new(status: u16, data: T) -> (r: Self)
        ensures
            r.status == status,
            r.body.status_code == status,
            r.body.data == data,
    {
        ApiSuccess { status, body: ApiResponseBody::new(status, data) }
    }
}

/// Generic response structure shared by all API responses.
#[derive(Debug)]
pub struct ApiResponseBody<T> {
    pub status_code: u16,
    pub data: T,
}

impl<T> ApiResponseBody<T> {
    pub fn new(status_code: u16, data: T) -> (r: Self)
        ensures
            r.status_code == status_code,
            r.data == data,
    {
        ApiResponseBody { status_code, data }
    }
}

impl ApiResponseBody<ApiErrorData> {
    pub fn new_error(status_code: u16, message: String) -> (r: Self)
        ensures
            r.status_code == status_code,
            r.data.message == message,
    {
        ApiResponseBody { status_code, data: ApiErrorData { message } }
    }
}

/// The response data format for all error responses.
#[derive(Debug)]
pub struct ApiErrorData {
    pub message: String,
}

/// A typed API failure, carrying the server-side detail text.
#[derive(Debug)]
pub enum ApiError {
    InternalServerError(String),
    UnprocessableEntity(String),
    NotFound(String),
}

impl ApiError {
    /// The status and envelope of the HTTP response for this failure.
    /// Not-found and internal failures answer with a generic message —
    /// their detail is only for the server-side log — while an
    /// unprocessable entity echoes the composed message.
    pub fn response_parts(self) -> (r: (u16, ApiResponseBody<ApiErrorData>))
        ensures
            self is NotFound ==> (r.0 == STATUS_NOT_FOUND && r.1.status_code == STATUS_NOT_FOUND
                && r.1.data.message@ == "Item not found"@),
            self is InternalServerError ==> (r.0 == STATUS_INTERNAL_SERVER_ERROR
                && r.1.status_code == STATUS_INTERNAL_SERVER_ERROR && r.1.data.message@
                == "Internal server error"@),
            self matches ApiError::UnprocessableEntity(m) ==> (r.0 == STATUS_UNPROCESSABLE_ENTITY
                && r.1.status_code == STATUS_UNPROCESSABLE_ENTITY && r.1.data.message == m),
    {
        match self {
            ApiError::NotFound(_detail) => (
                STATUS_NOT_FOUND,
                ApiResponseBody::new_error(STATUS_NOT_FOUND, "Item not found".to_owned()),
            ),
            ApiError::InternalServerError(_detail) => (
                STATUS_INTERNAL_SERVER_ERROR,
                ApiResponseBody::new_error(
                    STATUS_INTERNAL_SERVER_ERROR,
                    "Internal server error".to_owned(),
                ),
            ),
            ApiError::UnprocessableEntity(message) => (
                STATUS_UNPROCESSABLE_ENTITY,
                ApiResponseBody::new_error(STATUS_UNPROCESSABLE_ENTITY, message),
            ),
        }
    }

    /// Maps a create failure to its API outcome: duplicate-identity
    /// failures are unprocessable, with the conflicting email in the
    /// echoed message; everything else is internal.
    pub fn from_create_employee_error(e: CreateEmployeeError) -> (r: ApiError)
        ensures
            e is CreateFailed ==> (r matches ApiError::UnprocessableEntity(m) && m@
                == "employee already exists from source "@ + e.spec_source()@.message),
            e matches CreateEmployeeError::Duplicate { id, source } ==> (r matches
                ApiError::UnprocessableEntity(m) && m@ == "employee with id "@ + id@
                + " already exists from source "@ + source@.message),
            e is CommitFailed ==> (r matches ApiError::InternalServerError(m) && m@
                == e.spec_source()@.message),
            e is Unknown ==> (r matches ApiError::InternalServerError(m) && m@
                == e.spec_source()@.message),
    {
        match e {
            CreateEmployeeError::CreateFailed { id: _, source } => ApiError::UnprocessableEntity(
                "employee already exists from source ".to_owned().concat(source.message.as_str()),
            ),
            CreateEmployeeError::Duplicate { id, source } => ApiError::UnprocessableEntity(
                "employee with id ".to_owned().concat(id.as_str()).concat(
                    " already exists from source ",
                ).concat(source.message.as_str()),
            ),
            CreateEmployeeError::CommitFailed { source } => ApiError::InternalServerError(
                source.message,
            ),
            CreateEmployeeError::Unknown { source } => ApiError::InternalServerError(
                source.message,
            ),
        }
    }

    /// Maps an update failure to its API outcome: internal, with the
    /// storage detail as the logged text.
    pub fn from_update_employee_error(e: UpdateEmployeeError) -> (r: ApiError)
        ensures
            r matches ApiError::InternalServerError(m) && m@ == e.spec_source()@.message,
    {
        match e {
            UpdateEmployeeError::CommitFailed { source } => ApiError::InternalServerError(
                source.message,
            ),
            UpdateEmployeeError::Unknown { source } => ApiError::InternalServerError(
                source.message,
            ),
        }
    }

    /// Maps a delete failure to its API outcome: internal.
    pub fn from_delete_employee_error(e: DeleteEmployeeError) -> (r: ApiError)
        ensures
            r matches ApiError::InternalServerError(m) && m@ == e.spec_source()@.message,
    {
        match e {
            DeleteEmployeeError::Unknown { source } => ApiError::InternalServerError(
                source.message,
            ),
        }
    }

    /// Maps a fetch failure to its API outcome: internal.
    pub fn from_get_employee_error(e: GetEmployeeError) -> (r: ApiError)
        ensures
            r matches ApiError::InternalServerError(m) && m@ == e.spec_source()@.message,
    {
        match e {
            GetEmployeeError::Unknown { source } => ApiError::InternalServerError(source.message),
        }
    }

    /// Maps a listing failure to its API outcome: internal.
    pub fn from_get_employees_error(e: GetEmployeesError) -> (r: ApiError)
        ensures
            r matches ApiError::InternalServerError(m) && m@ == e.spec_source()@.message,
    {
        match e {
            GetEmployeesError::Unknown { source } => ApiError::InternalServerError(source.message),
        }
    }

    /// Maps a roster failure to its API outcome: duplicate-identity
    /// failures are unprocessable; everything else is internal, with the
    /// storage detail as the logged text.
    pub fn from_roster_item_error(e: RosterItemError) -> (r: ApiError)
        ensures
            e is CreateFailed ==> (r matches ApiError::UnprocessableEntity(m) && m@
                == "roster item already exists from source "@ + e.spec_source()@.message),
            e is Duplicate ==> (r matches ApiError::UnprocessableEntity(m) && m@
                == "roster item already exists from source "@ + e.spec_source()@.message),
            e is CommitFailed ==> (r matches ApiError::InternalServerError(m) && m@
                == e.spec_source()@.message),
            e is Unknown ==> (r matches ApiError::InternalServerError(m) && m@
                == e.spec_source()@.message),
            e is Sqlx ==> (r matches ApiError::InternalServerError(m) && m@
                == e.spec_source()@.message),
    {
        match e {
            RosterItemError::CreateFailed { id: _, source } => ApiError::UnprocessableEntity(
                "roster item already exists from source ".to_owned().concat(
                    source.message.as_str(),
                ),
            ),
            RosterItemError::Duplicate { id: _, source } => ApiError::UnprocessableEntity(
                "roster item already exists from source ".to_owned().concat(
                    source.message.as_str(),
                ),
            ),
            RosterItemError::CommitFailed { source } => ApiError::InternalServerError(
                source.message,
            ),
            RosterItemError::Unknown { id: _, source } => ApiError::InternalServerError(
                source.message,
            ),
            RosterItemError::Sqlx(source) => ApiError::InternalServerError(source.message),
        }
    }
}

/// A name for what `uuid::Uuid::parse_str` accepts: the 128-bit value of
/// the UUID a string spells, when it spells one.
pub uninterp spec fn parsed_uuid(s: Seq<char>) -> Option<u128>;

/// Relies on uuid::Uuid::parse_str and Uuid::as_u128: whether and what a
/// string parses to depends on its characters alone.
#[verifier::external_body]
pub(crate) fn parse_uuid_str(s: &str) -> (r: Option<u128>)
    ensures
        r == parsed_uuid(s@),
{
    uuid::Uuid::parse_str(s).ok().map(|u| u.as_u128())
}

} // verus!
