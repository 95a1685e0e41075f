use vstd::prelude::*;

use crate::decimal::Decimal;
use crate::dto::Employee;
use crate::dto::RecordModel;

verus! {

/// The body of a create request: every field but the identifier, which
/// storage assigns.  It abstracts to a record under the nil placeholder
/// identifier.
#[derive(Debug)]
pub struct CreateEmployeeRequest {
    pub first_name: String,
    pub last_name: String,
    pub email: String,
    pub salary: Decimal,
}

impl View for CreateEmployeeRequest {
    type V = RecordModel;

    open spec fn view(&self) -> RecordModel {
        RecordModel {
            id: 0,
            first_name: self.first_name@,
            last_name: self.last_name@,
            email: self.email@,
            salary: self.salary,
        }
    }
}

/// The body of an update request: the full record, identifier included.
#[derive(Debug)]
pub struct UpdateEmployeeRequest {
    pub id: u128,
    pub first_name: String,
    pub last_name: String,
    pub email: String,
    pub salary: Decimal,
}

impl View for UpdateEmployeeRequest {
    type V = RecordModel;

    open spec fn view(&self) -> RecordModel {
        RecordModel {
            id: self.id,
            first_name: self.first_name@,
            last_name: self.last_name@,
            email: self.email@,
            salary: self.salary,
        }
    }
}

/// What a fetched employee answers with.
#[derive(Debug)]
pub struct GetEmployeeResponse {
    pub id: u128,
    pub first_name: String,
    pub last_name: String,
    pub email: String,
    pub salary: Decimal,
}

impl View for GetEmployeeResponse {
    type V = RecordModel;

    open spec fn view(&self) -> RecordModel {
        RecordModel {
            id: self.id,
            first_name: self.first_name@,
            last_name: self.last_name@,
            email: self.email@,
            salary: self.salary,
        }
    }
}

/// What a successful delete answers with: an empty object.
#[derive(Debug, PartialEq, Eq, Structural)]
pub struct DeleteEmployeeResponse {}

/// What a successful create answers with.
#[derive(Debug)]
pub struct CreateEmployeeResponse {
    pub id: u128,
    pub first_name: String,
    pub last_name: String,
    pub email: String,
    pub salary: Decimal,
}

impl View for CreateEmployeeResponse {
    type V = RecordModel;

    open spec fn view(&self) -> RecordModel {
        RecordModel {
            id: self.id,
            first_name: self.first_name@,
            last_name: self.last_name@,
            email: self.email@,
            salary: self.salary,
        }
    }
}

/// What a successful update answers with.
#[derive(Debug)]
pub struct UpdateEmployeeResponse {
    pub id: u128,
    pub first_name: String,
    pub last_name: String,
    pub email: String,
    pub salary: Decimal,
}

impl View for UpdateEmployeeResponse {
    type V = RecordModel;

    open spec fn view(&self) -> RecordModel {
        RecordModel {
            id: self.id,
            first_name: self.first_name@,
            last_name: self.last_name@,
            email: self.email@,
            salary: self.salary,
        }
    }
}

impl Employee {
    /// The internal record for a create request: the identifier is the
    /// nil placeholder that storage replaces.
    pub fn from_create_request(value: &CreateEmployeeRequest) -> (r: Employee)
        ensures
            r@ == value@,
    {
        Employee {
            id: 0,
            first_name: value.first_name.clone(),
            last_name: value.last_name.clone(),
            email: value.email.clone(),
            salary: value.salary,
        }
    }

    /// The internal record for an update request.
    pub fn from_update_request(value: &UpdateEmployeeRequest) -> (r: Employee)
        ensures
            r@ == value@,
    {
        Employee {
            id: value.id,
            first_name: value.first_name.clone(),
            last_name: value.last_name.clone(),
            email: value.email.clone(),
            salary: value.salary,
        }
    }
}

impl GetEmployeeResponse {
    /// The response body for a fetched record.
    pub fn of_employee(value: &Employee) -> (r: Self)
        ensures
            r@ == value@,
    {
        GetEmployeeResponse {
            id: value.id,
            first_name: value.first_name.clone(),
            last_name: value.last_name.clone(),
            email: value.email.clone(),
            salary: value.salary,
        }
    }
}

impl CreateEmployeeResponse {
    /// The response body for a created record.
    pub fn of_employee(value: &Employee) -> (r: Self)
        ensures
            r@ == value@,
    {
        CreateEmployeeResponse {
            id: value.id,
            first_name: value.first_name.clone(),
            last_name: value.last_name.clone(),
            email: value.email.clone(),
            salary: value.salary,
        }
    }
}

impl UpdateEmployeeResponse {
    /// The response body for an updated record.
    pub fn of_employee(value: &Employee) -> (r: Self)
        ensures
            r@ == value@,
    {
        UpdateEmployeeResponse {
            id: value.id,
            first_name: value.first_name.clone(),
            last_name: value.last_name.clone(),
            email: value.email.clone(),
            salary: value.salary,
        }
    }
}

/// The contents of a sequence of fetched-record responses, abstracted row
/// by row.
pub open spec fn response_models(v: Seq<GetEmployeeResponse>) -> Seq<RecordModel> {
    v.map_values(|g: GetEmployeeResponse| g@)
}

} // verus!
