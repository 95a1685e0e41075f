use vstd::prelude::*;

use crate::dto::Employee;
use crate::employee_repo::EmployeeRepo;
use crate::http::api::parse_uuid_str;
use crate::http::api::parsed_uuid;
use crate::http::api::ApiError;
use crate::http::api::ApiSuccess;
use crate::http::api::STATUS_CREATED;
use crate::http::api::STATUS_OK;
use crate::models::employee::response_models;
use crate::models::employee::CreateEmployeeRequest;
use crate::models::employee::CreateEmployeeResponse;
use crate::models::employee::DeleteEmployeeResponse;
use crate::models::employee::GetEmployeeResponse;
use crate::models::employee::UpdateEmployeeRequest;
use crate::models::employee::UpdateEmployeeResponse;
use crate::store::after_create;
use crate::store::after_delete;
use crate::store::after_update;
use crate::store::can_create;
use crate::store::can_update;
use crate::store::has_email;
use crate::store::has_id;
use crate::store::row_with;

verus! {

/// Creates an employee from the request body and answers 201 with the
/// stored record, which carries the assigned identifier.  A taken email
/// is unprocessable; any other storage failure is internal.
pub fn create_employee<RR: EmployeeRepo>(repo: &mut RR, body: CreateEmployeeRequest) -> (r: Result<
    ApiSuccess<CreateEmployeeResponse>,
    ApiError,
>)
    requires
        old(repo).inv(),
    ensures
        final(repo).inv(),
        r is Ok <==> can_create(old(repo).employees(), body@),
        r matches Ok(s) ==> (s.status == STATUS_CREATED && s.body.status_code == STATUS_CREATED
            && s.body.data@ == body@.with_id(old(repo).employees().next_id)
            && final(repo).employees() == after_create(old(repo).employees(), body@)),
        r is Err ==> final(repo).employees() == old(repo).employees(),
        r matches Err(e) ==> (if has_email(old(repo).employees().rows, body@.email) {
            e is UnprocessableEntity
        } else {
            e is InternalServerError
        }),
{
    let domain_req = Employee::from_create_request(&body);
    match repo.create(&domain_req) {
        Ok(ri) => Ok(ApiSuccess::new(STATUS_CREATED, CreateEmployeeResponse::of_employee(&ri))),
        Err(e) => Err(ApiError::from_create_employee_error(e)),
    }
}

/// Replaces the record named by the body's identifier and answers 201
/// with the updated record.  An absent row or a colliding email is an
/// internal failure, as the gateway reports both unclassified.
pub fn update_employee<RR: EmployeeRepo>(repo: &mut RR, body: UpdateEmployeeRequest) -> (r: Result<
    ApiSuccess<UpdateEmployeeResponse>,
    ApiError,
>)
    requires
        old(repo).inv(),
    ensures
        final(repo).inv(),
        r is Ok <==> can_update(old(repo).employees(), body@),
        r matches Ok(s) ==> (s.status == STATUS_CREATED && s.body.status_code == STATUS_CREATED
            && s.body.data@ == body@ && final(repo).employees() == after_update(
            old(repo).employees(),
            body@,
        )),
        r is Err ==> final(repo).employees() == old(repo).employees(),
        r matches Err(e) ==> e is InternalServerError,
{
    let domain_req = Employee::from_update_request(&body);
    match repo.update(&domain_req) {
        Ok(ri) => Ok(ApiSuccess::new(STATUS_CREATED, UpdateEmployeeResponse::of_employee(&ri))),
        Err(e) => Err(ApiError::from_update_employee_error(e)),
    }
}

/// Fetches the employee named by the path identifier and answers 200
/// with it.  A string that spells no UUID, and an identifier no row
/// carries, both answer not-found.
pub fn get_employee<RR: EmployeeRepo>(repo: &RR, id: &str) -> (r: Result<
    ApiSuccess<GetEmployeeResponse>,
    ApiError,
>)
    requires
        repo.inv(),
    ensures
        parsed_uuid(id@) is None ==> (r matches Err(e) && e matches ApiError::NotFound(m) && m@
            == "Invalid UUID"@),
        parsed_uuid(id@) matches Some(u) ==> ((has_id(repo.employees().rows, u) ==> (r matches Ok(
            s,
        ) && s.status == STATUS_OK && s.body.status_code == STATUS_OK && s.body.data@ == row_with(
            repo.employees().rows,
            u,
        ))) && (!has_id(repo.employees().rows, u) ==> (r matches Err(e) && e matches
            ApiError::NotFound(m) && m@ == "Employee item not found"@))),
{
    let employee_id = match parse_uuid_str(id) {
        Some(u) => u,
        None => {
            return Err(ApiError::NotFound("Invalid UUID".to_owned()));
        },
    };
    match repo.get(employee_id) {
        Ok(Some(ri)) => Ok(ApiSuccess::new(STATUS_OK, GetEmployeeResponse::of_employee(&ri))),
        Ok(None) => Err(ApiError::NotFound("Employee item not found".to_owned())),
        Err(e) => Err(ApiError::from_get_employee_error(e)),
    }
}

/// Deletes the employee named by the path identifier and answers 200
/// with an empty object, whether or not a row carried it.  A string that
/// spells no UUID answers not-found.
pub fn delete_employee<RR: EmployeeRepo>(repo: &mut RR, id: &str) -> (r: Result<
    ApiSuccess<DeleteEmployeeResponse>,
    ApiError,
>)
    requires
        old(repo).inv(),
    ensures
        final(repo).inv(),
        parsed_uuid(id@) is None ==> (r matches Err(e) && e matches ApiError::NotFound(m) && m@
            == "Invalid UUID"@ && final(repo).employees() == old(repo).employees()),
        parsed_uuid(id@) matches Some(u) ==> (r matches Ok(s) && s.status == STATUS_OK
            && s.body.status_code == STATUS_OK && s.body.data == (DeleteEmployeeResponse {  })
            && final(repo).employees() == after_delete(old(repo).employees(), u)),
{
    let rid = match parse_uuid_str(id) {
        Some(u) => u,
        None => {
            return Err(ApiError::NotFound("Invalid UUID".to_owned()));
        },
    };
    match repo.delete(rid) {
        Ok(()) => Ok(ApiSuccess::new(STATUS_OK, DeleteEmployeeResponse {  })),
        Err(e) => Err(ApiError::from_delete_employee_error(e)),
    }
}

/// Lists every employee and answers 200 with exactly the stored records,
/// in storage order.
pub fn get_employees<RR: EmployeeRepo>(repo: &RR) -> (r: Result<
    ApiSuccess<Vec<GetEmployeeResponse>>,
    ApiError,
>)
    requires
        repo.inv(),
    ensures
        r matches Ok(s) && s.status == STATUS_OK && s.body.status_code == STATUS_OK
            && response_models(s.body.data@) == repo.employees().rows,
{
    match repo.get_all() {
        Ok(items) => {
            let n = items.len();
            let mut response_data: Vec<GetEmployeeResponse> = Vec::new();
            let mut i: usize = 0;
            while i < n
                invariant
                    n == items.len(),
                    0 <= i <= n,
                    response_models(response_data@) =~= crate::store::seq_models(
                        items@,
                    ).take(i as int),
                decreases n - i,
            {
                let ghost prev = response_data@;
                let g = GetEmployeeResponse::of_employee(&items[i]);
                response_data.push(g);
                proof {
                    assert(response_data@ == prev.push(g));
                    assert(response_models(prev).len() == i);
                    assert forall|k: int| 0 <= k < i + 1 implies response_models(response_data@)[k]
                        == crate::store::seq_models(items@).take(i + 1)[k] by {
                        if k < i {
                            assert(response_models(prev)[k] == crate::store::seq_models(
                                items@,
                            ).take(i as int)[k]);
                        } else {
                            assert(response_data@[k] == g);
                        }
                    }
                    assert(response_models(response_data@) =~= crate::store::seq_models(
                        items@,
                    ).take(i + 1));
                }
                i += 1;
            }
            proof {
                assert(crate::store::seq_models(items@).take(n as int) =~= crate::store::seq_models(
                    items@,
                ));
            }
            Ok(ApiSuccess::new(STATUS_OK, response_data))
        },
        Err(e) => Err(ApiError::from_get_employees_error(e)),
    }
}

} // verus!
