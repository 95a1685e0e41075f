use vstd::prelude::*;

use crate::dto::Employee;
use crate::employee_errors::CreateEmployeeError;
use crate::employee_errors::DeleteEmployeeError;
use crate::employee_errors::GetEmployeeError;
use crate::employee_errors::GetEmployeesError;
use crate::employee_errors::UpdateEmployeeError;
use crate::db::row_not_found_model;
use crate::db::unique_violation_model;
use crate::store::after_create;
use crate::store::after_delete;
use crate::store::after_update;
use crate::store::can_create;
use crate::store::can_update;
use crate::store::empty_store;
use crate::store::has_email;
use crate::store::has_id;
use crate::store::row_with;
use crate::store::seq_models;
use crate::store::StoreModel;

verus! {

/// The persistence gateway for employees: create, get, get-all, update
/// and delete against one table, each call its own transaction.
pub trait EmployeeRepo: Sized {
    /// The gateway's invariant.
    spec fn inv(&self) -> bool;

    /// The abstract state of the employees table.
    spec fn employees(&self) -> StoreModel;

    /// A gateway over an empty table.
    fn new() -> (r: Self)
        ensures
            r.inv(),
            r.employees() == empty_store(),
    ;

    /// Inserts `ri` as a new row; storage assigns the identifier, which
    /// the returned record carries.  Fails with `Duplicate` when the email
    /// is taken and with `Unknown` on any other storage failure.
    fn create(&mut self, ri: &Employee) -> (r: Result<Employee, CreateEmployeeError>)
        requires
            old(self).inv(),
        ensures
            final(self).inv(),
            r is Ok <==> can_create(old(self).employees(), ri@),
            r matches Ok(rec) ==> (final(self).employees() == after_create(
                old(self).employees(),
                ri@,
            ) && rec@ == ri@.with_id(old(self).employees().next_id)),
            r is Err ==> final(self).employees() == old(self).employees(),
            r matches Err(e) ==> (if has_email(old(self).employees().rows, ri@.email) {
                e matches CreateEmployeeError::Duplicate { id, source } && id@ == ri@.email
                    && source.is_unique_violation()
            } else {
                e matches CreateEmployeeError::Unknown { source } && !source.is_unique_violation()
            }),
    ;

    /// Fetches the record carrying `id`, or none when no row does;
    /// absence is not a failure.
    fn get(&self, id: u128) -> (r: Result<Option<Employee>, GetEmployeeError>)
        requires
            self.inv(),
        ensures
            r is Ok,
            r->Ok_0 is Some <==> has_id(self.employees().rows, id),
            r->Ok_0 matches Some(rec) ==> rec@ == row_with(self.employees().rows, id),
    ;

    /// Removes the row carrying `id` if one does; removing an absent row
    /// also succeeds.
    fn delete(&mut self, id: u128) -> (r: Result<(), DeleteEmployeeError>)
        requires
            old(self).inv(),
        ensures
            final(self).inv(),
            r is Ok,
            final(self).employees() == after_delete(old(self).employees(), id),
    ;

    /// Replaces every field but the identifier of the row carrying
    /// `ri.id` with `ri`'s fields.  Fails with `Unknown` when the row is
    /// absent or the new email collides with another row.
    fn update(&mut self, ri: &Employee) -> (r: Result<Employee, UpdateEmployeeError>)
        requires
            old(self).inv(),
        ensures
            final(self).inv(),
            r is Ok <==> can_update(old(self).employees(), ri@),
            r matches Ok(rec) ==> (final(self).employees() == after_update(
                old(self).employees(),
                ri@,
            ) && rec@ == ri@),
            r is Err ==> final(self).employees() == old(self).employees(),
            r matches Err(e) ==> (e matches UpdateEmployeeError::Unknown { source } && source@ == (
            if !has_id(old(self).employees().rows, ri@.id) {
                row_not_found_model()
            } else {
                unique_violation_model()
            })),
    ;

    /// Every row of the table, in storage order.
    fn get_all(&self) -> (r: Result<Vec<Employee>, GetEmployeesError>)
        requires
            self.inv(),
        ensures
            r is Ok,
            r matches Ok(v) ==> seq_models(v@) == self.employees().rows,
    ;
}

} // verus!
