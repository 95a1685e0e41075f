use vstd::prelude::*;

use crate::dto::Employee;
use crate::dto::RosterItem;
use crate::employee_errors::CreateEmployeeError;
use crate::employee_errors::DeleteEmployeeError;
use crate::employee_errors::GetEmployeeError;
use crate::employee_errors::GetEmployeesError;
use crate::employee_errors::UpdateEmployeeError;
use crate::employee_repo::EmployeeRepo;
use crate::roster_repo::RosterItemError;
use crate::roster_repo::RosterRepo;
use crate::store::Store;
use crate::store::StoreModel;

verus! {

/// An in-memory database holding the employees table and the roster
/// table: the verified model of the storage engine that both gateways
/// run against.
pub struct MemoryDb {
    pub employees: Store<Employee>,
    pub roster: Store<RosterItem>,
}

impl MemoryDb {
    /// Both tables are well-formed.
    pub open spec fn wf(&self) -> bool {
        self.employees.inv() && self.roster.inv()
    }
}

impl EmployeeRepo for MemoryDb {
    open spec fn inv(&self) -> bool {
        self.wf()
    }

    open spec fn employees(&self) -> StoreModel {
        self.employees.model()
    }

    fn new() -> (r: Self) {
        MemoryDb { employees: Store::new(), roster: Store::new() }
    }

    fn create(&mut self, ri: &Employee) -> (r: Result<Employee, CreateEmployeeError>) {
        match self.employees.create(ri) {
            Ok(rec) => Ok(rec),
            Err(e) => Err(CreateEmployeeError::from_db_with_email(e, ri.email.as_str())),
        }
    }

    fn get(&self, id: u128) -> (r: Result<Option<Employee>, GetEmployeeError>) {
        Ok(self.employees.get(id))
    }

    fn delete(&mut self, id: u128) -> (r: Result<(), DeleteEmployeeError>) {
        self.employees.delete(id);
        Ok(())
    }

    fn update(&mut self, ri: &Employee) -> (r: Result<Employee, UpdateEmployeeError>) {
        match self.employees.update(ri) {
            Ok(rec) => Ok(rec),
            Err(e) => Err(UpdateEmployeeError::Unknown { source: e }),
        }
    }

    fn get_all(&self) -> (r: Result<Vec<Employee>, GetEmployeesError>) {
        Ok(self.employees.get_all())
    }
}

impl RosterRepo for MemoryDb {
    open spec fn inv(&self) -> bool {
        self.wf()
    }

    open spec fn roster(&self) -> StoreModel {
        self.roster.model()
    }

    fn new() -> (r: Self) {
        MemoryDb { employees: Store::new(), roster: Store::new() }
    }

    fn create(&mut self, ri: &RosterItem) -> (r: Result<RosterItem, RosterItemError>) {
        let id = ri.id;
        match self.roster.create(ri) {
            Ok(rec) => Ok(rec),
            Err(e) => {
                if e.has_unique_violation_code() {
                    Err(RosterItemError::Duplicate { id, source: e })
                } else {
                    Err(RosterItemError::Unknown { id, source: e })
                }
            },
        }
    }

    fn get(&self, id: u128) -> (r: Result<Option<RosterItem>, RosterItemError>) {
        Ok(self.roster.get(id))
    }

    fn delete(&mut self, id: u128) -> (r: Result<(), RosterItemError>) {
        self.roster.delete(id);
        Ok(())
    }

    fn update(&mut self, ri: &RosterItem) -> (r: Result<RosterItem, RosterItemError>) {
        let id = ri.id;
        match self.roster.update(ri) {
            Ok(rec) => Ok(rec),
            Err(e) => Err(RosterItemError::Unknown { id, source: e }),
        }
    }

    fn get_all(&self) -> (r: Result<Vec<RosterItem>, RosterItemError>) {
        Ok(self.roster.get_all())
    }
}

} // verus!
