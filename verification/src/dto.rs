use vstd::prelude::*;

use crate::decimal::Decimal;
use crate::store::Entity;

verus! {

/// The mathematical content of one stored row: what a persisted employee or
/// roster record says, with the strings read as character sequences.
#[verifier::ext_equal]
pub ghost struct RecordModel {
    pub id: u128,
    pub first_name: Seq<char>,
    pub last_name: Seq<char>,
    pub email: Seq<char>,
    pub salary: Decimal,
}

impl RecordModel {
    /// The same record under another identifier.
    pub open spec fn with_id(self, id: u128) -> RecordModel {
        RecordModel { id, ..self }
    }
}

/// An employee record.  The identifier is the 128-bit value of the row's
/// UUID; the nil UUID (zero) marks a record that storage has not named yet.
#[derive(Debug, Eq)]
pub struct Employee {
    pub id: u128,
    pub first_name: String,
    pub last_name: String,
    pub email: String,
    pub salary: Decimal,
}

impl View for Employee {
    type V = RecordModel;

    open spec fn view(&self) -> RecordModel {
        RecordModel {
            id: self.id,
            first_name: self.first_name@,
            last_name: self.last_name@,
            email: self.email@,
            salary: self.salary,
        }
    }
}

impl Clone for Employee {
    fn clone(&self) -> (r: Self)
        ensures
            r@ == self@,
    {
        Employee {
            id: self.id,
            first_name: self.first_name.clone(),
            last_name: self.last_name.clone(),
            email: self.email.clone(),
            salary: self.salary,
        }
    }
}

impl PartialEq for Employee {
    fn eq(&self, other: &Self) -> (r: bool) {
        self.id == other.id && self.first_name == other.first_name && self.last_name
            == other.last_name && self.email == other.email && self.salary == other.salary
    }
}

impl vstd::std_specs::cmp::PartialEqSpecImpl for Employee {
    open spec fn obeys_eq_spec() -> bool {
        true
    }

    open spec fn eq_spec(&self, other: &Self) -> bool {
        self@ == other@
    }
}

impl Entity for Employee {
    open spec fn model(&self) -> RecordModel {
        self@
    }

    fn id(&self) -> (r: u128) {
        self.id
    }

    fn same_email(&self, other: &Self) -> (r: bool) {
        self.email == other.email
    }

    fn copy_record(&self) -> (r: Self) {
        self.clone()
    }

    fn copy_with_id(&self, id: u128) -> (r: Self) {
        Employee {
            id,
            first_name: self.first_name.clone(),
            last_name: self.last_name.clone(),
            email: self.email.clone(),
            salary: self.salary,
        }
    }
}

/// A roster record.  Structurally identical to `Employee`; kept as a
/// distinct type because it lives in a distinct table with its own lifecycle.
#[derive(Debug, Eq)]
pub struct RosterItem {
    pub id: u128,
    pub first_name: String,
    pub last_name: String,
    pub email: String,
    pub salary: Decimal,
}

impl View for RosterItem {
    type V = RecordModel;

    open spec fn view(&self) -> RecordModel {
        RecordModel {
            id: self.id,
            first_name: self.first_name@,
            last_name: self.last_name@,
            email: self.email@,
            salary: self.salary,
        }
    }
}

impl Clone for RosterItem {
    fn clone(&self) -> (r: Self)
        ensures
            r@ == self@,
    {
        RosterItem {
            id: self.id,
            first_name: self.first_name.clone(),
            last_name: self.last_name.clone(),
            email: self.email.clone(),
            salary: self.salary,
        }
    }
}

impl PartialEq for RosterItem {
    fn eq(&self, other: &Self) -> (r: bool) {
        self.id == other.id && self.first_name == other.first_name && self.last_name
            == other.last_name && self.email == other.email && self.salary == other.salary
    }
}

impl vstd::std_specs::cmp::PartialEqSpecImpl for RosterItem {
    open spec fn obeys_eq_spec() -> bool {
        true
    }

    open spec fn eq_spec(&self, other: &Self) -> bool {
        self@ == other@
    }
}

impl Entity for RosterItem {
    open spec fn model(&self) -> RecordModel {
        self@
    }

    fn id(&self) -> (r: u128) {
        self.id
    }

    fn same_email(&self, other: &Self) -> (r: bool) {
        self.email == other.email
    }

    fn copy_record(&self) -> (r: Self) {
        self.clone()
    }

    fn copy_with_id(&self, id: u128) -> (r: Self) {
        RosterItem {
            id,
            first_name: self.first_name.clone(),
            last_name: self.last_name.clone(),
            email: self.email.clone(),
            salary: self.salary,
        }
    }
}

/// A label that can be attached to assignments.  Schema fragment with no
/// wired behaviour.
#[derive(Debug, Clone)]
pub struct Tag {
    pub id: u128,
    pub tag: String,
}

/// A named initiative.  Schema fragment with no wired behaviour.
#[derive(Debug, Clone)]
pub struct Initiative {
    pub id: u128,
    pub initiative: String,
}

/// Join row between assignments and tags.  Schema fragment with no wired
/// behaviour.
#[derive(Debug, Clone)]
pub struct AssignmentTag {
    pub id: u128,
    pub assignment_id: u128,
    pub tag_id: u128,
}

/// Join row between roster assignments and tags.  Schema fragment with no
/// wired behaviour.
#[derive(Debug, Clone)]
pub struct RosterAssignmentTag {
    pub id: u128,
    pub roster_assignment_id: u128,
    pub tag_id: u128,
}

} // verus!
