use vstd::prelude::*;

use crate::db::row_not_found_model;
use crate::db::sqlx_model_of;
use crate::db::unique_violation_model;
use crate::db::DbError;
use crate::dto::RosterItem;
use crate::store::after_create;
use crate::store::after_delete;
use crate::store::after_update;
use crate::store::can_create;
use crate::store::can_update;
use crate::store::empty_store;
use crate::store::has_email;
use crate::store::has_id;
use crate::store::row_with;
use crate::store::seq_models;
use crate::store::StoreModel;

verus! {

/// Why a roster operation failed.  One taxonomy serves every roster
/// operation, with a transparent passthrough variant for unclassified
/// storage failures.
#[derive(Debug)]
pub enum RosterItemError {
    /// A row already existed under a conflicting identity before commit.
    CreateFailed { id: u128, source: DbError },
    /// The email unique constraint was violated.
    Duplicate { id: u128, source: DbError },
    /// The transaction commit was rejected.
    CommitFailed { source: DbError },
    /// Any other storage failure touching the row identified by `id`.
    Unknown { id: u128, source: DbError },
    /// A storage failure passed through unclassified.
    Sqlx(DbError),
}

impl RosterItemError {
    /// The storage failure behind this error.
    pub open spec fn spec_source(self) -> DbError {
        match self {
            RosterItemError::CreateFailed { source, .. } => source,
            RosterItemError::Duplicate { source, .. } => source,
            RosterItemError::CommitFailed { source } => source,
            RosterItemError::Unknown { source, .. } => source,
            RosterItemError::Sqlx(source) => source,
        }
    }

    /// Wraps a sqlx failure unclassified, as the passthrough conversion
    /// does; the carried source holds exactly the input's code and text.
    pub fn from_sqlx(error: sqlx::Error) -> (r: Self)
        ensures
            r matches RosterItemError::Sqlx(source) && source@ == sqlx_model_of(error),
    {
        RosterItemError::Sqlx(DbError::from_sqlx(&error))
    }

    /// Unwraps the storage failure behind this error.
    pub fn into_source(self) -> (r: DbError)
        ensures
            r == self.spec_source(),
    {
        match self {
            RosterItemError::CreateFailed { id: _, source } => source,
            RosterItemError::Duplicate { id: _, source } => source,
            RosterItemError::CommitFailed { source } => source,
            RosterItemError::Unknown { id: _, source } => source,
            RosterItemError::Sqlx(source) => source,
        }
    }
}

/// The persistence gateway for roster records: create, get, get-all,
/// update and delete against one table, each call its own transaction.
pub trait RosterRepo: Sized {
    /// The gateway's invariant.
    spec fn inv(&self) -> bool;

    /// The abstract state of the roster table.
    spec fn roster(&self) -> StoreModel;

    /// A gateway over an empty table.
    fn new() -> (r: Self)
        ensures
            r.inv(),
            r.roster() == empty_store(),
    ;

    /// Inserts `ri` as a new row; storage assigns the identifier, which
    /// the returned record carries.  Fails with `Duplicate` when the
    /// email is taken and with `Unknown` on any other storage failure.
    fn create(&mut self, ri: &RosterItem) -> (r: Result<RosterItem, RosterItemError>)
        requires
            old(self).inv(),
        ensures
            final(self).inv(),
            r is Ok <==> can_create(old(self).roster(), ri@),
            r matches Ok(rec) ==> (final(self).roster() == after_create(old(self).roster(), ri@)
                && rec@ == ri@.with_id(old(self).roster().next_id)),
            r is Err ==> final(self).roster() == old(self).roster(),
            r matches Err(e) ==> (if has_email(old(self).roster().rows, ri@.email) {
                e matches RosterItemError::Duplicate { id, source } && id == ri@.id
                    && source.is_unique_violation()
            } else {
                e matches RosterItemError::Unknown { id, source } && id == ri@.id
                    && !source.is_unique_violation()
            }),
    ;

    /// Fetches the record carrying `id`, or none when no row does;
    /// absence is not a failure.
    fn get(&self, id: u128) -> (r: Result<Option<RosterItem>, RosterItemError>)
        requires
            self.inv(),
        ensures
            r is Ok,
            r->Ok_0 is Some <==> has_id(self.roster().rows, id),
            r->Ok_0 matches Some(rec) ==> rec@ == row_with(self.roster().rows, id),
    ;

    /// Removes the row carrying `id` if one does; removing an absent row
    /// also succeeds.
    fn delete(&mut self, id: u128) -> (r: Result<(), RosterItemError>)
        requires
            old(self).inv(),
        ensures
            final(self).inv(),
            r is Ok,
            final(self).roster() == after_delete(old(self).roster(), id),
    ;

    /// Replaces every field but the identifier of the row carrying
    /// `ri.id` with `ri`'s fields.  Fails with `Unknown` when the row is
    /// absent or the new email collides with another row.
    fn update(&mut self, ri: &RosterItem) -> (r: Result<RosterItem, RosterItemError>)
        requires
            old(self).inv(),
        ensures
            final(self).inv(),
            r is Ok <==> can_update(old(self).roster(), ri@),
            r matches Ok(rec) ==> (final(self).roster() == after_update(old(self).roster(), ri@)
                && rec@ == ri@),
            r is Err ==> final(self).roster() == old(self).roster(),
            r matches Err(e) ==> (e matches RosterItemError::Unknown { id, source } && id == ri@.id
                && source@ == (if !has_id(old(self).roster().rows, ri@.id) {
                row_not_found_model()
            } else {
                unique_violation_model()
            })),
    ;

    /// Every row of the table, in storage order.
    fn get_all(&self) -> (r: Result<Vec<RosterItem>, RosterItemError>)
        requires
            self.inv(),
        ensures
            r is Ok,
            r matches Ok(v) ==> seq_models(v@) == self.roster().rows,
    ;
}

} // verus!
