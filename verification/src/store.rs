use vstd::prelude::*;

use crate::db::ids_exhausted_model;
use crate::db::row_not_found_model;
use crate::db::unique_violation_model;
use crate::db::DbError;
use crate::dto::RecordModel;

verus! {

/// The abstract state of one storage table: the rows it holds, in the
/// order storage returns them, and the next identifier it will assign.
#[verifier::ext_equal]
pub ghost struct StoreModel {
    pub rows: Seq<RecordModel>,
    pub next_id: u128,
}

/// Whether some row carries the identifier `id`.
pub open spec fn has_id(rows: Seq<RecordModel>, id: u128) -> bool {
    exists|i: int| 0 <= i < rows.len() && #[trigger] rows[i].id == id
}

/// The index of the row carrying `id` (rows of a well-formed store carry
/// distinct identifiers, so it is unique when it exists).
pub open spec fn id_index(rows: Seq<RecordModel>, id: u128) -> int {
    choose|i: int| 0 <= i < rows.len() && #[trigger] rows[i].id == id
}

/// The row carrying `id`.
pub open spec fn row_with(rows: Seq<RecordModel>, id: u128) -> RecordModel {
    rows[id_index(rows, id)]
}

/// Whether some row carries the email `email`.
pub open spec fn has_email(rows: Seq<RecordModel>, email: Seq<char>) -> bool {
    exists|i: int| 0 <= i < rows.len() && #[trigger] rows[i].email == email
}

/// Whether a row other than the one identified by `id` carries `email`.
pub open spec fn email_taken_by_other(rows: Seq<RecordModel>, email: Seq<char>, id: u128) -> bool {
    exists|i: int|
        0 <= i < rows.len() && (#[trigger] rows[i]).email == email && rows[i].id != id
}

impl StoreModel {
    /// Table well-formedness: identifiers are non-nil, below the next one
    /// to be assigned, and pairwise distinct, and emails are unique.
    pub open spec fn wf(self) -> bool {
        &&& 0 < self.next_id
        &&& forall|i: int|
            0 <= i < self.rows.len() ==> 0 < (#[trigger] self.rows[i]).id < self.next_id
        &&& forall|i: int, j: int|
            0 <= i < self.rows.len() && 0 <= j < self.rows.len() && i != j ==> (
            #[trigger] self.rows[i]).id != (#[trigger] self.rows[j]).id && self.rows[i].email
                != self.rows[j].email
    }
}

/// The state of a table that holds nothing yet.
pub open spec fn empty_store() -> StoreModel {
    StoreModel { rows: Seq::empty(), next_id: 1 }
}

/// Whether inserting `r` can succeed: its email is free and an identifier
/// is left to assign.
pub open spec fn can_create(m: StoreModel, r: RecordModel) -> bool {
    !has_email(m.rows, r.email) && m.next_id < u128::MAX
}

/// The table after a successful insert of `r`: the new row is appended
/// under the assigned identifier.
pub open spec fn after_create(m: StoreModel, r: RecordModel) -> StoreModel {
    StoreModel { rows: m.rows.push(r.with_id(m.next_id)), next_id: (m.next_id + 1) as u128 }
}

/// Whether replacing the row identified by `r.id` with `r` can succeed:
/// the row exists and `r`'s email collides with no other row.
pub open spec fn can_update(m: StoreModel, r: RecordModel) -> bool {
    has_id(m.rows, r.id) && !email_taken_by_other(m.rows, r.email, r.id)
}

/// The table after a successful update: the row keeps its place, all its
/// fields are replaced.
pub open spec fn after_update(m: StoreModel, r: RecordModel) -> StoreModel {
    StoreModel { rows: m.rows.update(id_index(m.rows, r.id), r), ..m }
}

/// The table after a delete: the row carrying `id` is removed if present,
/// and nothing happens otherwise.
pub open spec fn after_delete(m: StoreModel, id: u128) -> StoreModel {
    if has_id(m.rows, id) {
        StoreModel { rows: m.rows.remove(id_index(m.rows, id)), ..m }
    } else {
        m
    }
}

/// A record kind that a table can hold: it abstracts to a `RecordModel`
/// and offers the operations the table needs.
pub trait Entity: Sized {
    /// The mathematical content of the record.
    spec fn model(&self) -> RecordModel;

    /// The record's identifier.
    fn id(&self) -> (r: u128)
        ensures
            r == self.model().id,
    ;

    /// Whether the two records carry the same email.
    fn same_email(&self, other: &Self) -> (r: bool)
        ensures
            r == (self.model().email == other.model().email),
    ;

    /// A record with the same content.
    fn copy_record(&self) -> (r: Self)
        ensures
            r.model() == self.model(),
    ;

    /// The same record under the identifier `id`.
    fn copy_with_id(&self, id: u128) -> (r: Self)
        ensures
            r.model() == self.model().with_id(id),
    ;
}

/// The contents of a sequence of records, abstracted row by row.
pub open spec fn seq_models<R: Entity>(rows: Seq<R>) -> Seq<RecordModel> {
    rows.map_values(|r: R| r.model())
}

/// One storage table held in memory: the verified model of a database
/// table whose rows are records of kind `R`.  Identifiers are assigned by
/// the table itself, in order, starting at one; the nil identifier is
/// never assigned.
pub struct Store<R: Entity> {
    rows: Vec<R>,
    next_id: u128,
}

impl<R: Entity> Store<R> {
    /// The abstract state of the table.
    pub closed spec fn model(&self) -> StoreModel {
        StoreModel { rows: seq_models(self.rows@), next_id: self.next_id }
    }

    /// The table's invariant.
    pub open spec fn inv(&self) -> bool {
        self.model().wf()
    }

    /// An empty table.
    pub fn new() -> (r: Store<R>)
        ensures
            r.inv(),
            r.model() == empty_store(),
    {
        let r = Store { rows: Vec::new(), next_id: 1u128 };
        proof {
            assert(r.model().rows =~= empty_store().rows);
            assert(r.model() =~= empty_store());
        }
        r
    }

    /// Whether some row carries the same email as `r`.
    fn contains_email(&self, r: &R) -> (ret: bool)
        ensures
            ret == has_email(self.model().rows, r.model().email),
    {
        let n = self.rows.len();
        let mut i: usize = 0;
        while i < n
            invariant
                n == self.rows.len(),
                0 <= i <= n,
                forall|j: int|
                    0 <= j < i ==> (#[trigger] self.model().rows[j]).email != r.model().email,
            decreases n - i,
        {
            if self.rows[i].same_email(r) {
                proof {
                    assert(self.model().rows[i as int].email == r.model().email);
                }
                return true;
            }
            i += 1;
        }
        false
    }

    /// Inserts `r` as a new row under a fresh identifier, which the
    /// returned record carries.  Fails with a unique-violation error when
    /// some row already carries `r`'s email, and with an exhaustion error
    /// when no identifier is left; the table is unchanged on failure.
    pub fn create(&mut self, r: &R) -> (ret: Result<R, DbError>)
        requires
            old(self).inv(),
        ensures
            final(self).inv(),
            ret is Ok <==> can_create(old(self).model(), r.model()),
            ret matches Ok(rec) ==> final(self).model() == after_create(
                old(self).model(),
                r.model(),
            ) && rec.model() == r.model().with_id(old(self).model().next_id),
            ret is Err ==> final(self).model() == old(self).model(),
            ret matches Err(e) ==> e@ == (if has_email(old(self).model().rows, r.model().email) {
                unique_violation_model()
            } else {
                ids_exhausted_model()
            }),
    {
        if self.contains_email(r) {
            return Err(DbError::unique_violation());
        }
        if self.next_id == u128::MAX {
            return Err(DbError::ids_exhausted());
        }
        let assigned = self.next_id;
        let rec = r.copy_with_id(assigned);
        let stored = rec.copy_record();
        self.rows.push(stored);
        self.next_id = assigned + 1;
        proof {
            let old_m = old(self).model();
            let new_m = self.model();
            assert(new_m.rows =~= old_m.rows.push(r.model().with_id(old_m.next_id)));
            assert(new_m =~= after_create(old_m, r.model()));
            assert forall|i: int, j: int|
                0 <= i < new_m.rows.len() && 0 <= j < new_m.rows.len() && i != j implies (
            #[trigger] new_m.rows[i]).id != (#[trigger] new_m.rows[j]).id && new_m.rows[i].email
                != new_m.rows[j].email by {
                if i < old_m.rows.len() && j < old_m.rows.len() {
                } else if i == old_m.rows.len() {
                    assert(old_m.rows[j].id < old_m.next_id);
                    assert(!has_email(old_m.rows, r.model().email));
                    assert(old_m.rows[j].email != r.model().email);
                } else {
                    assert(old_m.rows[i].id < old_m.next_id);
                    assert(old_m.rows[i].email != r.model().email);
                }
            }
        }
        Ok(rec)
    }

    /// The index of the row carrying `id`, if any.
    fn find_index(&self, id: u128) -> (ret: Option<usize>)
        requires
            self.inv(),
        ensures
            ret is Some <==> has_id(self.model().rows, id),
            ret matches Some(i) ==> 0 <= i < self.model().rows.len() && self.model().rows[
                i as int
            ].id == id && id_index(self.model().rows, id) == i as int,
    {
        let n = self.rows.len();
        let mut i: usize = 0;
        while i < n
            invariant
                self.inv(),
                n == self.rows.len(),
                0 <= i <= n,
                forall|j: int| 0 <= j < i ==> (#[trigger] self.model().rows[j]).id != id,
            decreases n - i,
        {
            if self.rows[i].id() == id {
                proof {
                    let rows = self.model().rows;
                    assert(rows[i as int].id == id);
                    let k = id_index(rows, id);
                    assert(0 <= k < rows.len() && rows[k].id == id);
                    assert(self.model().wf());
                    assert(k == i as int);
                }
                return Some(i);
            }
            i += 1;
        }
        None
    }

    /// Fetches the row carrying `id`, or nothing when no row does; absence
    /// is not a failure.
    pub fn get(&self, id: u128) -> (ret: Option<R>)
        requires
            self.inv(),
        ensures
            ret is Some <==> has_id(self.model().rows, id),
            ret matches Some(rec) ==> rec.model() == row_with(self.model().rows, id),
    {
        match self.find_index(id) {
            Some(i) => Some(self.rows[i].copy_record()),
            None => None,
        }
    }

    /// Replaces every field but the identifier of the row carrying `r.id`
    /// with `r`'s fields; the row keeps its place.  Fails with a
    /// row-not-found error when no row carries `r.id`, and with a
    /// unique-violation error when another row carries `r`'s email; the
    /// table is unchanged on failure.
    pub fn update(&mut self, r: &R) -> (ret: Result<R, DbError>)
        requires
            old(self).inv(),
        ensures
            final(self).inv(),
            ret is Ok <==> can_update(old(self).model(), r.model()),
            ret matches Ok(rec) ==> final(self).model() == after_update(
                old(self).model(),
                r.model(),
            ) && rec.model() == r.model(),
            ret is Err ==> final(self).model() == old(self).model(),
            ret matches Err(e) ==> e@ == (if !has_id(old(self).model().rows, r.model().id) {
                row_not_found_model()
            } else {
                unique_violation_model()
            }),
    {
        let i = match self.find_index(r.id()) {
            Some(i) => i,
            None => {
                return Err(DbError::row_not_found());
            },
        };
        let n = self.rows.len();
        let mut j: usize = 0;
        while j < n
            invariant
                n == self.rows.len(),
                0 <= j <= n,
                self.inv(),
                0 <= i < n,
                self.model().rows[i as int].id == r.model().id,
                forall|k: int|
                    0 <= k < j && k != i ==> (#[trigger] self.model().rows[k]).email
                        != r.model().email,
            decreases n - j,
        {
            if j != i && self.rows[j].same_email(r) {
                proof {
                    assert(self.model().rows[j as int].email == r.model().email);
                    assert(self.model().rows[j as int].id != r.model().id);
                }
                return Err(DbError::unique_violation());
            }
            j += 1;
        }
        let rec = r.copy_record();
        self.rows[i] = rec;
        proof {
            let old_m = old(self).model();
            let new_m = self.model();
            assert(new_m.rows =~= old_m.rows.update(i as int, r.model()));
            assert(id_index(old_m.rows, r.model().id) == i as int);
            assert(new_m =~= after_update(old_m, r.model()));
            assert forall|a: int, b: int|
                0 <= a < new_m.rows.len() && 0 <= b < new_m.rows.len() && a != b implies (
            #[trigger] new_m.rows[a]).id != (#[trigger] new_m.rows[b]).id && new_m.rows[a].email
                != new_m.rows[b].email by {
                if a == i as int {
                    assert(old_m.rows[b].id != old_m.rows[i as int].id);
                    assert(old_m.rows[b].email != r.model().email);
                } else if b == i as int {
                    assert(old_m.rows[a].id != old_m.rows[i as int].id);
                    assert(old_m.rows[a].email != r.model().email);
                }
            }
        }
        Ok(r.copy_record())
    }

    /// Removes the row carrying `id` if one does; removing an absent row
    /// is not a failure.
    pub fn delete(&mut self, id: u128)
        requires
            old(self).inv(),
        ensures
            final(self).inv(),
            final(self).model() == after_delete(old(self).model(), id),
    {
        match self.find_index(id) {
            Some(i) => {
                self.rows.remove(i);
                proof {
                    let old_m = old(self).model();
                    let new_m = self.model();
                    assert(new_m.rows =~= old_m.rows.remove(id_index(old_m.rows, id)));
                    assert(new_m =~= after_delete(old_m, id));
                }
            },
            None => {
            },
        }
    }

    /// Every row of the table, in storage order.
    pub fn get_all(&self) -> (ret: Vec<R>)
        requires
            self.inv(),
        ensures
            seq_models(ret@) == self.model().rows,
    {
        let n = self.rows.len();
        let mut out: Vec<R> = Vec::new();
        let mut i: usize = 0;
        while i < n
            invariant
                n == self.rows.len(),
                0 <= i <= n,
                seq_models(out@) =~= self.model().rows.take(i as int),
            decreases n - i,
        {
            let ghost prev = out@;
            let rec = self.rows[i].copy_record();
            out.push(rec);
            proof {
                assert(out@ == prev.push(rec));
                assert(seq_models(prev).len() == i);
                assert forall|k: int| 0 <= k < i + 1 implies seq_models(out@)[k]
                    == self.model().rows.take(i + 1)[k] by {
                    if k < i {
                        assert(seq_models(prev)[k] == self.model().rows.take(i as int)[k]);
                    } else {
                        assert(out@[k] == rec);
                    }
                }
                assert(seq_models(out@) =~= self.model().rows.take(i + 1));
            }
            i += 1;
        }
        proof {
            assert(self.model().rows.take(n as int) =~= self.model().rows);
        }
        out
    }
}

/// Round trip: creating a record in a well-formed table preserves
/// well-formedness, and the assigned identifier — which is never nil —
/// then names exactly the created record, with every field as given.
pub proof fn lemma_create_then_get(m: StoreModel, r: RecordModel)
    requires
        m.wf(),
        can_create(m, r),
    ensures
        after_create(m, r).wf(),
        m.next_id != 0,
        has_id(after_create(m, r).rows, m.next_id),
        row_with(after_create(m, r).rows, m.next_id) == r.with_id(m.next_id),
{
    let m1 = after_create(m, r);
    let n = m.rows.len() as int;
    assert(m1.rows[n] == r.with_id(m.next_id));
    assert(m1.rows[n].id == m.next_id);
    assert forall|i: int, j: int|
        0 <= i < m1.rows.len() && 0 <= j < m1.rows.len() && i != j implies (
    #[trigger] m1.rows[i]).id != (#[trigger] m1.rows[j]).id && m1.rows[i].email
        != m1.rows[j].email by {
        if i < n && j < n {
        } else if i == n {
            assert(m.rows[j].id < m.next_id);
            assert(m.rows[j].email != r.email);
        } else {
            assert(m.rows[i].id < m.next_id);
            assert(m.rows[i].email != r.email);
        }
    }
    let k = id_index(m1.rows, m.next_id);
    assert(0 <= k < m1.rows.len() && m1.rows[k].id == m.next_id);
    if k < n {
        assert(m1.rows[k] == m.rows[k]);
        assert(m.rows[k].id < m.next_id);
    }
    assert(k == n);
}

/// Deleting preserves well-formedness and leaves no row under the deleted
/// identifier.
pub proof fn lemma_delete_wf(m: StoreModel, id: u128)
    requires
        m.wf(),
    ensures
        after_delete(m, id).wf(),
        !has_id(after_delete(m, id).rows, id),
{
    if has_id(m.rows, id) {
        let k = id_index(m.rows, id);
        assert(0 <= k < m.rows.len() && m.rows[k].id == id);
        let m1 = after_delete(m, id);
        assert(m1.rows == m.rows.remove(k));
        assert forall|i: int| 0 <= i < m1.rows.len() implies 0 < (#[trigger] m1.rows[i]).id
            < m1.next_id && m1.rows[i].id != id by {
            if i < k {
                assert(m1.rows[i] == m.rows[i]);
            } else {
                assert(m1.rows[i] == m.rows[i + 1]);
            }
        }
        assert forall|i: int, j: int|
            0 <= i < m1.rows.len() && 0 <= j < m1.rows.len() && i != j implies (
        #[trigger] m1.rows[i]).id != (#[trigger] m1.rows[j]).id && m1.rows[i].email
            != m1.rows[j].email by {
            let i0: int = if i < k {
                i
            } else {
                i + 1
            };
            let j0: int = if j < k {
                j
            } else {
                j + 1
            };
            assert(m1.rows[i] == m.rows[i0]);
            assert(m1.rows[j] == m.rows[j0]);
        }
    }
}

/// Idempotent delete: deleting an identifier twice ends in the same state
/// as deleting it once, so the second delete also succeeds and does
/// nothing.
pub proof fn lemma_delete_idempotent(m: StoreModel, id: u128)
    requires
        m.wf(),
    ensures
        after_delete(after_delete(m, id), id) == after_delete(m, id),
{
    lemma_delete_wf(m, id);
}

/// Update preserves identity: after a successful update with `r`, the row
/// named by `r.id` is exactly `r` — every field replaced, the identifier
/// kept — and the table stays well-formed.
pub proof fn lemma_update_preserves_identity(m: StoreModel, r: RecordModel)
    requires
        m.wf(),
        can_update(m, r),
    ensures
        after_update(m, r).wf(),
        has_id(after_update(m, r).rows, r.id),
        row_with(after_update(m, r).rows, r.id) == r,
{
    let k = id_index(m.rows, r.id);
    assert(0 <= k < m.rows.len() && m.rows[k].id == r.id);
    let m1 = after_update(m, r);
    assert(m1.rows == m.rows.update(k, r));
    assert(m1.rows[k] == r);
    assert forall|i: int, j: int|
        0 <= i < m1.rows.len() && 0 <= j < m1.rows.len() && i != j implies (
    #[trigger] m1.rows[i]).id != (#[trigger] m1.rows[j]).id && m1.rows[i].email
        != m1.rows[j].email by {
        if i == k {
            assert(m1.rows[j] == m.rows[j]);
            assert(m.rows[j].id != m.rows[k].id);
            assert(m.rows[j].email != r.email);
        } else if j == k {
            assert(m1.rows[i] == m.rows[i]);
            assert(m.rows[i].id != m.rows[k].id);
            assert(m.rows[i].email != r.email);
        } else {
            assert(m1.rows[i] == m.rows[i]);
            assert(m1.rows[j] == m.rows[j]);
        }
    }
    let k1 = id_index(m1.rows, r.id);
    assert(0 <= k1 < m1.rows.len() && m1.rows[k1].id == r.id);
    if k1 != k {
        assert(m1.rows[k1].id != m1.rows[k].id);
    }
}

/// Uniqueness: after a record is created, creating another record with
/// the same email cannot succeed.
pub proof fn lemma_duplicate_email_rejected(m: StoreModel, r1: RecordModel, r2: RecordModel)
    requires
        m.wf(),
        can_create(m, r1),
        r2.email == r1.email,
    ensures
        !can_create(after_create(m, r1), r2),
{
    let m1 = after_create(m, r1);
    let n = m.rows.len() as int;
    assert(m1.rows[n].email == r1.email);
    assert(has_email(m1.rows, r2.email));
}

/// Listing after a create: the rows are exactly the old rows plus the
/// created record, whatever their order.
pub proof fn lemma_list_after_create(m: StoreModel, r: RecordModel)
    requires
        m.wf(),
        can_create(m, r),
    ensures
        after_create(m, r).rows.to_set() == m.rows.to_set().insert(r.with_id(m.next_id)),
{
    let m1 = after_create(m, r);
    let x = r.with_id(m.next_id);
    let n = m.rows.len() as int;
    assert forall|a: RecordModel| #[trigger] m1.rows.to_set().contains(a) implies m.rows.to_set()
        .insert(x).contains(a) by {
        let i = choose|i: int| 0 <= i < m1.rows.len() && m1.rows[i] == a;
        if i < n {
            assert(m.rows[i] == a);
            assert(m.rows.contains(a));
        }
    }
    assert forall|a: RecordModel| #[trigger] m.rows.to_set().insert(x).contains(a) implies m1.rows
        .to_set().contains(a) by {
        if a == x {
            assert(m1.rows[n] == a);
            assert(m1.rows.contains(a));
        } else {
            let i = choose|i: int| 0 <= i < m.rows.len() && m.rows[i] == a;
            assert(m1.rows[i] == a);
            assert(m1.rows.contains(a));
        }
    }
    assert(m1.rows.to_set() =~= m.rows.to_set().insert(x));
}

/// Listing after a delete: the rows are exactly the old rows minus the
/// record that carried the deleted identifier, whatever their order.
pub proof fn lemma_list_after_delete(m: StoreModel, id: u128)
    requires
        m.wf(),
        has_id(m.rows, id),
    ensures
        after_delete(m, id).rows.to_set() == m.rows.to_set().remove(row_with(m.rows, id)),
{
    let m1 = after_delete(m, id);
    let k = id_index(m.rows, id);
    assert(0 <= k < m.rows.len() && m.rows[k].id == id);
    let victim = row_with(m.rows, id);
    assert(m1.rows == m.rows.remove(k));
    assert forall|a: RecordModel| #[trigger] m1.rows.to_set().contains(a) implies m.rows.to_set()
        .remove(victim).contains(a) by {
        let i = choose|i: int| 0 <= i < m1.rows.len() && m1.rows[i] == a;
        let i0: int = if i < k {
            i
        } else {
            i + 1
        };
        assert(m.rows[i0] == a);
        assert(m.rows.contains(a));
        if a == victim {
            assert(m.rows[i0].id == m.rows[k].id);
            assert(i0 == k);
            assert(false);
        }
    }
    assert forall|a: RecordModel| #[trigger] m.rows.to_set().remove(victim).contains(a)
        implies m1.rows.to_set().contains(a) by {
        let i = choose|i: int| 0 <= i < m.rows.len() && m.rows[i] == a;
        assert(i != k);
        let i1: int = if i < k {
            i
        } else {
            i - 1
        };
        assert(m1.rows[i1] == a);
        assert(m1.rows.contains(a));
    }
    assert(m1.rows.to_set() =~= m.rows.to_set().remove(victim));
}

} // verus!
