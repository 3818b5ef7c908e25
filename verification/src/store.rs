//! The semantic model of the single `todo_app.lists` table: what each
//! handler's query does to the stored rows and what outcome it reports.
//! The handlers of the running service execute the texts from `query`
//! against the real store; this module states, and proves, what those
//! statements mean for the table's contents.

use vstd::prelude::*;
use crate::item::ApiResponse;
use crate::item::ApiStatus;
use crate::item::CreateData;
use crate::item::CreateView;
use crate::item::DeleteData;
use crate::item::TodoData;
use crate::item::TodoView;
use crate::uuidfmt::is_uuid;
use crate::uuidfmt::is_uuid_seq;
use crate::uuidfmt::lemma_uuid_seq_wf;
use crate::uuidfmt::uuid_seq;
use crate::uuidfmt::uuid_string;

verus! {

/// Whether some row of `rows` carries the id text `id`.
pub open spec fn table_contains(rows: Seq<TodoView>, id: Seq<char>) -> bool {
    exists|i: int| 0 <= i < rows.len() && rows[i].id == id
}

/// Well-formed table contents: every row's id is a well-formed row key,
/// and no two rows share one.
pub open spec fn table_wf(rows: Seq<TodoView>) -> bool {
    &&& forall|i: int| 0 <= i < rows.len() ==> is_uuid_seq(#[trigger] rows[i].id)
    &&& forall|i: int, j: int|
        0 <= i < rows.len() && 0 <= j < rows.len() && i != j ==> #[trigger] rows[i].id
            != #[trigger] rows[j].id
}

/// The index of the row carrying `id` (meaningful when the table contains
/// it; unique when the table is well formed).
pub open spec fn row_index(rows: Seq<TodoView>, id: Seq<char>) -> int {
    choose|i: int| 0 <= i < rows.len() && rows[i].id == id
}

/// The row carrying `id`.
pub open spec fn row_for_id(rows: Seq<TodoView>, id: Seq<char>) -> TodoView {
    rows[row_index(rows, id)]
}

/// The row a create payload stores under the key `key`: the payload's
/// three fields, the key's canonical text, status false.
pub open spec fn created_row(data: CreateView, key: u128) -> TodoView {
    TodoView {
        id: uuid_seq(key),
        title: data.title,
        description: data.description,
        timestamp: data.timestamp,
        status: false,
    }
}

/// Table contents after a full-replace update with `item`: every row
/// carrying the item's id becomes the item, every other row is untouched.
pub open spec fn updated(rows: Seq<TodoView>, item: TodoView) -> Seq<TodoView> {
    Seq::new(rows.len(), |i: int| if rows[i].id == item.id { item } else { rows[i] })
}

/// Table contents after deleting the row carrying `id` (meaningful when
/// the table contains it).
pub open spec fn deleted(rows: Seq<TodoView>, id: Seq<char>) -> Seq<TodoView> {
    rows.remove(row_index(rows, id))
}

/// The stored table: the rows of `todo_app.lists`.
pub struct Table {
    pub rows: Vec<TodoData>,
}

impl View for Table {
    type V = Seq<TodoView>;

    open spec fn view(&self) -> Seq<TodoView> {
        self.rows@.map_values(|r: TodoData| r@)
    }
}

impl Table {
    /// Well-formed table: unique, well-formed row keys.
    pub open spec fn wf(self) -> bool {
        table_wf(self@)
    }

    /// An empty table, as the table-creation statement leaves it.
    pub fn new() -> (r: Table)
        ensures
            r@.len() == 0,
            r.wf(),
    {
        Table { rows: Vec::new() }
    }

    /// The read handler's result: every stored row, in order.  An empty
    /// table yields an empty list, never a fault.
    pub fn read_data(&self) -> (r: Vec<TodoData>)
        ensures
            r@.len() == self@.len(),
            forall|i: int| 0 <= i < r@.len() ==> #[trigger] r@[i]@ == self@[i],
    {
        let mut out: Vec<TodoData> = Vec::new();
        let mut i: usize = 0;
        while i < self.rows.len()
            invariant
                0 <= i <= self.rows.len(),
                out@.len() == i,
                forall|j: int| 0 <= j < i ==> #[trigger] out@[j]@ == self@[j],
            decreases self.rows.len() - i,
        {
            out.push(self.rows[i].clone());
            i += 1;
        }
        out
    }

    /// The create handler's effect: appends the payload's row under the
    /// fresh key the store picked, status false, and reports success.
    pub fn create_data(&mut self, data: &CreateData, key: u128) -> (r: ApiResponse)
        requires
            old(self).wf(),
            !table_contains(old(self)@, uuid_seq(key)),
        ensures
            final(self)@ == old(self)@.push(created_row(data@, key)),
            final(self).wf(),
            r.status == ApiStatus::Sucess,
            r.message@ == "Successfully create data"@,
    {
        let id = uuid_string(key);
        let row = TodoData {
            id,
            title: data.title.clone(),
            description: data.description.clone(),
            timestamp: data.timestamp,
            status: false,
        };
        self.rows.push(row);
        proof {
            lemma_uuid_seq_wf(key);
            assert(self@ =~= old(self)@.push(created_row(data@, key)));
            lemma_push_fresh_wf(old(self)@, created_row(data@, key));
        }
        ApiResponse { status: ApiStatus::Sucess, message: "Successfully create data".to_owned() }
    }

    /// The update handler's effect: a full replace of every field of the
    /// row carrying the payload's id.  An id that no row carries leaves
    /// the table unchanged and still reports success; an id that is not a
    /// well-formed row key never reaches the store and is reported as a
    /// failure.
    pub fn update_data(&mut self, data: &TodoData) -> (r: ApiResponse)
        requires
            old(self).wf(),
        ensures
            final(self).wf(),
            is_uuid_seq(data.id@) ==> {
                &&& final(self)@ == updated(old(self)@, data@)
                &&& r.status == ApiStatus::Sucess
                &&& r.message@ == "Successfully update data"@
            },
            !is_uuid_seq(data.id@) ==> {
                &&& final(self)@ == old(self)@
                &&& r.status == ApiStatus::Failed
                &&& r.message@
                    == "Failed to execute update query : id is not a well-formed UUID"@
            },
    {
        if !is_uuid(data.id.as_str()) {
            return ApiResponse {
                status: ApiStatus::Failed,
                message: "Failed to execute update query : id is not a well-formed UUID".to_owned(),
            };
        }
        let ghost orig = self.rows@;
        let n = self.rows.len();
        let mut i: usize = 0;
        while i < n
            invariant
                0 <= i <= n,
                n == self.rows@.len(),
                orig.len() == n,
                forall|j: int|
                    0 <= j < i ==> #[trigger] self.rows@[j]@ == (if orig[j]@.id == data@.id {
                        data@
                    } else {
                        orig[j]@
                    }),
                forall|j: int| i <= j < n ==> #[trigger] self.rows@[j] == orig[j],
            decreases n - i,
        {
            if self.rows[i].id == data.id {
                let ghost prev = self.rows@;
                let replacement = data.clone();
                self.rows[i] = replacement;
                proof {
                    assert(self.rows@ == prev.update(i as int, replacement));
                    assert(self.rows@[i as int]@ == data@);
                    assert(forall|j: int|
                        0 <= j < n && j != i ==> #[trigger] self.rows@[j] == prev[j]);
                }
            }
            i += 1;
        }
        proof {
            assert(orig == old(self).rows@);
            assert forall|j: int| 0 <= j < n implies #[trigger] self@[j] == updated(
                old(self)@,
                data@,
            )[j] by {
                assert(self@[j] == self.rows@[j]@);
                assert(old(self)@[j] == orig[j]@);
            }
            assert(self@ =~= updated(old(self)@, data@));
            lemma_updated_wf(old(self)@, data@);
        }
        ApiResponse { status: ApiStatus::Sucess, message: "Successfully update data".to_owned() }
    }

    /// The delete handler's effect: removes the row carrying the id when
    /// there is one and reports success; reports a failure for an id no
    /// row carries (the conditional delete misses) and for an id that is
    /// not a well-formed row key (it never reaches the store).
    pub fn delete_data(&mut self, data: &DeleteData) -> (r: ApiResponse)
        requires
            old(self).wf(),
        ensures
            final(self).wf(),
            is_uuid_seq(data.id@) && table_contains(old(self)@, data.id@) ==> {
                &&& final(self)@ == deleted(old(self)@, data.id@)
                &&& r.status == ApiStatus::Sucess
                &&& r.message@ == "Successfully delete requested id"@
            },
            is_uuid_seq(data.id@) && !table_contains(old(self)@, data.id@) ==> {
                &&& final(self)@ == old(self)@
                &&& r.status == ApiStatus::Failed
                &&& r.message@
                    == "Failed to execute delete query : no row matches the requested id"@
            },
            !is_uuid_seq(data.id@) ==> {
                &&& final(self)@ == old(self)@
                &&& r.status == ApiStatus::Failed
                &&& r.message@
                    == "Failed to execute delete query : id is not a well-formed UUID"@
            },
    {
        if !is_uuid(data.id.as_str()) {
            return ApiResponse {
                status: ApiStatus::Failed,
                message: "Failed to execute delete query : id is not a well-formed UUID".to_owned(),
            };
        }
        let n = self.rows.len();
        let mut i: usize = 0;
        while i < n
            invariant
                0 <= i <= n,
                n == self.rows@.len(),
                self@ == old(self)@,
                old(self).wf(),
                forall|j: int| 0 <= j < i ==> #[trigger] self@[j].id != data.id@,
            decreases n - i,
        {
            if self.rows[i].id == data.id {
                self.rows.remove(i);
                proof {
                    lemma_found_index_is_row_index(old(self)@, data.id@, i as int);
                    assert(self@ =~= old(self)@.remove(i as int));
                    lemma_removed_wf(old(self)@, i as int);
                }
                return ApiResponse {
                    status: ApiStatus::Sucess,
                    message: "Successfully delete requested id".to_owned(),
                };
            }
            i += 1;
        }
        ApiResponse {
            status: ApiStatus::Failed,
            message: "Failed to execute delete query : no row matches the requested id".to_owned(),
        }
    }
}

/// Appending a row whose id no existing row carries keeps the table well
/// formed.
proof fn lemma_push_fresh_wf(rows: Seq<TodoView>, row: TodoView)
    requires
        table_wf(rows),
        is_uuid_seq(row.id),
        !table_contains(rows, row.id),
    ensures
        table_wf(rows.push(row)),
{
    let post = rows.push(row);
    assert forall|i: int, j: int|
        0 <= i < post.len() && 0 <= j < post.len() && i != j implies #[trigger] post[i].id
        != #[trigger] post[j].id by {
        if i < rows.len() && j < rows.len() {
        } else if i == rows.len() {
            assert(post[j] == rows[j]);
        } else {
            assert(post[i] == rows[i]);
        }
    }
}

/// A full-replace update keeps every row's id in place, so it keeps the
/// table well formed.
proof fn lemma_updated_wf(rows: Seq<TodoView>, item: TodoView)
    requires
        table_wf(rows),
    ensures
        table_wf(updated(rows, item)),
        forall|j: int| 0 <= j < rows.len() ==> #[trigger] updated(rows, item)[j].id == rows[j].id,
{
    assert forall|j: int| 0 <= j < rows.len() implies #[trigger] updated(rows, item)[j].id
        == rows[j].id by {}
}

/// In a well-formed table, the index where a matching row was found is
/// the index of the row carrying that id.
proof fn lemma_found_index_is_row_index(rows: Seq<TodoView>, id: Seq<char>, i: int)
    requires
        table_wf(rows),
        0 <= i < rows.len(),
        rows[i].id == id,
    ensures
        table_contains(rows, id),
        row_index(rows, id) == i,
{
    assert(table_contains(rows, id));
    let k = row_index(rows, id);
    assert(0 <= k < rows.len() && rows[k].id == id);
    if k != i {
        assert(rows[k].id != rows[i].id);
    }
}

/// Removing one row keeps the remaining ids well formed and distinct.
proof fn lemma_removed_wf(rows: Seq<TodoView>, at: int)
    requires
        table_wf(rows),
        0 <= at < rows.len(),
    ensures
        table_wf(rows.remove(at)),
{
    let post = rows.remove(at);
    assert forall|i: int| 0 <= i < post.len() implies is_uuid_seq(#[trigger] post[i].id) by {
        if i < at {
            assert(post[i] == rows[i]);
        } else {
            assert(post[i] == rows[i + 1]);
        }
    }
    assert forall|i: int, j: int|
        0 <= i < post.len() && 0 <= j < post.len() && i != j implies #[trigger] post[i].id
        != #[trigger] post[j].id by {
        let oi = if i < at { i } else { i + 1 };
        let oj = if j < at { j } else { j + 1 };
        assert(post[i] == rows[oi]);
        assert(post[j] == rows[oj]);
    }
}

/// Law: after a create, a read retrieves the new row by its key with the
/// payload's title, description and timestamp, status false, and a fresh,
/// well-formed id; no other row changed.
pub proof fn lemma_create_then_read(rows: Seq<TodoView>, data: CreateView, key: u128)
    requires
        table_wf(rows),
        !table_contains(rows, uuid_seq(key)),
    ensures
        table_wf(rows.push(created_row(data, key))),
        table_contains(rows.push(created_row(data, key)), uuid_seq(key)),
        row_for_id(rows.push(created_row(data, key)), uuid_seq(key)) == created_row(data, key),
        created_row(data, key).title == data.title,
        created_row(data, key).description == data.description,
        created_row(data, key).timestamp == data.timestamp,
        created_row(data, key).status == false,
        is_uuid_seq(uuid_seq(key)),
        forall|j: int| 0 <= j < rows.len() ==> #[trigger] rows.push(created_row(data, key))[j]
            == rows[j],
{
    lemma_uuid_seq_wf(key);
    let row = created_row(data, key);
    let post = rows.push(row);
    lemma_push_fresh_wf(rows, row);
    assert(post[rows.len() as int] == row);
    assert(table_contains(post, uuid_seq(key)));
    lemma_found_index_is_row_index(post, uuid_seq(key), rows.len() as int);
}

/// Law: after a full-replace update with an item whose id some row
/// carries, a read retrieves exactly the item under that id, and every
/// other row is unchanged; with an id no row carries, the update is a
/// no-op that still succeeds.
pub proof fn lemma_update_then_read(rows: Seq<TodoView>, item: TodoView)
    requires
        table_wf(rows),
    ensures
        table_wf(updated(rows, item)),
        table_contains(rows, item.id) ==> row_for_id(updated(rows, item), item.id) == item,
        forall|j: int|
            0 <= j < rows.len() && rows[j].id != item.id ==> #[trigger] updated(rows, item)[j]
                == rows[j],
        !table_contains(rows, item.id) ==> updated(rows, item) == rows,
{
    lemma_updated_wf(rows, item);
    let post = updated(rows, item);
    if table_contains(rows, item.id) {
        let k = row_index(rows, item.id);
        assert(0 <= k < rows.len() && rows[k].id == item.id);
        assert(post[k] == item);
        lemma_found_index_is_row_index(post, item.id, k);
    }
    if !table_contains(rows, item.id) {
        assert forall|j: int| 0 <= j < rows.len() implies #[trigger] post[j] == rows[j] by {
            assert(rows[j].id != item.id);
        }
        assert(post =~= rows);
    }
}

/// Law: after deleting an id some row carries, a read no longer contains
/// that id, exactly one row is gone, and every other id is still there.
pub proof fn lemma_delete_then_read(rows: Seq<TodoView>, id: Seq<char>)
    requires
        table_wf(rows),
        table_contains(rows, id),
    ensures
        table_wf(deleted(rows, id)),
        !table_contains(deleted(rows, id), id),
        deleted(rows, id).len() == rows.len() - 1,
        forall|other: Seq<char>|
            other != id ==> (#[trigger] table_contains(deleted(rows, id), other)
                <==> table_contains(rows, other)),
{
    let k = row_index(rows, id);
    assert(0 <= k < rows.len() && rows[k].id == id);
    let post = deleted(rows, id);
    lemma_removed_wf(rows, k);
    assert forall|i: int| 0 <= i < post.len() implies #[trigger] post[i].id != id by {
        let oi = if i < k { i } else { i + 1 };
        assert(post[i] == rows[oi]);
        assert(oi != k);
    }
    assert forall|other: Seq<char>|
        other != id && table_contains(rows, other) implies #[trigger] table_contains(
        post,
        other,
    ) by {
        let oi = choose|oi: int| 0 <= oi < rows.len() && rows[oi].id == other;
        if oi < k {
            assert(post[oi] == rows[oi]);
        } else {
            assert(oi != k);
            assert(post[oi - 1] == rows[oi]);
        }
    }
    assert forall|other: Seq<char>|
        other != id && table_contains(post, other) implies table_contains(rows, other) by {
        let i = choose|i: int| 0 <= i < post.len() && post[i].id == other;
        let oi = if i < k { i } else { i + 1 };
        assert(post[i] == rows[oi]);
    }
}

/// Law: a read of an empty table yields no rows and no id is retrievable;
/// the read itself is not a fault.
pub proof fn lemma_read_empty(rows: Seq<TodoView>)
    requires
        rows.len() == 0,
    ensures
        forall|id: Seq<char>| !table_contains(rows, id),
{
}

} // verus!
