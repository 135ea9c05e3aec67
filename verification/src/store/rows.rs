//! The `games` table as a mathematical value, and what each of the five
//! statements does to it.
//!
//! A table is the sequence of its rows in the order of their identifiers. No
//! two rows share an identifier, and none share an address. The table
//! assigns the identifier of a new row itself: the smallest one that no row
//! has.

use crate::models::game::GameView;
use crate::store::failure::{
    refused, row_not_found, unique_violation, StoreFailureView, ADDRESS_CONSTRAINT,
};
use crate::store::statement::{InsertView, UpdateView};
use vstd::prelude::*;

verus! {

/// What the table says where every identifier is taken.
pub const NO_IDENTIFIER_LEFT: &'static str = "no identifier left";

/// What the database says of a negative limit.
pub const NEGATIVE_LIMIT: &'static str = "LIMIT must not be negative";

/// What the database says of a negative offset.
pub const NEGATIVE_OFFSET: &'static str = "OFFSET must not be negative";

/// The rows stand in the strict order of their identifiers.
pub open spec fn ordered(rows: Seq<GameView>) -> bool {
    forall|i: int, j: int| 0 <= i < j < rows.len() ==> rows[i].id < rows[j].id
}

/// No two rows share an address.
pub open spec fn addresses_distinct(rows: Seq<GameView>) -> bool {
    forall|i: int, j: int| 0 <= i < j < rows.len() ==> rows[i].address != rows[j].address
}

/// The invariant of a table.
pub open spec fn well_formed(rows: Seq<GameView>) -> bool {
    ordered(rows) && addresses_distinct(rows)
}

/// Some row has identifier `id`.
pub open spec fn has_id(rows: Seq<GameView>, id: u128) -> bool {
    exists|i: int| 0 <= i < rows.len() && rows[i].id == id
}

/// The position of the row with identifier `id`, where there is one.
pub open spec fn index_of(rows: Seq<GameView>, id: u128) -> int {
    choose|i: int| 0 <= i < rows.len() && rows[i].id == id
}

/// Some row has the given address.
pub open spec fn has_address(rows: Seq<GameView>, address: Seq<char>) -> bool {
    exists|i: int| 0 <= i < rows.len() && rows[i].address == address
}

/// Some row other than the one with identifier `id` has the given address.
pub open spec fn address_taken_by_other(rows: Seq<GameView>, id: u128, address: Seq<char>) -> bool {
    exists|i: int| 0 <= i < rows.len() && rows[i].id != id && rows[i].address == address
}

/// Position `k` parts the rows into those with an identifier below `id` and
/// those without.
pub open spec fn splits_at(rows: Seq<GameView>, id: u128, k: int) -> bool {
    &&& 0 <= k <= rows.len()
    &&& forall|i: int| 0 <= i < k ==> rows[i].id < id
    &&& forall|i: int| k <= i < rows.len() ==> rows[i].id >= id
}

/// The first `k` rows have the identifiers 0 to `k - 1`, and the next row,
/// if there is one, has not the identifier `k`.
pub open spec fn is_first_gap(rows: Seq<GameView>, k: int) -> bool {
    &&& 0 <= k <= rows.len()
    &&& forall|i: int| 0 <= i < k ==> rows[i].id == i
    &&& k < rows.len() ==> rows[k].id != k
}

/// The identifier that the table assigns to its next row: the smallest one
/// that no row has. In an ordered table it is also the position at which the
/// new row stands.
pub open spec fn next_id(rows: Seq<GameView>) -> int {
    choose|k: int| is_first_gap(rows, k)
}

/// The rows from position `offset` on, at most `limit` of them.
pub open spec fn window(rows: Seq<GameView>, limit: int, offset: int) -> Seq<GameView> {
    let start = if offset < rows.len() { offset } else { rows.len() as int };
    let end = if offset + limit < rows.len() { offset + limit } else { rows.len() as int };
    rows.subrange(start, end)
}

/// What a list statement returns.
pub open spec fn list_outcome(rows: Seq<GameView>, limit: i64, offset: i64) -> Result<
    Seq<GameView>,
    StoreFailureView,
> {
    if limit < 0 {
        Err(refused(NEGATIVE_LIMIT@))
    } else if offset < 0 {
        Err(refused(NEGATIVE_OFFSET@))
    } else {
        Ok(window(rows, limit as int, offset as int))
    }
}

/// The row that an insert stores: the three given fields under the assigned
/// identifier, created and updated at the time of the insert.
pub open spec fn new_row(values: InsertView, id: u128, now: i64) -> GameView {
    GameView {
        id,
        field_name: values.field_name,
        address: values.address,
        day: values.day,
        created_at: now,
        updated_at: now,
    }
}

/// What an insert at time `now` returns: the stored row under the identifier
/// that the table assigns, or, where the address is taken, the violation of
/// the constraint on addresses. A table that holds every identifier there is
/// refuses the insert.
pub open spec fn insert_outcome(rows: Seq<GameView>, values: InsertView, now: i64) -> Result<
    GameView,
    StoreFailureView,
> {
    if has_address(rows, values.address) {
        Err(unique_violation(ADDRESS_CONSTRAINT@))
    } else if next_id(rows) > u128::MAX {
        Err(refused(NO_IDENTIFIER_LEFT@))
    } else {
        Ok(new_row(values, next_id(rows) as u128, now))
    }
}

/// The table after an insert: with the new row in its place, or unchanged
/// where the insert failed.
pub open spec fn after_insert(rows: Seq<GameView>, values: InsertView, now: i64) -> Seq<GameView> {
    match insert_outcome(rows, values, now) {
        Ok(row) => rows.insert(next_id(rows), row),
        Err(_) => rows,
    }
}

/// What a fetch by identifier returns.
pub open spec fn select_outcome(rows: Seq<GameView>, id: u128) -> Result<
    GameView,
    StoreFailureView,
> {
    if has_id(rows, id) {
        Ok(rows[index_of(rows, id)])
    } else {
        Err(row_not_found())
    }
}

/// A row with the three fields and `updated_at` rewritten; identifier and
/// `created_at` stay.
pub open spec fn rewritten(row: GameView, values: UpdateView) -> GameView {
    GameView {
        id: row.id,
        field_name: values.field_name,
        address: values.address,
        day: values.day,
        created_at: row.created_at,
        updated_at: values.updated_at,
    }
}

/// What an update returns: the rewritten row, a missing row, or the violation
/// of the constraint on addresses.
pub open spec fn update_outcome(rows: Seq<GameView>, values: UpdateView) -> Result<
    GameView,
    StoreFailureView,
> {
    if !has_id(rows, values.id) {
        Err(row_not_found())
    } else if address_taken_by_other(rows, values.id, values.address) {
        Err(unique_violation(ADDRESS_CONSTRAINT@))
    } else {
        Ok(rewritten(rows[index_of(rows, values.id)], values))
    }
}

/// The table after an update: with the row rewritten, or unchanged where the
/// update failed.
pub open spec fn after_update(rows: Seq<GameView>, values: UpdateView) -> Seq<GameView> {
    match update_outcome(rows, values) {
        Ok(row) => rows.update(index_of(rows, values.id), row),
        Err(_) => rows,
    }
}

/// The number of rows that a delete by identifier removes: 1 or 0.
pub open spec fn delete_count(rows: Seq<GameView>, id: u128) -> u64 {
    if has_id(rows, id) {
        1
    } else {
        0
    }
}

/// The table after a delete by identifier.
pub open spec fn after_delete(rows: Seq<GameView>, id: u128) -> Seq<GameView> {
    if has_id(rows, id) {
        rows.remove(index_of(rows, id))
    } else {
        rows
    }
}

/// In an ordered table the row with a given identifier stands at one place.
pub proof fn lemma_index_of(rows: Seq<GameView>, id: u128, i: int)
    requires
        ordered(rows),
        0 <= i < rows.len(),
        rows[i].id == id,
    ensures
        has_id(rows, id),
        index_of(rows, id) == i,
{
}

/// In an ordered table the row with identifier `id`, where there is one,
/// stands at the position that parts the rows at `id`.
pub proof fn lemma_split(rows: Seq<GameView>, id: u128, k: int)
    requires
        ordered(rows),
        splits_at(rows, id, k),
    ensures
        has_id(rows, id) <==> k < rows.len() && rows[k].id == id,
{
    if has_id(rows, id) {
        let i = index_of(rows, id);
        if k < i {
            assert(rows[k].id < rows[i].id);
        }
    }
}

/// Every table has a first gap, and only one.
pub proof fn lemma_first_gap(rows: Seq<GameView>)
    ensures
        is_first_gap(rows, next_id(rows)),
        forall|k: int| is_first_gap(rows, k) ==> k == next_id(rows),
    decreases rows.len(),
{
    if rows.len() == 0 {
        assert(is_first_gap(rows, 0));
    } else {
        let front = rows.drop_last();
        lemma_first_gap(front);
        let k = next_id(front);
        assert forall|i: int| 0 <= i < k implies rows[i].id == i by {
            assert(front[i] == rows[i]);
        }
        if k == front.len() && rows.last().id == k {
            assert(is_first_gap(rows, rows.len() as int));
        } else {
            if k < front.len() {
                assert(front[k] == rows[k]);
            }
            assert(is_first_gap(rows, k));
        }
    }
    let chosen = next_id(rows);
    assert forall|k: int| is_first_gap(rows, k) implies k == chosen by {
        if k < chosen {
            assert(rows[k].id == k);
        } else if chosen < k {
            assert(rows[chosen].id == chosen);
        }
    }
}

/// In an ordered table that has an identifier left, no row has the
/// identifier that the table assigns next, and that identifier parts the rows
/// at itself.
pub proof fn lemma_next_id_is_free(rows: Seq<GameView>)
    requires
        ordered(rows),
        next_id(rows) <= u128::MAX,
    ensures
        0 <= next_id(rows) <= rows.len(),
        !has_id(rows, next_id(rows) as u128),
        splits_at(rows, next_id(rows) as u128, next_id(rows)),
{
    lemma_first_gap(rows);
    let k = next_id(rows);
    assert forall|i: int| k <= i < rows.len() implies rows[i].id > k by {
        if k > 0 {
            assert(rows[k - 1].id == k - 1);
            assert(rows[k - 1].id < rows[i].id);
        }
        if k < i {
            assert(rows[k].id < rows[i].id);
        }
    }
    assert(splits_at(rows, k as u128, k));
    if has_id(rows, k as u128) {
        let i = index_of(rows, k as u128);
        assert(rows[i].id == k);
    }
}

/// An insert leaves a well-formed table well-formed.
pub proof fn lemma_insert_well_formed(rows: Seq<GameView>, values: InsertView, now: i64)
    requires
        well_formed(rows),
    ensures
        well_formed(after_insert(rows, values, now)),
{
    lemma_first_gap(rows);
    if insert_outcome(rows, values, now) is Ok {
        lemma_next_id_is_free(rows);
        let k = next_id(rows);
        let next = rows.insert(k, new_row(values, k as u128, now));
        assert forall|i: int, j: int| 0 <= i < j < next.len() implies next[i].id < next[j].id
            && next[i].address != next[j].address by {
            let a = if i < k { i } else { i - 1 };
            let b = if j < k { j } else { j - 1 };
            if i != k && j != k {
                assert(rows[a].id < rows[b].id);
            }
        }
    }
}

/// An update leaves a well-formed table well-formed.
pub proof fn lemma_update_well_formed(rows: Seq<GameView>, values: UpdateView)
    requires
        well_formed(rows),
    ensures
        well_formed(after_update(rows, values)),
{
}

/// A delete leaves a well-formed table well-formed.
pub proof fn lemma_delete_well_formed(rows: Seq<GameView>, id: u128)
    requires
        well_formed(rows),
    ensures
        well_formed(after_delete(rows, id)),
{
}

} // verus!
