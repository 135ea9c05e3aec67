//! A `games` table held in memory.
//!
//! It answers the five statements as the table of the database does: it keeps
//! addresses and identifiers unique, lists in the order of identifiers, and
//! assigns the identifier of a new row itself. The time of an insert is the
//! caller's to supply.

use crate::models::game::{games_view, GameModel, GameView};
use crate::store::failure::{
    count_outcome, row_outcome, rows_outcome, StoreFailure, StoreFailureView,
};
use crate::store::failure::ADDRESS_CONSTRAINT;
use crate::store::rows::{
    address_taken_by_other, after_delete, after_insert, after_update, delete_count, has_address,
    insert_outcome, is_first_gap, lemma_delete_well_formed, lemma_first_gap, lemma_index_of,
    lemma_insert_well_formed, lemma_split, lemma_update_well_formed, list_outcome, next_id,
    select_outcome, splits_at, update_outcome, well_formed, NEGATIVE_LIMIT, NEGATIVE_OFFSET,
};
use crate::store::statement::{
    DeleteStatement, InsertStatement, ListStatement, SelectStatement, UpdateStatement,
};
use vstd::prelude::*;

verus! {

/// The rows of a `games` table, in the order of their identifiers.
pub struct GameTable {
    rows: Vec<GameModel>,
}

impl View for GameTable {
    type V = Seq<GameView>;

    closed spec fn view(&self) -> Seq<GameView> {
        games_view(self.rows@)
    }
}

/// An address is taken where some row has it, the row with identifier
/// `except`, if any, not counted.
spec fn address_taken(
    rows: Seq<GameView>,
    address: Seq<char>,
    except: Option<u128>,
) -> bool {
    match except {
        Some(id) => address_taken_by_other(rows, id, address),
        None => has_address(rows, address),
    }
}

impl GameTable {
    /// The invariant of the table: its rows stand in the strict order of
    /// their identifiers, and no two share an address.
    pub open spec fn wf(&self) -> bool {
        well_formed(self@)
    }

    /// The empty table.
    pub fn new() -> (table: GameTable)
        ensures
            table@ == Seq::<GameView>::empty(),
            table.wf(),
    {
        GameTable { rows: Vec::new() }
    }

    /// The number of rows.
    pub fn len(&self) -> (count: usize)
        ensures
            count == self@.len(),
    {
        self.rows.len()
    }

    /// The position that parts the rows at `id`, found by bisection.
    fn position(&self, id: u128) -> (k: usize)
        requires
            self.wf(),
        ensures
            splits_at(self@, id, k as int),
    {
        let mut low: usize = 0;
        let mut high: usize = self.rows.len();
        while low < high
            invariant
                low <= high <= self.rows.len(),
                well_formed(self@),
                forall|i: int| 0 <= i < low ==> self@[i].id < id,
                forall|i: int| high <= i < self@.len() ==> self@[i].id >= id,
            decreases high - low,
        {
            let middle = low + (high - low) / 2;
            if self.rows[middle].id < id {
                assert forall|i: int| 0 <= i < middle + 1 implies self@[i].id < id by {
                    if i < middle {
                        assert(self@[i].id < self@[middle as int].id);
                    }
                }
                low = middle + 1;
            } else {
                assert forall|i: int| middle <= i < self@.len() implies self@[i].id >= id by {
                    if middle < i {
                        assert(self@[middle as int].id < self@[i].id);
                    }
                }
                high = middle;
            }
        }
        low
    }

    /// Whether some row, the one with identifier `except` not counted, has the
    /// given address.
    fn address_in_use(&self, address: &String, except: Option<u128>) -> (taken: bool)
        ensures
            taken == address_taken(self@, address@, except),
    {
        let mut at: usize = 0;
        while at < self.rows.len()
            invariant
                at <= self.rows.len(),
                forall|i: int|
                    0 <= i < at ==> !(self@[i].address == address@ && (except is None
                        || self@[i].id != except->0)),
            decreases self.rows.len() - at,
        {
            let counted = match except {
                Some(id) => self.rows[at].id != id,
                None => true,
            };
            if counted && self.rows[at].address == *address {
                assert(self@[at as int].address == address@);
                return true;
            }
            at += 1;
        }
        false
    }

    /// Runs a list statement: the rows from `offset` on, at most `limit` of
    /// them, in the order of identifiers. A negative limit or offset is
    /// refused.
    pub fn list(&self, statement: &ListStatement) -> (result: Result<Vec<GameModel>, StoreFailure>)
        ensures
            rows_outcome(result) == list_outcome(self@, statement.limit, statement.offset),
    {
        if statement.limit < 0 {
            return Err(StoreFailure::refused(NEGATIVE_LIMIT));
        }
        if statement.offset < 0 {
            return Err(StoreFailure::refused(NEGATIVE_OFFSET));
        }
        let count = self.rows.len();
        let offset = statement.offset as u64;
        let limit = statement.limit as u64;
        let start: usize = if offset < count as u64 { offset as usize } else { count };
        let end: usize = if offset + limit < count as u64 {
            (offset + limit) as usize
        } else {
            count
        };
        let mut page: Vec<GameModel> = Vec::new();
        let mut at: usize = start;
        while at < end
            invariant
                start <= at <= end <= count,
                count == self.rows.len(),
                games_view(page@) == self@.subrange(start as int, at as int),
            decreases end - at,
        {
            let row = self.rows[at].clone();
            let ghost before = games_view(page@);
            page.push(row);
            proof {
                let after = games_view(page@);
                assert forall|i: int| 0 <= i < before.len() implies after[i] == before[i] by {
                    assert(after[i] == page@[i]@);
                }
            }
            at += 1;
        }
        Ok(page)
    }

    /// The identifier that the table assigns to its next row: the smallest
    /// one that no row has.
    fn free_id(&self) -> (k: usize)
        ensures
            is_first_gap(self@, k as int),
            k as int == next_id(self@),
    {
        let mut k: usize = 0;
        while k < self.rows.len() && self.rows[k].id == k as u128
            invariant
                k <= self.rows.len(),
                forall|i: int| 0 <= i < k ==> self@[i].id == i,
            decreases self.rows.len() - k,
        {
            k += 1;
        }
        proof {
            lemma_first_gap(self@);
        }
        k
    }

    /// Runs an insert statement at time `now`. The row is stored under the
    /// identifier that the table assigns and returned, unless its address is
    /// taken.
    pub fn insert(&mut self, statement: &InsertStatement, now: i64) -> (result: Result<
        GameModel,
        StoreFailure,
    >)
        requires
            old(self).wf(),
        ensures
            final(self).wf(),
            result is Ok <==> !has_address(old(self)@, statement.address@),
            row_outcome(result) == insert_outcome(old(self)@, statement@, now),
            final(self)@ == after_insert(old(self)@, statement@, now),
    {
        if self.address_in_use(&statement.address, None) {
            return Err(StoreFailure::unique_violation(ADDRESS_CONSTRAINT));
        }
        let k = self.free_id();
        let row = GameModel {
            id: k as u128,
            field_name: statement.field_name.clone(),
            address: statement.address.clone(),
            day: statement.day.clone(),
            created_at: now,
            updated_at: now,
        };
        let stored = row.clone();
        proof {
            lemma_insert_well_formed(self@, statement@, now);
            assert(games_view(self.rows@.insert(k as int, row)) =~= self@.insert(k as int, row@));
        }
        self.rows.insert(k, row);
        Ok(stored)
    }

    /// Runs a select statement: the row with the statement's identifier, or
    /// the failure that reports a missing row.
    pub fn select(&self, statement: &SelectStatement) -> (result: Result<GameModel, StoreFailure>)
        requires
            self.wf(),
        ensures
            row_outcome(result) == select_outcome(self@, statement.id),
    {
        let k = self.position(statement.id);
        proof {
            lemma_split(self@, statement.id, k as int);
        }
        if k < self.rows.len() && self.rows[k].id == statement.id {
            proof {
                lemma_index_of(self@, statement.id, k as int);
            }
            Ok(self.rows[k].clone())
        } else {
            Err(StoreFailure::row_not_found())
        }
    }

    /// Runs an update statement: rewrites the three fields and `updated_at` of
    /// the row with the statement's identifier and returns the row. Fails
    /// where no such row exists or another row has the new address.
    pub fn update(&mut self, statement: &UpdateStatement) -> (result: Result<
        GameModel,
        StoreFailure,
    >)
        requires
            old(self).wf(),
        ensures
            final(self).wf(),
            row_outcome(result) == update_outcome(old(self)@, statement@),
            final(self)@ == after_update(old(self)@, statement@),
    {
        let k = self.position(statement.id);
        proof {
            lemma_split(self@, statement.id, k as int);
        }
        if !(k < self.rows.len() && self.rows[k].id == statement.id) {
            return Err(StoreFailure::row_not_found());
        }
        proof {
            lemma_index_of(self@, statement.id, k as int);
        }
        if self.address_in_use(&statement.address, Some(statement.id)) {
            return Err(StoreFailure::unique_violation(ADDRESS_CONSTRAINT));
        }
        let row = GameModel {
            id: statement.id,
            field_name: statement.field_name.clone(),
            address: statement.address.clone(),
            day: statement.day.clone(),
            created_at: self.rows[k].created_at,
            updated_at: statement.updated_at,
        };
        let stored = row.clone();
        proof {
            lemma_update_well_formed(self@, statement@);
            assert(games_view(self.rows@.update(k as int, row)) =~= self@.update(k as int, row@));
        }
        self.rows.set(k, row);
        Ok(stored)
    }

    /// Runs a delete statement and returns the number of rows removed: 1
    /// where a row had the statement's identifier, 0 where none had.
    pub fn delete(&mut self, statement: &DeleteStatement) -> (result: Result<u64, StoreFailure>)
        requires
            old(self).wf(),
        ensures
            final(self).wf(),
            count_outcome(result) == Ok::<u64, StoreFailureView>(
                delete_count(old(self)@, statement.id),
            ),
            final(self)@ == after_delete(old(self)@, statement.id),
    {
        let k = self.position(statement.id);
        proof {
            lemma_split(self@, statement.id, k as int);
        }
        if k < self.rows.len() && self.rows[k].id == statement.id {
            proof {
                lemma_index_of(self@, statement.id, k as int);
                lemma_delete_well_formed(self@, statement.id);
                assert(games_view(self.rows@.remove(k as int)) =~= self@.remove(k as int));
            }
            let _removed = self.rows.remove(k);
            Ok(1)
        } else {
            Ok(0)
        }
    }
}

} // verus!
