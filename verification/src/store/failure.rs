//! A failed statement, as plain values.

use crate::models::dtos::optional_text;
use crate::models::game::{games_view, GameModel, GameView};
use vstd::prelude::*;

verus! {

/// Name of the constraint that keeps addresses unique: the one PostgreSQL
/// gives to the unique constraint on column `address` of table `games`.
pub const ADDRESS_CONSTRAINT: &'static str = "games_address_key";

/// The words by which the database reports a violated uniqueness constraint.
pub const UNIQUE_VIOLATION: &'static str = "duplicate key value violates unique constraint";

/// Diagnostic text of the failure of a statement that was to return a row
/// and returned none.
pub const ROW_NOT_FOUND: &'static str =
    "no rows returned by a query that expected to return at least one row";

/// What the store's client reported when a statement failed.
#[derive(Debug, PartialEq, Eq)]
pub struct StoreFailure {
    /// The statement was to return a row and returned none.
    pub row_not_found: bool,
    /// Name of the constraint that the database reported as violated, where
    /// it reported one.
    pub constraint: Option<String>,
    /// Diagnostic text of the failure, for operators.
    pub detail: String,
}

/// A failure as a mathematical value.
pub struct StoreFailureView {
    pub row_not_found: bool,
    pub constraint: Option<Seq<char>>,
    pub detail: Seq<char>,
}

impl View for StoreFailure {
    type V = StoreFailureView;

    open spec fn view(&self) -> StoreFailureView {
        StoreFailureView {
            row_not_found: self.row_not_found,
            constraint: optional_text(self.constraint),
            detail: self.detail@,
        }
    }
}

/// The failure that reports a missing row.
pub open spec fn row_not_found() -> StoreFailureView {
    StoreFailureView { row_not_found: true, constraint: None, detail: ROW_NOT_FOUND@ }
}

/// The failure that reports a statement the database refused, with what the
/// database said.
pub open spec fn refused(reason: Seq<char>) -> StoreFailureView {
    StoreFailureView { row_not_found: false, constraint: None, detail: reason }
}

/// The failure that reports a violation of the named uniqueness constraint.
pub open spec fn unique_violation(constraint: Seq<char>) -> StoreFailureView {
    StoreFailureView {
        row_not_found: false,
        constraint: Some(constraint),
        detail: UNIQUE_VIOLATION@ + " \""@ + constraint + "\""@,
    }
}

impl StoreFailure {
    /// The failure of a statement that was to return a row and returned none.
    pub fn row_not_found() -> (failure: StoreFailure)
        ensures
            failure@ == row_not_found(),
    {
        StoreFailure {
            row_not_found: true,
            constraint: None,
            detail: String::from_str(ROW_NOT_FOUND),
        }
    }

    /// The failure of a statement that the database refused for `reason`.
    pub fn refused(reason: &str) -> (failure: StoreFailure)
        ensures
            failure@ == refused(reason@),
    {
        StoreFailure { row_not_found: false, constraint: None, detail: String::from_str(reason) }
    }

    /// The failure of a write that violated the named uniqueness constraint.
    pub fn unique_violation(constraint: &str) -> (failure: StoreFailure)
        ensures
            failure@ == unique_violation(constraint@),
    {
        StoreFailure {
            row_not_found: false,
            constraint: Some(String::from_str(constraint)),
            detail: String::from_str(UNIQUE_VIOLATION).concat(" \"").concat(constraint).concat(
                "\"",
            ),
        }
    }
}

/// What the store answered to a statement that returns one row.
pub open spec fn row_outcome(raw: Result<GameModel, StoreFailure>) -> Result<
    GameView,
    StoreFailureView,
> {
    match raw {
        Ok(row) => Ok(row@),
        Err(failure) => Err(failure@),
    }
}

/// What the store answered to a statement that returns rows.
pub open spec fn rows_outcome(raw: Result<Vec<GameModel>, StoreFailure>) -> Result<
    Seq<GameView>,
    StoreFailureView,
> {
    match raw {
        Ok(rows) => Ok(games_view(rows@)),
        Err(failure) => Err(failure@),
    }
}

/// What the store answered to a statement that returns a number of rows.
pub open spec fn count_outcome(raw: Result<u64, StoreFailure>) -> Result<u64, StoreFailureView> {
    match raw {
        Ok(count) => Ok(count),
        Err(failure) => Err(failure@),
    }
}

} // verus!
