//! The five parameterized statements that the service issues against the
//! `games` table. Each holds the values bound to its placeholders, in order.

use vstd::prelude::*;

verus! {

/// Text of the statement that lists one page of games, ordered by identifier.
pub const LIST_SQL: &'static str =
    "SELECT id, day, field_name, address, created_at, updated_at FROM games ORDER BY id LIMIT $1 OFFSET $2";

/// Text of the statement that inserts a game and returns the stored row.
pub const INSERT_SQL: &'static str =
    "INSERT INTO games (field_name, address, day) VALUES ($1, $2, $3) RETURNING id, day, field_name, address, created_at, updated_at";

/// Text of the statement that fetches one game by identifier.
pub const SELECT_SQL: &'static str =
    "SELECT id, day, field_name, address, created_at, updated_at FROM games WHERE id = $1";

/// Text of the statement that rewrites a game and returns the stored row.
pub const UPDATE_SQL: &'static str =
    "UPDATE games SET field_name = $1, address = $2, day = $3, updated_at = $4 WHERE id = $5 RETURNING id, day, field_name, address, created_at, updated_at";

/// Text of the statement that deletes one game by identifier.
pub const DELETE_SQL: &'static str = "DELETE FROM games WHERE id = $1";

/// Lists at most `limit` games after skipping `offset`.
#[derive(Debug, PartialEq, Eq)]
pub struct ListStatement {
    pub limit: i64,
    pub offset: i64,
}

impl View for ListStatement {
    type V = ListStatement;

    open spec fn view(&self) -> ListStatement {
        *self
    }
}

impl ListStatement {
    pub fn sql(&self) -> (text: &'static str)
        ensures
            text@ == LIST_SQL@,
    {
        LIST_SQL
    }
}

/// Inserts a game with the three given fields.
#[derive(Debug, PartialEq, Eq)]
pub struct InsertStatement {
    pub field_name: String,
    pub address: String,
    pub day: String,
}

/// The values an insert binds.
pub struct InsertView {
    pub field_name: Seq<char>,
    pub address: Seq<char>,
    pub day: Seq<char>,
}

impl View for InsertStatement {
    type V = InsertView;

    open spec fn view(&self) -> InsertView {
        InsertView { field_name: self.field_name@, address: self.address@, day: self.day@ }
    }
}

impl InsertStatement {
    pub fn sql(&self) -> (text: &'static str)
        ensures
            text@ == INSERT_SQL@,
    {
        INSERT_SQL
    }
}

/// Fetches the game with identifier `id`.
#[derive(Debug, PartialEq, Eq)]
pub struct SelectStatement {
    pub id: u128,
}

impl View for SelectStatement {
    type V = SelectStatement;

    open spec fn view(&self) -> SelectStatement {
        *self
    }
}

impl SelectStatement {
    pub fn sql(&self) -> (text: &'static str)
        ensures
            text@ == SELECT_SQL@,
    {
        SELECT_SQL
    }
}

/// Rewrites the three fields and `updated_at` of the game with identifier
/// `id`.
#[derive(Debug, PartialEq, Eq)]
pub struct UpdateStatement {
    pub field_name: String,
    pub address: String,
    pub day: String,
    pub updated_at: i64,
    pub id: u128,
}

/// The values an update binds.
pub struct UpdateView {
    pub field_name: Seq<char>,
    pub address: Seq<char>,
    pub day: Seq<char>,
    pub updated_at: i64,
    pub id: u128,
}

impl View for UpdateStatement {
    type V = UpdateView;

    open spec fn view(&self) -> UpdateView {
        UpdateView {
            field_name: self.field_name@,
            address: self.address@,
            day: self.day@,
            updated_at: self.updated_at,
            id: self.id,
        }
    }
}

impl UpdateStatement {
    pub fn sql(&self) -> (text: &'static str)
        ensures
            text@ == UPDATE_SQL@,
    {
        UPDATE_SQL
    }
}

/// Deletes the game with identifier `id`.
#[derive(Debug, PartialEq, Eq)]
pub struct DeleteStatement {
    pub id: u128,
}

impl View for DeleteStatement {
    type V = DeleteStatement;

    open spec fn view(&self) -> DeleteStatement {
        *self
    }
}

impl DeleteStatement {
    pub fn sql(&self) -> (text: &'static str)
        ensures
            text@ == DELETE_SQL@,
    {
        DELETE_SQL
    }
}

} // verus!
