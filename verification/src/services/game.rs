//! The gateway between the handlers and the store: one statement per
//! operation on the way in, one classification of failures on the way out.

use crate::clock::now_micros;
use crate::error::{GatewayError, GatewayErrorView, ValidationError};
use crate::models::dtos::{
    CreateGameSchema, CreateGameView, FilterOptions, UpdateGameSchema, UpdateGameView,
};
use crate::models::game::{GameModel, GameView};
use crate::store::failure::{StoreFailure, StoreFailureView, ADDRESS_CONSTRAINT};
use crate::store::statement::{
    DeleteStatement, InsertStatement, InsertView, ListStatement, SelectStatement, UpdateStatement,
    UpdateView,
};
use vstd::prelude::*;

verus! {

/// The five operations of the gateway.
#[derive(Clone, Copy, Debug, PartialEq, Eq, Structural)]
pub enum Operation {
    List,
    Create,
    GetById,
    Update,
    Delete,
}

impl Operation {
    /// The operation addresses one row by identifier and expects it back.
    pub open spec fn expects_row(self) -> bool {
        self is GetById || self is Update
    }

    /// The operation writes an address, which must stay unique.
    pub open spec fn writes_address(self) -> bool {
        self is Create || self is Update
    }
}

/// A failure reports that the constraint on addresses was violated.
pub open spec fn violates_address(failure: StoreFailureView) -> bool {
    failure.constraint == Some(ADDRESS_CONSTRAINT@)
}

/// The condition that a failure of `operation` stands for.
///
/// A missing row is `NotFound` for the operations that address one row; a
/// violation of the constraint on addresses is `Conflict` for those that
/// write an address; everything else, the violation of any other constraint
/// included, is `Internal` and carries the diagnostic text.
pub open spec fn classified(operation: Operation, failure: StoreFailureView) -> GatewayErrorView {
    if failure.row_not_found && operation.expects_row() {
        GatewayErrorView::NotFound
    } else if operation.writes_address() && violates_address(failure) {
        GatewayErrorView::Conflict
    } else {
        GatewayErrorView::Internal(failure.detail)
    }
}

/// Whether a failure names the constraint on addresses as the one violated.
fn names_address_constraint(failure: &StoreFailure) -> (named: bool)
    ensures
        named == violates_address(failure@),
{
    match &failure.constraint {
        Some(name) => {
            let address = String::from_str(ADDRESS_CONSTRAINT);
            *name == address
        },
        None => false,
    }
}

/// Classifies a failure of `operation`.
pub fn classify(operation: Operation, failure: &StoreFailure) -> (error: GatewayError)
    ensures
        error@ == classified(operation, failure@),
{
    let expects_row = match operation {
        Operation::GetById | Operation::Update => true,
        _ => false,
    };
    let writes_address = match operation {
        Operation::Create | Operation::Update => true,
        _ => false,
    };
    if failure.row_not_found && expects_row {
        GatewayError::NotFound
    } else if writes_address && names_address_constraint(failure) {
        GatewayError::Conflict
    } else {
        GatewayError::Internal(failure.detail.clone())
    }
}

/// The page and the page size fit a statement: the limit and the number of
/// rows to skip are both within `i64`.
pub open spec fn page_in_range(options: FilterOptions) -> bool {
    &&& options.page_size() <= i64::MAX
    &&& (options.page_number() - 1) * options.page_size() <= i64::MAX
}

/// The options of a list request, absent ones being the default.
pub open spec fn options_or_default(options: Option<FilterOptions>) -> FilterOptions {
    match options {
        Some(given) => given,
        None => FilterOptions { page: None, limit: None },
    }
}

/// The statement that lists the page a request asks for.
///
/// Absent options, an absent page and page 0 all mean page 1; an absent limit
/// means 10. The statement skips `(page - 1) * limit` rows. A request whose
/// limit or offset exceeds `i64` is rejected.
pub fn get_games_svc(opts: Option<FilterOptions>) -> (result: Result<
    ListStatement,
    ValidationError,
>)
    ensures
        match result {
            Ok(statement) => {
                let options = options_or_default(opts);
                &&& page_in_range(options)
                &&& statement.limit == options.page_size()
                &&& statement.offset == (options.page_number() - 1) * options.page_size()
            },
            Err(reason) => {
                &&& !page_in_range(options_or_default(opts))
                &&& reason == ValidationError::PageOutOfRange
            },
        },
{
    let options = match opts {
        Some(given) => given,
        None => FilterOptions::default(),
    };
    let limit: u64 = options.effective_limit() as u64;
    let skipped_pages: u64 = (options.effective_page() - 1) as u64;
    let largest: u64 = 0x7fff_ffff_ffff_ffff;
    if limit > largest {
        return Err(ValidationError::PageOutOfRange);
    }
    match skipped_pages.checked_mul(limit) {
        Some(offset) => {
            if offset > largest {
                Err(ValidationError::PageOutOfRange)
            } else {
                Ok(ListStatement { limit: limit as i64, offset: offset as i64 })
            }
        },
        None => Err(ValidationError::PageOutOfRange),
    }
}

/// The values that a create request binds to the insert statement.
pub open spec fn insert_values(body: CreateGameView) -> InsertView {
    InsertView { field_name: body.field_name, address: body.address, day: body.day }
}

/// The statement that inserts the game of a create request.
pub fn create_game_service(body: &CreateGameSchema) -> (statement: InsertStatement)
    ensures
        statement@ == insert_values(body@),
{
    InsertStatement {
        field_name: body.field_name.clone(),
        address: body.address.clone(),
        day: body.day.clone(),
    }
}

/// The statement that fetches the game with identifier `id`.
pub fn get_game_by_id_service(id: u128) -> (statement: SelectStatement)
    ensures
        statement.id == id,
{
    SelectStatement { id }
}

/// A field of an update: the new value where the request carries one, the
/// stored value where it does not.
pub open spec fn merged_field(requested: Option<Seq<char>>, stored: Seq<char>) -> Seq<char> {
    match requested {
        Some(value) => value,
        None => stored,
    }
}

/// The values that an update of `game` at time `now` binds: every field that
/// the request leaves out keeps its stored value.
pub open spec fn merged(id: u128, body: UpdateGameView, game: GameView, now: i64) -> UpdateView {
    UpdateView {
        field_name: merged_field(body.field_name, game.field_name),
        address: merged_field(body.address, game.address),
        day: merged_field(body.day, game.day),
        updated_at: now,
        id,
    }
}

/// The statement that applies an update request to the stored `game` at time
/// `now`.
pub fn merge_update(id: u128, body: &UpdateGameSchema, game: GameModel, now: i64) -> (statement:
    UpdateStatement)
    ensures
        statement@ == merged(id, body@, game@, now),
{
    let field_name = match &body.field_name {
        Some(value) => value.clone(),
        None => game.field_name,
    };
    let address = match &body.address {
        Some(value) => value.clone(),
        None => game.address,
    };
    let day = match &body.day {
        Some(value) => value.clone(),
        None => game.day,
    };
    UpdateStatement { field_name, address, day, updated_at: now, id }
}

/// The statement that applies an update request to the stored `game` now.
///
/// The time is read from the clock; whatever it reads, the statement is the
/// merge at that time.
pub fn update_game_service(id: u128, body: &UpdateGameSchema, game: GameModel) -> (statement:
    UpdateStatement)
    ensures
        statement@ == merged(id, body@, game@, statement.updated_at),
{
    let now = now_micros();
    merge_update(id, body, game, now)
}

/// The statement that deletes the game with identifier `id`.
pub fn delete_game_service(id: u128) -> (statement: DeleteStatement)
    ensures
        statement.id == id,
{
    DeleteStatement { id }
}

} // verus!
