//! The handlers, one per endpoint. A handler decides; it performs no I/O.
//!
//! Each handler comes in steps. The first takes the request and returns the
//! statement to run, or the response where the request is turned away. The
//! next is handed what the store answered and returns the response, or,
//! where a second statement is due, that statement.

use crate::error::{GatewayError, GatewayErrorView, ValidationError};
use crate::ident::{hyphenated, uuid_text};
use crate::ident::parsed_uuid;
use crate::models::dtos::{
    accepted_id, required_fields, CreateGameFields, CreateGameFieldsView,
    CreateGameSchema, FilterOptions, ParamOptions, UpdateGameSchema, UpdateGameView,
};
use crate::models::game::{GameModel, GameView};
use crate::response::{
    empty_response, game_response, games_response, message_response, Response, ResponseView,
    Status, BAD_REQUEST, CONFLICT, CREATED, INTERNAL_SERVER_ERROR, NOT_FOUND, NO_CONTENT, OK,
};
use crate::services::game::{
    classified, classify, create_game_service, delete_game_service, get_game_by_id_service,
    get_games_svc, insert_values, merge_update, merged, options_or_default, page_in_range,
    update_game_service, Operation,
};
use crate::store::failure::{
    count_outcome, row_outcome, rows_outcome, StoreFailure, StoreFailureView,
};
use crate::store::statement::{
    DeleteStatement, InsertStatement, InsertView, ListStatement, SelectStatement, UpdateStatement,
    UpdateView,
};
use vstd::prelude::*;

verus! {

/// Message of the response to a list request that failed.
pub const LIST_FAILED: &'static str = "Something wrong happened.";

/// Message of the response to a write whose address another game has.
pub const ADDRESS_TAKEN: &'static str = "Game with that address already exists";

/// What follows the identifier in a message that reports a missing game.
pub const NOT_FOUND_SUFFIX: &'static str = " not found";

/// What precedes the identifier where a fetch finds no game.
pub const GAME_PREFIX: &'static str = "Game with ID: ";

/// What precedes the identifier where an update or a delete finds no game.
pub const NOTE_PREFIX: &'static str = "Note with ID: ";

/// The message that reports that no game has identifier `id`: the prefix, the
/// identifier in hyphenated form, and " not found".
pub open spec fn missing_message(prefix: Seq<char>, id: u128) -> Seq<char> {
    prefix + hyphenated(id) + NOT_FOUND_SUFFIX@
}

fn missing_text(prefix: &str, id: u128) -> (message: String)
    ensures
        message@ == missing_message(prefix@, id),
{
    let id_text = uuid_text(id);
    String::from_str(prefix).concat(id_text.as_str()).concat(NOT_FOUND_SUFFIX)
}

/// The response that reports that no game has identifier `id`.
fn missing(prefix: &str, id: u128) -> (response: Response)
    ensures
        response@ == message_response(NOT_FOUND, Status::Fail, missing_message(prefix@, id)),
{
    let code = GatewayError::NotFound.status_code();
    Response::with_message(code, Status::Fail, missing_text(prefix, id))
}

/// The message that tells a client why its request was turned away.
pub open spec fn rejection_message(reason: ValidationError) -> Seq<char> {
    match reason {
        ValidationError::MalformedId => "Invalid game ID"@,
        ValidationError::MissingFieldName => "Missing field: field_name"@,
        ValidationError::MissingAddress => "Missing field: address"@,
        ValidationError::MissingDay => "Missing field: day"@,
        ValidationError::MalformedBody => "Invalid request body"@,
        ValidationError::PageOutOfRange => "Page out of range"@,
    }
}

/// The response to a request that failed validation: 400, status `fail`, and
/// the reason's message.
pub open spec fn rejection(reason: ValidationError) -> ResponseView {
    message_response(BAD_REQUEST, Status::Fail, rejection_message(reason))
}

/// Answers a request that failed validation.
pub fn reject(reason: ValidationError) -> (response: Response)
    ensures
        response@ == rejection(reason),
{
    let message = match reason {
        ValidationError::MalformedId => "Invalid game ID",
        ValidationError::MissingFieldName => "Missing field: field_name",
        ValidationError::MissingAddress => "Missing field: address",
        ValidationError::MissingDay => "Missing field: day",
        ValidationError::MalformedBody => "Invalid request body",
        ValidationError::PageOutOfRange => "Page out of range",
    };
    let code = GatewayError::Validation(reason).status_code();
    Response::with_message(code, Status::Fail, String::from_str(message))
}

/// What a handler does next.
#[derive(Debug, PartialEq, Eq)]
pub enum Step<S> {
    /// Run this statement and hand the store's answer to the next step.
    Run(S),
    /// Answer at once; nothing goes to the store.
    Reply(Response),
}

/// A step as a mathematical value.
pub enum StepView<V> {
    Run(V),
    Reply(ResponseView),
}

impl<S: View> View for Step<S> {
    type V = StepView<S::V>;

    open spec fn view(&self) -> StepView<S::V> {
        match *self {
            Step::Run(statement) => StepView::Run(statement@),
            Step::Reply(response) => StepView::Reply(response@),
        }
    }
}

/// First step of a list request: the statement for the page asked for, or
/// the rejection of a page out of range.
pub open spec fn get_games_plan(opts: Option<FilterOptions>) -> StepView<ListStatement> {
    let options = options_or_default(opts);
    if page_in_range(options) {
        StepView::Run(
            ListStatement {
                limit: options.page_size() as i64,
                offset: ((options.page_number() - 1) * options.page_size()) as i64,
            },
        )
    } else {
        StepView::Reply(rejection(ValidationError::PageOutOfRange))
    }
}

/// First step of a list request.
pub fn get_games_request(opts: Option<FilterOptions>) -> (step: Step<ListStatement>)
    ensures
        step@ == get_games_plan(opts),
{
    match get_games_svc(opts) {
        Ok(statement) => Step::Run(statement),
        Err(reason) => Step::Reply(reject(reason)),
    }
}

/// The fields of a create body that could be read, or nothing.
pub open spec fn arrived(body: Option<CreateGameFields>) -> Option<CreateGameFieldsView> {
    match body {
        Some(fields) => Some(fields@),
        None => None,
    }
}

/// First step of a create request: the insert of the body's three fields, or
/// the rejection of a body that could not be read or lacks a field.
pub open spec fn create_game_plan(body: Option<CreateGameFieldsView>) -> StepView<InsertView> {
    match body {
        None => StepView::Reply(rejection(ValidationError::MalformedBody)),
        Some(fields) => match required_fields(fields.field_name, fields.address, fields.day) {
            Ok(complete) => StepView::Run(insert_values(complete)),
            Err(reason) => StepView::Reply(rejection(reason)),
        },
    }
}

/// First step of a create request. `body` is nothing where the body of the
/// request could not be read.
pub fn create_game_request(body: Option<CreateGameFields>) -> (step: Step<InsertStatement>)
    ensures
        step@ == create_game_plan(arrived(body)),
{
    let fields = match body {
        Some(fields) => fields,
        None => { return Step::Reply(reject(ValidationError::MalformedBody)); },
    };
    match CreateGameSchema::from_parts(fields.field_name, fields.address, fields.day) {
        Ok(complete) => Step::Run(create_game_service(&complete)),
        Err(reason) => Step::Reply(reject(reason)),
    }
}

/// First step of a fetch, given what the path parameter was accepted as: the
/// fetch of that identifier, or the rejection of the parameter.
pub open spec fn fetch_plan(id: Result<u128, ValidationError>) -> StepView<SelectStatement> {
    match id {
        Ok(id) => StepView::Run(SelectStatement { id }),
        Err(reason) => StepView::Reply(rejection(reason)),
    }
}

/// First step of a fetch, once the path parameter was accepted or rejected.
pub fn fetch_step(id: Result<u128, ValidationError>) -> (step: Step<SelectStatement>)
    ensures
        step@ == fetch_plan(id),
{
    match id {
        Ok(id) => Step::Run(get_game_by_id_service(id)),
        Err(reason) => Step::Reply(reject(reason)),
    }
}

/// First step of a fetch. A path parameter that is not the text of a UUID is
/// turned away; nothing goes to the store.
pub fn get_game_by_id_request(params: &ParamOptions) -> (step: Step<SelectStatement>)
    ensures
        step@ == fetch_plan(accepted_id(parsed_uuid(params.id@))),
{
    fetch_step(params.game_id())
}

/// What the first step of an update hands on: the fetch of the stored game,
/// and the body to merge with it.
#[derive(Debug, PartialEq, Eq)]
pub struct UpdateFetch {
    pub statement: SelectStatement,
    pub body: UpdateGameSchema,
}

/// The fetch of an update as a mathematical value.
pub struct UpdateFetchView {
    pub id: u128,
    pub body: UpdateGameView,
}

impl View for UpdateFetch {
    type V = UpdateFetchView;

    open spec fn view(&self) -> UpdateFetchView {
        UpdateFetchView { id: self.statement.id, body: self.body@ }
    }
}

/// The update body that could be read, or nothing.
pub open spec fn arrived_update(body: Option<UpdateGameSchema>) -> Option<UpdateGameView> {
    match body {
        Some(fields) => Some(fields@),
        None => None,
    }
}

/// First step of an update, given what the path parameter was accepted as:
/// the fetch of the stored game, or the rejection of the parameter or of a
/// body that could not be read, in that order.
pub open spec fn update_game_plan(
    id: Result<u128, ValidationError>,
    body: Option<UpdateGameView>,
) -> StepView<UpdateFetchView> {
    match id {
        Err(reason) => StepView::Reply(rejection(reason)),
        Ok(id) => match body {
            None => StepView::Reply(rejection(ValidationError::MalformedBody)),
            Some(body) => StepView::Run(UpdateFetchView { id, body }),
        },
    }
}

/// First step of an update, once the path parameter was accepted or
/// rejected. `body` is nothing where the body of the request could not be
/// read.
pub fn update_fetch_step(
    id: Result<u128, ValidationError>,
    body: Option<UpdateGameSchema>,
) -> (step: Step<UpdateFetch>)
    ensures
        step@ == update_game_plan(id, arrived_update(body)),
{
    let id = match id {
        Ok(id) => id,
        Err(reason) => { return Step::Reply(reject(reason)); },
    };
    match body {
        Some(body) => Step::Run(UpdateFetch { statement: get_game_by_id_service(id), body }),
        None => Step::Reply(reject(ValidationError::MalformedBody)),
    }
}

/// First step of an update. A path parameter that is not the text of a UUID
/// is turned away; nothing goes to the store.
pub fn update_game_request(params: &ParamOptions, body: Option<UpdateGameSchema>) -> (step: Step<
    UpdateFetch,
>)
    ensures
        step@ == update_game_plan(accepted_id(parsed_uuid(params.id@)), arrived_update(body)),
{
    update_fetch_step(params.game_id(), body)
}

/// First step of a delete, given what the path parameter was accepted as:
/// the delete of that identifier, or the rejection of the parameter.
pub open spec fn delete_plan(id: Result<u128, ValidationError>) -> StepView<DeleteStatement> {
    match id {
        Ok(id) => StepView::Run(DeleteStatement { id }),
        Err(reason) => StepView::Reply(rejection(reason)),
    }
}

/// First step of a delete, once the path parameter was accepted or rejected.
pub fn delete_step(id: Result<u128, ValidationError>) -> (step: Step<DeleteStatement>)
    ensures
        step@ == delete_plan(id),
{
    match id {
        Ok(id) => Step::Run(delete_game_service(id)),
        Err(reason) => Step::Reply(reject(reason)),
    }
}

/// First step of a delete. A path parameter that is not the text of a UUID
/// is turned away; nothing goes to the store.
pub fn delete_game_request(params: &ParamOptions) -> (step: Step<DeleteStatement>)
    ensures
        step@ == delete_plan(accepted_id(parsed_uuid(params.id@))),
{
    delete_step(params.game_id())
}

/// The response to a list request.
///
/// Success is 200 with the games and their number; any failure of the store
/// is 500 with the same generic message.
pub open spec fn get_games_reply(outcome: Result<Seq<GameView>, StoreFailureView>) -> ResponseView {
    match outcome {
        Ok(games) => games_response(games),
        Err(_) => message_response(INTERNAL_SERVER_ERROR, Status::Fail, LIST_FAILED@),
    }
}

/// Answers a list request from what the store returned for its statement.
pub fn get_games(outcome: Result<Vec<GameModel>, StoreFailure>) -> (response: Response)
    ensures
        response@ == get_games_reply(rows_outcome(outcome)),
{
    match outcome {
        Ok(games) => Response::with_games(games),
        Err(failure) => {
            let code = classify(Operation::List, &failure).status_code();
            Response::with_message(code, Status::Fail, String::from_str(LIST_FAILED))
        },
    }
}

/// The response to a create request.
///
/// Success is 201 with the stored game. A violation of the constraint on
/// addresses is 409; any other failure is 500 with the store's diagnostic
/// text.
pub open spec fn create_game_reply(outcome: Result<GameView, StoreFailureView>) -> ResponseView {
    match outcome {
        Ok(game) => game_response(CREATED, game),
        Err(failure) => match classified(Operation::Create, failure) {
            GatewayErrorView::Conflict => message_response(CONFLICT, Status::Fail, ADDRESS_TAKEN@),
            _ => message_response(INTERNAL_SERVER_ERROR, Status::Error, failure.detail),
        },
    }
}

/// Answers a create request from what the store returned for its statement.
pub fn create_game(outcome: Result<GameModel, StoreFailure>) -> (response: Response)
    ensures
        response@ == create_game_reply(row_outcome(outcome)),
{
    match outcome {
        Ok(game) => Response::with_game(CREATED, game),
        Err(failure) => {
            let error = classify(Operation::Create, &failure);
            let code = error.status_code();
            match error {
                GatewayError::Conflict => Response::with_message(
                    code,
                    Status::Fail,
                    String::from_str(ADDRESS_TAKEN),
                ),
                _ => Response::with_message(code, Status::Error, failure.detail),
            }
        },
    }
}

/// The response to a fetch of the game with identifier `id`.
///
/// Success is 200 with the game. No such row is 404 with a message that names
/// the identifier; any other failure is 500 with the store's diagnostic text.
pub open spec fn get_game_by_id_reply(
    id: u128,
    outcome: Result<GameView, StoreFailureView>,
) -> ResponseView {
    match outcome {
        Ok(game) => game_response(OK, game),
        Err(failure) => match classified(Operation::GetById, failure) {
            GatewayErrorView::NotFound => message_response(
                NOT_FOUND,
                Status::Fail,
                missing_message(GAME_PREFIX@, id),
            ),
            _ => message_response(INTERNAL_SERVER_ERROR, Status::Error, failure.detail),
        },
    }
}

/// Answers a fetch from what the store returned for its statement.
pub fn get_game_by_id(id: u128, outcome: Result<GameModel, StoreFailure>) -> (response: Response)
    ensures
        response@ == get_game_by_id_reply(id, row_outcome(outcome)),
{
    match outcome {
        Ok(game) => Response::with_game(OK, game),
        Err(failure) => {
            let error = classify(Operation::GetById, &failure);
            let code = error.status_code();
            match error {
                GatewayError::NotFound => Response::with_message(
                    code,
                    Status::Fail,
                    missing_text(GAME_PREFIX, id),
                ),
                _ => Response::with_message(code, Status::Error, failure.detail),
            }
        },
    }
}

/// The response to an update whose first step, the fetch of the stored game,
/// failed: 404 where no such row exists, 500 otherwise.
pub open spec fn update_fetch_failed(id: u128, failure: StoreFailureView) -> ResponseView {
    match classified(Operation::GetById, failure) {
        GatewayErrorView::NotFound => message_response(
            NOT_FOUND,
            Status::Fail,
            missing_message(NOTE_PREFIX@, id),
        ),
        _ => message_response(INTERNAL_SERVER_ERROR, Status::Error, failure.detail),
    }
}

/// The time that a step of an update writes as the time of the update; 0
/// where it writes nothing.
pub open spec fn written_at(step: Step<UpdateStatement>) -> i64 {
    match step {
        Step::Run(statement) => statement.updated_at,
        Step::Reply(_) => 0,
    }
}

/// What an update does once the stored game was fetched, at time `now`: it
/// writes the merge of request and stored game, or, where the fetch failed,
/// answers at once.
pub open spec fn update_game_step(
    id: u128,
    body: UpdateGameView,
    fetched: Result<GameView, StoreFailureView>,
    now: i64,
) -> StepView<UpdateView> {
    match fetched {
        Ok(game) => StepView::Run(merged(id, body, game, now)),
        Err(failure) => StepView::Reply(update_fetch_failed(id, failure)),
    }
}

fn update_fetch_failure(id: u128, failure: StoreFailure) -> (response: Response)
    ensures
        response@ == update_fetch_failed(id, failure@),
{
    let error = classify(Operation::GetById, &failure);
    let code = error.status_code();
    match error {
        GatewayError::NotFound => Response::with_message(
            code,
            Status::Fail,
            missing_text(NOTE_PREFIX, id),
        ),
        _ => Response::with_message(code, Status::Error, failure.detail),
    }
}

/// Step of an update after the fetch, at a given time: decides from the fetched game
/// what to write, or answers where the fetch failed.
pub fn update_game_at(
    id: u128,
    body: &UpdateGameSchema,
    fetched: Result<GameModel, StoreFailure>,
    now: i64,
) -> (step: Step<UpdateStatement>)
    ensures
        step@ == update_game_step(id, body@, row_outcome(fetched), now),
{
    match fetched {
        Ok(game) => Step::Run(merge_update(id, body, game, now)),
        Err(failure) => Step::Reply(update_fetch_failure(id, failure)),
    }
}

/// Step of an update after the fetch: decides from the fetched game what to write now,
/// or answers where the fetch failed.
///
/// The time written is the clock's; whatever it reads, the step is the one
/// that `update_game_step` gives for that time.
pub fn update_game(
    id: u128,
    body: &UpdateGameSchema,
    fetched: Result<GameModel, StoreFailure>,
) -> (step: Step<UpdateStatement>)
    ensures
        step@ == update_game_step(id, body@, row_outcome(fetched), written_at(step)),
{
    match fetched {
        Ok(game) => Step::Run(update_game_service(id, body, game)),
        Err(failure) => Step::Reply(update_fetch_failure(id, failure)),
    }
}

/// The response to an update once its statement ran.
///
/// Success is 200 with the stored game. No such row is 404, a violation of
/// the constraint on addresses 409, any other failure 500 with the store's
/// diagnostic text.
pub open spec fn update_game_reply(
    id: u128,
    outcome: Result<GameView, StoreFailureView>,
) -> ResponseView {
    match outcome {
        Ok(game) => game_response(OK, game),
        Err(failure) => match classified(Operation::Update, failure) {
            GatewayErrorView::NotFound => message_response(
                NOT_FOUND,
                Status::Fail,
                missing_message(NOTE_PREFIX@, id),
            ),
            GatewayErrorView::Conflict => message_response(CONFLICT, Status::Fail, ADDRESS_TAKEN@),
            _ => message_response(INTERNAL_SERVER_ERROR, Status::Error, failure.detail),
        },
    }
}

/// Last step of an update: answers from what the store returned for the
/// update statement.
pub fn update_game_written(id: u128, outcome: Result<GameModel, StoreFailure>) -> (response:
    Response)
    ensures
        response@ == update_game_reply(id, row_outcome(outcome)),
{
    match outcome {
        Ok(game) => Response::with_game(OK, game),
        Err(failure) => {
            let error = classify(Operation::Update, &failure);
            let code = error.status_code();
            match error {
                GatewayError::NotFound => Response::with_message(
                    code,
                    Status::Fail,
                    missing_text(NOTE_PREFIX, id),
                ),
                GatewayError::Conflict => Response::with_message(
                    code,
                    Status::Fail,
                    String::from_str(ADDRESS_TAKEN),
                ),
                _ => Response::with_message(code, Status::Error, failure.detail),
            }
        },
    }
}

/// The response to a delete of the game with identifier `id`.
///
/// No row deleted is 404 with a message that names the identifier; a deleted
/// row is 204 without a body; a failure of the store is 500 with its
/// diagnostic text.
pub open spec fn delete_game_reply(
    id: u128,
    outcome: Result<u64, StoreFailureView>,
) -> ResponseView {
    match outcome {
        Ok(rows_affected) => if rows_affected == 0 {
            message_response(NOT_FOUND, Status::Fail, missing_message(NOTE_PREFIX@, id))
        } else {
            empty_response(NO_CONTENT)
        },
        Err(failure) => message_response(INTERNAL_SERVER_ERROR, Status::Error, failure.detail),
    }
}

/// Answers a delete from the number of rows that its statement affected.
pub fn delete_game(id: u128, outcome: Result<u64, StoreFailure>) -> (response: Response)
    ensures
        response@ == delete_game_reply(id, count_outcome(outcome)),
{
    match outcome {
        Ok(rows_affected) => if rows_affected == 0 {
            missing(NOTE_PREFIX, id)
        } else {
            Response::without_body(NO_CONTENT)
        },
        Err(failure) => {
            let code = classify(Operation::Delete, &failure).status_code();
            Response::with_message(code, Status::Error, failure.detail)
        },
    }
}

} // verus!
