use games_api::controllers::game::{
    create_game, create_game_request, delete_game, delete_game_request, get_game_by_id,
    get_game_by_id_request, get_games, get_games_request, update_game, update_game_request,
    update_game_written, Step,
};
use games_api::models::dtos::{CreateGameFields, FilterOptions, ParamOptions, UpdateGameSchema};
use games_api::models::game::GameModel;
use games_api::response::{Body, Response, Status};
use games_api::store::table::GameTable;

fn post(table: &mut GameTable, field_name: &str, address: &str, day: &str, now: i64) -> Response {
    let fields = CreateGameFields {
        field_name: Some(field_name.to_string()),
        address: Some(address.to_string()),
        day: Some(day.to_string()),
    };
    match create_game_request(Some(fields)) {
        Step::Run(statement) => create_game(table.insert(&statement, now)),
        Step::Reply(response) => response,
    }
}

fn get(table: &GameTable, path_id: &str) -> Response {
    match get_game_by_id_request(&ParamOptions { id: path_id.to_string() }) {
        Step::Run(statement) => get_game_by_id(statement.id, table.select(&statement)),
        Step::Reply(response) => response,
    }
}

fn put(table: &mut GameTable, path_id: &str, body: UpdateGameSchema) -> Response {
    let fetch = match update_game_request(&ParamOptions { id: path_id.to_string() }, Some(body)) {
        Step::Run(fetch) => fetch,
        Step::Reply(response) => return response,
    };
    let id = fetch.statement.id;
    match update_game(id, &fetch.body, table.select(&fetch.statement)) {
        Step::Run(statement) => update_game_written(id, table.update(&statement)),
        Step::Reply(response) => response,
    }
}

fn delete(table: &mut GameTable, path_id: &str) -> Response {
    match delete_game_request(&ParamOptions { id: path_id.to_string() }) {
        Step::Run(statement) => delete_game(statement.id, table.delete(&statement)),
        Step::Reply(response) => response,
    }
}

fn list(table: &GameTable, page: Option<usize>, limit: Option<usize>) -> Response {
    match get_games_request(Some(FilterOptions { page, limit })) {
        Step::Run(statement) => get_games(table.list(&statement)),
        Step::Reply(response) => response,
    }
}

fn game_of(response: Response, code: u16) -> GameModel {
    assert_eq!(response.code, code);
    match response.body {
        Body::Game { status: Status::Success, data } => data.game,
        other => panic!("unexpected body {:?}", other),
    }
}

fn path_of(id: u128) -> String {
    uuid::Uuid::from_u128(id).to_string()
}

fn not_found(prefix: &str, id: &str) -> Response {
    Response {
        code: 404,
        body: Body::Message {
            status: Status::Fail,
            message: format!("{prefix} with ID: {id} not found"),
        },
    }
}

const UNUSED: &str = "550e8400-e29b-41d4-a716-446655440000";

#[test]
fn create_fetch_update_delete_fetch() {
    let mut table = GameTable::new();

    let created = post(&mut table, "Pitch A", "123 Main St", "Monday", 1_700_000_000_000_000);
    let game = game_of(created, 201);
    assert_eq!(game.field_name, "Pitch A");
    assert_eq!(game.address, "123 Main St");
    assert_eq!(game.day, "Monday");
    assert_eq!(game.created_at, game.updated_at);
    let path = path_of(game.id);

    let fetched = game_of(get(&table, &path), 200);
    assert_eq!(fetched, game);

    let body = UpdateGameSchema { field_name: None, address: None, day: Some("Tuesday".to_string()) };
    let rewritten = game_of(put(&mut table, &path, body), 200);
    assert_eq!(rewritten.day, "Tuesday");
    assert_eq!(rewritten.address, "123 Main St");
    assert_eq!(rewritten.field_name, "Pitch A");
    assert_eq!(rewritten.id, game.id);
    assert_eq!(rewritten.created_at, game.created_at);
    assert!(rewritten.updated_at > game.updated_at);

    let deleted = delete(&mut table, &path);
    assert_eq!(deleted, Response { code: 204, body: Body::Empty });

    assert_eq!(get(&table, &path), not_found("Game", &path));
}

#[test]
fn second_create_with_the_same_address_is_a_conflict() {
    let mut table = GameTable::new();
    assert_eq!(post(&mut table, "Pitch A", "123 Main St", "Monday", 10).code, 201);
    let second = post(&mut table, "Pitch B", "123 Main St", "Friday", 20);
    assert_eq!(
        second,
        Response {
            code: 409,
            body: Body::Message {
                status: Status::Fail,
                message: "Game with that address already exists".to_string(),
            },
        }
    );
    assert_eq!(table.len(), 1);
}

#[test]
fn create_with_a_free_address_succeeds() {
    let mut table = GameTable::new();
    for n in 0..20 {
        let response = post(&mut table, "Pitch", &format!("{n} Main St"), "Monday", n);
        let game = game_of(response, 201);
        assert_eq!(game.address, format!("{n} Main St"));
    }
}

#[test]
fn unused_identifier_is_not_found_everywhere() {
    let mut table = GameTable::new();
    assert_eq!(post(&mut table, "Pitch A", "123 Main St", "Monday", 10).code, 201);
    assert_eq!(get(&table, UNUSED), not_found("Game", UNUSED));
    let body = UpdateGameSchema { field_name: None, address: None, day: Some("Tuesday".to_string()) };
    assert_eq!(put(&mut table, UNUSED, body), not_found("Note", UNUSED));
    assert_eq!(delete(&mut table, UNUSED), not_found("Note", UNUSED));
    assert_eq!(table.len(), 1);
}

#[test]
fn delete_succeeds_once_then_reports_not_found() {
    let mut table = GameTable::new();
    let game = game_of(post(&mut table, "Pitch A", "123 Main St", "Monday", 10), 201);
    let path = path_of(game.id);
    assert_eq!(delete(&mut table, &path), Response { code: 204, body: Body::Empty });
    assert_eq!(delete(&mut table, &path), not_found("Note", &path));
}

#[test]
fn partial_update_leaves_the_other_fields() {
    let mut table = GameTable::new();
    let game = game_of(post(&mut table, "Pitch A", "123 Main St", "Monday", 10), 201);
    let path = path_of(game.id);
    let body = UpdateGameSchema { field_name: None, address: None, day: Some("Tuesday".to_string()) };
    assert_eq!(put(&mut table, &path, body).code, 200);
    let after = game_of(get(&table, &path), 200);
    assert_eq!(after.field_name, "Pitch A");
    assert_eq!(after.address, "123 Main St");
    assert_eq!(after.day, "Tuesday");
    assert_eq!(after.created_at, 10);
    assert!(after.updated_at > 10);
}

#[test]
fn update_to_the_address_of_another_game_is_a_conflict() {
    let mut table = GameTable::new();
    let first = game_of(post(&mut table, "Pitch A", "123 Main St", "Monday", 10), 201);
    assert_eq!(post(&mut table, "Pitch B", "9 Side Rd", "Friday", 20).code, 201);
    let body = UpdateGameSchema {
        field_name: None,
        address: Some("9 Side Rd".to_string()),
        day: None,
    };
    let refused = put(&mut table, &path_of(first.id), body);
    assert_eq!(
        refused,
        Response {
            code: 409,
            body: Body::Message {
                status: Status::Fail,
                message: "Game with that address already exists".to_string(),
            },
        }
    );
}

#[test]
fn fifteen_games_list_as_ten_and_five() {
    let mut table = GameTable::new();
    for n in 1..=15 {
        let response =
            post(&mut table, &format!("Pitch {n}"), &format!("{n} Main St"), "Monday", n);
        assert_eq!(response.code, 201);
    }
    let games_of = |response: Response| match response {
        Response { code: 200, body: Body::Games { status: Status::Success, count, games } } => {
            assert_eq!(count, games.len());
            games
        }
        other => panic!("unexpected response {:?}", other),
    };
    let first = games_of(list(&table, Some(1), Some(10)));
    let second = games_of(list(&table, Some(2), Some(10)));
    assert_eq!(first.len(), 10);
    assert_eq!(second.len(), 5);
    let mut addresses: Vec<String> =
        first.iter().chain(second.iter()).map(|game| game.address.clone()).collect();
    addresses.sort();
    let mut expected: Vec<String> = (1..=15).map(|n| format!("{n} Main St")).collect();
    expected.sort();
    assert_eq!(addresses, expected);
    let mut ids: Vec<u128> = first.iter().chain(second.iter()).map(|game| game.id).collect();
    assert!(ids.windows(2).all(|pair| pair[0] < pair[1]));
    ids.dedup();
    assert_eq!(ids.len(), 15);
    let by_default = games_of(list(&table, None, None));
    assert_eq!(by_default, first);
    let page_zero = games_of(list(&table, Some(0), Some(10)));
    assert_eq!(page_zero, first);
    assert!(games_of(list(&table, Some(3), Some(10))).is_empty());
}

#[test]
fn malformed_input_is_turned_away_with_400() {
    let mut table = GameTable::new();
    assert_eq!(post(&mut table, "Pitch A", "123 Main St", "Monday", 10).code, 201);
    let bad_id = Response {
        code: 400,
        body: Body::Message { status: Status::Fail, message: "Invalid game ID".to_string() },
    };
    assert_eq!(get(&table, "not-a-uuid"), bad_id);
    assert_eq!(delete(&mut table, "123"), bad_id);
    let body = UpdateGameSchema { field_name: None, address: None, day: None };
    assert_eq!(put(&mut table, "", body), bad_id);
    assert_eq!(table.len(), 1);
    assert_eq!(list(&table, Some(usize::MAX), Some(usize::MAX)).code, 400);
    let incomplete = CreateGameFields {
        field_name: Some("Pitch B".to_string()),
        address: None,
        day: None,
    };
    assert_eq!(
        create_game_request(Some(incomplete)),
        Step::Reply(Response {
            code: 400,
            body: Body::Message {
                status: Status::Fail,
                message: "Missing field: address".to_string(),
            },
        })
    );
}
