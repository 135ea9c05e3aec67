use games_api::controllers::game::{
    create_game, create_game_request, delete_game, delete_game_request, delete_step, fetch_step,
    get_game_by_id, get_game_by_id_request, get_games, get_games_request, reject, update_fetch_step,
    update_game, update_game_at, update_game_request, update_game_written, Step, UpdateFetch,
};
use games_api::error::ValidationError;
use games_api::models::dtos::{CreateGameFields, FilterOptions, ParamOptions, UpdateGameSchema};
use games_api::models::game::GameModel;
use games_api::response::{Body, GameData, Response, Status};
use games_api::store::failure::StoreFailure;
use games_api::store::statement::{
    DeleteStatement, InsertStatement, ListStatement, SelectStatement, UpdateStatement,
};

const PITCH_A_ID: u128 = 0x936da01f_9abd_4d9d_80c7_02af85c822a8;

fn pitch_a() -> GameModel {
    GameModel {
        id: PITCH_A_ID,
        field_name: "Pitch A".to_string(),
        address: "123 Main St".to_string(),
        day: "Monday".to_string(),
        created_at: 1_700_000_000_000_000,
        updated_at: 1_700_000_000_000_000,
    }
}

fn pitch_b() -> GameModel {
    GameModel {
        id: 0xa1a2a3a4_b1b2_c1c2_d1d2_d3d4d5d6d7d8,
        field_name: "Pitch B".to_string(),
        address: "9 Side Rd".to_string(),
        day: "Friday".to_string(),
        created_at: 1_700_000_100_000_000,
        updated_at: 1_700_000_200_000_000,
    }
}

fn no_rows() -> StoreFailure {
    StoreFailure { row_not_found: true, constraint: None, detail: "RowNotFound".to_string() }
}

fn duplicate_address() -> StoreFailure {
    StoreFailure {
        row_not_found: false,
        constraint: Some("games_address_key".to_string()),
        detail: "Database(PgDatabaseError { code: \"23505\" })".to_string(),
    }
}

fn duplicate_key() -> StoreFailure {
    StoreFailure {
        row_not_found: false,
        constraint: Some("games_pkey".to_string()),
        detail: "duplicate key value violates unique constraint \"games_pkey\"".to_string(),
    }
}

fn pool_timed_out() -> StoreFailure {
    StoreFailure { row_not_found: false, constraint: None, detail: "PoolTimedOut".to_string() }
}

fn message(code: u16, status: Status, text: &str) -> Response {
    Response { code, body: Body::Message { status, message: text.to_string() } }
}

fn with_game(code: u16, game: GameModel) -> Response {
    Response { code, body: Body::Game { status: Status::Success, data: GameData { game } } }
}

#[test]
fn list_success_is_200_with_games_and_count() {
    let response = get_games(Ok(vec![pitch_a(), pitch_b()]));
    assert_eq!(
        response,
        Response {
            code: 200,
            body: Body::Games {
                status: Status::Success,
                count: 2,
                games: vec![pitch_a(), pitch_b()],
            },
        }
    );
}

#[test]
fn list_of_nothing_is_200_with_count_zero() {
    let response = get_games(Ok(Vec::new()));
    assert_eq!(
        response,
        Response {
            code: 200,
            body: Body::Games { status: Status::Success, count: 0, games: Vec::new() },
        }
    );
}

#[test]
fn list_failure_is_500_with_the_generic_message() {
    for failure in [no_rows(), duplicate_address(), pool_timed_out()] {
        assert_eq!(
            get_games(Err(failure)),
            message(500, Status::Fail, "Something wrong happened.")
        );
    }
}

#[test]
fn create_success_is_201_with_the_game() {
    assert_eq!(create_game(Ok(pitch_a())), with_game(201, pitch_a()));
}

#[test]
fn create_with_a_taken_address_is_409() {
    assert_eq!(
        create_game(Err(duplicate_address())),
        message(409, Status::Fail, "Game with that address already exists")
    );
}

#[test]
fn create_that_violates_another_constraint_is_500() {
    assert_eq!(
        create_game(Err(duplicate_key())),
        message(
            500,
            Status::Error,
            "duplicate key value violates unique constraint \"games_pkey\""
        )
    );
}

#[test]
fn update_that_violates_another_constraint_is_500() {
    assert_eq!(
        update_game_written(PITCH_A_ID, Err(duplicate_key())),
        message(
            500,
            Status::Error,
            "duplicate key value violates unique constraint \"games_pkey\""
        )
    );
}

#[test]
fn create_failure_is_500_with_the_detail() {
    assert_eq!(create_game(Err(pool_timed_out())), message(500, Status::Error, "PoolTimedOut"));
    assert_eq!(create_game(Err(no_rows())), message(500, Status::Error, "RowNotFound"));
}

#[test]
fn fetch_success_is_200_with_the_game() {
    assert_eq!(get_game_by_id(PITCH_A_ID, Ok(pitch_a())), with_game(200, pitch_a()));
}

#[test]
fn fetch_of_missing_row_names_the_id() {
    assert_eq!(
        get_game_by_id(PITCH_A_ID, Err(no_rows())),
        message(
            404,
            Status::Fail,
            "Game with ID: 936da01f-9abd-4d9d-80c7-02af85c822a8 not found"
        )
    );
}

#[test]
fn fetch_failure_is_500_with_the_detail() {
    assert_eq!(
        get_game_by_id(PITCH_A_ID, Err(pool_timed_out())),
        message(500, Status::Error, "PoolTimedOut")
    );
}

#[test]
fn id_in_a_message_is_hyphenated_lower_case_hex() {
    for id in [
        0u128,
        1,
        0xf,
        u128::MAX,
        0x0123_4567_89ab_cdef_0123_4567_89ab_cdef,
        0xA1A2A3A4_B1B2_C1C2_D1D2_D3D4D5D6D7D8,
        1 << 127,
    ] {
        let hex = format!("{:032x}", id);
        let expected = format!(
            "Game with ID: {}-{}-{}-{}-{} not found",
            &hex[0..8],
            &hex[8..12],
            &hex[12..16],
            &hex[16..20],
            &hex[20..32]
        );
        assert_eq!(get_game_by_id(id, Err(no_rows())), message(404, Status::Fail, &expected));
    }
}

#[test]
fn id_in_a_message_is_what_the_uuid_crate_displays() {
    let id = 0x67e55044_10b1_426f_9247_bb680e5fe0c8u128;
    let expected = format!("Note with ID: {} not found", uuid::Uuid::from_u128(id));
    assert_eq!(expected, "Note with ID: 67e55044-10b1-426f-9247-bb680e5fe0c8 not found");
    assert_eq!(delete_game(id, Ok(0)), message(404, Status::Fail, &expected));
}

#[test]
fn update_of_a_fetched_game_writes_the_merge() {
    let body = UpdateGameSchema { field_name: None, address: None, day: Some("Tuesday".to_string()) };
    let step = update_game_at(PITCH_A_ID, &body, Ok(pitch_a()), 1_700_000_000_999_999);
    assert_eq!(
        step,
        Step::Run(UpdateStatement {
            field_name: "Pitch A".to_string(),
            address: "123 Main St".to_string(),
            day: "Tuesday".to_string(),
            updated_at: 1_700_000_000_999_999,
            id: PITCH_A_ID,
        })
    );
}

#[test]
fn update_of_a_missing_game_stops_with_404() {
    let body = UpdateGameSchema { field_name: None, address: None, day: Some("Tuesday".to_string()) };
    let expected = message(
        404,
        Status::Fail,
        "Note with ID: 936da01f-9abd-4d9d-80c7-02af85c822a8 not found",
    );
    assert_eq!(update_game_at(PITCH_A_ID, &body, Err(no_rows()), 5), Step::Reply(expected));
    let expected = message(
        404,
        Status::Fail,
        "Note with ID: 936da01f-9abd-4d9d-80c7-02af85c822a8 not found",
    );
    assert_eq!(update_game(PITCH_A_ID, &body, Err(no_rows())), Step::Reply(expected));
}

#[test]
fn update_whose_fetch_failed_stops_with_500() {
    let body = UpdateGameSchema { field_name: None, address: None, day: None };
    assert_eq!(
        update_game_at(PITCH_A_ID, &body, Err(pool_timed_out()), 5),
        Step::Reply(message(500, Status::Error, "PoolTimedOut"))
    );
    assert_eq!(
        update_game(PITCH_A_ID, &body, Err(pool_timed_out())),
        Step::Reply(message(500, Status::Error, "PoolTimedOut"))
    );
}

#[test]
fn update_now_writes_the_merge_at_the_current_time() {
    let body = UpdateGameSchema {
        field_name: Some("Pitch C".to_string()),
        address: None,
        day: None,
    };
    let before = chrono::Utc::now().timestamp_micros();
    let step = update_game(PITCH_A_ID, &body, Ok(pitch_a()));
    let after = chrono::Utc::now().timestamp_micros();
    let statement = match step {
        Step::Run(statement) => statement,
        Step::Reply(response) => panic!("unexpected reply {:?}", response),
    };
    assert_eq!(statement.field_name, "Pitch C");
    assert_eq!(statement.address, "123 Main St");
    assert_eq!(statement.day, "Monday");
    assert_eq!(statement.id, PITCH_A_ID);
    assert!(before <= statement.updated_at && statement.updated_at <= after);
    assert!(statement.updated_at > pitch_a().updated_at);
}

#[test]
fn update_written_is_200_with_the_game() {
    assert_eq!(update_game_written(PITCH_A_ID, Ok(pitch_b())), with_game(200, pitch_b()));
}

#[test]
fn update_written_failures_map_to_404_409_500() {
    assert_eq!(
        update_game_written(PITCH_A_ID, Err(no_rows())),
        message(
            404,
            Status::Fail,
            "Note with ID: 936da01f-9abd-4d9d-80c7-02af85c822a8 not found"
        )
    );
    assert_eq!(
        update_game_written(PITCH_A_ID, Err(duplicate_address())),
        message(409, Status::Fail, "Game with that address already exists")
    );
    assert_eq!(
        update_game_written(PITCH_A_ID, Err(pool_timed_out())),
        message(500, Status::Error, "PoolTimedOut")
    );
}

#[test]
fn delete_of_a_row_is_204_without_body() {
    assert_eq!(delete_game(PITCH_A_ID, Ok(1)), Response { code: 204, body: Body::Empty });
    assert_eq!(delete_game(PITCH_A_ID, Ok(3)), Response { code: 204, body: Body::Empty });
}

#[test]
fn delete_of_nothing_is_404() {
    assert_eq!(
        delete_game(1, Ok(0)),
        message(
            404,
            Status::Fail,
            "Note with ID: 00000000-0000-0000-0000-000000000001 not found"
        )
    );
}

#[test]
fn delete_failure_is_500_with_the_detail() {
    assert_eq!(
        delete_game(PITCH_A_ID, Err(pool_timed_out())),
        message(500, Status::Error, "PoolTimedOut")
    );
}

#[test]
fn rejection_is_400_with_the_reason() {
    let cases = [
        (ValidationError::MalformedId, "Invalid game ID"),
        (ValidationError::MissingFieldName, "Missing field: field_name"),
        (ValidationError::MissingAddress, "Missing field: address"),
        (ValidationError::MissingDay, "Missing field: day"),
        (ValidationError::MalformedBody, "Invalid request body"),
        (ValidationError::PageOutOfRange, "Page out of range"),
    ];
    for (reason, text) in cases {
        assert_eq!(reject(reason), message(400, Status::Fail, text));
    }
}

#[test]
fn status_words_are_success_fail_error() {
    assert_eq!(Status::Success.as_str(), "success");
    assert_eq!(Status::Fail.as_str(), "fail");
    assert_eq!(Status::Error.as_str(), "error");
}

#[test]
fn response_builders_fill_code_and_body() {
    assert_eq!(
        Response::with_message(418, Status::Error, "teapot".to_string()),
        message(418, Status::Error, "teapot")
    );
    assert_eq!(Response::with_game(200, pitch_a()), with_game(200, pitch_a()));
    assert_eq!(Response::without_body(204), Response { code: 204, body: Body::Empty });
    assert_eq!(
        Response::with_games(vec![pitch_a()]),
        Response {
            code: 200,
            body: Body::Games { status: Status::Success, count: 1, games: vec![pitch_a()] },
        }
    );
}

fn param(text: &str) -> ParamOptions {
    ParamOptions { id: text.to_string() }
}

fn bad_request(text: &str) -> Response {
    message(400, Status::Fail, text)
}

#[test]
fn list_request_becomes_the_statement_of_its_page() {
    assert_eq!(get_games_request(None), Step::Run(ListStatement { limit: 10, offset: 0 }));
    assert_eq!(
        get_games_request(Some(FilterOptions { page: Some(2), limit: Some(10) })),
        Step::Run(ListStatement { limit: 10, offset: 10 })
    );
    assert_eq!(
        get_games_request(Some(FilterOptions { page: Some(0), limit: Some(3) })),
        Step::Run(ListStatement { limit: 3, offset: 0 })
    );
}

#[test]
fn list_request_out_of_range_is_turned_away() {
    assert_eq!(
        get_games_request(Some(FilterOptions { page: Some(usize::MAX), limit: Some(usize::MAX) })),
        Step::Reply(bad_request("Page out of range"))
    );
}

#[test]
fn create_request_becomes_the_insert_of_its_fields() {
    let fields = CreateGameFields {
        field_name: Some("Pitch A".to_string()),
        address: Some("123 Main St".to_string()),
        day: Some("Monday".to_string()),
    };
    assert_eq!(
        create_game_request(Some(fields)),
        Step::Run(InsertStatement {
            field_name: "Pitch A".to_string(),
            address: "123 Main St".to_string(),
            day: "Monday".to_string(),
        })
    );
}

#[test]
fn create_request_without_a_field_is_turned_away() {
    let text = |s: &str| Some(s.to_string());
    let cases = [
        (None, text("a"), text("d"), "Missing field: field_name"),
        (text("f"), None, text("d"), "Missing field: address"),
        (text("f"), text("a"), None, "Missing field: day"),
        (None, None, None, "Missing field: field_name"),
    ];
    for (field_name, address, day, reason) in cases {
        assert_eq!(
            create_game_request(Some(CreateGameFields { field_name, address, day })),
            Step::Reply(bad_request(reason))
        );
    }
}

#[test]
fn create_request_with_an_unreadable_body_is_turned_away() {
    assert_eq!(create_game_request(None), Step::Reply(bad_request("Invalid request body")));
}

#[test]
fn fetch_request_becomes_the_select_of_its_id() {
    assert_eq!(
        get_game_by_id_request(&param("936da01f-9abd-4d9d-80c7-02af85c822a8")),
        Step::Run(SelectStatement { id: PITCH_A_ID })
    );
    assert_eq!(fetch_step(Ok(7)), Step::Run(SelectStatement { id: 7 }));
}

#[test]
fn delete_request_becomes_the_delete_of_its_id() {
    assert_eq!(
        delete_game_request(&param("936DA01F-9ABD-4D9D-80C7-02AF85C822A8")),
        Step::Run(DeleteStatement { id: PITCH_A_ID })
    );
    assert_eq!(delete_step(Ok(7)), Step::Run(DeleteStatement { id: 7 }));
}

#[test]
fn update_request_becomes_the_fetch_with_its_body() {
    let body = || UpdateGameSchema { field_name: None, address: None, day: Some("Tuesday".to_string()) };
    assert_eq!(
        update_game_request(&param("936da01f-9abd-4d9d-80c7-02af85c822a8"), Some(body())),
        Step::Run(UpdateFetch { statement: SelectStatement { id: PITCH_A_ID }, body: body() })
    );
    assert_eq!(
        update_fetch_step(Ok(7), Some(body())),
        Step::Run(UpdateFetch { statement: SelectStatement { id: 7 }, body: body() })
    );
}

#[test]
fn malformed_id_never_becomes_a_statement() {
    for text in ["", "42", "not-a-uuid", "936da01f-9abd-4d9d-80c7-02af85c822a", "' OR 1=1 --"] {
        assert_eq!(get_game_by_id_request(&param(text)), Step::Reply(bad_request("Invalid game ID")));
        assert_eq!(delete_game_request(&param(text)), Step::Reply(bad_request("Invalid game ID")));
        let body = UpdateGameSchema { field_name: None, address: None, day: None };
        assert_eq!(
            update_game_request(&param(text), Some(body)),
            Step::Reply(bad_request("Invalid game ID"))
        );
        assert_eq!(
            update_game_request(&param(text), None),
            Step::Reply(bad_request("Invalid game ID"))
        );
    }
    assert_eq!(
        fetch_step(Err(ValidationError::MalformedId)),
        Step::Reply(bad_request("Invalid game ID"))
    );
    assert_eq!(
        delete_step(Err(ValidationError::MalformedId)),
        Step::Reply(bad_request("Invalid game ID"))
    );
}

#[test]
fn update_request_with_an_unreadable_body_is_turned_away() {
    assert_eq!(
        update_game_request(&param("936da01f-9abd-4d9d-80c7-02af85c822a8"), None),
        Step::Reply(bad_request("Invalid request body"))
    );
    assert_eq!(update_fetch_step(Ok(7), None), Step::Reply(bad_request("Invalid request body")));
}
