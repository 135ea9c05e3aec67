use games_api::router::router::{create_router, Endpoint, Method, GAMES_PATH, GAME_PATH};

#[test]
fn route_table_binds_exactly_the_five_endpoints() {
    let routes = create_router();
    let bindings: Vec<(Method, &str, Endpoint)> =
        routes.iter().map(|route| (route.method, route.path, route.endpoint)).collect();
    assert_eq!(
        bindings,
        vec![
            (Method::Get, "/games", Endpoint::ListGames),
            (Method::Post, "/games", Endpoint::CreateGame),
            (Method::Get, "/games/:id", Endpoint::GetGame),
            (Method::Put, "/games/:id", Endpoint::UpdateGame),
            (Method::Delete, "/games/:id", Endpoint::DeleteGame),
        ]
    );
}

#[test]
fn paths_are_the_collection_and_one_game() {
    assert_eq!(GAMES_PATH, "/games");
    assert_eq!(GAME_PATH, "/games/:id");
}
