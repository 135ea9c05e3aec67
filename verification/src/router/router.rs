//! Which method on which path reaches which handler.

use vstd::prelude::*;

verus! {

/// Path of the collection of games.
pub const GAMES_PATH: &'static str = "/games";

/// Path of one game; `:id` stands for the game's identifier.
pub const GAME_PATH: &'static str = "/games/:id";

/// The request methods that the service answers.
#[derive(Clone, Copy, Debug, PartialEq, Eq, Structural)]
pub enum Method {
    Get,
    Post,
    Put,
    Delete,
}

/// The five endpoints, each with a handler of its own.
#[derive(Clone, Copy, Debug, PartialEq, Eq, Structural)]
pub enum Endpoint {
    ListGames,
    CreateGame,
    GetGame,
    UpdateGame,
    DeleteGame,
}

/// One binding of the route table.
#[derive(Clone, Copy, Debug)]
pub struct Route {
    pub method: Method,
    pub path: &'static str,
    pub endpoint: Endpoint,
}

/// A binding as a mathematical value.
pub struct RouteView {
    pub method: Method,
    pub path: Seq<char>,
    pub endpoint: Endpoint,
}

impl View for Route {
    type V = RouteView;

    open spec fn view(&self) -> RouteView {
        RouteView { method: self.method, path: self.path@, endpoint: self.endpoint }
    }
}

/// The bindings of the service: list and create on the collection; fetch,
/// update and delete on one game.
pub open spec fn route_table() -> Seq<RouteView> {
    seq![
        RouteView { method: Method::Get, path: GAMES_PATH@, endpoint: Endpoint::ListGames },
        RouteView { method: Method::Post, path: GAMES_PATH@, endpoint: Endpoint::CreateGame },
        RouteView { method: Method::Get, path: GAME_PATH@, endpoint: Endpoint::GetGame },
        RouteView { method: Method::Put, path: GAME_PATH@, endpoint: Endpoint::UpdateGame },
        RouteView { method: Method::Delete, path: GAME_PATH@, endpoint: Endpoint::DeleteGame },
    ]
}

/// The bindings of a sequence of routes, in the same order.
pub open spec fn routes_view(routes: Seq<Route>) -> Seq<RouteView> {
    Seq::new(routes.len(), |i: int| routes[i]@)
}

/// The route table: exactly the five bindings of the service.
pub fn create_router() -> (routes: Vec<Route>)
    ensures
        routes_view(routes@) == route_table(),
{
    let mut routes: Vec<Route> = Vec::new();
    routes.push(Route { method: Method::Get, path: GAMES_PATH, endpoint: Endpoint::ListGames });
    routes.push(Route { method: Method::Post, path: GAMES_PATH, endpoint: Endpoint::CreateGame });
    routes.push(Route { method: Method::Get, path: GAME_PATH, endpoint: Endpoint::GetGame });
    routes.push(Route { method: Method::Put, path: GAME_PATH, endpoint: Endpoint::UpdateGame });
    routes.push(Route { method: Method::Delete, path: GAME_PATH, endpoint: Endpoint::DeleteGame });
    routes
}

} // verus!
