//! What a handler sends back: a status code and a body.

use crate::models::game::{games_view, GameModel, GameView};
use vstd::prelude::*;

verus! {

pub const OK: u16 = 200;

pub const CREATED: u16 = 201;

pub const NO_CONTENT: u16 = 204;

pub const BAD_REQUEST: u16 = 400;

pub const NOT_FOUND: u16 = 404;

pub const CONFLICT: u16 = 409;

pub const INTERNAL_SERVER_ERROR: u16 = 500;

/// The `status` field that every body with content carries.
#[derive(Clone, Copy, Debug, PartialEq, Eq, Structural)]
pub enum Status {
    Success,
    Fail,
    Error,
}

impl Status {
    /// The word that stands for the status in a body.
    pub open spec fn text(self) -> Seq<char> {
        match self {
            Status::Success => "success"@,
            Status::Fail => "fail"@,
            Status::Error => "error"@,
        }
    }

    pub fn as_str(&self) -> (word: &'static str)
        ensures
            word@ == self.text(),
    {
        match self {
            Status::Success => "success",
            Status::Fail => "fail",
            Status::Error => "error",
        }
    }
}

/// The `data` member of a body that carries one game.
#[derive(Debug, PartialEq, Eq)]
pub struct GameData {
    pub game: GameModel,
}

/// The body of a response. Each variant with content is one JSON object whose
/// members are the variant's fields, under their names.
#[derive(Debug, PartialEq, Eq)]
pub enum Body {
    /// `{status, count, games}`
    Games { status: Status, count: usize, games: Vec<GameModel> },
    /// `{status, data: {game}}`
    Game { status: Status, data: GameData },
    /// `{status, message}`
    Message { status: Status, message: String },
    /// No body at all.
    Empty,
}

/// A body as a mathematical value.
pub enum BodyView {
    Games { status: Status, count: nat, games: Seq<GameView> },
    Game { status: Status, game: GameView },
    Message { status: Status, message: Seq<char> },
    Empty,
}

impl View for Body {
    type V = BodyView;

    open spec fn view(&self) -> BodyView {
        match *self {
            Body::Games { status, count, games } => BodyView::Games {
                status,
                count: count as nat,
                games: games_view(games@),
            },
            Body::Game { status, data } => BodyView::Game { status, game: data.game@ },
            Body::Message { status, message } => BodyView::Message { status, message: message@ },
            Body::Empty => BodyView::Empty,
        }
    }
}

/// Status code and body of one response.
#[derive(Debug, PartialEq, Eq)]
pub struct Response {
    pub code: u16,
    pub body: Body,
}

/// A response as a mathematical value.
pub struct ResponseView {
    pub code: u16,
    pub body: BodyView,
}

impl View for Response {
    type V = ResponseView;

    open spec fn view(&self) -> ResponseView {
        ResponseView { code: self.code, body: self.body@ }
    }
}

/// The response that carries a message.
pub open spec fn message_response(code: u16, status: Status, message: Seq<char>) -> ResponseView {
    ResponseView { code, body: BodyView::Message { status, message } }
}

/// The response that carries one game.
pub open spec fn game_response(code: u16, game: GameView) -> ResponseView {
    ResponseView { code, body: BodyView::Game { status: Status::Success, game } }
}

/// The response that carries a list of games and their number.
pub open spec fn games_response(games: Seq<GameView>) -> ResponseView {
    ResponseView {
        code: OK,
        body: BodyView::Games { status: Status::Success, count: games.len(), games },
    }
}

/// The response without a body.
pub open spec fn empty_response(code: u16) -> ResponseView {
    ResponseView { code, body: BodyView::Empty }
}

impl Response {
    /// A response with the given code whose body is `{status, message}`.
    pub fn with_message(code: u16, status: Status, message: String) -> (response: Response)
        ensures
            response@ == message_response(code, status, message@),
    {
        Response { code, body: Body::Message { status, message } }
    }

    /// A response with the given code whose body is `{status: "success",
    /// data: {game}}`.
    pub fn with_game(code: u16, game: GameModel) -> (response: Response)
        ensures
            response@ == game_response(code, game@),
    {
        Response {
            code,
            body: Body::Game { status: Status::Success, data: GameData { game } },
        }
    }

    /// The response 200 whose body is `{status: "success", count, games}`,
    /// `count` being the number of games.
    pub fn with_games(games: Vec<GameModel>) -> (response: Response)
        ensures
            response@ == games_response(games_view(games@)),
    {
        let count = games.len();
        Response { code: OK, body: Body::Games { status: Status::Success, count, games } }
    }

    /// A response with the given code and no body.
    pub fn without_body(code: u16) -> (response: Response)
        ensures
            response@ == empty_response(code),
    {
        Response { code, body: Body::Empty }
    }
}

} // verus!
