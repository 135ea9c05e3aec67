//! The persisted entity.

use vstd::prelude::*;

verus! {

/// One row of the `games` table.
///
/// `id` is the 128-bit value of the row's UUID. The two timestamps count
/// microseconds since 1970-01-01 00:00:00 UTC, the resolution the store keeps.
#[derive(Debug, PartialEq, Eq)]
pub struct GameModel {
    pub id: u128,
    pub field_name: String,
    pub address: String,
    pub day: String,
    pub created_at: i64,
    pub updated_at: i64,
}

/// A game as a mathematical value.
pub struct GameView {
    pub id: u128,
    pub field_name: Seq<char>,
    pub address: Seq<char>,
    pub day: Seq<char>,
    pub created_at: i64,
    pub updated_at: i64,
}

impl View for GameModel {
    type V = GameView;

    open spec fn view(&self) -> GameView {
        GameView {
            id: self.id,
            field_name: self.field_name@,
            address: self.address@,
            day: self.day@,
            created_at: self.created_at,
            updated_at: self.updated_at,
        }
    }
}

impl Clone for GameModel {
    fn clone(&self) -> (copy: Self)
        ensures
            copy == *self,
    {
        GameModel {
            id: self.id,
            field_name: self.field_name.clone(),
            address: self.address.clone(),
            day: self.day.clone(),
            created_at: self.created_at,
            updated_at: self.updated_at,
        }
    }
}

/// The games of a sequence of rows, in the same order.
pub open spec fn games_view(rows: Seq<GameModel>) -> Seq<GameView> {
    Seq::new(rows.len(), |i: int| rows[i]@)
}

} // verus!
