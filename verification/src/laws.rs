//! What holds of the service as a whole: the gateway's statements, run
//! against a well-formed table, and the handlers' answers to what comes back.

use crate::controllers::game::{
    create_game_plan, create_game_reply, delete_game_reply, delete_plan, fetch_plan,
    get_game_by_id_reply, get_games_plan, get_games_reply, missing_message, rejection,
    update_game_plan, update_game_reply, update_game_step, StepView, ADDRESS_TAKEN, GAME_PREFIX,
    NOTE_PREFIX,
};
use crate::error::{status_of, GatewayErrorView, ValidationError};
use crate::models::dtos::{CreateGameFieldsView, CreateGameView, FilterOptions, UpdateGameView};
use crate::models::game::GameView;
use crate::response::{
    empty_response, game_response, games_response, message_response, Status, BAD_REQUEST,
    CONFLICT, CREATED, INTERNAL_SERVER_ERROR, NOT_FOUND, NO_CONTENT, OK,
};
use crate::services::game::{
    classified, insert_values, merged, page_in_range, violates_address, Operation,
};
use crate::store::failure::StoreFailureView;
use crate::store::rows::{
    after_delete, after_insert, after_update, delete_count, has_address, has_id, index_of,
    insert_outcome, lemma_delete_well_formed, lemma_first_gap, lemma_index_of,
    lemma_insert_well_formed, lemma_next_id_is_free, lemma_update_well_formed, list_outcome,
    next_id, select_outcome, update_outcome, well_formed, window,
};
use crate::store::statement::{InsertView, UpdateView};
use vstd::prelude::*;

verus! {

/// A request that fails validation never reaches the store: the first step
/// of its handler answers at once, with 400.
///
/// This holds of a path parameter that was not accepted as an identifier, of
/// a body that could not be read, of a create body that lacks a field, and of
/// a page out of range.
pub proof fn law_invalid_request_is_turned_away(
    reason: ValidationError,
    options: Option<FilterOptions>,
    fields: CreateGameFieldsView,
    id: Result<u128, ValidationError>,
    body: Option<UpdateGameView>,
)
    ensures
        rejection(reason).code == BAD_REQUEST,
        fetch_plan(Err(reason)) is Reply,
        fetch_plan(Err(reason))->Reply_0 == rejection(reason),
        delete_plan(Err(reason)) is Reply,
        delete_plan(Err(reason))->Reply_0 == rejection(reason),
        update_game_plan(Err(reason), body) is Reply,
        update_game_plan(Err(reason), body)->Reply_0 == rejection(reason),
        update_game_plan(id, None) is Reply,
        create_game_plan(None) is Reply,
        create_game_plan(None)->Reply_0 == rejection(ValidationError::MalformedBody),
        fields.field_name is None || fields.address is None || fields.day is None
            ==> create_game_plan(Some(fields)) is Reply,
        get_games_plan(options) is Reply ==> get_games_plan(options)->Reply_0.code == BAD_REQUEST,
        create_game_plan(Some(fields)) is Reply ==> create_game_plan(Some(fields))->Reply_0.code
            == BAD_REQUEST,
        update_game_plan(id, body) is Reply ==> update_game_plan(id, body)->Reply_0.code
            == BAD_REQUEST,
{
}

/// Only the constraint on addresses makes a conflict.
///
/// A write that fails for another reason, the violation of another
/// constraint included, is answered 500 with status `error` and the store's
/// diagnostic text: by the create handler always, by the update handler
/// unless the row is missing.
pub proof fn law_only_address_conflicts(id: u128, failure: StoreFailureView)
    requires
        !violates_address(failure),
    ensures
        create_game_reply(Err(failure)) == message_response(
            INTERNAL_SERVER_ERROR,
            Status::Error,
            failure.detail,
        ),
        !failure.row_not_found ==> update_game_reply(id, Err(failure)) == message_response(
            INTERNAL_SERVER_ERROR,
            Status::Error,
            failure.detail,
        ),
{
}

/// Every failure of the store is answered with the one status code of the
/// condition it is classified as, whichever handler answers.
pub proof fn law_one_status_per_condition(
    id: u128,
    body: UpdateGameView,
    now: i64,
    failure: StoreFailureView,
)
    ensures
        get_games_reply(Err(failure)).code == status_of(classified(Operation::List, failure)),
        create_game_reply(Err(failure)).code == status_of(classified(Operation::Create, failure)),
        get_game_by_id_reply(id, Err(failure)).code == status_of(
            classified(Operation::GetById, failure),
        ),
        update_game_step(id, body, Err(failure), now) is Reply,
        update_game_step(id, body, Err(failure), now)->Reply_0.code == status_of(
            classified(Operation::GetById, failure),
        ),
        update_game_reply(id, Err(failure)).code == status_of(
            classified(Operation::Update, failure),
        ),
        delete_game_reply(id, Err(failure)).code == status_of(
            classified(Operation::Delete, failure),
        ),
{
}

/// A game that was created is fetched back as it was stored.
///
/// Where the address is free and the table is not full, holding fewer rows
/// than there are identifiers, the insert succeeds and the create handler
/// answers 201 with the stored game. That game has the three fields of the
/// request and an identifier that no game had before, and was created and
/// updated at the same time. A fetch by its identifier then returns the same
/// game, and the fetch handler answers 200 with it.
pub proof fn law_round_trip(rows: Seq<GameView>, body: CreateGameView, now: i64)
    requires
        well_formed(rows),
        rows.len() <= u128::MAX,
        !has_address(rows, body.address),
    ensures
        ({
            let created = insert_outcome(rows, insert_values(body), now);
            let table = after_insert(rows, insert_values(body), now);
            let id = created->Ok_0.id;
            &&& created is Ok
            &&& !has_id(rows, id)
            &&& created->Ok_0.field_name == body.field_name
            &&& created->Ok_0.address == body.address
            &&& created->Ok_0.day == body.day
            &&& created->Ok_0.created_at == created->Ok_0.updated_at
            &&& create_game_reply(created) == game_response(CREATED, created->Ok_0)
            &&& select_outcome(table, id) == created
            &&& get_game_by_id_reply(id, select_outcome(table, id)) == game_response(
                OK,
                created->Ok_0,
            )
        }),
{
    lemma_first_gap(rows);
    lemma_next_id_is_free(rows);
    lemma_insert_well_formed(rows, insert_values(body), now);
    let table = after_insert(rows, insert_values(body), now);
    lemma_index_of(table, next_id(rows) as u128, next_id(rows));
}

/// An update that carries only `day` changes `day` and the time of the last
/// update, and nothing else.
///
/// For a stored game and a time `now` later than its last update: the update
/// step writes, the write succeeds, and the handler answers 200 with a game
/// whose `field_name`, `address`, identifier and time of creation are the
/// stored ones, whose `day` is the new one, and whose time of last update is
/// `now`. A fetch then returns that game.
pub proof fn law_partial_update(rows: Seq<GameView>, id: u128, day: Seq<char>, now: i64)
    requires
        well_formed(rows),
        has_id(rows, id),
        now > rows[index_of(rows, id)].updated_at,
    ensures
        ({
            let stored = rows[index_of(rows, id)];
            let body = UpdateGameView { field_name: None, address: None, day: Some(day) };
            let step = update_game_step(id, body, select_outcome(rows, id), now);
            let written = update_outcome(rows, step->Run_0);
            let table = after_update(rows, step->Run_0);
            &&& step is Run
            &&& written is Ok
            &&& written->Ok_0.id == id
            &&& written->Ok_0.field_name == stored.field_name
            &&& written->Ok_0.address == stored.address
            &&& written->Ok_0.day == day
            &&& written->Ok_0.created_at == stored.created_at
            &&& written->Ok_0.updated_at == now
            &&& written->Ok_0.updated_at > stored.updated_at
            &&& update_game_reply(id, written) == game_response(OK, written->Ok_0)
            &&& select_outcome(table, id) == written
        }),
{
    let at = index_of(rows, id);
    let body = UpdateGameView { field_name: None, address: None, day: Some(day) };
    let values = merged(id, body, rows[at], now);
    lemma_update_well_formed(rows, values);
    lemma_index_of(after_update(rows, values), id, at);
}

/// The rows of page `p`, pages counted from 1, at `limit` rows a page: what
/// the list statement for that page returns.
pub open spec fn page(rows: Seq<GameView>, limit: int, p: int) -> Seq<GameView> {
    window(rows, limit, (p - 1) * limit)
}

/// A write that fails changes nothing: the table is as it was before.
pub proof fn law_failed_write_changes_nothing(
    rows: Seq<GameView>,
    inserted: InsertView,
    now: i64,
    updated: UpdateView,
    id: u128,
)
    ensures
        insert_outcome(rows, inserted, now) is Err ==> after_insert(rows, inserted, now) == rows,
        update_outcome(rows, updated) is Err ==> after_update(rows, updated) == rows,
        delete_count(rows, id) == 0 ==> after_delete(rows, id) == rows,
{
}

/// An update never changes the identifier of a game nor the time of its
/// creation, and writes exactly the three fields and the time it is given.
pub proof fn law_update_keeps_identity(rows: Seq<GameView>, updated: UpdateView)
    requires
        well_formed(rows),
        update_outcome(rows, updated) is Ok,
    ensures
        ({
            let stored = rows[index_of(rows, updated.id)];
            let written = update_outcome(rows, updated)->Ok_0;
            &&& written.id == stored.id
            &&& written.id == updated.id
            &&& written.created_at == stored.created_at
            &&& written.field_name == updated.field_name
            &&& written.address == updated.address
            &&& written.day == updated.day
            &&& written.updated_at == updated.updated_at
            &&& after_update(rows, updated).len() == rows.len()
        }),
{
}

/// A write touches one game: every game with another identifier is fetched
/// after an insert, an update or a delete exactly as before it.
pub proof fn law_other_games_untouched(
    rows: Seq<GameView>,
    inserted: InsertView,
    now: i64,
    updated: UpdateView,
    deleted: u128,
    other: u128,
)
    requires
        well_formed(rows),
        other != next_id(rows),
        other != updated.id,
        other != deleted,
    ensures
        select_outcome(after_insert(rows, inserted, now), other) == select_outcome(rows, other),
        select_outcome(after_update(rows, updated), other) == select_outcome(rows, other),
        select_outcome(after_delete(rows, deleted), other) == select_outcome(rows, other),
{
    lemma_insert_elsewhere(rows, inserted, now, other);
    lemma_update_well_formed(rows, updated);
    if update_outcome(rows, updated) is Ok {
        lemma_same_elsewhere(rows, after_update(rows, updated), other, |i: int| i, |j: int| j);
    }
    lemma_delete_well_formed(rows, deleted);
    if has_id(rows, deleted) {
        let at = index_of(rows, deleted);
        lemma_same_elsewhere(
            rows,
            after_delete(rows, deleted),
            other,
            |i: int| if i < at { i } else { i - 1 },
            |j: int| if j < at { j } else { j + 1 },
        );
    }
}

/// After an insert every game but the new one is fetched as before.
proof fn lemma_insert_elsewhere(rows: Seq<GameView>, inserted: InsertView, now: i64, other: u128)
    requires
        well_formed(rows),
        other != next_id(rows),
    ensures
        select_outcome(after_insert(rows, inserted, now), other) == select_outcome(rows, other),
{
    if insert_outcome(rows, inserted, now) is Ok {
        lemma_first_gap(rows);
        lemma_insert_well_formed(rows, inserted, now);
        let k = next_id(rows);
        let after = after_insert(rows, inserted, now);
        let forth = |i: int| if i < k { i } else { i + 1 };
        let back = |j: int| if j < k { j } else { j - 1 };
        assert forall|i: int| 0 <= i < rows.len() implies after[forth(i)] == rows[i] by {}
        assert forall|j: int| 0 <= j < after.len() && j != k implies rows[back(j)] == after[j] by {}
        assert(after[k].id == k);
        lemma_same_elsewhere(rows, after, other, forth, back);
    }
}

/// Two well-formed tables in which the row with identifier `id`, where either
/// has one, is the same row answer a fetch of `id` alike. `forth` maps the
/// positions of the first table to those of the second, `back` the other way.
proof fn lemma_same_elsewhere(
    before: Seq<GameView>,
    after: Seq<GameView>,
    id: u128,
    forth: spec_fn(int) -> int,
    back: spec_fn(int) -> int,
)
    requires
        well_formed(before),
        well_formed(after),
        forall|i: int|
            0 <= i < before.len() && before[i].id == id ==> 0 <= #[trigger] forth(i) < after.len()
                && after[forth(i)] == before[i],
        forall|j: int|
            0 <= j < after.len() && after[j].id == id ==> 0 <= #[trigger] back(j) < before.len()
                && before[back(j)] == after[j],
    ensures
        select_outcome(after, id) == select_outcome(before, id),
{
    if has_id(before, id) {
        lemma_index_of(after, id, forth(index_of(before, id)));
    } else if has_id(after, id) {
        assert(before[back(index_of(after, id))].id == id);
    }
}

/// A list request is answered with the page it asks for.
///
/// Where page and limit are in range, the statement of the request skips the
/// pages before and returns the rows of that page, and the handler answers
/// 200 with them and their number.
pub proof fn law_list_returns_the_page(rows: Seq<GameView>, options: FilterOptions)
    requires
        page_in_range(options),
    ensures
        ({
            let limit = options.page_size();
            let offset = (options.page_number() - 1) * limit;
            let listed = list_outcome(rows, limit as i64, offset as i64);
            &&& listed == Ok::<Seq<GameView>, StoreFailureView>(
                page(rows, limit, options.page_number()),
            )
            &&& get_games_reply(listed) == games_response(
                page(rows, limit, options.page_number()),
            )
        }),
{
    assert((options.page_number() - 1) * options.page_size() >= 0) by (nonlinear_arith)
        requires
            options.page_number() >= 1,
            options.page_size() >= 0,
    ;
}

/// A page is full as long as rows are left for it, holds the rest where
/// fewer than `limit` are left, and is empty past the end.
pub proof fn law_page_length(rows: Seq<GameView>, limit: int, p: int)
    requires
        limit >= 0,
        p >= 1,
    ensures
        page(rows, limit, p).len() == if rows.len() <= (p - 1) * limit {
            0
        } else if p * limit <= rows.len() {
            limit
        } else {
            rows.len() - (p - 1) * limit
        },
{
    assert((p - 1) * limit + limit == p * limit) by (nonlinear_arith);
    assert((p - 1) * limit >= 0) by (nonlinear_arith)
        requires
            p >= 1,
            limit >= 0,
    ;
}

/// The first `n` pages, one after the other.
pub open spec fn pages_through(rows: Seq<GameView>, limit: int, n: nat) -> Seq<GameView>
    decreases n,
{
    if n == 0 {
        Seq::empty()
    } else {
        pages_through(rows, limit, (n - 1) as nat) + page(rows, limit, n as int)
    }
}

/// The pages of a table, read in order, are the table: the first `n` pages
/// are its first `n * limit` rows, and all of them once `n * limit` reaches
/// the number of rows.
pub proof fn law_pages_cover(rows: Seq<GameView>, limit: int, n: nat)
    requires
        limit >= 0,
    ensures
        pages_through(rows, limit, n) == window(rows, n * limit, 0),
        n * limit >= rows.len() ==> pages_through(rows, limit, n) == rows,
    decreases n,
{
    if n > 0 {
        law_pages_cover(rows, limit, (n - 1) as nat);
        assert((n - 1) * limit + limit == n * limit) by (nonlinear_arith);
        assert((n - 1) * limit >= 0) by (nonlinear_arith)
            requires
                n >= 1,
                limit >= 0,
        ;
    }
}

/// No game stands on two pages: every game of an earlier page has a smaller
/// identifier than every game of a later page.
pub proof fn law_pages_disjoint(rows: Seq<GameView>, limit: int, p: int, q: int, i: int, j: int)
    requires
        well_formed(rows),
        limit >= 0,
        1 <= p < q,
        0 <= i < page(rows, limit, p).len(),
        0 <= j < page(rows, limit, q).len(),
    ensures
        page(rows, limit, p)[i].id < page(rows, limit, q)[j].id,
{
    assert((p - 1) * limit + limit <= (q - 1) * limit) by (nonlinear_arith)
        requires
            1 <= p < q,
            limit >= 0,
    ;
    assert((p - 1) * limit >= 0) by (nonlinear_arith)
        requires
            1 <= p,
            limit >= 0,
    ;
}

/// Of two games created with the same address, the first is stored and the
/// second is refused as a conflict.
///
/// The first create, with an address that is free, on a table that is not
/// full, succeeds with 201. The
/// second, with the same address, fails whatever its other fields: the
/// failure is classified as `Conflict`, the handler answers 409, and the
/// table stays as the first create left it.
pub proof fn law_unique_address(
    rows: Seq<GameView>,
    first: CreateGameView,
    first_now: i64,
    second: CreateGameView,
    second_now: i64,
)
    requires
        well_formed(rows),
        rows.len() <= u128::MAX,
        !has_address(rows, first.address),
        second.address == first.address,
    ensures
        ({
            let created = insert_outcome(rows, insert_values(first), first_now);
            let table = after_insert(rows, insert_values(first), first_now);
            let refused = insert_outcome(table, insert_values(second), second_now);
            &&& created is Ok
            &&& create_game_reply(created) == game_response(CREATED, created->Ok_0)
            &&& refused is Err
            &&& classified(Operation::Create, refused->Err_0) == GatewayErrorView::Conflict
            &&& create_game_reply(refused) == message_response(
                CONFLICT,
                Status::Fail,
                ADDRESS_TAKEN@,
            )
            &&& after_insert(table, insert_values(second), second_now) == table
        }),
{
    lemma_first_gap(rows);
    lemma_next_id_is_free(rows);
    let table = after_insert(rows, insert_values(first), first_now);
    assert(table[next_id(rows)].address == second.address);
}

/// An identifier that no game has is reported as not found by the fetch, the
/// update and the delete.
///
/// The fetch fails and its handler answers 404. The update stops after its
/// fetch with 404; its statement, whatever game the request was merged with,
/// would fail if run all the same and be answered with 404 too. The delete
/// removes no row, and its handler answers 404. The table is left as it was.
pub proof fn law_unused_id_not_found(rows: Seq<GameView>, id: u128, body: UpdateGameView, now: i64)
    requires
        !has_id(rows, id),
    ensures
        ({
            let fetched = select_outcome(rows, id);
            let missing_game = message_response(
                NOT_FOUND,
                Status::Fail,
                missing_message(GAME_PREFIX@, id),
            );
            let missing_note = message_response(
                NOT_FOUND,
                Status::Fail,
                missing_message(NOTE_PREFIX@, id),
            );
            &&& fetched is Err
            &&& classified(Operation::GetById, fetched->Err_0) == GatewayErrorView::NotFound
            &&& get_game_by_id_reply(id, fetched) == missing_game
            &&& update_game_step(id, body, fetched, now) == StepView::<UpdateView>::Reply(
                missing_note,
            )
            &&& forall|game: GameView|
                {
                    let written = update_outcome(rows, #[trigger] merged(id, body, game, now));
                    &&& written is Err
                    &&& classified(Operation::Update, written->Err_0) == GatewayErrorView::NotFound
                    &&& update_game_reply(id, written) == missing_note
                    &&& after_update(rows, merged(id, body, game, now)) == rows
                }
            &&& delete_count(rows, id) == 0
            &&& delete_game_reply(id, Ok(delete_count(rows, id))) == missing_note
            &&& after_delete(rows, id) == rows
        }),
{
}

/// A game can be deleted once.
///
/// The delete of a stored game removes one row, and the handler answers 204
/// without a body. After it no game has the identifier: a second delete
/// removes nothing and is answered with 404, and so is a fetch.
pub proof fn law_delete_once(rows: Seq<GameView>, id: u128)
    requires
        well_formed(rows),
        has_id(rows, id),
    ensures
        ({
            let table = after_delete(rows, id);
            &&& delete_count(rows, id) == 1
            &&& delete_game_reply(id, Ok(delete_count(rows, id))) == empty_response(NO_CONTENT)
            &&& table.len() == rows.len() - 1
            &&& !has_id(table, id)
            &&& delete_count(table, id) == 0
            &&& delete_game_reply(id, Ok(delete_count(table, id))) == message_response(
                NOT_FOUND,
                Status::Fail,
                missing_message(NOTE_PREFIX@, id),
            )
            &&& get_game_by_id_reply(id, select_outcome(table, id)) == message_response(
                NOT_FOUND,
                Status::Fail,
                missing_message(GAME_PREFIX@, id),
            )
        }),
{
    lemma_delete_well_formed(rows, id);
}

} // verus!
