//! The route handlers: thin adapters from a resolved route and parsed
//! payload to a store operation and an HTTP response, plus the health
//! check and the fixed configuration the process is bootstrapped with.

use vstd::prelude::*;

use crate::error::{ApiError, spec_status_of};
use crate::game::{Game, GamePayload, payload_valid};
use crate::routing::Route;
use crate::store::{GameStore, has_id, spec_create, spec_delete, spec_get, spec_update};

verus! {

/// The application state the handlers act on: the game store.
pub struct AppState {
    pub store: GameStore,
}

/// A response body: a list of games, one game, a status note (used for
/// the health check and for errors), or nothing.
pub enum Body {
    Many(Vec<Game>),
    One(Game),
    Note { status: String, message: String },
    Empty,
}

/// An HTTP response: a status code and a body.
pub struct Response {
    pub status: u16,
    pub body: Body,
}

/// The response for a failed operation: the error's status code and a
/// generic `{status: "error", message: ...}` note that leaks no
/// internal detail.
pub fn error_response(e: &ApiError) -> (r: Response)
    ensures
        r.status == spec_status_of(*e),
        r.body matches Body::Note { status, message } && status@ == "error"@,
        *e is NotFound ==> (r.body matches Body::Note { status, message } && message@
            == "not found"@),
        *e is Validation ==> (r.body matches Body::Note { status, message } && message@
            == "invalid request payload"@),
        *e is Storage ==> (r.body matches Body::Note { status, message } && message@
            == "internal server error"@),
{
    Response {
        status: e.status_code(),
        body: Body::Note { status: "error".to_owned(), message: e.message().to_owned() },
    }
}

/// The health check: always 200 with status "success", whatever the
/// state of the store or the database — it consults neither.
pub fn health_checker_handler() -> (r: Response)
    ensures
        r.status == 200,
        r.body matches Body::Note { status, message } && status@ == "success"@ && message@
            == "build simple crud"@,
{
    Response {
        status: 200,
        body: Body::Note {
            status: "success".to_owned(),
            message: "build simple crud".to_owned(),
        },
    }
}

/// Lists all games: always 200, the whole store in ascending id order.
pub fn get_games(state: &AppState) -> (r: Response)
    ensures
        r.status == 200,
        r.body matches Body::Many(l) && l@.len() == state.store@.games.len() && (forall|i: int|
            0 <= i < l@.len() ==> #[trigger] l@[i]@ == state.store@.games[i]),
{
    Response { status: 200, body: Body::Many(state.store.list()) }
}

/// Gets one game by id: 200 with the game, or 404 when the id is
/// absent.
pub fn get_game_by_id(state: &AppState, id: u64) -> (r: Response)
    requires
        state.store@.wf(),
    ensures
        has_id(state.store@.games, id) ==> r.status == 200 && (r.body matches Body::One(g) && Some(
            g@,
        ) == spec_get(state.store@, id)),
        !has_id(state.store@.games, id) ==> r.status == 404 && r.body is Note,
{
    match state.store.get_by_id(id) {
        Ok(g) => Response { status: 200, body: Body::One(g) },
        Err(e) => error_response(&e),
    }
}

/// Creates a game: 201 with the stored entity on a valid payload, 400
/// with the store untouched on an invalid one.
pub fn create_game(state: &mut AppState, p: &GamePayload) -> (r: Response)
    requires
        old(state).store@.wf(),
        old(state).store@.next_id < u64::MAX,
    ensures
        final(state).store@.wf(),
        payload_valid(p@) ==> r.status == 201 && (r.body matches Body::One(g) && g@ == spec_create(
            old(state).store@,
            p@.title->0,
        ).1) && final(state).store@ == spec_create(old(state).store@, p@.title->0).0,
        !payload_valid(p@) ==> r.status == 400 && r.body is Note && final(state).store@ == old(state).store@,
{
    match state.store.create(p) {
        Ok(g) => Response { status: 201, body: Body::One(g) },
        Err(e) => error_response(&e),
    }
}

/// Updates a game's title by id: 200 with the updated entity; 400 on
/// an invalid payload; 404 when the id is absent. On failure the store
/// is untouched.
pub fn updated_game(state: &mut AppState, id: u64, p: &GamePayload) -> (r: Response)
    requires
        old(state).store@.wf(),
    ensures
        final(state).store@.wf(),
        !payload_valid(p@) ==> r.status == 400 && r.body is Note && final(state).store@ == old(state).store@,
        payload_valid(p@) && !has_id(old(state).store@.games, id) ==> r.status == 404
            && r.body is Note && final(state).store@ == old(state).store@,
        payload_valid(p@) && has_id(old(state).store@.games, id) ==> r.status == 200 && (
        r.body matches Body::One(g) && g@.id == id && g@.title == p@.title->0) && final(state).store@ == spec_update(old(state).store@, id, p@.title->0),
{
    match state.store.update(id, p) {
        Ok(g) => Response { status: 200, body: Body::One(g) },
        Err(e) => error_response(&e),
    }
}

/// Deletes a game by id: 204 with no body, or 404 when the id is
/// absent (and then the store is untouched).
pub fn delete_game(state: &mut AppState, id: u64) -> (r: Response)
    requires
        old(state).store@.wf(),
    ensures
        final(state).store@.wf(),
        has_id(old(state).store@.games, id) ==> r.status == 204 && r.body is Empty && final(state).store@ == spec_delete(old(state).store@, id),
        !has_id(old(state).store@.games, id) ==> r.status == 404 && r.body is Note && final(state).store@ == old(state).store@,
{
    match state.store.delete(id) {
        Ok(()) => Response { status: 204, body: Body::Empty },
        Err(e) => error_response(&e),
    }
}

/// Dispatches a resolved route to its handler. A create or update
/// without a payload is a validation failure, answered 400 before the
/// store is consulted.
pub fn handle(state: &mut AppState, route: &Route, payload: Option<&GamePayload>) -> (r: Response)
    requires
        old(state).store@.wf(),
        *route is CreateGame ==> old(state).store@.next_id < u64::MAX,
    ensures
        final(state).store@.wf(),
        *route is Health ==> r.status == 200 && final(state).store@ == old(state).store@ && (
        r.body matches Body::Note { status, message } && status@ == "success"@),
        *route is ListGames ==> r.status == 200 && final(state).store@ == old(state).store@ && (
        r.body matches Body::Many(l) && l@.len() == old(state).store@.games.len() && (forall|i: int|
            0 <= i < l@.len() ==> #[trigger] l@[i]@ == old(state).store@.games[i])),
        *route matches Route::GetGame(id) ==> final(state).store@ == old(state).store@ && (if has_id(
            old(state).store@.games,
            id,
        ) {
            r.status == 200 && (r.body matches Body::One(g) && Some(g@) == spec_get(
                old(state).store@,
                id,
            ))
        } else {
            r.status == 404 && r.body is Note
        }),
        *route is CreateGame ==> (if payload matches Some(p) && payload_valid(p@) {
            r.status == 201 && final(state).store@ == spec_create(
                old(state).store@,
                payload->0@.title->0,
            ).0 && (r.body matches Body::One(g) && g@ == spec_create(
                old(state).store@,
                payload->0@.title->0,
            ).1)
        } else {
            r.status == 400 && final(state).store@ == old(state).store@ && r.body is Note
        }),
        *route matches Route::UpdateGame(id) ==> (if !(payload matches Some(p) && payload_valid(
            p@,
        )) {
            r.status == 400 && final(state).store@ == old(state).store@ && r.body is Note
        } else if has_id(old(state).store@.games, id) {
            r.status == 200 && final(state).store@ == spec_update(
                old(state).store@,
                id,
                payload->0@.title->0,
            ) && (r.body matches Body::One(g) && g@.id == id && g@.title == payload->0@.title->0)
        } else {
            r.status == 404 && final(state).store@ == old(state).store@ && r.body is Note
        }),
        *route matches Route::DeleteGame(id) ==> (if has_id(old(state).store@.games, id) {
            r.status == 204 && final(state).store@ == spec_delete(old(state).store@, id)
                && r.body is Empty
        } else {
            r.status == 404 && final(state).store@ == old(state).store@ && r.body is Note
        }),
{
    match route {
        Route::Health => health_checker_handler(),
        Route::ListGames => get_games(state),
        Route::GetGame(id) => get_game_by_id(state, *id),
        Route::CreateGame => match payload {
            Some(p) => create_game(state, p),
            None => error_response(&ApiError::Validation),
        },
        Route::UpdateGame(id) => match payload {
            Some(p) => updated_game(state, *id, p),
            None => error_response(&ApiError::Validation),
        },
        Route::DeleteGame(id) => delete_game(state, *id),
    }
}

/// Interprets the outcome of an UPDATE or DELETE statement keyed by id
/// against a live database: zero rows affected means the id was absent
/// (`NotFound`), anything else is success. This keeps "no matching
/// row" distinct from an I/O failure, which the caller maps to
/// `Storage` instead.
pub fn outcome_of_rows_affected(rows: u64) -> (r: Result<(), ApiError>)
    ensures
        r is Ok <==> rows > 0,
        r is Err ==> r->Err_0 == ApiError::NotFound,
{
    if rows > 0 {
        Ok(())
    } else {
        Err(ApiError::NotFound)
    }
}

/// The fixed values the process is bootstrapped with: the listen
/// address, the pool bound, and the CORS policy: the single admitted
/// origin and the four admitted request headers.
pub struct ServiceConfig {
    pub host: &'static str,
    pub port: u16,
    pub max_connections: u32,
    pub allowed_origin: &'static str,
    pub allowed_headers: [&'static str; 4],
}

impl ServiceConfig {
    /// The service listens on 127.0.0.1:8080, holds at most 10 pooled
    /// database connections, and admits cross-origin requests from one
    /// origin only, carrying only the four listed headers.
    pub open spec fn wf(self) -> bool {
        &&& self.host@ == "127.0.0.1"@
        &&& self.port == 8080
        &&& self.max_connections == 10
        &&& self.allowed_origin@ == "http://localhost:3000"@
        &&& self.allowed_headers@.len() == 4
        &&& self.allowed_headers@[0]@ == "content-type"@
        &&& self.allowed_headers@[1]@ == "authorization"@
        &&& self.allowed_headers@[2]@ == "content-encoding"@
        &&& self.allowed_headers@[3]@ == "accept"@
    }

    /// Whether the CORS policy admits the given request origin.
    pub fn origin_allowed(&self, origin: &str) -> (r: bool)
        ensures
            r == (origin@ == self.allowed_origin@),
    {
        crate::routing::str_eq(origin, self.allowed_origin)
    }

    /// Whether the CORS policy admits the given request header name.
    pub fn header_allowed(&self, name: &str) -> (r: bool)
        ensures
            r == (exists|i: int|
                0 <= i < self.allowed_headers@.len() && name@ == #[trigger] self.allowed_headers@[i]@),
    {
        let mut i: usize = 0;
        while i < 4
            invariant
                self.allowed_headers@.len() == 4,
                i <= 4,
                forall|j: int| 0 <= j < i ==> name@ != #[trigger] self.allowed_headers@[j]@,
            decreases 4 - i,
        {
            if crate::routing::str_eq(name, self.allowed_headers[i]) {
                return true;
            }
            i = i + 1;
        }
        false
    }
}

/// Builds the service configuration.
pub fn service_config() -> (c: ServiceConfig)
    ensures
        c.wf(),
{
    ServiceConfig {
        host: "127.0.0.1",
        port: 8080,
        max_connections: 10,
        allowed_origin: "http://localhost:3000",
        allowed_headers: ["content-type", "authorization", "content-encoding", "accept"],
    }
}

} // verus!
