//! A small library for a CRUD service over a single `Game` resource:
//! the storage semantics, payload validation, route resolution, the
//! error taxonomy with its HTTP status mapping, and the service
//! configuration constants.

use vstd::prelude::*;

mod error;
mod game;
mod laws;
mod routing;
mod service;
mod store;

pub use error::ApiError;
pub use game::{Game, GamePayload, GameView, PayloadView, payload_valid};
pub use laws::{
    StoreOp, apply_op, apply_ops, count_creates, count_deletes, lemma_count_after_creates_and_deletes,
    lemma_create_fresh, lemma_create_then_get, lemma_creates_assign_distinct_ids,
    lemma_delete_then_absent, lemma_ids_unique, ops_admissible,
};
pub use routing::{
    Method, Route, RouteTable, all_digits, config, digit_val, digits_val, is_digit,
    lemma_digits_val_monotone, lemma_digits_val_nonneg, parse_u64, spec_parse_u64, spec_resolve,
    str_eq,
};
pub use service::{
    AppState, Body, Response, ServiceConfig, create_game, delete_game, error_response,
    get_game_by_id, get_games, handle, health_checker_handler, outcome_of_rows_affected,
    service_config, updated_game,
};
pub use store::{
    GameStore, StoreView, has_id, index_of_id, lemma_unique_index, spec_create, spec_delete,
    spec_get, spec_update,
};

verus! {

} // verus!
