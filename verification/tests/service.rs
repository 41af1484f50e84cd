use games_api::{
    config, create_game, delete_game, error_response, get_game_by_id, get_games, handle,
    health_checker_handler, outcome_of_rows_affected, service_config, ApiError, AppState, Body,
    GamePayload, GameStore, Method, Route,
};

fn fresh_state() -> AppState {
    AppState { store: GameStore::new() }
}

fn payload(title: &str) -> GamePayload {
    GamePayload { title: Some(title.to_owned()) }
}

#[test]
fn health_check_reports_success() {
    let r = health_checker_handler();
    assert_eq!(r.status, 200);
    match r.body {
        Body::Note { status, message } => {
            assert_eq!(status, "success");
            assert_eq!(message, "build simple crud");
        }
        _ => panic!("health body is a note"),
    }
}

#[test]
fn error_status_mapping() {
    assert_eq!(ApiError::NotFound.status_code(), 404);
    assert_eq!(ApiError::Validation.status_code(), 400);
    assert_eq!(ApiError::Storage.status_code(), 500);
    let r = error_response(&ApiError::Storage);
    assert_eq!(r.status, 500);
    match r.body {
        Body::Note { status, message } => {
            assert_eq!(status, "error");
            assert_eq!(message, "internal server error");
        }
        _ => panic!("error body is a note"),
    }
}

#[test]
fn post_get_delete_roundtrip() {
    let table = config();
    let mut state = fresh_state();

    let route = table.resolve(&Method::Post, "/api/games").unwrap();
    let r = handle(&mut state, &route, Some(&payload("Chess")));
    assert_eq!(r.status, 201);
    let id = match r.body {
        Body::One(g) => {
            assert_eq!(g.id, 1);
            assert_eq!(g.title, "Chess");
            g.id
        }
        _ => panic!("created game returned"),
    };

    let route = table.resolve(&Method::Get, "/api/games/1").unwrap();
    let r = handle(&mut state, &route, None);
    assert_eq!(r.status, 200);
    match r.body {
        Body::One(g) => {
            assert_eq!(g.id, id);
            assert_eq!(g.title, "Chess");
        }
        _ => panic!("fetched game returned"),
    }

    let route = table.resolve(&Method::Delete, "/api/games/1").unwrap();
    let r = handle(&mut state, &route, None);
    assert_eq!(r.status, 204);
    assert!(matches!(r.body, Body::Empty));

    let route = table.resolve(&Method::Get, "/api/games/1").unwrap();
    let r = handle(&mut state, &route, None);
    assert_eq!(r.status, 404);
}

#[test]
fn handlers_map_errors_to_statuses() {
    let mut state = fresh_state();
    let r = get_game_by_id(&state, 5);
    assert_eq!(r.status, 404);
    let r = create_game(&mut state, &GamePayload { title: None });
    assert_eq!(r.status, 400);
    let r = delete_game(&mut state, 5);
    assert_eq!(r.status, 404);
    let r = handle(&mut state, &Route::UpdateGame(5), None);
    assert_eq!(r.status, 400);
    let r = handle(&mut state, &Route::UpdateGame(5), Some(&payload("Go")));
    assert_eq!(r.status, 404);
}

#[test]
fn list_handler_returns_all_games() {
    let mut state = fresh_state();
    create_game(&mut state, &payload("a"));
    create_game(&mut state, &payload("b"));
    let r = get_games(&state);
    assert_eq!(r.status, 200);
    match r.body {
        Body::Many(l) => {
            assert_eq!(l.len(), 2);
            assert_eq!(l[0].title, "a");
            assert_eq!(l[1].title, "b");
        }
        _ => panic!("list returned"),
    }
}

#[test]
fn update_handler_returns_updated_entity() {
    let mut state = fresh_state();
    create_game(&mut state, &payload("Chess"));
    let r = handle(&mut state, &Route::UpdateGame(1), Some(&payload("Go")));
    assert_eq!(r.status, 200);
    match r.body {
        Body::One(g) => {
            assert_eq!(g.id, 1);
            assert_eq!(g.title, "Go");
        }
        _ => panic!("updated game returned"),
    }
}

#[test]
fn rows_affected_outcome() {
    assert!(outcome_of_rows_affected(1).is_ok());
    assert!(outcome_of_rows_affected(3).is_ok());
    assert!(matches!(outcome_of_rows_affected(0), Err(ApiError::NotFound)));
}

#[test]
fn bootstrap_configuration_values() {
    let c = service_config();
    assert_eq!(c.host, "127.0.0.1");
    assert_eq!(c.port, 8080);
    assert_eq!(c.max_connections, 10);
    assert_eq!(c.allowed_origin, "http://localhost:3000");
    assert!(c.origin_allowed("http://localhost:3000"));
    assert!(!c.origin_allowed("http://evil.example"));
    assert_eq!(
        c.allowed_headers,
        ["content-type", "authorization", "content-encoding", "accept"]
    );
    assert!(c.header_allowed("authorization"));
    assert!(c.header_allowed("accept"));
    assert!(!c.header_allowed("x-custom"));
}
