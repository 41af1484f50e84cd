use games_api::{config, parse_u64, str_eq, Method, Route};

#[test]
fn parse_u64_cases() {
    assert_eq!(parse_u64("0"), Some(0));
    assert_eq!(parse_u64("42"), Some(42));
    assert_eq!(parse_u64("007"), Some(7));
    assert_eq!(parse_u64("18446744073709551615"), Some(u64::MAX));
    assert_eq!(parse_u64("18446744073709551616"), None);
    assert_eq!(parse_u64("99999999999999999999999"), None);
    assert_eq!(parse_u64(""), None);
    assert_eq!(parse_u64("12a"), None);
    assert_eq!(parse_u64("-1"), None);
    assert_eq!(parse_u64(" 1"), None);
}

#[test]
fn str_eq_cases() {
    assert!(str_eq("", ""));
    assert!(str_eq("/api/games", "/api/games"));
    assert!(!str_eq("/api/games", "/api/games/"));
    assert!(!str_eq("abc", "abd"));
}

#[test]
fn resolve_game_collection_routes() {
    let table = config();
    assert_eq!(table.resolve(&Method::Get, "/api/games"), Some(Route::ListGames));
    assert_eq!(table.resolve(&Method::Post, "/api/games"), Some(Route::CreateGame));
    assert_eq!(table.resolve(&Method::Put, "/api/games"), None);
    assert_eq!(table.resolve(&Method::Delete, "/api/games"), None);
}

#[test]
fn resolve_game_id_routes() {
    let table = config();
    assert_eq!(table.resolve(&Method::Get, "/api/games/1"), Some(Route::GetGame(1)));
    assert_eq!(table.resolve(&Method::Put, "/api/games/17"), Some(Route::UpdateGame(17)));
    assert_eq!(table.resolve(&Method::Delete, "/api/games/17"), Some(Route::DeleteGame(17)));
    assert_eq!(table.resolve(&Method::Post, "/api/games/17"), None);
    assert_eq!(table.resolve(&Method::Get, "/api/games/"), None);
    assert_eq!(table.resolve(&Method::Get, "/api/games/xyz"), None);
    assert_eq!(table.resolve(&Method::Get, "/api/games/1/2"), None);
}

#[test]
fn resolve_health_route() {
    let table = config();
    assert_eq!(table.resolve(&Method::Get, "/api/healthchecker"), Some(Route::Health));
    assert_eq!(table.resolve(&Method::Post, "/api/healthchecker"), None);
}

#[test]
fn resolve_unknown_paths() {
    let table = config();
    assert_eq!(table.resolve(&Method::Get, "/"), None);
    assert_eq!(table.resolve(&Method::Get, "/api"), None);
    assert_eq!(table.resolve(&Method::Get, "/api/game"), None);
    assert_eq!(table.resolve(&Method::Get, "/api/gamesX"), None);
    assert_eq!(table.resolve(&Method::Get, ""), None);
}
