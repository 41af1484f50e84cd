use games_api::{ApiError, GamePayload, GameStore};

fn payload(title: &str) -> GamePayload {
    GamePayload { title: Some(title.to_owned()) }
}

#[test]
fn create_then_get_returns_created() {
    let mut store = GameStore::new();
    let created = store.create(&payload("Chess")).unwrap();
    assert_eq!(created.id, 1);
    assert_eq!(created.title, "Chess");
    let fetched = store.get_by_id(created.id).unwrap();
    assert_eq!(fetched.id, created.id);
    assert_eq!(fetched.title, created.title);
}

#[test]
fn absent_id_yields_not_found() {
    let mut store = GameStore::new();
    store.create(&payload("Chess")).unwrap();
    assert!(matches!(store.get_by_id(99), Err(ApiError::NotFound)));
    assert!(matches!(store.update(99, &payload("Go")), Err(ApiError::NotFound)));
    assert!(matches!(store.delete(99), Err(ApiError::NotFound)));
}

#[test]
fn delete_then_get_not_found() {
    let mut store = GameStore::new();
    let g = store.create(&payload("Chess")).unwrap();
    assert!(store.delete(g.id).is_ok());
    assert!(matches!(store.get_by_id(g.id), Err(ApiError::NotFound)));
    assert!(matches!(store.delete(g.id), Err(ApiError::NotFound)));
}

#[test]
fn list_counts_after_creates_and_deletes() {
    let mut store = GameStore::new();
    let titles = ["a", "b", "c", "d", "e"];
    let mut ids = Vec::new();
    for t in titles.iter() {
        ids.push(store.create(&payload(t)).unwrap().id);
    }
    store.delete(ids[1]).unwrap();
    store.delete(ids[3]).unwrap();
    let listed = store.list();
    assert_eq!(listed.len(), 3);
    assert_eq!(store.len(), 3);
    let remaining: Vec<u64> = listed.iter().map(|g| g.id).collect();
    assert_eq!(remaining, vec![ids[0], ids[2], ids[4]]);
}

#[test]
fn list_is_sorted_by_ascending_id() {
    let mut store = GameStore::new();
    for t in ["x", "y", "z"].iter() {
        store.create(&payload(t)).unwrap();
    }
    let listed = store.list();
    for w in listed.windows(2) {
        assert!(w[0].id < w[1].id);
    }
}

#[test]
fn creates_assign_distinct_ids() {
    let mut store = GameStore::new();
    let a = store.create(&payload("a")).unwrap().id;
    let b = store.create(&payload("b")).unwrap().id;
    let c = store.create(&payload("c")).unwrap().id;
    assert!(a != b && b != c && a != c);
}

#[test]
fn deleted_id_is_not_reissued() {
    let mut store = GameStore::new();
    let a = store.create(&payload("a")).unwrap().id;
    store.delete(a).unwrap();
    let b = store.create(&payload("b")).unwrap().id;
    assert_ne!(a, b);
}

#[test]
fn invalid_payload_rejected_before_storage() {
    let mut store = GameStore::new();
    let invalid = GamePayload { title: None };
    assert!(matches!(store.create(&invalid), Err(ApiError::Validation)));
    assert_eq!(store.len(), 0);
    let g = store.create(&payload("Chess")).unwrap();
    assert!(matches!(store.update(g.id, &invalid), Err(ApiError::Validation)));
    assert_eq!(store.get_by_id(g.id).unwrap().title, "Chess");
}

#[test]
fn update_changes_title_in_place() {
    let mut store = GameStore::new();
    let g = store.create(&payload("Chess")).unwrap();
    let updated = store.update(g.id, &payload("Go")).unwrap();
    assert_eq!(updated.id, g.id);
    assert_eq!(updated.title, "Go");
    assert_eq!(store.get_by_id(g.id).unwrap().title, "Go");
    assert_eq!(store.len(), 1);
}

#[test]
fn list_of_empty_store_is_empty() {
    let store = GameStore::new();
    assert!(store.list().is_empty());
    assert_eq!(store.len(), 0);
}
