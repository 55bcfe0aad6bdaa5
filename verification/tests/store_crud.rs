use user_service::model::UserMessage;
use user_service::store::UserStore;

fn msg(email: &str, name: &str, password: &str) -> UserMessage {
    UserMessage { email: email.to_string(), name: name.to_string(), password: password.to_string() }
}

#[test]
fn create_then_get_returns_same_fields() {
    let mut store = UserStore::new();
    let created = store.create(msg("a@x.com", "A", "pw")).unwrap();
    let fetched = store.get(created.id).unwrap();
    assert_eq!(fetched.id, created.id);
    assert_eq!(fetched.email, "a@x.com");
    assert_eq!(fetched.name, "A");
    assert_eq!(fetched.password, "pw");
    assert_eq!(fetched.created_at, created.created_at);
    assert!(fetched.updated_at.is_none());
}

#[test]
fn create_assigns_distinct_ids() {
    let mut store = UserStore::new();
    let a = store.create(msg("a@x.com", "A", "pw")).unwrap();
    let b = store.create(msg("b@x.com", "B", "pw")).unwrap();
    assert_ne!(a.id, b.id);
}

#[test]
fn get_missing_id_is_not_found() {
    let store = UserStore::new();
    let err = store.get(42).unwrap_err();
    assert_eq!(err.status_code, 404);
    assert_eq!(err.message, "User not found");
}

#[test]
fn get_all_returns_rows_in_insertion_order() {
    let mut store = UserStore::new();
    assert!(store.get_all().is_empty());
    let a = store.create(msg("a@x.com", "A", "pw")).unwrap();
    let b = store.create(msg("b@x.com", "B", "pw")).unwrap();
    let all = store.get_all();
    assert_eq!(all.len(), 2);
    assert_eq!(all[0].id, a.id);
    assert_eq!(all[1].id, b.id);
}

#[test]
fn get_by_email_finds_earliest_match() {
    let mut store = UserStore::new();
    let first = store.create(msg("dup@x.com", "First", "pw1")).unwrap();
    store.create(msg("dup@x.com", "Second", "pw2")).unwrap();
    let found = store.get_by_email("dup@x.com".to_string()).unwrap();
    assert_eq!(found.id, first.id);
    assert_eq!(found.name, "First");
}

#[test]
fn get_by_email_missing_is_not_found() {
    let store = UserStore::new();
    let err = store.get_by_email("nobody@x.com".to_string()).unwrap_err();
    assert_eq!(err.status_code, 404);
}

#[test]
fn update_replaces_all_three_fields_and_keeps_id() {
    let mut store = UserStore::new();
    let created = store.create(msg("a@x.com", "A", "pw")).unwrap();
    let updated = store.update(created.id, msg("new@x.com", "New", "pw2")).unwrap();
    assert_eq!(updated.id, created.id);
    assert_eq!(updated.email, "new@x.com");
    assert_eq!(updated.name, "New");
    assert_eq!(updated.password, "pw2");
    assert_eq!(updated.created_at, created.created_at);
    let fetched = store.get(created.id).unwrap();
    assert_eq!(fetched.email, "new@x.com");
}

#[test]
fn update_missing_id_fails_with_not_found() {
    let mut store = UserStore::new();
    let err = store.update(42, msg("a@x.com", "A", "pw")).unwrap_err();
    assert_eq!(err.status_code, 404);
    assert!(store.get_all().is_empty());
}

#[test]
fn delete_missing_id_returns_zero_and_never_fails() {
    let mut store = UserStore::new();
    let deleted = store.delete(42).unwrap();
    assert_eq!(deleted, 0);
}

#[test]
fn delete_existing_row_returns_one_and_removes_it() {
    let mut store = UserStore::new();
    let created = store.create(msg("a@x.com", "A", "pw")).unwrap();
    let deleted = store.delete(created.id).unwrap();
    assert_eq!(deleted, 1);
    assert_eq!(store.get(created.id).unwrap_err().status_code, 404);
    assert_eq!(store.delete(created.id).unwrap(), 0);
}
