use user_service::auth::{register, sign_in, sign_out, Session};
use user_service::handlers;
use user_service::model::{User, UserMessage};
use user_service::store::UserStore;

fn msg(email: &str, name: &str, password: &str) -> UserMessage {
    UserMessage { email: email.to_string(), name: name.to_string(), password: password.to_string() }
}

fn plain_user(password: &str) -> User {
    User {
        id: 1,
        email: "a@x.com".to_string(),
        name: "A".to_string(),
        password: password.to_string(),
        created_at: 0,
        updated_at: None,
    }
}

#[test]
fn hash_then_verify_roundtrip() {
    let mut user = plain_user("secret");
    user.hash_password().unwrap();
    assert_ne!(user.password, "secret");
    assert!(user.password.starts_with('$'));
    assert!(user.verify_password("secret").unwrap());
    assert!(!user.verify_password("wrong").unwrap());
    assert!(!user.verify_password("").unwrap());
}

#[test]
fn two_hashes_of_same_password_differ_yet_both_verify() {
    let mut first = plain_user("secret");
    let mut second = plain_user("secret");
    first.hash_password().unwrap();
    second.hash_password().unwrap();
    assert_ne!(first.password, second.password);
    assert!(first.verify_password("secret").unwrap());
    assert!(second.verify_password("secret").unwrap());
}

#[test]
fn verify_on_malformed_stored_hash_fails_with_500() {
    let user = plain_user("not an encoded hash");
    let err = user.verify_password("secret").unwrap_err();
    assert_eq!(err.status_code, 500);
    assert_eq!(err.message, "Failed to verify password");
}

#[test]
fn register_stores_hash_not_plaintext() {
    let mut store = UserStore::new();
    let user = register(&mut store, msg("a@x.com", "A", "secret")).unwrap();
    assert_eq!(user.email, "a@x.com");
    assert_eq!(user.name, "A");
    assert_ne!(user.password, "secret");
    assert!(user.password.starts_with('$'));
    assert!(user.updated_at.is_none());
    let stored = store.get(user.id).unwrap();
    assert_eq!(stored.password, user.password);
}

#[test]
fn sign_in_failures_are_indistinguishable() {
    let mut store = UserStore::new();
    register(&mut store, msg("a@x.com", "A", "secret")).unwrap();

    let mut session = Session::Anonymous;
    let unknown = sign_in(&store, &mut session, msg("b@x.com", "", "secret")).unwrap_err();
    assert!(matches!(session, Session::Anonymous));

    let wrong = sign_in(&store, &mut session, msg("a@x.com", "", "nope")).unwrap_err();
    assert!(matches!(session, Session::Anonymous));

    assert_eq!(unknown.status_code, 401);
    assert_eq!(wrong.status_code, 401);
    assert_eq!(unknown.message, wrong.message);
    assert_eq!(unknown.message, "Credentials not valid!");
}

#[test]
fn sign_in_success_binds_session_to_user_id() {
    let mut store = UserStore::new();
    let user = register(&mut store, msg("a@x.com", "A", "secret")).unwrap();
    let mut session = Session::Anonymous;
    let signed = sign_in(&store, &mut session, msg("a@x.com", "", "secret")).unwrap();
    assert_eq!(signed.id, user.id);
    assert!(matches!(session, Session::Authenticated { user_id } if user_id == user.id));
}

#[test]
fn sign_out_clears_identity_and_demands_one() {
    let mut session = Session::Authenticated { user_id: 9 };
    sign_out(&mut session).unwrap();
    assert!(matches!(session, Session::Anonymous));
    let err = sign_out(&mut session).unwrap_err();
    assert_eq!(err.status_code, 401);
    assert_eq!(err.message, "Unauthorized");
}

#[test]
fn protected_routes_yield_401_without_session_regardless_of_rows() {
    let mut store = UserStore::new();
    let user = register(&mut store, msg("a@x.com", "A", "secret")).unwrap();
    let anon = Session::Anonymous;

    let err = handlers::find_all(&anon, &store).unwrap_err();
    assert_eq!(err.status_code, 401);
    // existing and missing ids answer identically while signed out
    let err_present = handlers::find(&anon, &store, user.id).unwrap_err();
    let err_absent = handlers::find(&anon, &store, user.id.wrapping_add(1)).unwrap_err();
    assert_eq!(err_present.status_code, 401);
    assert_eq!(err_absent.status_code, 401);
    assert_eq!(err_present.message, err_absent.message);

    let err = handlers::update(&anon, &mut store, user.id, msg("b@x.com", "B", "pw")).unwrap_err();
    assert_eq!(err.status_code, 401);
    let err = handlers::delete(&anon, &mut store, user.id).unwrap_err();
    assert_eq!(err.status_code, 401);
    // the table was not touched
    let fetched = store.get(user.id).unwrap();
    assert_eq!(fetched.email, "a@x.com");
}

#[test]
fn protected_routes_answer_with_session() {
    let mut store = UserStore::new();
    let user = register(&mut store, msg("a@x.com", "A", "secret")).unwrap();
    let session = Session::Authenticated { user_id: user.id };
    let all = handlers::find_all(&session, &store).unwrap();
    assert_eq!(all.len(), 1);
    let found = handlers::find(&session, &store, user.id).unwrap();
    assert_eq!(found.email, "a@x.com");
    let err = handlers::find(&session, &store, user.id.wrapping_add(1)).unwrap_err();
    assert_eq!(err.status_code, 404);
    let updated = handlers::update(&session, &mut store, user.id, msg("b@x.com", "B", "pw")).unwrap();
    assert_eq!(updated.email, "b@x.com");
    let deleted = handlers::delete(&session, &mut store, user.id).unwrap();
    assert_eq!(deleted, 1);
}

#[test]
fn register_sign_in_sign_out_scenario() {
    let mut store = UserStore::new();

    // register: the answer carries an id, the email and the name, and the
    // stored password field is a hash rather than the plaintext
    let user = register(&mut store, msg("a@x.com", "A", "secret")).unwrap();
    assert_eq!(user.email, "a@x.com");
    assert_eq!(user.name, "A");
    assert_ne!(user.password, "secret");

    // sign-in with the same credentials succeeds and establishes a session
    let mut session = Session::Anonymous;
    let signed = sign_in(&store, &mut session, msg("a@x.com", "", "secret")).unwrap();
    assert_eq!(signed.id, user.id);
    assert!(matches!(session, Session::Authenticated { .. }));

    // sign-out with that session succeeds
    sign_out(&mut session).unwrap();
    assert!(matches!(session, Session::Anonymous));

    // listing users after sign-out is turned away with 401
    let err = handlers::find_all(&session, &store).unwrap_err();
    assert_eq!(err.status_code, 401);
    assert_eq!(err.message, "Unauthorized");
}

#[test]
fn sign_in_against_unhashed_row_surfaces_500() {
    // a row stored through the plain create keeps its password as given;
    // verification cannot decode it, and that failure is not remapped
    let mut store = UserStore::new();
    store.create(msg("a@x.com", "A", "plaintext")).unwrap();
    let mut session = Session::Anonymous;
    let err = sign_in(&store, &mut session, msg("a@x.com", "", "plaintext")).unwrap_err();
    assert_eq!(err.status_code, 500);
    assert!(matches!(session, Session::Anonymous));
}
