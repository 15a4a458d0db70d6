use user_auth::auth::{
    check_login, check_registration, check_row_password, created_at_of, login_outcome,
    registration_answer,
};
use user_auth::password::{hash_password, verify_password};
use user_auth::store::StoredUser;
use user_auth::{
    get_current_user, login_user, logout_user, register_user, DbState, LoginRequest,
    RegisterRequest,
};

fn memory_store() -> DbState {
    DbState::new(":memory:").expect("in-memory store opens")
}

fn reg(username: &str, email: &str, password: &str) -> RegisterRequest {
    RegisterRequest {
        username: username.to_string(),
        email: email.to_string(),
        password: password.to_string(),
    }
}

fn login(username: &str, password: &str) -> LoginRequest {
    LoginRequest { username: username.to_string(), password: password.to_string() }
}

#[test]
fn register_signs_in_new_user() {
    let mut db = memory_store();
    let resp = register_user(reg("alice", "alice@x", "secret1"), &mut db).unwrap();
    assert!(resp.success);
    assert_eq!(resp.message, "Registration successful");
    let user = resp.user.unwrap();
    assert_eq!(user.username, "alice");
    assert_eq!(user.email, "alice@x");
    assert!(user.id > 0);
    assert!(!user.created_at.is_empty());
    let current = get_current_user(&db).unwrap().unwrap();
    assert_eq!(current.username, "alice");
    assert_eq!(current.id, user.id);
}

#[test]
fn duplicate_username_is_rejected() {
    let mut db = memory_store();
    assert!(register_user(reg("alice", "alice@x", "secret1"), &mut db).unwrap().success);
    let resp = register_user(reg("alice", "other@x", "another1"), &mut db).unwrap();
    assert!(!resp.success);
    assert_eq!(resp.message, "Username or email already exists");
    assert!(resp.user.is_none());
}

#[test]
fn duplicate_email_is_rejected() {
    let mut db = memory_store();
    assert!(register_user(reg("alice", "alice@x", "secret1"), &mut db).unwrap().success);
    let resp = register_user(reg("carol", "alice@x", "another1"), &mut db).unwrap();
    assert!(!resp.success);
    assert_eq!(resp.message, "Username or email already exists");
    // the rejected attempt leaves the session with the first user
    assert_eq!(get_current_user(&db).unwrap().unwrap().username, "alice");
}

#[test]
fn logout_empties_session() {
    let mut db = memory_store();
    assert!(register_user(reg("alice", "alice@x", "secret1"), &mut db).unwrap().success);
    let resp = logout_user(&mut db).unwrap();
    assert!(resp.success);
    assert_eq!(resp.message, "Logged out successfully");
    assert!(resp.user.is_none());
    assert!(get_current_user(&db).unwrap().is_none());
}

#[test]
fn wrong_password_is_rejected_after_logout() {
    let mut db = memory_store();
    assert!(register_user(reg("alice", "alice@x", "secret1"), &mut db).unwrap().success);
    logout_user(&mut db).unwrap();
    let resp = login_user(login("alice", "wrongpw"), &mut db).unwrap();
    assert!(!resp.success);
    assert_eq!(resp.message, "Invalid username or password");
    assert!(get_current_user(&db).unwrap().is_none());
}

#[test]
fn short_password_is_rejected_without_a_row() {
    let mut db = memory_store();
    let resp = register_user(reg("bob", "bob@x", "12345"), &mut db).unwrap();
    assert!(!resp.success);
    assert_eq!(resp.message, "Password must be at least 6 characters");
    assert!(resp.user.is_none());
    // no row: the same username can still register
    assert!(register_user(reg("bob", "bob@x", "123456"), &mut db).unwrap().success);
}

#[test]
fn empty_fields_are_rejected() {
    let mut db = memory_store();
    let resp = register_user(reg("", "", ""), &mut db).unwrap();
    assert!(!resp.success);
    assert_eq!(resp.message, "Username, email, and password are required");
    assert!(get_current_user(&db).unwrap().is_none());
}

#[test]
fn store_survives_reopening() {
    let nanos = std::time::SystemTime::now()
        .duration_since(std::time::UNIX_EPOCH)
        .unwrap()
        .as_nanos();
    let path = format!("/tmp/user_auth_reopen_{}.db", nanos);
    {
        let mut db = DbState::new(&path).unwrap();
        assert!(register_user(reg("alice", "alice@x", "secret1"), &mut db).unwrap().success);
    }
    let mut db = DbState::new(&path).unwrap();
    assert!(get_current_user(&db).unwrap().is_none());
    let resp = login_user(login("alice", "secret1"), &mut db).unwrap();
    assert!(resp.success);
    assert_eq!(resp.message, "Login successful");
    assert_eq!(resp.user.unwrap().username, "alice");
}

#[test]
fn login_after_register_round_trips() {
    let mut db = memory_store();
    let registered = register_user(reg("dave", "dave@x", "hunter22"), &mut db).unwrap();
    let id = registered.user.unwrap().id;
    logout_user(&mut db).unwrap();
    let resp = login_user(login("dave", "hunter22"), &mut db).unwrap();
    assert!(resp.success);
    let user = resp.user.unwrap();
    assert_eq!(user.id, id);
    assert_eq!(user.email, "dave@x");
    assert_eq!(get_current_user(&db).unwrap().unwrap().id, id);
}

#[test]
fn unknown_user_and_wrong_password_answer_alike() {
    let mut db = memory_store();
    assert!(register_user(reg("erin", "erin@x", "correct1"), &mut db).unwrap().success);
    let unknown = login_user(login("nobody", "correct1"), &mut db).unwrap();
    let wrong = login_user(login("erin", "incorrect"), &mut db).unwrap();
    assert_eq!(unknown.success, wrong.success);
    assert_eq!(unknown.message, wrong.message);
    assert!(unknown.user.is_none() && wrong.user.is_none());
    assert_eq!(unknown.message, "Invalid username or password");
}

#[test]
fn login_with_empty_fields_is_rejected() {
    let mut db = memory_store();
    let resp = login_user(login("", "secret1"), &mut db).unwrap();
    assert!(!resp.success);
    assert_eq!(resp.message, "Username and password are required");
    let resp = login_user(login("alice", ""), &mut db).unwrap();
    assert_eq!(resp.message, "Username and password are required");
}

#[test]
fn later_login_replaces_session() {
    let mut db = memory_store();
    assert!(register_user(reg("frank", "frank@x", "passw0rd"), &mut db).unwrap().success);
    assert!(register_user(reg("gina", "gina@x", "passw0rd"), &mut db).unwrap().success);
    assert_eq!(get_current_user(&db).unwrap().unwrap().username, "gina");
    assert!(login_user(login("frank", "passw0rd"), &mut db).unwrap().success);
    assert_eq!(get_current_user(&db).unwrap().unwrap().username, "frank");
}

#[test]
fn digests_are_salted_and_verify() {
    let a = hash_password("secret1").unwrap();
    let b = hash_password("secret1").unwrap();
    assert_ne!(a, b);
    assert_ne!(a, "secret1");
    assert_eq!(a.len(), 60);
    assert!(a.starts_with("$2b$12$"));
    assert!(verify_password("secret1", &a).unwrap());
    assert!(verify_password("secret1", &b).unwrap());
    assert!(!verify_password("secret2", &a).unwrap());
}

#[test]
fn malformed_digest_is_an_error() {
    assert!(verify_password("secret1", "not a digest").is_err());
}

#[test]
fn registration_checks() {
    assert!(check_registration(&reg("a", "a@x", "123456")).is_none());
    let r = check_registration(&reg("a", "", "123456")).unwrap();
    assert_eq!(r.message, "Username, email, and password are required");
    // five characters of two bytes each are still five characters
    let r = check_registration(&reg("a", "a@x", "\u{e9}\u{e9}\u{e9}\u{e9}\u{e9}")).unwrap();
    assert_eq!(r.message, "Password must be at least 6 characters");
    assert!(check_login(&login("a", "b")).is_none());
}

fn stored(username: &str, digest: &str) -> StoredUser {
    StoredUser {
        id: 7,
        username: username.to_string(),
        email: "hal@x".to_string(),
        password_hash: digest.to_string(),
        created_at: "2024-01-01 00:00:00".to_string(),
    }
}

#[test]
fn login_outcome_cases() {
    let req = login("hal", "secret1");
    let ok = login_outcome(&req, Ok(Some(stored("hal", "d"))), Ok(true)).unwrap();
    assert!(ok.success);
    assert_eq!(ok.message, "Login successful");
    let user = ok.user.unwrap();
    assert_eq!(user.id, 7);
    assert_eq!(user.created_at, "2024-01-01 00:00:00");
    let wrong = login_outcome(&req, Ok(Some(stored("hal", "d"))), Ok(false)).unwrap();
    assert!(!wrong.success);
    assert_eq!(wrong.message, "Invalid username or password");
    let none = login_outcome(&req, Ok(None), Ok(true)).unwrap();
    assert!(!none.success);
    assert_eq!(none.message, "Invalid username or password");
    // a row under another username is never signed in
    let other = login_outcome(&req, Ok(Some(stored("sam", "d"))), Ok(true)).unwrap();
    assert!(!other.success);
    let err = login_outcome(&req, Ok(Some(stored("hal", "d"))), Err("boom".to_string()));
    assert_eq!(err.unwrap_err(), "Password verification error: boom");
    // a failed lookup is an error, not a rejection
    let failed = login_outcome(&req, Err("disk I/O error".to_string()), Ok(false));
    assert_eq!(failed.unwrap_err(), "disk I/O error");
}

#[test]
fn malformed_stored_digest_fails_login_with_error() {
    let req = login("hal", "secret1");
    let row = Ok(Some(stored("hal", "not a digest")));
    let verdict = check_row_password(&req, &row);
    assert!(verdict.is_err());
    let r = login_outcome(&req, row, verdict);
    assert!(r.unwrap_err().starts_with("Password verification error: "));
    assert_eq!(check_row_password(&req, &Ok(None)), Ok(false));
    assert_eq!(check_row_password(&req, &Err("x".to_string())), Ok(false));
}

#[test]
fn registration_answer_and_created_at() {
    assert!(registration_answer(&None).is_none());
    let r = registration_answer(&Some(stored("hal", "d"))).unwrap();
    assert!(!r.success);
    assert_eq!(r.message, "Username or email already exists");
    assert_eq!(created_at_of(Some(stored("hal", "d"))).unwrap(), "2024-01-01 00:00:00");
    assert_eq!(created_at_of(None).unwrap_err(), "Query returned no rows");
}

#[test]
fn registration_creates_default_preferences() {
    let mut db = memory_store();
    let id = register_user(reg("ivy", "ivy@x", "secret1"), &mut db).unwrap().user.unwrap().id;
    let (volume, unit, conc, theme, sci, places): (f64, String, String, String, i64, i64) = db
        .conn
        .query_row(
            "SELECT default_volume, default_volume_unit, default_concentration_unit, theme, \
             scientific_notation, decimal_places FROM user_preferences WHERE user_id = ?1",
            [id],
            |r| Ok((r.get(0)?, r.get(1)?, r.get(2)?, r.get(3)?, r.get(4)?, r.get(5)?)),
        )
        .unwrap();
    assert_eq!(volume, 100.0);
    assert_eq!(unit, "mL");
    assert_eq!(conc, "M");
    assert_eq!(theme, "auto");
    assert_eq!(sci, 0);
    assert_eq!(places, 4);
    let count: i64 = db
        .conn
        .query_row("SELECT COUNT(*) FROM user_preferences WHERE user_id = ?1", [id], |r| r.get(0))
        .unwrap();
    assert_eq!(count, 1);
}

#[test]
fn stored_row_holds_digest_not_password() {
    let mut db = memory_store();
    let id = register_user(reg("jack", "jack@x", "secret1"), &mut db).unwrap().user.unwrap().id;
    let stored: String = db
        .conn
        .query_row("SELECT password_hash FROM users WHERE id = ?1", [id], |r| r.get(0))
        .unwrap();
    assert_ne!(stored, "secret1");
    assert!(verify_password("secret1", &stored).unwrap());
    let users: i64 = db.conn.query_row("SELECT COUNT(*) FROM users", [], |r| r.get(0)).unwrap();
    assert_eq!(users, 1);
}

#[test]
fn reopened_store_remembers_its_path_and_rows() {
    let nanos = std::time::SystemTime::now()
        .duration_since(std::time::UNIX_EPOCH)
        .unwrap()
        .as_nanos();
    let path = format!("/tmp/user_auth_dup_{}.db", nanos);
    {
        let mut db = DbState::new(&path).unwrap();
        assert!(register_user(reg("alice", "alice@x", "secret1"), &mut db).unwrap().success);
    }
    let mut db = DbState::new(&path).unwrap();
    let resp = register_user(reg("alice", "other@x", "another1"), &mut db).unwrap();
    assert!(!resp.success);
    assert_eq!(resp.message, "Username or email already exists");
}

#[test]
fn unopenable_path_is_an_error() {
    assert!(DbState::new("/nonexistent_dir_for_user_auth/sub/users.db").is_err());
}
