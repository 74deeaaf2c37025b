use pos_auth::DbError;
use pos_auth::Database;
use pos_auth::LoginRequest;
use pos_auth::UserRole;
use pos_auth::SESSION_TTL_MS;

fn req(username: &str, password: &str) -> LoginRequest {
    LoginRequest { username: username.to_string(), password: password.to_string() }
}

#[test]
fn create_login_validate_logout_roundtrip() {
    let mut db = Database::new();
    let alice = db.create_user("alice", "pw1", "Alice", &UserRole::CASHIER).unwrap();
    assert_eq!(alice.username, "alice");
    assert_eq!(alice.name, "Alice");
    assert!(matches!(alice.role, UserRole::CASHIER));
    assert!(alice.is_active);
    assert!(alice.last_login.is_none());

    let resp = db.authenticate(&req("alice", "pw1")).unwrap().unwrap();
    assert_eq!(resp.user.id, alice.id);
    assert_eq!(resp.user.username, "alice");

    let validated = db.validate_session(&resp.token).unwrap().unwrap();
    assert_eq!(validated.id, alice.id);

    db.logout(&resp.token).unwrap();
    assert!(db.validate_session(&resp.token).unwrap().is_none());
}

#[test]
fn bootstrap_creates_working_admin() {
    let mut db = Database::new();
    db.create_default_admin().unwrap();
    let resp = db.authenticate(&req("admin", "admin123")).unwrap().unwrap();
    assert_eq!(resp.user.username, "admin");
    assert_eq!(resp.user.name, "Administrator");
    assert!(matches!(resp.user.role, UserRole::ADMIN));
    assert!(resp.user.is_active);
}

#[test]
fn bootstrap_twice_leaves_one_admin_row() {
    let mut db = Database::new();
    db.create_default_admin().unwrap();
    db.create_default_admin().unwrap();
    let users = db.get_all_users().unwrap();
    let admins: Vec<_> = users.iter().filter(|u| u.username == "admin").collect();
    assert_eq!(admins.len(), 1);
    assert_eq!(users.len(), 1);
}

#[test]
fn wrong_password_unknown_user_yield_negative_not_error() {
    let mut db = Database::new();
    db.create_user("alice", "pw1", "Alice", &UserRole::CASHIER).unwrap();
    assert!(db.authenticate(&req("alice", "wrong")).unwrap().is_none());
    assert!(db.authenticate(&req("nobody", "pw1")).unwrap().is_none());
}

#[test]
fn inactive_user_cannot_login_or_validate() {
    let mut db = Database::new();
    let alice = db.create_user("alice", "pw1", "Alice", &UserRole::CASHIER).unwrap();
    let resp = db.authenticate(&req("alice", "pw1")).unwrap().unwrap();

    db.update_user(&alice.id, "Alice B", &UserRole::CASHIER, false).unwrap();
    assert!(db.authenticate(&req("alice", "pw1")).unwrap().is_none());
    // The existing session is refused while the user is inactive, but kept.
    assert!(db.validate_session(&resp.token).unwrap().is_none());
    assert_eq!(db.sessions.len(), 1);
}

#[test]
fn update_user_rewrites_profile_fields_only() {
    let mut db = Database::new();
    let alice = db.create_user("alice", "pw1", "Alice", &UserRole::CASHIER).unwrap();
    db.update_user(&alice.id, "Alice B", &UserRole::ADMIN, true).unwrap();
    let users = db.get_all_users().unwrap();
    assert_eq!(users.len(), 1);
    assert_eq!(users[0].name, "Alice B");
    assert!(matches!(users[0].role, UserRole::ADMIN));
    assert_eq!(users[0].username, "alice");
    // The password is untouched by an update.
    assert!(db.authenticate(&req("alice", "pw1")).unwrap().is_some());
}

#[test]
fn update_unknown_id_is_not_found() {
    let mut db = Database::new();
    let r = db.update_user("no-such-id", "Nobody", &UserRole::CASHIER, true);
    assert_eq!(r.unwrap_err(), DbError::NotFound);
}

#[test]
fn duplicate_username_is_refused_and_store_unchanged() {
    let mut db = Database::new();
    db.create_user("bob", "pw1", "Bob", &UserRole::CASHIER).unwrap();
    let r = db.create_user("bob", "pw2", "Bobby", &UserRole::ADMIN);
    assert_eq!(r.unwrap_err(), DbError::DuplicateUsername);
    let users = db.get_all_users().unwrap();
    assert_eq!(users.len(), 1);
    assert_eq!(users[0].name, "Bob");
}

#[test]
fn two_logins_give_two_independent_sessions() {
    let mut db = Database::new();
    db.create_user("carol", "pw", "Carol", &UserRole::CASHIER).unwrap();
    let r1 = db.authenticate(&req("carol", "pw")).unwrap().unwrap();
    let r2 = db.authenticate(&req("carol", "pw")).unwrap().unwrap();
    assert_ne!(r1.token, r2.token);
    assert!(db.validate_session(&r1.token).unwrap().is_some());
    assert!(db.validate_session(&r2.token).unwrap().is_some());
    db.logout(&r1.token).unwrap();
    assert!(db.validate_session(&r1.token).unwrap().is_none());
    assert!(db.validate_session(&r2.token).unwrap().is_some());
}

#[test]
fn session_expiry_is_absolute_and_lazy() {
    let mut db = Database::new();
    db.create_user("dave", "pw", "Dave", &UserRole::CASHIER).unwrap();
    let login = req("dave", "pw");
    let resp = db
        .login_with(&login, "sid-1".to_string(), "tok-1".to_string(), 1_000)
        .unwrap()
        .unwrap();
    assert_eq!(resp.token, "tok-1");
    assert_eq!(db.sessions[0].expires_at, 1_000 + SESSION_TTL_MS);

    // Validation before expiry answers the user and touches only the
    // activity marker; the expiry itself never moves.
    let v = db.validate_session_at("tok-1", 2_000).unwrap();
    assert!(v.is_some());
    assert_eq!(db.sessions[0].last_activity, 2_000);
    assert_eq!(db.sessions[0].expires_at, 1_000 + SESSION_TTL_MS);

    // The stored expiry instant itself is still accepted (the check is
    // strict "expired when expires_at < now").
    assert!(db.validate_session_at("tok-1", 1_000 + SESSION_TTL_MS).unwrap().is_some());

    // One past it, the row is deleted lazily and stays gone.
    assert!(db.validate_session_at("tok-1", 1_000 + SESSION_TTL_MS + 1).unwrap().is_none());
    assert!(db.sessions.is_empty());
    assert!(db.validate_session_at("tok-1", 1_000).unwrap().is_none());
}

#[test]
fn logout_of_unknown_token_is_a_quiet_no_op() {
    let mut db = Database::new();
    db.logout("no-such-token").unwrap();
    assert!(db.validate_session("no-such-token").unwrap().is_none());
}

#[test]
fn reset_password_replaces_the_credential() {
    let mut db = Database::new();
    let erin = db.create_user("erin", "old-pw", "Erin", &UserRole::CASHIER).unwrap();
    db.reset_password(&erin.id, "new-pw").unwrap();
    assert!(db.authenticate(&req("erin", "old-pw")).unwrap().is_none());
    assert!(db.authenticate(&req("erin", "new-pw")).unwrap().is_some());
}

#[test]
fn reset_password_unknown_id_is_not_found() {
    let mut db = Database::new();
    let r = db.reset_password("no-such-id", "pw");
    assert_eq!(r.unwrap_err(), DbError::NotFound);
}

#[test]
fn list_users_is_newest_created_first() {
    let mut db = Database::new();
    db.create_user_with("u1", "h1".to_string(), "First", UserRole::CASHIER, "id1".to_string(), 100)
        .unwrap();
    db.create_user_with("u2", "h2".to_string(), "Second", UserRole::CASHIER, "id2".to_string(), 300)
        .unwrap();
    db.create_user_with("u3", "h3".to_string(), "Third", UserRole::ADMIN, "id3".to_string(), 200)
        .unwrap();
    let users = db.get_all_users().unwrap();
    assert_eq!(users.len(), 3);
    assert_eq!(users[0].username, "u2");
    assert_eq!(users[1].username, "u3");
    assert_eq!(users[2].username, "u1");
}

#[test]
fn login_touches_last_login_and_issues_uuid_token() {
    let mut db = Database::new();
    db.create_user("frank", "pw", "Frank", &UserRole::CASHIER).unwrap();
    let resp = db.authenticate(&req("frank", "pw")).unwrap().unwrap();
    // The stored hash is a real bcrypt hash, not the password itself.
    assert_ne!(db.users[0].password_hash, "pw");
    assert!(db.users[0].password_hash.starts_with("$2"));
    assert!(resp.user.last_login.is_some());
    assert_eq!(resp.token.len(), 36);
}

#[test]
fn role_text_codec_is_exact_and_defaults_to_cashier() {
    assert_eq!(pos_auth::role_text(&UserRole::ADMIN), "ADMIN");
    assert_eq!(pos_auth::role_text(&UserRole::CASHIER), "CASHIER");
    assert!(matches!(pos_auth::role_of_text("ADMIN"), UserRole::ADMIN));
    assert!(matches!(pos_auth::role_of_text("CASHIER"), UserRole::CASHIER));
    // Unknown role text falls back to the least privileged role.
    assert!(matches!(pos_auth::role_of_text("MANAGER"), UserRole::CASHIER));
    assert!(matches!(pos_auth::role_of_text("admin"), UserRole::CASHIER));
}

#[test]
fn colliding_generated_identifiers_are_an_operational_error() {
    let mut db = Database::new();
    db.create_user("gina", "pw", "Gina", &UserRole::CASHIER).unwrap();
    let login = req("gina", "pw");
    db.login_with(&login, "sid-1".to_string(), "tok-1".to_string(), 1_000).unwrap().unwrap();
    let r = db.login_with(&login, "sid-2".to_string(), "tok-1".to_string(), 2_000);
    assert_eq!(r.unwrap_err(), DbError::Operational);
    // The id collision answers the same way; the session table is unchanged.
    let r2 = db.login_with(&login, "sid-1".to_string(), "tok-2".to_string(), 3_000);
    assert_eq!(r2.unwrap_err(), DbError::Operational);
    assert_eq!(db.sessions.len(), 1);
    // A colliding user id on creation is refused the same way.
    let r3 = db.create_user_with(
        "henry",
        "h".to_string(),
        "Henry",
        UserRole::CASHIER,
        db.users[0].id.clone(),
        500,
    );
    assert_eq!(r3.unwrap_err(), DbError::Operational);
}
