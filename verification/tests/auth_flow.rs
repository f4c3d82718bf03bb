use chatd::{
    login_handler, logout_handler, register_handler, with_auth, LoginData, LoginReply,
    RegistrationData, Store, SESSION_LIFETIME,
};

fn registration(username: &str, password: &str, repeat: &str, code: &str) -> RegistrationData {
    RegistrationData {
        username: username.to_string(),
        password: password.to_string(),
        repeat_password: repeat.to_string(),
        invitation_code: code.to_string(),
        ip_address: "127.0.0.1".to_string(),
        mac_address: None,
    }
}

fn login(username: &str, password: &str) -> LoginData {
    LoginData { username: username.to_string(), password: password.to_string() }
}

const NOW: i64 = 1_700_000_000;

#[test]
fn register_alice_succeeds_with_hashed_password() {
    let mut store = Store::new();
    let reply = register_handler(&mut store, registration("alice", "secret1", "secret1", "welcome"));
    assert_eq!(reply.status, 200);
    assert_eq!(reply.body.message, "User registered successfully");
    assert_eq!(store.users.len(), 1);
    assert_eq!(store.users[0].username, "alice");
    assert_eq!(store.users[0].invitation_code, "welcome");
    // The stored hash is a bcrypt string, not the plaintext password.
    assert_ne!(store.users[0].password_hash, "secret1");
    assert_eq!(store.users[0].password_hash.len(), 60);
    assert!(store.users[0].password_hash.starts_with("$2"));
}

#[test]
fn second_registration_same_username_fails_and_keeps_one_row() {
    let mut store = Store::new();
    let first = register_handler(&mut store, registration("alice", "secret1", "secret1", "welcome"));
    assert_eq!(first.status, 200);
    let second =
        register_handler(&mut store, registration("alice", "other77", "other77", "welcome"));
    assert_eq!(second.status, 500);
    assert_eq!(second.body.message, "Failed to save user to database.");
    let rows = store.users.iter().filter(|u| u.username == "alice").count();
    assert_eq!(rows, 1);
    assert_eq!(store.users.len(), 1);
}

#[test]
fn register_rejects_invalid_fields_with_messages() {
    let mut store = Store::new();
    let reply = register_handler(&mut store, registration("al", "short", "short", "welcome"));
    assert_eq!(reply.status, 400);
    assert_eq!(
        reply.body.message,
        "Username must be between 3 and 16 characters \
         Password must be between 6 and 16 characters \
         Repeat password must be between 6 and 16 characters"
    );
    assert_eq!(store.users.len(), 0);
}

#[test]
fn register_rejects_mismatched_passwords() {
    let mut store = Store::new();
    let reply = register_handler(&mut store, registration("alice", "secret1", "secret2", "welcome"));
    assert_eq!(reply.status, 400);
    assert_eq!(reply.body.message, "Passwords do not match.");
    assert_eq!(store.users.len(), 0);
}

#[test]
fn login_wrong_password_gives_401_and_no_session() {
    let mut store = Store::new();
    let reg = register_handler(&mut store, registration("alice", "secret1", "secret1", "welcome"));
    assert_eq!(reg.status, 200);
    match login_handler(&mut store, login("alice", "wrongpass"), "127.0.0.1", NOW) {
        LoginReply::Failure(status, body) => {
            assert_eq!(status, 401);
            assert_eq!(body.message, "Invalid password.");
        }
        LoginReply::Success(_) => panic!("wrong password must not log in"),
    }
    assert_eq!(store.sessions.len(), 0);
}

#[test]
fn login_unknown_user_gives_401() {
    let mut store = Store::new();
    match login_handler(&mut store, login("nobody", "secret1"), "127.0.0.1", NOW) {
        LoginReply::Failure(status, body) => {
            assert_eq!(status, 401);
            assert_eq!(body.message, "Failed to find user.");
        }
        LoginReply::Success(_) => panic!("unknown user must not log in"),
    }
    assert_eq!(store.sessions.len(), 0);
}

#[test]
fn login_invalid_body_gives_400() {
    let mut store = Store::new();
    match login_handler(&mut store, login("al", "short"), "127.0.0.1", NOW) {
        LoginReply::Failure(status, body) => {
            assert_eq!(status, 400);
            assert_eq!(
                body.message,
                "Username must be between 3 and 16 characters \
                 Password must be between 6 and 16 characters"
            );
            assert_eq!(body.username, "");
        }
        LoginReply::Success(_) => panic!("invalid body must not log in"),
    }
}

#[test]
fn login_correct_password_creates_one_session() {
    let mut store = Store::new();
    let reg = register_handler(&mut store, registration("alice", "secret1", "secret1", "welcome"));
    assert_eq!(reg.status, 200);
    let reply = login_handler(&mut store, login("alice", "secret1"), "127.0.0.1", NOW);
    match reply {
        LoginReply::Success(body) => {
            assert_eq!(body.message, "User logged in successfully.");
            assert_eq!(body.username, "alice");
            assert_eq!(store.sessions.len(), 1);
            assert_eq!(store.sessions[0].session_id, body.session_id);
            assert_eq!(store.sessions[0].user_uuid, store.users[0].user_uuid);
            // The expiry sits one hour ahead of the login clock.
            assert_eq!(store.sessions[0].expires_at, Some(NOW + SESSION_LIFETIME));
            // The session points at the device row created for the caller.
            assert_eq!(store.sessions[0].device_id, store.devices[0].device_id);
        }
        LoginReply::Failure(status, body) => {
            panic!("expected success, got {} {}", status, body.message)
        }
    }
    // The device row for the caller's address was created once.
    assert_eq!(store.devices.len(), 1);
    assert_eq!(store.devices[0].ip_address, "127.0.0.1");
}

#[test]
fn login_twice_from_same_address_keeps_one_device() {
    let mut store = Store::new();
    register_handler(&mut store, registration("alice", "secret1", "secret1", "welcome"));
    let first = login_handler(&mut store, login("alice", "secret1"), "10.0.0.7", NOW);
    assert!(matches!(first, LoginReply::Success(_)));
    let second = login_handler(&mut store, login("alice", "secret1"), "10.0.0.7", NOW + 5);
    assert!(matches!(second, LoginReply::Success(_)));
    assert_eq!(store.devices.len(), 1);
    assert_eq!(store.sessions.len(), 2);
    // Both sessions reference the one reused device row.
    assert_eq!(store.sessions[0].device_id, store.devices[0].device_id);
    assert_eq!(store.sessions[1].device_id, store.devices[0].device_id);
}

#[test]
fn logout_deletes_session_and_auth_rejects_it() {
    let mut store = Store::new();
    register_handler(&mut store, registration("alice", "secret1", "secret1", "welcome"));
    let session_id = match login_handler(&mut store, login("alice", "secret1"), "127.0.0.1", NOW) {
        LoginReply::Success(body) => body.session_id,
        LoginReply::Failure(status, body) => {
            panic!("expected success, got {} {}", status, body.message)
        }
    };
    assert_eq!(with_auth(&store, session_id).ok(), Some(store.users[0].user_uuid));
    let (status, message) = logout_handler(&mut store, session_id);
    assert_eq!(status, 200);
    assert_eq!(message, "Logged out successfully");
    assert_eq!(store.sessions.len(), 0);
    assert!(with_auth(&store, session_id).is_err());
}

#[test]
fn auth_check_rejects_unknown_session() {
    let store = Store::new();
    assert!(with_auth(&store, 12345).is_err());
}

#[test]
fn logout_of_absent_session_still_reports_success() {
    let mut store = Store::new();
    let (status, message) = logout_handler(&mut store, 999);
    assert_eq!(status, 200);
    assert_eq!(message, "Logged out successfully");
}
