use chatd::{
    escape_html, get_files_handler, map_validation_errors, profile_handler, update_profile_handler,
    upload_handler, LoginData, ProfileError, RegistrationData, Session, StorageAccess, Store,
    StoreError, UpdateProfileRequest, UploadEvent, User, HISTORY_WINDOW,
};

fn user(name: &str, uuid: u128) -> User {
    User {
        username: name.to_string(),
        password_hash: "x".repeat(60),
        invitation_code: "welcome".to_string(),
        user_uuid: uuid,
    }
}

#[test]
fn escape_html_replaces_every_special_character() {
    assert_eq!(escape_html("a&b<c>d\"e'f"), "a&amp;b&lt;c&gt;d&quot;e&#x27;f");
    assert_eq!(escape_html("plain"), "plain");
    assert_eq!(escape_html(""), "");
    assert_eq!(escape_html("<<>>"), "&lt;&lt;&gt;&gt;");
}

#[test]
fn duplicate_user_rows_are_refused() {
    let mut store = Store::new();
    assert!(store.save_user_to_db(user("alice", 1)).is_ok());
    assert_eq!(store.save_user_to_db(user("alice", 2)), Err(StoreError::Duplicate));
    assert_eq!(store.save_user_to_db(user("bob", 1)), Err(StoreError::Duplicate));
    assert!(store.save_user_to_db(user("bob", 2)).is_ok());
    assert_eq!(store.users.len(), 2);
}

#[test]
fn find_user_by_username_and_uuid() {
    let mut store = Store::new();
    store.save_user_to_db(user("alice", 1)).unwrap();
    store.save_user_to_db(user("bob", 2)).unwrap();
    assert_eq!(store.find_user_by_username("bob").map(|u| u.user_uuid), Some(2));
    assert!(store.find_user_by_username("carol").is_none());
    assert_eq!(store.find_user_by_uuid(1).map(|u| u.username), Some("alice".to_string()));
    assert!(store.find_user_by_uuid(3).is_none());
}

#[test]
fn duplicate_session_rows_are_refused_and_delete_removes() {
    let mut store = Store::new();
    let s = Session { session_id: 5, user_uuid: 1, device_id: 2, expires_at: Some(100) };
    assert!(store.save_session_to_db(s).is_ok());
    assert_eq!(store.save_session_to_db(s), Err(StoreError::Duplicate));
    assert_eq!(store.sessions.len(), 1);
    assert_eq!(store.find_session_by_session_id(5).map(|x| x.user_uuid), Some(1));
    store.delete_session_by_session_id(5);
    assert!(store.sessions.is_empty());
    assert!(store.find_session_by_session_id(5).is_none());
}

#[test]
fn history_is_bounded_chronological_and_escaped() {
    let mut store = Store::new();
    store.save_user_to_db(user("<script>", 1)).unwrap();
    for i in 0..(HISTORY_WINDOW as i64 + 5) {
        store.save_message_to_db(&format!("m{}", i), 1, i);
    }
    let lines = store.send_message_history();
    // Bounded to the window, oldest first, window taken from the end.
    assert_eq!(lines.len(), HISTORY_WINDOW);
    assert_eq!(lines[0], "&lt;script&gt;: m5");
    for (k, line) in lines.iter().enumerate() {
        assert_eq!(line, &format!("&lt;script&gt;: m{}", k + 5));
    }
}

#[test]
fn history_falls_back_to_placeholder_for_unknown_senders() {
    let mut store = Store::new();
    store.save_message_to_db("ghost words", 42, 7);
    store.messages.push(chatd::Message {
        message: "no owner".to_string(),
        user_uuid: None,
        created_at: 8,
    });
    let lines = store.send_message_history();
    assert_eq!(lines, vec!["Unknown User: ghost words".to_string(), "Unknown User: no owner".to_string()]);
}

#[test]
fn file_rows_are_recorded_listed_and_timestamped() {
    let mut store = Store::new();
    assert!(store.save_file_info("notes.txt", 1, 10, 0).is_ok());
    assert!(store.save_file_info("pic.png", 2, 11, 86400).is_ok());
    assert_eq!(store.save_file_info("again.txt", 1, 10, 5), Err(StoreError::Duplicate));
    let mine = get_files_handler(&store, 1);
    assert_eq!(mine.len(), 1);
    assert_eq!(mine[0].filename, "notes.txt");
    assert_eq!(mine[0].file_id, 10);
    // The upload time is rendered by the calendar formatter, not echoed back.
    assert_eq!(mine[0].upload_time, "1970-01-01T00:00:00+00:00");
    let theirs = get_files_handler(&store, 2);
    assert_eq!(theirs[0].upload_time, "1970-01-02T00:00:00+00:00");
    assert!(get_files_handler(&store, 3).is_empty());
}

#[test]
fn upload_events_map_to_exact_statuses() {
    let mut store = Store::new();
    let cases = [
        (UploadEvent::FormDataFailed, 400, "Failed to parse form data"),
        (UploadEvent::FilenameMissing, 400, "Failed to extract filename"),
        (UploadEvent::FileCreateFailed, 500, "Failed to create file."),
        (UploadEvent::ChunkReadFailed, 500, "Failed to read chunk"),
        (UploadEvent::WriteFailed, 500, "Failed to write to file"),
        (UploadEvent::NoFilePart, 400, "No file found in the form data"),
    ];
    for (event, status, message) in cases {
        let reply = upload_handler(&mut store, event, 1, 10, 0);
        assert_eq!(reply.status, status);
        assert_eq!(reply.message, message);
    }
    assert!(store.files.is_empty());
    let ok = upload_handler(&mut store, UploadEvent::FileWritten("a.txt".to_string()), 1, 10, 0);
    assert_eq!(ok.status, 200);
    assert_eq!(ok.message, "Uploaded succesfully!");
    assert_eq!(store.files.len(), 1);
    assert_eq!(store.files[0].filename, "a.txt");
    // A clashing identifier is dropped best-effort, yet still acknowledged.
    let dup = upload_handler(&mut store, UploadEvent::FileWritten("b.txt".to_string()), 1, 10, 1);
    assert_eq!(dup.status, 200);
    assert_eq!(store.files.len(), 1);
}

#[test]
fn profile_is_created_lazily_and_rendered() {
    let mut store = Store::new();
    store.save_user_to_db(user("alice", 1)).unwrap();
    let resp = profile_handler(&mut store, 1, 500).expect("known user");
    assert_eq!(resp.username, "alice");
    assert_eq!(resp.bio, None);
    assert_eq!(resp.avatar, None);
    assert_eq!(resp.profile_banner, None);
    assert_eq!(resp.registration_date, 500);
    assert!(!resp.online_status);
    assert_eq!(resp.storage_access, StorageAccess::Private);
    assert_eq!(store.profiles.len(), 1);
    // A second fetch reuses the row.
    profile_handler(&mut store, 1, 501).expect("known user");
    assert_eq!(store.profiles.len(), 1);
}

#[test]
fn profile_fetch_for_unknown_user_is_rejected() {
    let mut store = Store::new();
    assert!(matches!(profile_handler(&mut store, 9, 500), Err(ProfileError::UnknownUser)));
}

#[test]
fn profile_update_overwrites_fields_and_clears_missing_viewers() {
    let mut store = Store::new();
    store.save_user_to_db(user("alice", 1)).unwrap();
    profile_handler(&mut store, 1, 500).unwrap();
    let request = UpdateProfileRequest {
        bio: Some("hello".to_string()),
        avatar: None,
        profile_banner: Some("banner.png".to_string()),
        storage_access: StorageAccess::SpecificUsers,
        allowed_viewers: Some(vec![2, 3]),
    };
    let (status, body) = update_profile_handler(&mut store, 1, request);
    assert_eq!(status, 200);
    assert_eq!(body.message, "Profile updated successfully");
    assert_eq!(store.profiles[0].bio, Some("hello".to_string()));
    assert_eq!(store.profiles[0].storage_access, StorageAccess::SpecificUsers);
    assert_eq!(store.profiles[0].allowed_viewers, vec![2, 3]);
    let clearing = UpdateProfileRequest {
        bio: None,
        avatar: None,
        profile_banner: None,
        storage_access: StorageAccess::Public,
        allowed_viewers: None,
    };
    update_profile_handler(&mut store, 1, clearing);
    assert_eq!(store.profiles[0].bio, None);
    assert!(store.profiles[0].allowed_viewers.is_empty());
    // Updating a user without a profile row changes nothing.
    let untouched = UpdateProfileRequest {
        bio: Some("ghost".to_string()),
        avatar: None,
        profile_banner: None,
        storage_access: StorageAccess::Private,
        allowed_viewers: None,
    };
    update_profile_handler(&mut store, 7, untouched);
    assert_eq!(store.profiles.len(), 1);
}

#[test]
fn storage_access_round_trips_through_text() {
    for mode in [StorageAccess::Private, StorageAccess::Public, StorageAccess::SpecificUsers] {
        assert_eq!(StorageAccess::from_text(mode.as_text()), Ok(mode));
    }
    assert_eq!(
        StorageAccess::from_text("Foo"),
        Err("Invalid storage access value: Foo".to_string())
    );
}

#[test]
fn validation_messages_join_with_single_spaces() {
    assert_eq!(map_validation_errors(&vec![]), "");
    assert_eq!(map_validation_errors(&vec!["one".to_string()]), "one");
    assert_eq!(
        map_validation_errors(&vec!["one".to_string(), "two".to_string(), "three".to_string()]),
        "one two three"
    );
}

#[test]
fn registration_validation_reports_each_failing_field() {
    let data = RegistrationData {
        username: "ab".to_string(),
        password: "longenough".to_string(),
        repeat_password: "longenough".to_string(),
        invitation_code: "a-code-far-too-long-to-accept".to_string(),
        ip_address: "127.0.0.1".to_string(),
        mac_address: None,
    };
    let errors = data.validate().unwrap_err();
    assert_eq!(
        errors,
        vec![
            "Username must be between 3 and 16 characters".to_string(),
            "Invitation code must be between 3 and 16 characters".to_string(),
        ]
    );
    let fine = RegistrationData {
        username: "abc".to_string(),
        password: "secret1".to_string(),
        repeat_password: "secret1".to_string(),
        invitation_code: "welcome".to_string(),
        ip_address: "127.0.0.1".to_string(),
        mac_address: None,
    };
    assert!(fine.validate().is_ok());
}

#[test]
fn validation_bounds_count_bytes_not_characters() {
    // Two characters of two bytes each: four bytes, inside the username
    // bound although only two characters long.
    let wide_username =
        LoginData { username: "\u{e9}\u{e9}".to_string(), password: "secret1".to_string() };
    assert!(wide_username.validate().is_ok());
    // Nine two-byte characters: eighteen bytes, over the password bound
    // although only nine characters long.
    let wide_password =
        LoginData { username: "alice".to_string(), password: "\u{e9}".repeat(9) };
    let errors = wide_password.validate().unwrap_err();
    assert_eq!(errors, vec!["Password must be between 6 and 16 characters".to_string()]);
}

#[test]
fn login_validation_checks_both_fields() {
    let bad = LoginData { username: "a".to_string(), password: "b".to_string() };
    let errors = bad.validate().unwrap_err();
    assert_eq!(errors.len(), 2);
    let fine = LoginData { username: "alice".to_string(), password: "secret1".to_string() };
    assert!(fine.validate().is_ok());
}

#[test]
fn device_rows_are_found_by_address() {
    let mut store = Store::new();
    let device = chatd::Device {
        device_id: 1,
        user_uuid: 2,
        ip_address: "10.0.0.1".to_string(),
    };
    assert!(store.save_device_to_db(device).is_ok());
    assert_eq!(store.find_device_by_ip_mac("10.0.0.1").map(|d| d.device_id), Some(1));
    assert!(store.find_device_by_ip_mac("10.0.0.2").is_none());
}
