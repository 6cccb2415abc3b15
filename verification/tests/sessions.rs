use origin_stamp::dashboard::{get_dashboard_metrics, DashboardMetrics};
use origin_stamp::error::NotFound;
use origin_stamp::physical_art::{
    create_physical_art_session, get_session_count, get_session_details, get_user_sessions,
    remove_photo_from_session, update_session_status, upload_photo_to_session, SessionStore,
};
use origin_stamp::s3::{
    configure_s3, generate_upload_url, get_s3_config, get_s3_config_status, set_s3_config,
    trim_trailing_slashes, NotConfigured,
};
use origin_stamp::store::Registry;
use origin_stamp::types::{
    LoginResult, PhysicalArtSession, S3Config, SessionStatus, UploadFileData,
};
use origin_stamp::users::{
    get_all_users, get_user_count, get_user_info, login, register_user, UserStore,
};
use origin_stamp::utils::{
    code_point, generate_random_id, leading_number_of, parse_u64, simple_hash,
};

fn s(v: &str) -> String {
    v.to_string()
}

#[test]
fn identifiers_are_drawn_from_the_time() {
    assert_eq!(generate_random_id(0), "00");
    assert_eq!(generate_random_id(1), "10");
    assert_eq!(generate_random_id(6), "63c");
    assert_eq!(generate_random_id(12345), "30390");
    assert_eq!(generate_random_id(4_294_967_373), "4d0");
    assert_eq!(generate_random_id(1_700_000_000_000_000_000), "362a00000");
}

#[test]
fn checksums() {
    assert_eq!(simple_hash(""), "0");
    assert_eq!(simple_hash("a"), "8b");
    assert_eq!(simple_hash("secret"), "382");
    assert_eq!(simple_hash("hunter2"), "3ee");
    assert_eq!(simple_hash("pässword"), "570");
    assert_eq!(simple_hash(&"\u{10ffff}".repeat(5000)), "4c14bdb8");
    assert_eq!(code_point('a'), 97);
    assert_eq!(code_point('\u{10ffff}'), 0x10ffff);
}

#[test]
fn leading_numbers() {
    assert_eq!(leading_number_of(""), 0);
    assert_eq!(leading_number_of("60"), 60);
    assert_eq!(leading_number_of("007"), 7);
    assert_eq!(leading_number_of("6b6"), 0);
    assert_eq!(leading_number_of("123456789"), 12345678);
    assert_eq!(leading_number_of("12345678x"), 12345678);
    assert_eq!(leading_number_of("1234567x9"), 0);
    assert_eq!(leading_number_of("99999999"), 99999999);
    assert_eq!(leading_number_of("+12"), 0);
}

#[test]
fn session_lifecycle() {
    let mut sessions: SessionStore = Registry::new();
    let id =
        create_physical_art_session(&mut sessions, 6, s("alice"), s("Sunset"), s("Oil")).unwrap();
    assert_eq!(id, "63c");
    assert_eq!(get_session_count(&sessions), 1);
    let expected = PhysicalArtSession {
        session_id: s("63c"),
        username: s("alice"),
        art_title: s("Sunset"),
        description: s("Oil"),
        uploaded_photos: vec![],
        status: SessionStatus::Draft,
        created_at: 6,
        updated_at: 6,
    };
    assert_eq!(get_session_details(&sessions, &id), Some(expected.clone()));

    assert_eq!(upload_photo_to_session(&mut sessions, 7, id.clone(), s("a.jpg")), Ok(true));
    assert_eq!(upload_photo_to_session(&mut sessions, 8, id.clone(), s("b.jpg")), Ok(true));
    assert_eq!(upload_photo_to_session(&mut sessions, 9, id.clone(), s("a.jpg")), Ok(true));
    let after = get_session_details(&sessions, &id).unwrap();
    assert_eq!(after.uploaded_photos, vec!["a.jpg", "b.jpg", "a.jpg"]);
    assert_eq!(after.updated_at, 9);
    assert_eq!(after.created_at, 6);

    assert_eq!(
        update_session_status(&mut sessions, 10, id.clone(), SessionStatus::Uploading),
        Ok(true)
    );
    let after = get_session_details(&sessions, &id).unwrap();
    assert_eq!(after.status, SessionStatus::Uploading);
    assert_eq!(after.updated_at, 10);

    assert_eq!(remove_photo_from_session(&mut sessions, 11, id.clone(), s("a.jpg")), Ok(true));
    let after = get_session_details(&sessions, &id).unwrap();
    assert_eq!(after.uploaded_photos, vec!["b.jpg"]);
    assert_eq!(after.updated_at, 11);
    assert_eq!(remove_photo_from_session(&mut sessions, 12, id.clone(), s("zz")), Ok(true));
    assert_eq!(get_session_details(&sessions, &id).unwrap().uploaded_photos, vec!["b.jpg"]);
    assert_eq!(get_session_count(&sessions), 1);
}

#[test]
fn unknown_sessions() {
    let mut sessions: SessionStore = Registry::new();
    assert_eq!(get_session_details(&sessions, &s("x")), None);
    assert_eq!(upload_photo_to_session(&mut sessions, 1, s("x"), s("a")), Err(NotFound));
    assert_eq!(
        update_session_status(&mut sessions, 1, s("x"), SessionStatus::Active),
        Err(NotFound)
    );
    assert_eq!(remove_photo_from_session(&mut sessions, 1, s("x"), s("a")), Err(NotFound));
    assert_eq!(get_session_count(&sessions), 0);
}

#[test]
fn sessions_of_a_user_come_in_creation_order() {
    let mut sessions: SessionStore = Registry::new();
    let a = create_physical_art_session(&mut sessions, 1, s("alice"), s("A"), s("d")).unwrap();
    let b = create_physical_art_session(&mut sessions, 2, s("bob"), s("B"), s("d")).unwrap();
    let c = create_physical_art_session(&mut sessions, 3, s("alice"), s("C"), s("d")).unwrap();
    assert_ne!(a, b);
    assert_ne!(b, c);
    let titles: Vec<String> = get_user_sessions(&sessions, &s("alice"))
        .into_iter()
        .map(|x| x.art_title)
        .collect();
    assert_eq!(titles, vec!["A", "C"]);
    assert_eq!(get_user_sessions(&sessions, &s("carol")), vec![]);
}

#[test]
fn registration_and_sign_in() {
    let mut users: UserStore = Registry::new();
    let refusal = |m: &str| LoginResult { success: false, message: s(m), username: None };
    assert_eq!(
        register_user(&mut users, 5, s(""), s("pw")),
        refusal("Username and password cannot be empty")
    );
    assert_eq!(
        register_user(&mut users, 5, s("alice"), s("")),
        refusal("Username and password cannot be empty")
    );
    assert_eq!(get_user_count(&users), 0);
    assert_eq!(
        register_user(&mut users, 5, s("alice"), s("secret")),
        LoginResult {
            success: true,
            message: s("User registered successfully"),
            username: Some(s("alice"))
        }
    );
    assert_eq!(
        register_user(&mut users, 6, s("alice"), s("other")),
        refusal("Username already exists")
    );
    assert_eq!(register_user(&mut users, 7, s("bob"), s("hunter2")).success, true);
    assert_eq!(get_user_count(&users), 2);
    assert_eq!(get_all_users(&users), vec!["alice", "bob"]);
    assert_eq!(get_user_info(&users, &s("alice")), Some((s("alice"), 5)));
    assert_eq!(get_user_info(&users, &s("carol")), None);
    assert_eq!(users.get(&s("alice")).unwrap().password_hash, "382");

    assert_eq!(
        login(&users, s("alice"), s("secret")),
        LoginResult { success: true, message: s("Login successful"), username: Some(s("alice")) }
    );
    assert_eq!(login(&users, s("alice"), s("wrong")), refusal("Invalid password"));
    assert_eq!(login(&users, s("carol"), s("secret")), refusal("User not found"));
    assert_eq!(
        login(&users, s(""), s("secret")),
        refusal("Username and password cannot be empty")
    );
    assert_eq!(
        login(&users, s("alice"), s("")),
        refusal("Username and password cannot be empty")
    );
}

fn config(endpoint: Option<&str>) -> S3Config {
    S3Config {
        bucket_name: s("art"),
        region: s("eu-west-1"),
        access_key_id: s("id"),
        secret_access_key: s("key"),
        endpoint: endpoint.map(s),
    }
}

fn file() -> UploadFileData {
    UploadFileData { filename: s("a/b.jpg"), content_type: s("image/jpeg"), file_size: 9 }
}

#[test]
fn upload_addresses() {
    let mut slot: Option<S3Config> = None;
    assert!(!get_s3_config_status(&slot));
    assert_eq!(get_s3_config(&slot), None);
    assert_eq!(generate_upload_url(&slot, &s("sess"), &file()), Err(NotConfigured));

    assert!(configure_s3(&mut slot, config(None)));
    assert!(get_s3_config_status(&slot));
    assert_eq!(get_s3_config(&slot), Some(config(None)));
    assert_eq!(
        generate_upload_url(&slot, &s("sess"), &file()),
        Ok(s("https://art.s3.eu-west-1.amazonaws.com/a/b.jpg"))
    );

    assert!(set_s3_config(&mut slot, config(Some("http://localhost:9000//"))));
    assert_eq!(
        generate_upload_url(&slot, &s("sess"), &file()),
        Ok(s("http://localhost:9000/art/a/b.jpg"))
    );
    assert!(set_s3_config(&mut slot, config(Some("http://minio"))));
    assert_eq!(
        generate_upload_url(&slot, &s("other"), &file()),
        Ok(s("http://minio/art/a/b.jpg"))
    );
    assert!(set_s3_config(&mut slot, config(Some("///"))));
    assert_eq!(generate_upload_url(&slot, &s("sess"), &file()), Ok(s("/art/a/b.jpg")));
}

#[test]
fn trailing_slashes() {
    assert_eq!(trim_trailing_slashes(""), "");
    assert_eq!(trim_trailing_slashes("/"), "");
    assert_eq!(trim_trailing_slashes("a/b"), "a/b");
    assert_eq!(trim_trailing_slashes("a/b//"), "a/b");
    assert_eq!(trim_trailing_slashes("é/中/"), "é/中");
}

#[test]
fn dashboard_counts() {
    let mut users: UserStore = Registry::new();
    let mut sessions: SessionStore = Registry::new();
    let ledger = Registry::new();
    register_user(&mut users, 1, s("alice"), s("pw"));
    register_user(&mut users, 1, s("bob"), s("pw"));
    create_physical_art_session(&mut sessions, 1, s("alice"), s("A"), s("d")).unwrap();
    assert_eq!(
        get_dashboard_metrics(&users, &sessions, &ledger),
        DashboardMetrics { total_users: 2, total_sessions: 1, total_certificates: 0 }
    );
}

#[test]
fn decimal_numbers() {
    assert_eq!(parse_u64(""), None);
    assert_eq!(parse_u64("0"), Some(0));
    assert_eq!(parse_u64("007"), Some(7));
    assert_eq!(parse_u64("1700000000000000000"), Some(1_700_000_000_000_000_000));
    assert_eq!(parse_u64("18446744073709551615"), Some(u64::MAX));
    assert_eq!(parse_u64("18446744073709551616"), None);
    assert_eq!(parse_u64("99999999999999999999999"), None);
    assert_eq!(parse_u64("184467440737095516150"), None);
    assert_eq!(parse_u64("1a"), None);
    assert_eq!(parse_u64("99999999999999999999999x"), None);
    assert_eq!(parse_u64("+1"), None);
    assert_eq!(parse_u64("-1"), None);
    assert_eq!(parse_u64(" 1"), None);
}

#[test]
fn session_status_words() {
    for (status, word) in [
        (SessionStatus::Draft, "draft"),
        (SessionStatus::Uploading, "uploading"),
        (SessionStatus::Active, "active"),
        (SessionStatus::Closed, "closed"),
    ] {
        assert_eq!(status.label(), word);
        assert_eq!(SessionStatus::from_label(&s(word)), Some(status));
    }
    assert_eq!(SessionStatus::from_label(&s("Active")), None);
    assert_eq!(SessionStatus::from_label(&s("")), None);
    assert_eq!(SessionStatus::from_label(&s("done")), None);
}
