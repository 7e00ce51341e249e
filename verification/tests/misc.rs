use sealed_notes::errors::{
    not_found_message, CommonError, Fields, LogicFault, ServerError, StatusClass,
};
use sealed_notes::lifecycle::StoreAction;
use sealed_notes::note::QueryNote;
use sealed_notes::plain_note::{get_plain, lifetime_for, PlainNote, ReqPlainNote};
use sealed_notes::search::{list_notes, FilterParameterQuery, ReturnOption};
use sealed_notes::time::Timestamp;

fn plain_request(lifetime: Option<u64>) -> ReqPlainNote {
    ReqPlainNote {
        title: "t".to_string(),
        content: "c".to_string(),
        lifetime_in_secs: lifetime,
        is_encrypted: true,
    }
}

fn note(id: &str, discoverable: bool, sealed: bool, arrived_encrypted: bool) -> QueryNote {
    QueryNote {
        id: id.to_string(),
        title: Some(format!("title of {}", id)),
        content: b"x".to_vec(),
        discoverable,
        frontend_encryption: arrived_encrypted,
        backend_encryption: sealed,
        created_at: Timestamp::new(1, 0),
        expires_at: None,
        delete_after_read: None,
        allow_delete_with_passphrase: false,
    }
}

#[test]
fn timestamps_are_ordered_by_seconds_then_nanoseconds() {
    let a = Timestamp::new(5, 10);
    assert!(a.le(&a));
    assert!(!a.gt(&a));
    assert!(a.le(&Timestamp::new(5, 11)));
    assert!(a.gt(&Timestamp::new(5, 9)));
    assert!(a.le(&Timestamp::new(6, 0)));
    assert!(a.gt(&Timestamp::new(4, 999_999_999)));
}

#[test]
fn checked_add_secs_stops_at_the_end_of_the_clock() {
    let t = Timestamp::new(10, 3);
    assert_eq!(t.checked_add_secs(5), Some(Timestamp::new(15, 3)));
    assert_eq!(t.checked_add_secs(0), Some(t));
    assert_eq!(t.checked_add_secs(u64::MAX - 10), Some(Timestamp::new(u64::MAX, 3)));
    assert_eq!(t.checked_add_secs(u64::MAX - 9), None);
}

#[test]
fn errors_are_answered_by_class() {
    assert_eq!(ServerError::UserError(Vec::new()).class(), StatusClass::BadRequest);
    assert_eq!(ServerError::GeneralNoAccess.class(), StatusClass::Forbidden);
    assert_eq!(ServerError::Unauthorized.class(), StatusClass::Forbidden);
    assert_eq!(ServerError::InvalidCredentials.class(), StatusClass::NotFound);
    assert_eq!(ServerError::NotFound("x".to_string()).class(), StatusClass::NotFound);
    assert_eq!(ServerError::IdentifierTaken.class(), StatusClass::Conflict);
    assert_eq!(ServerError::BlameUpdate.class(), StatusClass::Unprocessable);
    assert_eq!(ServerError::DieselError.class(), StatusClass::Internal);
    assert_eq!(ServerError::EnvironmentError.class(), StatusClass::Internal);
    assert_eq!(ServerError::R2D2Error.class(), StatusClass::Internal);
    assert_eq!(ServerError::TinderCryptError.class(), StatusClass::Internal);
    assert_eq!(ServerError::JWTError.class(), StatusClass::Internal);
    assert_eq!(ServerError::Default.class(), StatusClass::Internal);
    assert_eq!(ServerError::OrphanedNote("x".to_string()).class(), StatusClass::Internal);
}

#[test]
fn wrong_passphrase_and_missing_note_are_answered_alike() {
    let wrong = ServerError::InvalidCredentials;
    let missing = ServerError::NotFound("abc123".to_string());
    assert_eq!(wrong.class(), missing.class());
    assert_eq!(wrong.message(), missing.message());
    assert_eq!(wrong.message(), None);
}

#[test]
fn error_messages_are_as_documented() {
    assert_eq!(ServerError::DieselError.message(), Some("Library Error: Diesel Error.".to_string()));
    assert_eq!(
        ServerError::EnvironmentError.message(),
        Some("Server Error: Use of an uninitialized environment variable.".to_string())
    );
    assert_eq!(ServerError::R2D2Error.message(), Some("Server Error: Pooling Error.".to_string()));
    assert_eq!(
        ServerError::TinderCryptError.message(),
        Some("Library Error: File Decryption Unsucessful".to_string())
    );
    assert_eq!(
        ServerError::JWTError.message(),
        Some("Library Error: JWT Library Malfunctioned".to_string())
    );
    assert_eq!(ServerError::GeneralNoAccess.message(), Some("Invalid token".to_string()));
    assert_eq!(ServerError::Default.message(), None);
    assert_eq!(ServerError::Unauthorized.message(), None);
    assert_eq!(ServerError::UserError(Vec::new()).message(), None);
    assert_eq!(
        ServerError::OrphanedNote("abc123".to_string()).message(),
        Some("Server Error: a note was left without an owner: abc123".to_string())
    );
    assert!(ServerError::BlameUpdate.message().unwrap().starts_with("Irregular form of data"));
    assert!(ServerError::IdentifierTaken.message().is_some());
}

#[test]
fn not_found_message_names_the_identifier() {
    assert_eq!(not_found_message("abc123"), "note id: abc123 was not found");
    assert_eq!(not_found_message(""), "note id:  was not found");
}

#[test]
fn field_faults_have_machine_readable_names() {
    assert_eq!(Fields::LifetimeInSecs(CommonError::TooLong).field_name(), "lifetime_in_secs");
    assert_eq!(Fields::Passphrase(CommonError::TooShort).field_name(), "passphrase");
    assert_eq!(Fields::LogicError(LogicFault::DiscoverableWhileEncrypted).field_name(), "discoverable");
    assert_eq!(Fields::LifetimeInSecs(CommonError::TooLong).fault(), Some(CommonError::TooLong));
    assert_eq!(Fields::Passphrase(CommonError::Empty).fault(), Some(CommonError::Empty));
    assert_eq!(Fields::LogicError(LogicFault::DiscoverableWhileEncrypted).fault(), None);
    assert_eq!(CommonError::TooShort.kind_name(), "too_short");
    assert_eq!(CommonError::TooLong.kind_name(), "too_long");
    assert_eq!(CommonError::Empty.kind_name(), "empty");
    assert_eq!(
        LogicFault::DiscoverableWhileEncrypted.message(),
        "Discoverability is not allowed if note is going to be encrypted"
    );
}

#[test]
fn plain_note_lifetime_defaults_to_45_minutes() {
    assert_eq!(lifetime_for(None), 2700);
    assert_eq!(lifetime_for(Some(0)), 2700);
    assert_eq!(lifetime_for(Some(1)), 1);
    assert_eq!(lifetime_for(Some(63_115_200)), 63_115_200);
    assert_eq!(lifetime_for(Some(63_115_201)), 2700);
    assert_eq!(lifetime_for(Some(u64::MAX)), 2700);
}

#[test]
fn plain_note_gets_a_uuid_and_an_expiry() {
    let now = Timestamp::new(1000, 5);
    let note = plain_request(Some(60)).to_insertable(now).unwrap();
    assert_eq!(note.created_at, now);
    assert_eq!(note.expired_at, Timestamp::new(1060, 5));
    assert_eq!(note.title, "t");
    assert_eq!(note.content, "c");
    assert!(note.is_encrypted);
    assert_eq!(note.id.len(), 36);
    let parsed = uuid::Uuid::parse_str(&note.id).unwrap();
    assert_eq!(parsed.get_version_num(), 4);
    assert_eq!(parsed.to_string(), note.id);
    for (i, c) in note.id.chars().enumerate() {
        if i == 8 || i == 13 || i == 18 || i == 23 {
            assert_eq!(c, '-');
        } else {
            assert!(c.is_ascii_digit() || ('a'..='f').contains(&c));
        }
    }
    assert_eq!(note.id.chars().nth(14), Some('4'));
    let other = plain_request(Some(60)).to_insertable(now).unwrap();
    assert_ne!(other.id, note.id);
}

#[test]
fn plain_note_beyond_the_clock_is_refused() {
    let late = Timestamp::new(u64::MAX - 100, 0);
    assert_eq!(
        plain_request(None).to_insertable(late),
        Err(ServerError::UserError(vec![Fields::LifetimeInSecs(CommonError::TooLong)]))
    );
    assert!(plain_request(Some(100)).to_insertable(late).is_ok());
}

#[test]
fn plain_note_is_not_found_once_expired() {
    let note = PlainNote {
        id: "id".to_string(),
        title: "t".to_string(),
        content: "c".to_string(),
        is_encrypted: false,
        created_at: Timestamp::new(1, 0),
        expired_at: Timestamp::new(100, 0),
    };
    let id = "id".to_string();
    assert_eq!(
        get_plain(Some(note.clone()), &id, Timestamp::new(99, 0)),
        (Ok(note.clone()), StoreAction::Nothing)
    );
    assert_eq!(
        get_plain(Some(note.clone()), &id, Timestamp::new(100, 0)),
        (Err(ServerError::NotFound("id".to_string())), StoreAction::Delete)
    );
    assert_eq!(
        get_plain(None, &id, Timestamp::new(100, 0)),
        (Err(ServerError::NotFound("id".to_string())), StoreAction::Nothing)
    );
}

#[test]
fn search_lists_five_from_the_start_by_default() {
    let query = FilterParameterQuery { title: "%a%".to_string(), offset: None, limit: None };
    assert_eq!(query.offset_or_default(), 0);
    assert_eq!(query.limit_or_default(), 5);
    let query = FilterParameterQuery { title: "%a%".to_string(), offset: Some(10), limit: Some(2) };
    assert_eq!(query.offset_or_default(), 10);
    assert_eq!(query.limit_or_default(), 2);
}

#[test]
fn search_never_lists_encrypted_or_hidden_notes() {
    let rows = vec![
        note("a", true, false, false),
        note("b", false, false, false),
        note("c", true, true, false),
        note("d", true, false, true),
        note("e", true, false, false),
    ];
    let listed = list_notes(&rows);
    let ids: Vec<&str> = listed.iter().map(|n| n.id.as_str()).collect();
    assert_eq!(ids, vec!["a", "e"]);
    assert_eq!(listed[0], rows[0].info());
    assert!(rows[0].is_listed());
    assert!(!rows[1].is_listed());
    assert!(!rows[2].is_listed());
    assert!(!rows[3].is_listed());
    assert_eq!(list_notes(&Vec::new()), Vec::new());
}

#[test]
fn content_alone_is_wanted_when_the_option_is_named() {
    assert!(!ReturnOption { secret_only: None }.content_only());
    assert!(ReturnOption { secret_only: Some(true) }.content_only());
    assert!(ReturnOption { secret_only: Some(false) }.content_only());
}

#[test]
fn classes_have_their_status_codes() {
    assert_eq!(StatusClass::BadRequest.code(), 400);
    assert_eq!(StatusClass::Forbidden.code(), 403);
    assert_eq!(StatusClass::NotFound.code(), 404);
    assert_eq!(StatusClass::Conflict.code(), 409);
    assert_eq!(StatusClass::Unprocessable.code(), 422);
    assert_eq!(StatusClass::Internal.code(), 500);
}
