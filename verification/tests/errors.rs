use paste_misterio_me::error::{
    DatabaseError, DatabaseServerError, ErrorSource, FlashKind, ServerError,
};
use paste_misterio_me::status::Status;

fn src(display: &str, debug: &str) -> ErrorSource {
    ErrorSource::new(display.to_string(), debug.to_string())
}

#[test]
fn status_reasons_and_lines() {
    assert_eq!(Status::not_found().reason(), "Not Found");
    assert_eq!(Status::new(599).reason(), "Server Error");
    assert_eq!(Status::conflict().line(), "409 Conflict");
    assert_eq!(Status::new(200).line(), "200 OK");
    assert!(!Status::new(699).reason().is_empty());
}

#[test]
fn builder_starts_from_default() {
    let e = ServerError::builder().build();
    assert_eq!(e.code().code, 500);
    assert_eq!(e.message(), None);
    assert!(e.source().is_none());
    let d = ServerError::default();
    assert_eq!(d.code().code, 500);
}

#[test]
fn builder_sets_each_part() {
    let e = ServerError::builder()
        .code(Status::forbidden())
        .message("first")
        .message("second")
        .source(src("boom", "Boom"))
        .build();
    assert_eq!(e.code().code, 403);
    assert_eq!(e.message(), Some("second"));
    assert_eq!(e.source().unwrap().display, "boom");
    let again = e.edit().code(Status::not_found()).build();
    assert_eq!(again.code().code, 404);
    assert_eq!(again.message(), Some("second"));
}

#[test]
fn error_text_lists_reason_message_and_cause() {
    let e = ServerError::builder().code(Status::not_found()).message("Paste not found").build();
    assert_eq!(e.describe(), "Not Found (Paste not found)");
    let e = ServerError::builder().source(src("disk full", "Io")).build();
    assert_eq!(e.describe(), "Internal Server Error: disk full");
    let e = ServerError::builder().build();
    assert_eq!(e.describe(), "Internal Server Error");
}

#[test]
fn flash_uses_message_or_a_default() {
    let e = ServerError::builder().message("Nope").build();
    let f = e.flash_redirect("/login");
    assert_eq!(f.url, "/login");
    assert_eq!(f.message, "Nope");
    assert_eq!(f.kind, FlashKind::Error);
    let f = ServerError::builder().build().flash_redirect("/");
    assert_eq!(f.message, "Unknown Error.");
}

#[test]
fn json_body_flattens_quotes() {
    let e = ServerError::builder()
        .code(Status::conflict())
        .message("This username is already in use")
        .source(src("db", r#"DbError { message: "duplicate key \'users_pkey\'" }"#))
        .build();
    let b = e.body();
    assert_eq!(b.code, "409 Conflict");
    assert_eq!(b.description.as_deref(), Some("This username is already in use"));
    assert_eq!(b.reason.as_deref(), Some("DbError { message: 'duplicate key 'users_pkey'' }"));
    let b = ServerError::builder().build().body();
    assert_eq!(b.reason, None);
    assert_eq!(b.description, None);
}

#[test]
fn option_and_status_conversions() {
    let e = ServerError::from_option(None);
    assert_eq!(e.code().code, 500);
    let inner = ServerError::builder().message("x").build();
    let e = ServerError::from_option(Some(inner));
    assert_eq!(e.message(), Some("x"));
    let e = ServerError::from_status(Status::unauthorized(), e);
    assert_eq!(e.code().code, 401);
    assert_eq!(e.message(), Some("x"));
    let (s, e) = e.into_status_pair();
    assert_eq!(s.code, 401);
    assert_eq!(e.code().code, 401);
}

#[test]
fn startup_and_hashing_failures() {
    let e = ServerError::from_pool_error(src("pool", "Pool"));
    assert_eq!((e.code().code, e.message()), (503, Some("Couldn't start database connection pool")));
    let e = ServerError::from_launch_error(src("bind", "Bind"));
    assert_eq!((e.code().code, e.message()), (503, Some("Couldn't start up server")));
    let e = ServerError::from_hash_error(src("salt", "Salt"));
    assert_eq!((e.code().code, e.message()), (500, Some("Hashing error")));
}

fn db(constraint: Option<&str>, text: &str) -> DatabaseError {
    DatabaseError {
        server_error: Some(DatabaseServerError {
            constraint: constraint.map(|c| c.to_string()),
            text: text.to_string(),
        }),
        source: src("db error: duplicate", "DbError"),
    }
}

#[test]
fn database_failures_are_explained() {
    let e = ServerError::from_database_error(db(Some("users_pkey"), "dup"));
    assert_eq!((e.code().code, e.message()), (409, Some("This username is already in use")));
    let e = ServerError::from_database_error(db(Some("users_email_un"), "dup"));
    assert_eq!((e.code().code, e.message()), (409, Some("This email is already in use")));
    let e = ServerError::from_database_error(db(Some("pastes_pkey"), "duplicate paste"));
    assert_eq!((e.code().code, e.message()), (500, Some("duplicate paste")));
    let e = ServerError::from_database_error(db(None, "syntax error"));
    assert_eq!((e.code().code, e.message()), (500, Some("syntax error")));
    let e = ServerError::from_database_error(DatabaseError {
        server_error: None,
        source: src("connection closed", "Closed"),
    });
    assert_eq!((e.code().code, e.message()), (500, Some("connection closed")));
    assert_eq!(e.source().unwrap().debug, "Closed");
}

#[test]
fn canonical_reasons_of_the_codes_in_use() {
    assert_eq!(Status::unauthorized().line(), "401 Unauthorized");
    assert_eq!(Status::forbidden().line(), "403 Forbidden");
    assert_eq!(Status::not_found().line(), "404 Not Found");
    assert_eq!(Status::internal_server_error().line(), "500 Internal Server Error");
    assert_eq!(Status::service_unavailable().line(), "503 Service Unavailable");
    assert_eq!(Status::new(201).reason(), "Created");
    assert_eq!(Status::new(303).reason(), "See Other");
    assert_eq!(Status::new(400).reason(), "Bad Request");
}
