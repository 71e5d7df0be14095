use paste_misterio_me::error::{ErrorSource, ServerError};
use paste_misterio_me::ids::uuid_to_text;
use paste_misterio_me::schema::session::IpAddress;
use paste_misterio_me::schema::{ApiKey, Paste, Session, User};
use paste_misterio_me::status::Status;
use paste_misterio_me::time::Timestamp;

fn paste(id: u128, creator: &str, seconds: i64, unlisted: bool) -> Paste {
    Paste {
        id,
        creator: creator.to_string(),
        creation: Timestamp { seconds, nanos: 0 },
        content: "x".to_string(),
        unlisted,
        title: None,
        description: None,
    }
}

fn lookup_failure() -> ServerError {
    ServerError::builder().source(ErrorSource::new("no rows".into(), "RowNotFound".into())).build()
}

#[test]
fn create_drops_empty_title_and_description() {
    let p = Paste::create("ana", "hello".into(), true, Some(String::new()), Some("d".into()));
    assert_eq!(p.creator, "ana");
    assert_eq!(p.content, "hello");
    assert!(p.unlisted);
    assert_eq!(p.title, None);
    assert_eq!(p.description.as_deref(), Some("d"));
    let q = Paste::create("ana", "hello".into(), false, Some("main.rs".into()), None);
    assert_eq!(q.title.as_deref(), Some("main.rs"));
    assert_ne!(p.id, q.id);
}

#[test]
fn missing_paste_is_not_found() {
    let e = Paste::get(Err(lookup_failure())).err().unwrap();
    assert_eq!(e.code().code, 404);
    assert_eq!(e.message(), Some("Paste not found"));
    assert_eq!(e.source().unwrap().display, "no rows");
    let p = Paste::get(Ok(paste(1, "ana", 0, false))).ok().unwrap();
    assert_eq!(p.id, 1);
}

#[test]
fn extension_follows_the_last_dot() {
    let mut p = paste(1, "ana", 0, false);
    assert_eq!(p.extension(), None);
    p.title = Some("archive.tar.gz".into());
    assert_eq!(p.extension().as_deref(), Some("gz"));
    p.title = Some("Makefile".into());
    assert_eq!(p.extension().as_deref(), Some("Makefile"));
    p.title = Some("notes.".into());
    assert_eq!(p.extension().as_deref(), Some(""));
}

#[test]
fn unlisted_pastes_are_shown_to_their_creator_only() {
    let listed = || vec![paste(1, "ana", 0, false), paste(2, "ana", 1, true), paste(3, "ana", 2, false)];
    let ids = |v: Vec<Paste>| v.iter().map(|p| p.id).collect::<Vec<_>>();
    assert_eq!(ids(Paste::show_all(listed(), Some("ana"))), vec![1, 2, 3]);
    assert_eq!(ids(Paste::show_all(listed(), Some("bob"))), vec![1, 3]);
    assert_eq!(ids(Paste::show_all(listed(), None)), vec![1, 3]);
}

#[test]
fn only_the_creator_removes_a_paste() {
    let p = paste(9, "ana", 0, false);
    let d = p.remove(Some(9), "ana").ok().unwrap();
    assert_eq!(d.creator, "ana");
    assert_eq!(d.id, Some(9));
    let e = p.remove(Some(9), "bob").err().unwrap();
    assert_eq!(e.code().code, 403);
    assert_eq!(e.message(), Some("This paste isn't yours"));
}

#[test]
fn pastes_are_sorted_newest_first() {
    let mut v = vec![paste(1, "a", 10, false), paste(2, "a", 30, false), paste(3, "a", 20, false)];
    v.push(Paste { creation: Timestamp { seconds: 30, nanos: 5 }, ..paste(4, "a", 0, false) });
    let sorted = Paste::newest_first(v);
    assert_eq!(sorted.iter().map(|p| p.id).collect::<Vec<_>>(), vec![4, 2, 3, 1]);
    assert!(Paste::newest_first(Vec::new()).is_empty());
}

#[test]
fn registered_password_logs_in() {
    let user = User::register("ana".into(), "ana@example.com".into(), "hunter2".into()).ok().unwrap();
    assert_eq!(user.username, "ana");
    assert_eq!(user.email, "ana@example.com");
    assert!(user.stored_hash().starts_with("$argon2"));
    let stored = User::from_stored(user.username.clone(), user.email.clone(), user.stored_hash().to_string());
    let ip = IpAddress::V4(0x7f000001);
    let s = User::login(Ok(stored), "ana", "hunter2", ip).ok().unwrap();
    assert_eq!(s.creator, "ana");
    assert_eq!(s.source, ip);
}

#[test]
fn wrong_password_and_unknown_user_are_refused() {
    let user = User::register("ana".into(), "a@b".into(), "right".into()).ok().unwrap();
    let e = User::login(Ok(user), "ana", "wrong", IpAddress::V6(1)).err().unwrap();
    assert_eq!(e.code().code, 401);
    assert_eq!(e.message(), Some("Invalid credentials"));
    let e = User::login(Err(lookup_failure()), "ana", "x", IpAddress::V6(1)).err().unwrap();
    assert_eq!(e.code().code, 401);
    assert_eq!(e.message(), Some("User not found"));
    let broken = User::from_stored("ana".into(), "a@b".into(), "not a hash".into());
    let e = User::login(Ok(broken), "ana", "x", IpAddress::V6(1)).err().unwrap();
    assert_eq!((e.code().code, e.message()), (500, Some("Hashing error")));
}

#[test]
fn session_revocations() {
    let s = Session::create("ana", IpAddress::V4(1));
    assert_eq!(s.creator, "ana");
    let one = s.revoke_self();
    assert_eq!((one.creator.as_str(), one.id), ("ana", Some(s.id)));
    let all = s.revoke_all();
    assert_eq!((all.creator.as_str(), all.id), ("ana", None));
    let other = s.revoke(Some(42));
    assert_eq!(other.id, Some(42));
}

#[test]
fn session_cookie_round_trip() {
    let s = Session::create("ana", IpAddress::V4(1));
    let value = s.cookie_value();
    assert_eq!(value, uuid_to_text(s.id));
    assert_eq!(Session::id_from_cookie(Some(&value)).ok(), Some(s.id));
    let e = Session::id_from_cookie(None).err().unwrap();
    assert_eq!((e.code().code, e.message()), (401, Some("You're not logged in")));
    let e = Session::id_from_cookie(Some("garbage")).err().unwrap();
    assert_eq!(e.code().code, 401);
}

#[test]
fn expired_session_and_key() {
    let e = Session::authenticate(Err(lookup_failure())).err().unwrap();
    assert_eq!((e.code().code, e.message()), (401, Some("Session expired, please login again")));
    let e = ApiKey::authenticate(Err(lookup_failure())).err().unwrap();
    assert_eq!((e.code().code, e.message()), (401, Some("API key expired, please generate another")));
}

#[test]
fn api_keys_are_random_words() {
    let s = Session::create("ana", IpAddress::V4(1));
    let (key, secret) = ApiKey::create(&s, Some(String::new()));
    assert_eq!(key.creator, "ana");
    assert_eq!(key.name, None);
    assert_eq!(secret.len(), 32);
    assert!(secret.chars().all(|c| c.is_ascii_alphanumeric()));
    assert_eq!(key.stored_secret(), secret);
    let header = format!("Bearer {}", secret);
    assert_eq!(ApiKey::key_from_header(Some(&header)).ok(), Some(secret.clone()));
    assert_eq!(ApiKey::key_from_header(Some(&secret)).ok(), Some(secret));
    let (named, _) = ApiKey::create(&s, Some("laptop".into()));
    assert_eq!(named.name.as_deref(), Some("laptop"));
}

#[test]
fn missing_api_key_is_refused() {
    for h in [None, Some(""), Some("   ")] {
        let e = ApiKey::key_from_header(h).err().unwrap();
        assert_eq!((e.code().code, e.message()), (401, Some("You must supply an API Key")));
    }
    let d = ApiKey::revoke(&Session::create("ana", IpAddress::V4(1)), None);
    assert_eq!((d.creator.as_str(), d.id), ("ana", None));
}

#[test]
fn unknown_statuses_keep_their_code() {
    let e = ServerError::from_status(Status::new(418), ServerError::builder().build());
    assert_eq!(e.code().line(), "418 I'm a teapot");
}

#[test]
fn created_items_have_random_ids_and_current_instants() {
    let p = Paste::create("ana", "hello".into(), false, None, None);
    let s = Session::create("ana", IpAddress::V4(1));
    let (k, _) = ApiKey::create(&s, None);
    for (id, creation) in [(p.id, p.creation), (s.id, s.creation), (k.id, k.creation)] {
        assert_eq!((id >> 76) & 0xf, 4);
        assert_eq!((id >> 62) & 0x3, 2);
        assert!(creation.nanos < 2_000_000_000);
        assert!(paste_misterio_me::time::humanize(creation).is_some());
    }
}

#[test]
fn revoked_session_leaves_the_others() {
    let s = Session::create("ana", IpAddress::V4(1));
    let rows = vec![("ana".to_string(), s.id), ("ana".to_string(), 7u128), ("bob".to_string(), 8u128)];
    let d = s.revoke_self();
    let left: Vec<(String, u128)> = rows
        .into_iter()
        .filter(|(c, id)| !(*c == d.creator && d.id.map_or(true, |x| x == *id)))
        .collect();
    assert_eq!(left, vec![("ana".to_string(), 7u128), ("bob".to_string(), 8u128)]);
    let e = Session::authenticate(Err(lookup_failure())).err().unwrap();
    assert_eq!(e.code().code, 401);
    assert_eq!(e.message(), Some("Session expired, please login again"));
}
