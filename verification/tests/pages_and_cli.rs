use paste_misterio_me::cli::operations::{
    auth_prompt, delete_check, delete_report, download_check, download_output, input_source,
    join_url, list_check, list_path_of, list_report, paste_path_of, upload_check, upload_report,
    upload_title, CliError, DownloadOutput, Input,
};
use paste_misterio_me::cli::{Client, Session as CliSession};
use paste_misterio_me::error::FlashKind;
use paste_misterio_me::routes;
use paste_misterio_me::schema::session::IpAddress;
use paste_misterio_me::schema::{Paste, Session};
use paste_misterio_me::status::Status;
use paste_misterio_me::style::{Asset, StyleSheet};
use paste_misterio_me::time::{parse_datetime, timestamp_filter, humanize_filter, FilterError, TemplateValue, Timestamp};
use paste_misterio_me::Created;

const ID: u128 = 0x67e5504410b1426f9247bb680e5fe0c8;
const ID_TEXT: &str = "67e55044-10b1-426f-9247-bb680e5fe0c8";

fn paste(title: Option<&str>, unlisted: bool) -> Paste {
    Paste {
        id: ID,
        creator: "ana".into(),
        creation: Timestamp { seconds: 0, nanos: 0 },
        content: "line\r\nnext\r\n".into(),
        unlisted,
        title: title.map(|t| t.to_string()),
        description: None,
    }
}

#[test]
fn stylesheet_and_asset_headers() {
    let s = StyleSheet::new("body{}", 86400);
    assert_eq!(s.content(), "body{}");
    assert_eq!(s.cache_control(), "max-age=86400");
    let a = Asset::new("js", -1, "text/javascript".into());
    assert_eq!(a.cache_control(), "max-age=-1");
    assert_eq!(a.content_type(), "text/javascript");
    assert_eq!(a.content(), "js");
    let c = Created::new(5, "/p/x");
    assert_eq!((c.inner, c.location.as_str()), (5, "/p/x"));
}

#[test]
fn error_pages() {
    let f = routes::unauthorized("/keys");
    assert_eq!((f.url.as_str(), f.message.as_str(), f.kind), ("/login?redir=/keys", "Please login first", FlashKind::Error));
    let e = routes::not_found();
    assert_eq!((e.code().code, e.message()), (404, Some("Page not found")));
    let e = routes::service_unavailable();
    assert_eq!((e.code().code, e.message()), (503, Some("Temporarily unavailable")));
    let e = routes::unknown_error(Status::new(418));
    assert_eq!((e.code().code, e.message()), (418, Some("Unexpected error ocurred")));
}

#[test]
fn login_and_registration_redirects() {
    let f = routes::already_logged_in(None);
    assert_eq!((f.url.as_str(), f.message.as_str()), ("/", "You're already logged in"));
    let f = routes::already_logged_in(Some("/keys"));
    assert_eq!(f.url, "/keys");
    assert_eq!(routes::after_login(None), "/");
    assert_eq!(routes::after_login(Some("/u".into())), "/u");
    assert_eq!(routes::register_retry(Some("/keys")), "/register?redir=/keys");
    assert_eq!(routes::register_retry(None), "/register");
    let f = routes::registered(Some("/keys"));
    assert_eq!((f.url.as_str(), f.kind), ("/login?redir=/keys", FlashKind::Success));
    assert_eq!(f.message, "Registration complete. You can now login");
    assert_eq!(routes::registered(None).url, "/login");
}

#[test]
fn session_and_key_pages() {
    assert_eq!(routes::session_revoked(3, 3).url, "/login");
    assert_eq!(routes::session_revoked(3, 4).url, "/sessions");
    assert_eq!(routes::session_revoked(3, 4).message, "Session revoked");
    assert_eq!(routes::key_revoked().message, "Key revoked");
    assert_eq!(routes::key_created().url, "/keys");
    assert_eq!(routes::paste_deleted().message, "Paste deleted");
    let s = Session::create("ana", IpAddress::V4(1));
    assert_eq!(routes::logout(&s, true).id, None);
    assert_eq!(routes::logout(&s, false).id, Some(s.id));
}

#[test]
fn page_paths() {
    assert_eq!(routes::style_redirect(), format!("/assets/{}/style.css", paste_misterio_me::VERSION));
    assert_eq!(routes::paste_page(ID), format!("/p/{}", ID_TEXT));
    assert_eq!(routes::user_page("ana"), "/u/ana");
    assert_eq!(routes::user_pastes_page("ana"), "/u/ana/pastes");
}

#[test]
fn user_pastes_newest_first_and_visible() {
    let mk = |id: u128, s: i64, unlisted: bool| Paste { id, creation: Timestamp { seconds: s, nanos: 0 }, unlisted, ..paste(None, false) };
    let listed = || vec![mk(1, 1, false), mk(2, 3, true), mk(3, 2, false)];
    let ids = |v: Vec<Paste>| v.iter().map(|p| p.id).collect::<Vec<_>>();
    assert_eq!(ids(routes::user_pastes(listed(), Some("ana"))), vec![2, 3, 1]);
    assert_eq!(ids(routes::user_pastes(listed(), None)), vec![3, 1]);
}

#[test]
fn template_filters() {
    let t = TemplateValue::Text("2022-05-01T12:00:00Z".into());
    assert_eq!(timestamp_filter(&t), Ok(1651406400));
    assert_eq!(timestamp_filter(&TemplateValue::Other), Err(FilterError::NotAString));
    assert_eq!(timestamp_filter(&TemplateValue::Text("yesterday".into())), Err(FilterError::BadDatetime));
    assert_eq!(FilterError::NotAString.message(), "Not a string.");
    assert_eq!(FilterError::BadDatetime.message(), "Couldn't parse datetime string.");
    assert!(humanize_filter(&t).unwrap().contains("ago"));
    assert_eq!(humanize_filter(&TemplateValue::Other), Err(FilterError::NotAString));
    assert_eq!(parse_datetime("2022-05-01T12:00:00.5Z"), Some(Timestamp { seconds: 1651406400, nanos: 500_000_000 }));
}

#[test]
fn client_settings() {
    let s = Client::base(true);
    assert!(s.follow_redirects);
    assert_eq!(s.user_agent, format!("pmis/{}", paste_misterio_me::VERSION));
    assert_eq!(s.headers, vec![("content-type".to_string(), "application/json".to_string()), ("accept".to_string(), "application/json".to_string())]);
    assert!(!Client::base(false).follow_redirects);
}

#[test]
fn saved_key_is_trimmed() {
    assert_eq!(CliSession::load("  abc123\n").key(), "abc123");
    assert_eq!(CliSession::load("").key(), "");
}

#[test]
fn response_statuses() {
    let msg = |r: Result<(), CliError>| match r {
        Err(CliError::Message(m)) => m,
        Err(CliError::Status(c)) => format!("status {}", c),
        Ok(()) => "ok".to_string(),
    };
    assert_eq!(msg(delete_check(404)), "The requested paste does not exist");
    assert_eq!(msg(delete_check(403)), "You can only delete your own pastes");
    assert_eq!(msg(delete_check(401)), "Your API key is invalid or has been revoked. Try `pmis auth`");
    assert_eq!(msg(delete_check(500)), "status 500");
    assert_eq!(msg(delete_check(200)), "ok");
    assert_eq!(msg(download_check(404)), "The requested paste does not exist");
    assert_eq!(msg(download_check(302)), "ok");
    assert_eq!(msg(download_check(400)), "status 400");
    assert!(msg(list_check(401)).starts_with("You must either specify which user to show"));
    assert_eq!(msg(list_check(599)), "status 599");
    assert_eq!(msg(upload_check(401)), "Your API key is invalid or has been revoked. Try `pmis auth`");
    assert_eq!(msg(upload_check(201)), "ok");
}

#[test]
fn paths_and_urls() {
    assert_eq!(paste_path_of(ID), format!("/p/{}", ID_TEXT));
    assert_eq!(list_path_of(Some("ana")), "/u/ana/pastes");
    assert_eq!(list_path_of(None), "/u//pastes");
    assert_eq!(join_url("https://paste.misterio.me", "/keys").as_deref(), Some("https://paste.misterio.me/keys"));
    assert_eq!(join_url("https://alice.com/a", "/p/x").as_deref(), Some("https://alice.com/p/x"));
    assert_eq!(join_url("not a url", "/p"), None);
    assert_eq!(auth_prompt("https://x/keys"), "Get a token from https://x/keys and paste it here:");
    assert_eq!(delete_report(ID), format!("Paste {} successfully deleted.", ID_TEXT));
}

#[test]
fn inputs_and_titles() {
    assert!(matches!(input_source(None), Input::Stdin));
    assert!(matches!(input_source(Some("-")), Input::Stdin));
    assert!(matches!(input_source(Some("a.rs")), Input::File(f) if f == "a.rs"));
    assert_eq!(upload_title(Some("T".into()), Some("dir/a.rs")).as_deref(), Some("T"));
    assert_eq!(upload_title(None, Some("dir/a.rs")).as_deref(), Some("a.rs"));
    assert_eq!(upload_title(None, Some("-")), None);
    assert_eq!(upload_title(None, None), None);
    assert_eq!(upload_title(None, Some("dir/..")), None);
}

#[test]
fn download_views() {
    match download_output(&paste(Some("x.rs"), true), false, true) {
        DownloadOutput::Pretty { name, header, content } => {
            assert_eq!(name, "x.rs");
            assert!(header.starts_with("x.rs // by u/ana, "));
            assert!(header.ends_with(" - Unlisted"));
            assert_eq!(content, "line\r\nnext\r\n");
        }
        DownloadOutput::Plain(_) => panic!("expected the framed view"),
    }
    match download_output(&paste(None, false), true, true) {
        DownloadOutput::Plain(t) => assert_eq!(t, "line\nnext\n"),
        DownloadOutput::Pretty { .. } => panic!("expected raw output"),
    }
    assert!(matches!(download_output(&paste(None, false), false, false), DownloadOutput::Plain(_)));
}

#[test]
fn listing_and_upload_reports() {
    assert_eq!(list_report(&vec![], false), vec!["No pastes found".to_string()]);
    assert_eq!(list_report(&vec![], true), Vec::<String>::new());
    assert_eq!(list_report(&vec![paste(None, false)], true), vec![ID_TEXT.to_string()]);
    let lines = list_report(&vec![paste(None, false)], false);
    assert_eq!(lines.len(), 1);
    assert!(lines[0].starts_with(&format!("{} - Untitled // ", ID_TEXT)));
    assert!(lines[0].ends_with(" - Public"));
    assert_eq!(upload_report("https://x/p/1", ID, false, true), vec!["Upload successful.".to_string(), format!("Your paste id is {}", ID_TEXT), "https://x/p/1".to_string()]);
    assert_eq!(upload_report("https://x/p/1", ID, true, true), vec!["https://x/p/1".to_string()]);
}

#[test]
fn invalid_syntax_dump_is_refused() {
    assert!(paste_misterio_me::syntax::SyntaxSet::new(b"not a syntax dump").is_none());
    assert!(paste_misterio_me::syntax::SyntaxSet::new(&[]).is_none());
}

#[test]
fn ages_are_words() {
    let lines = list_report(&vec![paste(None, false)], false);
    assert!(!lines[0].contains("//  - "));
    assert!(paste_misterio_me::time::humanize(Timestamp { seconds: 0, nanos: 0 }).unwrap().ends_with("ago"));
    assert!(paste_misterio_me::time::humanize(Timestamp { seconds: i64::MAX, nanos: 0 }).is_none());
}

#[test]
fn ages_are_humanized_phrases() {
    let humanize = paste_misterio_me::time::humanize;
    let t = paste_misterio_me::time::now();
    assert_eq!(humanize(t).unwrap(), "now");
    let ahead = Timestamp { seconds: t.seconds + 3 * 86400 + 3600, nanos: 0 };
    assert_eq!(humanize(ahead).unwrap(), "in 3 days");
    let before = Timestamp { seconds: t.seconds - 7200, nanos: 0 };
    assert_eq!(humanize(before).unwrap(), "2 hours ago");
    let t2 = TemplateValue::Text("2000-01-01T00:00:00Z".into());
    assert!(humanize_filter(&t2).unwrap().ends_with(" years ago"));
}
