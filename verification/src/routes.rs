//! What the pages and the JSON routes decide: where to redirect, which
//! message to flash, which error to answer, and what to list.
use vstd::prelude::*;

use crate::error::{ErrorView, FlashKind, FlashRedirect, ServerError};
use crate::ids::{uuid_text, uuid_to_text};
use crate::schema::paste::{newest_first, shown_to};
use crate::schema::session::Session;
use crate::schema::{Deletion, Paste, deletes, str_view};
use crate::status::Status;
use crate::text::{owned, push_str};

verus! {

/// A redirect to `url` flashing a success message.
pub open spec fn is_success_flash(f: FlashRedirect, url: Seq<char>, message: Seq<char>) -> bool {
    f.url@ == url && f.kind == FlashKind::Success && f.message@ == message
}

fn success_flash(url: &str, message: &str) -> (f: FlashRedirect)
    ensures
        is_success_flash(f, url@, message@),
{
    FlashRedirect { url: owned(url), kind: FlashKind::Success, message: owned(message) }
}

/// `prefix` followed by `name` and `suffix`.
fn path_of(prefix: &str, name: &str, suffix: &str) -> (p: String)
    ensures
        p@ == prefix@ + name@ + suffix@,
{
    let mut p = owned(prefix);
    push_str(&mut p, name);
    push_str(&mut p, suffix);
    p
}

/// Where the unversioned stylesheet redirects: the stylesheet of this
/// version.
pub fn style_redirect() -> (url: String)
    ensures
        url@ == "/assets/"@ + crate::VERSION@ + "/style.css"@,
{
    proof {
        reveal_strlit("/assets/");
        reveal_strlit("/style.css");
    }
    path_of("/assets/", crate::VERSION, "/style.css")
}

/// Answer to a request that needs a login: back to the login page, which
/// returns to `uri` afterwards, flashing "Please login first".
pub fn unauthorized(uri: &str) -> (f: FlashRedirect)
    ensures
        f.url@ == "/login?redir="@ + uri@,
        f.kind == FlashKind::Error,
        f.message@ == "Please login first"@,
{
    proof {
        reveal_strlit("/login?redir=");
        reveal_strlit("");
        reveal_strlit("Please login first");
    }
    let url = path_of("/login?redir=", uri, "");
    assert(url@ == "/login?redir="@ + uri@);
    ServerError::builder().code(Status::unauthorized()).message("Please login first").build().flash_redirect(
        url.as_str(),
    )
}

/// Answer to an unknown page: 404 "Page not found".
pub fn not_found() -> (e: ServerError)
    ensures
        e@ == (ErrorView { code: 404, source: None, message: Some("Page not found"@) }),
{
    proof {
        reveal_strlit("Page not found");
    }
    ServerError::builder().code(Status::not_found()).message("Page not found").build()
}

/// Answer when the service is down: 503 "Temporarily unavailable".
pub fn service_unavailable() -> (e: ServerError)
    ensures
        e@ == (ErrorView { code: 503, source: None, message: Some("Temporarily unavailable"@) }),
{
    proof {
        reveal_strlit("Temporarily unavailable");
    }
    ServerError::builder().code(Status::service_unavailable()).message(
        "Temporarily unavailable",
    ).build()
}

/// Answer to any other failed request: its status, with "Unexpected error
/// ocurred".
pub fn unknown_error(status: Status) -> (e: ServerError)
    ensures
        e@ == (ErrorView {
            code: status.code,
            source: None,
            message: Some("Unexpected error ocurred"@),
        }),
{
    proof {
        reveal_strlit("Unexpected error ocurred");
    }
    ServerError::builder().code(status).message("Unexpected error ocurred").build()
}

/// The page to go back to: the one asked for, else the home page.
pub open spec fn redirect_target(redir: Option<Seq<char>>) -> Seq<char> {
    match redir {
        Some(r) => r,
        None => "/"@,
    }
}

/// Where a login or registration page sends someone already logged in:
/// to `redirect_target(redir)`, flashing "You're already logged in".
pub fn already_logged_in(redir: Option<&str>) -> (f: FlashRedirect)
    ensures
        f.url@ == redirect_target(str_view(redir)),
        f.kind == FlashKind::Error,
        f.message@ == "You're already logged in"@,
{
    proof {
        reveal_strlit("You're already logged in");
        reveal_strlit("/");
    }
    let target = match redir {
        Some(r) => r,
        None => "/",
    };
    ServerError::builder().message("You're already logged in").build().flash_redirect(target)
}

/// Where a successful login goes: the page asked for, else the home page.
pub fn after_login(redir: Option<String>) -> (url: String)
    ensures
        url@ == redirect_target(crate::schema::text_view(redir)),
{
    proof {
        reveal_strlit("/");
    }
    match redir {
        Some(r) => r,
        None => owned("/"),
    }
}

/// `base`, carrying `redir` along as a query parameter when there is one.
pub open spec fn keeping_redir(base: Seq<char>, redir: Option<Seq<char>>) -> Seq<char> {
    match redir {
        Some(r) => base + "?redir="@ + r,
        None => base,
    }
}

fn keep_redir(base: &str, redir: Option<&str>) -> (url: String)
    ensures
        url@ == keeping_redir(base@, str_view(redir)),
{
    proof {
        reveal_strlit("?redir=");
    }
    let mut url = owned(base);
    match redir {
        Some(r) => {
            push_str(&mut url, "?redir=");
            push_str(&mut url, r);
        },
        None => {},
    }
    url
}

/// Where a failed registration goes back to: the registration page, still
/// carrying `redir`.
pub fn register_retry(redir: Option<&str>) -> (url: String)
    ensures
        url@ == keeping_redir("/register"@, str_view(redir)),
{
    proof {
        reveal_strlit("/register");
    }
    keep_redir("/register", redir)
}

/// Where a completed registration goes: the login page, still carrying
/// `redir`, flashing "Registration complete. You can now login".
pub fn registered(redir: Option<&str>) -> (f: FlashRedirect)
    ensures
        is_success_flash(
            f,
            keeping_redir("/login"@, str_view(redir)),
            "Registration complete. You can now login"@,
        ),
{
    proof {
        reveal_strlit("/login");
        reveal_strlit("Registration complete. You can now login");
    }
    let url = keep_redir("/login", redir);
    success_flash(url.as_str(), "Registration complete. You can now login")
}

/// After revoking session `revoked` from session `current`: the login page
/// when a user revoked the session they are using, else the session list,
/// flashing "Session revoked".
pub fn session_revoked(revoked: u128, current: u128) -> (f: FlashRedirect)
    ensures
        is_success_flash(
            f,
            if revoked == current {
                "/login"@
            } else {
                "/sessions"@
            },
            "Session revoked"@,
        ),
{
    proof {
        reveal_strlit("/login");
        reveal_strlit("/sessions");
        reveal_strlit("Session revoked");
    }
    let target = if revoked == current {
        "/login"
    } else {
        "/sessions"
    };
    success_flash(target, "Session revoked")
}

/// What logging out revokes: every session of the user when asked, else the
/// current one only.
pub fn logout(session: &Session, all: bool) -> (d: Deletion)
    ensures
        forall|c: Seq<char>, id: u128| deletes(d, c, id) <==> (c == session.creator@ && (all || id
            == session.id)),
{
    if all {
        session.revoke_all()
    } else {
        session.revoke_self()
    }
}

/// After deleting a paste: the home page, flashing "Paste deleted".
pub fn paste_deleted() -> (f: FlashRedirect)
    ensures
        is_success_flash(f, "/"@, "Paste deleted"@),
{
    proof {
        reveal_strlit("/");
        reveal_strlit("Paste deleted");
    }
    success_flash("/", "Paste deleted")
}

/// After revoking an API key: the key list, flashing "Key revoked".
pub fn key_revoked() -> (f: FlashRedirect)
    ensures
        is_success_flash(f, "/keys"@, "Key revoked"@),
{
    proof {
        reveal_strlit("/keys");
        reveal_strlit("Key revoked");
    }
    success_flash("/keys", "Key revoked")
}

/// After creating an API key: the key list, flashing "Key created".
pub fn key_created() -> (f: FlashRedirect)
    ensures
        is_success_flash(f, "/keys"@, "Key created"@),
{
    proof {
        reveal_strlit("/keys");
        reveal_strlit("Key created");
    }
    success_flash("/keys", "Key created")
}

/// The page of a paste: `/p/{id}`. A refused deletion goes back there.
pub fn paste_page(id: u128) -> (url: String)
    ensures
        url@ == "/p/"@ + uuid_text(id),
{
    proof {
        reveal_strlit("/p/");
        reveal_strlit("");
    }
    let t = uuid_to_text(id);
    let url = path_of("/p/", t.as_str(), "");
    assert(url@ == "/p/"@ + uuid_text(id));
    url
}

/// The page of a user: `/u/{name}`.
pub fn user_page(name: &str) -> (url: String)
    ensures
        url@ == "/u/"@ + name@,
{
    proof {
        reveal_strlit("/u/");
        reveal_strlit("");
    }
    let url = path_of("/u/", name, "");
    assert(url@ == "/u/"@ + name@);
    url
}

/// The pastes page of a user: `/u/{name}/pastes`.
pub fn user_pastes_page(name: &str) -> (url: String)
    ensures
        url@ == "/u/"@ + name@ + "/pastes"@,
{
    proof {
        reveal_strlit("/u/");
        reveal_strlit("/pastes");
    }
    path_of("/u/", name, "/pastes")
}

/// A user's pastes as `requester` sees them, newest first: the listed ones,
/// plus the unlisted ones when the requester is their creator.
pub fn user_pastes(listed: Vec<Paste>, requester: Option<&str>) -> (shown: Vec<Paste>)
    ensures
        newest_first(shown@),
        shown@.to_multiset() == shown_to(listed@, str_view(requester)).to_multiset(),
{
    let visible = Paste::show_all(listed, requester);
    Paste::newest_first(visible)
}

} // verus!
