//! Settings of the HTTP client that talks to the server.
use vstd::prelude::*;

use crate::text::{owned, push_str};

verus! {

/// The HTTP client of the command line.
pub struct Client;

/// How the HTTP client is set up: its user agent, the headers sent with
/// every request, and whether it follows redirects.
pub struct ClientSettings {
    pub user_agent: String,
    pub headers: Vec<(String, String)>,
    pub follow_redirects: bool,
}

/// The user agent of the command line: its name and version.
pub open spec fn user_agent() -> Seq<char> {
    "pmis/"@ + crate::VERSION@
}

impl Client {
    /// The client settings: JSON in both directions, and redirects followed
    /// only when `redirect` is set.
    pub fn base(redirect: bool) -> (s: ClientSettings)
        ensures
            s.user_agent@ == user_agent(),
            s.headers@.len() == 2,
            s.headers@[0].0@ == "content-type"@,
            s.headers@[0].1@ == "application/json"@,
            s.headers@[1].0@ == "accept"@,
            s.headers@[1].1@ == "application/json"@,
            s.follow_redirects == redirect,
    {
        proof {
            reveal_strlit("pmis/");
            reveal_strlit("content-type");
            reveal_strlit("accept");
            reveal_strlit("application/json");
        }
        let mut agent = owned("pmis/");
        push_str(&mut agent, crate::VERSION);
        let mut headers: Vec<(String, String)> = Vec::new();
        headers.push((owned("content-type"), owned("application/json")));
        headers.push((owned("accept"), owned("application/json")));
        ClientSettings { user_agent: agent, headers, follow_redirects: redirect }
    }
}

} // verus!
