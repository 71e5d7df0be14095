//! HTTP status codes that errors and responses carry.
use vstd::prelude::*;

use crate::text::{digits, push_str, u64_text};

verus! {

/// An HTTP status, by its code.
#[derive(Debug, Clone, Copy, PartialEq, Eq, Structural)]
pub struct Status {
    pub code: u16,
}

/// The reason phrase that Rocket gives a status code (`Status::reason_lossy`).
pub uninterp spec fn status_reason(code: u16) -> Seq<char>;

/// The canonical reason phrases of the codes this library works with.
pub open spec fn canonical_reason(code: u16) -> Option<Seq<char>> {
    if code == 200 {
        Some("OK"@)
    } else if code == 201 {
        Some("Created"@)
    } else if code == 303 {
        Some("See Other"@)
    } else if code == 400 {
        Some("Bad Request"@)
    } else if code == 401 {
        Some("Unauthorized"@)
    } else if code == 403 {
        Some("Forbidden"@)
    } else if code == 404 {
        Some("Not Found"@)
    } else if code == 409 {
        Some("Conflict"@)
    } else if code == 500 {
        Some("Internal Server Error"@)
    } else if code == 503 {
        Some("Service Unavailable"@)
    } else {
        None
    }
}

/// Rocket's reason phrase for a code.
///
/// Calls `rocket::http::Status::new(code).reason_lossy()`: the canonical
/// phrase of a known code, else the phrase of its class. The contract names
/// it `status_reason`, states that it is never empty, and gives the phrase
/// of the codes in `canonical_reason`, as Rocket's table of codes shows.
#[verifier::external_body]
fn reason_lossy(code: u16) -> (phrase: &'static str)
    ensures
        phrase@ == status_reason(code),
        phrase@.len() > 0,
        canonical_reason(code) matches Some(r) ==> phrase@ == r,
{
    rocket::http::Status::new(code).reason_lossy()
}

/// `"{code} {reason}"`, the way a status displays.
pub open spec fn status_line(code: u16) -> Seq<char> {
    digits(code as nat) + seq![' '] + status_reason(code)
}

impl Status {
    /// A status with the given code.
    pub fn new(code: u16) -> (s: Status)
        ensures
            s.code == code,
    {
        Status { code }
    }

    /// 401 Unauthorized.
    pub fn unauthorized() -> (s: Status)
        ensures
            s.code == 401,
    {
        Status { code: 401 }
    }

    /// 403 Forbidden.
    pub fn forbidden() -> (s: Status)
        ensures
            s.code == 403,
    {
        Status { code: 403 }
    }

    /// 404 Not Found.
    pub fn not_found() -> (s: Status)
        ensures
            s.code == 404,
    {
        Status { code: 404 }
    }

    /// 409 Conflict.
    pub fn conflict() -> (s: Status)
        ensures
            s.code == 409,
    {
        Status { code: 409 }
    }

    /// 500 Internal Server Error.
    pub fn internal_server_error() -> (s: Status)
        ensures
            s.code == 500,
    {
        Status { code: 500 }
    }

    /// 503 Service Unavailable.
    pub fn service_unavailable() -> (s: Status)
        ensures
            s.code == 503,
    {
        Status { code: 503 }
    }

    /// The reason phrase of this status.
    pub fn reason(&self) -> (phrase: &'static str)
        ensures
            phrase@ == status_reason(self.code),
            phrase@.len() > 0,
            canonical_reason(self.code) matches Some(r) ==> phrase@ == r,
    {
        reason_lossy(self.code)
    }

    /// The status as it displays: its code, a space and its reason phrase.
    pub fn line(&self) -> (text: String)
        ensures
            text@ == status_line(self.code),
            canonical_reason(self.code) matches Some(r) ==> text@ == digits(self.code as nat)
                + seq![' '] + r,
    {
        let mut text = u64_text(self.code as u64);
        proof {
            reveal_strlit(" ");
        }
        push_str(&mut text, " ");
        push_str(&mut text, self.reason());
        text
    }
}

} // verus!
