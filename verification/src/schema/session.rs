//! Login sessions: creation, the session cookie, and revocation.
use vstd::prelude::*;

use super::{Deletion, deletes};
use crate::error::{ErrorView, ServerError};
use crate::ids::{is_random_uuid, new_uuid, parse_uuid, uuid_parse, uuid_text, uuid_to_text};
use crate::status::Status;
use crate::text::owned;
use crate::time::{Timestamp, is_instant, now};

verus! {

/// The address a session was opened from.
#[derive(Debug, Clone, Copy, PartialEq, Eq, Structural)]
pub enum IpAddress {
    V4(u32),
    V6(u128),
}

/// A login session of a user.
pub struct Session {
    pub id: u128,
    pub creator: String,
    pub source: IpAddress,
    pub creation: Timestamp,
}

impl Session {
    /// A new session of `username`, opened from `ip`, with a fresh id and
    /// the current time.
    pub fn create(username: &str, ip: IpAddress) -> (s: Session)
        ensures
            s.creator@ == username@,
            s.source == ip,
            is_random_uuid(s.id),
            is_instant(s.creation),
    {
        Session { id: new_uuid(), creator: owned(username), source: ip, creation: now() }
    }

    /// The session the database returned for an id, or the failure reported
    /// as 401 "Session expired, please login again".
    pub fn authenticate(fetched: Result<Session, ServerError>) -> (r: Result<Session, ServerError>)
        ensures
            match fetched {
                Ok(s) => r == Ok::<Session, ServerError>(s),
                Err(e) => r matches Err(x) && x@ == (ErrorView {
                    code: 401,
                    message: Some("Session expired, please login again"@),
                    ..e@
                }),
            },
    {
        match fetched {
            Ok(s) => Ok(s),
            Err(e) => {
                proof {
                    reveal_strlit("Session expired, please login again");
                }
                Err(
                    ServerError::builder_from(e).code(Status::unauthorized()).message(
                        "Session expired, please login again",
                    ).build(),
                )
            },
        }
    }

    /// Revocation of the creator's session with `id`, or of all of them.
    pub fn revoke(&self, id: Option<u128>) -> (d: Deletion)
        ensures
            d.creator@ == self.creator@,
            d.id == id,
    {
        Deletion { creator: owned(self.creator.as_str()), id }
    }

    /// Revocation of this session alone: it removes exactly this session.
    pub fn revoke_self(&self) -> (d: Deletion)
        ensures
            forall|c: Seq<char>, id: u128| deletes(d, c, id) <==> (c == self.creator@ && id
                == self.id),
    {
        self.revoke(Some(self.id))
    }

    /// Revocation of every session of this session's user, and of no other.
    pub fn revoke_all(&self) -> (d: Deletion)
        ensures
            forall|c: Seq<char>, id: u128| deletes(d, c, id) <==> c == self.creator@,
    {
        self.revoke(None)
    }

    /// The value of the session cookie: the session id as text.
    pub fn cookie_value(&self) -> (v: String)
        ensures
            v@ == uuid_text(self.id),
    {
        uuid_to_text(self.id)
    }

    /// The session id a request's session cookie names; 401 "You're not
    /// logged in" when there is no cookie or it holds no id. A cookie made by
    /// `cookie_value` names its session's id.
    pub fn id_from_cookie(value: Option<&str>) -> (r: Result<u128, ServerError>)
        ensures
            match value {
                Some(v) => match uuid_parse(v@) {
                    Some(id) => r == Ok::<u128, ServerError>(id),
                    None => r matches Err(e) && e@ == not_logged_in(),
                },
                None => r matches Err(e) && e@ == not_logged_in(),
            },
            forall|x: u128| (value matches Some(v) && v@ == uuid_text(x)) ==> r == Ok::<u128, ServerError>(
                x,
            ),
    {
        let parsed = match value {
            Some(v) => parse_uuid(v),
            None => None,
        };
        match parsed {
            Some(id) => Ok(id),
            None => {
                proof {
                    reveal_strlit("You're not logged in");
                }
                Err(
                    ServerError::builder().code(Status::unauthorized()).message(
                        "You're not logged in",
                    ).build(),
                )
            },
        }
    }
}

/// The error for a request without a valid session cookie.
pub open spec fn not_logged_in() -> ErrorView {
    ErrorView { code: 401, source: None, message: Some("You're not logged in"@) }
}

} // verus!
