//! API keys: random secrets a user creates to authenticate the command line.
use vstd::prelude::*;

use rand::Rng;

use super::session::Session;
use super::{Deletion, keep_non_empty, non_empty, text_view};
use crate::error::{ErrorView, ServerError};
use crate::ids::{is_random_uuid, new_uuid};
use crate::status::Status;
use crate::text::{last_word, last_word_of, owned};
use crate::time::{Timestamp, is_instant, now};

verus! {

/// An API key of a user.
pub struct ApiKey {
    pub id: u128,
    pub name: Option<String>,
    pub creator: String,
    pub creation: Timestamp,
    key: String,
}

/// The mathematical value of an `ApiKey`.
pub struct ApiKeyView {
    pub id: u128,
    pub name: Option<Seq<char>>,
    pub creator: Seq<char>,
    pub creation: Timestamp,
    pub secret: Seq<char>,
}

impl View for ApiKey {
    type V = ApiKeyView;

    closed spec fn view(&self) -> ApiKeyView {
        ApiKeyView {
            id: self.id,
            name: text_view(self.name),
            creator: self.creator@,
            creation: self.creation,
            secret: self.key@,
        }
    }
}

/// An ASCII letter or digit.
pub open spec fn is_alphanumeric(c: char) -> bool {
    ('A' <= c <= 'Z') || ('a' <= c <= 'z') || ('0' <= c <= '9')
}

/// The number of characters in an API key's secret.
pub const KEY_LENGTH: usize = 32;

/// `n` random ASCII letters and digits.
///
/// Calls `rand::thread_rng().sample_iter(&Alphanumeric).take(n)`; states
/// the length and the alphabet, which is all that does not depend on chance.
#[verifier::external_body]
fn random_key(n: usize) -> (k: String)
    ensures
        k@.len() == n,
        forall|i: int| 0 <= i < n ==> is_alphanumeric(#[trigger] k@[i]),
{
    rand::thread_rng().sample_iter(&rand::distributions::Alphanumeric).take(n).map(char::from).collect()
}

/// The error for a request without an API key.
pub open spec fn key_missing() -> ErrorView {
    ErrorView { code: 401, source: None, message: Some("You must supply an API Key"@) }
}

impl ApiKey {
    /// A key as the database holds it.
    pub fn from_stored(
        id: u128,
        name: Option<String>,
        creator: String,
        creation: Timestamp,
        key: String,
    ) -> (k: ApiKey)
        ensures
            k@ == (ApiKeyView {
                id,
                name: text_view(name),
                creator: creator@,
                creation,
                secret: key@,
            }),
    {
        ApiKey { id, name, creator, creation, key }
    }

    /// The secret, to be written to the database.
    pub fn stored_secret(&self) -> (k: &str)
        ensures
            k@ == self@.secret,
    {
        self.key.as_str()
    }

    /// A new key of the session's user, with a fresh id, the current time,
    /// the name unless it is empty, and a secret of 32 random letters and
    /// digits; the secret is also returned on its own.
    pub fn create(session: &Session, name: Option<String>) -> (r: (ApiKey, String))
        ensures
            r.0@.creator == session.creator@,
            r.0@.name == non_empty(name),
            r.1@ == r.0@.secret,
            is_random_uuid(r.0@.id),
            is_instant(r.0@.creation),
            r.1@.len() == 32,
            forall|i: int| 0 <= i < 32 ==> is_alphanumeric(#[trigger] r.1@[i]),
    {
        let generated = random_key(KEY_LENGTH);
        let key = ApiKey {
            id: new_uuid(),
            name: keep_non_empty(name),
            creator: owned(session.creator.as_str()),
            creation: now(),
            key: owned(generated.as_str()),
        };
        (key, generated)
    }

    /// The key the database returned for a secret, or the failure reported
    /// as 401 "API key expired, please generate another".
    pub fn authenticate(fetched: Result<ApiKey, ServerError>) -> (r: Result<ApiKey, ServerError>)
        ensures
            match fetched {
                Ok(k) => r matches Ok(x) && x@ == k@,
                Err(e) => r matches Err(x) && x@ == (ErrorView {
                    code: 401,
                    message: Some("API key expired, please generate another"@),
                    ..e@
                }),
            },
    {
        match fetched {
            Ok(k) => Ok(k),
            Err(e) => {
                proof {
                    reveal_strlit("API key expired, please generate another");
                }
                Err(
                    ServerError::builder_from(e).code(Status::unauthorized()).message(
                        "API key expired, please generate another",
                    ).build(),
                )
            },
        }
    }

    /// Revocation of the session user's key with `id`, or of all of them.
    pub fn revoke(session: &Session, id: Option<u128>) -> (d: Deletion)
        ensures
            d.creator@ == session.creator@,
            d.id == id,
    {
        Deletion { creator: owned(session.creator.as_str()), id }
    }

    /// The key a request's first `Authorization` header carries: its last
    /// whitespace-separated word (so both `Bearer KEY` and a bare `KEY`
    /// work); 401 "You must supply an API Key" when there is none.
    pub fn key_from_header(header: Option<&str>) -> (r: Result<String, ServerError>)
        ensures
            match header {
                Some(h) => match last_word(h@) {
                    Some(w) => r matches Ok(k) && k@ == w,
                    None => r matches Err(e) && e@ == key_missing(),
                },
                None => r matches Err(e) && e@ == key_missing(),
            },
    {
        let word = match header {
            Some(h) => last_word_of(h),
            None => None,
        };
        match word {
            Some(k) => Ok(k),
            None => {
                proof {
                    reveal_strlit("You must supply an API Key");
                }
                Err(
                    ServerError::builder().code(Status::unauthorized()).message(
                        "You must supply an API Key",
                    ).build(),
                )
            },
        }
    }
}

} // verus!
