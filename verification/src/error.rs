//! The server's error: a status, an optional message for the user and an
//! optional underlying cause, built step by step and rendered as text, as a
//! JSON body or as a flash message on a redirect.
use vstd::prelude::*;

use crate::status::{Status, status_reason};
use crate::text::{digits, flatten_quotes, owned, push_str, quotes_flattened};

verus! {

/// What the server keeps of an underlying error: how it displays and how it
/// debug-prints.
pub struct ErrorSource {
    pub display: String,
    pub debug: String,
}

/// The mathematical value of a `ServerError`.
pub struct ErrorView {
    pub code: u16,
    pub source: Option<(Seq<char>, Seq<char>)>,
    pub message: Option<Seq<char>>,
}

/// An error as the server reports it.
pub struct ServerError {
    code: Status,
    source: Option<ErrorSource>,
    message: Option<String>,
}

/// A `ServerError` being edited.
pub struct ServerErrorBuilder {
    inner: ServerError,
}

/// The kind of a flash message.
#[derive(Debug, Clone, Copy, PartialEq, Eq, Structural)]
pub enum FlashKind {
    Success,
    Error,
}

/// A redirect that carries a one-time message to the next page.
pub struct FlashRedirect {
    pub url: String,
    pub kind: FlashKind,
    pub message: String,
}

/// The JSON body of an error response.
pub struct ErrorBody {
    pub code: String,
    pub description: Option<String>,
    pub reason: Option<String>,
}

/// What the database driver reports of a failed query.
pub struct DatabaseError {
    /// Present when the server itself rejected the statement: the violated
    /// constraint, if any, and the server's own text.
    pub server_error: Option<DatabaseServerError>,
    /// The failure as a whole.
    pub source: ErrorSource,
}

/// An error raised by the database server.
pub struct DatabaseServerError {
    pub constraint: Option<String>,
    pub text: String,
}

pub open spec fn source_view(s: Option<ErrorSource>) -> Option<(Seq<char>, Seq<char>)> {
    match s {
        Some(s) => Some((s.display@, s.debug@)),
        None => None,
    }
}

pub open spec fn message_view(m: Option<String>) -> Option<Seq<char>> {
    match m {
        Some(m) => Some(m@),
        None => None,
    }
}

impl View for ServerError {
    type V = ErrorView;

    closed spec fn view(&self) -> ErrorView {
        ErrorView {
            code: self.code.code,
            source: source_view(self.source),
            message: message_view(self.message),
        }
    }
}

impl View for ServerErrorBuilder {
    type V = ErrorView;

    closed spec fn view(&self) -> ErrorView {
        self.inner@
    }
}

/// The error a fresh builder starts from: 500, no cause, no message.
pub open spec fn default_error() -> ErrorView {
    ErrorView { code: 500, source: None, message: None }
}

/// `e` with its status replaced.
pub open spec fn with_code(e: ErrorView, code: u16) -> ErrorView {
    ErrorView { code, ..e }
}

/// `e` with its cause replaced.
pub open spec fn with_source(e: ErrorView, display: Seq<char>, debug: Seq<char>) -> ErrorView {
    ErrorView { source: Some((display, debug)), ..e }
}

/// `e` with its message replaced.
pub open spec fn with_message(e: ErrorView, message: Seq<char>) -> ErrorView {
    ErrorView { message: Some(message), ..e }
}

/// The text of an error: its reason phrase, then ` (message)` and `: cause`
/// where there are any.
pub open spec fn error_text(e: ErrorView) -> Seq<char> {
    status_reason(e.code) + match e.message {
        Some(m) => seq![' ', '('] + m + seq![')'],
        None => Seq::empty(),
    } + match e.source {
        Some(s) => seq![':', ' '] + s.0,
        None => Seq::empty(),
    }
}

/// The message a flash redirect shows for an error.
pub open spec fn flash_message(e: ErrorView) -> Seq<char> {
    match e.message {
        Some(m) => m,
        None => "Unknown Error."@,
    }
}

/// The message and status for a failed database statement: the two
/// uniqueness constraints on users get a message of their own, anything else
/// is reported as it comes.
pub open spec fn database_outcome(e: DatabaseError) -> (Seq<char>, u16) {
    match e.server_error {
        Some(d) => if message_view(d.constraint) == Some("users_pkey"@) {
            ("This username is already in use"@, 409)
        } else if message_view(d.constraint) == Some("users_email_un"@) {
            ("This email is already in use"@, 409)
        } else {
            (d.text@, 500)
        },
        None => (e.source.display@, 500),
    }
}

impl ErrorSource {
    /// A cause with the given display and debug texts.
    pub fn new(display: String, debug: String) -> (s: ErrorSource)
        ensures
            s.display == display,
            s.debug == debug,
    {
        ErrorSource { display, debug }
    }
}

impl Default for ServerError {
    /// 500, with no cause and no message.
    fn default() -> (e: ServerError)
        ensures
            e@ == default_error(),
    {
        ServerError { code: Status::internal_server_error(), source: None, message: None }
    }
}

impl ServerError {
    /// The status of the error.
    pub fn code(&self) -> (c: Status)
        ensures
            c.code == self@.code,
    {
        self.code
    }

    /// The message of the error, if it has one.
    pub fn message(&self) -> (m: Option<&str>)
        ensures
            match m {
                Some(t) => self@.message == Some(t@),
                None => self@.message is None,
            },
    {
        match &self.message {
            Some(m) => Some(m.as_str()),
            None => None,
        }
    }

    /// The underlying cause of the error, if it has one.
    pub fn source(&self) -> (s: Option<&ErrorSource>)
        ensures
            match s {
                Some(t) => self@.source == Some((t.display@, t.debug@)),
                None => self@.source is None,
            },
    {
        match &self.source {
            Some(s) => Some(s),
            None => None,
        }
    }

    /// A builder holding the default error.
    pub fn builder() -> (b: ServerErrorBuilder)
        ensures
            b@ == default_error(),
    {
        ServerError::default().edit()
    }

    /// A builder that starts from this error.
    pub fn edit(self) -> (b: ServerErrorBuilder)
        ensures
            b@ == self@,
    {
        ServerErrorBuilder { inner: self }
    }

    /// A builder that starts from the given error.
    pub fn builder_from(source: ServerError) -> (b: ServerErrorBuilder)
        ensures
            b@ == source@,
    {
        source.edit()
    }

    /// A redirect to `url` that flashes the error's message, or
    /// "Unknown Error." when it has none.
    pub fn flash_redirect(&self, url: &str) -> (f: FlashRedirect)
        ensures
            f.url@ == url@,
            f.kind == FlashKind::Error,
            f.message@ == flash_message(self@),
    {
        let message = match &self.message {
            Some(m) => owned(m.as_str()),
            None => {
                proof {
                    reveal_strlit("Unknown Error.");
                }
                owned("Unknown Error.")
            },
        };
        FlashRedirect { url: owned(url), kind: FlashKind::Error, message }
    }

    /// The error as text, the way it displays.
    pub fn describe(&self) -> (text: String)
        ensures
            text@ == error_text(self@),
    {
        let mut text = owned(self.code.reason());
        let ghost base = text@;
        match &self.message {
            Some(m) => {
                proof {
                    reveal_strlit(" (");
                    reveal_strlit(")");
                }
                push_str(&mut text, " (");
                push_str(&mut text, m.as_str());
                push_str(&mut text, ")");
                assert(text@ == base + (seq![' ', '('] + m@ + seq![')']));
            },
            None => {
                assert(text@ == base + Seq::<char>::empty());
            },
        }
        let ghost mid = text@;
        match &self.source {
            Some(s) => {
                proof {
                    reveal_strlit(": ");
                }
                push_str(&mut text, ": ");
                push_str(&mut text, s.display.as_str());
                assert(text@ == mid + (seq![':', ' '] + s.display@));
            },
            None => {
                assert(text@ == mid + Seq::<char>::empty());
            },
        }
        text
    }

    /// The JSON body of the error: its status line, its message as the
    /// description, and the debug text of its cause, with double quotes
    /// turned into single ones, as the reason.
    pub fn body(&self) -> (b: ErrorBody)
        ensures
            b.code@ == digits(self@.code as nat) + seq![' '] + status_reason(self@.code),
            message_view(b.description) == self@.message,
            match self@.source {
                Some(s) => b.reason matches Some(r) && r@ == quotes_flattened(s.1),
                None => b.reason is None,
            },
    {
        let description = match &self.message {
            Some(m) => Some(owned(m.as_str())),
            None => None,
        };
        let reason = match &self.source {
            Some(s) => Some(flatten_quotes(s.debug.as_str())),
            None => None,
        };
        ErrorBody { code: self.code.line(), description, reason }
    }

    /// The error for an optional cause: the cause itself, or the default
    /// error when there is none.
    pub fn from_option(e: Option<ServerError>) -> (r: ServerError)
        ensures
            match e {
                Some(x) => r@ == x@,
                None => r@ == default_error(),
            },
    {
        match e {
            Some(error) => ServerError::builder_from(error),
            None => ServerError::builder(),
        }.build()
    }

    /// The error `e` reported with status `code`.
    pub fn from_status(code: Status, e: ServerError) -> (r: ServerError)
        ensures
            r@ == with_code(e@, code.code),
    {
        ServerError::builder_from(e).code(code).build()
    }

    /// The error paired with its own status.
    pub fn into_status_pair(self) -> (r: (Status, ServerError))
        ensures
            r.0.code == self@.code,
            r.1@ == self@,
    {
        (self.code, self)
    }

    /// A database pool that could not start: 503.
    pub fn from_pool_error(source: ErrorSource) -> (r: ServerError)
        ensures
            r@ == (ErrorView {
                code: 503,
                source: Some((source.display@, source.debug@)),
                message: Some("Couldn't start database connection pool"@),
            }),
    {
        proof {
            reveal_strlit("Couldn't start database connection pool");
        }
        ServerError::builder().code(Status::service_unavailable()).source(source).message(
            "Couldn't start database connection pool",
        ).build()
    }

    /// A server that could not start up: 503.
    pub fn from_launch_error(source: ErrorSource) -> (r: ServerError)
        ensures
            r@ == (ErrorView {
                code: 503,
                source: Some((source.display@, source.debug@)),
                message: Some("Couldn't start up server"@),
            }),
    {
        proof {
            reveal_strlit("Couldn't start up server");
        }
        ServerError::builder().code(Status::service_unavailable()).source(source).message(
            "Couldn't start up server",
        ).build()
    }

    /// A password hashing failure: 500.
    pub fn from_hash_error(source: ErrorSource) -> (r: ServerError)
        ensures
            r@ == (ErrorView {
                code: 500,
                source: Some((source.display@, source.debug@)),
                message: Some("Hashing error"@),
            }),
    {
        proof {
            reveal_strlit("Hashing error");
        }
        ServerError::builder().code(Status::internal_server_error()).source(source).message(
            "Hashing error",
        ).build()
    }

    /// A failed database statement, with the message and status of
    /// `database_outcome`.
    pub fn from_database_error(e: DatabaseError) -> (r: ServerError)
        ensures
            r@ == (ErrorView {
                code: database_outcome(e).1,
                source: Some((e.source.display@, e.source.debug@)),
                message: Some(database_outcome(e).0),
            }),
    {
        let ghost g = e;
        proof {
            reveal_strlit("users_pkey");
            reveal_strlit("users_email_un");
            reveal_strlit("This username is already in use");
            reveal_strlit("This email is already in use");
        }
        let DatabaseError { server_error, source } = e;
        let (message, code) = match server_error {
            Some(d) => {
                let is_pkey = match &d.constraint {
                    Some(c) => equal_text(c.as_str(), "users_pkey"),
                    None => false,
                };
                let is_email = match &d.constraint {
                    Some(c) => equal_text(c.as_str(), "users_email_un"),
                    None => false,
                };
                if is_pkey {
                    (owned("This username is already in use"), Status::conflict())
                } else if is_email {
                    (owned("This email is already in use"), Status::conflict())
                } else {
                    (d.text, Status::internal_server_error())
                }
            },
            None => (owned(source.display.as_str()), Status::internal_server_error()),
        };
        ServerError::builder().message(message.as_str()).code(code).source(source).build()
    }
}

/// Whether two texts are equal.
pub fn equal_text(a: &str, b: &str) -> (r: bool)
    ensures
        r == (a@ == b@),
{
    let x = crate::text::chars_of(a);
    let y = crate::text::chars_of(b);
    if x.len() != y.len() {
        return false;
    }
    let mut i: usize = 0;
    while i < x.len()
        invariant
            x@ == a@,
            y@ == b@,
            x@.len() == y@.len(),
            i <= x@.len(),
            forall|k: int| 0 <= k < i ==> x@[k] == y@[k],
        decreases x@.len() - i,
    {
        if x[i] != y[i] {
            return false;
        }
        i = i + 1;
    }
    assert(x@ == y@);
    true
}

impl ServerErrorBuilder {
    /// The error being built.
    pub fn build(self) -> (e: ServerError)
        ensures
            e@ == self@,
    {
        self.inner
    }

    /// Sets the status.
    pub fn code(self, code: Status) -> (b: ServerErrorBuilder)
        ensures
            b@ == with_code(self@, code.code),
    {
        let ServerError { code: _, source, message } = self.inner;
        ServerErrorBuilder { inner: ServerError { code, source, message } }
    }

    /// Sets the underlying cause.
    pub fn source(self, source: ErrorSource) -> (b: ServerErrorBuilder)
        ensures
            b@ == with_source(self@, source.display@, source.debug@),
    {
        let ServerError { code, source: _, message } = self.inner;
        ServerErrorBuilder { inner: ServerError { code, source: Some(source), message } }
    }

    /// Sets the message.
    pub fn message(self, message: &str) -> (b: ServerErrorBuilder)
        ensures
            b@ == with_message(self@, message@),
    {
        let ServerError { code, source, message: _ } = self.inner;
        ServerErrorBuilder { inner: ServerError { code, source, message: Some(owned(message)) } }
    }
}

} // verus!
