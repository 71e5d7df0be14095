//! The decisions of each command: which path it asks for, how it reads the
//! status of the answer, and what it prints.
use vstd::prelude::*;

use crate::ids::{uuid_text, uuid_to_text};
use crate::schema::Paste;
use crate::text::{owned, push_str, strip_cr, without_cr};
use crate::time::{humanize, humanized_phrase, utc_representable};

verus! {

/// Why a command failed after the server answered.
pub enum CliError {
    /// A failure the command explains in its own words.
    Message(String),
    /// Any other error status (400 to 599), reported as the HTTP error.
    Status(u16),
}

/// Where a command reads its input from.
pub enum Input {
    Stdin,
    File(String),
}

/// What `download` prints: a framed, titled view on a terminal, or the bare
/// content.
pub enum DownloadOutput {
    Pretty { name: String, header: String, content: String },
    Plain(String),
}

/// Whether a status is a client or server error.
pub open spec fn is_error_status(code: u16) -> bool {
    400 <= code <= 599
}

/// The result of a status with no message of its own.
pub open spec fn plain_check(code: u16) -> Option<u16> {
    if is_error_status(code) {
        Some(code)
    } else {
        None
    }
}

/// What a URL becomes once a reference is resolved against it, as
/// `Url::join` computes it.
pub uninterp spec fn url_join(base: Seq<char>, reference: Seq<char>) -> Option<Seq<char>>;

/// Resolves `reference` against the URL `base`.
///
/// Calls `reqwest::Url::parse(base)` and `Url::join(reference)`, giving the
/// resulting URL as text; the contract names the result `url_join`.
#[verifier::external_body]
pub fn join_url(base: &str, reference: &str) -> (r: Option<String>)
    ensures
        match url_join(base@, reference@) {
            Some(u) => r matches Some(x) && x@ == u,
            None => r is None,
        },
{
    reqwest::Url::parse(base).and_then(|u| u.join(reference)).ok().map(|u| u.to_string())
}

/// The path of a paste: `/p/{id}`.
pub open spec fn paste_path(id: u128) -> Seq<char> {
    "/p/"@ + uuid_text(id)
}

/// The path of a paste.
pub fn paste_path_of(id: u128) -> (p: String)
    ensures
        p@ == paste_path(id),
{
    proof {
        reveal_strlit("/p/");
    }
    let mut p = owned("/p/");
    let t = uuid_to_text(id);
    push_str(&mut p, t.as_str());
    p
}

/// Whether a named input is standard input: no name, or `-`.
pub open spec fn reads_stdin(file: Option<Seq<char>>) -> bool {
    match file {
        Some(f) => f == "-"@,
        None => true,
    }
}

/// Where to read from: standard input when no file or `-` is given.
pub fn input_source(file: Option<&str>) -> (i: Input)
    ensures
        match i {
            Input::Stdin => reads_stdin(crate::schema::str_view(file)),
            Input::File(f) => !reads_stdin(crate::schema::str_view(file)) && (file matches Some(g)
                && f@ == g@),
        },
{
    proof {
        reveal_strlit("-");
    }
    match file {
        Some(f) => if crate::error::equal_text(f, "-") {
            Input::Stdin
        } else {
            Input::File(owned(f))
        },
        None => Input::Stdin,
    }
}

/// The invitation `auth` prints on a terminal before reading a key.
pub fn auth_prompt(keys_url: &str) -> (text: String)
    ensures
        text@ == "Get a token from "@ + keys_url@ + " and paste it here:"@,
{
    proof {
        reveal_strlit("Get a token from ");
        reveal_strlit(" and paste it here:");
    }
    let mut text = owned("Get a token from ");
    push_str(&mut text, keys_url);
    push_str(&mut text, " and paste it here:");
    text
}

/// The failure `delete` reports for a status: 404, 403 and 401 get their own
/// message, other error statuses are reported as they are.
pub fn delete_check(status: u16) -> (r: Result<(), CliError>)
    ensures
        status == 404 ==> (r matches Err(CliError::Message(m)) && m@
            == "The requested paste does not exist"@),
        status == 403 ==> (r matches Err(CliError::Message(m)) && m@
            == "You can only delete your own pastes"@),
        status == 401 ==> (r matches Err(CliError::Message(m)) && m@
            == "Your API key is invalid or has been revoked. Try `pmis auth`"@),
        status != 404 && status != 403 && status != 401 ==> match plain_check(status) {
            Some(c) => r matches Err(CliError::Status(x)) && x == c,
            None => r is Ok,
        },
{
    proof {
        reveal_strlit("The requested paste does not exist");
        reveal_strlit("You can only delete your own pastes");
        reveal_strlit("Your API key is invalid or has been revoked. Try `pmis auth`");
    }
    if status == 404 {
        Err(CliError::Message(owned("The requested paste does not exist")))
    } else if status == 403 {
        Err(CliError::Message(owned("You can only delete your own pastes")))
    } else if status == 401 {
        Err(
            CliError::Message(
                owned("Your API key is invalid or has been revoked. Try `pmis auth`"),
            ),
        )
    } else {
        status_check(status)
    }
}

/// An error status as a failure, any other as success.
pub fn status_check(status: u16) -> (r: Result<(), CliError>)
    ensures
        match plain_check(status) {
            Some(c) => r matches Err(CliError::Status(x)) && x == c,
            None => r is Ok,
        },
{
    if 400 <= status && status <= 599 {
        Err(CliError::Status(status))
    } else {
        Ok(())
    }
}

/// What `delete` prints once the paste is gone.
pub fn delete_report(id: u128) -> (text: String)
    ensures
        text@ == "Paste "@ + uuid_text(id) + " successfully deleted."@,
{
    proof {
        reveal_strlit("Paste ");
        reveal_strlit(" successfully deleted.");
    }
    let mut text = owned("Paste ");
    let t = uuid_to_text(id);
    push_str(&mut text, t.as_str());
    push_str(&mut text, " successfully deleted.");
    text
}

/// The failure `download` reports for a status: 404 gets its own message.
pub fn download_check(status: u16) -> (r: Result<(), CliError>)
    ensures
        status == 404 ==> (r matches Err(CliError::Message(m)) && m@
            == "The requested paste does not exist"@),
        status != 404 ==> match plain_check(status) {
            Some(c) => r matches Err(CliError::Status(x)) && x == c,
            None => r is Ok,
        },
{
    proof {
        reveal_strlit("The requested paste does not exist");
    }
    if status == 404 {
        Err(CliError::Message(owned("The requested paste does not exist")))
    } else {
        status_check(status)
    }
}

/// The title a paste is shown under.
pub open spec fn shown_title(p: Paste) -> Seq<char> {
    match p.title {
        Some(t) => t@,
        None => "Untitled"@,
    }
}

/// The word for a paste's visibility.
pub open spec fn visibility(p: Paste) -> Seq<char> {
    if p.unlisted {
        "Unlisted"@
    } else {
        "Public"@
    }
}

fn title_of(p: &Paste) -> (t: String)
    ensures
        t@ == shown_title(*p),
{
    proof {
        reveal_strlit("Untitled");
    }
    match &p.title {
        Some(t) => owned(t.as_str()),
        None => owned("Untitled"),
    }
}

fn visibility_of(p: &Paste) -> (v: String)
    ensures
        v@ == visibility(*p),
{
    proof {
        reveal_strlit("Unlisted");
        reveal_strlit("Public");
    }
    if p.unlisted {
        owned("Unlisted")
    } else {
        owned("Public")
    }
}

/// How long ago a paste was made, in words (empty if chrono cannot represent
/// the instant).
fn age_of(p: &Paste) -> (age: String)
    ensures
        utc_representable(p.creation.seconds, p.creation.nanos) ==> age@.len() > 0
            && humanized_phrase(age@),
        !utc_representable(p.creation.seconds, p.creation.nanos) ==> age@.len() == 0,
{
    match humanize(p.creation) {
        Some(words) => words,
        None => String::new(),
    }
}

/// Whether `age` can be the age shown for `p`: words exactly when chrono can
/// represent its creation instant (always so for an instant it gave), and
/// then one of chrono-humanize's phrases.
pub open spec fn age_shown(p: Paste, age: Seq<char>) -> bool {
    &&& age.len() > 0 <==> utc_representable(p.creation.seconds, p.creation.nanos)
    &&& age.len() > 0 ==> humanized_phrase(age)
}

/// The header `download` shows above a paste: title, creator, age and
/// visibility.
pub open spec fn download_header(p: Paste, age: Seq<char>) -> Seq<char> {
    shown_title(p) + " // by u/"@ + p.creator@ + ", "@ + age + " - "@ + visibility(p)
}

/// What `download` prints: on a terminal, unless raw output is asked for, a
/// titled view; otherwise the content without carriage returns.
pub fn download_output(p: &Paste, raw: bool, interactive: bool) -> (out: DownloadOutput)
    ensures
        !raw && interactive ==> (out matches DownloadOutput::Pretty { name, header, content }
            && name@ == shown_title(*p) && content@ == p.content@ && exists|age: Seq<char>|
            age_shown(*p, age) && header@ == download_header(*p, age)),
        !(!raw && interactive) ==> (out matches DownloadOutput::Plain(text) && text@
            == without_cr(p.content@)),
{
    if !raw && interactive {
        proof {
            reveal_strlit(" // by u/");
            reveal_strlit(", ");
            reveal_strlit(" - ");
        }
        let title = title_of(p);
        let age = age_of(p);
        let mut header = owned(title.as_str());
        push_str(&mut header, " // by u/");
        push_str(&mut header, p.creator.as_str());
        push_str(&mut header, ", ");
        push_str(&mut header, age.as_str());
        push_str(&mut header, " - ");
        let v = visibility_of(p);
        push_str(&mut header, v.as_str());
        assert(header@ == download_header(*p, age@));
        DownloadOutput::Pretty { name: title, header, content: owned(p.content.as_str()) }
    } else {
        DownloadOutput::Plain(strip_cr(p.content.as_str()))
    }
}

/// The path listing a user's pastes; with no user, the server's own choice
/// (the caller's pastes).
pub open spec fn list_path(owner: Option<Seq<char>>) -> Seq<char> {
    "/u/"@ + match owner {
        Some(o) => o,
        None => Seq::empty(),
    } + "/pastes"@
}

/// The path listing a user's pastes.
pub fn list_path_of(owner: Option<&str>) -> (p: String)
    ensures
        p@ == list_path(crate::schema::str_view(owner)),
{
    proof {
        reveal_strlit("/u/");
        reveal_strlit("/pastes");
    }
    let mut p = owned("/u/");
    let ghost base = p@;
    match owner {
        Some(o) => push_str(&mut p, o),
        None => {
            assert(p@ == base + Seq::<char>::empty());
        },
    }
    push_str(&mut p, "/pastes");
    p
}

/// The failure `list` reports for a status: 401 asks for a user or a login.
pub fn list_check(status: u16) -> (r: Result<(), CliError>)
    ensures
        status == 401 ==> (r matches Err(CliError::Message(m)) && m@
            == "You must either specify which user to show or be authenticated. Try specifying an user or authenticating with `pmis auth`"@),
        status != 401 ==> match plain_check(status) {
            Some(c) => r matches Err(CliError::Status(x)) && x == c,
            None => r is Ok,
        },
{
    proof {
        reveal_strlit(
            "You must either specify which user to show or be authenticated. Try specifying an user or authenticating with `pmis auth`",
        );
    }
    if status == 401 {
        Err(
            CliError::Message(
                owned(
                    "You must either specify which user to show or be authenticated. Try specifying an user or authenticating with `pmis auth`",
                ),
            ),
        )
    } else {
        status_check(status)
    }
}

/// One line of a listing: id, title, age and visibility.
pub open spec fn list_line(p: Paste, age: Seq<char>) -> Seq<char> {
    uuid_text(p.id) + " - "@ + shown_title(p) + " // "@ + age + " - "@ + visibility(p)
}

/// Whether `line` is a listing line of `p`, with an age it can be shown
/// with.
pub open spec fn is_list_line(line: Seq<char>, p: Paste) -> bool {
    exists|age: Seq<char>| age_shown(p, age) && line == #[trigger] list_line(p, age)
}

/// What `list` prints: the ids alone, or a line per paste (or a note that
/// there are none).
pub fn list_report(pastes: &Vec<Paste>, ids_only: bool) -> (lines: Vec<String>)
    ensures
        ids_only ==> lines@.len() == pastes@.len() && forall|i: int|
            0 <= i < pastes@.len() ==> #[trigger] lines@[i]@ == uuid_text(pastes@[i].id),
        !ids_only && pastes@.len() == 0 ==> lines@.len() == 1 && lines@[0]@
            == "No pastes found"@,
        !ids_only && pastes@.len() > 0 ==> lines@.len() == pastes@.len() && forall|i: int|
            0 <= i < pastes@.len() ==> is_list_line(#[trigger] lines@[i]@, pastes@[i]),
{
    let mut lines: Vec<String> = Vec::new();
    if !ids_only && pastes.len() == 0 {
        proof {
            reveal_strlit("No pastes found");
        }
        lines.push(owned("No pastes found"));
        return lines;
    }
    let mut i: usize = 0;
    while i < pastes.len()
        invariant
            i <= pastes@.len(),
            lines@.len() == i,
            ids_only ==> forall|k: int| 0 <= k < i ==> #[trigger] lines@[k]@ == uuid_text(
                pastes@[k].id,
            ),
            !ids_only ==> forall|k: int|
                0 <= k < i ==> is_list_line(#[trigger] lines@[k]@, pastes@[k]),
        decreases pastes@.len() - i,
    {
        let p = &pastes[i];
        let id = uuid_to_text(p.id);
        if ids_only {
            lines.push(id);
        } else {
            proof {
                reveal_strlit(" - ");
                reveal_strlit(" // ");
            }
            let mut line = id;
            push_str(&mut line, " - ");
            let title = title_of(p);
            push_str(&mut line, title.as_str());
            push_str(&mut line, " // ");
            let age = age_of(p);
            push_str(&mut line, age.as_str());
            push_str(&mut line, " - ");
            let v = visibility_of(p);
            push_str(&mut line, v.as_str());
            assert(line@ == list_line(*p, age@));
            assert(is_list_line(line@, *p));
            lines.push(line);
        }
        i = i + 1;
    }
    lines
}

/// The file name at the end of a path, as `Path::file_name` finds it.
pub uninterp spec fn path_file_name(path: Seq<char>) -> Option<Seq<char>>;

/// The last component of a path, if it is a name.
///
/// Calls `std::path::Path::new(path).file_name()` and keeps it when it is
/// valid UTF-8; the contract names the result `path_file_name`.
#[verifier::external_body]
fn file_name(path: &str) -> (r: Option<String>)
    ensures
        match path_file_name(path@) {
            Some(n) => r matches Some(x) && x@ == n,
            None => r is None,
        },
{
    std::path::Path::new(path).file_name().and_then(|s| s.to_str()).map(|s| s.to_owned())
}

/// The title of an upload: the one given, else the name of the uploaded file
/// (none when reading standard input).
pub fn upload_title(title: Option<String>, file: Option<&str>) -> (r: Option<String>)
    ensures
        title matches Some(t) ==> r == Some(t),
        title is None && reads_stdin(crate::schema::str_view(file)) ==> r is None,
        title is None && !reads_stdin(crate::schema::str_view(file)) ==> (file matches Some(f)
            && match path_file_name(f@) {
            Some(n) => r matches Some(x) && x@ == n,
            None => r is None,
        }),
{
    match title {
        Some(t) => Some(t),
        None => match input_source(file) {
            Input::File(f) => file_name(f.as_str()),
            Input::Stdin => None,
        },
    }
}

/// The failure `upload` reports for a status: 401 points to `pmis auth`.
pub fn upload_check(status: u16) -> (r: Result<(), CliError>)
    ensures
        status == 401 ==> (r matches Err(CliError::Message(m)) && m@
            == "Your API key is invalid or has been revoked. Try `pmis auth`"@),
        status != 401 ==> match plain_check(status) {
            Some(c) => r matches Err(CliError::Status(x)) && x == c,
            None => r is Ok,
        },
{
    proof {
        reveal_strlit("Your API key is invalid or has been revoked. Try `pmis auth`");
    }
    if status == 401 {
        Err(
            CliError::Message(
                owned("Your API key is invalid or has been revoked. Try `pmis auth`"),
            ),
        )
    } else {
        status_check(status)
    }
}

/// What `upload` prints: on a terminal, unless only the link is asked for,
/// a confirmation, the id and the link; otherwise the link alone.
pub fn upload_report(link: &str, id: u128, link_only: bool, interactive: bool) -> (lines: Vec<
    String,
>)
    ensures
        !link_only && interactive ==> lines@.len() == 3 && lines@[0]@ == "Upload successful."@
            && lines@[1]@ == "Your paste id is "@ + uuid_text(id) && lines@[2]@ == link@,
        !(!link_only && interactive) ==> lines@.len() == 1 && lines@[0]@ == link@,
{
    let mut lines: Vec<String> = Vec::new();
    if !link_only && interactive {
        proof {
            reveal_strlit("Upload successful.");
            reveal_strlit("Your paste id is ");
        }
        lines.push(owned("Upload successful."));
        let mut second = owned("Your paste id is ");
        let t = uuid_to_text(id);
        push_str(&mut second, t.as_str());
        lines.push(second);
    }
    lines.push(owned(link));
    lines
}

} // verus!
