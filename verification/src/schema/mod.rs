//! The records the server keeps (pastes, users, sessions, API keys) and the
//! decisions taken about them around each database statement.
use vstd::prelude::*;

pub mod api_key;
pub mod paste;
pub mod session;
pub mod user;

pub use api_key::ApiKey;
pub use session::Session;
pub use user::User;


pub use paste::Paste;



verus! {

/// The rows a delete statement removes: those of `creator`, and only the one
/// with `id` when an id is given (`WHERE creator = $1 AND ($2 IS NULL OR id = $2)`).
pub struct Deletion {
    pub creator: String,
    pub id: Option<u128>,
}

/// Whether the deletion removes the row of `row_creator` with `row_id`.
pub open spec fn deletes(d: Deletion, row_creator: Seq<char>, row_id: u128) -> bool {
    &&& row_creator == d.creator@
    &&& match d.id {
        Some(id) => id == row_id,
        None => true,
    }
}

/// The text of an optional value, kept only when it is not empty.
pub open spec fn non_empty(o: Option<String>) -> Option<Seq<char>> {
    match o {
        Some(s) => if s@.len() > 0 {
            Some(s@)
        } else {
            None
        },
        None => None,
    }
}

/// The view of an optional text.
pub open spec fn text_view(o: Option<String>) -> Option<Seq<char>> {
    match o {
        Some(s) => Some(s@),
        None => None,
    }
}

/// The view of an optional borrowed text.
pub open spec fn str_view(o: Option<&str>) -> Option<Seq<char>> {
    match o {
        Some(s) => Some(s@),
        None => None,
    }
}

/// Drops an empty text (`o.filter(|s| !s.is_empty())`).
pub fn keep_non_empty(o: Option<String>) -> (r: Option<String>)
    ensures
        text_view(r) == non_empty(o),
{
    match o {
        Some(s) => if s.as_str().is_empty() {
            None
        } else {
            Some(s)
        },
        None => None,
    }
}

} // verus!
