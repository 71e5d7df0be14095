//! The API key the command line keeps between runs.
use vstd::prelude::*;

use crate::text::{trim, trimmed};

verus! {

/// The saved credentials of the command line.
pub struct Session {
    api_key: String,
}

impl View for Session {
    type V = Seq<char>;

    closed spec fn view(&self) -> Seq<char> {
        self.api_key@
    }
}

impl Session {
    /// The API key.
    pub fn key(self) -> (k: String)
        ensures
            k@ == self@,
    {
        self.api_key
    }

    /// The session read back from the saved key file: its contents without
    /// surrounding whitespace.
    pub fn load(contents: &str) -> (s: Session)
        ensures
            s@ == trimmed(contents@),
    {
        Session { api_key: trim(contents) }
    }
}

} // verus!
