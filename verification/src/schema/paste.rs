//! Pastes: who may see them, who may delete them, and in which order a user's
//! pastes are listed.
use vstd::prelude::*;

use super::{Deletion, keep_non_empty, non_empty, str_view, text_view};
use crate::error::{ErrorView, ServerError};
use crate::ids::{is_random_uuid, new_uuid};
use crate::status::Status;
use crate::syntax::{SyntaxSet, highlight_failed, highlight_outcome};
use crate::text::{last_piece, last_piece_of, owned};
use crate::time::{Timestamp, at_or_after, is_at_or_after, is_instant, now};

verus! {

broadcast use {vstd::seq_lib::group_to_multiset_ensures, vstd::seq_lib::to_multiset_build,
    vstd::seq_lib::to_multiset_insert};

/// The extension a title gives: what follows its last dot, or the whole
/// title when it has none.
pub open spec fn title_extension(title: Option<String>) -> Option<Seq<char>> {
    match title {
        Some(t) => Some(last_piece(t@, '.')),
        None => None,
    }
}

/// A paste.
pub struct Paste {
    pub id: u128,
    pub creator: String,
    pub creation: Timestamp,
    pub content: String,
    pub unlisted: bool,
    pub title: Option<String>,
    pub description: Option<String>,
}

/// Whether `requester` (nobody, when `None`) may see `p` in a listing: a
/// listed paste is seen by all, an unlisted one only by its creator.
pub open spec fn visible_to(p: Paste, requester: Option<Seq<char>>) -> bool {
    !p.unlisted || requester == Some(p.creator@)
}

/// The pastes of `listed` that `requester` may see, in their order.
pub open spec fn shown_to(listed: Seq<Paste>, requester: Option<Seq<char>>) -> Seq<Paste> {
    listed.filter(|p: Paste| visible_to(p, requester))
}

/// Whether the pastes are ordered from the newest to the oldest.
pub open spec fn newest_first(s: Seq<Paste>) -> bool {
    forall|i: int, j: int| 0 <= i < j < s.len() ==> at_or_after(s[i].creation, s[j].creation)
}

/// The error shown when a paste cannot be found: the failure, reported as
/// 404 "Paste not found".
pub open spec fn not_found(e: ErrorView) -> ErrorView {
    ErrorView { code: 404, message: Some("Paste not found"@), ..e }
}

impl Paste {
    /// A new paste of `creator`, with a fresh id and the current time; an
    /// empty title or description is dropped.
    pub fn create(
        creator: &str,
        content: String,
        unlisted: bool,
        title: Option<String>,
        description: Option<String>,
    ) -> (p: Paste)
        ensures
            p.creator@ == creator@,
            p.content == content,
            p.unlisted == unlisted,
            text_view(p.title) == non_empty(title),
            text_view(p.description) == non_empty(description),
            is_random_uuid(p.id),
            is_instant(p.creation),
    {
        Paste {
            id: new_uuid(),
            creator: owned(creator),
            creation: now(),
            content,
            unlisted,
            title: keep_non_empty(title),
            description: keep_non_empty(description),
        }
    }

    /// The paste the database returned for an id, or the failure reported as
    /// 404 "Paste not found".
    pub fn get(fetched: Result<Paste, ServerError>) -> (r: Result<Paste, ServerError>)
        ensures
            match fetched {
                Ok(p) => r == Ok::<Paste, ServerError>(p),
                Err(e) => r matches Err(x) && x@ == not_found(e@),
            },
    {
        match fetched {
            Ok(p) => Ok(p),
            Err(e) => {
                proof {
                    reveal_strlit("Paste not found");
                }
                Err(
                    ServerError::builder_from(e).code(Status::not_found()).message(
                        "Paste not found",
                    ).build(),
                )
            },
        }
    }

    /// The file extension given by the title: what follows its last dot, or
    /// the whole title when it has none.
    pub fn extension(&self) -> (ext: Option<String>)
        ensures
            match self.title {
                Some(t) => ext matches Some(e) && e@ == last_piece(t@, '.'),
                None => ext is None,
            },
    {
        match &self.title {
            Some(t) => Some(last_piece_of(t.as_str(), '.')),
            None => None,
        }
    }

    /// The content as highlighted HTML, by the syntax of the title's
    /// extension (`txt` for a paste without title, plain text when the set
    /// has no syntax for it).
    pub fn highlight(&self, ss: &SyntaxSet) -> (r: Result<String, ServerError>)
        ensures
            match highlight_outcome(ss@, title_extension(self.title), self.content@) {
                Some(html) => r matches Ok(h) && h@ == html,
                None => r matches Err(e) && highlight_failed(e@),
            },
    {
        let ext = self.extension();
        match ext {
            Some(e) => ss.highlight(Some(e.as_str()), self.content.as_str()),
            None => ss.highlight(None, self.content.as_str()),
        }
    }

    /// The pastes of a listing that `requester` may see, in their order.
    pub fn show_all(listed: Vec<Paste>, requester: Option<&str>) -> (shown: Vec<Paste>)
        ensures
            shown@ == shown_to(listed@, str_view(requester)),
    {
        let ghost r = str_view(requester);
        let ghost s = listed@;
        let mut shown: Vec<Paste> = Vec::new();
        for p in it: listed
            invariant
                it.seq() == s,
                r == str_view(requester),
                shown@ == s.take(it.index() as int).filter(|p: Paste| visible_to(p, r)),
        {
            proof {
                assert(s.take(it.index() + 1).drop_last() == s.take(it.index() as int));
                reveal_with_fuel(Seq::filter, 1);
            }
            let seen = !p.unlisted || match requester {
                Some(who) => crate::error::equal_text(p.creator.as_str(), who),
                None => false,
            };
            if seen {
                shown.push(p);
            }
        }
        proof {
            assert(s.take(s.len() as int) == s);
        }
        shown
    }

    /// Removal of the paste with `id` (or of all the creator's pastes when
    /// there is none) on behalf of `requester`: allowed only to the paste's
    /// creator, and then limited to the creator's pastes; otherwise 403
    /// "This paste isn't yours".
    pub fn remove(&self, id: Option<u128>, requester: &str) -> (r: Result<Deletion, ServerError>)
        ensures
            self.creator@ == requester@ ==> (r matches Ok(d) && d.creator@ == self.creator@ && d.id
                == id),
            self.creator@ != requester@ ==> (r matches Err(e) && e@ == (ErrorView {
                code: 403,
                source: None,
                message: Some("This paste isn't yours"@),
            })),
    {
        if crate::error::equal_text(self.creator.as_str(), requester) {
            Ok(Deletion { creator: owned(self.creator.as_str()), id })
        } else {
            proof {
                reveal_strlit("This paste isn't yours");
            }
            Err(
                ServerError::builder().code(Status::forbidden()).message(
                    "This paste isn't yours",
                ).build(),
            )
        }
    }

    /// The pastes ordered from the newest to the oldest.
    pub fn newest_first(pastes: Vec<Paste>) -> (sorted: Vec<Paste>)
        ensures
            newest_first(sorted@),
            sorted@.to_multiset() == pastes@.to_multiset(),
    {
        let ghost s = pastes@;
        let mut sorted: Vec<Paste> = Vec::new();
        for p in it: pastes
            invariant
                it.seq() == s,
                newest_first(sorted@),
                sorted@.to_multiset() == s.take(it.index() as int).to_multiset(),
        {
            let mut k: usize = 0;
            while k < sorted.len() && is_at_or_after(sorted[k].creation, p.creation)
                invariant
                    k <= sorted@.len(),
                    forall|i: int| 0 <= i < k ==> at_or_after(sorted@[i].creation, p.creation),
                decreases sorted@.len() - k,
            {
                k = k + 1;
            }
            let ghost before = sorted@;
            proof {
                assert(s.take(it.index() + 1) == s.take(it.index() as int).push(p));
                assert forall|j: int| k <= j < before.len() implies at_or_after(
                    p.creation,
                    before[j].creation,
                ) by {
                    if j > k {
                        assert(at_or_after(before[k as int].creation, before[j].creation));
                    }
                }
            }
            sorted.insert(k, p);
            proof {
                assert(sorted@ == before.insert(k as int, p));
                assert forall|i: int, j: int| 0 <= i < j < sorted@.len() implies at_or_after(
                    sorted@[i].creation,
                    sorted@[j].creation,
                ) by {
                    if j < k {
                        assert(sorted@[i] == before[i]);
                        assert(sorted@[j] == before[j]);
                    } else if i < k && j == k {
                    } else if i < k && j > k {
                        assert(sorted@[j] == before[j - 1]);
                    } else if i == k {
                        assert(sorted@[j] == before[j - 1]);
                    } else {
                        assert(sorted@[i] == before[i - 1]);
                        assert(sorted@[j] == before[j - 1]);
                    }
                }
            }
        }
        proof {
            assert(s.take(s.len() as int) == s);
        }
        sorted
    }
}

} // verus!
