//! Properties that hold across the library's functions.
use vstd::prelude::*;

use crate::error::{ErrorView, with_code, with_message, with_source};
use crate::schema::api_key::is_alphanumeric;
use crate::schema::paste::{shown_to, visible_to};
use crate::schema::{Deletion, Paste, Session, deletes};
use crate::syntax::{
    DefinitionView,
    chosen_syntax,
    extension_found,
    highlight_outcome,
    highlighted_html,
    lemma_line_end_bounds,
    line_end,
    lines_with_endings,
    name_found,
    syntax_defined,
};
use crate::text::{
    content_end,
    is_space,
    last_piece,
    last_word,
    leading_space,
    piece_start,
    quotes_flattened,
    single_quoted,
    trimmed,
    unescape_quotes,
    without_cr,
    word_start,
};

verus! {

proof fn word_start_after_space(s: Seq<char>, start: int, n: int)
    requires
        0 < start <= n <= s.len(),
        is_space(s[start - 1]),
        forall|i: int| start <= i < n ==> !is_space(#[trigger] s[i]),
    ensures
        word_start(s.take(n)) == start,
    decreases n - start,
{
    if n == start {
        assert(s.take(n).last() == s[start - 1]);
    } else {
        assert(s.take(n).last() == s[n - 1]);
        assert(s.take(n).drop_last() == s.take(n - 1));
        word_start_after_space(s, start, n - 1);
    }
}

/// The key the command line sends as `Bearer KEY` (the `Authorization`
/// value that `reqwest`'s `bearer_auth` writes) is the key the server reads
/// from that header, whenever the key is a single word.
pub proof fn bearer_key_round_trip(key: Seq<char>)
    requires
        key.len() > 0,
        forall|i: int| 0 <= i < key.len() ==> !is_space(#[trigger] key[i]),
    ensures
        last_word("Bearer "@ + key) == Some(key),
{
    reveal_strlit("Bearer ");
    let s = "Bearer "@ + key;
    assert(s.last() == key[key.len() - 1]);
    assert(content_end(s) == s.len());
    assert(s.take(s.len() as int) == s);
    assert forall|i: int| 7 <= i < s.len() implies !is_space(#[trigger] s[i]) by {
        assert(s[i] == key[i - 7]);
    }
    word_start_after_space(s, 7, s.len() as int);
    assert(s.subrange(7, s.len() as int) == key);
}

/// An API key made by `ApiKey::create` (32 letters and digits) comes back
/// whole from the `Authorization` header the command line sends.
pub proof fn generated_key_round_trip(key: Seq<char>)
    requires
        key.len() == 32,
        forall|i: int| 0 <= i < 32 ==> is_alphanumeric(#[trigger] key[i]),
    ensures
        last_word("Bearer "@ + key) == Some(key),
{
    assert forall|i: int| 0 <= i < key.len() implies !is_space(#[trigger] key[i]) by {
        assert(is_alphanumeric(key[i]));
    }
    bearer_key_round_trip(key);
}

proof fn content_end_of_padded(key: Seq<char>, tail: Seq<char>)
    requires
        key.len() > 0,
        !is_space(key.last()),
        forall|i: int| 0 <= i < tail.len() ==> is_space(#[trigger] tail[i]),
    ensures
        content_end(key + tail) == key.len(),
    decreases tail.len(),
{
    if tail.len() == 0 {
        assert(key + tail == key);
    } else {
        assert((key + tail).last() == tail.last());
        assert((key + tail).drop_last() == key + tail.drop_last());
        content_end_of_padded(key, tail.drop_last());
    }
}

/// A key saved with trailing whitespace (such as the newline that ends a
/// line typed to `pmis auth`) reads back as the key itself, when the key
/// does not start or end with whitespace.
pub proof fn saved_key_reads_back(key: Seq<char>, tail: Seq<char>)
    requires
        key.len() > 0,
        !is_space(key[0]),
        !is_space(key.last()),
        forall|i: int| 0 <= i < tail.len() ==> is_space(#[trigger] tail[i]),
    ensures
        trimmed(key + tail) == key,
{
    content_end_of_padded(key, tail);
    assert((key + tail).take(key.len() as int) == key);
    assert(leading_space(key) == 0);
    assert(key.skip(0) == key);
}

/// The owner of pastes sees all of them, the unlisted ones included.
pub proof fn owner_sees_all_pastes(listed: Seq<Paste>, owner: Seq<char>)
    requires
        forall|i: int| 0 <= i < listed.len() ==> (#[trigger] listed[i]).creator@ == owner,
    ensures
        shown_to(listed, Some(owner)) == listed,
    decreases listed.len(),
{
    reveal_with_fuel(Seq::filter, 1);
    if listed.len() > 0 {
        owner_sees_all_pastes(listed.drop_last(), owner);
        assert(listed.drop_last().push(listed.last()) == listed);
    } else {
        assert(listed == Seq::<Paste>::empty());
    }
}

/// Someone who is not logged in sees every listed paste and no unlisted
/// one.
pub proof fn anonymous_sees_only_listed(listed: Seq<Paste>, p: Paste)
    ensures
        shown_to(listed, None).contains(p) <==> (listed.contains(p) && !p.unlisted),
{
    broadcast use vstd::seq_lib::group_filter_ensures;

    let f = |q: Paste| visible_to(q, None);
    if listed.contains(p) && !p.unlisted {
        let i = choose|i: int| 0 <= i < listed.len() && listed[i] == p;
        listed.lemma_filter_contains(f, i);
    }
    if shown_to(listed, None).contains(p) {
        listed.lemma_filter_contains_rev(f, p);
    }
}

/// A revocation or removal made on behalf of a user (`Session::revoke`,
/// `revoke_self`, `revoke_all`, `ApiKey::revoke`, `Paste::remove`) never
/// reaches a row of another user.
pub proof fn deletions_stay_with_their_user(d: Deletion, owner: Seq<char>)
    requires
        d.creator@ == owner,
    ensures
        forall|c: Seq<char>, id: u128| deletes(d, c, id) ==> c == owner,
{
}

/// Setting the status, the cause or the message of an error twice keeps
/// the last value; setting different parts gives the same error in either
/// order.
pub proof fn error_edits(
    e: ErrorView,
    c1: u16,
    c2: u16,
    m1: Seq<char>,
    m2: Seq<char>,
    d1: Seq<char>,
    g1: Seq<char>,
    d2: Seq<char>,
    g2: Seq<char>,
)
    ensures
        with_code(with_code(e, c1), c2) == with_code(e, c2),
        with_message(with_message(e, m1), m2) == with_message(e, m2),
        with_source(with_source(e, d1, g1), d2, g2) == with_source(e, d2, g2),
        with_code(with_message(e, m1), c1) == with_message(with_code(e, c1), m1),
        with_code(with_source(e, d1, g1), c1) == with_source(with_code(e, c1), d1, g1),
        with_message(with_source(e, d1, g1), m1) == with_source(with_message(e, m1), d1, g1),
{
}

/// Raw paste output never holds a carriage return.
pub proof fn raw_output_has_no_carriage_return(content: Seq<char>)
    ensures
        forall|i: int| 0 <= i < without_cr(content).len() ==> #[trigger] without_cr(content)[i]
            != '\r',
{
    broadcast use vstd::seq_lib::group_filter_ensures;

}

proof fn unescape_keeps_out_double_quotes(t: Seq<char>)
    requires
        forall|i: int| 0 <= i < t.len() ==> #[trigger] t[i] != '"',
    ensures
        forall|i: int| 0 <= i < unescape_quotes(t).len() ==> #[trigger] unescape_quotes(t)[i]
            != '"',
    decreases t.len(),
{
    if t.len() >= 2 && t[0] == '\\' && t[1] == '\'' {
        unescape_keeps_out_double_quotes(t.skip(2));
        assert forall|i: int| 0 <= i < unescape_quotes(t).len() implies #[trigger] unescape_quotes(
            t,
        )[i] != '"' by {
            if i > 0 {
                assert(unescape_quotes(t)[i] == unescape_quotes(t.skip(2))[i - 1]);
            }
        }
    } else if t.len() >= 1 {
        unescape_keeps_out_double_quotes(t.skip(1));
        assert forall|i: int| 0 <= i < unescape_quotes(t).len() implies #[trigger] unescape_quotes(
            t,
        )[i] != '"' by {
            if i > 0 {
                assert(unescape_quotes(t)[i] == unescape_quotes(t.skip(1))[i - 1]);
            }
        }
    }
}

/// The reason an error body gives for its cause holds no double quote.
pub proof fn error_reason_has_no_double_quote(debug: Seq<char>)
    ensures
        forall|i: int| 0 <= i < quotes_flattened(debug).len() ==> #[trigger] quotes_flattened(
            debug,
        )[i] != '"',
{
    let t = debug.map_values(|c: char| single_quoted(c));
    assert forall|i: int| 0 <= i < t.len() implies #[trigger] t[i] != '"' by {
        assert(t[i] == single_quoted(debug[i]));
    }
    unescape_keeps_out_double_quotes(t);
}

proof fn piece_start_bounds(s: Seq<char>, sep: char)
    ensures
        piece_start(s, sep) <= s.len(),
        forall|i: int| piece_start(s, sep) <= i < s.len() ==> #[trigger] s[i] != sep,
        (forall|i: int| 0 <= i < s.len() ==> #[trigger] s[i] != sep) ==> piece_start(s, sep)
            == 0,
    decreases s.len(),
{
    if s.len() > 0 && s.last() != sep {
        piece_start_bounds(s.drop_last(), sep);
        assert forall|i: int| piece_start(s, sep) <= i < s.len() implies #[trigger] s[i]
            != sep by {
            if i < s.len() - 1 {
                assert(s[i] == s.drop_last()[i]);
            }
        }
        if forall|i: int| 0 <= i < s.len() ==> #[trigger] s[i] != sep {
            assert forall|i: int| 0 <= i < s.drop_last().len() implies #[trigger] s.drop_last()[i]
                != sep by {
                assert(s.drop_last()[i] == s[i]);
            }
        }
    }
}

/// The extension of a paste holds no dot, and a title without a dot is its
/// own extension.
pub proof fn extension_has_no_dot(title: Seq<char>)
    ensures
        forall|i: int| 0 <= i < last_piece(title, '.').len() ==> #[trigger] last_piece(
            title,
            '.',
        )[i] != '.',
        (forall|i: int| 0 <= i < title.len() ==> #[trigger] title[i] != '.') ==> last_piece(
            title,
            '.',
        ) == title,
{
    piece_start_bounds(title, '.');
    assert forall|i: int| 0 <= i < last_piece(title, '.').len() implies #[trigger] last_piece(
        title,
        '.',
    )[i] != '.' by {
        assert(last_piece(title, '.')[i] == title[piece_start(title, '.') + i]);
    }
    if forall|i: int| 0 <= i < title.len() ==> #[trigger] title[i] != '.' {
        assert(title.skip(0) == title);
    }
}

/// A paste without an extension is highlighted as one with the extension
/// `txt`.
pub proof fn missing_extension_is_txt(dump: Seq<u8>, content: Seq<char>)
    ensures
        highlight_outcome(dump, None, content) == highlight_outcome(dump, Some("txt"@), content),
{
}

/// In a set that has plain text, an extension without a syntax of its own
/// highlights as plain text.
pub proof fn unknown_extension_is_plain_text(dump: Seq<u8>, extension: Seq<char>, content: Seq<char>)
    requires
        name_found(dump, "Plain Text"@),
        !extension_found(dump, extension),
    ensures
        highlight_outcome(dump, Some(extension), content) == highlighted_html(
            dump,
            false,
            "Plain Text"@,
            content,
        ),
{
}

/// In a set that has plain text, some syntax is chosen for every extension,
/// so highlighting fails only where a line fails to parse.
pub proof fn a_syntax_is_always_chosen(dump: Seq<u8>, extension: Option<Seq<char>>, content: Seq<char>)
    requires
        name_found(dump, "Plain Text"@),
    ensures
        chosen_syntax(dump, extension) is Some,
        highlight_outcome(dump, extension, content) == highlighted_html(
            dump,
            chosen_syntax(dump, extension).unwrap().0,
            chosen_syntax(dump, extension).unwrap().1,
            content,
        ),
{
}

/// The lines a paste is highlighted by, put back together, are its whole
/// content.
pub proof fn lines_cover_content(content: Seq<char>)
    ensures
        lines_with_endings(content).flatten() == content,
    decreases content.len(),
{
    if content.len() > 0 {
        lemma_line_end_bounds(content);
        let e = line_end(content) as int;
        lines_cover_content(content.skip(e));
        let lines = lines_with_endings(content);
        assert(lines.drop_first() == lines_with_endings(content.skip(e)));
        assert(content.take(e) + content.skip(e) == content);
    }
}

/// The rows of a table, as (creator, id), that a deletion leaves.
pub open spec fn rows_left(rows: Seq<(Seq<char>, u128)>, d: Deletion) -> Seq<(Seq<char>, u128)> {
    rows.filter(|r: (Seq<char>, u128)| !deletes(d, r.0, r.1))
}

/// Once a stored session revokes itself (`Session::revoke_self`), the
/// sessions table, whose ids are unique, holds no row with its id, so a
/// later lookup fails and `Session::authenticate` answers 401; every other
/// session, those of the same user included, stays.
pub proof fn revoked_session_is_gone(s: Session, d: Deletion, rows: Seq<(Seq<char>, u128)>)
    requires
        forall|c: Seq<char>, id: u128| deletes(d, c, id) <==> (c == s.creator@ && id == s.id),
        rows.contains((s.creator@, s.id)),
        forall|i: int, j: int| 0 <= i < j < rows.len() ==> rows[i].1 != rows[j].1,
    ensures
        forall|r: (Seq<char>, u128)| #[trigger] rows_left(rows, d).contains(r) ==> r.1 != s.id,
        forall|r: (Seq<char>, u128)|
            rows.contains(r) && r.1 != s.id ==> #[trigger] rows_left(rows, d).contains(r),
{
    broadcast use vstd::seq_lib::group_filter_ensures;

    assert forall|r: (Seq<char>, u128)| #[trigger] rows_left(rows, d).contains(r) implies r.1
        != s.id by {
        rows.lemma_filter_contains_rev(|r: (Seq<char>, u128)| !deletes(d, r.0, r.1), r);
        if r.1 == s.id {
            let i = choose|i: int| 0 <= i < rows.len() && rows[i] == r;
            let j = choose|j: int| 0 <= j < rows.len() && rows[j] == (s.creator@, s.id);
            if i < j {
                assert(rows[i].1 != rows[j].1);
            } else if j < i {
                assert(rows[j].1 != rows[i].1);
            }
            assert(deletes(d, r.0, r.1));
        }
    }
    assert forall|r: (Seq<char>, u128)| rows.contains(r) && r.1 != s.id implies #[trigger] rows_left(
        rows,
        d,
    ).contains(r) by {
        let i = choose|i: int| 0 <= i < rows.len() && rows[i] == r;
        rows.lemma_filter_contains(|r: (Seq<char>, u128)| !deletes(d, r.0, r.1), i);
    }
}

/// Content whose extension a definition of the set declares is highlighted
/// with the syntax found by that extension, never as the plain text
/// fallback; a missing extension reads as `txt`.
pub proof fn declared_extension_uses_its_syntax(
    dump: Seq<u8>,
    d: DefinitionView,
    j: int,
    content: Seq<char>,
)
    requires
        syntax_defined(dump, d),
        0 <= j < d.extensions.len(),
    ensures
        chosen_syntax(dump, Some(d.extensions[j])) == Some((true, d.extensions[j])),
        highlight_outcome(dump, Some(d.extensions[j]), content) == highlighted_html(
            dump,
            true,
            d.extensions[j],
            content,
        ),
{
    assert(extension_found(dump, d.extensions[j]));
}

} // verus!
