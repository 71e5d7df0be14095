//! Character-level text handling: decimal rendering, whitespace trimming,
//! word and piece extraction, and the small rewrites the pages and the
//! command line apply to text.
use vstd::prelude::*;
use vstd::string::*;

verus! {

/// Unicode `White_Space`, the set that `char::is_whitespace` tests.
pub open spec fn is_space(c: char) -> bool {
    let u = c as u32;
    ||| 0x09 <= u <= 0x0D
    ||| u == 0x20
    ||| u == 0x85
    ||| u == 0xA0
    ||| u == 0x1680
    ||| 0x2000 <= u <= 0x200A
    ||| u == 0x2028
    ||| u == 0x2029
    ||| u == 0x202F
    ||| u == 0x205F
    ||| u == 0x3000
}

/// Whether `c` is whitespace in the Unicode sense.
pub fn is_space_char(c: char) -> (res: bool)
    ensures
        res == is_space(c),
{
    let u = c as u32;
    (0x09 <= u && u <= 0x0D) || u == 0x20 || u == 0x85 || u == 0xA0 || u == 0x1680 || (0x2000
        <= u && u <= 0x200A) || u == 0x2028 || u == 0x2029 || u == 0x202F || u == 0x205F || u
        == 0x3000
}

/// The ASCII digit for `d < 10`.
pub open spec fn digit_char(d: nat) -> char {
    ((48 + d) as u8) as char
}

/// Decimal digits of a natural number, most significant first.
pub open spec fn digits(n: nat) -> Seq<char>
    decreases n,
{
    if n < 10 {
        seq![digit_char(n)]
    } else {
        digits(n / 10).push(digit_char(n % 10))
    }
}

/// Decimal rendering of an integer, with a leading `-` when negative.
pub open spec fn int_text(i: int) -> Seq<char> {
    if i < 0 {
        seq!['-'] + digits((-i) as nat)
    } else {
        digits(i as nat)
    }
}

/// Appends one character to a string (`String::push`).
#[verifier::external_body]
pub fn push_char(s: &mut String, c: char)
    ensures
        final(s)@ == old(s)@.push(c),
{
    s.push(c);
}

/// Appends a string slice to a string.
pub fn push_str(s: &mut String, t: &str)
    ensures
        final(s)@ == old(s)@ + t@,
{
    s.append(t);
}

/// A new string holding the given text.
pub fn owned(t: &str) -> (res: String)
    ensures
        res@ == t@,
{
    t.to_owned()
}

fn digit(d: u64) -> (c: char)
    requires
        d < 10,
    ensures
        c == digit_char(d as nat),
{
    ((48 + d) as u8) as char
}

/// The decimal digits of `n`.
pub fn u64_text(n: u64) -> (res: String)
    ensures
        res@ == digits(n as nat),
    decreases n,
{
    if n < 10 {
        let mut s = String::new();
        push_char(&mut s, digit(n));
        s
    } else {
        let mut s = u64_text(n / 10);
        push_char(&mut s, digit(n % 10));
        s
    }
}

/// The decimal rendering of `n`, as `{}` formats an integer.
pub fn i64_text(n: i64) -> (res: String)
    ensures
        res@ == int_text(n as int),
{
    if n < 0 {
        let m: i128 = -(n as i128);
        let mut s = String::new();
        push_char(&mut s, '-');
        let d = u64_text(m as u64);
        push_str(&mut s, d.as_str());
        s
    } else {
        u64_text(n as u64)
    }
}

/// The characters of a string slice, in order.
pub fn chars_of(s: &str) -> (v: Vec<char>)
    ensures
        v@ == s@,
{
    let mut v: Vec<char> = Vec::new();
    let ghost t = s@;
    for c in it: s.chars()
        invariant
            it.seq() == t,
            v@ == t.take(it.index() as int),
    {
        proof {
            assert(t.take(it.index() + 1) == t.take(it.index() as int).push(c));
        }
        v.push(c);
    }
    proof {
        assert(t.take(t.len() as int) == t);
    }
    v
}

/// The string made of `v[from..to]`.
pub fn string_of(v: &Vec<char>, from: usize, to: usize) -> (res: String)
    requires
        from <= to <= v@.len(),
    ensures
        res@ == v@.subrange(from as int, to as int),
{
    let mut res = String::new();
    let mut i = from;
    while i < to
        invariant
            from <= i <= to <= v@.len(),
            res@ == v@.subrange(from as int, i as int),
        decreases to - i,
    {
        proof {
            assert(v@.subrange(from as int, i + 1) == v@.subrange(from as int, i as int).push(
                v@[i as int],
            ));
        }
        push_char(&mut res, v[i]);
        i = i + 1;
    }
    res
}

/// Length of `s` once its trailing whitespace is cut off.
pub open spec fn content_end(s: Seq<char>) -> nat
    decreases s.len(),
{
    if s.len() == 0 {
        0
    } else if is_space(s.last()) {
        content_end(s.drop_last())
    } else {
        s.len()
    }
}

/// Number of leading whitespace characters of `s`.
pub open spec fn leading_space(s: Seq<char>) -> nat
    decreases s.len(),
{
    if s.len() > 0 && is_space(s[0]) {
        1 + leading_space(s.drop_first())
    } else {
        0
    }
}

/// `s` without leading and trailing whitespace (`str::trim`).
pub open spec fn trimmed(s: Seq<char>) -> Seq<char> {
    let t = s.take(content_end(s) as int);
    t.skip(leading_space(t) as int)
}

/// Start of the last run of non-whitespace characters at the end of `s`.
pub open spec fn word_start(s: Seq<char>) -> nat
    decreases s.len(),
{
    if s.len() == 0 {
        0
    } else if is_space(s.last()) {
        s.len()
    } else {
        word_start(s.drop_last())
    }
}

/// The last whitespace-separated word of `s` (`s.split_whitespace().last()`).
pub open spec fn last_word(s: Seq<char>) -> Option<Seq<char>> {
    let e = content_end(s);
    if e == 0 {
        None
    } else {
        Some(s.subrange(word_start(s.take(e as int)) as int, e as int))
    }
}

/// Start of the piece after the last `sep` in `s`.
pub open spec fn piece_start(s: Seq<char>, sep: char) -> nat
    decreases s.len(),
{
    if s.len() == 0 {
        0
    } else if s.last() == sep {
        s.len()
    } else {
        piece_start(s.drop_last(), sep)
    }
}

/// The last piece of `s` split at `sep` (`s.split(sep).last()`).
pub open spec fn last_piece(s: Seq<char>, sep: char) -> Seq<char> {
    s.skip(piece_start(s, sep) as int)
}

fn content_end_exec(v: &Vec<char>) -> (e: usize)
    ensures
        e == content_end(v@),
        e <= v@.len(),
{
    let mut j = v.len();
    assert(v@.take(j as int) == v@);
    while j > 0 && is_space_char(v[j - 1])
        invariant
            j <= v@.len(),
            content_end(v@) == content_end(v@.take(j as int)),
        decreases j,
    {
        proof {
            assert(v@.take(j as int).drop_last() == v@.take(j - 1));
        }
        j = j - 1;
    }
    proof {
        if j > 0 {
            assert(v@.take(j as int).last() == v@[j - 1]);
        }
    }
    j
}

/// `text` without leading and trailing whitespace.
pub fn trim(text: &str) -> (res: String)
    ensures
        res@ == trimmed(text@),
{
    let v = chars_of(text);
    let e = content_end_exec(&v);
    let ghost t = v@.take(e as int);
    let mut i: usize = 0;
    assert(t.skip(0) == t);
    while i < e && is_space_char(v[i])
        invariant
            i <= e <= v@.len(),
            t == v@.take(e as int),
            leading_space(t) == i + leading_space(t.skip(i as int)),
        decreases e - i,
    {
        proof {
            assert(t.skip(i as int)[0] == v@[i as int]);
            assert(t.skip(i as int).drop_first() == t.skip(i + 1));
        }
        i = i + 1;
    }
    proof {
        if i < e {
            assert(t.skip(i as int)[0] == v@[i as int]);
        }
        assert(t.skip(i as int) == v@.subrange(i as int, e as int));
    }
    string_of(&v, i, e)
}

/// The last whitespace-separated word of `text`, if it has one.
pub fn last_word_of(text: &str) -> (res: Option<String>)
    ensures
        res matches Some(w) ==> last_word(text@) == Some(w@),
        res is None ==> last_word(text@) is None,
{
    let v = chars_of(text);
    let e = content_end_exec(&v);
    if e == 0 {
        return None;
    }
    let ghost t = v@.take(e as int);
    let mut i = e;
    while i > 0 && !is_space_char(v[i - 1])
        invariant
            i <= e <= v@.len(),
            t == v@.take(e as int),
            word_start(t) == word_start(v@.take(i as int)),
        decreases i,
    {
        proof {
            assert(v@.take(i as int).drop_last() == v@.take(i - 1));
        }
        i = i - 1;
    }
    proof {
        if i > 0 {
            assert(v@.take(i as int).last() == v@[i - 1]);
        }
    }
    Some(string_of(&v, i, e))
}

/// The part of `text` after the last `sep`, or all of it when there is none.
pub fn last_piece_of(text: &str, sep: char) -> (res: String)
    ensures
        res@ == last_piece(text@, sep),
{
    let v = chars_of(text);
    let mut i = v.len();
    assert(v@.take(i as int) == v@);
    while i > 0 && v[i - 1] != sep
        invariant
            i <= v@.len(),
            piece_start(v@, sep) == piece_start(v@.take(i as int), sep),
        decreases i,
    {
        proof {
            assert(v@.take(i as int).drop_last() == v@.take(i - 1));
        }
        i = i - 1;
    }
    proof {
        if i > 0 {
            assert(v@.take(i as int).last() == v@[i - 1]);
        }
        assert(v@.skip(i as int) == v@.subrange(i as int, v@.len() as int));
    }
    string_of(&v, i, v.len())
}

/// `s` with every `\r` removed (`s.replace("\r", "")`).
pub open spec fn without_cr(s: Seq<char>) -> Seq<char> {
    s.filter(|c: char| c != '\r')
}

/// Removes every carriage return from a text.
pub fn strip_cr(text: &str) -> (res: String)
    ensures
        res@ == without_cr(text@),
{
    let mut res = String::new();
    let ghost s = text@;
    for c in it: text.chars()
        invariant
            it.seq() == s,
            res@ == s.take(it.index() as int).filter(|c: char| c != '\r'),
    {
        proof {
            assert(s.take(it.index() + 1).drop_last() == s.take(it.index() as int));
            reveal_with_fuel(Seq::filter, 1);
        }
        if c != '\r' {
            push_char(&mut res, c);
        }
    }
    proof {
        assert(s.take(s.len() as int) == s);
    }
    res
}

/// `c` with a double quote turned into a single quote.
pub open spec fn single_quoted(c: char) -> char {
    if c == '"' {
        '\''
    } else {
        c
    }
}

/// Left-to-right replacement of each `\'` by `'` (`t.replace("\\'", "'")`).
pub open spec fn unescape_quotes(t: Seq<char>) -> Seq<char>
    decreases t.len(),
{
    if t.len() >= 2 && t[0] == '\\' && t[1] == '\'' {
        seq!['\''] + unescape_quotes(t.skip(2))
    } else if t.len() >= 1 {
        seq![t[0]] + unescape_quotes(t.skip(1))
    } else {
        t
    }
}

/// `s.replace("\"", "'").replace("\\'", "'")`: debug text made safe to embed.
pub open spec fn quotes_flattened(s: Seq<char>) -> Seq<char> {
    unescape_quotes(s.map_values(|c: char| single_quoted(c)))
}

/// Turns double quotes into single ones and drops the backslash of each `\'`.
pub fn flatten_quotes(text: &str) -> (res: String)
    ensures
        res@ == quotes_flattened(text@),
{
    let v = chars_of(text);
    let ghost t = text@.map_values(|c: char| single_quoted(c));
    let n = v.len();
    let mut res = String::new();
    let mut i: usize = 0;
    assert(t.skip(0) == t);
    assert(res@ + t == t);
    while i < n
        invariant
            n == v@.len(),
            v@ == text@,
            t == text@.map_values(|c: char| single_quoted(c)),
            i <= n,
            res@ + unescape_quotes(t.skip(i as int)) == unescape_quotes(t),
        decreases n - i,
    {
        let c = if v[i] == '"' {
            '\''
        } else {
            v[i]
        };
        assert(t.skip(i as int)[0] == c);
        if c == '\\' && i + 1 < n && (v[i + 1] == '"' || v[i + 1] == '\'') {
            proof {
                assert(t.skip(i as int)[1] == '\'');
                assert(t.skip(i as int).skip(2) == t.skip(i + 2));
                assert(res@.push('\'') + unescape_quotes(t.skip(i + 2)) == res@ + (seq!['\'']
                    + unescape_quotes(t.skip(i + 2))));
            }
            push_char(&mut res, '\'');
            i = i + 2;
        } else {
            proof {
                assert(t.skip(i as int).skip(1) == t.skip(i + 1));
                if i + 1 < n {
                    assert(t.skip(i as int)[1] == single_quoted(v@[i + 1]));
                }
                assert(res@.push(c) + unescape_quotes(t.skip(i + 1)) == res@ + (seq![c]
                    + unescape_quotes(t.skip(i + 1))));
            }
            push_char(&mut res, c);
            i = i + 1;
        }
    }
    proof {
        assert(t.skip(n as int) =~= Seq::<char>::empty());
        assert(res@ + Seq::<char>::empty() == res@);
    }
    res
}

} // verus!
