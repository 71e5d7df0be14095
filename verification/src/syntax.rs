//! Syntax highlighting of pastes into HTML with CSS classes.
use vstd::prelude::*;

use syntect::html::{ClassStyle, ClassedHTMLGenerator};
use syntect::parsing::{SyntaxDefinition, SyntaxReference, SyntaxSetBuilder};
use syntect::parsing::SyntaxSet as SyntectSyntaxSet;

use crate::error::{ErrorSource, ErrorView, ServerError};
use crate::schema::str_view;
use crate::text::{chars_of, string_of};

verus! {

#[verifier::external_type_specification]
#[verifier::external_body]
pub struct ExSyntectSet(SyntectSyntaxSet);

#[verifier::external_type_specification]
#[verifier::external_body]
pub struct ExSyntaxSetBuilder(SyntaxSetBuilder);

#[verifier::external_type_specification]
#[verifier::external_body]
pub struct ExSyntaxReference(SyntaxReference);

#[verifier::external_type_specification]
#[verifier::external_body]
pub struct ExClassedHTMLGenerator<'a>(ClassedHTMLGenerator<'a>);

#[verifier::external_type_specification]
#[verifier::external_body]
pub struct ExSyntectError(syntect::Error);

#[verifier::external_type_specification]
#[verifier::external_body]
pub struct ExSyntaxDefinition(SyntaxDefinition);

/// A syntax definition as syntect loaded it from a `.sublime-syntax` text:
/// that text, and the name and file extensions the definition declares.
pub struct DefinitionView {
    pub text: Seq<char>,
    pub name: Seq<char>,
    pub extensions: Seq<Seq<char>>,
}

/// Whether the set built from `dump` (plus plain text) holds the syntax of
/// `d`: it finds a syntax by `d`'s name and by each of `d`'s extensions.
pub open spec fn syntax_defined(dump: Seq<u8>, d: DefinitionView) -> bool {
    &&& name_found(dump, d.name)
    &&& forall|j: int| 0 <= j < d.extensions.len() ==> extension_found(dump, #[trigger] d.extensions[j])
}

/// The syntaxes a paste can be highlighted with: those of a compressed
/// dump, plus plain text. Its view is the dump it was loaded from, which
/// always holds a sound set (`syntax_dump_sound`); a set built from
/// definitions also keeps the definitions it holds.
pub struct SyntaxSet {
    set: SyntectSyntaxSet,
    dump: Ghost<Seq<u8>>,
    definitions: Ghost<Seq<DefinitionView>>,
}

impl View for SyntaxSet {
    type V = Seq<u8>;

    closed spec fn view(&self) -> Seq<u8> {
        self.dump@
    }
}

impl SyntaxSet {
    /// The dump of every set is sound, and holds the syntax of each
    /// definition the set keeps.
    #[verifier::type_invariant]
    spec fn holds_sound_dump(self) -> bool {
        &&& syntax_dump_sound(self.dump@)
        &&& forall|i: int|
            0 <= i < self.definitions@.len() ==> syntax_defined(self.dump@, #[trigger] self.definitions@[i])
    }

    /// The definitions the set was built from, in order (none for a set
    /// loaded from a dump).
    pub closed spec fn definitions(&self) -> Seq<DefinitionView> {
        self.definitions@
    }
}

/// A set built from the dump's syntaxes plus plain text.
struct BuiltSet {
    set: SyntectSyntaxSet,
    dump: Ghost<Seq<u8>>,
}

/// A syntax definition syntect loaded from the text of a `.sublime-syntax`
/// file, with what it was loaded from and declares.
struct LoadedDefinition {
    definition: SyntaxDefinition,
    view: Ghost<DefinitionView>,
}

/// A builder that holds only definitions syntect loaded, in the order added.
struct DefinitionBuilder {
    builder: SyntaxSetBuilder,
    added: Ghost<Seq<DefinitionView>>,
}

/// A set built from definitions syntect loaded.
struct DefinitionSet {
    set: SyntectSyntaxSet,
    added: Ghost<Seq<DefinitionView>>,
}

/// A set as loaded from a dump, before plain text is added.
struct LoadedSet {
    set: SyntectSyntaxSet,
    dump: Ghost<Seq<u8>>,
}

/// A builder holding the syntaxes of a dump, with or without plain text.
struct Builder {
    builder: SyntaxSetBuilder,
    dump: Ghost<Seq<u8>>,
    plain: Ghost<bool>,
}

/// A syntax of a set, with how it was looked up: by extension or by name,
/// and the key.
struct FoundSyntax<'a> {
    syntax: &'a SyntaxReference,
    dump: Ghost<Seq<u8>>,
    by_extension: Ghost<bool>,
    key: Ghost<Seq<char>>,
}

/// An HTML generator for one syntax, with the lines fed to it so far.
struct Highlighter<'a> {
    generator: ClassedHTMLGenerator<'a>,
    dump: Ghost<Seq<u8>>,
    by_extension: Ghost<bool>,
    key: Ghost<Seq<char>>,
    fed: Ghost<Seq<Seq<char>>>,
}

/// Whether `syntect::dumps::from_reader` loads a syntax set from the bytes
/// of a compressed dump.
pub uninterp spec fn syntax_dump_loads(bin: Seq<u8>) -> bool;

/// Whether the set a compressed dump holds, where it holds one, keeps the
/// invariants that syntect relies on without checking them, and panics
/// where they fail: the context data of each syntax unpacks, each syntax
/// has its `__start` context, and each pattern compiles. `SyntaxSetBuilder::build` establishes them for
/// definitions that `SyntaxDefinition::load_from_str` loaded (it adds
/// `__start` and compiles each pattern), and `syntect::dumps::dump_binary`
/// writes them out as they are; a dump from elsewhere may break them.
pub uninterp spec fn syntax_dump_sound(bin: Seq<u8>) -> bool;

/// Whether `SyntaxDefinition::load_from_str(text, true, None)` loads a
/// syntax definition from the text of a `.sublime-syntax` file.
pub uninterp spec fn syntax_definition_loads(text: Seq<char>) -> bool;

/// Whether `SyntaxSet::find_syntax_by_extension` finds a syntax for `ext`
/// in the set built from `dump` with plain text added.
pub uninterp spec fn extension_found(dump: Seq<u8>, ext: Seq<char>) -> bool;

/// Whether `SyntaxSet::find_syntax_by_name` finds a syntax named `name` in
/// the set built from `dump` with plain text added.
pub uninterp spec fn name_found(dump: Seq<u8>, name: Seq<char>) -> bool;

/// Whether `ClassedHTMLGenerator::parse_html_for_line_which_includes_newline`
/// accepts `line`, in a generator over the set built from `dump` (plus plain
/// text), for the syntax found by extension or by name under `key`, after
/// the lines `before`.
pub uninterp spec fn line_parses(
    dump: Seq<u8>,
    by_extension: bool,
    key: Seq<char>,
    before: Seq<Seq<char>>,
    line: Seq<char>,
) -> bool;

/// What `ClassedHTMLGenerator::finalize` returns for such a generator, once
/// `lines` were fed to it.
pub uninterp spec fn generated_html(
    dump: Seq<u8>,
    by_extension: bool,
    key: Seq<char>,
    lines: Seq<Seq<char>>,
) -> Seq<char>;

/// Reads a compressed syntax dump.
///
/// Calls `syntect::dumps::from_reader(bin)` and keeps the set it loads,
/// together with the dump; `None` when the dump is invalid, which the name
/// `syntax_dump_loads` stands for.
#[verifier::external_body]
fn load_dump(bin: &[u8]) -> (r: Option<LoadedSet>)
    ensures
        r is Some <==> syntax_dump_loads(bin@),
        r matches Some(l) ==> l.dump@ == bin@,
{
    match syntect::dumps::from_reader(bin) {
        Ok(set) => Some(LoadedSet { set, dump: Ghost(bin@) }),
        Err(_) => None,
    }
}

/// Calls `SyntaxSet::into_builder`: a builder with the same syntaxes, to
/// which plain text has not been added. It unpacks each syntax's context
/// data, and panics where that fails, so the dump must be sound.
#[verifier::external_body]
fn into_builder(loaded: LoadedSet) -> (b: Builder)
    requires
        syntax_dump_sound(loaded.dump@),
    ensures
        b.dump == loaded.dump,
        !b.plain@,
{
    Builder { builder: loaded.set.into_builder(), dump: loaded.dump, plain: Ghost(false) }
}

/// Calls `SyntaxSetBuilder::add_plain_text_syntax`: the builder now holds
/// the plain text syntax too.
#[verifier::external_body]
fn add_plain_text_syntax(b: &mut Builder)
    ensures
        final(b).dump == old(b).dump,
        final(b).plain@,
{
    b.builder.add_plain_text_syntax();
    b.plain = Ghost(true);
}

/// Calls `SyntaxSetBuilder::build` on a builder to which plain text was
/// added: the set it gives finds the syntax named "Plain Text", the name
/// that `add_plain_text_syntax` gives it.
#[verifier::external_body]
fn build(b: Builder) -> (s: BuiltSet)
    requires
        b.plain@,
    ensures
        s.dump == b.dump,
        name_found(s.dump@, "Plain Text"@),
{
    BuiltSet { set: b.builder.build(), dump: b.dump }
}

/// Calls `SyntaxSet::find_syntax_by_extension`: `Some` exactly when the
/// name `extension_found` holds.
#[verifier::external_body]
fn find_by_extension<'a>(set: &'a SyntaxSet, extension: &str) -> (r: Option<FoundSyntax<'a>>)
    ensures
        r is Some <==> extension_found(set@, extension@),
        r matches Some(f) ==> f.dump@ == set@ && f.by_extension@ && f.key@ == extension@,
{
    match set.set.find_syntax_by_extension(extension) {
        Some(syntax) => Some(
            FoundSyntax {
                syntax,
                dump: Ghost(set@),
                by_extension: Ghost(true),
                key: Ghost(extension@),
            },
        ),
        None => None,
    }
}

/// Calls `SyntaxSet::find_syntax_by_name`: `Some` exactly when the name
/// `name_found` holds.
#[verifier::external_body]
fn find_by_name<'a>(set: &'a SyntaxSet, name: &str) -> (r: Option<FoundSyntax<'a>>)
    ensures
        r is Some <==> name_found(set@, name@),
        r matches Some(f) ==> f.dump@ == set@ && !f.by_extension@ && f.key@ == name@,
{
    match set.set.find_syntax_by_name(name) {
        Some(syntax) => Some(
            FoundSyntax {
                syntax,
                dump: Ghost(set@),
                by_extension: Ghost(false),
                key: Ghost(name@),
            },
        ),
        None => None,
    }
}

/// Calls `ClassedHTMLGenerator::new_with_class_style` with spaced classes,
/// for a syntax of the same set: a generator that has been fed nothing. It
/// looks up the syntax's `__start` context, and panics where there is none,
/// so the dump must be sound.
#[verifier::external_body]
fn new_generator<'a>(found: FoundSyntax<'a>, set: &'a SyntaxSet) -> (h: Highlighter<'a>)
    requires
        found.dump@ == set@,
        syntax_dump_sound(set@),
    ensures
        h.dump == found.dump,
        h.by_extension == found.by_extension,
        h.key == found.key,
        h.fed@ == Seq::<Seq<char>>::empty(),
{
    Highlighter {
        generator: ClassedHTMLGenerator::new_with_class_style(found.syntax, &set.set, ClassStyle::Spaced),
        dump: found.dump,
        by_extension: found.by_extension,
        key: found.key,
        fed: Ghost(Seq::empty()),
    }
}

/// Calls `ClassedHTMLGenerator::parse_html_for_line_which_includes_newline`:
/// the line is fed, and it is accepted exactly when `line_parses` holds. It
/// compiles patterns as it meets them, and panics on one that does not
/// compile, so the dump must be sound.
#[verifier::external_body]
fn parse_line(h: &mut Highlighter, line: &str) -> (r: Result<(), syntect::Error>)
    requires
        syntax_dump_sound(old(h).dump@),
    ensures
        final(h).dump == old(h).dump,
        final(h).by_extension == old(h).by_extension,
        final(h).key == old(h).key,
        final(h).fed@ == old(h).fed@.push(line@),
        r is Ok <==> line_parses(old(h).dump@, old(h).by_extension@, old(h).key@, old(h).fed@, line@),
{
    let r = h.generator.parse_html_for_line_which_includes_newline(line);
    h.fed = Ghost(h.fed@.push(line@));
    r
}

/// Calls `ClassedHTMLGenerator::finalize`: the HTML that `generated_html`
/// names for the lines fed.
#[verifier::external_body]
fn finalize(h: Highlighter) -> (html: String)
    ensures
        html@ == generated_html(h.dump@, h.by_extension@, h.key@, h.fed@),
{
    h.generator.finalize()
}

/// Calls `SyntaxDefinition::load_from_str(text, true, None)`, for lines
/// that keep their newline: `Some` exactly when `syntax_definition_loads`
/// holds. The definition keeps, as its model, the text and the definition's
/// own `name` and `file_extensions` fields.
#[verifier::external_body]
fn load_definition(text: &str) -> (r: Option<LoadedDefinition>)
    ensures
        r is Some <==> syntax_definition_loads(text@),
        r matches Some(d) ==> d.view@.text == text@,
{
    match SyntaxDefinition::load_from_str(text, true, None) {
        Ok(definition) => {
            let view = Ghost(
                DefinitionView {
                    text: text@,
                    name: definition.name@,
                    extensions: definition.file_extensions@.map_values(|e: String| e@),
                },
            );
            Some(LoadedDefinition { definition, view })
        },
        Err(_) => None,
    }
}

/// Calls `SyntaxSetBuilder::new`: a builder with no definitions.
#[verifier::external_body]
fn new_definition_builder() -> (b: DefinitionBuilder)
    ensures
        b.added@ == Seq::<DefinitionView>::empty(),
{
    DefinitionBuilder { builder: SyntaxSetBuilder::new(), added: Ghost(Seq::empty()) }
}

/// Calls `SyntaxSetBuilder::add`: the definition is added after the others.
#[verifier::external_body]
fn add_definition(b: &mut DefinitionBuilder, d: LoadedDefinition)
    ensures
        final(b).added@ == old(b).added@.push(d.view@),
{
    b.builder.add(d.definition);
    b.added = Ghost(b.added@.push(d.view@));
}

/// Calls `SyntaxSetBuilder::build`: a set of the added definitions.
#[verifier::external_body]
fn build_definitions(b: DefinitionBuilder) -> (s: DefinitionSet)
    ensures
        s.added == b.added,
{
    DefinitionSet { set: b.builder.build(), added: b.added }
}

/// Calls `syntect::dumps::dump_binary` on a set built from loaded
/// definitions: a dump that loads and is sound, and whose set (as any set
/// built from it) keeps each definition's syntax under its name and file
/// extensions, which `find_syntax_by_name` and `find_syntax_by_extension`
/// then find. Its bytes are not stated: `SyntaxSetBuilder::build` numbers
/// contexts in the order of a `HashMap` seeded per process.
#[verifier::external_body]
fn dump_definitions(s: &DefinitionSet) -> (bin: Vec<u8>)
    ensures
        syntax_dump_loads(bin@),
        syntax_dump_sound(bin@),
        forall|i: int| 0 <= i < s.added@.len() ==> syntax_defined(bin@, #[trigger] s.added@[i]),
{
    syntect::dumps::dump_binary(&s.set)
}

/// How a highlighting failure displays and debug-prints.
///
/// Formats the `syntect::Error` with `Display` and `Debug`; nothing is stated.
#[verifier::external_body]
fn syntect_error_source(e: &syntect::Error) -> ErrorSource {
    ErrorSource { display: format!("{}", e), debug: format!("{:?}", e) }
}

/// The error for a failed highlighting step: 500, without a message.
pub open spec fn highlight_failed(e: ErrorView) -> bool {
    e.code == 500 && e.message is None
}

/// Length of the first line of `s`, its newline included.
pub open spec fn line_end(s: Seq<char>) -> nat
    decreases s.len(),
{
    if s.len() == 0 {
        0
    } else if s[0] == '\n' {
        1
    } else {
        1 + line_end(s.skip(1))
    }
}

/// The lines of `s`, each with its newline; the last one may lack it
/// (syntect's `LinesWithEndings`).
pub open spec fn lines_with_endings(s: Seq<char>) -> Seq<Seq<char>>
    decreases s.len(),
    via lines_with_endings_decreases
{
    if s.len() == 0 {
        Seq::empty()
    } else {
        seq![s.take(line_end(s) as int)] + lines_with_endings(s.skip(line_end(s) as int))
    }
}

/// A non-empty text's first line is non-empty and within it.
pub proof fn lemma_line_end_bounds(s: Seq<char>)
    requires
        s.len() > 0,
    ensures
        0 < line_end(s) <= s.len(),
    decreases s.len(),
{
    if s[0] != '\n' {
        if s.len() > 1 {
            lemma_line_end_bounds(s.skip(1));
            assert(line_end(s) == 1 + line_end(s.skip(1)));
        } else {
            assert(s.skip(1).len() == 0);
        }
    }
}

#[via_fn]
proof fn lines_with_endings_decreases(s: Seq<char>) {
    if s.len() > 0 {
        lemma_line_end_bounds(s);
    }
}

/// The first line ends after the first newline, or at the end of `s`.
proof fn lemma_line_end(s: Seq<char>, j: nat)
    requires
        j <= s.len(),
        forall|k: int| 0 <= k < j ==> s[k] != '\n',
        j == s.len() || s[j as int] == '\n',
    ensures
        line_end(s) == if j == s.len() { j } else { j + 1 },
    decreases j,
{
    if j > 0 {
        lemma_line_end(s.skip(1), (j - 1) as nat);
    }
}

/// Whether every line parses after those before it.
pub open spec fn all_lines_parse(
    dump: Seq<u8>,
    by_extension: bool,
    key: Seq<char>,
    lines: Seq<Seq<char>>,
) -> bool {
    forall|i: int|
        0 <= i < lines.len() ==> line_parses(dump, by_extension, key, lines.take(i), #[trigger] lines[i])
}

/// The HTML of `content` highlighted with one syntax, line by line; `None`
/// when a line fails.
pub open spec fn highlighted_html(
    dump: Seq<u8>,
    by_extension: bool,
    key: Seq<char>,
    content: Seq<char>,
) -> Option<Seq<char>> {
    let lines = lines_with_endings(content);
    if all_lines_parse(dump, by_extension, key, lines) {
        Some(generated_html(dump, by_extension, key, lines))
    } else {
        None
    }
}

/// The extension looked up: the given one, or `txt`.
pub open spec fn looked_up_extension(extension: Option<Seq<char>>) -> Seq<char> {
    match extension {
        Some(e) => e,
        None => "txt"@,
    }
}

/// The syntax chosen for an extension, as (found by extension, key): that
/// of the extension when the set has one, else the one named "Plain Text".
pub open spec fn chosen_syntax(dump: Seq<u8>, extension: Option<Seq<char>>) -> Option<(bool, Seq<char>)> {
    let ext = looked_up_extension(extension);
    if extension_found(dump, ext) {
        Some((true, ext))
    } else if name_found(dump, "Plain Text"@) {
        Some((false, "Plain Text"@))
    } else {
        None
    }
}

/// The HTML of `content` under the extension, `None` when highlighting
/// fails.
pub open spec fn highlight_outcome(
    dump: Seq<u8>,
    extension: Option<Seq<char>>,
    content: Seq<char>,
) -> Option<Seq<char>> {
    match chosen_syntax(dump, extension) {
        Some((by_extension, key)) => highlighted_html(dump, by_extension, key, content),
        None => None,
    }
}

impl SyntaxSet {
    /// The syntaxes of a compressed dump, plus plain text; `None` when the
    /// dump is invalid. The dump must be sound, as one that syntect wrote
    /// for a set it built is.
    pub fn new(bin: &[u8]) -> (r: Option<Self>)
        requires
            syntax_dump_sound(bin@),
        ensures
            r is Some <==> syntax_dump_loads(bin@),
            r matches Some(s) ==> s@ == bin@ && name_found(s@, "Plain Text"@),
    {
        match load_dump(bin) {
            Some(loaded) => {
                let mut builder = into_builder(loaded);
                add_plain_text_syntax(&mut builder);
                let built = build(builder);
                Some(SyntaxSet { set: built.set, dump: built.dump, definitions: Ghost(Seq::empty()) })
            },
            None => None,
        }
    }

    /// The syntaxes of the given `.sublime-syntax` texts, plus plain text,
    /// by way of a dump; `None` when one of them does not load. The set
    /// keeps every definition, in order, and finds each one's syntax by its
    /// name and by each of its extensions.
    pub fn from_definitions(sources: &Vec<String>) -> (r: Option<Self>)
        ensures
            r is Some <==> forall|i: int|
                0 <= i < sources@.len() ==> syntax_definition_loads(#[trigger] sources@[i]@),
            r matches Some(s) ==> name_found(s@, "Plain Text"@),
            r matches Some(s) ==> s.definitions().len() == sources@.len() && forall|i: int|
                0 <= i < sources@.len() ==> (#[trigger] s.definitions()[i]).text == sources@[i]@
                    && syntax_defined(s@, s.definitions()[i]),
    {
        let mut builder = new_definition_builder();
        let mut i: usize = 0;
        while i < sources.len()
            invariant
                i <= sources@.len(),
                forall|k: int| 0 <= k < i ==> syntax_definition_loads(#[trigger] sources@[k]@),
                builder.added@.len() == i,
                forall|k: int| 0 <= k < i ==> (#[trigger] builder.added@[k]).text == sources@[k]@,
            decreases sources@.len() - i,
        {
            match load_definition(sources[i].as_str()) {
                Some(d) => add_definition(&mut builder, d),
                None => {
                    return None;
                },
            }
            i = i + 1;
        }
        let set = build_definitions(builder);
        let bin = dump_definitions(&set);
        match SyntaxSet::new(bin.as_slice()) {
            Some(loaded) => {
                proof {
                    use_type_invariant(&loaded);
                }
                Some(SyntaxSet { set: loaded.set, dump: loaded.dump, definitions: set.added })
            },
            None => None,
        }
    }

    /// The content as HTML, highlighted line by line with the syntax of the
    /// extension (`txt` when there is none, plain text when it is unknown);
    /// a failing line gives 500 with the cause.
    pub fn highlight(&self, extension: Option<&str>, content: &str) -> (r: Result<
        String,
        ServerError,
    >)
        ensures
            match highlight_outcome(self@, str_view(extension), content@) {
                Some(html) => r matches Ok(h) && h@ == html,
                None => r matches Err(e) && highlight_failed(e@),
            },
    {
        let ext = match extension {
            Some(e) => e,
            None => "txt",
        };
        let found = match find_by_extension(self, ext) {
            Some(f) => f,
            None => match find_by_name(self, "Plain Text") {
                Some(f) => f,
                None => {
                    return Err(ServerError::builder().build());
                },
            },
        };
        let ghost by_extension = found.by_extension@;
        let ghost key = found.key@;
        assert(chosen_syntax(self@, str_view(extension)) == Some((by_extension, key)));
        proof {
            use_type_invariant(self);
        }
        let mut h = new_generator(found, self);
        let chars = chars_of(content);
        let ghost lines = lines_with_endings(chars@);
        let n = chars.len();
        let mut start: usize = 0;
        assert(chars@.skip(0) == chars@);
        while start < n
            invariant
                n == chars@.len(),
                chars@ == content@,
                start <= n,
                lines == lines_with_endings(chars@),
                syntax_dump_sound(self@),
                chosen_syntax(self@, str_view(extension)) == Some((by_extension, key)),
                h.dump@ == self@,
                h.by_extension@ == by_extension,
                h.key@ == key,
                h.fed@ + lines_with_endings(chars@.skip(start as int)) == lines,
                all_lines_parse(self@, by_extension, key, h.fed@),
            decreases n - start,
        {
            let ghost rest = chars@.skip(start as int);
            let mut end = start;
            while end < n && chars[end] != '\n'
                invariant
                    start <= end <= n,
                    n == chars@.len(),
                    forall|k: int| start <= k < end ==> chars@[k] != '\n',
                decreases n - end,
            {
                end = end + 1;
            }
            proof {
                lemma_line_end(rest, (end - start) as nat);
            }
            if end < n {
                end = end + 1;
            }
            let line = string_of(&chars, start, end);
            let ghost before = h.fed@;
            proof {
                assert(rest.take(line_end(rest) as int) == line@);
                assert(rest.skip(line_end(rest) as int) == chars@.skip(end as int));
                assert(lines_with_endings(rest) == seq![line@] + lines_with_endings(chars@.skip(end as int)));
                assert(lines == before.push(line@) + lines_with_endings(chars@.skip(end as int)));
                assert(lines.take(before.len() as int) == before);
                assert(lines[before.len() as int] == line@);
            }
            match parse_line(&mut h, line.as_str()) {
                Ok(()) => {},
                Err(e) => {
                    proof {
                        let i = before.len() as int;
                        assert(!line_parses(self@, by_extension, key, lines.take(i), lines[i]));
                        assert(!all_lines_parse(self@, by_extension, key, lines));
                    }
                    return Err(ServerError::builder().source(syntect_error_source(&e)).build());
                },
            }
            proof {
                assert forall|i: int| 0 <= i < h.fed@.len() implies line_parses(
                    self@,
                    by_extension,
                    key,
                    h.fed@.take(i),
                    #[trigger] h.fed@[i],
                ) by {
                    if i < before.len() {
                        assert(h.fed@.take(i) == before.take(i));
                        assert(h.fed@[i] == before[i]);
                    } else {
                        assert(h.fed@.take(i) == before);
                    }
                }
            }
            start = end;
        }
        proof {
            assert(chars@.skip(n as int).len() == 0);
            assert(h.fed@ == lines);
        }
        Ok(finalize(h))
    }
}

} // verus!
