use paste_misterio_me::schema::Paste;
use paste_misterio_me::syntax::SyntaxSet;
use paste_misterio_me::time::Timestamp;
use syntect::html::{ClassStyle, ClassedHTMLGenerator};
use syntect::parsing::{SyntaxDefinition, SyntaxSetBuilder};
use syntect::util::LinesWithEndings;

const FOO_SYNTAX: &str = "%YAML 1.2
---
name: Foo
file_extensions: [foo]
scope: source.foo
contexts:
  main:
    - match: '\\bbar\\b'
      scope: keyword.foo
";

/// The dump of a set with the syntax `Foo` (extension `foo`) alone.
fn foo_dump() -> Vec<u8> {
    let mut builder = SyntaxSetBuilder::new();
    builder.add(SyntaxDefinition::load_from_str(FOO_SYNTAX, true, None).unwrap());
    syntect::dumps::dump_binary(&builder.build())
}

/// Highlights with syntect directly, on the dump's syntaxes plus plain text.
fn direct(bin: &[u8], syntax_name: &str, content: &str) -> String {
    let loaded: syntect::parsing::SyntaxSet = syntect::dumps::from_binary(bin);
    let mut builder = loaded.into_builder();
    builder.add_plain_text_syntax();
    let set = builder.build();
    let syntax = set.find_syntax_by_name(syntax_name).unwrap();
    let mut generator = ClassedHTMLGenerator::new_with_class_style(syntax, &set, ClassStyle::Spaced);
    for line in LinesWithEndings::from(content) {
        generator.parse_html_for_line_which_includes_newline(line).unwrap();
    }
    generator.finalize()
}

fn ok(r: Result<String, paste_misterio_me::error::ServerError>) -> String {
    match r {
        Ok(html) => html,
        Err(_) => panic!("highlighting failed"),
    }
}

fn paste(title: Option<&str>, content: &str) -> Paste {
    Paste {
        id: 1,
        creator: "ana".into(),
        creation: Timestamp { seconds: 0, nanos: 0 },
        content: content.into(),
        unlisted: false,
        title: title.map(|t| t.to_string()),
        description: None,
    }
}

#[test]
fn known_extension_uses_its_syntax() {
    let bin = foo_dump();
    let ss = SyntaxSet::new(&bin).unwrap();
    let html = ok(ss.highlight(Some("foo"), "bar baz\nbar"));
    assert_eq!(html, direct(&bin, "Foo", "bar baz\nbar"));
    assert!(html.contains("<span class=\"keyword foo\">bar</span>"));
    assert!(html.contains("baz"));
}

#[test]
fn unknown_extension_falls_back_to_plain_text() {
    let bin = foo_dump();
    let ss = SyntaxSet::new(&bin).unwrap();
    let content = "bar baz\nqux\n";
    let plain = direct(&bin, "Plain Text", content);
    assert_eq!(ok(ss.highlight(Some("zzz"), content)), plain);
    assert_eq!(ok(ss.highlight(None, content)), plain);
    assert_eq!(ok(ss.highlight(Some("txt"), content)), plain);
    assert!(!plain.contains("keyword"));
}

#[test]
fn empty_set_still_has_plain_text() {
    let bin = syntect::dumps::dump_binary(&SyntaxSetBuilder::new().build());
    let ss = SyntaxSet::new(&bin).unwrap();
    assert_eq!(ok(ss.highlight(Some("rs"), "fn main() {}\n")), direct(&bin, "Plain Text", "fn main() {}\n"));
    assert_eq!(ok(ss.highlight(None, "")), direct(&bin, "Plain Text", ""));
}

#[test]
fn paste_is_highlighted_by_its_title() {
    let bin = foo_dump();
    let ss = SyntaxSet::new(&bin).unwrap();
    let content = "bar\n";
    let foo = direct(&bin, "Foo", content);
    let plain = direct(&bin, "Plain Text", content);
    assert_ne!(foo, plain);
    assert_eq!(ok(paste(Some("notes.v1.foo"), content).highlight(&ss)), foo);
    assert_eq!(ok(paste(Some("foo"), content).highlight(&ss)), foo);
    assert_eq!(ok(paste(Some("notes.md"), content).highlight(&ss)), plain);
    assert_eq!(ok(paste(None, content).highlight(&ss)), plain);
}

#[test]
fn sets_are_built_from_syntax_definitions() {
    let ss = SyntaxSet::from_definitions(&vec![FOO_SYNTAX.to_string()]).unwrap();
    let html = ok(ss.highlight(Some("foo"), "bar baz\n"));
    assert!(html.contains("<span class=\"keyword foo\">bar</span>"));
    let plain = ok(ss.highlight(Some("zzz"), "bar baz\n"));
    assert!(!plain.contains("keyword"));
    assert!(SyntaxSet::from_definitions(&vec![FOO_SYNTAX.to_string(), "not: [a syntax".to_string()]).is_none());
    let bad_pattern = FOO_SYNTAX.replace("\\bbar\\b", "[a");
    assert_ne!(bad_pattern, FOO_SYNTAX);
    assert!(SyntaxSet::from_definitions(&vec![bad_pattern]).is_none());
    let empty = SyntaxSet::from_definitions(&vec![]).unwrap();
    assert!(ok(empty.highlight(None, "x\n")).contains('x'));
}
