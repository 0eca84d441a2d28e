use notate::line::{Line, LineKind, LineReader, LineWriter};

#[test]
fn classify_empty_is_blank() {
    assert!(matches!(Line::from_line(String::new()), Line::Blank));
    assert_eq!(Line::kind_of(""), LineKind::Blank);
}

#[test]
fn classify_hash_is_title() {
    let l = Line::from_line("# My Song".to_string());
    assert!(matches!(l, Line::Title(t) if t == "# My Song"));
}

#[test]
fn classify_brackets_is_section() {
    let l = Line::from_line("[Verse 1]".to_string());
    assert!(matches!(l, Line::Section(t) if t == "[Verse 1]"));
}

#[test]
fn classify_braces_is_chords() {
    let l = Line::from_line("{Am; C E A; }".to_string());
    assert!(matches!(l, Line::Chords(t) if t == "{Am; C E A; }"));
}

#[test]
fn classify_anything_else_is_plain() {
    assert!(matches!(Line::from_line("Hello world".to_string()), Line::Plain(_)));
    // Unclosed delimiters do not make a section or chord line.
    assert!(matches!(Line::from_line("[Verse".to_string()), Line::Plain(_)));
    assert!(matches!(Line::from_line("{Am; ; ".to_string()), Line::Plain(_)));
    assert!(matches!(Line::from_line("]".to_string()), Line::Plain(_)));
}

#[test]
fn classification_precedence_is_fixed() {
    // A line that is both title-like and section-like resolves by the
    // ordered rule list: the title rule is checked first.
    assert_eq!(LineKind::Title, Line::kind_of("#[Verse]"));
    // A `[`-opened line that ends in `}` is no section and no chord line.
    assert_eq!(LineKind::Plain, Line::kind_of("[mixed}"));
}

#[test]
fn reader_reads_in_order() {
    let mut reader = LineReader::new(vec!["# A B".to_string(), "".to_string(), "x".to_string()]);
    assert!(matches!(reader.read(), Some(Line::Title(_))));
    assert!(matches!(reader.read(), Some(Line::Blank)));
    assert!(matches!(reader.read(), Some(Line::Plain(_))));
    assert!(reader.read().is_none());
}

#[test]
fn peek_does_not_consume() {
    let mut reader = LineReader::new(vec!["one".to_string(), "[S]".to_string()]);
    assert!(matches!(reader.peek(), Some(Line::Plain(t)) if t == "one"));
    assert!(matches!(reader.read(), Some(Line::Plain(t)) if t == "one"));
    assert!(matches!(reader.peek(), Some(Line::Section(_))));
    assert!(matches!(reader.read(), Some(Line::Section(_))));
    assert!(reader.peek().is_none());
    assert!(reader.read().is_none());
}

#[test]
fn writer_collects_lines() {
    let mut writer = LineWriter::new();
    writer.write("alpha");
    writer.write("");
    writer.write("beta");
    assert_eq!(
        writer.into_lines(),
        vec!["alpha".to_string(), "".to_string(), "beta".to_string()]
    );
}
