use notate::chord::Chord;
use notate::error::Error;
use notate::preprocessor::Preprocessor;
use notate::transpiler::{chordify, sectionify, titlefy, transpile_lines, Transpiler};

fn doc(lines: &[&str]) -> Vec<String> {
    lines.iter().map(|l| l.to_string()).collect()
}

#[test]
fn end_to_end_example() {
    let input = doc(&[
        "# My Song",
        "[Verse]",
        "Am    C",
        "Hello world",
        "{Am; C E A; }|{C; C E G; }",
    ]);
    let md = Preprocessor::new().generate_markdown(&input).unwrap();
    assert_eq!(
        md.lines,
        doc(&[
            "# `My Song`",
            "### `Verse`",
            "````",
            "Am    C",
            "Hello world",
            "````",
            "![](svgs/0.svg) &nbsp; &nbsp; ![](svgs/1.svg)",
        ])
    );
    assert_eq!(md.artifacts.len(), 2);
    assert_eq!(md.artifacts[0].index, 0);
    assert_eq!(md.artifacts[1].index, 1);
    assert_eq!(md.artifacts[0].source, Chord::parse("{Am; C E A; }").unwrap().to_raw());
    assert_eq!(md.artifacts[1].source, Chord::parse("{C; C E G; }").unwrap().to_raw());
}

#[test]
fn indices_are_sequential_across_lines() {
    let input = doc(&[
        "first pair",
        "{A; a; }|{B; b; }",
        "second pair",
        "{C; c; }|{D; d; }|{E; e; }",
    ]);
    let md = transpile_lines("svgs", &input).unwrap();
    for (k, artifact) in md.artifacts.iter().enumerate() {
        assert_eq!(artifact.index, k);
    }
    assert_eq!(md.artifacts.len(), 5);
    assert_eq!(md.lines[3], "![](svgs/0.svg) &nbsp; &nbsp; ![](svgs/1.svg)");
    assert_eq!(
        md.lines[7],
        "![](svgs/2.svg) &nbsp; &nbsp; ![](svgs/3.svg) &nbsp; &nbsp; ![](svgs/4.svg)"
    );
}

#[test]
fn rerun_is_byte_identical() {
    let input = doc(&["# T T", "words", "{F; f a c; }", "", "more words"]);
    let first = transpile_lines("svgs", &input).unwrap();
    let second = transpile_lines("svgs", &input).unwrap();
    assert_eq!(first.lines, second.lines);
    assert_eq!(first.artifacts.len(), second.artifacts.len());
    for (a, b) in first.artifacts.iter().zip(second.artifacts.iter()) {
        assert_eq!(a.index, b.index);
        assert_eq!(a.source, b.source);
    }
}

#[test]
fn chord_line_without_companion_fails() {
    let e = transpile_lines("svgs", &doc(&["{Am; C E A; }"])).unwrap_err();
    assert!(matches!(e, Error::MalformedTab));
}

#[test]
fn chord_line_after_blank_fails() {
    let input = doc(&["names", "", "{Am; C E A; }"]);
    let e = transpile_lines("svgs", &input).unwrap_err();
    assert!(matches!(e, Error::MalformedTab));
}

#[test]
fn chord_line_after_heading_fails() {
    let input = doc(&["[Verse]", "{Am; C E A; }"]);
    let e = transpile_lines("svgs", &input).unwrap_err();
    assert!(matches!(e, Error::MalformedTab));
}

#[test]
fn malformed_token_fails_with_its_token() {
    let input = doc(&["names", "{Am; C E A; }|{bad}"]);
    let e = transpile_lines("svgs", &input).unwrap_err();
    assert!(matches!(e, Error::MalformedChord(t) if t == "{bad}"));
}

#[test]
fn empty_document_yields_empty_markdown() {
    let md = transpile_lines("svgs", &Vec::new()).unwrap();
    assert!(md.lines.is_empty());
    assert!(md.artifacts.is_empty());
}

#[test]
fn blank_lines_pass_through() {
    let md = transpile_lines("svgs", &doc(&["", "", "# A B"])).unwrap();
    assert_eq!(md.lines, doc(&["", "", "# `A B`"]));
}

#[test]
fn plain_block_runs_to_end_of_stream() {
    let md = transpile_lines("svgs", &doc(&["one", "two"])).unwrap();
    assert_eq!(md.lines, doc(&["````", "one", "two", "````"]));
}

#[test]
fn plain_blocks_split_at_non_plain_lines() {
    let md = transpile_lines("svgs", &doc(&["one", "", "two"])).unwrap();
    assert_eq!(md.lines, doc(&["````", "one", "````", "", "````", "two", "````"]));
}

#[test]
fn titlefy_strips_marker_token() {
    assert_eq!(titlefy("# My Song"), "# `My Song`");
    assert_eq!(titlefy("## Sub Title"), "# `Sub Title`");
}

#[test]
fn sectionify_strips_enclosing_brackets() {
    assert_eq!(sectionify("[Verse 1]"), "### `Verse 1`");
    assert_eq!(sectionify("[]"), "### ``");
}

#[test]
fn chordify_splits_on_pipes() {
    let chords = chordify(" {A; a; } | {B; ; b} ").unwrap();
    assert_eq!(chords.len(), 2);
    assert_eq!(chords[0].name(), "A");
    assert_eq!(chords[1].name(), "B");
}

#[test]
fn chordify_reports_first_bad_token() {
    let e = chordify("{A; a; }|oops|{B; ; b}").unwrap_err();
    assert!(matches!(e, Error::MalformedChord(t) if t == "oops"));
}

#[test]
fn transpiler_uses_configured_image_dir() {
    let t = Transpiler::new("sources", "images");
    assert_eq!(t.ly_dir(), "sources");
    assert_eq!(t.svg_dir(), "images");
    let md = t.generate_markdown(&doc(&["names", "{A; a; }"])).unwrap();
    assert_eq!(md.lines[3], "![](images/0.svg)");
}

#[test]
fn preprocessor_builder_replaces_dirs() {
    let p = Preprocessor::new();
    assert_eq!(p.ly_dir(), "lys");
    assert_eq!(p.svg_dir(), "svgs");
    let p = p.set_ly_dir("a").set_svg_dir("b");
    assert_eq!(p.ly_dir(), "a");
    assert_eq!(p.svg_dir(), "b");
}

#[test]
fn error_messages() {
    assert_eq!(Error::MalformedTab.message(), "malformed tab");
    assert_eq!(Error::MalformedChord("{x}".to_string()).message(), "malformed chord: {x}");
    assert_eq!(Error::Io("gone".to_string()).message(), "io error: gone");
    assert_eq!(Error::Unknown.message(), "unknown error");
}
