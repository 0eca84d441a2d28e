use notate::chord::Chord;
use notate::error::Error;

#[test]
fn parse_valid_token() {
    let c = Chord::parse("{Am; C E A; }").unwrap();
    assert_eq!(c.name(), "Am");
    assert_eq!(c.left(), &vec!["C".to_string(), "E".to_string(), "A".to_string()]);
    assert!(c.right().is_empty());
}

#[test]
fn parse_trims_fields() {
    let c = Chord::parse("{  Am  ;  C   E  ;  c e  }").unwrap();
    assert_eq!(c.name(), "Am");
    assert_eq!(c.left(), &vec!["C".to_string(), "E".to_string()]);
    assert_eq!(c.right(), &vec!["c".to_string(), "e".to_string()]);
}

#[test]
fn parse_two_fields_fails() {
    let e = Chord::parse("{Am; C E A}").unwrap_err();
    assert!(matches!(e, Error::MalformedChord(t) if t == "{Am; C E A}"));
}

#[test]
fn parse_one_field_fails() {
    let e = Chord::parse("{Am}").unwrap_err();
    assert!(matches!(e, Error::MalformedChord(t) if t == "{Am}"));
}

#[test]
fn parse_four_fields_fails() {
    let e = Chord::parse("{a;b;c;d}").unwrap_err();
    assert!(matches!(e, Error::MalformedChord(_)));
}

#[test]
fn parse_without_braces_fails() {
    assert!(Chord::parse("Am; C E A; ").is_err());
    assert!(Chord::parse("{Am; C E A; ").is_err());
    assert!(Chord::parse("Am; C E A; }").is_err());
    assert!(Chord::parse("").is_err());
}

#[test]
fn render_is_deterministic() {
    let token = "{Am; C E A; c e a}";
    let first = Chord::parse(token).unwrap().to_raw();
    let second = Chord::parse(token).unwrap().to_raw();
    assert_eq!(first, second);
}

#[test]
fn to_raw_selects_layout_by_hands() {
    let right_only = Chord::parse("{C; ; c e g}").unwrap().to_raw();
    assert!(right_only.contains("\\clef \"treble\""));
    assert!(!right_only.contains("\\clef \"bass\""));
    assert!(!right_only.contains("PianoStaff"));

    let left_only = Chord::parse("{C; c e g; }").unwrap().to_raw();
    assert!(left_only.contains("\\clef \"bass\""));
    assert!(!left_only.contains("\\clef \"treble\""));

    let both = Chord::parse("{C; c e g; c' e' g'}").unwrap().to_raw();
    assert!(both.contains("PianoStaff"));
    assert!(both.contains("\\clef \"treble\""));
    assert!(both.contains("\\clef \"bass\""));
}

#[test]
fn to_raw_righthand_exact() {
    let c = Chord::parse("{C; ; c e g}").unwrap();
    let expected = r#"
\score {
    <<
        \new ChordNames \with {
            \override ChordName.font-size = #-2
        } \chordmode { C }
        \new Staff = "right" \with {
            fontSize = #-2
            \override StaffSymbol.staff-space = #(magstep -2)
            \once \override Staff.TimeSignature.stencil = ##f
        } {
            \clef "treble"
            \relative c'
            {
                <c e g>
            }
        }
    >>
    \layout {
        clip-regions = #(list
            (cons
                (make-rhythmic-location 1 0 4)
                (make-rhythmic-location 1 1 4)
            )
        )
    }
}
    "#;
    assert_eq!(c.to_raw(), expected);
}

#[test]
fn to_twohand_raw_holds_both_hands() {
    let c = Chord::parse("{G; g b d; g' b' d'}").unwrap();
    let raw = c.to_twohand_raw();
    assert!(raw.contains("\\chordmode { G }"));
    assert!(raw.contains("<g' b' d'>"));
    assert!(raw.contains("<g b d>"));
    // The right hand's treble staff comes before the left hand's bass staff.
    let treble = raw.find("\\clef \"treble\"").unwrap();
    let bass = raw.find("\\clef \"bass\"").unwrap();
    assert!(treble < bass);
}

#[test]
fn artifact_paths() {
    let c = Chord::parse("{C; ; c e g}").unwrap();
    assert_eq!(c.ly_path("7"), "7.ly");
    assert_eq!(c.svg_path("7"), "7.svg");
    assert_eq!(c.svg_clip_path("7"), "7-from-1.0.1-to-1.1.4-clip.svg");
}

#[test]
fn empty_hands_render_empty_group() {
    // A degenerate chord with both hands empty falls to the right-hand
    // layout with an empty simultaneous-notes group.
    let c = Chord::parse("{X; ; }").unwrap();
    let raw = c.to_raw();
    assert!(raw.contains("<>"));
    assert!(raw.contains("\\clef \"treble\""));
}
