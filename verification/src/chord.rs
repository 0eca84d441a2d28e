//! The chord notation parser and renderer: parses one textual chord token of
//! the canonical dialect `{name; left-hand notes; right-hand notes}` into a
//! structured chord, and renders a chord back into the external typesetter's
//! source markup.

use crate::error::Error;
use crate::strings::{
    spec_split, spec_split_spaces, spec_trim, spec_join, split_char, split_spaces, trim, join,
};
use vstd::prelude::*;

verus! {

/// The mathematical content of a [`Chord`]: its display name and the pitch
/// tokens of each hand, in order.
pub struct ChordView {
    pub name: Seq<char>,
    pub left: Seq<Seq<char>>,
    pub right: Seq<Seq<char>>,
}

/// One structured chord: a display name plus the ordered pitch tokens of the
/// left and the right hand (either may be empty, meaning that hand's staff
/// is omitted when rendering).
#[derive(Debug)]
pub struct Chord {
    name: String,
    left: Vec<String>,
    right: Vec<String>,
}

impl View for Chord {
    type V = ChordView;

    closed spec fn view(&self) -> ChordView {
        ChordView { name: self.name@, left: self.left.deep_view(), right: self.right.deep_view() }
    }
}

impl DeepView for Chord {
    type V = ChordView;

    open spec fn deep_view(&self) -> ChordView {
        self.view()
    }
}

/// What parsing a chord token yields: `None` exactly when the token is not
/// `{`…`}` around three `;`-delimited fields. The name field is
/// whitespace-trimmed; the hand fields are split into whitespace-separated
/// pitch tokens (an empty field yields an empty sequence).
pub open spec fn spec_parse(tok: Seq<char>) -> Option<ChordView> {
    if tok.len() >= 2 && tok[0] == '{' && tok[tok.len() - 1] == '}' {
        let fields = spec_split(tok.subrange(1, tok.len() - 1), ';');
        if fields.len() == 3 {
            Some(
                ChordView {
                    name: spec_trim(fields[0]),
                    left: spec_split_spaces(fields[1]),
                    right: spec_split_spaces(fields[2]),
                },
            )
        } else {
            None
        }
    } else {
        None
    }
}

/// Opening of every score: the chord-name voice, up to the hole for the
/// chord's display name.
pub const RAW_HEAD: &'static str = r#"
\score {
    <<
        \new ChordNames \with {
            \override ChordName.font-size = #-2
        } \chordmode { "#;

/// Single-staff left-hand layout: from the name hole to the hole for the
/// left hand's notes.
pub const RAW_LEFT_MID: &'static str = r#" }
        \new Staff = "left" \with {
            fontSize = #-2
            \override StaffSymbol.staff-space = #(magstep -2)
            \once \override Staff.TimeSignature.stencil = ##f
        } {
            \clef "bass"
            \relative c
            {
                "#;

/// Single-staff right-hand layout: from the name hole to the hole for the
/// right hand's notes.
pub const RAW_RIGHT_MID: &'static str = r#" }
        \new Staff = "right" \with {
            fontSize = #-2
            \override StaffSymbol.staff-space = #(magstep -2)
            \once \override Staff.TimeSignature.stencil = ##f
        } {
            \clef "treble"
            \relative c'
            {
                "#;

/// Closing of both single-staff layouts: the one-beat clipped region.
pub const RAW_SINGLE_TAIL: &'static str = r#"
            }
        }
    >>
    \layout {
        clip-regions = #(list
            (cons
                (make-rhythmic-location 1 0 4)
                (make-rhythmic-location 1 1 4)
            )
        )
    }
}
    "#;

/// Grand-staff layout, first part: from the name hole to the hole for the
/// right hand's notes.
pub const RAW_TWO_MID1: &'static str = r#" }
        \new PianoStaff
        <<
            \new Staff = "right" \with {
                fontSize = #-2
                \override StaffSymbol.staff-space = #(magstep -2)
                \once \override Staff.TimeSignature.stencil = ##f
            } {
                \clef "treble"
                \relative c'
                {
                    "#;

/// Grand-staff layout, second part: from the right hand's hole to the hole
/// for the left hand's notes.
pub const RAW_TWO_MID2: &'static str = r#"
                }
            }
            \new Staff = "left" \with {
                fontSize = #-2
                \override StaffSymbol.staff-space = #(magstep -2)
                \once \override Staff.TimeSignature.stencil = ##f
            } {
                \clef "bass"
                \relative c
                {
                    "#;

/// Closing of the grand-staff layout: the one-beat clipped region.
pub const RAW_TWO_TAIL: &'static str = r#"
                }
            }
        >>
    >>
    \layout {
        clip-regions = #(list
            (cons
                (make-rhythmic-location 1 0 4)
                (make-rhythmic-location 1 1 4)
            )
        )
    }
}
    "#;

/// One hand's pitch tokens as the typesetter's simultaneous-notes group.
pub open spec fn spec_hand_raw(notes: Seq<Seq<char>>) -> Seq<char> {
    "<"@ + spec_join(notes, " "@) + ">"@
}

/// The left-hand-only score for `c`.
pub open spec fn spec_lefthand_raw(c: ChordView) -> Seq<char> {
    RAW_HEAD@ + c.name + RAW_LEFT_MID@ + spec_hand_raw(c.left) + RAW_SINGLE_TAIL@
}

/// The right-hand-only score for `c`.
pub open spec fn spec_righthand_raw(c: ChordView) -> Seq<char> {
    RAW_HEAD@ + c.name + RAW_RIGHT_MID@ + spec_hand_raw(c.right) + RAW_SINGLE_TAIL@
}

/// The two-staff grand-staff score for `c`.
pub open spec fn spec_twohand_raw(c: ChordView) -> Seq<char> {
    RAW_HEAD@ + c.name + RAW_TWO_MID1@ + spec_hand_raw(c.right) + RAW_TWO_MID2@ + spec_hand_raw(
        c.left,
    ) + RAW_TWO_TAIL@
}

/// The typesetter source for `c`: one of the three layouts, keyed purely on
/// which hands are non-empty. An empty left hand selects the right-hand-only
/// layout (so a chord with both hands empty degenerates to an empty
/// right-hand staff), an empty right hand the left-hand-only layout, and
/// two occupied hands the grand staff.
pub open spec fn spec_raw(c: ChordView) -> Seq<char> {
    if c.left.len() == 0 {
        spec_righthand_raw(c)
    } else if c.right.len() == 0 {
        spec_lefthand_raw(c)
    } else {
        spec_twohand_raw(c)
    }
}

/// What the typesetter source path for a filename stem is.
pub open spec fn spec_ly_path(prefix: Seq<char>) -> Seq<char> {
    prefix + ".ly"@
}

/// What the rendered image path for a filename stem is.
pub open spec fn spec_svg_path(prefix: Seq<char>) -> Seq<char> {
    prefix + ".svg"@
}

/// What the typesetter's own clipped-region output path for a filename stem
/// is: the stem plus the tool's clip-region versioning suffix.
pub open spec fn spec_svg_clip_path(prefix: Seq<char>) -> Seq<char> {
    prefix + "-from-1.0.1-to-1.1.4-clip.svg"@
}

/// Parsing a chord token and rendering it to typesetter source is
/// deterministic: for one token there is exactly one parse, and any two
/// source texts rendered from parses of the same token are byte-identical.
pub proof fn lemma_render_deterministic(tok: Seq<char>, c1: ChordView, c2: ChordView)
    requires
        spec_parse(tok) == Some(c1),
        spec_parse(tok) == Some(c2),
    ensures
        c1 == c2,
        spec_raw(c1) == spec_raw(c2),
{
}

impl Chord {
    fn left_to_raw(&self) -> (r: String)
        ensures
            r@ == spec_hand_raw(self@.left),
    {
        let mut s = String::from_str("<");
        s.append(join(&self.left, " ").as_str());
        s.append(">");
        s
    }

    fn right_to_raw(&self) -> (r: String)
        ensures
            r@ == spec_hand_raw(self@.right),
    {
        let mut s = String::from_str("<");
        s.append(join(&self.right, " ").as_str());
        s.append(">");
        s
    }

    fn to_lefthand_raw(&self) -> (r: String)
        ensures
            r@ == spec_lefthand_raw(self@),
    {
        let mut s = String::from_str(RAW_HEAD);
        s.append(self.name.as_str());
        s.append(RAW_LEFT_MID);
        s.append(self.left_to_raw().as_str());
        s.append(RAW_SINGLE_TAIL);
        s
    }

    fn to_righthand_raw(&self) -> (r: String)
        ensures
            r@ == spec_righthand_raw(self@),
    {
        let mut s = String::from_str(RAW_HEAD);
        s.append(self.name.as_str());
        s.append(RAW_RIGHT_MID);
        s.append(self.right_to_raw().as_str());
        s.append(RAW_SINGLE_TAIL);
        s
    }

    /// The grand-staff score for this chord: a chord-name voice above a
    /// treble staff for the right hand and a bass staff for the left.
    pub fn to_twohand_raw(&self) -> (r: String)
        ensures
            r@ == spec_twohand_raw(self@),
    {
        let mut s = String::from_str(RAW_HEAD);
        s.append(self.name.as_str());
        s.append(RAW_TWO_MID1);
        s.append(self.right_to_raw().as_str());
        s.append(RAW_TWO_MID2);
        s.append(self.left_to_raw().as_str());
        s.append(RAW_TWO_TAIL);
        s
    }

    /// The typesetter source for this chord, selecting among the three
    /// layouts by which hands hold notes (see [`spec_raw`]).
    pub fn to_raw(&self) -> (r: String)
        ensures
            r@ == spec_raw(self@),
    {
        if self.left.len() == 0 {
            self.to_righthand_raw()
        } else if self.right.len() == 0 {
            self.to_lefthand_raw()
        } else {
            self.to_twohand_raw()
        }
    }

    /// The path of the typesetter source file for the filename stem
    /// `prefix`.
    pub fn ly_path(&self, prefix: &str) -> (r: String)
        ensures
            r@ == spec_ly_path(prefix@),
    {
        let mut s = String::from_str(prefix);
        s.append(".ly");
        s
    }

    /// The path of the rendered image for the filename stem `prefix`.
    pub fn svg_path(&self, prefix: &str) -> (r: String)
        ensures
            r@ == spec_svg_path(prefix@),
    {
        let mut s = String::from_str(prefix);
        s.append(".svg");
        s
    }

    /// The path at which the typesetter deposits its clipped-region output
    /// for the filename stem `prefix`.
    pub fn svg_clip_path(&self, prefix: &str) -> (r: String)
        ensures
            r@ == spec_svg_clip_path(prefix@),
    {
        let mut s = String::from_str(prefix);
        s.append("-from-1.0.1-to-1.1.4-clip.svg");
        s
    }

    /// The chord's display name.
    pub fn name(&self) -> (r: &String)
        ensures
            r@ == self@.name,
    {
        &self.name
    }

    /// The left hand's pitch tokens, in order.
    pub fn left(&self) -> (r: &Vec<String>)
        ensures
            r.deep_view() == self@.left,
    {
        &self.left
    }

    /// The right hand's pitch tokens, in order.
    pub fn right(&self) -> (r: &Vec<String>)
        ensures
            r.deep_view() == self@.right,
    {
        &self.right
    }

    /// Parses one chord token. Succeeds exactly on tokens of the delimited
    /// triple pattern `{name; left; right}`; any other token fails with
    /// [`Error::MalformedChord`] carrying that token.
    pub fn parse(token: &str) -> (r: Result<Chord, Error>)
        ensures
            match r {
                Ok(c) => spec_parse(token@) == Some(c@),
                Err(e) => spec_parse(token@) is None && (e matches Error::MalformedChord(t)
                    && t@ == token@),
            },
    {
        let len = token.unicode_len();
        if len < 2 || token.get_char(0) != '{' || token.get_char(len - 1) != '}' {
            return Err(Error::MalformedChord(String::from_str(token)));
        }
        let interior = token.substring_char(1, len - 1);
        let fields = split_char(interior, ';');
        proof {
            assert(fields.deep_view().len() == fields@.len());
        }
        if fields.len() != 3 {
            return Err(Error::MalformedChord(String::from_str(token)));
        }
        let name = trim(fields[0].as_str());
        let left = split_spaces(fields[1].as_str());
        let right = split_spaces(fields[2].as_str());
        let c = Chord { name, left, right };
        proof {
            assert(fields.deep_view()[0] == fields@[0]@);
            assert(fields.deep_view()[1] == fields@[1]@);
            assert(fields.deep_view()[2] == fields@[2]@);
        }
        Ok(c)
    }
}

} // verus!
