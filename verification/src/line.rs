//! Line classification: the five mutually exclusive kinds an input line can
//! have, plus a cursor for reading classified lines with one line of
//! lookahead and a sink that collects output lines.

use vstd::prelude::*;

verus! {

/// The five kinds of input line, in classification order.
#[derive(Debug, Clone, Copy, PartialEq, Eq, Structural)]
pub enum LineKind {
    Blank,
    Title,
    Section,
    Chords,
    Plain,
}

/// Classifies one raw line. The rules are checked in order and the first
/// match wins, so a line that is both chord-like and section-like resolves
/// by this fixed precedence:
/// empty is blank; a `#` start is a title; `[`…`]` is a section header;
/// `{`…`}` is a chord-definition line; anything else is plain text.
pub open spec fn classify(s: Seq<char>) -> LineKind {
    if s.len() == 0 {
        LineKind::Blank
    } else if s[0] == '#' {
        LineKind::Title
    } else if s[0] == '[' && s[s.len() - 1] == ']' {
        LineKind::Section
    } else if s[0] == '{' && s[s.len() - 1] == '}' {
        LineKind::Chords
    } else {
        LineKind::Plain
    }
}

/// One classified input line, carrying its raw text (except for a blank
/// line, which has none).
#[derive(Debug)]
pub enum Line {
    Blank,
    Title(String),
    Section(String),
    Chords(String),
    Plain(String),
}

impl Line {
    /// The classification this variant stands for.
    pub open spec fn kind(&self) -> LineKind {
        match self {
            Line::Blank => LineKind::Blank,
            Line::Title(_) => LineKind::Title,
            Line::Section(_) => LineKind::Section,
            Line::Chords(_) => LineKind::Chords,
            Line::Plain(_) => LineKind::Plain,
        }
    }

    /// Whether this value is exactly the classification of the raw line `s`:
    /// the right variant, carrying `s` itself.
    pub open spec fn matches_source(&self, s: Seq<char>) -> bool {
        &&& self.kind() == classify(s)
        &&& match self {
            Line::Blank => true,
            Line::Title(t) => t@ == s,
            Line::Section(t) => t@ == s,
            Line::Chords(t) => t@ == s,
            Line::Plain(t) => t@ == s,
        }
    }

    /// Runtime counterpart of [`classify`].
    pub fn kind_of(line: &str) -> (k: LineKind)
        ensures
            k == classify(line@),
    {
        let len = line.unicode_len();
        if len == 0 {
            LineKind::Blank
        } else {
            let first = line.get_char(0);
            let last = line.get_char(len - 1);
            if first == '#' {
                LineKind::Title
            } else if first == '[' && last == ']' {
                LineKind::Section
            } else if first == '{' && last == '}' {
                LineKind::Chords
            } else {
                LineKind::Plain
            }
        }
    }

    /// Classifies `line` by the ordered rules of [`classify`].
    pub fn from_line(line: String) -> (r: Self)
        ensures
            r.matches_source(line@),
    {
        let len = line.as_str().unicode_len();
        if len == 0 {
            Line::Blank
        } else {
            let first = line.as_str().get_char(0);
            let last = line.as_str().get_char(len - 1);
            if first == '#' {
                Line::Title(line)
            } else if first == '[' && last == ']' {
                Line::Section(line)
            } else if first == '{' && last == '}' {
                Line::Chords(line)
            } else {
                Line::Plain(line)
            }
        }
    }
}

/// A cursor over the raw lines of one document, handing out classified
/// lines one at a time with one line of lookahead.
pub struct LineReader {
    lines: Vec<String>,
    pos: usize,
}

impl LineReader {
    /// The raw lines this reader walks.
    pub closed spec fn spec_lines(&self) -> Seq<Seq<char>> {
        self.lines.deep_view()
    }

    /// How many lines have been consumed so far.
    pub closed spec fn spec_pos(&self) -> int {
        self.pos as int
    }

    /// A reader positioned at the first of `lines`.
    pub fn new(lines: Vec<String>) -> (r: Self)
        ensures
            r.spec_lines() == lines.deep_view(),
            r.spec_pos() == 0,
    {
        LineReader { lines, pos: 0 }
    }

    /// Classifies and consumes the next line, or reports the end of the
    /// stream.
    pub fn read(&mut self) -> (r: Option<Line>)
        ensures
            final(self).spec_lines() == old(self).spec_lines(),
            old(self).spec_pos() < old(self).spec_lines().len() ==> {
                &&& final(self).spec_pos() == old(self).spec_pos() + 1
                &&& r matches Some(l) && l.matches_source(
                    old(self).spec_lines()[old(self).spec_pos()],
                )
            },
            old(self).spec_pos() >= old(self).spec_lines().len() ==> {
                &&& final(self).spec_pos() == old(self).spec_pos()
                &&& r is None
            },
    {
        if self.pos < self.lines.len() {
            let line = self.lines[self.pos].clone();
            self.pos = self.pos + 1;
            Some(Line::from_line(line))
        } else {
            None
        }
    }

    /// Classifies the next line without consuming it.
    pub fn peek(&mut self) -> (r: Option<Line>)
        ensures
            *final(self) == *old(self),
            old(self).spec_pos() < old(self).spec_lines().len() ==> (r matches Some(l)
                && l.matches_source(old(self).spec_lines()[old(self).spec_pos()])),
            old(self).spec_pos() >= old(self).spec_lines().len() ==> r is None,
    {
        if self.pos < self.lines.len() {
            let line = self.lines[self.pos].clone();
            Some(Line::from_line(line))
        } else {
            None
        }
    }
}

/// A sink that collects the transformed output lines of one run, in order.
pub struct LineWriter {
    lines: Vec<String>,
}

impl LineWriter {
    /// The lines written so far.
    pub closed spec fn spec_lines(&self) -> Seq<Seq<char>> {
        self.lines.deep_view()
    }

    /// An empty sink.
    pub fn new() -> (r: Self)
        ensures
            r.spec_lines() == Seq::<Seq<char>>::empty(),
    {
        let r = LineWriter { lines: Vec::new() };
        proof {
            assert(r.spec_lines() =~~= Seq::<Seq<char>>::empty());
        }
        r
    }

    /// Appends one output line.
    pub fn write(&mut self, buf: &str)
        ensures
            final(self).spec_lines() == old(self).spec_lines().push(buf@),
    {
        self.lines.push(String::from_str(buf));
        proof {
            assert(self.spec_lines() =~~= old(self).spec_lines().push(buf@));
        }
    }

    /// Hands the collected lines out.
    pub fn into_lines(self) -> (r: Vec<String>)
        ensures
            r.deep_view() == self.spec_lines(),
    {
        self.lines
    }
}

} // verus!
