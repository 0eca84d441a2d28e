//! The transpilation engine: consumes a classified line stream, dispatches
//! by line kind, keeps the artifact counter in lock-step with the chords it
//! meets, and produces the transformed Markdown line stream together with
//! the typesetter sources to render.

use crate::chord::{spec_parse, spec_raw, spec_svg_path, Chord, ChordView};
use crate::error::Error;
use crate::line::{classify, Line, LineKind, LineWriter};
use crate::strings::{
    decimal, find_char, first_index_of, join, lemma_first_index_of, spec_decimal, spec_join,
    spec_split, spec_trim, split_char, trim,
};
use vstd::prelude::*;

verus! {

/// The fence marker that delimits a literal block of lyric and chord-name
/// lines.
pub const FENCE: &'static str = "````";

/// The visual separator placed between adjacent inline image references on
/// one chord line.
pub const IMAGE_SEPARATOR: &'static str = " &nbsp; &nbsp; ";

/// What a title line turns into: a top-level heading whose text (everything
/// after the leading marker token and its separator) is wrapped as inline
/// code so it displays literally.
pub open spec fn spec_titlefy(s: Seq<char>) -> Seq<char> {
    "# `"@ + s.subrange(first_index_of(s, ' ') + 1, s.len() as int) + "`"@
}

/// Reformats a title line, stripping the leading marker token and its
/// following separator.
pub fn titlefy(line: &str) -> (r: String)
    requires
        first_index_of(line@, ' ') < line@.len(),
    ensures
        r@ == spec_titlefy(line@),
{
    proof {
        lemma_first_index_of(line@, ' ');
    }
    let len = line.unicode_len();
    let i = find_char(line, ' ').unwrap();
    let mut s = String::from_str("# `");
    s.append(line.substring_char(i + 1, len));
    s.append("`");
    s
}

/// What a section line turns into: a sub-heading whose text (the line
/// without its enclosing brackets) is wrapped as inline code so it displays
/// literally.
pub open spec fn spec_sectionify(s: Seq<char>) -> Seq<char> {
    "### `"@ + s.subrange(1, s.len() - 1) + "`"@
}

/// Reformats a section header line, stripping the enclosing brackets.
pub fn sectionify(line: &str) -> (r: String)
    requires
        classify(line@) == LineKind::Section,
    ensures
        r@ == spec_sectionify(line@),
{
    let len = line.unicode_len();
    assert(line@[0] == '[' && line@[line@.len() - 1] == ']');
    let mut s = String::from_str("### `");
    s.append(line.substring_char(1, len - 1));
    s.append("`");
    s
}

/// The chord tokens of a chord-definition line: the `|`-delimited fields,
/// each whitespace-trimmed.
pub open spec fn spec_chord_tokens(s: Seq<char>) -> Seq<Seq<char>> {
    spec_split(s, '|').map_values(|t: Seq<char>| spec_trim(t))
}

/// What parsing a token sequence yields: the chords in order, or the first
/// token that fails to parse.
#[verifier::ext_equal]
pub enum TokensOutcome {
    Chords(Seq<ChordView>),
    Bad(Seq<char>),
}

/// Parses the tokens in order; the first failure wins.
pub open spec fn spec_parse_tokens(toks: Seq<Seq<char>>) -> TokensOutcome
    decreases toks.len(),
{
    if toks.len() == 0 {
        TokensOutcome::Chords(Seq::empty())
    } else {
        match spec_parse(toks[0]) {
            Option::None => TokensOutcome::Bad(toks[0]),
            Option::Some(c) => match spec_parse_tokens(toks.drop_first()) {
                TokensOutcome::Chords(rest) => TokensOutcome::Chords(seq![c] + rest),
                TokensOutcome::Bad(t) => TokensOutcome::Bad(t),
            },
        }
    }
}

/// What chordifying one chord-definition line yields.
pub open spec fn spec_chordify(s: Seq<char>) -> TokensOutcome {
    spec_parse_tokens(spec_chord_tokens(s))
}

fn parse_tokens_from(parts: &Vec<String>, i: usize) -> (r: Result<Vec<Chord>, Error>)
    requires
        i <= parts@.len(),
    ensures
        match r {
            Ok(cs) => spec_parse_tokens(
                parts.deep_view().map_values(|t: Seq<char>| spec_trim(t)).skip(i as int),
            ) == TokensOutcome::Chords(cs.deep_view()),
            Err(e) => (spec_parse_tokens(
                parts.deep_view().map_values(|t: Seq<char>| spec_trim(t)).skip(i as int),
            ) matches TokensOutcome::Bad(t) && (e matches Error::MalformedChord(tt) && tt@ == t)),
        },
    decreases parts@.len() - i,
{
    let ghost toks = parts.deep_view().map_values(|t: Seq<char>| spec_trim(t));
    proof {
        assert(toks.len() == parts@.len());
    }
    if i == parts.len() {
        let cs: Vec<Chord> = Vec::new();
        proof {
            assert(toks.skip(i as int) =~~= Seq::<Seq<char>>::empty());
            assert(cs.deep_view() =~~= Seq::<ChordView>::empty());
        }
        Ok(cs)
    } else {
        let tok = trim(parts[i].as_str());
        proof {
            assert(parts.deep_view()[i as int] == parts@[i as int]@);
            assert(toks.skip(i as int)[0] == toks[i as int]);
        }
        match Chord::parse(tok.as_str()) {
            Err(e) => Err(e),
            Ok(c) => {
                match parse_tokens_from(parts, i + 1) {
                    Err(e) => {
                        proof {
                            assert(toks.skip(i as int).drop_first() =~~= toks.skip(i + 1));
                        }
                        Err(e)
                    },
                    Ok(mut cs) => {
                        cs.insert(0, c);
                        proof {
                            assert(toks.skip(i as int).drop_first() =~~= toks.skip(i + 1));
                            assert(cs.deep_view() =~~= seq![c@] + cs.deep_view().drop_first());
                        }
                        Ok(cs)
                    },
                }
            },
        }
    }
}

/// Splits a chord-definition line on `|`, trims each token, and parses every
/// token into a chord. Fails with [`Error::MalformedChord`] on the first
/// token that does not match the chord pattern.
pub fn chordify(line: &str) -> (r: Result<Vec<Chord>, Error>)
    ensures
        match r {
            Ok(cs) => spec_chordify(line@) == TokensOutcome::Chords(cs.deep_view()),
            Err(e) => (spec_chordify(line@) matches TokensOutcome::Bad(t) && (e matches
                Error::MalformedChord(tt) && tt@ == t)),
        },
{
    let parts = split_char(line, '|');
    let r = parse_tokens_from(&parts, 0);
    proof {
        let toks = parts.deep_view().map_values(|t: Seq<char>| spec_trim(t));
        assert(toks.skip(0) =~~= toks);
        assert(toks =~~= spec_chord_tokens(line@));
    }
    r
}

/// How many consecutive plain-classified lines stand at and after position
/// `i`.
pub open spec fn plain_run_len(lines: Seq<Seq<char>>, i: int) -> nat
    decreases lines.len() - i,
{
    if i < 0 || i >= lines.len() {
        0
    } else if classify(lines[i]) == LineKind::Plain {
        1 + plain_run_len(lines, i + 1)
    } else {
        0
    }
}

pub proof fn lemma_plain_run_len(lines: Seq<Seq<char>>, a: int, b: int)
    requires
        0 <= a <= b <= lines.len(),
        forall|j: int| a <= j < b ==> classify(lines[j]) == LineKind::Plain,
        b == lines.len() || classify(lines[b]) != LineKind::Plain,
    ensures
        plain_run_len(lines, a) == b - a,
    decreases b - a,
{
    if a < b {
        lemma_plain_run_len(lines, a + 1, b);
    }
}

/// What one run of the transpilation engine yields: the transformed
/// Markdown lines together with the typesetter sources of the chords met,
/// in document order — or the error that aborted the run.
#[verifier::ext_equal]
pub enum SpecOutcome {
    Done { md: Seq<Seq<char>>, sources: Seq<Seq<char>> },
    BadChord(Seq<char>),
    BadTab,
}

/// Prepends already-produced output in front of the outcome of the rest of
/// a run; an error swallows the prefix, as the whole run fails.
pub open spec fn outcome_prepend(
    md0: Seq<Seq<char>>,
    src0: Seq<Seq<char>>,
    o: SpecOutcome,
) -> SpecOutcome {
    match o {
        SpecOutcome::Done { md, sources } => SpecOutcome::Done {
            md: md0 + md,
            sources: src0 + sources,
        },
        _ => o,
    }
}

proof fn lemma_prepend_assoc(
    md0: Seq<Seq<char>>,
    src0: Seq<Seq<char>>,
    md1: Seq<Seq<char>>,
    src1: Seq<Seq<char>>,
    o: SpecOutcome,
)
    ensures
        outcome_prepend(md0, src0, outcome_prepend(md1, src1, o)) == outcome_prepend(
            md0 + md1,
            src0 + src1,
            o,
        ),
{
    match o {
        SpecOutcome::Done { md, sources } => {
            assert(outcome_prepend(md0, src0, outcome_prepend(md1, src1, o)) =~~= outcome_prepend(
                md0 + md1,
                src0 + src1,
                o,
            ));
        },
        _ => {},
    }
}

/// The inline image reference for artifact index `idx` inside `svg_dir`.
pub open spec fn spec_image_ref(svg_dir: Seq<char>, idx: int) -> Seq<char> {
    "![]("@ + svg_dir + "/"@ + spec_svg_path(spec_decimal(idx as nat)) + ")"@
}

/// The output line for a chord-definition line whose `n` chords take the
/// artifact indices `c`, `c + 1`, …: their image references joined with the
/// fixed visual separator.
pub open spec fn spec_chord_line(svg_dir: Seq<char>, c: int, n: nat) -> Seq<char> {
    spec_join(Seq::new(n, |j: int| spec_image_ref(svg_dir, c + j)), IMAGE_SEPARATOR@)
}

/// The typesetter sources of a chord sequence, in order.
pub open spec fn spec_sources(cvs: Seq<ChordView>) -> Seq<Seq<char>> {
    cvs.map_values(|cv: ChordView| spec_raw(cv))
}

/// What transpiling `lines` from position `i` onwards yields, with `c` the
/// artifact counter reached so far. The artifact counter starts at zero at
/// run start and advances by the number of chords on each chord-definition
/// line, so indices are assigned in strict document order with no gaps or
/// reuse.
pub open spec fn spec_transpile(
    svg_dir: Seq<char>,
    lines: Seq<Seq<char>>,
    i: int,
    c: int,
) -> SpecOutcome
    decreases lines.len() - i,
{
    if i < 0 || i >= lines.len() {
        SpecOutcome::Done { md: Seq::empty(), sources: Seq::empty() }
    } else {
        let line = lines[i];
        match classify(line) {
            LineKind::Blank => outcome_prepend(
                seq![Seq::empty()],
                Seq::empty(),
                spec_transpile(svg_dir, lines, i + 1, c),
            ),
            LineKind::Title => outcome_prepend(
                seq![spec_titlefy(line)],
                Seq::empty(),
                spec_transpile(svg_dir, lines, i + 1, c),
            ),
            LineKind::Section => outcome_prepend(
                seq![spec_sectionify(line)],
                Seq::empty(),
                spec_transpile(svg_dir, lines, i + 1, c),
            ),
            LineKind::Chords => {
                if i == 0 || classify(lines[i - 1]) != LineKind::Plain {
                    SpecOutcome::BadTab
                } else {
                    match spec_chordify(line) {
                        TokensOutcome::Bad(t) => SpecOutcome::BadChord(t),
                        TokensOutcome::Chords(cvs) => outcome_prepend(
                            seq![spec_chord_line(svg_dir, c, cvs.len())],
                            spec_sources(cvs),
                            spec_transpile(svg_dir, lines, i + 1, c + cvs.len()),
                        ),
                    }
                }
            },
            LineKind::Plain => {
                let end = if i + 1 + plain_run_len(lines, i + 1) <= lines.len() {
                    i + 1 + plain_run_len(lines, i + 1)
                } else {
                    lines.len() as int
                };
                outcome_prepend(
                    seq![FENCE@] + lines.subrange(i, end) + seq![FENCE@],
                    Seq::empty(),
                    spec_transpile(svg_dir, lines, end, c),
                )
            },
        }
    }
}

/// Every title line must contain the separator after its marker token: the
/// transformation strips the marker through the first space.
pub open spec fn titles_ok(lines: Seq<Seq<char>>) -> bool {
    forall|i: int|
        0 <= i < lines.len() && #[trigger] classify(lines[i]) == LineKind::Title
            ==> first_index_of(lines[i], ' ') < lines[i].len()
}

/// One artifact a run asks its caller to render: the typesetter source text
/// of one chord, to be written at the filename stem `index` and rendered to
/// the image the emitted Markdown references.
#[derive(Debug)]
pub struct Artifact {
    /// The artifact's position in the run's numbering; the emitted Markdown
    /// references the image at this filename stem.
    pub index: usize,
    /// The typesetter source text for the chord.
    pub source: String,
}

/// The outcome of one transpilation run: the transformed Markdown lines and
/// the artifacts whose images they reference, in document order.
#[derive(Debug)]
pub struct Markdown {
    /// The transformed output lines.
    pub lines: Vec<String>,
    /// The chords met, as numbered typesetter sources; the artifact at
    /// position `k` has index `k`.
    pub artifacts: Vec<Artifact>,
}

/// The typesetter sources of a run's artifacts, in order.
pub open spec fn art_sources(arts: Seq<Artifact>) -> Seq<Seq<char>> {
    arts.map_values(|a: Artifact| a.source@)
}

/// Transpiles one document, given as its raw lines. Emitted image
/// references live under `svg_dir`. Returns the transformed Markdown lines
/// and the numbered typesetter sources to render, or the first error:
/// [`Error::MalformedTab`] when a chord-definition line is not immediately
/// preceded by a plain companion line, [`Error::MalformedChord`] when a
/// chord token does not parse.
#[verifier::loop_isolation(false)]
#[verifier::rlimit(100)]
pub fn transpile_lines(svg_dir: &str, lines: &Vec<String>) -> (r: Result<Markdown, Error>)
    requires
        titles_ok(lines.deep_view()),
    ensures
        match r {
            Ok(m) => {
                &&& spec_transpile(svg_dir@, lines.deep_view(), 0, 0) == (SpecOutcome::Done {
                    md: m.lines.deep_view(),
                    sources: art_sources(m.artifacts@),
                })
                &&& forall|k: int|
                    0 <= k < m.artifacts@.len() ==> (#[trigger] m.artifacts@[k]).index == k
            },
            Err(e) => match e {
                Error::MalformedChord(t) => spec_transpile(svg_dir@, lines.deep_view(), 0, 0)
                    == SpecOutcome::BadChord(t@),
                Error::MalformedTab => spec_transpile(svg_dir@, lines.deep_view(), 0, 0)
                    == SpecOutcome::BadTab,
                _ => false,
            },
        },
{
    let ghost dv = lines.deep_view();
    let ghost total = spec_transpile(svg_dir@, dv, 0, 0);
    let mut writer = LineWriter::new();
    let mut artifacts: Vec<Artifact> = Vec::new();
    let n = lines.len();
    let mut i: usize = 0;
    while i < n
        invariant
            i <= n,
            forall|k: int| 0 <= k < artifacts@.len() ==> (#[trigger] artifacts@[k]).index == k,
            outcome_prepend(
                writer.spec_lines(),
                art_sources(artifacts@),
                spec_transpile(svg_dir@, dv, i as int, artifacts@.len() as int),
            ) == total,
        decreases n - i,
    {
        let ghost w0 = writer.spec_lines();
        let ghost s0 = art_sources(artifacts@);
        let ghost c0 = artifacts@.len() as int;
        let ghost rest = spec_transpile(svg_dir@, dv, i as int, c0);
        proof {
            assert(dv[i as int] == lines@[i as int]@);
        }
        match Line::kind_of(lines[i].as_str()) {
            LineKind::Blank => {
                writer.write("");
                proof {
                    reveal_strlit("");
                    lemma_prepend_assoc(
                        w0,
                        s0,
                        seq![Seq::empty()],
                        Seq::empty(),
                        spec_transpile(svg_dir@, dv, i + 1, c0),
                    );
                    assert(writer.spec_lines() =~~= w0 + seq![Seq::<char>::empty()]);
                    assert(s0 + Seq::<Seq<char>>::empty() =~~= s0);
                }
                i = i + 1;
            },
            LineKind::Title => {
                let heading = titlefy(lines[i].as_str());
                writer.write(heading.as_str());
                proof {
                    lemma_prepend_assoc(
                        w0,
                        s0,
                        seq![spec_titlefy(dv[i as int])],
                        Seq::empty(),
                        spec_transpile(svg_dir@, dv, i + 1, c0),
                    );
                    assert(writer.spec_lines() =~~= w0 + seq![spec_titlefy(dv[i as int])]);
                    assert(s0 + Seq::<Seq<char>>::empty() =~~= s0);
                }
                i = i + 1;
            },
            LineKind::Section => {
                let heading = sectionify(lines[i].as_str());
                writer.write(heading.as_str());
                proof {
                    lemma_prepend_assoc(
                        w0,
                        s0,
                        seq![spec_sectionify(dv[i as int])],
                        Seq::empty(),
                        spec_transpile(svg_dir@, dv, i + 1, c0),
                    );
                    assert(writer.spec_lines() =~~= w0 + seq![spec_sectionify(dv[i as int])]);
                    assert(s0 + Seq::<Seq<char>>::empty() =~~= s0);
                }
                i = i + 1;
            },
            LineKind::Chords => {
                if i == 0 || !(Line::kind_of(lines[i - 1].as_str()) == LineKind::Plain) {
                    proof {
                        if i > 0 {
                            assert(dv[i as int - 1] == lines@[i as int - 1]@);
                        }
                        assert(rest == SpecOutcome::BadTab);
                    }
                    return Err(Error::MalformedTab);
                }
                proof {
                    assert(dv[i as int - 1] == lines@[i as int - 1]@);
                }
                match chordify(lines[i].as_str()) {
                    Err(e) => {
                        proof {
                            assert(rest matches SpecOutcome::BadChord(_));
                        }
                        return Err(e);
                    },
                    Ok(chords) => {
                        let ghost cvs = chords.deep_view();
                        let m = chords.len();
                        let mut refs: Vec<String> = Vec::new();
                        let mut j: usize = 0;
                        proof {
                            assert(cvs.len() == m);
                            assert(spec_sources(cvs).take(0) =~~= Seq::<Seq<char>>::empty());
                            assert(s0 + Seq::<Seq<char>>::empty() =~~= s0);
                            assert(refs.deep_view() =~~= Seq::new(0, |q: int|
                                spec_image_ref(svg_dir@, c0 + q)));
                        }
                        while j < m
                            invariant
                                j <= m,
                                cvs == chords.deep_view(),
                                m == chords@.len(),
                                artifacts@.len() == c0 + j,
                                forall|k: int|
                                    0 <= k < artifacts@.len() ==> (#[trigger] artifacts@[k]).index
                                        == k,
                                art_sources(artifacts@) == s0 + spec_sources(cvs).take(j as int),
                                refs.deep_view() == Seq::new(j as nat, |q: int|
                                    spec_image_ref(svg_dir@, c0 + q)),
                            decreases m - j,
                        {
                            let idx = artifacts.len();
                            let stem = decimal(idx);
                            let source = chords[j].to_raw();
                            let ghost arts_before = artifacts@;
                            artifacts.push(Artifact { index: idx, source });
                            let mut image = String::from_str("![](");
                            image.append(svg_dir);
                            image.append("/");
                            image.append(chords[j].svg_path(stem.as_str()).as_str());
                            image.append(")");
                            let ghost refs_before = refs.deep_view();
                            refs.push(image);
                            proof {
                                assert(cvs[j as int] == chords@[j as int]@);
                                assert(art_sources(artifacts@) =~~= art_sources(arts_before).push(
                                    spec_raw(cvs[j as int]),
                                ));
                                assert(s0 + spec_sources(cvs).take(j + 1) =~~= (s0
                                    + spec_sources(cvs).take(j as int)).push(
                                    spec_raw(cvs[j as int]),
                                ));
                                assert(refs.deep_view() =~~= refs_before.push(
                                    spec_image_ref(svg_dir@, c0 + j),
                                ));
                                assert(refs.deep_view() =~~= Seq::new((j + 1) as nat, |q: int|
                                    spec_image_ref(svg_dir@, c0 + q)));
                            }
                            j = j + 1;
                        }
                        let chord_line = join(&refs, IMAGE_SEPARATOR);
                        writer.write(chord_line.as_str());
                        proof {
                            assert(refs.deep_view() =~~= Seq::new(cvs.len(), |q: int|
                                spec_image_ref(svg_dir@, c0 + q)));
                            assert(chord_line@ == spec_chord_line(svg_dir@, c0, cvs.len()));
                            assert(spec_sources(cvs).take(m as int) =~~= spec_sources(cvs));
                            lemma_prepend_assoc(
                                w0,
                                s0,
                                seq![spec_chord_line(svg_dir@, c0, cvs.len())],
                                spec_sources(cvs),
                                spec_transpile(svg_dir@, dv, i + 1, c0 + cvs.len()),
                            );
                            assert(writer.spec_lines() =~~= w0 + seq![
                                spec_chord_line(svg_dir@, c0, cvs.len()),
                            ]);
                        }
                        i = i + 1;
                    },
                }
            },
            LineKind::Plain => {
                let ghost i0 = i as int;
                writer.write(FENCE);
                writer.write(lines[i].as_str());
                i = i + 1;
                while i < n && Line::kind_of(lines[i].as_str()) == LineKind::Plain
                    invariant
                        i0 < i <= n,
                        forall|q: int| i0 <= q < i ==> classify(dv[q]) == LineKind::Plain,
                        writer.spec_lines() == w0 + seq![FENCE@] + dv.subrange(i0, i as int),
                    decreases n - i,
                {
                    proof {
                        assert(dv[i as int] == lines@[i as int]@);
                    }
                    writer.write(lines[i].as_str());
                    proof {
                        assert(writer.spec_lines() =~~= w0 + seq![FENCE@] + dv.subrange(
                            i0,
                            i + 1,
                        ));
                    }
                    i = i + 1;
                }
                proof {
                    if i < n {
                        assert(dv[i as int] == lines@[i as int]@);
                    }
                }
                writer.write(FENCE);
                proof {
                    lemma_plain_run_len(dv, i0 + 1, i as int);
                    let block = seq![FENCE@] + dv.subrange(i0, i as int) + seq![FENCE@];
                    lemma_prepend_assoc(
                        w0,
                        s0,
                        block,
                        Seq::empty(),
                        spec_transpile(svg_dir@, dv, i as int, c0),
                    );
                    assert(writer.spec_lines() =~~= w0 + block);
                    assert(s0 + Seq::<Seq<char>>::empty() =~~= s0);
                    assert(rest == outcome_prepend(
                        block,
                        Seq::<Seq<char>>::empty(),
                        spec_transpile(svg_dir@, dv, i as int, c0),
                    ));
                }
            },
        }
    }
    proof {
        assert(spec_transpile(svg_dir@, dv, n as int, artifacts@.len() as int)
            == (SpecOutcome::Done { md: Seq::<Seq<char>>::empty(), sources: Seq::<
            Seq<char>,
        >::empty() }));
        assert(writer.spec_lines() + Seq::<Seq<char>>::empty() =~~= writer.spec_lines());
        assert(art_sources(artifacts@) + Seq::<Seq<char>>::empty() =~~= art_sources(artifacts@));
    }
    let md = Markdown { lines: writer.into_lines(), artifacts };
    Ok(md)
}

/// Re-running the engine on the same document with a freshly reset artifact
/// counter produces byte-identical Markdown and byte-identical typesetter
/// sources: the outcome is a function of the document and the image
/// directory alone.
pub proof fn lemma_rerun_identical(
    svg_dir: Seq<char>,
    lines: Seq<Seq<char>>,
    md1: Seq<Seq<char>>,
    src1: Seq<Seq<char>>,
    md2: Seq<Seq<char>>,
    src2: Seq<Seq<char>>,
)
    requires
        spec_transpile(svg_dir, lines, 0, 0) == (SpecOutcome::Done { md: md1, sources: src1 }),
        spec_transpile(svg_dir, lines, 0, 0) == (SpecOutcome::Done { md: md2, sources: src2 }),
    ensures
        md1 == md2,
        src1 == src2,
{
}

/// The transpilation engine, configured with the two artifact directories
/// of one run. It owns no other state: the artifact counter starts at zero
/// on every run.
pub struct Transpiler {
    ly_dir: String,
    svg_dir: String,
}

impl Transpiler {
    /// The directory that receives the generated typesetter source files.
    pub closed spec fn spec_ly_dir(&self) -> Seq<char> {
        self.ly_dir@
    }

    /// The directory that receives the rendered chord images.
    pub closed spec fn spec_svg_dir(&self) -> Seq<char> {
        self.svg_dir@
    }

    /// A transpiler writing typesetter sources under `ly_dir` and images
    /// under `svg_dir`.
    pub fn new(ly_dir: &str, svg_dir: &str) -> (r: Self)
        ensures
            r.spec_ly_dir() == ly_dir@,
            r.spec_svg_dir() == svg_dir@,
    {
        Transpiler { ly_dir: String::from_str(ly_dir), svg_dir: String::from_str(svg_dir) }
    }

    /// The configured typesetter-source directory.
    pub fn ly_dir(&self) -> (r: &String)
        ensures
            r@ == self.spec_ly_dir(),
    {
        &self.ly_dir
    }

    /// The configured image directory.
    pub fn svg_dir(&self) -> (r: &String)
        ensures
            r@ == self.spec_svg_dir(),
    {
        &self.svg_dir
    }

    /// Transpiles one document into Markdown (see [`transpile_lines`]); the
    /// emitted image references point into this transpiler's image
    /// directory.
    pub fn generate_markdown(&self, lines: &Vec<String>) -> (r: Result<Markdown, Error>)
        requires
            titles_ok(lines.deep_view()),
        ensures
            match r {
                Ok(m) => {
                    &&& spec_transpile(self.spec_svg_dir(), lines.deep_view(), 0, 0)
                        == (SpecOutcome::Done {
                        md: m.lines.deep_view(),
                        sources: art_sources(m.artifacts@),
                    })
                    &&& forall|k: int|
                        0 <= k < m.artifacts@.len() ==> (#[trigger] m.artifacts@[k]).index == k
                },
                Err(e) => match e {
                    Error::MalformedChord(t) => spec_transpile(
                        self.spec_svg_dir(),
                        lines.deep_view(),
                        0,
                        0,
                    ) == SpecOutcome::BadChord(t@),
                    Error::MalformedTab => spec_transpile(
                        self.spec_svg_dir(),
                        lines.deep_view(),
                        0,
                        0,
                    ) == SpecOutcome::BadTab,
                    _ => false,
                },
            },
    {
        transpile_lines(self.svg_dir.as_str(), lines)
    }
}

} // verus!
