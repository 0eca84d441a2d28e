//! The configured front of the pipeline: holds the two artifact directories
//! (with their default names) and drives the transpilation engine.

use crate::error::Error;
use crate::transpiler::{
    art_sources, spec_transpile, titles_ok, transpile_lines, Markdown, SpecOutcome,
};
use vstd::prelude::*;

verus! {

/// Turns one tab document into Markdown, writing typesetter sources and
/// rendered images under two configurable directories (default `lys` and
/// `svgs`).
pub struct Preprocessor {
    ly_dir: String,
    svg_dir: String,
}

impl Preprocessor {
    /// The directory that receives the generated typesetter source files.
    pub closed spec fn spec_ly_dir(&self) -> Seq<char> {
        self.ly_dir@
    }

    /// The directory that receives the rendered chord images.
    pub closed spec fn spec_svg_dir(&self) -> Seq<char> {
        self.svg_dir@
    }

    /// A preprocessor with the default artifact directories.
    pub fn new() -> (r: Self)
        ensures
            r.spec_ly_dir() == "lys"@,
            r.spec_svg_dir() == "svgs"@,
    {
        Preprocessor { ly_dir: String::from_str("lys"), svg_dir: String::from_str("svgs") }
    }

    /// This preprocessor with its typesetter-source directory replaced.
    pub fn set_ly_dir(self, path: &str) -> (r: Self)
        ensures
            r.spec_ly_dir() == path@,
            r.spec_svg_dir() == self.spec_svg_dir(),
    {
        Preprocessor { ly_dir: String::from_str(path), svg_dir: self.svg_dir }
    }

    /// This preprocessor with its image directory replaced.
    pub fn set_svg_dir(self, path: &str) -> (r: Self)
        ensures
            r.spec_ly_dir() == self.spec_ly_dir(),
            r.spec_svg_dir() == path@,
    {
        Preprocessor { ly_dir: self.ly_dir, svg_dir: String::from_str(path) }
    }

    /// The configured typesetter-source directory.
    pub fn ly_dir(&self) -> (r: &String)
        ensures
            r@ == self.spec_ly_dir(),
    {
        &self.ly_dir
    }

    /// The configured image directory.
    pub fn svg_dir(&self) -> (r: &String)
        ensures
            r@ == self.spec_svg_dir(),
    {
        &self.svg_dir
    }

    /// Transpiles one document into Markdown (see
    /// [`crate::transpiler::transpile_lines`]); the emitted image references
    /// point into this preprocessor's image directory.
    pub fn generate_markdown(&self, lines: &Vec<String>) -> (r: Result<Markdown, Error>)
        requires
            titles_ok(lines.deep_view()),
        ensures
            match r {
                Ok(m) => {
                    &&& spec_transpile(self.spec_svg_dir(), lines.deep_view(), 0, 0)
                        == (SpecOutcome::Done {
                        md: m.lines.deep_view(),
                        sources: art_sources(m.artifacts@),
                    })
                    &&& forall|k: int|
                        0 <= k < m.artifacts@.len() ==> (#[trigger] m.artifacts@[k]).index == k
                },
                Err(e) => match e {
                    Error::MalformedChord(t) => spec_transpile(
                        self.spec_svg_dir(),
                        lines.deep_view(),
                        0,
                        0,
                    ) == SpecOutcome::BadChord(t@),
                    Error::MalformedTab => spec_transpile(
                        self.spec_svg_dir(),
                        lines.deep_view(),
                        0,
                        0,
                    ) == SpecOutcome::BadTab,
                    _ => false,
                },
            },
    {
        transpile_lines(self.svg_dir.as_str(), lines)
    }
}

} // verus!
