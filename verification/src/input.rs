//! Classification of the pipeline's input path by its file extension.

use crate::strings::{ends_with, spec_ends_with};
use vstd::prelude::*;

verus! {

/// What kind of input the pipeline was handed: a tab document to transpile
/// and compile, an already-transpiled Markdown document to compile, or
/// something it does not accept.
#[derive(Debug, Clone, Copy, PartialEq, Eq, Structural)]
pub enum InputType {
    Tab,
    Markdown,
    Invalid,
}

impl InputType {
    /// Classifies an input path by its extension: `.tab` wins over `.md`,
    /// and anything else is invalid.
    pub fn new(input: &str) -> (r: Self)
        ensures
            match r {
                InputType::Tab => spec_ends_with(input@, ".tab"@),
                InputType::Markdown => !spec_ends_with(input@, ".tab"@) && spec_ends_with(
                    input@,
                    ".md"@,
                ),
                InputType::Invalid => !spec_ends_with(input@, ".tab"@) && !spec_ends_with(
                    input@,
                    ".md"@,
                ),
            },
    {
        if ends_with(input, ".tab") {
            InputType::Tab
        } else if ends_with(input, ".md") {
            InputType::Markdown
        } else {
            InputType::Invalid
        }
    }
}

} // verus!
