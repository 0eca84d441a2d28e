//! Transpiles line-oriented plain-text tab documents (song title, section
//! headers, lyric lines, chord notation) into Markdown in which every chord
//! annotation is replaced by an inline image reference, while keeping the
//! numbered artifact stream (generated typesetter sources and images) in
//! lock-step with the order chords appear in the document.

pub mod chord;
pub mod compiler;
pub mod error;
pub mod input;
pub mod line;
pub mod preprocessor;
pub mod strings;
pub mod transpiler;
