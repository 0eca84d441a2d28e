//! The downstream document compiler's configuration. The compiler itself is
//! an external collaborator invoked by the caller; this library only models
//! the handle the pipeline passes around.

use vstd::prelude::*;

verus! {

/// A handle on the external document compiler that turns the emitted
/// Markdown into the final document.
pub struct Compiler;

impl Compiler {
    /// A compiler handle with the fixed default configuration.
    pub fn new() -> (r: Self)
        ensures
            r == (Compiler {  }),
    {
        Compiler {  }
    }
}

} // verus!
