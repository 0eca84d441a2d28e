//! Error kinds that a transpilation run can surface to its caller.

use vstd::prelude::*;

verus! {

/// The ways a transpilation run can fail.
///
/// Parsing errors abort the run immediately and carry enough context (the
/// offending chord token) to locate the fault.
#[derive(Debug)]
pub enum Error {
    /// A filesystem operation failed; carries the reported message.
    Io(String),
    /// A chord token did not match the delimited `{name; left; right}`
    /// triple pattern; carries the offending token.
    MalformedChord(String),
    /// A chord-definition line appeared without the lyric/name companion
    /// lines that must immediately precede it.
    MalformedTab,
    /// A failure that fits none of the other kinds.
    Unknown,
}

impl Error {
    /// A human-readable description of the error.
    pub fn message(&self) -> (r: String)
        ensures
            r@ == self.spec_message(),
    {
        match self {
            Error::Io(m) => {
                let mut s = String::from_str("io error: ");
                s.append(m.as_str());
                s
            },
            Error::MalformedChord(t) => {
                let mut s = String::from_str("malformed chord: ");
                s.append(t.as_str());
                s
            },
            Error::MalformedTab => String::from_str("malformed tab"),
            Error::Unknown => String::from_str("unknown error"),
        }
    }

    /// What `message` returns, at the specification level.
    pub open spec fn spec_message(&self) -> Seq<char> {
        match self {
            Error::Io(m) => "io error: "@ + m@,
            Error::MalformedChord(t) => "malformed chord: "@ + t@,
            Error::MalformedTab => "malformed tab"@,
            Error::Unknown => "unknown error"@,
        }
    }
}

} // verus!
