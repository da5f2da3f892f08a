use vstd::prelude::*;

verus! {

/// Why a run, or one file of it, could not be completed.
#[derive(Clone, Copy, Debug, PartialEq, Eq, Structural)]
pub enum Error {
    /// The header template is missing.
    NotFound,
    /// A file or a directory entry could not be read or written.
    Io,
    /// A file begins with the header and holds fewer bytes than the block
    /// that would be taken from it.
    MalformedHeader,
    /// The extension set or the comment style is empty.
    InvalidConfig,
}

/// The text shown to the user for each error.
pub open spec fn message_of(e: Error) -> Seq<char> {
    match e {
        Error::NotFound =>
            "header template not found: pass its path with --header or create a ./NOTICE file"@,
        Error::Io => "a file or directory entry could not be read or written"@,
        Error::MalformedHeader =>
            "the file begins with the header and is shorter than the header block"@,
        Error::InvalidConfig => "the extension set and the comment style must not be empty"@,
    }
}

impl Error {
    /// A sentence for the user; the one for a missing template says how to
    /// provide it.
    pub fn message(&self) -> (text: &'static str)
        ensures
            text@ == message_of(*self),
    {
        match self {
            Error::NotFound =>
                "header template not found: pass its path with --header or create a ./NOTICE file",
            Error::Io => "a file or directory entry could not be read or written",
            Error::MalformedHeader =>
                "the file begins with the header and is shorter than the header block",
            Error::InvalidConfig => "the extension set and the comment style must not be empty",
        }
    }
}

} // verus!
