use vstd::prelude::*;

verus! {

/// Everything that can go wrong while an artifact is fetched and analysed.
#[derive(Clone, Copy, Debug, PartialEq, Eq, Structural)]
pub enum Error {
    /// The transport failed or the server answered with an error status.
    Network,
    /// The response did not declare its length.
    MissingContentLength,
    /// A file could not be read or written.
    IO,
    /// A response header could not be used.
    BadHeader,
    /// The file name's extension names no known installer family.
    UnsupportedExtension,
    /// The bytes claim to be a Portable Executable but cannot be read as one.
    MalformedPE,
    /// A resource refers to bytes outside the file.
    MalformedResource,
    /// The version-information record contradicts its own lengths.
    MalformedVersionInfo,
    /// The embedded installer database cannot be located.
    MalformedEmbeddedMsi,
    /// One of the container decoders rejected its input.
    Decoder,
    /// An internal assumption was broken.
    Unexpected,
}

impl Error {
    /// What went wrong, in words.
    pub open spec fn text(self) -> Seq<char> {
        match self {
            Error::Network => "the transfer failed"@,
            Error::MissingContentLength => "the response does not declare its length"@,
            Error::IO => "a file could not be read or written"@,
            Error::BadHeader => "a header of the response cannot be used"@,
            Error::UnsupportedExtension => "unsupported file extension"@,
            Error::MalformedPE => "the executable cannot be read"@,
            Error::MalformedResource => "a resource points outside the file"@,
            Error::MalformedVersionInfo => "the version information contradicts its own lengths"@,
            Error::MalformedEmbeddedMsi => "the embedded installer database cannot be located"@,
            Error::Decoder => "a decoder rejected its input"@,
            Error::Unexpected => "an internal assumption was broken"@,
        }
    }

    /// What went wrong, in words.
    pub fn as_str(&self) -> (r: &'static str)
        ensures
            r@ == self.text(),
    {
        match self {
            Error::Network => "the transfer failed",
            Error::MissingContentLength => "the response does not declare its length",
            Error::IO => "a file could not be read or written",
            Error::BadHeader => "a header of the response cannot be used",
            Error::UnsupportedExtension => "unsupported file extension",
            Error::MalformedPE => "the executable cannot be read",
            Error::MalformedResource => "a resource points outside the file",
            Error::MalformedVersionInfo => "the version information contradicts its own lengths",
            Error::MalformedEmbeddedMsi => "the embedded installer database cannot be located",
            Error::Decoder => "a decoder rejected its input",
            Error::Unexpected => "an internal assumption was broken",
        }
    }
}

} // verus!
