use vstd::prelude::*;
use vstd::string::StringExecFns;

verus! {

/// Why an archive could not be named, written or read.
#[derive(Debug, Clone, PartialEq, Eq)]
pub enum ArchiveError {
    /// The extension selects no format. It is carried as it was given.
    UnsupportedFormat(String),
    /// The output is neither a file name with an extension nor the token of
    /// a format.
    MissingExtension,
    /// Archiving or encoding failed. The message of the cause is carried.
    Io(String),
    /// The archive, or the compressed stream around it, is malformed. The
    /// message of the cause is carried.
    CorruptArchive(String),
}

impl ArchiveError {
    /// The text of `message`.
    pub open spec fn spec_message(self) -> Seq<char> {
        match self {
            ArchiveError::UnsupportedFormat(ext) => "unsupported compression format: "@ + ext@,
            ArchiveError::MissingExtension => "output must have an extension or name a format"@,
            ArchiveError::Io(cause) => "i/o error: "@ + cause@,
            ArchiveError::CorruptArchive(cause) => "corrupt archive: "@ + cause@,
        }
    }

    /// The error in words, for a person to read.
    pub fn message(&self) -> (text: String)
        ensures
            text@ == self.spec_message(),
    {
        match self {
            ArchiveError::UnsupportedFormat(ext) => String::from_str(
                "unsupported compression format: ",
            ).concat(ext.as_str()),
            ArchiveError::MissingExtension => String::from_str(
                "output must have an extension or name a format",
            ),
            ArchiveError::Io(cause) => String::from_str("i/o error: ").concat(cause.as_str()),
            ArchiveError::CorruptArchive(cause) => String::from_str("corrupt archive: ").concat(
                cause.as_str(),
            ),
        }
    }
}

} // verus!
