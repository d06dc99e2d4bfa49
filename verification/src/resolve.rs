use vstd::prelude::*;
use vstd::string::StringExecFns;

use crate::entry::{members, Entry};
use crate::error::ArchiveError;
use crate::extension::{folded, raised};
use crate::pack::CompressionFormat;
use crate::path::{extension, file_name, has_dot, spec_extension, spec_file_name};

verus! {

/// What an output specification resolves to.
pub ghost enum Resolution {
    /// The archive's file name and format.
    Named(Seq<char>, CompressionFormat),
    /// The file name has an extension, carried here, that selects no format.
    Unsupported(Seq<char>),
    /// The specification is neither a file name with an extension nor the
    /// token of a format.
    Missing,
}

/// The name of the directory that a path leads to, or `archive` where the
/// path has no such name.
pub open spec fn base_name(input: Seq<char>) -> Seq<char> {
    match spec_file_name(input) {
        Some(name) => name,
        None => "archive"@,
    }
}

/// The name of an archive of `input` in the given format.
pub open spec fn default_name(input: Seq<char>, format: CompressionFormat) -> Seq<char> {
    base_name(input) + seq!['.'] + format.spec_default_extension()
}

/// How an output specification is read. One with a `.` in it is a file name:
/// its extension selects the format and the name is kept. One without is the
/// token of a format, and the archive is named after the input directory.
pub open spec fn spec_resolve_output(input: Seq<char>, output: Seq<char>) -> Resolution {
    if output.contains('.') {
        match spec_extension(output) {
            None => Resolution::Missing,
            Some(ext) => match CompressionFormat::spec_from_extension(ext) {
                Some(format) => Resolution::Named(output, format),
                None => Resolution::Unsupported(ext),
            },
        }
    } else {
        match CompressionFormat::spec_from_extension(output) {
            Some(format) => Resolution::Named(default_name(input, format), format),
            None => Resolution::Missing,
        }
    }
}

/// Finds the format for a file extension, or says that the extension is not
/// supported.
pub fn resolve_format(ext: &str) -> (r: Result<CompressionFormat, ArchiveError>)
    ensures
        match CompressionFormat::spec_from_extension(ext@) {
            Some(format) => r == Ok::<CompressionFormat, ArchiveError>(format),
            None => r matches Err(ArchiveError::UnsupportedFormat(e)) && e@ == ext@,
        },
{
    match CompressionFormat::from_extension(ext) {
        Some(format) => Ok(format),
        None => Err(ArchiveError::UnsupportedFormat(String::from_str(ext))),
    }
}

/// Finds the file name and the format of the archive to write, from the input
/// directory's path and the output specification.
pub fn resolve_output(input: &str, output: &str) -> (r: Result<
    (String, CompressionFormat),
    ArchiveError,
>)
    ensures
        match spec_resolve_output(input@, output@) {
            Resolution::Named(name, format) => r matches Ok((n, f)) && n@ == name && f == format,
            Resolution::Unsupported(ext) => r matches Err(ArchiveError::UnsupportedFormat(e))
                && e@ == ext,
            Resolution::Missing => r matches Err(ArchiveError::MissingExtension),
        },
{
    if has_dot(output) {
        match extension(output) {
            None => Err(ArchiveError::MissingExtension),
            Some(ext) => match CompressionFormat::from_extension(ext) {
                Some(format) => Ok((String::from_str(output), format)),
                None => Err(ArchiveError::UnsupportedFormat(String::from_str(ext))),
            },
        }
    } else {
        match CompressionFormat::from_extension(output) {
            None => Err(ArchiveError::MissingExtension),
            Some(format) => {
                let base = match file_name(input) {
                    Some(name) => name,
                    None => "archive",
                };
                proof {
                    reveal_strlit(".");
                }
                let name = String::from_str(base).concat(".").concat(format.default_extension());
                Ok((name, format))
            },
        }
    }
}

/// One archive to write: the input directory, the archive's file name and
/// its format. A request is made by `ArchiveRequest::resolve` and used up by
/// `ArchiveRequest::compress`.
#[derive(Debug, PartialEq, Eq)]
pub struct ArchiveRequest {
    /// The path of the input directory, as it was given.
    pub input: String,
    /// The file name of the archive.
    pub output: String,
    /// The format of the archive.
    pub format: CompressionFormat,
}

impl ArchiveRequest {
    /// Reads the output specification against the input directory's path.
    pub fn resolve(input: &str, output: &str) -> (r: Result<ArchiveRequest, ArchiveError>)
        ensures
            match spec_resolve_output(input@, output@) {
                Resolution::Named(name, format) => r matches Ok(request) && request.input@
                    == input@ && request.output@ == name && request.format == format,
                Resolution::Unsupported(ext) => r matches Err(ArchiveError::UnsupportedFormat(e))
                    && e@ == ext,
                Resolution::Missing => r matches Err(ArchiveError::MissingExtension),
            },
    {
        match resolve_output(input, output) {
            Ok((name, format)) => Ok(
                ArchiveRequest { input: String::from_str(input), output: name, format },
            ),
            Err(e) => Err(e),
        }
    }

    /// Writes the archive of the entries of the input directory, into
    /// memory, in the format of the request.
    pub fn compress(self, entries: &Vec<Entry>) -> (r: Result<Vec<u8>, ArchiveError>)
        ensures
            match self.format.spec_compress(members(entries@)) {
                Ok(image) => r matches Ok(archive) && archive@ == image,
                Err(text) => r matches Err(ArchiveError::Io(message)) && message@ == text,
            },
    {
        self.format.compress(entries)
    }
}

/// Resolution does not look at the case of ASCII letters: an extension and
/// the same extension in capitals select the same format, or both none.
pub proof fn lemma_case_insensitive(ext: Seq<char>)
    ensures
        CompressionFormat::spec_from_extension(raised(ext))
            == CompressionFormat::spec_from_extension(ext),
{
    assert(folded(raised(ext)) =~= folded(ext));
}

/// An extension selects a format exactly when, folded to lower case, it is
/// one of the nine in the table; every other text selects none.
pub proof fn lemma_table(ext: Seq<char>)
    ensures
        CompressionFormat::spec_from_extension(ext) is Some <==> {
            let e = folded(ext);
            ||| e == seq!['x', 'z']
            ||| e == seq!['t', 'x', 'z']
            ||| e == seq!['g', 'z']
            ||| e == seq!['t', 'g', 'z']
            ||| e == seq!['z', 's', 't']
            ||| e == seq!['t', 'z', 's', 't']
            ||| e == seq!['b', 'z', '2']
            ||| e == seq!['t', 'b', 'z', '2']
            ||| e == seq!['7', 'z']
        },
{
    reveal_strlit("xz");
    reveal_strlit("txz");
    reveal_strlit("gz");
    reveal_strlit("tgz");
    reveal_strlit("zst");
    reveal_strlit("tzst");
    reveal_strlit("bz2");
    reveal_strlit("tbz2");
    reveal_strlit("7z");
    assert("xz"@ =~= seq!['x', 'z']);
    assert("txz"@ =~= seq!['t', 'x', 'z']);
    assert("gz"@ =~= seq!['g', 'z']);
    assert("tgz"@ =~= seq!['t', 'g', 'z']);
    assert("zst"@ =~= seq!['z', 's', 't']);
    assert("tzst"@ =~= seq!['t', 'z', 's', 't']);
    assert("bz2"@ =~= seq!['b', 'z', '2']);
    assert("tbz2"@ =~= seq!['t', 'b', 'z', '2']);
    assert("7z"@ =~= seq!['7', 'z']);
}

/// Resolving is a function of the extension alone: the same extension
/// selects the same format every time.
pub proof fn lemma_resolution_repeats(first: Seq<char>, second: Seq<char>)
    requires
        first == second,
    ensures
        CompressionFormat::spec_from_extension(first) == CompressionFormat::spec_from_extension(
            second,
        ),
{
}

/// An extension of the table holds no `.`.
pub proof fn lemma_token_has_no_dot(token: Seq<char>)
    requires
        CompressionFormat::spec_from_extension(token) is Some,
    ensures
        !token.contains('.'),
{
    lemma_table(token);
    if token.contains('.') {
        let k = choose|k: int| 0 <= k < token.len() && token[k] == '.';
        let e = folded(token);
        assert(e[k] == '.');
        if e == seq!['x', 'z'] {
            assert(e.len() == 2 && e[0] == 'x' && e[1] == 'z');
        }
        if e == seq!['t', 'x', 'z'] {
            assert(e.len() == 3 && e[0] == 't' && e[1] == 'x' && e[2] == 'z');
        }
        if e == seq!['g', 'z'] {
            assert(e.len() == 2 && e[0] == 'g' && e[1] == 'z');
        }
        if e == seq!['t', 'g', 'z'] {
            assert(e.len() == 3 && e[0] == 't' && e[1] == 'g' && e[2] == 'z');
        }
        if e == seq!['z', 's', 't'] {
            assert(e.len() == 3 && e[0] == 'z' && e[1] == 's' && e[2] == 't');
        }
        if e == seq!['t', 'z', 's', 't'] {
            assert(e.len() == 4 && e[0] == 't' && e[1] == 'z' && e[2] == 's' && e[3] == 't');
        }
        if e == seq!['b', 'z', '2'] {
            assert(e.len() == 3 && e[0] == 'b' && e[1] == 'z' && e[2] == '2');
        }
        if e == seq!['t', 'b', 'z', '2'] {
            assert(e.len() == 4 && e[0] == 't' && e[1] == 'b' && e[2] == 'z' && e[3] == '2');
        }
        if e == seq!['7', 'z'] {
            assert(e.len() == 2 && e[0] == '7' && e[1] == 'z');
        }
    }
}

/// Given the token of a format, the archive is named after the input
/// directory: the name starts with the directory's base name and ends with a
/// dot and the format's default extension.
pub proof fn lemma_token_names_archive(
    input: Seq<char>,
    token: Seq<char>,
    format: CompressionFormat,
)
    requires
        CompressionFormat::spec_from_extension(token) == Some(format),
    ensures
        spec_resolve_output(input, token) == Resolution::Named(default_name(input, format), format),
        base_name(input).is_prefix_of(default_name(input, format)),
        (seq!['.'] + format.spec_default_extension()).is_suffix_of(default_name(input, format)),
{
    lemma_token_has_no_dot(token);
}

} // verus!
