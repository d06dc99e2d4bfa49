use vstd::prelude::*;
use vstd::string::StringExecFns;

use crate::codec::{
    bz2_decode, bz2_plain, gz_decode, gz_plain, xz_decode, xz_plain, zst_decode, zst_plain,
};
use crate::entry::{members, Entry, EntryKind, Member};
use crate::error::ArchiveError;
use crate::extension::{folded, folds_to};
use crate::pack::{CompressionFormat, FLAG_DIRECTORY, FLAG_HARD_LINK, FLAG_SYMLINK};
use crate::path::{
    extension, is_place, lemma_place_is_place, relative, spec_extension, spec_relative,
};
use crate::sevenz::{sevenz_members, SevenZItem, SevenZMember};
use crate::tarball::{raw_members, tar_list, tar_listing, RawEntry, RawMember};

verus! {

/// The formats an archive can be read in.
#[derive(Debug, Clone, Copy, PartialEq, Eq, Structural)]
pub enum DeCompressionFormat {
    Xz,
    Gz,
    Zst,
    Bz2,
    SevenZ,
}

/// The tar type flag of an extended header, `x`.
pub const FLAG_EXTENDED: u8 = 120;

/// The tar type flag of a global extended header, `g`.
pub const FLAG_GLOBAL: u8 = 103;

/// The tar type flag of a GNU long name, `L`.
pub const FLAG_LONG_NAME: u8 = 76;

/// The tar type flag of a GNU long link name, `K`.
pub const FLAG_LONG_LINK: u8 = 75;

/// The permission bits that unpacking keeps.
pub const MODE_MASK: u32 = 0o777;

/// Whether a type flag marks a header that describes no entry of its own.
pub open spec fn is_annotation(flag: u8) -> bool {
    flag == FLAG_EXTENDED || flag == FLAG_GLOBAL || flag == FLAG_LONG_NAME || flag
        == FLAG_LONG_LINK
}

/// What kind of entry a raw entry is unpacked as, if any. Directories and
/// links go by their type flag and annotations are nothing. Of the rest,
/// one whose path ends in `/` under a header that is not UStar is a
/// directory, and every other one is a file.
pub open spec fn kind_of(raw: RawMember) -> Option<EntryKind> {
    if raw.flag == FLAG_DIRECTORY {
        Some(EntryKind::Directory)
    } else if raw.flag == FLAG_HARD_LINK {
        Some(EntryKind::HardLink)
    } else if raw.flag == FLAG_SYMLINK {
        Some(EntryKind::Symlink)
    } else if is_annotation(raw.flag) {
        None
    } else if !raw.ustar && raw.path.len() > 0 && raw.path.last() == '/' {
        Some(EntryKind::Directory)
    } else {
        Some(EntryKind::File)
    }
}

/// The entry that a raw entry is unpacked as. There is none for an
/// annotation, nor for a path that has no place below the output directory.
/// Only the permission bits under `MODE_MASK` are kept; a mode that cannot
/// be read gives way to the default of the kind.
pub open spec fn unpacked(raw: RawMember) -> Option<Member> {
    match (kind_of(raw), spec_relative(raw.path)) {
        (Some(kind), Some(path)) => Some(
            Member {
                path,
                kind,
                mode: match raw.mode {
                    Some(mode) => mode & MODE_MASK,
                    None => kind.spec_default_mode(),
                },
                mtime: match raw.mtime {
                    Some(mtime) => mtime,
                    None => 0,
                },
                data: if kind == EntryKind::File {
                    raw.data
                } else {
                    Seq::empty()
                },
                link: match raw.link {
                    Some(target) if kind.spec_is_link() => target,
                    _ => Seq::empty(),
                },
            },
        ),
        _ => None,
    }
}

/// Whether a raw entry is unpacked as a link that has no target.
pub open spec fn is_broken(raw: RawMember) -> bool {
    unpacked(raw) matches Some(m) && m.kind.spec_is_link() && m.link.len() == 0
}

/// Whether none of the raw entries is a link without a target.
pub open spec fn is_sound(raws: Seq<RawMember>) -> bool {
    forall|k: int| 0 <= k < raws.len() ==> !is_broken(#[trigger] raws[k])
}

/// The entries that the raw entries of a tar archive are unpacked as, in
/// the order of the archive.
pub open spec fn extraction(raws: Seq<RawMember>) -> Seq<Member> {
    raws.filter_map(|raw: RawMember| unpacked(raw))
}

/// The entry that an item of a 7z archive is unpacked as: a directory or a
/// file with the default mode of its kind. There is none for a name that
/// has no place below the output directory.
pub open spec fn unpacked_item(item: SevenZMember) -> Option<Member> {
    match spec_relative(item.name) {
        Some(path) => {
            let kind = if item.directory {
                EntryKind::Directory
            } else {
                EntryKind::File
            };
            Some(
                Member {
                    path,
                    kind,
                    mode: kind.spec_default_mode(),
                    mtime: 0,
                    data: if item.directory {
                        Seq::empty()
                    } else {
                        item.data
                    },
                    link: Seq::empty(),
                },
            )
        },
        None => None,
    }
}

/// The entries that the items of a 7z archive are unpacked as, in the
/// order in which the reader hands them out.
pub open spec fn item_extraction(items: Seq<SevenZMember>) -> Seq<Member> {
    items.filter_map(|item: SevenZMember| unpacked_item(item))
}

/// Whether the path of every entry is a place below the output directory:
/// names that are not `..`, with a single `/` between each two.
pub open spec fn all_places(entries: Seq<Entry>) -> bool {
    forall|k: int| 0 <= k < entries.len() ==> is_place(#[trigger] entries[k].path@)
}

/// Whether the text is not empty and ends in `/`.
fn ends_in_separator(s: &str) -> (r: bool)
    ensures
        r == (s@.len() > 0 && s@.last() == '/'),
{
    let n = s.unicode_len();
    n > 0 && s.get_char(n - 1) == '/'
}

/// Decides what kind of entry a raw entry is unpacked as.
fn raw_kind(raw: &RawEntry) -> (r: Option<EntryKind>)
    ensures
        r == kind_of(raw@),
{
    let flag = raw.flag;
    if flag == FLAG_DIRECTORY {
        Some(EntryKind::Directory)
    } else if flag == FLAG_HARD_LINK {
        Some(EntryKind::HardLink)
    } else if flag == FLAG_SYMLINK {
        Some(EntryKind::Symlink)
    } else if flag == FLAG_EXTENDED || flag == FLAG_GLOBAL || flag == FLAG_LONG_NAME || flag
        == FLAG_LONG_LINK {
        None
    } else if !raw.ustar && ends_in_separator(raw.path.as_str()) {
        Some(EntryKind::Directory)
    } else {
        Some(EntryKind::File)
    }
}

/// Turns one raw entry into the entry it is unpacked as.
fn unpack_entry(raw: &RawEntry) -> (r: Option<Entry>)
    ensures
        match unpacked(raw@) {
            Some(m) => r matches Some(e) && e@ == m,
            None => r is None,
        },
{
    let kind = match raw_kind(raw) {
        Some(kind) => kind,
        None => {
            return None;
        },
    };
    let path = match relative(raw.path.as_str()) {
        Some(path) => path,
        None => {
            return None;
        },
    };
    let mode = match raw.mode {
        Some(mode) => mode & MODE_MASK,
        None => kind.default_mode(),
    };
    let mtime = match raw.mtime {
        Some(mtime) => mtime,
        None => 0,
    };
    let data = match kind {
        EntryKind::File => raw.data.clone(),
        _ => Vec::new(),
    };
    let link = match &raw.link {
        Some(target) if kind.is_link() => target.clone(),
        _ => String::new(),
    };
    assert(data@ =~= if kind == EntryKind::File {
        raw.data@
    } else {
        Seq::empty()
    });
    Some(Entry { path, kind, mode, mtime, data, link })
}

/// Turns the raw entries of a tar archive into the entries to unpack. An
/// archive with a link that has no target is refused as corrupt.
pub fn unpack_entries(raws: &Vec<RawEntry>) -> (r: Result<Vec<Entry>, ArchiveError>)
    ensures
        if is_sound(raw_members(raws@)) {
            r matches Ok(entries) && members(entries@) == extraction(raw_members(raws@))
        } else {
            r matches Err(ArchiveError::CorruptArchive(text)) && text@ == "link without a target"@
        },
        r matches Ok(entries) ==> all_places(entries@),
{
    let mut entries: Vec<Entry> = Vec::new();
    let mut i: usize = 0;
    while i < raws.len()
        invariant
            i <= raws@.len(),
            is_sound(raw_members(raws@).take(i as int)),
            members(entries@) == extraction(raw_members(raws@).take(i as int)),
            all_places(entries@),
        decreases raws@.len() - i,
    {
        let ghost rs = raw_members(raws@);
        proof {
            assert(rs.take(i + 1).drop_last() =~= rs.take(i as int));
        }
        match unpack_entry(&raws[i]) {
            None => {},
            Some(entry) => {
                if entry.kind.is_link() && entry.link.as_str().unicode_len() == 0 {
                    return Err(
                        ArchiveError::CorruptArchive(String::from_str("link without a target")),
                    );
                }
                proof {
                    lemma_place_is_place(raws@[i as int].path@);
                }
                entries.push(entry);
            },
        }
        proof {
            assert forall|k: int| 0 <= k < i + 1 implies !is_broken(
                #[trigger] rs.take(i + 1)[k],
            ) by {
                if k < i {
                    assert(rs.take(i + 1)[k] == rs.take(i as int)[k]);
                }
            }
        }
        i += 1;
    }
    proof {
        assert(raw_members(raws@).take(i as int) =~= raw_members(raws@));
    }
    Ok(entries)
}

/// Turns one item of a 7z archive into the entry it is unpacked as.
fn unpack_item(item: &SevenZItem) -> (r: Option<Entry>)
    ensures
        match unpacked_item(item@) {
            Some(m) => r matches Some(e) && e@ == m,
            None => r is None,
        },
{
    match relative(item.name.as_str()) {
        None => None,
        Some(path) => {
            let kind = if item.directory {
                EntryKind::Directory
            } else {
                EntryKind::File
            };
            let data = if item.directory {
                Vec::new()
            } else {
                item.data.clone()
            };
            assert(data@ =~= if item.directory {
                Seq::empty()
            } else {
                item.data@
            });
            Some(
                Entry { path, kind, mode: kind.default_mode(), mtime: 0, data, link: String::new() },
            )
        },
    }
}

/// Turns the items of a 7z archive into the entries to unpack.
pub fn unpack_items(items: &Vec<SevenZItem>) -> (entries: Vec<Entry>)
    ensures
        members(entries@) == item_extraction(sevenz_members(items@)),
        all_places(entries@),
{
    let mut entries: Vec<Entry> = Vec::new();
    let mut i: usize = 0;
    while i < items.len()
        invariant
            i <= items@.len(),
            members(entries@) == item_extraction(sevenz_members(items@).take(i as int)),
            all_places(entries@),
        decreases items@.len() - i,
    {
        proof {
            let ms = sevenz_members(items@);
            assert(ms.take(i + 1).drop_last() =~= ms.take(i as int));
        }
        match unpack_item(&items[i]) {
            None => {},
            Some(entry) => {
                proof {
                    lemma_place_is_place(items@[i as int].name@);
                }
                entries.push(entry);
            },
        }
        i += 1;
    }
    proof {
        assert(sevenz_members(items@).take(i as int) =~= sevenz_members(items@));
    }
    entries
}

/// An archive as it is handed over for reading.
pub enum Packed {
    /// The bytes of an archive in one of the four stream formats.
    Stream(Vec<u8>),
    /// The items of a 7z archive, as its reader listed them.
    Listed(Vec<SevenZItem>),
}

/// An archive handed over for reading, as contracts speak of it.
pub ghost enum PackedView {
    Stream(Seq<u8>),
    Listed(Seq<SevenZMember>),
}

impl View for Packed {
    type V = PackedView;

    open spec fn view(&self) -> PackedView {
        match self {
            Packed::Stream(bytes) => PackedView::Stream(bytes@),
            Packed::Listed(items) => PackedView::Listed(sevenz_members(items@)),
        }
    }
}

/// What reading a tar archive comes to: the entries that it is unpacked as,
/// in order, or the message that says why it is corrupt. That is the
/// message of the reader where the reader refuses the archive, and
/// otherwise, where a link has no target, the message that says so.
pub open spec fn unpacked_tar(tar: Seq<u8>) -> Result<Seq<Member>, Seq<char>> {
    match tar_listing(tar) {
        Ok(raws) => if is_sound(raws) {
            Ok(extraction(raws))
        } else {
            Err("link without a target"@)
        },
        Err(text) => Err(text),
    }
}

impl DeCompressionFormat {
    /// The format that an extension selects, whatever the case of its letters.
    pub open spec fn spec_from_extension(ext: Seq<char>) -> Option<DeCompressionFormat> {
        let e = folded(ext);
        if e == "xz"@ || e == "txz"@ {
            Some(DeCompressionFormat::Xz)
        } else if e == "gz"@ || e == "tgz"@ {
            Some(DeCompressionFormat::Gz)
        } else if e == "zst"@ || e == "tzst"@ {
            Some(DeCompressionFormat::Zst)
        } else if e == "bz2"@ || e == "tbz2"@ {
            Some(DeCompressionFormat::Bz2)
        } else if e == "7z"@ {
            Some(DeCompressionFormat::SevenZ)
        } else {
            None
        }
    }

    /// The format that writes what this one reads.
    pub open spec fn writer(self) -> CompressionFormat {
        match self {
            DeCompressionFormat::Xz => CompressionFormat::Xz,
            DeCompressionFormat::Gz => CompressionFormat::Gz,
            DeCompressionFormat::Zst => CompressionFormat::Zst,
            DeCompressionFormat::Bz2 => CompressionFormat::Bz2,
            DeCompressionFormat::SevenZ => CompressionFormat::SevenZ,
        }
    }

    /// What this format's decoder makes of a stream: the data that it reads
    /// out of it, or the message of the error with which it refuses the
    /// stream. A 7z archive is no stream around other data, so for 7z this
    /// is the archive itself.
    pub open spec fn spec_decoded(self, stream: Seq<u8>) -> Result<Seq<u8>, Seq<char>> {
        match self {
            DeCompressionFormat::Xz => xz_plain(stream),
            DeCompressionFormat::Gz => gz_plain(stream),
            DeCompressionFormat::Zst => zst_plain(stream),
            DeCompressionFormat::Bz2 => bz2_plain(stream),
            DeCompressionFormat::SevenZ => Ok(stream),
        }
    }

    /// What reading an archive in this format comes to: the entries that it
    /// is unpacked as, in order, or the message that says why it is
    /// corrupt. A stream format reads bytes: the whole stream is decoded and
    /// the tar archive in it is read. 7z reads the items that were listed.
    pub open spec fn spec_decompress(self, packed: PackedView) -> Result<Seq<Member>, Seq<char>> {
        match packed {
            PackedView::Stream(stream) => if self == DeCompressionFormat::SevenZ {
                Err("a 7z archive is read from its listing"@)
            } else {
                match self.spec_decoded(stream) {
                    Ok(tar) => unpacked_tar(tar),
                    Err(text) => Err(text),
                }
            },
            PackedView::Listed(items) => if self == DeCompressionFormat::SevenZ {
                Ok(item_extraction(items))
            } else {
                Err("a stream archive is read from its bytes"@)
            },
        }
    }

    /// Finds the format for a file extension, given without its dot.
    pub fn from_extension(ext: &str) -> (r: Option<Self>)
        ensures
            r == Self::spec_from_extension(ext@),
    {
        if folds_to(ext, "xz") || folds_to(ext, "txz") {
            Some(DeCompressionFormat::Xz)
        } else if folds_to(ext, "gz") || folds_to(ext, "tgz") {
            Some(DeCompressionFormat::Gz)
        } else if folds_to(ext, "zst") || folds_to(ext, "tzst") {
            Some(DeCompressionFormat::Zst)
        } else if folds_to(ext, "bz2") || folds_to(ext, "tbz2") {
            Some(DeCompressionFormat::Bz2)
        } else if folds_to(ext, "7z") {
            Some(DeCompressionFormat::SevenZ)
        } else {
            None
        }
    }

    /// Finds the format that the name of an archive selects, or says that
    /// its extension is not supported.
    pub fn for_archive(input: &str) -> (r: Result<Self, ArchiveError>)
        ensures
            match format_of_name(input@) {
                Some(format) => r == Ok::<Self, ArchiveError>(format),
                None => r matches Err(ArchiveError::UnsupportedFormat(ext)) && ext@
                    == offending_extension(input@),
            },
    {
        match extension(input) {
            None => Err(ArchiveError::UnsupportedFormat(String::new())),
            Some(ext) => match DeCompressionFormat::from_extension(ext) {
                None => Err(ArchiveError::UnsupportedFormat(String::from_str(ext))),
                Some(format) => Ok(format),
            },
        }
    }

    /// Reads an archive in this format and gives the entries to unpack, in
    /// order, each at its place below the output directory. An archive
    /// that the decoder or the reader refuses, or in which a link has no
    /// target, is `CorruptArchive` with the message that says why; so is an
    /// archive that is handed over in the other form than the format reads.
    pub fn decompress(&self, packed: &Packed) -> (r: Result<Vec<Entry>, ArchiveError>)
        ensures
            match self.spec_decompress(packed@) {
                Ok(ms) => r matches Ok(entries) && members(entries@) == ms,
                Err(text) => r matches Err(ArchiveError::CorruptArchive(message)) && message@
                    == text,
            },
            r matches Ok(entries) ==> all_places(entries@),
    {
        match packed {
            Packed::Stream(stream) => match self {
                DeCompressionFormat::Xz => xz_decompress(stream.as_slice()),
                DeCompressionFormat::Gz => gz_decompress(stream.as_slice()),
                DeCompressionFormat::Zst => zst_decompress(stream.as_slice()),
                DeCompressionFormat::Bz2 => bz2_decompress(stream.as_slice()),
                DeCompressionFormat::SevenZ => Err(
                    ArchiveError::CorruptArchive(
                        String::from_str("a 7z archive is read from its listing"),
                    ),
                ),
            },
            Packed::Listed(items) => match self {
                DeCompressionFormat::SevenZ => sevenz_decompress(items),
                _ => Err(
                    ArchiveError::CorruptArchive(
                        String::from_str("a stream archive is read from its bytes"),
                    ),
                ),
            },
        }
    }
}

/// Reads the tar archive that a decoder gave and turns its raw entries into
/// the entries to unpack. A failure of the decoder or of the reader comes
/// back as `CorruptArchive` with the cause's message.
pub fn unpack_tar(decoded: Result<Vec<u8>, std::io::Error>) -> (r: Result<
    Vec<Entry>,
    ArchiveError,
>)
    ensures
        match decoded {
            Ok(tar) => match unpacked_tar(tar@) {
                Ok(ms) => r matches Ok(entries) && members(entries@) == ms,
                Err(text) => r matches Err(ArchiveError::CorruptArchive(message)) && message@
                    == text,
            },
            Err(cause) => r matches Err(ArchiveError::CorruptArchive(message))
                && vstd::string::to_string_from_display_ensures(&cause, message),
        },
        r matches Ok(entries) ==> all_places(entries@),
{
    match decoded {
        Err(cause) => Err(ArchiveError::CorruptArchive(cause.to_string())),
        Ok(tar) => match tar_list(tar.as_slice()) {
            Err(cause) => Err(ArchiveError::CorruptArchive(cause.to_string())),
            Ok(raws) => unpack_entries(&raws),
        },
    }
}

fn gz_decompress(archive: &[u8]) -> (r: Result<Vec<Entry>, ArchiveError>)
    ensures
        match DeCompressionFormat::Gz.spec_decompress(PackedView::Stream(archive@)) {
            Ok(ms) => r matches Ok(entries) && members(entries@) == ms,
            Err(text) => r matches Err(ArchiveError::CorruptArchive(message)) && message@ == text,
        },
        r matches Ok(entries) ==> all_places(entries@),
{
    unpack_tar(gz_decode(archive))
}

fn xz_decompress(archive: &[u8]) -> (r: Result<Vec<Entry>, ArchiveError>)
    ensures
        match DeCompressionFormat::Xz.spec_decompress(PackedView::Stream(archive@)) {
            Ok(ms) => r matches Ok(entries) && members(entries@) == ms,
            Err(text) => r matches Err(ArchiveError::CorruptArchive(message)) && message@ == text,
        },
        r matches Ok(entries) ==> all_places(entries@),
{
    unpack_tar(xz_decode(archive))
}

fn zst_decompress(archive: &[u8]) -> (r: Result<Vec<Entry>, ArchiveError>)
    ensures
        match DeCompressionFormat::Zst.spec_decompress(PackedView::Stream(archive@)) {
            Ok(ms) => r matches Ok(entries) && members(entries@) == ms,
            Err(text) => r matches Err(ArchiveError::CorruptArchive(message)) && message@ == text,
        },
        r matches Ok(entries) ==> all_places(entries@),
{
    unpack_tar(zst_decode(archive))
}

fn bz2_decompress(archive: &[u8]) -> (r: Result<Vec<Entry>, ArchiveError>)
    ensures
        match DeCompressionFormat::Bz2.spec_decompress(PackedView::Stream(archive@)) {
            Ok(ms) => r matches Ok(entries) && members(entries@) == ms,
            Err(text) => r matches Err(ArchiveError::CorruptArchive(message)) && message@ == text,
        },
        r matches Ok(entries) ==> all_places(entries@),
{
    unpack_tar(bz2_decode(archive))
}

fn sevenz_decompress(items: &Vec<SevenZItem>) -> (r: Result<Vec<Entry>, ArchiveError>)
    ensures
        r matches Ok(entries) && members(entries@) == item_extraction(sevenz_members(items@))
            && all_places(entries@),
{
    Ok(unpack_items(items))
}

/// The format that the name of an archive selects: the one for the
/// extension of its file name. A name without an extension selects none.
pub open spec fn format_of_name(input: Seq<char>) -> Option<DeCompressionFormat> {
    match spec_extension(input) {
        Some(ext) => DeCompressionFormat::spec_from_extension(ext),
        None => None,
    }
}

/// The extension that `UnsupportedFormat` carries for an archive's name
/// that selects no format: the one of the file name, or nothing where the
/// file name has none.
pub open spec fn offending_extension(input: Seq<char>) -> Seq<char> {
    match spec_extension(input) {
        Some(ext) => ext,
        None => Seq::empty(),
    }
}

/// Reads an archive in the format that its file name selects, and gives
/// the entries to unpack. A name that selects no format is
/// `UnsupportedFormat`; with a name that selects one, the outcome is that
/// of the format's `decompress`.
pub fn decompress_any(input: &str, packed: &Packed) -> (r: Result<Vec<Entry>, ArchiveError>)
    ensures
        match format_of_name(input@) {
            Some(format) => match format.spec_decompress(packed@) {
                Ok(ms) => r matches Ok(entries) && members(entries@) == ms,
                Err(text) => r matches Err(ArchiveError::CorruptArchive(message)) && message@
                    == text,
            },
            None => r matches Err(ArchiveError::UnsupportedFormat(ext)) && ext@
                == offending_extension(input@),
        },
        r matches Ok(entries) ==> all_places(entries@),
{
    match DeCompressionFormat::for_archive(input) {
        Err(e) => Err(e),
        Ok(format) => format.decompress(packed),
    }
}

/// An extension selects the same format for reading as for writing.
pub proof fn lemma_same_table(ext: Seq<char>)
    ensures
        match DeCompressionFormat::spec_from_extension(ext) {
            Some(format) => CompressionFormat::spec_from_extension(ext) == Some(format.writer()),
            None => CompressionFormat::spec_from_extension(ext) is None,
        },
{
}

} // verus!
