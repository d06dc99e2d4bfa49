use vstd::prelude::*;

use crate::codec::{
    bz2_encode, bz2_stream, gz_encode, gz_stream, says, xz_encode, xz_stream, zst_encode,
    zst_stream,
};
use crate::entry::{members, Entry, EntryKind, Member};
use crate::error::ArchiveError;
use crate::extension::{folded, folds_to};
use crate::sevenz::{
    block_of, sevenz_begin, sevenz_blocks, sevenz_end, sevenz_image, sevenz_push, sevenz_refusal,
};
use crate::tarball::{
    tar_append_data, tar_append_link, tar_begin, tar_data_record, tar_end, tar_end_marker,
    tar_link_record, tar_written, TarWriter,
};

verus! {

/// The preset at which xz streams are written: the highest.
pub const XZ_LEVEL: u32 = 9;

/// The level at which gzip streams are written: the best.
pub const GZ_LEVEL: u32 = 9;

/// The level at which zstd frames are written.
pub const ZST_LEVEL: i32 = 19;

/// The level at which bzip2 streams are written: the best.
pub const BZ2_LEVEL: u32 = 9;

/// The tar type flag of a regular file, `0`.
pub const FLAG_FILE: u8 = 48;

/// The tar type flag of a hard link, `1`.
pub const FLAG_HARD_LINK: u8 = 49;

/// The tar type flag of a symbolic link, `2`.
pub const FLAG_SYMLINK: u8 = 50;

/// The tar type flag of a directory, `5`.
pub const FLAG_DIRECTORY: u8 = 53;

/// The tar type flag under which an entry of a kind is recorded.
pub open spec fn flag_of(kind: EntryKind) -> u8 {
    match kind {
        EntryKind::File => FLAG_FILE,
        EntryKind::Directory => FLAG_DIRECTORY,
        EntryKind::Symlink => FLAG_SYMLINK,
        EntryKind::HardLink => FLAG_HARD_LINK,
    }
}

/// What the archiver makes of one entry: the bytes that it appends for it,
/// or the message of the error with which it refuses the entry. A file is
/// recorded with its content, a directory without any, a link with its
/// target.
pub open spec fn tar_outcome(m: Member) -> Result<Seq<u8>, Seq<char>> {
    match m.kind {
        EntryKind::File => tar_data_record(
            m.path,
            flag_of(m.kind),
            m.mode,
            m.mtime,
            m.data.len() as u64,
            m.data,
        ),
        EntryKind::Directory => tar_data_record(
            m.path,
            flag_of(m.kind),
            m.mode,
            m.mtime,
            0,
            Seq::empty(),
        ),
        _ => tar_link_record(m.path, flag_of(m.kind), m.mode, m.mtime, 0, m.link),
    }
}

/// What the archiver makes of the entries, one after the other: their
/// records in order, or the message of the error with which it refuses the
/// first entry that it does not take.
pub open spec fn tar_records(ms: Seq<Member>) -> Result<Seq<u8>, Seq<char>>
    decreases ms.len(),
{
    if ms.len() == 0 {
        Ok(Seq::empty())
    } else {
        match tar_records(ms.drop_last()) {
            Ok(records) => match tar_outcome(ms.last()) {
                Ok(record) => Ok(records + record),
                Err(text) => Err(text),
            },
            Err(text) => Err(text),
        }
    }
}

/// The tar archive of the entries: their records in order, then the end
/// marker. Where the archiver refuses an entry there is no archive, but the
/// message of its error.
pub open spec fn tar_image(ms: Seq<Member>) -> Result<Seq<u8>, Seq<char>> {
    match tar_records(ms) {
        Ok(records) => Ok(records + tar_end_marker()),
        Err(text) => Err(text),
    }
}

/// Once the archiver has refused an entry, the entries that follow change
/// nothing.
pub proof fn lemma_refusal_stays(ms: Seq<Member>, i: int, text: Seq<char>)
    requires
        0 <= i <= ms.len(),
        tar_records(ms.take(i)) == Err::<Seq<u8>, Seq<char>>(text),
    ensures
        tar_records(ms) == Err::<Seq<u8>, Seq<char>>(text),
    decreases ms.len() - i,
{
    if i < ms.len() {
        assert(ms.take(i + 1).drop_last() =~= ms.take(i));
        lemma_refusal_stays(ms, i + 1, text);
    } else {
        assert(ms.take(i) =~= ms);
    }
}

/// What a 7z archive takes from an entry: the name and content of a regular
/// file, and nothing of any other entry.
pub open spec fn content_of(m: Member) -> Option<(Seq<char>, Seq<u8>)> {
    if m.kind == EntryKind::File {
        Some((m.path, m.data))
    } else {
        None
    }
}

/// The regular files among the entries, in order, each with its name and
/// content.
pub open spec fn file_list(ms: Seq<Member>) -> Seq<(Seq<char>, Seq<u8>)> {
    ms.filter_map(|m: Member| content_of(m))
}

/// The solid blocks of the 7z archive of the entries. All the regular
/// files go into one block, whatever their size; where there is no regular
/// file there is no block.
pub open spec fn solid_blocks(ms: Seq<Member>) -> Seq<Seq<(Seq<char>, Seq<u8>)>> {
    if file_list(ms).len() == 0 {
        Seq::empty()
    } else {
        seq![file_list(ms)]
    }
}

/// The 7z archive of the entries: the archive of their solid blocks. Where
/// the writer refuses the block of the regular files, or fails to finish,
/// there is no archive, but the message of its error.
pub open spec fn sevenz_outcome(ms: Seq<Member>) -> Result<Seq<u8>, Seq<char>> {
    if file_list(ms).len() == 0 {
        sevenz_image(solid_blocks(ms))
    } else {
        match sevenz_refusal(file_list(ms)) {
            None => sevenz_image(solid_blocks(ms)),
            Some(text) => Err(text),
        }
    }
}

/// The formats an archive can be written in.
#[derive(Debug, Clone, Copy, PartialEq, Eq, Structural)]
pub enum CompressionFormat {
    Xz,
    Gz,
    Zst,
    Bz2,
    SevenZ,
}

impl CompressionFormat {
    /// The format that an extension selects, whatever the case of its letters.
    pub open spec fn spec_from_extension(ext: Seq<char>) -> Option<CompressionFormat> {
        let e = folded(ext);
        if e == "xz"@ || e == "txz"@ {
            Some(CompressionFormat::Xz)
        } else if e == "gz"@ || e == "tgz"@ {
            Some(CompressionFormat::Gz)
        } else if e == "zst"@ || e == "tzst"@ {
            Some(CompressionFormat::Zst)
        } else if e == "bz2"@ || e == "tbz2"@ {
            Some(CompressionFormat::Bz2)
        } else if e == "7z"@ {
            Some(CompressionFormat::SevenZ)
        } else {
            None
        }
    }

    /// The extension given to an archive that is named after its input.
    pub open spec fn spec_default_extension(self) -> Seq<char> {
        match self {
            CompressionFormat::Xz => "tar.xz"@,
            CompressionFormat::Gz => "tar.gz"@,
            CompressionFormat::Zst => "tar.zst"@,
            CompressionFormat::Bz2 => "tar.bz2"@,
            CompressionFormat::SevenZ => "7z"@,
        }
    }

    /// Finds the format for a file extension, given without its dot.
    pub fn from_extension(ext: &str) -> (r: Option<Self>)
        ensures
            r == Self::spec_from_extension(ext@),
    {
        if folds_to(ext, "xz") || folds_to(ext, "txz") {
            Some(CompressionFormat::Xz)
        } else if folds_to(ext, "gz") || folds_to(ext, "tgz") {
            Some(CompressionFormat::Gz)
        } else if folds_to(ext, "zst") || folds_to(ext, "tzst") {
            Some(CompressionFormat::Zst)
        } else if folds_to(ext, "bz2") || folds_to(ext, "tbz2") {
            Some(CompressionFormat::Bz2)
        } else if folds_to(ext, "7z") {
            Some(CompressionFormat::SevenZ)
        } else {
            None
        }
    }

    /// The extension given to an archive that is named after its input.
    pub fn default_extension(&self) -> (ext: &'static str)
        ensures
            ext@ == self.spec_default_extension(),
    {
        match self {
            CompressionFormat::Xz => "tar.xz",
            CompressionFormat::Gz => "tar.gz",
            CompressionFormat::Zst => "tar.zst",
            CompressionFormat::Bz2 => "tar.bz2",
            CompressionFormat::SevenZ => "7z",
        }
    }

    /// What this format's encoder makes of the data at the format's level:
    /// the stream that it writes, or the message of its error. A 7z archive
    /// is no stream around other data, so for 7z this is the data itself.
    pub open spec fn spec_encoded(self, data: Seq<u8>) -> Result<Seq<u8>, Seq<char>> {
        match self {
            CompressionFormat::Xz => xz_stream(data, XZ_LEVEL),
            CompressionFormat::Gz => gz_stream(data, GZ_LEVEL),
            CompressionFormat::Zst => zst_stream(data, ZST_LEVEL),
            CompressionFormat::Bz2 => bz2_stream(data, BZ2_LEVEL),
            CompressionFormat::SevenZ => Ok(data),
        }
    }

    /// What writing the entries in this format comes to: the archive, or
    /// the message of the error that ends the work. For the four stream
    /// formats the archive is the tar archive of the entries, closed with
    /// its end marker and then encoded as a whole at the format's level;
    /// the work ends at the first entry that the archiver refuses, or with
    /// the encoder. For 7z the archive is that of the one solid block of the
    /// regular files.
    pub open spec fn spec_compress(self, ms: Seq<Member>) -> Result<Seq<u8>, Seq<char>> {
        match self {
            CompressionFormat::SevenZ => sevenz_outcome(ms),
            _ => match tar_image(ms) {
                Ok(tar) => self.spec_encoded(tar),
                Err(text) => Err(text),
            },
        }
    }

    /// Writes the archive of the entries in this format, into memory. Where
    /// the archiver or the encoder fails, the message of its error comes
    /// back in `Io`.
    pub fn compress(&self, entries: &Vec<Entry>) -> (r: Result<Vec<u8>, ArchiveError>)
        ensures
            match self.spec_compress(members(entries@)) {
                Ok(image) => r matches Ok(archive) && archive@ == image,
                Err(text) => r matches Err(ArchiveError::Io(message)) && message@ == text,
            },
    {
        match self {
            CompressionFormat::Xz => xz_compress(entries),
            CompressionFormat::Gz => gz_compress(entries),
            CompressionFormat::Zst => zst_compress(entries),
            CompressionFormat::Bz2 => bz2_compress(entries),
            CompressionFormat::SevenZ => sevenz_compress(entries),
        }
    }
}

/// Appends one entry to a tar archive. An entry that the archiver takes is
/// appended as its record; one that it refuses gives the archiver's error.
fn tar_append(w: &mut TarWriter, entry: &Entry) -> (r: Result<(), std::io::Error>)
    ensures
        match tar_outcome(entry@) {
            Ok(record) => r is Ok && tar_written(*final(w)) == tar_written(*old(w)) + record,
            Err(text) => r matches Err(cause) && says(cause, text),
        },
{
    match entry.kind {
        EntryKind::File => tar_append_data(
            w,
            entry.path.as_str(),
            FLAG_FILE,
            entry.mode,
            entry.mtime,
            entry.data.len() as u64,
            entry.data.as_slice(),
        ),
        EntryKind::Directory => {
            let nothing: Vec<u8> = Vec::new();
            tar_append_data(
                w,
                entry.path.as_str(),
                FLAG_DIRECTORY,
                entry.mode,
                entry.mtime,
                0,
                nothing.as_slice(),
            )
        },
        EntryKind::Symlink => tar_append_link(
            w,
            entry.path.as_str(),
            FLAG_SYMLINK,
            entry.mode,
            entry.mtime,
            0,
            entry.link.as_str(),
        ),
        EntryKind::HardLink => tar_append_link(
            w,
            entry.path.as_str(),
            FLAG_HARD_LINK,
            entry.mode,
            entry.mtime,
            0,
            entry.link.as_str(),
        ),
    }
}

/// Writes the tar archive of the entries: every entry in order, then the end
/// marker. The first entry that the archiver refuses ends the work with its
/// error.
pub fn tar_archive(entries: &Vec<Entry>) -> (r: Result<Vec<u8>, std::io::Error>)
    ensures
        match tar_image(members(entries@)) {
            Ok(image) => r matches Ok(archive) && archive@ == image,
            Err(text) => r matches Err(cause) && says(cause, text),
        },
{
    let mut w = tar_begin();
    let mut i: usize = 0;
    while i < entries.len()
        invariant
            i <= entries@.len(),
            tar_records(members(entries@).take(i as int)) == Ok::<Seq<u8>, Seq<char>>(
                tar_written(w),
            ),
        decreases entries@.len() - i,
    {
        let ghost ms = members(entries@);
        proof {
            assert(ms.take(i + 1).drop_last() =~= ms.take(i as int));
            assert(ms.take(i + 1).last() == entries@[i as int]@);
        }
        let appended = tar_append(&mut w, &entries[i]);
        if let Err(cause) = appended {
            proof {
                lemma_refusal_stays(ms, i + 1, tar_outcome(ms[i as int])->Err_0);
            }
            return Err(cause);
        }
        i += 1;
    }
    proof {
        assert(members(entries@).take(i as int) =~= members(entries@));
    }
    tar_end(w)
}

/// Turns what an encoder or the archiver returned into the library's
/// result: the bytes as they are, a failure as `Io` with the cause's
/// message.
pub fn sealed(outcome: Result<Vec<u8>, std::io::Error>) -> (r: Result<Vec<u8>, ArchiveError>)
    ensures
        match outcome {
            Ok(bytes) => r == Ok::<Vec<u8>, ArchiveError>(bytes),
            Err(cause) => r matches Err(ArchiveError::Io(text))
                && vstd::string::to_string_from_display_ensures(&cause, text),
        },
{
    match outcome {
        Ok(bytes) => Ok(bytes),
        Err(cause) => Err(ArchiveError::Io(cause.to_string())),
    }
}

fn xz_compress(entries: &Vec<Entry>) -> (r: Result<Vec<u8>, ArchiveError>)
    ensures
        match CompressionFormat::Xz.spec_compress(members(entries@)) {
            Ok(image) => r matches Ok(archive) && archive@ == image,
            Err(text) => r matches Err(ArchiveError::Io(message)) && message@ == text,
        },
{
    match tar_archive(entries) {
        Ok(tar) => sealed(xz_encode(tar.as_slice(), XZ_LEVEL)),
        Err(cause) => sealed(Err(cause)),
    }
}

fn gz_compress(entries: &Vec<Entry>) -> (r: Result<Vec<u8>, ArchiveError>)
    ensures
        match CompressionFormat::Gz.spec_compress(members(entries@)) {
            Ok(image) => r matches Ok(archive) && archive@ == image,
            Err(text) => r matches Err(ArchiveError::Io(message)) && message@ == text,
        },
{
    match tar_archive(entries) {
        Ok(tar) => sealed(gz_encode(tar.as_slice(), GZ_LEVEL)),
        Err(cause) => sealed(Err(cause)),
    }
}

fn zst_compress(entries: &Vec<Entry>) -> (r: Result<Vec<u8>, ArchiveError>)
    ensures
        match CompressionFormat::Zst.spec_compress(members(entries@)) {
            Ok(image) => r matches Ok(archive) && archive@ == image,
            Err(text) => r matches Err(ArchiveError::Io(message)) && message@ == text,
        },
{
    match tar_archive(entries) {
        Ok(tar) => sealed(zst_encode(tar.as_slice(), ZST_LEVEL)),
        Err(cause) => sealed(Err(cause)),
    }
}

fn bz2_compress(entries: &Vec<Entry>) -> (r: Result<Vec<u8>, ArchiveError>)
    ensures
        match CompressionFormat::Bz2.spec_compress(members(entries@)) {
            Ok(image) => r matches Ok(archive) && archive@ == image,
            Err(text) => r matches Err(ArchiveError::Io(message)) && message@ == text,
        },
{
    match tar_archive(entries) {
        Ok(tar) => sealed(bz2_encode(tar.as_slice(), BZ2_LEVEL)),
        Err(cause) => sealed(Err(cause)),
    }
}

/// The regular files among the entries, in order.
pub fn regular_files<'a>(entries: &'a Vec<Entry>) -> (files: Vec<&'a Entry>)
    ensures
        block_of(files@) == file_list(members(entries@)),
{
    let mut files: Vec<&Entry> = Vec::new();
    let mut i: usize = 0;
    while i < entries.len()
        invariant
            i <= entries@.len(),
            block_of(files@) == file_list(members(entries@).take(i as int)),
        decreases entries@.len() - i,
    {
        let entry = &entries[i];
        proof {
            let ms = members(entries@);
            assert(ms.take(i + 1).drop_last() =~= ms.take(i as int));
        }
        if let EntryKind::File = entry.kind {
            files.push(entry);
        }
        i += 1;
    }
    proof {
        assert(members(entries@).take(i as int) =~= members(entries@));
    }
    files
}

fn sevenz_compress(entries: &Vec<Entry>) -> (r: Result<Vec<u8>, ArchiveError>)
    ensures
        match sevenz_outcome(members(entries@)) {
            Ok(image) => r matches Ok(archive) && archive@ == image,
            Err(text) => r matches Err(ArchiveError::Io(message)) && message@ == text,
        },
{
    let mut sink = match sevenz_begin() {
        Ok(sink) => sink,
        Err(cause) => {
            return Err(ArchiveError::Io(cause.to_string()));
        },
    };
    let files = regular_files(entries);
    if files.len() > 0 {
        if let Err(cause) = sevenz_push(&mut sink, &files) {
            return Err(ArchiveError::Io(cause.to_string()));
        }
    }
    sealed(sevenz_end(sink))
}

/// Writes the xz-compressed tar archive of the entries.
pub fn xz(entries: &Vec<Entry>) -> (r: Result<Vec<u8>, ArchiveError>)
    ensures
        match CompressionFormat::Xz.spec_compress(members(entries@)) {
            Ok(image) => r matches Ok(archive) && archive@ == image,
            Err(text) => r matches Err(ArchiveError::Io(message)) && message@ == text,
        },
{
    CompressionFormat::Xz.compress(entries)
}

/// Writes the gzip-compressed tar archive of the entries.
pub fn gz(entries: &Vec<Entry>) -> (r: Result<Vec<u8>, ArchiveError>)
    ensures
        match CompressionFormat::Gz.spec_compress(members(entries@)) {
            Ok(image) => r matches Ok(archive) && archive@ == image,
            Err(text) => r matches Err(ArchiveError::Io(message)) && message@ == text,
        },
{
    CompressionFormat::Gz.compress(entries)
}

/// Writes the zstd-compressed tar archive of the entries.
pub fn zst(entries: &Vec<Entry>) -> (r: Result<Vec<u8>, ArchiveError>)
    ensures
        match CompressionFormat::Zst.spec_compress(members(entries@)) {
            Ok(image) => r matches Ok(archive) && archive@ == image,
            Err(text) => r matches Err(ArchiveError::Io(message)) && message@ == text,
        },
{
    CompressionFormat::Zst.compress(entries)
}

/// Writes the bzip2-compressed tar archive of the entries.
pub fn bz2(entries: &Vec<Entry>) -> (r: Result<Vec<u8>, ArchiveError>)
    ensures
        match CompressionFormat::Bz2.spec_compress(members(entries@)) {
            Ok(image) => r matches Ok(archive) && archive@ == image,
            Err(text) => r matches Err(ArchiveError::Io(message)) && message@ == text,
        },
{
    CompressionFormat::Bz2.compress(entries)
}

/// Writes the 7z archive of the regular files among the entries.
pub fn sevenz(entries: &Vec<Entry>) -> (r: Result<Vec<u8>, ArchiveError>)
    ensures
        match CompressionFormat::SevenZ.spec_compress(members(entries@)) {
            Ok(image) => r matches Ok(archive) && archive@ == image,
            Err(text) => r matches Err(ArchiveError::Io(message)) && message@ == text,
        },
{
    CompressionFormat::SevenZ.compress(entries)
}

} // verus!
