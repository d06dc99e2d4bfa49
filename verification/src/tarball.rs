use std::io::Read;
use vstd::prelude::*;

use crate::codec::says;

verus! {

/// A tar archive that is being written into memory: a `tar::Builder` over a
/// buffer. Nothing inside it is seen here; `tar_written` names the bytes
/// that it has put out.
#[verifier::external_body]
pub struct TarWriter {
    inner: tar::Builder<Vec<u8>>,
}

/// An entry as the tar reader hands it out, before any of it is judged.
pub struct RawEntry {
    /// The path as the archive records it, long names resolved.
    pub path: String,
    /// The type flag of the header.
    pub flag: u8,
    /// Whether the header is in the UStar format.
    pub ustar: bool,
    /// The permission bits, where the header's field can be read.
    pub mode: Option<u32>,
    /// The modification time, where the header's field can be read.
    pub mtime: Option<u64>,
    /// The content.
    pub data: Vec<u8>,
    /// The link name, where the entry has one.
    pub link: Option<String>,
}

/// A raw entry as contracts speak of it.
pub ghost struct RawMember {
    pub path: Seq<char>,
    pub flag: u8,
    pub ustar: bool,
    pub mode: Option<u32>,
    pub mtime: Option<u64>,
    pub data: Seq<u8>,
    pub link: Option<Seq<char>>,
}

impl View for RawEntry {
    type V = RawMember;

    open spec fn view(&self) -> RawMember {
        RawMember {
            path: self.path@,
            flag: self.flag,
            ustar: self.ustar,
            mode: self.mode,
            mtime: self.mtime,
            data: self.data@,
            link: match self.link {
                Some(target) => Some(target@),
                None => None,
            },
        }
    }
}

/// The raw entries as contracts speak of them.
pub open spec fn raw_members(entries: Seq<RawEntry>) -> Seq<RawMember> {
    entries.map_values(|e: RawEntry| e@)
}

/// The bytes that a writer has put out so far.
pub uninterp spec fn tar_written(w: TarWriter) -> Seq<u8>;

/// What `tar` makes of an entry with content. Where it takes the entry,
/// these are the bytes that it appends: the header made from these fields,
/// the content and its padding. Where it refuses the entry, as it does a
/// path that it cannot record, this is the message of its error.
pub uninterp spec fn tar_data_record(
    path: Seq<char>,
    flag: u8,
    mode: u32,
    mtime: u64,
    size: u64,
    data: Seq<u8>,
) -> Result<Seq<u8>, Seq<char>>;

/// What `tar` makes of a link. Where it takes the link, these are the
/// bytes that it appends: the header made from these fields. Where it
/// refuses the link, as it does a path or a target that it cannot record,
/// this is the message of its error.
pub uninterp spec fn tar_link_record(
    path: Seq<char>,
    flag: u8,
    mode: u32,
    mtime: u64,
    size: u64,
    target: Seq<char>,
) -> Result<Seq<u8>, Seq<char>>;

/// What the reader of `tar` makes of an archive: the entries that it hands
/// out, or the message of the error with which it refuses the archive.
pub uninterp spec fn tar_listing(archive: Seq<u8>) -> Result<Seq<RawMember>, Seq<char>>;

/// The end of a tar archive: 1024 zero bytes.
pub open spec fn tar_end_marker() -> Seq<u8> {
    Seq::new(1024, |i: int| 0u8)
}

/// Calls `tar::Builder::new` on an empty buffer. Nothing is written yet.
#[verifier::external_body]
pub(crate) fn tar_begin() -> (w: TarWriter)
    ensures
        tar_written(w) == Seq::<u8>::empty(),
{
    TarWriter { inner: tar::Builder::new(Vec::new()) }
}

/// Calls `tar::Builder::append_data` with a new GNU header that holds the
/// type flag, the mode, the time and the size. The call fails only where
/// the path cannot be recorded: the content is read from memory and the
/// archive is written to a buffer, and neither fails. So its outcome goes by
/// its arguments alone, and `tar_data_record` names it: where there is a
/// record the call succeeds and the record has been appended to what was
/// written, and where there is a message the call fails with it.
#[verifier::external_body]
pub(crate) fn tar_append_data(
    w: &mut TarWriter,
    path: &str,
    flag: u8,
    mode: u32,
    mtime: u64,
    size: u64,
    data: &[u8],
) -> (r: Result<(), std::io::Error>)
    ensures
        match tar_data_record(path@, flag, mode, mtime, size, data@) {
            Ok(record) => r is Ok && tar_written(*final(w)) == tar_written(*old(w)) + record,
            Err(text) => r matches Err(cause) && says(cause, text),
        },
{
    let mut header = tar::Header::new_gnu();
    header.set_entry_type(tar::EntryType::new(flag));
    header.set_mode(mode);
    header.set_mtime(mtime);
    header.set_size(size);
    w.inner.append_data(&mut header, path, data)
}

/// Calls `tar::Builder::append_link` with a new GNU header that holds the
/// type flag, the mode, the time and the size. The call fails only where
/// the path or the target cannot be recorded: the archive is written to a
/// buffer, which does not fail. So its outcome goes by its arguments alone,
/// and `tar_link_record` names it: where there is a record the call succeeds
/// and the record has been appended to what was written, and where there is
/// a message the call fails with it.
#[verifier::external_body]
pub(crate) fn tar_append_link(
    w: &mut TarWriter,
    path: &str,
    flag: u8,
    mode: u32,
    mtime: u64,
    size: u64,
    target: &str,
) -> (r: Result<(), std::io::Error>)
    ensures
        match tar_link_record(path@, flag, mode, mtime, size, target@) {
            Ok(record) => r is Ok && tar_written(*final(w)) == tar_written(*old(w)) + record,
            Err(text) => r matches Err(cause) && says(cause, text),
        },
{
    let mut header = tar::Header::new_gnu();
    header.set_entry_type(tar::EntryType::new(flag));
    header.set_mode(mode);
    header.set_mtime(mtime);
    header.set_size(size);
    w.inner.append_link(&mut header, path, target)
}

/// Calls `tar::Builder::into_inner`, which finishes the archive with 1024
/// zero bytes and hands the buffer out. It returns an error only where
/// writing those bytes fails, and they are appended to a `Vec<u8>`, which
/// does not fail: the call succeeds.
#[verifier::external_body]
pub(crate) fn tar_end(w: TarWriter) -> (r: Result<Vec<u8>, std::io::Error>)
    ensures
        r is Ok,
        r matches Ok(archive) ==> archive@ == tar_written(w) + tar_end_marker(),
{
    w.inner.into_inner()
}

/// Walks `tar::Archive::entries` over the archive and hands out each entry's
/// path, header fields, content and link name as plain values. The archive
/// is read from memory, so the outcome goes by its bytes alone, and
/// `tar_listing` names it: the list, or the message of the error.
#[verifier::external_body]
pub(crate) fn tar_list(archive: &[u8]) -> (r: Result<Vec<RawEntry>, std::io::Error>)
    ensures
        match tar_listing(archive@) {
            Ok(listed) => r matches Ok(entries) && raw_members(entries@) == listed,
            Err(text) => r matches Err(cause) && says(cause, text),
        },
{
    let mut entries = Vec::new();
    for entry in tar::Archive::new(archive).entries()? {
        let mut entry = entry?;
        let path = String::from_utf8_lossy(&entry.path_bytes()).into_owned();
        let link = entry.link_name_bytes().map(|l| String::from_utf8_lossy(&l).into_owned());
        let header = entry.header().clone();
        let (flag, ustar) = (header.entry_type().as_byte(), header.as_ustar().is_some());
        let (mode, mtime) = (header.mode().ok(), header.mtime().ok());
        let mut data = Vec::new();
        entry.read_to_end(&mut data)?;
        entries.push(RawEntry { path, flag, ustar, mode, mtime, data, link });
    }
    Ok(entries)
}

} // verus!
