use vstd::prelude::*;

use crate::codec::says;
use crate::entry::Entry;

verus! {

/// The error of `sevenz_rust`. Nothing is known of what it holds.
#[verifier::external_type_specification]
#[verifier::external_body]
pub struct ExSevenZError(sevenz_rust::Error);

/// A 7z archive that is being written into memory: a
/// `sevenz_rust::SevenZWriter` over a buffer. Nothing inside it is seen
/// here; `sevenz_blocks` names the solid blocks that it has taken in.
#[verifier::external_body]
pub struct SevenZSink {
    inner: sevenz_rust::SevenZWriter<std::io::Cursor<Vec<u8>>>,
}

/// An entry as a 7z reader hands it out, before any of it is judged.
pub struct SevenZItem {
    /// The name as the archive records it.
    pub name: String,
    /// Whether the archive marks the entry as a directory.
    pub directory: bool,
    /// The content.
    pub data: Vec<u8>,
}

/// An item as contracts speak of it.
pub ghost struct SevenZMember {
    pub name: Seq<char>,
    pub directory: bool,
    pub data: Seq<u8>,
}

impl View for SevenZItem {
    type V = SevenZMember;

    open spec fn view(&self) -> SevenZMember {
        SevenZMember { name: self.name@, directory: self.directory, data: self.data@ }
    }
}

/// The items as contracts speak of them.
pub open spec fn sevenz_members(items: Seq<SevenZItem>) -> Seq<SevenZMember> {
    items.map_values(|e: SevenZItem| e@)
}

/// A file as a 7z archive takes it in: its name and its content.
pub open spec fn named_content(file: &Entry) -> (Seq<char>, Seq<u8>) {
    (file.path@, file.data@)
}

/// The files of one solid block: the name and the content of each.
pub open spec fn block_of(files: Seq<&Entry>) -> Seq<(Seq<char>, Seq<u8>)> {
    files.map_values(|f: &Entry| named_content(f))
}

/// The solid blocks that a sink has taken in so far, each a list of files.
pub uninterp spec fn sevenz_blocks(w: SevenZSink) -> Seq<Seq<(Seq<char>, Seq<u8>)>>;

/// What `sevenz_rust` makes of the files of a solid block when they are
/// pushed: nothing where it takes the block in, or the message of the error
/// with which it refuses the block.
pub uninterp spec fn sevenz_refusal(block: Seq<(Seq<char>, Seq<u8>)>) -> Option<Seq<char>>;

/// What `sevenz_rust` makes of these solid blocks when the archive is
/// finished: the archive that it writes, or the message of its error.
pub uninterp spec fn sevenz_image(blocks: Seq<Seq<(Seq<char>, Seq<u8>)>>) -> Result<
    Seq<u8>,
    Seq<char>,
>;

/// Calls `sevenz_rust::SevenZWriter::new` on an empty buffer. All that the
/// call does is to move the position in the buffer past the place of the
/// signature header, so it succeeds, and the sink has taken in nothing yet.
#[verifier::external_body]
pub(crate) fn sevenz_begin() -> (r: Result<SevenZSink, sevenz_rust::Error>)
    ensures
        r is Ok,
        r matches Ok(w) ==> sevenz_blocks(w) == Seq::<Seq<(Seq<char>, Seq<u8>)>>::empty(),
{
    let inner = sevenz_rust::SevenZWriter::new(std::io::Cursor::new(Vec::new()))?;
    Ok(SevenZSink { inner })
}

/// Calls `sevenz_rust::SevenZWriter::push_archive_entries` with one entry
/// and one reader for each file: the entry holds the file's name and is
/// marked as having content, the reader gives the content. The contents
/// come from memory and the block goes to memory, so the outcome goes by
/// the files alone, and `sevenz_refusal` names it: where there is no
/// message the call succeeds and the sink has taken the files in as one
/// more solid block, and where there is one the call fails with it. It is
/// made for a block that holds at least one file.
#[verifier::external_body]
pub(crate) fn sevenz_push(w: &mut SevenZSink, files: &Vec<&Entry>) -> (r: Result<
    (),
    sevenz_rust::Error,
>)
    requires
        files@.len() > 0,
    ensures
        match sevenz_refusal(block_of(files@)) {
            None => r is Ok && sevenz_blocks(*final(w)) == sevenz_blocks(*old(w)).push(
                block_of(files@),
            ),
            Some(text) => r matches Err(cause) && says(cause, text),
        },
{
    let entries = files.iter().map(
        |f| {
            let mut entry = sevenz_rust::SevenZArchiveEntry::new();
            entry.name = f.path.clone();
            entry.has_stream = true;
            entry
        },
    ).collect();
    let readers = files.iter().map(|f| sevenz_rust::SourceReader::new(&f.data[..])).collect();
    w.inner.push_archive_entries(entries, sevenz_rust::SeqReader::new(readers))?;
    Ok(())
}

/// Calls `sevenz_rust::SevenZWriter::finish` and takes the buffer out of the
/// cursor. The archive goes to memory, so the outcome goes by the blocks
/// that were taken in, and `sevenz_image` names it: the archive, or the
/// message of the error.
#[verifier::external_body]
pub(crate) fn sevenz_end(w: SevenZSink) -> (r: Result<Vec<u8>, std::io::Error>)
    ensures
        match sevenz_image(sevenz_blocks(w)) {
            Ok(image) => r matches Ok(archive) && archive@ == image,
            Err(text) => r matches Err(cause) && says(cause, text),
        },
{
    Ok(w.inner.finish()?.into_inner())
}

} // verus!
