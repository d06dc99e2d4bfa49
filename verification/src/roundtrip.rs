use vstd::prelude::*;

use crate::entry::{EntryKind, Member, FILE_MODE};
use crate::extension::folded;
use crate::pack::{flag_of, tar_image, CompressionFormat};
use crate::path::{
    is_name, is_place, lemma_extension_of_name, lemma_names_are_names,
    lemma_place_has_no_outer_separator, names, spec_extension, spec_file_name,
};
use crate::resolve::{base_name, spec_resolve_output, Resolution};
use crate::sevenz::SevenZMember;
use crate::tarball::{tar_listing, RawMember};
use crate::unpack::{
    extraction, format_of_name, is_broken, is_sound, item_extraction, lemma_same_table, unpacked,
    unpacked_item, DeCompressionFormat, PackedView, MODE_MASK,
};

verus! {

/// Whether an entry is written the way unpacking writes entries: its path
/// is a place, its mode lies under `MODE_MASK`, only a file has content,
/// and a link, and nothing else, has a target.
pub open spec fn is_plain(m: Member) -> bool {
    &&& is_place(m.path)
    &&& m.mode & MODE_MASK == m.mode
    &&& m.kind != EntryKind::File ==> m.data.len() == 0
    &&& m.kind.spec_is_link() <==> m.link.len() > 0
}

/// The raw entry that carries the fields of an entry as they are, under
/// the type flag of its kind.
pub open spec fn recorded(m: Member, ustar: bool) -> RawMember {
    RawMember {
        path: m.path,
        flag: flag_of(m.kind),
        ustar,
        mode: Some(m.mode),
        mtime: Some(m.mtime),
        data: m.data,
        link: if m.kind.spec_is_link() {
            Some(m.link)
        } else {
            None
        },
    }
}

/// The item that carries the name and content of a file as they are.
pub open spec fn recorded_item(m: Member) -> SevenZMember {
    SevenZMember { name: m.path, directory: false, data: m.data }
}

/// Unpacking undoes recording: a plain entry is unpacked, unchanged, from
/// the raw entry that carries its fields, whatever the format of the header.
pub proof fn lemma_unpacked_as_recorded(m: Member, ustar: bool)
    requires
        is_plain(m),
    ensures
        unpacked(recorded(m, ustar)) == Some(m),
        !is_broken(recorded(m, ustar)),
{
    lemma_place_has_no_outer_separator(m.path);
    let got = unpacked(recorded(m, ustar))->0;
    assert(got.data =~= m.data);
    assert(got.link =~= m.link);
}

/// Unpacking undoes recording for a whole tree: plain entries are unpacked,
/// unchanged and in order, from the raw entries that carry their fields.
pub proof fn lemma_extraction_of_recorded(ms: Seq<Member>, ustar: bool)
    requires
        forall|k: int| 0 <= k < ms.len() ==> is_plain(#[trigger] ms[k]),
    ensures
        extraction(ms.map_values(|m: Member| recorded(m, ustar))) == ms,
        is_sound(ms.map_values(|m: Member| recorded(m, ustar))),
    decreases ms.len(),
{
    let raws = ms.map_values(|m: Member| recorded(m, ustar));
    assert forall|k: int| 0 <= k < raws.len() implies !is_broken(#[trigger] raws[k]) by {
        lemma_unpacked_as_recorded(ms[k], ustar);
    }
    if ms.len() == 0 {
        assert(extraction(raws) =~= ms);
    } else {
        let front = ms.drop_last();
        assert(raws.drop_last() =~= front.map_values(|m: Member| recorded(m, ustar)));
        lemma_extraction_of_recorded(front, ustar);
        lemma_unpacked_as_recorded(ms.last(), ustar);
        assert(extraction(raws) =~= ms);
    }
}

/// A plain file with the default mode and no time is unpacked, unchanged,
/// from the 7z item that carries its name and content.
pub proof fn lemma_unpacked_as_recorded_item(m: Member)
    requires
        is_plain(m),
        m.kind == EntryKind::File,
        m.mode == FILE_MODE,
        m.mtime == 0,
    ensures
        unpacked_item(recorded_item(m)) == Some(m),
{
    let got = unpacked_item(recorded_item(m))->0;
    assert(got.link =~= m.link);
}

/// The base name of an input directory is not empty and holds no `/`.
proof fn lemma_base_name_is_name(input: Seq<char>)
    ensures
        base_name(input).len() > 0,
        !base_name(input).contains('/'),
{
    reveal_strlit("archive");
    match spec_file_name(input) {
        Some(name) => {
            lemma_names_are_names(input, 0);
            assert(is_name(names(input).last()));
        },
        None => {
            let word = "archive"@;
            assert(!word.contains('/')) by {
                if word.contains('/') {
                    let k = choose|k: int| 0 <= k < word.len() && word[k] == '/';
                    assert(word[k] != '/');
                }
            }
        },
    }
}

/// The default extension of a format ends in an extension of the table
/// that selects the format.
proof fn lemma_default_extension_selects(input: Seq<char>, format: CompressionFormat)
    ensures
        format_of_name(base_name(input) + seq!['.'] + format.spec_default_extension()) matches Some(
            reader,
        ) && reader.writer() == format,
{
    reveal_strlit("tar.xz");
    reveal_strlit("tar.gz");
    reveal_strlit("tar.zst");
    reveal_strlit("tar.bz2");
    reveal_strlit("7z");
    reveal_strlit("xz");
    reveal_strlit("txz");
    reveal_strlit("gz");
    reveal_strlit("tgz");
    reveal_strlit("zst");
    reveal_strlit("tzst");
    reveal_strlit("bz2");
    reveal_strlit("tbz2");
    lemma_base_name_is_name(input);
    let base = base_name(input);
    let whole = base + seq!['.'] + format.spec_default_extension();
    let tar = base + seq!['.', 't', 'a', 'r'];
    assert(!tar.contains('/')) by {
        if tar.contains('/') {
            let k = choose|k: int| 0 <= k < tar.len() && tar[k] == '/';
            if k < base.len() {
                assert(base.contains(base[k]));
            }
        }
    }
    let (stem, ext) = match format {
        CompressionFormat::Xz => (tar, seq!['x', 'z']),
        CompressionFormat::Gz => (tar, seq!['g', 'z']),
        CompressionFormat::Zst => (tar, seq!['z', 's', 't']),
        CompressionFormat::Bz2 => (tar, seq!['b', 'z', '2']),
        CompressionFormat::SevenZ => (base, seq!['7', 'z']),
    };
    assert(whole =~= stem + seq!['.'] + ext);
    assert(!ext.contains('.') && !ext.contains('/')) by {
        if ext.contains('.') {
            let k = choose|k: int| 0 <= k < ext.len() && ext[k] == '.';
            assert(ext[k] != '.');
        }
        if ext.contains('/') {
            let k = choose|k: int| 0 <= k < ext.len() && ext[k] == '/';
            assert(ext[k] != '/');
        }
    }
    lemma_extension_of_name(stem, ext);
    assert(spec_extension(whole) == Some(ext));
    assert(folded(ext) =~= ext);
    match format {
        CompressionFormat::Xz => {
            assert(ext =~= "xz"@);
        },
        CompressionFormat::Gz => {
            assert(ext =~= "gz"@);
        },
        CompressionFormat::Zst => {
            assert(ext =~= "zst"@);
        },
        CompressionFormat::Bz2 => {
            assert(ext =~= "bz2"@);
        },
        CompressionFormat::SevenZ => {
            assert(ext =~= "7z"@);
        },
    }
}

/// An archive is read in the format it was written in: the file name that
/// an output specification resolves to selects, for reading, the format
/// that the specification resolves to.
pub proof fn lemma_resolved_name_selects_format(input: Seq<char>, output: Seq<char>)
    ensures
        spec_resolve_output(input, output) matches Resolution::Named(name, format) ==> (
        format_of_name(name) matches Some(reader) && reader.writer() == format),
{
    match spec_resolve_output(input, output) {
        Resolution::Named(name, format) => {
            if output.contains('.') {
                lemma_same_table(spec_extension(output)->0);
            } else {
                lemma_default_extension_selects(input, format);
            }
        },
        _ => {},
    }
}

/// Unpacking undoes recording for the regular files of a 7z archive:
/// plain files with the default mode and no time are unpacked, unchanged and
/// in order, from the items that carry their names and contents.
pub proof fn lemma_item_extraction_of_recorded(ms: Seq<Member>)
    requires
        forall|k: int|
            0 <= k < ms.len() ==> {
                &&& is_plain(#[trigger] ms[k])
                &&& ms[k].kind == EntryKind::File
                &&& ms[k].mode == FILE_MODE
                &&& ms[k].mtime == 0
            },
    ensures
        item_extraction(ms.map_values(|m: Member| recorded_item(m))) == ms,
    decreases ms.len(),
{
    let items = ms.map_values(|m: Member| recorded_item(m));
    if ms.len() == 0 {
        assert(item_extraction(items) =~= ms);
    } else {
        let front = ms.drop_last();
        assert(items.drop_last() =~= front.map_values(|m: Member| recorded_item(m)));
        lemma_item_extraction_of_recorded(front);
        lemma_unpacked_as_recorded_item(ms.last());
        assert(item_extraction(items) =~= ms);
    }
}

/// What a round trip through a stream format rests on. Where the archiver
/// takes the entries and the encoder writes a stream, where the decoder
/// reads out of that stream the tar archive that went in, and the reader
/// lists that archive as the entries that were recorded, reading what was
/// written gives back a tree of plain entries unchanged: the library's own
/// steps lose nothing.
pub proof fn lemma_round_trip_through_stream(
    ms: Seq<Member>,
    writer: CompressionFormat,
    reader: DeCompressionFormat,
    ustar: bool,
)
    requires
        reader.writer() == writer,
        writer != CompressionFormat::SevenZ,
        forall|k: int| 0 <= k < ms.len() ==> is_plain(#[trigger] ms[k]),
        writer.spec_compress(ms) is Ok,
        reader.spec_decoded(writer.spec_compress(ms)->Ok_0) == tar_image(ms),
        tar_listing(tar_image(ms)->Ok_0) == Ok::<Seq<RawMember>, Seq<char>>(
            ms.map_values(|m: Member| recorded(m, ustar)),
        ),
    ensures
        reader.spec_decompress(PackedView::Stream(writer.spec_compress(ms)->Ok_0)) == Ok::<
            Seq<Member>,
            Seq<char>,
        >(ms),
{
    lemma_extraction_of_recorded(ms, ustar);
}

/// Plain files with the default mode and no time come back unchanged from
/// the items of a 7z archive that carry their names and contents.
pub proof fn lemma_round_trip_through_sevenz(ms: Seq<Member>)
    requires
        forall|k: int|
            0 <= k < ms.len() ==> {
                &&& is_plain(#[trigger] ms[k])
                &&& ms[k].kind == EntryKind::File
                &&& ms[k].mode == FILE_MODE
                &&& ms[k].mtime == 0
            },
    ensures
        DeCompressionFormat::SevenZ.spec_decompress(
            PackedView::Listed(ms.map_values(|m: Member| recorded_item(m))),
        ) == Ok::<Seq<Member>, Seq<char>>(ms),
{
    lemma_item_extraction_of_recorded(ms);
}

} // verus!
