use compax::entry::{Entry, EntryKind, DIRECTORY_MODE, FILE_MODE};
use compax::error::ArchiveError;
use compax::sevenz::SevenZItem;
use compax::tarball::RawEntry;
use compax::unpack::{unpack_entries, unpack_items, unpack_tar};

fn raw(path: &str, flag: u8, data: &[u8]) -> RawEntry {
    RawEntry {
        path: path.to_string(),
        flag,
        ustar: true,
        mode: Some(0o644),
        mtime: Some(10),
        data: data.to_vec(),
        link: None,
    }
}

#[test]
fn paths_are_placed_below_the_output_directory() {
    let raws = vec![
        raw("./a//b.txt", b'0', b"1"),
        raw("/etc/passwd", b'0', b"2"),
        raw("../outside", b'0', b"3"),
        raw("x/../../y", b'0', b"4"),
        raw("./", b'5', b""),
        raw("", b'0', b"5"),
        raw("dir/", b'5', b""),
    ];
    let entries = unpack_entries(&raws).unwrap();
    let paths: Vec<&str> = entries.iter().map(|e| e.path.as_str()).collect();
    assert_eq!(paths, vec!["a/b.txt", "etc/passwd", "dir"]);
    assert_eq!(entries[0].data, b"1".to_vec());
    assert_eq!(entries[1].data, b"2".to_vec());
    assert_eq!(entries[2].kind, EntryKind::Directory);
}

#[test]
fn kinds_go_by_the_type_flag() {
    let mut link = raw("l", b'2', b"");
    link.link = Some("target".to_string());
    let mut hard = raw("h", b'1', b"");
    hard.link = Some("a".to_string());
    let mut old_dir = raw("old/", b'0', b"ignored");
    old_dir.ustar = false;
    let raws = vec![
        raw("a", b'0', b"file"),
        raw("d", b'5', b"ignored"),
        link,
        hard,
        raw("pax", b'x', b"k=v"),
        raw("global", b'g', b"k=v"),
        raw("longname", b'L', b"n"),
        raw("longlink", b'K', b"n"),
        raw("fifo", b'6', b""),
        raw("sparse", b'S', b"holes"),
        raw("new/", b'0', b"kept"),
        old_dir,
    ];
    let entries = unpack_entries(&raws).unwrap();
    let seen: Vec<(&str, EntryKind)> = entries.iter().map(|e| (e.path.as_str(), e.kind)).collect();
    assert_eq!(
        seen,
        vec![
            ("a", EntryKind::File),
            ("d", EntryKind::Directory),
            ("l", EntryKind::Symlink),
            ("h", EntryKind::HardLink),
            ("fifo", EntryKind::File),
            ("sparse", EntryKind::File),
            ("new", EntryKind::File),
            ("old", EntryKind::Directory),
        ]
    );
    assert_eq!(entries[1].data, Vec::<u8>::new());
    assert_eq!(entries[2].link, "target");
    assert_eq!(entries[3].link, "a");
    assert_eq!(entries[0].link, "");
    assert_eq!(entries[5].data, b"holes".to_vec());
    assert_eq!(entries[7].data, Vec::<u8>::new());
}

#[test]
fn modes_are_masked_and_defaulted() {
    let mut setuid = raw("s", b'0', b"");
    setuid.mode = Some(0o104755);
    let mut unknown = raw("u", b'0', b"");
    unknown.mode = None;
    unknown.mtime = None;
    let mut unknown_dir = raw("ud", b'5', b"");
    unknown_dir.mode = None;
    let entries = unpack_entries(&vec![setuid, unknown, unknown_dir]).unwrap();
    assert_eq!(entries[0].mode, 0o755);
    assert_eq!(entries[0].mtime, 10);
    assert_eq!(entries[1].mode, FILE_MODE);
    assert_eq!(entries[1].mtime, 0);
    assert_eq!(entries[2].mode, DIRECTORY_MODE);
}

#[test]
fn link_without_target_is_corrupt() {
    let raws = vec![raw("a", b'0', b"file"), raw("l", b'2', b"")];
    assert_eq!(
        unpack_entries(&raws),
        Err(ArchiveError::CorruptArchive("link without a target".to_string()))
    );
    let mut empty = raw("h", b'1', b"");
    empty.link = Some(String::new());
    assert!(matches!(unpack_entries(&vec![empty]), Err(ArchiveError::CorruptArchive(_))));
    let mut skipped = raw("../l", b'2', b"");
    skipped.link = None;
    assert_eq!(unpack_entries(&vec![skipped]), Ok(Vec::new()));
}

#[test]
fn items_of_a_sevenz_archive() {
    let items = vec![
        SevenZItem { name: "a/b.txt".to_string(), directory: false, data: b"x".to_vec() },
        SevenZItem { name: "a".to_string(), directory: true, data: b"y".to_vec() },
        SevenZItem { name: "../up".to_string(), directory: false, data: b"z".to_vec() },
        SevenZItem { name: "/abs/./f".to_string(), directory: false, data: b"w".to_vec() },
        SevenZItem { name: String::new(), directory: false, data: b"v".to_vec() },
    ];
    let entries = unpack_items(&items);
    assert_eq!(
        entries,
        vec![
            Entry::file("a/b.txt", b"x".to_vec()),
            Entry::directory("a"),
            Entry::file("abs/f", b"w".to_vec()),
        ]
    );
}

#[test]
fn unpack_tar_passes_failures_on_as_corrupt() {
    let failure = std::io::Error::new(std::io::ErrorKind::InvalidData, "bad stream");
    assert_eq!(
        unpack_tar(Err(failure)),
        Err(ArchiveError::CorruptArchive("bad stream".to_string()))
    );
    assert_eq!(unpack_tar(Ok(vec![0u8; 1024])), Ok(Vec::new()));
    assert_eq!(unpack_tar(Ok(Vec::new())), Ok(Vec::new()));
    assert!(matches!(unpack_tar(Ok(vec![1u8; 600])), Err(ArchiveError::CorruptArchive(_))));
}
